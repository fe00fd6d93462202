use crate::buffer::BufferType;
use crate::consts::INIT_SIZE;
use vstd::prelude::*;

verus! {

/// The overlay of one output: its logical size and its two buffers, the one
/// on screen (`buffer`) and the one being prepared (`back_buffer`).
///
/// `surface_id` identifies the shell surface that the compositor's
/// configure and frame events name.
#[derive(Clone, Copy, Debug, PartialEq, Eq)]
pub struct DimSurface {
    pub surface_id: u32,
    pub width: u32,
    pub height: u32,
    pub buffer: BufferType,
    pub back_buffer: BufferType,
    /// Whether the compositor has given a size yet; only then can the
    /// surface be drawn.
    pub configured: bool,
}

/// What drawing asks of the compositor: attach the back buffer, mark
/// `width` x `height` as damaged, request a frame callback if
/// `request_frame`, and commit. The attached buffer becomes the front one,
/// and a new back buffer holding `buffer`, the content now shown, takes its
/// place.
#[derive(Clone, Copy, Debug, PartialEq, Eq)]
pub struct DrawRequest {
    pub width: u32,
    pub height: u32,
    pub request_frame: bool,
    pub buffer: BufferType,
}

/// A dimension given by the compositor, with zero replaced by the initial
/// size.
pub open spec fn usable_size(n: u32) -> u32 {
    if n == 0 {
        INIT_SIZE
    } else {
        n
    }
}

impl DimSurface {
    /// The surface after a draw: the back buffer is on screen, and the next
    /// back buffer starts out with the same content.
    pub open spec fn drawn(self) -> DimSurface {
        DimSurface { buffer: self.back_buffer, ..self }
    }

    pub fn new(surface_id: u32, buffer: BufferType, back_buffer: BufferType) -> (r: DimSurface)
        ensures
            r == (DimSurface {
                surface_id,
                width: INIT_SIZE,
                height: INIT_SIZE,
                buffer,
                back_buffer,
                configured: false,
            }),
    {
        DimSurface {
            surface_id,
            width: INIT_SIZE,
            height: INIT_SIZE,
            buffer,
            back_buffer,
            configured: false,
        }
    }

    /// Puts the back buffer on screen; the back buffer keeps that content
    /// until a new one is set.
    pub fn draw(&mut self, request_next: bool) -> (r: DrawRequest)
        requires
            old(self).configured,
        ensures
            *final(self) == old(self).drawn(),
            r == (DrawRequest {
                width: old(self).width,
                height: old(self).height,
                request_frame: request_next,
                buffer: old(self).back_buffer,
            }),
    {
        self.buffer = self.back_buffer;
        DrawRequest {
            width: self.width,
            height: self.height,
            request_frame: request_next,
            buffer: self.buffer,
        }
    }

    /// The shell surface this overlay is drawn on.
    pub fn layer(&self) -> (r: u32)
        ensures
            r == self.surface_id,
    {
        self.surface_id
    }

    /// Takes the size the compositor gave (zero replaced by the initial
    /// size) and returns it, which is also the viewport's destination size.
    pub fn set_size(&mut self, width: u32, height: u32) -> (r: (u32, u32))
        ensures
            *final(self) == (DimSurface {
                width: usable_size(width),
                height: usable_size(height),
                configured: true,
                ..*old(self)
            }),
            r == (usable_size(width), usable_size(height)),
    {
        self.width = if width == 0 {
            INIT_SIZE
        } else {
            width
        };
        self.height = if height == 0 {
            INIT_SIZE
        } else {
            height
        };
        self.configured = true;
        (self.width, self.height)
    }

    pub fn set_back_buffer(&mut self, back_buffer: BufferType)
        ensures
            *final(self) == (DimSurface { back_buffer, ..*old(self) }),
    {
        self.back_buffer = back_buffer;
    }

    pub fn back_buffer_mut(&mut self) -> (r: &mut BufferType)
        ensures
            *r == old(self).back_buffer,
            *final(self) == (DimSurface { back_buffer: *final(r), ..*old(self) }),
    {
        &mut self.back_buffer
    }
}

/// Drawing twice without setting a new back buffer shows the same content
/// as drawing once: the second draw only shows it again.
pub proof fn lemma_redraw_keeps_front(s: DimSurface)
    ensures
        s.drawn().drawn().buffer == s.drawn().buffer,
        s.drawn().drawn() == s.drawn(),
{
}

} // verus!
