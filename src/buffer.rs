use crate::alpha::{lemma_scaled_monotone, scaled, Alpha};
use vstd::prelude::*;

verus! {

/// Which way of producing buffers the compositor offers; chosen once at
/// startup.
#[derive(Clone, Copy, Debug, PartialEq, Eq, Structural)]
pub enum BufferManager {
    /// The single-pixel buffer protocol: each buffer is a colour held by the
    /// compositor.
    SinglePixel,
    /// Fallback: one-pixel buffers in a shared-memory pool, written directly.
    Shm,
}

/// A colour with one `u32` channel each, as the single-pixel buffer protocol
/// takes it (pre-multiplied).
#[derive(Clone, Copy, Debug, PartialEq, Eq, Structural)]
pub struct Rgba {
    pub r: u32,
    pub g: u32,
    pub b: u32,
    pub a: u32,
}

/// The content of one buffer.
#[derive(Clone, Copy, Debug, PartialEq, Eq)]
pub enum BufferType {
    /// A protocol-native colour buffer.
    Wl(Rgba),
    /// The four bytes of a pooled 1x1 `Argb8888` pixel, in memory order
    /// (little endian: blue, green, red, alpha).
    Shared([u8; 4]),
}

#[derive(Clone, Copy, Debug, PartialEq, Eq, Structural)]
pub enum SetupError {
    /// The compositor offers neither the single-pixel buffer protocol nor
    /// shared memory.
    NoBufferMechanism,
}

impl BufferType {
    /// The largest value of a channel of this buffer.
    pub open spec fn channel_max(self) -> int {
        match self {
            BufferType::Wl(_) => u32::MAX as int,
            BufferType::Shared(_) => 255,
        }
    }

    pub open spec fn alpha_channel(self) -> int {
        match self {
            BufferType::Wl(c) => c.a as int,
            BufferType::Shared(px) => px@[3] as int,
        }
    }

    pub open spec fn color_channels_zero(self) -> bool {
        match self {
            BufferType::Wl(c) => c.r == 0 && c.g == 0 && c.b == 0,
            BufferType::Shared(px) => px@[0] == 0 && px@[1] == 0 && px@[2] == 0,
        }
    }

    /// Black at the opacity `alpha`, pre-multiplied: no colour, and an alpha
    /// channel of `floor(alpha * max)`.
    pub open spec fn is_black_at(self, alpha: Alpha) -> bool {
        &&& self.color_channels_zero()
        &&& self.alpha_channel() == scaled(alpha.level as int, self.channel_max())
    }
}

impl BufferManager {
    /// Whether `b` is of the kind this mechanism produces.
    pub open spec fn produces(self, b: BufferType) -> bool {
        match self {
            BufferManager::SinglePixel => b is Wl,
            BufferManager::Shm => b is Shared,
        }
    }

    /// Picks the mechanism: the single-pixel buffer protocol where it can be
    /// bound, else shared memory; with neither nothing can be shown.
    pub fn select(single_pixel: bool, shm: bool) -> (r: Result<BufferManager, SetupError>)
        ensures
            single_pixel ==> r == Ok::<BufferManager, SetupError>(BufferManager::SinglePixel),
            !single_pixel && shm ==> r == Ok::<BufferManager, SetupError>(BufferManager::Shm),
            !single_pixel && !shm ==> r == Err::<BufferManager, SetupError>(
                SetupError::NoBufferMechanism,
            ),
    {
        if single_pixel {
            Ok(BufferManager::SinglePixel)
        } else if shm {
            Ok(BufferManager::Shm)
        } else {
            Err(SetupError::NoBufferMechanism)
        }
    }

    /// The content of a new buffer: black at the opacity `alpha`.
    pub fn get_buffer(&self, alpha: Alpha) -> (r: BufferType)
        ensures
            self.produces(r),
            r.is_black_at(alpha),
    {
        match self {
            BufferManager::SinglePixel => BufferType::Wl(Rgba { r: 0, g: 0, b: 0, a: alpha.level }),
            BufferManager::Shm => {
                proof {
                    assert(scaled(alpha.level as int, u32::MAX as int) == alpha.level) by (
                    nonlinear_arith);
                }
                let px: [u8; 4] = [0, 0, 0, alpha.to_byte()];
                BufferType::Shared(px)
            },
        }
    }

    /// Writes black at the opacity `alpha` into the first pixel of an
    /// `Argb8888` canvas: three zero colour bytes, then the alpha byte.
    pub fn paint(canvas: &mut [u8], alpha: Alpha)
        requires
            old(canvas)@.len() >= 4,
        ensures
            final(canvas)@ == old(canvas)@.update(0, 0u8).update(1, 0u8).update(2, 0u8).update(
                3,
                scaled(alpha.level as int, 255) as u8,
            ),
    {
        let mut i: usize = 0;
        while i < 3
            invariant
                0 <= i <= 3,
                old(canvas)@.len() >= 4,
                canvas@.len() == old(canvas)@.len(),
                forall|j: int| 0 <= j < i ==> canvas@[j] == 0u8,
                forall|j: int| i <= j < canvas@.len() ==> canvas@[j] == old(canvas)@[j],
            decreases 3 - i,
        {
            canvas[i] = 0;
            i = i + 1;
        }
        canvas[3] = alpha.to_byte();
        assert(canvas@ =~= old(canvas)@.update(0, 0u8).update(1, 0u8).update(2, 0u8).update(
            3,
            scaled(alpha.level as int, 255) as u8,
        ));
    }
}

/// Buffers made by one mechanism: opacity zero gives a fully transparent
/// buffer, full opacity a fully opaque one, and a higher opacity never a
/// lower alpha channel.
pub proof fn lemma_buffer_alpha_order(
    mgr: BufferManager,
    a1: Alpha,
    b1: BufferType,
    a2: Alpha,
    b2: BufferType,
)
    requires
        mgr.produces(b1),
        b1.is_black_at(a1),
        mgr.produces(b2),
        b2.is_black_at(a2),
    ensures
        a1.level == 0 ==> b1.alpha_channel() == 0,
        a1.level == u32::MAX ==> b1.alpha_channel() == b1.channel_max(),
        a1.level <= a2.level ==> b1.alpha_channel() <= b2.alpha_channel(),
{
    let max = b1.channel_max();
    assert(b2.channel_max() == max);
    assert(scaled(0, max) == 0);
    assert(scaled(u32::MAX as int, max) == max) by (nonlinear_arith)
        requires
            max >= 0,
    ;
    if a1.level <= a2.level {
        lemma_scaled_monotone(a1.level as int, a2.level as int, max);
    }
}

} // verus!
