use crate::alpha::{fade_alpha, fade_level, lemma_fade_monotone, Alpha};
use crate::buffer::{BufferManager, BufferType};
use crate::consts::INIT_SIZE;
use crate::opts::DimOpts;
use crate::outputs::{surface_id_taken, surface_ids_unique, SurfaceMap};
use crate::surface::{usable_size, DimSurface, DrawRequest};
use vstd::prelude::*;

verus! {

/// An input device kind that a seat can offer.
#[derive(Clone, Copy, Debug, PartialEq, Eq, Structural)]
pub enum Capability {
    Keyboard,
    Pointer,
    Touch,
}

/// One event of a pointer frame.
#[derive(Clone, Copy, Debug, PartialEq, Eq, Structural)]
pub enum PointerEventKind {
    Enter { serial: u32 },
    Leave,
    Motion,
    Press,
    Release,
    Axis,
}

/// Whether a surface takes keyboard focus.
#[derive(Clone, Copy, Debug, PartialEq, Eq, Structural)]
pub enum KeyboardInteractivity {
    Disabled,
    Exclusive,
}

/// How to set up the shell surface of a new overlay: on the overlay layer,
/// with the given size, keyboard focus, input region and exclusive zone.
#[derive(Clone, Copy, Debug, PartialEq, Eq, Structural)]
pub struct SurfaceSetup {
    pub width: u32,
    pub height: u32,
    pub keyboard: KeyboardInteractivity,
    /// Set an empty input region, so that input reaches the surfaces below.
    pub empty_input_region: bool,
    pub exclusive_zone: i32,
}

/// Events that do not fit the current state. They come from races with the
/// removal of outputs and seats, and are to be reported and ignored.
#[derive(Clone, Copy, Debug, PartialEq, Eq, Structural)]
pub enum DimError {
    /// No overlay is drawn on the surface that the event names.
    UnknownSurface,
    /// No overlay covers the output that the event names.
    UnknownOutput,
    /// The surface is already used by the overlay of another output.
    SurfaceInUse,
    /// The compositor has not given the surface a size yet.
    NotConfigured,
    /// The device to release was never acquired.
    CapabilityNotHeld,
}

/// What to do after a configure: set the viewport's destination to
/// `width` x `height`; where `back_buffer` is set, give the overlay of
/// `output` a back buffer with that content; then draw it.
#[derive(Clone, Copy, Debug, PartialEq, Eq)]
pub struct ConfigureStep {
    pub output: u32,
    pub width: u32,
    pub height: u32,
    pub back_buffer: Option<BufferType>,
    pub draw: DrawRequest,
}

/// What to do on a frame callback: give the overlay of `output` a back
/// buffer with the content `back_buffer`, then draw it.
#[derive(Clone, Copy, Debug, PartialEq, Eq)]
pub struct FrameStep {
    pub output: u32,
    pub back_buffer: BufferType,
    pub draw: DrawRequest,
}

/// The state of the dimmer as a mathematical value.
pub struct DimView {
    pub buffer_mgr: BufferManager,
    pub alpha: Alpha,
    pub passthrough: bool,
    /// Length of the fade-in, in milliseconds.
    pub fade_ms: u64,
    pub fade_done: bool,
    pub surfaces: Map<u32, DimSurface>,
    pub keyboard: bool,
    pub pointer: bool,
    pub touch: bool,
    pub exit: bool,
}

/// The dimmer: one overlay per output, the fade-in clock, the input devices
/// held, and whether input was seen.
pub struct DimData {
    buffer_mgr: BufferManager,
    alpha: Alpha,
    passthrough: bool,
    fade_ms: u64,
    fade_done: bool,
    surfaces: SurfaceMap,
    keyboard: bool,
    pointer: bool,
    touch: bool,
    exit: bool,
}

/// The size of a new shell surface: the output's logical size where it is
/// known, else the initial size.
pub open spec fn layer_size(logical_size: Option<(i32, i32)>) -> (u32, u32) {
    match logical_size {
        Some((w, h)) if w >= 0 && h >= 0 => (w as u32, h as u32),
        _ => (INIT_SIZE, INIT_SIZE),
    }
}

/// A new overlay: both buffers fully transparent, not yet configured.
pub open spec fn fresh_surface(surface_id: u32, b: BufferType) -> DimSurface {
    DimSurface {
        surface_id,
        width: INIT_SIZE,
        height: INIT_SIZE,
        buffer: b,
        back_buffer: b,
        configured: false,
    }
}

/// The overlay after the compositor gave it a size.
pub open spec fn sized(s: DimSurface, width: u32, height: u32) -> DimSurface {
    DimSurface { width: usable_size(width), height: usable_size(height), configured: true, ..s }
}

/// The opacity a frame callback gives an overlay: the fade's opacity at
/// `elapsed` while the fade is on, the target once it is over.
pub open spec fn frame_level(target: Alpha, fade_done: bool, elapsed: u64, fade_ms: u64) -> u32 {
    if fade_done {
        target.level
    } else {
        fade_level(target.level as int, elapsed as int, fade_ms as int) as u32
    }
}

/// Successive frame callbacks, at non-decreasing times and with the fade
/// over at the second if it was at the first, never lower the opacity, and
/// none exceeds the target.
pub proof fn lemma_frame_levels_non_decreasing(
    target: Alpha,
    done1: bool,
    elapsed1: u64,
    done2: bool,
    elapsed2: u64,
    fade_ms: u64,
)
    requires
        elapsed1 <= elapsed2,
        done1 ==> done2,
    ensures
        frame_level(target, done1, elapsed1, fade_ms) <= frame_level(
            target,
            done2,
            elapsed2,
            fade_ms,
        ) <= target.level,
{
    lemma_fade_monotone(target, elapsed1, elapsed2, fade_ms);
}

pub open spec fn is_exit_event(e: PointerEventKind) -> bool {
    !(e is Enter || e is Leave)
}

/// The serials of the pointer's enter events, in order.
pub open spec fn enter_serials(events: Seq<PointerEventKind>) -> Seq<u32>
    decreases events.len(),
{
    if events.len() == 0 {
        Seq::empty()
    } else {
        let rest = enter_serials(events.drop_last());
        match events.last() {
            PointerEventKind::Enter { serial } => rest.push(serial),
            _ => rest,
        }
    }
}

impl DimView {
    pub open spec fn holds(self, cap: Capability) -> bool {
        match cap {
            Capability::Keyboard => self.keyboard,
            Capability::Pointer => self.pointer,
            Capability::Touch => self.touch,
        }
    }

    pub open spec fn with_device(self, cap: Capability, held: bool) -> DimView {
        match cap {
            Capability::Keyboard => DimView { keyboard: held, ..self },
            Capability::Pointer => DimView { pointer: held, ..self },
            Capability::Touch => DimView { touch: held, ..self },
        }
    }

    /// Whether `surface_id` is the surface of the overlay of `output`.
    pub open spec fn drawn_on(self, output: u32, surface_id: u32) -> bool {
        self.surfaces.contains_key(output) && self.surfaces[output].surface_id == surface_id
    }

    pub open spec fn knows_surface(self, surface_id: u32) -> bool {
        exists|k: u32| self.drawn_on(k, surface_id)
    }

    /// The content of a new fully transparent buffer.
    pub open spec fn is_transparent_buffer(self, b: BufferType) -> bool {
        self.buffer_mgr.produces(b) && b.is_black_at(Alpha { level: 0 })
    }
}

impl View for DimData {
    type V = DimView;

    closed spec fn view(&self) -> DimView {
        DimView {
            buffer_mgr: self.buffer_mgr,
            alpha: self.alpha,
            passthrough: self.passthrough,
            fade_ms: self.fade_ms,
            fade_done: self.fade_done,
            surfaces: self.surfaces@,
            keyboard: self.keyboard,
            pointer: self.pointer,
            touch: self.touch,
            exit: self.exit,
        }
    }
}

impl DimData {
    pub closed spec fn wf(&self) -> bool {
        self.surfaces.wf()
    }

    /// No two overlays share a shell surface, and there are finitely many.
    pub proof fn lemma_wf(&self)
        requires
            self.wf(),
        ensures
            surface_ids_unique(self@.surfaces),
            self@.surfaces.dom().finite(),
    {
        self.surfaces.lemma_wf();
    }

    /// A dimmer with no overlay yet, fading in from the start.
    pub fn new(buffer_mgr: BufferManager, opts: DimOpts) -> (r: DimData)
        ensures
            r.wf(),
            r@ == (DimView {
                buffer_mgr,
                alpha: opts.spec_alpha(),
                passthrough: opts.passthrough,
                fade_ms: opts.spec_fade(),
                fade_done: false,
                surfaces: Map::empty(),
                keyboard: false,
                pointer: false,
                touch: false,
                exit: false,
            }),
    {
        DimData {
            buffer_mgr,
            alpha: opts.alpha(),
            passthrough: opts.passthrough,
            fade_ms: opts.fade(),
            fade_done: false,
            surfaces: SurfaceMap::new(),
            keyboard: false,
            pointer: false,
            touch: false,
            exit: false,
        }
    }

    pub fn should_exit(&self) -> (r: bool)
        ensures
            r == self@.exit,
    {
        self.exit
    }

    pub fn fade_done(&self) -> (r: bool)
        ensures
            r == self@.fade_done,
    {
        self.fade_done
    }

    pub fn buffer_manager(&self) -> (r: BufferManager)
        ensures
            r == self@.buffer_mgr,
    {
        self.buffer_mgr
    }

    /// The overlay of `output`, if there is one.
    pub fn surface(&self, output: u32) -> (r: Option<DimSurface>)
        requires
            self.wf(),
        ensures
            r == (if self@.surfaces.contains_key(output) {
                Some(self@.surfaces[output])
            } else {
                None
            }),
    {
        self.surfaces.get(output)
    }

    /// How to set up the shell surface for an output whose logical size is
    /// `logical_size`: with passthrough, input goes to the surfaces below;
    /// else the overlay takes the keyboard. It reserves no screen space.
    pub fn surface_setup(&self, logical_size: Option<(i32, i32)>) -> (r: SurfaceSetup)
        ensures
            r == (SurfaceSetup {
                width: layer_size(logical_size).0,
                height: layer_size(logical_size).1,
                keyboard: if self@.passthrough {
                    KeyboardInteractivity::Disabled
                } else {
                    KeyboardInteractivity::Exclusive
                },
                empty_input_region: self@.passthrough,
                exclusive_zone: -1i32,
            }),
    {
        let (width, height) = match logical_size {
            Some((w, h)) if w >= 0 && h >= 0 => (w as u32, h as u32),
            _ => (INIT_SIZE, INIT_SIZE),
        };
        SurfaceSetup {
            width,
            height,
            keyboard: if self.passthrough {
                KeyboardInteractivity::Disabled
            } else {
                KeyboardInteractivity::Exclusive
            },
            empty_input_region: self.passthrough,
            exclusive_zone: -1,
        }
    }
    /// Whether a surface other than the overlay of `output` is drawn on
    /// `surface_id`.
    fn surface_in_use(&self, output: u32, surface_id: u32) -> (r: bool)
        requires
            self.wf(),
        ensures
            r == surface_id_taken(self@.surfaces, output, surface_id),
    {
        proof {
            self.lemma_wf();
        }
        match self.surfaces.find_surface(surface_id) {
            Some(k) => k != output,
            None => false,
        }
    }

    /// A new output appeared: its overlay, drawn on `surface_id`, starts with
    /// two fully transparent buffers, whose content is returned.
    pub fn new_output(&mut self, output: u32, surface_id: u32) -> (r: Result<BufferType, DimError>)
        requires
            old(self).wf(),
        ensures
            final(self).wf(),
            r is Err <==> surface_id_taken(old(self)@.surfaces, output, surface_id),
            r is Err ==> r == Err::<BufferType, DimError>(DimError::SurfaceInUse) && final(self)@
                == old(self)@,
            r matches Ok(b) ==> {
                &&& old(self)@.is_transparent_buffer(b)
                &&& final(self)@ == DimView {
                    surfaces: old(self)@.surfaces.insert(output, fresh_surface(surface_id, b)),
                    ..old(self)@
                }
            },
    {
        if self.surface_in_use(output, surface_id) {
            return Err(DimError::SurfaceInUse);
        }
        let b = self.buffer_mgr.get_buffer(Alpha::transparent());
        let view = DimSurface::new(surface_id, b, b);
        self.surfaces.insert(output, view);
        Ok(b)
    }

    /// An output changed (size or scale): its overlay is replaced by a new
    /// one drawn on `surface_id`, with two fully transparent buffers, whose
    /// content is returned. The other overlays stay as they are.
    pub fn update_output(&mut self, output: u32, surface_id: u32) -> (r: Result<
        BufferType,
        DimError,
    >)
        requires
            old(self).wf(),
        ensures
            final(self).wf(),
            !old(self)@.surfaces.contains_key(output) ==> r == Err::<BufferType, DimError>(
                DimError::UnknownOutput,
            ),
            old(self)@.surfaces.contains_key(output) && surface_id_taken(
                old(self)@.surfaces,
                output,
                surface_id,
            ) ==> r == Err::<BufferType, DimError>(DimError::SurfaceInUse),
            r is Err ==> final(self)@ == old(self)@,
            r matches Ok(b) ==> {
                &&& old(self)@.is_transparent_buffer(b)
                &&& final(self)@ == DimView {
                    surfaces: old(self)@.surfaces.insert(output, fresh_surface(surface_id, b)),
                    ..old(self)@
                }
            },
            r is Ok <==> old(self)@.surfaces.contains_key(output) && !surface_id_taken(
                old(self)@.surfaces,
                output,
                surface_id,
            ),
    {
        match self.surfaces.get(output) {
            None => Err(DimError::UnknownOutput),
            Some(_) => {
                if self.surface_in_use(output, surface_id) {
                    return Err(DimError::SurfaceInUse);
                }
                let b = self.buffer_mgr.get_buffer(Alpha::transparent());
                let view = DimSurface::new(surface_id, b, b);
                self.surfaces.insert(output, view);
                Ok(b)
            },
        }
    }

    /// An output went away: its overlay is dropped, and no other. Says
    /// whether there was one.
    pub fn output_destroyed(&mut self, output: u32) -> (r: bool)
        requires
            old(self).wf(),
        ensures
            final(self).wf(),
            r == old(self)@.surfaces.contains_key(output),
            final(self)@ == (DimView { surfaces: old(self)@.surfaces.remove(output), ..old(self)@ }),
    {
        self.surfaces.remove(output)
    }
    /// The output whose overlay is drawn on `surface_id`.
    fn output_of(&self, surface_id: u32) -> (r: Option<u32>)
        requires
            self.wf(),
        ensures
            r matches Some(k) ==> self@.drawn_on(k, surface_id),
            r is None ==> !self@.knows_surface(surface_id),
    {
        self.surfaces.find_surface(surface_id)
    }

    /// The compositor gave the surface `surface_id` a size (zero meaning the
    /// initial size): the overlay takes it and is drawn, asking for a frame
    /// callback while the fade is on. Once the fade is over, the overlay is
    /// first given a back buffer at the target opacity, so that it shows
    /// the final state without waiting for a frame.
    pub fn configure(&mut self, surface_id: u32, width: u32, height: u32) -> (r: Result<
        ConfigureStep,
        DimError,
    >)
        requires
            old(self).wf(),
        ensures
            final(self).wf(),
            r is Err <==> !old(self)@.knows_surface(surface_id),
            r is Err ==> r == Err::<ConfigureStep, DimError>(DimError::UnknownSurface) && final(self)@ == old(self)@,
            r matches Ok(step) ==> {
                let s = sized(old(self)@.surfaces[step.output], width, height);
                &&& old(self)@.drawn_on(step.output, surface_id)
                &&& step.width == usable_size(width)
                &&& step.height == usable_size(height)
                &&& old(self)@.fade_done ==> {
                    &&& step.back_buffer matches Some(b)
                    &&& old(self)@.buffer_mgr.produces(b)
                    &&& b.is_black_at(old(self)@.alpha)
                    &&& final(self)@.surfaces == old(self)@.surfaces.insert(
                        step.output,
                        DimSurface { back_buffer: b, ..s }.drawn(),
                    )
                }
                &&& !old(self)@.fade_done ==> {
                    &&& step.back_buffer is None
                    &&& final(self)@.surfaces == old(self)@.surfaces.insert(step.output, s.drawn())
                }
                &&& step.draw == DrawRequest {
                    width: usable_size(width),
                    height: usable_size(height),
                    request_frame: !old(self)@.fade_done,
                    buffer: final(self)@.surfaces[step.output].buffer,
                }
                &&& final(self)@ == DimView { surfaces: final(self)@.surfaces, ..old(self)@ }
            },
    {
        let output = match self.output_of(surface_id) {
            Some(k) => k,
            None => {
                return Err(DimError::UnknownSurface);
            },
        };
        let mut view = match self.surfaces.get(output) {
            Some(v) => v,
            None => {
                return Err(DimError::UnknownSurface);
            },
        };
        let (w, h) = view.set_size(width, height);
        let mut back_buffer = None;
        if self.fade_done {
            let b = self.buffer_mgr.get_buffer(self.alpha);
            view.set_back_buffer(b);
            back_buffer = Some(b);
        }
        let draw = view.draw(!self.fade_done);
        proof {
            self.lemma_wf();
        }
        self.surfaces.insert(output, view);
        Ok(ConfigureStep { output, width: w, height: h, back_buffer, draw })
    }

    /// A frame callback for the surface `surface_id`, `elapsed_ms` after the
    /// start. The overlay's back buffer takes the opacity reached by now
    /// (the target, once the fade is over); the fade is over once its length
    /// has passed. Then the overlay is drawn, asking for another callback
    /// only while the fade is still on.
    pub fn frame(&mut self, surface_id: u32, elapsed_ms: u64) -> (r: Result<FrameStep, DimError>)
        requires
            old(self).wf(),
        ensures
            final(self).wf(),
            !old(self)@.knows_surface(surface_id) ==> r == Err::<FrameStep, DimError>(
                DimError::UnknownSurface,
            ),
            forall|k: u32|
                old(self)@.drawn_on(k, surface_id) ==> (r is Err <==> !old(self)@.surfaces[k].configured),
            r is Err ==> final(self)@ == old(self)@,
            r matches Err(e) ==> e == DimError::UnknownSurface || e == DimError::NotConfigured,
            r matches Ok(step) ==> {
                let s = old(self)@.surfaces[step.output];
                let level = frame_level(
                    old(self)@.alpha,
                    old(self)@.fade_done,
                    elapsed_ms,
                    old(self)@.fade_ms,
                );
                &&& old(self)@.drawn_on(step.output, surface_id)
                &&& s.configured
                &&& final(self)@.fade_done == (old(self)@.fade_done || elapsed_ms
                    >= old(self)@.fade_ms)
                &&& old(self)@.buffer_mgr.produces(step.back_buffer)
                &&& step.back_buffer.is_black_at(Alpha { level })
                &&& final(self)@.surfaces == old(self)@.surfaces.insert(
                    step.output,
                    DimSurface { back_buffer: step.back_buffer, ..s }.drawn(),
                )
                &&& step.draw == DrawRequest {
                    width: s.width,
                    height: s.height,
                    request_frame: !final(self)@.fade_done,
                    buffer: step.back_buffer,
                }
                &&& final(self)@ == DimView {
                    surfaces: final(self)@.surfaces,
                    fade_done: final(self)@.fade_done,
                    ..old(self)@
                }
            },
            r matches Ok(step) ==> (elapsed_ms >= old(self)@.fade_ms ==> final(self)@.fade_done
                && !step.draw.request_frame),
            r matches Ok(step) ==> (old(self)@.fade_ms == 0 ==> final(self)@.fade_done
                && !step.draw.request_frame),
            r matches Ok(step) ==> (final(self)@.fade_done ==> final(self)@.surfaces[step.output].buffer.is_black_at(old(self)@.alpha)),
    {
        let output = match self.output_of(surface_id) {
            Some(k) => k,
            None => {
                return Err(DimError::UnknownSurface);
            },
        };
        proof {
            self.lemma_wf();
        }
        let mut view = match self.surfaces.get(output) {
            Some(v) => v,
            None => {
                return Err(DimError::UnknownSurface);
            },
        };
        if !view.configured {
            return Err(DimError::NotConfigured);
        }
        let alpha = if self.fade_done {
            self.alpha
        } else {
            fade_alpha(self.alpha, elapsed_ms, self.fade_ms)
        };
        let b = self.buffer_mgr.get_buffer(alpha);
        view.set_back_buffer(b);
        if elapsed_ms >= self.fade_ms {
            self.fade_done = true;
        }
        let draw = view.draw(!self.fade_done);
        self.surfaces.insert(output, view);
        Ok(FrameStep { output, back_buffer: b, draw })
    }

    /// The seat offers a device of kind `cap`, which the caller has acquired.
    pub fn new_capability(&mut self, cap: Capability)
        requires
            old(self).wf(),
        ensures
            final(self).wf(),
            final(self)@ == old(self)@.with_device(cap, true),
    {
        match cap {
            Capability::Keyboard => self.keyboard = true,
            Capability::Pointer => self.pointer = true,
            Capability::Touch => self.touch = true,
        }
    }

    /// The seat no longer offers a device of kind `cap`: the held device is
    /// to be released. Releasing one that was never acquired is an error.
    pub fn remove_capability(&mut self, cap: Capability) -> (r: Result<(), DimError>)
        requires
            old(self).wf(),
        ensures
            final(self).wf(),
            r is Ok <==> old(self)@.holds(cap),
            r is Ok ==> final(self)@ == old(self)@.with_device(cap, false),
            r is Err ==> r == Err::<(), DimError>(DimError::CapabilityNotHeld) && final(self)@
                == old(self)@,
    {
        let held = match cap {
            Capability::Keyboard => self.keyboard,
            Capability::Pointer => self.pointer,
            Capability::Touch => self.touch,
        };
        if !held {
            return Err(DimError::CapabilityNotHeld);
        }
        match cap {
            Capability::Keyboard => self.keyboard = false,
            Capability::Pointer => self.pointer = false,
            Capability::Touch => self.touch = false,
        }
        Ok(())
    }

    /// A key was pressed, on any surface: time to exit.
    pub fn press_key(&mut self)
        requires
            old(self).wf(),
        ensures
            final(self).wf(),
            final(self)@ == (DimView { exit: true, ..old(self)@ }),
    {
        self.exit = true;
    }

    /// A touch began, on any surface: time to exit.
    pub fn down(&mut self)
        requires
            old(self).wf(),
        ensures
            final(self).wf(),
            final(self)@ == (DimView { exit: true, ..old(self)@ }),
    {
        self.exit = true;
    }

    /// A frame of pointer events. Entering or leaving a surface is no input;
    /// any other event is, and sets the exit flag. Returns the serials of the
    /// enter events at which to hide the cursor, which is done only when the
    /// overlay is fully opaque.
    pub fn pointer_frame(&mut self, events: &Vec<PointerEventKind>) -> (r: Vec<u32>)
        requires
            old(self).wf(),
        ensures
            final(self).wf(),
            final(self)@ == (DimView {
                exit: old(self)@.exit || exists|i: int|
                    0 <= i < events@.len() && is_exit_event(#[trigger] events@[i]),
                ..old(self)@
            }),
            r@ == (if old(self)@.alpha.level == u32::MAX {
                enter_serials(events@)
            } else {
                Seq::empty()
            }),
            (forall|i: int| 0 <= i < events@.len() ==> !is_exit_event(#[trigger] events@[i]))
                ==> final(self)@.exit == old(self)@.exit,
    {
        let hide = self.alpha.is_opaque();
        let mut serials: Vec<u32> = Vec::new();
        let mut i: usize = 0;
        while i < events.len()
            invariant
                0 <= i <= events@.len(),
                self.wf(),
                self@ == (DimView {
                    exit: old(self)@.exit || exists|j: int|
                        0 <= j < i && is_exit_event(#[trigger] events@[j]),
                    ..old(self)@
                }),
                hide == (old(self)@.alpha.level == u32::MAX),
                serials@ == (if hide {
                    enter_serials(events@.subrange(0, i as int))
                } else {
                    Seq::empty()
                }),
            decreases events@.len() - i,
        {
            let ghost prefix = events@.subrange(0, i as int + 1);
            assert(prefix.drop_last() =~= events@.subrange(0, i as int));
            match events[i] {
                PointerEventKind::Enter { serial } => {
                    if hide {
                        serials.push(serial);
                    }
                },
                PointerEventKind::Leave => {},
                _ => {
                    self.exit = true;
                },
            }
            i = i + 1;
        }
        assert(events@.subrange(0, events@.len() as int) =~= events@);
        serials
    }
}

} // verus!
