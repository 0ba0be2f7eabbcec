//! The presentation surface manager.
//!
//! The manager owns the platform surface of a window and keeps the books on
//! it: which configuration is in force, and which frame, if any, has been
//! handed out and not yet retired. It never talks to the graphics device
//! itself. Its caller asks the device, hands the answer in, and carries out
//! what the manager returns.

use vstd::prelude::*;

verus! {

/// When a finished frame reaches the screen.
#[derive(Clone, Copy, Debug, PartialEq, Eq, Structural)]
pub enum PresentMode {
    /// Frames wait in a queue for the display's refresh: no tearing, bounded
    /// latency.
    Fifo,
    FifoRelaxed,
    Immediate,
    Mailbox,
}

/// How the compositor blends the surface with what lies behind it.
#[derive(Clone, Copy, Debug, PartialEq, Eq, Structural)]
pub enum AlphaMode {
    /// The platform chooses.
    Auto,
    Opaque,
    PreMultiplied,
    PostMultiplied,
    Inherit,
}

/// What the surface's images are used for.
#[derive(Clone, Copy, Debug, PartialEq, Eq, Structural)]
pub enum SurfaceUsage {
    /// The images are the colour attachment of a render pass.
    RenderTarget,
    CopySource,
    CopyDestination,
}

/// The configuration of a presentation surface. `F` is the pixel format type
/// of the graphics device.
#[derive(Debug, PartialEq, Eq)]
pub struct SurfaceDescriptor<F> {
    pub width: u32,
    pub height: u32,
    pub format: F,
    pub present_mode: PresentMode,
    pub alpha_mode: AlphaMode,
    pub usage: SurfaceUsage,
}

impl<F: Copy> Copy for SurfaceDescriptor<F> {

}

impl<F: Copy> Clone for SurfaceDescriptor<F> {
    fn clone(&self) -> (copy: Self)
        ensures
            copy == *self,
    {
        *self
    }
}

impl<F: Copy> SurfaceDescriptor<F> {
    /// The formats, besides `format`, that a view of the surface's images may
    /// have: none.
    pub fn view_formats(&self) -> (formats: Vec<F>)
        ensures
            formats@ == Seq::<F>::empty(),
    {
        Vec::new()
    }
}

/// Why a configuration was refused.
#[derive(Clone, Copy, Debug, PartialEq, Eq, Structural)]
pub enum ConfigureError {
    /// The requested width or height is zero.
    ZeroSize,
    /// The adapter reports no format for the surface.
    NoSupportedFormat,
}

/// What the platform reports when it cannot supply the next image.
#[derive(Clone, Copy, Debug, PartialEq, Eq, Structural)]
pub enum SurfaceFault {
    /// The surface is gone and has to be made anew.
    Lost,
    /// The surface has changed under its configuration.
    Outdated,
    /// No image became free in time.
    TimedOut,
    /// No memory is left for another image.
    OutOfMemory,
    /// The platform gave no reason.
    Other,
}

/// Why no frame was handed out.
#[derive(Clone, Copy, Debug, PartialEq, Eq, Structural)]
pub enum AcquireError {
    /// The surface has never been configured.
    NotConfigured,
    /// The platform could not supply an image. Nothing was retried.
    SurfaceUnavailable(SurfaceFault),
}

/// The descriptor that a configuration with the given preferred format and
/// size puts in force.
pub open spec fn preferred_descriptor<F>(format: F, width: u32, height: u32) -> SurfaceDescriptor<
    F,
> {
    SurfaceDescriptor {
        width,
        height,
        format,
        present_mode: PresentMode::Fifo,
        alpha_mode: AlphaMode::Auto,
        usage: SurfaceUsage::RenderTarget,
    }
}

/// The reason, if any, for which a configuration request is refused.
pub open spec fn configure_error<F>(formats: Seq<F>, width: u32, height: u32) -> Option<
    ConfigureError,
> {
    if width == 0 || height == 0 {
        Some(ConfigureError::ZeroSize)
    } else if formats.len() == 0 {
        Some(ConfigureError::NoSupportedFormat)
    } else {
        None
    }
}

/// The serial number that follows `serial`. Serials wrap around.
pub open spec fn next_serial(serial: u64) -> u64 {
    if serial == u64::MAX {
        0
    } else {
        (serial + 1) as u64
    }
}

/// The books of a surface manager.
pub struct SurfaceState<F> {
    /// The configuration in force, if the surface was ever configured.
    pub descriptor: Option<SurfaceDescriptor<F>>,
    /// The serial of the frame that is handed out and not yet retired.
    pub outstanding: Option<u64>,
    /// The serial that the next frame will carry.
    pub upcoming: u64,
}

impl<F> SurfaceState<F> {
    /// A surface that was never configured and has handed out nothing.
    pub open spec fn initial() -> Self {
        SurfaceState { descriptor: None, outstanding: None, upcoming: 0 }
    }

    /// What holds of the books of every manager: a frame is outstanding only
    /// on a configured surface, and the next frame's serial is the one after
    /// the outstanding frame's.
    pub open spec fn wf(self) -> bool {
        self.outstanding matches Some(serial) ==> self.descriptor is Some && self.upcoming
            == next_serial(serial)
    }

    /// The size of the configuration in force.
    pub open spec fn configured_size(self) -> Option<(u32, u32)> {
        match self.descriptor {
            Some(d) => Some((d.width, d.height)),
            None => None,
        }
    }

    /// The state after a configuration request. A refused request changes
    /// nothing. An accepted one replaces the whole descriptor and leaves no
    /// frame outstanding: a frame of the earlier configuration is stale.
    pub open spec fn configured(self, formats: Seq<F>, width: u32, height: u32) -> Self {
        if configure_error(formats, width, height) is Some {
            self
        } else {
            SurfaceState {
                descriptor: Some(preferred_descriptor(formats[0], width, height)),
                outstanding: None,
                upcoming: self.upcoming,
            }
        }
    }

    /// The reason, if any, for which no frame is handed out, given the fault
    /// that the platform reported, if it reported one.
    pub open spec fn acquire_error(self, fault: Option<SurfaceFault>) -> Option<AcquireError> {
        if self.descriptor is None {
            Some(AcquireError::NotConfigured)
        } else {
            match fault {
                Some(f) => Some(AcquireError::SurfaceUnavailable(f)),
                None => None,
            }
        }
    }

    /// The state after an attempt to acquire a frame. A failed attempt changes
    /// nothing. A successful one makes the new frame the outstanding one: a
    /// frame still held from before is stale.
    pub open spec fn acquired(self, fault: Option<SurfaceFault>) -> Self {
        if self.acquire_error(fault) is Some {
            self
        } else {
            SurfaceState {
                descriptor: self.descriptor,
                outstanding: Some(self.upcoming),
                upcoming: next_serial(self.upcoming),
            }
        }
    }

    /// Whether the frame with this serial may still be rendered and presented.
    pub open spec fn is_live(self, serial: u64) -> bool {
        self.descriptor is Some && self.outstanding == Some(serial)
    }

    /// The state after the frame with this serial was consumed, by a
    /// presentation or by a discard. Consuming a stale frame changes nothing.
    pub open spec fn retired(self, serial: u64) -> Self {
        if self.is_live(serial) {
            SurfaceState { descriptor: self.descriptor, outstanding: None, upcoming: self.upcoming }
        } else {
            self
        }
    }
}

/// What a frame handle stands for.
pub struct FrameTicket<T> {
    pub serial: u64,
    pub image: T,
}

/// A single-use token for the next drawable image of a surface. It cannot be
/// copied, only a surface manager makes one, and it is meant for that manager
/// alone. `T` is the image type of the graphics device.
#[derive(Debug)]
pub struct FrameHandle<T> {
    serial: u64,
    image: T,
}

impl<T> View for FrameHandle<T> {
    type V = FrameTicket<T>;

    closed spec fn view(&self) -> FrameTicket<T> {
        FrameTicket { serial: self.serial, image: self.image }
    }
}

impl<T> FrameHandle<T> {
    /// The serial number of this frame.
    pub fn serial(&self) -> (serial: u64)
        ensures
            serial == self@.serial,
    {
        self.serial
    }

    /// The image behind this frame.
    pub fn image(&self) -> (image: &T)
        ensures
            *image == self@.image,
    {
        &self.image
    }

    pub(crate) fn into_image(self) -> (image: T)
        ensures
            image == self@.image,
    {
        self.image
    }
}

/// The owner of a window's platform surface and of its configuration. `S` is
/// the surface type of the graphics device, `F` its pixel format type.
#[derive(Debug)]
pub struct SurfaceManager<S, F> {
    surface: S,
    descriptor: Option<SurfaceDescriptor<F>>,
    outstanding: Option<u64>,
    upcoming: u64,
}

impl<S, F> View for SurfaceManager<S, F> {
    type V = SurfaceState<F>;

    closed spec fn view(&self) -> SurfaceState<F> {
        SurfaceState {
            descriptor: self.descriptor,
            outstanding: self.outstanding,
            upcoming: self.upcoming,
        }
    }
}

impl<S, F> SurfaceManager<S, F> {
    /// What holds of every value of this type.
    #[verifier::type_invariant]
    pub open spec fn sound(&self) -> bool {
        self@.wf()
    }
}

impl<S, F: Copy> SurfaceManager<S, F> {
    /// The platform surface that this manager owns.
    pub closed spec fn platform(&self) -> S {
        self.surface
    }

    /// Takes ownership of a platform surface that is not configured yet.
    pub fn new(surface: S) -> (manager: Self)
        ensures
            manager@ == SurfaceState::<F>::initial(),
            manager@.wf(),
            manager.platform() == surface,
    {
        SurfaceManager { surface, descriptor: None, outstanding: None, upcoming: 0 }
    }

    /// Derives the configuration for a window of `width` by `height` pixels
    /// from the formats that the adapter reports for the surface, most
    /// preferred first, and puts it in force.
    ///
    /// The first reported format is chosen. The present mode is FIFO, the
    /// alpha mode automatic, the usage that of a render target. A zero width
    /// or height, or an empty list of formats, is refused and leaves the
    /// earlier configuration in force.
    pub fn configure(&mut self, formats: &[F], width: u32, height: u32) -> (result: Result<
        SurfaceDescriptor<F>,
        ConfigureError,
    >)
        ensures
            final(self)@ == old(self)@.configured(formats@, width, height),
            final(self)@.wf(),
            final(self).platform() == old(self).platform(),
            result is Ok <==> width > 0 && height > 0 && formats@.len() > 0,
            result matches Ok(d) ==> d == preferred_descriptor(formats@[0], width, height)
                && d.width == width && d.height == height && d.format == formats@[0]
                && final(self)@.descriptor == Some(d),
            result matches Err(e) ==> configure_error(formats@, width, height) == Some(e),
    {
        proof {
            use_type_invariant(&*self);
        }
        if width == 0 || height == 0 {
            return Err(ConfigureError::ZeroSize);
        }
        if formats.len() == 0 {
            return Err(ConfigureError::NoSupportedFormat);
        }
        let descriptor = SurfaceDescriptor {
            width,
            height,
            format: formats[0],
            present_mode: PresentMode::Fifo,
            alpha_mode: AlphaMode::Auto,
            usage: SurfaceUsage::RenderTarget,
        };
        self.outstanding = None;
        self.descriptor = Some(descriptor);
        Ok(descriptor)
    }

    /// Takes in what the platform answered when asked for the next drawable
    /// image, and hands out the frame for it.
    ///
    /// On an unconfigured surface the answer is dropped and the result is
    /// `NotConfigured`. A fault is passed on as `SurfaceUnavailable`. Nothing
    /// is retried.
    pub fn acquire_frame<T>(&mut self, answer: Result<T, SurfaceFault>) -> (result: Result<
        FrameHandle<T>,
        AcquireError,
    >)
        ensures
            final(self)@ == old(self)@.acquired(answer.err()),
            final(self)@.wf(),
            final(self).platform() == old(self).platform(),
            match result {
                Ok(frame) => old(self)@.acquire_error(answer.err()) is None
                    && answer == Ok::<T, SurfaceFault>(frame@.image)
                    && frame@.serial == old(self)@.upcoming
                    && final(self)@.is_live(frame@.serial),
                Err(e) => old(self)@.acquire_error(answer.err()) == Some(e),
            },
    {
        proof {
            use_type_invariant(&*self);
        }
        if self.descriptor.is_none() {
            return Err(AcquireError::NotConfigured);
        }
        match answer {
            Err(fault) => Err(AcquireError::SurfaceUnavailable(fault)),
            Ok(image) => {
                let serial = self.upcoming;
                // A frame still held goes stale before the serial moves on.
                self.outstanding = None;
                self.upcoming = if serial == u64::MAX {
                    0
                } else {
                    serial + 1
                };
                self.outstanding = Some(serial);
                Ok(FrameHandle { serial, image })
            },
        }
    }

    /// Consumes a frame without presenting it. The image is dropped.
    pub fn discard<T>(&mut self, frame: FrameHandle<T>)
        ensures
            final(self)@ == old(self)@.retired(frame@.serial),
            final(self)@.wf(),
            final(self).platform() == old(self).platform(),
    {
        let _ = self.retire(frame.serial);
    }

    /// Strikes the frame with this serial from the books, and returns the
    /// configuration that it was acquired under if it was still live.
    pub(crate) fn retire(&mut self, serial: u64) -> (descriptor: Option<SurfaceDescriptor<F>>)
        ensures
            final(self)@ == old(self)@.retired(serial),
            final(self)@.wf(),
            final(self).platform() == old(self).platform(),
            descriptor == if old(self)@.is_live(serial) {
                old(self)@.descriptor
            } else {
                None
            },
    {
        proof {
            use_type_invariant(&*self);
        }
        let held = match self.outstanding {
            Some(s) => s == serial,
            None => false,
        };
        if held && self.descriptor.is_some() {
            self.outstanding = None;
            self.descriptor
        } else {
            None
        }
    }

    /// The platform surface, to ask it for capabilities and images.
    pub fn surface(&self) -> (surface: &S)
        ensures
            *surface == self.platform(),
    {
        &self.surface
    }

    /// The configuration in force.
    pub fn descriptor(&self) -> (descriptor: Option<SurfaceDescriptor<F>>)
        ensures
            descriptor == self@.descriptor,
            self@.wf(),
    {
        proof {
            use_type_invariant(self);
        }
        self.descriptor
    }

    /// Whether a frame is handed out and not yet retired.
    pub fn has_outstanding_frame(&self) -> (outstanding: bool)
        ensures
            outstanding == (self@.outstanding is Some),
            self@.wf(),
    {
        proof {
            use_type_invariant(self);
        }
        self.outstanding.is_some()
    }

    /// Gives the platform surface back, for it to be released before the
    /// window that it draws to.
    pub fn into_surface(self) -> (surface: S)
        ensures
            surface == self.platform(),
    {
        self.surface
    }
}

/// A configuration that succeeds is exactly what was asked for: the requested
/// size, the first reported format, and the fixed presentation policy.
pub proof fn law_configure_takes_request<F>(
    state: SurfaceState<F>,
    formats: Seq<F>,
    width: u32,
    height: u32,
)
    requires
        width > 0,
        height > 0,
        formats.len() > 0,
    ensures
        configure_error(formats, width, height) is None,
        state.configured(formats, width, height).descriptor matches Some(d) && d.width == width
            && d.height == height && d.format == formats[0] && d.present_mode == PresentMode::Fifo
            && d.alpha_mode == AlphaMode::Auto && d.usage == SurfaceUsage::RenderTarget,
        state.configured(formats, width, height).configured_size() == Some((width, height)),
{
}

/// Configuring replaces the earlier configuration as a whole: two requests in
/// a row leave what the second alone would have left.
pub proof fn law_configure_replaces<F>(
    state: SurfaceState<F>,
    earlier: Seq<F>,
    earlier_width: u32,
    earlier_height: u32,
    formats: Seq<F>,
    width: u32,
    height: u32,
)
    requires
        configure_error(formats, width, height) is None,
    ensures
        state.configured(earlier, earlier_width, earlier_height).configured(
            formats,
            width,
            height,
        ) == state.configured(formats, width, height),
        state.configured(formats, width, height).configured(formats, width, height)
            == state.configured(formats, width, height),
{
}

/// Right after a successful configuration a frame can be acquired whenever
/// the platform supplies an image, and the configuration it is drawn under is
/// the one just made. The only failure left is a fault of the platform.
pub proof fn law_acquire_after_configure<F>(
    state: SurfaceState<F>,
    formats: Seq<F>,
    width: u32,
    height: u32,
    fault: Option<SurfaceFault>,
)
    requires
        configure_error(formats, width, height) is None,
    ensures
        ({
            let ready = state.configured(formats, width, height);
            &&& ready.acquire_error(None) is None
            &&& ready.acquired(None).is_live(ready.upcoming)
            &&& ready.acquired(None).configured_size() == Some((width, height))
            &&& (fault matches Some(f) ==> ready.acquire_error(fault) == Some(
                AcquireError::SurfaceUnavailable(f),
            ))
        }),
{
}

/// A frame is consumed once. After it was retired it is live no more, so a
/// second attempt to render or present it is refused, and retiring it again
/// changes nothing.
pub proof fn law_frame_consumed_once<F>(state: SurfaceState<F>, serial: u64)
    ensures
        !state.retired(serial).is_live(serial),
        state.retired(serial).retired(serial) == state.retired(serial),
        state.is_live(serial) ==> state.retired(serial).outstanding is None,
{
}

/// The books stay sound through every operation.
pub proof fn law_books_stay_sound<F>(
    state: SurfaceState<F>,
    formats: Seq<F>,
    width: u32,
    height: u32,
    fault: Option<SurfaceFault>,
    serial: u64,
)
    requires
        state.wf(),
    ensures
        SurfaceState::<F>::initial().wf(),
        state.configured(formats, width, height).wf(),
        state.acquired(fault).wf(),
        state.retired(serial).wf(),
{
}

/// A frame must not be held across the next acquisition or configuration:
/// either makes it stale.
pub proof fn law_held_frame_goes_stale<F>(
    state: SurfaceState<F>,
    serial: u64,
    formats: Seq<F>,
    width: u32,
    height: u32,
)
    requires
        state.wf(),
        state.is_live(serial),
    ensures
        !state.acquired(None).is_live(serial),
        configure_error(formats, width, height) is None ==> !state.configured(
            formats,
            width,
            height,
        ).is_live(serial),
{
}

/// At most one frame is live at a time.
pub proof fn law_one_live_frame<F>(state: SurfaceState<F>, a: u64, b: u64)
    requires
        state.is_live(a),
        state.is_live(b),
    ensures
        a == b,
{
}

} // verus!
