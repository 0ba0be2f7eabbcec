//! The application state: the one owner of window, surface, device context,
//! controller and renderer.
//!
//! It ties the parts together, so that what is configured is the size that
//! the controller last saw and what is drawn is the colour that the
//! controller's flags select, on a surface that fits the window.

use crate::config::{Config, FramePolicy};
use crate::controller::{Action, Controller, ControllerState, Event, RunState};
use crate::device::{DeviceContext, DeviceHandles};
use crate::render::{frame_steps, DrawError, FrameRenderer, Geometry, RecordedFrame};
use crate::surface::{
    configure_error, preferred_descriptor, AcquireError, ConfigureError, SurfaceDescriptor,
    SurfaceFault, SurfaceManager, SurfaceState,
};
use vstd::pervasive::unreached;
use vstd::prelude::*;

verus! {

/// The geometry that a program with or without the pipeline draws.
pub open spec fn geometry_for(pipeline: bool) -> Geometry {
    if pipeline {
        Geometry::Degenerate
    } else {
        Geometry::Nothing
    }
}

/// The state of an application, as far as its decisions depend on it.
pub struct ApplicationState<F> {
    pub surface: SurfaceState<F>,
    pub controller: ControllerState,
}

impl<F> ApplicationState<F> {
    /// The state at startup: a running controller for a window of the given
    /// size, and a surface that is not configured yet.
    pub open spec fn initial(config: Config, width: u32, height: u32) -> Self {
        ApplicationState {
            surface: SurfaceState::initial(),
            controller: ControllerState::initial(config, width, height),
        }
    }

    /// What holds of every application.
    pub open spec fn wf(self) -> bool {
        self.surface.wf() && self.controller.wf()
    }

    /// Whether the surface is configured for the size of the window.
    pub open spec fn fits(self) -> bool {
        self.controller.surface_fits(self.surface.configured_size())
    }

    /// What each pass draws.
    pub open spec fn geometry(self) -> Geometry {
        geometry_for(self.controller.config.features.pipeline)
    }

    /// The action that answers an event.
    pub open spec fn answer(self, event: Event) -> Action {
        self.controller.action(event, self.surface.configured_size())
    }

    /// The state after an event. An event changes the controller alone.
    pub open spec fn after(self, event: Event) -> Self {
        ApplicationState { surface: self.surface, controller: self.controller.next(event) }
    }

    /// The state after the surface was configured anew, for the size of the
    /// window, from the formats that the adapter reports.
    pub open spec fn reconfigured(self, formats: Seq<F>) -> Self {
        ApplicationState {
            surface: self.surface.configured(
                formats,
                self.controller.window.0,
                self.controller.window.1,
            ),
            controller: self.controller,
        }
    }

    /// The reason, if any, for which no frame is drawn, given the fault that
    /// the platform reported, if it reported one.
    pub open spec fn draw_error(self, fault: Option<SurfaceFault>) -> Option<DrawError> {
        if !self.fits() {
            Some(DrawError::SurfaceNotFitted)
        } else {
            match fault {
                Some(f) => Some(DrawError::SurfaceUnavailable(f)),
                None => None,
            }
        }
    }

    /// The state after an attempt to draw. A failed attempt changes nothing.
    /// A successful one has acquired a frame and consumed it.
    pub open spec fn drawn(self, fault: Option<SurfaceFault>) -> Self {
        if self.draw_error(fault) is Some {
            self
        } else {
            ApplicationState {
                surface: self.surface.acquired(None).retired(self.surface.upcoming),
                controller: self.controller,
            }
        }
    }
}

/// The owner of everything that a window program holds. `W` is the window
/// type of the window system; `S`, `F`, `A`, `D` and `Q` are the surface,
/// pixel format, adapter, device and queue types of the graphics device.
#[derive(Debug)]
pub struct Application<W, S, F, A, D, Q> {
    // The surface draws to the window: it stands first and is released first.
    surface: SurfaceManager<S, F>,
    window: W,
    context: DeviceContext<A, D, Q>,
    controller: Controller,
}

impl<W, S, F, A, D, Q> View for Application<W, S, F, A, D, Q> {
    type V = ApplicationState<F>;

    closed spec fn view(&self) -> ApplicationState<F> {
        ApplicationState { surface: self.surface@, controller: self.controller@ }
    }
}

impl<W, S, F, A, D, Q> Application<W, S, F, A, D, Q> {
    /// The window that this application owns.
    pub closed spec fn owned_window(&self) -> W {
        self.window
    }

    /// The adapter, device and queue that this application owns.
    pub closed spec fn handles(&self) -> DeviceHandles<A, D, Q> {
        self.context@
    }
}

impl<W, S, F: Copy, A, D, Q> Application<W, S, F, A, D, Q> {
    /// The platform surface that this application owns.
    pub closed spec fn platform(&self) -> S {
        self.surface.platform()
    }

    /// Takes ownership of the window, of its surface, which is not configured
    /// yet, and of the device context. `width` and `height` are the size of
    /// the window in pixels.
    pub fn new(
        window: W,
        surface: S,
        context: DeviceContext<A, D, Q>,
        config: Config,
        width: u32,
        height: u32,
    ) -> (application: Self)
        ensures
            application@ == ApplicationState::<F>::initial(config, width, height),
            application@.wf(),
            application.owned_window() == window,
            application.platform() == surface,
            application.handles() == context@,
    {
        Application {
            surface: SurfaceManager::new(surface),
            window,
            context,
            controller: Controller::new(config, width, height),
        }
    }

    /// Takes in one event and returns the action that answers it. The
    /// surface is left alone.
    pub fn handle_event(&mut self, event: Event) -> (action: Action)
        ensures
            final(self)@ == old(self)@.after(event),
            final(self)@.wf(),
            action == old(self)@.answer(event),
            action is Render ==> old(self)@.fits() && event == Event::RedrawRequested,
            event == Event::CloseRequested ==> final(self)@.controller.run
                == RunState::ExitRequested,
            final(self).owned_window() == old(self).owned_window(),
            final(self).platform() == old(self).platform(),
            final(self).handles() == old(self).handles(),
    {
        proof {
            use_type_invariant(&self.surface);
        }
        self.controller.handle_event(event, &self.surface)
    }

    /// Configures the surface for the size that the window has now, from the
    /// formats that the adapter reports for it, most preferred first.
    ///
    /// The result is the configuration to put in force on the platform
    /// surface. A window without area, or an empty list of formats, is
    /// refused and leaves the earlier configuration in force.
    pub fn reconfigure_surface(&mut self, formats: &[F]) -> (result: Result<
        SurfaceDescriptor<F>,
        ConfigureError,
    >)
        ensures
            final(self)@ == old(self)@.reconfigured(formats@),
            final(self)@.wf(),
            match result {
                Ok(d) => configure_error(
                    formats@,
                    old(self)@.controller.window.0,
                    old(self)@.controller.window.1,
                ) is None && d == preferred_descriptor(
                    formats@[0],
                    old(self)@.controller.window.0,
                    old(self)@.controller.window.1,
                ) && final(self)@.surface.descriptor == Some(d) && final(self)@.fits(),
                Err(e) => configure_error(
                    formats@,
                    old(self)@.controller.window.0,
                    old(self)@.controller.window.1,
                ) == Some(e),
            },
            final(self).owned_window() == old(self).owned_window(),
            final(self).platform() == old(self).platform(),
            final(self).handles() == old(self).handles(),
    {
        proof {
            use_type_invariant(&self.controller);
        }
        let size = self.controller.window_size();
        self.surface.configure(formats, size.0, size.1)
    }

    /// Takes in what the platform answered when asked for the next drawable
    /// image, and records the frame for it: one pass that clears the image to
    /// the colour that the controller's flags select.
    ///
    /// Nothing is drawn on a surface that is not configured for the size of
    /// the window: the answer is dropped. A fault is passed on. Success is
    /// for the caller to report as `FramePresented` once the frame is on the
    /// screen, failure as `FrameFailed`. The frame is acquired and consumed
    /// within this call: none is outstanding after it.
    pub fn draw<T>(&mut self, answer: Result<T, SurfaceFault>) -> (result: Result<
        RecordedFrame<T, F>,
        DrawError,
    >)
        ensures
            final(self)@ == old(self)@.drawn(answer.err()),
            final(self)@.wf(),
            match result {
                Ok(r) => old(self)@.draw_error(answer.err()) is None && answer == Ok::<
                    T,
                    SurfaceFault,
                >(r.image) && r.steps@ == frame_steps(
                    old(self)@.surface.descriptor->0.format,
                    old(self)@.controller.clear_color(),
                    old(self)@.geometry(),
                ) && final(self)@.surface.outstanding is None,
                Err(e) => old(self)@.draw_error(answer.err()) == Some(e),
            },
            final(self).owned_window() == old(self).owned_window(),
            final(self).platform() == old(self).platform(),
            final(self).handles() == old(self).handles(),
    {
        proof {
            use_type_invariant(&self.controller);
        }
        let size = self.controller.window_size();
        let fits = match self.surface.descriptor() {
            Some(d) => d.width == size.0 && d.height == size.1,
            None => false,
        };
        if !fits {
            return Err(DrawError::SurfaceNotFitted);
        }
        let color = self.controller.clear_color();
        let renderer = FrameRenderer::new(self.uses_pipeline());
        match self.surface.acquire_frame(answer) {
            Err(AcquireError::SurfaceUnavailable(fault)) => Err(
                DrawError::SurfaceUnavailable(fault),
            ),
            Err(AcquireError::NotConfigured) => unreached(),
            Ok(frame) => match renderer.render(&mut self.surface, frame, color) {
                Ok(recorded) => Ok(recorded),
                Err(_) => unreached(),
            },
        }
    }

    /// The window.
    pub fn window(&self) -> (window: &W)
        ensures
            *window == self.owned_window(),
    {
        &self.window
    }

    /// The platform surface, to ask it for capabilities and images and to put
    /// a configuration in force.
    pub fn surface(&self) -> (surface: &S)
        ensures
            *surface == self.platform(),
    {
        self.surface.surface()
    }

    /// The device context.
    pub fn context(&self) -> (context: &DeviceContext<A, D, Q>)
        ensures
            context@ == self.handles(),
    {
        &self.context
    }

    /// The controller, to read its flags.
    pub fn controller(&self) -> (controller: &Controller)
        ensures
            controller@ == self@.controller,
    {
        &self.controller
    }

    /// The configuration of the surface that is in force.
    pub fn descriptor(&self) -> (descriptor: Option<SurfaceDescriptor<F>>)
        ensures
            descriptor == self@.surface.descriptor,
    {
        self.surface.descriptor()
    }

    /// Whether each pass binds the pipeline.
    pub fn uses_pipeline(&self) -> (pipeline: bool)
        ensures
            pipeline == self@.controller.config.features.pipeline,
    {
        self.controller.config().features.pipeline
    }

    /// Ends the application. The surface and the device context are released
    /// here; the window, which the surface drew to, is handed back and
    /// outlives them.
    pub fn into_window(self) -> (window: W)
        ensures
            window == self.owned_window(),
    {
        self.window
    }
}

/// Right after a successful configuration the surface fits the window, so a
/// redraw is answered by a render and a frame is drawn whenever the platform
/// supplies an image: no frame fails for its size.
pub proof fn law_draw_after_reconfigure<F>(state: ApplicationState<F>, formats: Seq<F>)
    requires
        state.controller.run == RunState::Running,
        configure_error(formats, state.controller.window.0, state.controller.window.1) is None,
    ensures
        ({
            let ready = state.reconfigured(formats);
            &&& ready.fits()
            &&& ready.surface.configured_size() == Some(state.controller.window)
            &&& ready.surface.descriptor->0.format == formats[0]
            &&& ready.answer(Event::RedrawRequested) == (Action::Render {
                color: state.controller.clear_color(),
            })
            &&& ready.draw_error(None) is None
            &&& forall|f: SurfaceFault| #[trigger]
                ready.draw_error(Some(f)) == Some(DrawError::SurfaceUnavailable(f))
        }),
{
}

/// A configuration is only ever asked for the size that the window has, and
/// never for a window without area: carrying it out, with any format at all
/// to choose from, makes the surface fit.
pub proof fn law_configure_is_for_window<F>(
    state: ApplicationState<F>,
    event: Event,
    formats: Seq<F>,
)
    requires
        state.answer(event) is Configure,
        formats.len() > 0,
    ensures
        ({
            let next = state.after(event);
            &&& state.answer(event) == (Action::Configure {
                width: next.controller.window.0,
                height: next.controller.window.1,
            })
            &&& next.controller.window.0 > 0 && next.controller.window.1 > 0
            &&& next.reconfigured(formats).fits()
        }),
{
}

/// After a resize nothing is drawn until the surface is configured for the
/// new size: a redraw is answered by that configuration, a frame is refused,
/// and the configuration that follows is for exactly the new size.
pub proof fn law_resize_forces_reconfigure<F>(
    state: ApplicationState<F>,
    width: u32,
    height: u32,
    formats: Seq<F>,
    fault: Option<SurfaceFault>,
)
    requires
        state.controller.run == RunState::Running,
        width > 0,
        height > 0,
        state.surface.configured_size() != Some((width, height)),
        formats.len() > 0,
    ensures
        ({
            let resized = state.after(Event::Resized { width, height });
            &&& state.answer(Event::Resized { width, height }) == (Action::Configure {
                width,
                height,
            })
            &&& resized.answer(Event::RedrawRequested) == (Action::Configure { width, height })
            &&& resized.draw_error(fault) == Some(DrawError::SurfaceNotFitted)
            &&& resized.drawn(fault) == resized
            &&& resized.reconfigured(formats).surface.configured_size() == Some((width, height))
            &&& resized.reconfigured(formats).answer(Event::RedrawRequested) is Render
        }),
{
}

/// Drawing leaves no frame behind: whatever the platform answered, the frame
/// that a draw acquired is consumed by it, and the books stay sound.
pub proof fn law_draw_consumes_its_frame<F>(state: ApplicationState<F>, fault: Option<SurfaceFault>)
    requires
        state.wf(),
    ensures
        state.drawn(fault).wf(),
        state.draw_error(fault) is None ==> state.drawn(fault).surface.outstanding is None
            && !state.drawn(fault).surface.is_live(state.surface.upcoming),
        state.drawn(fault).controller == state.controller,
        state.drawn(fault).surface.descriptor == state.surface.descriptor,
{
}

/// Under the policy that logs and continues, a frame that fails is survived:
/// whether it is given up or tried once more, the application is still
/// running, the surface is as it was, and a redraw is answered and drawn as
/// if nothing had failed.
pub proof fn law_failed_draw_is_survived<F>(state: ApplicationState<F>, fault: SurfaceFault)
    requires
        state.controller.run == RunState::Running,
        state.controller.config.policy == FramePolicy::LogAndContinue,
        state.fits(),
    ensures
        ({
            let error = DrawError::SurfaceUnavailable(fault);
            let report = Event::FrameFailed { error };
            let failed = state.drawn(Some(fault)).after(report);
            &&& state.draw_error(Some(fault)) == Some(error)
            &&& state.drawn(Some(fault)).answer(report) == if state.controller.recovers(error) {
                Action::Recover {
                    width: state.controller.window.0,
                    height: state.controller.window.1,
                }
            } else {
                Action::LogFailure
            }
            &&& failed.controller.run == RunState::Running
            &&& failed.surface == state.surface
            &&& failed.answer(Event::RedrawRequested) == state.answer(Event::RedrawRequested)
            &&& failed.answer(Event::RedrawRequested) is Render
            &&& failed.draw_error(None) is None
        }),
{
}

/// A recovery mends a surface that does not fit: where a failed frame is
/// answered by a recovery, carrying it out, with any format at all to choose
/// from, makes the surface fit the window, and the redraw that follows is
/// answered by a render.
pub proof fn law_recovery_makes_surface_fit<F>(
    state: ApplicationState<F>,
    error: DrawError,
    formats: Seq<F>,
)
    requires
        state.answer(Event::FrameFailed { error }) is Recover,
        formats.len() > 0,
    ensures
        ({
            let recovered = state.after(Event::FrameFailed { error }).reconfigured(formats);
            &&& state.answer(Event::FrameFailed { error }) == (Action::Recover {
                width: state.controller.window.0,
                height: state.controller.window.1,
            })
            &&& recovered.fits()
            &&& recovered.answer(Event::RedrawRequested) is Render
            &&& recovered.draw_error(None) is None
        }),
{
}

} // verus!
