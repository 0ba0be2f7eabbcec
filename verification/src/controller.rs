//! The event-driven controller.
//!
//! The controller is a state machine. The window system delivers one event at
//! a time; the controller answers each with the one action that the caller is
//! to carry out before it delivers the next. What became of a frame comes
//! back as an event of its own.

use crate::color::ClearColor;
use crate::config::{Config, FramePolicy, Recovery};
use crate::render::DrawError;
use crate::surface::SurfaceManager;
use vstd::prelude::*;

verus! {

/// The exit code of a program that was closed without having given up a
/// frame.
pub const EXIT_CLEAN: i32 = 0;

/// The exit code of a program that failed to start or gave up a frame.
pub const EXIT_FAILURE: i32 = 1;

/// Whether the event loop goes on.
#[derive(Clone, Copy, Debug, PartialEq, Eq, Structural)]
pub enum RunState {
    Running,
    /// The loop is to stop. No event leads out of this state.
    ExitRequested,
}

/// What the window system, or the caller after a frame, reports.
#[derive(Clone, Copy, Debug, PartialEq, Eq, Structural)]
pub enum Event {
    /// The user asked to close the window.
    CloseRequested,
    /// The window has a new size, in pixels.
    Resized { width: u32, height: u32 },
    /// The window moved to another scale factor. The size is the one that
    /// the window has now, in pixels.
    ScaleFactorChanged { width: u32, height: u32 },
    /// The window is to be repainted now.
    RedrawRequested,
    /// A pointer button went down.
    PointerPressed,
    /// The pointer moved.
    PointerMoved,
    /// A finger touched, moved on or left the window.
    Touch,
    /// The frame that the last `Render` action asked for is on the screen.
    FramePresented,
    /// The frame that the last `Render` action asked for could not be drawn.
    FrameFailed { error: DrawError },
    /// Anything else.
    Other,
}

/// What the caller is to do in answer to an event.
#[derive(Clone, Copy, Debug, PartialEq, Eq, Structural)]
pub enum Action {
    /// Nothing.
    Idle,
    /// Configure the surface for a window of this size.
    Configure { width: u32, height: u32 },
    /// Draw a frame with this clear colour and present it, then report
    /// `FramePresented` or `FrameFailed`.
    Render { color: ClearColor },
    /// Schedule a redraw.
    RequestRedraw,
    /// Log the touch.
    LogTouch,
    /// Configure the surface for a window of this size and schedule a redraw,
    /// to try the failed frame once more.
    Recover { width: u32, height: u32 },
    /// Log the failure of the frame and go on.
    LogFailure,
    /// Log the failure of the frame and leave the loop with this exit code.
    LogFailureAndExit { code: i32 },
    /// Leave the loop with this exit code.
    Exit { code: i32 },
}

/// The state of a controller.
pub struct ControllerState {
    pub run: RunState,
    /// The cursor flag, which pointer input toggles.
    pub cursor_visible: bool,
    /// The size of the window as last reported, in pixels.
    pub window: (u32, u32),
    /// Whether the frame that failed last is being tried once more.
    pub retrying: bool,
    /// The exit code that the program will end with.
    pub exit_code: i32,
    pub config: Config,
}

impl ControllerState {
    /// The state of a controller that was just made for a window of the
    /// given size.
    pub open spec fn initial(config: Config, width: u32, height: u32) -> ControllerState {
        ControllerState {
            run: RunState::Running,
            cursor_visible: false,
            window: (width, height),
            retrying: false,
            exit_code: EXIT_CLEAN,
            config,
        }
    }

    /// What holds of every controller: the exit code is one of the two that
    /// the program can end with.
    pub open spec fn wf(self) -> bool {
        self.exit_code == EXIT_CLEAN || self.exit_code == EXIT_FAILURE
    }

    /// The colour that the next frame is cleared to: the highlight while the
    /// cursor flag is up in a window that toggles it, the base colour
    /// otherwise.
    pub open spec fn clear_color(self) -> ClearColor {
        self.config.palette.pick(self.config.features.cursor_toggle && self.cursor_visible)
    }

    /// Whether the surface, configured for `configured`, fits the window.
    pub open spec fn surface_fits(self, configured: Option<(u32, u32)>) -> bool {
        configured == Some(self.window)
    }

    /// Whether the window has any area.
    pub open spec fn window_has_area(self) -> bool {
        self.window.0 > 0 && self.window.1 > 0
    }

    /// Whether a frame that failed with `error` is tried once more: only
    /// where the configuration asks for it, the error is one that a new
    /// configuration may mend, the window can be configured for, and the
    /// frame is not itself the second try.
    pub open spec fn recovers(self, error: DrawError) -> bool {
        &&& self.config.recovery == Recovery::ReconfigureOnce
        &&& error.is_recoverable()
        &&& !self.retrying
        &&& self.window_has_area()
    }

    /// The state after a frame was given up.
    pub open spec fn given_up(self) -> ControllerState {
        ControllerState {
            run: if self.config.policy == FramePolicy::Fatal {
                RunState::ExitRequested
            } else {
                RunState::Running
            },
            retrying: false,
            exit_code: EXIT_FAILURE,
            ..self
        }
    }

    /// The state after an event.
    pub open spec fn next(self, event: Event) -> ControllerState {
        if event == Event::CloseRequested {
            ControllerState { run: RunState::ExitRequested, ..self }
        } else if self.run == RunState::ExitRequested {
            self
        } else {
            match event {
                Event::Resized { width, height } | Event::ScaleFactorChanged { width, height } => {
                    ControllerState { window: (width, height), ..self }
                },
                Event::PointerPressed | Event::PointerMoved => {
                    if self.config.features.cursor_toggle {
                        ControllerState { cursor_visible: !self.cursor_visible, ..self }
                    } else {
                        self
                    }
                },
                Event::FramePresented => ControllerState { retrying: false, ..self },
                Event::FrameFailed { error } => {
                    if self.recovers(error) {
                        ControllerState { retrying: true, ..self }
                    } else {
                        self.given_up()
                    }
                },
                _ => self,
            }
        }
    }

    /// The action that answers an event, where the surface is configured for
    /// the size `configured`, if it is configured at all.
    pub open spec fn action(self, event: Event, configured: Option<(u32, u32)>) -> Action {
        if event == Event::CloseRequested {
            Action::Exit { code: self.exit_code }
        } else if self.run == RunState::ExitRequested {
            Action::Idle
        } else {
            match event {
                Event::Resized { width, height } | Event::ScaleFactorChanged { width, height } => {
                    if width > 0 && height > 0 {
                        Action::Configure { width, height }
                    } else {
                        Action::Idle
                    }
                },
                Event::RedrawRequested => {
                    if self.surface_fits(configured) {
                        Action::Render { color: self.clear_color() }
                    } else if self.window_has_area() {
                        Action::Configure { width: self.window.0, height: self.window.1 }
                    } else {
                        Action::Idle
                    }
                },
                Event::PointerPressed | Event::PointerMoved => {
                    if self.config.features.cursor_toggle {
                        Action::RequestRedraw
                    } else {
                        Action::Idle
                    }
                },
                Event::Touch => {
                    if self.config.features.touch_logging {
                        Action::LogTouch
                    } else {
                        Action::Idle
                    }
                },
                Event::FrameFailed { error } => {
                    if self.recovers(error) {
                        Action::Recover { width: self.window.0, height: self.window.1 }
                    } else if self.config.policy == FramePolicy::Fatal {
                        Action::LogFailureAndExit { code: EXIT_FAILURE }
                    } else {
                        Action::LogFailure
                    }
                },
                _ => Action::Idle,
            }
        }
    }
}

/// The controller of one window.
#[derive(Debug)]
pub struct Controller {
    run: RunState,
    cursor_visible: bool,
    width: u32,
    height: u32,
    retrying: bool,
    exit_code: i32,
    config: Config,
}

impl View for Controller {
    type V = ControllerState;

    closed spec fn view(&self) -> ControllerState {
        ControllerState {
            run: self.run,
            cursor_visible: self.cursor_visible,
            window: (self.width, self.height),
            retrying: self.retrying,
            exit_code: self.exit_code,
            config: self.config,
        }
    }
}

impl Controller {
    /// What holds of every value of this type.
    #[verifier::type_invariant]
    pub open spec fn sound(&self) -> bool {
        self@.wf()
    }

    /// A running controller for a window of `width` by `height` pixels, with
    /// the cursor flag down and a clean exit code.
    pub fn new(config: Config, width: u32, height: u32) -> (controller: Controller)
        ensures
            controller@ == ControllerState::initial(config, width, height),
            controller@.wf(),
    {
        Controller {
            run: RunState::Running,
            cursor_visible: false,
            width,
            height,
            retrying: false,
            exit_code: EXIT_CLEAN,
            config,
        }
    }

    /// Takes in one event and returns the action that answers it.
    ///
    /// A close request always ends in `ExitRequested`, with the exit code
    /// reached so far. A resize is answered by a configuration for the new
    /// size, unless that size is empty. A redraw is answered by a render only
    /// while the surface is configured for the size of the window; before
    /// that it is answered by the configuration that is still due. Pointer
    /// input toggles the cursor flag and schedules a redraw, where the
    /// configuration has the toggle. A failed frame is tried once more where
    /// the configuration says so; a frame that is given up sets the exit code
    /// to failure, and ends the loop under the fatal policy only. Once exit
    /// is requested nothing but a close request is answered.
    pub fn handle_event<S, F: Copy>(
        &mut self,
        event: Event,
        surface: &SurfaceManager<S, F>,
    ) -> (action: Action)
        ensures
            final(self)@ == old(self)@.next(event),
            final(self)@.wf(),
            action == old(self)@.action(event, surface@.configured_size()),
    {
        proof {
            use_type_invariant(&*self);
        }
        if let Event::CloseRequested = event {
            self.run = RunState::ExitRequested;
            return Action::Exit { code: self.exit_code };
        }
        if let RunState::ExitRequested = self.run {
            return Action::Idle;
        }
        match event {
            Event::Resized { width, height } | Event::ScaleFactorChanged { width, height } => {
                self.width = width;
                self.height = height;
                if width > 0 && height > 0 {
                    Action::Configure { width, height }
                } else {
                    Action::Idle
                }
            },
            Event::RedrawRequested => {
                let fits = match surface.descriptor() {
                    Some(d) => d.width == self.width && d.height == self.height,
                    None => false,
                };
                if fits {
                    Action::Render { color: self.clear_color() }
                } else if self.width > 0 && self.height > 0 {
                    Action::Configure { width: self.width, height: self.height }
                } else {
                    Action::Idle
                }
            },
            Event::PointerPressed | Event::PointerMoved => {
                if self.config.features.cursor_toggle {
                    self.cursor_visible = !self.cursor_visible;
                    Action::RequestRedraw
                } else {
                    Action::Idle
                }
            },
            Event::Touch => {
                if self.config.features.touch_logging {
                    Action::LogTouch
                } else {
                    Action::Idle
                }
            },
            Event::FramePresented => {
                self.retrying = false;
                Action::Idle
            },
            Event::FrameFailed { error } => {
                let recovery = match self.config.recovery {
                    Recovery::ReconfigureOnce => true,
                    Recovery::SkipFrame => false,
                };
                if recovery && error.recoverable() && !self.retrying && self.width > 0
                    && self.height > 0 {
                    self.retrying = true;
                    return Action::Recover { width: self.width, height: self.height };
                }
                self.retrying = false;
                self.exit_code = EXIT_FAILURE;
                match self.config.policy {
                    FramePolicy::Fatal => {
                        self.run = RunState::ExitRequested;
                        Action::LogFailureAndExit { code: EXIT_FAILURE }
                    },
                    FramePolicy::LogAndContinue => Action::LogFailure,
                }
            },
            _ => Action::Idle,
        }
    }

    /// The colour that the next frame is cleared to.
    pub fn clear_color(&self) -> (color: ClearColor)
        ensures
            color == self@.clear_color(),
    {
        self.config.palette.color(self.config.features.cursor_toggle && self.cursor_visible)
    }

    /// Whether the event loop goes on.
    pub fn run_state(&self) -> (run: RunState)
        ensures
            run == self@.run,
    {
        self.run
    }

    /// Whether the event loop goes on.
    pub fn is_running(&self) -> (running: bool)
        ensures
            running == (self@.run == RunState::Running),
    {
        match self.run {
            RunState::Running => true,
            RunState::ExitRequested => false,
        }
    }

    /// The cursor flag.
    pub fn cursor_visible(&self) -> (visible: bool)
        ensures
            visible == self@.cursor_visible,
    {
        self.cursor_visible
    }

    /// The size of the window as last reported.
    pub fn window_size(&self) -> (size: (u32, u32))
        ensures
            size == self@.window,
    {
        (self.width, self.height)
    }

    /// Whether the frame that failed last is being tried once more.
    pub fn is_retrying(&self) -> (retrying: bool)
        ensures
            retrying == self@.retrying,
    {
        self.retrying
    }

    /// The exit code that the program will end with: clean until a frame is
    /// given up, failure from then on.
    pub fn exit_code(&self) -> (code: i32)
        ensures
            code == self@.exit_code,
            code == EXIT_CLEAN || code == EXIT_FAILURE,
    {
        proof {
            use_type_invariant(self);
        }
        self.exit_code
    }

    /// The configuration that the controller was made with.
    pub fn config(&self) -> (config: Config)
        ensures
            config == self@.config,
    {
        self.config
    }
}

/// The line that is written to the error stream when a frame is given up.
pub fn failure_message() -> (text: &'static str)
    ensures
        text@ == "Could not draw next frame"@,
{
    "Could not draw next frame"
}

/// A close request ends in `ExitRequested` whatever the state: the cursor
/// flag, the size of the window, the configuration and the run state do not
/// matter, and nothing but the run state changes. The action is to exit with
/// the code reached so far.
pub proof fn law_close_always_exits(state: ControllerState, configured: Option<(u32, u32)>)
    ensures
        state.next(Event::CloseRequested).run == RunState::ExitRequested,
        state.next(Event::CloseRequested) == (ControllerState {
            run: RunState::ExitRequested,
            ..state
        }),
        state.action(Event::CloseRequested, configured) == (Action::Exit {
            code: state.exit_code,
        }),
{
}

/// `ExitRequested` is terminal: no event changes the state, and none is
/// answered but a close request.
pub proof fn law_exit_is_terminal(
    state: ControllerState,
    event: Event,
    configured: Option<(u32, u32)>,
)
    requires
        state.run == RunState::ExitRequested,
    ensures
        state.next(event) == state,
        event != Event::CloseRequested ==> state.action(event, configured) == Action::Idle,
{
}

/// Only a close request, or a frame that is given up under the fatal policy,
/// ends the loop.
pub proof fn law_only_close_or_fatal_failure_exits(state: ControllerState, event: Event)
    requires
        state.run == RunState::Running,
    ensures
        state.next(event).run == RunState::ExitRequested <==> (event == Event::CloseRequested || (
        event matches Event::FrameFailed { error } && !state.recovers(error)
            && state.config.policy == FramePolicy::Fatal)),
{
}

/// The exit code is clean until a frame is given up and failure from then on.
pub proof fn law_exit_code(state: ControllerState, event: Event)
    requires
        state.wf(),
    ensures
        state.next(event).wf(),
        state.exit_code == EXIT_FAILURE ==> state.next(event).exit_code == EXIT_FAILURE,
        state.next(event).exit_code != state.exit_code ==> (event matches Event::FrameFailed {
            error,
        } && !state.recovers(error)),
{
}

/// A resize is answered by a configuration for exactly the new size, and no
/// redraw is answered by a render until the surface is configured for that
/// size: while it is not, the redraw is answered by that configuration again.
pub proof fn law_reconfigure_before_redraw(
    state: ControllerState,
    width: u32,
    height: u32,
    configured: Option<(u32, u32)>,
)
    requires
        state.run == RunState::Running,
        width > 0,
        height > 0,
    ensures
        state.action(Event::Resized { width, height }, configured) == (Action::Configure {
            width,
            height,
        }),
        state.action(Event::ScaleFactorChanged { width, height }, configured) == (
        Action::Configure { width, height }),
        ({
            let resized = state.next(Event::Resized { width, height });
            let redraw = resized.action(Event::RedrawRequested, configured);
            &&& resized.window == (width, height)
            &&& resized.run == RunState::Running
            &&& configured != Some((width, height)) ==> redraw == (Action::Configure {
                width,
                height,
            })
            &&& configured == Some((width, height)) ==> redraw == (Action::Render {
                color: state.clear_color(),
            })
        }),
{
}

/// Whenever a redraw is answered by a render, the surface is configured for
/// the size of the window.
pub proof fn law_render_only_when_surface_fits(
    state: ControllerState,
    event: Event,
    configured: Option<(u32, u32)>,
)
    requires
        state.action(event, configured) is Render,
    ensures
        event == Event::RedrawRequested,
        state.run == RunState::Running,
        configured == Some(state.window),
        state.action(event, configured) == (Action::Render { color: state.clear_color() }),
{
}

/// In a window that toggles the cursor, a pointer press flips the cursor flag
/// and schedules a redraw, two presses restore the flag, and with a palette of
/// two colours that differ the frames before and after a press are cleared to
/// different colours.
pub proof fn law_pointer_press_toggles(state: ControllerState, configured: Option<(u32, u32)>)
    requires
        state.run == RunState::Running,
        state.config.features.cursor_toggle,
    ensures
        state.next(Event::PointerPressed).cursor_visible == !state.cursor_visible,
        state.next(Event::PointerPressed).next(Event::PointerPressed) == state,
        state.action(Event::PointerPressed, configured) == Action::RequestRedraw,
        state.config.palette.is_distinct() ==> state.next(Event::PointerPressed).clear_color()
            != state.clear_color(),
{
}

/// Input never renders: no input event is answered by a render, a
/// configuration or an exit, and a touch changes nothing at all.
pub proof fn law_input_only_schedules(
    state: ControllerState,
    event: Event,
    configured: Option<(u32, u32)>,
)
    requires
        event == Event::PointerPressed || event == Event::PointerMoved || event == Event::Touch,
    ensures
        ({
            let action = state.action(event, configured);
            action == Action::Idle || action == Action::RequestRedraw || action
                == Action::LogTouch
        }),
        event == Event::Touch ==> state.next(event) == state,
{
}

/// Under the policy that logs and continues, a frame that is given up leaves
/// the controller running, and every later event from the window system is
/// answered as if the frame had not failed, but for the exit code of a close
/// request.
pub proof fn law_failed_frame_keeps_running(
    state: ControllerState,
    error: DrawError,
    later: Event,
    configured: Option<(u32, u32)>,
)
    requires
        state.run == RunState::Running,
        state.config.policy == FramePolicy::LogAndContinue,
        !state.recovers(error),
    ensures
        ({
            let failed = state.next(Event::FrameFailed { error });
            &&& failed.run == RunState::Running
            &&& state.action(Event::FrameFailed { error }, configured) == Action::LogFailure
            &&& failed == (ControllerState { retrying: false, exit_code: EXIT_FAILURE, ..state })
            &&& later != Event::CloseRequested && !(later is FrameFailed) ==> failed.action(
                later,
                configured,
            ) == state.action(later, configured)
            &&& failed.action(Event::CloseRequested, configured) == (Action::Exit {
                code: EXIT_FAILURE,
            })
        }),
{
}

/// Under the fatal policy a frame that is given up ends the loop with the
/// failure code.
pub proof fn law_failed_frame_is_fatal(
    state: ControllerState,
    error: DrawError,
    configured: Option<(u32, u32)>,
)
    requires
        state.run == RunState::Running,
        state.config.policy == FramePolicy::Fatal,
        !state.recovers(error),
    ensures
        state.next(Event::FrameFailed { error }).run == RunState::ExitRequested,
        state.next(Event::FrameFailed { error }).exit_code == EXIT_FAILURE,
        state.action(Event::FrameFailed { error }, configured) == (Action::LogFailureAndExit {
            code: EXIT_FAILURE,
        }),
{
}

/// Without recovery every failed frame is given up at once.
pub proof fn law_no_recovery_unless_configured(state: ControllerState, error: DrawError)
    requires
        state.config.recovery == Recovery::SkipFrame,
    ensures
        !state.recovers(error),
{
}

/// With recovery a failed frame is tried once more, and once only: the first
/// failure is answered by a new configuration for the size of the window and
/// a redraw, and leaves run state and exit code alone; a failure of the
/// second try is given up, whatever its cause; a frame that is presented
/// makes the next failure a first one again.
pub proof fn law_recovery_tries_once(
    state: ControllerState,
    first: DrawError,
    second: DrawError,
    configured: Option<(u32, u32)>,
)
    requires
        state.run == RunState::Running,
        state.recovers(first),
    ensures
        ({
            let retry = state.next(Event::FrameFailed { error: first });
            &&& state.action(Event::FrameFailed { error: first }, configured) == (Action::Recover {
                width: state.window.0,
                height: state.window.1,
            })
            &&& retry == (ControllerState { retrying: true, ..state })
            &&& !retry.recovers(second)
            &&& retry.next(Event::FrameFailed { error: second }) == state.given_up()
            &&& !(retry.action(Event::FrameFailed { error: second }, configured) is Recover)
            &&& retry.next(Event::FramePresented) == state
            &&& retry.next(Event::FramePresented).recovers(first)
        }),
{
}

} // verus!
