//! The frame renderer.
//!
//! Rendering a frame means recording one render pass that clears the frame's
//! image and stores the result, submitting it, and presenting the image. The
//! renderer decides which steps that takes; the caller replays them, in
//! order, on the graphics device.

use crate::color::ClearColor;
use crate::surface::{FrameHandle, FrameTicket, SurfaceFault, SurfaceManager, SurfaceState};
use vstd::prelude::*;

verus! {

/// What a render pass does to its colour attachment before drawing.
#[derive(Clone, Copy, Debug, PartialEq, Eq, Structural)]
pub enum LoadOp {
    /// Every pixel is set to the colour.
    Clear(ClearColor),
    /// The earlier content is kept.
    Load,
}

/// What a render pass does with its colour attachment after drawing.
#[derive(Clone, Copy, Debug, PartialEq, Eq, Structural)]
pub enum StoreOp {
    /// The content is written back, so that it can be presented.
    Store,
    Discard,
}

/// What a render pass draws between clearing and storing.
#[derive(Clone, Copy, Debug, PartialEq, Eq, Structural)]
pub enum Geometry {
    /// No draw call is issued.
    Nothing,
    /// A pipeline is bound whose vertex stage places everything off screen:
    /// a draw call is issued and no pixel is touched.
    Degenerate,
}

/// One step on the graphics device. `F` is its pixel format type.
#[derive(Debug, PartialEq, Eq)]
pub enum RenderStep<F> {
    /// Create a view of the frame's image in exactly this format.
    CreateView { format: F },
    /// Open a command recording scope.
    BeginRecording,
    /// Begin a render pass on the view.
    BeginPass { load: LoadOp, store: StoreOp },
    /// Bind the pipeline of the degenerate geometry.
    BindPipeline,
    /// Draw the degenerate geometry.
    Draw,
    /// End the render pass.
    EndPass,
    /// Close the recording scope and submit what was recorded to the queue.
    Submit,
    /// Present the frame's image.
    Present,
}

impl<F: Copy> Copy for RenderStep<F> {

}

impl<F: Copy> Clone for RenderStep<F> {
    fn clone(&self) -> (copy: Self)
        ensures
            copy == *self,
    {
        *self
    }
}

/// The steps that put a frame on the screen: a view in `format`, one pass
/// that clears to `color`, draws `geometry` and stores the result, then the
/// submission, then the presentation.
pub open spec fn frame_steps<F>(format: F, color: ClearColor, geometry: Geometry) -> Seq<
    RenderStep<F>,
> {
    let opening = seq![
        RenderStep::CreateView { format },
        RenderStep::BeginRecording,
        RenderStep::BeginPass { load: LoadOp::Clear(color), store: StoreOp::Store },
    ];
    let drawing = if geometry == Geometry::Degenerate {
        seq![RenderStep::BindPipeline, RenderStep::Draw]
    } else {
        Seq::empty()
    };
    let closing = seq![RenderStep::EndPass, RenderStep::Submit, RenderStep::Present];
    opening + drawing + closing
}

/// What a recorded frame stands for.
pub struct Recording<T, F> {
    pub image: T,
    pub steps: Seq<RenderStep<F>>,
}

/// A frame that is ready to be put on the screen: `steps` are to be carried
/// out on `image`, in order.
#[derive(Debug)]
pub struct RecordedFrame<T, F> {
    pub image: T,
    pub steps: Vec<RenderStep<F>>,
}

impl<T, F> View for RecordedFrame<T, F> {
    type V = Recording<T, F>;

    open spec fn view(&self) -> Recording<T, F> {
        Recording { image: self.image, steps: self.steps@ }
    }
}

/// Why a frame was not rendered.
#[derive(Clone, Copy, Debug, PartialEq, Eq, Structural)]
pub enum RenderError {
    /// The frame was consumed before, or the surface was configured anew or
    /// asked for another frame since it was acquired.
    StaleFrame,
}

/// Why no frame was drawn.
#[derive(Clone, Copy, Debug, PartialEq, Eq, Structural)]
pub enum DrawError {
    /// The surface is not configured for the size that the window has now.
    SurfaceNotFitted,
    /// The platform could not supply an image. Nothing was retried.
    SurfaceUnavailable(SurfaceFault),
}

impl DrawError {
    /// Whether configuring the surface anew and drawing once more may help:
    /// it may where the surface does not fit, is lost or outdated, or did not
    /// answer in time.
    pub open spec fn is_recoverable(self) -> bool {
        match self {
            DrawError::SurfaceNotFitted => true,
            DrawError::SurfaceUnavailable(fault) => fault is Lost || fault is Outdated || fault
                is TimedOut,
        }
    }

    /// Whether configuring the surface anew and drawing once more may help.
    pub fn recoverable(&self) -> (recoverable: bool)
        ensures
            recoverable == self.is_recoverable(),
    {
        match self {
            DrawError::SurfaceNotFitted => true,
            DrawError::SurfaceUnavailable(SurfaceFault::Lost) => true,
            DrawError::SurfaceUnavailable(SurfaceFault::Outdated) => true,
            DrawError::SurfaceUnavailable(SurfaceFault::TimedOut) => true,
            DrawError::SurfaceUnavailable(_) => false,
        }
    }
}

/// What rendering the frame `frame` records on a surface in state `surface`,
/// or `None` where the frame is stale.
pub open spec fn recorded<T, F>(
    surface: SurfaceState<F>,
    frame: FrameTicket<T>,
    color: ClearColor,
    geometry: Geometry,
) -> Option<Recording<T, F>> {
    if surface.is_live(frame.serial) {
        Some(
            Recording {
                image: frame.image,
                steps: frame_steps(surface.descriptor->0.format, color, geometry),
            },
        )
    } else {
        None
    }
}

/// The component that turns an acquired frame into a recorded one.
#[derive(Clone, Copy, Debug)]
pub struct FrameRenderer {
    geometry: Geometry,
}

impl FrameRenderer {
    /// What this renderer draws in each pass.
    pub closed spec fn geometry(&self) -> Geometry {
        self.geometry
    }

    /// A renderer that only clears, or, with `pipeline`, one that also binds
    /// its pipeline and draws the degenerate geometry.
    pub fn new(pipeline: bool) -> (renderer: FrameRenderer)
        ensures
            renderer.geometry() == if pipeline {
                Geometry::Degenerate
            } else {
                Geometry::Nothing
            },
    {
        FrameRenderer {
            geometry: if pipeline {
                Geometry::Degenerate
            } else {
                Geometry::Nothing
            },
        }
    }

    /// Whether the recorded passes bind a pipeline.
    pub fn uses_pipeline(&self) -> (pipeline: bool)
        ensures
            pipeline == (self.geometry() == Geometry::Degenerate),
    {
        match self.geometry {
            Geometry::Degenerate => true,
            Geometry::Nothing => false,
        }
    }

    /// The steps that put one frame on the screen.
    pub fn steps<F: Copy>(&self, format: F, color: ClearColor) -> (steps: Vec<RenderStep<F>>)
        ensures
            steps@ == frame_steps(format, color, self.geometry()),
    {
        let mut steps: Vec<RenderStep<F>> = Vec::new();
        steps.push(RenderStep::CreateView { format });
        steps.push(RenderStep::BeginRecording);
        steps.push(RenderStep::BeginPass { load: LoadOp::Clear(color), store: StoreOp::Store });
        if self.uses_pipeline() {
            steps.push(RenderStep::BindPipeline);
            steps.push(RenderStep::Draw);
        }
        steps.push(RenderStep::EndPass);
        steps.push(RenderStep::Submit);
        steps.push(RenderStep::Present);
        assert(steps@ =~= frame_steps(format, color, self.geometry()));
        steps
    }

    /// Consumes `frame` and records the steps that clear it to `color` and
    /// present it.
    ///
    /// The view format is that of the surface's configuration, never
    /// inferred. The one pass loads by clearing to `color` and stores its
    /// result. A stale frame is refused: it is dropped, nothing is recorded
    /// for it and nothing is to be presented. Either way the frame is
    /// retired.
    pub fn render<S, F: Copy, T>(
        &self,
        surface: &mut SurfaceManager<S, F>,
        frame: FrameHandle<T>,
        color: ClearColor,
    ) -> (result: Result<RecordedFrame<T, F>, RenderError>)
        ensures
            final(surface)@ == old(surface)@.retired(frame@.serial),
            final(surface)@.wf(),
            final(surface).platform() == old(surface).platform(),
            result is Ok <==> old(surface)@.is_live(frame@.serial),
            result matches Ok(r) ==> Some(r@) == recorded(
                old(surface)@,
                frame@,
                color,
                self.geometry(),
            ) && r.image == frame@.image && r.steps@ == frame_steps(
                old(surface)@.descriptor->0.format,
                color,
                self.geometry(),
            ),
            result matches Err(e) ==> e == RenderError::StaleFrame,
    {
        match surface.retire(frame.serial()) {
            None => Err(RenderError::StaleFrame),
            Some(descriptor) => Ok(
                RecordedFrame {
                    image: frame.into_image(),
                    steps: self.steps(descriptor.format, color),
                },
            ),
        }
    }
}

/// How many of the first `n` steps begin a render pass.
pub open spec fn passes_begun<F>(steps: Seq<RenderStep<F>>, n: int) -> int
    decreases n,
{
    if n <= 0 {
        0
    } else {
        passes_begun(steps, n - 1) + if steps[n - 1] is BeginPass {
            1int
        } else {
            0int
        }
    }
}

/// The shape of every frame: it opens with the view in the given format, the
/// recording scope and the pass that clears to the given colour and stores;
/// it closes with the end of the pass, the submission and, last of all, the
/// presentation; in between lies nothing, or the pipeline and its one draw
/// call.
pub proof fn law_frame_shape<F>(format: F, color: ClearColor, geometry: Geometry)
    ensures
        ({
            let steps = frame_steps(format, color, geometry);
            let n = steps.len() as int;
            &&& n == if geometry == Geometry::Degenerate {
                8int
            } else {
                6int
            }
            &&& steps[0] == RenderStep::CreateView { format }
            &&& steps[1] == RenderStep::<F>::BeginRecording
            &&& steps[2] == RenderStep::<F>::BeginPass {
                load: LoadOp::Clear(color),
                store: StoreOp::Store,
            }
            &&& steps[n - 3] == RenderStep::<F>::EndPass
            &&& steps[n - 2] == RenderStep::<F>::Submit
            &&& steps[n - 1] == RenderStep::<F>::Present
            &&& geometry == Geometry::Degenerate ==> steps[3] == RenderStep::<F>::BindPipeline
                && steps[4] == RenderStep::<F>::Draw
        }),
{
}

/// Every frame takes exactly one render pass, and is presented exactly once,
/// after everything else. Without a pipeline no draw call is issued.
pub proof fn law_one_pass_one_presentation<F>(format: F, color: ClearColor, geometry: Geometry)
    ensures
        ({
            let steps = frame_steps(format, color, geometry);
            &&& passes_begun(steps, steps.len() as int) == 1
            &&& forall|i: int|
                0 <= i < steps.len() ==> (#[trigger] steps[i] is Present <==> i == steps.len() - 1)
            &&& geometry == Geometry::Nothing ==> forall|i: int|
                0 <= i < steps.len() ==> !(#[trigger] steps[i] is Draw) && !(steps[i]
                    is BindPipeline)
        }),
{
    let steps = frame_steps(format, color, geometry);
    law_frame_shape(format, color, geometry);
    reveal_with_fuel(passes_begun, 9);
}

/// Rendering is a function of the clear colour and the frame's view alone:
/// two live frames with the same image, drawn in the same format with the
/// same colour, record the same steps, whatever else the surfaces' books say.
pub proof fn law_render_is_deterministic<T, F>(
    a: SurfaceState<F>,
    b: SurfaceState<F>,
    x: FrameTicket<T>,
    y: FrameTicket<T>,
    color: ClearColor,
    geometry: Geometry,
)
    requires
        a.is_live(x.serial),
        b.is_live(y.serial),
        x.image == y.image,
        a.descriptor->0.format == b.descriptor->0.format,
    ensures
        recorded(a, x, color, geometry) is Some,
        recorded(a, x, color, geometry) == recorded(b, y, color, geometry),
{
}

/// A frame that was rendered cannot be rendered again.
pub proof fn law_render_consumes_frame<T, F>(
    surface: SurfaceState<F>,
    frame: FrameTicket<T>,
    color: ClearColor,
    geometry: Geometry,
)
    ensures
        recorded(surface.retired(frame.serial), frame, color, geometry) is None,
{
}

} // verus!
