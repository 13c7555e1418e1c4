//! The whole pipeline: every target that depends on the presentation size
//! under one owner, and the passes of a frame in order.
use crate::buffers::{assembled, RenderBuffers, RenderBuffersView};
use crate::error::LuminanceError;
use crate::passes::blur::{
    construction, resized, schedule, BlurDraw, BlurPass, BlurPassView, RadiusFactor, BUFFER_COUNT,
};
use crate::size::{blur_buffer_size, downscale, BLUR_SIZE_FACTOR};
use luminance::framebuffer::FramebufferError;
use luminance::shader::program::ProgramError;
use vstd::prelude::*;

verus! {

/// One pass of a frame.
#[derive(Clone, Copy, Debug, PartialEq, Eq, Structural)]
pub enum FramePass {
    /// The scene's geometry, drawn into the intermediate buffer: it leaves the
    /// main colour, the bright colour and the depth there.
    Scene,
    /// One draw of the blur. The input texture of the blur is the bright
    /// colour of the intermediate buffer.
    Blur(BlurDraw),
    /// The composite, drawn into the back buffer: it combines the main colour
    /// of the intermediate buffer with the blur's buffer of this index.
    Composite { blurred: usize },
}

/// The passes of a frame, in order: the scene, the draws of the blur, and the
/// composite of the main colour with the buffer that the blur wrote last.
pub open spec fn frame(factor: RadiusFactor) -> Seq<FramePass> {
    Seq::new(
        schedule(factor).len() + 2,
        |k: int|
            if k == 0 {
                FramePass::Scene
            } else if k <= schedule(factor).len() {
                FramePass::Blur(schedule(factor)[k - 1])
            } else {
                FramePass::Composite { blurred: (BUFFER_COUNT - 1) as usize }
            },
    )
}

/// Lists the passes of a frame, in the order in which they are issued.
pub fn frame_passes(blur: &Vec<BlurDraw>) -> (passes: Vec<FramePass>)
    requires
        blur@.len() < usize::MAX - 1,
    ensures
        passes@.len() == blur@.len() + 2,
        passes@[0] == FramePass::Scene,
        forall|k: int| 1 <= k <= blur@.len() ==> passes@[k] == FramePass::Blur(blur@[k - 1]),
        passes@[blur@.len() as int + 1] == (FramePass::Composite {
            blurred: (BUFFER_COUNT - 1) as usize,
        }),
{
    let mut passes: Vec<FramePass> = Vec::new();
    passes.push(FramePass::Scene);
    let mut k: usize = 0;
    while k < blur.len()
        invariant
            k <= blur@.len(),
            passes@.len() == k + 1,
            passes@[0] == FramePass::Scene,
            forall|i: int| 1 <= i <= k ==> passes@[i] == FramePass::Blur(blur@[i - 1]),
        decreases blur@.len() - k,
    {
        passes.push(FramePass::Blur(blur[k]));
        k = k + 1;
    }
    passes.push(FramePass::Composite { blurred: BUFFER_COUNT - 1 });
    passes
}

/// The sizes that the targets of a presentation surface are allocated at.
#[derive(Clone, Copy, Debug, PartialEq, Eq)]
pub struct TargetSizes {
    /// The size of the back buffer and of the intermediate buffer.
    pub presentation: [u32; 2],
    /// The size of each buffer of the blur.
    pub blur: [u32; 2],
}

/// The sizes to allocate at for a presentation surface of `size`: the scene's
/// targets at `size`, the blur's buffers at a quarter of it per axis.
pub fn target_sizes(size: [u32; 2]) -> (sizes: TargetSizes)
    ensures
        sizes.presentation == size,
        sizes.blur == downscale(size, BLUR_SIZE_FACTOR),
{
    TargetSizes { presentation: size, blur: blur_buffer_size(size) }
}

/// The scene's targets and the blur pass, all made for one presentation size.
#[derive(Debug)]
pub struct Pipeline<'a, B, I, P, F, T> {
    buffers: RenderBuffers<B, I>,
    blur_pass: BlurPass<'a, P, F, T>,
}

/// What a pipeline holds.
pub struct PipelineView<B, I, P, F, T> {
    pub buffers: RenderBuffersView<B, I>,
    pub blur_pass: BlurPassView<P, F, T>,
}

/// What the device answered when it was asked for the targets of one
/// presentation size.
#[derive(Debug)]
pub struct Allocated<B, I, F> {
    /// The back buffer.
    pub back_buffer: B,
    /// The intermediate buffer, or why there is none.
    pub intermediate: Result<I, FramebufferError>,
    /// The first buffer of the blur, or why there is none.
    pub first: Result<F, FramebufferError>,
    /// The second buffer of the blur, or why there is none.
    pub second: Result<F, FramebufferError>,
}

/// What building a pipeline gives, from what the device answered: the failure
/// of the intermediate buffer comes first, then those of the blur pass; with
/// everything built, the scene's targets stand at `size` and the blur's buffers
/// at a quarter of it per axis.
pub open spec fn pipeline_built<B, I, P, F, T>(
    size: [u32; 2],
    allocated: Allocated<B, I, F>,
    program: Result<P, ProgramError>,
    fullscreen_tris: T,
    radius_factor: RadiusFactor,
) -> Result<PipelineView<B, I, P, F, T>, LuminanceError> {
    match assembled(allocated.back_buffer, allocated.intermediate, size) {
        Err(e) => Err(e),
        Ok(buffers) => match construction(
            program,
            allocated.first,
            allocated.second,
            downscale(size, BLUR_SIZE_FACTOR),
            fullscreen_tris,
            radius_factor,
        ) {
            Err(e) => Err(e),
            Ok(blur_pass) => Ok(PipelineView { buffers, blur_pass }),
        },
    }
}

/// What a resize gives, from what the device answered: the failure of the
/// intermediate buffer comes first, then that of the first buffer of the blur,
/// then that of the second.
pub open spec fn pipeline_resize_outcome<B, I, F>(allocated: Allocated<B, I, F>) -> Result<
    (),
    LuminanceError,
> {
    match (allocated.intermediate, allocated.first, allocated.second) {
        (Err(e), _, _) => Err(LuminanceError::FramebufferError(e)),
        (Ok(_), Err(e), _) => Err(LuminanceError::FramebufferError(e)),
        (Ok(_), Ok(_), Err(e)) => Err(LuminanceError::FramebufferError(e)),
        (Ok(_), Ok(_), Ok(_)) => Ok(()),
    }
}

/// What a resize leaves of a pipeline: with every target built, all of them
/// are replaced together; else none is.
pub open spec fn pipeline_resized<B, I, P, F, T>(
    before: PipelineView<B, I, P, F, T>,
    size: [u32; 2],
    allocated: Allocated<B, I, F>,
) -> PipelineView<B, I, P, F, T> {
    if pipeline_resize_outcome(allocated) is Ok {
        PipelineView {
            buffers: assembled(allocated.back_buffer, allocated.intermediate, size)->Ok_0,
            blur_pass: resized(
                before.blur_pass,
                allocated.first,
                allocated.second,
                downscale(size, BLUR_SIZE_FACTOR),
            ),
        }
    } else {
        before
    }
}

impl<'a, B, I, P, F, T> Pipeline<'a, B, I, P, F, T> {
    /// What the pipeline holds.
    pub closed spec fn view(&self) -> PipelineView<B, I, P, F, T> {
        PipelineView { buffers: self.buffers@, blur_pass: self.blur_pass@ }
    }

    /// Every target matches the presentation size: the scene's targets stand at
    /// it, and every buffer of the blur at a quarter of it per axis.
    pub open spec fn wf(&self) -> bool {
        &&& self@.buffers.back_buffer.size == self@.buffers.intermediate_buffer.size
        &&& self@.blur_pass.buffers.len() == BUFFER_COUNT
        &&& forall|j: int|
            0 <= j < BUFFER_COUNT ==> (#[trigger] self@.blur_pass.buffers[j]).size == downscale(
                self@.buffers.intermediate_buffer.size,
                BLUR_SIZE_FACTOR,
            )
    }

    /// The views of a built pipeline, or the error.
    pub open spec fn viewed(built: Result<Self, LuminanceError>) -> Result<
        PipelineView<B, I, P, F, T>,
        LuminanceError,
    > {
        match built {
            Ok(pipeline) => Ok(pipeline@),
            Err(e) => Err(e),
        }
    }

    /// Creates the pipeline for a presentation surface of `size` from what the
    /// device was asked for: the targets at the sizes that `target_sizes` gives
    /// for `size`, and the blur's shader program.
    pub fn new(
        size: [u32; 2],
        allocated: Allocated<B, I, F>,
        program: Result<P, ProgramError>,
        fullscreen_tris: &'a T,
        radius_factor: RadiusFactor,
    ) -> (built: Result<Self, LuminanceError>)
        ensures
            Self::viewed(built) == pipeline_built(
                size,
                allocated,
                program,
                *fullscreen_tris,
                radius_factor,
            ),
            built is Ok ==> built->Ok_0.wf(),
    {
        let sizes = target_sizes(size);
        let buffers = match RenderBuffers::new(
            allocated.back_buffer,
            allocated.intermediate,
            sizes.presentation,
        ) {
            Ok(buffers) => buffers,
            Err(e) => {
                return Err(e);
            },
        };
        let blur_pass = match BlurPass::new(
            program,
            allocated.first,
            allocated.second,
            sizes.blur,
            fullscreen_tris,
            radius_factor,
        ) {
            Ok(blur_pass) => blur_pass,
            Err(e) => {
                return Err(e);
            },
        };
        let pipeline = Pipeline { buffers, blur_pass };
        Ok(pipeline)
    }

    /// Replaces every target by those that the device was asked for at the
    /// sizes that `target_sizes` gives for `size`. Where any of them could not
    /// be built, the pipeline keeps all the targets it had.
    pub fn resize(&mut self, size: [u32; 2], allocated: Allocated<B, I, F>) -> (done: Result<
        (),
        LuminanceError,
    >)
        ensures
            done == pipeline_resize_outcome(allocated),
            final(self)@ == pipeline_resized(old(self)@, size, allocated),
            done is Ok ==> final(self).wf(),
            done is Err ==> *final(self) == *old(self),
    {
        let sizes = target_sizes(size);
        let buffers = match RenderBuffers::new(
            allocated.back_buffer,
            allocated.intermediate,
            sizes.presentation,
        ) {
            Ok(buffers) => buffers,
            Err(e) => {
                return Err(e);
            },
        };
        match self.blur_pass.resize_buffers(allocated.first, allocated.second, sizes.blur) {
            Ok(()) => {},
            Err(e) => {
                return Err(e);
            },
        }
        self.buffers = buffers;
        Ok(())
    }

    /// Lists the passes of a frame, in the order in which they are issued.
    pub fn frame(&self) -> (passes: Vec<FramePass>)
        ensures
            passes@ == frame(self@.blur_pass.radius_factor),
    {
        let blur = self.blur_pass.run();
        let passes = frame_passes(&blur);
        assert(passes@ =~= frame(self@.blur_pass.radius_factor));
        passes
    }

    /// The scene's targets.
    pub fn buffers(&self) -> (buffers: &RenderBuffers<B, I>)
        ensures
            buffers@ == self@.buffers,
    {
        &self.buffers
    }

    /// The blur pass.
    pub fn blur_pass(&self) -> (blur_pass: &BlurPass<'a, P, F, T>)
        ensures
            blur_pass@ == self@.blur_pass,
    {
        &self.blur_pass
    }
}

/// The composite of a frame reads the buffer that the last draw of the blur
/// wrote, and every draw of the blur stands between the scene and the
/// composite.
pub proof fn lemma_composite_reads_last_blur(factor: RadiusFactor)
    ensures
        frame(factor).first() == FramePass::Scene,
        frame(factor).last() == (FramePass::Composite {
            blurred: schedule(factor).last().target,
        }),
        forall|k: int|
            0 <= k < schedule(factor).len() ==> frame(factor)[k + 1] == FramePass::Blur(
                #[trigger] schedule(factor)[k],
            ),
{
}

} // verus!
