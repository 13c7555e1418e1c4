use bloom_pipeline::buffers::RenderBuffers;
use bloom_pipeline::error::LuminanceError;
use bloom_pipeline::passes::blur::{blur_schedule, BlurSource, RadiusFactor};
use bloom_pipeline::pipeline::{
    frame_passes, target_sizes, Allocated, FramePass, Pipeline, TargetSizes,
};
use bloom_pipeline::target::RenderTarget;
use luminance::framebuffer::{FramebufferError, IncompleteReason};
use luminance::shader::program::ProgramError;

const QUARTER: RadiusFactor = RadiusFactor { numer: 1, denom: 4 };

type TestPipeline<'a> = Pipeline<'a, &'static str, u32, &'static str, u32, &'static str>;

fn allocated(base: u32) -> Allocated<&'static str, u32, u32> {
    Allocated {
        back_buffer: "back buffer",
        intermediate: Ok(base),
        first: Ok(base + 1),
        second: Ok(base + 2),
    }
}

fn pipeline<'a>(tris: &'a &'static str) -> TestPipeline<'a> {
    Pipeline::new([1280, 720], allocated(0), Ok("blur program"), tris, QUARTER).unwrap()
}

fn failure(reason: IncompleteReason) -> FramebufferError {
    FramebufferError::Incomplete(reason)
}

#[test]
fn target_sizes_of_the_default_window() {
    assert_eq!(
        target_sizes([1280, 720]),
        TargetSizes { presentation: [1280, 720], blur: [320, 180] }
    );
    assert_eq!(target_sizes([1, 3]), TargetSizes { presentation: [1, 3], blur: [0, 0] });
    assert_eq!(target_sizes([1023, 769]), TargetSizes { presentation: [1023, 769], blur: [255, 192] });
}

#[test]
fn render_buffers_stand_at_the_size_given() {
    let buffers: RenderBuffers<&str, u32> = RenderBuffers::new("back", Ok(5), [800, 600]).unwrap();
    assert_eq!(buffers.size(), [800, 600]);
    assert_eq!(*buffers.back_buffer(), RenderTarget { attachment: "back", size: [800, 600] });
    assert_eq!(*buffers.intermediate_buffer(), RenderTarget { attachment: 5, size: [800, 600] });
    assert_eq!(*buffers.intermediate_buffer().attachment(), 5);
}

#[test]
fn render_buffers_fail_with_the_intermediate_buffer() {
    let reason = failure(IncompleteReason::IncompleteReadBuffer);
    let built: Result<RenderBuffers<&str, u32>, LuminanceError> =
        RenderBuffers::new("back", Err(reason.clone()), [800, 600]);
    assert!(matches!(built.err(), Some(LuminanceError::FramebufferError(ref e)) if *e == reason));
}

#[test]
fn new_pipeline_allocates_blur_buffers_at_a_quarter() {
    let tris = "triangles";
    let pipeline = pipeline(&tris);
    assert_eq!(pipeline.buffers().size(), [1280, 720]);
    assert_eq!(pipeline.buffers().back_buffer().size(), [1280, 720]);
    assert_eq!(
        pipeline.blur_pass().buffer(0),
        Some(&RenderTarget { attachment: 1, size: [320, 180] })
    );
    assert_eq!(
        pipeline.blur_pass().buffer(1),
        Some(&RenderTarget { attachment: 2, size: [320, 180] })
    );
    assert_eq!(*pipeline.blur_pass().texture(), 2);
}

#[test]
fn resize_replaces_every_target_together() {
    let tris = "triangles";
    let mut pipeline = pipeline(&tris);
    assert!(pipeline.resize([1921, 1083], allocated(10)).is_ok());
    assert_eq!(
        *pipeline.buffers().intermediate_buffer(),
        RenderTarget { attachment: 10, size: [1921, 1083] }
    );
    assert_eq!(pipeline.buffers().back_buffer().size(), [1921, 1083]);
    assert_eq!(
        pipeline.blur_pass().buffer(0),
        Some(&RenderTarget { attachment: 11, size: [480, 270] })
    );
    assert_eq!(
        pipeline.blur_pass().buffer(1),
        Some(&RenderTarget { attachment: 12, size: [480, 270] })
    );
    assert_eq!(*pipeline.blur_pass().program(), "blur program");
}

#[test]
fn resize_gives_the_sizes_that_construction_gives() {
    let tris = "triangles";
    for &size in &[[1u32, 1u32], [4, 4], [5, 7], [1280, 720], [u32::MAX, u32::MAX]] {
        let built: TestPipeline =
            Pipeline::new(size, allocated(10), Ok("blur program"), &tris, QUARTER).unwrap();
        let mut resized = pipeline(&tris);
        assert!(resized.resize(size, allocated(10)).is_ok());
        for j in 0..2 {
            assert_eq!(resized.blur_pass().buffer(j), built.blur_pass().buffer(j));
            assert_eq!(resized.blur_pass().buffer(j).unwrap().size(), [size[0] / 4, size[1] / 4]);
        }
        assert_eq!(resized.buffers().size(), built.buffers().size());
    }
}

#[test]
fn failed_resize_keeps_every_target() {
    let tris = "triangles";
    let reason = failure(IncompleteReason::Unsupported);
    let attempts = vec![
        Allocated { intermediate: Err(reason.clone()), ..allocated(10) },
        Allocated { first: Err(reason.clone()), ..allocated(10) },
        Allocated { second: Err(reason.clone()), ..allocated(10) },
    ];
    for attempt in attempts {
        let mut pipeline = pipeline(&tris);
        let done = pipeline.resize([640, 480], attempt);
        assert!(matches!(done, Err(LuminanceError::FramebufferError(ref e)) if *e == reason));
        assert_eq!(
            *pipeline.buffers().intermediate_buffer(),
            RenderTarget { attachment: 0, size: [1280, 720] }
        );
        assert_eq!(
            pipeline.blur_pass().buffer(0),
            Some(&RenderTarget { attachment: 1, size: [320, 180] })
        );
        assert_eq!(
            pipeline.blur_pass().buffer(1),
            Some(&RenderTarget { attachment: 2, size: [320, 180] })
        );
    }
}

#[test]
fn failed_resize_reports_the_intermediate_buffer_first() {
    let tris = "triangles";
    let mut pipeline = pipeline(&tris);
    let intermediate = failure(IncompleteReason::Undefined);
    let first = failure(IncompleteReason::MissingAttachment);
    let second = failure(IncompleteReason::IncompleteAttachment);
    let done = pipeline.resize(
        [640, 480],
        Allocated {
            back_buffer: "back buffer",
            intermediate: Err(intermediate.clone()),
            first: Err(first.clone()),
            second: Err(second.clone()),
        },
    );
    assert!(matches!(done, Err(LuminanceError::FramebufferError(ref e)) if *e == intermediate));
    let done = pipeline.resize(
        [640, 480],
        Allocated {
            back_buffer: "back buffer",
            intermediate: Ok(1),
            first: Err(first.clone()),
            second: Err(second),
        },
    );
    assert!(matches!(done, Err(LuminanceError::FramebufferError(ref e)) if *e == first));
}

#[test]
fn new_pipeline_reports_the_intermediate_buffer_before_the_program() {
    let tris = "triangles";
    let reason = failure(IncompleteReason::IncompleteDrawBuffer);
    let built: Result<TestPipeline, LuminanceError> = Pipeline::new(
        [1280, 720],
        Allocated { intermediate: Err(reason.clone()), ..allocated(0) },
        Err(ProgramError::LinkFailed(String::from("no main"))),
        &tris,
        QUARTER,
    );
    assert!(matches!(built.err(), Some(LuminanceError::FramebufferError(ref e)) if *e == reason));

    let built: Result<TestPipeline, LuminanceError> = Pipeline::new(
        [1280, 720],
        Allocated { first: Err(reason), ..allocated(0) },
        Err(ProgramError::LinkFailed(String::from("no main"))),
        &tris,
        QUARTER,
    );
    assert!(matches!(
        built.err(),
        Some(LuminanceError::ProgramError(ProgramError::LinkFailed(ref r))) if r == "no main"
    ));
}

#[test]
fn frame_runs_scene_then_blur_then_composite() {
    let tris = "triangles";
    let pipeline = pipeline(&tris);
    let passes = pipeline.frame();
    let blur = blur_schedule(QUARTER);
    assert_eq!(passes.len(), 7);
    assert_eq!(passes[0], FramePass::Scene);
    for k in 0..blur.len() {
        assert_eq!(passes[k + 1], FramePass::Blur(blur[k]));
    }
    assert_eq!(passes[6], FramePass::Composite { blurred: 1 });
    assert_eq!(passes, frame_passes(&blur));
}

#[test]
fn composite_reads_the_buffer_that_the_blur_wrote_last() {
    let tris = "triangles";
    let passes = pipeline(&tris).frame();
    let last_blur = match passes[passes.len() - 2] {
        FramePass::Blur(draw) => draw,
        other => panic!("not a blur draw: {:?}", other),
    };
    assert_eq!(last_blur.source, BlurSource::Buffer(0));
    assert_eq!(passes[passes.len() - 1], FramePass::Composite { blurred: last_blur.target });
}

#[test]
fn frame_passes_of_no_blur_are_scene_and_composite() {
    assert_eq!(
        frame_passes(&Vec::new()),
        vec![FramePass::Scene, FramePass::Composite { blurred: 1 }]
    );
}
