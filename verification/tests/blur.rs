use bloom_pipeline::error::LuminanceError;
use bloom_pipeline::passes::blur::{
    blur_schedule, iteration_radius, BlurDraw, BlurSource, Radius, RadiusFactor, BUFFER_COUNT,
    DRAW_COUNT, INJECTION_TARGET, ITERATIONS,
};
use bloom_pipeline::passes::BlurPass;
use bloom_pipeline::target::RenderTarget;
use luminance::framebuffer::{FramebufferError, IncompleteReason};
use luminance::shader::program::ProgramError;
use luminance::texture::TextureError;

const QUARTER: RadiusFactor = RadiusFactor { numer: 1, denom: 4 };

fn value(radius: Radius) -> f32 {
    radius.numer as f32 / radius.denom as f32
}

fn pass<'a>(tris: &'a &'static str) -> BlurPass<'a, &'static str, u32, &'static str> {
    BlurPass::new(Ok("blur program"), Ok(10), Ok(11), [320, 180], tris, QUARTER).unwrap()
}

#[test]
fn run_issues_the_radii_of_the_default_configuration_in_order() {
    let tris = "triangles";
    let plan = pass(&tris).run();
    let radii: Vec<f32> = plan.iter().map(|draw| value(draw.radius)).collect();
    assert_eq!(radii, vec![0.25, 0.25, 0.25, 0.75, 0.75]);
}

#[test]
fn run_lists_five_draws() {
    let tris = "triangles";
    let plan = pass(&tris).run();
    assert_eq!(plan.len(), DRAW_COUNT);
    assert_eq!(plan.len(), 1 + ITERATIONS * BUFFER_COUNT);
    assert_eq!(
        plan,
        vec![
            BlurDraw {
                target: 1,
                source: BlurSource::Input,
                radius: Radius { numer: 1, denom: 4 },
            },
            BlurDraw {
                target: 0,
                source: BlurSource::Buffer(1),
                radius: Radius { numer: 4, denom: 16 },
            },
            BlurDraw {
                target: 1,
                source: BlurSource::Buffer(0),
                radius: Radius { numer: 4, denom: 16 },
            },
            BlurDraw {
                target: 0,
                source: BlurSource::Buffer(1),
                radius: Radius { numer: 12, denom: 16 },
            },
            BlurDraw {
                target: 1,
                source: BlurSource::Buffer(0),
                radius: Radius { numer: 12, denom: 16 },
            },
        ]
    );
}

#[test]
fn injection_goes_to_buffer_one_from_the_input() {
    let plan = blur_schedule(RadiusFactor { numer: 7, denom: 3 });
    assert_eq!(INJECTION_TARGET, 1);
    assert_eq!(plan[0].target, 1);
    assert_eq!(plan[0].source, BlurSource::Input);
    assert_eq!(plan[0].radius, Radius { numer: 1, denom: 4 });
}

#[test]
fn every_draw_reads_the_buffer_after_the_one_it_writes() {
    let plan = blur_schedule(QUARTER);
    let mut seen = 0;
    for i in 0..2 {
        for j in 0..2 {
            let draw = plan[1 + i * 2 + j];
            assert_eq!(draw.target, j);
            assert_eq!(draw.source, BlurSource::Buffer((j + 1) % 2));
            seen += 1;
        }
    }
    assert_eq!(seen, 4);
    assert_eq!(plan[1].source, BlurSource::Buffer(1));
    assert_eq!(plan[2].source, BlurSource::Buffer(0));
    assert_eq!(plan[3].source, BlurSource::Buffer(1));
    assert_eq!(plan[4].source, BlurSource::Buffer(0));
}

#[test]
fn every_draw_reads_what_the_draw_before_it_wrote() {
    let plan = blur_schedule(RadiusFactor { numer: 3, denom: 8 });
    for k in 1..plan.len() {
        assert_eq!(plan[k].source, BlurSource::Buffer(plan[k - 1].target));
    }
}

#[test]
fn radius_of_an_iteration_is_seed_plus_buffers_times_iteration_times_factor() {
    assert_eq!(iteration_radius(QUARTER, 0), Radius { numer: 4, denom: 16 });
    assert_eq!(iteration_radius(QUARTER, 1), Radius { numer: 12, denom: 16 });
    // 1/4 + 2 * 1 * 3/2 = 13/4 = 26/8
    assert_eq!(
        iteration_radius(RadiusFactor { numer: 3, denom: 2 }, 1),
        Radius { numer: 26, denom: 8 }
    );
    // a factor of nothing leaves the seed
    assert_eq!(
        iteration_radius(RadiusFactor { numer: 0, denom: 5 }, 1),
        Radius { numer: 5, denom: 20 }
    );
}

#[test]
fn radius_does_not_overflow_at_the_largest_factor() {
    let factor = RadiusFactor { numer: u32::MAX, denom: u32::MAX };
    let radius = iteration_radius(factor, 1);
    assert_eq!(radius.numer, u32::MAX as u64 + 8 * u32::MAX as u64);
    assert_eq!(radius.denom, 4 * u32::MAX as u64);
}

#[test]
fn radius_never_shrinks_along_a_run() {
    let plan = blur_schedule(RadiusFactor { numer: 5, denom: 7 });
    for k in 1..plan.len() {
        assert!(value(plan[k - 1].radius) <= value(plan[k].radius));
    }
}

#[test]
fn texture_is_the_second_buffer() {
    let tris = "triangles";
    let pass = pass(&tris);
    let plan = pass.run();
    assert_eq!(*pass.texture(), 11);
    assert_eq!(plan.last().unwrap().target, BUFFER_COUNT - 1);
    assert_eq!(pass.buffer(plan.last().unwrap().target).unwrap().attachment(), pass.texture());
}

#[test]
fn two_runs_list_the_same_draws() {
    let tris = "triangles";
    let pass = pass(&tris);
    let first = pass.run();
    let second = pass.run();
    assert_eq!(first, second);
    // no draw leaves its target as it was: both buffers are written in every iteration
    let written: Vec<usize> = first.iter().map(|draw| draw.target).collect();
    assert_eq!(written, vec![1, 0, 1, 0, 1]);
}

#[test]
fn new_holds_what_it_was_given() {
    let tris = "triangles";
    let pass = pass(&tris);
    assert_eq!(*pass.program(), "blur program");
    assert_eq!(*pass.fullscreen_triangles(), "triangles");
    assert_eq!(pass.radius_factor(), QUARTER);
    assert_eq!(pass.buffer(0), Some(&RenderTarget { attachment: 10, size: [320, 180] }));
    assert_eq!(pass.buffer(1), Some(&RenderTarget { attachment: 11, size: [320, 180] }));
    assert_eq!(pass.buffer(2), None);
    assert_eq!(pass.buffer(usize::MAX), None);
}

#[test]
fn new_then_resize_leaves_both_buffers_at_the_new_size() {
    let tris = "triangles";
    for &(w, h) in &[(1u32, 1u32), (320, 180), (321, 179), (u32::MAX, 1)] {
        let mut resized = pass(&tris);
        assert!(resized.resize_buffers(Ok(20), Ok(21), [w, h]).is_ok());
        let built: BlurPass<&str, u32, &str> =
            BlurPass::new(Ok("blur program"), Ok(20), Ok(21), [w, h], &tris, QUARTER).unwrap();
        for j in 0..BUFFER_COUNT {
            assert_eq!(resized.buffer(j).unwrap().size(), [w, h]);
            assert!(resized.buffer(j).unwrap().has_size([w, h]));
            assert_eq!(resized.buffer(j), built.buffer(j));
        }
    }
}

#[test]
fn resize_replaces_both_buffers_and_nothing_else() {
    let tris = "triangles";
    let mut pass = pass(&tris);
    assert!(pass.resize_buffers(Ok(20), Ok(21), [160, 90]).is_ok());
    assert_eq!(pass.buffer(0), Some(&RenderTarget { attachment: 20, size: [160, 90] }));
    assert_eq!(pass.buffer(1), Some(&RenderTarget { attachment: 21, size: [160, 90] }));
    assert_eq!(*pass.texture(), 21);
    assert_eq!(*pass.program(), "blur program");
    assert_eq!(pass.radius_factor(), QUARTER);
    assert_eq!(pass.run(), blur_schedule(QUARTER));
}

#[test]
fn failed_resize_keeps_the_old_buffers() {
    let tris = "triangles";
    let mut pass = pass(&tris);
    let failure = FramebufferError::Incomplete(IncompleteReason::MissingAttachment);
    let done = pass.resize_buffers(Ok(20), Err(failure.clone()), [160, 90]);
    assert!(matches!(done, Err(LuminanceError::FramebufferError(ref e)) if *e == failure));
    assert_eq!(pass.buffer(0), Some(&RenderTarget { attachment: 10, size: [320, 180] }));
    assert_eq!(pass.buffer(1), Some(&RenderTarget { attachment: 11, size: [320, 180] }));

    let done = pass.resize_buffers(Err(failure.clone()), Ok(21), [160, 90]);
    assert!(matches!(done, Err(LuminanceError::FramebufferError(ref e)) if *e == failure));
    assert_eq!(*pass.texture(), 11);
}

#[test]
fn failed_resize_reports_the_first_buffer_before_the_second() {
    let tris = "triangles";
    let mut pass = pass(&tris);
    let first = FramebufferError::Incomplete(IncompleteReason::Unsupported);
    let second = FramebufferError::TextureError(TextureError::TextureStorageCreationFailed(
        String::from("out of memory"),
    ));
    let done = pass.resize_buffers(Err(first.clone()), Err(second), [160, 90]);
    assert!(matches!(done, Err(LuminanceError::FramebufferError(ref e)) if *e == first));
}

#[test]
fn new_fails_with_the_program_error_before_any_other() {
    let tris = "triangles";
    let failure = FramebufferError::Incomplete(IncompleteReason::Undefined);
    let built: Result<BlurPass<&str, u32, &str>, LuminanceError> = BlurPass::new(
        Err(ProgramError::LinkFailed(String::from("no main"))),
        Err(failure.clone()),
        Err(failure),
        [320, 180],
        &tris,
        QUARTER,
    );
    assert!(matches!(
        built.err(),
        Some(LuminanceError::ProgramError(ProgramError::LinkFailed(ref reason))) if reason == "no main"
    ));
}

#[test]
fn new_fails_with_the_error_of_the_first_buffer_that_failed() {
    let tris = "triangles";
    let one = FramebufferError::Incomplete(IncompleteReason::IncompleteAttachment);
    let other = FramebufferError::Incomplete(IncompleteReason::IncompleteDrawBuffer);

    let built: Result<BlurPass<&str, u32, &str>, LuminanceError> =
        BlurPass::new(Ok("p"), Err(one.clone()), Err(other.clone()), [320, 180], &tris, QUARTER);
    assert!(matches!(built.err(), Some(LuminanceError::FramebufferError(ref e)) if *e == one));

    let built: Result<BlurPass<&str, u32, &str>, LuminanceError> =
        BlurPass::new(Ok("p"), Ok(1), Err(other.clone()), [320, 180], &tris, QUARTER);
    assert!(matches!(built.err(), Some(LuminanceError::FramebufferError(ref e)) if *e == other));

    let built: Result<BlurPass<&str, u32, &str>, LuminanceError> =
        BlurPass::new(Ok("p"), Err(one.clone()), Ok(2), [320, 180], &tris, QUARTER);
    assert!(matches!(built.err(), Some(LuminanceError::FramebufferError(ref e)) if *e == one));
}
