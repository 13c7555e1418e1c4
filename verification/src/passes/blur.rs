//! The blur pass: a small blur kernel applied again and again, at a growing
//! radius, between two equally sized buffers.
use crate::error::LuminanceError;
use crate::target::RenderTarget;
use luminance::framebuffer::FramebufferError;
use luminance::shader::program::ProgramError;
use vstd::prelude::*;

verus! {

/// Number of buffers that the blur alternates between.
pub const BUFFER_COUNT: usize = 2;

/// Number of times that the blur goes through all the buffers.
pub const ITERATIONS: usize = 2;

/// The buffer that receives the input texture. Every later draw into buffer `j`
/// reads buffer `j + 1`, and `j` starts at 0, so the data enters at buffer 1
/// whatever the number of buffers.
pub const INJECTION_TARGET: usize = 1;

/// Numerator of the radius at which the input texture is injected.
pub const SEED_NUMER: u64 = 1;

/// Denominator of the radius at which the input texture is injected.
pub const SEED_DENOM: u64 = 4;

/// Number of draws that one run of the blur issues.
pub const DRAW_COUNT: usize = 5;

/// By how much the radius grows per buffer and iteration: the fraction
/// `numer / denom`.
#[derive(Clone, Copy, Debug, PartialEq, Eq, Structural)]
pub struct RadiusFactor {
    pub numer: u32,
    pub denom: u32,
}

/// A blur radius: the fraction `numer / denom`, not reduced.
#[derive(Clone, Copy, Debug, PartialEq, Eq, Structural)]
pub struct Radius {
    pub numer: u64,
    pub denom: u64,
}

/// Where a draw of the blur samples from.
#[derive(Clone, Copy, Debug, PartialEq, Eq, Structural)]
pub enum BlurSource {
    /// The texture handed to the run.
    Input,
    /// The colour attachment of the pass's own buffer with this index.
    Buffer(usize),
}

/// One full-screen draw of the blur shader.
#[derive(Clone, Copy, Debug, PartialEq, Eq, Structural)]
pub struct BlurDraw {
    /// Index of the buffer drawn into.
    pub target: usize,
    /// The texture sampled.
    pub source: BlurSource,
    /// The radius handed to the shader.
    pub radius: Radius,
}

/// The radius of the injection draw.
pub open spec fn seed_radius() -> Radius {
    Radius { numer: SEED_NUMER, denom: SEED_DENOM }
}

/// The radius of iteration `iteration`: the seed radius plus `BUFFER_COUNT *
/// iteration` times the growth factor, over the common denominator.
pub open spec fn radius_at(factor: RadiusFactor, iteration: int) -> Radius {
    Radius {
        numer: (SEED_NUMER * factor.denom + BUFFER_COUNT * iteration * factor.numer
            * SEED_DENOM) as u64,
        denom: (SEED_DENOM * factor.denom) as u64,
    }
}

/// The buffer that a draw into buffer `target` reads.
pub open spec fn read_index(target: int) -> int {
    (target + 1) % (BUFFER_COUNT as int)
}

/// The draw that brings the input texture into the buffers.
pub open spec fn injection_draw() -> BlurDraw {
    BlurDraw { target: INJECTION_TARGET, source: BlurSource::Input, radius: seed_radius() }
}

/// The draw into buffer `target` during iteration `iteration`.
pub open spec fn blur_draw(factor: RadiusFactor, iteration: int, target: int) -> BlurDraw {
    BlurDraw {
        target: target as usize,
        source: BlurSource::Buffer(read_index(target) as usize),
        radius: radius_at(factor, iteration),
    }
}

/// The draws of a run that goes through the buffers `iterations` times, in
/// order: the injection, then for each iteration one draw into each buffer, by
/// rising index.
pub open spec fn schedule_for(factor: RadiusFactor, iterations: nat) -> Seq<BlurDraw> {
    Seq::new(
        1 + iterations * BUFFER_COUNT as nat,
        |k: int|
            if k == 0 {
                injection_draw()
            } else {
                blur_draw(factor, (k - 1) / (BUFFER_COUNT as int), (k - 1) % (BUFFER_COUNT as int))
            },
    )
}

/// The draws of one run, in order.
pub open spec fn schedule(factor: RadiusFactor) -> Seq<BlurDraw> {
    schedule_for(factor, ITERATIONS as nat)
}

/// Whether a draw names only buffers that the pass has.
pub open spec fn in_bounds(draw: BlurDraw) -> bool {
    &&& draw.target < BUFFER_COUNT
    &&& match draw.source {
        BlurSource::Input => true,
        BlurSource::Buffer(index) => index < BUFFER_COUNT,
    }
}

/// Computes the radius of iteration `iteration`.
pub fn iteration_radius(factor: RadiusFactor, iteration: usize) -> (radius: Radius)
    requires
        iteration < ITERATIONS,
    ensures
        radius == radius_at(factor, iteration as int),
{
    let steps: u64 = (BUFFER_COUNT * iteration) as u64;
    assert(steps * (factor.numer as u64) <= 2 * 0xffff_ffff) by (nonlinear_arith)
        requires
            steps <= 2,
            factor.numer <= 0xffff_ffff,
    ;
    let grown: u64 = steps * (factor.numer as u64);
    assert(grown * SEED_DENOM <= 8 * 0xffff_ffff) by (nonlinear_arith)
        requires
            grown == steps * (factor.numer as u64),
            steps <= 2,
            factor.numer <= 0xffff_ffff,
            SEED_DENOM == 4,
    ;
    assert(BUFFER_COUNT * (iteration as int) * factor.numer * SEED_DENOM == grown * SEED_DENOM)
        by (nonlinear_arith)
        requires
            grown == steps * (factor.numer as u64),
            steps == BUFFER_COUNT * iteration,
    ;
    Radius {
        numer: SEED_NUMER * (factor.denom as u64) + grown * SEED_DENOM,
        denom: SEED_DENOM * (factor.denom as u64),
    }
}

/// Lists the draws of one run of the blur, in the order in which they are
/// issued.
pub fn blur_schedule(factor: RadiusFactor) -> (plan: Vec<BlurDraw>)
    ensures
        plan@ == schedule(factor),
        plan@.len() == DRAW_COUNT,
        plan@.last().target == BUFFER_COUNT - 1,
        forall|k: int| 0 <= k < plan@.len() ==> in_bounds(#[trigger] plan@[k]),
{
    let mut plan: Vec<BlurDraw> = Vec::new();
    plan.push(
        BlurDraw {
            target: INJECTION_TARGET,
            source: BlurSource::Input,
            radius: Radius { numer: SEED_NUMER, denom: SEED_DENOM },
        },
    );
    let mut i: usize = 0;
    while i < ITERATIONS
        invariant
            i <= ITERATIONS,
            plan@.len() == 1 + i * BUFFER_COUNT,
            forall|k: int| 0 <= k < plan@.len() ==> plan@[k] == schedule(factor)[k],
        decreases ITERATIONS - i,
    {
        let radius = iteration_radius(factor, i);
        let mut j: usize = 0;
        while j < BUFFER_COUNT
            invariant
                i < ITERATIONS,
                j <= BUFFER_COUNT,
                radius == radius_at(factor, i as int),
                plan@.len() == 1 + i * BUFFER_COUNT + j,
                forall|k: int| 0 <= k < plan@.len() ==> plan@[k] == schedule(factor)[k],
            decreases BUFFER_COUNT - j,
        {
            plan.push(
                BlurDraw { target: j, source: BlurSource::Buffer((j + 1) % BUFFER_COUNT), radius },
            );
            j = j + 1;
        }
        i = i + 1;
    }
    assert(plan@ =~= schedule(factor));
    plan
}

/// The blur pass: the shader program, the two buffers that it alternates
/// between, the full-screen geometry that it draws and the growth of its radius.
///
/// `P` is the device's shader program, `F` what the device allocates for one
/// buffer, `T` the full-screen geometry.
#[derive(Debug)]
pub struct BlurPass<'a, P, F, T> {
    program: P,
    buffers: [RenderTarget<F>; 2],
    fullscreen_triangles: &'a T,
    radius_factor: RadiusFactor,
}

/// What a blur pass holds.
pub struct BlurPassView<P, F, T> {
    pub program: P,
    pub buffers: Seq<RenderTarget<F>>,
    pub fullscreen_triangles: T,
    pub radius_factor: RadiusFactor,
}

/// What building a blur pass gives, from what the device answered: the
/// program's failure comes first, then that of the first buffer, then that of
/// the second; with all three built, the pass holds them, both buffers at `d`.
pub open spec fn construction<P, F, T>(
    program: Result<P, ProgramError>,
    first: Result<F, FramebufferError>,
    second: Result<F, FramebufferError>,
    d: [u32; 2],
    fullscreen_tris: T,
    radius_factor: RadiusFactor,
) -> Result<BlurPassView<P, F, T>, LuminanceError> {
    match (program, first, second) {
        (Err(e), _, _) => Err(LuminanceError::ProgramError(e)),
        (Ok(_), Err(e), _) => Err(LuminanceError::FramebufferError(e)),
        (Ok(_), Ok(_), Err(e)) => Err(LuminanceError::FramebufferError(e)),
        (Ok(p), Ok(a), Ok(b)) => Ok(
            BlurPassView {
                program: p,
                buffers: seq![
                    RenderTarget { attachment: a, size: d },
                    RenderTarget { attachment: b, size: d },
                ],
                fullscreen_triangles: fullscreen_tris,
                radius_factor,
            },
        ),
    }
}

/// What a resize leaves of a pass, from what the device answered: with both
/// buffers built, both are replaced and stand at `d`; else nothing changes.
pub open spec fn resized<P, F, T>(
    before: BlurPassView<P, F, T>,
    first: Result<F, FramebufferError>,
    second: Result<F, FramebufferError>,
    d: [u32; 2],
) -> BlurPassView<P, F, T> {
    match (first, second) {
        (Ok(a), Ok(b)) => BlurPassView {
            buffers: seq![
                RenderTarget { attachment: a, size: d },
                RenderTarget { attachment: b, size: d },
            ],
            ..before
        },
        _ => before,
    }
}

/// Whether a resize succeeds, and the error it ends in where it does not: the
/// failure of the first buffer comes before that of the second.
pub open spec fn resize_outcome<F>(
    first: Result<F, FramebufferError>,
    second: Result<F, FramebufferError>,
) -> Result<(), LuminanceError> {
    match (first, second) {
        (Err(e), _) => Err(LuminanceError::FramebufferError(e)),
        (Ok(_), Err(e)) => Err(LuminanceError::FramebufferError(e)),
        (Ok(_), Ok(_)) => Ok(()),
    }
}

impl<'a, P, F, T> BlurPass<'a, P, F, T> {
    /// What the pass holds.
    pub closed spec fn view(&self) -> BlurPassView<P, F, T> {
        BlurPassView {
            program: self.program,
            buffers: self.buffers@,
            fullscreen_triangles: *self.fullscreen_triangles,
            radius_factor: self.radius_factor,
        }
    }

    /// The pass has as many buffers as the schedule alternates between, and all
    /// of them were allocated at one size.
    pub open spec fn wf(&self) -> bool {
        &&& self@.buffers.len() == BUFFER_COUNT
        &&& forall|j: int|
            0 <= j < BUFFER_COUNT ==> (#[trigger] self@.buffers[j]).size == self@.buffers[0].size
    }

    /// The views of a built pass, or the error.
    pub open spec fn viewed(built: Result<Self, LuminanceError>) -> Result<
        BlurPassView<P, F, T>,
        LuminanceError,
    > {
        match built {
            Ok(pass) => Ok(pass@),
            Err(e) => Err(e),
        }
    }

    /// Creates a blur pass from the shader program and the two buffers that the
    /// device was asked for, the buffers at the dimensions `d`.
    pub fn new(
        program: Result<P, ProgramError>,
        first: Result<F, FramebufferError>,
        second: Result<F, FramebufferError>,
        d: [u32; 2],
        fullscreen_tris: &'a T,
        radius_factor: RadiusFactor,
    ) -> (built: Result<Self, LuminanceError>)
        ensures
            Self::viewed(built) == construction(
                program,
                first,
                second,
                d,
                *fullscreen_tris,
                radius_factor,
            ),
            built is Ok ==> built->Ok_0.wf(),
    {
        let program = match program {
            Ok(program) => program,
            Err(e) => {
                return Err(LuminanceError::from(e));
            },
        };
        let first = match first {
            Ok(first) => first,
            Err(e) => {
                return Err(LuminanceError::from(e));
            },
        };
        let second = match second {
            Ok(second) => second,
            Err(e) => {
                return Err(LuminanceError::from(e));
            },
        };
        let pass = BlurPass {
            program,
            buffers: [RenderTarget::new(first, d), RenderTarget::new(second, d)],
            fullscreen_triangles: fullscreen_tris,
            radius_factor,
        };
        assert(pass@.buffers =~= seq![
            RenderTarget { attachment: first, size: d },
            RenderTarget { attachment: second, size: d },
        ]);
        Ok(pass)
    }

    /// Replaces both buffers by the two that the device was asked for at the
    /// dimensions `d`. Where either could not be built, the pass keeps the
    /// buffers it had.
    pub fn resize_buffers(
        &mut self,
        first: Result<F, FramebufferError>,
        second: Result<F, FramebufferError>,
        d: [u32; 2],
    ) -> (done: Result<(), LuminanceError>)
        ensures
            done == resize_outcome(first, second),
            final(self)@ == resized(old(self)@, first, second, d),
            done is Ok ==> final(self).wf(),
            done is Err ==> *final(self) == *old(self),
    {
        let first = match first {
            Ok(first) => first,
            Err(e) => {
                return Err(LuminanceError::from(e));
            },
        };
        let second = match second {
            Ok(second) => second,
            Err(e) => {
                return Err(LuminanceError::from(e));
            },
        };
        self.buffers = [RenderTarget::new(first, d), RenderTarget::new(second, d)];
        assert(self@.buffers =~= seq![
            RenderTarget { attachment: first, size: d },
            RenderTarget { attachment: second, size: d },
        ]);
        Ok(())
    }

    /// Lists the draws of one run of the pass on an input texture, in the
    /// order in which they are issued. The last of them leaves the result in
    /// the buffer that `texture` hands out.
    pub fn run(&self) -> (plan: Vec<BlurDraw>)
        ensures
            plan@ == schedule(self@.radius_factor),
            plan@.len() == DRAW_COUNT,
            plan@.last().target == BUFFER_COUNT - 1,
            forall|k: int| 0 <= k < plan@.len() ==> in_bounds(#[trigger] plan@[k]),
    {
        blur_schedule(self.radius_factor)
    }

    /// The texture that holds the output of the blur: the blur always ends by
    /// writing to the last buffer.
    pub fn texture(&self) -> (texture: &F)
        ensures
            *texture == self@.buffers[BUFFER_COUNT - 1].attachment,
    {
        self.buffers[BUFFER_COUNT - 1].attachment()
    }

    /// The size of the first buffer, which in a well-formed pass is the size of
    /// every buffer.
    pub fn size(&self) -> (size: [u32; 2])
        ensures
            size == self@.buffers[0].size,
            self.wf() ==> forall|j: int|
                0 <= j < BUFFER_COUNT ==> (#[trigger] self@.buffers[j]).size == size,
    {
        self.buffers[0].size()
    }

    /// The buffer with the index `index`, if there is one.
    pub fn buffer(&self, index: usize) -> (buffer: Option<&RenderTarget<F>>)
        ensures
            index < BUFFER_COUNT ==> buffer == Some(&self@.buffers[index as int]),
            index >= BUFFER_COUNT ==> buffer is None,
    {
        if index < BUFFER_COUNT {
            Some(&self.buffers[index])
        } else {
            None
        }
    }

    /// The blur shader program.
    pub fn program(&self) -> (program: &P)
        ensures
            *program == self@.program,
    {
        &self.program
    }

    /// The geometry that every draw of the pass renders.
    pub fn fullscreen_triangles(&self) -> (triangles: &'a T)
        ensures
            *triangles == self@.fullscreen_triangles,
    {
        self.fullscreen_triangles
    }

    /// By how much the radius grows per buffer and iteration.
    pub fn radius_factor(&self) -> (factor: RadiusFactor)
        ensures
            factor == self@.radius_factor,
    {
        self.radius_factor
    }
}

/// A pass built at any size and then resized to `d` has both buffers at
/// exactly `d`, and holds what a pass built at `d` from the same buffers holds:
/// the two ways to a size agree.
pub proof fn lemma_resize_agrees_with_construction<P, F, T>(
    program: P,
    earlier: (F, F),
    earlier_d: [u32; 2],
    later: (F, F),
    d: [u32; 2],
    fullscreen_tris: T,
    radius_factor: RadiusFactor,
)
    ensures
        ({
            let built = construction(
                Ok(program),
                Ok(earlier.0),
                Ok(earlier.1),
                earlier_d,
                fullscreen_tris,
                radius_factor,
            );
            let rebuilt = construction(
                Ok(program),
                Ok(later.0),
                Ok(later.1),
                d,
                fullscreen_tris,
                radius_factor,
            );
            let after = resized(built->Ok_0, Ok(later.0), Ok(later.1), d);
            &&& built is Ok
            &&& rebuilt == Ok::<BlurPassView<P, F, T>, LuminanceError>(after)
            &&& after.buffers.len() == BUFFER_COUNT
            &&& forall|j: int| 0 <= j < BUFFER_COUNT ==> (#[trigger] after.buffers[j]).size == d
        }),
{
}

} // verus!
