//! What the buffers of the blur pass hold after a run, and what holds of the
//! schedule of draws whatever the input.
use crate::passes::blur::{
    radius_at, schedule, schedule_for, seed_radius,
    BlurDraw, BlurSource, Radius, RadiusFactor, BUFFER_COUNT, SEED_DENOM,
};
use vstd::prelude::*;

verus! {

/// Where the picture in a buffer came from.
pub enum Origin {
    /// The texture handed to the run.
    Input,
    /// What the buffer with this index held before the run.
    Earlier(int),
}

/// The picture in a buffer: where it came from, and the radii that it was
/// blurred at since, in order.
pub struct Content {
    pub origin: Origin,
    pub blurs: Seq<Radius>,
}

/// What a draw samples, given what the buffers hold.
pub open spec fn sampled(source: BlurSource, buffers: Seq<Content>) -> Content {
    match source {
        BlurSource::Input => Content { origin: Origin::Input, blurs: Seq::empty() },
        BlurSource::Buffer(k) => buffers[k as int],
    }
}

/// What the buffers hold after a draw: the target is overwritten by the blur of
/// what was sampled, the other buffers keep what they held.
pub open spec fn drawn(draw: BlurDraw, buffers: Seq<Content>) -> Seq<Content> {
    let source = sampled(draw.source, buffers);
    buffers.update(
        draw.target as int,
        Content { origin: source.origin, blurs: source.blurs.push(draw.radius) },
    )
}

/// What the buffers hold after the first `n` draws of `plan`.
pub open spec fn contents_at(plan: Seq<BlurDraw>, before: Seq<Content>, n: nat) -> Seq<Content>
    decreases n,
{
    if n == 0 {
        before
    } else {
        drawn(plan[n - 1], contents_at(plan, before, (n - 1) as nat))
    }
}

/// What the buffers hold after all the draws of `plan`.
pub open spec fn contents_after(plan: Seq<BlurDraw>, before: Seq<Content>) -> Seq<Content> {
    contents_at(plan, before, plan.len())
}

/// Whether the radius `a` is at most the radius `b`, as fractions.
pub open spec fn radius_le(a: Radius, b: Radius) -> bool {
    a.numer * b.denom <= b.numer * a.denom
}

/// Every draw after the injection writes buffer `(k - 1) mod BUFFER_COUNT`,
/// reads the buffer one further on, wrapping round, and uses the radius of its
/// iteration.
pub proof fn lemma_reads_follow_writes(factor: RadiusFactor, iterations: nat, k: int)
    requires
        1 <= k < schedule_for(factor, iterations).len(),
    ensures
        schedule_for(factor, iterations)[k].target == (k - 1) % (BUFFER_COUNT as int),
        schedule_for(factor, iterations)[k].source == BlurSource::Buffer(
            ((schedule_for(factor, iterations)[k].target + 1) % (BUFFER_COUNT as int)) as usize,
        ),
        schedule_for(factor, iterations)[k].radius == radius_at(
            factor,
            (k - 1) / (BUFFER_COUNT as int),
        ),
{
}

/// Every draw after the injection samples the buffer that the draw before it
/// wrote: the draws form one chain, which starts at the input texture.
pub proof fn lemma_draws_form_a_chain(factor: RadiusFactor, iterations: nat, k: int)
    requires
        1 <= k < schedule_for(factor, iterations).len(),
    ensures
        schedule_for(factor, iterations)[0].source == BlurSource::Input,
        schedule_for(factor, iterations)[k].source == BlurSource::Buffer(
            schedule_for(factor, iterations)[k - 1].target,
        ),
{
}

/// However often the blur goes through the buffers, its last draw writes the
/// last buffer, the one whose texture the pass hands out.
pub proof fn lemma_last_draw_fills_last_buffer(factor: RadiusFactor, iterations: nat)
    ensures
        schedule_for(factor, iterations).last().target == BUFFER_COUNT - 1,
        schedule(factor).last().target == BUFFER_COUNT - 1,
{
    assert(schedule_for(factor, iterations).len() == 1 + iterations * 2);
    if iterations > 0 {
        let k = schedule_for(factor, iterations).len() - 1;
        assert((k - 1) % 2 == 1);
    }
}

/// The radius of an iteration written out: over four times the factor's
/// denominator, that denominator plus eight times the factor's numerator for
/// each iteration that went before.
pub proof fn lemma_radius_at(factor: RadiusFactor, iteration: int)
    requires
        0 <= iteration <= 1,
    ensures
        radius_at(factor, iteration).numer == factor.denom + 8 * iteration * factor.numer,
        radius_at(factor, iteration).denom == 4 * factor.denom,
{
    let n = factor.numer as int;
    assert(BUFFER_COUNT * iteration * n * SEED_DENOM == 8 * iteration * n) by (nonlinear_arith)
        requires
            BUFFER_COUNT == 2,
            SEED_DENOM == 4,
    ;
    assert(0 <= 8 * iteration * n <= 8 * n) by (nonlinear_arith)
        requires
            0 <= iteration <= 1,
            0 <= n,
    ;
}

/// The radius never shrinks from one draw of a run to the next.
pub proof fn lemma_radius_never_shrinks(factor: RadiusFactor, k: int)
    requires
        1 <= k < schedule(factor).len(),
    ensures
        radius_le(schedule(factor)[k - 1].radius, schedule(factor)[k].radius),
{
    let d = factor.denom as int;
    let n = factor.numer as int;
    lemma_radius_at(factor, 0);
    lemma_radius_at(factor, 1);
    let a = schedule(factor)[k - 1].radius;
    let b = schedule(factor)[k].radius;
    if k == 1 {
        assert(a == seed_radius());
        assert(b == radius_at(factor, 0));
    } else if k == 2 {
        assert(a == radius_at(factor, 0));
        assert(b == radius_at(factor, 0));
    } else if k == 3 {
        assert(a == radius_at(factor, 0));
        assert(b == radius_at(factor, 1));
    } else {
        assert(a == radius_at(factor, 1));
        assert(b == radius_at(factor, 1));
    }
    assert(a.numer * b.denom <= b.numer * a.denom) by (nonlinear_arith)
        requires
            d >= 0,
            n >= 0,
            (a.numer == 1 && a.denom == 4 && b.numer == d && b.denom == 4 * d) || (a.numer
                == b.numer && a.denom == b.denom) || (a.numer == d && a.denom == 4 * d
                && b.numer == d + 8 * n && b.denom == 4 * d),
    ;
}

/// After a run each buffer holds the input texture, blurred once per draw of
/// the chain that ends in it, and nothing of what the buffers held before:
/// every draw overwrites its target. So two runs on one input leave the same
/// pictures, whatever ran in between.
pub proof fn lemma_run_overwrites_both_buffers(factor: RadiusFactor, before: Seq<Content>)
    requires
        before.len() == BUFFER_COUNT,
    ensures
        contents_after(schedule(factor), before) == seq![
            Content {
                origin: Origin::Input,
                blurs: seq![
                    seed_radius(),
                    radius_at(factor, 0),
                    radius_at(factor, 0),
                    radius_at(factor, 1),
                ],
            },
            Content {
                origin: Origin::Input,
                blurs: seq![
                    seed_radius(),
                    radius_at(factor, 0),
                    radius_at(factor, 0),
                    radius_at(factor, 1),
                    radius_at(factor, 1),
                ],
            },
        ],
{
    let plan = schedule(factor);
    let seed = seed_radius();
    let r0 = radius_at(factor, 0);
    let r1 = radius_at(factor, 1);
    let input = Content { origin: Origin::Input, blurs: Seq::empty() };
    assert(plan.len() == 5);
    let c0 = contents_at(plan, before, 0);
    let c1 = contents_at(plan, before, 1);
    let c2 = contents_at(plan, before, 2);
    let c3 = contents_at(plan, before, 3);
    let c4 = contents_at(plan, before, 4);
    let c5 = contents_at(plan, before, 5);
    assert(c0 == before);
    assert(c1 == drawn(plan[0], c0));
    assert(c2 == drawn(plan[1], c1));
    assert(c3 == drawn(plan[2], c2));
    assert(c4 == drawn(plan[3], c3));
    assert(c5 == drawn(plan[4], c4));
    assert(c1[1].blurs =~= seq![seed]);
    assert(c2[0].blurs =~= seq![seed, r0]);
    assert(c3[1].blurs =~= seq![seed, r0, r0]);
    assert(c4[0].blurs =~= seq![seed, r0, r0, r1]);
    assert(c5[1].blurs =~= seq![seed, r0, r0, r1, r1]);
    assert(c5[0] == c4[0]);
    assert(c5 =~= seq![
        Content { origin: Origin::Input, blurs: seq![seed, r0, r0, r1] },
        Content { origin: Origin::Input, blurs: seq![seed, r0, r0, r1, r1] },
    ]);
}

/// Two runs with the same growth of the radius leave the same pictures in the
/// buffers, whatever the buffers held before either of them.
pub proof fn lemma_run_is_reproducible(
    factor: RadiusFactor,
    before: Seq<Content>,
    other: Seq<Content>,
)
    requires
        before.len() == BUFFER_COUNT,
        other.len() == BUFFER_COUNT,
    ensures
        contents_after(schedule(factor), before) == contents_after(schedule(factor), other),
{
    lemma_run_overwrites_both_buffers(factor, before);
    lemma_run_overwrites_both_buffers(factor, other);
}

} // verus!
