//! Pairwise collisions.
//!
//! Every ordered pair of distinct bodies is tested for overlap. An overlap
//! gives the first body of the pair, the subject, a correction computed
//! against the second. Corrections are computed from the bodies as they
//! stand when the scan begins, collected, and written back only when the
//! scan is over. A subject that overlaps several bodies keeps the
//! correction recorded last, the one against its partner of greatest index.

use vstd::prelude::*;
use crate::engine::body::Body;
use crate::scalar::{magnitude, saturate, Scalar, SCALE};

verus! {

/// Two bodies overlap when half the sum of their sizes exceeds the distance
/// between their positions.
pub open spec fn spec_overlapping(a: Body, b: Body) -> bool {
    Scalar::from_u32(a.size).div(Scalar::two()).add(Scalar::from_u32(b.size).div(Scalar::two())).raw
        > a.position.sub(b.position).abs().raw
}

/// Whether `a` and `b` overlap.
#[verifier::when_used_as_spec(spec_overlapping)]
pub fn overlapping(a: Body, b: Body) -> (hit: bool)
    ensures
        hit == spec_overlapping(a, b),
{
    let reach = Scalar::from_u32(a.size).div(Scalar::two()).add(
        Scalar::from_u32(b.size).div(Scalar::two()),
    );
    reach.raw > a.position.sub(b.position).abs().raw
}

/// Overlap in raw units: half the size of a body is its size times half a
/// billion, exactly, so two bodies overlap when the sum of their sizes times
/// half a billion exceeds the magnitude of the difference of their raw
/// positions.
pub proof fn law_overlap_in_raw_units(a: Body, b: Body)
    ensures
        overlapping(a, b) <==> (a.size + b.size) * 500_000_000 > saturate(
            magnitude(saturate(a.position.raw - b.position.raw) as int),
        ),
{
    lemma_half(a.size);
    lemma_half(b.size);
}

proof fn lemma_half(size: u32)
    ensures
        Scalar::from_u32(size).div(Scalar::two()).raw == size * 500_000_000,
{
    let n = size * 1_000_000_000;
    assert((n * 1_000_000_000) / 2_000_000_000 == size * 500_000_000);
    assert(n * SCALE == n * 1_000_000_000);
}

/// Velocity of the subject after an elastic collision:
/// `((m1 - m2) / (m1 + m2)) v1 + (2 m2 / (m1 + m2)) v2`.
pub open spec fn spec_elastic_velocity(subject: Body, other: Body) -> Scalar {
    let total = subject.mass.add(other.mass);
    subject.mass.sub(other.mass).div(total).mul(subject.velocity).add(
        Scalar::two().mul(other.mass).div(total).mul(other.velocity),
    )
}

/// Velocity of the subject after an elastic collision with `other`.
#[verifier::when_used_as_spec(spec_elastic_velocity)]
pub fn elastic_velocity(subject: Body, other: Body) -> (v: Scalar)
    ensures
        v == spec_elastic_velocity(subject, other),
{
    let total = subject.mass.add(other.mass);
    subject.mass.sub(other.mass).div(total).mul(subject.velocity).add(
        Scalar::two().mul(other.mass).div(total).mul(other.velocity),
    )
}

/// Velocity of the subject after a perfectly inelastic collision:
/// `(m1 v1 + m2 v2) / (m1 + m2)`.
pub open spec fn spec_inelastic_velocity(subject: Body, other: Body) -> Scalar {
    subject.velocity.mul(subject.mass).add(other.velocity.mul(other.mass)).div(
        subject.mass.add(other.mass),
    )
}

/// Velocity of the subject after a perfectly inelastic collision with
/// `other`.
#[verifier::when_used_as_spec(spec_inelastic_velocity)]
pub fn inelastic_velocity(subject: Body, other: Body) -> (v: Scalar)
    ensures
        v == spec_inelastic_velocity(subject, other),
{
    subject.velocity.mul(subject.mass).add(other.velocity.mul(other.mass)).div(
        subject.mass.add(other.mass),
    )
}

/// Position of the subject after an inelastic collision: pushed away from
/// the other body by `(x1 - x2) / |1000 - size1 - size2|`.
pub open spec fn spec_separated_position(subject: Body, other: Body) -> Scalar {
    subject.position.add(
        subject.position.sub(other.position).div(
            Scalar::from_int(1000).sub(Scalar::from_u32(subject.size)).sub(
                Scalar::from_u32(other.size),
            ).abs(),
        ),
    )
}

/// Position of the subject after an inelastic collision with `other`.
#[verifier::when_used_as_spec(spec_separated_position)]
pub fn separated_position(subject: Body, other: Body) -> (x: Scalar)
    ensures
        x == spec_separated_position(subject, other),
{
    subject.position.add(
        subject.position.sub(other.position).div(
            Scalar::from_int(1000).sub(Scalar::from_u32(subject.size)).sub(
                Scalar::from_u32(other.size),
            ).abs(),
        ),
    )
}

/// One recorded outcome of the scan: the subject's index, its new velocity
/// and, in inelastic mode, its new position.
#[derive(Clone, Copy, Debug, PartialEq, Eq)]
pub struct Correction {
    pub index: usize,
    pub velocity: Scalar,
    pub position: Option<Scalar>,
}

impl Correction {
    /// The correction of the body at `index` for its overlap with `other`.
    pub open spec fn spec_of(index: usize, subject: Body, other: Body, elastic: bool) -> Correction {
        if elastic {
            Correction { index, velocity: elastic_velocity(subject, other), position: None }
        } else {
            Correction {
                index,
                velocity: inelastic_velocity(subject, other),
                position: Some(separated_position(subject, other)),
            }
        }
    }

    /// Computes the correction of the body at `index` for its overlap with
    /// `other`.
    #[verifier::when_used_as_spec(spec_of)]
    pub fn of(index: usize, subject: Body, other: Body, elastic: bool) -> (c: Correction)
        ensures
            c == Correction::spec_of(index, subject, other, elastic),
    {
        if elastic {
            Correction { index, velocity: elastic_velocity(subject, other), position: None }
        } else {
            Correction {
                index,
                velocity: inelastic_velocity(subject, other),
                position: Some(separated_position(subject, other)),
            }
        }
    }

    /// `body` with this correction written over it.
    pub open spec fn applied_to(self, body: Body) -> Body {
        Body {
            velocity: self.velocity,
            position: match self.position {
                Some(x) => x,
                None => body.position,
            },
            ..body
        }
    }
}

/// The subject as its collision with `other` leaves it.
pub open spec fn corrected(subject: Body, other: Body, elastic: bool) -> Body {
    if elastic {
        Body { velocity: elastic_velocity(subject, other), ..subject }
    } else {
        Body {
            velocity: inelastic_velocity(subject, other),
            position: separated_position(subject, other),
            ..subject
        }
    }
}

/// Whether the body at `j` is a partner of the body at `i`: another body
/// that overlaps it.
pub open spec fn partners(bodies: Seq<Body>, i: int, j: int) -> bool {
    0 <= j < bodies.len() && j != i && overlapping(bodies[i], bodies[j])
}

/// The greatest index below `bound` of a partner of the body at `i`, or -1
/// where it has none there.
pub open spec fn last_partner(bodies: Seq<Body>, i: int, bound: int) -> int
    decreases bound,
{
    if bound <= 0 {
        -1
    } else if partners(bodies, i, bound - 1) {
        bound - 1
    } else {
        last_partner(bodies, i, bound - 1)
    }
}

/// The body at `i` after the scan has reached the partner candidates below
/// `bound`.
pub open spec fn resolved_up_to(bodies: Seq<Body>, elastic: bool, i: int, bound: int) -> Body {
    let j = last_partner(bodies, i, bound);
    if j < 0 {
        bodies[i]
    } else {
        corrected(bodies[i], bodies[j], elastic)
    }
}

/// The bodies after collision resolution: each body that has a partner is
/// corrected against its last partner, and every correction is computed
/// from `bodies` as given.
pub open spec fn collided(bodies: Seq<Body>, elastic: bool) -> Seq<Body> {
    Seq::new(bodies.len(), |i: int| resolved_up_to(bodies, elastic, i, bodies.len() as int))
}

/// The bodies while the scan stands at the pair `(i1, i2)`.
pub open spec fn scanned(bodies: Seq<Body>, elastic: bool, i1: int, i2: int) -> Seq<Body> {
    Seq::new(
        bodies.len(),
        |i: int|
            if i < i1 {
                resolved_up_to(bodies, elastic, i, bodies.len() as int)
            } else if i == i1 {
                resolved_up_to(bodies, elastic, i, i2)
            } else {
                bodies[i]
            },
    )
}

/// `bodies` with one correction written back.
pub open spec fn written(bodies: Seq<Body>, c: Correction) -> Seq<Body> {
    if c.index < bodies.len() {
        bodies.update(c.index as int, c.applied_to(bodies[c.index as int]))
    } else {
        bodies
    }
}

/// `bodies` with the corrections written back in the order recorded, so
/// that a later one overwrites an earlier one for the same index.
pub open spec fn written_all(bodies: Seq<Body>, changes: Seq<Correction>) -> Seq<Body>
    decreases changes.len(),
{
    if changes.len() == 0 {
        bodies
    } else {
        written(written_all(bodies, changes.drop_last()), changes.last())
    }
}

/// `last_partner` names the greatest partner below the bound.
pub proof fn lemma_last_partner(bodies: Seq<Body>, i: int, bound: int)
    requires
        bound <= bodies.len(),
    ensures
        -1 <= last_partner(bodies, i, bound) < bound || (bound <= 0 && last_partner(
            bodies,
            i,
            bound,
        ) == -1),
        last_partner(bodies, i, bound) >= 0 ==> partners(
            bodies,
            i,
            last_partner(bodies, i, bound),
        ),
        forall|j: int|
            last_partner(bodies, i, bound) < j < bound ==> !partners(bodies, i, j),
    decreases bound,
{
    if bound > 0 && !partners(bodies, i, bound - 1) {
        lemma_last_partner(bodies, i, bound - 1);
    }
}

/// Detects and resolves the collisions among `bodies`.
pub fn resolve_collisions(bodies: &mut Vec<Body>, elastic: bool)
    ensures
        final(bodies)@ == collided(old(bodies)@, elastic),
{
    let ghost before = bodies@;
    let n = bodies.len();
    let mut changes: Vec<Correction> = Vec::new();
    let mut i1: usize = 0;
    while i1 < n
        invariant
            bodies@ == before,
            n == before.len(),
            i1 <= n,
            forall|k: int| 0 <= k < changes.len() ==> changes[k].index < n,
            written_all(before, changes@) == scanned(before, elastic, i1 as int, 0),
        decreases n - i1,
    {
        let mut i2: usize = 0;
        while i2 < n
            invariant
                bodies@ == before,
                n == before.len(),
                i1 < n,
                i2 <= n,
                forall|k: int| 0 <= k < changes.len() ==> changes[k].index < n,
                written_all(before, changes@) == scanned(before, elastic, i1 as int, i2 as int),
            decreases n - i2,
        {
            if i1 != i2 && overlapping(bodies[i1], bodies[i2]) {
                let c = Correction::of(i1, bodies[i1], bodies[i2], elastic);
                proof {
                    let grown = changes@.push(c);
                    assert(grown.drop_last() == changes@);
                    assert(grown.last() == c);
                    assert(written_all(before, grown) == written(
                        scanned(before, elastic, i1 as int, i2 as int),
                        c,
                    ));
                    assert(written(scanned(before, elastic, i1 as int, i2 as int), c) =~= scanned(
                        before,
                        elastic,
                        i1 as int,
                        i2 + 1,
                    ));
                }
                changes.push(c);
            } else {
                assert(scanned(before, elastic, i1 as int, i2 as int) =~= scanned(
                    before,
                    elastic,
                    i1 as int,
                    i2 + 1,
                ));
            }
            i2 += 1;
        }
        assert(scanned(before, elastic, i1 as int, n as int) =~= scanned(
            before,
            elastic,
            i1 + 1,
            0,
        ));
        i1 += 1;
    }
    assert(scanned(before, elastic, n as int, 0) =~= collided(before, elastic));
    let mut k: usize = 0;
    while k < changes.len()
        invariant
            k <= changes.len(),
            bodies.len() == n,
            n == before.len(),
            forall|p: int| 0 <= p < changes.len() ==> changes[p].index < n,
            bodies@ == written_all(before, changes@.take(k as int)),
            written_all(before, changes@) == collided(before, elastic),
        decreases changes.len() - k,
    {
        let c = changes[k];
        let mut body = bodies[c.index];
        body.velocity = c.velocity;
        if let Some(x) = c.position {
            body.position = x;
        }
        proof {
            let next = changes@.take(k + 1);
            assert(next.drop_last() == changes@.take(k as int));
            assert(next.last() == c);
        }
        bodies.set(c.index, body);
        k += 1;
    }
    assert(changes@.take(k as int) == changes@);
}

} // verus!
