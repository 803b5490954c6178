//! Threshold arithmetic: does a tally miss the quorum or the support that the
//! governance configuration asks for?
//!
//! Both thresholds are percentages rounded down. They are stated over
//! unbounded integers, so no tally and no supply is too large for them, and a
//! zero divisor counts as a miss instead of a fault. The executable checks
//! work on 128-bit values and never form a product that could overflow.

use vstd::prelude::*;
use vstd::arithmetic::div_mod::lemma_fundamental_div_mod;
use vstd::arithmetic::div_mod::lemma_mod_bound;

verus! {

/// Participation misses the quorum when the votes cast, as a percentage of
/// the total supply of voting power (rounded down), do not exceed
/// `vote_scale`. With no supply at all the quorum is missed.
pub open spec fn quorum_failed(
    for_votes: nat,
    against_votes: nat,
    total_supply: nat,
    vote_scale: nat,
) -> bool {
    total_supply == 0 || (for_votes + against_votes) * 100 / total_supply <= vote_scale
}

/// Approval misses the support threshold when the votes in favour, as a
/// percentage of the votes cast (rounded down), do not exceed
/// `support_scale`. With no vote cast the support is missed.
pub open spec fn support_failed(for_votes: nat, against_votes: nat, support_scale: nat) -> bool {
    for_votes + against_votes == 0 || for_votes * 100 / (for_votes + against_votes)
        <= support_scale
}

/// Weight of one limb of a [`Wide`] number.
const LIMB: u128 = 0x1_0000_0000_0000_0000;

/// A natural number held as `high * 2^64 + low`.
struct Wide {
    high: u128,
    low: u128,
}

impl Wide {
    spec fn value(self) -> int {
        self.high * LIMB + self.low
    }

    spec fn normal(self) -> bool {
        self.low < LIMB
    }

    /// The product `x * k` for a small factor `k`.
    fn scaled(x: u128, k: u128) -> (w: Wide)
        requires
            k <= 100,
        ensures
            w.normal(),
            w.value() == x * k,
    {
        let upper: u128 = x / LIMB;
        let lower: u128 = x % LIMB;
        assert(lower * k <= 0xFFFF_FFFF_FFFF_FFFF * 100) by (nonlinear_arith)
            requires
                lower <= 0xFFFF_FFFF_FFFF_FFFF,
                k <= 100,
        ;
        assert(upper * k <= 0xFFFF_FFFF_FFFF_FFFF * 100) by (nonlinear_arith)
            requires
                upper <= 0xFFFF_FFFF_FFFF_FFFF,
                k <= 100,
        ;
        let partial: u128 = lower * k;
        let high: u128 = upper * k + partial / LIMB;
        let low: u128 = partial % LIMB;
        assert(x * k == (upper * k) * LIMB + lower * k) by (nonlinear_arith)
            requires
                x == upper * LIMB + lower,
        ;
        Wide { high, low }
    }

    fn less_than(&self, other: &Wide) -> (lt: bool)
        requires
            self.normal(),
            other.normal(),
        ensures
            lt == (self.value() < other.value()),
    {
        self.high < other.high || (self.high == other.high && self.low < other.low)
    }
}

/// A quotient rounded down stays at or below `v` exactly when the dividend
/// stays below `(v + 1) * d`.
proof fn lemma_floor_at_most(x: int, d: int, v: int)
    requires
        0 <= x,
        0 < d,
    ensures
        (x / d <= v) <==> (x < (v + 1) * d),
{
    lemma_fundamental_div_mod(x, d);
    lemma_mod_bound(x, d);
    let q = x / d;
    let r = x % d;
    if q <= v {
        assert(d * q + d <= (v + 1) * d) by (nonlinear_arith)
            requires
                q <= v,
                0 < d,
        ;
    } else {
        assert((v + 1) * d <= d * q) by (nonlinear_arith)
            requires
                v + 1 <= q,
                0 < d,
        ;
    }
}

/// With the votes cast written as `q * s + r` and the threshold as
/// `v + 1 == 100 * a + b`, the quorum is decided by comparing `q` with `a`
/// and, when they are equal, `100 * r` with `b * s`.
proof fn lemma_quorum_decision(cast: int, s: int, q: int, r: int, v: int, a: int, b: int)
    requires
        0 < s,
        cast == q * s + r,
        0 <= q,
        0 <= r < s,
        v + 1 == 100 * a + b,
        0 <= b < 100,
    ensures
        (cast * 100 / s <= v) <==> (q < a || (q == a && 100 * r < b * s)),
{
    assert(0 <= q * s) by (nonlinear_arith)
        requires
            0 <= q,
            0 < s,
    ;
    lemma_floor_at_most(cast * 100, s, v);
    assert((v + 1) * s == 100 * (a * s) + b * s) by (nonlinear_arith)
        requires
            v + 1 == 100 * a + b,
    ;
    assert(0 <= b * s <= 99 * s) by (nonlinear_arith)
        requires
            0 <= b <= 99,
            0 < s,
    ;
    if q < a {
        assert(q * s + s <= a * s) by (nonlinear_arith)
            requires
                q + 1 <= a,
                0 < s,
        ;
    } else if q > a {
        assert(a * s + s <= q * s) by (nonlinear_arith)
            requires
                a + 1 <= q,
                0 < s,
        ;
    }
}

/// Whether the tally misses the quorum `vote_scale` against `total_supply`.
pub fn check_quorum(
    for_votes: u128,
    against_votes: u128,
    total_supply: u128,
    vote_scale: u128,
) -> (failed: bool)
    ensures
        failed == quorum_failed(
            for_votes as nat,
            against_votes as nat,
            total_supply as nat,
            vote_scale as nat,
        ),
{
    if total_supply == 0 {
        return true;
    }
    // Votes cast, as `whole * total_supply + rest` with `rest < total_supply`.
    let whole_for: u128 = for_votes / total_supply;
    let rest_for: u128 = for_votes % total_supply;
    let whole_against: u128 = against_votes / total_supply;
    let rest_against: u128 = against_votes % total_supply;
    let mut carry: u128 = 0;
    let mut rest: u128 = 0;
    if rest_for >= total_supply - rest_against {
        carry = 1;
        rest = rest_for - (total_supply - rest_against);
    } else {
        rest = rest_for + rest_against;
    }
    // The first percentage that passes, `vote_scale + 1`, as `100 * hundreds + units`.
    let mut hundreds: u128 = vote_scale / 100;
    let mut units: u128 = vote_scale % 100 + 1;
    if units == 100 {
        hundreds = hundreds + 1;
        units = 0;
    }
    proof {
        let s = total_supply as int;
        let q = whole_for + whole_against + carry;
        lemma_fundamental_div_mod(for_votes as int, s);
        lemma_fundamental_div_mod(against_votes as int, s);
        assert(for_votes + against_votes == q * s + rest) by (nonlinear_arith)
            requires
                for_votes == s * whole_for + rest_for,
                against_votes == s * whole_against + rest_against,
                rest_for + rest_against == carry * s + rest,
                q == whole_for + whole_against + carry,
        ;
        lemma_quorum_decision(
            for_votes + against_votes,
            s,
            q,
            rest as int,
            vote_scale as int,
            hundreds as int,
            units as int,
        );
    }
    if whole_for > hundreds {
        return false;
    }
    let room: u128 = hundreds - whole_for;
    if whole_against > room {
        return false;
    }
    let room: u128 = room - whole_against;
    if carry > room {
        return false;
    }
    if carry < room {
        return true;
    }
    Wide::scaled(rest, 100).less_than(&Wide::scaled(total_supply, units))
}

/// Whether the tally misses the support threshold `support_scale`.
pub fn check_support(for_votes: u128, against_votes: u128, support_scale: u128) -> (failed: bool)
    ensures
        failed == support_failed(for_votes as nat, against_votes as nat, support_scale as nat),
{
    if for_votes == 0 && against_votes == 0 {
        return true;
    }
    proof {
        lemma_floor_at_most(for_votes * 100, for_votes + against_votes, support_scale as int);
    }
    if support_scale >= 100 {
        // The percentage in favour never exceeds 100.
        assert(for_votes * 100 < (support_scale + 1) * (for_votes + against_votes))
            by (nonlinear_arith)
            requires
                support_scale >= 100,
                for_votes + against_votes > 0,
        ;
        return true;
    }
    // Below 100, `100 * for < (scale + 1) * (for + against)` is the same as
    // `(99 - scale) * for < (scale + 1) * against`.
    let keep: u128 = 99 - support_scale;
    let pass: u128 = support_scale + 1;
    assert((for_votes * 100 < (support_scale + 1) * (for_votes + against_votes)) <==> (for_votes
        * keep < against_votes * pass)) by (nonlinear_arith)
        requires
            keep == 99 - support_scale,
            pass == support_scale + 1,
    ;
    Wide::scaled(for_votes, keep).less_than(&Wide::scaled(against_votes, pass))
}

} // verus!
