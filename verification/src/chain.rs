//! Chain-side data model: eras, token amounts, per-era reward points and
//! nominator summaries, together with the downscaling conversion applied to
//! native token amounts before they are exposed as gauge values.

use vstd::prelude::*;

use crate::codec::AccountId;

verus! {

/// A staking period, reported by the chain as a non-decreasing integer.
pub type Era = u32;

/// A token amount in native (planck-scale) integer units.
pub type Tokens = i128;

/// A per-validator reward score accumulated during one era.
pub type EraPoints = i64;

/// Native token amounts carry ten decimal places; gauge values drop them.
pub const TOKEN_SCALE: i128 = 10_000_000_000;

/// The quotient of a native token amount by the display scale, truncated
/// toward zero as Rust's integer division does.
pub open spec fn scaled_tokens(t: int) -> int {
    if t >= 0 {
        t / (TOKEN_SCALE as int)
    } else {
        -((-t) / (TOKEN_SCALE as int))
    }
}

/// The gauge value a native token amount is published as: its scaled
/// quotient, saturated at the bounds of an `i64` gauge.
pub open spec fn spec_gauge_tokens(t: int) -> int {
    if scaled_tokens(t) > i64::MAX {
        i64::MAX as int
    } else if scaled_tokens(t) < i64::MIN {
        i64::MIN as int
    } else {
        scaled_tokens(t)
    }
}

/// Downscale a native token amount to a gauge value. Quotients beyond the
/// range of an `i64` gauge saturate at the nearest bound.
pub fn tokens_to_i64(tokens: Tokens) -> (r: i64)
    ensures
        r == spec_gauge_tokens(tokens as int),
{
    if tokens == i128::MIN {
        proof {
            assert((-(i128::MIN as int)) / (TOKEN_SCALE as int) > i64::MAX as int);
        }
        return i64::MIN;
    }
    let q: i128 = if tokens >= 0 {
        tokens / TOKEN_SCALE
    } else {
        -((-tokens) / TOKEN_SCALE)
    };
    if q > i64::MAX as i128 {
        i64::MAX
    } else if q < i64::MIN as i128 {
        i64::MIN
    } else {
        q as i64
    }
}

/// The quotient of two integers, truncated toward zero as Rust's `/` does.
pub open spec fn spec_div_trunc(a: int, b: int) -> int {
    if a >= 0 {
        a / b
    } else {
        -((-a) / b)
    }
}

/// Divide a gauge value by a positive count, truncating toward zero.
pub fn div_trunc_i64(a: i64, b: i64) -> (r: i64)
    requires
        b > 0,
    ensures
        r == spec_div_trunc(a as int, b as int),
{
    let aw: i128 = a as i128;
    let bw: i128 = b as i128;
    let q: i128 = if aw >= 0 {
        aw / bw
    } else {
        -((-aw) / bw)
    };
    proof {
        let ai: int = aw as int;
        let bi: int = bw as int;
        if ai >= 0 {
            assert(ai / bi <= ai) by (nonlinear_arith)
                requires
                    ai >= 0,
                    bi >= 1,
            ;
            assert(ai / bi >= 0);
        } else {
            assert((-ai) / bi <= -ai) by (nonlinear_arith)
                requires
                    -ai > 0,
                    bi >= 1,
            ;
            assert((-ai) / bi >= 0);
        }
    }
    q as i64
}

/// One era's reward points: each active validator's account paired with the
/// points it earned.
pub struct EraPointsMap {
    pub individual: Vec<(AccountId, EraPoints)>,
}

impl View for EraPointsMap {
    type V = Seq<(Seq<u8>, EraPoints)>;

    open spec fn view(&self) -> Seq<(Seq<u8>, EraPoints)> {
        self.individual@.map_values(|p: (AccountId, EraPoints)| (p.0@, p.1))
    }
}

impl EraPointsMap {
    /// An empty points map, used when neither era's data can be fetched.
    pub fn default() -> (r: Self)
        ensures
            r@ == Seq::<(Seq<u8>, EraPoints)>::empty(),
    {
        let r = EraPointsMap { individual: Vec::new() };
        proof {
            assert(r@ =~= Seq::<(Seq<u8>, EraPoints)>::empty());
        }
        r
    }
}

/// The total stake behind one validator and the number of its nominators,
/// scoped to one era.
#[derive(Clone, Copy, Debug, PartialEq, Eq, Structural)]
pub struct NominatorSummary {
    pub total: Tokens,
    pub nominator_count: u32,
}

impl Default for NominatorSummary {
    /// The zero-valued summary used when no era yields data.
    fn default() -> (r: Self)
        ensures
            r.total == 0,
            r.nominator_count == 0,
    {
        NominatorSummary { total: 0, nominator_count: 0 }
    }
}

/// The chain's record of the era in progress: its number and, when already
/// known, its start time in milliseconds.
#[derive(Clone, Copy, Debug)]
pub struct ActiveEraInfo {
    pub index: Era,
    pub start: Option<u64>,
}

/// The points recorded for an account, by first match in the entry list.
pub open spec fn spec_points_of(entries: Seq<(Seq<u8>, EraPoints)>, account: Seq<u8>) -> Option<
    EraPoints,
>
    decreases entries.len(),
{
    if entries.len() == 0 {
        None
    } else if entries.first().0 == account {
        Some(entries.first().1)
    } else {
        spec_points_of(entries.drop_first(), account)
    }
}

/// Look an account up in an era's points map.
pub fn find_points(map: &EraPointsMap, account: &AccountId) -> (r: Option<EraPoints>)
    ensures
        r == spec_points_of(map@, account@),
{
    let n = map.individual.len();
    let mut i: usize = 0;
    proof {
        assert(map@.skip(0) =~= map@);
    }
    while i < n
        invariant
            n == map.individual@.len(),
            i <= n,
            spec_points_of(map@, account@) == spec_points_of(map@.skip(i as int), account@),
        decreases n - i,
    {
        proof {
            assert(map@.len() == n);
            assert(map@.skip(i as int).first() == map@[i as int]);
            assert(map@[i as int] == (map.individual@[i as int].0@, map.individual@[i as int].1));
            assert(map@.skip(i as int).drop_first() =~= map@.skip(i + 1));
        }
        let entry = &map.individual[i];
        if entry.0 == *account {
            return Some(entry.1);
        }
        i = i + 1;
    }
    proof {
        assert(map@.skip(n as int).len() == 0);
    }
    None
}

/// The number of entries in a points map, as the gauge value it is published
/// under (saturated at the gauge's upper bound).
pub open spec fn spec_active_count(entries: Seq<(Seq<u8>, EraPoints)>) -> int {
    if entries.len() > i64::MAX {
        i64::MAX as int
    } else {
        entries.len() as int
    }
}

/// The active-validator count this cycle: the size of the points map that
/// was actually obtained.
pub fn active_validator_count(map: &EraPointsMap) -> (r: i64)
    ensures
        r == spec_active_count(map@),
{
    let n = map.individual.len();
    proof {
        assert(map@.len() == map.individual@.len());
    }
    if (n as u64) > (i64::MAX as u64) {
        i64::MAX
    } else {
        n as i64
    }
}

} // verus!
