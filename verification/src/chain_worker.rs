//! The chain-level worker's per-cycle logic. Each cycle the runtime reads a
//! snapshot of the shared handle, fetches what the cycle needs, and hands the
//! results here; this module decides what the chain-level gauges become.
//! A cycle with no handle resets the gauges; a cycle that could not learn the
//! era leaves them untouched; otherwise every figure that arrived is
//! published, with the points map falling back to the previous era when the
//! current one has no data yet.

use vstd::prelude::*;

use crate::chain::{
    div_trunc_i64, active_validator_count, spec_active_count, spec_div_trunc, spec_gauge_tokens,
    tokens_to_i64, Era, EraPointsMap, EraPoints, Tokens,
};
use crate::sink::{Labels, LabelsKey, MetricName, MetricSink};

verus! {

/// What the runtime fetched in one chain-level cycle, with a live handle.
/// The points maps are the fetch results at the current era and — fetched
/// only when the first came back empty — at the era before it; the total
/// stake is fetched at whichever era the points were resolved to.
pub struct ChainCycleData {
    pub era: Option<Era>,
    pub points_at_era: Option<EraPointsMap>,
    pub points_at_prev: Option<EraPointsMap>,
    pub minimum_stake: Option<Tokens>,
    pub total_stake: Option<Tokens>,
}

/// The era before `e`, staying at zero for era zero.
pub open spec fn spec_prev_era(e: Era) -> Era {
    if e > 0 {
        (e - 1) as u32
    } else {
        0u32
    }
}

/// The era before `e`, staying at zero for era zero: where reward data for
/// the current era is not yet available, the previous era's is authoritative.
pub fn prev_era(e: Era) -> (r: Era)
    ensures
        r == spec_prev_era(e),
{
    if e > 0 {
        e - 1
    } else {
        0
    }
}

/// Which era's points this cycle uses and what they are: the current era's
/// map when its fetch yielded data, else the previous era's, else an empty
/// map under the current era.
pub open spec fn spec_resolved_points(d: ChainCycleData, e: Era) -> (Era, Seq<(Seq<u8>, EraPoints)>) {
    match d.points_at_era {
        Some(m) => (e, m@),
        None => match d.points_at_prev {
            Some(m) => (spec_prev_era(e), m@),
            None => (e, Seq::<(Seq<u8>, EraPoints)>::empty()),
        },
    }
}

/// The era this cycle's points — and therefore its total stake — belong to.
pub fn resolved_points_era(data: &ChainCycleData, era: Era) -> (r: Era)
    ensures
        r == spec_resolved_points(*data, era).0,
{
    match &data.points_at_era {
        Some(_) => era,
        None => match &data.points_at_prev {
            Some(_) => prev_era(era),
            None => era,
        },
    }
}

/// What the chain-level gauges hold after one cycle.
///
/// No handle: era, minimum stake and average stake reset to zero, so a downed
/// RPC never leaves stale figures visible. A handle but no era: everything is
/// left as it was — nothing could be fetched, nothing is reset. Otherwise the
/// era is published; the minimum stake is published if it arrived; and the
/// average stake — total stake over active-validator count — is published
/// only when the total arrived and the count is positive, never as a
/// divide-by-zero artifact.
pub open spec fn spec_chain_cycle(
    m: Map<(MetricName, LabelsKey), i64>,
    l: LabelsKey,
    data: Option<ChainCycleData>,
) -> Map<(MetricName, LabelsKey), i64> {
    match data {
        None => m.insert((MetricName::Era, l), 0).insert(
            (MetricName::MinimumActiveStake, l),
            0,
        ).insert((MetricName::AverageStake, l), 0),
        Some(d) => match d.era {
            None => m,
            Some(e) => {
                let m1 = m.insert((MetricName::Era, l), e as i64);
                let count = spec_active_count(spec_resolved_points(d, e).1);
                let m2 = match d.minimum_stake {
                    Some(t) => m1.insert(
                        (MetricName::MinimumActiveStake, l),
                        spec_gauge_tokens(t as int) as i64,
                    ),
                    None => m1,
                };
                match d.total_stake {
                    Some(t) => if count > 0 {
                        m2.insert(
                            (MetricName::AverageStake, l),
                            spec_div_trunc(spec_gauge_tokens(t as int), count) as i64,
                        )
                    } else {
                        m2
                    },
                    None => m2,
                }
            },
        },
    }
}

/// Publish one chain-level cycle into the sink.
pub fn chain_metrics_cycle(sink: &mut MetricSink, labels: &Labels, data: &Option<ChainCycleData>)
    requires
        old(sink).wf(),
    ensures
        final(sink).wf(),
        final(sink)@ == spec_chain_cycle(old(sink)@, labels@, *data),
{
    match data {
        None => {
            sink.set_gauge(MetricName::Era, labels, 0);
            sink.set_gauge(MetricName::MinimumActiveStake, labels, 0);
            sink.set_gauge(MetricName::AverageStake, labels, 0);
        },
        Some(d) => {
            let e = match d.era {
                Some(e) => e,
                None => {
                    return ;
                },
            };
            sink.set_gauge(MetricName::Era, labels, e as i64);
            let empty_points = EraPointsMap::default();
            let resolved: &EraPointsMap = match &d.points_at_era {
                Some(m) => m,
                None => match &d.points_at_prev {
                    Some(m) => m,
                    None => &empty_points,
                },
            };
            proof {
                assert(resolved@ == spec_resolved_points(*d, e).1);
            }
            let count = active_validator_count(resolved);
            match d.minimum_stake {
                Some(t) => {
                    sink.set_gauge(MetricName::MinimumActiveStake, labels, tokens_to_i64(t));
                },
                None => {},
            }
            match d.total_stake {
                Some(t) => {
                    if count > 0 {
                        let avg = div_trunc_i64(tokens_to_i64(t), count);
                        sink.set_gauge(MetricName::AverageStake, labels, avg);
                    }
                },
                None => {},
            }
        },
    }
}

/// Law: when the current era's points map yields nothing but the previous
/// era's yields data, the cycle's figures derive from the previous era, and
/// the active-validator count equals the size of that fallback map.
pub proof fn lemma_points_fallback(d: ChainCycleData, e: Era)
    requires
        d.points_at_era is None,
        d.points_at_prev is Some,
    ensures
        spec_resolved_points(d, e).0 == spec_prev_era(e),
        spec_resolved_points(d, e).1 == d.points_at_prev->Some_0@,
        spec_active_count(spec_resolved_points(d, e).1) == spec_active_count(
            d.points_at_prev->Some_0@,
        ),
{
}

/// Law: with an active-validator count of zero — both eras yielded nothing —
/// the cycle never writes the average-stake gauge: its value after the cycle
/// is whatever it was before.
pub proof fn lemma_no_average_on_zero_count(
    m: Map<(MetricName, LabelsKey), i64>,
    l: LabelsKey,
    d: ChainCycleData,
    e: Era,
)
    requires
        d.era == Some(e),
        spec_active_count(spec_resolved_points(d, e).1) == 0,
    ensures
        spec_chain_cycle(m, l, Some(d)).dom().contains((MetricName::AverageStake, l))
            == m.dom().contains((MetricName::AverageStake, l)),
        m.dom().contains((MetricName::AverageStake, l)) ==> spec_chain_cycle(m, l, Some(d))[(
            MetricName::AverageStake,
            l,
        )] == m[(MetricName::AverageStake, l)],
{
}

/// Law: a cycle that sees no handle resets the chain-level gauges to zero.
pub proof fn lemma_chain_reset_on_absent(m: Map<(MetricName, LabelsKey), i64>, l: LabelsKey)
    ensures
        spec_chain_cycle(m, l, None)[(MetricName::Era, l)] == 0,
        spec_chain_cycle(m, l, None)[(MetricName::MinimumActiveStake, l)] == 0,
        spec_chain_cycle(m, l, None)[(MetricName::AverageStake, l)] == 0,
{
}

} // verus!
