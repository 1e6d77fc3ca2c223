//! One validator's per-cycle logic. Each cycle the runtime reads a snapshot
//! of the shared handle, probes which era has settled nominator data for the
//! validator, fetches the points map of the era before it, and hands the
//! results here; this module decides what the validator's four gauges become
//! and publishes all of them every cycle, so stale values never outlive an
//! era transition.

use vstd::prelude::*;

use crate::chain::{
    spec_gauge_tokens, spec_points_of, tokens_to_i64, find_points, Era, EraPoints, EraPointsMap,
    NominatorSummary,
};
use crate::codec::AccountId;
use crate::sink::{Labels, LabelsKey, MetricName, MetricSink};

verus! {

/// What the runtime fetched in one validator-level cycle, with a live handle.
/// The summaries are the probe results at the active era and — probed only
/// when the first came back empty — at the era before it; the points map is
/// fetched at the era before the effective era, when one is defined.
pub struct ValidatorCycleData {
    pub active_era: Option<Era>,
    pub summary_at_active: Option<NominatorSummary>,
    pub summary_at_prev: Option<NominatorSummary>,
    pub points_at_effective_prev: Option<EraPointsMap>,
}

/// The era treated as current this cycle: a failed era fetch counts as era
/// zero, which yields no effective era and so resets rather than staling.
pub open spec fn spec_cycle_era(d: ValidatorCycleData) -> Era {
    match d.active_era {
        Some(e) => e,
        None => 0u32,
    }
}

/// The effective era: the first of the active era and the era before it
/// whose nominator-summary probe yielded data; none when the active era is
/// zero or neither probe yielded data.
pub open spec fn spec_effective_era(d: ValidatorCycleData) -> Option<Era> {
    let e = spec_cycle_era(d);
    if e > 0 {
        if d.summary_at_active is Some {
            Some(e)
        } else if d.summary_at_prev is Some {
            Some((e - 1) as u32)
        } else {
            None
        }
    } else {
        None
    }
}

/// The effective era, for the runtime to decide which points map to fetch.
pub fn resolve_effective_era(data: &ValidatorCycleData) -> (r: Option<Era>)
    ensures
        r == spec_effective_era(*data),
{
    let e = match data.active_era {
        Some(e) => e,
        None => 0,
    };
    if e > 0 {
        if data.summary_at_active.is_some() {
            Some(e)
        } else if data.summary_at_prev.is_some() {
            Some(e - 1)
        } else {
            None
        }
    } else {
        None
    }
}

/// The era whose points map belongs to an effective era: the one before it.
/// Points are recorded for the era preceding the one whose nominator data
/// has settled; at effective era zero there is none to fetch.
pub fn points_era_for(effective: Era) -> (r: Option<Era>)
    ensures
        effective >= 1 ==> r == Some((effective - 1) as u32),
        effective == 0 ==> r is None,
{
    if effective >= 1 {
        Some(effective - 1)
    } else {
        None
    }
}

/// The nominator summary this cycle publishes: the probe value of the
/// effective era, or the zero-valued summary when no era yielded data.
pub open spec fn spec_effective_summary(d: ValidatorCycleData) -> NominatorSummary {
    match spec_effective_era(d) {
        Some(_) => match d.summary_at_active {
            Some(s) => s,
            None => match d.summary_at_prev {
                Some(s) => s,
                None => NominatorSummary { total: 0, nominator_count: 0 },
            },
        },
        None => NominatorSummary { total: 0, nominator_count: 0 },
    }
}

/// Whether the validator was active and how many points it earned: its
/// account must appear in the points map of the era before the effective
/// era. Without an effective era, at effective era zero, or with the points
/// fetch failed or the account absent, the validator counts as inactive with
/// zero points.
pub open spec fn spec_validator_activity(d: ValidatorCycleData, account: Seq<u8>) -> (bool, EraPoints) {
    match spec_effective_era(d) {
        Some(f) => if f >= 1 {
            match d.points_at_effective_prev {
                Some(m) => match spec_points_of(m@, account) {
                    Some(p) => (true, p),
                    None => (false, 0),
                },
                None => (false, 0),
            }
        } else {
            (false, 0)
        },
        None => (false, 0),
    }
}

/// What one validator's gauges hold after one cycle.
///
/// No handle: all four gauges reset to zero. Otherwise all four are written
/// unconditionally — activity as 0 or 1, the era points, the nominator stake
/// downscaled to gauge units, and the nominator count.
pub open spec fn spec_validator_cycle(
    m: Map<(MetricName, LabelsKey), i64>,
    l: LabelsKey,
    account: Seq<u8>,
    data: Option<ValidatorCycleData>,
) -> Map<(MetricName, LabelsKey), i64> {
    match data {
        None => m.insert((MetricName::Active, l), 0).insert((MetricName::EraPoints, l), 0).insert(
            (MetricName::NominatorStake, l),
            0,
        ).insert((MetricName::NominatorCount, l), 0),
        Some(d) => {
            let activity = spec_validator_activity(d, account);
            let s = spec_effective_summary(d);
            m.insert(
                (MetricName::Active, l),
                if activity.0 {
                    1
                } else {
                    0
                },
            ).insert((MetricName::EraPoints, l), activity.1).insert(
                (MetricName::NominatorStake, l),
                spec_gauge_tokens(s.total as int) as i64,
            ).insert((MetricName::NominatorCount, l), s.nominator_count as i64)
        },
    }
}

/// Publish one validator-level cycle into the sink.
pub fn validator_metrics_cycle(
    sink: &mut MetricSink,
    labels: &Labels,
    account: &AccountId,
    data: &Option<ValidatorCycleData>,
)
    requires
        old(sink).wf(),
    ensures
        final(sink).wf(),
        final(sink)@ == spec_validator_cycle(old(sink)@, labels@, account@, *data),
{
    match data {
        None => {
            sink.set_gauge(MetricName::Active, labels, 0);
            sink.set_gauge(MetricName::EraPoints, labels, 0);
            sink.set_gauge(MetricName::NominatorStake, labels, 0);
            sink.set_gauge(MetricName::NominatorCount, labels, 0);
        },
        Some(d) => {
            let effective = resolve_effective_era(d);
            let mut active = false;
            let mut points: EraPoints = 0;
            match effective {
                Some(f) => {
                    if f >= 1 {
                        match &d.points_at_effective_prev {
                            Some(m) => {
                                match find_points(m, account) {
                                    Some(p) => {
                                        active = true;
                                        points = p;
                                    },
                                    None => {},
                                }
                            },
                            None => {},
                        }
                    }
                },
                None => {},
            }
            proof {
                assert((active, points) == spec_validator_activity(*d, account@));
            }
            let summary = match effective {
                Some(_) => match d.summary_at_active {
                    Some(s) => s,
                    None => match d.summary_at_prev {
                        Some(s) => s,
                        None => NominatorSummary { total: 0, nominator_count: 0 },
                    },
                },
                None => NominatorSummary { total: 0, nominator_count: 0 },
            };
            sink.set_gauge(
                MetricName::Active,
                labels,
                if active {
                    1
                } else {
                    0
                },
            );
            sink.set_gauge(MetricName::EraPoints, labels, points);
            sink.set_gauge(MetricName::NominatorStake, labels, tokens_to_i64(summary.total));
            sink.set_gauge(MetricName::NominatorCount, labels, summary.nominator_count as i64);
        },
    }
}

/// Law: when neither the active era nor the era before it yields nominator
/// data, the cycle resets all four of the validator's gauges to zero.
pub proof fn lemma_validator_reset_without_data(
    m: Map<(MetricName, LabelsKey), i64>,
    l: LabelsKey,
    account: Seq<u8>,
    d: ValidatorCycleData,
)
    requires
        d.summary_at_active is None,
        d.summary_at_prev is None,
    ensures
        spec_validator_cycle(m, l, account, Some(d))[(MetricName::Active, l)] == 0,
        spec_validator_cycle(m, l, account, Some(d))[(MetricName::EraPoints, l)] == 0,
        spec_validator_cycle(m, l, account, Some(d))[(MetricName::NominatorStake, l)] == 0,
        spec_validator_cycle(m, l, account, Some(d))[(MetricName::NominatorCount, l)] == 0,
{
    assert(spec_effective_era(d) is None);
    assert(spec_validator_activity(d, account) == (false, 0i64));
    assert(spec_gauge_tokens(0) == 0);
}

/// Law: when the effective era's points map holds the validator's account,
/// the cycle publishes active = 1 and exactly the recorded points.
pub proof fn lemma_validator_active_points(
    m: Map<(MetricName, LabelsKey), i64>,
    l: LabelsKey,
    account: Seq<u8>,
    d: ValidatorCycleData,
    p: EraPoints,
)
    requires
        spec_effective_era(d) matches Some(f) && f >= 1,
        d.points_at_effective_prev matches Some(pm) && spec_points_of(pm@, account) == Some(p),
    ensures
        spec_validator_cycle(m, l, account, Some(d))[(MetricName::Active, l)] == 1,
        spec_validator_cycle(m, l, account, Some(d))[(MetricName::EraPoints, l)] == p,
{
}

/// Law: a cycle that sees no handle resets all four validator gauges to zero.
pub proof fn lemma_validator_reset_on_absent(
    m: Map<(MetricName, LabelsKey), i64>,
    l: LabelsKey,
    account: Seq<u8>,
)
    ensures
        spec_validator_cycle(m, l, account, None)[(MetricName::Active, l)] == 0,
        spec_validator_cycle(m, l, account, None)[(MetricName::EraPoints, l)] == 0,
        spec_validator_cycle(m, l, account, None)[(MetricName::NominatorStake, l)] == 0,
        spec_validator_cycle(m, l, account, None)[(MetricName::NominatorCount, l)] == 0,
{
}

} // verus!
