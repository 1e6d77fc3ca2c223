//! The metric sink: a mapping from (metric name, label set) to a gauge value.
//! Label sets are the unique key into each metric family; writing twice under
//! the same key overwrites one cell instead of growing a second time series.
//! An external HTTP layer encodes a snapshot of the sink on demand.

use vstd::prelude::*;

use crate::codec::Network;
use crate::config::Validator;

verus! {

/// The gauge families this exporter publishes.
#[derive(Clone, Copy, Debug, PartialEq, Eq, Structural)]
pub enum MetricName {
    Era,
    Active,
    EraPoints,
    NominatorStake,
    NominatorCount,
    MinimumActiveStake,
    AverageStake,
    RpcHealth,
}

/// The mathematical value of a label set: each field as a character sequence.
pub ghost struct LabelsKey {
    pub network: Seq<char>,
    pub chain: Seq<char>,
    pub validator_name: Option<Seq<char>>,
    pub validator_address: Option<Seq<char>>,
}

/// The view of an optional string.
pub open spec fn opt_string_view(o: Option<String>) -> Option<Seq<char>> {
    match o {
        Some(s) => Some(s@),
        None => None,
    }
}

/// A label set: network and chain names, and, for validator-level metrics,
/// the validator's display name and address. Chain-level metrics leave the
/// validator fields empty.
#[derive(Clone, Debug)]
pub struct Labels {
    pub network: String,
    pub chain: String,
    pub validator_name: Option<String>,
    pub validator_address: Option<String>,
}

impl View for Labels {
    type V = LabelsKey;

    open spec fn view(&self) -> LabelsKey {
        LabelsKey {
            network: self.network@,
            chain: self.chain@,
            validator_name: opt_string_view(self.validator_name),
            validator_address: opt_string_view(self.validator_address),
        }
    }
}

fn opt_string_eq(a: &Option<String>, b: &Option<String>) -> (r: bool)
    ensures
        r == (opt_string_view(*a) == opt_string_view(*b)),
{
    match a {
        Some(x) => match b {
            Some(y) => *x == *y,
            None => false,
        },
        None => b.is_none(),
    }
}

impl PartialEq for Labels {
    fn eq(&self, other: &Labels) -> (r: bool) {
        self.network == other.network && self.chain == other.chain && opt_string_eq(
            &self.validator_name,
            &other.validator_name,
        ) && opt_string_eq(&self.validator_address, &other.validator_address)
    }
}

impl vstd::std_specs::cmp::PartialEqSpecImpl for Labels {
    open spec fn obeys_eq_spec() -> bool {
        true
    }

    open spec fn eq_spec(&self, other: &Labels) -> bool {
        self@ == other@
    }
}

impl Labels {
    /// An equal label set in a fresh allocation.
    pub fn duplicate(&self) -> (r: Labels)
        ensures
            r@ == self@,
    {
        Labels {
            network: self.network.clone(),
            chain: self.chain.clone(),
            validator_name: match &self.validator_name {
                Some(s) => Some(s.clone()),
                None => None,
            },
            validator_address: match &self.validator_address {
                Some(s) => Some(s.clone()),
                None => None,
            },
        }
    }
}

/// One time series: a metric name, a label set and the current gauge value.
struct GaugeCell {
    name: MetricName,
    labels: Labels,
    value: i64,
}

/// The key of one cell.
spec fn cell_key(c: GaugeCell) -> (MetricName, LabelsKey) {
    (c.name, c.labels@)
}

/// No two cells share a key.
spec fn cells_unique(cs: Seq<GaugeCell>) -> bool {
    forall|p: int, q: int|
        0 <= p < q < cs.len() ==> cell_key(#[trigger] cs[p]) != cell_key(#[trigger] cs[q])
}

/// The label-keyed gauge store all workers write into.
pub struct MetricSink {
    cells: Vec<GaugeCell>,
}

impl MetricSink {
    /// The stored series in order: each key with its current value.
    pub closed spec fn series(&self) -> Seq<((MetricName, LabelsKey), i64)> {
        Seq::new(
            self.cells@.len(),
            |i: int| (cell_key(self.cells@[i]), self.cells@[i].value),
        )
    }

    /// Some series holds the key.
    closed spec fn has_key(&self, k: (MetricName, LabelsKey)) -> bool {
        exists|i: int| 0 <= i < self.series().len() && (#[trigger] self.series()[i]).0 == k
    }

    /// The position of the series holding the key.
    closed spec fn index_of(&self, k: (MetricName, LabelsKey)) -> int {
        choose|i: int| 0 <= i < self.series().len() && (#[trigger] self.series()[i]).0 == k
    }

    /// Well-formed: each key owns at most one series. Established by `new`
    /// and preserved by every method.
    pub closed spec fn wf(&self) -> bool {
        cells_unique(self.cells@)
    }

    /// An empty sink.
    pub fn new() -> (r: MetricSink)
        ensures
            r.wf(),
            r@ == Map::<(MetricName, LabelsKey), i64>::empty(),
            r.series().len() == 0,
    {
        let r = MetricSink { cells: Vec::new() };
        proof {
            assert(r@ =~= Map::<(MetricName, LabelsKey), i64>::empty());
        }
        r
    }

    /// Write `value` under `(name, labels)`, overwriting the cell if the key
    /// is already present and creating it otherwise.
    pub fn set_gauge(&mut self, name: MetricName, labels: &Labels, value: i64)
        requires
            old(self).wf(),
        ensures
            final(self).wf(),
            final(self)@ == old(self)@.insert((name, labels@), value),
            final(self).series().len() == if old(self)@.dom().contains((name, labels@)) {
                old(self).series().len()
            } else {
                old(self).series().len() + 1
            },
    {
        let ghost k = (name, labels@);
        let n = self.cells.len();
        let mut i: usize = 0;
        while i < n
            invariant
                n == self.cells@.len(),
                i <= n,
                *self == *old(self),
                old(self).wf(),
                k == (name, labels@),
                forall|j: int| 0 <= j < i ==> (#[trigger] self.series()[j]).0 != k,
            decreases n - i,
        {
            if self.cells[i].name == name && self.cells[i].labels == *labels {
                proof {
                    assert(self.series()[i as int].0 == k);
                }
                let cell = GaugeCell { name, labels: labels.duplicate(), value };
                self.cells[i] = cell;
                proof {
                    lemma_view_char(*old(self));
                    assert(self.series().len() == old(self).series().len());
                    assert(forall|j: int|
                        0 <= j < self.series().len() && j != i ==> self.series()[j] == old(
                            self,
                        ).series()[j]);
                    assert(self.series()[i as int] == (k, value));
                    assert(self.wf()) by {
                        assert(forall|j: int|
                            0 <= j < self.series().len() ==> (#[trigger] self.series()[j]).0 == old(
                                self,
                            ).series()[j].0);
                        assert(forall|p: int, q: int|
                            0 <= p < q < self.cells@.len() ==> cell_key(#[trigger] self.cells@[p])
                                != cell_key(#[trigger] self.cells@[q])) by {
                            assert(forall|p: int|
                                0 <= p < self.cells@.len() ==> cell_key(#[trigger] self.cells@[p])
                                    == (#[trigger] self.series()[p]).0);
                        }
                    }
                    lemma_view_char(*self);
                    lemma_insert_at(*old(self), *self, i as int, k, value);
                }
                return ;
            }
            i = i + 1;
        }
        proof {
            assert(forall|j: int|
                0 <= j < n ==> (#[trigger] old(self).series()[j]).0 != k);
        }
        let cell = GaugeCell { name, labels: labels.duplicate(), value };
        self.cells.push(cell);
        proof {
            lemma_view_char(*old(self));
            assert(self.cells@ == old(self).cells@.push(cell));
            assert(self.series().len() == old(self).series().len() + 1);
            assert(forall|j: int|
                0 <= j < old(self).series().len() ==> self.series()[j] == old(self).series()[j]);
            assert(self.series()[old(self).series().len() as int] == (k, value));
            assert(!old(self).has_key(k));
            assert(self.wf()) by {
                let os = old(self).series();
                assert(forall|p: int|
                    0 <= p < self.cells@.len() ==> cell_key(#[trigger] self.cells@[p]) == (
                    #[trigger] self.series()[p]).0);
                assert(forall|p: int|
                    0 <= p < old(self).cells@.len() ==> cell_key(#[trigger] old(self).cells@[p])
                        == (#[trigger] os[p]).0);
                assert forall|p: int, q: int|
                    0 <= p < q < self.cells@.len() implies cell_key(self.cells@[p]) != cell_key(
                    self.cells@[q],
                ) by {
                    if q < os.len() {
                        assert(cell_key(old(self).cells@[p]) != cell_key(old(self).cells@[q]));
                        assert(self.series()[p] == os[p] && self.series()[q] == os[q]);
                    } else {
                        assert(cell_key(self.cells@[q]) == k);
                        assert((self.series()[p]).0 == (os[p]).0);
                        assert((os[p]).0 != k);
                    }
                }
            }
            lemma_view_char(*self);
            lemma_insert_end(*old(self), *self, k, value);
        }
    }

    /// Read the value under `(name, labels)`, if that key has been written.
    pub fn get_gauge(&self, name: MetricName, labels: &Labels) -> (r: Option<i64>)
        requires
            self.wf(),
        ensures
            match r {
                Some(v) => self@.dom().contains((name, labels@)) && v == self@[(name, labels@)],
                None => !self@.dom().contains((name, labels@)),
            },
    {
        let ghost k = (name, labels@);
        let n = self.cells.len();
        let mut i: usize = 0;
        while i < n
            invariant
                n == self.cells@.len(),
                self.wf(),
                i <= n,
                k == (name, labels@),
                forall|j: int| 0 <= j < i ==> (#[trigger] self.series()[j]).0 != k,
            decreases n - i,
        {
            if self.cells[i].name == name && self.cells[i].labels == *labels {
                proof {
                    assert(self.series()[i as int].0 == k);
                    lemma_view_char(*self);
                }
                return Some(self.cells[i].value);
            }
            i = i + 1;
        }
        proof {
            assert(!self.has_key(k));
        }
        None
    }

    /// The number of series currently stored.
    pub fn len(&self) -> (r: usize)
        ensures
            r == self.series().len(),
    {
        self.cells.len()
    }

    /// A copy of every series, for encoding by the HTTP layer.
    pub fn snapshot(&self) -> (r: Vec<(MetricName, Labels, i64)>)
        ensures
            r@.len() == self.series().len(),
            forall|i: int|
                0 <= i < r@.len() ==> ((#[trigger] r@[i]).0, r@[i].1@) == self.series()[i].0
                    && r@[i].2 == self.series()[i].1,
    {
        let n = self.cells.len();
        let mut out: Vec<(MetricName, Labels, i64)> = Vec::new();
        let mut i: usize = 0;
        while i < n
            invariant
                n == self.cells@.len(),
                i <= n,
                out@.len() == i,
                forall|j: int|
                    0 <= j < i ==> ((#[trigger] out@[j]).0, out@[j].1@) == self.series()[j].0
                        && out@[j].2 == self.series()[j].1,
            decreases n - i,
        {
            let c = &self.cells[i];
            out.push((c.name, c.labels.duplicate(), c.value));
            i = i + 1;
        }
        out
    }
}

impl View for MetricSink {
    type V = Map<(MetricName, LabelsKey), i64>;

    closed spec fn view(&self) -> Map<(MetricName, LabelsKey), i64> {
        Map::new(
            |k: (MetricName, LabelsKey)| self.has_key(k),
            |k: (MetricName, LabelsKey)| self.series()[self.index_of(k)].1,
        )
    }
}

/// In a well-formed sink the view agrees with the series pointwise.
proof fn lemma_view_char(s: MetricSink)
    requires
        s.wf(),
    ensures
        forall|i: int|
            0 <= i < s.series().len() ==> s@.dom().contains((#[trigger] s.series()[i]).0)
                && s@[s.series()[i].0] == s.series()[i].1,
        forall|i: int, j: int|
            0 <= i < s.series().len() && 0 <= j < s.series().len() && (#[trigger] s.series()[i]).0
                == (#[trigger] s.series()[j]).0 ==> i == j,
        forall|k: (MetricName, LabelsKey)| #[trigger]
            s@.dom().contains(k) ==> exists|i: int|
                0 <= i < s.series().len() && (#[trigger] s.series()[i]).0 == k,
{
    assert(forall|p: int|
        0 <= p < s.cells@.len() ==> cell_key(#[trigger] s.cells@[p]) == (
        #[trigger] s.series()[p]).0);
    assert forall|i: int, j: int|
        0 <= i < s.series().len() && 0 <= j < s.series().len() && (#[trigger] s.series()[i]).0 == (
        #[trigger] s.series()[j]).0 implies i == j by {
        if i < j {
            assert(cell_key(s.cells@[i]) != cell_key(s.cells@[j]));
        }
        if j < i {
            assert(cell_key(s.cells@[j]) != cell_key(s.cells@[i]));
        }
    }
    assert forall|i: int| 0 <= i < s.series().len() implies s@.dom().contains(
        (#[trigger] s.series()[i]).0,
    ) && s@[s.series()[i].0] == s.series()[i].1 by {
        let k = s.series()[i].0;
        assert(s.has_key(k));
        let j = s.index_of(k);
        assert(0 <= j < s.series().len() && s.series()[j].0 == k);
        assert(j == i);
    }
}

/// Replacing the value at the unique position of a key is a map insert.
proof fn lemma_insert_at(
    s0: MetricSink,
    s1: MetricSink,
    at: int,
    k: (MetricName, LabelsKey),
    v: i64,
)
    requires
        s0.wf(),
        s1.wf(),
        s0.series().len() == s1.series().len(),
        0 <= at < s0.series().len(),
        s0.series()[at].0 == k,
        s1.series()[at] == (k, v),
        forall|j: int| 0 <= j < s1.series().len() && j != at ==> s1.series()[j] == s0.series()[j],
    ensures
        s1@ == s0@.insert(k, v),
{
    lemma_view_char(s0);
    lemma_view_char(s1);
    assert forall|kk: (MetricName, LabelsKey)| #[trigger]
        s1@.dom().contains(kk) implies s0@.insert(k, v).dom().contains(kk) && s1@[kk] == s0@.insert(
        k,
        v,
    )[kk] by {
        let j = choose|j: int|
            0 <= j < s1.series().len() && (#[trigger] s1.series()[j]).0 == kk;
        assert(0 <= j < s1.series().len() && s1.series()[j].0 == kk);
        if kk == k {
            assert(j == at);
            assert(s1@[kk] == v);
        } else {
            assert(j != at);
            assert(s0.series()[j].0 == kk);
            assert(s0@[kk] == s0.series()[j].1);
            assert(s1@[kk] == s1.series()[j].1);
        }
    }
    assert forall|kk: (MetricName, LabelsKey)| #[trigger]
        s0@.insert(k, v).dom().contains(kk) implies s1@.dom().contains(kk) by {
        if kk == k {
            assert(s1.series()[at].0 == k);
            assert(s1@.dom().contains(k));
        } else {
            assert(s0@.dom().contains(kk));
            let j = choose|j: int|
                0 <= j < s0.series().len() && (#[trigger] s0.series()[j]).0 == kk;
            assert(j != at);
            assert(s1.series()[j].0 == kk);
        }
    }
    assert(s1@ =~= s0@.insert(k, v));
}

/// Appending a cell with a fresh key is a map insert.
proof fn lemma_insert_end(s0: MetricSink, s1: MetricSink, k: (MetricName, LabelsKey), v: i64)
    requires
        s0.wf(),
        s1.wf(),
        s1.series().len() == s0.series().len() + 1,
        forall|j: int| 0 <= j < s0.series().len() ==> s1.series()[j] == s0.series()[j],
        s1.series()[s0.series().len() as int] == (k, v),
        !s0@.dom().contains(k),
    ensures
        s1@ == s0@.insert(k, v),
{
    lemma_view_char(s0);
    lemma_view_char(s1);
    let at = s0.series().len() as int;
    assert forall|kk: (MetricName, LabelsKey)| #[trigger]
        s1@.dom().contains(kk) implies s0@.insert(k, v).dom().contains(kk) && s1@[kk] == s0@.insert(
        k,
        v,
    )[kk] by {
        let j = choose|j: int|
            0 <= j < s1.series().len() && (#[trigger] s1.series()[j]).0 == kk;
        assert(0 <= j < s1.series().len() && s1.series()[j].0 == kk);
        if kk == k {
            assert(j == at) by {
                if j != at {
                    assert(s0.series()[j].0 == kk);
                    assert(s0@.dom().contains(k));
                }
            }
            assert(s1@[kk] == v);
        } else {
            assert(j != at);
            assert(s0.series()[j].0 == kk);
            assert(s0@[kk] == s0.series()[j].1);
            assert(s1@[kk] == s1.series()[j].1);
        }
    }
    assert forall|kk: (MetricName, LabelsKey)| #[trigger]
        s0@.insert(k, v).dom().contains(kk) implies s1@.dom().contains(kk) by {
        if kk == k {
            assert(s1.series()[at].0 == k);
        } else {
            let j = choose|j: int|
                0 <= j < s0.series().len() && (#[trigger] s0.series()[j]).0 == kk;
            assert(s1.series()[j].0 == kk);
        }
    }
    assert(s1@ =~= s0@.insert(k, v));
}

/// Law: a label set owns exactly one time series. In a well-formed sink no
/// two series positions share a key, and the series entry at each position
/// holds exactly the value the sink's map view gives that key — so that after
/// repeated writes under one key, the one series under it holds the value
/// written last.
pub proof fn lemma_single_series(s: MetricSink)
    requires
        s.wf(),
    ensures
        forall|i: int, j: int|
            0 <= i < s.series().len() && 0 <= j < s.series().len() && (#[trigger] s.series()[i]).0
                == (#[trigger] s.series()[j]).0 ==> i == j,
        forall|i: int|
            0 <= i < s.series().len() ==> s@.dom().contains((#[trigger] s.series()[i]).0)
                && s@[s.series()[i].0] == s.series()[i].1,
{
    lemma_view_char(s);
}

/// A map with the four chain-level gauges of a label set reset to zero.
pub open spec fn zeroed_chain(
    m: Map<(MetricName, LabelsKey), i64>,
    cl: LabelsKey,
) -> Map<(MetricName, LabelsKey), i64> {
    m.insert((MetricName::Era, cl), 0).insert((MetricName::RpcHealth, cl), 0).insert(
        (MetricName::MinimumActiveStake, cl),
        0,
    ).insert((MetricName::AverageStake, cl), 0)
}

/// A map with the four validator-level gauges of a label set reset to zero.
pub open spec fn zeroed_validator(
    m: Map<(MetricName, LabelsKey), i64>,
    vl: LabelsKey,
) -> Map<(MetricName, LabelsKey), i64> {
    m.insert((MetricName::Active, vl), 0).insert((MetricName::EraPoints, vl), 0).insert(
        (MetricName::NominatorStake, vl),
        0,
    ).insert((MetricName::NominatorCount, vl), 0)
}

/// A map with every validator label set's gauges reset to zero, in order.
pub open spec fn zeroed_validators(
    m: Map<(MetricName, LabelsKey), i64>,
    vls: Seq<LabelsKey>,
) -> Map<(MetricName, LabelsKey), i64>
    decreases vls.len(),
{
    if vls.len() == 0 {
        m
    } else {
        zeroed_validator(zeroed_validators(m, vls.drop_last()), vls.last())
    }
}

/// Write zero into every chain-level gauge and every validator-level gauge,
/// so that each configured time series exists from startup.
pub fn initialize_metrics(
    sink: &mut MetricSink,
    chain_labels: &Labels,
    validator_labels: &Vec<Labels>,
)
    requires
        old(sink).wf(),
    ensures
        final(sink).wf(),
        final(sink)@ == zeroed_validators(
            zeroed_chain(old(sink)@, chain_labels@),
            validator_labels@.map_values(|l: Labels| l@),
        ),
{
    sink.set_gauge(MetricName::Era, chain_labels, 0);
    sink.set_gauge(MetricName::RpcHealth, chain_labels, 0);
    sink.set_gauge(MetricName::MinimumActiveStake, chain_labels, 0);
    sink.set_gauge(MetricName::AverageStake, chain_labels, 0);
    let ghost vls = validator_labels@.map_values(|l: Labels| l@);
    let n = validator_labels.len();
    let mut i: usize = 0;
    proof {
        assert(vls.take(0).len() == 0);
    }
    while i < n
        invariant
            n == validator_labels@.len(),
            i <= n,
            vls == validator_labels@.map_values(|l: Labels| l@),
            sink.wf(),
            sink@ == zeroed_validators(zeroed_chain(old(sink)@, chain_labels@), vls.take(i as int)),
        decreases n - i,
    {
        let vl = &validator_labels[i];
        sink.set_gauge(MetricName::Active, vl, 0);
        sink.set_gauge(MetricName::EraPoints, vl, 0);
        sink.set_gauge(MetricName::NominatorStake, vl, 0);
        sink.set_gauge(MetricName::NominatorCount, vl, 0);
        proof {
            assert(vls.take(i + 1).drop_last() =~= vls.take(i as int));
            assert(vls.take(i + 1).last() == vls[i as int]);
            assert(vls[i as int] == validator_labels@[i as int]@);
        }
        i = i + 1;
    }
    proof {
        assert(vls.take(n as int) =~= vls);
    }
}

/// Law: last write wins. Writing a value and then a second value under the
/// same (metric, label set) key leaves the sink's view exactly as one write
/// of the second value would; together with `lemma_single_series`, the key
/// then owns one series holding the second value.
pub proof fn lemma_last_write_wins(
    m: Map<(MetricName, LabelsKey), i64>,
    k: (MetricName, LabelsKey),
    v: i64,
    v2: i64,
)
    ensures
        m.insert(k, v).insert(k, v2) == m.insert(k, v2),
{
    assert(m.insert(k, v).insert(k, v2) =~= m.insert(k, v2));
}

/// The name each gauge family is exposed under (the exporter's prefix is
/// prepended by the encoding layer).
pub open spec fn spec_metric_family_name(n: MetricName) -> Seq<char> {
    match n {
        MetricName::Era => "era"@,
        MetricName::Active => "active"@,
        MetricName::EraPoints => "era_points"@,
        MetricName::NominatorStake => "nominator_stake"@,
        MetricName::NominatorCount => "nominator_count"@,
        MetricName::MinimumActiveStake => "minimum_active_stake"@,
        MetricName::AverageStake => "average_stake"@,
        MetricName::RpcHealth => "asset_hub_rpc_health"@,
    }
}

/// The name each gauge family is exposed under (the exporter's prefix is
/// prepended by the encoding layer).
pub fn metric_family_name(name: MetricName) -> (r: String)
    ensures
        r@ == spec_metric_family_name(name),
{
    match name {
        MetricName::Era => "era".to_owned(),
        MetricName::Active => "active".to_owned(),
        MetricName::EraPoints => "era_points".to_owned(),
        MetricName::NominatorStake => "nominator_stake".to_owned(),
        MetricName::NominatorCount => "nominator_count".to_owned(),
        MetricName::MinimumActiveStake => "minimum_active_stake".to_owned(),
        MetricName::AverageStake => "average_stake".to_owned(),
        MetricName::RpcHealth => "asset_hub_rpc_health".to_owned(),
    }
}

/// The lower-case label under which a network is reported.
pub open spec fn spec_network_label(n: Network) -> Seq<char> {
    match n {
        Network::Polkadot => "polkadot"@,
        Network::Kusama => "kusama"@,
        Network::Avail => "avail"@,
    }
}

/// The lower-case label under which a network is reported.
pub fn network_label(network: &Network) -> (r: String)
    ensures
        r@ == spec_network_label(*network),
{
    match network {
        Network::Polkadot => "polkadot".to_owned(),
        Network::Kusama => "kusama".to_owned(),
        Network::Avail => "avail".to_owned(),
    }
}

/// The label set of chain-level metrics: empty validator fields.
pub fn chain_labels(network: &Network, chain: &String) -> (l: Labels)
    ensures
        l@ == (LabelsKey {
            network: spec_network_label(*network),
            chain: chain@,
            validator_name: None,
            validator_address: None,
        }),
{
    Labels {
        network: network_label(network),
        chain: chain.clone(),
        validator_name: None,
        validator_address: None,
    }
}

/// The label set of one validator's metrics: its name and address filled in.
pub fn validator_labels(network: &Network, chain: &String, validator: &Validator) -> (l: Labels)
    ensures
        l@ == (LabelsKey {
            network: spec_network_label(*network),
            chain: chain@,
            validator_name: Some(validator.name@),
            validator_address: Some(validator.address@),
        }),
{
    Labels {
        network: network_label(network),
        chain: chain.clone(),
        validator_name: Some(validator.name.clone()),
        validator_address: Some(validator.address.clone()),
    }
}

} // verus!
