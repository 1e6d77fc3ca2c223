use substratheus::codec::Network;
use substratheus::config::Validator;
use substratheus::sink::{
    metric_family_name,
    chain_labels, initialize_metrics, network_label, validator_labels, Labels, MetricName,
    MetricSink,
};

fn chain_label_set() -> Labels {
    Labels {
        network: "polkadot".to_string(),
        chain: "Polkadot".to_string(),
        validator_name: None,
        validator_address: None,
    }
}

fn validator_label_set(name: &str) -> Labels {
    Labels {
        network: "polkadot".to_string(),
        chain: "Polkadot".to_string(),
        validator_name: Some(name.to_string()),
        validator_address: Some(format!("{name}-address")),
    }
}

#[test]
fn last_write_wins_single_series() {
    let mut sink = MetricSink::new();
    let labels = chain_label_set();
    sink.set_gauge(MetricName::Era, &labels, 7);
    sink.set_gauge(MetricName::Era, &labels, 9);
    // One write key: exactly one series, holding the later value.
    assert_eq!(sink.len(), 1);
    assert_eq!(sink.get_gauge(MetricName::Era, &labels), Some(9));
}

#[test]
fn equal_label_sets_collapse() {
    let mut sink = MetricSink::new();
    let a = chain_label_set();
    let b = chain_label_set();
    sink.set_gauge(MetricName::Era, &a, 1);
    sink.set_gauge(MetricName::Era, &b, 2);
    assert_eq!(sink.len(), 1);
    assert_eq!(sink.get_gauge(MetricName::Era, &a), Some(2));
}

#[test]
fn distinct_keys_get_distinct_series() {
    let mut sink = MetricSink::new();
    let chain = chain_label_set();
    let val = validator_label_set("alpha");
    sink.set_gauge(MetricName::Era, &chain, 5);
    sink.set_gauge(MetricName::Active, &val, 1);
    sink.set_gauge(MetricName::EraPoints, &val, 40);
    assert_eq!(sink.len(), 3);
    assert_eq!(sink.get_gauge(MetricName::Era, &chain), Some(5));
    assert_eq!(sink.get_gauge(MetricName::Active, &val), Some(1));
    assert_eq!(sink.get_gauge(MetricName::EraPoints, &val), Some(40));
    assert_eq!(sink.get_gauge(MetricName::Era, &val), None);
}

#[test]
fn snapshot_reflects_series() {
    let mut sink = MetricSink::new();
    let labels = chain_label_set();
    sink.set_gauge(MetricName::RpcHealth, &labels, 1);
    let snap = sink.snapshot();
    assert_eq!(snap.len(), 1);
    assert_eq!(snap[0].0, MetricName::RpcHealth);
    assert_eq!(snap[0].1, labels);
    assert_eq!(snap[0].2, 1);
}

#[test]
fn initialize_creates_all_zeroed_series() {
    let mut sink = MetricSink::new();
    let chain = chain_label_set();
    let vals = vec![validator_label_set("a"), validator_label_set("b")];
    initialize_metrics(&mut sink, &chain, &vals);
    assert_eq!(sink.len(), 12);
    assert_eq!(sink.get_gauge(MetricName::Era, &chain), Some(0));
    assert_eq!(sink.get_gauge(MetricName::RpcHealth, &chain), Some(0));
    assert_eq!(sink.get_gauge(MetricName::MinimumActiveStake, &chain), Some(0));
    assert_eq!(sink.get_gauge(MetricName::AverageStake, &chain), Some(0));
    for v in &vals {
        assert_eq!(sink.get_gauge(MetricName::Active, v), Some(0));
        assert_eq!(sink.get_gauge(MetricName::EraPoints, v), Some(0));
        assert_eq!(sink.get_gauge(MetricName::NominatorStake, v), Some(0));
        assert_eq!(sink.get_gauge(MetricName::NominatorCount, v), Some(0));
    }
}

#[test]
fn network_labels_are_lower_case() {
    assert_eq!(network_label(&Network::Polkadot), "polkadot");
    assert_eq!(network_label(&Network::Kusama), "kusama");
    assert_eq!(network_label(&Network::Avail), "avail");
}

#[test]
fn label_constructors_fill_fields() {
    let chain_name = "Kusama".to_string();
    let cl = chain_labels(&Network::Kusama, &chain_name);
    assert_eq!(cl.network, "kusama");
    assert_eq!(cl.chain, "Kusama");
    assert_eq!(cl.validator_name, None);
    assert_eq!(cl.validator_address, None);

    let v = Validator { name: "watcher".to_string(), address: "addr".to_string() };
    let vl = validator_labels(&Network::Kusama, &chain_name, &v);
    assert_eq!(vl.network, "kusama");
    assert_eq!(vl.chain, "Kusama");
    assert_eq!(vl.validator_name.as_deref(), Some("watcher"));
    assert_eq!(vl.validator_address.as_deref(), Some("addr"));
}

#[test]
fn family_names_match_exposition() {
    assert_eq!(metric_family_name(MetricName::Era), "era");
    assert_eq!(metric_family_name(MetricName::Active), "active");
    assert_eq!(metric_family_name(MetricName::EraPoints), "era_points");
    assert_eq!(metric_family_name(MetricName::NominatorStake), "nominator_stake");
    assert_eq!(metric_family_name(MetricName::NominatorCount), "nominator_count");
    assert_eq!(metric_family_name(MetricName::MinimumActiveStake), "minimum_active_stake");
    assert_eq!(metric_family_name(MetricName::AverageStake), "average_stake");
    assert_eq!(metric_family_name(MetricName::RpcHealth), "asset_hub_rpc_health");
}
