//! Tests for service-unit states: parsing, the one-hot encoding, and
//! the unit cache.

use litemon::producer::ReadError;
use litemon::producer::SystemdUnitStateCollector;
use litemon::producer::UnitStateReading;
use litemon::registry::MetricValue;
use litemon::registry::Registry;
use litemon::systemd_unit_state::ActiveState;
use litemon::systemd_unit_state::UnitCache;

#[test]
fn all_states_lists_the_eight_names() {
    let names = ActiveState::all_states();
    assert_eq!(
        names,
        vec![
            "active",
            "inactive",
            "failed",
            "activating",
            "deactivating",
            "maintenance",
            "reloading",
            "refreshing",
        ]
    );
}

#[test]
fn state_parsing_round_trips() {
    for name in ActiveState::all_states() {
        let st = ActiveState::from_str(name).unwrap();
        assert_eq!(st.as_str(), name);
    }
    assert!(ActiveState::from_str("exploded").is_none());
    assert!(ActiveState::from_str("").is_none());
}

#[test]
fn unit_cache_grows_monotonically() {
    let mut cache = UnitCache::new();
    assert_eq!(cache.len(), 0);
    assert!(cache.get("a.service").is_none());
    cache.store("a.service".to_string(), "/org/a".to_string());
    assert_eq!(cache.get("a.service"), Some("/org/a".to_string()));
    assert_eq!(cache.len(), 1);
    // storing again keeps the first path: the cache only grows
    cache.store("a.service".to_string(), "/org/other".to_string());
    assert_eq!(cache.get("a.service"), Some("/org/a".to_string()));
    assert_eq!(cache.len(), 1);
    cache.store("b.service".to_string(), "/org/b".to_string());
    assert_eq!(cache.len(), 2);
}

fn unit_state_registry() -> (SystemdUnitStateCollector, Registry) {
    let options = vec![("units".to_string(), "foo.service".to_string())];
    let producer = SystemdUnitStateCollector::new(&options);
    assert_eq!(producer.units, vec!["foo.service"]);
    let mut reg = Registry::new();
    producer.register(&mut reg);
    (producer, reg)
}

fn state_value(reg: &Registry, unit: &str, state: &str) -> Option<MetricValue> {
    reg.get_value(
        "litemon_systemd_unit_state",
        &vec![unit.to_string(), state.to_string()],
    )
}

#[test]
fn one_hot_exactly_one_state_is_one() {
    let (producer, mut reg) = unit_state_registry();
    let input = vec![UnitStateReading {
        unit: "foo.service".to_string(),
        state: Ok("active".to_string()),
    }];
    let (writes, res) = producer.collect(input);
    assert!(res.is_ok());
    reg.apply_writes(writes);
    // every known state has a series, even ones never observed
    let mut ones = 0;
    for name in ActiveState::all_states() {
        let v = state_value(&reg, "foo.service", name).unwrap();
        if v == (MetricValue { num: 1, den: 1 }) {
            ones += 1;
        } else {
            assert_eq!(v, MetricValue { num: 0, den: 1 });
        }
    }
    assert_eq!(ones, 1);
    assert_eq!(
        state_value(&reg, "foo.service", "active"),
        Some(MetricValue { num: 1, den: 1 })
    );
}

#[test]
fn one_hot_state_change_clears_previous() {
    let (producer, mut reg) = unit_state_registry();
    let (writes, _) = producer.collect(vec![UnitStateReading {
        unit: "foo.service".to_string(),
        state: Ok("active".to_string()),
    }]);
    reg.apply_writes(writes);
    let (writes, _) = producer.collect(vec![UnitStateReading {
        unit: "foo.service".to_string(),
        state: Ok("failed".to_string()),
    }]);
    reg.apply_writes(writes);
    assert_eq!(
        state_value(&reg, "foo.service", "active"),
        Some(MetricValue { num: 0, den: 1 })
    );
    assert_eq!(
        state_value(&reg, "foo.service", "failed"),
        Some(MetricValue { num: 1, den: 1 })
    );
}

#[test]
fn unknown_or_failed_unit_states_are_skipped() {
    let (producer, mut reg) = unit_state_registry();
    // an unreadable unit and an unknown state word both produce no
    // writes and no pass error
    let (writes, res) = producer.collect(vec![
        UnitStateReading {
            unit: "foo.service".to_string(),
            state: Err(ReadError {
                context: "dbus timeout".to_string(),
            }),
        },
        UnitStateReading {
            unit: "bar.service".to_string(),
            state: Ok("warming-up".to_string()),
        },
    ]);
    assert!(res.is_ok());
    assert!(writes.is_empty());
}
