//! Tests for the registry: registration, duplicate rejection, write
//! application, counter monotonicity.

use litemon::registry::Descriptor;
use litemon::registry::MetricKind;
use litemon::registry::MetricValue;
use litemon::registry::Registry;
use litemon::registry::RegistryError;
use litemon::registry::SeriesWrite;
use litemon::registry::WriteOp;

fn gauge_desc(name: &'static str) -> Descriptor {
    Descriptor {
        name,
        help: "help text",
        kind: MetricKind::Gauge,
        label_names: Vec::new(),
    }
}

#[test]
fn register_and_read_back() {
    let mut reg = Registry::new();
    assert_eq!(reg.family_count(), 0);
    reg.register(gauge_desc("fam_a")).unwrap();
    assert_eq!(reg.family_count(), 1);
    assert!(reg.has_family_named("fam_a"));
    assert!(!reg.has_family_named("fam_b"));
}

#[test]
fn duplicate_registration_rejected() {
    // A harness that would catch `describe` running twice: the second
    // registration of the same name is rejected and the descriptor
    // set stays stable.
    let mut reg = Registry::new();
    reg.register(gauge_desc("fam_a")).unwrap();
    let second = reg.register(gauge_desc("fam_a"));
    assert_eq!(second, Err(RegistryError::DuplicateName));
    assert_eq!(reg.family_count(), 1);
}

#[test]
fn set_write_creates_and_updates_series() {
    let mut reg = Registry::new();
    reg.register(gauge_desc("fam_a")).unwrap();
    reg.apply_write(SeriesWrite {
        family: "fam_a",
        labels: Vec::new(),
        op: WriteOp::SetTo(MetricValue { num: 7, den: 10 }),
    });
    assert_eq!(
        reg.get_value("fam_a", &Vec::new()),
        Some(MetricValue { num: 7, den: 10 })
    );
    reg.apply_write(SeriesWrite {
        family: "fam_a",
        labels: Vec::new(),
        op: WriteOp::SetTo(MetricValue { num: 3, den: 10 }),
    });
    assert_eq!(
        reg.get_value("fam_a", &Vec::new()),
        Some(MetricValue { num: 3, den: 10 })
    );
}

#[test]
fn write_to_unregistered_family_is_ignored() {
    let mut reg = Registry::new();
    reg.register(gauge_desc("fam_a")).unwrap();
    reg.apply_write(SeriesWrite {
        family: "fam_b",
        labels: Vec::new(),
        op: WriteOp::SetTo(MetricValue { num: 1, den: 1 }),
    });
    assert_eq!(reg.family_count(), 1);
    assert_eq!(reg.get_value("fam_b", &Vec::new()), None);
}

#[test]
fn counter_rises_and_never_moves_backward() {
    let mut reg = Registry::new();
    reg.register(Descriptor {
        name: "ctr",
        help: "a counter",
        kind: MetricKind::Counter,
        label_names: Vec::new(),
    })
    .unwrap();
    // fresh counter: first raw reading is published in full
    reg.apply_write(SeriesWrite {
        family: "ctr",
        labels: Vec::new(),
        op: WriteOp::CounterTo(1000),
    });
    assert_eq!(
        reg.get_value("ctr", &Vec::new()),
        Some(MetricValue { num: 1000, den: 1 })
    );
    // growth 1000 -> 1500: increment 500
    reg.apply_write(SeriesWrite {
        family: "ctr",
        labels: Vec::new(),
        op: WriteOp::CounterTo(1500),
    });
    assert_eq!(
        reg.get_value("ctr", &Vec::new()),
        Some(MetricValue { num: 1500, den: 1 })
    );
    // reset 1500 -> 200: increment clamps to 0, the published value
    // never moves backward
    reg.apply_write(SeriesWrite {
        family: "ctr",
        labels: Vec::new(),
        op: WriteOp::CounterTo(200),
    });
    assert_eq!(
        reg.get_value("ctr", &Vec::new()),
        Some(MetricValue { num: 1500, den: 1 })
    );
}

#[test]
fn label_rows_are_distinct_series() {
    let mut reg = Registry::new();
    reg.register(Descriptor {
        name: "fam",
        help: "labelled",
        kind: MetricKind::Gauge,
        label_names: vec!["which"],
    })
    .unwrap();
    let a = vec!["a".to_string()];
    let b = vec!["b".to_string()];
    reg.apply_write(SeriesWrite {
        family: "fam",
        labels: a.clone(),
        op: WriteOp::SetTo(MetricValue { num: 1, den: 1 }),
    });
    reg.apply_write(SeriesWrite {
        family: "fam",
        labels: b.clone(),
        op: WriteOp::SetTo(MetricValue { num: 2, den: 1 }),
    });
    assert_eq!(reg.get_value("fam", &a), Some(MetricValue { num: 1, den: 1 }));
    assert_eq!(reg.get_value("fam", &b), Some(MetricValue { num: 2, den: 1 }));
}
