use operator::clock::Instant;
use operator::conditions::{clear_conditions, make_condition, upsert_condition, upsert_condition_bool, Condition};

#[test]
fn make_condition_populates_core_fields() {
    let cond = make_condition("Ready", true, "Reason", "Message", 7);
    assert_eq!(cond.type_, "Ready");
    assert_eq!(cond.status, "True");
    assert_eq!(cond.reason, "Reason");
    assert_eq!(cond.message, "Message");
    assert_eq!(cond.observed_generation, Some(7));
}

#[test]
fn upsert_condition_preserves_transition_time_on_same_status() {
    let earlier_time = Instant { secs: 1_700_000_000, nanos: 5 };
    let mut conds = Some(vec![Condition {
        type_: "Ready".into(),
        status: "True".into(),
        reason: "Initial".into(),
        message: "Initial".into(),
        observed_generation: Some(1),
        last_transition_time: earlier_time,
    }]);
    let updated = Condition {
        type_: "Ready".into(),
        status: "True".into(),
        reason: "Updated".into(),
        message: "Updated".into(),
        observed_generation: Some(2),
        last_transition_time: Instant { secs: 1_800_000_000, nanos: 0 },
    };
    upsert_condition(&mut conds, updated);
    let cond = conds.as_ref().unwrap().first().unwrap();
    assert_eq!(cond.reason, "Updated");
    assert_eq!(cond.message, "Updated");
    assert_eq!(cond.observed_generation, Some(2));
    assert_eq!(cond.last_transition_time, earlier_time);
}

#[test]
fn upsert_bool_and_clear_conditions_workflow() {
    let mut conds: Option<Vec<Condition>> = None;
    upsert_condition_bool(&mut conds, "Ready", true, "Init", Some("ok"), 1);
    upsert_condition_bool(&mut conds, "Ready", false, "Fail", Some("not ok"), 2);
    let cond = conds.as_ref().unwrap().first().unwrap();
    assert_eq!(cond.status, "False");
    assert_eq!(cond.reason, "Fail");
    assert_eq!(cond.observed_generation, Some(2));
    clear_conditions(&mut conds);
    assert!(conds.is_none());
}

#[test]
fn upsert_replaces_on_status_change_and_appends_new_types() {
    let t0 = Instant { secs: 10, nanos: 0 };
    let mut conds = Some(vec![Condition {
        type_: "Ready".into(),
        status: "True".into(),
        reason: "A".into(),
        message: "".into(),
        observed_generation: Some(1),
        last_transition_time: t0,
    }]);
    let t1 = Instant { secs: 20, nanos: 0 };
    upsert_condition(&mut conds, Condition {
        type_: "Ready".into(),
        status: "False".into(),
        reason: "B".into(),
        message: "m".into(),
        observed_generation: Some(2),
        last_transition_time: t1,
    });
    upsert_condition(&mut conds, Condition {
        type_: "Online".into(),
        status: "True".into(),
        reason: "C".into(),
        message: "".into(),
        observed_generation: Some(2),
        last_transition_time: t1,
    });
    let v = conds.unwrap();
    assert_eq!(v.len(), 2);
    assert_eq!(v[0].status, "False");
    assert_eq!(v[0].last_transition_time, t1);
    assert_eq!(v[1].type_, "Online");
}

#[test]
fn upsert_twice_is_upsert_once() {
    let c = Condition {
        type_: "X".into(),
        status: "True".into(),
        reason: "R".into(),
        message: "M".into(),
        observed_generation: Some(4),
        last_transition_time: Instant { secs: 1, nanos: 0 },
    };
    let mut once: Option<Vec<Condition>> = None;
    upsert_condition(&mut once, c.duplicate());
    let mut twice: Option<Vec<Condition>> = None;
    upsert_condition(&mut twice, c.duplicate());
    upsert_condition(&mut twice, c.duplicate());
    let (a, b) = (once.unwrap(), twice.unwrap());
    assert_eq!(a.len(), b.len());
    assert_eq!(a[0].reason, b[0].reason);
    assert_eq!(a[0].last_transition_time, b[0].last_transition_time);
}
