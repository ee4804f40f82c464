use evgl_libs::contracts::{valid_kind, Actor, EventEnvelope, PRODUCT};

fn envelope(id: &str, kind: &str, occurred_at: &str) -> EventEnvelope {
    EventEnvelope {
        id: id.to_owned(),
        kind: kind.to_owned(),
        occurred_at: occurred_at.to_owned(),
        actor: Some(Actor { id: "u-1".to_owned(), tenant_id: "t-1".to_owned() }),
    }
}

#[test]
fn validates_namespaced_kinds() {
    assert!(valid_kind("case.created"));
    assert!(!valid_kind("CaseCreated"));
    assert!(!valid_kind("created"));
    assert!(!valid_kind("1case.created"));
}

#[test]
fn kinds_may_start_with_a_dot_and_use_digits_dashes_and_underscores() {
    assert!(valid_kind(".created"));
    assert!(valid_kind("event_2.cross-posted"));
    assert!(!valid_kind(""));
    assert!(!valid_kind("case.Created"));
    assert!(!valid_kind("case created.x"));
    assert!(!valid_kind("cäse.created"));
}

#[test]
fn envelope_validation_reports_the_first_problem() {
    assert_eq!(envelope("e-1", "case.created", "2024-01-01T00:00:00Z").validate(), Ok(()));
    assert_eq!(
        envelope("  \t", "case.created", "2024-01-01T00:00:00Z").validate(),
        Err("event id is required")
    );
    assert_eq!(
        envelope("e-1", "CaseCreated", "").validate(),
        Err("event kind must be lowercase and namespaced")
    );
    assert_eq!(
        envelope("e-1", "case.created", " \u{3000} ").validate(),
        Err("occurred_at is required")
    );
}

#[test]
fn product_name_is_stable() {
    assert_eq!(PRODUCT, "evento-globolo");
}
