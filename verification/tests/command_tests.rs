use eventfold_es::CommandContext;

fn json(text: &str) -> serde_json::Value {
    serde_json::from_str(text).unwrap()
}

#[test]
fn default_context_has_no_fields_set() {
    let ctx = CommandContext::default();
    assert_eq!(ctx.actor, None);
    assert_eq!(ctx.correlation_id, None);
    assert_eq!(ctx.metadata, None);
    assert_eq!(ctx.source_device, None);
}

#[test]
fn builder_sets_actor() {
    let ctx = CommandContext::default().with_actor("user-1");
    assert_eq!(ctx.actor.as_deref(), Some("user-1"));
}

#[test]
fn builder_sets_correlation_id() {
    let ctx = CommandContext::default().with_correlation_id("corr-99");
    assert_eq!(ctx.correlation_id.as_deref(), Some("corr-99"));
}

#[test]
fn builder_sets_metadata() {
    let meta = json(r#"{"key": "value"}"#);
    let ctx = CommandContext::default().with_metadata(meta.clone());
    assert_eq!(ctx.metadata, Some(meta));
}

#[test]
fn builder_chains_all_fields() {
    let ctx = CommandContext::default()
        .with_actor("admin")
        .with_correlation_id("req-abc")
        .with_metadata(json(r#"{"source": "test"}"#))
        .with_source_device("phone-42");

    assert_eq!(ctx.actor.as_deref(), Some("admin"));
    assert_eq!(ctx.correlation_id.as_deref(), Some("req-abc"));
    assert_eq!(ctx.metadata, Some(json(r#"{"source": "test"}"#)));
    assert_eq!(ctx.source_device.as_deref(), Some("phone-42"));
}

#[test]
fn builder_sets_source_device() {
    let ctx = CommandContext::default().with_source_device("device-abc");
    assert_eq!(ctx.source_device.as_deref(), Some("device-abc"));
}

#[test]
fn builder_accepts_string_owned() {
    let ctx = CommandContext::default()
        .with_actor(String::from("svc-payments"))
        .with_correlation_id(String::from("id-007"))
        .with_source_device(String::from("laptop-01"));

    assert_eq!(ctx.actor.as_deref(), Some("svc-payments"));
    assert_eq!(ctx.correlation_id.as_deref(), Some("id-007"));
    assert_eq!(ctx.source_device.as_deref(), Some("laptop-01"));
}

#[test]
fn clone_produces_independent_copy() {
    let original = CommandContext::default()
        .with_actor("user-1")
        .with_metadata(json(r#"{"a": 1}"#));

    let cloned = original.clone();
    assert_eq!(original.actor, cloned.actor);
    assert_eq!(original.metadata, cloned.metadata);
}

#[test]
fn debug_format_is_readable() {
    let ctx = CommandContext::default().with_actor("dbg-user");
    let debug_output = format!("{ctx:?}");
    assert!(debug_output.contains("dbg-user"));
}

#[test]
fn builders_leave_other_fields_alone() {
    let ctx = CommandContext::default()
        .with_source_device("d")
        .with_actor("a")
        .with_correlation_id("c");
    let again = ctx.clone().with_actor("b");
    assert_eq!(again.actor.as_deref(), Some("b"));
    assert_eq!(again.correlation_id.as_deref(), Some("c"));
    assert_eq!(again.source_device.as_deref(), Some("d"));
    assert_eq!(again.metadata, None);
}
