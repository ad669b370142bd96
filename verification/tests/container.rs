use errmodel::enumerated::IdNumberError;
use errmodel::opaque::with_context;
use errmodel::opaque::OpaqueError;
use errmodel::zero_cost::LookupFailure;

#[test]
fn single_message_renders_without_causes() {
    let e = OpaqueError::from_message(String::from("boom"));
    assert_eq!(e.render(), "boom");
}

#[test]
fn render_shows_outer_message_then_inner_cause() {
    // Outer context in front of an underlying "not found" failure: the
    // outer message comes first, the inner one second, under "Caused by:".
    let inner = OpaqueError::from_message(String::from("not found"));
    let outer = inner.context(String::from("failed to open X"));
    assert_eq!(outer.render(), "failed to open X\n\nCaused by:\n    not found");
}

#[test]
fn render_keeps_every_layer_most_recent_first() {
    let e = OpaqueError::from_message(String::from("disk unreadable"))
        .context(String::from("failed to load settings"))
        .context(String::from("startup aborted"));
    assert_eq!(
        e.render(),
        "startup aborted\n\nCaused by:\n    failed to load settings\n    disk unreadable"
    );
}

#[test]
fn rendering_twice_gives_identical_text() {
    let e = OpaqueError::from_message(String::from("not found"))
        .context(String::from("failed to open X"));
    assert_eq!(e.render(), e.render());

    let plain = OpaqueError::from_failure(&IdNumberError::InvalidNumber(76));
    assert_eq!(plain.render(), plain.render());
}

#[test]
fn from_failure_preserves_display_text() {
    let e = OpaqueError::from_failure(&LookupFailure);
    assert_eq!(e.render(), "key lookup failure");

    let e = OpaqueError::from_failure(&IdNumberError::InvalidNumber(9));
    assert_eq!(e.render(), "invalid id number (9)");

    let e = OpaqueError::from_failure(&IdNumberError::LookupFailure);
    assert_eq!(e.render(), "id lookup failure");
}

#[test]
fn every_layer_remains_retrievable_in_order() {
    let e = OpaqueError::from_message(String::from("disk unreadable"))
        .context(String::from("failed to load settings"))
        .context(String::from("startup aborted"));
    assert_eq!(
        e.messages(),
        &vec![
            String::from("startup aborted"),
            String::from("failed to load settings"),
            String::from("disk unreadable"),
        ]
    );
}

#[test]
fn context_is_not_built_on_the_success_path() {
    // The message builder must be evaluated lazily: on a success it must
    // never run, which this panicking builder would expose.
    let r: Result<u32, OpaqueError> = Ok(5);
    let r = with_context(r, || -> String {
        panic!("context builder ran on the success path")
    });
    assert_eq!(r.ok(), Some(5));
}

#[test]
fn context_is_built_on_the_failure_path() {
    let r: Result<u32, OpaqueError> = Err(OpaqueError::from_message(String::from("inner")));
    let r = with_context(r, || String::from("outer"));
    let e = r.unwrap_err();
    assert_eq!(e.render(), "outer\n\nCaused by:\n    inner");
}
