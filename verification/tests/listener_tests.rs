use oidc_pkce::listener::{callback_outcome, handle_request, parse_query, CallbackSlot};

#[test]
fn parse_query_splits_pairs() {
    let ps = parse_query("code=ABC&state=XYZ");
    assert_eq!(ps.len(), 2);
    assert_eq!(ps[0], ("code".to_string(), "ABC".to_string()));
    assert_eq!(ps[1], ("state".to_string(), "XYZ".to_string()));
}

#[test]
fn parse_query_edge_shapes() {
    assert_eq!(parse_query("").len(), 0);
    assert_eq!(parse_query("a"), vec![("a".to_string(), "".to_string())]);
    assert_eq!(parse_query("a="), vec![("a".to_string(), "".to_string())]);
    assert_eq!(parse_query("=x"), vec![("".to_string(), "x".to_string())]);
    assert_eq!(
        parse_query("a=b=c"),
        vec![("a".to_string(), "b=c".to_string())]
    );
    assert_eq!(
        parse_query("a=1&&b=2"),
        vec![
            ("a".to_string(), "1".to_string()),
            ("".to_string(), "".to_string()),
            ("b".to_string(), "2".to_string()),
        ]
    );
}

#[test]
fn request_with_code_is_captured() {
    let mut slot = CallbackSlot::new();
    let params = parse_query("code=ABC123");
    let resp = handle_request(&mut slot, &params);
    assert_eq!(resp, "Received code: ABC123");
    let captured = slot.result.expect("a result should be captured");
    assert_eq!(captured.code.as_deref(), Some("ABC123"));
    assert_eq!(captured.error, None);
    assert_eq!(captured.returned_state, None);
}

#[test]
fn request_with_code_and_state_captures_both() {
    let mut slot = CallbackSlot::new();
    let params = parse_query("code=ABC123&state=S1");
    handle_request(&mut slot, &params);
    let captured = slot.result.unwrap();
    assert_eq!(captured.code.as_deref(), Some("ABC123"));
    assert_eq!(captured.returned_state.as_deref(), Some("S1"));
}

#[test]
fn request_without_code_captures_nothing() {
    let mut slot = CallbackSlot::new();
    let params = parse_query("");
    let resp = handle_request(&mut slot, &params);
    assert_eq!(resp, "Missing code parameter");
    assert!(slot.result.is_none());
}

#[test]
fn outcome_without_code_is_a_missing_code_error() {
    let params = parse_query("state=S1");
    let outcome = callback_outcome(&params);
    assert_eq!(outcome.code, None);
    assert_eq!(outcome.error.as_deref(), Some("missing code"));
    assert_eq!(outcome.returned_state.as_deref(), Some("S1"));
}

#[test]
fn second_request_does_not_overwrite_first_capture() {
    let mut slot = CallbackSlot::new();
    let first = parse_query("code=FIRST");
    let second = parse_query("code=SECOND");
    handle_request(&mut slot, &first);
    let resp = handle_request(&mut slot, &second);
    // The later request is still acknowledged, but the slot keeps the
    // first writer's value.
    assert_eq!(resp, "Received code: SECOND");
    assert_eq!(slot.result.unwrap().code.as_deref(), Some("FIRST"));
}

#[test]
fn record_is_write_once() {
    let mut slot = CallbackSlot::new();
    let params_a = parse_query("code=A");
    let params_b = parse_query("code=B");
    slot.record(callback_outcome(&params_a));
    slot.record(callback_outcome(&params_b));
    assert_eq!(slot.result.unwrap().code.as_deref(), Some("A"));
}
