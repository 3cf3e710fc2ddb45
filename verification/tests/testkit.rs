use graphql_testkit::Argument;
use graphql_testkit::Expected;
use graphql_testkit::GraphQLResponseError;
use graphql_testkit::GraphQLResponseReciever;
use graphql_testkit::first_error_message;
use graphql_testkit::plan_read;
use graphql_testkit::validate_error_body;
use graphql_testkit::validate_success;
use graphql_testkit::Outcome;
use graphql_testkit::ReadPlan;
use graphql_testkit::STATUS_OK;

fn envelope(data: Option<u64>, msgs: Option<Vec<&str>>) -> GraphQLResponseReciever<u64> {
    GraphQLResponseReciever {
        data,
        errors: msgs.map(|v| {
            v.into_iter()
                .map(|m| GraphQLResponseError { message: m.to_string() })
                .collect()
        }),
    }
}

#[test]
fn get_messages_empty_when_errors_absent() {
    let env = envelope(Some(3), None);
    assert_eq!(env.get_messages(), Vec::<String>::new());
}

#[test]
fn get_messages_preserves_order() {
    let env = envelope(None, Some(vec!["a", "b"]));
    assert_eq!(env.get_messages(), vec!["a".to_string(), "b".to_string()]);
}

#[test]
fn get_data_returns_populated_value() {
    let env = envelope(Some(42), None);
    assert_eq!(*env.get_data(), 42);
}

#[test]
fn success_with_matching_data_passes() {
    let env = envelope(Some(7), None);
    let exp = Expected { status: STATUS_OK, errmsg: None, data: Some(7u64) };
    assert_eq!(plan_read(200, exp.status), ReadPlan::DecodeEnvelope);
    assert_eq!(validate_success(&env, &exp), Outcome::Pass);
}

#[test]
fn success_with_differing_data_fails() {
    let env = envelope(Some(8), None);
    let exp = Expected { status: STATUS_OK, errmsg: None, data: Some(7u64) };
    assert_eq!(validate_success(&env, &exp), Outcome::DataMismatch);
}

#[test]
fn success_with_absent_data_is_a_broken_fixture() {
    let env = envelope(None, None);
    let exp = Expected { status: STATUS_OK, errmsg: None, data: Some(7u64) };
    assert_eq!(validate_success(&env, &exp), Outcome::DataMissing);
}

#[test]
fn success_checks_message_list_exactly() {
    let env = envelope(None, Some(vec!["a", "b"]));
    let exp = Expected::<u64> {
        status: STATUS_OK,
        errmsg: Some(vec!["a".to_string(), "b".to_string()]),
        data: None,
    };
    assert_eq!(validate_success(&env, &exp), Outcome::Pass);

    let shorter = Expected::<u64> {
        status: STATUS_OK,
        errmsg: Some(vec!["a".to_string()]),
        data: None,
    };
    assert_eq!(validate_success(&env, &shorter), Outcome::MessagesMismatch);

    let reordered = Expected::<u64> {
        status: STATUS_OK,
        errmsg: Some(vec!["b".to_string(), "a".to_string()]),
        data: None,
    };
    assert_eq!(validate_success(&env, &reordered), Outcome::MessagesMismatch);
}

#[test]
fn absent_expectation_fields_mean_dont_care() {
    let env = envelope(Some(9), Some(vec!["oops"]));
    let exp = Expected::<u64> { status: STATUS_OK, errmsg: None, data: None };
    assert_eq!(validate_success(&env, &exp), Outcome::Pass);
}

#[test]
fn status_mismatch_is_diagnosed_without_decoding() {
    assert_eq!(plan_read(404, 200), ReadPlan::Diagnose);
    assert_eq!(plan_read(200, 400), ReadPlan::Diagnose);
}

#[test]
fn error_path_reads_raw_text() {
    assert_eq!(plan_read(400, 400), ReadPlan::RawText);
    assert_eq!(plan_read(500, 500), ReadPlan::RawText);
}

#[test]
fn error_body_must_match_exactly() {
    let exp = Expected::<u64> {
        status: 400,
        errmsg: Some(vec!["bad input".to_string()]),
        data: None,
    };
    let msg = first_error_message(&exp).unwrap();
    assert_eq!(
        validate_error_body(&msg, &"bad input".to_string()),
        Outcome::Pass
    );
    assert_eq!(
        validate_error_body(&msg, &"bad inputs".to_string()),
        Outcome::BodyMismatch
    );
}

#[test]
fn error_path_checks_only_the_first_message() {
    let exp = Expected::<u64> {
        status: 400,
        errmsg: Some(vec!["first".to_string(), "second".to_string()]),
        data: None,
    };
    let msg = first_error_message(&exp).unwrap();
    assert_eq!(msg, "first");
    assert_eq!(
        validate_error_body(&msg, &"second".to_string()),
        Outcome::BodyMismatch
    );
}

#[test]
fn missing_error_expectation_is_fatal() {
    let none = Expected::<u64> { status: 400, errmsg: None, data: None };
    assert!(first_error_message(&none).is_none());

    let empty = Expected::<u64> {
        status: 400,
        errmsg: Some(Vec::new()),
        data: None,
    };
    assert!(first_error_message(&empty).is_none());
}

#[test]
fn identical_inputs_give_identical_verdicts() {
    let env = envelope(Some(7), Some(vec!["a"]));
    let exp = Expected {
        status: STATUS_OK,
        errmsg: Some(vec!["a".to_string()]),
        data: Some(7u64),
    };
    let first = validate_success(&env, &exp);
    let second = validate_success(&env, &exp);
    assert_eq!(first, second);
    assert_eq!(first, Outcome::Pass);
}

#[test]
fn argument_carries_headers_and_payload() {
    let arg = Argument {
        headers: vec![("content-type".to_string(), "application/json".to_string())],
        payload: "{ hero { name } }".to_string(),
    };
    assert_eq!(arg.headers.len(), 1);
    assert_eq!(arg.payload, "{ hero { name } }");
}
