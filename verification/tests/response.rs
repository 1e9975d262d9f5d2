use kv_put::response::{interpret_response, Outcome};

#[test]
fn success_status_reports_success() {
    let outcome = interpret_response(200, "");
    assert!(matches!(outcome, Outcome::Success));
    assert_eq!(outcome.report(), "Success");
}

#[test]
fn rejection_with_parseable_envelope_reports_its_errors() {
    let body = "{\"errors\":[{\"code\":10000,\"message\":\"Authentication error\"}]}";
    let outcome = interpret_response(400, body);
    match &outcome {
        Outcome::Rejection { status, errors } => {
            assert_eq!(*status, 400);
            assert_eq!(errors.len(), 1);
            assert_eq!(errors[0].code, 10000);
            assert_eq!(errors[0].message, "Authentication error");
        }
        Outcome::Success => panic!("a 400 status must be a rejection"),
    }
    let report = outcome.report();
    assert_eq!(report, "HTTP 400\nError 10000: Authentication error");
    assert!(report.contains("10000"));
    assert!(report.contains("Authentication error"));
}

#[test]
fn rejection_with_unparseable_body_reports_no_errors() {
    let outcome = interpret_response(500, "not the error envelope");
    match &outcome {
        Outcome::Rejection { status, errors } => {
            assert_eq!(*status, 500);
            assert!(errors.is_empty());
        }
        Outcome::Success => panic!("a 500 status must be a rejection"),
    }
    assert_eq!(outcome.report(), "HTTP 500");
}

#[test]
fn rejection_keeps_every_error_in_order() {
    let body = "{\"errors\":[{\"code\":7003,\"message\":\"No route\"},{\"code\":10000,\"message\":\"Authentication error\"}]}";
    let outcome = interpret_response(403, body);
    match &outcome {
        Outcome::Rejection { errors, .. } => {
            assert_eq!(errors.len(), 2);
            assert_eq!(errors[0].code, 7003);
            assert_eq!(errors[1].code, 10000);
        }
        Outcome::Success => panic!("a 403 status must be a rejection"),
    }
    assert_eq!(
        outcome.report(),
        "HTTP 403\nError 7003: No route\nError 10000: Authentication error"
    );
}

#[test]
fn boundary_statuses_classify_by_the_success_range() {
    assert!(matches!(interpret_response(299, ""), Outcome::Success));
    assert!(matches!(
        interpret_response(199, ""),
        Outcome::Rejection { .. }
    ));
    assert!(matches!(
        interpret_response(300, ""),
        Outcome::Rejection { .. }
    ));
}
