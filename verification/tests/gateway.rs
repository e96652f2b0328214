use estore_auth::error::AppError;
use estore_auth::gateway::{
    is_auth_error, is_success, Reply, Request, Verdict, MAX_REFRESH_ATTEMPTS,
};
use estore_auth::model::ApiResponse;

fn reply(status: u16, code: Option<u16>, success: bool, message: &str) -> Reply {
    Reply { status, code, success, message: message.to_string() }
}

struct Trace {
    sends: Vec<Option<String>>,
    refreshes: usize,
    result: Result<(), AppError>,
}

/// Runs one request against an endpoint and a refresh routine, the way a
/// caller with a real network would.
fn drive(
    header: Option<String>,
    retry: bool,
    mut endpoint: impl FnMut(usize, &Option<String>) -> Reply,
    mut refresh: impl FnMut(usize) -> Result<String, AppError>,
) -> Trace {
    let mut request = Request::new(header, retry);
    let mut sends = Vec::new();
    let mut refreshes = 0usize;
    loop {
        assert!(sends.len() < 100, "the gateway must stop");
        let header = request.header();
        let answer = endpoint(sends.len(), &header);
        sends.push(header);
        match request.on_response(answer) {
            Verdict::Deliver => return Trace { sends, refreshes, result: Ok(()) },
            Verdict::Fail(error) => return Trace { sends, refreshes, result: Err(error) },
            Verdict::Refresh(waiting) => {
                refreshes += 1;
                match refresh(refreshes) {
                    Ok(header) => {
                        request = waiting.renewed(header);
                        assert_eq!(request.refresh_attempts(), refreshes);
                    }
                    Err(cause) => {
                        return Trace { sends, refreshes, result: Err(waiting.failed(cause)) }
                    }
                }
            }
        }
    }
}

#[test]
fn bound_is_three() {
    assert_eq!(MAX_REFRESH_ATTEMPTS, 3);
}

#[test]
fn auth_errors_are_401_and_403() {
    assert!(is_auth_error(401));
    assert!(is_auth_error(403));
    for status in [0u16, 200, 400, 402, 404, 500, 65535] {
        assert!(!is_auth_error(status));
    }
}

#[test]
fn always_rejected_refreshes_three_times_then_fails() {
    let trace = drive(
        Some("Bearer old".to_string()),
        true,
        |_, _| reply(401, Some(40101), false, "token expired"),
        |n| Ok(format!("Bearer new{}", n)),
    );
    assert_eq!(trace.refreshes, 3);
    assert_eq!(trace.sends.len(), 4);
    assert_eq!(
        trace.sends,
        vec![
            Some("Bearer old".to_string()),
            Some("Bearer new1".to_string()),
            Some("Bearer new2".to_string()),
            Some("Bearer new3".to_string()),
        ]
    );
    match trace.result {
        Err(AppError::Api { code, message }) => {
            assert_eq!(code, 40101);
            assert_eq!(message, "token expired");
        }
        other => panic!("unexpected: {:?}", other),
    }
}

#[test]
fn always_forbidden_uses_status_when_no_code_is_supplied() {
    let trace = drive(
        Some("Bearer old".to_string()),
        true,
        |_, _| reply(403, None, false, "forbidden"),
        |_| Ok("Bearer again".to_string()),
    );
    assert_eq!(trace.refreshes, 3);
    assert_eq!(trace.sends.len(), 4);
    match trace.result {
        Err(AppError::Api { code, message }) => {
            assert_eq!(code, 403);
            assert_eq!(message, "forbidden");
        }
        other => panic!("unexpected: {:?}", other),
    }
}

#[test]
fn first_success_needs_no_refresh() {
    let trace = drive(
        Some("Bearer ok".to_string()),
        true,
        |_, _| reply(200, Some(200), true, "OK"),
        |_| panic!("no refresh may happen"),
    );
    assert_eq!(trace.refreshes, 0);
    assert_eq!(trace.sends.len(), 1);
    assert!(trace.result.is_ok());
}

#[test]
fn success_after_one_refresh_is_delivered() {
    let trace = drive(
        Some("Bearer old".to_string()),
        true,
        |_, header| {
            if header.as_deref() == Some("Bearer fresh") {
                reply(200, Some(200), true, "OK")
            } else {
                reply(401, Some(401), false, "expired")
            }
        },
        |_| Ok("Bearer fresh".to_string()),
    );
    assert_eq!(trace.refreshes, 1);
    assert_eq!(trace.sends.len(), 2);
    assert!(trace.result.is_ok());
}

#[test]
fn failed_refresh_is_terminal() {
    let trace = drive(
        Some("Bearer old".to_string()),
        true,
        |_, _| reply(401, Some(401), false, "expired"),
        |_| Err(AppError::api(401, "refresh token revoked".to_string())),
    );
    assert_eq!(trace.refreshes, 1);
    assert_eq!(trace.sends.len(), 1);
    match trace.result {
        Err(AppError::Api { code, message }) => {
            assert_eq!(code, 401);
            assert_eq!(message, "refresh token revoked");
        }
        other => panic!("unexpected: {:?}", other),
    }
}

#[test]
fn call_that_did_not_opt_in_never_refreshes() {
    let trace = drive(
        Some("Bearer old".to_string()),
        false,
        |_, _| reply(401, Some(401), false, "expired"),
        |_| panic!("no refresh may happen"),
    );
    assert_eq!(trace.refreshes, 0);
    assert_eq!(trace.sends.len(), 1);
    assert!(matches!(trace.result, Err(AppError::Api { code: 401, .. })));
}

#[test]
fn call_without_header_never_refreshes() {
    let trace = drive(
        None,
        true,
        |_, _| reply(401, None, false, "login first"),
        |_| panic!("no refresh may happen"),
    );
    assert_eq!(trace.refreshes, 0);
    assert_eq!(trace.sends, vec![None]);
    assert!(matches!(trace.result, Err(AppError::Api { code: 401, .. })));
}

#[test]
fn other_failures_are_not_retried() {
    for status in [400u16, 404, 409, 500, 503] {
        let trace = drive(
            Some("Bearer t".to_string()),
            true,
            |_, _| reply(status, None, false, "nope"),
            |_| panic!("no refresh may happen"),
        );
        assert_eq!(trace.sends.len(), 1);
        match trace.result {
            Err(AppError::Api { code, message }) => {
                assert_eq!(code, status);
                assert_eq!(message, "nope");
            }
            other => panic!("unexpected: {:?}", other),
        }
    }
}

#[test]
fn success_status_with_failed_envelope_is_an_api_error() {
    let request = Request::new(Some("Bearer t".to_string()), true);
    match request.on_response(reply(200, Some(1001), false, "out of stock")) {
        Verdict::Fail(AppError::Api { code, message }) => {
            assert_eq!(code, 1001);
            assert_eq!(message, "out of stock");
        }
        _ => panic!("an Api error was expected"),
    }
}

#[test]
fn failure_status_with_success_envelope_is_an_api_error() {
    let request = Request::new(None, false);
    assert!(matches!(
        request.on_response(reply(500, None, true, "odd")),
        Verdict::Fail(AppError::Api { code: 500, .. })
    ));
    let edge = Request::new(None, false);
    assert!(matches!(
        edge.on_response(reply(300, None, true, "moved")),
        Verdict::Fail(AppError::Api { code: 300, .. })
    ));
    let low = Request::new(None, false);
    assert!(matches!(
        low.on_response(reply(199, None, true, "early")),
        Verdict::Fail(AppError::Api { code: 199, .. })
    ));
}

#[test]
fn any_2xx_with_success_is_delivered() {
    for status in [200u16, 201, 204, 299] {
        let request = Request::new(None, false);
        assert!(matches!(request.on_response(reply(status, None, true, "")), Verdict::Deliver));
    }
}

#[test]
fn new_request_has_not_refreshed() {
    let request = Request::new(Some("Bearer x".to_string()), true);
    assert_eq!(request.refresh_attempts(), 0);
    assert_eq!(request.header(), Some("Bearer x".to_string()));
}

#[test]
fn reply_takes_code_flag_and_message_from_the_envelope() {
    let envelope = ApiResponse::new(40101, "token expired".to_string(), false, Some(3u8));
    let reply = Reply::of(401, &envelope);
    assert_eq!(reply.status, 401);
    assert_eq!(reply.code, Some(40101));
    assert!(!reply.success);
    assert_eq!(reply.message, "token expired");
    match Request::new(None, true).on_response(reply) {
        Verdict::Fail(AppError::Api { code, message }) => {
            assert_eq!(code, 40101);
            assert_eq!(message, "token expired");
        }
        _ => panic!("an Api error was expected"),
    }
}

#[test]
fn success_statuses_are_200_to_299() {
    for status in [200u16, 204, 250, 299] {
        assert!(is_success(status));
    }
    for status in [0u16, 100, 199, 300, 401, 500, 65535] {
        assert!(!is_success(status));
    }
}

#[test]
fn failed_refresh_hands_the_cause_on_unchanged() {
    let request = Request::new(Some("Bearer old".to_string()), true);
    let waiting = match request.on_response(reply(401, None, false, "expired")) {
        Verdict::Refresh(waiting) => waiting,
        _ => panic!("a refresh was expected"),
    };
    match waiting.failed(AppError::Network("connection reset".to_string())) {
        AppError::Network(text) => assert_eq!(text, "connection reset"),
        other => panic!("unexpected: {:?}", other),
    }
    let request = Request::new(Some("Bearer old".to_string()), true);
    let waiting = match request.on_response(reply(403, None, false, "expired")) {
        Verdict::Refresh(waiting) => waiting,
        _ => panic!("a refresh was expected"),
    };
    assert!(matches!(waiting.failed(AppError::CorruptedStore), AppError::CorruptedStore));
}
