use daemon_gateway::{
    auth_stdin_handler, daemon_outcome, stdin_handler, Action, Event, Exchange, Failure, Media,
    Response, Status,
};
use serde_json::{Number, Value};

fn object(entries: Vec<(&str, Value)>) -> Value {
    let mut map = serde_json::Map::new();
    for (key, value) in entries {
        map.insert(key.to_string(), value);
    }
    Value::Object(map)
}

/// Carries a decoded request through the handler with a daemon that answers
/// `result`, and counts the daemon's calls.
fn handle(query: Result<&str, String>, result: Result<Value, String>, calls: &mut usize) -> Response {
    let (mut exchange, mut action) = stdin_handler(query);
    let mut result = Some(result);
    loop {
        let event = match action {
            Action::Respond(response) => return response,
            Action::Release(response) => return response,
            Action::Acquire => Event::Granted,
            Action::Run(params) => {
                assert_eq!(params, "cmd=ls");
                *calls += 1;
                Event::Returned(daemon_outcome(result.take().unwrap()))
            }
            Action::Nothing => panic!("the exchange is stuck"),
        };
        let moved = exchange.step(event);
        exchange = moved.0;
        action = moved.1;
    }
}

#[test]
fn daemon_result_is_wrapped_in_the_envelope() {
    let mut calls = 0;
    let value = object(vec![("x", Value::Number(Number::from(1)))]);
    let response = handle(Ok("cmd=ls"), Ok(value), &mut calls);
    assert_eq!(response.status, Status::Success);
    assert_eq!(response.status.code(), 200);
    assert_eq!(response.media, Media::Json);
    assert_eq!(response.body, "{\"status\":\"success\",\"data\":{\"x\":1}}");
    assert_eq!(calls, 1);
}

#[test]
fn envelope_reads_back_as_status_and_data() {
    let mut calls = 0;
    let value = object(vec![
        ("list", Value::Array(vec![Value::Null, Value::Bool(true), Value::from("a\"b")])),
        ("n", Value::from(-3)),
    ]);
    let response = handle(Ok("cmd=ls"), Ok(value.clone()), &mut calls);
    let read: Value = serde_json::from_str(&response.body).unwrap();
    assert_eq!(read, object(vec![("status", Value::from("success")), ("data", value)]));
    assert!(response.body.starts_with("{\"status\":\"success\",\"data\":"));
}

#[test]
fn envelope_around_every_kind_of_value() {
    assert_eq!(Response::success("null").body, "{\"status\":\"success\",\"data\":null}");
    assert_eq!(Response::success("[1,2]").body, "{\"status\":\"success\",\"data\":[1,2]}");
    assert_eq!(Response::success("\"é\"").body, "{\"status\":\"success\",\"data\":\"é\"}");
    assert_eq!(daemon_outcome(Ok(Value::Null)), Ok("null".to_string()));
    assert_eq!(daemon_outcome(Ok(Value::from("text"))), Ok("\"text\"".to_string()));
    assert_eq!(daemon_outcome(Ok(Value::Array(vec![]))), Ok("[]".to_string()));
    assert_eq!(daemon_outcome(Ok(object(vec![]))), Ok("{}".to_string()));
    assert_eq!(daemon_outcome(Ok(Value::from(1.5))), Ok("1.5".to_string()));
}

#[test]
fn daemon_failure_is_a_500_with_its_description() {
    let mut calls = 0;
    let response = handle(Ok("cmd=ls"), Err("daemon went away".to_string()), &mut calls);
    assert_eq!(
        response,
        Response {
            status: Status::InternalServerError,
            media: Media::PlainText,
            body: "daemon went away".to_string(),
        }
    );
    assert_eq!(response.status.code(), 500);
    assert_eq!(calls, 1);
    assert_eq!(daemon_outcome(Err("x".to_string())), Err("x".to_string()));
}

#[test]
fn malformed_query_is_a_400_and_the_daemon_is_not_called() {
    let mut calls = 0;
    let response = handle(
        Err("Failed to deserialize query string: missing field `cmd`".to_string()),
        Ok(Value::Null),
        &mut calls,
    );
    assert_eq!(
        response,
        Response {
            status: Status::BadRequest,
            media: Media::PlainText,
            body: "Failed to deserialize query string: missing field `cmd`".to_string(),
        }
    );
    assert_eq!(response.status.code(), 400);
    assert_eq!(calls, 0);
}

#[test]
fn malformed_query_closes_the_exchange_at_once() {
    let (exchange, action) = stdin_handler::<u8>(Err("no".to_string()));
    assert_eq!(exchange, Exchange::Closed);
    assert!(matches!(action, Action::Respond(_)));
    let (exchange, action) = exchange.step(Event::Granted);
    assert_eq!((exchange, action), (Exchange::Closed, Action::Nothing));
}

#[test]
fn parameters_reach_the_daemon_unchanged() {
    let (exchange, action) = stdin_handler(Ok(vec![1u8, 2, 3]));
    assert_eq!(exchange, Exchange::Queued(vec![1u8, 2, 3]));
    assert_eq!(action, Action::Acquire);
    let (exchange, action) = exchange.step(Event::Granted);
    assert_eq!(exchange, Exchange::Running);
    assert_eq!(action, Action::Run(vec![1u8, 2, 3]));
}

#[test]
fn cell_is_released_on_success_and_on_failure() {
    let running = || stdin_handler(Ok(0u8)).0.step(Event::Granted).0;
    let (exchange, action) = running().step(Event::Returned(Ok("1".to_string())));
    assert_eq!(exchange, Exchange::Closed);
    assert_eq!(action, Action::Release(Response::success("1")));
    let (exchange, action) = running().step(Event::Returned(Err("boom".to_string())));
    assert_eq!(exchange, Exchange::Closed);
    assert_eq!(action, Action::Release(Failure::Daemon("boom".to_string()).into_response()));
}

#[test]
fn events_out_of_turn_change_nothing() {
    let (queued, _) = stdin_handler(Ok(5u8));
    let (queued, action) = queued.step(Event::Returned(Ok("1".to_string())));
    assert_eq!((&queued, &action), (&Exchange::Queued(5u8), &Action::Nothing));
    let (running, _) = queued.step(Event::Granted);
    let (running, action) = running.step(Event::Granted);
    assert_eq!((&running, &action), (&Exchange::Running, &Action::Nothing));
    let (closed, _) = running.step(Event::Returned(Err("x".to_string())));
    let (closed, action) = closed.step(Event::Returned(Ok("2".to_string())));
    assert_eq!((closed, action), (Exchange::Closed, Action::Nothing));
}

#[test]
fn every_failure_has_its_status_and_body() {
    let cases = [
        (Failure::Unauthorized, Status::Unauthorized, 401, "Unauthorized"),
        (Failure::BadQuery("why".to_string()), Status::BadRequest, 400, "why"),
        (Failure::Daemon("what".to_string()), Status::InternalServerError, 500, "what"),
    ];
    for (failure, status, code, body) in cases {
        assert_eq!(failure.status(), status);
        let response = failure.into_response();
        assert_eq!(response.status, status);
        assert_eq!(response.status.code(), code);
        assert_eq!(response.media, Media::PlainText);
        assert_eq!(response.body, body);
    }
}

#[test]
fn guarded_handler_forwards_a_matching_token_unchanged() {
    let token = "secret".to_string();
    let begun = auth_stdin_handler(&token, Ok(9u8), &Some("secret".to_string()));
    assert_eq!(begun, stdin_handler(Ok(9u8)));
    let begun = auth_stdin_handler::<u8>(&token, Err("bad".to_string()), &Some("secret".to_string()));
    assert_eq!(begun, stdin_handler::<u8>(Err("bad".to_string())));
}

#[test]
fn guarded_handler_turns_other_tokens_away() {
    let token = "secret".to_string();
    for credential in [None, Some("wrong".to_string()), Some(String::new())] {
        let (exchange, action) = auth_stdin_handler(&token, Ok(9u8), &credential);
        assert_eq!(exchange, Exchange::Closed);
        assert_eq!(action, Action::Respond(Failure::Unauthorized.into_response()));
    }
}

#[test]
fn every_daemon_value_is_answered_with_its_envelope() {
    let values = vec![
        Value::Null,
        Value::Bool(false),
        Value::from(0),
        Value::from(u64::MAX),
        Value::from(i64::MIN),
        Value::from(-0.25),
        Value::from(""),
        Value::from("line\nbreak \"quoted\" \\ é 秘"),
        Value::Array(vec![]),
        Value::Array(vec![Value::Array(vec![Value::Null]), object(vec![])]),
        object(vec![("status", Value::from("failure")), ("data", Value::Null)]),
        object(vec![("b", Value::from(2)), ("a", object(vec![("deep", Value::Array(vec![Value::from(1)]))]))]),
    ];
    for value in values {
        let outcome = daemon_outcome(Ok(value.clone()));
        assert_eq!(outcome, Ok(serde_json::to_string(&value).unwrap()));
        let mut calls = 0;
        let response = handle(Ok("cmd=ls"), Ok(value.clone()), &mut calls);
        assert_eq!(calls, 1);
        assert_eq!(response.status, Status::Success);
        assert_eq!(response.media, Media::Json);
        let read: Value = serde_json::from_str(&response.body).unwrap();
        let fields = read.as_object().unwrap();
        assert_eq!(fields.len(), 2);
        assert_eq!(fields.get("status"), Some(&Value::from("success")));
        assert_eq!(fields.get("data"), Some(&value));
    }
}

#[test]
fn guarded_and_open_handlers_answer_alike_once_let_in() {
    let token = "secret".to_string();
    for result in [Ok(Value::from(7)), Err("boom".to_string())] {
        let (guarded, first) = auth_stdin_handler(&token, Ok("cmd=ls"), &Some("secret".to_string()));
        let (open, also_first) = stdin_handler(Ok("cmd=ls"));
        assert_eq!(first, also_first);
        let (guarded, run) = guarded.step(Event::Granted);
        let (open, also_run) = open.step(Event::Granted);
        assert_eq!(run, Action::Run("cmd=ls"));
        assert_eq!(run, also_run);
        let answer = guarded.step(Event::Returned(daemon_outcome(result.clone())));
        let also_answer = open.step(Event::Returned(daemon_outcome(result)));
        assert_eq!(answer, also_answer);
        assert!(matches!(answer.1, Action::Release(_)));
    }
}
