use winterjs::error::{Error, ErrorKind, HandlerError};
use winterjs::request_handlers::service_workers::{build_response, start_request, Reaction};
use winterjs::request_handlers::wintercg::{new_handler, Initialized, WinterCGRequestHandler};
use winterjs::request_handlers::{Either, Evaluation, PendingResponse, ReadyResponse, UserCode};
use winterjs::value::{Object, Value};

fn script(code: &str, file_name: &str) -> UserCode {
    UserCode::Script { code: code.to_string(), file_name: file_name.to_string() }
}

fn response_object(status: i64, body: &str) -> Object {
    let mut object = Object::new();
    object.set("status", Value::Number(status));
    object.set("body", Value::String(body.to_string()));
    object
}

fn initialized() -> WinterCGRequestHandler<Initialized> {
    new_handler()
        .evaluate_scripts(&script("respond with Response('ok')", "a.js"), Ok(()))
        .unwrap()
}

fn ready(status: u16, body: &str) -> Result<Either<PendingResponse, ReadyResponse>, HandlerError> {
    Ok(Either::Right(ReadyResponse { status, body: body.to_string() }))
}

#[test]
fn script_that_answers_at_once_gives_a_ready_response() {
    let code = script("respond with Response('ok')", "a.js");
    let handler = new_handler();
    assert_eq!(
        handler.evaluation(&code),
        Ok(Evaluation::Script { code: "respond with Response('ok')", file_name: "a.js" })
    );
    let mut handler = handler.evaluate_scripts(&code, Ok(())).unwrap();
    let outcome = handler
        .start_handling_request(Reaction::Responded(Value::Object(response_object(200, "ok"))));
    match outcome {
        Ok(Either::Right(response)) => {
            assert_eq!(response.body, "ok");
            assert_eq!(response.status, 200);
        }
        other => panic!("expected a ready response, got {:?}", other),
    }
}

#[test]
fn deferred_answer_is_pending_until_it_is_fulfilled() {
    let mut handler = initialized();
    let started = handler.start_handling_request(Reaction::Deferred(7));
    assert_eq!(started, Ok(Either::Left(PendingResponse { promise: 7 })));
    let finished = handler.finish_fulfilled_request(Value::Object(response_object(200, "done")));
    assert_eq!(finished, ready(200, "done"));
}

#[test]
fn fulfilled_number_is_not_an_object() {
    let mut handler = initialized();
    let error = handler.finish_fulfilled_request(Value::Number(42)).unwrap_err();
    assert_eq!(error, HandlerError::NotAnObject);
    assert_eq!(error.message(), "Script error: value provided to respondWith was not an object");
}

#[test]
fn fulfilled_value_of_any_other_shape_is_not_an_object() {
    let mut handler = initialized();
    let values = vec![
        Value::Undefined,
        Value::Null,
        Value::Boolean(true),
        Value::Boolean(false),
        Value::Number(0),
        Value::Number(-1),
        Value::String(String::new()),
        Value::String("{\"status\": 200}".to_string()),
    ];
    for value in values {
        assert_eq!(handler.finish_fulfilled_request(value), Err(HandlerError::NotAnObject));
    }
}

#[test]
fn failed_request_leaves_the_handler_in_service() {
    let mut handler = initialized();
    assert!(handler.finish_fulfilled_request(Value::String("late".to_string())).is_err());
    assert_eq!(
        handler.finish_fulfilled_request(Value::Object(response_object(201, "made"))),
        ready(201, "made")
    );
    assert_eq!(
        handler.start_handling_request(Reaction::Deferred(1)),
        Ok(Either::Left(PendingResponse { promise: 1 }))
    );
}

#[test]
fn settled_object_gives_what_the_same_object_gives_at_once() {
    let mut handler = initialized();
    let settled = handler.finish_fulfilled_request(Value::Object(response_object(404, "gone")));
    let at_once = handler
        .start_handling_request(Reaction::Responded(Value::Object(response_object(404, "gone"))));
    assert_eq!(settled, ready(404, "gone"));
    assert_eq!(settled, at_once);
}

#[test]
fn fulfilled_request_is_never_pending() {
    let mut handler = initialized();
    for status in [0_i64, 200, 599, 65535] {
        let outcome = handler.finish_fulfilled_request(Value::Object(response_object(status, "")));
        assert!(matches!(outcome, Ok(Either::Right(_))));
    }
}

#[test]
fn value_answered_at_once_must_be_an_object_too() {
    let mut handler = initialized();
    assert_eq!(
        handler.start_handling_request(Reaction::Responded(Value::Number(42))),
        Err(HandlerError::NotAnObject)
    );
}

#[test]
fn request_left_to_default_handling_is_ready() {
    let mut handler = initialized();
    let default = ReadyResponse { status: 404, body: "Not Found".to_string() };
    assert_eq!(handler.start_handling_request(Reaction::Unhandled(default)), ready(404, "Not Found"));
}

#[test]
fn failure_of_the_script_fails_the_request() {
    let mut handler = initialized();
    let thrown = Error::new("boom", ErrorKind::Type);
    let error = handler.start_handling_request(Reaction::Failed(thrown)).unwrap_err();
    assert_eq!(error, HandlerError::Script(Error::new("boom", ErrorKind::Type)));
    assert_eq!(error.message(), "boom");
}

#[test]
fn start_request_is_what_the_handler_does() {
    assert_eq!(start_request(Reaction::Deferred(3)), Ok(Either::Left(PendingResponse { promise: 3 })));
    assert_eq!(
        start_request(Reaction::Responded(Value::Object(response_object(200, "ok")))),
        ready(200, "ok")
    );
}

#[test]
fn evaluate_rejects_a_directory() {
    let code = UserCode::Directory("/srv/app".to_string());
    assert_eq!(new_handler().evaluation(&code), Err(HandlerError::DirectoriesNotSupported));
    let error = new_handler().evaluate_scripts(&code, Ok(())).err().unwrap();
    assert_eq!(error, HandlerError::DirectoriesNotSupported);
    assert_eq!(error.message(), "WinterCG mode does not support directories");
    let failed = Err(Error::new("never ran", ErrorKind::Normal));
    assert_eq!(
        new_handler().evaluate_scripts(&code, failed).err(),
        Some(HandlerError::DirectoriesNotSupported)
    );
    let empty = UserCode::Directory(String::new());
    assert_eq!(
        new_handler().evaluate_scripts(&empty, Ok(())).err(),
        Some(HandlerError::DirectoriesNotSupported)
    );
}

#[test]
fn evaluate_accepts_a_module() {
    let code = UserCode::Module("/srv/app/main.mjs".to_string());
    let handler = new_handler();
    assert_eq!(handler.evaluation(&code), Ok(Evaluation::Module("/srv/app/main.mjs")));
    assert!(handler.evaluate_scripts(&code, Ok(())).is_ok());
}

#[test]
fn evaluate_hands_on_the_failure_of_the_engine() {
    let code = script("throw 1", "bad.js");
    let failed = Err(Error::new("SyntaxError: unexpected token", ErrorKind::Syntax));
    let error = new_handler().evaluate_scripts(&code, failed).err().unwrap();
    assert_eq!(
        error,
        HandlerError::Script(Error::new("SyntaxError: unexpected token", ErrorKind::Syntax))
    );
    assert_eq!(error.message(), "SyntaxError: unexpected token");
}

#[test]
fn specialize_rejects_a_module_whatever_its_path() {
    for path in ["/srv/app/main.mjs", "", "no such file", "./a.js"] {
        let code = UserCode::Module(path.to_string());
        assert_eq!(
            new_handler().specialization(&code),
            Err(HandlerError::ModulesNotSpecializable)
        );
        let error = new_handler().specialize_with_scripts(&code, Ok(())).err().unwrap();
        assert_eq!(error, HandlerError::ModulesNotSpecializable);
        assert_eq!(error.message(), "Modules cannot be specialized yet");
        let failed = Err(Error::new("never ran", ErrorKind::Normal));
        assert_eq!(
            new_handler().specialize_with_scripts(&code, failed).err(),
            Some(HandlerError::ModulesNotSpecializable)
        );
    }
}

#[test]
fn specialize_rejects_a_directory() {
    let code = UserCode::Directory("/srv/app".to_string());
    assert_eq!(
        new_handler().specialize_with_scripts(&code, Ok(())).err(),
        Some(HandlerError::ModulesNotSpecializable)
    );
}

#[test]
fn specialize_accepts_a_script() {
    let code = script("globalThis.extra = 1", "extra.js");
    let handler = new_handler();
    assert_eq!(
        handler.specialization(&code),
        Ok(Evaluation::Script { code: "globalThis.extra = 1", file_name: "extra.js" })
    );
    let mut handler = handler.specialize_with_scripts(&code, Ok(())).unwrap();
    assert_eq!(
        handler.finish_fulfilled_request(Value::Object(response_object(200, "ok"))),
        ready(200, "ok")
    );
}

#[test]
fn specialize_hands_on_the_failure_of_the_engine() {
    let code = script("throw 1", "bad.js");
    let failed = Err(Error::new("uncaught 1", ErrorKind::Normal));
    assert_eq!(
        new_handler().specialize_with_scripts(&code, failed).err(),
        Some(HandlerError::Script(Error::new("uncaught 1", ErrorKind::Normal)))
    );
}

#[test]
fn object_without_a_status_is_no_response() {
    let mut object = Object::new();
    object.set("body", Value::String("done".to_string()));
    let error = build_response(&object).unwrap_err();
    assert_eq!(error, HandlerError::NotAResponse);
    assert_eq!(error.message(), "Script error: object provided to respondWith was not a response");
    assert_eq!(build_response(&Object::new()), Err(HandlerError::NotAResponse));
}

#[test]
fn object_without_a_body_is_no_response() {
    let mut object = Object::new();
    object.set("status", Value::Number(200));
    assert_eq!(build_response(&object), Err(HandlerError::NotAResponse));
}

#[test]
fn status_must_be_a_number_that_is_a_status_code() {
    let mut handler = initialized();
    for status in [-1_i64, 65536, i64::MAX, i64::MIN] {
        assert_eq!(
            handler.finish_fulfilled_request(Value::Object(response_object(status, "x"))),
            Err(HandlerError::NotAResponse)
        );
    }
    let mut object = Object::new();
    object.set("status", Value::String("200".to_string()));
    object.set("body", Value::String("x".to_string()));
    assert_eq!(build_response(&object), Err(HandlerError::NotAResponse));
    assert_eq!(build_response(&response_object(0, "x")), Ok(ReadyResponse { status: 0, body: "x".to_string() }));
    assert_eq!(
        build_response(&response_object(65535, "x")),
        Ok(ReadyResponse { status: 65535, body: "x".to_string() })
    );
}

#[test]
fn body_must_be_a_string() {
    let mut object = Object::new();
    object.set("status", Value::Number(200));
    object.set("body", Value::Number(7));
    assert_eq!(build_response(&object), Err(HandlerError::NotAResponse));
    object.set("body", Value::Object(Object::new()));
    assert_eq!(build_response(&object), Err(HandlerError::NotAResponse));
}

#[test]
fn response_takes_the_last_definition_of_a_member() {
    let mut object = response_object(200, "first");
    object.set("status", Value::Number(503));
    object.set("body", Value::String("second".to_string()));
    object.set("headers", Value::Null);
    assert_eq!(build_response(&object), Ok(ReadyResponse { status: 503, body: "second".to_string() }));
}

#[test]
fn standard_modules_report_how_the_installation_went() {
    let modules = new_handler().get_standard_modules();
    assert!(modules.init_globals(true));
    assert!(!modules.init_globals(false));
    assert!(modules.init_modules(true));
    assert!(!modules.init_modules(false));
}

#[test]
fn handlers_are_independent() {
    let first = new_handler();
    let second = new_handler();
    assert!(first.evaluate_scripts(&UserCode::Directory("d".to_string()), Ok(())).is_err());
    assert!(second.evaluate_scripts(&script("1", "one.js"), Ok(())).is_ok());
}
