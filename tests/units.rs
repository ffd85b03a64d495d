use rocketjson::bad_request::{bad_request_catcher, render_bad_request, BadRequestError};
use rocketjson::error_handling::{request_catcher, DefaultError};
use rocketjson::ingest::{
    decode_gate, ingest, settle, str_eq_ignore_case, validation_gate, ContextState, Disposition,
    MediaType, MissingContext, Outcome,
};
use rocketjson::json::error_body;
use rocketjson::slot::ErrorSlot;
use rocketjson::status::Status;
use rocketjson::validation::{FieldViolation, ParamValue, ValidationErrorSet};
use rocketjson::{ApiError, ApiErrors, ApiErrorsCreate, ApiResponseErr, JsonBodyError};

fn media(top: &str, sub: &str) -> Option<MediaType> {
    Some(MediaType::new(String::from(top), String::from(sub)))
}

fn violation(code: &str) -> FieldViolation {
    FieldViolation::new(String::from(code))
}

#[test]
fn json_media_type_ignores_case() {
    assert!(MediaType::new(String::from("Application"), String::from("JSON")).is_json());
    assert!(!MediaType::new(String::from("text"), String::from("json")).is_json());
    assert!(!MediaType::new(String::from("application"), String::from("jsonx")).is_json());
    assert!(str_eq_ignore_case("aBc", "AbC"));
    assert!(!str_eq_ignore_case("a[", "a{"));
}

#[test]
fn non_json_body_is_forwarded() {
    let outcome = decode_gate(&media("text", "plain"), Some(1u8));
    assert!(matches!(outcome, Outcome::NotApplicable));
    let outcome = decode_gate::<u8>(&None, Some(1u8));
    assert!(matches!(outcome, Outcome::NotApplicable));
    let mut slot = ErrorSlot::new();
    let disposition = settle(outcome, &mut slot);
    assert!(matches!(disposition, Disposition::Forward));
    assert!(matches!(slot.get(), JsonBodyError::NoError));
}

#[test]
fn decoded_json_body_is_accepted() {
    let outcome = decode_gate(&media("application", "json"), Some(7u8));
    assert!(matches!(outcome, Outcome::Accepted(7)));
}

#[test]
fn validation_gate_passes_without_violations() {
    assert_eq!(validation_gate(5u8, vec![]).unwrap(), 5);
}

#[test]
fn validation_gate_keeps_every_violation() {
    let detected = vec![
        (String::from("name"), violation("length")),
        (String::from("age"), violation("range")),
        (String::from("name"), violation("regex")),
    ];
    let set = validation_gate(0u8, detected).unwrap_err();
    assert_eq!(set.len(), 2);
    let entries = set.entries();
    assert_eq!(entries[0].field, "name");
    assert_eq!(entries[0].violations.len(), 2);
    assert_eq!(entries[0].violations[0].code, "length");
    assert_eq!(entries[0].violations[1].code, "regex");
    assert_eq!(entries[1].field, "age");
    assert_eq!(entries[1].violations[0].code, "range");
    assert_eq!(
        set.to_json(),
        "{\"name\":[{\"code\":\"length\",\"message\":null,\"params\":{}},{\"code\":\"regex\",\"message\":null,\"params\":{}}],\"age\":[{\"code\":\"range\",\"message\":null,\"params\":{}}]}"
    );
}

#[test]
fn missing_context_is_a_setup_fault() {
    let detected = vec![(String::from("name"), violation("length"))];
    let r = ingest(&media("application", "json"), Some(1u8), ContextState::Missing, detected);
    assert!(matches!(r, Err(MissingContext)));
    let r = ingest(&media("application", "json"), Some(1u8), ContextState::Available, vec![]);
    assert!(matches!(r, Ok(Outcome::Accepted(1))));
}

#[test]
fn error_slot_keeps_first_error() {
    let mut slot = ErrorSlot::new();
    assert!(slot.set(JsonBodyError::CustomError(String::from("first"))));
    assert!(!slot.set(JsonBodyError::JsonValidationError));
    match slot.get() {
        JsonBodyError::CustomError(m) => assert_eq!(m, "first"),
        other => panic!("unexpected {:?}", other),
    }
}

#[test]
fn custom_error_rendered_at_given_status() {
    let mut slot = ErrorSlot::new();
    slot.set(JsonBodyError::CustomError(String::from("Custom error occured")));
    let rendered = request_catcher(Status::new(401), &slot);
    assert_eq!(rendered.status.code, 401);
    assert_eq!(rendered.body, "{\"error\":\"Custom error occured\"}");
}

#[test]
fn unknown_status_without_reason() {
    let rendered = request_catcher(Status::new(699), &ErrorSlot::new());
    assert_eq!(rendered.status.code, 699);
    assert_eq!(rendered.body, "{\"error\":\"Unknown error: 699\"}");
    let rendered = request_catcher(Status::bad_request(), &ErrorSlot::new());
    assert_eq!(rendered.body, "{\"error\":\"Bad Request\"}");
}

#[test]
fn reason_phrases_come_from_the_status_table() {
    assert_eq!(Status::internal_server_error().reason().unwrap(), "Internal Server Error");
    assert!(Status::new(42).reason().is_none());
}

#[test]
fn validation_errors_rendered_at_400_whatever_the_status() {
    let mut set = ValidationErrorSet::new();
    set.add(String::from("email"), violation("email"));
    let mut slot = ErrorSlot::new();
    slot.set(JsonBodyError::ValidationError(set));
    let rendered = request_catcher(Status::new(422), &slot);
    assert_eq!(rendered.status.code, 400);
    assert_eq!(rendered.body, "{\"email\":[{\"code\":\"email\",\"message\":null,\"params\":{}}]}");
}

#[test]
fn rendering_twice_gives_same_bytes() {
    let response: ApiResponseErr<u8> = ApiResponseErr::api_err(Status::new(403), String::from("denied"));
    let first = response.error_body().unwrap();
    let second = response.error_body().unwrap();
    assert_eq!(first, second);
    assert_eq!(first, "{\"error\":\"denied\"}");
    assert_eq!(response.get_status().code, 403);
}

#[test]
fn error_without_status_uses_its_own() {
    let response: ApiResponseErr<u8> =
        ApiResponseErr::err(ApiErrors::ApiError(ApiError::new(Status::new(404), String::from("no user"))));
    assert_eq!(response.get_status().code, 404);
    let explicit: ApiResponseErr<u8> = ApiResponseErr {
        json: Err(ApiErrors::DieselError(diesel::result::Error::NotFound)),
        status: Some(Status::new(503)),
    };
    assert_eq!(explicit.get_status().code, 503);
}

#[test]
fn success_envelope_keeps_payload() {
    let response = ApiResponseErr::ok(Status::new(201), 9u8);
    assert!(response.error_body().is_none());
    let (status, body) = response.into_response();
    assert_eq!(status.code, 201);
    assert_eq!(body.unwrap(), 9);
}

#[test]
fn conversions_pick_the_matching_variant() {
    let e = <ApiErrors as ApiErrorsCreate<diesel::result::Error>>::to_rocketjson_error(diesel::result::Error::NotFound);
    assert!(matches!(e, ApiErrors::DieselError(_)));
    let e = <ApiErrors as ApiErrorsCreate<sqlx::Error>>::to_rocketjson_error(sqlx::Error::RowNotFound);
    assert!(matches!(e, ApiErrors::SqlxError(_)));
    let e = <ApiErrors as ApiErrorsCreate<ApiError>>::to_rocketjson_error(ApiError::new(Status::new(418), String::from("tea")));
    let rendered = e.render();
    assert_eq!(rendered.status.code, 418);
    assert_eq!(rendered.body, "{\"error\":\"tea\"}");
}

#[test]
fn message_text_is_escaped() {
    assert_eq!(error_body("a\"b\\c\n"), "{\"error\":\"a\\\"b\\\\c\\n\"}");
    assert_eq!(DefaultError::new(String::from("x")).to_json(), "{\"error\":\"x\"}");
    assert_eq!(error_body("\u{8}\u{c}\r\t\u{1}\u{1f}/é"), "{\"error\":\"\\b\\f\\r\\t\\u0001\\u001f/é\"}");
}

#[test]
fn parameters_render_as_json_scalars() {
    let mut v = violation("range").with_message(String::from("out of range"));
    v.add_param(String::from("min"), ParamValue::Int(-42));
    v.add_param(String::from("max"), ParamValue::Int(1234567));
    v.add_param(String::from("strict"), ParamValue::Bool(true));
    v.add_param(String::from("hint"), ParamValue::Null);
    v.add_param(String::from("step"), ParamValue::Json(String::from("0.5")));
    assert_eq!(
        v.to_json(),
        "{\"code\":\"range\",\"message\":\"out of range\",\"params\":{\"min\":-42,\"max\":1234567,\"strict\":true,\"hint\":null,\"step\":0.5}}"
    );
    let mut w = violation("x");
    w.add_param(String::from("n"), ParamValue::Int(i64::MIN));
    assert_eq!(w.to_json(), "{\"code\":\"x\",\"message\":null,\"params\":{\"n\":-9223372036854775808}}");
}

#[test]
fn bad_request_slot_without_violations() {
    let rendered = render_bad_request(&ErrorSlot::new());
    assert_eq!(rendered.status.code, 400);
    assert_eq!(rendered.body, "{\"error\":\"Bad Request\"}");
    let mut slot = ErrorSlot::new();
    slot.set(JsonBodyError::ValidationError(ValidationErrorSet::new()));
    assert_eq!(render_bad_request(&slot).body, "{\"error\":\"Bad Request\"}");
    let mut set = ValidationErrorSet::new();
    set.add(String::from("b"), violation("required"));
    let mut slot = ErrorSlot::new();
    slot.set(JsonBodyError::ValidationError(set));
    assert_eq!(render_bad_request(&slot).body, "{\"b\":[{\"code\":\"required\",\"message\":null,\"params\":{}}]}");
}

#[test]
fn bad_request_catcher_falls_back_to_message() {
    let chosen = bad_request_catcher(ValidationErrorSet::new());
    assert!(matches!(chosen, BadRequestError::DefaultError(_)));
    let rendered = chosen.render();
    assert_eq!(rendered.status.code, 400);
    assert_eq!(rendered.body, "{\"error\":\"Bad Request\"}");
    let mut set = ValidationErrorSet::new();
    set.add(String::from("a"), violation("required"));
    let rendered = bad_request_catcher(set).render();
    assert_eq!(rendered.body, "{\"a\":[{\"code\":\"required\",\"message\":null,\"params\":{}}]}");
}
