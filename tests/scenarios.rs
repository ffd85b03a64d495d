use std::collections::BTreeMap;

use rocketjson::error_handling::request_catcher;
use rocketjson::ingest::{ingest, settle, ContextState, Disposition, MediaType, Outcome};
use rocketjson::slot::ErrorSlot;
use rocketjson::status::Status;
use rocketjson::validation::{FieldViolation, ParamValue};
use rocketjson::{rjtry, ApiError, ApiErrors, ApiResponse, ApiResponseErr, JsonBodyError};

fn json_type() -> Option<MediaType> {
    Some(MediaType::new(String::from("application"), String::from("json")))
}

fn length_violation() -> FieldViolation {
    let mut v = FieldViolation::new(String::from("length"));
    v.add_param(String::from("value"), ParamValue::Text(String::new()));
    v.add_param(String::from("min"), ParamValue::Int(1));
    v
}

fn register(username: String) -> ApiResponse<BTreeMap<String, String>> {
    let mut body = BTreeMap::new();
    body.insert(String::from("message"), format!("Welcome {}", username));
    ApiResponse::new(Status::ok(), body)
}

#[test]
fn scenario_valid_body_reaches_handler() {
    let outcome = ingest(&json_type(), Some(String::from("testuser")), ContextState::NotNeeded, vec![]);
    let mut slot = ErrorSlot::new();
    let username = match settle(outcome.unwrap(), &mut slot) {
        Disposition::Success(u) => u,
        other => panic!("unexpected {:?}", other),
    };
    let response = register(username);
    assert_eq!(response.status.code, 200);
    let body = rocket::serde::json::to_string(&response.json).unwrap();
    assert_eq!(body, "{\"message\":\"Welcome testuser\"}");
    assert!(matches!(slot.get(), JsonBodyError::NoError));
}

#[test]
fn scenario_empty_username_rejected() {
    let detected = vec![(String::from("username"), length_violation())];
    let outcome = ingest(&json_type(), Some(String::new()), ContextState::NotNeeded, detected).unwrap();
    assert!(matches!(outcome, Outcome::Rejected(JsonBodyError::ValidationError(_))));
    let mut slot = ErrorSlot::new();
    let status = match settle(outcome, &mut slot) {
        Disposition::Error(s) => s,
        other => panic!("unexpected {:?}", other),
    };
    assert_eq!(status.code, 400);
    let rendered = request_catcher(status, &slot);
    assert_eq!(rendered.status.code, 400);
    assert_eq!(
        rendered.body,
        "{\"username\":[{\"code\":\"length\",\"message\":null,\"params\":{\"value\":\"\",\"min\":1}}]}"
    );
}

#[test]
fn scenario_handler_api_error() {
    let response: ApiResponseErr<String> =
        ApiResponseErr::err(ApiErrors::ApiError(ApiError::new(Status::new(500), String::from("login failed"))));
    assert_eq!(response.get_status().code, 500);
    let (status, body) = response.into_response();
    assert_eq!(status.code, 500);
    assert_eq!(body.unwrap_err(), "{\"error\":\"login failed\"}");
}

#[test]
fn scenario_unrouted_not_found() {
    let slot = ErrorSlot::new();
    let rendered = request_catcher(Status::not_found(), &slot);
    assert_eq!(rendered.status.code, 404);
    assert_eq!(rendered.body, "{\"error\":\"Not Found\"}");
}

fn load_user(found: bool) -> ApiResponseErr<String> {
    let lookup: Result<String, diesel::result::Error> =
        if found { Ok(String::from("admin")) } else { Err(diesel::result::Error::NotFound) };
    let user = match rjtry(lookup) {
        Ok(u) => u,
        Err(response) => return response,
    };
    ApiResponseErr::ok(Status::ok(), user)
}

#[test]
fn scenario_backend_error_forwarded() {
    let response = load_user(false);
    let (status, body) = response.into_response();
    assert_eq!(status.code, 500);
    assert_eq!(body.unwrap_err(), "{\"error\":\"Database error\"}");
}

#[test]
fn forwarding_passes_success_through() {
    let response = load_user(true);
    let (status, body) = response.into_response();
    assert_eq!(status.code, 200);
    assert_eq!(body.unwrap(), "admin");
}

#[test]
fn sqlx_error_forwarded() {
    let forwarded: Result<u32, ApiResponseErr<u32>> = rjtry(Err::<u32, sqlx::Error>(sqlx::Error::RowNotFound));
    let response = forwarded.unwrap_err();
    assert!(response.status.is_none());
    assert_eq!(response.get_status().code, 500);
    assert_eq!(response.error_body().unwrap(), "{\"error\":\"Database error\"}");
}

#[test]
fn malformed_body_answers_parsing_failed() {
    let outcome = ingest::<String>(&json_type(), None, ContextState::NotNeeded, vec![]).unwrap();
    assert!(matches!(outcome, Outcome::Rejected(JsonBodyError::JsonValidationError)));
    let mut slot = ErrorSlot::new();
    let status = match settle(outcome, &mut slot) {
        Disposition::Error(s) => s,
        other => panic!("unexpected {:?}", other),
    };
    let rendered = request_catcher(status, &slot);
    assert_eq!(rendered.status.code, 400);
    assert_eq!(rendered.body, "{\"error\":\"Parsing JSON failed\"}");
}
