use yoloeats_core::checker::{
    conclude, conflict_query_text, fetched_product, fetched_profile,
    plan_conflict_query, product_url, AppError, CheckRequest, CheckStep, GraphAnswer, ProductData,
    UserProfileData,
};
use yoloeats_core::conflict::{ConflictRow, SafetyStatus};
use yoloeats_core::errors::ErrorKind;
use yoloeats_core::gateway::{awaits_body, current_profile_url, user_profile_url, PeerAnswer};
use yoloeats_core::names::NameSet;

fn strings(items: &[&str]) -> Vec<String> {
    items.iter().map(|s| s.to_string()).collect()
}

fn request() -> CheckRequest {
    CheckRequest { product_identifier: "0012345".to_string(), user_id: "u-1".to_string() }
}

fn profile(allergens: &[&str], diets: &[&str]) -> UserProfileData {
    UserProfileData {
        user_id: "u-1".to_string(),
        allergens: NameSet::from_vec(strings(allergens)),
        dietary_prefs: NameSet::from_vec(strings(diets)),
    }
}

fn product(ingredients: Option<&str>, traces: &[&str]) -> ProductData {
    ProductData {
        id: None,
        barcode: Some("0012345".to_string()),
        ingredients_text: ingredients.map(|s| s.to_string()),
        traces_tags: strings(traces),
        labels_tags: vec![],
    }
}

fn status(code: u16) -> PeerAnswer<UserProfileData> {
    PeerAnswer::Status { code, text: code.to_string() }
}

#[test]
fn addresses_of_peers() {
    assert_eq!(current_profile_url("http://profiles:8001"), "http://profiles:8001/api/v1/profile");
    assert_eq!(
        product_url(&request(), "http://catalog:8002"),
        "http://catalog:8002/api/v1/products/barcode/0012345"
    );
    assert_eq!(
        user_profile_url("http://profiles:8001", "dummy-user-123"),
        "http://profiles:8001/api/v1/users/dummy-user-123/profile"
    );
    assert!(awaits_body(200));
    assert!(!awaits_body(201));
    assert!(!awaits_body(404));
}

#[test]
fn profile_answers() {
    assert!(fetched_profile(&request(), PeerAnswer::Decoded(profile(&["peanuts"], &[]))).is_ok());
    match fetched_profile(&request(), status(404)) {
        Err(AppError::NotFoundError(msg)) => assert_eq!(msg, "User profile not found for user u-1"),
        other => panic!("unexpected: {:?}", other),
    }
    match fetched_profile(&request(), status(500)) {
        Err(AppError::UpstreamServiceError { service, status }) => {
            assert_eq!(service, "user-profile-service");
            assert_eq!(status, 500);
        }
        other => panic!("unexpected: {:?}", other),
    }
    match fetched_profile(&request(), PeerAnswer::Undecodable("eof".to_string())) {
        Err(AppError::ProfileProcessingError(msg)) => {
            assert_eq!(msg, "Failed to parse profile data: eof")
        }
        other => panic!("unexpected: {:?}", other),
    }
    match fetched_profile(&request(), PeerAnswer::Unreachable("refused".to_string())) {
        Err(AppError::ReqwestError(why)) => assert_eq!(why, "refused"),
        other => panic!("unexpected: {:?}", other),
    }
}

#[test]
fn product_answers() {
    assert!(fetched_product(&request(), PeerAnswer::Decoded(product(None, &[]))).is_ok());
    match fetched_product(&request(), PeerAnswer::Status { code: 404, text: "404".to_string() }) {
        Err(AppError::NotFoundError(msg)) => {
            assert_eq!(msg, "Product not found for identifier 0012345")
        }
        other => panic!("unexpected: {:?}", other),
    }
    match fetched_product(&request(), PeerAnswer::Status { code: 502, text: "502".to_string() }) {
        Err(AppError::UpstreamServiceError { service, status }) => {
            assert_eq!(service, "product-catalog-service");
            assert_eq!(status, 502);
        }
        other => panic!("unexpected: {:?}", other),
    }
    match fetched_product(&request(), PeerAnswer::Undecodable("eof".to_string())) {
        Err(AppError::ProductProcessingError(msg)) => {
            assert_eq!(msg, "Failed to parse product data: eof")
        }
        other => panic!("unexpected: {:?}", other),
    }
    match fetched_product(&request(), PeerAnswer::Unreachable("dns".to_string())) {
        Err(AppError::ReqwestError(why)) => assert_eq!(why, "dns"),
        other => panic!("unexpected: {:?}", other),
    }
}

#[test]
fn product_without_ingredient_text_and_traces_is_caution() {
    match plan_conflict_query(&profile(&["peanuts"], &["vegan"]), product(None, &[])) {
        CheckStep::Done(result) => {
            assert_eq!(result.status, SafetyStatus::Caution);
            assert!(result.conflicting_allergens.is_empty());
            assert!(result.conflicting_diets.is_empty());
            assert!(result.trace_allergens.is_empty());
            assert!(!result.is_offline_result);
        }
        other => panic!("unexpected: {:?}", other),
    }
    assert!(matches!(
        plan_conflict_query(&profile(&[], &[]), product(Some(" , ,"), &[])),
        CheckStep::Done(_)
    ));
}

#[test]
fn peanut_product_for_peanut_allergic_user_is_unsafe() {
    let step = plan_conflict_query(
        &profile(&["peanuts"], &[]),
        product(Some("wheat flour, peanuts, sugar"), &[]),
    );
    let (candidates, query) = match step {
        CheckStep::Query { candidates, query } => (candidates, query),
        other => panic!("unexpected: {:?}", other),
    };
    assert_eq!(query.ingredients, strings(&["wheat flour", "peanuts", "sugar"]));
    assert_eq!(query.user_allergens, strings(&["peanuts"]));
    assert!(query.user_diets.is_empty());
    let rows = vec![
        ConflictRow {
            ingredient_name: "peanuts".to_string(),
            conflicting_allergens: strings(&["peanuts"]),
            trace_allergens: vec![],
            conflicting_diets: vec![],
        },
        ConflictRow {
            ingredient_name: "sugar".to_string(),
            conflicting_allergens: vec![],
            trace_allergens: vec![],
            conflicting_diets: vec![],
        },
    ];
    let result = conclude(&candidates, GraphAnswer::Rows(rows)).unwrap();
    assert_eq!(result.status, SafetyStatus::Unsafe);
    assert_eq!(result.conflicting_allergens, strings(&["peanuts"]));
    assert!(result.trace_allergens.is_empty());
    assert!(result.conflicting_diets.is_empty());
    assert!(!result.is_offline_result);
}

#[test]
fn traces_join_the_candidates_in_lower_case() {
    let step = plan_conflict_query(&profile(&[], &[]), product(Some("Cocoa"), &["EN:Nuts", "cocoa"]));
    match step {
        CheckStep::Query { candidates, query } => {
            assert_eq!(query.ingredients, strings(&["cocoa", "en:nuts"]));
            assert_eq!(candidates.len(), 2);
        }
        other => panic!("unexpected: {:?}", other),
    }
}

#[test]
fn answer_without_rows_is_safe_and_failure_fails() {
    let candidates = NameSet::from_vec(strings(&["water"]));
    let result = conclude(&candidates, GraphAnswer::Rows(vec![])).unwrap();
    assert_eq!(result.status, SafetyStatus::Safe);
    match conclude(&candidates, GraphAnswer::Failed("connection reset".to_string())) {
        Err(AppError::Neo4jError(why)) => assert_eq!(why, "connection reset"),
        other => panic!("unexpected: {:?}", other),
    }
}

#[test]
fn query_text_names_its_parameters_and_columns() {
    let text = conflict_query_text();
    for needle in [
        "$ingredients",
        "$userAllergens",
        "$userDiets",
        "IS_ALLERGEN",
        "MAY_CONTAIN_TRACE",
        "CONFLICTS_WITH_DIET",
        "AS conflictingAllergens",
        "AS traceAllergens",
        "AS conflictingDiets",
    ] {
        assert!(text.contains(needle), "{}", needle);
    }
}

#[test]
fn check_failures_are_answered_without_internal_text() {
    let cases: Vec<(AppError, u16, &str, ErrorKind)> = vec![
        (
            AppError::ReqwestError("secret".into()),
            500,
            "Internal network error",
            ErrorKind::UpstreamUnavailable,
        ),
        (AppError::Neo4jError("secret".into()), 500, "Database error", ErrorKind::UpstreamUnavailable),
        (
            AppError::SerializationError("secret".into()),
            400,
            "Invalid data format",
            ErrorKind::DataFormatError,
        ),
        (
            AppError::MissingEnvVar("NEO4J_URI".into()),
            500,
            "Internal server configuration error",
            ErrorKind::Internal,
        ),
        (AppError::NotFoundError("no profile".into()), 404, "no profile", ErrorKind::NotFound),
        (
            AppError::UpstreamServiceError { service: "user-profile-service".into(), status: 503 },
            502,
            "Error communicating with user-profile-service",
            ErrorKind::UpstreamBadStatus,
        ),
        (
            AppError::ProfileProcessingError("secret".into()),
            500,
            "Failed to process data",
            ErrorKind::DataFormatError,
        ),
        (
            AppError::ProductProcessingError("secret".into()),
            500,
            "Failed to process data",
            ErrorKind::DataFormatError,
        ),
        (AppError::BadRequest("bad".into()), 400, "bad", ErrorKind::BadRequest),
        (
            AppError::InternalServerError,
            500,
            "An internal server error occurred",
            ErrorKind::Internal,
        ),
    ];
    for (error, status, message, kind) in cases {
        assert_eq!(error.kind(), kind);
        let response = error.into_response();
        assert_eq!(response.status, status);
        assert_eq!(response.message, message);
    }
}

#[test]
fn check_failures_are_described_for_logs() {
    let cases: Vec<(AppError, &str)> = vec![
        (AppError::ReqwestError("x".into()), "HTTP request failed: x"),
        (AppError::Neo4jError("x".into()), "Neo4j database error: x"),
        (AppError::SerializationError("x".into()), "JSON serialization/deserialization error: x"),
        (
            AppError::MissingEnvVar("NEO4J_URI".into()),
            "Configuration error: Missing environment variable 'NEO4J_URI'",
        ),
        (AppError::NotFoundError("x".into()), "Resource not found: x"),
        (
            AppError::UpstreamServiceError { service: "user-profile-service".into(), status: 503 },
            "Error response from upstream service 'user-profile-service': Status 503",
        ),
        (AppError::ProfileProcessingError("x".into()), "Failed to process user profile: x"),
        (AppError::ProductProcessingError("x".into()), "Failed to process product data: x"),
        (AppError::BadRequest("x".into()), "Invalid input: x"),
        (AppError::InternalServerError, "Internal server error"),
    ];
    for (error, text) in cases {
        assert_eq!(error.describe(), text);
    }
}
