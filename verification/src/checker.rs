//! The allergy check: what is asked of the profile service, of the catalogue
//! and of the ingredient knowledge base, and what each of their answers leads
//! to, down to the verdict.

use crate::conflict::{
    candidate_ingredients, candidate_list, candidate_set, caution_without_ingredients,
    names_each_conflict_once, nothing_to_go_by, resolve_rows, verdict_from_rows, CheckResult,
    ConflictRow,
};
use crate::errors::{
    fixed_response, ErrorKind, ErrorResponse, BAD_GATEWAY, BAD_REQUEST, INTERNAL_SERVER_ERROR,
    NOT_FOUND,
};
use crate::gateway::{current_profile_url, product_by_barcode_url, PeerAnswer, PEER_NOT_FOUND};
use crate::names::NameSet;
use crate::config::{decimal_digits, decimal_text};
use crate::text::{join2, join3, views_of};
use vstd::prelude::*;

verus! {

/// What the profile service tells of a user.
#[derive(Debug)]
pub struct UserProfileData {
    pub user_id: String,
    pub allergens: NameSet,
    pub dietary_prefs: NameSet,
}

/// What the catalogue tells of a product.
#[derive(Debug)]
pub struct ProductData {
    pub id: Option<String>,
    pub barcode: Option<String>,
    pub ingredients_text: Option<String>,
    pub traces_tags: Vec<String>,
    pub labels_tags: Vec<String>,
}

/// A request to check a product for a user.
#[derive(Debug)]
pub struct CheckRequest {
    pub product_identifier: String,
    pub user_id: String,
}

/// A failure of a safety check. Variants that stand for a failure of a store
/// or of a peer carry its description.
#[derive(Debug)]
pub enum AppError {
    ReqwestError(String),
    Neo4jError(String),
    SerializationError(String),
    MissingEnvVar(String),
    NotFoundError(String),
    UpstreamServiceError { service: String, status: u16 },
    ProfileProcessingError(String),
    ProductProcessingError(String),
    BadRequest(String),
    InternalServerError,
}

/// The kind of a failure.
pub open spec fn app_error_kind(e: AppError) -> ErrorKind {
    match e {
        AppError::ReqwestError(_) => ErrorKind::UpstreamUnavailable,
        AppError::Neo4jError(_) => ErrorKind::UpstreamUnavailable,
        AppError::SerializationError(_) => ErrorKind::DataFormatError,
        AppError::MissingEnvVar(_) => ErrorKind::Internal,
        AppError::NotFoundError(_) => ErrorKind::NotFound,
        AppError::UpstreamServiceError { .. } => ErrorKind::UpstreamBadStatus,
        AppError::ProfileProcessingError(_) => ErrorKind::DataFormatError,
        AppError::ProductProcessingError(_) => ErrorKind::DataFormatError,
        AppError::BadRequest(_) => ErrorKind::BadRequest,
        AppError::InternalServerError => ErrorKind::Internal,
    }
}

/// The status with which a failure is answered.
pub open spec fn app_error_status(e: AppError) -> u16 {
    match e {
        AppError::NotFoundError(_) => NOT_FOUND,
        AppError::BadRequest(_) => BAD_REQUEST,
        AppError::SerializationError(_) => BAD_REQUEST,
        AppError::UpstreamServiceError { .. } => BAD_GATEWAY,
        _ => INTERNAL_SERVER_ERROR,
    }
}

/// The message with which a failure is answered. The description of a failure
/// of a store or of a peer is never passed on.
pub open spec fn app_error_message(e: AppError) -> Seq<char> {
    match e {
        AppError::NotFoundError(msg) => msg@,
        AppError::BadRequest(msg) => msg@,
        AppError::SerializationError(_) => "Invalid data format"@,
        AppError::UpstreamServiceError { service, .. } => "Error communicating with "@ + service@,
        AppError::ProfileProcessingError(_) => "Failed to process data"@,
        AppError::ProductProcessingError(_) => "Failed to process data"@,
        AppError::ReqwestError(_) => "Internal network error"@,
        AppError::Neo4jError(_) => "Database error"@,
        AppError::MissingEnvVar(_) => "Internal server configuration error"@,
        AppError::InternalServerError => "An internal server error occurred"@,
    }
}

/// The description of a failure for logs. Unlike the message of the answer,
/// it holds the description of what failed underneath.
pub open spec fn app_error_text(e: AppError) -> Seq<char> {
    match e {
        AppError::ReqwestError(text) => "HTTP request failed: "@ + text@,
        AppError::Neo4jError(text) => "Neo4j database error: "@ + text@,
        AppError::SerializationError(text) => "JSON serialization/deserialization error: "@ + text@,
        AppError::MissingEnvVar(text) => "Configuration error: Missing environment variable '"@ + text@ + "'"@,
        AppError::NotFoundError(text) => "Resource not found: "@ + text@,
        AppError::ProfileProcessingError(text) => "Failed to process user profile: "@ + text@,
        AppError::ProductProcessingError(text) => "Failed to process product data: "@ + text@,
        AppError::BadRequest(text) => "Invalid input: "@ + text@,
        AppError::UpstreamServiceError { service, status } => "Error response from upstream service '"@
            + service@ + "': Status "@ + decimal_digits(status as nat),
        AppError::InternalServerError => "Internal server error"@,
    }
}

impl AppError {
    /// A description of the failure for logs.
    pub fn describe(&self) -> (text: String)
        ensures
            text@ == app_error_text(*self),
    {
        match self {
            AppError::ReqwestError(text) => join2("HTTP request failed: ", text.as_str()),
            AppError::Neo4jError(text) => join2("Neo4j database error: ", text.as_str()),
            AppError::SerializationError(text) => join2("JSON serialization/deserialization error: ", text.as_str()),
            AppError::MissingEnvVar(text) => join3("Configuration error: Missing environment variable '", text.as_str(), "'"),
            AppError::NotFoundError(text) => join2("Resource not found: ", text.as_str()),
            AppError::ProfileProcessingError(text) => join2("Failed to process user profile: ", text.as_str()),
            AppError::ProductProcessingError(text) => join2("Failed to process product data: ", text.as_str()),
            AppError::BadRequest(text) => join2("Invalid input: ", text.as_str()),
            AppError::UpstreamServiceError { service, status } => join3(
                "Error response from upstream service '",
                service.as_str(),
                "': Status ",
            ).concat(decimal_text(*status).as_str()),
            AppError::InternalServerError => String::from_str("Internal server error"),
        }
    }

    /// The kind of the failure.
    pub fn kind(&self) -> (kind: ErrorKind)
        ensures
            kind == app_error_kind(*self),
    {
        match self {
            AppError::ReqwestError(_) => ErrorKind::UpstreamUnavailable,
            AppError::Neo4jError(_) => ErrorKind::UpstreamUnavailable,
            AppError::SerializationError(_) => ErrorKind::DataFormatError,
            AppError::MissingEnvVar(_) => ErrorKind::Internal,
            AppError::NotFoundError(_) => ErrorKind::NotFound,
            AppError::UpstreamServiceError { .. } => ErrorKind::UpstreamBadStatus,
            AppError::ProfileProcessingError(_) => ErrorKind::DataFormatError,
            AppError::ProductProcessingError(_) => ErrorKind::DataFormatError,
            AppError::BadRequest(_) => ErrorKind::BadRequest,
            AppError::InternalServerError => ErrorKind::Internal,
        }
    }

    /// The answer to a request that failed in this way.
    pub fn into_response(self) -> (response: ErrorResponse)
        ensures
            response.status == app_error_status(self),
            response.message@ == app_error_message(self),
            app_error_kind(self) == ErrorKind::NotFound <==> response.status == NOT_FOUND,
            app_error_kind(self) == ErrorKind::UpstreamBadStatus <==> response.status == BAD_GATEWAY,
            app_error_kind(self) == ErrorKind::BadRequest ==> response.status == BAD_REQUEST,
    {
        match self {
            AppError::NotFoundError(msg) => ErrorResponse { status: NOT_FOUND, message: msg },
            AppError::BadRequest(msg) => ErrorResponse { status: BAD_REQUEST, message: msg },
            AppError::SerializationError(_) => fixed_response(BAD_REQUEST, "Invalid data format"),
            AppError::UpstreamServiceError { service, status } => ErrorResponse {
                status: BAD_GATEWAY,
                message: join2("Error communicating with ", service.as_str()),
            },
            AppError::ProfileProcessingError(_) => fixed_response(
                INTERNAL_SERVER_ERROR,
                "Failed to process data",
            ),
            AppError::ProductProcessingError(_) => fixed_response(
                INTERNAL_SERVER_ERROR,
                "Failed to process data",
            ),
            AppError::ReqwestError(_) => fixed_response(
                INTERNAL_SERVER_ERROR,
                "Internal network error",
            ),
            AppError::Neo4jError(_) => fixed_response(INTERNAL_SERVER_ERROR, "Database error"),
            AppError::MissingEnvVar(_) => fixed_response(
                INTERNAL_SERVER_ERROR,
                "Internal server configuration error",
            ),
            AppError::InternalServerError => fixed_response(
                INTERNAL_SERVER_ERROR,
                "An internal server error occurred",
            ),
        }
    }
}

/// The user's profile, from what the profile service answered. A user without
/// a profile cannot be checked.
pub fn fetched_profile(request: &CheckRequest, answer: PeerAnswer<UserProfileData>) -> (r: Result<
    UserProfileData,
    AppError,
>)
    ensures
        match answer {
            PeerAnswer::Decoded(profile) => r == Ok::<UserProfileData, AppError>(profile),
            PeerAnswer::Undecodable(why) => r matches Err(AppError::ProfileProcessingError(msg))
                && msg@ == "Failed to parse profile data: "@ + why@,
            PeerAnswer::Status { code, text } => if code == PEER_NOT_FOUND {
                r matches Err(AppError::NotFoundError(msg)) && msg@
                    == "User profile not found for user "@ + request.user_id@
            } else {
                r matches Err(AppError::UpstreamServiceError { service, status }) && service@
                    == "user-profile-service"@ && status == code
            },
            PeerAnswer::Unreachable(why) => r == Err::<UserProfileData, AppError>(
                AppError::ReqwestError(why),
            ),
        },
{
    match answer {
        PeerAnswer::Decoded(profile) => Ok(profile),
        PeerAnswer::Undecodable(why) => Err(
            AppError::ProfileProcessingError(join2("Failed to parse profile data: ", why.as_str())),
        ),
        PeerAnswer::Status { code, text } => {
            if code == PEER_NOT_FOUND {
                Err(
                    AppError::NotFoundError(
                        join2("User profile not found for user ", request.user_id.as_str()),
                    ),
                )
            } else {
                Err(
                    AppError::UpstreamServiceError {
                        service: String::from_str("user-profile-service"),
                        status: code,
                    },
                )
            }
        },
        PeerAnswer::Unreachable(why) => Err(AppError::ReqwestError(why)),
    }
}

/// The address at which the product of `request` is asked for.
pub fn product_url(request: &CheckRequest, product_catalog_url: &str) -> (url: String)
    ensures
        url@ == product_catalog_url@ + "/api/v1/products/barcode/"@ + request.product_identifier@,
{
    product_by_barcode_url(product_catalog_url, request.product_identifier.as_str())
}

/// The product, from what the catalogue answered. A product that the
/// catalogue does not hold cannot be checked.
pub fn fetched_product(request: &CheckRequest, answer: PeerAnswer<ProductData>) -> (r: Result<
    ProductData,
    AppError,
>)
    ensures
        match answer {
            PeerAnswer::Decoded(product) => r == Ok::<ProductData, AppError>(product),
            PeerAnswer::Undecodable(why) => r matches Err(AppError::ProductProcessingError(msg))
                && msg@ == "Failed to parse product data: "@ + why@,
            PeerAnswer::Status { code, text } => if code == PEER_NOT_FOUND {
                r matches Err(AppError::NotFoundError(msg)) && msg@
                    == "Product not found for identifier "@ + request.product_identifier@
            } else {
                r matches Err(AppError::UpstreamServiceError { service, status }) && service@
                    == "product-catalog-service"@ && status == code
            },
            PeerAnswer::Unreachable(why) => r == Err::<ProductData, AppError>(
                AppError::ReqwestError(why),
            ),
        },
{
    match answer {
        PeerAnswer::Decoded(product) => Ok(product),
        PeerAnswer::Undecodable(why) => Err(
            AppError::ProductProcessingError(join2("Failed to parse product data: ", why.as_str())),
        ),
        PeerAnswer::Status { code, text } => {
            if code == PEER_NOT_FOUND {
                Err(
                    AppError::NotFoundError(
                        join2(
                            "Product not found for identifier ",
                            request.product_identifier.as_str(),
                        ),
                    ),
                )
            } else {
                Err(
                    AppError::UpstreamServiceError {
                        service: String::from_str("product-catalog-service"),
                        status: code,
                    },
                )
            }
        },
        PeerAnswer::Unreachable(why) => Err(AppError::ReqwestError(why)),
    }
}

/// What is asked of the ingredient knowledge base: for each of the
/// ingredients, which of the user's allergens it is, of which it may hold
/// traces, and which of the user's diets it conflicts with.
#[derive(Debug)]
pub struct ConflictQuery {
    pub ingredients: Vec<String>,
    pub user_allergens: Vec<String>,
    pub user_diets: Vec<String>,
}

/// The question that is put to the ingredient knowledge base, in its own
/// language. Its parameters are the three lists of a `ConflictQuery`.
pub fn conflict_query_text() -> (text: String)
    ensures
        text@
            == "UNWIND $ingredients AS ingredientName\nMATCH (i:Ingredient {name: ingredientName})\nOPTIONAL MATCH (i)-[:IS_ALLERGEN]->(a:Allergen) WHERE a.name IN $userAllergens\nOPTIONAL MATCH (i)-[:MAY_CONTAIN_TRACE]->(ta:Allergen) WHERE ta.name IN $userAllergens\nOPTIONAL MATCH (i)-[:CONFLICTS_WITH_DIET]->(d:DietaryPreference) WHERE d.name IN $userDiets\nRETURN ingredientName,\n       collect(DISTINCT a.name) AS conflictingAllergens,\n       collect(DISTINCT ta.name) AS traceAllergens,\n       collect(DISTINCT d.name) AS conflictingDiets\n"@,
{
    String::from_str(
        "UNWIND $ingredients AS ingredientName\nMATCH (i:Ingredient {name: ingredientName})\nOPTIONAL MATCH (i)-[:IS_ALLERGEN]->(a:Allergen) WHERE a.name IN $userAllergens\nOPTIONAL MATCH (i)-[:MAY_CONTAIN_TRACE]->(ta:Allergen) WHERE ta.name IN $userAllergens\nOPTIONAL MATCH (i)-[:CONFLICTS_WITH_DIET]->(d:DietaryPreference) WHERE d.name IN $userDiets\nRETURN ingredientName,\n       collect(DISTINCT a.name) AS conflictingAllergens,\n       collect(DISTINCT ta.name) AS traceAllergens,\n       collect(DISTINCT d.name) AS conflictingDiets\n",
    )
}

/// What follows once the profile and the product are known.
#[derive(Debug)]
pub enum CheckStep {
    /// The verdict stands without asking the knowledge base.
    Done(CheckResult),
    /// The knowledge base is asked for the conflicts of these ingredients.
    Query { candidates: NameSet, query: ConflictQuery },
}

/// What follows once the profile and the product are known. A product of
/// which no ingredient is known calls for caution at once; for any other, the
/// knowledge base is asked about each candidate ingredient once.
pub fn plan_conflict_query(profile: &UserProfileData, product: ProductData) -> (step: CheckStep)
    ensures
        if candidate_set(product.ingredients_text, product.traces_tags@) == Set::<
            Seq<char>,
        >::empty() {
            step matches CheckStep::Done(result) && result@ == nothing_to_go_by()
                && result.conflicting_allergens@.len() == 0 && result.trace_allergens@.len() == 0
                && result.conflicting_diets@.len() == 0
        } else {
            step matches CheckStep::Query { candidates, query } && {
                &&& candidates@ == candidate_set(product.ingredients_text, product.traces_tags@)
                &&& views_of(query.ingredients@) == candidate_list(
                    product.ingredients_text,
                    product.traces_tags@,
                )
                &&& views_of(query.user_allergens@) == profile.allergens.names()
                &&& views_of(query.user_diets@) == profile.dietary_prefs.names()
            }
        },
{
    let candidates = candidate_ingredients(product.ingredients_text, &product.traces_tags);
    if candidates.is_empty() {
        CheckStep::Done(caution_without_ingredients())
    } else {
        let query = ConflictQuery {
            ingredients: candidates.to_vec(),
            user_allergens: profile.allergens.to_vec(),
            user_diets: profile.dietary_prefs.to_vec(),
        };
        CheckStep::Query { candidates, query }
    }
}

/// What the ingredient knowledge base answered.
#[derive(Debug)]
pub enum GraphAnswer {
    /// One row for each ingredient that the knowledge base knows.
    Rows(Vec<ConflictRow>),
    /// The knowledge base could not be asked, or a row could not be read; the
    /// text says why.
    Failed(String),
}

/// The verdict, from what the knowledge base answered. Where it failed, the
/// check fails: conflicts that are known only in part are never presented as
/// a verdict.
pub fn conclude(candidates: &NameSet, answer: GraphAnswer) -> (r: Result<CheckResult, AppError>)
    ensures
        match answer {
            GraphAnswer::Rows(rows) => r matches Ok(result) && result@ == verdict_from_rows(
                candidates@,
                rows@,
            ) && names_each_conflict_once(result),
            GraphAnswer::Failed(why) => r == Err::<CheckResult, AppError>(
                AppError::Neo4jError(why),
            ),
        },
{
    match answer {
        GraphAnswer::Rows(rows) => Ok(resolve_rows(candidates, &rows)),
        GraphAnswer::Failed(why) => Err(AppError::Neo4jError(why)),
    }
}

/// Where a safety check stands: what it waits for, and what it has to
/// remember until then.
#[derive(Debug)]
pub enum CheckState {
    /// The request came in.
    Received { request: CheckRequest, profile_service_url: String, product_catalog_url: String },
    /// The user's profile was asked for.
    AwaitingProfile { request: CheckRequest, product_url: String },
    /// The product was asked for.
    AwaitingProduct { request: CheckRequest, profile: UserProfileData },
    /// The knowledge base was asked.
    AwaitingGraph { candidates: NameSet },
    /// The answer was given.
    Finished,
}

/// What a peer or the knowledge base answered to the last step of a check.
#[derive(Debug)]
pub enum CheckEvent {
    /// The request came in.
    Begin,
    Profile(PeerAnswer<UserProfileData>),
    Product(PeerAnswer<ProductData>),
    Graph(GraphAnswer),
}

/// What is to be done next for a check.
#[derive(Debug)]
pub enum CheckAction {
    /// Ask the profile service for the user's profile.
    FetchProfile { url: String },
    /// Ask the catalogue for the product.
    FetchProduct { url: String },
    /// Ask the knowledge base for the conflicts of the candidate ingredients.
    AskGraph(ConflictQuery),
    /// Answer the request.
    Reply(Result<CheckResult, AppError>),
}

/// Whether `e` is the failure that an answer of the profile service without a
/// profile leads to.
pub open spec fn is_profile_failure(
    request: CheckRequest,
    answer: PeerAnswer<UserProfileData>,
    e: AppError,
) -> bool {
    match answer {
        PeerAnswer::Decoded(_) => false,
        PeerAnswer::Undecodable(why) => e matches AppError::ProfileProcessingError(msg) && msg@
            == "Failed to parse profile data: "@ + why@,
        PeerAnswer::Status { code, text } => if code == PEER_NOT_FOUND {
            e matches AppError::NotFoundError(msg) && msg@ == "User profile not found for user "@
                + request.user_id@
        } else {
            e matches AppError::UpstreamServiceError { service, status } && service@
                == "user-profile-service"@ && status == code
        },
        PeerAnswer::Unreachable(why) => e == AppError::ReqwestError(why),
    }
}

/// Whether `e` is the failure that an answer of the catalogue without a
/// product leads to.
pub open spec fn is_product_failure(
    request: CheckRequest,
    answer: PeerAnswer<ProductData>,
    e: AppError,
) -> bool {
    match answer {
        PeerAnswer::Decoded(_) => false,
        PeerAnswer::Undecodable(why) => e matches AppError::ProductProcessingError(msg) && msg@
            == "Failed to parse product data: "@ + why@,
        PeerAnswer::Status { code, text } => if code == PEER_NOT_FOUND {
            e matches AppError::NotFoundError(msg) && msg@ == "Product not found for identifier "@
                + request.product_identifier@
        } else {
            e matches AppError::UpstreamServiceError { service, status } && service@
                == "product-catalog-service"@ && status == code
        },
        PeerAnswer::Unreachable(why) => e == AppError::ReqwestError(why),
    }
}

/// The end of a check that was given an answer it did not wait for.
fn out_of_step() -> (next: (CheckState, CheckAction))
    ensures
        next.0 is Finished,
        next.1 == CheckAction::Reply(Err(AppError::InternalServerError)),
{
    (CheckState::Finished, CheckAction::Reply(Err(AppError::InternalServerError)))
}

/// Whether `next` is what the step of `state` leads to once `event` has come
/// in: the state that follows, and what is to be done.
pub open spec fn check_step(state: CheckState, event: CheckEvent, next: (CheckState, CheckAction)) -> bool {
    match (state, event) {
        (
            CheckState::Received { request, profile_service_url, product_catalog_url },
            CheckEvent::Begin,
        ) => {
            &&& next.0 matches CheckState::AwaitingProfile { request: r, product_url }
            &&& r == request
            &&& product_url@ == product_catalog_url@ + "/api/v1/products/barcode/"@
                + request.product_identifier@
            &&& next.1 matches CheckAction::FetchProfile { url }
            &&& url@ == profile_service_url@ + "/api/v1/profile"@
        },
        (CheckState::AwaitingProfile { request, product_url }, CheckEvent::Profile(answer)) => {
            match answer {
                PeerAnswer::Decoded(profile) => {
                    &&& next.0 matches CheckState::AwaitingProduct { request: r, profile: p }
                    &&& r == request && p == profile
                    &&& next.1 matches CheckAction::FetchProduct { url }
                    &&& url@ == product_url@
                },
                _ => {
                    &&& next.0 is Finished
                    &&& next.1 matches CheckAction::Reply(Err(e))
                    &&& is_profile_failure(request, answer, e)
                },
            }
        },
        (CheckState::AwaitingProduct { request, profile }, CheckEvent::Product(answer)) => {
            match answer {
                PeerAnswer::Decoded(product) => if candidate_set(
                    product.ingredients_text,
                    product.traces_tags@,
                ) == Set::<Seq<char>>::empty() {
                    &&& next.0 is Finished
                    &&& next.1 matches CheckAction::Reply(Ok(result))
                    &&& result@ == nothing_to_go_by()
                    &&& result.conflicting_allergens@.len() == 0
                    &&& result.trace_allergens@.len() == 0
                    &&& result.conflicting_diets@.len() == 0
                } else {
                    &&& next.0 matches CheckState::AwaitingGraph { candidates }
                    &&& candidates@ == candidate_set(
                        product.ingredients_text,
                        product.traces_tags@,
                    )
                    &&& next.1 matches CheckAction::AskGraph(query)
                    &&& views_of(query.ingredients@) == candidate_list(
                        product.ingredients_text,
                        product.traces_tags@,
                    )
                    &&& views_of(query.user_allergens@) == profile.allergens.names()
                    &&& views_of(query.user_diets@) == profile.dietary_prefs.names()
                },
                _ => {
                    &&& next.0 is Finished
                    &&& next.1 matches CheckAction::Reply(Err(e))
                    &&& is_product_failure(request, answer, e)
                },
            }
        },
        (CheckState::AwaitingGraph { candidates }, CheckEvent::Graph(answer)) => {
            &&& next.0 is Finished
            &&& match answer {
                GraphAnswer::Rows(rows) => next.1 matches CheckAction::Reply(Ok(result))
                    && result@ == verdict_from_rows(candidates@, rows@)
                    && names_each_conflict_once(result),
                GraphAnswer::Failed(why) => next.1 == CheckAction::Reply(
                    Err(AppError::Neo4jError(why)),
                ),
            }
        },
        _ => {
            &&& next.0 is Finished
            &&& next.1 == CheckAction::Reply(Err(AppError::InternalServerError))
        },
    }
}

/// One step of the request to check a product for a user: what the step of
/// `state` leads to once `event` has come in.
///
/// The user's profile is asked for first, then the product. Without either
/// the check fails: not found where the peer answers 404, an upstream failure
/// for any other status. The candidate ingredients are those that the
/// product's ingredient text names and those it may hold traces of. A product
/// without candidates calls for caution at once, with no conflict named and
/// without asking the knowledge base. Else the knowledge base is asked once,
/// and its rows give the verdict. The three conflict lists hold what the rows
/// name, each name once. A conflict with an allergen or a diet means unsafe,
/// whatever the traces; traces alone call for caution; no conflict means
/// safe. Where the knowledge base fails, the check fails and no verdict is
/// given. An answer that the step did not wait for ends the check with an
/// internal failure.
pub fn check_product_safety(state: CheckState, event: CheckEvent) -> (next: (CheckState, CheckAction))
    ensures
        check_step(state, event, next),
{
    match state {
        CheckState::Received { request, profile_service_url, product_catalog_url } => match event {
            CheckEvent::Begin => {
                let url = current_profile_url(profile_service_url.as_str());
                let product_url = product_url(&request, product_catalog_url.as_str());
                (
                    CheckState::AwaitingProfile { request, product_url },
                    CheckAction::FetchProfile { url },
                )
            },
            _ => out_of_step(),
        },
        CheckState::AwaitingProfile { request, product_url } => match event {
            CheckEvent::Profile(answer) => match fetched_profile(&request, answer) {
                Ok(profile) => (
                    CheckState::AwaitingProduct { request, profile },
                    CheckAction::FetchProduct { url: product_url },
                ),
                Err(e) => (CheckState::Finished, CheckAction::Reply(Err(e))),
            },
            _ => out_of_step(),
        },
        CheckState::AwaitingProduct { request, profile } => match event {
            CheckEvent::Product(answer) => match fetched_product(&request, answer) {
                Ok(product) => match plan_conflict_query(&profile, product) {
                    CheckStep::Done(result) => (
                        CheckState::Finished,
                        CheckAction::Reply(Ok(result)),
                    ),
                    CheckStep::Query { candidates, query } => (
                        CheckState::AwaitingGraph { candidates },
                        CheckAction::AskGraph(query),
                    ),
                },
                Err(e) => (CheckState::Finished, CheckAction::Reply(Err(e))),
            },
            _ => out_of_step(),
        },
        CheckState::AwaitingGraph { candidates } => match event {
            CheckEvent::Graph(answer) => (
                CheckState::Finished,
                CheckAction::Reply(conclude(&candidates, answer)),
            ),
            _ => out_of_step(),
        },
        CheckState::Finished => out_of_step(),
    }
}

/// Whether `result` is the answer that is owed to `request` where the profile
/// service answered `profile`, the catalogue `product` and the knowledge base
/// `graph`. Without a profile the answer is the failure of the profile
/// service, whatever the others hold; without a product it is that of the
/// catalogue; a product without candidate ingredients calls for caution,
/// whatever the knowledge base holds; else the knowledge base decides.
pub open spec fn is_check_outcome(
    request: CheckRequest,
    profile: PeerAnswer<UserProfileData>,
    product: PeerAnswer<ProductData>,
    graph: GraphAnswer,
    result: Result<CheckResult, AppError>,
) -> bool {
    match (profile, product) {
        (PeerAnswer::Decoded(_), PeerAnswer::Decoded(found)) => {
            let candidates = candidate_set(found.ingredients_text, found.traces_tags@);
            if candidates == Set::<Seq<char>>::empty() {
                &&& result matches Ok(verdict)
                &&& verdict@ == nothing_to_go_by()
                &&& verdict.conflicting_allergens@.len() == 0
                &&& verdict.trace_allergens@.len() == 0
                &&& verdict.conflicting_diets@.len() == 0
            } else {
                match graph {
                    GraphAnswer::Rows(rows) => {
                        &&& result matches Ok(verdict)
                        &&& verdict@ == verdict_from_rows(candidates, rows@)
                        &&& names_each_conflict_once(verdict)
                    },
                    GraphAnswer::Failed(why) => result == Err::<CheckResult, AppError>(
                        AppError::Neo4jError(why),
                    ),
                }
            }
        },
        (PeerAnswer::Decoded(_), _) => result matches Err(e) && is_product_failure(
            request,
            product,
            e,
        ),
        _ => result matches Err(e) && is_profile_failure(request, profile, e),
    }
}

/// A check runs to its answer in at most four steps. It asks the profile
/// service first. It asks the catalogue only where a profile came back, and
/// the knowledge base only where a product with candidate ingredients came
/// back as well. The first answer it gives is the one owed to the request for
/// what the peers and the knowledge base answered.
pub proof fn law_check_runs_to_its_answer(
    request: CheckRequest,
    profile_service_url: String,
    product_catalog_url: String,
    profile: PeerAnswer<UserProfileData>,
    product: PeerAnswer<ProductData>,
    graph: GraphAnswer,
    first: (CheckState, CheckAction),
    second: (CheckState, CheckAction),
    third: (CheckState, CheckAction),
    fourth: (CheckState, CheckAction),
)
    requires
        check_step(
            CheckState::Received { request, profile_service_url, product_catalog_url },
            CheckEvent::Begin,
            first,
        ),
        check_step(first.0, CheckEvent::Profile(profile), second),
        check_step(second.0, CheckEvent::Product(product), third),
        check_step(third.0, CheckEvent::Graph(graph), fourth),
    ensures
        first.1 matches CheckAction::FetchProfile { url } && url@ == profile_service_url@
            + "/api/v1/profile"@,
        match second.1 {
            CheckAction::Reply(result) => !(profile is Decoded) && is_check_outcome(
                request,
                profile,
                product,
                graph,
                result,
            ),
            CheckAction::FetchProduct { url } => {
                &&& profile is Decoded
                &&& url@ == product_catalog_url@ + "/api/v1/products/barcode/"@
                    + request.product_identifier@
                &&& match third.1 {
                    CheckAction::Reply(result) => is_check_outcome(
                        request,
                        profile,
                        product,
                        graph,
                        result,
                    ),
                    CheckAction::AskGraph(query) => {
                        &&& product matches PeerAnswer::Decoded(found)
                        &&& views_of(query.ingredients@) == candidate_list(
                            found.ingredients_text,
                            found.traces_tags@,
                        )
                        &&& fourth.1 matches CheckAction::Reply(result)
                        &&& is_check_outcome(request, profile, product, graph, result)
                    },
                    _ => false,
                }
            },
            _ => false,
        },
{
}

} // verus!
