//! User profiles: their records, the rules for changing them, the decisions
//! of their lookups and writes, and the list of common allergens.

use crate::cache::{
    advance_read, allergens_cache_key, answers_from, asks_store, begin_read, event_for, expiry,
    first_reply, invalidated, law_invalidated_keys_miss, law_read_your_write, payload_of,
    profile_cache_key, served_by_cache, written, CacheContents, CacheReply, CacheTarget,
    LookupAction, ReadAction, ReadEvent, ReadState, PROFILE_TTL_SECONDS, REFERENCE_TTL_SECONDS,
};
use crate::config::{config_error_text, ConfigError};
use crate::errors::{
    fixed_response, ErrorKind, ErrorResponse, BAD_REQUEST, INTERNAL_SERVER_ERROR, NOT_FOUND,
};
use crate::ids::DocumentId;
use crate::store::{
    changes_of, is_duplicate_key, list_change, push_list, push_text, text_change, FieldChange,
    FieldUpdate, FieldValue, StoreRead, StoreWrite, ValueModel,
};
use crate::text::{join2, join3, views_of};
use vstd::prelude::*;

verus! {

/// How much risk a user accepts.
#[derive(Debug, Clone, Copy, PartialEq, Eq, Structural)]
pub enum RiskLevel {
    Low,
    Medium,
    High,
}

impl Default for RiskLevel {
    fn default() -> (level: Self)
        ensures
            level == RiskLevel::Medium,
    {
        RiskLevel::Medium
    }
}

/// The name of a risk level as it is stored.
pub open spec fn risk_level_name(level: RiskLevel) -> Seq<char> {
    match level {
        RiskLevel::Low => "low"@,
        RiskLevel::Medium => "medium"@,
        RiskLevel::High => "high"@,
    }
}

impl RiskLevel {
    /// The name of the level as it is stored.
    pub fn name(&self) -> (name: String)
        ensures
            name@ == risk_level_name(*self),
    {
        match self {
            RiskLevel::Low => String::from_str("low"),
            RiskLevel::Medium => String::from_str("medium"),
            RiskLevel::High => String::from_str("high"),
        }
    }
}

/// A user's profile.
#[derive(Debug)]
pub struct UserProfile {
    /// The identifier that the document store gave the profile.
    pub id: Option<DocumentId>,
    pub user_id: String,
    pub username: Option<String>,
    pub email: Option<String>,
    pub allergens: Vec<String>,
    pub dietary_prefs: Vec<String>,
    pub risk_tolerance: RiskLevel,
    /// Milliseconds since the Unix epoch.
    pub created_at: i64,
    /// Milliseconds since the Unix epoch.
    pub updated_at: i64,
}

/// What a caller gives to change a profile. Fields that are absent stay as
/// they are.
#[derive(Debug)]
pub struct UpdateProfilePayload {
    pub username: Option<String>,
    pub email: Option<String>,
    pub allergens: Option<Vec<String>>,
    pub dietary_prefs: Option<Vec<String>>,
    pub risk_tolerance: Option<RiskLevel>,
}

/// One of the common allergens.
#[derive(Debug)]
pub struct AllergenInfo {
    pub id: String,
    pub name: String,
    pub description: Option<String>,
}

/// A failure of a request to the profile service. Variants that stand for a
/// failure of a store carry its description.
#[derive(Debug)]
pub enum AppError {
    Io(String),
    MongoDb(String),
    Redis(String),
    BsonSerialize(String),
    BsonDeserialize(String),
    Config(ConfigError),
    BadRequest(String),
    NotFound(String),
    Internal(String),
}

/// The kind of a failure.
pub open spec fn app_error_kind(e: AppError) -> ErrorKind {
    match e {
        AppError::Io(_) => ErrorKind::Internal,
        AppError::MongoDb(_) => ErrorKind::UpstreamUnavailable,
        AppError::Redis(_) => ErrorKind::UpstreamUnavailable,
        AppError::BsonSerialize(_) => ErrorKind::DataFormatError,
        AppError::BsonDeserialize(_) => ErrorKind::DataFormatError,
        AppError::Config(_) => ErrorKind::Internal,
        AppError::BadRequest(_) => ErrorKind::BadRequest,
        AppError::NotFound(_) => ErrorKind::NotFound,
        AppError::Internal(_) => ErrorKind::Internal,
    }
}

/// The status with which a failure is answered.
pub open spec fn app_error_status(e: AppError) -> u16 {
    match e {
        AppError::BsonDeserialize(_) => BAD_REQUEST,
        AppError::BadRequest(_) => BAD_REQUEST,
        AppError::NotFound(_) => NOT_FOUND,
        _ => INTERNAL_SERVER_ERROR,
    }
}

/// The message with which a failure is answered. The description of a failure
/// of a store is never passed on.
pub open spec fn app_error_message(e: AppError) -> Seq<char> {
    match e {
        AppError::Io(_) => "An internal input/output error occurred"@,
        AppError::MongoDb(_) => "Database operation failed"@,
        AppError::Redis(_) => "Cache or session operation failed"@,
        AppError::BsonSerialize(_) => "Failed to serialize data"@,
        AppError::BsonDeserialize(_) => "Failed to deserialize data"@,
        AppError::Config(_) => "Internal configuration problem"@,
        AppError::BadRequest(msg) => msg@,
        AppError::NotFound(msg) => msg@,
        AppError::Internal(_) => "An unexpected internal error occurred"@,
    }
}

/// The description of a failure for logs. Unlike the message of the answer,
/// it holds the description of what failed underneath.
pub open spec fn app_error_text(e: AppError) -> Seq<char> {
    match e {
        AppError::Io(text) => "Input/output error: "@ + text@,
        AppError::MongoDb(text) => "MongoDB error: "@ + text@,
        AppError::Redis(text) => "Redis error: "@ + text@,
        AppError::BsonSerialize(text) => "BSON serialization error: "@ + text@,
        AppError::BsonDeserialize(text) => "BSON deserialization error: "@ + text@,
        AppError::BadRequest(text) => "Invalid input: "@ + text@,
        AppError::NotFound(text) => "Resource not found: "@ + text@,
        AppError::Internal(text) => "Internal server error: "@ + text@,
        AppError::Config(inner) => "Configuration error: "@ + config_error_text(inner),
    }
}

impl AppError {
    /// A description of the failure for logs.
    pub fn describe(&self) -> (text: String)
        ensures
            text@ == app_error_text(*self),
    {
        match self {
            AppError::Io(text) => join2("Input/output error: ", text.as_str()),
            AppError::MongoDb(text) => join2("MongoDB error: ", text.as_str()),
            AppError::Redis(text) => join2("Redis error: ", text.as_str()),
            AppError::BsonSerialize(text) => join2("BSON serialization error: ", text.as_str()),
            AppError::BsonDeserialize(text) => join2("BSON deserialization error: ", text.as_str()),
            AppError::BadRequest(text) => join2("Invalid input: ", text.as_str()),
            AppError::NotFound(text) => join2("Resource not found: ", text.as_str()),
            AppError::Internal(text) => join2("Internal server error: ", text.as_str()),
            AppError::Config(inner) => join2("Configuration error: ", inner.describe().as_str()),
        }
    }

    /// The kind of the failure.
    pub fn kind(&self) -> (kind: ErrorKind)
        ensures
            kind == app_error_kind(*self),
    {
        match self {
            AppError::Io(_) => ErrorKind::Internal,
            AppError::MongoDb(_) => ErrorKind::UpstreamUnavailable,
            AppError::Redis(_) => ErrorKind::UpstreamUnavailable,
            AppError::BsonSerialize(_) => ErrorKind::DataFormatError,
            AppError::BsonDeserialize(_) => ErrorKind::DataFormatError,
            AppError::Config(_) => ErrorKind::Internal,
            AppError::BadRequest(_) => ErrorKind::BadRequest,
            AppError::NotFound(_) => ErrorKind::NotFound,
            AppError::Internal(_) => ErrorKind::Internal,
        }
    }

    /// The answer to a request that failed in this way.
    pub fn into_response(self) -> (response: ErrorResponse)
        ensures
            response.status == app_error_status(self),
            response.message@ == app_error_message(self),
            app_error_kind(self) == ErrorKind::NotFound <==> response.status == NOT_FOUND,
            app_error_kind(self) == ErrorKind::BadRequest ==> response.status == BAD_REQUEST,
    {
        match self {
            AppError::Io(_) => fixed_response(
                INTERNAL_SERVER_ERROR,
                "An internal input/output error occurred",
            ),
            AppError::MongoDb(_) => fixed_response(
                INTERNAL_SERVER_ERROR,
                "Database operation failed",
            ),
            AppError::Redis(_) => fixed_response(
                INTERNAL_SERVER_ERROR,
                "Cache or session operation failed",
            ),
            AppError::BsonSerialize(_) => fixed_response(
                INTERNAL_SERVER_ERROR,
                "Failed to serialize data",
            ),
            AppError::BsonDeserialize(_) => fixed_response(BAD_REQUEST, "Failed to deserialize data"),
            AppError::Config(_) => fixed_response(
                INTERNAL_SERVER_ERROR,
                "Internal configuration problem",
            ),
            AppError::BadRequest(msg) => ErrorResponse { status: BAD_REQUEST, message: msg },
            AppError::NotFound(msg) => ErrorResponse { status: NOT_FOUND, message: msg },
            AppError::Internal(_) => fixed_response(
                INTERNAL_SERVER_ERROR,
                "An unexpected internal error occurred",
            ),
        }
    }
}

impl From<ConfigError> for AppError {
    fn from(err: ConfigError) -> (ret: Self) {
        AppError::Config(err)
    }
}

impl vstd::std_specs::convert::FromSpecImpl<ConfigError> for AppError {
    open spec fn obeys_from_spec() -> bool {
        true
    }

    open spec fn from_spec(err: ConfigError) -> Self {
        AppError::Config(err)
    }
}

/// Whether `s` is an e-mail address by the rules of HTML5, as
/// `ValidateEmail::validate_email` of the crate validator decides it.
pub uninterp spec fn is_email_address(s: Seq<char>) -> bool;

/// Calls `ValidateEmail::validate_email` on the string. Trusted: the result
/// depends on the string alone; this crate only names it.
#[verifier::external_body]
fn validate_email(s: &str) -> (ok: bool)
    ensures
        ok == is_email_address(s@),
{
    validator::ValidateEmail::validate_email(&s)
}

/// Calls `ValidateLength::validate_length` on the string with a minimum and no
/// other bound. Trusted: the length that is held against the minimum is the
/// number of characters.
#[verifier::external_body]
fn validate_min_length(s: &str, min: u64) -> (ok: bool)
    ensures
        ok == (s@.len() >= min),
{
    validator::ValidateLength::validate_length(s, Some(min), None, None)
}

/// The least number of characters of a user name.
pub const MIN_USERNAME_LENGTH: u64 = 3;

/// Whether the user name of `payload`, if it gives one, is long enough.
pub open spec fn username_is_valid(payload: UpdateProfilePayload) -> bool {
    match payload.username {
        Some(name) => name@.len() >= MIN_USERNAME_LENGTH,
        None => true,
    }
}

/// Whether the e-mail address of `payload`, if it gives one, is one.
pub open spec fn email_is_valid(payload: UpdateProfilePayload) -> bool {
    match payload.email {
        Some(address) => is_email_address(address@),
        None => true,
    }
}

/// What is said of a payload that breaks a rule: the user name first, then the
/// e-mail address.
pub open spec fn validation_message(payload: UpdateProfilePayload) -> Seq<char> {
    if !username_is_valid(payload) && !email_is_valid(payload) {
        "Input validation failed: username: Username must be at least 3 characters long, email: Invalid email format"@
    } else if !username_is_valid(payload) {
        "Input validation failed: username: Username must be at least 3 characters long"@
    } else {
        "Input validation failed: email: Invalid email format"@
    }
}

/// Checks `payload` against the rules: a user name has at least three
/// characters, an e-mail address is one. Fields that are absent pass.
pub fn validate(payload: &UpdateProfilePayload) -> (r: Result<(), AppError>)
    ensures
        r is Ok <==> username_is_valid(*payload) && email_is_valid(*payload),
        r matches Err(e) ==> (e matches AppError::BadRequest(msg) && msg@ == validation_message(
            *payload,
        )),
{
    let username_ok = match &payload.username {
        Some(name) => validate_min_length(name.as_str(), MIN_USERNAME_LENGTH),
        None => true,
    };
    let email_ok = match &payload.email {
        Some(address) => validate_email(address.as_str()),
        None => true,
    };
    if username_ok && email_ok {
        Ok(())
    } else if !username_ok && !email_ok {
        Err(
            AppError::BadRequest(
                String::from_str(
                    "Input validation failed: username: Username must be at least 3 characters long, email: Invalid email format",
                ),
            ),
        )
    } else if !username_ok {
        Err(
            AppError::BadRequest(
                String::from_str(
                    "Input validation failed: username: Username must be at least 3 characters long",
                ),
            ),
        )
    } else {
        Err(
            AppError::BadRequest(
                String::from_str("Input validation failed: email: Invalid email format"),
            ),
        )
    }
}

/// A lookup of one profile: where it may be cached, for how long, and whose
/// it is.
#[derive(Debug)]
pub struct ProfileLookup {
    pub cache_key: String,
    pub ttl_seconds: u64,
    pub user_id: String,
}

/// The lookup of the profile of the user `user_id`.
pub fn profile_lookup(user_id: &str) -> (lookup: ProfileLookup)
    ensures
        lookup.cache_key@ == "profile:"@ + user_id@,
        lookup.ttl_seconds == PROFILE_TTL_SECONDS,
        lookup.user_id@ == user_id@,
{
    ProfileLookup {
        cache_key: profile_cache_key(user_id),
        ttl_seconds: PROFILE_TTL_SECONDS,
        user_id: String::from_str(user_id),
    }
}

/// The outcome of a profile lookup, from what the document store answered.
pub fn profile_lookup_result(user_id: &str, answer: StoreRead<UserProfile>) -> (r: Result<
    UserProfile,
    AppError,
>)
    ensures
        match answer {
            StoreRead::Found(profile) => r == Ok::<UserProfile, AppError>(profile),
            StoreRead::Missing => r matches Err(AppError::NotFound(msg)) && msg@
                == "Profile for user "@ + user_id@ + " not found"@,
            StoreRead::Failed(why) => r == Err::<UserProfile, AppError>(AppError::MongoDb(why)),
        },
{
    match answer {
        StoreRead::Found(profile) => Ok(profile),
        StoreRead::Missing => Err(
            AppError::NotFound(join3("Profile for user ", user_id, " not found")),
        ),
        StoreRead::Failed(why) => Err(AppError::MongoDb(why)),
    }
}

/// The change of the risk level, if a new one is given.
pub open spec fn risk_change(value: Option<RiskLevel>) -> Seq<FieldChange> {
    match value {
        Some(level) => seq![
            FieldChange { field: "risk_tolerance"@, value: ValueModel::Text(risk_level_name(level)) },
        ],
        None => Seq::empty(),
    }
}

/// The fields that `payload` changes.
pub open spec fn requested_changes(payload: UpdateProfilePayload) -> Seq<FieldChange> {
    text_change("username"@, payload.username) + text_change("email"@, payload.email)
        + list_change("allergens"@, payload.allergens) + list_change(
        "dietary_prefs"@,
        payload.dietary_prefs,
    ) + risk_change(payload.risk_tolerance)
}

/// The writing of a profile: the fields that are set in any case, and those
/// that are set only where the profile is new.
#[derive(Debug)]
pub struct ProfileUpsert {
    pub user_id: String,
    pub set: Vec<FieldUpdate>,
    pub set_on_insert: Vec<FieldUpdate>,
}

/// The writing of the profile of the user `user_id` that `payload` asks for
/// at the instant `now`. A payload that breaks a rule, or that changes
/// nothing, is a bad request.
pub fn plan_upsert(user_id: &str, payload: UpdateProfilePayload, now: i64) -> (r: Result<
    ProfileUpsert,
    AppError,
>)
    ensures
        r is Ok <==> username_is_valid(payload) && email_is_valid(payload) && requested_changes(
            payload,
        ).len() > 0,
        r matches Ok(upsert) ==> {
            &&& upsert.user_id@ == user_id@
            &&& changes_of(upsert.set@) == requested_changes(payload).push(
                FieldChange { field: "updated_at"@, value: ValueModel::Instant(now as int) },
            )
            &&& changes_of(upsert.set_on_insert@) == seq![
                FieldChange { field: "user_id"@, value: ValueModel::Text(user_id@) },
                FieldChange { field: "created_at"@, value: ValueModel::Instant(now as int) },
            ]
        },
        r matches Err(e) ==> (e matches AppError::BadRequest(msg) && msg@ == (if username_is_valid(
            payload,
        ) && email_is_valid(payload) {
            "No fields provided for update."@
        } else {
            validation_message(payload)
        })),
{
    match validate(&payload) {
        Err(e) => Err(e),
        Ok(_) => {
            let mut set: Vec<FieldUpdate> = Vec::new();
            push_text(&mut set, "username", payload.username);
            push_text(&mut set, "email", payload.email);
            push_list(&mut set, "allergens", payload.allergens);
            push_list(&mut set, "dietary_prefs", payload.dietary_prefs);
            match payload.risk_tolerance {
                Some(level) => {
                    set.push(
                        FieldUpdate {
                            field: String::from_str("risk_tolerance"),
                            value: FieldValue::Text(level.name()),
                        },
                    );
                },
                None => {},
            }
            if set.len() == 0 {
                Err(AppError::BadRequest(String::from_str("No fields provided for update.")))
            } else {
                set.push(
                    FieldUpdate {
                        field: String::from_str("updated_at"),
                        value: FieldValue::Instant(now),
                    },
                );
                let mut set_on_insert: Vec<FieldUpdate> = Vec::new();
                set_on_insert.push(
                    FieldUpdate {
                        field: String::from_str("user_id"),
                        value: FieldValue::Text(String::from_str(user_id)),
                    },
                );
                set_on_insert.push(
                    FieldUpdate {
                        field: String::from_str("created_at"),
                        value: FieldValue::Instant(now),
                    },
                );
                Ok(ProfileUpsert { user_id: String::from_str(user_id), set, set_on_insert })
            }
        },
    }
}

/// A profile that was written, and the cache keys that may hold its old
/// value: all of them are to be deleted.
#[derive(Debug)]
pub struct WrittenProfile {
    pub profile: UserProfile,
    pub stale_keys: Vec<String>,
}

/// The outcome of writing the profile of the user `user_id`, from what the
/// document store answered: the profile as it is now, with the key to delete
/// from the cache; or, where the store returned no profile, an internal
/// failure; or, where the write would repeat a key that must be unique, a bad
/// request.
pub fn upserted_profile(user_id: &str, answer: StoreWrite<Option<UserProfile>>) -> (r: Result<
    WrittenProfile,
    AppError,
>)
    ensures
        match answer {
            StoreWrite::Done(Some(profile)) => r matches Ok(written) && written.profile == profile
                && views_of(written.stale_keys@) == seq!["profile:"@ + user_id@],
            StoreWrite::Done(None) => r matches Err(AppError::Internal(msg)) && msg@
                == "Profile update failed unexpectedly after upsert operation."@,
            StoreWrite::Failed(failure) => if is_duplicate_key(failure) {
                r matches Err(AppError::BadRequest(msg)) && msg@
                    == "Update failed due to a conflicting unique identifier. Please check data integrity."@
            } else {
                r == Err::<WrittenProfile, AppError>(AppError::MongoDb(failure.text))
            },
        },
{
    match answer {
        StoreWrite::Done(Some(profile)) => {
            let mut stale_keys: Vec<String> = Vec::new();
            stale_keys.push(profile_cache_key(user_id));
            Ok(WrittenProfile { profile, stale_keys })
        },
        StoreWrite::Done(None) => Err(
            AppError::Internal(
                String::from_str("Profile update failed unexpectedly after upsert operation."),
            ),
        ),
        StoreWrite::Failed(failure) => {
            if failure.duplicate_key() {
                Err(
                    AppError::BadRequest(
                        String::from_str(
                            "Update failed due to a conflicting unique identifier. Please check data integrity.",
                        ),
                    ),
                )
            } else {
                Err(AppError::MongoDb(failure.text))
            }
        },
    }
}

/// Where the list of common allergens may be cached, and for how long.
#[derive(Debug)]
pub struct AllergensLookup {
    pub cache_key: String,
    pub ttl_seconds: u64,
}

/// The lookup of the list of common allergens.
pub fn allergens_lookup() -> (lookup: AllergensLookup)
    ensures
        lookup.cache_key@ == "allergens:list_v1"@,
        lookup.ttl_seconds == REFERENCE_TTL_SECONDS,
{
    AllergensLookup { cache_key: allergens_cache_key(), ttl_seconds: REFERENCE_TTL_SECONDS }
}

/// An allergen as a mathematical value.
pub struct AllergenModel {
    pub id: Seq<char>,
    pub name: Seq<char>,
    pub description: Option<Seq<char>>,
}

impl View for AllergenInfo {
    type V = AllergenModel;

    open spec fn view(&self) -> AllergenModel {
        AllergenModel {
            id: self.id@,
            name: self.name@,
            description: match self.description {
                Some(d) => Some(d@),
                None => None,
            },
        }
    }
}

/// The allergens in a list.
pub open spec fn allergen_models(list: Seq<AllergenInfo>) -> Seq<AllergenModel> {
    Seq::new(list.len(), |i: int| list[i]@)
}

/// An allergen with a description.
pub open spec fn described(id: Seq<char>, name: Seq<char>, description: Seq<char>) -> AllergenModel {
    AllergenModel { id, name, description: Some(description) }
}

/// An allergen without a description.
pub open spec fn plain(id: Seq<char>, name: Seq<char>) -> AllergenModel {
    AllergenModel { id, name, description: None }
}

/// The fourteen common allergens.
pub open spec fn common_allergen_table() -> Seq<AllergenModel> {
    seq![
        described(
            "gluten"@,
            "Cereals containing gluten"@,
            "Includes wheat (such as spelt and khorasan wheat), rye, barley, oats."@,
        ),
        described("crustaceans"@, "Crustaceans"@, "Includes crabs, lobsters, prawns, scampi."@),
        plain("eggs"@, "Eggs"@),
        plain("fish"@, "Fish"@),
        plain("peanuts"@, "Peanuts"@),
        plain("soybeans"@, "Soybeans"@),
        described("milk"@, "Milk"@, "Including lactose."@),
        described(
            "nuts"@,
            "Nuts"@,
            "Includes almonds, hazelnuts, walnuts, cashews, pecans, brazils, pistachios, macadamia nuts."@,
        ),
        plain("celery"@, "Celery"@),
        plain("mustard"@, "Mustard"@),
        plain("sesame"@, "Sesame seeds"@),
        described(
            "sulphites"@,
            "Sulphur dioxide and sulphites"@,
            "At concentrations of more than 10mg/kg or 10mg/litre."@,
        ),
        plain("lupin"@, "Lupin"@),
        described("molluscs"@, "Molluscs"@, "Includes mussels, oysters, squid, snails."@),
    ]
}

/// An entry of the list of common allergens.
fn allergen(id: &str, name: &str, description: Option<&str>) -> (info: AllergenInfo)
    ensures
        info@.id == id@,
        info@.name == name@,
        info@.description == (match description {
            Some(d) => Some(d@),
            None => None,
        }),
{
    AllergenInfo {
        id: String::from_str(id),
        name: String::from_str(name),
        description: match description {
            Some(d) => Some(String::from_str(d)),
            None => None,
        },
    }
}

/// The list of common allergens.
pub fn common_allergens() -> (list: Vec<AllergenInfo>)
    ensures
        allergen_models(list@) == common_allergen_table(),
{
    let mut list: Vec<AllergenInfo> = Vec::new();
    list.push(
        allergen(
            "gluten",
            "Cereals containing gluten",
            Some("Includes wheat (such as spelt and khorasan wheat), rye, barley, oats."),
        ),
    );
    list.push(
        allergen("crustaceans", "Crustaceans", Some("Includes crabs, lobsters, prawns, scampi.")),
    );
    list.push(allergen("eggs", "Eggs", None));
    list.push(allergen("fish", "Fish", None));
    list.push(allergen("peanuts", "Peanuts", None));
    list.push(allergen("soybeans", "Soybeans", None));
    list.push(allergen("milk", "Milk", Some("Including lactose.")));
    list.push(
        allergen(
            "nuts",
            "Nuts",
            Some(
                "Includes almonds, hazelnuts, walnuts, cashews, pecans, brazils, pistachios, macadamia nuts.",
            ),
        ),
    );
    list.push(allergen("celery", "Celery", None));
    list.push(allergen("mustard", "Mustard", None));
    list.push(allergen("sesame", "Sesame seeds", None));
    list.push(
        allergen(
            "sulphites",
            "Sulphur dioxide and sulphites",
            Some("At concentrations of more than 10mg/kg or 10mg/litre."),
        ),
    );
    list.push(allergen("lupin", "Lupin", None));
    list.push(
        allergen("molluscs", "Molluscs", Some("Includes mussels, oysters, squid, snails.")),
    );
    list
}

/// Whether `e` is the failure of a request that was given an answer it did
/// not wait for.
pub open spec fn is_out_of_step(e: AppError) -> bool {
    e matches AppError::Internal(msg) && msg@
        == "Answer does not belong to the current step of the request"@
}

/// The failure of a request that was given an answer it did not wait for.
fn out_of_step() -> (e: AppError)
    ensures
        is_out_of_step(e),
{
    AppError::Internal(String::from_str("Answer does not belong to the current step of the request"))
}

/// Where the read of a profile stands.
#[derive(Debug)]
pub enum ProfileReadState {
    /// The request came in.
    Received { user_id: String },
    /// The read goes through the cache and, on a miss, to the document store.
    Reading { user_id: String, read: ReadState },
    /// The answer was given.
    Finished,
}

/// What is to be done next for the read of a profile.
pub type ProfileReadAction = LookupAction<UserProfile, AppError>;

/// The end of a read with a failure.
fn read_fails(e: AppError) -> (next: (ProfileReadState, ProfileReadAction))
    ensures
        next.0 is Finished,
        next.1 matches LookupAction::Reply { result: Err(failure), write_back: None } && failure
            == e,
{
    (ProfileReadState::Finished, LookupAction::Reply { result: Err(e), write_back: None })
}

/// What an action of a read through the cache means for the request for the
/// profile of `user_id`, whose read stands at `read`: a record that is handed
/// out is the answer, a record that the store does not hold is not found, and
/// a failure of the store is the failure of the request.
fn profile_read_action(user_id: String, read: ReadState, action: ReadAction<UserProfile>) -> (next: (
    ProfileReadState,
    ProfileReadAction,
))
    ensures
        match action {
            ReadAction::AskCache { key } => {
                &&& next.0 == (ProfileReadState::Reading { user_id, read })
                &&& next.1 matches LookupAction::AskCache { key: asked }
                &&& asked == key
            },
            ReadAction::Decode { payload } => {
                &&& next.0 == (ProfileReadState::Reading { user_id, read })
                &&& next.1 matches LookupAction::Decode { payload: text }
                &&& text == payload
            },
            ReadAction::AskStore => {
                &&& next.0 == (ProfileReadState::Reading { user_id, read })
                &&& next.1 is AskStore
            },
            ReadAction::Serve { value, write_back } => {
                &&& next.0 is Finished
                &&& next.1 matches LookupAction::Reply { result: Ok(served), write_back: to }
                &&& served == value
                &&& to == write_back
            },
            ReadAction::NotFound => {
                &&& next.0 is Finished
                &&& next.1 matches LookupAction::Reply {
                    result: Err(AppError::NotFound(msg)),
                    write_back: None,
                }
                &&& msg@ == "Profile for user "@ + user_id@ + " not found"@
            },
            ReadAction::Fail(why) => {
                &&& next.0 is Finished
                &&& next.1 matches LookupAction::Reply {
                    result: Err(AppError::MongoDb(text)),
                    write_back: None,
                }
                &&& text == why
            },
            ReadAction::OutOfStep => {
                &&& next.0 is Finished
                &&& next.1 matches LookupAction::Reply { result: Err(e), write_back: None }
                &&& is_out_of_step(e)
            },
        },
{
    match action {
        ReadAction::AskCache { key } => (
            ProfileReadState::Reading { user_id, read },
            LookupAction::AskCache { key },
        ),
        ReadAction::Decode { payload } => (
            ProfileReadState::Reading { user_id, read },
            LookupAction::Decode { payload },
        ),
        ReadAction::AskStore => (ProfileReadState::Reading { user_id, read }, LookupAction::AskStore),
        ReadAction::Serve { value, write_back } => (
            ProfileReadState::Finished,
            LookupAction::Reply { result: Ok(value), write_back },
        ),
        ReadAction::NotFound => match profile_lookup_result(user_id.as_str(), StoreRead::Missing) {
            Ok(profile) => (
                ProfileReadState::Finished,
                LookupAction::Reply { result: Ok(profile), write_back: None },
            ),
            Err(e) => read_fails(e),
        },
        ReadAction::Fail(why) => read_fails(AppError::MongoDb(why)),
        ReadAction::OutOfStep => read_fails(out_of_step()),
    }
}

/// Whether `next` is what the step of `state` leads to once `event` has come
/// in: the state that follows, and what is to be done.
pub open spec fn profile_read_step(
    state: ProfileReadState,
    event: ReadEvent<UserProfile>,
    next: (ProfileReadState, ProfileReadAction),
) -> bool {
    match (state, event) {
        (ProfileReadState::Received { user_id }, ReadEvent::Begin) => {
            &&& next.0 matches ProfileReadState::Reading {
                user_id: user,
                read: ReadState::AwaitingCache { target },
            }
            &&& user == user_id
            &&& target.key@ == "profile:"@ + user_id@
            &&& target.ttl_seconds == PROFILE_TTL_SECONDS
            &&& next.1 matches LookupAction::AskCache { key }
            &&& key@ == "profile:"@ + user_id@
        },
        (
            ProfileReadState::Reading { user_id, read: ReadState::AwaitingCache { target } },
            ReadEvent::Cache(reply),
        ) => match payload_of(reply) {
            Some(text) => {
                &&& next.0 == (ProfileReadState::Reading {
                    user_id,
                    read: ReadState::AwaitingDecoding { target },
                })
                &&& next.1 matches LookupAction::Decode { payload }
                &&& payload@ == text
            },
            None => {
                &&& next.0 == (ProfileReadState::Reading {
                    user_id,
                    read: ReadState::AwaitingStore { target },
                })
                &&& next.1 is AskStore
            },
        },
        (
            ProfileReadState::Reading { user_id, read: ReadState::AwaitingDecoding { target } },
            ReadEvent::Decoded(decoded),
        ) => match decoded {
            Some(profile) => {
                &&& next.0 is Finished
                &&& next.1 matches LookupAction::Reply { result: Ok(served), write_back: None }
                &&& served == profile
            },
            None => {
                &&& next.0 == (ProfileReadState::Reading {
                    user_id,
                    read: ReadState::AwaitingStore { target },
                })
                &&& next.1 is AskStore
            },
        },
        (
            ProfileReadState::Reading { user_id, read: ReadState::AwaitingStore { target } },
            ReadEvent::Store(found),
        ) => match found {
            Some(profile) => {
                &&& next.0 is Finished
                &&& next.1 matches LookupAction::Reply {
                    result: Ok(served),
                    write_back: Some(to),
                }
                &&& served == profile
                &&& to == target
            },
            None => {
                &&& next.0 is Finished
                &&& next.1 matches LookupAction::Reply {
                    result: Err(AppError::NotFound(msg)),
                    write_back: None,
                }
                &&& msg@ == "Profile for user "@ + user_id@ + " not found"@
            },
        },
        (
            ProfileReadState::Reading { user_id, read: ReadState::AwaitingStore { target } },
            ReadEvent::StoreFailed(why),
        ) => {
            &&& next.0 is Finished
            &&& next.1 matches LookupAction::Reply {
                result: Err(AppError::MongoDb(text)),
                write_back: None,
            }
            &&& text == why
        },
        _ => {
            &&& next.0 is Finished
            &&& next.1 matches LookupAction::Reply { result: Err(e), write_back: None }
            &&& is_out_of_step(e)
        },
    }
}

/// One step of the request for a user's profile: what the step of `state`
/// leads to once `event` has come in.
///
/// The profile is read under the key `profile:<user_id>` with a time to live
/// of 3600 seconds: from the cache where it holds a text that is not empty
/// and can be decoded, else from the document store, whose record is the
/// answer and is written back to the cache. A profile that the store does not
/// hold is not found; a failure of the store is the failure of the request; a
/// failure of the cache never is.
pub fn get_profile(state: ProfileReadState, event: ReadEvent<UserProfile>) -> (next: (
    ProfileReadState,
    ProfileReadAction,
))
    ensures
        profile_read_step(state, event, next),
{
    match state {
        ProfileReadState::Received { user_id } => match event {
            ReadEvent::Begin => {
                let lookup = profile_lookup(user_id.as_str());
                let (read, action) = begin_read::<UserProfile>(lookup.cache_key, lookup.ttl_seconds);
                profile_read_action(user_id, read, action)
            },
            _ => read_fails(out_of_step()),
        },
        ProfileReadState::Reading { user_id, read } => {
            let (read, action) = advance_read(read, event);
            profile_read_action(user_id, read, action)
        },
        ProfileReadState::Finished => read_fails(out_of_step()),
    }
}

/// Where the read of the list of common allergens stands.
#[derive(Debug)]
pub enum AllergensReadState {
    /// The request came in.
    Received,
    /// The cache was asked, or its text is being decoded.
    Reading { read: ReadState },
    /// The answer was given.
    Finished,
}

/// What is to be done next for the read of the list of common allergens.
pub type AllergensReadAction = LookupAction<Vec<AllergenInfo>, AppError>;

/// The answer on a miss: the list itself, to be cached at `target`.
fn allergens_on_miss(target: CacheTarget) -> (next: (AllergensReadState, AllergensReadAction))
    ensures
        next.0 is Finished,
        next.1 matches LookupAction::Reply { result: Ok(list), write_back: Some(to) }
            && allergen_models(list@) == common_allergen_table() && to == target,
{
    (
        AllergensReadState::Finished,
        LookupAction::Reply { result: Ok(common_allergens()), write_back: Some(target) },
    )
}

/// The end of the read with the failure of an answer out of step.
fn allergens_out_of_step() -> (next: (AllergensReadState, AllergensReadAction))
    ensures
        next.0 is Finished,
        next.1 matches LookupAction::Reply { result: Err(e), write_back: None } && is_out_of_step(
            e,
        ),
{
    (AllergensReadState::Finished, LookupAction::Reply { result: Err(out_of_step()), write_back: None })
}

/// What an action of a read through the cache means for the request for the
/// list of common allergens, whose read stands at `read`: where the read
/// would go to the document store, the list itself is the answer and is
/// cached.
fn allergens_read_action(read: ReadState, action: ReadAction<Vec<AllergenInfo>>) -> (next: (
    AllergensReadState,
    AllergensReadAction,
))
    ensures
        match action {
            ReadAction::AskCache { key } => {
                &&& next.0 == (AllergensReadState::Reading { read })
                &&& next.1 matches LookupAction::AskCache { key: asked }
                &&& asked == key
            },
            ReadAction::Decode { payload } => {
                &&& next.0 == (AllergensReadState::Reading { read })
                &&& next.1 matches LookupAction::Decode { payload: text }
                &&& text == payload
            },
            ReadAction::AskStore => match read {
                ReadState::AwaitingStore { target } => {
                    &&& next.0 is Finished
                    &&& next.1 matches LookupAction::Reply {
                        result: Ok(list),
                        write_back: Some(to),
                    }
                    &&& allergen_models(list@) == common_allergen_table()
                    &&& to == target
                },
                _ => {
                    &&& next.0 is Finished
                    &&& next.1 matches LookupAction::Reply { result: Err(e), write_back: None }
                    &&& is_out_of_step(e)
                },
            },
            ReadAction::Serve { value, write_back } => {
                &&& next.0 is Finished
                &&& next.1 matches LookupAction::Reply { result: Ok(list), write_back: to }
                &&& list == value
                &&& to == write_back
            },
            _ => {
                &&& next.0 is Finished
                &&& next.1 matches LookupAction::Reply { result: Err(e), write_back: None }
                &&& is_out_of_step(e)
            },
        },
{
    match action {
        ReadAction::AskCache { key } => (
            AllergensReadState::Reading { read },
            LookupAction::AskCache { key },
        ),
        ReadAction::Decode { payload } => (
            AllergensReadState::Reading { read },
            LookupAction::Decode { payload },
        ),
        ReadAction::AskStore => match read {
            ReadState::AwaitingStore { target } => allergens_on_miss(target),
            _ => allergens_out_of_step(),
        },
        ReadAction::Serve { value, write_back } => (
            AllergensReadState::Finished,
            LookupAction::Reply { result: Ok(value), write_back },
        ),
        _ => allergens_out_of_step(),
    }
}

/// Whether `next` is what the step of `state` leads to once `event` has come
/// in: the state that follows, and what is to be done.
pub open spec fn allergens_read_step(
    state: AllergensReadState,
    event: ReadEvent<Vec<AllergenInfo>>,
    next: (AllergensReadState, AllergensReadAction),
) -> bool {
    match (state, event) {
        (AllergensReadState::Received, ReadEvent::Begin) => {
            &&& next.0 matches AllergensReadState::Reading {
                read: ReadState::AwaitingCache { target },
            }
            &&& target.key@ == "allergens:list_v1"@
            &&& target.ttl_seconds == REFERENCE_TTL_SECONDS
            &&& next.1 matches LookupAction::AskCache { key }
            &&& key@ == "allergens:list_v1"@
        },
        (
            AllergensReadState::Reading { read: ReadState::AwaitingCache { target } },
            ReadEvent::Cache(reply),
        ) => match payload_of(reply) {
            Some(text) => {
                &&& next.0 == (AllergensReadState::Reading {
                    read: ReadState::AwaitingDecoding { target },
                })
                &&& next.1 matches LookupAction::Decode { payload }
                &&& payload@ == text
            },
            None => {
                &&& next.0 is Finished
                &&& next.1 matches LookupAction::Reply { result: Ok(list), write_back: Some(to) }
                &&& allergen_models(list@) == common_allergen_table()
                &&& to == target
            },
        },
        (
            AllergensReadState::Reading { read: ReadState::AwaitingDecoding { target } },
            ReadEvent::Decoded(decoded),
        ) => match decoded {
            Some(cached) => {
                &&& next.0 is Finished
                &&& next.1 matches LookupAction::Reply { result: Ok(list), write_back: None }
                &&& list == cached
            },
            None => {
                &&& next.0 is Finished
                &&& next.1 matches LookupAction::Reply { result: Ok(list), write_back: Some(to) }
                &&& allergen_models(list@) == common_allergen_table()
                &&& to == target
            },
        },
        _ => {
            &&& next.0 is Finished
            &&& next.1 matches LookupAction::Reply { result: Err(e), write_back: None }
            &&& is_out_of_step(e)
        },
    }
}

/// One step of the request for the list of common allergens: what the step
/// of `state` leads to once `event` has come in.
///
/// The list is read under the key `allergens:list_v1` with a time to live of
/// 86400 seconds. Where the cache holds a text that is not empty and can be
/// decoded, what it decodes to is the answer. In every other case the answer
/// is the list of the fourteen common allergens, in its order, and the list
/// is written to the cache once. The document store is never asked, and a
/// failure of the cache never fails the request.
pub fn get_allergens(state: AllergensReadState, event: ReadEvent<Vec<AllergenInfo>>) -> (next: (
    AllergensReadState,
    AllergensReadAction,
))
    ensures
        allergens_read_step(state, event, next),
{
    match state {
        AllergensReadState::Received => match event {
            ReadEvent::Begin => {
                let lookup = allergens_lookup();
                let (read, action) = begin_read::<Vec<AllergenInfo>>(
                    lookup.cache_key,
                    lookup.ttl_seconds,
                );
                allergens_read_action(read, action)
            },
            _ => allergens_out_of_step(),
        },
        AllergensReadState::Reading { read } => match read {
            ReadState::AwaitingCache { .. } | ReadState::AwaitingDecoding { .. } => {
                let (read, action) = advance_read(read, event);
                allergens_read_action(read, action)
            },
            _ => allergens_out_of_step(),
        },
        AllergensReadState::Finished => allergens_out_of_step(),
    }
}

/// Where the writing of a profile stands.
#[derive(Debug)]
pub enum UpsertState {
    /// The request came in.
    Received { user_id: String, payload: UpdateProfilePayload, now: i64 },
    /// The profile is being written.
    Writing { user_id: String },
    /// The answer was given.
    Finished,
}

/// What the document store answered to the last step of a write.
#[derive(Debug)]
pub enum UpsertEvent {
    /// The request came in.
    Begin,
    /// The document store answered the write.
    Written(StoreWrite<Option<UserProfile>>),
}

/// What is to be done next for the writing of a profile.
#[derive(Debug)]
pub enum UpsertAction {
    /// Write the profile: set the fields of `set`, and those of
    /// `set_on_insert` where the profile is new; return the profile as it is
    /// afterwards.
    Write(ProfileUpsert),
    /// Answer the request, after deleting `stale_keys` from the cache in one
    /// operation; a failure to delete is ignored.
    Reply { result: Result<UserProfile, AppError>, stale_keys: Vec<String> },
}

/// The end of a write with a failure; nothing is deleted from the cache.
fn upsert_fails(e: AppError) -> (next: (UpsertState, UpsertAction))
    ensures
        next.0 is Finished,
        next.1 matches UpsertAction::Reply { result: Err(failure), stale_keys } && failure == e
            && stale_keys@.len() == 0,
{
    (UpsertState::Finished, UpsertAction::Reply { result: Err(e), stale_keys: Vec::new() })
}

/// Whether `next` is what the step of `state` leads to once `event` has come
/// in: the state that follows, and what is to be done.
pub open spec fn upsert_step(state: UpsertState, event: UpsertEvent, next: (UpsertState, UpsertAction)) -> bool {
    match (state, event) {
        (UpsertState::Received { user_id, payload, now }, UpsertEvent::Begin) => {
            if username_is_valid(payload) && email_is_valid(payload) && requested_changes(
                payload,
            ).len() > 0 {
                &&& next.0 matches UpsertState::Writing { user_id: user }
                &&& user == user_id
                &&& next.1 matches UpsertAction::Write(upsert)
                &&& upsert.user_id@ == user_id@
                &&& changes_of(upsert.set@) == requested_changes(payload).push(
                    FieldChange { field: "updated_at"@, value: ValueModel::Instant(now as int) },
                )
                &&& changes_of(upsert.set_on_insert@) == seq![
                    FieldChange { field: "user_id"@, value: ValueModel::Text(user_id@) },
                    FieldChange { field: "created_at"@, value: ValueModel::Instant(now as int) },
                ]
            } else {
                &&& next.0 is Finished
                &&& next.1 matches UpsertAction::Reply {
                    result: Err(AppError::BadRequest(msg)),
                    stale_keys,
                }
                &&& stale_keys@.len() == 0
                &&& msg@ == (if username_is_valid(payload) && email_is_valid(payload) {
                    "No fields provided for update."@
                } else {
                    validation_message(payload)
                })
            }
        },
        (UpsertState::Writing { user_id }, UpsertEvent::Written(answer)) => {
            &&& next.0 is Finished
            &&& next.1 matches UpsertAction::Reply { result, stale_keys }
            &&& match answer {
                StoreWrite::Done(Some(profile)) => result == Ok::<UserProfile, AppError>(
                    profile,
                ) && views_of(stale_keys@) == seq!["profile:"@ + user_id@],
                StoreWrite::Done(None) => stale_keys@.len() == 0 && (result matches Err(
                    AppError::Internal(msg),
                ) && msg@ == "Profile update failed unexpectedly after upsert operation."@),
                StoreWrite::Failed(failure) => stale_keys@.len() == 0 && (if is_duplicate_key(
                    failure,
                ) {
                    result matches Err(AppError::BadRequest(msg)) && msg@
                        == "Update failed due to a conflicting unique identifier. Please check data integrity."@
                } else {
                    result == Err::<UserProfile, AppError>(AppError::MongoDb(failure.text))
                }),
            }
        },
        _ => {
            &&& next.0 is Finished
            &&& next.1 matches UpsertAction::Reply { result: Err(e), stale_keys }
            &&& is_out_of_step(e)
            &&& stale_keys@.len() == 0
        },
    }
}

/// One step of the request to change a user's profile: what the step of
/// `state` leads to once `event` has come in.
///
/// A payload that breaks a rule, or that changes nothing, is a bad request
/// and nothing is written. Else the profile of the user is written, or
/// created where there is none. The record that the store returns is the
/// answer, and the key `profile:<user_id>` is deleted from the cache. Where
/// the store returns no record the request fails internally; where the write
/// would repeat a key that must be unique it is a bad request; any other
/// failure of the store is the failure of the request. After a failure
/// nothing is deleted from the cache.
pub fn update_profile(state: UpsertState, event: UpsertEvent) -> (next: (UpsertState, UpsertAction))
    ensures
        upsert_step(state, event, next),
{
    match state {
        UpsertState::Received { user_id, payload, now } => match event {
            UpsertEvent::Begin => match plan_upsert(user_id.as_str(), payload, now) {
                Ok(upsert) => (UpsertState::Writing { user_id }, UpsertAction::Write(upsert)),
                Err(e) => upsert_fails(e),
            },
            _ => upsert_fails(out_of_step()),
        },
        UpsertState::Writing { user_id } => match event {
            UpsertEvent::Written(answer) => match upserted_profile(user_id.as_str(), answer) {
                Ok(written) => (
                    UpsertState::Finished,
                    UpsertAction::Reply {
                        result: Ok(written.profile),
                        stale_keys: written.stale_keys,
                    },
                ),
                Err(e) => upsert_fails(e),
            },
            _ => upsert_fails(out_of_step()),
        },
        UpsertState::Finished => upsert_fails(out_of_step()),
    }
}

/// Whether the read of the profile of `user_id` through the cache ended as
/// it must, where the cache held `cache`, the cached text decoded to
/// `decoded` and the document store answered `store`. What the cache serves
/// is the answer and is not written again. In every other case, a failure of
/// the cache among them, the document store decides: its record is the
/// answer and is written to the cache under `profile:<user_id>` for 3600
/// seconds; without a record the profile is not found; a failure of the
/// store is the failure of the request.
pub open spec fn is_profile_read_outcome(
    user_id: Seq<char>,
    cache: CacheReply,
    decoded: Option<UserProfile>,
    store: StoreRead<UserProfile>,
    last: ProfileReadAction,
) -> bool {
    &&& last matches LookupAction::Reply { result, write_back }
    &&& if served_by_cache(cache, decoded) {
        &&& result == Ok::<UserProfile, AppError>(decoded->Some_0)
        &&& write_back is None
    } else {
        match store {
            StoreRead::Found(profile) => {
                &&& result == Ok::<UserProfile, AppError>(profile)
                &&& write_back matches Some(target)
                &&& target.key@ == "profile:"@ + user_id
                &&& target.ttl_seconds == PROFILE_TTL_SECONDS
            },
            StoreRead::Missing => {
                &&& result matches Err(AppError::NotFound(msg))
                &&& msg@ == "Profile for user "@ + user_id + " not found"@
                &&& write_back is None
            },
            StoreRead::Failed(why) => {
                &&& result == Err::<UserProfile, AppError>(AppError::MongoDb(why))
                &&& write_back is None
            },
        }
    }
}

/// The request for a user's profile runs to its answer in at most four
/// steps. The cache is asked under `profile:<user_id>`, the document store is
/// asked exactly where the cache did not serve the profile, and the answer is
/// that of a read through the cache.
pub proof fn law_profile_is_read_through_the_cache(
    user_id: String,
    cache: CacheReply,
    decoded: Option<UserProfile>,
    store: StoreRead<UserProfile>,
    first: (ProfileReadState, ProfileReadAction),
    second: (ProfileReadState, ProfileReadAction),
    third: (ProfileReadState, ProfileReadAction),
    fourth: (ProfileReadState, ProfileReadAction),
)
    requires
        profile_read_step(ProfileReadState::Received { user_id }, ReadEvent::Begin, first),
        profile_read_step(first.0, event_for(first.1, cache, decoded, store), second),
        profile_read_step(second.0, event_for(second.1, cache, decoded, store), third),
        profile_read_step(third.0, event_for(third.1, cache, decoded, store), fourth),
    ensures
        first.1 matches LookupAction::AskCache { key } && key@ == "profile:"@ + user_id@,
        asks_store(second.1, third.1, fourth.1) <==> !served_by_cache(cache, decoded),
        is_profile_read_outcome(
            user_id@,
            cache,
            decoded,
            store,
            first_reply(first.1, second.1, third.1, fourth.1),
        ),
{
}

/// The request for the list of common allergens runs to its answer in at
/// most three steps and never asks the document store. What the cache serves
/// is the answer. In every other case, a failure of the cache among them, the
/// answer is the list of the common allergens, which is written to the cache
/// under `allergens:list_v1` for 86400 seconds. The request never fails.
pub proof fn law_allergens_are_read_through_the_cache(
    cache: CacheReply,
    decoded: Option<Vec<AllergenInfo>>,
    store: StoreRead<Vec<AllergenInfo>>,
    first: (AllergensReadState, AllergensReadAction),
    second: (AllergensReadState, AllergensReadAction),
    third: (AllergensReadState, AllergensReadAction),
)
    requires
        allergens_read_step(AllergensReadState::Received, ReadEvent::Begin, first),
        allergens_read_step(first.0, event_for(first.1, cache, decoded, store), second),
        allergens_read_step(second.0, event_for(second.1, cache, decoded, store), third),
    ensures
        first.1 matches LookupAction::AskCache { key } && key@ == "allergens:list_v1"@,
        !asks_store(first.1, second.1, third.1),
        ({
            let last = if second.1 is Reply {
                second.1
            } else {
                third.1
            };
            &&& last matches LookupAction::Reply { result: Ok(list), write_back }
            &&& if served_by_cache(cache, decoded) {
                &&& list == decoded->Some_0
                &&& write_back is None
            } else {
                &&& allergen_models(list@) == common_allergen_table()
                &&& write_back matches Some(target)
                &&& target.key@ == "allergens:list_v1"@
                &&& target.ttl_seconds == REFERENCE_TTL_SECONDS
            }
        }),
{
}

/// Whether `last` is the answer that is owed to the request to change the
/// profile of `user_id` as `payload` says, where the document store answers
/// the write with `written`. Only a write that the store has made deletes a
/// key from the cache: `profile:<user_id>`.
pub open spec fn is_upsert_outcome(
    user_id: Seq<char>,
    payload: UpdateProfilePayload,
    written: StoreWrite<Option<UserProfile>>,
    last: UpsertAction,
) -> bool {
    &&& last matches UpsertAction::Reply { result, stale_keys }
    &&& if !(username_is_valid(payload) && email_is_valid(payload)) {
        &&& result matches Err(AppError::BadRequest(msg))
        &&& msg@ == validation_message(payload)
        &&& stale_keys@.len() == 0
    } else if requested_changes(payload).len() == 0 {
        &&& result matches Err(AppError::BadRequest(msg))
        &&& msg@ == "No fields provided for update."@
        &&& stale_keys@.len() == 0
    } else {
        match written {
            StoreWrite::Done(Some(profile)) => {
                &&& result == Ok::<UserProfile, AppError>(profile)
                &&& views_of(stale_keys@) == seq!["profile:"@ + user_id]
            },
            StoreWrite::Done(None) => {
                &&& result matches Err(AppError::Internal(msg))
                &&& msg@ == "Profile update failed unexpectedly after upsert operation."@
                &&& stale_keys@.len() == 0
            },
            StoreWrite::Failed(failure) => {
                &&& stale_keys@.len() == 0
                &&& if is_duplicate_key(failure) {
                    result matches Err(AppError::BadRequest(msg)) && msg@
                        == "Update failed due to a conflicting unique identifier. Please check data integrity."@
                } else {
                    result == Err::<UserProfile, AppError>(AppError::MongoDb(failure.text))
                }
            },
        }
    }
}

/// The request to change a user's profile runs to its answer in at most two
/// steps. The store is written to exactly where the payload keeps the rules
/// and changes something. What is written is the profile of the user of the
/// request: the write names that user, sets the fields of the payload and the
/// instant of the change, and gives a new profile that user's identifier. The
/// answer is the one owed to the request.
pub proof fn law_upsert_runs_to_its_answer(
    user_id: String,
    payload: UpdateProfilePayload,
    now: i64,
    written: StoreWrite<Option<UserProfile>>,
    first: (UpsertState, UpsertAction),
    second: (UpsertState, UpsertAction),
)
    requires
        upsert_step(UpsertState::Received { user_id, payload, now }, UpsertEvent::Begin, first),
        upsert_step(
            first.0,
            if first.1 is Write {
                UpsertEvent::Written(written)
            } else {
                UpsertEvent::Begin
            },
            second,
        ),
    ensures
        first.1 is Write <==> username_is_valid(payload) && email_is_valid(payload)
            && requested_changes(payload).len() > 0,
        first.1 matches UpsertAction::Write(upsert) ==> {
            &&& upsert.user_id@ == user_id@
            &&& changes_of(upsert.set@) == requested_changes(payload).push(
                FieldChange { field: "updated_at"@, value: ValueModel::Instant(now as int) },
            )
            &&& changes_of(upsert.set_on_insert@) == seq![
                FieldChange { field: "user_id"@, value: ValueModel::Text(user_id@) },
                FieldChange { field: "created_at"@, value: ValueModel::Instant(now as int) },
            ]
        },
        is_upsert_outcome(
            user_id@,
            payload,
            written,
            if first.1 is Reply {
                first.1
            } else {
                second.1
            },
        ),
{
}

/// After a profile was written and its key was deleted from the cache, a
/// request for it is not served by the cache: the document store is asked,
/// and what it holds is the answer and is cached anew for 3600 seconds.
pub proof fn law_profile_misses_after_invalidation(
    user_id: String,
    contents: CacheContents,
    now: int,
    cache: CacheReply,
    decoded: Option<UserProfile>,
    store: StoreRead<UserProfile>,
    first: (ProfileReadState, ProfileReadAction),
    second: (ProfileReadState, ProfileReadAction),
    third: (ProfileReadState, ProfileReadAction),
    fourth: (ProfileReadState, ProfileReadAction),
)
    requires
        answers_from(
            invalidated(contents, seq!["profile:"@ + user_id@].to_set()),
            "profile:"@ + user_id@,
            now,
            cache,
        ),
        profile_read_step(ProfileReadState::Received { user_id }, ReadEvent::Begin, first),
        profile_read_step(first.0, event_for(first.1, cache, decoded, store), second),
        profile_read_step(second.0, event_for(second.1, cache, decoded, store), third),
        profile_read_step(third.0, event_for(third.1, cache, decoded, store), fourth),
    ensures
        !served_by_cache(cache, decoded),
        second.1 is AskStore,
        store matches StoreRead::Found(record) ==> (third.1 matches LookupAction::Reply {
            result: Ok(served),
            write_back: Some(target),
        } && served == record && target.key@ == "profile:"@ + user_id@ && target.ttl_seconds
            == PROFILE_TTL_SECONDS),
{
    let keys = seq!["profile:"@ + user_id@];
    assert(keys[0] == "profile:"@ + user_id@);
    law_invalidated_keys_miss(contents, keys.to_set(), "profile:"@ + user_id@, now);
}

/// A profile that was written back to the cache is served from it until its
/// time to live has passed: a request for it then gets the record that the
/// cached text decodes to, and the document store is not asked.
pub proof fn law_profile_is_served_again(
    user_id: String,
    contents: CacheContents,
    text: Seq<char>,
    written_at: u64,
    read_at: int,
    cache: CacheReply,
    record: UserProfile,
    store: StoreRead<UserProfile>,
    first: (ProfileReadState, ProfileReadAction),
    second: (ProfileReadState, ProfileReadAction),
    third: (ProfileReadState, ProfileReadAction),
    fourth: (ProfileReadState, ProfileReadAction),
)
    requires
        text.len() > 0,
        written_at <= read_at < expiry(written_at, PROFILE_TTL_SECONDS),
        answers_from(
            written(contents, "profile:"@ + user_id@, text, PROFILE_TTL_SECONDS, written_at),
            "profile:"@ + user_id@,
            read_at,
            cache,
        ),
        profile_read_step(ProfileReadState::Received { user_id }, ReadEvent::Begin, first),
        profile_read_step(first.0, event_for(first.1, cache, Some(record), store), second),
        profile_read_step(second.0, event_for(second.1, cache, Some(record), store), third),
        profile_read_step(third.0, event_for(third.1, cache, Some(record), store), fourth),
    ensures
        second.1 matches LookupAction::Decode { payload } && payload@ == text,
        third.1 matches LookupAction::Reply { result: Ok(served), write_back: None } && served
            == record,
        !asks_store(first.1, second.1, third.1),
{
    law_read_your_write(
        contents,
        "profile:"@ + user_id@,
        text,
        PROFILE_TTL_SECONDS,
        written_at,
        read_at,
    );
}

} // verus!
