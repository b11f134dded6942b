//! The product catalogue: its records, the decisions of its lookups, writes
//! and searches, and how its failures are answered.
//!
//! Reading and writing the stores is left to the caller. Each request is a
//! function that takes what a store answered and says what is to be done
//! next; reads go through the cache as `cache::advance_read` has it.

use crate::cache::{
    advance_read, answers_from, asks_store, begin_read, event_for, expiry, first_reply,
    invalidated, law_invalidated_keys_miss, law_read_your_write, payload_of, product_cache_keys,
    product_code_cache_key, product_id_cache_key, served_by_cache, written, CacheContents,
    CacheReply, LookupAction, ReadAction, ReadEvent, ReadState, PRODUCT_TTL_SECONDS,
};
use crate::config::ConfigError;
use crate::errors::{
    fixed_response, ErrorKind, ErrorResponse, BAD_REQUEST, INTERNAL_SERVER_ERROR, NOT_FOUND,
};
use crate::ids::{canonical_hex, is_document_id_text, DocumentId};
use crate::names::{distinct_names, name_set_of, NameSet};
use crate::recommend::{ascending_conflict_tags, ascending_diet_tags, ascends};
use crate::store::{
    changes_of, is_duplicate_key, list_change, push_list, push_text, text_change, FieldChange,
    FieldUpdate, FieldValue, StoreFailure, StoreRead, StoreWrite, ValueModel,
};
use crate::text::{
    clone_strings, join2, join3, lowercase_of, to_lowercase, trim, trimmed, views_of,
};
use vstd::prelude::*;

verus! {

/// A product of the catalogue.
#[derive(Debug)]
pub struct Product {
    /// The identifier that the document store gave the product.
    pub id: Option<DocumentId>,
    /// The barcode. It is text: barcodes may start with zeros.
    pub code: String,
    pub product_name: Option<String>,
    pub generic_name: Option<String>,
    pub brands: Option<Vec<String>>,
    pub categories: Option<Vec<String>>,
    pub main_category: Option<String>,
    pub labels: Option<Vec<String>>,
    pub ingredients_text: Option<String>,
    pub traces_tags: Option<Vec<String>>,
    pub allergens_tags: Vec<String>,
    /// Number and unit, as in "500 g".
    pub quantity: Option<String>,
    pub image_url: Option<String>,
    pub image_small_url: Option<String>,
    pub countries: Option<Vec<String>>,
    pub nutrition_grade_fr: Option<String>,
    pub creator: Option<String>,
    /// Where the data comes from.
    pub source: Option<String>,
    /// Milliseconds since the Unix epoch.
    pub created_at: i64,
    /// Milliseconds since the Unix epoch.
    pub last_modified_at: i64,
}

/// What a caller gives to create a product.
#[derive(Debug)]
pub struct CreateProductPayload {
    pub code: String,
    pub product_name: Option<String>,
    pub ingredients_text: Option<String>,
    pub brands: Option<Vec<String>>,
    pub categories: Option<Vec<String>>,
}

/// What a caller gives to change a product. Fields that are absent stay as
/// they are.
#[derive(Debug)]
pub struct UpdateProductPayload {
    pub product_name: Option<String>,
    pub generic_name: Option<String>,
    pub image_url: Option<String>,
    pub ingredients_text: Option<String>,
    pub brands: Option<Vec<String>>,
    pub categories: Option<Vec<String>>,
    pub labels: Option<Vec<String>>,
    pub traces: Option<Vec<String>>,
    pub allergens_tags: Option<Vec<String>>,
    pub quantity: Option<String>,
    pub countries: Option<Vec<String>>,
    pub nutrition_grade_fr: Option<String>,
}

/// What a caller gives to search the catalogue.
#[derive(Debug)]
pub struct SearchParams {
    pub q: Option<String>,
    pub category: Option<String>,
    pub brand: Option<String>,
    pub label: Option<String>,
    pub country: Option<String>,
    pub nutriscore: Option<String>,
    pub limit: Option<u64>,
    pub offset: Option<u64>,
    pub user_allergens: Option<Vec<String>>,
    pub user_diets: Option<Vec<String>>,
}

/// A failure of a request to the catalogue. Variants that stand for a failure
/// of a store or of a peer carry its description.
#[derive(Debug)]
pub enum ServiceError {
    Io(String),
    MongoDb(String),
    Redis(String),
    Qdrant(String),
    Neo4j(String),
    Reqwest(String),
    BsonSerialize(String),
    BsonDeserialize(String),
    MissingVariable(String),
    InvalidVariable(String),
    Dotenv(String),
    VarError(String),
    BadRequest(String),
    NotFound(String),
    Internal(String),
}

/// The kind of a failure.
pub open spec fn service_error_kind(e: ServiceError) -> ErrorKind {
    match e {
        ServiceError::Io(_) => ErrorKind::Internal,
        ServiceError::MongoDb(_) => ErrorKind::UpstreamUnavailable,
        ServiceError::Redis(_) => ErrorKind::UpstreamUnavailable,
        ServiceError::Qdrant(_) => ErrorKind::UpstreamUnavailable,
        ServiceError::Neo4j(_) => ErrorKind::UpstreamUnavailable,
        ServiceError::Reqwest(_) => ErrorKind::UpstreamUnavailable,
        ServiceError::BsonSerialize(_) => ErrorKind::DataFormatError,
        ServiceError::BsonDeserialize(_) => ErrorKind::DataFormatError,
        ServiceError::MissingVariable(_) => ErrorKind::Internal,
        ServiceError::InvalidVariable(_) => ErrorKind::Internal,
        ServiceError::Dotenv(_) => ErrorKind::Internal,
        ServiceError::VarError(_) => ErrorKind::Internal,
        ServiceError::BadRequest(_) => ErrorKind::BadRequest,
        ServiceError::NotFound(_) => ErrorKind::NotFound,
        ServiceError::Internal(_) => ErrorKind::Internal,
    }
}

/// The status with which a failure is answered.
pub open spec fn service_error_status(e: ServiceError) -> u16 {
    match e {
        ServiceError::BsonDeserialize(_) => BAD_REQUEST,
        ServiceError::BadRequest(_) => BAD_REQUEST,
        ServiceError::NotFound(_) => NOT_FOUND,
        _ => INTERNAL_SERVER_ERROR,
    }
}

/// The message with which a failure is answered. Only what the service said
/// itself of a bad request or of something not found is passed on; the
/// description of a failure of a store never is.
pub open spec fn service_error_message(e: ServiceError) -> Seq<char> {
    match e {
        ServiceError::Io(_) => "Internal I/O error"@,
        ServiceError::MongoDb(_) => "Database operation failed"@,
        ServiceError::Redis(_) => "Cache operation failed"@,
        ServiceError::Qdrant(_) => "Vector DB operation failed"@,
        ServiceError::Neo4j(_) => "Graph DB operation failed"@,
        ServiceError::Reqwest(_) => "Internal network communication error"@,
        ServiceError::BsonSerialize(_) => "Failed to serialize data"@,
        ServiceError::BsonDeserialize(_) => "Failed to deserialize data"@,
        ServiceError::MissingVariable(_) => "Internal server configuration error"@,
        ServiceError::InvalidVariable(_) => "Internal server configuration error"@,
        ServiceError::Dotenv(_) => "Internal configuration error"@,
        ServiceError::VarError(_) => "Internal server configuration error"@,
        ServiceError::BadRequest(msg) => msg@,
        ServiceError::NotFound(msg) => msg@,
        ServiceError::Internal(_) => "An internal error occurred"@,
    }
}

/// The description of a failure for logs. Unlike the message of the answer,
/// it holds the description of what failed underneath.
pub open spec fn service_error_text(e: ServiceError) -> Seq<char> {
    match e {
        ServiceError::Io(text) => "Input/output error: "@ + text@,
        ServiceError::MongoDb(text) => "MongoDB error: "@ + text@,
        ServiceError::Redis(text) => "Redis error: "@ + text@,
        ServiceError::Qdrant(text) => "Qdrant client error: "@ + text@,
        ServiceError::Neo4j(text) => "Neo4j client error: "@ + text@,
        ServiceError::Reqwest(text) => "HTTP request error: "@ + text@,
        ServiceError::BsonSerialize(text) => "BSON serialization error: "@ + text@,
        ServiceError::BsonDeserialize(text) => "BSON deserialization error: "@ + text@,
        ServiceError::MissingVariable(text) => "Configuration error: Missing environment variable '"@ + text@ + "'"@,
        ServiceError::InvalidVariable(text) => "Configuration error: Invalid environment variable '"@ + text@ + "'"@,
        ServiceError::Dotenv(text) => "Configuration error: Dotenv error: "@ + text@,
        ServiceError::VarError(text) => "Environment variable error: "@ + text@,
        ServiceError::BadRequest(text) => "Invalid input: "@ + text@,
        ServiceError::NotFound(text) => "Resource not found: "@ + text@,
        ServiceError::Internal(text) => "Internal server error: "@ + text@,
    }
}

impl ServiceError {
    /// A description of the failure for logs.
    pub fn describe(&self) -> (text: String)
        ensures
            text@ == service_error_text(*self),
    {
        match self {
            ServiceError::Io(text) => join2("Input/output error: ", text.as_str()),
            ServiceError::MongoDb(text) => join2("MongoDB error: ", text.as_str()),
            ServiceError::Redis(text) => join2("Redis error: ", text.as_str()),
            ServiceError::Qdrant(text) => join2("Qdrant client error: ", text.as_str()),
            ServiceError::Neo4j(text) => join2("Neo4j client error: ", text.as_str()),
            ServiceError::Reqwest(text) => join2("HTTP request error: ", text.as_str()),
            ServiceError::BsonSerialize(text) => join2("BSON serialization error: ", text.as_str()),
            ServiceError::BsonDeserialize(text) => join2("BSON deserialization error: ", text.as_str()),
            ServiceError::MissingVariable(text) => join3("Configuration error: Missing environment variable '", text.as_str(), "'"),
            ServiceError::InvalidVariable(text) => join3("Configuration error: Invalid environment variable '", text.as_str(), "'"),
            ServiceError::Dotenv(text) => join2("Configuration error: Dotenv error: ", text.as_str()),
            ServiceError::VarError(text) => join2("Environment variable error: ", text.as_str()),
            ServiceError::BadRequest(text) => join2("Invalid input: ", text.as_str()),
            ServiceError::NotFound(text) => join2("Resource not found: ", text.as_str()),
            ServiceError::Internal(text) => join2("Internal server error: ", text.as_str()),
        }
    }

    /// The kind of the failure.
    pub fn kind(&self) -> (kind: ErrorKind)
        ensures
            kind == service_error_kind(*self),
    {
        match self {
            ServiceError::Io(_) => ErrorKind::Internal,
            ServiceError::MongoDb(_) => ErrorKind::UpstreamUnavailable,
            ServiceError::Redis(_) => ErrorKind::UpstreamUnavailable,
            ServiceError::Qdrant(_) => ErrorKind::UpstreamUnavailable,
            ServiceError::Neo4j(_) => ErrorKind::UpstreamUnavailable,
            ServiceError::Reqwest(_) => ErrorKind::UpstreamUnavailable,
            ServiceError::BsonSerialize(_) => ErrorKind::DataFormatError,
            ServiceError::BsonDeserialize(_) => ErrorKind::DataFormatError,
            ServiceError::MissingVariable(_) => ErrorKind::Internal,
            ServiceError::InvalidVariable(_) => ErrorKind::Internal,
            ServiceError::Dotenv(_) => ErrorKind::Internal,
            ServiceError::VarError(_) => ErrorKind::Internal,
            ServiceError::BadRequest(_) => ErrorKind::BadRequest,
            ServiceError::NotFound(_) => ErrorKind::NotFound,
            ServiceError::Internal(_) => ErrorKind::Internal,
        }
    }

    /// The answer to a request that failed in this way.
    pub fn into_response(self) -> (response: ErrorResponse)
        ensures
            response.status == service_error_status(self),
            response.message@ == service_error_message(self),
            service_error_kind(self) == ErrorKind::NotFound <==> response.status == NOT_FOUND,
            service_error_kind(self) == ErrorKind::BadRequest ==> response.status == BAD_REQUEST,
    {
        match self {
            ServiceError::Io(_) => fixed_response(INTERNAL_SERVER_ERROR, "Internal I/O error"),
            ServiceError::MongoDb(_) => fixed_response(
                INTERNAL_SERVER_ERROR,
                "Database operation failed",
            ),
            ServiceError::Redis(_) => fixed_response(INTERNAL_SERVER_ERROR, "Cache operation failed"),
            ServiceError::Qdrant(_) => fixed_response(
                INTERNAL_SERVER_ERROR,
                "Vector DB operation failed",
            ),
            ServiceError::Neo4j(_) => fixed_response(
                INTERNAL_SERVER_ERROR,
                "Graph DB operation failed",
            ),
            ServiceError::Reqwest(_) => fixed_response(
                INTERNAL_SERVER_ERROR,
                "Internal network communication error",
            ),
            ServiceError::BsonSerialize(_) => fixed_response(
                INTERNAL_SERVER_ERROR,
                "Failed to serialize data",
            ),
            ServiceError::BsonDeserialize(_) => fixed_response(
                BAD_REQUEST,
                "Failed to deserialize data",
            ),
            ServiceError::MissingVariable(_) => fixed_response(
                INTERNAL_SERVER_ERROR,
                "Internal server configuration error",
            ),
            ServiceError::InvalidVariable(_) => fixed_response(
                INTERNAL_SERVER_ERROR,
                "Internal server configuration error",
            ),
            ServiceError::Dotenv(_) => fixed_response(
                INTERNAL_SERVER_ERROR,
                "Internal configuration error",
            ),
            ServiceError::VarError(_) => fixed_response(
                INTERNAL_SERVER_ERROR,
                "Internal server configuration error",
            ),
            ServiceError::BadRequest(msg) => ErrorResponse { status: BAD_REQUEST, message: msg },
            ServiceError::NotFound(msg) => ErrorResponse { status: NOT_FOUND, message: msg },
            ServiceError::Internal(_) => fixed_response(
                INTERNAL_SERVER_ERROR,
                "An internal error occurred",
            ),
        }
    }
}

impl From<ConfigError> for ServiceError {
    fn from(err: ConfigError) -> (ret: Self) {
        match err {
            ConfigError::MissingVariable(var) => ServiceError::MissingVariable(var),
            ConfigError::Dotenv(e) => ServiceError::Dotenv(e),
        }
    }
}

impl vstd::std_specs::convert::FromSpecImpl<ConfigError> for ServiceError {
    open spec fn obeys_from_spec() -> bool {
        true
    }

    open spec fn from_spec(err: ConfigError) -> Self {
        match err {
            ConfigError::MissingVariable(var) => ServiceError::MissingVariable(var),
            ConfigError::Dotenv(e) => ServiceError::Dotenv(e),
        }
    }
}

/// By what a product is looked up in the document store.
#[derive(Debug)]
pub enum ProductSelector {
    ById(DocumentId),
    ByCode(String),
}

/// A lookup of one product: where it may be cached, for how long, and by what
/// the document store finds it.
#[derive(Debug)]
pub struct ProductLookup {
    pub cache_key: String,
    pub ttl_seconds: u64,
    pub selector: ProductSelector,
}

/// The failure of a request that names a product by a malformed identifier.
pub open spec fn invalid_id_message(id_text: Seq<char>) -> Seq<char> {
    "Invalid product ID format: "@ + id_text
}

/// The failure of a request that names a product by a malformed identifier.
fn invalid_id(id_text: &str) -> (e: ServiceError)
    ensures
        e matches ServiceError::BadRequest(msg) && msg@ == invalid_id_message(id_text@),
{
    ServiceError::BadRequest(join2("Invalid product ID format: ", id_text))
}

/// The lookup of the product with the identifier `id_text`. An identifier
/// that is not 24 hexadecimal digits is a bad request.
pub fn lookup_by_id(id_text: &str) -> (r: Result<ProductLookup, ServiceError>)
    ensures
        r is Ok <==> is_document_id_text(id_text@),
        r matches Ok(lookup) ==> {
            &&& lookup.cache_key@ == "product:id:"@ + canonical_hex(id_text@)
            &&& lookup.ttl_seconds == PRODUCT_TTL_SECONDS
            &&& lookup.selector matches ProductSelector::ById(id) && id@ == canonical_hex(id_text@)
        },
        r matches Err(e) ==> (e matches ServiceError::BadRequest(msg) && msg@ == invalid_id_message(
            id_text@,
        )),
{
    match DocumentId::parse_str(id_text) {
        Some(id) => Ok(
            ProductLookup {
                cache_key: product_id_cache_key(&id),
                ttl_seconds: PRODUCT_TTL_SECONDS,
                selector: ProductSelector::ById(id),
            },
        ),
        None => Err(invalid_id(id_text)),
    }
}

/// The lookup of the product with the barcode `barcode`.
pub fn lookup_by_barcode(barcode: &str) -> (lookup: ProductLookup)
    ensures
        lookup.cache_key@ == "product:code:"@ + barcode@,
        lookup.ttl_seconds == PRODUCT_TTL_SECONDS,
        lookup.selector matches ProductSelector::ByCode(code) && code@ == barcode@,
{
    ProductLookup {
        cache_key: product_code_cache_key(barcode),
        ttl_seconds: PRODUCT_TTL_SECONDS,
        selector: ProductSelector::ByCode(String::from_str(barcode)),
    }
}

/// The message for a product that the document store does not hold.
pub open spec fn product_not_found_message(selector: ProductSelector) -> Seq<char> {
    match selector {
        ProductSelector::ById(id) => "Product with ID "@ + id@ + " not found"@,
        ProductSelector::ByCode(code) => "Product with barcode "@ + code@ + " not found"@,
    }
}

/// The outcome of a product lookup, from what the document store answered: the
/// product, or that it was not found, or that the store failed.
pub fn product_lookup_result(selector: &ProductSelector, answer: StoreRead<Product>) -> (r: Result<
    Product,
    ServiceError,
>)
    ensures
        match answer {
            StoreRead::Found(product) => r == Ok::<Product, ServiceError>(product),
            StoreRead::Missing => r matches Err(ServiceError::NotFound(msg)) && msg@
                == product_not_found_message(*selector),
            StoreRead::Failed(why) => r == Err::<Product, ServiceError>(ServiceError::MongoDb(why)),
        },
{
    match answer {
        StoreRead::Found(product) => Ok(product),
        StoreRead::Missing => {
            let msg = match selector {
                ProductSelector::ById(id) => join3(
                    "Product with ID ",
                    id.to_hex().as_str(),
                    " not found",
                ),
                ProductSelector::ByCode(code) => join3(
                    "Product with barcode ",
                    code.as_str(),
                    " not found",
                ),
            };
            Err(ServiceError::NotFound(msg))
        },
        StoreRead::Failed(why) => Err(ServiceError::MongoDb(why)),
    }
}

/// Whether `product` is the record of a new product with what `payload`
/// gives, created at the instant `now`: it has no identifier yet, the fields
/// that the payload does not hold are absent or empty, and it is marked as
/// created through this interface.
pub open spec fn is_new_product(product: Product, payload: CreateProductPayload, now: i64) -> bool {
    &&& product.id is None
    &&& product.code == payload.code
    &&& product.product_name == payload.product_name
    &&& product.ingredients_text == payload.ingredients_text
    &&& product.brands == payload.brands
    &&& product.categories == payload.categories
    &&& product.generic_name is None
    &&& product.main_category is None
    &&& product.labels is None
    &&& product.traces_tags is None
    &&& product.allergens_tags@.len() == 0
    &&& product.quantity is None
    &&& product.image_url is None
    &&& product.image_small_url is None
    &&& product.countries is None
    &&& product.nutrition_grade_fr is None
    &&& product.creator matches Some(c) && c@ == "api_create"@
    &&& product.source matches Some(s) && s@ == "api_create_v1"@
    &&& product.created_at == now
    &&& product.last_modified_at == now
}

/// The product that is stored for `payload` at the instant `now`, before the
/// document store has given it an identifier.
pub fn new_product(payload: CreateProductPayload, now: i64) -> (product: Product)
    ensures
        is_new_product(product, payload, now),
{
    Product {
        id: None,
        code: payload.code,
        product_name: payload.product_name,
        generic_name: None,
        brands: payload.brands,
        quantity: None,
        categories: payload.categories,
        main_category: None,
        labels: None,
        ingredients_text: payload.ingredients_text,
        allergens_tags: Vec::new(),
        traces_tags: None,
        image_url: None,
        image_small_url: None,
        countries: None,
        nutrition_grade_fr: None,
        creator: Some(String::from_str("api_create")),
        source: Some(String::from_str("api_create_v1")),
        created_at: now,
        last_modified_at: now,
    }
}

/// The failure of a write: a bad request with `duplicate_message` where the
/// store refused a duplicate key, else a failure of the store.
fn write_failure(failure: StoreFailure, duplicate_message: &str) -> (e: ServiceError)
    ensures
        is_duplicate_key(failure) ==> (e matches ServiceError::BadRequest(msg) && msg@
            == duplicate_message@),
        !is_duplicate_key(failure) ==> e == ServiceError::MongoDb(failure.text),
{
    if failure.duplicate_key() {
        ServiceError::BadRequest(String::from_str(duplicate_message))
    } else {
        ServiceError::MongoDb(failure.text)
    }
}

/// The outcome of creating `product`, from what the document store answered
/// to the insertion: the product with the identifier that the store gave it,
/// or, where a product with its barcode exists, a bad request.
pub fn created_product(product: Product, answer: StoreWrite<Option<DocumentId>>) -> (r: Result<
    Product,
    ServiceError,
>)
    ensures
        match answer {
            StoreWrite::Done(id) => r matches Ok(stored) && stored == (Product { id, ..product }),
            StoreWrite::Failed(failure) => if is_duplicate_key(failure) {
                r matches Err(ServiceError::BadRequest(msg)) && msg@
                    == "Product with this code already exists."@
            } else {
                r == Err::<Product, ServiceError>(ServiceError::MongoDb(failure.text))
            },
        },
{
    match answer {
        StoreWrite::Done(id) => {
            let mut stored = product;
            stored.id = id;
            Ok(stored)
        },
        StoreWrite::Failed(failure) => Err(
            write_failure(failure, "Product with this code already exists."),
        ),
    }
}

/// The fields that `payload` changes, under the names that the document store
/// knows them by. The allergen tags of the payload are not among them.
pub open spec fn requested_changes(payload: UpdateProductPayload) -> Seq<FieldChange> {
    text_change("product_name"@, payload.product_name) + text_change(
        "generic_name"@,
        payload.generic_name,
    ) + text_change("image_url"@, payload.image_url) + text_change(
        "ingredients_text"@,
        payload.ingredients_text,
    ) + list_change("brands_tags"@, payload.brands) + list_change(
        "categories_tags"@,
        payload.categories,
    ) + list_change("labels_tags"@, payload.labels) + list_change("traces_tags"@, payload.traces)
        + text_change("quantity"@, payload.quantity) + list_change(
        "countries_tags"@,
        payload.countries,
    ) + text_change("nutrition_grade_fr"@, payload.nutrition_grade_fr)
}

/// The changes that are written for `payload` at the instant `now`: the
/// requested ones and the instant of modification. Where nothing is
/// requested, nothing is written.
pub open spec fn planned_changes(payload: UpdateProductPayload, now: i64) -> Seq<FieldChange> {
    if requested_changes(payload).len() == 0 {
        Seq::empty()
    } else {
        requested_changes(payload).push(
            FieldChange { field: "last_modified_datetime"@, value: ValueModel::Instant(now as int) },
        )
    }
}

/// A change of a product: which product, and which fields are set. Without
/// fields the product is only read.
#[derive(Debug)]
pub struct UpdatePlan {
    pub id: DocumentId,
    pub changes: Vec<FieldUpdate>,
}

/// The change of the product with the identifier `id_text` that `payload`
/// asks for at the instant `now`. An identifier that is not 24 hexadecimal
/// digits is a bad request.
pub fn plan_update(id_text: &str, payload: UpdateProductPayload, now: i64) -> (r: Result<
    UpdatePlan,
    ServiceError,
>)
    ensures
        r is Ok <==> is_document_id_text(id_text@),
        r matches Ok(plan) ==> plan.id@ == canonical_hex(id_text@) && changes_of(plan.changes@)
            == planned_changes(payload, now),
        r matches Err(e) ==> (e matches ServiceError::BadRequest(msg) && msg@ == invalid_id_message(
            id_text@,
        )),
{
    match DocumentId::parse_str(id_text) {
        None => Err(invalid_id(id_text)),
        Some(id) => {
            let mut changes: Vec<FieldUpdate> = Vec::new();
            push_text(&mut changes, "product_name", payload.product_name);
            push_text(&mut changes, "generic_name", payload.generic_name);
            push_text(&mut changes, "image_url", payload.image_url);
            push_text(&mut changes, "ingredients_text", payload.ingredients_text);
            push_list(&mut changes, "brands_tags", payload.brands);
            push_list(&mut changes, "categories_tags", payload.categories);
            push_list(&mut changes, "labels_tags", payload.labels);
            push_list(&mut changes, "traces_tags", payload.traces);
            push_text(&mut changes, "quantity", payload.quantity);
            push_list(&mut changes, "countries_tags", payload.countries);
            push_text(&mut changes, "nutrition_grade_fr", payload.nutrition_grade_fr);
            if changes.len() > 0 {
                changes.push(
                    FieldUpdate {
                        field: String::from_str("last_modified_datetime"),
                        value: FieldValue::Instant(now),
                    },
                );
            }
            Ok(UpdatePlan { id, changes })
        },
    }
}

/// A product that was written, and the cache keys that may hold its old
/// value: all of them are to be deleted.
#[derive(Debug)]
pub struct WrittenProduct {
    pub product: Product,
    pub stale_keys: Vec<String>,
}

/// The outcome of changing the product `id`, from what the document store
/// answered: the product as it is now, with the keys to delete from the
/// cache; or that there is no such product; or, where the change would
/// repeat a key that must be unique, a bad request.
pub fn updated_product(id: &DocumentId, answer: StoreWrite<Option<Product>>) -> (r: Result<
    WrittenProduct,
    ServiceError,
>)
    ensures
        match answer {
            StoreWrite::Done(Some(product)) => r matches Ok(written) && written.product == product
                && views_of(written.stale_keys@) == seq![
                "product:id:"@ + id@,
                "product:code:"@ + product.code@,
            ],
            StoreWrite::Done(None) => r matches Err(ServiceError::NotFound(msg)) && msg@
                == "Product with ID "@ + id@ + " not found for update"@,
            StoreWrite::Failed(failure) => if is_duplicate_key(failure) {
                r matches Err(ServiceError::BadRequest(msg)) && msg@
                    == "Update failed due to duplicate key (e.g., code already exists)."@
            } else {
                r == Err::<WrittenProduct, ServiceError>(ServiceError::MongoDb(failure.text))
            },
        },
{
    match answer {
        StoreWrite::Done(Some(product)) => {
            let stale_keys = product_cache_keys(id, product.code.as_str());
            Ok(WrittenProduct { product, stale_keys })
        },
        StoreWrite::Done(None) => Err(
            ServiceError::NotFound(
                join3("Product with ID ", id.to_hex().as_str(), " not found for update"),
            ),
        ),
        StoreWrite::Failed(failure) => Err(
            write_failure(
                failure,
                "Update failed due to duplicate key (e.g., code already exists).",
            ),
        ),
    }
}

/// The identifier of the product to delete. An identifier that is not 24
/// hexadecimal digits is a bad request.
pub fn parse_product_id(id_text: &str) -> (r: Result<DocumentId, ServiceError>)
    ensures
        r is Ok <==> is_document_id_text(id_text@),
        r matches Ok(id) ==> id@ == canonical_hex(id_text@),
        r matches Err(e) ==> (e matches ServiceError::BadRequest(msg) && msg@ == invalid_id_message(
            id_text@,
        )),
{
    match DocumentId::parse_str(id_text) {
        Some(id) => Ok(id),
        None => Err(invalid_id(id_text)),
    }
}

/// The barcode of the product `id` that is about to be deleted, from what the
/// document store answered to the read before the deletion.
pub fn product_to_delete(id: &DocumentId, answer: StoreRead<String>) -> (r: Result<
    String,
    ServiceError,
>)
    ensures
        match answer {
            StoreRead::Found(code) => r == Ok::<String, ServiceError>(code),
            StoreRead::Missing => r matches Err(ServiceError::NotFound(msg)) && msg@
                == "Product with ID "@ + id@ + " not found for deletion"@,
            StoreRead::Failed(why) => r == Err::<String, ServiceError>(ServiceError::MongoDb(why)),
        },
{
    match answer {
        StoreRead::Found(code) => Ok(code),
        StoreRead::Missing => Err(
            ServiceError::NotFound(
                join3("Product with ID ", id.to_hex().as_str(), " not found for deletion"),
            ),
        ),
        StoreRead::Failed(why) => Err(ServiceError::MongoDb(why)),
    }
}

/// The outcome of deleting the product `id` with the barcode `code`, from the
/// number of documents that the store deleted: the cache keys to delete, or,
/// where the store deleted nothing, that the product was not found.
pub fn deleted_product(id: &DocumentId, code: &str, answer: StoreWrite<u64>) -> (r: Result<
    Vec<String>,
    ServiceError,
>)
    ensures
        match answer {
            StoreWrite::Done(count) => if count > 0 {
                r matches Ok(stale_keys) && views_of(stale_keys@) == seq![
                    "product:id:"@ + id@,
                    "product:code:"@ + code@,
                ]
            } else {
                r matches Err(ServiceError::NotFound(msg)) && msg@ == "Product with ID "@ + id@
                    + " found but failed to delete"@
            },
            StoreWrite::Failed(failure) => r == Err::<Vec<String>, ServiceError>(
                ServiceError::MongoDb(failure.text),
            ),
        },
{
    match answer {
        StoreWrite::Done(count) => {
            if count > 0 {
                Ok(product_cache_keys(id, code))
            } else {
                Err(
                    ServiceError::NotFound(
                        join3(
                            "Product with ID ",
                            id.to_hex().as_str(),
                            " found but failed to delete",
                        ),
                    ),
                )
            }
        },
        StoreWrite::Failed(failure) => Err(ServiceError::MongoDb(failure.text)),
    }
}

/// How many products a search returns when the caller names no limit.
pub const DEFAULT_SEARCH_LIMIT: u64 = 20;

/// How many products a search returns at most.
pub const MAX_SEARCH_LIMIT: u64 = 100;

/// What a search asks of a product's labels. The document store takes one
/// condition on them.
#[derive(Debug)]
pub enum LabelsClause {
    /// Nothing.
    Any,
    /// The product carries this label.
    Equals(String),
    /// The product carries none of these labels.
    NoneOf(Vec<String>),
}

/// A search of the catalogue as the document store is asked.
#[derive(Debug)]
pub struct SearchQuery {
    /// Words to find in the products' texts.
    pub text: Option<String>,
    pub category: Option<String>,
    pub brand: Option<String>,
    pub labels: LabelsClause,
    pub country: Option<String>,
    /// The nutrition grade, in lower case.
    pub nutrition_grade: Option<String>,
    /// Allergen tags of which a product may carry none.
    pub excluded_allergens: Option<Vec<String>>,
    pub limit: i64,
    pub skip: u64,
}

/// `value` trimmed, unless it is absent or blank.
pub open spec fn stated(value: Option<String>) -> Option<Seq<char>> {
    match value {
        Some(s) => if trimmed(s@).len() > 0 {
            Some(trimmed(s@))
        } else {
            None
        },
        None => None,
    }
}

/// `value` trimmed and in lower case, unless it is absent or blank.
pub open spec fn stated_lowercase(value: Option<String>) -> Option<Seq<char>> {
    match stated(value) {
        Some(s) => Some(lowercase_of(s)),
        None => None,
    }
}

/// The view of a string that may be absent.
pub open spec fn text_of(value: Option<String>) -> Option<Seq<char>> {
    match value {
        Some(s) => Some(s@),
        None => None,
    }
}

/// The labels that the diets in `diets` rule out, each once, in ascending
/// order.
pub open spec fn diet_exclusions(diets: Option<Vec<String>>) -> Seq<Seq<char>> {
    match diets {
        Some(d) => ascending_diet_tags(name_set_of(d@)),
        None => Seq::empty(),
    }
}

/// The number of products that a search returns at most.
pub open spec fn search_limit(limit: Option<u64>) -> int {
    let asked = match limit {
        Some(n) => n,
        None => DEFAULT_SEARCH_LIMIT,
    };
    if asked < MAX_SEARCH_LIMIT {
        asked as int
    } else {
        MAX_SEARCH_LIMIT as int
    }
}

/// `value` trimmed, unless it is absent or blank.
fn stated_text(value: &Option<String>) -> (r: Option<String>)
    ensures
        text_of(r) == stated(*value),
{
    match value {
        Some(s) => {
            let t = trim(s.as_str());
            if t.as_str().is_empty() {
                None
            } else {
                Some(t)
            }
        },
        None => None,
    }
}

/// The search that `params` ask for. Blank texts count as absent. The diets
/// of the user exclude the labels that conflict with them, listed in
/// ascending order and each once, and this takes the place of a label asked
/// for; the limit is 20 unless named, and at most 100.
pub fn search_products(params: &SearchParams) -> (query: SearchQuery)
    ensures
        text_of(query.text) == stated(params.q),
        text_of(query.category) == stated(params.category),
        text_of(query.brand) == stated(params.brand),
        text_of(query.country) == stated(params.country),
        text_of(query.nutrition_grade) == stated_lowercase(params.nutriscore),
        match params.user_allergens {
            Some(allergens) => if allergens@.len() > 0 {
                query.excluded_allergens matches Some(excluded) && excluded@ == allergens@
            } else {
                query.excluded_allergens is None
            },
            None => query.excluded_allergens is None,
        },
        if diet_exclusions(params.user_diets).len() > 0 {
            query.labels matches LabelsClause::NoneOf(tags) && views_of(tags@) == diet_exclusions(
                params.user_diets,
            ) && ascends(views_of(tags@)) && distinct_names(tags@)
        } else {
            match stated(params.label) {
                Some(label) => query.labels matches LabelsClause::Equals(l) && l@ == label,
                None => query.labels is Any,
            }
        },
        query.limit == search_limit(params.limit),
        query.skip == (match params.offset {
            Some(n) => n,
            None => 0,
        }),
{
    let nutrition_grade = match stated_text(&params.nutriscore) {
        Some(grade) => Some(to_lowercase(grade.as_str())),
        None => None,
    };
    let excluded_allergens = match &params.user_allergens {
        Some(allergens) => {
            if allergens.len() > 0 {
                Some(clone_strings(allergens))
            } else {
                None
            }
        },
        None => None,
    };
    let mut labels = match stated_text(&params.label) {
        Some(label) => LabelsClause::Equals(label),
        None => LabelsClause::Any,
    };
    match &params.user_diets {
        Some(diets) => {
            let tags = ascending_conflict_tags(&NameSet::from_vec(clone_strings(diets)));
            if tags.len() > 0 {
                labels = LabelsClause::NoneOf(tags);
            }
        },
        None => {},
    }
    let asked = match params.limit {
        Some(n) => n,
        None => DEFAULT_SEARCH_LIMIT,
    };
    let limit: i64 = if asked < MAX_SEARCH_LIMIT {
        asked as i64
    } else {
        MAX_SEARCH_LIMIT as i64
    };
    let skip = match params.offset {
        Some(n) => n,
        None => 0,
    };
    SearchQuery {
        text: stated_text(&params.q),
        category: stated_text(&params.category),
        brand: stated_text(&params.brand),
        labels,
        country: stated_text(&params.country),
        nutrition_grade,
        excluded_allergens,
        limit,
        skip,
    }
}

/// How an index orders or reads a field.
#[derive(Debug, Clone, Copy, PartialEq, Eq, Structural)]
pub enum IndexKind {
    Ascending,
    Text,
}

/// An index of the collection of products.
#[derive(Debug)]
pub struct IndexSpec {
    pub fields: Vec<String>,
    pub kind: IndexKind,
    pub unique: bool,
}

/// An index as a mathematical value.
pub struct IndexModel {
    pub fields: Seq<Seq<char>>,
    pub kind: IndexKind,
    pub unique: bool,
}

impl View for IndexSpec {
    type V = IndexModel;

    open spec fn view(&self) -> IndexModel {
        IndexModel { fields: views_of(self.fields@), kind: self.kind, unique: self.unique }
    }
}

/// The indexes in a list.
pub open spec fn index_models(list: Seq<IndexSpec>) -> Seq<IndexModel> {
    Seq::new(list.len(), |i: int| list[i]@)
}

/// An ascending index on one field.
pub open spec fn ascending_on(field: Seq<char>, unique: bool) -> IndexModel {
    IndexModel { fields: seq![field], kind: IndexKind::Ascending, unique }
}

/// The indexes that the catalogue keeps: barcodes are unique, the texts of a
/// product can be searched, and the tag lists and the nutrition grade can be
/// filtered by.
pub open spec fn catalogue_indexes() -> Seq<IndexModel> {
    seq![
        ascending_on("code"@, true),
        IndexModel {
            fields: seq!["product_name"@, "generic_name"@, "ingredients_text"@, "brands_tags"@],
            kind: IndexKind::Text,
            unique: false,
        },
        ascending_on("categories_tags"@, false),
        ascending_on("labels_tags"@, false),
        ascending_on("brands_tags"@, false),
        ascending_on("countries_tags"@, false),
        ascending_on("nutrition_grade_fr"@, false),
    ]
}

/// An ascending index on one field.
fn ascending_index(field: &str, unique: bool) -> (index: IndexSpec)
    ensures
        index@ == ascending_on(field@, unique),
{
    let mut fields: Vec<String> = Vec::new();
    fields.push(String::from_str(field));
    assert(views_of(fields@) =~= seq![field@]);
    IndexSpec { fields, kind: IndexKind::Ascending, unique }
}

/// The name of the collection that the indexes are created on.
pub fn indexed_collection() -> (name: String)
    ensures
        name@ == "openfoodfacts_products"@,
{
    String::from_str("openfoodfacts_products")
}

/// The indexes to create on the collection of products.
pub fn create_indexes() -> (indexes: Vec<IndexSpec>)
    ensures
        index_models(indexes@) == catalogue_indexes(),
{
    let mut text_fields: Vec<String> = Vec::new();
    text_fields.push(String::from_str("product_name"));
    text_fields.push(String::from_str("generic_name"));
    text_fields.push(String::from_str("ingredients_text"));
    text_fields.push(String::from_str("brands_tags"));
    assert(views_of(text_fields@) =~= seq![
        "product_name"@,
        "generic_name"@,
        "ingredients_text"@,
        "brands_tags"@,
    ]);
    let mut indexes: Vec<IndexSpec> = Vec::new();
    indexes.push(ascending_index("code", true));
    indexes.push(IndexSpec { fields: text_fields, kind: IndexKind::Text, unique: false });
    indexes.push(ascending_index("categories_tags", false));
    indexes.push(ascending_index("labels_tags", false));
    indexes.push(ascending_index("brands_tags", false));
    indexes.push(ascending_index("countries_tags", false));
    indexes.push(ascending_index("nutrition_grade_fr", false));
    indexes
}

/// Whether `e` is the failure of a request that was given an answer it did
/// not wait for.
pub open spec fn is_out_of_step(e: ServiceError) -> bool {
    e matches ServiceError::Internal(msg) && msg@
        == "Answer does not belong to the current step of the request"@
}

/// The failure of a request that was given an answer it did not wait for.
fn out_of_step() -> (e: ServiceError)
    ensures
        is_out_of_step(e),
{
    ServiceError::Internal(
        String::from_str("Answer does not belong to the current step of the request"),
    )
}

/// Where the read of one product stands.
#[derive(Debug)]
pub enum ProductReadState {
    /// The request came in; the text names the product.
    Received { text: String },
    /// The read goes through the cache and, on a miss, to the document store.
    Reading { selector: ProductSelector, read: ReadState },
    /// The answer was given.
    Finished,
}

/// What is to be done next for the read of one product.
pub type ProductReadAction = LookupAction<Product, ServiceError>;

/// What the read of the product `selector` that stands at `read` leads to
/// once `event` has come in.
///
/// A cached text that is not empty is decoded, and what it decodes to is the
/// answer. Nothing cached, an empty value, a failure of the cache and a text
/// that cannot be decoded all lead to the document store. What the store
/// holds is the answer and is written back to the cache under the key of the
/// read, for the time to live of the read; what it does not hold is not
/// found; its failure is the failure of the request.
pub open spec fn product_read_continues(
    selector: ProductSelector,
    read: ReadState,
    event: ReadEvent<Product>,
    next: (ProductReadState, ProductReadAction),
) -> bool {
    match (read, event) {
        (ReadState::AwaitingCache { target }, ReadEvent::Cache(reply)) => match payload_of(reply) {
            Some(text) => {
                &&& next.0 == (ProductReadState::Reading {
                    selector,
                    read: ReadState::AwaitingDecoding { target },
                })
                &&& next.1 matches LookupAction::Decode { payload }
                &&& payload@ == text
            },
            None => {
                &&& next.0 == (ProductReadState::Reading {
                    selector,
                    read: ReadState::AwaitingStore { target },
                })
                &&& next.1 is AskStore
            },
        },
        (ReadState::AwaitingDecoding { target }, ReadEvent::Decoded(decoded)) => match decoded {
            Some(product) => {
                &&& next.0 is Finished
                &&& next.1 matches LookupAction::Reply { result: Ok(served), write_back: None }
                &&& served == product
            },
            None => {
                &&& next.0 == (ProductReadState::Reading {
                    selector,
                    read: ReadState::AwaitingStore { target },
                })
                &&& next.1 is AskStore
            },
        },
        (ReadState::AwaitingStore { target }, ReadEvent::Store(found)) => match found {
            Some(product) => {
                &&& next.0 is Finished
                &&& next.1 matches LookupAction::Reply { result: Ok(served), write_back: Some(to) }
                &&& served == product
                &&& to == target
            },
            None => {
                &&& next.0 is Finished
                &&& next.1 matches LookupAction::Reply {
                    result: Err(ServiceError::NotFound(msg)),
                    write_back: None,
                }
                &&& msg@ == product_not_found_message(selector)
            },
        },
        (ReadState::AwaitingStore { target }, ReadEvent::StoreFailed(why)) => {
            &&& next.0 is Finished
            &&& next.1 matches LookupAction::Reply {
                result: Err(ServiceError::MongoDb(text)),
                write_back: None,
            }
            &&& text == why
        },
        _ => {
            &&& next.0 is Finished
            &&& next.1 matches LookupAction::Reply { result: Err(e), write_back: None }
            &&& is_out_of_step(e)
        },
    }
}

/// The end of a read with a failure.
fn read_fails(e: ServiceError) -> (next: (ProductReadState, ProductReadAction))
    ensures
        next.0 is Finished,
        next.1 matches LookupAction::Reply { result: Err(failure), write_back: None } && failure
            == e,
{
    (ProductReadState::Finished, LookupAction::Reply { result: Err(e), write_back: None })
}

/// What an action of a read through the cache means for the request for the
/// product `selector`, whose read stands at `read`: a record that is handed
/// out is the answer, a record that the store does not hold is not found, and
/// a failure of the store is the failure of the request.
fn product_read_action(selector: ProductSelector, read: ReadState, action: ReadAction<Product>) -> (next:
    (ProductReadState, ProductReadAction))
    ensures
        match action {
            ReadAction::AskCache { key } => {
                &&& next.0 == (ProductReadState::Reading { selector, read })
                &&& next.1 matches LookupAction::AskCache { key: asked }
                &&& asked == key
            },
            ReadAction::Decode { payload } => {
                &&& next.0 == (ProductReadState::Reading { selector, read })
                &&& next.1 matches LookupAction::Decode { payload: text }
                &&& text == payload
            },
            ReadAction::AskStore => {
                &&& next.0 == (ProductReadState::Reading { selector, read })
                &&& next.1 is AskStore
            },
            ReadAction::Serve { value, write_back } => {
                &&& next.0 is Finished
                &&& next.1 matches LookupAction::Reply { result: Ok(served), write_back: to }
                &&& served == value
                &&& to == write_back
            },
            ReadAction::NotFound => {
                &&& next.0 is Finished
                &&& next.1 matches LookupAction::Reply {
                    result: Err(ServiceError::NotFound(msg)),
                    write_back: None,
                }
                &&& msg@ == product_not_found_message(selector)
            },
            ReadAction::Fail(why) => {
                &&& next.0 is Finished
                &&& next.1 matches LookupAction::Reply {
                    result: Err(ServiceError::MongoDb(text)),
                    write_back: None,
                }
                &&& text == why
            },
            ReadAction::OutOfStep => {
                &&& next.0 is Finished
                &&& next.1 matches LookupAction::Reply { result: Err(e), write_back: None }
                &&& is_out_of_step(e)
            },
        },
{
    match action {
        ReadAction::AskCache { key } => (
            ProductReadState::Reading { selector, read },
            LookupAction::AskCache { key },
        ),
        ReadAction::Decode { payload } => (
            ProductReadState::Reading { selector, read },
            LookupAction::Decode { payload },
        ),
        ReadAction::AskStore => (ProductReadState::Reading { selector, read }, LookupAction::AskStore),
        ReadAction::Serve { value, write_back } => (
            ProductReadState::Finished,
            LookupAction::Reply { result: Ok(value), write_back },
        ),
        ReadAction::NotFound => match product_lookup_result(&selector, StoreRead::Missing) {
            Ok(product) => (
                ProductReadState::Finished,
                LookupAction::Reply { result: Ok(product), write_back: None },
            ),
            Err(e) => read_fails(e),
        },
        ReadAction::Fail(why) => read_fails(ServiceError::MongoDb(why)),
        ReadAction::OutOfStep => read_fails(out_of_step()),
    }
}

/// The next step of the read of the product `selector` that stands at `read`:
/// the step of the read through the cache, as it answers the request.
fn continue_product_read(selector: ProductSelector, read: ReadState, event: ReadEvent<Product>) -> (next:
    (ProductReadState, ProductReadAction))
    ensures
        product_read_continues(selector, read, event, next),
{
    let (read, action) = advance_read(read, event);
    product_read_action(selector, read, action)
}

/// The first step of a read through the cache: the cache is asked for the
/// record under the key of `lookup`.
fn start_product_read(lookup: ProductLookup) -> (next: (ProductReadState, ProductReadAction))
    ensures
        next.0 matches ProductReadState::Reading {
            selector,
            read: ReadState::AwaitingCache { target },
        } && selector == lookup.selector && target.key@ == lookup.cache_key@ && target.ttl_seconds
            == lookup.ttl_seconds,
        next.1 matches LookupAction::AskCache { key } && key@ == lookup.cache_key@,
{
    let (read, action) = begin_read::<Product>(lookup.cache_key, lookup.ttl_seconds);
    product_read_action(lookup.selector, read, action)
}

/// Whether `next` is what the step of `state` leads to once `event` has come
/// in: the state that follows, and what is to be done.
pub open spec fn product_by_id_step(
    state: ProductReadState,
    event: ReadEvent<Product>,
    next: (ProductReadState, ProductReadAction),
) -> bool {
    match (state, event) {
        (ProductReadState::Received { text }, ReadEvent::Begin) => if is_document_id_text(
            text@,
        ) {
            &&& next.0 matches ProductReadState::Reading {
                selector: ProductSelector::ById(id),
                read: ReadState::AwaitingCache { target },
            }
            &&& id@ == canonical_hex(text@)
            &&& target.key@ == "product:id:"@ + canonical_hex(text@)
            &&& target.ttl_seconds == PRODUCT_TTL_SECONDS
            &&& next.1 matches LookupAction::AskCache { key }
            &&& key@ == "product:id:"@ + canonical_hex(text@)
        } else {
            &&& next.0 is Finished
            &&& next.1 matches LookupAction::Reply {
                result: Err(ServiceError::BadRequest(msg)),
                write_back: None,
            }
            &&& msg@ == invalid_id_message(text@)
        },
        (ProductReadState::Reading { selector, read }, _) => product_read_continues(
            selector,
            read,
            event,
            next,
        ),
        _ => {
            &&& next.0 is Finished
            &&& next.1 matches LookupAction::Reply { result: Err(e), write_back: None }
            &&& is_out_of_step(e)
        },
    }
}

/// One step of the request for the product with a given identifier: what the
/// step of `state` leads to once `event` has come in.
///
/// The request begins with the text of the identifier. A text that is not 24
/// hexadecimal digits is a bad request. Else the product is read under the
/// key `product:id:<identifier>` with a time to live of 300 seconds: from the
/// cache where it holds a text that can be decoded, else from the document
/// store, whose record is written back. A failure of the cache never fails
/// the request.
pub fn get_product_by_id(state: ProductReadState, event: ReadEvent<Product>) -> (next: (
    ProductReadState,
    ProductReadAction,
))
    ensures
        product_by_id_step(state, event, next),
{
    match state {
        ProductReadState::Received { text } => match event {
            ReadEvent::Begin => match lookup_by_id(text.as_str()) {
                Ok(lookup) => start_product_read(lookup),
                Err(e) => read_fails(e),
            },
            _ => read_fails(out_of_step()),
        },
        ProductReadState::Reading { selector, read } => continue_product_read(selector, read, event),
        ProductReadState::Finished => read_fails(out_of_step()),
    }
}

/// Whether `next` is what the step of `state` leads to once `event` has come
/// in: the state that follows, and what is to be done.
pub open spec fn product_by_barcode_step(
    state: ProductReadState,
    event: ReadEvent<Product>,
    next: (ProductReadState, ProductReadAction),
) -> bool {
    match (state, event) {
        (ProductReadState::Received { text }, ReadEvent::Begin) => {
            &&& next.0 matches ProductReadState::Reading {
                selector: ProductSelector::ByCode(code),
                read: ReadState::AwaitingCache { target },
            }
            &&& code@ == text@
            &&& target.key@ == "product:code:"@ + text@
            &&& target.ttl_seconds == PRODUCT_TTL_SECONDS
            &&& next.1 matches LookupAction::AskCache { key }
            &&& key@ == "product:code:"@ + text@
        },
        (ProductReadState::Reading { selector, read }, _) => product_read_continues(
            selector,
            read,
            event,
            next,
        ),
        _ => {
            &&& next.0 is Finished
            &&& next.1 matches LookupAction::Reply { result: Err(e), write_back: None }
            &&& is_out_of_step(e)
        },
    }
}

/// One step of the request for the product with a given barcode: what the
/// step of `state` leads to once `event` has come in.
///
/// The request begins with the barcode. The product is read under the key
/// `product:code:<barcode>` with a time to live of 300 seconds: from the
/// cache where it holds a text that can be decoded, else from the document
/// store, whose record is written back. A failure of the cache never fails
/// the request.
pub fn get_product_by_barcode(state: ProductReadState, event: ReadEvent<Product>) -> (next: (
    ProductReadState,
    ProductReadAction,
))
    ensures
        product_by_barcode_step(state, event, next),
{
    match state {
        ProductReadState::Received { text } => match event {
            ReadEvent::Begin => start_product_read(lookup_by_barcode(text.as_str())),
            _ => read_fails(out_of_step()),
        },
        ProductReadState::Reading { selector, read } => continue_product_read(selector, read, event),
        ProductReadState::Finished => read_fails(out_of_step()),
    }
}

/// Where the creation of a product stands.
#[derive(Debug)]
pub enum CreateState {
    /// The request came in.
    Received { payload: CreateProductPayload, now: i64 },
    /// The product is being inserted.
    Inserting { product: Product },
    /// The answer was given.
    Finished,
}

/// What the document store answered to the last step of a creation.
#[derive(Debug)]
pub enum CreateEvent {
    /// The request came in.
    Begin,
    /// The document store answered the insertion, with the identifier that
    /// it gave the product where it names one.
    Inserted(StoreWrite<Option<DocumentId>>),
}

/// What is to be done next for the creation of a product.
#[derive(Debug)]
pub enum CreateAction {
    /// Insert the product of the state into the document store.
    Insert,
    /// Answer the request.
    Reply(Result<Product, ServiceError>),
}

/// The end of a creation that was given an answer it did not wait for.
fn create_out_of_step() -> (next: (CreateState, CreateAction))
    ensures
        next.0 is Finished,
        next.1 matches CreateAction::Reply(Err(e)) && is_out_of_step(e),
{
    (CreateState::Finished, CreateAction::Reply(Err(out_of_step())))
}

/// Whether `next` is what the step of `state` leads to once `event` has come
/// in: the state that follows, and what is to be done.
pub open spec fn create_step(state: CreateState, event: CreateEvent, next: (CreateState, CreateAction)) -> bool {
    match (state, event) {
        (CreateState::Received { payload, now }, CreateEvent::Begin) => {
            &&& next.0 matches CreateState::Inserting { product }
            &&& is_new_product(product, payload, now)
            &&& next.1 is Insert
        },
        (CreateState::Inserting { product }, CreateEvent::Inserted(answer)) => {
            &&& next.0 is Finished
            &&& next.1 matches CreateAction::Reply(result)
            &&& match answer {
                StoreWrite::Done(id) => result matches Ok(stored) && stored == (Product {
                    id,
                    ..product
                }),
                StoreWrite::Failed(failure) => if is_duplicate_key(failure) {
                    result matches Err(ServiceError::BadRequest(msg)) && msg@
                        == "Product with this code already exists."@
                } else {
                    result == Err::<Product, ServiceError>(ServiceError::MongoDb(failure.text))
                },
            }
        },
        _ => {
            &&& next.0 is Finished
            &&& next.1 matches CreateAction::Reply(Err(e))
            &&& is_out_of_step(e)
        },
    }
}

/// One step of the request to create a product: what the step of `state`
/// leads to once `event` has come in.
///
/// The record of the new product is made from the payload and the instant of
/// the request, and is inserted. The answer is that record with the
/// identifier that the store gave it. Where a product with its barcode
/// exists, the request is a bad request; any other failure of the store is
/// the failure of the request. The cache is not touched.
pub fn create_product(state: CreateState, event: CreateEvent) -> (next: (CreateState, CreateAction))
    ensures
        create_step(state, event, next),
{
    match state {
        CreateState::Received { payload, now } => match event {
            CreateEvent::Begin => (
                CreateState::Inserting { product: new_product(payload, now) },
                CreateAction::Insert,
            ),
            _ => create_out_of_step(),
        },
        CreateState::Inserting { product } => match event {
            CreateEvent::Inserted(answer) => (
                CreateState::Finished,
                CreateAction::Reply(created_product(product, answer)),
            ),
            _ => create_out_of_step(),
        },
        CreateState::Finished => create_out_of_step(),
    }
}

/// Where the change of a product stands.
#[derive(Debug)]
pub enum UpdateState {
    /// The request came in.
    Received { id_text: String, payload: UpdateProductPayload, now: i64 },
    /// Nothing is to be changed; the product is read as it is.
    Reading { id: DocumentId },
    /// The change is being written.
    Writing { id: DocumentId },
    /// The answer was given.
    Finished,
}

/// What the document store answered to the last step of a change.
#[derive(Debug)]
pub enum UpdateEvent {
    /// The request came in.
    Begin,
    /// The document store answered the read of the product as it is.
    Read(StoreRead<Product>),
    /// The document store answered the write.
    Written(StoreWrite<Option<Product>>),
}

/// What is to be done next for the change of a product.
#[derive(Debug)]
pub enum UpdateAction {
    /// Read the product of the state from the document store.
    ReadCurrent,
    /// Set these fields of the product of the state and return it as it is
    /// afterwards.
    Write { changes: Vec<FieldUpdate> },
    /// Answer the request, after deleting `stale_keys` from the cache in one
    /// operation; a failure to delete is ignored.
    Reply { result: Result<Product, ServiceError>, stale_keys: Vec<String> },
}

/// The end of a change with a failure; nothing is deleted from the cache.
fn update_fails(e: ServiceError) -> (next: (UpdateState, UpdateAction))
    ensures
        next.0 is Finished,
        next.1 matches UpdateAction::Reply { result: Err(failure), stale_keys } && failure == e
            && stale_keys@.len() == 0,
{
    (UpdateState::Finished, UpdateAction::Reply { result: Err(e), stale_keys: Vec::new() })
}

/// Whether `next` is what the step of `state` leads to once `event` has come
/// in: the state that follows, and what is to be done.
pub open spec fn update_step(state: UpdateState, event: UpdateEvent, next: (UpdateState, UpdateAction)) -> bool {
    match (state, event) {
        (UpdateState::Received { id_text, payload, now }, UpdateEvent::Begin) => {
            if !is_document_id_text(id_text@) {
                &&& next.0 is Finished
                &&& next.1 matches UpdateAction::Reply {
                    result: Err(ServiceError::BadRequest(msg)),
                    stale_keys,
                }
                &&& msg@ == invalid_id_message(id_text@)
                &&& stale_keys@.len() == 0
            } else if planned_changes(payload, now).len() == 0 {
                &&& next.0 matches UpdateState::Reading { id }
                &&& id@ == canonical_hex(id_text@)
                &&& next.1 is ReadCurrent
            } else {
                &&& next.0 matches UpdateState::Writing { id }
                &&& id@ == canonical_hex(id_text@)
                &&& next.1 matches UpdateAction::Write { changes }
                &&& changes_of(changes@) == planned_changes(payload, now)
            }
        },
        (UpdateState::Reading { id }, UpdateEvent::Read(answer)) => {
            &&& next.0 is Finished
            &&& next.1 matches UpdateAction::Reply { result, stale_keys }
            &&& stale_keys@.len() == 0
            &&& match answer {
                StoreRead::Found(product) => result == Ok::<Product, ServiceError>(product),
                StoreRead::Missing => result matches Err(ServiceError::NotFound(msg)) && msg@
                    == "Product with ID "@ + id@ + " not found"@,
                StoreRead::Failed(why) => result == Err::<Product, ServiceError>(
                    ServiceError::MongoDb(why),
                ),
            }
        },
        (UpdateState::Writing { id }, UpdateEvent::Written(answer)) => {
            &&& next.0 is Finished
            &&& next.1 matches UpdateAction::Reply { result, stale_keys }
            &&& match answer {
                StoreWrite::Done(Some(product)) => result == Ok::<Product, ServiceError>(
                    product,
                ) && views_of(stale_keys@) == seq![
                    "product:id:"@ + id@,
                    "product:code:"@ + product.code@,
                ],
                StoreWrite::Done(None) => stale_keys@.len() == 0 && (result matches Err(
                    ServiceError::NotFound(msg),
                ) && msg@ == "Product with ID "@ + id@ + " not found for update"@),
                StoreWrite::Failed(failure) => stale_keys@.len() == 0 && (if is_duplicate_key(
                    failure,
                ) {
                    result matches Err(ServiceError::BadRequest(msg)) && msg@
                        == "Update failed due to duplicate key (e.g., code already exists)."@
                } else {
                    result == Err::<Product, ServiceError>(ServiceError::MongoDb(failure.text))
                }),
            }
        },
        _ => {
            &&& next.0 is Finished
            &&& next.1 matches UpdateAction::Reply { result: Err(e), stale_keys }
            &&& is_out_of_step(e)
            &&& stale_keys@.len() == 0
        },
    }
}

/// One step of the request to change a product: what the step of `state`
/// leads to once `event` has come in.
///
/// An identifier that is not 24 hexadecimal digits is a bad request. A
/// payload that changes nothing writes nothing: the product is read and
/// returned as it is, and where there is none it is not found. Any other
/// payload is written with the instant of the change; the record that the
/// store returns is the answer, and both keys under which it may be cached,
/// by identifier and by the barcode of the record, are deleted. Where the
/// store knows no such product it is not found; where the change would repeat
/// a barcode it is a bad request; any other failure of the store is the
/// failure of the request. After a failure nothing is deleted from the cache.
pub fn update_product(state: UpdateState, event: UpdateEvent) -> (next: (UpdateState, UpdateAction))
    ensures
        update_step(state, event, next),
{
    match state {
        UpdateState::Received { id_text, payload, now } => match event {
            UpdateEvent::Begin => match plan_update(id_text.as_str(), payload, now) {
                Ok(plan) => {
                    if plan.changes.len() == 0 {
                        (UpdateState::Reading { id: plan.id }, UpdateAction::ReadCurrent)
                    } else {
                        (
                            UpdateState::Writing { id: plan.id },
                            UpdateAction::Write { changes: plan.changes },
                        )
                    }
                },
                Err(e) => update_fails(e),
            },
            _ => update_fails(out_of_step()),
        },
        UpdateState::Reading { id } => match event {
            UpdateEvent::Read(answer) => {
                let selector = ProductSelector::ById(id);
                match product_lookup_result(&selector, answer) {
                    Ok(product) => (
                        UpdateState::Finished,
                        UpdateAction::Reply { result: Ok(product), stale_keys: Vec::new() },
                    ),
                    Err(e) => update_fails(e),
                }
            },
            _ => update_fails(out_of_step()),
        },
        UpdateState::Writing { id } => match event {
            UpdateEvent::Written(answer) => match updated_product(&id, answer) {
                Ok(written) => (
                    UpdateState::Finished,
                    UpdateAction::Reply {
                        result: Ok(written.product),
                        stale_keys: written.stale_keys,
                    },
                ),
                Err(e) => update_fails(e),
            },
            _ => update_fails(out_of_step()),
        },
        UpdateState::Finished => update_fails(out_of_step()),
    }
}

/// Where the deletion of a product stands.
#[derive(Debug)]
pub enum DeleteState {
    /// The request came in.
    Received { id_text: String },
    /// The barcode of the product is being read.
    Reading { id: DocumentId },
    /// The product is being deleted.
    Deleting { id: DocumentId, code: String },
    /// The answer was given.
    Finished,
}

/// What the document store answered to the last step of a deletion.
#[derive(Debug)]
pub enum DeleteEvent {
    /// The request came in.
    Begin,
    /// The document store answered the read of the product's barcode.
    Code(StoreRead<String>),
    /// The document store answered the deletion with the number of documents
    /// that it deleted.
    Deleted(StoreWrite<u64>),
}

/// What is to be done next for the deletion of a product.
#[derive(Debug)]
pub enum DeleteAction {
    /// Read the barcode of the product of the state from the document store.
    ReadCode,
    /// Delete the product of the state from the document store.
    Delete,
    /// Answer the request, after deleting `stale_keys` from the cache in one
    /// operation; a failure to delete is ignored.
    Reply { result: Result<(), ServiceError>, stale_keys: Vec<String> },
}

/// The end of a deletion with a failure; nothing is deleted from the cache.
fn delete_fails(e: ServiceError) -> (next: (DeleteState, DeleteAction))
    ensures
        next.0 is Finished,
        next.1 matches DeleteAction::Reply { result: Err(failure), stale_keys } && failure == e
            && stale_keys@.len() == 0,
{
    (DeleteState::Finished, DeleteAction::Reply { result: Err(e), stale_keys: Vec::new() })
}

/// Whether `next` is what the step of `state` leads to once `event` has come
/// in: the state that follows, and what is to be done.
pub open spec fn delete_step(state: DeleteState, event: DeleteEvent, next: (DeleteState, DeleteAction)) -> bool {
    match (state, event) {
        (DeleteState::Received { id_text }, DeleteEvent::Begin) => if is_document_id_text(
            id_text@,
        ) {
            &&& next.0 matches DeleteState::Reading { id }
            &&& id@ == canonical_hex(id_text@)
            &&& next.1 is ReadCode
        } else {
            &&& next.0 is Finished
            &&& next.1 matches DeleteAction::Reply {
                result: Err(ServiceError::BadRequest(msg)),
                stale_keys,
            }
            &&& msg@ == invalid_id_message(id_text@)
            &&& stale_keys@.len() == 0
        },
        (DeleteState::Reading { id }, DeleteEvent::Code(answer)) => match answer {
            StoreRead::Found(code) => {
                &&& next.0 matches DeleteState::Deleting { id: same, code: read }
                &&& same == id && read == code
                &&& next.1 is Delete
            },
            StoreRead::Missing => {
                &&& next.0 is Finished
                &&& next.1 matches DeleteAction::Reply {
                    result: Err(ServiceError::NotFound(msg)),
                    stale_keys,
                }
                &&& msg@ == "Product with ID "@ + id@ + " not found for deletion"@
                &&& stale_keys@.len() == 0
            },
            StoreRead::Failed(why) => {
                &&& next.0 is Finished
                &&& next.1 matches DeleteAction::Reply {
                    result: Err(ServiceError::MongoDb(text)),
                    stale_keys,
                }
                &&& text == why
                &&& stale_keys@.len() == 0
            },
        },
        (DeleteState::Deleting { id, code }, DeleteEvent::Deleted(answer)) => {
            &&& next.0 is Finished
            &&& next.1 matches DeleteAction::Reply { result, stale_keys }
            &&& match answer {
                StoreWrite::Done(count) => if count > 0 {
                    result is Ok && views_of(stale_keys@) == seq![
                        "product:id:"@ + id@,
                        "product:code:"@ + code@,
                    ]
                } else {
                    stale_keys@.len() == 0 && (result matches Err(ServiceError::NotFound(msg))
                        && msg@ == "Product with ID "@ + id@ + " found but failed to delete"@)
                },
                StoreWrite::Failed(failure) => stale_keys@.len() == 0 && result == Err::<
                    (),
                    ServiceError,
                >(ServiceError::MongoDb(failure.text)),
            }
        },
        _ => {
            &&& next.0 is Finished
            &&& next.1 matches DeleteAction::Reply { result: Err(e), stale_keys }
            &&& is_out_of_step(e)
            &&& stale_keys@.len() == 0
        },
    }
}

/// One step of the request to delete a product: what the step of `state`
/// leads to once `event` has come in.
///
/// An identifier that is not 24 hexadecimal digits is a bad request. The
/// barcode of the product is read first; where there is no such product it is
/// not found and nothing else is done. Then the product is deleted. Where the
/// store deleted it, both keys under which it may be cached, by identifier
/// and by the barcode that was read, are deleted; where the store deleted
/// nothing, the product is not found. After a failure nothing is deleted from
/// the cache.
pub fn delete_product(state: DeleteState, event: DeleteEvent) -> (next: (DeleteState, DeleteAction))
    ensures
        delete_step(state, event, next),
{
    match state {
        DeleteState::Received { id_text } => match event {
            DeleteEvent::Begin => match parse_product_id(id_text.as_str()) {
                Ok(id) => (DeleteState::Reading { id }, DeleteAction::ReadCode),
                Err(e) => delete_fails(e),
            },
            _ => delete_fails(out_of_step()),
        },
        DeleteState::Reading { id } => match event {
            DeleteEvent::Code(answer) => match product_to_delete(&id, answer) {
                Ok(code) => (DeleteState::Deleting { id, code }, DeleteAction::Delete),
                Err(e) => delete_fails(e),
            },
            _ => delete_fails(out_of_step()),
        },
        DeleteState::Deleting { id, code } => match event {
            DeleteEvent::Deleted(answer) => match deleted_product(&id, code.as_str(), answer) {
                Ok(stale_keys) => (
                    DeleteState::Finished,
                    DeleteAction::Reply { result: Ok(()), stale_keys },
                ),
                Err(e) => delete_fails(e),
            },
            _ => delete_fails(out_of_step()),
        },
        DeleteState::Finished => delete_fails(out_of_step()),
    }
}

/// Whether a read of a product through the cache under `key` ended as it
/// must, where the cache held `cache`, the cached text decoded to `decoded`
/// and the document store answered `store`. What the cache serves is the
/// answer and is not written again. In every other case, a failure of the
/// cache among them, the document store decides: its record is the answer
/// and is written to the cache under `key` for 300 seconds; without a record
/// the product is not found, with the message `missing`; a failure of the
/// store is the failure of the request.
pub open spec fn is_product_read_outcome(
    key: Seq<char>,
    missing: Seq<char>,
    cache: CacheReply,
    decoded: Option<Product>,
    store: StoreRead<Product>,
    last: ProductReadAction,
) -> bool {
    &&& last matches LookupAction::Reply { result, write_back }
    &&& if served_by_cache(cache, decoded) {
        &&& result == Ok::<Product, ServiceError>(decoded->Some_0)
        &&& write_back is None
    } else {
        match store {
            StoreRead::Found(product) => {
                &&& result == Ok::<Product, ServiceError>(product)
                &&& write_back matches Some(target)
                &&& target.key@ == key
                &&& target.ttl_seconds == PRODUCT_TTL_SECONDS
            },
            StoreRead::Missing => {
                &&& result matches Err(ServiceError::NotFound(msg))
                &&& msg@ == missing
                &&& write_back is None
            },
            StoreRead::Failed(why) => {
                &&& result == Err::<Product, ServiceError>(ServiceError::MongoDb(why))
                &&& write_back is None
            },
        }
    }
}

/// The request for the product with a given identifier runs to its answer in
/// at most four steps. A text that is not an identifier is a bad request, and
/// nothing is asked. Else the cache is asked under `product:id:<identifier>`,
/// the document store is asked exactly where the cache did not serve the
/// product, and the answer is that of a read through the cache.
pub proof fn law_product_by_id_is_read_through_the_cache(
    text: String,
    cache: CacheReply,
    decoded: Option<Product>,
    store: StoreRead<Product>,
    first: (ProductReadState, ProductReadAction),
    second: (ProductReadState, ProductReadAction),
    third: (ProductReadState, ProductReadAction),
    fourth: (ProductReadState, ProductReadAction),
)
    requires
        product_by_id_step(ProductReadState::Received { text }, ReadEvent::Begin, first),
        product_by_id_step(first.0, event_for(first.1, cache, decoded, store), second),
        product_by_id_step(second.0, event_for(second.1, cache, decoded, store), third),
        product_by_id_step(third.0, event_for(third.1, cache, decoded, store), fourth),
    ensures
        if is_document_id_text(text@) {
            &&& first.1 matches LookupAction::AskCache { key }
            &&& key@ == "product:id:"@ + canonical_hex(text@)
            &&& asks_store(second.1, third.1, fourth.1) <==> !served_by_cache(cache, decoded)
            &&& is_product_read_outcome(
                "product:id:"@ + canonical_hex(text@),
                "Product with ID "@ + canonical_hex(text@) + " not found"@,
                cache,
                decoded,
                store,
                first_reply(first.1, second.1, third.1, fourth.1),
            )
        } else {
            &&& first.1 matches LookupAction::Reply {
                result: Err(ServiceError::BadRequest(msg)),
                write_back: None,
            }
            &&& msg@ == invalid_id_message(text@)
        },
{
}

/// The request for the product with a given barcode runs to its answer in at
/// most four steps. The cache is asked under `product:code:<barcode>`, the
/// document store is asked exactly where the cache did not serve the
/// product, and the answer is that of a read through the cache.
pub proof fn law_product_by_barcode_is_read_through_the_cache(
    text: String,
    cache: CacheReply,
    decoded: Option<Product>,
    store: StoreRead<Product>,
    first: (ProductReadState, ProductReadAction),
    second: (ProductReadState, ProductReadAction),
    third: (ProductReadState, ProductReadAction),
    fourth: (ProductReadState, ProductReadAction),
)
    requires
        product_by_barcode_step(ProductReadState::Received { text }, ReadEvent::Begin, first),
        product_by_barcode_step(first.0, event_for(first.1, cache, decoded, store), second),
        product_by_barcode_step(second.0, event_for(second.1, cache, decoded, store), third),
        product_by_barcode_step(third.0, event_for(third.1, cache, decoded, store), fourth),
    ensures
        first.1 matches LookupAction::AskCache { key } && key@ == "product:code:"@ + text@,
        asks_store(second.1, third.1, fourth.1) <==> !served_by_cache(cache, decoded),
        is_product_read_outcome(
            "product:code:"@ + text@,
            "Product with barcode "@ + text@ + " not found"@,
            cache,
            decoded,
            store,
            first_reply(first.1, second.1, third.1, fourth.1),
        ),
{
}

/// The event that answers `action` where the document store answers the read
/// of the product with `read` and the write with `written`.
pub open spec fn update_event_for(
    action: UpdateAction,
    read: StoreRead<Product>,
    written: StoreWrite<Option<Product>>,
) -> UpdateEvent {
    match action {
        UpdateAction::ReadCurrent => UpdateEvent::Read(read),
        UpdateAction::Write { .. } => UpdateEvent::Written(written),
        UpdateAction::Reply { .. } => UpdateEvent::Begin,
    }
}

/// Whether `last` is the answer that is owed to the request to change the
/// product `id_text` as `payload` says at the instant `now`, where the
/// document store answers a read of the product with `read` and the write
/// with `written`. Only a change that the store has made deletes keys from
/// the cache: the key of the identifier and that of the barcode of the
/// record that the store returned.
pub open spec fn is_update_outcome(
    id_text: Seq<char>,
    payload: UpdateProductPayload,
    now: i64,
    read: StoreRead<Product>,
    written: StoreWrite<Option<Product>>,
    last: UpdateAction,
) -> bool {
    &&& last matches UpdateAction::Reply { result, stale_keys }
    &&& if !is_document_id_text(id_text) {
        &&& result matches Err(ServiceError::BadRequest(msg))
        &&& msg@ == invalid_id_message(id_text)
        &&& stale_keys@.len() == 0
    } else if planned_changes(payload, now).len() == 0 {
        &&& stale_keys@.len() == 0
        &&& match read {
            StoreRead::Found(product) => result == Ok::<Product, ServiceError>(product),
            StoreRead::Missing => result matches Err(ServiceError::NotFound(msg)) && msg@
                == "Product with ID "@ + canonical_hex(id_text) + " not found"@,
            StoreRead::Failed(why) => result == Err::<Product, ServiceError>(
                ServiceError::MongoDb(why),
            ),
        }
    } else {
        match written {
            StoreWrite::Done(Some(product)) => {
                &&& result == Ok::<Product, ServiceError>(product)
                &&& views_of(stale_keys@) == seq![
                    "product:id:"@ + canonical_hex(id_text),
                    "product:code:"@ + product.code@,
                ]
            },
            StoreWrite::Done(None) => {
                &&& result matches Err(ServiceError::NotFound(msg))
                &&& msg@ == "Product with ID "@ + canonical_hex(id_text) + " not found for update"@
                &&& stale_keys@.len() == 0
            },
            StoreWrite::Failed(failure) => {
                &&& stale_keys@.len() == 0
                &&& if is_duplicate_key(failure) {
                    result matches Err(ServiceError::BadRequest(msg)) && msg@
                        == "Update failed due to duplicate key (e.g., code already exists)."@
                } else {
                    result == Err::<Product, ServiceError>(ServiceError::MongoDb(failure.text))
                }
            },
        }
    }
}

/// The request to change a product runs to its answer in at most two steps.
/// The store is written to exactly where the identifier is well formed and
/// the payload changes something, and then with the planned changes; it is
/// read exactly where the identifier is well formed and the payload changes
/// nothing. The answer is the one owed to the request.
pub proof fn law_update_runs_to_its_answer(
    id_text: String,
    payload: UpdateProductPayload,
    now: i64,
    read: StoreRead<Product>,
    written: StoreWrite<Option<Product>>,
    first: (UpdateState, UpdateAction),
    second: (UpdateState, UpdateAction),
)
    requires
        update_step(UpdateState::Received { id_text, payload, now }, UpdateEvent::Begin, first),
        update_step(first.0, update_event_for(first.1, read, written), second),
    ensures
        first.1 is Write <==> is_document_id_text(id_text@) && planned_changes(payload, now).len()
            > 0,
        first.1 is ReadCurrent <==> is_document_id_text(id_text@) && planned_changes(
            payload,
            now,
        ).len() == 0,
        first.1 matches UpdateAction::Write { changes } ==> changes_of(changes@)
            == planned_changes(payload, now),
        is_update_outcome(
            id_text@,
            payload,
            now,
            read,
            written,
            if first.1 is Reply {
                first.1
            } else {
                second.1
            },
        ),
{
    let changes = planned_changes(payload, now);
    if !is_document_id_text(id_text@) {
        assert(first.1 is Reply);
    } else if changes.len() == 0 {
        assert(first.1 is ReadCurrent);
        assert(second.1 is Reply);
    } else {
        assert(first.1 is Write);
        assert(second.1 is Reply);
    }
}

/// The event that answers `action` where the document store answers the read
/// of the barcode with `code` and the deletion with `deleted`.
pub open spec fn delete_event_for(
    action: DeleteAction,
    code: StoreRead<String>,
    deleted: StoreWrite<u64>,
) -> DeleteEvent {
    match action {
        DeleteAction::ReadCode => DeleteEvent::Code(code),
        DeleteAction::Delete => DeleteEvent::Deleted(deleted),
        DeleteAction::Reply { .. } => DeleteEvent::Begin,
    }
}

/// Whether `last` is the answer that is owed to the request to delete the
/// product `id_text`, where the document store answers the read of the
/// barcode with `code` and the deletion with `deleted`. Only a deletion that
/// the store has made deletes keys from the cache: the key of the identifier
/// and that of the barcode that was read.
pub open spec fn is_delete_outcome(
    id_text: Seq<char>,
    code: StoreRead<String>,
    deleted: StoreWrite<u64>,
    last: DeleteAction,
) -> bool {
    &&& last matches DeleteAction::Reply { result, stale_keys }
    &&& if !is_document_id_text(id_text) {
        &&& result matches Err(ServiceError::BadRequest(msg))
        &&& msg@ == invalid_id_message(id_text)
        &&& stale_keys@.len() == 0
    } else {
        match code {
            StoreRead::Missing => {
                &&& result matches Err(ServiceError::NotFound(msg))
                &&& msg@ == "Product with ID "@ + canonical_hex(id_text) + " not found for deletion"@
                &&& stale_keys@.len() == 0
            },
            StoreRead::Failed(why) => {
                &&& result == Err::<(), ServiceError>(ServiceError::MongoDb(why))
                &&& stale_keys@.len() == 0
            },
            StoreRead::Found(barcode) => match deleted {
                StoreWrite::Done(count) => if count > 0 {
                    &&& result is Ok
                    &&& views_of(stale_keys@) == seq![
                        "product:id:"@ + canonical_hex(id_text),
                        "product:code:"@ + barcode@,
                    ]
                } else {
                    &&& result matches Err(ServiceError::NotFound(msg))
                    &&& msg@ == "Product with ID "@ + canonical_hex(id_text)
                        + " found but failed to delete"@
                    &&& stale_keys@.len() == 0
                },
                StoreWrite::Failed(failure) => {
                    &&& result == Err::<(), ServiceError>(ServiceError::MongoDb(failure.text))
                    &&& stale_keys@.len() == 0
                },
            },
        }
    }
}

/// The request to delete a product runs to its answer in at most three
/// steps. The barcode is read exactly where the identifier is well formed,
/// and the store is asked to delete exactly where it then holds the product.
/// The answer is the one owed to the request.
pub proof fn law_delete_runs_to_its_answer(
    id_text: String,
    code: StoreRead<String>,
    deleted: StoreWrite<u64>,
    first: (DeleteState, DeleteAction),
    second: (DeleteState, DeleteAction),
    third: (DeleteState, DeleteAction),
)
    requires
        delete_step(DeleteState::Received { id_text }, DeleteEvent::Begin, first),
        delete_step(first.0, delete_event_for(first.1, code, deleted), second),
        delete_step(second.0, delete_event_for(second.1, code, deleted), third),
    ensures
        first.1 is ReadCode <==> is_document_id_text(id_text@),
        second.1 is Delete <==> is_document_id_text(id_text@) && code is Found,
        !(first.1 is Delete) && !(third.1 is Delete),
        is_delete_outcome(
            id_text@,
            code,
            deleted,
            if first.1 is Reply {
                first.1
            } else if second.1 is Reply {
                second.1
            } else {
                third.1
            },
        ),
{
}

/// After a product was changed or deleted and its two keys were deleted from
/// the cache, a request for it by its identifier is not served by the cache:
/// the document store is asked, and what it holds is the answer and is cached
/// anew for 300 seconds.
pub proof fn law_product_by_id_misses_after_invalidation(
    id_text: String,
    code: Seq<char>,
    contents: CacheContents,
    now: int,
    cache: CacheReply,
    decoded: Option<Product>,
    store: StoreRead<Product>,
    first: (ProductReadState, ProductReadAction),
    second: (ProductReadState, ProductReadAction),
    third: (ProductReadState, ProductReadAction),
    fourth: (ProductReadState, ProductReadAction),
)
    requires
        is_document_id_text(id_text@),
        answers_from(
            invalidated(
                contents,
                seq!["product:id:"@ + canonical_hex(id_text@), "product:code:"@ + code].to_set(),
            ),
            "product:id:"@ + canonical_hex(id_text@),
            now,
            cache,
        ),
        product_by_id_step(ProductReadState::Received { text: id_text }, ReadEvent::Begin, first),
        product_by_id_step(first.0, event_for(first.1, cache, decoded, store), second),
        product_by_id_step(second.0, event_for(second.1, cache, decoded, store), third),
        product_by_id_step(third.0, event_for(third.1, cache, decoded, store), fourth),
    ensures
        !served_by_cache(cache, decoded),
        second.1 is AskStore,
        store matches StoreRead::Found(record) ==> (third.1 matches LookupAction::Reply {
            result: Ok(served),
            write_back: Some(target),
        } && served == record && target.key@ == "product:id:"@ + canonical_hex(id_text@)
            && target.ttl_seconds == PRODUCT_TTL_SECONDS),
{
    let keys = seq!["product:id:"@ + canonical_hex(id_text@), "product:code:"@ + code];
    assert(keys[0] == "product:id:"@ + canonical_hex(id_text@));
    law_invalidated_keys_miss(
        contents,
        keys.to_set(),
        "product:id:"@ + canonical_hex(id_text@),
        now,
    );
}

/// A product that was written back to the cache is served from it until its
/// time to live has passed: a request by its identifier then gets the record
/// that the cached text decodes to, and the document store is not asked.
pub proof fn law_product_by_id_is_served_again(
    id_text: String,
    contents: CacheContents,
    text: Seq<char>,
    written_at: u64,
    read_at: int,
    cache: CacheReply,
    record: Product,
    store: StoreRead<Product>,
    first: (ProductReadState, ProductReadAction),
    second: (ProductReadState, ProductReadAction),
    third: (ProductReadState, ProductReadAction),
    fourth: (ProductReadState, ProductReadAction),
)
    requires
        is_document_id_text(id_text@),
        text.len() > 0,
        written_at <= read_at < expiry(written_at, PRODUCT_TTL_SECONDS),
        answers_from(
            written(
                contents,
                "product:id:"@ + canonical_hex(id_text@),
                text,
                PRODUCT_TTL_SECONDS,
                written_at,
            ),
            "product:id:"@ + canonical_hex(id_text@),
            read_at,
            cache,
        ),
        product_by_id_step(ProductReadState::Received { text: id_text }, ReadEvent::Begin, first),
        product_by_id_step(first.0, event_for(first.1, cache, Some(record), store), second),
        product_by_id_step(second.0, event_for(second.1, cache, Some(record), store), third),
        product_by_id_step(third.0, event_for(third.1, cache, Some(record), store), fourth),
    ensures
        second.1 matches LookupAction::Decode { payload } && payload@ == text,
        third.1 matches LookupAction::Reply { result: Ok(served), write_back: None } && served
            == record,
        !asks_store(first.1, second.1, third.1),
{
    law_read_your_write(
        contents,
        "product:id:"@ + canonical_hex(id_text@),
        text,
        PRODUCT_TTL_SECONDS,
        written_at,
        read_at,
    );
}

/// After a product was changed or deleted and its two keys were deleted from
/// the cache, a request for it by its barcode is not served by the cache: the
/// document store is asked, and what it holds is the answer and is cached
/// anew for 300 seconds.
pub proof fn law_product_by_barcode_misses_after_invalidation(
    barcode: String,
    id: Seq<char>,
    contents: CacheContents,
    now: int,
    cache: CacheReply,
    decoded: Option<Product>,
    store: StoreRead<Product>,
    first: (ProductReadState, ProductReadAction),
    second: (ProductReadState, ProductReadAction),
    third: (ProductReadState, ProductReadAction),
    fourth: (ProductReadState, ProductReadAction),
)
    requires
        answers_from(
            invalidated(
                contents,
                seq!["product:code:"@ + barcode@, "product:id:"@ + id].to_set(),
            ),
            "product:code:"@ + barcode@,
            now,
            cache,
        ),
        product_by_barcode_step(ProductReadState::Received { text: barcode }, ReadEvent::Begin, first),
        product_by_barcode_step(first.0, event_for(first.1, cache, decoded, store), second),
        product_by_barcode_step(second.0, event_for(second.1, cache, decoded, store), third),
        product_by_barcode_step(third.0, event_for(third.1, cache, decoded, store), fourth),
    ensures
        !served_by_cache(cache, decoded),
        second.1 is AskStore,
        store matches StoreRead::Found(record) ==> (third.1 matches LookupAction::Reply {
            result: Ok(served),
            write_back: Some(target),
        } && served == record && target.key@ == "product:code:"@ + barcode@
            && target.ttl_seconds == PRODUCT_TTL_SECONDS),
{
    let keys = seq!["product:code:"@ + barcode@, "product:id:"@ + id];
    assert(keys[0] == "product:code:"@ + barcode@);
    law_invalidated_keys_miss(contents, keys.to_set(), "product:code:"@ + barcode@, now);
}

/// A product that was written back to the cache is served from it until its
/// time to live has passed: a request by its barcode then gets the record
/// that the cached text decodes to, and the document store is not asked.
pub proof fn law_product_by_barcode_is_served_again(
    barcode: String,
    contents: CacheContents,
    text: Seq<char>,
    written_at: u64,
    read_at: int,
    cache: CacheReply,
    record: Product,
    store: StoreRead<Product>,
    first: (ProductReadState, ProductReadAction),
    second: (ProductReadState, ProductReadAction),
    third: (ProductReadState, ProductReadAction),
    fourth: (ProductReadState, ProductReadAction),
)
    requires
        text.len() > 0,
        written_at <= read_at < expiry(written_at, PRODUCT_TTL_SECONDS),
        answers_from(
            written(contents, "product:code:"@ + barcode@, text, PRODUCT_TTL_SECONDS, written_at),
            "product:code:"@ + barcode@,
            read_at,
            cache,
        ),
        product_by_barcode_step(ProductReadState::Received { text: barcode }, ReadEvent::Begin, first),
        product_by_barcode_step(first.0, event_for(first.1, cache, Some(record), store), second),
        product_by_barcode_step(second.0, event_for(second.1, cache, Some(record), store), third),
        product_by_barcode_step(third.0, event_for(third.1, cache, Some(record), store), fourth),
    ensures
        second.1 matches LookupAction::Decode { payload } && payload@ == text,
        third.1 matches LookupAction::Reply { result: Ok(served), write_back: None } && served
            == record,
        !asks_store(first.1, second.1, third.1),
{
    law_read_your_write(
        contents,
        "product:code:"@ + barcode@,
        text,
        PRODUCT_TTL_SECONDS,
        written_at,
        read_at,
    );
}

/// The request to create a product runs to its answer in two steps: the new
/// record is inserted, and the answer is that record with the identifier
/// that the store gave it, or the failure of the insertion.
pub proof fn law_create_runs_to_its_answer(
    payload: CreateProductPayload,
    now: i64,
    inserted: StoreWrite<Option<DocumentId>>,
    first: (CreateState, CreateAction),
    second: (CreateState, CreateAction),
)
    requires
        create_step(CreateState::Received { payload, now }, CreateEvent::Begin, first),
        create_step(first.0, CreateEvent::Inserted(inserted), second),
    ensures
        first.1 is Insert,
        second.1 matches CreateAction::Reply(result) && match inserted {
            StoreWrite::Done(id) => result matches Ok(stored) && stored.id == id && is_new_product(
                Product { id: None, ..stored },
                payload,
                now,
            ),
            StoreWrite::Failed(failure) => if is_duplicate_key(failure) {
                result matches Err(ServiceError::BadRequest(msg)) && msg@
                    == "Product with this code already exists."@
            } else {
                result == Err::<Product, ServiceError>(ServiceError::MongoDb(failure.text))
            },
        },
{
}

} // verus!
