use yoloeats_core::catalog::{
    create_indexes, created_product, new_product, parse_product_id, deleted_product,
    lookup_by_barcode, lookup_by_id, indexed_collection, product_lookup_result,
    product_to_delete, search_products, plan_update, updated_product, CreateProductPayload,
    IndexKind, LabelsClause, Product, ProductSelector, SearchParams, ServiceError,
    UpdateProductPayload, DEFAULT_SEARCH_LIMIT, MAX_SEARCH_LIMIT,
};
use yoloeats_core::config::ConfigError;
use yoloeats_core::errors::ErrorKind;
use yoloeats_core::ids::DocumentId;
use yoloeats_core::store::{FieldValue, StoreFailure, StoreRead, StoreWrite};

const ID: &str = "53e37d08776f724e42000000";

fn strings(items: &[&str]) -> Vec<String> {
    items.iter().map(|s| s.to_string()).collect()
}

fn id() -> DocumentId {
    DocumentId::parse_str(ID).unwrap()
}

fn payload() -> CreateProductPayload {
    CreateProductPayload {
        code: "0012345".to_string(),
        product_name: Some("Oat drink".to_string()),
        ingredients_text: Some("water, oats".to_string()),
        brands: Some(strings(&["oaty"])),
        categories: None,
    }
}

fn no_changes() -> UpdateProductPayload {
    UpdateProductPayload {
        product_name: None,
        generic_name: None,
        image_url: None,
        ingredients_text: None,
        brands: None,
        categories: None,
        labels: None,
        traces: None,
        allergens_tags: None,
        quantity: None,
        countries: None,
        nutrition_grade_fr: None,
    }
}

fn no_params() -> SearchParams {
    SearchParams {
        q: None,
        category: None,
        brand: None,
        label: None,
        country: None,
        nutriscore: None,
        limit: None,
        offset: None,
        user_allergens: None,
        user_diets: None,
    }
}

fn failure(code: Option<i32>) -> StoreFailure {
    StoreFailure { text: "E11000 duplicate key".to_string(), write_error_code: code }
}

fn bad_request(r: Result<impl std::fmt::Debug, ServiceError>) -> String {
    match r {
        Err(ServiceError::BadRequest(msg)) => msg,
        other => panic!("unexpected: {:?}", other),
    }
}

fn not_found(r: Result<impl std::fmt::Debug, ServiceError>) -> String {
    match r {
        Err(ServiceError::NotFound(msg)) => msg,
        other => panic!("unexpected: {:?}", other),
    }
}

fn store_failed(r: Result<impl std::fmt::Debug, ServiceError>) -> String {
    match r {
        Err(ServiceError::MongoDb(msg)) => msg,
        other => panic!("unexpected: {:?}", other),
    }
}

#[test]
fn lookup_by_id_uses_id_key_and_product_ttl() {
    let lookup = lookup_by_id("53E37D08776F724E42000000").unwrap();
    assert_eq!(lookup.cache_key, "product:id:53e37d08776f724e42000000");
    assert_eq!(lookup.ttl_seconds, 300);
    match lookup.selector {
        ProductSelector::ById(found) => assert_eq!(found.to_hex(), ID),
        other => panic!("unexpected: {:?}", other),
    }
}

#[test]
fn malformed_id_is_a_bad_request() {
    assert_eq!(bad_request(lookup_by_id("xyz")), "Invalid product ID format: xyz");
    assert_eq!(bad_request(parse_product_id("")), "Invalid product ID format: ");
    assert_eq!(
        bad_request(plan_update("12", no_changes(), 0)),
        "Invalid product ID format: 12"
    );
}

#[test]
fn lookup_by_barcode_uses_code_key() {
    let lookup = lookup_by_barcode("0012345");
    assert_eq!(lookup.cache_key, "product:code:0012345");
    assert_eq!(lookup.ttl_seconds, 300);
    match lookup.selector {
        ProductSelector::ByCode(code) => assert_eq!(code, "0012345"),
        other => panic!("unexpected: {:?}", other),
    }
}

#[test]
fn lookup_result_follows_the_store() {
    let product = new_product(payload(), 5);
    let found = product_lookup_result(&ProductSelector::ById(id()), StoreRead::Found(product));
    assert_eq!(found.unwrap().code, "0012345");
    assert_eq!(
        not_found(product_lookup_result(&ProductSelector::ById(id()), StoreRead::Missing)),
        "Product with ID 53e37d08776f724e42000000 not found"
    );
    assert_eq!(
        not_found(product_lookup_result(
            &ProductSelector::ByCode("0012345".to_string()),
            StoreRead::Missing
        )),
        "Product with barcode 0012345 not found"
    );
    assert_eq!(
        store_failed(product_lookup_result(
            &ProductSelector::ById(id()),
            StoreRead::Failed("pool closed".to_string())
        )),
        "pool closed"
    );
}

#[test]
fn new_product_takes_payload_and_instant() {
    let product = new_product(payload(), 1_700_000_000_000);
    assert!(product.id.is_none());
    assert_eq!(product.code, "0012345");
    assert_eq!(product.product_name.as_deref(), Some("Oat drink"));
    assert_eq!(product.ingredients_text.as_deref(), Some("water, oats"));
    assert_eq!(product.brands, Some(strings(&["oaty"])));
    assert_eq!(product.categories, None);
    assert!(product.allergens_tags.is_empty());
    assert_eq!(product.creator.as_deref(), Some("api_create"));
    assert_eq!(product.source.as_deref(), Some("api_create_v1"));
    assert_eq!(product.created_at, 1_700_000_000_000);
    assert_eq!(product.last_modified_at, 1_700_000_000_000);
    assert!(product.generic_name.is_none() && product.labels.is_none());
}

#[test]
fn created_product_gets_the_identifier_of_the_store() {
    let stored = created_product(new_product(payload(), 1), StoreWrite::Done(Some(id()))).unwrap();
    assert_eq!(stored.id.unwrap().to_hex(), ID);
    assert_eq!(stored.code, "0012345");
    let anonymous = created_product(new_product(payload(), 1), StoreWrite::Done(None)).unwrap();
    assert!(anonymous.id.is_none());
}

#[test]
fn duplicate_barcode_is_a_bad_request() {
    assert_eq!(
        bad_request(created_product(
            new_product(payload(), 1),
            StoreWrite::Failed(failure(Some(11000)))
        )),
        "Product with this code already exists."
    );
    assert_eq!(
        store_failed(created_product(
            new_product(payload(), 1),
            StoreWrite::Failed(failure(Some(121)))
        )),
        "E11000 duplicate key"
    );
    assert_eq!(
        store_failed(created_product(
            new_product(payload(), 1),
            StoreWrite::Failed(failure(None))
        )),
        "E11000 duplicate key"
    );
}

#[test]
fn update_sets_given_fields_and_the_instant() {
    let mut changes = no_changes();
    changes.product_name = Some("Oat drink barista".to_string());
    changes.labels = Some(strings(&["en:vegan"]));
    changes.allergens_tags = Some(strings(&["en:gluten"]));
    changes.nutrition_grade_fr = Some("b".to_string());
    let plan = plan_update(ID, changes, 77).unwrap();
    assert_eq!(plan.id.to_hex(), ID);
    let fields: Vec<&str> = plan.changes.iter().map(|c| c.field.as_str()).collect();
    assert_eq!(
        fields,
        vec!["product_name", "labels_tags", "nutrition_grade_fr", "last_modified_datetime"]
    );
    assert!(matches!(&plan.changes[0].value, FieldValue::Text(t) if t == "Oat drink barista"));
    assert!(matches!(&plan.changes[1].value, FieldValue::List(l) if l == &strings(&["en:vegan"])));
    assert!(matches!(&plan.changes[3].value, FieldValue::Instant(77)));
}

#[test]
fn update_without_fields_writes_nothing() {
    let plan = plan_update(ID, no_changes(), 77).unwrap();
    assert!(plan.changes.is_empty());
    let mut only_allergens = no_changes();
    only_allergens.allergens_tags = Some(strings(&["en:milk"]));
    assert!(plan_update(ID, only_allergens, 77).unwrap().changes.is_empty());
}

#[test]
fn update_orders_all_fields() {
    let all = UpdateProductPayload {
        product_name: Some("n".to_string()),
        generic_name: Some("g".to_string()),
        image_url: Some("u".to_string()),
        ingredients_text: Some("i".to_string()),
        brands: Some(vec![]),
        categories: Some(vec![]),
        labels: Some(vec![]),
        traces: Some(vec![]),
        allergens_tags: None,
        quantity: Some("q".to_string()),
        countries: Some(vec![]),
        nutrition_grade_fr: Some("a".to_string()),
    };
    let plan = plan_update(ID, all, 1).unwrap();
    let fields: Vec<&str> = plan.changes.iter().map(|c| c.field.as_str()).collect();
    assert_eq!(
        fields,
        vec![
            "product_name",
            "generic_name",
            "image_url",
            "ingredients_text",
            "brands_tags",
            "categories_tags",
            "labels_tags",
            "traces_tags",
            "quantity",
            "countries_tags",
            "nutrition_grade_fr",
            "last_modified_datetime",
        ]
    );
}

#[test]
fn updated_product_invalidates_both_keys() {
    let product = new_product(payload(), 5);
    let written = updated_product(&id(), StoreWrite::Done(Some(product))).unwrap();
    assert_eq!(written.product.code, "0012345");
    assert_eq!(
        written.stale_keys,
        strings(&["product:id:53e37d08776f724e42000000", "product:code:0012345"])
    );
    assert_eq!(
        not_found(updated_product(&id(), StoreWrite::Done(None))),
        "Product with ID 53e37d08776f724e42000000 not found for update"
    );
    assert_eq!(
        bad_request(updated_product(&id(), StoreWrite::Failed(failure(Some(11000))))),
        "Update failed due to duplicate key (e.g., code already exists)."
    );
    assert_eq!(
        store_failed(updated_product(&id(), StoreWrite::Failed(failure(None)))),
        "E11000 duplicate key"
    );
}

#[test]
fn deletion_reads_the_barcode_then_invalidates_both_keys() {
    assert_eq!(parse_product_id(ID).unwrap().to_hex(), ID);
    assert_eq!(product_to_delete(&id(), StoreRead::Found("0012345".to_string())).unwrap(), "0012345");
    assert_eq!(
        not_found(product_to_delete(&id(), StoreRead::Missing)),
        "Product with ID 53e37d08776f724e42000000 not found for deletion"
    );
    assert_eq!(
        store_failed(product_to_delete(&id(), StoreRead::Failed("x".to_string()))),
        "x"
    );
    assert_eq!(
        deleted_product(&id(), "0012345", StoreWrite::Done(1)).unwrap(),
        strings(&["product:id:53e37d08776f724e42000000", "product:code:0012345"])
    );
    assert_eq!(
        not_found(deleted_product(&id(), "0012345", StoreWrite::Done(0))),
        "Product with ID 53e37d08776f724e42000000 found but failed to delete"
    );
    assert_eq!(
        store_failed(deleted_product(&id(), "0012345", StoreWrite::Failed(failure(Some(11000))))),
        "E11000 duplicate key"
    );
}

#[test]
fn search_defaults() {
    let query = search_products(&no_params());
    assert_eq!(DEFAULT_SEARCH_LIMIT, 20);
    assert_eq!(MAX_SEARCH_LIMIT, 100);
    assert_eq!(query.limit, 20);
    assert_eq!(query.skip, 0);
    assert!(query.text.is_none() && query.category.is_none() && query.brand.is_none());
    assert!(query.country.is_none() && query.nutrition_grade.is_none());
    assert!(query.excluded_allergens.is_none());
    assert!(matches!(query.labels, LabelsClause::Any));
}

#[test]
fn search_trims_and_ignores_blank_texts() {
    let mut params = no_params();
    params.q = Some("  oat drink ".to_string());
    params.category = Some("   ".to_string());
    params.brand = Some("oaty".to_string());
    params.label = Some(" en:organic ".to_string());
    params.country = Some("".to_string());
    params.nutriscore = Some(" B ".to_string());
    params.limit = Some(250);
    params.offset = Some(40);
    let query = search_products(&params);
    assert_eq!(query.text.as_deref(), Some("oat drink"));
    assert_eq!(query.category, None);
    assert_eq!(query.brand.as_deref(), Some("oaty"));
    assert_eq!(query.country, None);
    assert_eq!(query.nutrition_grade.as_deref(), Some("b"));
    assert!(matches!(&query.labels, LabelsClause::Equals(l) if l == "en:organic"));
    assert_eq!(query.limit, 100);
    assert_eq!(query.skip, 40);
}

#[test]
fn search_limit_is_clamped() {
    let mut params = no_params();
    params.limit = Some(0);
    assert_eq!(search_products(&params).limit, 0);
    params.limit = Some(99);
    assert_eq!(search_products(&params).limit, 99);
    params.limit = Some(100);
    assert_eq!(search_products(&params).limit, 100);
    params.limit = Some(u64::MAX);
    assert_eq!(search_products(&params).limit, 100);
}

#[test]
fn search_excludes_allergens_and_diet_labels() {
    let mut params = no_params();
    params.label = Some("en:organic".to_string());
    params.user_allergens = Some(strings(&["en:milk", "en:nuts"]));
    params.user_diets = Some(strings(&["gluten_free"]));
    let query = search_products(&params);
    assert_eq!(query.excluded_allergens, Some(strings(&["en:milk", "en:nuts"])));
    match &query.labels {
        LabelsClause::NoneOf(tags) => {
            assert_eq!(tags, &strings(&["en:contains-gluten", "en:gluten"]))
        }
        other => panic!("unexpected: {:?}", other),
    }
    params.user_allergens = Some(vec![]);
    params.user_diets = Some(strings(&["keto"]));
    let query = search_products(&params);
    assert_eq!(query.excluded_allergens, None);
    assert!(matches!(&query.labels, LabelsClause::Equals(l) if l == "en:organic"));
}

#[test]
fn failures_are_answered_without_internal_text() {
    let cases: Vec<(ServiceError, u16, &str, ErrorKind)> = vec![
        (ServiceError::Io("secret".into()), 500, "Internal I/O error", ErrorKind::Internal),
        (
            ServiceError::MongoDb("secret".into()),
            500,
            "Database operation failed",
            ErrorKind::UpstreamUnavailable,
        ),
        (
            ServiceError::Redis("secret".into()),
            500,
            "Cache operation failed",
            ErrorKind::UpstreamUnavailable,
        ),
        (
            ServiceError::Qdrant("secret".into()),
            500,
            "Vector DB operation failed",
            ErrorKind::UpstreamUnavailable,
        ),
        (
            ServiceError::Neo4j("secret".into()),
            500,
            "Graph DB operation failed",
            ErrorKind::UpstreamUnavailable,
        ),
        (
            ServiceError::Reqwest("secret".into()),
            500,
            "Internal network communication error",
            ErrorKind::UpstreamUnavailable,
        ),
        (
            ServiceError::BsonSerialize("secret".into()),
            500,
            "Failed to serialize data",
            ErrorKind::DataFormatError,
        ),
        (
            ServiceError::BsonDeserialize("secret".into()),
            400,
            "Failed to deserialize data",
            ErrorKind::DataFormatError,
        ),
        (
            ServiceError::MissingVariable("X".into()),
            500,
            "Internal server configuration error",
            ErrorKind::Internal,
        ),
        (
            ServiceError::InvalidVariable("X".into()),
            500,
            "Internal server configuration error",
            ErrorKind::Internal,
        ),
        (
            ServiceError::Dotenv("secret".into()),
            500,
            "Internal configuration error",
            ErrorKind::Internal,
        ),
        (
            ServiceError::VarError("secret".into()),
            500,
            "Internal server configuration error",
            ErrorKind::Internal,
        ),
        (ServiceError::BadRequest("bad id".into()), 400, "bad id", ErrorKind::BadRequest),
        (ServiceError::NotFound("no product".into()), 404, "no product", ErrorKind::NotFound),
        (
            ServiceError::Internal("secret".into()),
            500,
            "An internal error occurred",
            ErrorKind::Internal,
        ),
    ];
    for (error, status, message, kind) in cases {
        assert_eq!(error.kind(), kind);
        let response = error.into_response();
        assert_eq!(response.status, status);
        assert_eq!(response.message, message);
    }
}

#[test]
fn configuration_errors_convert() {
    let missing: ServiceError = ConfigError::MissingVariable("MONGO_URI".to_string()).into();
    assert!(matches!(missing, ServiceError::MissingVariable(ref v) if v == "MONGO_URI"));
    let dotenv = ServiceError::from(ConfigError::Dotenv("no file".to_string()));
    assert!(matches!(dotenv, ServiceError::Dotenv(ref v) if v == "no file"));
}

#[test]
fn catalogue_has_seven_indexes() {
    assert_eq!(indexed_collection(), "openfoodfacts_products");
    let indexes = create_indexes();
    assert_eq!(indexes.len(), 7);
    assert_eq!(indexes[0].fields, strings(&["code"]));
    assert!(indexes[0].unique);
    assert_eq!(indexes[0].kind, IndexKind::Ascending);
    assert_eq!(
        indexes[1].fields,
        strings(&["product_name", "generic_name", "ingredients_text", "brands_tags"])
    );
    assert_eq!(indexes[1].kind, IndexKind::Text);
    let rest: Vec<&str> = indexes[2..].iter().map(|i| i.fields[0].as_str()).collect();
    assert_eq!(
        rest,
        vec!["categories_tags", "labels_tags", "brands_tags", "countries_tags", "nutrition_grade_fr"]
    );
    assert!(indexes[1..].iter().all(|i| !i.unique));
}

#[test]
fn product_can_be_built_by_hand() {
    let p = Product {
        id: Some(id()),
        code: "1".to_string(),
        product_name: None,
        generic_name: None,
        brands: None,
        categories: None,
        main_category: None,
        labels: None,
        ingredients_text: None,
        traces_tags: None,
        allergens_tags: vec![],
        quantity: None,
        image_url: None,
        image_small_url: None,
        countries: None,
        nutrition_grade_fr: None,
        creator: None,
        source: None,
        created_at: 1,
        last_modified_at: 2,
    };
    assert_eq!(p.id.unwrap().to_hex(), ID);
}

#[test]
fn failures_are_described_for_logs() {
    let cases: Vec<(ServiceError, &str)> = vec![
        (ServiceError::Io("x".into()), "Input/output error: x"),
        (ServiceError::MongoDb("x".into()), "MongoDB error: x"),
        (ServiceError::Redis("x".into()), "Redis error: x"),
        (ServiceError::Qdrant("x".into()), "Qdrant client error: x"),
        (ServiceError::Neo4j("x".into()), "Neo4j client error: x"),
        (ServiceError::Reqwest("x".into()), "HTTP request error: x"),
        (ServiceError::BsonSerialize("x".into()), "BSON serialization error: x"),
        (ServiceError::BsonDeserialize("x".into()), "BSON deserialization error: x"),
        (
            ServiceError::MissingVariable("X".into()),
            "Configuration error: Missing environment variable 'X'",
        ),
        (
            ServiceError::InvalidVariable("X".into()),
            "Configuration error: Invalid environment variable 'X'",
        ),
        (ServiceError::Dotenv("x".into()), "Configuration error: Dotenv error: x"),
        (ServiceError::VarError("x".into()), "Environment variable error: x"),
        (ServiceError::BadRequest("x".into()), "Invalid input: x"),
        (ServiceError::NotFound("x".into()), "Resource not found: x"),
        (ServiceError::Internal("x".into()), "Internal server error: x"),
    ];
    for (error, text) in cases {
        assert_eq!(error.describe(), text);
    }
}
