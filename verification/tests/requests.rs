use yoloeats_core::cache::{write_back, CacheAsideStore, CacheReply, LookupAction, ReadEvent};
use yoloeats_core::catalog::{
    create_product, delete_product, get_product_by_barcode, get_product_by_id, new_product,
    search_products, update_product, CreateAction, CreateEvent, CreateProductPayload,
    CreateState, DeleteAction, DeleteEvent, DeleteState, LabelsClause,
    Product, ProductReadState, SearchParams, ServiceError, UpdateAction, UpdateEvent,
    UpdateProductPayload, UpdateState,
};
use yoloeats_core::names::NameSet;
use yoloeats_core::profile::{
    get_allergens, get_profile, update_profile, AllergenInfo, AllergensReadState, AppError,
    ProfileReadState, RiskLevel, UpdateProfilePayload, UpsertAction, UpsertEvent, UpsertState,
    UserProfile,
};
use yoloeats_core::recommend::{ascending_conflict_tags, derive_conflict_tags};
use yoloeats_core::store::{FieldValue, StoreFailure, StoreRead, StoreWrite};

const ID: &str = "53e37d08776f724e42000000";

fn strings(items: &[&str]) -> Vec<String> {
    items.iter().map(|s| s.to_string()).collect()
}

fn product(code: &str) -> Product {
    new_product(
        CreateProductPayload {
            code: code.to_string(),
            product_name: Some("Oat drink".to_string()),
            ingredients_text: None,
            brands: None,
            categories: None,
        },
        1_700_000_000_000,
    )
}

fn profile_of(user_id: &str) -> UserProfile {
    UserProfile {
        id: None,
        user_id: user_id.to_string(),
        username: Some("ada".to_string()),
        email: None,
        allergens: strings(&["peanuts"]),
        dietary_prefs: vec![],
        risk_tolerance: RiskLevel::default(),
        created_at: 1,
        updated_at: 2,
    }
}

/// What the cache and the store hold for a read, and what the cached text
/// decodes to.
struct World<T> {
    cache: Option<CacheReply>,
    decoded: Option<Option<T>>,
    store: Option<Result<Option<T>, String>>,
}

/// The answer of a read, the key and time to live of its write to the cache,
/// and the steps that it took.
struct Outcome<T, E> {
    result: Result<T, E>,
    written_back: Option<(String, u64)>,
    asked_key: Option<String>,
    steps: Vec<&'static str>,
}

fn run_lookup<S, T, E>(
    step: fn(S, ReadEvent<T>) -> (S, LookupAction<T, E>),
    received: S,
    mut world: World<T>,
) -> Outcome<T, E> {
    let (mut state, mut action) = step(received, ReadEvent::Begin);
    let mut steps = Vec::new();
    let mut asked_key = None;
    loop {
        let event = match action {
            LookupAction::AskCache { key } => {
                steps.push("cache");
                asked_key = Some(key);
                ReadEvent::Cache(world.cache.take().unwrap())
            }
            LookupAction::Decode { payload } => {
                steps.push("decode");
                assert!(!payload.is_empty());
                ReadEvent::Decoded(world.decoded.take().unwrap())
            }
            LookupAction::AskStore => {
                steps.push("store");
                match world.store.take().unwrap() {
                    Ok(found) => ReadEvent::Store(found),
                    Err(why) => ReadEvent::StoreFailed(why),
                }
            }
            LookupAction::Reply { result, write_back } => {
                return Outcome {
                    result,
                    written_back: write_back.map(|t| (t.key, t.ttl_seconds)),
                    asked_key,
                    steps,
                };
            }
        };
        (state, action) = step(state, event);
    }
}

fn product_by_id(world: World<Product>) -> Outcome<Product, ServiceError> {
    run_lookup(get_product_by_id, ProductReadState::Received { text: ID.to_string() }, world)
}

#[test]
fn product_by_id_is_served_from_the_cache() {
    let outcome = product_by_id(World {
        cache: Some(CacheReply::Value("{\"code\":\"0012345\"}".to_string())),
        decoded: Some(Some(product("0012345"))),
        store: None,
    });
    assert_eq!(outcome.steps, vec!["cache", "decode"]);
    assert_eq!(outcome.asked_key.as_deref(), Some("product:id:53e37d08776f724e42000000"));
    assert_eq!(outcome.result.unwrap().code, "0012345");
    assert_eq!(outcome.written_back, None);
}

#[test]
fn product_by_id_missed_in_the_cache_is_read_and_written_back() {
    let outcome = product_by_id(World {
        cache: Some(CacheReply::Absent),
        decoded: None,
        store: Some(Ok(Some(product("0012345")))),
    });
    assert_eq!(outcome.steps, vec!["cache", "store"]);
    assert_eq!(outcome.result.unwrap().code, "0012345");
    assert_eq!(
        outcome.written_back,
        Some(("product:id:53e37d08776f724e42000000".to_string(), 300))
    );
}

#[test]
fn product_by_id_survives_a_failing_cache() {
    let outcome = product_by_id(World {
        cache: Some(CacheReply::Failed("connection refused".to_string())),
        decoded: None,
        store: Some(Ok(Some(product("0012345")))),
    });
    assert_eq!(outcome.steps, vec!["cache", "store"]);
    assert_eq!(outcome.result.unwrap().code, "0012345");
}

#[test]
fn product_by_id_with_an_empty_or_undecodable_cached_text_goes_to_the_store() {
    let outcome = product_by_id(World {
        cache: Some(CacheReply::Value(String::new())),
        decoded: None,
        store: Some(Ok(Some(product("1")))),
    });
    assert_eq!(outcome.steps, vec!["cache", "store"]);
    assert!(outcome.result.is_ok());
    let outcome = product_by_id(World {
        cache: Some(CacheReply::Value("not json".to_string())),
        decoded: Some(None),
        store: Some(Ok(Some(product("1")))),
    });
    assert_eq!(outcome.steps, vec!["cache", "decode", "store"]);
    assert!(outcome.result.is_ok());
    assert!(outcome.written_back.is_some());
}

#[test]
fn product_by_id_that_the_store_lacks_is_not_found() {
    let outcome = product_by_id(World {
        cache: Some(CacheReply::Absent),
        decoded: None,
        store: Some(Ok(None)),
    });
    match outcome.result {
        Err(ServiceError::NotFound(msg)) => {
            assert_eq!(msg, "Product with ID 53e37d08776f724e42000000 not found")
        }
        other => panic!("unexpected: {:?}", other),
    }
    assert_eq!(outcome.written_back, None);
}

#[test]
fn product_by_id_fails_with_the_store() {
    let outcome = product_by_id(World {
        cache: Some(CacheReply::Absent),
        decoded: None,
        store: Some(Err("timed out".to_string())),
    });
    assert!(matches!(outcome.result, Err(ServiceError::MongoDb(why)) if why == "timed out"));
    assert_eq!(outcome.written_back, None);
}

#[test]
fn product_by_malformed_id_is_a_bad_request_and_asks_nothing() {
    let outcome = run_lookup(
        get_product_by_id,
        ProductReadState::Received { text: "xyz".to_string() },
        World { cache: None, decoded: None, store: None },
    );
    assert!(outcome.steps.is_empty());
    match outcome.result {
        Err(ServiceError::BadRequest(msg)) => assert_eq!(msg, "Invalid product ID format: xyz"),
        other => panic!("unexpected: {:?}", other),
    }
}

#[test]
fn product_by_id_cached_under_its_canonical_identifier() {
    let outcome = run_lookup(
        get_product_by_id,
        ProductReadState::Received { text: "53E37D08776F724E42000000".to_string() },
        World { cache: Some(CacheReply::Absent), decoded: None, store: Some(Ok(None)) },
    );
    assert_eq!(outcome.asked_key.as_deref(), Some("product:id:53e37d08776f724e42000000"));
}

#[test]
fn product_by_barcode_is_read_under_its_own_key() {
    let outcome = run_lookup(
        get_product_by_barcode,
        ProductReadState::Received { text: "0012345".to_string() },
        World {
            cache: Some(CacheReply::Absent),
            decoded: None,
            store: Some(Ok(Some(product("0012345")))),
        },
    );
    assert_eq!(outcome.steps, vec!["cache", "store"]);
    assert_eq!(outcome.asked_key.as_deref(), Some("product:code:0012345"));
    assert_eq!(outcome.written_back, Some(("product:code:0012345".to_string(), 300)));
    assert_eq!(outcome.result.unwrap().code, "0012345");
    let outcome = run_lookup(
        get_product_by_barcode,
        ProductReadState::Received { text: "999".to_string() },
        World { cache: Some(CacheReply::Absent), decoded: None, store: Some(Ok(None)) },
    );
    match outcome.result {
        Err(ServiceError::NotFound(msg)) => assert_eq!(msg, "Product with barcode 999 not found"),
        other => panic!("unexpected: {:?}", other),
    }
}

#[test]
fn product_read_rejects_an_answer_out_of_step() {
    let received = ProductReadState::Received { text: ID.to_string() };
    let (state, action) = get_product_by_id(received, ReadEvent::Store(None));
    assert!(matches!(state, ProductReadState::Finished));
    match action {
        LookupAction::Reply { result: Err(ServiceError::Internal(msg)), write_back: None } => {
            assert_eq!(msg, "Answer does not belong to the current step of the request")
        }
        other => panic!("unexpected: {:?}", other),
    }
    let (state, action) = get_product_by_barcode(state, ReadEvent::Begin);
    assert!(matches!(state, ProductReadState::Finished));
    assert!(matches!(action, LookupAction::Reply { result: Err(ServiceError::Internal(_)), .. }));
}

#[test]
fn profile_is_read_through_the_cache() {
    let received = || ProfileReadState::Received { user_id: "u-1".to_string() };
    let outcome = run_lookup(
        get_profile,
        received(),
        World {
            cache: Some(CacheReply::Value("{}".to_string())),
            decoded: Some(Some(profile_of("u-1"))),
            store: None,
        },
    );
    assert_eq!(outcome.steps, vec!["cache", "decode"]);
    assert_eq!(outcome.asked_key.as_deref(), Some("profile:u-1"));
    assert_eq!(outcome.result.unwrap().user_id, "u-1");
    assert_eq!(outcome.written_back, None);
    let outcome = run_lookup(
        get_profile,
        received(),
        World {
            cache: Some(CacheReply::Failed("down".to_string())),
            decoded: None,
            store: Some(Ok(Some(profile_of("u-1")))),
        },
    );
    assert_eq!(outcome.steps, vec!["cache", "store"]);
    assert_eq!(outcome.result.unwrap().allergens, strings(&["peanuts"]));
    assert_eq!(outcome.written_back, Some(("profile:u-1".to_string(), 3600)));
}

#[test]
fn profile_that_the_store_lacks_is_not_found() {
    let outcome = run_lookup(
        get_profile,
        ProfileReadState::Received { user_id: "u-9".to_string() },
        World { cache: Some(CacheReply::Absent), decoded: None, store: Some(Ok(None)) },
    );
    match outcome.result {
        Err(AppError::NotFound(msg)) => assert_eq!(msg, "Profile for user u-9 not found"),
        other => panic!("unexpected: {:?}", other),
    }
    assert_eq!(outcome.written_back, None);
    let outcome = run_lookup(
        get_profile,
        ProfileReadState::Received { user_id: "u-9".to_string() },
        World {
            cache: Some(CacheReply::Absent),
            decoded: None,
            store: Some(Err("timed out".to_string())),
        },
    );
    assert!(matches!(outcome.result, Err(AppError::MongoDb(why)) if why == "timed out"));
}

#[test]
fn allergens_come_from_the_list_and_are_cached_once() {
    let outcome = run_lookup(
        get_allergens,
        AllergensReadState::Received,
        World { cache: Some(CacheReply::Absent), decoded: None, store: None },
    );
    assert_eq!(outcome.steps, vec!["cache"]);
    assert_eq!(outcome.asked_key.as_deref(), Some("allergens:list_v1"));
    assert_eq!(outcome.written_back, Some(("allergens:list_v1".to_string(), 86400)));
    let list = outcome.result.unwrap();
    assert_eq!(list.len(), 14);
    assert_eq!(list[0].id, "gluten");
    let outcome = run_lookup(
        get_allergens,
        AllergensReadState::Received,
        World {
            cache: Some(CacheReply::Value("[broken".to_string())),
            decoded: Some(None),
            store: None,
        },
    );
    assert_eq!(outcome.steps, vec!["cache", "decode"]);
    assert_eq!(outcome.result.unwrap().len(), 14);
    assert!(outcome.written_back.is_some());
}

#[test]
fn allergens_are_served_from_the_cache() {
    let cached = vec![AllergenInfo {
        id: "x".to_string(),
        name: "X".to_string(),
        description: None,
    }];
    let outcome = run_lookup(
        get_allergens,
        AllergensReadState::Received,
        World {
            cache: Some(CacheReply::Value("[..]".to_string())),
            decoded: Some(Some(cached)),
            store: None,
        },
    );
    assert_eq!(outcome.steps, vec!["cache", "decode"]);
    let list = outcome.result.unwrap();
    assert_eq!(list.len(), 1);
    assert_eq!(list[0].id, "x");
    assert_eq!(outcome.written_back, None);
}

fn no_changes() -> UpdateProductPayload {
    UpdateProductPayload {
        product_name: None,
        generic_name: None,
        image_url: None,
        ingredients_text: None,
        brands: None,
        categories: None,
        labels: None,
        traces: None,
        allergens_tags: None,
        quantity: None,
        countries: None,
        nutrition_grade_fr: None,
    }
}

fn begin_update(id_text: &str, payload: UpdateProductPayload) -> (UpdateState, UpdateAction) {
    let received = UpdateState::Received { id_text: id_text.to_string(), payload, now: 77 };
    update_product(received, UpdateEvent::Begin)
}

#[test]
fn update_without_fields_writes_nothing_and_returns_the_product() {
    let (state, action) = begin_update(ID, no_changes());
    assert!(matches!(&state, UpdateState::Reading { id } if id.to_hex() == ID));
    assert!(matches!(action, UpdateAction::ReadCurrent));
    let (state, action) = update_product(state, UpdateEvent::Read(StoreRead::Found(product("1"))));
    assert!(matches!(state, UpdateState::Finished));
    match action {
        UpdateAction::Reply { result: Ok(found), stale_keys } => {
            assert_eq!(found.code, "1");
            assert!(stale_keys.is_empty());
        }
        other => panic!("unexpected: {:?}", other),
    }
}

#[test]
fn update_without_fields_of_a_missing_product_is_not_found() {
    let (state, _) = begin_update(ID, no_changes());
    let (_, action) = update_product(state, UpdateEvent::Read(StoreRead::Missing));
    match action {
        UpdateAction::Reply { result: Err(ServiceError::NotFound(msg)), stale_keys } => {
            assert_eq!(msg, "Product with ID 53e37d08776f724e42000000 not found");
            assert!(stale_keys.is_empty());
        }
        other => panic!("unexpected: {:?}", other),
    }
    let (state, _) = begin_update(ID, no_changes());
    let (_, action) = update_product(state, UpdateEvent::Read(StoreRead::Failed("down".into())));
    assert!(matches!(
        action,
        UpdateAction::Reply { result: Err(ServiceError::MongoDb(why)), .. } if why == "down"
    ));
}

#[test]
fn update_writes_the_fields_and_invalidates_both_keys() {
    let mut payload = no_changes();
    payload.product_name = Some("Oat drink".to_string());
    let (state, action) = begin_update(ID, payload);
    assert!(matches!(&state, UpdateState::Writing { id } if id.to_hex() == ID));
    match action {
        UpdateAction::Write { changes } => {
            let fields: Vec<&str> = changes.iter().map(|c| c.field.as_str()).collect();
            assert_eq!(fields, vec!["product_name", "last_modified_datetime"]);
            assert!(matches!(&changes[0].value, FieldValue::Text(t) if t == "Oat drink"));
            assert!(matches!(&changes[1].value, FieldValue::Instant(77)));
        }
        other => panic!("unexpected: {:?}", other),
    }
    let written = StoreWrite::Done(Some(product("0012345")));
    let (state, action) = update_product(state, UpdateEvent::Written(written));
    assert!(matches!(state, UpdateState::Finished));
    match action {
        UpdateAction::Reply { result: Ok(found), stale_keys } => {
            assert_eq!(found.code, "0012345");
            assert_eq!(
                stale_keys,
                strings(&["product:id:53e37d08776f724e42000000", "product:code:0012345"])
            );
        }
        other => panic!("unexpected: {:?}", other),
    }
}

#[test]
fn update_that_fails_invalidates_nothing() {
    let mut payload = no_changes();
    payload.quantity = Some("1 l".to_string());
    let (state, _) = begin_update(ID, payload);
    let (_, action) = update_product(state, UpdateEvent::Written(StoreWrite::Done(None)));
    match action {
        UpdateAction::Reply { result: Err(ServiceError::NotFound(msg)), stale_keys } => {
            assert_eq!(msg, "Product with ID 53e37d08776f724e42000000 not found for update");
            assert!(stale_keys.is_empty());
        }
        other => panic!("unexpected: {:?}", other),
    }
    let mut payload = no_changes();
    payload.quantity = Some("1 l".to_string());
    let (state, _) = begin_update(ID, payload);
    let duplicate =
        StoreFailure { text: "E11000 duplicate key".to_string(), write_error_code: Some(11000) };
    let (_, action) = update_product(state, UpdateEvent::Written(StoreWrite::Failed(duplicate)));
    match action {
        UpdateAction::Reply { result: Err(ServiceError::BadRequest(msg)), stale_keys } => {
            assert_eq!(msg, "Update failed due to duplicate key (e.g., code already exists).");
            assert!(stale_keys.is_empty());
        }
        other => panic!("unexpected: {:?}", other),
    }
}

#[test]
fn update_of_a_malformed_id_is_a_bad_request() {
    let mut payload = no_changes();
    payload.quantity = Some("1 l".to_string());
    let (state, action) = begin_update("12", payload);
    assert!(matches!(state, UpdateState::Finished));
    match action {
        UpdateAction::Reply { result: Err(ServiceError::BadRequest(msg)), stale_keys } => {
            assert_eq!(msg, "Invalid product ID format: 12");
            assert!(stale_keys.is_empty());
        }
        other => panic!("unexpected: {:?}", other),
    }
    let (state, action) = update_product(state, UpdateEvent::Begin);
    assert!(matches!(state, UpdateState::Finished));
    assert!(matches!(action, UpdateAction::Reply { result: Err(ServiceError::Internal(_)), .. }));
}

#[test]
fn delete_reads_the_barcode_then_deletes_and_invalidates() {
    let received = DeleteState::Received { id_text: ID.to_string() };
    let (state, action) = delete_product(received, DeleteEvent::Begin);
    assert!(matches!(&state, DeleteState::Reading { id } if id.to_hex() == ID));
    assert!(matches!(action, DeleteAction::ReadCode));
    let code = StoreRead::Found("0012345".to_string());
    let (state, action) = delete_product(state, DeleteEvent::Code(code));
    assert!(matches!(&state, DeleteState::Deleting { code, .. } if code == "0012345"));
    assert!(matches!(action, DeleteAction::Delete));
    let (state, action) = delete_product(state, DeleteEvent::Deleted(StoreWrite::Done(1)));
    assert!(matches!(state, DeleteState::Finished));
    match action {
        DeleteAction::Reply { result: Ok(()), stale_keys } => assert_eq!(
            stale_keys,
            strings(&["product:id:53e37d08776f724e42000000", "product:code:0012345"])
        ),
        other => panic!("unexpected: {:?}", other),
    }
}

#[test]
fn delete_of_a_missing_product_deletes_nothing() {
    let received = DeleteState::Received { id_text: ID.to_string() };
    let (state, _) = delete_product(received, DeleteEvent::Begin);
    let (state, action) = delete_product(state, DeleteEvent::Code(StoreRead::Missing));
    assert!(matches!(state, DeleteState::Finished));
    match action {
        DeleteAction::Reply { result: Err(ServiceError::NotFound(msg)), stale_keys } => {
            assert_eq!(msg, "Product with ID 53e37d08776f724e42000000 not found for deletion");
            assert!(stale_keys.is_empty());
        }
        other => panic!("unexpected: {:?}", other),
    }
    let received = DeleteState::Received { id_text: ID.to_string() };
    let (state, _) = delete_product(received, DeleteEvent::Begin);
    let (state, _) = delete_product(state, DeleteEvent::Code(StoreRead::Found("7".to_string())));
    let (_, action) = delete_product(state, DeleteEvent::Deleted(StoreWrite::Done(0)));
    match action {
        DeleteAction::Reply { result: Err(ServiceError::NotFound(msg)), stale_keys } => {
            assert_eq!(msg, "Product with ID 53e37d08776f724e42000000 found but failed to delete");
            assert!(stale_keys.is_empty());
        }
        other => panic!("unexpected: {:?}", other),
    }
}

#[test]
fn delete_of_a_malformed_id_is_a_bad_request() {
    let received = DeleteState::Received { id_text: "nope".to_string() };
    let (state, action) = delete_product(received, DeleteEvent::Begin);
    assert!(matches!(state, DeleteState::Finished));
    match action {
        DeleteAction::Reply { result: Err(ServiceError::BadRequest(msg)), stale_keys } => {
            assert_eq!(msg, "Invalid product ID format: nope");
            assert!(stale_keys.is_empty());
        }
        other => panic!("unexpected: {:?}", other),
    }
}

fn profile_payload() -> UpdateProfilePayload {
    UpdateProfilePayload {
        username: None,
        email: None,
        allergens: Some(strings(&["peanuts"])),
        dietary_prefs: None,
        risk_tolerance: None,
    }
}

#[test]
fn profile_update_writes_and_invalidates_the_profile_key() {
    let received =
        UpsertState::Received { user_id: "u-1".to_string(), payload: profile_payload(), now: 9 };
    let (state, action) = update_profile(received, UpsertEvent::Begin);
    assert!(matches!(&state, UpsertState::Writing { user_id } if user_id == "u-1"));
    match action {
        UpsertAction::Write(upsert) => {
            assert_eq!(upsert.user_id, "u-1");
            let set: Vec<&str> = upsert.set.iter().map(|c| c.field.as_str()).collect();
            assert_eq!(set, vec!["allergens", "updated_at"]);
            let on_insert: Vec<&str> =
                upsert.set_on_insert.iter().map(|c| c.field.as_str()).collect();
            assert_eq!(on_insert, vec!["user_id", "created_at"]);
            assert!(matches!(&upsert.set_on_insert[0].value, FieldValue::Text(t) if t == "u-1"));
        }
        other => panic!("unexpected: {:?}", other),
    }
    let written = StoreWrite::Done(Some(profile_of("u-1")));
    let (state, action) = update_profile(state, UpsertEvent::Written(written));
    assert!(matches!(state, UpsertState::Finished));
    match action {
        UpsertAction::Reply { result: Ok(profile), stale_keys } => {
            assert_eq!(profile.user_id, "u-1");
            assert_eq!(stale_keys, strings(&["profile:u-1"]));
        }
        other => panic!("unexpected: {:?}", other),
    }
}

#[test]
fn profile_update_without_fields_or_with_a_bad_field_writes_nothing() {
    let mut payload = profile_payload();
    payload.allergens = None;
    let received = UpsertState::Received { user_id: "u-1".to_string(), payload, now: 9 };
    let (state, action) = update_profile(received, UpsertEvent::Begin);
    assert!(matches!(state, UpsertState::Finished));
    match action {
        UpsertAction::Reply { result: Err(AppError::BadRequest(msg)), stale_keys } => {
            assert_eq!(msg, "No fields provided for update.");
            assert!(stale_keys.is_empty());
        }
        other => panic!("unexpected: {:?}", other),
    }
    let mut payload = profile_payload();
    payload.username = Some("ab".to_string());
    let received = UpsertState::Received { user_id: "u-1".to_string(), payload, now: 9 };
    let (_, action) = update_profile(received, UpsertEvent::Begin);
    match action {
        UpsertAction::Reply { result: Err(AppError::BadRequest(msg)), stale_keys } => {
            assert_eq!(
                msg,
                "Input validation failed: username: Username must be at least 3 characters long"
            );
            assert!(stale_keys.is_empty());
        }
        other => panic!("unexpected: {:?}", other),
    }
}

#[test]
fn profile_update_that_fails_invalidates_nothing() {
    let begin = || {
        let received =
            UpsertState::Received { user_id: "u-1".to_string(), payload: profile_payload(), now: 9 };
        update_profile(received, UpsertEvent::Begin).0
    };
    let (_, action) = update_profile(begin(), UpsertEvent::Written(StoreWrite::Done(None)));
    match action {
        UpsertAction::Reply { result: Err(AppError::Internal(msg)), stale_keys } => {
            assert_eq!(msg, "Profile update failed unexpectedly after upsert operation.");
            assert!(stale_keys.is_empty());
        }
        other => panic!("unexpected: {:?}", other),
    }
    let failure = StoreFailure { text: "timed out".to_string(), write_error_code: None };
    let (_, action) = update_profile(begin(), UpsertEvent::Written(StoreWrite::Failed(failure)));
    match action {
        UpsertAction::Reply { result: Err(AppError::MongoDb(why)), stale_keys } => {
            assert_eq!(why, "timed out");
            assert!(stale_keys.is_empty());
        }
        other => panic!("unexpected: {:?}", other),
    }
    let (state, action) = update_profile(begin(), UpsertEvent::Begin);
    assert!(matches!(state, UpsertState::Finished));
    assert!(matches!(action, UpsertAction::Reply { result: Err(AppError::Internal(_)), .. }));
}

fn search_with_diets(diets: &[&str]) -> LabelsClause {
    let params = SearchParams {
        q: None,
        category: None,
        brand: None,
        label: Some("en:organic".to_string()),
        country: None,
        nutriscore: None,
        limit: None,
        offset: None,
        user_allergens: None,
        user_diets: Some(strings(diets)),
    };
    search_products(&params).labels
}

fn excluded_labels(diets: &[&str]) -> Vec<String> {
    match search_with_diets(diets) {
        LabelsClause::NoneOf(tags) => tags,
        other => panic!("unexpected: {:?}", other),
    }
}

#[test]
fn search_lists_the_excluded_labels_in_ascending_order() {
    assert_eq!(
        excluded_labels(&["vegan", "vegetarian", "lactose_free"]),
        strings(&[
            "en:contains-eggs",
            "en:contains-fish",
            "en:contains-honey",
            "en:contains-meat",
            "en:contains-milk",
            "en:dairy",
            "en:eggs",
            "en:fish",
            "en:honey",
            "en:meat",
            "en:non-vegan",
            "en:non-vegetarian",
            "en:vegetarian-status-unknown",
        ])
    );
    assert_eq!(
        excluded_labels(&["vegetarian"]),
        strings(&[
            "en:contains-fish",
            "en:contains-meat",
            "en:fish",
            "en:meat",
            "en:non-vegetarian",
            "en:vegetarian-status-unknown",
        ])
    );
    assert_eq!(
        excluded_labels(&["lactose_free", "gluten_free"]),
        strings(&["en:contains-gluten", "en:contains-milk", "en:dairy", "en:gluten"])
    );
    assert_eq!(
        excluded_labels(&["gluten_free", "vegetarian", "lactose_free"]),
        strings(&[
            "en:contains-fish",
            "en:contains-gluten",
            "en:contains-meat",
            "en:contains-milk",
            "en:dairy",
            "en:fish",
            "en:gluten",
            "en:meat",
            "en:non-vegetarian",
            "en:vegetarian-status-unknown",
        ])
    );
}

#[test]
fn search_with_diets_that_exclude_nothing_keeps_the_label() {
    assert!(matches!(search_with_diets(&["keto", "Vegan"]), LabelsClause::Equals(l) if l == "en:organic"));
    assert!(matches!(search_with_diets(&[]), LabelsClause::Equals(l) if l == "en:organic"));
}

#[test]
fn ascending_tags_are_the_sorted_tags_of_the_tables() {
    let diets = ["vegan", "vegetarian", "gluten_free", "lactose_free"];
    for mask in 0u32..16 {
        let chosen: Vec<&str> =
            diets.iter().enumerate().filter(|(i, _)| mask & (1 << i) != 0).map(|(_, d)| *d).collect();
        let set = NameSet::from_vec(strings(&chosen));
        let mut expected = derive_conflict_tags(&set).to_vec();
        expected.sort();
        expected.dedup();
        let tags = ascending_conflict_tags(&set);
        assert_eq!(tags, expected, "diets {:?}", chosen);
        assert!(tags.windows(2).all(|pair| pair[0] < pair[1]));
    }
}

/// Runs a read of a product against `cache` at the instant `now`, with
/// `stored` as what the document store holds. A product is cached as its
/// barcode behind `code=`.
fn read_product(
    cache: &mut CacheAsideStore,
    step: fn(ProductReadState, ReadEvent<Product>) -> (ProductReadState, LookupAction<Product, ServiceError>),
    text: &str,
    stored: Option<&str>,
    now: u64,
) -> (Result<String, ServiceError>, Vec<&'static str>) {
    let received = ProductReadState::Received { text: text.to_string() };
    let (mut state, mut action) = step(received, ReadEvent::Begin);
    let mut steps = Vec::new();
    loop {
        let event = match action {
            LookupAction::AskCache { key } => {
                steps.push("cache");
                ReadEvent::Cache(match cache.get(&key, now) {
                    Some(value) => CacheReply::Value(value),
                    None => CacheReply::Absent,
                })
            }
            LookupAction::Decode { payload } => {
                steps.push("decode");
                ReadEvent::Decoded(payload.strip_prefix("code=").map(product))
            }
            LookupAction::AskStore => {
                steps.push("store");
                ReadEvent::Store(stored.map(product))
            }
            LookupAction::Reply { result, write_back: target } => {
                let result = result.map(|found| found.code);
                if let (Ok(code), Some(target)) = (&result, target) {
                    let text = format!("code={}", code);
                    if let Some(entry) = write_back(target.key, Some(text), target.ttl_seconds) {
                        cache.put(entry, now);
                    }
                }
                return (result, steps);
            }
        };
        (state, action) = step(state, event);
    }
}

#[test]
fn product_is_served_from_the_cache_until_it_lapses_or_is_changed() {
    let mut cache = CacheAsideStore::new();
    let (first, steps) = read_product(&mut cache, get_product_by_id, ID, Some("0012345"), 100);
    assert_eq!(first.unwrap(), "0012345");
    assert_eq!(steps, vec!["cache", "store"]);
    let (again, steps) = read_product(&mut cache, get_product_by_id, ID, Some("changed"), 399);
    assert_eq!(again.unwrap(), "0012345");
    assert_eq!(steps, vec!["cache", "decode"]);
    let (lapsed, steps) = read_product(&mut cache, get_product_by_id, ID, Some("changed"), 400);
    assert_eq!(lapsed.unwrap(), "changed");
    assert_eq!(steps, vec!["cache", "store"]);

    let mut payload = no_changes();
    payload.quantity = Some("1 l".to_string());
    let (state, _) = begin_update(ID, payload);
    let written = StoreWrite::Done(Some(product("changed")));
    let stale_keys = match update_product(state, UpdateEvent::Written(written)).1 {
        UpdateAction::Reply { result: Ok(_), stale_keys } => stale_keys,
        other => panic!("unexpected: {:?}", other),
    };
    assert_eq!(cache.invalidate(&stale_keys, 401), 1);
    let (fresh, steps) = read_product(&mut cache, get_product_by_id, ID, Some("newest"), 402);
    assert_eq!(fresh.unwrap(), "newest");
    assert_eq!(steps, vec!["cache", "store"]);
}

#[test]
fn product_by_barcode_misses_the_cache_after_its_deletion() {
    let mut cache = CacheAsideStore::new();
    let by_code = |cache: &mut CacheAsideStore, stored, now| {
        read_product(cache, get_product_by_barcode, "0012345", stored, now)
    };
    assert_eq!(by_code(&mut cache, Some("0012345"), 0).0.unwrap(), "0012345");
    assert_eq!(by_code(&mut cache, None, 1).1, vec!["cache", "decode"]);

    let received = DeleteState::Received { id_text: ID.to_string() };
    let (state, _) = delete_product(received, DeleteEvent::Begin);
    let code = StoreRead::Found("0012345".to_string());
    let (state, _) = delete_product(state, DeleteEvent::Code(code));
    let stale_keys = match delete_product(state, DeleteEvent::Deleted(StoreWrite::Done(1))).1 {
        DeleteAction::Reply { result: Ok(()), stale_keys } => stale_keys,
        other => panic!("unexpected: {:?}", other),
    };
    assert_eq!(cache.invalidate(&stale_keys, 2), 1);
    let (gone, steps) = by_code(&mut cache, None, 3);
    assert_eq!(steps, vec!["cache", "store"]);
    assert!(matches!(gone, Err(ServiceError::NotFound(_))));
}

fn begin_creation() -> CreateState {
    let payload = CreateProductPayload {
        code: "0012345".to_string(),
        product_name: Some("Oat drink".to_string()),
        ingredients_text: Some("water, oats".to_string()),
        brands: None,
        categories: None,
    };
    let (state, action) =
        create_product(CreateState::Received { payload, now: 42 }, CreateEvent::Begin);
    assert!(matches!(action, CreateAction::Insert));
    state
}

#[test]
fn creation_inserts_the_new_record_and_returns_it_with_its_identifier() {
    let state = begin_creation();
    match &state {
        CreateState::Inserting { product } => {
            assert!(product.id.is_none());
            assert_eq!(product.code, "0012345");
            assert_eq!(product.ingredients_text.as_deref(), Some("water, oats"));
            assert_eq!(product.creator.as_deref(), Some("api_create"));
            assert_eq!(product.source.as_deref(), Some("api_create_v1"));
            assert_eq!((product.created_at, product.last_modified_at), (42, 42));
            assert!(product.allergens_tags.is_empty());
        }
        other => panic!("unexpected: {:?}", other),
    }
    let id = yoloeats_core::ids::DocumentId::parse_str(ID);
    let (state, action) = create_product(state, CreateEvent::Inserted(StoreWrite::Done(id)));
    assert!(matches!(state, CreateState::Finished));
    match action {
        CreateAction::Reply(Ok(stored)) => {
            assert_eq!(stored.id.map(|id| id.to_hex()).as_deref(), Some(ID));
            assert_eq!(stored.code, "0012345");
            assert_eq!(stored.created_at, 42);
        }
        other => panic!("unexpected: {:?}", other),
    }
}

#[test]
fn creation_of_a_known_barcode_is_a_bad_request() {
    let duplicate =
        StoreFailure { text: "E11000 duplicate key".to_string(), write_error_code: Some(11000) };
    let (_, action) =
        create_product(begin_creation(), CreateEvent::Inserted(StoreWrite::Failed(duplicate)));
    match action {
        CreateAction::Reply(Err(ServiceError::BadRequest(msg))) => {
            assert_eq!(msg, "Product with this code already exists.")
        }
        other => panic!("unexpected: {:?}", other),
    }
    let other = StoreFailure { text: "timed out".to_string(), write_error_code: None };
    let (_, action) =
        create_product(begin_creation(), CreateEvent::Inserted(StoreWrite::Failed(other)));
    assert!(matches!(
        action,
        CreateAction::Reply(Err(ServiceError::MongoDb(why))) if why == "timed out"
    ));
    let (state, action) = create_product(begin_creation(), CreateEvent::Begin);
    assert!(matches!(state, CreateState::Finished));
    assert!(matches!(action, CreateAction::Reply(Err(ServiceError::Internal(_)))));
}
