use yoloeats_core::cache::{
    advance_read, begin_read, write_back, CacheAsideStore, CacheReply, ReadAction, ReadEvent,
    ReadState,
};
use yoloeats_core::catalog::{new_product, CreateProductPayload, Product, ServiceError};
use yoloeats_core::checker::{
    check_product_safety, AppError, CheckAction, CheckEvent, CheckRequest, CheckState,
    GraphAnswer, ProductData, UserProfileData,
};
use yoloeats_core::conflict::{ConflictRow, SafetyStatus};
use yoloeats_core::gateway::PeerAnswer;
use yoloeats_core::names::NameSet;
use yoloeats_core::recommend::{
    get_recommendations, PayloadValue, RecommendAction, RecommendEvent, RecommendState, RecommendationCandidate, SearchAnswer, UserProfileResponse, VectorAnswer,
};
use yoloeats_core::store::StoreRead;

fn strings(items: &[&str]) -> Vec<String> {
    items.iter().map(|s| s.to_string()).collect()
}

fn product(code: &str) -> Product {
    new_product(
        CreateProductPayload {
            code: code.to_string(),
            product_name: None,
            ingredients_text: None,
            brands: None,
            categories: None,
        },
        0,
    )
}

fn candidate(point: &str, tags: &[&str], code: &str) -> RecommendationCandidate {
    RecommendationCandidate {
        vector_point_id: point.to_string(),
        rank: 0,
        payload_tags: strings(tags),
        payload_code: PayloadValue::Text(code.to_string()),
    }
}

/// Reads `key` through `cache` at the instant `now`, with `stored` as what
/// the document store holds; the record is its own serialized form.
fn read_through(
    cache: &mut CacheAsideStore,
    key: &str,
    ttl_seconds: u64,
    stored: Result<Option<&str>, &str>,
    now: u64,
) -> Result<Option<String>, String> {
    let (mut state, mut action) = begin_read::<String>(key.to_string(), ttl_seconds);
    loop {
        let event = match action {
            ReadAction::AskCache { key } => ReadEvent::Cache(match cache.get(&key, now) {
                Some(value) => CacheReply::Value(value),
                None => CacheReply::Absent,
            }),
            ReadAction::Decode { payload } => {
                ReadEvent::Decoded(if payload.starts_with('{') { Some(payload) } else { None })
            }
            ReadAction::AskStore => match stored {
                Ok(found) => ReadEvent::Store(found.map(|s| s.to_string())),
                Err(why) => ReadEvent::StoreFailed(why.to_string()),
            },
            ReadAction::Serve { value, write_back: target } => {
                if let Some(target) = target {
                    if let Some(entry) =
                        write_back(target.key, Some(value.clone()), target.ttl_seconds)
                    {
                        cache.put(entry, now);
                    }
                }
                return Ok(Some(value));
            }
            ReadAction::NotFound => return Ok(None),
            ReadAction::Fail(why) => return Err(why),
            ReadAction::OutOfStep => return Err("out of step".to_string()),
        };
        (state, action) = advance_read(state, event);
        assert!(!matches!((&state, &action), (ReadState::Finished, ReadAction::AskStore)));
    }
}

#[test]
fn read_through_fills_the_cache_from_the_store() {
    let mut cache = CacheAsideStore::new();
    let first = read_through(&mut cache, "product:code:1", 300, Ok(Some("{\"v\":1}")), 10);
    assert_eq!(first, Ok(Some("{\"v\":1}".to_string())));
    assert_eq!(cache.get("product:code:1", 10), Some("{\"v\":1}".to_string()));
    let second = read_through(&mut cache, "product:code:1", 300, Ok(Some("{\"v\":2}")), 20);
    assert_eq!(second, Ok(Some("{\"v\":1}".to_string())));
    let later = read_through(&mut cache, "product:code:1", 300, Ok(Some("{\"v\":2}")), 310);
    assert_eq!(later, Ok(Some("{\"v\":2}".to_string())));
}

#[test]
fn read_through_after_invalidation_asks_the_store() {
    let mut cache = CacheAsideStore::new();
    read_through(&mut cache, "profile:u", 3600, Ok(Some("{\"v\":1}")), 0).unwrap();
    assert_eq!(cache.invalidate(&strings(&["profile:u"]), 5), 1);
    let fresh = read_through(&mut cache, "profile:u", 3600, Ok(Some("{\"v\":2}")), 5);
    assert_eq!(fresh, Ok(Some("{\"v\":2}".to_string())));
}

#[test]
fn undecodable_cached_value_is_a_miss() {
    let mut cache = CacheAsideStore::new();
    cache.put(write_back("k".to_string(), Some("garbage".to_string()), 300).unwrap(), 0);
    let served = read_through(&mut cache, "k", 300, Ok(Some("{\"v\":1}")), 1);
    assert_eq!(served, Ok(Some("{\"v\":1}".to_string())));
    assert_eq!(cache.get("k", 1), Some("{\"v\":1}".to_string()));
}

#[test]
fn missing_record_and_failing_store() {
    let mut cache = CacheAsideStore::new();
    assert_eq!(read_through(&mut cache, "k", 300, Ok(None), 1), Ok(None));
    assert_eq!(read_through(&mut cache, "k", 300, Err("pool closed"), 1), Err("pool closed".into()));
    assert_eq!(cache.get("k", 1), None);
}

#[test]
fn failing_cache_never_fails_a_read() {
    let (state, _) = begin_read::<String>("k".to_string(), 300);
    let (state, action) =
        advance_read::<String>(state, ReadEvent::Cache(CacheReply::Failed("timeout".to_string())));
    assert!(matches!(action, ReadAction::AskStore));
    let (state, action) = advance_read(state, ReadEvent::Store(Some("v".to_string())));
    assert!(matches!(state, ReadState::Finished));
    match action {
        ReadAction::Serve { value, write_back: Some(target) } => {
            assert_eq!(value, "v");
            assert_eq!(target.key, "k");
            assert_eq!(target.ttl_seconds, 300);
        }
        other => panic!("unexpected: {:?}", other),
    }
}

#[test]
fn answer_out_of_step_fails_the_read() {
    let (state, _) = begin_read::<String>("k".to_string(), 300);
    let (state, action) = advance_read(state, ReadEvent::Store(Some("v".to_string())));
    assert!(matches!(state, ReadState::Finished));
    assert!(matches!(action, ReadAction::OutOfStep));
    let (_, action) = advance_read::<String>(state, ReadEvent::Cache(CacheReply::Absent));
    assert!(matches!(action, ReadAction::OutOfStep));
    let (state, _) = begin_read::<String>("k".to_string(), 300);
    let (_, action) = advance_read::<String>(state, ReadEvent::Begin);
    assert!(matches!(action, ReadAction::OutOfStep));
}

fn run_recommendation(
    vector: VectorAnswer,
    profile: PeerAnswer<UserProfileResponse>,
    candidates: SearchAnswer,
    products: StoreRead<Vec<Product>>,
    limit: usize,
) -> (Result<Vec<Product>, ServiceError>, Vec<&'static str>) {
    let received = RecommendState::Received {
        product_id: "53e37d08776f724e42000000".to_string(),
        profile_service_url: "http://profiles".to_string(),
        user_id: "dummy-user-123".to_string(),
        limit,
    };
    let (mut state, mut action) = get_recommendations(received, RecommendEvent::Begin);
    let mut vector = Some(vector);
    let mut profile = Some(profile);
    let mut candidates = Some(candidates);
    let mut products = Some(products);
    let mut steps = Vec::new();
    loop {
        let event = match action {
            RecommendAction::FetchVector(fetch) => {
                steps.push("vector");
                assert_eq!(fetch.collection, "product_vectors");
                RecommendEvent::Vector(vector.take().unwrap())
            }
            RecommendAction::FetchProfile { url } => {
                steps.push("profile");
                assert_eq!(url, "http://profiles/api/v1/users/dummy-user-123/profile");
                RecommendEvent::Profile(profile.take().unwrap())
            }
            RecommendAction::Search(search) => {
                steps.push("search");
                assert_eq!(search.limit, 20);
                RecommendEvent::Candidates(candidates.take().unwrap())
            }
            RecommendAction::LoadProducts { codes, limit: asked } => {
                steps.push("load");
                assert!(codes.len() <= asked);
                RecommendEvent::Products(products.take().unwrap())
            }
            RecommendAction::Reply(result) => {
                assert!(matches!(state, RecommendState::Finished));
                return (result, steps);
            }
        };
        (state, action) = get_recommendations(state, event);
    }
}

fn milk_profile() -> PeerAnswer<UserProfileResponse> {
    PeerAnswer::Decoded(UserProfileResponse { allergens: strings(&["milk"]), dietary_prefs: vec![] })
}

#[test]
fn recommendation_runs_its_four_steps() {
    let source = yoloeats_core::ids::source_point_id("53e37d08776f724e42000000");
    let candidates = vec![
        candidate(&source, &[], "000"),
        candidate("point-1", &["milk"], "111"),
        candidate("point-2", &[], "222"),
        candidate("point-3", &[], "333"),
        candidate("point-4", &[], "222"),
    ];
    let (result, steps) = run_recommendation(
        VectorAnswer::Found { dimensions: 3 },
        milk_profile(),
        SearchAnswer::Candidates(candidates),
        StoreRead::Found(vec![product("333"), product("000"), product("111"), product("222")]),
        5,
    );
    assert_eq!(steps, vec!["vector", "profile", "search", "load"]);
    let codes: Vec<String> = result.unwrap().into_iter().map(|p| p.code).collect();
    assert_eq!(codes, strings(&["333", "222"]));
}

#[test]
fn recommendation_without_source_vector_is_not_found() {
    let (result, steps) = run_recommendation(
        VectorAnswer::Missing,
        milk_profile(),
        SearchAnswer::Candidates(vec![]),
        StoreRead::Missing,
        5,
    );
    assert_eq!(steps, vec!["vector"]);
    assert!(matches!(result, Err(ServiceError::NotFound(_))));
}

#[test]
fn recommendation_without_candidates_is_empty() {
    let (result, steps) = run_recommendation(
        VectorAnswer::Found { dimensions: 3 },
        PeerAnswer::Status { code: 404, text: "404 Not Found".to_string() },
        SearchAnswer::Candidates(vec![]),
        StoreRead::Missing,
        5,
    );
    assert_eq!(steps, vec!["vector", "profile", "search"]);
    assert!(result.unwrap().is_empty());
}

#[test]
fn recommendation_fails_with_the_profile_service() {
    let (result, steps) = run_recommendation(
        VectorAnswer::Found { dimensions: 3 },
        PeerAnswer::Unreachable("refused".to_string()),
        SearchAnswer::Candidates(vec![]),
        StoreRead::Missing,
        5,
    );
    assert_eq!(steps, vec!["vector", "profile"]);
    assert!(matches!(result, Err(ServiceError::Reqwest(why)) if why == "refused"));
}

#[test]
fn recommendation_rejects_an_answer_out_of_step() {
    let received = RecommendState::Received {
        product_id: "id".to_string(),
        profile_service_url: "http://profiles".to_string(),
        user_id: "u".to_string(),
        limit: 5,
    };
    let (state, _) = get_recommendations(received, RecommendEvent::Begin);
    let (state, action) = get_recommendations(state, RecommendEvent::Products(StoreRead::Missing));
    assert!(matches!(state, RecommendState::Finished));
    match action {
        RecommendAction::Reply(Err(ServiceError::Internal(msg))) => {
            assert_eq!(msg, "Answer does not belong to the current step of the recommendation")
        }
        other => panic!("unexpected: {:?}", other),
    }
}

fn run_check(
    profile: PeerAnswer<UserProfileData>,
    product: PeerAnswer<ProductData>,
    graph: GraphAnswer,
) -> (Result<yoloeats_core::conflict::CheckResult, AppError>, Vec<&'static str>) {
    let request = CheckRequest { product_identifier: "0012345".to_string(), user_id: "u-1".to_string() };
    let received = CheckState::Received {
        request,
        profile_service_url: "http://profiles".to_string(),
        product_catalog_url: "http://catalog".to_string(),
    };
    let (mut state, mut action) = check_product_safety(received, CheckEvent::Begin);
    let mut profile = Some(profile);
    let mut product = Some(product);
    let mut graph = Some(graph);
    let mut steps = Vec::new();
    loop {
        let event = match action {
            CheckAction::FetchProfile { url } => {
                steps.push("profile");
                assert_eq!(url, "http://profiles/api/v1/profile");
                CheckEvent::Profile(profile.take().unwrap())
            }
            CheckAction::FetchProduct { url } => {
                steps.push("product");
                assert_eq!(url, "http://catalog/api/v1/products/barcode/0012345");
                CheckEvent::Product(product.take().unwrap())
            }
            CheckAction::AskGraph(query) => {
                steps.push("graph");
                assert!(!query.ingredients.is_empty());
                CheckEvent::Graph(graph.take().unwrap())
            }
            CheckAction::Reply(result) => {
                assert!(matches!(state, CheckState::Finished));
                return (result, steps);
            }
        };
        (state, action) = check_product_safety(state, event);
    }
}

fn peanut_profile() -> PeerAnswer<UserProfileData> {
    PeerAnswer::Decoded(UserProfileData {
        user_id: "u-1".to_string(),
        allergens: NameSet::from_vec(strings(&["peanuts"])),
        dietary_prefs: NameSet::new(),
    })
}

fn product_with(ingredients: Option<&str>, traces: &[&str]) -> PeerAnswer<ProductData> {
    PeerAnswer::Decoded(ProductData {
        id: None,
        barcode: None,
        ingredients_text: ingredients.map(|s| s.to_string()),
        traces_tags: strings(traces),
        labels_tags: vec![],
    })
}

#[test]
fn check_of_peanut_product_for_peanut_allergy_is_unsafe() {
    let rows = vec![ConflictRow {
        ingredient_name: "peanuts".to_string(),
        conflicting_allergens: strings(&["peanuts"]),
        trace_allergens: vec![],
        conflicting_diets: vec![],
    }];
    let (result, steps) = run_check(
        peanut_profile(),
        product_with(Some("wheat flour, peanuts, sugar"), &[]),
        GraphAnswer::Rows(rows),
    );
    assert_eq!(steps, vec!["profile", "product", "graph"]);
    let result = result.unwrap();
    assert_eq!(result.status, SafetyStatus::Unsafe);
    assert_eq!(result.conflicting_allergens, strings(&["peanuts"]));
}

#[test]
fn check_of_product_without_ingredients_is_caution_without_asking() {
    let (result, steps) =
        run_check(peanut_profile(), product_with(None, &[]), GraphAnswer::Failed("unused".into()));
    assert_eq!(steps, vec!["profile", "product"]);
    let result = result.unwrap();
    assert_eq!(result.status, SafetyStatus::Caution);
    assert!(result.conflicting_allergens.is_empty());
    assert!(result.conflicting_diets.is_empty());
    assert!(result.trace_allergens.is_empty());
    assert!(!result.is_offline_result);
}

#[test]
fn check_fails_with_the_knowledge_base() {
    let (result, steps) = run_check(
        peanut_profile(),
        product_with(Some("sugar"), &[]),
        GraphAnswer::Failed("connection reset".to_string()),
    );
    assert_eq!(steps, vec!["profile", "product", "graph"]);
    assert!(matches!(result, Err(AppError::Neo4jError(why)) if why == "connection reset"));
}

#[test]
fn check_stops_without_profile() {
    let (result, steps) = run_check(
        PeerAnswer::Status { code: 404, text: "404 Not Found".to_string() },
        product_with(Some("sugar"), &[]),
        GraphAnswer::Rows(vec![]),
    );
    assert_eq!(steps, vec!["profile"]);
    assert!(matches!(result, Err(AppError::NotFoundError(_))));
}

#[test]
fn check_rejects_an_answer_out_of_step() {
    let request = CheckRequest { product_identifier: "1".to_string(), user_id: "u".to_string() };
    let received = CheckState::Received {
        request,
        profile_service_url: "http://profiles".to_string(),
        product_catalog_url: "http://catalog".to_string(),
    };
    let (state, _) = check_product_safety(received, CheckEvent::Begin);
    let (state, action) = check_product_safety(state, CheckEvent::Graph(GraphAnswer::Rows(vec![])));
    assert!(matches!(state, CheckState::Finished));
    assert!(matches!(action, CheckAction::Reply(Err(AppError::InternalServerError))));
}

#[test]
fn check_names_each_conflict_once() {
    let row = |ingredient: &str| ConflictRow {
        ingredient_name: ingredient.to_string(),
        conflicting_allergens: strings(&["peanuts", "peanuts"]),
        trace_allergens: strings(&["nuts", "sesame", "nuts"]),
        conflicting_diets: strings(&["vegan", "vegan"]),
    };
    let (result, _) = run_check(
        peanut_profile(),
        product_with(Some("peanuts, peanut oil"), &[]),
        GraphAnswer::Rows(vec![row("peanuts"), row("peanut oil"), row("peanuts")]),
    );
    let result = result.unwrap();
    assert_eq!(result.status, SafetyStatus::Unsafe);
    assert_eq!(result.conflicting_allergens, strings(&["peanuts"]));
    assert_eq!(result.trace_allergens, strings(&["nuts", "sesame"]));
    assert_eq!(result.conflicting_diets, strings(&["vegan"]));
}
