//! Similar-product recommendation: which conflict tags a diet implies, which
//! vector-search candidates an exclusion filter admits, and which product
//! barcodes are handed on to be loaded.

use crate::catalog::{Product, ServiceError};
use crate::store::StoreRead;
use crate::gateway::{user_profile_url, PeerAnswer, PEER_NOT_FOUND};
use crate::ids::{name_based_uuid, source_point_id};
use crate::names::{
    distinct_names, first_occurrences, lemma_first_occurrences, lemma_name_set_contains,
    lemma_seq_push_to_set, name_set_of, with_new, NameSet,
};
use crate::text::{clone_strings, join2, views_of};
use vstd::prelude::*;

verus! {

/// How many candidates are asked of the vector index.
pub const OVERFETCH_LIMIT: u64 = 20;

/// How many products are recommended when the caller names no limit.
pub const DEFAULT_RECOMMENDATION_LIMIT: usize = 10;

/// What a candidate's payload holds under the barcode key.
#[derive(Debug)]
pub enum PayloadValue {
    /// The key is absent.
    Missing,
    /// The key holds something that is no string.
    NotText,
    /// The key holds this string.
    Text(String),
}

/// One answer of the vector index to a similarity search.
#[derive(Debug)]
pub struct RecommendationCandidate {
    /// The identifier of the point in the vector index.
    pub vector_point_id: String,
    /// The position of the point in the index's answer, best first.
    pub rank: u64,
    /// The tags in the point's payload.
    pub payload_tags: Vec<String>,
    /// The barcode in the point's payload.
    pub payload_code: PayloadValue,
}

/// What a similarity search must not return.
#[derive(Debug)]
pub struct ExclusionFilter {
    /// The point that the search starts from.
    pub source_point_id: String,
    /// Tags of which a candidate may carry none.
    pub excluded_tags: NameSet,
}

/// The tags that conflict with a vegan diet.
pub open spec fn vegan_conflict_tags() -> Seq<Seq<char>> {
    seq![
        "en:non-vegan"@,
        "en:contains-milk"@,
        "en:dairy"@,
        "en:contains-eggs"@,
        "en:eggs"@,
        "en:contains-honey"@,
        "en:honey"@,
        "en:contains-meat"@,
        "en:meat"@,
        "en:contains-fish"@,
        "en:fish"@,
        "en:non-vegetarian"@,
        "en:vegetarian-status-unknown"@,
    ]
}

/// The tags that conflict with a vegetarian diet.
pub open spec fn vegetarian_conflict_tags() -> Seq<Seq<char>> {
    seq![
        "en:non-vegetarian"@,
        "en:contains-meat"@,
        "en:meat"@,
        "en:contains-fish"@,
        "en:fish"@,
        "en:vegetarian-status-unknown"@,
    ]
}

/// The tags that conflict with a gluten-free diet.
pub open spec fn gluten_conflict_tags() -> Seq<Seq<char>> {
    seq!["en:contains-gluten"@, "en:gluten"@]
}

/// The tags that conflict with a lactose-free diet.
pub open spec fn lactose_conflict_tags() -> Seq<Seq<char>> {
    seq!["en:contains-milk"@, "en:dairy"@]
}

/// The tags that the diets in `diets` rule out. A vegan diet takes the place
/// of a vegetarian one; the tables for gluten and lactose are added to either.
pub open spec fn diet_conflict_tags(diets: Set<Seq<char>>) -> Set<Seq<char>> {
    let by_animal_products = if diets.contains("vegan"@) {
        vegan_conflict_tags().to_set()
    } else if diets.contains("vegetarian"@) {
        vegetarian_conflict_tags().to_set()
    } else {
        Set::<Seq<char>>::empty()
    };
    let by_gluten = if diets.contains("gluten_free"@) {
        gluten_conflict_tags().to_set()
    } else {
        Set::<Seq<char>>::empty()
    };
    let by_lactose = if diets.contains("lactose_free"@) {
        lactose_conflict_tags().to_set()
    } else {
        Set::<Seq<char>>::empty()
    };
    by_animal_products.union(by_gluten).union(by_lactose)
}

/// The tags that the diets in `diets` rule out, each once: first those of the
/// vegan or else of the vegetarian diet, then those of the gluten-free and of
/// the lactose-free diet.
pub open spec fn diet_conflict_list(diets: Set<Seq<char>>) -> Seq<Seq<char>> {
    let by_animal_products = if diets.contains("vegan"@) {
        vegan_conflict_tags()
    } else if diets.contains("vegetarian"@) {
        vegetarian_conflict_tags()
    } else {
        Seq::empty()
    };
    let by_gluten = if diets.contains("gluten_free"@) {
        gluten_conflict_tags()
    } else {
        Seq::empty()
    };
    let by_lactose = if diets.contains("lactose_free"@) {
        lactose_conflict_tags()
    } else {
        Seq::empty()
    };
    with_new(with_new(first_occurrences(by_animal_products), by_gluten), by_lactose)
}

/// The tags that conflict with a vegan diet, as a list.
fn vegan_tag_list() -> (tags: Vec<String>)
    ensures
        views_of(tags@) == vegan_conflict_tags(),
{
    let mut tags: Vec<String> = Vec::new();
    tags.push(String::from_str("en:non-vegan"));
    tags.push(String::from_str("en:contains-milk"));
    tags.push(String::from_str("en:dairy"));
    tags.push(String::from_str("en:contains-eggs"));
    tags.push(String::from_str("en:eggs"));
    tags.push(String::from_str("en:contains-honey"));
    tags.push(String::from_str("en:honey"));
    tags.push(String::from_str("en:contains-meat"));
    tags.push(String::from_str("en:meat"));
    tags.push(String::from_str("en:contains-fish"));
    tags.push(String::from_str("en:fish"));
    tags.push(String::from_str("en:non-vegetarian"));
    tags.push(String::from_str("en:vegetarian-status-unknown"));
    tags
}

/// The tags that conflict with a vegetarian diet, as a list.
fn vegetarian_tag_list() -> (tags: Vec<String>)
    ensures
        views_of(tags@) == vegetarian_conflict_tags(),
{
    let mut tags: Vec<String> = Vec::new();
    tags.push(String::from_str("en:non-vegetarian"));
    tags.push(String::from_str("en:contains-meat"));
    tags.push(String::from_str("en:meat"));
    tags.push(String::from_str("en:contains-fish"));
    tags.push(String::from_str("en:fish"));
    tags.push(String::from_str("en:vegetarian-status-unknown"));
    tags
}

/// The tags that conflict with a gluten-free diet, as a list.
fn gluten_tag_list() -> (tags: Vec<String>)
    ensures
        views_of(tags@) == gluten_conflict_tags(),
{
    let mut tags: Vec<String> = Vec::new();
    tags.push(String::from_str("en:contains-gluten"));
    tags.push(String::from_str("en:gluten"));
    tags
}

/// The tags that conflict with a lactose-free diet, as a list.
fn lactose_tag_list() -> (tags: Vec<String>)
    ensures
        views_of(tags@) == lactose_conflict_tags(),
{
    let mut tags: Vec<String> = Vec::new();
    tags.push(String::from_str("en:contains-milk"));
    tags.push(String::from_str("en:dairy"));
    tags
}

/// The tags that the diets in `diets` rule out.
pub fn derive_conflict_tags(diets: &NameSet) -> (tags: NameSet)
    ensures
        tags@ == diet_conflict_tags(diets@),
        tags.names() == diet_conflict_list(diets@),
{
    let mut tags = NameSet::new();
    if diets.contains("vegan") {
        tags.extend_from(&vegan_tag_list());
    } else if diets.contains("vegetarian") {
        tags.extend_from(&vegetarian_tag_list());
    }
    if diets.contains("gluten_free") {
        tags.extend_from(&gluten_tag_list());
    }
    if diets.contains("lactose_free") {
        tags.extend_from(&lactose_tag_list());
    }
    tags
}

/// `tag` where it is wanted, else nothing.
pub open spec fn tag_if(wanted: bool, tag: Seq<char>) -> Seq<Seq<char>> {
    if wanted {
        seq![tag]
    } else {
        Seq::empty()
    }
}

/// The tags that the diets in `diets` rule out, each once, in ascending
/// order. A tag is listed where one of the diets that rule it out is among
/// `diets`: every tag for a vegan diet, those of meat and fish for a
/// vegetarian one as well, those of milk for a lactose-free one as well, and
/// those of gluten for a gluten-free one.
pub open spec fn ascending_diet_tags(diets: Set<Seq<char>>) -> Seq<Seq<char>> {
    let vegan = diets.contains("vegan"@);
    let meatless = vegan || diets.contains("vegetarian"@);
    let milkless = vegan || diets.contains("lactose_free"@);
    let glutenless = diets.contains("gluten_free"@);
    tag_if(vegan, "en:contains-eggs"@) + tag_if(meatless, "en:contains-fish"@) + tag_if(
        glutenless,
        "en:contains-gluten"@,
    ) + tag_if(vegan, "en:contains-honey"@) + tag_if(meatless, "en:contains-meat"@) + tag_if(
        milkless,
        "en:contains-milk"@,
    ) + tag_if(milkless, "en:dairy"@) + tag_if(vegan, "en:eggs"@) + tag_if(meatless, "en:fish"@)
        + tag_if(glutenless, "en:gluten"@) + tag_if(vegan, "en:honey"@) + tag_if(
        meatless,
        "en:meat"@,
    ) + tag_if(vegan, "en:non-vegan"@) + tag_if(meatless, "en:non-vegetarian"@) + tag_if(
        meatless,
        "en:vegetarian-status-unknown"@,
    )
}

/// Appends `tag` to `tags` where it is wanted.
fn push_if(tags: &mut Vec<String>, wanted: bool, tag: &str)
    ensures
        views_of(final(tags)@) == views_of(old(tags)@) + tag_if(wanted, tag@),
{
    if wanted {
        tags.push(String::from_str(tag));
    }
    assert(views_of(tags@) =~= views_of(old(tags)@) + tag_if(wanted, tag@));
}

/// The tags that the diets in `diets` rule out, each once, in ascending
/// order.
pub fn ascending_conflict_tags(diets: &NameSet) -> (tags: Vec<String>)
    ensures
        views_of(tags@) == ascending_diet_tags(diets@),
        name_set_of(tags@) == diet_conflict_tags(diets@),
        ascends(views_of(tags@)),
        distinct_names(tags@),
{
    let vegan = diets.contains("vegan");
    let meatless = vegan || diets.contains("vegetarian");
    let milkless = vegan || diets.contains("lactose_free");
    let glutenless = diets.contains("gluten_free");
    let mut tags: Vec<String> = Vec::new();
    assert(views_of(tags@) =~= Seq::<Seq<char>>::empty());
    push_if(&mut tags, vegan, "en:contains-eggs");
    push_if(&mut tags, meatless, "en:contains-fish");
    push_if(&mut tags, glutenless, "en:contains-gluten");
    push_if(&mut tags, vegan, "en:contains-honey");
    push_if(&mut tags, meatless, "en:contains-meat");
    push_if(&mut tags, milkless, "en:contains-milk");
    push_if(&mut tags, milkless, "en:dairy");
    push_if(&mut tags, vegan, "en:eggs");
    push_if(&mut tags, meatless, "en:fish");
    push_if(&mut tags, glutenless, "en:gluten");
    push_if(&mut tags, vegan, "en:honey");
    push_if(&mut tags, meatless, "en:meat");
    push_if(&mut tags, vegan, "en:non-vegan");
    push_if(&mut tags, meatless, "en:non-vegetarian");
    push_if(&mut tags, meatless, "en:vegetarian-status-unknown");
    assert(views_of(tags@) =~= ascending_diet_tags(diets@));
    proof {
        law_ascending_tags_are_those_of_the_tables(diets@);
        law_diet_tags_ascend(diets@);
    }
    tags
}

/// Appending a tag where it is wanted adds it to the set of the list.
proof fn lemma_tag_if_to_set(tags: Seq<Seq<char>>, wanted: bool, tag: Seq<char>)
    ensures
        (tags + tag_if(wanted, tag)).to_set() == if wanted {
            tags.to_set().insert(tag)
        } else {
            tags.to_set()
        },
{
    if wanted {
        assert(tags + tag_if(wanted, tag) =~= tags.push(tag));
        lemma_seq_push_to_set(tags, tag);
    } else {
        assert(tags + tag_if(wanted, tag) =~= tags);
    }
}

/// The ascending list holds the tags that the tables give for the diets, and
/// no others.
pub proof fn law_ascending_tags_are_those_of_the_tables(diets: Set<Seq<char>>)
    ensures
        ascending_diet_tags(diets).to_set() == diet_conflict_tags(diets),
{
    let vegan = diets.contains("vegan"@);
    let meatless = vegan || diets.contains("vegetarian"@);
    let milkless = vegan || diets.contains("lactose_free"@);
    let glutenless = diets.contains("gluten_free"@);
    let t0 = Seq::<Seq<char>>::empty();
    let t1 = t0 + tag_if(vegan, "en:contains-eggs"@);
    lemma_tag_if_to_set(t0, vegan, "en:contains-eggs"@);
    let t2 = t1 + tag_if(meatless, "en:contains-fish"@);
    lemma_tag_if_to_set(t1, meatless, "en:contains-fish"@);
    let t3 = t2 + tag_if(glutenless, "en:contains-gluten"@);
    lemma_tag_if_to_set(t2, glutenless, "en:contains-gluten"@);
    let t4 = t3 + tag_if(vegan, "en:contains-honey"@);
    lemma_tag_if_to_set(t3, vegan, "en:contains-honey"@);
    let t5 = t4 + tag_if(meatless, "en:contains-meat"@);
    lemma_tag_if_to_set(t4, meatless, "en:contains-meat"@);
    let t6 = t5 + tag_if(milkless, "en:contains-milk"@);
    lemma_tag_if_to_set(t5, milkless, "en:contains-milk"@);
    let t7 = t6 + tag_if(milkless, "en:dairy"@);
    lemma_tag_if_to_set(t6, milkless, "en:dairy"@);
    let t8 = t7 + tag_if(vegan, "en:eggs"@);
    lemma_tag_if_to_set(t7, vegan, "en:eggs"@);
    let t9 = t8 + tag_if(meatless, "en:fish"@);
    lemma_tag_if_to_set(t8, meatless, "en:fish"@);
    let t10 = t9 + tag_if(glutenless, "en:gluten"@);
    lemma_tag_if_to_set(t9, glutenless, "en:gluten"@);
    let t11 = t10 + tag_if(vegan, "en:honey"@);
    lemma_tag_if_to_set(t10, vegan, "en:honey"@);
    let t12 = t11 + tag_if(meatless, "en:meat"@);
    lemma_tag_if_to_set(t11, meatless, "en:meat"@);
    let t13 = t12 + tag_if(vegan, "en:non-vegan"@);
    lemma_tag_if_to_set(t12, vegan, "en:non-vegan"@);
    let t14 = t13 + tag_if(meatless, "en:non-vegetarian"@);
    lemma_tag_if_to_set(t13, meatless, "en:non-vegetarian"@);
    let t15 = t14 + tag_if(meatless, "en:vegetarian-status-unknown"@);
    lemma_tag_if_to_set(t14, meatless, "en:vegetarian-status-unknown"@);
    assert(ascending_diet_tags(diets) =~= t15);
    let a0 = Seq::<Seq<char>>::empty();
    let a1 = a0.push("en:non-vegan"@);
    lemma_seq_push_to_set(a0, "en:non-vegan"@);
    let a2 = a1.push("en:contains-milk"@);
    lemma_seq_push_to_set(a1, "en:contains-milk"@);
    let a3 = a2.push("en:dairy"@);
    lemma_seq_push_to_set(a2, "en:dairy"@);
    let a4 = a3.push("en:contains-eggs"@);
    lemma_seq_push_to_set(a3, "en:contains-eggs"@);
    let a5 = a4.push("en:eggs"@);
    lemma_seq_push_to_set(a4, "en:eggs"@);
    let a6 = a5.push("en:contains-honey"@);
    lemma_seq_push_to_set(a5, "en:contains-honey"@);
    let a7 = a6.push("en:honey"@);
    lemma_seq_push_to_set(a6, "en:honey"@);
    let a8 = a7.push("en:contains-meat"@);
    lemma_seq_push_to_set(a7, "en:contains-meat"@);
    let a9 = a8.push("en:meat"@);
    lemma_seq_push_to_set(a8, "en:meat"@);
    let a10 = a9.push("en:contains-fish"@);
    lemma_seq_push_to_set(a9, "en:contains-fish"@);
    let a11 = a10.push("en:fish"@);
    lemma_seq_push_to_set(a10, "en:fish"@);
    let a12 = a11.push("en:non-vegetarian"@);
    lemma_seq_push_to_set(a11, "en:non-vegetarian"@);
    let a13 = a12.push("en:vegetarian-status-unknown"@);
    lemma_seq_push_to_set(a12, "en:vegetarian-status-unknown"@);
    assert(vegan_conflict_tags() =~= a13);
    let b0 = Seq::<Seq<char>>::empty();
    let b1 = b0.push("en:non-vegetarian"@);
    lemma_seq_push_to_set(b0, "en:non-vegetarian"@);
    let b2 = b1.push("en:contains-meat"@);
    lemma_seq_push_to_set(b1, "en:contains-meat"@);
    let b3 = b2.push("en:meat"@);
    lemma_seq_push_to_set(b2, "en:meat"@);
    let b4 = b3.push("en:contains-fish"@);
    lemma_seq_push_to_set(b3, "en:contains-fish"@);
    let b5 = b4.push("en:fish"@);
    lemma_seq_push_to_set(b4, "en:fish"@);
    let b6 = b5.push("en:vegetarian-status-unknown"@);
    lemma_seq_push_to_set(b5, "en:vegetarian-status-unknown"@);
    assert(vegetarian_conflict_tags() =~= b6);
    let c0 = Seq::<Seq<char>>::empty();
    let c1 = c0.push("en:contains-gluten"@);
    lemma_seq_push_to_set(c0, "en:contains-gluten"@);
    let c2 = c1.push("en:gluten"@);
    lemma_seq_push_to_set(c1, "en:gluten"@);
    assert(gluten_conflict_tags() =~= c2);
    let e0 = Seq::<Seq<char>>::empty();
    let e1 = e0.push("en:contains-milk"@);
    lemma_seq_push_to_set(e0, "en:contains-milk"@);
    let e2 = e1.push("en:dairy"@);
    lemma_seq_push_to_set(e1, "en:dairy"@);
    assert(lactose_conflict_tags() =~= e2);
    assert(t0.to_set() =~= Set::<Seq<char>>::empty());
    assert(ascending_diet_tags(diets).to_set() =~= diet_conflict_tags(diets));
}

/// Whether `a` comes before `b` in the order of texts: at the first place
/// where they differ `a` has the smaller character, or `a` ends there and `b`
/// goes on.
pub open spec fn text_precedes(a: Seq<char>, b: Seq<char>) -> bool {
    exists|k: int| #[trigger] differ_at(a, b, k)
}

/// Whether `a` and `b` agree before the place `k`, and `a` is the smaller
/// there.
pub open spec fn differ_at(a: Seq<char>, b: Seq<char>, k: int) -> bool {
    &&& 0 <= k <= a.len()
    &&& k < b.len()
    &&& a.take(k) == b.take(k)
    &&& k < a.len() ==> (a[k] as u32) < (b[k] as u32)
}

/// The tags of all the tables, each once, in ascending order.
pub open spec fn all_conflict_tags() -> Seq<Seq<char>> {
    seq![
        "en:contains-eggs"@,
        "en:contains-fish"@,
        "en:contains-gluten"@,
        "en:contains-honey"@,
        "en:contains-meat"@,
        "en:contains-milk"@,
        "en:dairy"@,
        "en:eggs"@,
        "en:fish"@,
        "en:gluten"@,
        "en:honey"@,
        "en:meat"@,
        "en:non-vegan"@,
        "en:non-vegetarian"@,
        "en:vegetarian-status-unknown"@,
    ]
}

/// Where two texts differ at a place, the one with the smaller character
/// there comes first.
proof fn lemma_precedes(a: Seq<char>, b: Seq<char>, k: int)
    requires
        0 <= k < a.len(),
        k < b.len(),
        a.take(k) =~= b.take(k),
        (a[k] as u32) < (b[k] as u32),
    ensures
        text_precedes(a, b),
{
    assert(differ_at(a, b, k));
}

/// In the list of all conflict tags each tag comes before the next in the
/// order of texts: the list is in strictly ascending order.
pub proof fn law_conflict_tags_ascend()
    ensures
        forall|i: int|
            0 <= i < all_conflict_tags().len() - 1 ==> text_precedes(
                #[trigger] all_conflict_tags()[i],
                all_conflict_tags()[i + 1],
            ),
{
    reveal_strlit("en:contains-eggs");
    reveal_strlit("en:contains-fish");
    reveal_strlit("en:contains-gluten");
    reveal_strlit("en:contains-honey");
    reveal_strlit("en:contains-meat");
    reveal_strlit("en:contains-milk");
    reveal_strlit("en:dairy");
    reveal_strlit("en:eggs");
    reveal_strlit("en:fish");
    reveal_strlit("en:gluten");
    reveal_strlit("en:honey");
    reveal_strlit("en:meat");
    reveal_strlit("en:non-vegan");
    reveal_strlit("en:non-vegetarian");
    reveal_strlit("en:vegetarian-status-unknown");
    let all = all_conflict_tags();
    lemma_precedes(all[0], all[1], 12);
    lemma_precedes(all[1], all[2], 12);
    lemma_precedes(all[2], all[3], 12);
    lemma_precedes(all[3], all[4], 12);
    lemma_precedes(all[4], all[5], 13);
    lemma_precedes(all[5], all[6], 3);
    lemma_precedes(all[6], all[7], 3);
    lemma_precedes(all[7], all[8], 3);
    lemma_precedes(all[8], all[9], 3);
    lemma_precedes(all[9], all[10], 3);
    lemma_precedes(all[10], all[11], 3);
    lemma_precedes(all[11], all[12], 3);
    lemma_precedes(all[12], all[13], 10);
    lemma_precedes(all[13], all[14], 3);
}

/// Whether each text of `list` comes before all that follow it: the list is
/// in ascending order and holds nothing twice.
pub open spec fn ascends(list: Seq<Seq<char>>) -> bool {
    forall|i: int, j: int| 0 <= i < j < list.len() ==> text_precedes(list[i], list[j])
}

/// Whether every text of `tags` comes before every text of `all` from the
/// place `from` on.
spec fn all_before(tags: Seq<Seq<char>>, all: Seq<Seq<char>>, from: int) -> bool {
    forall|m: int, k: int|
        0 <= m < tags.len() && from <= k < all.len() ==> text_precedes(
            #[trigger] tags[m],
            #[trigger] all[k],
        )
}

/// No text comes before itself.
proof fn lemma_precedes_itself_never(a: Seq<char>)
    ensures
        !text_precedes(a, a),
{
}

/// What comes before a text comes before all that the text comes before.
proof fn lemma_precedes_transitive(a: Seq<char>, b: Seq<char>, c: Seq<char>)
    requires
        text_precedes(a, b),
        text_precedes(b, c),
    ensures
        text_precedes(a, c),
{
    let k1 = choose|k: int| differ_at(a, b, k);
    let k2 = choose|k: int| differ_at(b, c, k);
    let k = if k1 <= k2 {
        k1
    } else {
        k2
    };
    assert(a.take(k) =~= c.take(k)) by {
        assert forall|i: int| 0 <= i < k implies a[i] == c[i] by {
            assert(a.take(k1)[i] == b.take(k1)[i]);
            assert(b.take(k2)[i] == c.take(k2)[i]);
        }
    }
    if k1 < k2 {
        assert(b.take(k2)[k1] == c.take(k2)[k1]);
    }
    if k2 < k1 {
        assert(a.take(k1)[k2] == b.take(k1)[k2]);
    }
    assert(differ_at(a, c, k));
}

/// In a list where each text comes before the next, each comes before all
/// that follow it.
proof fn lemma_later_follows(list: Seq<Seq<char>>, i: int, j: int)
    requires
        forall|n: int| 0 <= n < list.len() - 1 ==> text_precedes(#[trigger] list[n], list[n + 1]),
        0 <= i < j < list.len(),
    ensures
        text_precedes(list[i], list[j]),
    decreases j - i,
{
    if j > i + 1 {
        lemma_later_follows(list, i, j - 1);
        lemma_precedes_transitive(list[i], list[j - 1], list[j]);
    }
}

/// Appending the next text of an ascending list, where it is wanted, to texts
/// that come before it keeps them ascending and before the rest.
proof fn lemma_next_tag(tags: Seq<Seq<char>>, wanted: bool, all: Seq<Seq<char>>, at: int)
    requires
        ascends(all),
        ascends(tags),
        0 <= at < all.len(),
        all_before(tags, all, at),
    ensures
        ascends(tags + tag_if(wanted, all[at])),
        all_before(tags + tag_if(wanted, all[at]), all, at + 1),
{
    let longer = tags + tag_if(wanted, all[at]);
    assert forall|i: int, j: int| 0 <= i < j < longer.len() implies text_precedes(
        longer[i],
        longer[j],
    ) by {
        if j < tags.len() {
            assert(longer[i] == tags[i] && longer[j] == tags[j]);
        } else {
            assert(longer[i] == tags[i] && longer[j] == all[at]);
        }
    }
    assert forall|m: int, k: int| 0 <= m < longer.len() && at + 1 <= k < all.len() implies text_precedes(
        #[trigger] longer[m],
        #[trigger] all[k],
    ) by {
        if m < tags.len() {
            assert(longer[m] == tags[m]);
        } else {
            assert(longer[m] == all[at]);
        }
    }
}

/// The tags that diets rule out are listed in ascending order, and none of
/// them twice.
pub proof fn law_diet_tags_ascend(diets: Set<Seq<char>>)
    ensures
        ascends(ascending_diet_tags(diets)),
        ascending_diet_tags(diets).no_duplicates(),
{
    let vegan = diets.contains("vegan"@);
    let meatless = vegan || diets.contains("vegetarian"@);
    let milkless = vegan || diets.contains("lactose_free"@);
    let glutenless = diets.contains("gluten_free"@);
    let all = all_conflict_tags();
    law_conflict_tags_ascend();
    assert forall|i: int, j: int| 0 <= i < j < all.len() implies text_precedes(all[i], all[j]) by {
        lemma_later_follows(all, i, j);
    }
    let t0 = Seq::<Seq<char>>::empty();
    let t1 = t0 + tag_if(vegan, "en:contains-eggs"@);
    lemma_next_tag(t0, vegan, all, 0);
    let t2 = t1 + tag_if(meatless, "en:contains-fish"@);
    lemma_next_tag(t1, meatless, all, 1);
    let t3 = t2 + tag_if(glutenless, "en:contains-gluten"@);
    lemma_next_tag(t2, glutenless, all, 2);
    let t4 = t3 + tag_if(vegan, "en:contains-honey"@);
    lemma_next_tag(t3, vegan, all, 3);
    let t5 = t4 + tag_if(meatless, "en:contains-meat"@);
    lemma_next_tag(t4, meatless, all, 4);
    let t6 = t5 + tag_if(milkless, "en:contains-milk"@);
    lemma_next_tag(t5, milkless, all, 5);
    let t7 = t6 + tag_if(milkless, "en:dairy"@);
    lemma_next_tag(t6, milkless, all, 6);
    let t8 = t7 + tag_if(vegan, "en:eggs"@);
    lemma_next_tag(t7, vegan, all, 7);
    let t9 = t8 + tag_if(meatless, "en:fish"@);
    lemma_next_tag(t8, meatless, all, 8);
    let t10 = t9 + tag_if(glutenless, "en:gluten"@);
    lemma_next_tag(t9, glutenless, all, 9);
    let t11 = t10 + tag_if(vegan, "en:honey"@);
    lemma_next_tag(t10, vegan, all, 10);
    let t12 = t11 + tag_if(meatless, "en:meat"@);
    lemma_next_tag(t11, meatless, all, 11);
    let t13 = t12 + tag_if(vegan, "en:non-vegan"@);
    lemma_next_tag(t12, vegan, all, 12);
    let t14 = t13 + tag_if(meatless, "en:non-vegetarian"@);
    lemma_next_tag(t13, meatless, all, 13);
    let t15 = t14 + tag_if(meatless, "en:vegetarian-status-unknown"@);
    lemma_next_tag(t14, meatless, all, 14);
    assert(ascending_diet_tags(diets) =~= t15);
    let tags = ascending_diet_tags(diets);
    assert forall|i: int, j: int| 0 <= i < j < tags.len() implies tags[i] != tags[j] by {
        lemma_precedes_itself_never(tags[i]);
    }
}

/// The tags that a search for a user with these allergens and diets excludes:
/// the allergens themselves and the tags that the diets rule out.
pub open spec fn exclusion_tags(allergens: Set<Seq<char>>, diets: Set<Seq<char>>) -> Set<
    Seq<char>,
> {
    allergens.union(diet_conflict_tags(diets))
}

/// The tags that a search for a user with these allergens and diets excludes,
/// each once: the allergens first, then the tags that the diets rule out.
pub open spec fn exclusion_list(allergens: Seq<Seq<char>>, diets: Set<Seq<char>>) -> Seq<Seq<char>> {
    with_new(allergens, diet_conflict_list(diets))
}

/// The filter for a search that starts from `source_point_id`, for a user with
/// these allergens and diets.
pub fn build_exclusion_filter(
    source_point_id: String,
    exclude_allergens: &NameSet,
    exclude_diet_tags: &NameSet,
) -> (filter: ExclusionFilter)
    ensures
        filter.source_point_id@ == source_point_id@,
        filter.excluded_tags@ == exclusion_tags(exclude_allergens@, exclude_diet_tags@),
        filter.excluded_tags.names() == exclusion_list(
            exclude_allergens.names(),
            exclude_diet_tags@,
        ),
{
    let mut excluded = exclude_allergens.clone();
    let derived = derive_conflict_tags(exclude_diet_tags);
    excluded.extend(&derived);
    ExclusionFilter { source_point_id, excluded_tags: excluded }
}

/// Whether a search from `source` that excludes `excluded` may return `c`: it
/// is another point than the source and carries none of the excluded tags.
pub open spec fn admitted(
    source: Seq<char>,
    excluded: Set<Seq<char>>,
    c: RecommendationCandidate,
) -> bool {
    c.vector_point_id@ != source && name_set_of(c.payload_tags@).disjoint(excluded)
}

/// The barcode that `c` stands for, if its payload holds a non-empty one.
pub open spec fn barcode_of(c: RecommendationCandidate) -> Option<Seq<char>> {
    match c.payload_code {
        PayloadValue::Text(code) => if code@.len() > 0 {
            Some(code@)
        } else {
            None
        },
        _ => None,
    }
}

/// The barcodes of the admitted candidates, in the order of the candidates.
/// Candidates without a usable barcode are passed over.
pub open spec fn admitted_barcodes(
    source: Seq<char>,
    excluded: Set<Seq<char>>,
    candidates: Seq<RecommendationCandidate>,
) -> Seq<Seq<char>>
    decreases candidates.len(),
{
    if candidates.len() == 0 {
        Seq::empty()
    } else {
        let before = admitted_barcodes(source, excluded, candidates.drop_last());
        let c = candidates.last();
        if admitted(source, excluded, c) && barcode_of(c) is Some {
            before.push(barcode_of(c)->0)
        } else {
            before
        }
    }
}

/// The first `limit` elements of `s`, or all of it where it has fewer.
pub open spec fn at_most(s: Seq<Seq<char>>, limit: int) -> Seq<Seq<char>> {
    if limit <= 0 {
        Seq::empty()
    } else if limit < s.len() {
        s.take(limit)
    } else {
        s
    }
}

/// The barcodes to load for a recommendation: those of the admitted
/// candidates, each once, in the order of the index's answer, cut to `limit`.
pub open spec fn selected_barcodes(
    source: Seq<char>,
    excluded: Set<Seq<char>>,
    candidates: Seq<RecommendationCandidate>,
    limit: int,
) -> Seq<Seq<char>> {
    at_most(first_occurrences(admitted_barcodes(source, excluded, candidates)), limit)
}

/// A barcode is among `admitted_barcodes` exactly if an admitted candidate
/// holds it.
pub proof fn lemma_admitted_barcodes(
    source: Seq<char>,
    excluded: Set<Seq<char>>,
    candidates: Seq<RecommendationCandidate>,
)
    ensures
        forall|k: Seq<char>|
            admitted_barcodes(source, excluded, candidates).contains(k) <==> exists|j: int|
                0 <= j < candidates.len() && admitted(source, excluded, #[trigger] candidates[j])
                    && barcode_of(candidates[j]) == Some(k),
    decreases candidates.len(),
{
    if candidates.len() > 0 {
        let rest = candidates.drop_last();
        let before = admitted_barcodes(source, excluded, rest);
        let c = candidates.last();
        let all = admitted_barcodes(source, excluded, candidates);
        lemma_admitted_barcodes(source, excluded, rest);
        assert forall|k: Seq<char>| all.contains(k) <==> exists|j: int|
            0 <= j < candidates.len() && admitted(source, excluded, #[trigger] candidates[j])
                && barcode_of(candidates[j]) == Some(k) by {
            if all.contains(k) {
                if before.contains(k) {
                    let j = choose|j: int|
                        0 <= j < rest.len() && admitted(source, excluded, #[trigger] rest[j])
                            && barcode_of(rest[j]) == Some(k);
                    assert(candidates[j] == rest[j]);
                } else {
                    let m = choose|m: int| 0 <= m < all.len() && all[m] == k;
                    if m < before.len() {
                        assert(before[m] == k);
                    }
                    assert(barcode_of(c) == Some(k));
                    assert(candidates[candidates.len() - 1] == c);
                }
            }
            if exists|j: int|
                0 <= j < candidates.len() && admitted(source, excluded, #[trigger] candidates[j])
                    && barcode_of(candidates[j]) == Some(k) {
                let j = choose|j: int|
                    0 <= j < candidates.len() && admitted(
                        source,
                        excluded,
                        #[trigger] candidates[j],
                    ) && barcode_of(candidates[j]) == Some(k);
                if j < rest.len() {
                    assert(rest[j] == candidates[j]);
                    assert(before.contains(k));
                    let m = choose|m: int| 0 <= m < before.len() && before[m] == k;
                    if all.len() > before.len() {
                        assert(all[m] == k);
                    }
                } else {
                    assert(all[before.len() as int] == k);
                }
            }
        }
    }
}

/// Every barcode that is selected comes from a candidate that is not the
/// point the search started from, and whose payload carries none of the
/// excluded tags.
pub proof fn law_selected_barcodes_are_admitted(
    source: Seq<char>,
    excluded: Set<Seq<char>>,
    candidates: Seq<RecommendationCandidate>,
    limit: int,
    code: Seq<char>,
)
    requires
        selected_barcodes(source, excluded, candidates, limit).contains(code),
    ensures
        exists|j: int|
            0 <= j < candidates.len() && barcode_of(#[trigger] candidates[j]) == Some(code)
                && candidates[j].vector_point_id@ != source && name_set_of(
                candidates[j].payload_tags@,
            ).disjoint(excluded),
{
    let keys = admitted_barcodes(source, excluded, candidates);
    lemma_first_occurrences(keys);
    assert(keys.contains(code));
    lemma_admitted_barcodes(source, excluded, candidates);
}

/// For a user with the allergens `allergens`, every barcode that is selected
/// comes from a candidate whose payload tags hold none of these allergens and
/// none of the tags that the user's diets rule out.
pub proof fn law_selection_respects_profile(
    source: Seq<char>,
    allergens: Set<Seq<char>>,
    diets: Set<Seq<char>>,
    candidates: Seq<RecommendationCandidate>,
    limit: int,
    code: Seq<char>,
)
    requires
        selected_barcodes(source, exclusion_tags(allergens, diets), candidates, limit).contains(
            code,
        ),
    ensures
        exists|j: int|
            0 <= j < candidates.len() && barcode_of(#[trigger] candidates[j]) == Some(code)
                && name_set_of(candidates[j].payload_tags@).disjoint(allergens) && name_set_of(
                candidates[j].payload_tags@,
            ).disjoint(diet_conflict_tags(diets)),
{
    law_selected_barcodes_are_admitted(
        source,
        exclusion_tags(allergens, diets),
        candidates,
        limit,
        code,
    );
}

/// At most `limit` barcodes are selected, and none of them twice.
pub proof fn law_selection_within_limit(
    source: Seq<char>,
    excluded: Set<Seq<char>>,
    candidates: Seq<RecommendationCandidate>,
    limit: int,
)
    requires
        0 <= limit,
    ensures
        selected_barcodes(source, excluded, candidates, limit).len() <= limit,
        selected_barcodes(source, excluded, candidates, limit).len() <= candidates.len(),
        selected_barcodes(source, excluded, candidates, limit).no_duplicates(),
{
    let keys = admitted_barcodes(source, excluded, candidates);
    let unique = first_occurrences(keys);
    lemma_first_occurrences(keys);
    lemma_admitted_barcodes_len(source, excluded, candidates);
    let chosen = at_most(unique, limit);
    assert forall|a: int, b: int|
        0 <= a < chosen.len() && 0 <= b < chosen.len() && a != b implies chosen[a]
        != chosen[b] by {
    }
}

/// There are no more admitted barcodes than candidates.
pub proof fn lemma_admitted_barcodes_len(
    source: Seq<char>,
    excluded: Set<Seq<char>>,
    candidates: Seq<RecommendationCandidate>,
)
    ensures
        admitted_barcodes(source, excluded, candidates).len() <= candidates.len(),
    decreases candidates.len(),
{
    if candidates.len() > 0 {
        lemma_admitted_barcodes_len(source, excluded, candidates.drop_last());
    }
}

/// Whether none of `tags` is in `excluded`.
pub fn carries_none_of(tags: &Vec<String>, excluded: &NameSet) -> (r: bool)
    ensures
        r == name_set_of(tags@).disjoint(excluded@),
{
    let mut i: usize = 0;
    while i < tags.len()
        invariant
            i <= tags@.len(),
            forall|j: int| 0 <= j < i ==> !excluded@.contains(#[trigger] tags@[j]@),
        decreases tags@.len() - i,
    {
        if excluded.contains(tags[i].as_str()) {
            proof {
                lemma_name_set_contains(tags@, tags@[i as int]@);
            }
            return false;
        }
        i = i + 1;
    }
    proof {
        assert forall|n: Seq<char>|
            !(name_set_of(tags@).contains(n) && excluded@.contains(n)) by {
            lemma_name_set_contains(tags@, n);
        }
    }
    true
}

impl ExclusionFilter {
    /// Whether the filter lets `c` through.
    pub fn admits(&self, c: &RecommendationCandidate) -> (r: bool)
        ensures
            r == admitted(self.source_point_id@, self.excluded_tags@, *c),
    {
        if c.vector_point_id == self.source_point_id {
            false
        } else {
            carries_none_of(&c.payload_tags, &self.excluded_tags)
        }
    }
}

/// The barcode in the payload of `c`, where it holds a non-empty one.
pub fn extract_barcode(c: &RecommendationCandidate) -> (code: Option<String>)
    ensures
        code is Some <==> barcode_of(*c) is Some,
        code matches Some(s) ==> barcode_of(*c) == Some(s@),
{
    match &c.payload_code {
        PayloadValue::Text(code) => {
            if code.as_str().unicode_len() > 0 {
                Some(code.clone())
            } else {
                None
            }
        },
        _ => None,
    }
}

/// The barcodes to load for a recommendation: the filter is applied to every
/// candidate, whatever the index did with it; candidates without a barcode
/// are dropped; each barcode is kept once; at most `limit` are returned.
pub fn select_barcodes(
    filter: &ExclusionFilter,
    candidates: &Vec<RecommendationCandidate>,
    limit: usize,
) -> (codes: Vec<String>)
    ensures
        views_of(codes@) == selected_barcodes(
            filter.source_point_id@,
            filter.excluded_tags@,
            candidates@,
            limit as int,
        ),
        distinct_names(codes@),
        codes@.len() <= limit,
{
    let ghost source = filter.source_point_id@;
    let ghost excluded = filter.excluded_tags@;
    let mut seen = NameSet::new();
    let mut i: usize = 0;
    while i < candidates.len()
        invariant
            i <= candidates@.len(),
            source == filter.source_point_id@,
            excluded == filter.excluded_tags@,
            seen.names() == first_occurrences(
                admitted_barcodes(source, excluded, candidates@.take(i as int)),
            ),
            seen.wf(),
        decreases candidates@.len() - i,
    {
        let c = &candidates[i];
        proof {
            assert(candidates@.take(i + 1).drop_last() =~= candidates@.take(i as int));
        }
        let ghost keys_before = admitted_barcodes(source, excluded, candidates@.take(i as int));
        if filter.admits(c) {
            match extract_barcode(c) {
                Some(code) => {
                    proof {
                        let keys = keys_before.push(code@);
                        assert(keys.drop_last() =~= keys_before);
                    }
                    seen.insert(code);
                },
                None => {},
            }
        }
        i = i + 1;
    }
    assert(candidates@.take(candidates@.len() as int) =~= candidates@);
    let mut codes = seen.to_vec();
    if limit < codes.len() {
        let ghost all = codes@;
        codes.truncate(limit);
        proof {
            assert(views_of(codes@) =~= views_of(all).take(limit as int));
            assert forall|a: int, b: int|
                0 <= a < codes@.len() && 0 <= b < codes@.len() && a != b implies views_of(
                codes@,
            )[a] != views_of(codes@)[b] by {
            }
        }
    }
    codes
}

/// What a user's profile says of what to keep away from the user.
#[derive(Debug)]
pub struct UserProfileResponse {
    pub allergens: Vec<String>,
    pub dietary_prefs: Vec<String>,
}

/// What is asked of the vector index to learn the vector of a point.
#[derive(Debug)]
pub struct VectorFetch {
    pub collection: String,
    pub point_id: String,
    pub with_payload: bool,
    pub with_vectors: bool,
}

/// The first step of a recommendation for the product `product_id`: its
/// vector is fetched from the point that the identifier names.
pub fn source_vector_fetch(product_id: &str) -> (fetch: VectorFetch)
    ensures
        fetch.collection@ == "product_vectors"@,
        fetch.point_id@ == name_based_uuid(product_id@),
        !fetch.with_payload,
        fetch.with_vectors,
{
    VectorFetch {
        collection: String::from_str("product_vectors"),
        point_id: source_point_id(product_id),
        with_payload: false,
        with_vectors: true,
    }
}

/// What the vector index answered when asked for the vector of a point.
#[derive(Debug)]
pub enum VectorAnswer {
    /// There is no such point, or it holds no vector.
    Missing,
    /// The point holds a vector of this many dimensions.
    Found { dimensions: usize },
    /// The index could not be asked; the text says why.
    Failed(String),
}

/// Whether the source product can seed a similarity search. A product without
/// a vector, or with an empty one, cannot: the recommendation is not found.
pub fn source_vector(product_id: &str, answer: VectorAnswer) -> (r: Result<(), ServiceError>)
    ensures
        match answer {
            VectorAnswer::Found { dimensions } => if dimensions > 0 {
                r is Ok
            } else {
                r matches Err(ServiceError::NotFound(msg)) && msg@
                    == "Empty vector found for product OID "@ + product_id@
            },
            VectorAnswer::Missing => r matches Err(ServiceError::NotFound(msg)) && msg@
                == "Vector data not found for product OID "@ + product_id@,
            VectorAnswer::Failed(why) => r == Err::<(), ServiceError>(ServiceError::Qdrant(why)),
        },
{
    match answer {
        VectorAnswer::Found { dimensions } => {
            if dimensions > 0 {
                Ok(())
            } else {
                Err(ServiceError::NotFound(join2("Empty vector found for product OID ", product_id)))
            }
        },
        VectorAnswer::Missing => Err(
            ServiceError::NotFound(join2("Vector data not found for product OID ", product_id)),
        ),
        VectorAnswer::Failed(why) => Err(ServiceError::Qdrant(why)),
    }
}

/// What to keep away from the user, from what the profile service answered.
/// A user without a profile gets recommendations without exclusions.
pub fn personalization(answer: PeerAnswer<UserProfileResponse>) -> (r: Result<
    UserProfileResponse,
    ServiceError,
>)
    ensures
        match answer {
            PeerAnswer::Decoded(profile) => r == Ok::<UserProfileResponse, ServiceError>(profile),
            PeerAnswer::Undecodable(why) => r matches Err(ServiceError::Internal(msg)) && msg@
                == "Failed to parse profile data: "@ + why@,
            PeerAnswer::Status { code, text } => if code == PEER_NOT_FOUND {
                r matches Ok(profile) && profile.allergens@.len() == 0
                    && profile.dietary_prefs@.len() == 0
            } else {
                r matches Err(ServiceError::Internal(msg)) && msg@
                    == "User profile service failed with status "@ + text@
            },
            PeerAnswer::Unreachable(why) => r == Err::<UserProfileResponse, ServiceError>(
                ServiceError::Reqwest(why),
            ),
        },
{
    match answer {
        PeerAnswer::Decoded(profile) => Ok(profile),
        PeerAnswer::Undecodable(why) => Err(
            ServiceError::Internal(join2("Failed to parse profile data: ", why.as_str())),
        ),
        PeerAnswer::Status { code, text } => {
            if code == PEER_NOT_FOUND {
                Ok(UserProfileResponse { allergens: Vec::new(), dietary_prefs: Vec::new() })
            } else {
                Err(
                    ServiceError::Internal(
                        join2("User profile service failed with status ", text.as_str()),
                    ),
                )
            }
        },
        PeerAnswer::Unreachable(why) => Err(ServiceError::Reqwest(why)),
    }
}

/// A similarity search as the vector index is asked.
#[derive(Debug)]
pub struct SimilaritySearch {
    pub collection: String,
    pub filter: ExclusionFilter,
    /// The key of the payload that holds a point's tags.
    pub tags_key: String,
    pub limit: u64,
    pub offset: u64,
    pub with_payload: bool,
}

/// One condition that no candidate of a similarity search may meet.
#[derive(Debug)]
pub enum ExclusionClause {
    /// Being this point.
    IsPoint(String),
    /// Carrying one of these tags under this key of the payload.
    CarriesTag { key: String, tags: Vec<String> },
}

impl SimilaritySearch {
    /// The conditions that no candidate may meet: being the source point,
    /// and, where tags are excluded, carrying one of them. Without excluded
    /// tags there is no condition on tags.
    pub fn exclusion_clauses(&self) -> (clauses: Vec<ExclusionClause>)
        ensures
            clauses@.len() == (if self.filter.excluded_tags@ == Set::<Seq<char>>::empty() {
                1int
            } else {
                2int
            }),
            clauses@[0] matches ExclusionClause::IsPoint(point) && point@
                == self.filter.source_point_id@,
            clauses@.len() == 2 ==> (clauses@[1] matches ExclusionClause::CarriesTag { key, tags }
                && key@ == self.tags_key@ && views_of(tags@) == self.filter.excluded_tags.names()
                && name_set_of(tags@) == self.filter.excluded_tags@),
    {
        let mut clauses: Vec<ExclusionClause> = Vec::new();
        clauses.push(ExclusionClause::IsPoint(self.filter.source_point_id.clone()));
        if !self.filter.excluded_tags.is_empty() {
            clauses.push(
                ExclusionClause::CarriesTag {
                    key: self.tags_key.clone(),
                    tags: self.filter.excluded_tags.to_vec(),
                },
            );
        }
        clauses
    }
}

/// The search for products like the one at `source_point_id`, for a user with
/// the profile `profile`: the source and everything that carries one of the
/// user's allergens or a tag that the user's diets rule out are excluded, and
/// more candidates are asked for than will be recommended.
pub fn plan_search(source_point_id: String, profile: &UserProfileResponse) -> (search:
    SimilaritySearch)
    ensures
        search.collection@ == "product_vectors"@,
        search.tags_key@ == "labels_tags"@,
        search.filter.source_point_id@ == source_point_id@,
        search.filter.excluded_tags@ == exclusion_tags(
            name_set_of(profile.allergens@),
            name_set_of(profile.dietary_prefs@),
        ),
        search.filter.excluded_tags.names() == exclusion_list(
            first_occurrences(views_of(profile.allergens@)),
            name_set_of(profile.dietary_prefs@),
        ),
        search.limit == OVERFETCH_LIMIT,
        search.offset == 0,
        search.with_payload,
{
    let allergens = NameSet::from_vec(clone_strings(&profile.allergens));
    let diets = NameSet::from_vec(clone_strings(&profile.dietary_prefs));
    SimilaritySearch {
        collection: String::from_str("product_vectors"),
        filter: build_exclusion_filter(source_point_id, &allergens, &diets),
        tags_key: String::from_str("labels_tags"),
        limit: OVERFETCH_LIMIT,
        offset: 0,
        with_payload: true,
    }
}

/// What the vector index answered to a similarity search.
#[derive(Debug)]
pub enum SearchAnswer {
    Candidates(Vec<RecommendationCandidate>),
    /// The index could not be asked; the text says why.
    Failed(String),
}

/// The products to load from the document store, by barcode.
#[derive(Debug)]
pub struct Hydration {
    pub codes: Vec<String>,
    pub limit: usize,
}

/// What to load for a recommendation of at most `limit` products, from what
/// the vector index answered. Where no candidate is left, nothing is loaded
/// and the recommendation is empty; that is no failure.
pub fn candidates_to_load(filter: &ExclusionFilter, answer: SearchAnswer, limit: usize) -> (r:
    Result<Option<Hydration>, ServiceError>)
    ensures
        match answer {
            SearchAnswer::Failed(why) => r == Err::<Option<Hydration>, ServiceError>(
                ServiceError::Qdrant(why),
            ),
            SearchAnswer::Candidates(candidates) => {
                let selected = selected_barcodes(
                    filter.source_point_id@,
                    filter.excluded_tags@,
                    candidates@,
                    limit as int,
                );
                if selected.len() == 0 {
                    r matches Ok(None)
                } else {
                    r matches Ok(Some(hydration)) && views_of(hydration.codes@) == selected
                        && distinct_names(hydration.codes@) && hydration.limit == limit
                }
            },
        },
{
    match answer {
        SearchAnswer::Failed(why) => Err(ServiceError::Qdrant(why)),
        SearchAnswer::Candidates(candidates) => {
            let codes = select_barcodes(filter, &candidates, limit);
            if codes.len() == 0 {
                Ok(None)
            } else {
                Ok(Some(Hydration { codes, limit }))
            }
        },
    }
}

/// The barcodes of `products`, in order.
pub open spec fn codes_of(products: Seq<Product>) -> Seq<Seq<char>> {
    Seq::new(products.len(), |i: int| products[i].code@)
}

/// The products of `products` that are recommended: those whose barcode was
/// asked for, the first for each barcode, `limit` at most.
pub open spec fn kept_products(wanted: Set<Seq<char>>, products: Seq<Product>, limit: int) -> Seq<
    Product,
>
    decreases products.len(),
{
    if products.len() == 0 {
        Seq::empty()
    } else {
        let before = kept_products(wanted, products.drop_last(), limit);
        let p = products.last();
        if before.len() < limit && wanted.contains(p.code@) && !codes_of(before).contains(p.code@) {
            before.push(p)
        } else {
            before
        }
    }
}

/// The recommended products carry barcodes that were asked for, none of them
/// twice, and there are at most `limit` of them.
pub proof fn law_kept_products(wanted: Set<Seq<char>>, products: Seq<Product>, limit: int)
    requires
        0 <= limit,
    ensures
        kept_products(wanted, products, limit).len() <= limit,
        kept_products(wanted, products, limit).len() <= products.len(),
        codes_of(kept_products(wanted, products, limit)).no_duplicates(),
        forall|i: int|
            0 <= i < kept_products(wanted, products, limit).len() ==> wanted.contains(
                (#[trigger] kept_products(wanted, products, limit)[i]).code@,
            ),
    decreases products.len(),
{
    if products.len() > 0 {
        law_kept_products(wanted, products.drop_last(), limit);
        let before = kept_products(wanted, products.drop_last(), limit);
        let kept = kept_products(wanted, products, limit);
        if kept.len() > before.len() {
            assert forall|a: int, b: int|
                0 <= a < kept.len() && 0 <= b < kept.len() && a != b implies codes_of(kept)[a]
                != codes_of(kept)[b] by {
                if a < before.len() && b < before.len() {
                    assert(codes_of(before)[a] != codes_of(before)[b]);
                } else if a < before.len() {
                    assert(codes_of(before)[a] == before[a].code@);
                } else {
                    assert(codes_of(before)[b] == before[b].code@);
                }
            }
            assert forall|i: int| 0 <= i < kept.len() implies wanted.contains(
                (#[trigger] kept[i]).code@,
            ) by {
            }
        }
    }
}

/// The recommendation, from what the document store answered when asked for
/// the products in `hydration`. Products that were not asked for, second
/// products for a barcode and products beyond the limit are left out.
pub fn recommended_products(hydration: &Hydration, answer: StoreRead<Vec<Product>>) -> (r: Result<
    Vec<Product>,
    ServiceError,
>)
    ensures
        match answer {
            StoreRead::Found(products) => r matches Ok(list) && list@ == kept_products(
                name_set_of(hydration.codes@),
                products@,
                hydration.limit as int,
            ),
            StoreRead::Missing => r matches Ok(list) && list@.len() == 0,
            StoreRead::Failed(why) => r == Err::<Vec<Product>, ServiceError>(
                ServiceError::MongoDb(why),
            ),
        },
{
    match answer {
        StoreRead::Failed(why) => Err(ServiceError::MongoDb(why)),
        StoreRead::Missing => Ok(Vec::new()),
        StoreRead::Found(products) => {
            let wanted = NameSet::from_vec(clone_strings(&hydration.codes));
            let ghost all = products@;
            let mut kept: Vec<Product> = Vec::new();
            let mut seen = NameSet::new();
            for product in it: products
                invariant
                    it.seq() == all,
                    wanted@ == name_set_of(hydration.codes@),
                    kept@ == kept_products(
                        wanted@,
                        all.take(it.index() as int),
                        hydration.limit as int,
                    ),
                    seen@ == codes_of(kept@).to_set(),
                    seen.wf(),
            {
                proof {
                    let i = it.index() as int;
                    assert(all.take(i + 1).drop_last() =~= all.take(i));
                }
                if kept.len() < hydration.limit && wanted.contains(product.code.as_str())
                    && !seen.contains(product.code.as_str()) {
                    let ghost before = kept@;
                    seen.insert(product.code.clone());
                    kept.push(product);
                    proof {
                        assert(codes_of(kept@) =~= codes_of(before).push(product.code@));
                        crate::names::lemma_seq_push_to_set(codes_of(before), product.code@);
                    }
                }
            }
            assert(all.take(all.len() as int) =~= all);
            Ok(kept)
        },
    }
}

/// Every recommended product carries the barcode of a candidate that is not
/// the point the search started from and whose payload carries none of the
/// excluded tags; no barcode is recommended twice; and at most `limit`
/// products are recommended.
pub proof fn law_recommendation(
    source: Seq<char>,
    excluded: Set<Seq<char>>,
    candidates: Seq<RecommendationCandidate>,
    products: Seq<Product>,
    limit: int,
)
    requires
        0 <= limit,
    ensures
        ({
            let wanted = selected_barcodes(source, excluded, candidates, limit).to_set();
            let recommended = kept_products(wanted, products, limit);
            &&& recommended.len() <= limit
            &&& codes_of(recommended).no_duplicates()
            &&& forall|i: int|
                0 <= i < recommended.len() ==> exists|j: int|
                    0 <= j < candidates.len() && barcode_of(#[trigger] candidates[j]) == Some(
                        (#[trigger] recommended[i]).code@,
                    ) && candidates[j].vector_point_id@ != source && name_set_of(
                        candidates[j].payload_tags@,
                    ).disjoint(excluded)
        }),
{
    let wanted = selected_barcodes(source, excluded, candidates, limit).to_set();
    let recommended = kept_products(wanted, products, limit);
    law_kept_products(wanted, products, limit);
    assert forall|i: int| 0 <= i < recommended.len() implies exists|j: int|
        0 <= j < candidates.len() && barcode_of(#[trigger] candidates[j]) == Some(
            (#[trigger] recommended[i]).code@,
        ) && candidates[j].vector_point_id@ != source && name_set_of(
            candidates[j].payload_tags@,
        ).disjoint(excluded) by {
        let code = recommended[i].code@;
        law_selected_barcodes_are_admitted(source, excluded, candidates, limit, code);
    }
}

impl Clone for ExclusionFilter {
    fn clone(&self) -> (copy: Self)
        ensures
            copy.source_point_id@ == self.source_point_id@,
            copy.excluded_tags@ == self.excluded_tags@,
    {
        ExclusionFilter {
            source_point_id: self.source_point_id.clone(),
            excluded_tags: self.excluded_tags.clone(),
        }
    }
}

/// Where a recommendation stands: what it waits for, and what it has to
/// remember until then.
#[derive(Debug)]
pub enum RecommendState {
    /// The request came in: at most `limit` products like the product
    /// `product_id` are asked for, for the user `user_id` of the profile
    /// service at `profile_service_url`.
    Received { product_id: String, profile_service_url: String, user_id: String, limit: usize },
    /// The vector of the source product was asked for.
    AwaitingVector { product_id: String, point_id: String, profile_url: String, limit: usize },
    /// The user's profile was asked for.
    AwaitingProfile { point_id: String, limit: usize },
    /// The similarity search runs.
    AwaitingCandidates { filter: ExclusionFilter, limit: usize },
    /// The products are being loaded.
    AwaitingProducts { hydration: Hydration },
    /// The answer was given.
    Finished,
}

/// What a store or a peer answered to the last step of a recommendation.
#[derive(Debug)]
pub enum RecommendEvent {
    /// The request came in.
    Begin,
    Vector(VectorAnswer),
    Profile(PeerAnswer<UserProfileResponse>),
    Candidates(SearchAnswer),
    Products(StoreRead<Vec<Product>>),
}

/// What is to be done next for a recommendation.
#[derive(Debug)]
pub enum RecommendAction {
    /// Ask the vector index for the vector of the source product.
    FetchVector(VectorFetch),
    /// Ask the profile service for the user's profile.
    FetchProfile { url: String },
    /// Run the similarity search, with the vector that was fetched.
    Search(SimilaritySearch),
    /// Load the products with these barcodes from the document store.
    LoadProducts { codes: Vec<String>, limit: usize },
    /// Answer the request.
    Reply(Result<Vec<Product>, ServiceError>),
}

/// Whether `e` is the failure that an answer of the vector index without a
/// usable vector leads to.
pub open spec fn is_vector_failure(product_id: Seq<char>, answer: VectorAnswer, e: ServiceError) -> bool {
    match answer {
        VectorAnswer::Found { dimensions } => e matches ServiceError::NotFound(msg) && msg@
            == "Empty vector found for product OID "@ + product_id,
        VectorAnswer::Missing => e matches ServiceError::NotFound(msg) && msg@
            == "Vector data not found for product OID "@ + product_id,
        VectorAnswer::Failed(why) => e == ServiceError::Qdrant(why),
    }
}

/// Whether the vector index answered with a vector that can seed a search.
pub open spec fn has_usable_vector(answer: VectorAnswer) -> bool {
    answer matches VectorAnswer::Found { dimensions } && dimensions > 0
}

/// The allergens and diets to keep away from the user, where the profile
/// service's answer gives them: a profile, or none for a user without one.
pub open spec fn exclusions_in(answer: PeerAnswer<UserProfileResponse>) -> Option<
    (Set<Seq<char>>, Set<Seq<char>>),
> {
    match answer {
        PeerAnswer::Decoded(profile) => Some(
            (name_set_of(profile.allergens@), name_set_of(profile.dietary_prefs@)),
        ),
        PeerAnswer::Status { code, text } => if code == PEER_NOT_FOUND {
            Some((Set::empty(), Set::empty()))
        } else {
            None
        },
        _ => None,
    }
}

/// Whether `e` is the failure that an answer of the profile service without a
/// usable profile leads to.
pub open spec fn is_profile_failure(answer: PeerAnswer<UserProfileResponse>, e: ServiceError) -> bool {
    match answer {
        PeerAnswer::Undecodable(why) => e matches ServiceError::Internal(msg) && msg@
            == "Failed to parse profile data: "@ + why@,
        PeerAnswer::Status { code, text } => e matches ServiceError::Internal(msg) && msg@
            == "User profile service failed with status "@ + text@,
        PeerAnswer::Unreachable(why) => e == ServiceError::Reqwest(why),
        PeerAnswer::Decoded(_) => false,
    }
}

/// Whether a candidate that the filter admits holds the barcode `code`: one
/// that is not the point the search started from and whose payload carries
/// none of the excluded tags.
pub open spec fn held_by_admitted(
    source: Seq<char>,
    excluded: Set<Seq<char>>,
    candidates: Seq<RecommendationCandidate>,
    code: Seq<char>,
) -> bool {
    exists|j: int|
        0 <= j < candidates.len() && barcode_of(#[trigger] candidates[j]) == Some(code)
            && candidates[j].vector_point_id@ != source && name_set_of(
            candidates[j].payload_tags@,
        ).disjoint(excluded)
}

/// The message of the failure of a recommendation that was given an answer
/// it did not wait for.
pub open spec fn unexpected_answer_message() -> Seq<char> {
    "Answer does not belong to the current step of the recommendation"@
}

/// The end of a recommendation that was given an answer it did not wait for.
fn out_of_step() -> (next: (RecommendState, RecommendAction))
    ensures
        next.0 is Finished,
        next.1 matches RecommendAction::Reply(Err(ServiceError::Internal(msg))) && msg@
            == unexpected_answer_message(),
{
    (
        RecommendState::Finished,
        RecommendAction::Reply(
            Err(
                ServiceError::Internal(
                    String::from_str(
                        "Answer does not belong to the current step of the recommendation",
                    ),
                ),
            ),
        ),
    )
}

/// Whether `next` is what the step of `state` leads to once `event` has come
/// in: the state that follows, and what is to be done.
pub open spec fn recommendation_step(
    state: RecommendState,
    event: RecommendEvent,
    next: (RecommendState, RecommendAction),
) -> bool {
    match (state, event) {
        (
            RecommendState::Received { product_id, profile_service_url, user_id, limit },
            RecommendEvent::Begin,
        ) => {
            &&& next.0 matches RecommendState::AwaitingVector {
                product_id: p,
                point_id,
                profile_url,
                limit: l,
            }
            &&& p == product_id
            &&& point_id@ == name_based_uuid(product_id@)
            &&& profile_url@ == profile_service_url@ + "/api/v1/users/"@ + user_id@
                + "/profile"@
            &&& l == limit
            &&& next.1 matches RecommendAction::FetchVector(fetch)
            &&& fetch.collection@ == "product_vectors"@
            &&& fetch.point_id@ == name_based_uuid(product_id@)
            &&& !fetch.with_payload
            &&& fetch.with_vectors
        },
        (
            RecommendState::AwaitingVector { product_id, point_id, profile_url, limit },
            RecommendEvent::Vector(answer),
        ) => if has_usable_vector(answer) {
            &&& next.0 matches RecommendState::AwaitingProfile { point_id: p, limit: l }
            &&& p@ == point_id@ && l == limit
            &&& next.1 matches RecommendAction::FetchProfile { url }
            &&& url@ == profile_url@
        } else {
            &&& next.0 is Finished
            &&& next.1 matches RecommendAction::Reply(Err(e))
            &&& is_vector_failure(product_id@, answer, e)
        },
        (RecommendState::AwaitingProfile { point_id, limit }, RecommendEvent::Profile(answer)) => {
            match exclusions_in(answer) {
                Some((allergens, diets)) => {
                    &&& next.0 matches RecommendState::AwaitingCandidates { filter, limit: l }
                    &&& filter.source_point_id@ == point_id@
                    &&& filter.excluded_tags@ =~= exclusion_tags(allergens, diets)
                    &&& l == limit
                    &&& next.1 matches RecommendAction::Search(search)
                    &&& search.collection@ == "product_vectors"@
                    &&& search.tags_key@ == "labels_tags"@
                    &&& search.filter.source_point_id@ == point_id@
                    &&& search.filter.excluded_tags@ =~= exclusion_tags(allergens, diets)
                    &&& search.limit == OVERFETCH_LIMIT
                    &&& search.offset == 0
                    &&& search.with_payload
                },
                None => {
                    &&& next.0 is Finished
                    &&& next.1 matches RecommendAction::Reply(Err(e))
                    &&& is_profile_failure(answer, e)
                },
            }
        },
        (
            RecommendState::AwaitingCandidates { filter, limit },
            RecommendEvent::Candidates(answer),
        ) => match answer {
            SearchAnswer::Failed(why) => {
                &&& next.0 is Finished
                &&& next.1 == RecommendAction::Reply(Err(ServiceError::Qdrant(why)))
            },
            SearchAnswer::Candidates(candidates) => {
                let selected = selected_barcodes(
                    filter.source_point_id@,
                    filter.excluded_tags@,
                    candidates@,
                    limit as int,
                );
                if selected.len() == 0 {
                    &&& next.0 is Finished
                    &&& next.1 matches RecommendAction::Reply(Ok(list))
                    &&& list@.len() == 0
                } else {
                    &&& next.0 matches RecommendState::AwaitingProducts { hydration }
                    &&& views_of(hydration.codes@) == selected
                    &&& hydration.limit == limit
                    &&& next.1 matches RecommendAction::LoadProducts { codes, limit: l }
                    &&& views_of(codes@) == selected
                    &&& l == limit
                    &&& distinct_names(codes@)
                    &&& codes@.len() <= limit
                    &&& forall|i: int|
                        0 <= i < codes@.len() ==> held_by_admitted(
                            filter.source_point_id@,
                            filter.excluded_tags@,
                            candidates@,
                            #[trigger] views_of(codes@)[i],
                        )
                }
            },
        },
        (RecommendState::AwaitingProducts { hydration }, RecommendEvent::Products(answer)) => {
            &&& next.0 is Finished
            &&& match answer {
                StoreRead::Found(products) => next.1 matches RecommendAction::Reply(Ok(list))
                    && list@ == kept_products(
                    name_set_of(hydration.codes@),
                    products@,
                    hydration.limit as int,
                ) && list@.len() <= hydration.limit && codes_of(list@).no_duplicates()
                    && forall|i: int|
                    0 <= i < list@.len() ==> name_set_of(hydration.codes@).contains(
                        (#[trigger] list@[i]).code@,
                    ),
                StoreRead::Missing => next.1 matches RecommendAction::Reply(Ok(list))
                    && list@.len() == 0,
                StoreRead::Failed(why) => next.1 == RecommendAction::Reply(
                    Err(ServiceError::MongoDb(why)),
                ),
            }
        },
        _ => {
            &&& next.0 is Finished
            &&& next.1 matches RecommendAction::Reply(Err(ServiceError::Internal(msg)))
            &&& msg@ == unexpected_answer_message()
        },
    }
}

/// One step of the request for products like a given one: what the step of
/// `state` leads to once `event` has come in.
///
/// The point of the vector index that stands for the source product is
/// derived from the product's identifier, and its vector is fetched. Without
/// a vector, or with an empty one, the recommendation is not found. The
/// user's profile gives the exclusions; a user without a profile has none.
/// One similarity search is run: it excludes the source point, every point
/// that carries one of the user's allergens as a tag, and every point that
/// carries a tag that the user's diets rule out; it asks for 20 candidates
/// with their payload. The filter is applied to every candidate again.
/// Candidates without a usable barcode are passed over and never fail the
/// request. Each barcode is kept once, and the barcodes are cut to the limit
/// only then. Where no barcode is left the recommendation is empty. Else the
/// products are loaded in one lookup; of what the store returns, only
/// products with a barcode that was asked for are recommended, each barcode
/// once, `limit` at most. A failure of a store or of the profile service ends
/// the recommendation with that failure, and so does an answer that the step
/// did not wait for.
pub fn get_recommendations(state: RecommendState, event: RecommendEvent) -> (next: (
    RecommendState,
    RecommendAction,
))
    ensures
        recommendation_step(state, event, next),
{
    match state {
        RecommendState::Received { product_id, profile_service_url, user_id, limit } => match event {
            RecommendEvent::Begin => {
                let fetch = source_vector_fetch(product_id.as_str());
                let next_state = RecommendState::AwaitingVector {
                    point_id: fetch.point_id.clone(),
                    profile_url: user_profile_url(profile_service_url.as_str(), user_id.as_str()),
                    product_id,
                    limit,
                };
                (next_state, RecommendAction::FetchVector(fetch))
            },
            _ => out_of_step(),
        },
        RecommendState::AwaitingVector { product_id, point_id, profile_url, limit } => match event {
            RecommendEvent::Vector(answer) => match source_vector(product_id.as_str(), answer) {
                Ok(_) => (
                    RecommendState::AwaitingProfile { point_id, limit },
                    RecommendAction::FetchProfile { url: profile_url },
                ),
                Err(e) => (RecommendState::Finished, RecommendAction::Reply(Err(e))),
            },
            _ => out_of_step(),
        },
        RecommendState::AwaitingProfile { point_id, limit } => match event {
            RecommendEvent::Profile(answer) => match personalization(answer) {
                Ok(profile) => {
                    proof {
                        crate::names::lemma_name_set_empty();
                    }
                    let search = plan_search(point_id, &profile);
                    let filter = search.filter.clone();
                    (
                        RecommendState::AwaitingCandidates { filter, limit },
                        RecommendAction::Search(search),
                    )
                },
                Err(e) => (RecommendState::Finished, RecommendAction::Reply(Err(e))),
            },
            _ => out_of_step(),
        },
        RecommendState::AwaitingCandidates { filter, limit } => match event {
            RecommendEvent::Candidates(answer) => match candidates_to_load(&filter, answer, limit) {
                Ok(Some(hydration)) => {
                    let codes = clone_strings(&hydration.codes);
                    proof {
                        let found = answer->Candidates_0@;
                        let source = filter.source_point_id@;
                        let excluded = filter.excluded_tags@;
                        assert forall|i: int| 0 <= i < codes@.len() implies held_by_admitted(
                            source,
                            excluded,
                            found,
                            #[trigger] views_of(codes@)[i],
                        ) by {
                            let code = views_of(codes@)[i];
                            assert(selected_barcodes(source, excluded, found, limit as int).contains(
                                code,
                            ));
                            law_selected_barcodes_are_admitted(
                                source,
                                excluded,
                                found,
                                limit as int,
                                code,
                            );
                        }
                    }
                    (
                        RecommendState::AwaitingProducts { hydration },
                        RecommendAction::LoadProducts { codes, limit },
                    )
                },
                Ok(None) => (RecommendState::Finished, RecommendAction::Reply(Ok(Vec::new()))),
                Err(e) => (RecommendState::Finished, RecommendAction::Reply(Err(e))),
            },
            _ => out_of_step(),
        },
        RecommendState::AwaitingProducts { hydration } => match event {
            RecommendEvent::Products(answer) => {
                proof {
                    if answer is Found {
                        law_kept_products(
                            name_set_of(hydration.codes@),
                            answer->Found_0@,
                            hydration.limit as int,
                        );
                    }
                }
                (
                    RecommendState::Finished,
                    RecommendAction::Reply(recommended_products(&hydration, answer)),
                )
            },
            _ => out_of_step(),
        },
        RecommendState::Finished => out_of_step(),
    }
}

/// Whether `result` is the answer that is owed to a request for at most
/// `limit` products like the product `product_id`, where the vector index
/// answered `vector` and then `candidates`, the profile service `profile`,
/// and the document store `products`.
pub open spec fn is_recommendation_outcome(
    product_id: Seq<char>,
    limit: usize,
    vector: VectorAnswer,
    profile: PeerAnswer<UserProfileResponse>,
    candidates: SearchAnswer,
    products: StoreRead<Vec<Product>>,
    result: Result<Vec<Product>, ServiceError>,
) -> bool {
    if !has_usable_vector(vector) {
        result matches Err(e) && is_vector_failure(product_id, vector, e)
    } else {
        match (exclusions_in(profile), candidates) {
            (None, _) => result matches Err(e) && is_profile_failure(profile, e),
            (Some(_), SearchAnswer::Failed(why)) => result == Err::<Vec<Product>, ServiceError>(
                ServiceError::Qdrant(why),
            ),
            (Some((allergens, diets)), SearchAnswer::Candidates(found)) => {
                let selected = selected_barcodes(
                    name_based_uuid(product_id),
                    exclusion_tags(allergens, diets),
                    found@,
                    limit as int,
                );
                if selected.len() == 0 {
                    result matches Ok(list) && list@.len() == 0
                } else {
                    match products {
                        StoreRead::Found(loaded) => result matches Ok(list) && list@
                            == kept_products(selected.to_set(), loaded@, limit as int),
                        StoreRead::Missing => result matches Ok(list) && list@.len() == 0,
                        StoreRead::Failed(why) => result == Err::<Vec<Product>, ServiceError>(
                            ServiceError::MongoDb(why),
                        ),
                    }
                }
            },
        }
    }
}

/// The answer of a step, where the step answers the request.
pub open spec fn reply_of(action: RecommendAction) -> Option<Result<Vec<Product>, ServiceError>> {
    match action {
        RecommendAction::Reply(result) => Some(result),
        _ => None,
    }
}

/// A recommendation runs to its answer in at most five steps: the vector of
/// the source product, the user's profile, the similarity search, and the
/// load of the products, each asked for only where the one before came back
/// with what the next needs. The first answer it gives is the one owed to the
/// request for what the stores and the profile service answered.
pub proof fn law_recommendation_runs_to_its_answer(
    product_id: String,
    profile_service_url: String,
    user_id: String,
    limit: usize,
    vector: VectorAnswer,
    profile: PeerAnswer<UserProfileResponse>,
    candidates: SearchAnswer,
    products: StoreRead<Vec<Product>>,
    first: (RecommendState, RecommendAction),
    second: (RecommendState, RecommendAction),
    third: (RecommendState, RecommendAction),
    fourth: (RecommendState, RecommendAction),
    fifth: (RecommendState, RecommendAction),
)
    requires
        recommendation_step(
            RecommendState::Received { product_id, profile_service_url, user_id, limit },
            RecommendEvent::Begin,
            first,
        ),
        recommendation_step(first.0, RecommendEvent::Vector(vector), second),
        recommendation_step(second.0, RecommendEvent::Profile(profile), third),
        recommendation_step(third.0, RecommendEvent::Candidates(candidates), fourth),
        recommendation_step(fourth.0, RecommendEvent::Products(products), fifth),
    ensures
        first.1 is FetchVector,
        second.1 is FetchProfile || second.1 is Reply,
        second.1 is FetchProfile ==> third.1 is Search || third.1 is Reply,
        second.1 is FetchProfile && third.1 is Search ==> fourth.1 is LoadProducts
            || fourth.1 is Reply,
        second.1 is FetchProfile && third.1 is Search && fourth.1 is LoadProducts
            ==> fifth.1 is Reply,
        ({
            let answer = if second.1 is Reply {
                reply_of(second.1)
            } else if third.1 is Reply {
                reply_of(third.1)
            } else if fourth.1 is Reply {
                reply_of(fourth.1)
            } else {
                reply_of(fifth.1)
            };
            answer matches Some(result) && is_recommendation_outcome(
                product_id@,
                limit,
                vector,
                profile,
                candidates,
                products,
                result,
            )
        }),
{
}

/// What a recommendation that ends well recommends, whatever the stores and
/// the profile service answered: at most `limit` products, no barcode twice,
/// and only barcodes of candidates that the search yielded, that are not the
/// point of the source product and that carry none of the tags excluded for
/// the user.
pub proof fn law_recommended_products_are_admitted(
    product_id: Seq<char>,
    limit: usize,
    vector: VectorAnswer,
    profile: PeerAnswer<UserProfileResponse>,
    candidates: SearchAnswer,
    products: StoreRead<Vec<Product>>,
    list: Vec<Product>,
)
    requires
        is_recommendation_outcome(
            product_id,
            limit,
            vector,
            profile,
            candidates,
            products,
            Ok(list),
        ),
    ensures
        list@.len() <= limit,
        codes_of(list@).no_duplicates(),
        list@.len() > 0 ==> {
            &&& candidates matches SearchAnswer::Candidates(found)
            &&& exclusions_in(profile) matches Some(excluded)
            &&& forall|i: int|
                0 <= i < list@.len() ==> held_by_admitted(
                    name_based_uuid(product_id),
                    exclusion_tags(excluded.0, excluded.1),
                    found@,
                    (#[trigger] list@[i]).code@,
                )
        },
{
    if list@.len() > 0 {
        let found = candidates->Candidates_0;
        let excluded = exclusions_in(profile)->Some_0;
        let loaded = products->Found_0;
        law_recommendation(
            name_based_uuid(product_id),
            exclusion_tags(excluded.0, excluded.1),
            found@,
            loaded@,
            limit as int,
        );
    }
}

} // verus!
