//! Conflict resolution: from a product's candidate ingredients, a user's
//! allergens and diets, and the relations that the ingredient knowledge base
//! holds, to a safety verdict.

use crate::names::{
    distinct_names, first_occurrences, lemma_name_set_contains, name_set_of, with_new, NameSet,
};
use crate::text::{lowercase_of, split, split_on, to_lowercase, trim, trimmed, views_of};
use vstd::prelude::*;

verus! {

/// The outcome of a safety check.
#[derive(Debug, Clone, Copy, PartialEq, Eq, Structural)]
pub enum SafetyStatus {
    /// No conflict was found.
    Safe,
    /// An ingredient is an allergen of the user or conflicts with a diet.
    Unsafe,
    /// Safety could not be shown: traces of an allergen, or nothing to go by.
    Caution,
}

/// A safety verdict with the conflicts that explain it.
#[derive(Debug)]
pub struct CheckResult {
    pub status: SafetyStatus,
    /// Allergens of the user that an ingredient is.
    pub conflicting_allergens: Vec<String>,
    /// Diets of the user that an ingredient conflicts with.
    pub conflicting_diets: Vec<String>,
    /// Allergens of the user of which an ingredient may hold traces.
    pub trace_allergens: Vec<String>,
    /// Whether the verdict rests on data that was not fetched for this check.
    pub is_offline_result: bool,
}

/// A verdict as a mathematical value: the status and the three conflict sets.
pub struct Verdict {
    pub status: SafetyStatus,
    pub conflicting_allergens: Set<Seq<char>>,
    pub trace_allergens: Set<Seq<char>>,
    pub conflicting_diets: Set<Seq<char>>,
    pub is_offline_result: bool,
}

impl View for CheckResult {
    type V = Verdict;

    open spec fn view(&self) -> Verdict {
        Verdict {
            status: self.status,
            conflicting_allergens: name_set_of(self.conflicting_allergens@),
            trace_allergens: name_set_of(self.trace_allergens@),
            conflicting_diets: name_set_of(self.conflicting_diets@),
            is_offline_result: self.is_offline_result,
        }
    }
}

/// The three conflict sets of one check.
#[derive(Debug)]
pub struct ConflictSets {
    pub conflicting_allergens: NameSet,
    pub trace_allergens: NameSet,
    pub conflicting_diets: NameSet,
}

/// The kinds of relation that the knowledge base holds between an ingredient
/// and an allergen or a diet.
#[derive(Debug, Clone, Copy, PartialEq, Eq, Structural)]
pub enum Relation {
    /// The ingredient is the allergen.
    IsAllergen,
    /// The ingredient may hold traces of the allergen.
    MayContainTrace,
    /// The ingredient conflicts with the diet.
    ConflictsWithDiet,
}

/// One relation of the knowledge base.
#[derive(Debug)]
pub struct GraphEdge {
    pub ingredient: String,
    pub relation: Relation,
    /// The name of the allergen or of the diet.
    pub target: String,
}

/// Relations of the ingredient knowledge base, held in memory.
#[derive(Debug)]
pub struct KnowledgeGraph {
    pub edges: Vec<GraphEdge>,
}

/// What the knowledge base answers for one ingredient: the user's allergens
/// and diets that the ingredient is related to.
#[derive(Debug)]
pub struct ConflictRow {
    pub ingredient_name: String,
    pub conflicting_allergens: Vec<String>,
    pub trace_allergens: Vec<String>,
    pub conflicting_diets: Vec<String>,
}

/// Whether each of the three conflict lists of `result` names nothing twice.
pub open spec fn names_each_conflict_once(result: CheckResult) -> bool {
    &&& distinct_names(result.conflicting_allergens@)
    &&& distinct_names(result.trace_allergens@)
    &&& distinct_names(result.conflicting_diets@)
}

/// The status that three conflict sets give. An allergen or a diet conflict
/// makes the product unsafe whatever the traces; traces alone call for
/// caution; with no conflict the product is safe.
pub open spec fn status_of(
    conflicting_allergens: Set<Seq<char>>,
    trace_allergens: Set<Seq<char>>,
    conflicting_diets: Set<Seq<char>>,
) -> SafetyStatus {
    if conflicting_allergens != Set::<Seq<char>>::empty() || conflicting_diets != Set::<
        Seq<char>,
    >::empty() {
        SafetyStatus::Unsafe
    } else if trace_allergens != Set::<Seq<char>>::empty() {
        SafetyStatus::Caution
    } else {
        SafetyStatus::Safe
    }
}

/// The verdict that three conflict sets give.
pub open spec fn verdict_of(
    conflicting_allergens: Set<Seq<char>>,
    trace_allergens: Set<Seq<char>>,
    conflicting_diets: Set<Seq<char>>,
) -> Verdict {
    Verdict {
        status: status_of(conflicting_allergens, trace_allergens, conflicting_diets),
        conflicting_allergens,
        trace_allergens,
        conflicting_diets,
        is_offline_result: false,
    }
}

/// The verdict on a product of which no ingredient is known: caution, with no
/// conflict named.
pub open spec fn nothing_to_go_by() -> Verdict {
    Verdict {
        status: SafetyStatus::Caution,
        conflicting_allergens: Set::empty(),
        trace_allergens: Set::empty(),
        conflicting_diets: Set::empty(),
        is_offline_result: false,
    }
}

/// The targets of `relation` that `row` lists.
pub open spec fn row_targets(row: ConflictRow, relation: Relation) -> Seq<String> {
    match relation {
        Relation::IsAllergen => row.conflicting_allergens@,
        Relation::MayContainTrace => row.trace_allergens@,
        Relation::ConflictsWithDiet => row.conflicting_diets@,
    }
}

/// The targets of `relation` that any of `rows` lists.
pub open spec fn rows_targets(rows: Seq<ConflictRow>, relation: Relation) -> Set<Seq<char>> {
    Set::new(
        |name: Seq<char>|
            exists|i: int|
                0 <= i < rows.len() && name_set_of(row_targets(#[trigger] rows[i], relation)).contains(
                    name,
                ),
    )
}

/// The verdict that the knowledge base's answer gives for a product with the
/// candidate ingredients `candidates`.
pub open spec fn verdict_from_rows(candidates: Set<Seq<char>>, rows: Seq<ConflictRow>) -> Verdict {
    if candidates == Set::<Seq<char>>::empty() {
        nothing_to_go_by()
    } else {
        verdict_of(
            rows_targets(rows, Relation::IsAllergen),
            rows_targets(rows, Relation::MayContainTrace),
            rows_targets(rows, Relation::ConflictsWithDiet),
        )
    }
}

/// Whether `edge` relates one of `ingredients` by `relation` to one of
/// `allowed`.
pub open spec fn edge_matches(
    edge: GraphEdge,
    ingredients: Set<Seq<char>>,
    relation: Relation,
    allowed: Set<Seq<char>>,
) -> bool {
    edge.relation == relation && ingredients.contains(edge.ingredient@) && allowed.contains(
        edge.target@,
    )
}

/// The members of `allowed` that `edges` relate to one of `ingredients` by
/// `relation`.
pub open spec fn related(
    edges: Seq<GraphEdge>,
    ingredients: Set<Seq<char>>,
    relation: Relation,
    allowed: Set<Seq<char>>,
) -> Set<Seq<char>> {
    Set::new(
        |name: Seq<char>|
            exists|i: int|
                0 <= i < edges.len() && edge_matches(
                    #[trigger] edges[i],
                    ingredients,
                    relation,
                    allowed,
                ) && edges[i].target@ == name,
    )
}

/// The verdict on a product with the candidate ingredients `candidates`, for a
/// user with these allergens and diets, by the relations `edges`.
pub open spec fn resolution(
    candidates: Set<Seq<char>>,
    user_allergens: Set<Seq<char>>,
    user_diets: Set<Seq<char>>,
    edges: Seq<GraphEdge>,
) -> Verdict {
    if candidates == Set::<Seq<char>>::empty() {
        nothing_to_go_by()
    } else {
        verdict_of(
            related(edges, candidates, Relation::IsAllergen, user_allergens),
            related(edges, candidates, Relation::MayContainTrace, user_allergens),
            related(edges, candidates, Relation::ConflictsWithDiet, user_diets),
        )
    }
}

/// An ingredient name as it is compared: trimmed and in lower case.
pub open spec fn normalized(piece: Seq<char>) -> Seq<char> {
    lowercase_of(trimmed(piece))
}

/// The ingredient names in a comma-separated list: each piece trimmed and in
/// lower case, empty names left out.
pub open spec fn ingredient_names(text: Seq<char>) -> Set<Seq<char>> {
    Set::new(
        |name: Seq<char>|
            name.len() > 0 && exists|i: int|
                0 <= i < split_on(text, ',').len() && name == normalized(
                    #[trigger] split_on(text, ',')[i],
                ),
    )
}

/// The ingredient names in an ingredient text that may be absent.
pub open spec fn parsed_ingredients(text: Option<String>) -> Set<Seq<char>> {
    match text {
        Some(t) => ingredient_names(t@),
        None => Set::empty(),
    }
}

/// The lower-case forms of `tags`.
pub open spec fn lowercased(tags: Seq<String>) -> Set<Seq<char>> {
    Set::new(
        |name: Seq<char>|
            exists|i: int| 0 <= i < tags.len() && name == lowercase_of(#[trigger] tags[i]@),
    )
}

/// The names that the pieces of an ingredient text give, in order: each piece
/// trimmed and in lower case, empty names left out.
pub open spec fn names_of_pieces(pieces: Seq<Seq<char>>) -> Seq<Seq<char>>
    decreases pieces.len(),
{
    if pieces.len() == 0 {
        Seq::empty()
    } else {
        let before = names_of_pieces(pieces.drop_last());
        let name = normalized(pieces.last());
        if name.len() > 0 {
            before.push(name)
        } else {
            before
        }
    }
}

/// The ingredient names in a comma-separated list, each once, in the order
/// in which the text names them first.
pub open spec fn ingredient_list(text: Seq<char>) -> Seq<Seq<char>> {
    first_occurrences(names_of_pieces(split_on(text, ',')))
}

/// The ingredient names in an ingredient text that may be absent, in order.
pub open spec fn parsed_ingredient_list(text: Option<String>) -> Seq<Seq<char>> {
    match text {
        Some(t) => ingredient_list(t@),
        None => Seq::empty(),
    }
}

/// The lower-case form of each of `tags`, in order.
pub open spec fn lowercase_each(tags: Seq<String>) -> Seq<Seq<char>> {
    Seq::new(tags.len(), |i: int| lowercase_of(tags[i]@))
}

/// The ingredients that a product may hold, each once: first those that its
/// ingredient text names, then those it may hold traces of.
pub open spec fn candidate_list(ingredients_text: Option<String>, traces_tags: Seq<String>) -> Seq<
    Seq<char>,
> {
    with_new(
        parsed_ingredient_list(ingredients_text),
        first_occurrences(lowercase_each(traces_tags)),
    )
}

/// The ingredients that a product may hold: those named in its ingredient
/// text and those it may hold traces of.
pub open spec fn candidate_set(ingredients_text: Option<String>, traces_tags: Seq<String>) -> Set<
    Seq<char>,
> {
    parsed_ingredients(ingredients_text).union(lowercased(traces_tags))
}

/// The ingredient names in `text`, split at commas, trimmed and in lower
/// case. Empty names are left out; a missing text gives the empty set.
pub fn parse_ingredients(text: Option<String>) -> (names: NameSet)
    ensures
        names@ == parsed_ingredients(text),
        names.names() == parsed_ingredient_list(text),
{
    let mut names = NameSet::new();
    match text {
        None => {},
        Some(t) => {
            let pieces = split(t.as_str(), ',');
            let ghost all = split_on(t@, ',');
            let mut i: usize = 0;
            while i < pieces.len()
                invariant
                    i <= pieces@.len(),
                    views_of(pieces@) == all,
                    all == split_on(t@, ','),
                    names.wf(),
                    names.names() == first_occurrences(names_of_pieces(all.take(i as int))),
                    forall|name: Seq<char>|
                        names@.contains(name) <==> name.len() > 0 && exists|j: int|
                            0 <= j < i && name == normalized(#[trigger] all[j]),
                decreases pieces@.len() - i,
            {
                let name = to_lowercase(trim(pieces[i].as_str()).as_str());
                assert(name@ == normalized(all[i as int]));
                proof {
                    assert(all.take(i + 1).drop_last() =~= all.take(i as int));
                }
                if !name.as_str().is_empty() {
                    proof {
                        let listed = names_of_pieces(all.take(i as int));
                        assert(listed.push(name@).drop_last() =~= listed);
                    }
                    names.insert(name);
                }
                i = i + 1;
            }
            assert(all.take(all.len() as int) =~= all);
        },
    }
    names
}

/// The lower-case forms of `tags`, as a set.
pub fn lowercase_all(tags: &Vec<String>) -> (names: NameSet)
    ensures
        names@ == lowercased(tags@),
        names.names() == first_occurrences(lowercase_each(tags@)),
{
    let mut names = NameSet::new();
    let mut i: usize = 0;
    while i < tags.len()
        invariant
            i <= tags@.len(),
            names.wf(),
            names.names() == first_occurrences(lowercase_each(tags@.take(i as int))),
            forall|name: Seq<char>|
                names@.contains(name) <==> exists|j: int|
                    0 <= j < i && name == lowercase_of(#[trigger] tags@[j]@),
        decreases tags@.len() - i,
    {
        let name = to_lowercase(tags[i].as_str());
        proof {
            let listed = lowercase_each(tags@.take(i as int));
            assert(lowercase_each(tags@.take(i + 1)) =~= listed.push(name@));
            assert(listed.push(name@).drop_last() =~= listed);
        }
        names.insert(name);
        i = i + 1;
    }
    assert(tags@.take(tags@.len() as int) =~= tags@);
    names
}

/// The ingredients that a product may hold: those named in its ingredient
/// text and those it may hold traces of.
pub fn candidate_ingredients(ingredients_text: Option<String>, traces_tags: &Vec<String>) -> (names:
    NameSet)
    ensures
        names@ == candidate_set(ingredients_text, traces_tags@),
        names.names() == candidate_list(ingredients_text, traces_tags@),
{
    let mut names = parse_ingredients(ingredients_text);
    let traces = lowercase_all(traces_tags);
    names.extend(&traces);
    names
}

impl ConflictSets {
    /// The status that these sets give.
    pub fn status(&self) -> (status: SafetyStatus)
        ensures
            status == status_of(
                self.conflicting_allergens@,
                self.trace_allergens@,
                self.conflicting_diets@,
            ),
    {
        if !self.conflicting_allergens.is_empty() || !self.conflicting_diets.is_empty() {
            SafetyStatus::Unsafe
        } else if !self.trace_allergens.is_empty() {
            SafetyStatus::Caution
        } else {
            SafetyStatus::Safe
        }
    }

    /// The verdict that these sets give, with the sets as lists without
    /// repetition.
    pub fn into_result(self) -> (result: CheckResult)
        ensures
            result@ == verdict_of(
                self.conflicting_allergens@,
                self.trace_allergens@,
                self.conflicting_diets@,
            ),
            names_each_conflict_once(result),
    {
        let status = self.status();
        CheckResult {
            status,
            conflicting_allergens: self.conflicting_allergens.to_vec(),
            conflicting_diets: self.conflicting_diets.to_vec(),
            trace_allergens: self.trace_allergens.to_vec(),
            is_offline_result: false,
        }
    }
}

/// The verdict on a product of which no ingredient is known.
pub fn caution_without_ingredients() -> (result: CheckResult)
    ensures
        result@ == nothing_to_go_by(),
        result.conflicting_allergens@.len() == 0,
        result.trace_allergens@.len() == 0,
        result.conflicting_diets@.len() == 0,
        names_each_conflict_once(result),
{
    proof {
        crate::names::lemma_name_set_empty();
    }
    let result = CheckResult {
        status: SafetyStatus::Caution,
        conflicting_allergens: Vec::new(),
        conflicting_diets: Vec::new(),
        trace_allergens: Vec::new(),
        is_offline_result: false,
    };
    result
}

/// One more row adds its targets.
pub proof fn lemma_rows_targets_push(rows: Seq<ConflictRow>, row: ConflictRow, relation: Relation)
    ensures
        rows_targets(rows.push(row), relation) == rows_targets(rows, relation).union(
            name_set_of(row_targets(row, relation)),
        ),
{
    let more = rows.push(row);
    assert forall|name: Seq<char>|
        rows_targets(more, relation).contains(name) <==> rows_targets(rows, relation).union(
            name_set_of(row_targets(row, relation)),
        ).contains(name) by {
        if rows_targets(rows, relation).contains(name) {
            let i = choose|i: int|
                0 <= i < rows.len() && name_set_of(row_targets(#[trigger] rows[i], relation)).contains(
                    name,
                );
            assert(more[i] == rows[i]);
        }
        if name_set_of(row_targets(row, relation)).contains(name) {
            assert(more[rows.len() as int] == row);
        }
    }
}

/// No rows, no targets.
pub proof fn lemma_rows_targets_empty(relation: Relation)
    ensures
        rows_targets(Seq::<ConflictRow>::empty(), relation) == Set::<Seq<char>>::empty(),
{
}

/// The conflict sets that the knowledge base's answer gives: for each kind of
/// relation, every target that some row lists.
pub fn accumulate(rows: &Vec<ConflictRow>) -> (sets: ConflictSets)
    ensures
        sets.conflicting_allergens@ == rows_targets(rows@, Relation::IsAllergen),
        sets.trace_allergens@ == rows_targets(rows@, Relation::MayContainTrace),
        sets.conflicting_diets@ == rows_targets(rows@, Relation::ConflictsWithDiet),
{
    let mut conflicting_allergens = NameSet::new();
    let mut trace_allergens = NameSet::new();
    let mut conflicting_diets = NameSet::new();
    let mut i: usize = 0;
    proof {
        lemma_rows_targets_empty(Relation::IsAllergen);
        lemma_rows_targets_empty(Relation::MayContainTrace);
        lemma_rows_targets_empty(Relation::ConflictsWithDiet);
    }
    while i < rows.len()
        invariant
            i <= rows@.len(),
            conflicting_allergens.wf(),
            trace_allergens.wf(),
            conflicting_diets.wf(),
            conflicting_allergens@ == rows_targets(rows@.take(i as int), Relation::IsAllergen),
            trace_allergens@ == rows_targets(rows@.take(i as int), Relation::MayContainTrace),
            conflicting_diets@ == rows_targets(rows@.take(i as int), Relation::ConflictsWithDiet),
        decreases rows@.len() - i,
    {
        let row = &rows[i];
        proof {
            assert(rows@.take(i + 1) =~= rows@.take(i as int).push(rows@[i as int]));
            lemma_rows_targets_push(rows@.take(i as int), rows@[i as int], Relation::IsAllergen);
            lemma_rows_targets_push(
                rows@.take(i as int),
                rows@[i as int],
                Relation::MayContainTrace,
            );
            lemma_rows_targets_push(
                rows@.take(i as int),
                rows@[i as int],
                Relation::ConflictsWithDiet,
            );
        }
        conflicting_allergens.extend_from(&row.conflicting_allergens);
        trace_allergens.extend_from(&row.trace_allergens);
        conflicting_diets.extend_from(&row.conflicting_diets);
        i = i + 1;
    }
    assert(rows@.take(rows@.len() as int) =~= rows@);
    ConflictSets { conflicting_allergens, trace_allergens, conflicting_diets }
}

/// The verdict on a product with the candidate ingredients `candidates`, from
/// what the knowledge base answered for them. A product without candidates
/// calls for caution, whatever the rows hold.
pub fn resolve_rows(candidates: &NameSet, rows: &Vec<ConflictRow>) -> (result: CheckResult)
    ensures
        result@ == verdict_from_rows(candidates@, rows@),
        names_each_conflict_once(result),
{
    if candidates.is_empty() {
        caution_without_ingredients()
    } else {
        accumulate(rows).into_result()
    }
}

/// One more edge adds its target if the edge matches.
pub proof fn lemma_related_push(
    edges: Seq<GraphEdge>,
    edge: GraphEdge,
    ingredients: Set<Seq<char>>,
    relation: Relation,
    allowed: Set<Seq<char>>,
)
    ensures
        edge_matches(edge, ingredients, relation, allowed) ==> related(
            edges.push(edge),
            ingredients,
            relation,
            allowed,
        ) == related(edges, ingredients, relation, allowed).insert(edge.target@),
        !edge_matches(edge, ingredients, relation, allowed) ==> related(
            edges.push(edge),
            ingredients,
            relation,
            allowed,
        ) == related(edges, ingredients, relation, allowed),
{
    let more = edges.push(edge);
    let before = related(edges, ingredients, relation, allowed);
    let after = related(more, ingredients, relation, allowed);
    assert forall|name: Seq<char>| before.contains(name) implies after.contains(name) by {
        let i = choose|i: int|
            0 <= i < edges.len() && edge_matches(#[trigger] edges[i], ingredients, relation, allowed)
                && edges[i].target@ == name;
        assert(more[i] == edges[i]);
    }
    assert forall|name: Seq<char>| after.contains(name) implies before.contains(name) || (
    edge_matches(edge, ingredients, relation, allowed) && name == edge.target@) by {
    }
    if edge_matches(edge, ingredients, relation, allowed) {
        assert(more[edges.len() as int] == edge);
    }
}

/// No edges, nothing related.
pub proof fn lemma_related_empty(
    ingredients: Set<Seq<char>>,
    relation: Relation,
    allowed: Set<Seq<char>>,
)
    ensures
        related(Seq::<GraphEdge>::empty(), ingredients, relation, allowed) == Set::<
            Seq<char>,
        >::empty(),
{
}

impl KnowledgeGraph {
    /// The user's allergens and diets that the graph relates to one of
    /// `candidates`.
    pub fn conflicts(
        &self,
        candidates: &NameSet,
        user_allergens: &NameSet,
        user_diets: &NameSet,
    ) -> (sets: ConflictSets)
        ensures
            sets.conflicting_allergens@ == related(
                self.edges@,
                candidates@,
                Relation::IsAllergen,
                user_allergens@,
            ),
            sets.trace_allergens@ == related(
                self.edges@,
                candidates@,
                Relation::MayContainTrace,
                user_allergens@,
            ),
            sets.conflicting_diets@ == related(
                self.edges@,
                candidates@,
                Relation::ConflictsWithDiet,
                user_diets@,
            ),
    {
        let mut conflicting_allergens = NameSet::new();
        let mut trace_allergens = NameSet::new();
        let mut conflicting_diets = NameSet::new();
        let mut i: usize = 0;
        proof {
            lemma_related_empty(candidates@, Relation::IsAllergen, user_allergens@);
            lemma_related_empty(candidates@, Relation::MayContainTrace, user_allergens@);
            lemma_related_empty(candidates@, Relation::ConflictsWithDiet, user_diets@);
        }
        while i < self.edges.len()
            invariant
                i <= self.edges@.len(),
                conflicting_allergens.wf(),
                trace_allergens.wf(),
                conflicting_diets.wf(),
                conflicting_allergens@ == related(
                    self.edges@.take(i as int),
                    candidates@,
                    Relation::IsAllergen,
                    user_allergens@,
                ),
                trace_allergens@ == related(
                    self.edges@.take(i as int),
                    candidates@,
                    Relation::MayContainTrace,
                    user_allergens@,
                ),
                conflicting_diets@ == related(
                    self.edges@.take(i as int),
                    candidates@,
                    Relation::ConflictsWithDiet,
                    user_diets@,
                ),
            decreases self.edges@.len() - i,
        {
            let edge = &self.edges[i];
            proof {
                let seen = self.edges@.take(i as int);
                assert(self.edges@.take(i + 1) =~= seen.push(self.edges@[i as int]));
                lemma_related_push(
                    seen,
                    self.edges@[i as int],
                    candidates@,
                    Relation::IsAllergen,
                    user_allergens@,
                );
                lemma_related_push(
                    seen,
                    self.edges@[i as int],
                    candidates@,
                    Relation::MayContainTrace,
                    user_allergens@,
                );
                lemma_related_push(
                    seen,
                    self.edges@[i as int],
                    candidates@,
                    Relation::ConflictsWithDiet,
                    user_diets@,
                );
            }
            if candidates.contains(edge.ingredient.as_str()) {
                match edge.relation {
                    Relation::IsAllergen => {
                        if user_allergens.contains(edge.target.as_str()) {
                            conflicting_allergens.insert(edge.target.clone());
                        }
                    },
                    Relation::MayContainTrace => {
                        if user_allergens.contains(edge.target.as_str()) {
                            trace_allergens.insert(edge.target.clone());
                        }
                    },
                    Relation::ConflictsWithDiet => {
                        if user_diets.contains(edge.target.as_str()) {
                            conflicting_diets.insert(edge.target.clone());
                        }
                    },
                }
            }
            i = i + 1;
        }
        assert(self.edges@.take(self.edges@.len() as int) =~= self.edges@);
        ConflictSets { conflicting_allergens, trace_allergens, conflicting_diets }
    }
}

/// The verdict on a product with the candidate ingredients `candidates`, for a
/// user with these allergens and diets, by the relations of `graph`. A product
/// without candidates calls for caution.
pub fn resolve(
    candidates: &NameSet,
    user_allergens: &NameSet,
    user_diets: &NameSet,
    graph: &KnowledgeGraph,
) -> (result: CheckResult)
    ensures
        result@ == resolution(candidates@, user_allergens@, user_diets@, graph.edges@),
        names_each_conflict_once(result),
{
    if candidates.is_empty() {
        caution_without_ingredients()
    } else {
        graph.conflicts(candidates, user_allergens, user_diets).into_result()
    }
}

/// The set of the user's allergens or diets that an edge of the given kind
/// may point at.
pub open spec fn allowed_targets(
    relation: Relation,
    user_allergens: Set<Seq<char>>,
    user_diets: Set<Seq<char>>,
) -> Set<Seq<char>> {
    match relation {
        Relation::ConflictsWithDiet => user_diets,
        _ => user_allergens,
    }
}

/// A product with at least one candidate ingredient, none of which the graph
/// relates to an allergen or a diet of the user, is safe, and no conflict is
/// named.
pub proof fn law_no_match_is_safe(
    candidates: Set<Seq<char>>,
    user_allergens: Set<Seq<char>>,
    user_diets: Set<Seq<char>>,
    edges: Seq<GraphEdge>,
)
    requires
        candidates != Set::<Seq<char>>::empty(),
        forall|i: int|
            0 <= i < edges.len() ==> !edge_matches(
                #[trigger] edges[i],
                candidates,
                edges[i].relation,
                allowed_targets(edges[i].relation, user_allergens, user_diets),
            ),
    ensures
        resolution(candidates, user_allergens, user_diets, edges) == (Verdict {
            status: SafetyStatus::Safe,
            conflicting_allergens: Set::empty(),
            trace_allergens: Set::empty(),
            conflicting_diets: Set::empty(),
            is_offline_result: false,
        }),
{
    let ca = related(edges, candidates, Relation::IsAllergen, user_allergens);
    let ta = related(edges, candidates, Relation::MayContainTrace, user_allergens);
    let cd = related(edges, candidates, Relation::ConflictsWithDiet, user_diets);
    assert(ca =~= Set::<Seq<char>>::empty());
    assert(ta =~= Set::<Seq<char>>::empty());
    assert(cd =~= Set::<Seq<char>>::empty());
}

/// Where a verdict names a conflicting allergen or a conflicting diet, its
/// status is `Unsafe`, whatever traces it names.
pub proof fn law_conflict_is_unsafe(
    candidates: Set<Seq<char>>,
    user_allergens: Set<Seq<char>>,
    user_diets: Set<Seq<char>>,
    edges: Seq<GraphEdge>,
)
    requires
        resolution(candidates, user_allergens, user_diets, edges).conflicting_allergens
            != Set::<Seq<char>>::empty() || resolution(
            candidates,
            user_allergens,
            user_diets,
            edges,
        ).conflicting_diets != Set::<Seq<char>>::empty(),
    ensures
        resolution(candidates, user_allergens, user_diets, edges).status == SafetyStatus::Unsafe,
{
}

/// Where a verdict names traces and nothing else, its status is `Caution`.
pub proof fn law_traces_alone_call_for_caution(
    candidates: Set<Seq<char>>,
    user_allergens: Set<Seq<char>>,
    user_diets: Set<Seq<char>>,
    edges: Seq<GraphEdge>,
)
    requires
        resolution(candidates, user_allergens, user_diets, edges).conflicting_allergens
            == Set::<Seq<char>>::empty(),
        resolution(candidates, user_allergens, user_diets, edges).conflicting_diets == Set::<
            Seq<char>,
        >::empty(),
        resolution(candidates, user_allergens, user_diets, edges).trace_allergens != Set::<
            Seq<char>,
        >::empty(),
    ensures
        resolution(candidates, user_allergens, user_diets, edges).status == SafetyStatus::Caution,
{
}

/// Without candidate ingredients the verdict is `Caution` with no conflict
/// named, whatever the user's allergens and diets and whatever the graph
/// holds.
pub proof fn law_no_candidates_call_for_caution(
    user_allergens: Set<Seq<char>>,
    user_diets: Set<Seq<char>>,
    edges: Seq<GraphEdge>,
)
    ensures
        resolution(Set::empty(), user_allergens, user_diets, edges) == (Verdict {
            status: SafetyStatus::Caution,
            conflicting_allergens: Set::empty(),
            trace_allergens: Set::empty(),
            conflicting_diets: Set::empty(),
            is_offline_result: false,
        }),
{
}

/// The same laws for a verdict that is drawn from the knowledge base's
/// answer: rows that list nothing give `Safe`; a listed allergen or diet gives
/// `Unsafe`; listed traces alone give `Caution`; no candidates give `Caution`.
pub proof fn law_verdict_from_rows(candidates: Set<Seq<char>>, rows: Seq<ConflictRow>)
    ensures
        ({
            let v = verdict_from_rows(candidates, rows);
            &&& candidates == Set::<Seq<char>>::empty() ==> v == nothing_to_go_by()
            &&& v.conflicting_allergens != Set::<Seq<char>>::empty() || v.conflicting_diets
                != Set::<Seq<char>>::empty() ==> v.status == SafetyStatus::Unsafe
            &&& v.conflicting_allergens == Set::<Seq<char>>::empty() && v.conflicting_diets
                == Set::<Seq<char>>::empty() && v.trace_allergens != Set::<Seq<char>>::empty()
                ==> v.status == SafetyStatus::Caution
            &&& candidates != Set::<Seq<char>>::empty() && (forall|i: int, relation: Relation|
                0 <= i < rows.len() ==> (#[trigger] row_targets(rows[i], relation)).len() == 0)
                ==> v.status == SafetyStatus::Safe && v.conflicting_allergens == Set::<
                Seq<char>,
            >::empty() && v.trace_allergens == Set::<Seq<char>>::empty() && v.conflicting_diets
                == Set::<Seq<char>>::empty()
        }),
{
    if candidates != Set::<Seq<char>>::empty() && (forall|i: int, relation: Relation|
        0 <= i < rows.len() ==> (#[trigger] row_targets(rows[i], relation)).len() == 0) {
        assert forall|relation: Relation|
            rows_targets(rows, relation) == Set::<Seq<char>>::empty() by {
            assert forall|name: Seq<char>| !rows_targets(rows, relation).contains(name) by {
                if rows_targets(rows, relation).contains(name) {
                    let i = choose|i: int|
                        0 <= i < rows.len() && name_set_of(
                            row_targets(#[trigger] rows[i], relation),
                        ).contains(name);
                    lemma_name_set_contains(row_targets(rows[i], relation), name);
                }
            }
        }
    }
}

} // verus!
