//! What holds of the repository, whatever is stored and whatever is
//! submitted.

use vstd::prelude::*;
use crate::constraints::{lemma_cleared, lemma_ingredient_rows};
use crate::failure::{fault_message, Fault};
use crate::mapping::{composed, new_rows};
use crate::model::{
    satisfies, stored_cooking_time, stores, CriteriaView, RecipeContentView, RecipeView,
    StoredRecipeView,
};
use crate::protocol::{CreateRecipeView, DeleteRecipe, StepView, UpdateRecipeView};
use crate::refinement::{
    at_rest, lemma_create, lemma_delete, lemma_listed, lemma_stored_recipes, lemma_update,
    stored_recipes,
};
use crate::repository::{creates, deletes, distinct, has_stored, satisfying, updates};
use crate::results::{create_result, delete_result, unknown, update_result};
use crate::sequences::{lemma_filter_all, lemma_filter_members};
use crate::service::{created, domain_recipes};
use crate::statement::{RecipeRowView, ReplyView, StatementView};
use crate::tables::{has_recipe, ingredient_rows, not_owned_by, position_of, DatabaseView};
use crate::text::{contains_term, fold, matches_at};

verus! {

/// A recipe that was created is listed, and what is listed is what was
/// submitted: as many ingredients, each with the submitted name, quantity
/// and unit, each owned by the recipe, each with its list index as its
/// order.
pub proof fn lemma_create_round_trip(
    before: Seq<StoredRecipeView>,
    content: RecipeContentView,
    stored: StoredRecipeView,
    after: Seq<StoredRecipeView>,
)
    requires
        creates(before, content, Ok(stored), after),
    ensures
        after.len() == before.len() + 1,
        after.last() == stored,
        has_stored(after, stored.recipe_id),
        stored.ingredients.len() == content.ingredients.len(),
        forall|i: int|
            0 <= i < content.ingredients.len() ==> {
                let ingredient = #[trigger] stored.ingredients[i];
                &&& ingredient.ingredient_order == i
                &&& ingredient.recipe_id == stored.recipe_id
                &&& ingredient.content() == content.ingredients[i]
            },
        stored.recipe().ingredients == content.ingredients,
{
    assert(after[after.len() - 1].recipe_id == stored.recipe_id);
    assert(stored.recipe().ingredients =~= content.ingredients);
}

/// In the store in memory, a recipe that is created is what a listing then
/// ends with, and it stores what was submitted.
pub proof fn lemma_create_then_list(db: DatabaseView, content: RecipeContentView)
    requires
        at_rest(db),
        create_result(db, content).1 is Ok,
    ensures
        stored_recipes(create_result(db, content).0.committed).last() == create_result(
            db,
            content,
        ).1->Ok_0,
        stores(create_result(db, content).1->Ok_0, content),
{
    lemma_create(db, content);
}

/// Creating a recipe without ingredients succeeds wherever the recipe can
/// be numbered at all, and the recipe then has the empty list.
pub proof fn lemma_create_without_ingredients(db: DatabaseView, content: RecipeContentView)
    requires
        at_rest(db),
        content.ingredients.len() == 0,
        db.next_recipe_id <= i32::MAX,
    ensures
        create_result(db, content).1 is Ok,
        create_result(db, content).1->Ok_0.ingredients.len() == 0,
        create_result(db, content).0.committed.ingredients == db.committed.ingredients,
{
}

/// Updating a recipe that exists to have no ingredients succeeds, and the
/// recipe then has the empty list.
pub proof fn lemma_update_without_ingredients(
    db: DatabaseView,
    recipe_id: i32,
    content: RecipeContentView,
)
    requires
        at_rest(db),
        content.ingredients.len() == 0,
        has_recipe(db.committed.recipes, recipe_id),
    ensures
        update_result(db, recipe_id, content).1 is Ok,
        update_result(db, recipe_id, content).1->Ok_0.ingredients.len() == 0,
        update_result(db, recipe_id, content).0.committed.ingredients_of(recipe_id).len() == 0,
{
    lemma_cleared(db.committed.ingredients, recipe_id);
}

/// With no ingredients to insert, neither write protocol sends the bulk
/// insert: it goes on to commit.
pub proof fn lemma_empty_list_skips_insert(
    row: RecipeRowView,
    recipe_id: i32,
    affected: u64,
)
    ensures
        CreateRecipeView::InsertingRecipe(Seq::empty()).step(ReplyView::Recipe(row))
            == StepView::<CreateRecipeView, Result<StoredRecipeView, Fault>>::Run(
            StatementView::Commit,
            CreateRecipeView::Committing(composed(row, Seq::empty())),
        ),
        UpdateRecipeView::ClearingIngredients(row, Seq::empty()).step(ReplyView::Affected(affected))
            == StepView::<UpdateRecipeView, Result<StoredRecipeView, Fault>>::Run(
            StatementView::Commit,
            UpdateRecipeView::Committing(composed(row, Seq::empty())),
        ),
{
}

/// An update replaces: afterwards the recipe has exactly the submitted
/// ingredients, in the submitted order, and every other recipe is as it was.
pub proof fn lemma_update_replaces(
    before: Seq<StoredRecipeView>,
    recipe_id: i32,
    content: RecipeContentView,
    stored: StoredRecipeView,
    after: Seq<StoredRecipeView>,
)
    requires
        distinct(before),
        updates(before, recipe_id, content, Ok(stored), after),
    ensures
        after.len() == before.len(),
        stored.recipe().ingredients == content.ingredients,
        forall|k: int|
            0 <= k < after.len() ==> #[trigger] after[k] == if before[k].recipe_id == recipe_id {
                stored
            } else {
                before[k]
            },
{
    assert(stored.recipe().ingredients =~= content.ingredients);
    let at = choose|at: int|
        0 <= at < before.len() && (#[trigger] before[at]).recipe_id == recipe_id && after
            == before.update(at, stored);
    assert forall|k: int| 0 <= k < after.len() implies #[trigger] after[k] == if before[k].recipe_id
        == recipe_id {
        stored
    } else {
        before[k]
    } by {
        if k < at {
            assert(before[k].recipe_id != before[at].recipe_id);
        } else if at < k {
            assert(before[at].recipe_id != before[k].recipe_id);
        }
    }
}

/// In the store in memory, after an update no ingredient row that the
/// recipe had before is left, and the rows it has are the ones returned.
pub proof fn lemma_update_leaves_no_trace(
    db: DatabaseView,
    recipe_id: i32,
    content: RecipeContentView,
)
    requires
        at_rest(db),
        update_result(db, recipe_id, content).1 is Ok,
    ensures
        update_result(db, recipe_id, content).0.committed.ingredients_of(recipe_id)
            == update_result(db, recipe_id, content).1->Ok_0.ingredients,
        forall|i: int|
            0 <= i < db.committed.ingredients.len() && (
            #[trigger] db.committed.ingredients[i]).recipe_id == recipe_id ==> !update_result(
                db,
                recipe_id,
                content,
            ).0.committed.ingredients.contains(db.committed.ingredients[i]),
{
    let (after, result) = update_result(db, recipe_id, content);
    let stored = result->Ok_0;
    lemma_update(db, recipe_id, content);
    lemma_stored_recipes(after.committed);
    let at = position_of(db.committed.recipes, recipe_id);
    assert(after.committed.recipes[at].recipe_id == recipe_id);
    assert(stored_recipes(after.committed)[at] == composed(
        after.committed.recipes[at],
        after.committed.ingredients_of(recipe_id),
    ));
    let kept = db.committed.ingredients.filter(not_owned_by(recipe_id));
    lemma_filter_members(db.committed.ingredients, not_owned_by(recipe_id));
    assert forall|i: int|
        0 <= i < db.committed.ingredients.len() && (
        #[trigger] db.committed.ingredients[i]).recipe_id == recipe_id implies !after.committed.ingredients.contains(
        db.committed.ingredients[i],
    ) by {
        let old_row = db.committed.ingredients[i];
        if after.committed.ingredients.contains(old_row) {
            let j = choose|j: int|
                0 <= j < after.committed.ingredients.len() && after.committed.ingredients[j]
                    == old_row;
            if j < kept.len() {
                assert(after.committed.ingredients[j] == kept[j]);
                assert(not_owned_by(recipe_id)(kept[j]));
            } else {
                let count = content.ingredients.len();
                if count > 0 {
                    lemma_ingredient_rows(
                        db.next_ingredient_id,
                        new_rows(recipe_id, content.ingredients),
                    );
                    let rows = ingredient_rows(
                        db.next_ingredient_id,
                        new_rows(recipe_id, content.ingredients),
                    );
                    assert(after.committed.ingredients[j] == rows[j - kept.len()]);
                    assert(rows[j - kept.len()].ingredient_id >= db.next_ingredient_id);
                    assert(old_row.ingredient_id < db.next_ingredient_id);
                }
            }
        }
    }
}

/// An update or a delete that is `NotFound` found no recipe of that
/// identity and changed nothing.
pub proof fn lemma_not_found_changes_nothing(
    before: Seq<StoredRecipeView>,
    recipe_id: i32,
    content: RecipeContentView,
    after: Seq<StoredRecipeView>,
)
    ensures
        updates(before, recipe_id, content, Err(Fault::NotFound), after) ==> after == before
            && !has_stored(before, recipe_id),
        deletes(before, recipe_id, Err(Fault::NotFound), after) ==> after == before && !has_stored(
            before,
            recipe_id,
        ),
{
}

/// In the store in memory, an update or a delete of a recipe that is not
/// there is `NotFound` and leaves the store as it was, tables and sequences.
pub proof fn lemma_absent_recipe(db: DatabaseView, recipe_id: i32, content: RecipeContentView)
    requires
        !has_recipe(db.committed.recipes, recipe_id),
    ensures
        update_result(db, recipe_id, content) == (db, Err::<StoredRecipeView, Fault>(Fault::NotFound)),
        delete_result(db, recipe_id) == (db, Err::<(), Fault>(Fault::NotFound)),
{
}

/// In the store in memory, an update or a delete of a recipe that is there
/// is not `NotFound`.
pub proof fn lemma_present_recipe(db: DatabaseView, recipe_id: i32, content: RecipeContentView)
    requires
        has_recipe(db.committed.recipes, recipe_id),
    ensures
        update_result(db, recipe_id, content).1 != Err::<StoredRecipeView, Fault>(Fault::NotFound),
        delete_result(db, recipe_id).1 is Ok,
{
}

/// A write that fails leaves the tables as they were.
pub proof fn lemma_failure_changes_nothing(
    db: DatabaseView,
    recipe_id: i32,
    content: RecipeContentView,
)
    requires
        db.open is None,
    ensures
        create_result(db, content).1 is Err ==> create_result(db, content).0.committed
            == db.committed,
        update_result(db, recipe_id, content).1 is Err ==> update_result(db, recipe_id, content).0
            == db,
        delete_result(db, recipe_id).1 is Err ==> delete_result(db, recipe_id).0 == db,
{
}

/// A write protocol commits as its last statement and nowhere else: it
/// succeeds only on the reply to its commit, and once it has sent the commit
/// it sends nothing more.
pub proof fn lemma_commit_is_last(
    create: CreateRecipeView,
    update: UpdateRecipeView,
    delete: DeleteRecipe,
    reply: ReplyView,
)
    ensures
        match create.step(reply) {
            StepView::Run(statement, next) => create !is Committing && (statement
                == StatementView::Commit <==> next is Committing),
            StepView::Finish(result) => result is Ok ==> create is Committing && reply
                == ReplyView::Done,
        },
        match update.step(reply) {
            StepView::Run(statement, next) => update !is Committing && (statement
                == StatementView::Commit <==> next is Committing),
            StepView::Finish(result) => result is Ok ==> update is Committing && reply
                == ReplyView::Done,
        },
        match delete.next(reply) {
            StepView::Run(statement, next) => delete !is Committing && (statement
                == StatementView::Commit <==> next is Committing),
            StepView::Finish(result) => result is Ok ==> delete is Committing && reply
                == ReplyView::Done,
        },
{
}

/// A delete removes the recipe and leaves every other recipe as it was, in
/// order.
pub proof fn lemma_delete_removes_one(
    before: Seq<StoredRecipeView>,
    recipe_id: i32,
    after: Seq<StoredRecipeView>,
)
    requires
        deletes(before, recipe_id, Ok(()), after),
    ensures
        after.len() + 1 == before.len(),
        !has_stored(after, recipe_id),
        forall|k: int| 0 <= k < after.len() ==> before.contains(#[trigger] after[k]),
        forall|k: int|
            0 <= k < before.len() && (#[trigger] before[k]).recipe_id != recipe_id
                ==> after.contains(before[k]),
{
    let at = choose|at: int|
        0 <= at < before.len() && (#[trigger] before[at]).recipe_id == recipe_id && after
            == before.remove(at);
    assert forall|k: int| 0 <= k < after.len() implies before.contains(#[trigger] after[k]) by {
        if k < at {
            assert(before[k] == after[k]);
        } else {
            assert(before[k + 1] == after[k]);
        }
    }
    assert forall|k: int|
        0 <= k < before.len() && (#[trigger] before[k]).recipe_id != recipe_id implies after.contains(
        before[k],
    ) by {
        if k < at {
            assert(after[k] == before[k]);
        } else {
            assert(after[k - 1] == before[k]);
        }
    }
}

/// In the store in memory, a delete cascades: the recipe row goes and every
/// ingredient row that points at it; every other row of both tables stays.
pub proof fn lemma_delete_cascades(db: DatabaseView, recipe_id: i32)
    requires
        at_rest(db),
        has_recipe(db.committed.recipes, recipe_id),
    ensures
        delete_result(db, recipe_id).1 is Ok,
        !has_recipe(delete_result(db, recipe_id).0.committed.recipes, recipe_id),
        forall|i: int|
            0 <= i < delete_result(db, recipe_id).0.committed.ingredients.len() ==> (
            #[trigger] delete_result(db, recipe_id).0.committed.ingredients[i]).recipe_id
                != recipe_id,
        forall|k: int|
            0 <= k < db.committed.recipes.len() && (#[trigger] db.committed.recipes[k]).recipe_id
                != recipe_id ==> delete_result(db, recipe_id).0.committed.recipes.contains(
                db.committed.recipes[k],
            ),
        forall|i: int|
            0 <= i < db.committed.ingredients.len() && (
            #[trigger] db.committed.ingredients[i]).recipe_id != recipe_id ==> delete_result(
                db,
                recipe_id,
            ).0.committed.ingredients.contains(db.committed.ingredients[i]),
{
    let after = delete_result(db, recipe_id).0.committed;
    let at = position_of(db.committed.recipes, recipe_id);
    lemma_delete(db, recipe_id);
    lemma_listed(after, db.next_recipe_id, db.next_ingredient_id);
    lemma_filter_members(db.committed.ingredients, not_owned_by(recipe_id));
    assert forall|i: int| 0 <= i < after.ingredients.len() implies (#[trigger] after.ingredients[i]).recipe_id
        != recipe_id by {
        assert(not_owned_by(recipe_id)(after.ingredients[i]));
    }
    assert forall|k: int|
        0 <= k < db.committed.recipes.len() && (#[trigger] db.committed.recipes[k]).recipe_id
            != recipe_id implies after.recipes.contains(db.committed.recipes[k]) by {
        if k < at {
            assert(after.recipes[k] == db.committed.recipes[k]);
        } else {
            assert(after.recipes[k - 1] == db.committed.recipes[k]);
        }
    }
    assert forall|i: int|
        0 <= i < db.committed.ingredients.len() && (#[trigger] db.committed.ingredients[i]).recipe_id
            != recipe_id implies after.ingredients.contains(db.committed.ingredients[i]) by {
        db.committed.ingredients.lemma_filter_contains(not_owned_by(recipe_id), i);
    }
}

/// The criteria that filter nothing.
pub open spec fn no_criteria() -> CriteriaView {
    CriteriaView { recipe_name: None, ingredient_name: None, meal_type: None }
}

/// A search without criteria returns every recipe.
pub proof fn lemma_search_without_criteria(recipes: Seq<StoredRecipeView>)
    ensures
        recipes.filter(satisfying(no_criteria())) == recipes,
{
    lemma_filter_all(recipes, satisfying(no_criteria()));
}

/// The criteria of a search are joined by "and": a recipe satisfies them
/// exactly if it satisfies each of them alone.
pub proof fn lemma_criteria_conjoin(recipe: StoredRecipeView, criteria: CriteriaView)
    ensures
        satisfies(recipe, criteria) <==> {
            &&& satisfies(recipe, CriteriaView { recipe_name: criteria.recipe_name, ..no_criteria() })
            &&& satisfies(
                recipe,
                CriteriaView { ingredient_name: criteria.ingredient_name, ..no_criteria() },
            )
            &&& satisfies(recipe, CriteriaView { meal_type: criteria.meal_type, ..no_criteria() })
        },
{
}

/// What a search returns are exactly the stored recipes that satisfy the
/// criteria, each once, in listing order.
pub proof fn lemma_search_is_exact(recipes: Seq<StoredRecipeView>, criteria: CriteriaView)
    ensures
        forall|i: int|
            0 <= i < recipes.filter(satisfying(criteria)).len() ==> satisfies(
                #[trigger] recipes.filter(satisfying(criteria))[i],
                criteria,
            ) && recipes.contains(recipes.filter(satisfying(criteria))[i]),
        forall|k: int|
            0 <= k < recipes.len() && satisfies(#[trigger] recipes[k], criteria) ==> recipes.filter(
                satisfying(criteria),
            ).contains(recipes[k]),
{
    lemma_filter_members(recipes, satisfying(criteria));
    assert forall|k: int|
        0 <= k < recipes.len() && satisfies(#[trigger] recipes[k], criteria) implies recipes.filter(
        satisfying(criteria),
    ).contains(recipes[k]) by {
        recipes.lemma_filter_contains(satisfying(criteria), k);
    }
}

/// A term is found wherever it stands in a text.
pub proof fn lemma_contains_infix(prefix: Seq<char>, term: Seq<char>, suffix: Seq<char>)
    ensures
        contains_term(prefix + term + suffix, term),
{
    let text = prefix + term + suffix;
    assert forall|j: int| 0 <= j < term.len() implies fold(text[prefix.len() + j]) == fold(
        #[trigger] term[j],
    ) by {
        assert(text[prefix.len() + j] == term[j]);
    }
    assert(matches_at(text, term, prefix.len() as int));
}

/// Two texts that differ in the case of ASCII letters only.
pub open spec fn same_ignoring_case(a: Seq<char>, b: Seq<char>) -> bool {
    a.len() == b.len() && forall|i: int| 0 <= i < a.len() ==> fold(#[trigger] a[i]) == fold(b[i])
}

/// Matching ignores case: changing the case of ASCII letters in the text or
/// in the term does not change whether the term is found.
pub proof fn lemma_case_is_ignored(
    text: Seq<char>,
    term: Seq<char>,
    other_text: Seq<char>,
    other_term: Seq<char>,
)
    requires
        same_ignoring_case(text, other_text),
        same_ignoring_case(term, other_term),
    ensures
        contains_term(text, term) == contains_term(other_text, other_term),
{
    assert forall|at: int| matches_at(text, term, at) == matches_at(other_text, other_term, at) by {
        if matches_at(text, term, at) {
            assert forall|j: int| 0 <= j < other_term.len() implies fold(other_text[at + j])
                == fold(#[trigger] other_term[j]) by {
                assert(fold(text[at + j]) == fold(term[j]));
            }
        }
        if matches_at(other_text, other_term, at) {
            assert forall|j: int| 0 <= j < term.len() implies fold(text[at + j]) == fold(
                #[trigger] term[j],
            ) by {
                assert(fold(other_text[at + j]) == fold(other_term[j]));
            }
        }
    }
    if contains_term(text, term) {
        let at = choose|at: int| matches_at(text, term, at);
        assert(matches_at(other_text, other_term, at));
    }
    if contains_term(other_text, other_term) {
        let at = choose|at: int| matches_at(other_text, other_term, at);
        assert(matches_at(text, term, at));
    }
}

/// Until it commits, a transaction changes nothing that a reader outside it
/// sees; and thrown away, it leaves no trace in the tables.
pub proof fn lemma_uncommitted_is_invisible(db: DatabaseView, statement: StatementView)
    requires
        db.open is Some,
    ensures
        statement != StatementView::Commit ==> db.execute(statement).0.committed == db.committed,
        db.execute(statement).0.abandoned().committed == if statement == StatementView::Commit {
            db.open->Some_0
        } else {
            db.committed
        },
{
}

/// The text that reports an unknown failure names the step that failed and
/// does not depend on what the store said.
pub proof fn lemma_message_hides_cause(context: Seq<char>, cause: Seq<char>, other: Seq<char>)
    ensures
        fault_message(unknown(context, cause)) == fault_message(unknown(context, other)),
{
}

/// Through the service, too, what is created is what is then listed: the
/// recipe returned is the last of the listing, with the submitted name,
/// description, meal and ingredients, and the whole seconds of the submitted
/// cooking time.
pub proof fn lemma_service_round_trip(
    before: Seq<StoredRecipeView>,
    content: RecipeContentView,
    recipe: RecipeView,
    after: Seq<StoredRecipeView>,
)
    requires
        created(before, content, Ok(recipe), after),
    ensures
        domain_recipes(after).last() == recipe,
        recipe.name == content.name,
        recipe.description == content.description,
        recipe.meal_type == content.meal_type,
        recipe.cooking_time == stored_cooking_time(content.cooking_time),
        recipe.ingredients == content.ingredients,
{
    lemma_create_round_trip(before, content, after.last(), after);
}

} // verus!
