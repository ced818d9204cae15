//! Running a write protocol against the store, statement by statement.
//!
//! A store that does not fail of its own does to a write what
//! [`crate::results`] says. A store that does, at whatever statement, leaves
//! the write whole or undone: what was committed before is committed after,
//! unless the write succeeded.

use vstd::prelude::*;
use crate::constraints::lemma_cleared;
use crate::failure::Fault;
use crate::mapping::new_rows;
use crate::model::{RecipeContentView, StoredRecipeView};
use crate::protocol::{CreateRecipeView, DeleteRecipe, StepView, UpdateRecipeView};
use crate::results::{create_result, delete_result, update_result};
use crate::statement::{ReplyView, StatementView};
use crate::tables::{has_recipe, position_of, DatabaseView};

verus! {

/// The statements that a store fails for reasons of its own, a lost
/// connection for one, each with what the store then says.
pub type Faults = spec_fn(StatementView) -> Option<Seq<char>>;

/// A store that fails no statement of its own.
pub open spec fn no_faults() -> Faults {
    |statement: StatementView| None
}

/// What a statement does to a store with faults: where the store fails it,
/// nothing.
pub open spec fn execute_under(db: DatabaseView, statement: StatementView, faults: Faults) -> (
    DatabaseView,
    ReplyView,
) {
    match faults(statement) {
        Some(cause) => (db, ReplyView::Failed(cause)),
        None => db.execute(statement),
    }
}

/// The store and the result after a create has run from `state` on, its
/// next statement being `statement`. A transaction left open is thrown away.
pub open spec fn run_create(
    db: DatabaseView,
    statement: StatementView,
    state: CreateRecipeView,
    faults: Faults,
) -> (DatabaseView, Result<StoredRecipeView, Fault>)
    decreases state.remaining(),
{
    let (after, reply) = execute_under(db, statement, faults);
    match state.step(reply) {
        StepView::Run(next_statement, next_state) => run_create(
            after,
            next_statement,
            next_state,
            faults,
        ),
        StepView::Finish(result) => (after.abandoned(), result),
    }
}

/// The store and the result after an update has run from `state` on.
pub open spec fn run_update(
    db: DatabaseView,
    statement: StatementView,
    state: UpdateRecipeView,
    faults: Faults,
) -> (DatabaseView, Result<StoredRecipeView, Fault>)
    decreases state.remaining(),
{
    let (after, reply) = execute_under(db, statement, faults);
    match state.step(reply) {
        StepView::Run(next_statement, next_state) => run_update(
            after,
            next_statement,
            next_state,
            faults,
        ),
        StepView::Finish(result) => (after.abandoned(), result),
    }
}

/// The store and the result after a delete has run from `state` on.
pub open spec fn run_delete(
    db: DatabaseView,
    statement: StatementView,
    state: DeleteRecipe,
    faults: Faults,
) -> (DatabaseView, Result<(), Fault>)
    decreases state.remaining(),
{
    let (after, reply) = execute_under(db, statement, faults);
    match state.next(reply) {
        StepView::Run(next_statement, next_state) => run_delete(
            after,
            next_statement,
            next_state,
            faults,
        ),
        StepView::Finish(result) => (after.abandoned(), result),
    }
}

/// A create that runs from its start does what `create_result` says.
pub proof fn lemma_run_create(db: DatabaseView, content: RecipeContentView)
    requires
        db.wf(),
        db.open is None,
    ensures
        run_create(db, StatementView::Begin, CreateRecipeView::Opening(content), no_faults())
            == create_result(db, content),
{
    reveal_with_fuel(run_create, 5);
    let (db1, reply1) = db.execute(StatementView::Begin);
    let s1 = CreateRecipeView::Opening(content).step(reply1);
    assert(s1 is Run);
    let (db2, reply2) = db1.execute(s1->Run_0);
    if db.next_recipe_id <= i32::MAX {
        let count = content.ingredients.len();
        if count == 0 {
        } else if count > i32::MAX {
        } else {
            let row = reply2->Recipe_0;
            let rows = new_rows(row.recipe_id, content.ingredients);
            let recipes = db.committed.recipes.push(row);
            assert(recipes[recipes.len() - 1].recipe_id == row.recipe_id);
            assert(has_recipe(recipes, row.recipe_id));
            assert(forall|k: int| 0 <= k < rows.len() ==> (#[trigger] rows[k]).recipe_id == row.recipe_id);
        }
    }
}

/// An update that runs from its start does what `update_result` says.
pub proof fn lemma_run_update(db: DatabaseView, recipe_id: i32, content: RecipeContentView)
    requires
        db.wf(),
        db.open is None,
    ensures
        run_update(
            db,
            StatementView::Begin,
            UpdateRecipeView::Opening(recipe_id, content),
            no_faults(),
        ) == update_result(db, recipe_id, content),
{
    reveal_with_fuel(run_update, 6);
    let (db1, reply1) = db.execute(StatementView::Begin);
    let s1 = UpdateRecipeView::Opening(recipe_id, content).step(reply1);
    assert(s1 is Run);
    let (db2, reply2) = db1.execute(s1->Run_0);
    if has_recipe(db.committed.recipes, recipe_id) {
        let count = content.ingredients.len();
        if count == 0 {
        } else if count > i32::MAX {
        } else {
            let row = reply2->Recipe_0;
            let at = position_of(db.committed.recipes, recipe_id);
            let rows = new_rows(row.recipe_id, content.ingredients);
            let recipes = db.committed.recipes.update(at, row);
            assert(recipes[at].recipe_id == row.recipe_id);
            assert(has_recipe(recipes, row.recipe_id));
            assert(forall|k: int| 0 <= k < rows.len() ==> (#[trigger] rows[k]).recipe_id == row.recipe_id);
        }
    } else {
        assert(db1.abandoned() == db);
    }
}

/// A delete that runs from its start does what `delete_result` says.
pub proof fn lemma_run_delete(db: DatabaseView, recipe_id: i32)
    requires
        db.wf(),
        db.open is None,
    ensures
        run_delete(db, StatementView::Begin, DeleteRecipe::Opening(recipe_id), no_faults())
            == delete_result(db, recipe_id),
{
    reveal_with_fuel(run_delete, 5);
    lemma_cleared(db.committed.ingredients, recipe_id);
    let (db1, reply1) = db.execute(StatementView::Begin);
    assert(db1.abandoned() == db);
}

/// Whatever the store fails, a create is whole or undone: no transaction
/// stays open, a create that fails leaves the committed tables as they were,
/// and one that succeeds has done what `create_result` says.
pub proof fn lemma_create_is_atomic(db: DatabaseView, content: RecipeContentView, faults: Faults)
    requires
        db.wf(),
        db.open is None,
    ensures
        ({
            let (after, result) = run_create(
                db,
                StatementView::Begin,
                CreateRecipeView::Opening(content),
                faults,
            );
            &&& after.open is None
            &&& result is Err ==> after.committed == db.committed
            &&& result is Ok ==> (after, result) == create_result(db, content)
        }),
{
    reveal_with_fuel(run_create, 5);
    let (db1, reply1) = execute_under(db, StatementView::Begin, faults);
    let s1 = CreateRecipeView::Opening(content).step(reply1);
    if faults(StatementView::Begin) is None {
        let (db2, reply2) = execute_under(db1, s1->Run_0, faults);
        if faults(s1->Run_0) is None && db.next_recipe_id <= i32::MAX {
            let s2 = s1->Run_1.step(reply2);
            let count = content.ingredients.len();
            if 0 < count <= i32::MAX {
                let row = reply2->Recipe_0;
                let rows = new_rows(row.recipe_id, content.ingredients);
                let recipes = db.committed.recipes.push(row);
                assert(recipes[recipes.len() - 1].recipe_id == row.recipe_id);
                assert(has_recipe(recipes, row.recipe_id));
                assert(forall|k: int|
                    0 <= k < rows.len() ==> (#[trigger] rows[k]).recipe_id == row.recipe_id);
                let (db3, reply3) = execute_under(db2, s2->Run_0, faults);
                if faults(s2->Run_0) is None && reply3 is Ingredients {
                    let s3 = s2->Run_1.step(reply3);
                    let (db4, reply4) = execute_under(db3, s3->Run_0, faults);
                }
            } else if count == 0 {
                let (db3, reply3) = execute_under(db2, s2->Run_0, faults);
            }
        }
    }
}

/// Whatever the store fails, an update is whole or undone.
pub proof fn lemma_update_is_atomic(
    db: DatabaseView,
    recipe_id: i32,
    content: RecipeContentView,
    faults: Faults,
)
    requires
        db.wf(),
        db.open is None,
    ensures
        ({
            let (after, result) = run_update(
                db,
                StatementView::Begin,
                UpdateRecipeView::Opening(recipe_id, content),
                faults,
            );
            &&& after.open is None
            &&& result is Err ==> after.committed == db.committed
            &&& result is Ok ==> (after, result) == update_result(db, recipe_id, content)
        }),
{
    reveal_with_fuel(run_update, 6);
    let (db1, reply1) = execute_under(db, StatementView::Begin, faults);
    let s1 = UpdateRecipeView::Opening(recipe_id, content).step(reply1);
    if faults(StatementView::Begin) is None {
        assert(db1.abandoned() == db);
        let (db2, reply2) = execute_under(db1, s1->Run_0, faults);
        if faults(s1->Run_0) is None && has_recipe(db.committed.recipes, recipe_id) {
            let s2 = s1->Run_1.step(reply2);
            let (db3, reply3) = execute_under(db2, s2->Run_0, faults);
            if faults(s2->Run_0) is None {
                let s3 = s2->Run_1.step(reply3);
                let count = content.ingredients.len();
                if 0 < count <= i32::MAX {
                    let row = reply2->Recipe_0;
                    let at = position_of(db.committed.recipes, recipe_id);
                    let rows = new_rows(row.recipe_id, content.ingredients);
                    let recipes = db.committed.recipes.update(at, row);
                    assert(recipes[at].recipe_id == row.recipe_id);
                    assert(has_recipe(recipes, row.recipe_id));
                    assert(forall|k: int|
                        0 <= k < rows.len() ==> (#[trigger] rows[k]).recipe_id == row.recipe_id);
                    let (db4, reply4) = execute_under(db3, s3->Run_0, faults);
                    if faults(s3->Run_0) is None && reply4 is Ingredients {
                        let s4 = s3->Run_1.step(reply4);
                        let (db5, reply5) = execute_under(db4, s4->Run_0, faults);
                    }
                } else if count == 0 {
                    let (db4, reply4) = execute_under(db3, s3->Run_0, faults);
                }
            }
        }
    }
}

/// Whatever the store fails, a delete is whole or undone.
pub proof fn lemma_delete_is_atomic(db: DatabaseView, recipe_id: i32, faults: Faults)
    requires
        db.wf(),
        db.open is None,
    ensures
        ({
            let (after, result) = run_delete(
                db,
                StatementView::Begin,
                DeleteRecipe::Opening(recipe_id),
                faults,
            );
            &&& after.open is None
            &&& result is Err ==> after == db
            &&& result is Ok ==> (after, result) == delete_result(db, recipe_id)
        }),
{
    reveal_with_fuel(run_delete, 5);
    lemma_cleared(db.committed.ingredients, recipe_id);
    let (db1, reply1) = execute_under(db, StatementView::Begin, faults);
    if faults(StatementView::Begin) is None {
        assert(db1.abandoned() == db);
        let s1 = StatementView::DeleteIngredients(recipe_id);
        let (db2, reply2) = execute_under(db1, s1, faults);
        if faults(s1) is None {
            let s2 = StatementView::DeleteRecipe(recipe_id);
            let (db3, reply3) = execute_under(db2, s2, faults);
            if faults(s2) is None {
                let s3 = DeleteRecipe::DeletingRecipe.next(reply3);
                let (db4, reply4) = execute_under(db3, s3->Run_0, faults);
            }
        }
    }
}

} // verus!
