//! What each write does to the store when its protocol has run, stated
//! directly.
//!
//! These are the functions that the contracts of the repository in memory
//! speak of. That running a protocol statement by statement comes to the
//! same is proved in [`crate::runs`].

use vstd::prelude::*;
use crate::failure::{FailureView, Fault};
use crate::mapping::{composed, fields_of, new_rows};
use crate::model::{RecipeContentView, StoredRecipeView};
use crate::protocol::cause_too_many;
use crate::tables::{
    cause_sequence_exhausted, has_recipe, ingredient_rows, not_owned_by, position_of, recipe_row,
    DatabaseView, Tables,
};

verus! {

/// The unknown fault of the step `context` with the given cause.
pub open spec fn unknown(context: Seq<char>, cause: Seq<char>) -> Fault {
    Fault::Unknown(FailureView { context, cause })
}

/// The store after a write committed `tables`, with its sequences at the
/// given values.
pub open spec fn committed(tables: Tables, next_recipe_id: int, next_ingredient_id: int) -> DatabaseView {
    DatabaseView { committed: tables, open: None, next_recipe_id, next_ingredient_id }
}

/// Creating a recipe, where no transaction is open.
///
/// It succeeds if the recipe sequence has an identity left and the
/// ingredient sequence has one for each ingredient. Then the recipe row and
/// one row per ingredient, in list order, are appended. Otherwise the tables
/// stay as they were; an identity that was drawn for the recipe is spent.
pub open spec fn create_result(db: DatabaseView, content: RecipeContentView) -> (
    DatabaseView,
    Result<StoredRecipeView, Fault>,
) {
    let count = content.ingredients.len();
    if db.next_recipe_id > i32::MAX {
        (db, Err(unknown("Failed to insert recipe"@, cause_sequence_exhausted())))
    } else {
        let row = recipe_row(db.next_recipe_id as i32, fields_of(content));
        let recipes = db.committed.recipes.push(row);
        if count == 0 {
            (
                committed(
                    Tables { recipes, ..db.committed },
                    db.next_recipe_id + 1,
                    db.next_ingredient_id,
                ),
                Ok(composed(row, Seq::empty())),
            )
        } else if count > i32::MAX {
            (
                committed(db.committed, db.next_recipe_id + 1, db.next_ingredient_id),
                Err(unknown("Failed to create ingredients"@, cause_too_many())),
            )
        } else if db.next_ingredient_id + count > i32::MAX + 1 {
            (
                committed(db.committed, db.next_recipe_id + 1, db.next_ingredient_id),
                Err(unknown("Failed to create ingredients"@, cause_sequence_exhausted())),
            )
        } else {
            let rows = ingredient_rows(
                db.next_ingredient_id,
                new_rows(row.recipe_id, content.ingredients),
            );
            (
                committed(
                    Tables { recipes, ingredients: db.committed.ingredients + rows },
                    db.next_recipe_id + 1,
                    db.next_ingredient_id + count,
                ),
                Ok(composed(row, rows)),
            )
        }
    }
}

/// Updating a recipe, where no transaction is open.
///
/// Without a recipe row of that identity it is `NotFound` and nothing
/// changes. Otherwise it succeeds if the ingredient sequence has an identity
/// for each new ingredient: the recipe row is overwritten in place, every old
/// ingredient row of the recipe goes, and the new rows are appended in list
/// order. On failure nothing changes.
pub open spec fn update_result(db: DatabaseView, recipe_id: i32, content: RecipeContentView) -> (
    DatabaseView,
    Result<StoredRecipeView, Fault>,
) {
    let count = content.ingredients.len();
    if !has_recipe(db.committed.recipes, recipe_id) {
        (db, Err(Fault::NotFound))
    } else {
        let row = recipe_row(recipe_id, fields_of(content));
        let recipes = db.committed.recipes.update(position_of(db.committed.recipes, recipe_id), row);
        let kept = db.committed.ingredients.filter(not_owned_by(recipe_id));
        if count == 0 {
            (
                committed(
                    Tables { recipes, ingredients: kept },
                    db.next_recipe_id,
                    db.next_ingredient_id,
                ),
                Ok(composed(row, Seq::empty())),
            )
        } else if count > i32::MAX {
            (db, Err(unknown("Failed to create ingredients"@, cause_too_many())))
        } else if db.next_ingredient_id + count > i32::MAX + 1 {
            (db, Err(unknown("Failed to create ingredients"@, cause_sequence_exhausted())))
        } else {
            let rows = ingredient_rows(db.next_ingredient_id, new_rows(recipe_id, content.ingredients));
            (
                committed(
                    Tables { recipes, ingredients: kept + rows },
                    db.next_recipe_id,
                    db.next_ingredient_id + count,
                ),
                Ok(composed(row, rows)),
            )
        }
    }
}

/// Deleting a recipe, where no transaction is open.
///
/// Without a recipe row of that identity it is `NotFound` and nothing
/// changes. Otherwise the recipe row and every ingredient row of the recipe
/// go; all other rows stay, in order.
pub open spec fn delete_result(db: DatabaseView, recipe_id: i32) -> (
    DatabaseView,
    Result<(), Fault>,
) {
    if !has_recipe(db.committed.recipes, recipe_id) {
        (db, Err(Fault::NotFound))
    } else {
        (
            committed(
                Tables {
                    recipes: db.committed.recipes.remove(
                        position_of(db.committed.recipes, recipe_id),
                    ),
                    ingredients: db.committed.ingredients.filter(not_owned_by(recipe_id)),
                },
                db.next_recipe_id,
                db.next_ingredient_id,
            ),
            Ok(()),
        )
    }
}

} // verus!
