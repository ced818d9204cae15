//! The statements keep the constraints of the tables.

use vstd::prelude::*;
use crate::model::StoredIngredientView;
use crate::sequences::lemma_filter_members;
use crate::statement::{NewIngredientRowView, RecipeFieldsView, RecipeRowView, StatementView};
use crate::tables::{
    has_recipe, ingredient_rows, ingredients_ascending, not_owned_by, owned_by, position_of,
    recipe_row, recipes_ascending, DatabaseView, Tables,
};

verus! {

/// With ascending identities a row is found at one position only.
pub proof fn lemma_position_of(recipes: Seq<RecipeRowView>, recipe_id: i32, at: int)
    requires
        recipes_ascending(recipes),
        0 <= at < recipes.len(),
        recipes[at].recipe_id == recipe_id,
    ensures
        has_recipe(recipes, recipe_id),
        position_of(recipes, recipe_id) == at,
{
    let found = position_of(recipes, recipe_id);
    assert(0 <= found < recipes.len() && recipes[found].recipe_id == recipe_id);
    if found < at {
        assert(recipes[found].recipe_id < recipes[at].recipe_id);
    } else if at < found {
        assert(recipes[at].recipe_id < recipes[found].recipe_id);
    }
}

/// A filter keeps ingredient identities ascending.
pub proof fn lemma_filter_ascending(
    rows: Seq<StoredIngredientView>,
    keep: spec_fn(StoredIngredientView) -> bool,
)
    requires
        ingredients_ascending(rows),
    ensures
        ingredients_ascending(rows.filter(keep)),
    decreases rows.len(),
{
    reveal(Seq::filter);
    if rows.len() > 0 {
        let rest = rows.drop_last();
        let last = rows.last();
        assert(ingredients_ascending(rest)) by {
            assert forall|i: int, j: int| 0 <= i < j < rest.len() implies (#[trigger] rest[i]).ingredient_id
                < (#[trigger] rest[j]).ingredient_id by {
                assert(rest[i] == rows[i] && rest[j] == rows[j]);
            }
        }
        lemma_filter_ascending(rest, keep);
        lemma_filter_members(rest, keep);
        let kept = rest.filter(keep);
        if keep(last) {
            let all = kept.push(last);
            assert forall|i: int, j: int| 0 <= i < j < all.len() implies (#[trigger] all[i]).ingredient_id
                < (#[trigger] all[j]).ingredient_id by {
                if j < kept.len() {
                    assert(all[i] == kept[i] && all[j] == kept[j]);
                } else {
                    assert(all[i] == kept[i]);
                    assert(rest.contains(kept[i]));
                    let a = choose|a: int| 0 <= a < rest.len() && rest[a] == kept[i];
                    assert(rows[a] == rest[a]);
                    assert(rows[a].ingredient_id < rows[rows.len() - 1].ingredient_id);
                }
            }
        }
    }
}

/// The rows of a bulk insert carry the columns they were given, and
/// consecutive identities.
pub proof fn lemma_ingredient_rows(first_id: int, rows: Seq<NewIngredientRowView>)
    requires
        0 < first_id,
        first_id + rows.len() <= i32::MAX + 1,
    ensures
        ingredient_rows(first_id, rows).len() == rows.len(),
        forall|k: int|
            0 <= k < rows.len() ==> {
                let row = #[trigger] ingredient_rows(first_id, rows)[k];
                &&& row.ingredient_id == first_id + k
                &&& row.recipe_id == rows[k].recipe_id
                &&& row.ingredient_order == rows[k].ingredient_order
                &&& row.name == rows[k].name
                &&& row.quantity == rows[k].quantity
                &&& row.quantity_type == rows[k].quantity_type
            },
{
}

/// Whatever the statement, the store's constraints hold after it if they
/// held before.
pub proof fn lemma_execute_keeps_constraints(db: DatabaseView, statement: StatementView)
    requires
        db.wf(),
    ensures
        db.execute(statement).0.wf(),
{
    let after = db.execute(statement).0;
    let now = db.current();
    assert(now.wf(db.next_recipe_id, db.next_ingredient_id));
    match statement {
        StatementView::InsertRecipe(fields) => {
            if db.next_recipe_id <= i32::MAX {
                lemma_insert_recipe(now, db.next_recipe_id, db.next_ingredient_id, fields);
                lemma_sequences_advance(
                    db.committed,
                    db.next_recipe_id,
                    db.next_ingredient_id,
                    db.next_recipe_id + 1,
                    db.next_ingredient_id,
                );
            }
        },
        StatementView::UpdateRecipe(recipe_id, fields) => {
            if has_recipe(now.recipes, recipe_id) {
                lemma_update_recipe(now, db.next_recipe_id, db.next_ingredient_id, recipe_id, fields);
            }
        },
        StatementView::DeleteIngredients(recipe_id) => {
            lemma_delete_ingredients(now, db.next_recipe_id, db.next_ingredient_id, recipe_id);
        },
        StatementView::InsertIngredients(rows) => {
            if after != db {
                lemma_insert_ingredients(now, db.next_recipe_id, db.next_ingredient_id, rows);
                lemma_sequences_advance(
                    db.committed,
                    db.next_recipe_id,
                    db.next_ingredient_id,
                    db.next_recipe_id,
                    db.next_ingredient_id + rows.len(),
                );
            }
        },
        StatementView::DeleteRecipe(recipe_id) => {
            if after != db {
                lemma_delete_recipe(now, db.next_recipe_id, db.next_ingredient_id, recipe_id);
            }
        },
        _ => {},
    }
}

/// Constraints that hold under some sequence values hold under later ones.
pub proof fn lemma_sequences_advance(
    tables: Tables,
    next_recipe_id: int,
    next_ingredient_id: int,
    later_recipe_id: int,
    later_ingredient_id: int,
)
    requires
        tables.wf(next_recipe_id, next_ingredient_id),
        next_recipe_id <= later_recipe_id,
        next_ingredient_id <= later_ingredient_id,
    ensures
        tables.wf(later_recipe_id, later_ingredient_id),
{
}

/// A referenced recipe is still there after a row was appended.
proof fn lemma_has_recipe_after_push(recipes: Seq<RecipeRowView>, row: RecipeRowView, recipe_id: i32)
    requires
        has_recipe(recipes, recipe_id),
    ensures
        has_recipe(recipes.push(row), recipe_id),
{
    let at = position_of(recipes, recipe_id);
    assert(recipes.push(row)[at].recipe_id == recipe_id);
}

/// Appending a recipe row with the next identity keeps the constraints.
pub proof fn lemma_insert_recipe(
    tables: Tables,
    next_recipe_id: int,
    next_ingredient_id: int,
    fields: RecipeFieldsView,
)
    requires
        tables.wf(next_recipe_id, next_ingredient_id),
        0 < next_recipe_id <= i32::MAX,
    ensures
        (Tables {
            recipes: tables.recipes.push(recipe_row(next_recipe_id as i32, fields)),
            ..tables
        }).wf(next_recipe_id + 1, next_ingredient_id),
{
    let row = recipe_row(next_recipe_id as i32, fields);
    let recipes = tables.recipes.push(row);
    assert forall|i: int| 0 <= i < tables.ingredients.len() implies has_recipe(
        recipes,
        (#[trigger] tables.ingredients[i]).recipe_id,
    ) by {
        lemma_has_recipe_after_push(tables.recipes, row, tables.ingredients[i].recipe_id);
    }
}

/// Overwriting a recipe row in place keeps the constraints.
pub proof fn lemma_update_recipe(
    tables: Tables,
    next_recipe_id: int,
    next_ingredient_id: int,
    recipe_id: i32,
    fields: RecipeFieldsView,
)
    requires
        tables.wf(next_recipe_id, next_ingredient_id),
        has_recipe(tables.recipes, recipe_id),
    ensures
        (Tables {
            recipes: tables.recipes.update(
                position_of(tables.recipes, recipe_id),
                recipe_row(recipe_id, fields),
            ),
            ..tables
        }).wf(next_recipe_id, next_ingredient_id),
{
    let at = position_of(tables.recipes, recipe_id);
    let recipes = tables.recipes.update(at, recipe_row(recipe_id, fields));
    assert forall|i: int| 0 <= i < recipes.len() implies (#[trigger] recipes[i]).recipe_id
        == tables.recipes[i].recipe_id by {}
    assert forall|i: int| 0 <= i < tables.ingredients.len() implies has_recipe(
        recipes,
        (#[trigger] tables.ingredients[i]).recipe_id,
    ) by {
        let owner = position_of(tables.recipes, tables.ingredients[i].recipe_id);
        assert(recipes[owner].recipe_id == tables.ingredients[i].recipe_id);
    }
}

/// Deleting the ingredient rows of one recipe keeps the constraints.
pub proof fn lemma_delete_ingredients(
    tables: Tables,
    next_recipe_id: int,
    next_ingredient_id: int,
    recipe_id: i32,
)
    requires
        tables.wf(next_recipe_id, next_ingredient_id),
    ensures
        (Tables { ingredients: tables.ingredients.filter(not_owned_by(recipe_id)), ..tables }).wf(
            next_recipe_id,
            next_ingredient_id,
        ),
{
    let kept = tables.ingredients.filter(not_owned_by(recipe_id));
    lemma_filter_ascending(tables.ingredients, not_owned_by(recipe_id));
    lemma_filter_members(tables.ingredients, not_owned_by(recipe_id));
    assert forall|i: int| 0 <= i < kept.len() implies 0 < (#[trigger] kept[i]).ingredient_id
        < next_ingredient_id && has_recipe(tables.recipes, kept[i].recipe_id) by {
        assert(tables.ingredients.contains(kept[i]));
        let a = choose|a: int| 0 <= a < tables.ingredients.len() && tables.ingredients[a] == kept[i];
        assert(0 < tables.ingredients[a].ingredient_id < next_ingredient_id);
    }
}

/// Appending ingredient rows that point at recipe rows keeps the
/// constraints.
pub proof fn lemma_insert_ingredients(
    tables: Tables,
    next_recipe_id: int,
    next_ingredient_id: int,
    rows: Seq<NewIngredientRowView>,
)
    requires
        tables.wf(next_recipe_id, next_ingredient_id),
        0 < next_ingredient_id,
        next_ingredient_id + rows.len() <= i32::MAX + 1,
        forall|k: int| 0 <= k < rows.len() ==> has_recipe(tables.recipes, (#[trigger] rows[k]).recipe_id),
    ensures
        (Tables {
            ingredients: tables.ingredients + ingredient_rows(next_ingredient_id, rows),
            ..tables
        }).wf(next_recipe_id, next_ingredient_id + rows.len()),
{
    let inserted = ingredient_rows(next_ingredient_id, rows);
    lemma_ingredient_rows(next_ingredient_id, rows);
    let all = tables.ingredients + inserted;
    let old_len = tables.ingredients.len() as int;
    assert forall|i: int| 0 <= i < all.len() implies 0 < (#[trigger] all[i]).ingredient_id
        < next_ingredient_id + rows.len() && has_recipe(tables.recipes, all[i].recipe_id) by {
        if i < old_len {
            assert(all[i] == tables.ingredients[i]);
        } else {
            assert(all[i] == inserted[i - old_len]);
            assert(inserted[i - old_len].recipe_id == rows[i - old_len].recipe_id);
        }
    }
    assert forall|i: int, j: int| 0 <= i < j < all.len() implies (#[trigger] all[i]).ingredient_id
        < (#[trigger] all[j]).ingredient_id by {
        if j < old_len {
            assert(all[i] == tables.ingredients[i] && all[j] == tables.ingredients[j]);
        } else if i < old_len {
            assert(all[i] == tables.ingredients[i]);
            assert(all[j] == inserted[j - old_len]);
        } else {
            assert(all[i] == inserted[i - old_len]);
            assert(all[j] == inserted[j - old_len]);
        }
    }
}

/// No ingredient row points at a recipe whose list of rows is empty.
pub proof fn lemma_no_rows_owned(rows: Seq<StoredIngredientView>, recipe_id: i32, i: int)
    requires
        rows.filter(owned_by(recipe_id)).len() == 0,
        0 <= i < rows.len(),
    ensures
        rows[i].recipe_id != recipe_id,
{
    if rows[i].recipe_id == recipe_id {
        rows.lemma_filter_contains(owned_by(recipe_id), i);
    }
}

/// Once the rows of a recipe are deleted, none is left that points at it.
pub proof fn lemma_cleared(rows: Seq<StoredIngredientView>, recipe_id: i32)
    ensures
        rows.filter(not_owned_by(recipe_id)).filter(owned_by(recipe_id)).len() == 0,
{
    let kept = rows.filter(not_owned_by(recipe_id));
    let left = kept.filter(owned_by(recipe_id));
    lemma_filter_members(rows, not_owned_by(recipe_id));
    lemma_filter_members(kept, owned_by(recipe_id));
    if left.len() > 0 {
        let row = left[0];
        assert(kept.contains(row));
        let at = choose|at: int| 0 <= at < kept.len() && kept[at] == row;
        assert(not_owned_by(recipe_id)(kept[at]));
        assert(owned_by(recipe_id)(row));
    }
}

/// Deleting a recipe row that no ingredient row points at keeps the
/// constraints.
pub proof fn lemma_delete_recipe(
    tables: Tables,
    next_recipe_id: int,
    next_ingredient_id: int,
    recipe_id: i32,
)
    requires
        tables.wf(next_recipe_id, next_ingredient_id),
        has_recipe(tables.recipes, recipe_id),
        tables.ingredients_of(recipe_id).len() == 0,
    ensures
        (Tables {
            recipes: tables.recipes.remove(position_of(tables.recipes, recipe_id)),
            ..tables
        }).wf(next_recipe_id, next_ingredient_id),
{
    let at = position_of(tables.recipes, recipe_id);
    let recipes = tables.recipes.remove(at);
    assert forall|i: int| 0 <= i < recipes.len() implies (#[trigger] recipes[i]) == (if i < at {
        tables.recipes[i]
    } else {
        tables.recipes[i + 1]
    }) by {}
    assert forall|i: int| 0 <= i < tables.ingredients.len() implies has_recipe(
        recipes,
        (#[trigger] tables.ingredients[i]).recipe_id,
    ) by {
        lemma_no_rows_owned(tables.ingredients, recipe_id, i);
        let owner = position_of(tables.recipes, tables.ingredients[i].recipe_id);
        assert(owner != at);
        if owner < at {
            assert(recipes[owner].recipe_id == tables.ingredients[i].recipe_id);
        } else {
            assert(recipes[owner - 1].recipe_id == tables.ingredients[i].recipe_id);
        }
    }
    assert forall|i: int, j: int| 0 <= i < j < recipes.len() implies (#[trigger] recipes[i]).recipe_id
        < (#[trigger] recipes[j]).recipe_id by {
        let a = if i < at { i } else { i + 1 };
        let b = if j < at { j } else { j + 1 };
        assert(tables.recipes[a].recipe_id < tables.recipes[b].recipe_id);
    }
    assert forall|i: int| 0 <= i < recipes.len() implies 0 < (#[trigger] recipes[i]).recipe_id
        < next_recipe_id by {
        let a = if i < at { i } else { i + 1 };
        assert(0 < tables.recipes[a].recipe_id < next_recipe_id);
    }
}

} // verus!
