//! From rows to recipes: what the writes of [`crate::results`] do to the
//! recipes that a listing returns.
//!
//! Here the two-table store is shown to keep the repository contract: a
//! create appends one recipe, an update replaces one where it stands, a
//! delete removes one, and no write touches any other recipe.

use vstd::prelude::*;
use crate::constraints::{
    lemma_cleared, lemma_delete_ingredients, lemma_delete_recipe, lemma_ingredient_rows, lemma_insert_ingredients,
    lemma_insert_recipe, lemma_sequences_advance, lemma_update_recipe,
};
use crate::mapping::{composed, fields_of, new_rows, recipe_of_row};
use crate::measure::lemma_seconds_column_round_trip;
use crate::model::{
    any_ingredient_named, stores, CriteriaView, RecipeContentView, StoredIngredientView,
    StoredRecipeView,
};
use crate::protocol::recipes_of_rows;
use crate::repository::{creates, deletes, dense, distinct, has_stored, satisfying, updates};
use crate::results::{create_result, delete_result, update_result};
use crate::sequences::{
    lemma_filter_all, lemma_filter_map_commute, lemma_filter_members, lemma_filter_none,
    lemma_filter_twice,
};
use crate::statement::RecipeRowView;
use crate::tables::{
    has_ingredient_named, has_recipe, ingredient_rows, not_owned_by, owned_by, position_of,
    recipe_row, DatabaseView, Tables,
};

verus! {

/// The recipes that a listing of these tables returns.
pub open spec fn stored_recipes(tables: Tables) -> Seq<StoredRecipeView> {
    recipes_of_rows(tables.list())
}

/// The store is between two operations of a repository: its constraints
/// hold, no transaction is open, and ingredient orders are dense.
pub open spec fn at_rest(db: DatabaseView) -> bool {
    &&& db.wf()
    &&& db.open is None
    &&& dense(stored_recipes(db.committed))
}

/// A listing has one recipe per recipe row, in table order, each with the
/// ingredient rows that point at it, in table order.
pub proof fn lemma_stored_recipes(tables: Tables)
    ensures
        stored_recipes(tables).len() == tables.recipes.len(),
        forall|k: int|
            0 <= k < tables.recipes.len() ==> #[trigger] stored_recipes(tables)[k] == composed(
                tables.recipes[k],
                tables.ingredients_of(tables.recipes[k].recipe_id),
            ),
{
    assert forall|k: int| 0 <= k < tables.recipes.len() implies #[trigger] stored_recipes(
        tables,
    )[k] == composed(tables.recipes[k], tables.ingredients_of(tables.recipes[k].recipe_id)) by {
        let rows = tables.ingredients_of(tables.recipes[k].recipe_id);
        if rows.len() == 0 {
            assert(rows =~= Seq::empty());
        }
    }
}

/// A recipe is listed exactly if it has a row, and with unique rows it is
/// listed once.
pub proof fn lemma_listed(tables: Tables, next_recipe_id: int, next_ingredient_id: int)
    requires
        tables.wf(next_recipe_id, next_ingredient_id),
    ensures
        distinct(stored_recipes(tables)),
        forall|recipe_id: i32|
            has_stored(stored_recipes(tables), recipe_id) <==> has_recipe(
                tables.recipes,
                recipe_id,
            ),
{
    lemma_stored_recipes(tables);
    let stored = stored_recipes(tables);
    assert forall|i: int, j: int| 0 <= i < j < stored.len() implies (#[trigger] stored[i]).recipe_id
        != (#[trigger] stored[j]).recipe_id by {
        assert(tables.recipes[i].recipe_id < tables.recipes[j].recipe_id);
    }
    assert forall|recipe_id: i32|
        has_stored(stored, recipe_id) <==> has_recipe(tables.recipes, recipe_id) by {
        if has_stored(stored, recipe_id) {
            let k = choose|k: int| 0 <= k < stored.len() && (#[trigger] stored[k]).recipe_id == recipe_id;
            assert(tables.recipes[k].recipe_id == recipe_id);
        }
        if has_recipe(tables.recipes, recipe_id) {
            let k = position_of(tables.recipes, recipe_id);
            assert(stored[k].recipe_id == recipe_id);
        }
    }
}

/// Appending rows that all point at one recipe adds them to that recipe's
/// rows and to no other's.
pub proof fn lemma_rows_appended(
    ingredients: Seq<StoredIngredientView>,
    rows: Seq<StoredIngredientView>,
    owner: i32,
    recipe_id: i32,
)
    requires
        forall|k: int| 0 <= k < rows.len() ==> (#[trigger] rows[k]).recipe_id == owner,
    ensures
        (ingredients + rows).filter(owned_by(recipe_id)) == if recipe_id == owner {
            ingredients.filter(owned_by(recipe_id)) + rows
        } else {
            ingredients.filter(owned_by(recipe_id))
        },
{
    Seq::filter_distributes_over_add(ingredients, rows, owned_by(recipe_id));
    if recipe_id == owner {
        lemma_filter_all(rows, owned_by(recipe_id));
    } else {
        lemma_filter_none(rows, owned_by(recipe_id));
        assert(ingredients.filter(owned_by(recipe_id)) + Seq::<StoredIngredientView>::empty()
            =~= ingredients.filter(owned_by(recipe_id)));
    }
}

/// Deleting the rows of one recipe leaves every other recipe its rows.
pub proof fn lemma_rows_deleted(ingredients: Seq<StoredIngredientView>, owner: i32, recipe_id: i32)
    ensures
        ingredients.filter(not_owned_by(owner)).filter(owned_by(recipe_id)) == if recipe_id
            == owner {
            Seq::<StoredIngredientView>::empty()
        } else {
            ingredients.filter(owned_by(recipe_id))
        },
{
    if recipe_id == owner {
        lemma_cleared(ingredients, owner);
        assert(ingredients.filter(not_owned_by(owner)).filter(owned_by(recipe_id))
            =~= Seq::<StoredIngredientView>::empty());
    } else {
        lemma_filter_twice(ingredients, not_owned_by(owner), owned_by(recipe_id));
    }
}

/// The rows written for a submitted recipe store its content.
pub proof fn lemma_stores(
    recipe_id: i32,
    first_id: int,
    content: RecipeContentView,
)
    requires
        0 < first_id,
        content.ingredients.len() <= i32::MAX,
        first_id + content.ingredients.len() <= i32::MAX + 1,
    ensures
        stores(
            composed(
                recipe_row(recipe_id, fields_of(content)),
                ingredient_rows(first_id, new_rows(recipe_id, content.ingredients)),
            ),
            content,
        ),
        forall|k: int|
            0 <= k < content.ingredients.len() ==> (#[trigger] ingredient_rows(
                first_id,
                new_rows(recipe_id, content.ingredients),
            )[k]).recipe_id == recipe_id,
{
    let rows = new_rows(recipe_id, content.ingredients);
    lemma_ingredient_rows(first_id, rows);
    match content.cooking_time {
        Some(time) => {
            lemma_seconds_column_round_trip(time.secs);
        },
        None => {},
    }
}

/// A recipe that stores some content has dense ingredient orders.
pub proof fn lemma_stores_dense(stored: StoredRecipeView, content: RecipeContentView)
    requires
        stores(stored, content),
    ensures
        forall|i: int|
            0 <= i < stored.ingredients.len() ==> (#[trigger] stored.ingredients[i]).recipe_id
                == stored.recipe_id && stored.ingredients[i].ingredient_order == i,
{
}

/// What a create does to the listed recipes.
pub proof fn lemma_create(db: DatabaseView, content: RecipeContentView)
    requires
        at_rest(db),
    ensures
        at_rest(create_result(db, content).0),
        creates(
            stored_recipes(db.committed),
            content,
            create_result(db, content).1,
            stored_recipes(create_result(db, content).0.committed),
        ),
{
    let (after, result) = create_result(db, content);
    let before = stored_recipes(db.committed);
    let count = content.ingredients.len();
    if db.next_recipe_id > i32::MAX {
    } else {
        let recipe_id = db.next_recipe_id as i32;
        let row = recipe_row(recipe_id, fields_of(content));
        lemma_sequences_advance(
            db.committed,
            db.next_recipe_id,
            db.next_ingredient_id,
            db.next_recipe_id + 1,
            db.next_ingredient_id,
        );
        if count > i32::MAX || (count > 0 && db.next_ingredient_id + count > i32::MAX + 1) {
        } else {
            let rows = ingredient_rows(db.next_ingredient_id, new_rows(recipe_id, content.ingredients));
            lemma_stores(recipe_id, db.next_ingredient_id, content);
            let with_row = Tables { recipes: db.committed.recipes.push(row), ..db.committed };
            lemma_insert_recipe(db.committed, db.next_recipe_id, db.next_ingredient_id, fields_of(content));
            if count > 0 {
                assert(with_row.recipes[with_row.recipes.len() - 1].recipe_id == recipe_id);
                assert(has_recipe(with_row.recipes, recipe_id));
                lemma_insert_ingredients(
                    with_row,
                    db.next_recipe_id + 1,
                    db.next_ingredient_id,
                    new_rows(recipe_id, content.ingredients),
                );
            } else {
                assert(rows =~= Seq::empty());
                assert(db.committed.ingredients + rows =~= db.committed.ingredients);
            }
            let tables = Tables {
                recipes: db.committed.recipes.push(row),
                ingredients: db.committed.ingredients + rows,
            };
            assert(after.committed == tables);
            let stored = composed(row, rows);
            // No ingredient row points at the new identity yet.
            assert forall|i: int| 0 <= i < db.committed.ingredients.len() implies !owned_by(
                recipe_id,
            )(#[trigger] db.committed.ingredients[i]) by {
                let owner = db.committed.ingredients[i].recipe_id;
                assert(has_recipe(db.committed.recipes, owner));
                let at = position_of(db.committed.recipes, owner);
                assert(db.committed.recipes[at].recipe_id < db.next_recipe_id);
            }
            lemma_filter_none(db.committed.ingredients, owned_by(recipe_id));
            lemma_stored_recipes(db.committed);
            lemma_stored_recipes(tables);
            assert(stored_recipes(tables) =~= before.push(stored)) by {
                assert forall|k: int| 0 <= k < tables.recipes.len() implies stored_recipes(
                    tables,
                )[k] == before.push(stored)[k] by {
                    lemma_rows_appended(
                        db.committed.ingredients,
                        rows,
                        recipe_id,
                        tables.recipes[k].recipe_id,
                    );
                    if k < db.committed.recipes.len() {
                        assert(tables.recipes[k] == db.committed.recipes[k]);
                        assert(db.committed.recipes[k].recipe_id < db.next_recipe_id);
                    } else {
                        assert(tables.recipes[k] == row);
                        assert(Seq::<StoredIngredientView>::empty() + rows =~= rows);
                    }
                }
            }
            lemma_listed(db.committed, db.next_recipe_id, db.next_ingredient_id);
            assert(!has_stored(before, recipe_id)) by {
                if has_recipe(db.committed.recipes, recipe_id) {
                    let at = position_of(db.committed.recipes, recipe_id);
                    assert(db.committed.recipes[at].recipe_id < db.next_recipe_id);
                }
            }
            lemma_stores_dense(stored, content);
            assert(dense(before.push(stored))) by {
                assert forall|k: int, i: int|
                    0 <= k < before.push(stored).len() && 0 <= i < before.push(
                        stored,
                    )[k].ingredients.len() implies {
                    let ingredient = #[trigger] before.push(stored)[k].ingredients[i];
                    ingredient.recipe_id == before.push(stored)[k].recipe_id
                        && ingredient.ingredient_order == i
                } by {
                    if k < before.len() {
                        assert(before.push(stored)[k] == before[k]);
                    }
                }
            }
        }
    }
}

/// Removing or replacing one of the listed recipes keeps the orders of the
/// others dense.
proof fn lemma_dense_update(before: Seq<StoredRecipeView>, at: int, stored: StoredRecipeView, content: RecipeContentView)
    requires
        dense(before),
        0 <= at < before.len(),
        stores(stored, content),
    ensures
        dense(before.update(at, stored)),
        dense(before.remove(at)),
{
    let updated = before.update(at, stored);
    assert forall|k: int, i: int|
        0 <= k < updated.len() && 0 <= i < updated[k].ingredients.len() implies {
        let ingredient = #[trigger] updated[k].ingredients[i];
        ingredient.recipe_id == updated[k].recipe_id && ingredient.ingredient_order == i
    } by {
        if k != at {
            assert(updated[k] == before[k]);
        }
    }
    lemma_dense_remove(before, at);
}

/// Removing one of the listed recipes keeps the orders of the others dense.
proof fn lemma_dense_remove(before: Seq<StoredRecipeView>, at: int)
    requires
        dense(before),
        0 <= at < before.len(),
    ensures
        dense(before.remove(at)),
{
    let removed = before.remove(at);
    assert forall|k: int, i: int|
        0 <= k < removed.len() && 0 <= i < removed[k].ingredients.len() implies {
        let ingredient = #[trigger] removed[k].ingredients[i];
        ingredient.recipe_id == removed[k].recipe_id && ingredient.ingredient_order == i
    } by {
        if k < at {
            assert(removed[k] == before[k]);
        } else {
            assert(removed[k] == before[k + 1]);
        }
    }
}

/// What an update does to the listed recipes.
pub proof fn lemma_update(db: DatabaseView, recipe_id: i32, content: RecipeContentView)
    requires
        at_rest(db),
    ensures
        at_rest(update_result(db, recipe_id, content).0),
        updates(
            stored_recipes(db.committed),
            recipe_id,
            content,
            update_result(db, recipe_id, content).1,
            stored_recipes(update_result(db, recipe_id, content).0.committed),
        ),
{
    let (after, result) = update_result(db, recipe_id, content);
    let before = stored_recipes(db.committed);
    let count = content.ingredients.len();
    lemma_listed(db.committed, db.next_recipe_id, db.next_ingredient_id);
    if !has_recipe(db.committed.recipes, recipe_id) {
    } else if count > i32::MAX || (count > 0 && db.next_ingredient_id + count > i32::MAX + 1) {
    } else {
        let at = position_of(db.committed.recipes, recipe_id);
        let row = recipe_row(recipe_id, fields_of(content));
        let kept = db.committed.ingredients.filter(not_owned_by(recipe_id));
        let rows = ingredient_rows(db.next_ingredient_id, new_rows(recipe_id, content.ingredients));
        lemma_stores(recipe_id, db.next_ingredient_id, content);
        let recipes = db.committed.recipes.update(at, row);
        let overwritten = Tables { recipes, ..db.committed };
        lemma_update_recipe(
            db.committed,
            db.next_recipe_id,
            db.next_ingredient_id,
            recipe_id,
            fields_of(content),
        );
        let cleared = Tables { recipes, ingredients: kept };
        lemma_delete_ingredients(overwritten, db.next_recipe_id, db.next_ingredient_id, recipe_id);
        if count > 0 {
            assert(recipes[at].recipe_id == recipe_id);
            assert(has_recipe(recipes, recipe_id));
            lemma_insert_ingredients(
                cleared,
                db.next_recipe_id,
                db.next_ingredient_id,
                new_rows(recipe_id, content.ingredients),
            );
        } else {
            assert(rows =~= Seq::empty());
            assert(kept + rows =~= kept);
        }
        let tables = Tables { recipes, ingredients: kept + rows };
        assert(after.committed == tables);
        let stored = composed(row, rows);
        lemma_stored_recipes(db.committed);
        lemma_stored_recipes(tables);
        assert(stored_recipes(tables) =~= before.update(at, stored)) by {
            assert forall|k: int| 0 <= k < tables.recipes.len() implies stored_recipes(tables)[k]
                == before.update(at, stored)[k] by {
                let owner = tables.recipes[k].recipe_id;
                lemma_rows_appended(kept, rows, recipe_id, owner);
                lemma_rows_deleted(db.committed.ingredients, recipe_id, owner);
                if k == at {
                    assert(Seq::<StoredIngredientView>::empty() + rows =~= rows);
                } else {
                    assert(tables.recipes[k] == db.committed.recipes[k]);
                    if k < at {
                        assert(db.committed.recipes[k].recipe_id < db.committed.recipes[at].recipe_id);
                    } else {
                        assert(db.committed.recipes[at].recipe_id < db.committed.recipes[k].recipe_id);
                    }
                }
            }
        }
        assert(before[at].recipe_id == recipe_id);
        lemma_dense_update(before, at, stored, content);
    }
}

/// What a delete does to the listed recipes.
pub proof fn lemma_delete(db: DatabaseView, recipe_id: i32)
    requires
        at_rest(db),
    ensures
        at_rest(delete_result(db, recipe_id).0),
        deletes(
            stored_recipes(db.committed),
            recipe_id,
            delete_result(db, recipe_id).1,
            stored_recipes(delete_result(db, recipe_id).0.committed),
        ),
{
    let (after, result) = delete_result(db, recipe_id);
    let before = stored_recipes(db.committed);
    lemma_listed(db.committed, db.next_recipe_id, db.next_ingredient_id);
    if has_recipe(db.committed.recipes, recipe_id) {
        let at = position_of(db.committed.recipes, recipe_id);
        let kept = db.committed.ingredients.filter(not_owned_by(recipe_id));
        let cleared = Tables { ingredients: kept, ..db.committed };
        lemma_delete_ingredients(db.committed, db.next_recipe_id, db.next_ingredient_id, recipe_id);
        lemma_cleared(db.committed.ingredients, recipe_id);
        lemma_delete_recipe(cleared, db.next_recipe_id, db.next_ingredient_id, recipe_id);
        let tables = Tables { recipes: db.committed.recipes.remove(at), ingredients: kept };
        assert(after.committed == tables);
        lemma_stored_recipes(db.committed);
        lemma_stored_recipes(tables);
        assert forall|k: int| 0 <= k < tables.recipes.len() implies (#[trigger] tables.recipes[k])
            == db.committed.recipes[if k < at { k } else { k + 1 }] && tables.recipes[k].recipe_id
            != recipe_id by {
            if k < at {
                assert(db.committed.recipes[k].recipe_id < db.committed.recipes[at].recipe_id);
            } else {
                assert(db.committed.recipes[at].recipe_id < db.committed.recipes[k + 1].recipe_id);
            }
        }
        assert(stored_recipes(tables) =~= before.remove(at)) by {
            assert forall|k: int| 0 <= k < tables.recipes.len() implies stored_recipes(tables)[k]
                == before.remove(at)[k] by {
                let owner = tables.recipes[k].recipe_id;
                lemma_rows_deleted(db.committed.ingredients, recipe_id, owner);
            }
        }
        assert(before[at].recipe_id == recipe_id);
        lemma_listed(tables, db.next_recipe_id, db.next_ingredient_id);
        assert(!has_recipe(tables.recipes, recipe_id)) by {
            if has_recipe(tables.recipes, recipe_id) {
                let k = position_of(tables.recipes, recipe_id);
                assert(tables.recipes[k].recipe_id != recipe_id);
            }
        }
        lemma_dense_remove(before, at);
    }
}

/// A recipe has an ingredient row of some name exactly if its list of
/// ingredients has an ingredient of that name.
pub proof fn lemma_named(ingredients: Seq<StoredIngredientView>, recipe_id: i32, term: Seq<char>)
    ensures
        has_ingredient_named(ingredients, recipe_id, term) <==> any_ingredient_named(
            ingredients.filter(owned_by(recipe_id)),
            term,
        ),
{
    let owned = ingredients.filter(owned_by(recipe_id));
    lemma_filter_members(ingredients, owned_by(recipe_id));
    if has_ingredient_named(ingredients, recipe_id, term) {
        let i = choose|i: int|
            0 <= i < ingredients.len() && (#[trigger] ingredients[i]).recipe_id == recipe_id
                && crate::text::contains_term(ingredients[i].name, term);
        ingredients.lemma_filter_contains(owned_by(recipe_id), i);
        let j = choose|j: int| 0 <= j < owned.len() && owned[j] == ingredients[i];
        assert(crate::text::contains_term(owned[j].name, term));
    }
    if any_ingredient_named(owned, term) {
        let j = choose|j: int|
            0 <= j < owned.len() && crate::text::contains_term((#[trigger] owned[j]).name, term);
        assert(ingredients.contains(owned[j]));
        let i = choose|i: int| 0 <= i < ingredients.len() && ingredients[i] == owned[j];
        assert(ingredients[i].recipe_id == recipe_id);
    }
}

/// The search query returns the listed recipes that satisfy the criteria,
/// in listing order.
pub proof fn lemma_search(tables: Tables, criteria: CriteriaView)
    ensures
        recipes_of_rows(tables.search(criteria)) == stored_recipes(tables).filter(
            satisfying(criteria),
        ),
{
    let read = |row: RecipeRowView| recipe_of_row(tables.joined(row));
    let selected = tables.recipes.filter(tables.selecting(criteria));
    assert(recipes_of_rows(tables.search(criteria)) =~= selected.map_values(read));
    assert(stored_recipes(tables) =~= tables.recipes.map_values(read));
    assert forall|i: int| 0 <= i < tables.recipes.len() implies tables.selecting(criteria)(
        #[trigger] tables.recipes[i],
    ) == satisfying(criteria)(read(tables.recipes[i])) by {
        let row = tables.recipes[i];
        let rows = tables.ingredients_of(row.recipe_id);
        match criteria.ingredient_name {
            Some(term) => {
                lemma_named(tables.ingredients, row.recipe_id, term);
                if rows.len() == 0 {
                    assert(rows =~= Seq::empty());
                }
            },
            None => {},
        }
    }
    lemma_filter_map_commute(
        tables.recipes,
        tables.selecting(criteria),
        read,
        satisfying(criteria),
    );
}

} // verus!
