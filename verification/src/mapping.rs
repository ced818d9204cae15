//! Between entities and rows: what a repository binds to its statements, and
//! what it makes of the rows that come back.

use vstd::prelude::*;
use crate::entity::{IngredientEntity, MealType, MutableIngredientEntity, RecipeEntity};
use crate::measure::{column_of_seconds, seconds_of_column, CookingTime};
use crate::model::{
    text_view, views, IngredientView, RecipeContentView, StoredIngredientView, StoredRecipeView,
};
use crate::statement::{
    JoinedRow, JoinedRowView, NewIngredientRow, NewIngredientRowView, RecipeFields,
    RecipeFieldsView, RecipeRow, RecipeRowView,
};

verus! {

/// The value of the seconds column for an optional cooking time.
pub open spec fn column_of_time(time: Option<CookingTime>) -> Option<i64> {
    match time {
        Some(t) => Some(column_of_seconds(t.secs)),
        None => None,
    }
}

/// The cooking time that a value of the seconds column stands for.
pub open spec fn time_of_column(column: Option<i64>) -> Option<CookingTime> {
    match column {
        Some(c) => Some(CookingTime { secs: seconds_of_column(c), nanos: 0 }),
        None => None,
    }
}

/// The columns of the recipe row for a submitted recipe.
pub open spec fn fields_of(content: RecipeContentView) -> RecipeFieldsView {
    RecipeFieldsView {
        name: content.name,
        description: content.description,
        cooking_time_secs: column_of_time(content.cooking_time),
        meal_type: content.meal_type,
    }
}

/// The row of the bulk insert for the `position`-th ingredient of a list.
pub open spec fn new_row(recipe_id: i32, position: int, ingredient: IngredientView) -> NewIngredientRowView {
    NewIngredientRowView {
        recipe_id,
        ingredient_order: position as i32,
        name: ingredient.name,
        quantity: ingredient.quantity,
        quantity_type: ingredient.quantity_type,
    }
}

/// The rows of the bulk insert for a list of ingredients: one per
/// ingredient, in order, each with its list index as its order.
pub open spec fn new_rows(recipe_id: i32, ingredients: Seq<IngredientView>) -> Seq<
    NewIngredientRowView,
> {
    Seq::new(ingredients.len(), |k: int| new_row(recipe_id, k, ingredients[k]))
}

/// The entity made of a returned recipe row and returned ingredient rows.
pub open spec fn composed(row: RecipeRowView, ingredients: Seq<StoredIngredientView>) -> StoredRecipeView {
    StoredRecipeView {
        recipe_id: row.recipe_id,
        name: row.name,
        description: row.description,
        ingredients,
        cooking_time: time_of_column(row.cooking_time_secs),
        meal_type: row.meal_type,
    }
}

/// The entity made of one row of the read query. A recipe without
/// ingredient rows has the empty list.
pub open spec fn recipe_of_row(row: JoinedRowView) -> StoredRecipeView {
    StoredRecipeView {
        recipe_id: row.recipe_id,
        name: row.name,
        description: row.description,
        ingredients: match row.ingredients {
            Some(rows) => rows,
            None => Seq::empty(),
        },
        cooking_time: time_of_column(row.cooking_time_secs),
        meal_type: row.meal_type,
    }
}

/// The value of the seconds column for an optional cooking time.
pub fn time_to_column(time: Option<CookingTime>) -> (column: Option<i64>)
    ensures
        column == column_of_time(time),
{
    match time {
        Some(t) => Some(t.to_column()),
        None => None,
    }
}

/// The cooking time read from the seconds column.
pub fn time_from_column(column: Option<i64>) -> (time: Option<CookingTime>)
    ensures
        time == time_of_column(column),
{
    match column {
        Some(c) => Some(CookingTime::from_column(c)),
        None => None,
    }
}

/// The columns of the recipe row, from the scalar attributes of a submitted
/// recipe.
pub fn recipe_fields(
    name: String,
    description: Option<String>,
    cooking_time: Option<CookingTime>,
    meal_type: MealType,
) -> (fields: RecipeFields)
    ensures
        fields@ == (RecipeFieldsView {
            name: name@,
            description: text_view(description),
            cooking_time_secs: column_of_time(cooking_time),
            meal_type: meal_type@,
        }),
{
    RecipeFields { name, description, cooking_time_secs: time_to_column(cooking_time), meal_type }
}

/// The rows of the bulk insert for the ingredients of a recipe, or `None`
/// where the list is too long for its positions to be numbered in 32 bits.
pub fn ingredient_rows_for(recipe_id: i32, ingredients: Vec<MutableIngredientEntity>) -> (rows:
    Option<Vec<NewIngredientRow>>)
    ensures
        match rows {
            Some(rows) => ingredients.len() <= i32::MAX && views(rows@) == new_rows(
                recipe_id,
                views(ingredients@),
            ),
            None => ingredients.len() > i32::MAX,
        },
{
    if ingredients.len() > 0x7fff_ffff {
        return None;
    }
    let ghost target = new_rows(recipe_id, views(ingredients@));
    let mut rows: Vec<NewIngredientRow> = Vec::new();
    proof {
        assert(views(rows@) =~= target.take(0));
    }
    for ingredient in it: ingredients
        invariant
            it.seq() == ingredients@,
            ingredients.len() <= i32::MAX,
            target == new_rows(recipe_id, views(ingredients@)),
            rows@.len() == it.index(),
            views(rows@) == target.take(it.index() as int),
    {
        let ghost before = rows@;
        let position: usize = rows.len();
        rows.push(
            NewIngredientRow {
                recipe_id,
                ingredient_order: position as i32,
                name: ingredient.name,
                quantity: ingredient.quantity,
                quantity_type: ingredient.quantity_type,
            },
        );
        proof {
            assert(views(rows@) =~= views(before).push(rows@[position as int]@));
            assert(target.take(position + 1) =~= target.take(position as int).push(
                target[position as int],
            ));
        }
    }
    proof {
        assert(target.take(ingredients.len() as int) =~= target);
    }
    Some(rows)
}

/// The entity made of a returned recipe row and returned ingredient rows.
pub fn compose(row: RecipeRow, ingredients: Vec<IngredientEntity>) -> (entity: RecipeEntity)
    ensures
        entity@ == composed(row@, views(ingredients@)),
{
    RecipeEntity {
        recipe_id: row.recipe_id,
        name: row.name,
        description: row.description,
        ingredients,
        cooking_time: time_from_column(row.cooking_time_secs),
        meal_type: row.meal_type,
    }
}

/// The entity made of one row of the read query.
pub fn recipe_from_row(row: JoinedRow) -> (entity: RecipeEntity)
    ensures
        entity@ == recipe_of_row(row@),
{
    let ingredients = match row.ingredients {
        Some(rows) => rows,
        None => Vec::new(),
    };
    proof {
        if row.ingredients is None {
            assert(views(ingredients@) =~= Seq::empty());
        }
    }
    RecipeEntity {
        recipe_id: row.recipe_id,
        name: row.name,
        description: row.description,
        ingredients,
        cooking_time: time_from_column(row.cooking_time_secs),
        meal_type: row.meal_type,
    }
}

/// The entities made of the rows of the read query, in order.
pub fn recipes_from_rows(rows: Vec<JoinedRow>) -> (entities: Vec<RecipeEntity>)
    ensures
        views(entities@) == views(rows@).map_values(|row: JoinedRowView| recipe_of_row(row)),
{
    let ghost target = views(rows@).map_values(|row: JoinedRowView| recipe_of_row(row));
    let mut entities: Vec<RecipeEntity> = Vec::new();
    proof {
        assert(views(entities@) =~= target.take(0));
    }
    for row in it: rows
        invariant
            it.seq() == rows@,
            target == views(rows@).map_values(|row: JoinedRowView| recipe_of_row(row)),
            views(entities@) == target.take(it.index() as int),
    {
        let ghost before = entities@;
        let ghost at = it.index() as int;
        entities.push(recipe_from_row(row));
        proof {
            assert(views(entities@) =~= views(before).push(entities@[at]@));
            assert(target.take(at + 1) =~= target.take(at).push(target[at]));
        }
    }
    proof {
        assert(target.take(rows.len() as int) =~= target);
    }
    entities
}

} // verus!
