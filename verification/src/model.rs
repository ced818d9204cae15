//! The mathematical model that every layer of the crate views into.
//!
//! A recipe is text, an optional cooking time, a meal and a sequence of
//! ingredients; a stored recipe carries in addition the identities that the
//! store gave to it and to its ingredients. Wire shapes, domain objects and
//! persisted entities are different Rust types with the same views, which is
//! what it means for the conversions between them to lose nothing.

use vstd::prelude::*;
use crate::measure::{whole_seconds, CookingTime, Quantity};
use crate::text::contains_term;

verus! {

/// The meal a recipe is meant for.
pub enum Meal {
    Breakfast,
    Lunch,
    Dinner,
}

/// The unit an ingredient quantity is measured in.
pub enum Unit {
    Count,
    Kilo,
    Gram,
    Liter,
    Milliliter,
}

/// An ingredient as a caller writes it: no identity, no position.
pub struct IngredientView {
    pub name: Seq<char>,
    pub quantity_type: Unit,
    pub quantity: Quantity,
}

/// An ingredient as the store holds it: with its own identity, the identity
/// of the recipe that owns it, and its position in that recipe's list.
pub struct StoredIngredientView {
    pub ingredient_id: i32,
    pub recipe_id: i32,
    pub ingredient_order: i32,
    pub name: Seq<char>,
    pub quantity_type: Unit,
    pub quantity: Quantity,
}

/// What a caller submits when creating or updating a recipe.
pub struct RecipeContentView {
    pub name: Seq<char>,
    pub description: Option<Seq<char>>,
    pub ingredients: Seq<IngredientView>,
    pub cooking_time: Option<CookingTime>,
    pub meal_type: Meal,
}

/// A recipe with its identity, as the domain and the wire see it.
pub struct RecipeView {
    pub recipe_id: i32,
    pub name: Seq<char>,
    pub description: Option<Seq<char>>,
    pub ingredients: Seq<IngredientView>,
    pub cooking_time: Option<CookingTime>,
    pub meal_type: Meal,
}

/// A recipe as the store returns it, its ingredients attached.
pub struct StoredRecipeView {
    pub recipe_id: i32,
    pub name: Seq<char>,
    pub description: Option<Seq<char>>,
    pub ingredients: Seq<StoredIngredientView>,
    pub cooking_time: Option<CookingTime>,
    pub meal_type: Meal,
}

/// A search filter. A field that is `None` filters nothing.
pub struct CriteriaView {
    pub recipe_name: Option<Seq<char>>,
    pub ingredient_name: Option<Seq<char>>,
    pub meal_type: Option<Meal>,
}

/// The views of the elements of a sequence, in order.
pub open spec fn views<T: View>(items: Seq<T>) -> Seq<T::V> {
    items.map_values(|item: T| item@)
}

/// The view of an optional text.
pub open spec fn text_view(text: Option<String>) -> Option<Seq<char>> {
    match text {
        Some(t) => Some(t@),
        None => None,
    }
}

impl StoredIngredientView {
    /// The ingredient without the identities and the position.
    pub open spec fn content(self) -> IngredientView {
        IngredientView {
            name: self.name,
            quantity_type: self.quantity_type,
            quantity: self.quantity,
        }
    }
}

impl StoredRecipeView {
    /// The recipe as the domain sees it: ingredients in stored order, without
    /// their identities.
    pub open spec fn recipe(self) -> RecipeView {
        RecipeView {
            recipe_id: self.recipe_id,
            name: self.name,
            description: self.description,
            ingredients: self.ingredients.map_values(|i: StoredIngredientView| i.content()),
            cooking_time: self.cooking_time,
            meal_type: self.meal_type,
        }
    }
}

impl RecipeView {
    /// The recipe without its identity: what is submitted on an update.
    pub open spec fn content(self) -> RecipeContentView {
        RecipeContentView {
            name: self.name,
            description: self.description,
            ingredients: self.ingredients,
            cooking_time: self.cooking_time,
            meal_type: self.meal_type,
        }
    }
}

/// The ingredient that the store holds for the `position`-th ingredient of a
/// submitted list, under the given identities.
pub open spec fn stored_ingredient(
    ingredient_id: i32,
    recipe_id: i32,
    position: int,
    ingredient: IngredientView,
) -> StoredIngredientView {
    StoredIngredientView {
        ingredient_id,
        recipe_id,
        ingredient_order: position as i32,
        name: ingredient.name,
        quantity_type: ingredient.quantity_type,
        quantity: ingredient.quantity,
    }
}

/// The cooking time that the store keeps for a submitted one.
pub open spec fn stored_cooking_time(time: Option<CookingTime>) -> Option<CookingTime> {
    match time {
        Some(t) => Some(whole_seconds(t)),
        None => None,
    }
}

/// `stored` is `content` as the store keeps it: the same text, meal and
/// whole seconds of cooking time, and the same ingredients in the same order,
/// each owned by the recipe and carrying its list index as its order.
pub open spec fn stores(stored: StoredRecipeView, content: RecipeContentView) -> bool {
    &&& stored.name == content.name
    &&& stored.description == content.description
    &&& stored.cooking_time == stored_cooking_time(content.cooking_time)
    &&& stored.meal_type == content.meal_type
    &&& stored.ingredients.len() == content.ingredients.len()
    &&& content.ingredients.len() <= i32::MAX
    &&& forall|i: int|
        0 <= i < stored.ingredients.len() ==> #[trigger] stored.ingredients[i]
            == stored_ingredient(
            stored.ingredients[i].ingredient_id,
            stored.recipe_id,
            i,
            content.ingredients[i],
        )
}

/// Some ingredient of the list has `term` in its name, ignoring case.
pub open spec fn any_ingredient_named(ingredients: Seq<StoredIngredientView>, term: Seq<char>) -> bool {
    exists|i: int| 0 <= i < ingredients.len() && contains_term(#[trigger] ingredients[i].name, term)
}

/// The search predicate: every criterion that is given holds of the recipe.
pub open spec fn satisfies(recipe: StoredRecipeView, criteria: CriteriaView) -> bool {
    &&& criteria.recipe_name matches Some(term) ==> contains_term(recipe.name, term)
    &&& criteria.ingredient_name matches Some(term) ==> any_ingredient_named(
        recipe.ingredients,
        term,
    )
    &&& criteria.meal_type matches Some(meal) ==> recipe.meal_type == meal
}

} // verus!
