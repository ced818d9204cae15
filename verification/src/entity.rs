//! The persisted shapes: what the repository takes and returns.
//!
//! An entity has the shape of the rows it is read from. A mutable entity is
//! the same without the identities that only the store can give; it is what a
//! create or an update is handed.

use vstd::prelude::*;
use crate::failure::{fault_message, not_found_text, Failure, Fault};
use crate::measure::{CookingTime, Quantity};
use crate::model::{
    text_view, views, CriteriaView, IngredientView, Meal, RecipeContentView, StoredIngredientView,
    StoredRecipeView, Unit,
};

verus! {

/// The unit of an ingredient quantity, as persisted.
#[derive(Clone, Copy, Debug, PartialEq, Eq, Structural)]
pub enum QuantityType {
    Count,
    Kilo,
    Gram,
    Liter,
    Milliliter,
}

impl View for QuantityType {
    type V = Unit;

    open spec fn view(&self) -> Unit {
        match self {
            QuantityType::Count => Unit::Count,
            QuantityType::Kilo => Unit::Kilo,
            QuantityType::Gram => Unit::Gram,
            QuantityType::Liter => Unit::Liter,
            QuantityType::Milliliter => Unit::Milliliter,
        }
    }
}

/// The meal of a recipe, as persisted.
#[derive(Clone, Copy, Debug, PartialEq, Eq, Structural)]
pub enum MealType {
    Breakfast,
    Lunch,
    Dinner,
}

impl View for MealType {
    type V = Meal;

    open spec fn view(&self) -> Meal {
        match self {
            MealType::Breakfast => Meal::Breakfast,
            MealType::Lunch => Meal::Lunch,
            MealType::Dinner => Meal::Dinner,
        }
    }
}

/// The view of an optional persisted meal.
pub open spec fn meal_view(meal: Option<MealType>) -> Option<Meal> {
    match meal {
        Some(m) => Some(m@),
        None => None,
    }
}

/// One row of the ingredient table.
#[derive(Debug)]
pub struct IngredientEntity {
    pub ingredient_id: i32,
    pub recipe_id: i32,
    pub ingredient_order: i32,
    pub name: String,
    pub quantity_type: QuantityType,
    pub quantity: Quantity,
}

impl View for IngredientEntity {
    type V = StoredIngredientView;

    open spec fn view(&self) -> StoredIngredientView {
        StoredIngredientView {
            ingredient_id: self.ingredient_id,
            recipe_id: self.recipe_id,
            ingredient_order: self.ingredient_order,
            name: self.name@,
            quantity_type: self.quantity_type@,
            quantity: self.quantity,
        }
    }
}

impl Clone for IngredientEntity {
    fn clone(&self) -> (copy: Self)
        ensures
            copy == *self,
    {
        IngredientEntity {
            ingredient_id: self.ingredient_id,
            recipe_id: self.recipe_id,
            ingredient_order: self.ingredient_order,
            name: self.name.clone(),
            quantity_type: self.quantity_type,
            quantity: self.quantity,
        }
    }
}

/// An ingredient that has not been stored yet.
#[derive(Debug)]
pub struct MutableIngredientEntity {
    pub name: String,
    pub quantity_type: QuantityType,
    pub quantity: Quantity,
}

impl View for MutableIngredientEntity {
    type V = IngredientView;

    open spec fn view(&self) -> IngredientView {
        IngredientView {
            name: self.name@,
            quantity_type: self.quantity_type@,
            quantity: self.quantity,
        }
    }
}

/// A recipe as the repository returns it, with its ingredients attached.
#[derive(Debug)]
pub struct RecipeEntity {
    pub recipe_id: i32,
    pub name: String,
    pub description: Option<String>,
    pub ingredients: Vec<IngredientEntity>,
    pub cooking_time: Option<CookingTime>,
    pub meal_type: MealType,
}

impl View for RecipeEntity {
    type V = StoredRecipeView;

    open spec fn view(&self) -> StoredRecipeView {
        StoredRecipeView {
            recipe_id: self.recipe_id,
            name: self.name@,
            description: text_view(self.description),
            ingredients: views(self.ingredients@),
            cooking_time: self.cooking_time,
            meal_type: self.meal_type@,
        }
    }
}

/// A recipe that has no identity yet, or whose identity is given beside it.
#[derive(Debug)]
pub struct MutableRecipeEntity {
    pub name: String,
    pub description: Option<String>,
    pub ingredients: Vec<MutableIngredientEntity>,
    pub cooking_time: Option<CookingTime>,
    pub meal_type: MealType,
}

impl View for MutableRecipeEntity {
    type V = RecipeContentView;

    open spec fn view(&self) -> RecipeContentView {
        RecipeContentView {
            name: self.name@,
            description: text_view(self.description),
            ingredients: views(self.ingredients@),
            cooking_time: self.cooking_time,
            meal_type: self.meal_type@,
        }
    }
}

/// The criteria of a search. A criterion that is `None` matches everything.
#[derive(Debug)]
pub struct SearchRecipesArguments {
    pub recipe_name: Option<String>,
    pub ingredient_name: Option<String>,
    pub meal_type: Option<MealType>,
}

impl View for SearchRecipesArguments {
    type V = CriteriaView;

    open spec fn view(&self) -> CriteriaView {
        CriteriaView {
            recipe_name: text_view(self.recipe_name),
            ingredient_name: text_view(self.ingredient_name),
            meal_type: meal_view(self.meal_type),
        }
    }
}

/// Why listing failed.
#[derive(Debug)]
pub enum ListRecipeError {
    Unknown(Failure),
}

impl View for ListRecipeError {
    type V = Fault;

    open spec fn view(&self) -> Fault {
        match self {
            ListRecipeError::Unknown(failure) => Fault::Unknown(failure@),
        }
    }
}

/// Why a search failed.
#[derive(Debug)]
pub enum SearchRecipeError {
    Unknown(Failure),
}

impl View for SearchRecipeError {
    type V = Fault;

    open spec fn view(&self) -> Fault {
        match self {
            SearchRecipeError::Unknown(failure) => Fault::Unknown(failure@),
        }
    }
}

/// Why a create failed.
#[derive(Debug)]
pub enum CreateRecipeError {
    Unknown(Failure),
}

impl View for CreateRecipeError {
    type V = Fault;

    open spec fn view(&self) -> Fault {
        match self {
            CreateRecipeError::Unknown(failure) => Fault::Unknown(failure@),
        }
    }
}

/// Why an update failed.
#[derive(Debug)]
pub enum UpdateRecipeError {
    Unknown(Failure),
    NotFound,
}

impl View for UpdateRecipeError {
    type V = Fault;

    open spec fn view(&self) -> Fault {
        match self {
            UpdateRecipeError::Unknown(failure) => Fault::Unknown(failure@),
            UpdateRecipeError::NotFound => Fault::NotFound,
        }
    }
}

/// Why a delete failed.
#[derive(Debug)]
pub enum DeleteRecipeError {
    Unknown(Failure),
    NotFound,
}

impl View for DeleteRecipeError {
    type V = Fault;

    open spec fn view(&self) -> Fault {
        match self {
            DeleteRecipeError::Unknown(failure) => Fault::Unknown(failure@),
            DeleteRecipeError::NotFound => Fault::NotFound,
        }
    }
}

impl ListRecipeError {
    /// The text that reports the error.
    pub fn message(&self) -> (text: String)
        ensures
            text@ == fault_message(self@),
    {
        match self {
            ListRecipeError::Unknown(failure) => failure.message(),
        }
    }
}

impl SearchRecipeError {
    /// The text that reports the error.
    pub fn message(&self) -> (text: String)
        ensures
            text@ == fault_message(self@),
    {
        match self {
            SearchRecipeError::Unknown(failure) => failure.message(),
        }
    }
}

impl CreateRecipeError {
    /// The text that reports the error.
    pub fn message(&self) -> (text: String)
        ensures
            text@ == fault_message(self@),
    {
        match self {
            CreateRecipeError::Unknown(failure) => failure.message(),
        }
    }
}

impl UpdateRecipeError {
    /// The text that reports the error.
    pub fn message(&self) -> (text: String)
        ensures
            text@ == fault_message(self@),
    {
        match self {
            UpdateRecipeError::Unknown(failure) => failure.message(),
            UpdateRecipeError::NotFound => not_found_text(),
        }
    }
}

impl DeleteRecipeError {
    /// The text that reports the error.
    pub fn message(&self) -> (text: String)
        ensures
            text@ == fault_message(self@),
    {
        match self {
            DeleteRecipeError::Unknown(failure) => failure.message(),
            DeleteRecipeError::NotFound => not_found_text(),
        }
    }
}

} // verus!
