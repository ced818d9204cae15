//! The domain objects: recipes as the service and its callers see them.
//!
//! They differ from the persisted entities in shape, not in content: an
//! ingredient of the domain has no identity and no order of its own, its
//! place in the list is its order. Every conversion here keeps the view.
//!
//! A conversion that builds a new list has no `from_spec`: no value of the
//! specification language names a fresh list. Its contract is the `ensures`
//! of its `from`, over the views.

use vstd::prelude::*;
use vstd::std_specs::convert::FromSpecImpl;
use crate::entity::{
    IngredientEntity, MutableIngredientEntity, MutableRecipeEntity, RecipeEntity,
    SearchRecipesArguments,
};
use crate::failure::{fault_message, not_found_text, Failure, Fault};
use crate::measure::{CookingTime, Quantity};
use crate::model::{
    text_view, views, CriteriaView, IngredientView, Meal, RecipeContentView, RecipeView,
    StoredIngredientView, StoredRecipeView, Unit,
};

verus! {

/// The unit of an ingredient quantity.
#[derive(Clone, Copy, Debug, PartialEq, Eq, Structural)]
pub enum QuantityType {
    Count,
    Kilo,
    Gram,
    Liter,
    Milliliter,
}

impl View for QuantityType {
    type V = Unit;

    open spec fn view(&self) -> Unit {
        match self {
            QuantityType::Count => Unit::Count,
            QuantityType::Kilo => Unit::Kilo,
            QuantityType::Gram => Unit::Gram,
            QuantityType::Liter => Unit::Liter,
            QuantityType::Milliliter => Unit::Milliliter,
        }
    }
}

/// The unit of the domain for a persisted unit.
pub open spec fn unit_of_entity(value: crate::entity::QuantityType) -> QuantityType {
    match value {
        crate::entity::QuantityType::Count => QuantityType::Count,
        crate::entity::QuantityType::Kilo => QuantityType::Kilo,
        crate::entity::QuantityType::Gram => QuantityType::Gram,
        crate::entity::QuantityType::Liter => QuantityType::Liter,
        crate::entity::QuantityType::Milliliter => QuantityType::Milliliter,
    }
}

/// The persisted unit for a unit of the domain.
pub open spec fn unit_to_entity(value: QuantityType) -> crate::entity::QuantityType {
    match value {
        QuantityType::Count => crate::entity::QuantityType::Count,
        QuantityType::Kilo => crate::entity::QuantityType::Kilo,
        QuantityType::Gram => crate::entity::QuantityType::Gram,
        QuantityType::Liter => crate::entity::QuantityType::Liter,
        QuantityType::Milliliter => crate::entity::QuantityType::Milliliter,
    }
}

impl From<crate::entity::QuantityType> for QuantityType {
    fn from(value: crate::entity::QuantityType) -> (unit: Self)
        ensures
            unit@ == value@,
    {
        match value {
            crate::entity::QuantityType::Count => QuantityType::Count,
            crate::entity::QuantityType::Kilo => QuantityType::Kilo,
            crate::entity::QuantityType::Gram => QuantityType::Gram,
            crate::entity::QuantityType::Liter => QuantityType::Liter,
            crate::entity::QuantityType::Milliliter => QuantityType::Milliliter,
        }
    }
}

impl FromSpecImpl<crate::entity::QuantityType> for QuantityType {
    open spec fn obeys_from_spec() -> bool {
        true
    }

    open spec fn from_spec(value: crate::entity::QuantityType) -> Self {
        unit_of_entity(value)
    }
}

impl From<QuantityType> for crate::entity::QuantityType {
    fn from(value: QuantityType) -> (unit: Self)
        ensures
            unit@ == value@,
    {
        match value {
            QuantityType::Count => crate::entity::QuantityType::Count,
            QuantityType::Kilo => crate::entity::QuantityType::Kilo,
            QuantityType::Gram => crate::entity::QuantityType::Gram,
            QuantityType::Liter => crate::entity::QuantityType::Liter,
            QuantityType::Milliliter => crate::entity::QuantityType::Milliliter,
        }
    }
}

impl FromSpecImpl<QuantityType> for crate::entity::QuantityType {
    open spec fn obeys_from_spec() -> bool {
        true
    }

    open spec fn from_spec(value: QuantityType) -> Self {
        unit_to_entity(value)
    }
}

/// The meal a recipe is meant for.
#[derive(Clone, Copy, Debug, PartialEq, Eq, Structural)]
pub enum MealType {
    Breakfast,
    Lunch,
    Dinner,
}

impl View for MealType {
    type V = Meal;

    open spec fn view(&self) -> Meal {
        match self {
            MealType::Breakfast => Meal::Breakfast,
            MealType::Lunch => Meal::Lunch,
            MealType::Dinner => Meal::Dinner,
        }
    }
}

/// The meal of the domain for a persisted meal.
pub open spec fn meal_of_entity(value: crate::entity::MealType) -> MealType {
    match value {
        crate::entity::MealType::Breakfast => MealType::Breakfast,
        crate::entity::MealType::Lunch => MealType::Lunch,
        crate::entity::MealType::Dinner => MealType::Dinner,
    }
}

/// The persisted meal for a meal of the domain.
pub open spec fn meal_to_entity(value: MealType) -> crate::entity::MealType {
    match value {
        MealType::Breakfast => crate::entity::MealType::Breakfast,
        MealType::Lunch => crate::entity::MealType::Lunch,
        MealType::Dinner => crate::entity::MealType::Dinner,
    }
}

impl From<crate::entity::MealType> for MealType {
    fn from(value: crate::entity::MealType) -> (meal: Self)
        ensures
            meal@ == value@,
    {
        match value {
            crate::entity::MealType::Breakfast => MealType::Breakfast,
            crate::entity::MealType::Lunch => MealType::Lunch,
            crate::entity::MealType::Dinner => MealType::Dinner,
        }
    }
}

impl FromSpecImpl<crate::entity::MealType> for MealType {
    open spec fn obeys_from_spec() -> bool {
        true
    }

    open spec fn from_spec(value: crate::entity::MealType) -> Self {
        meal_of_entity(value)
    }
}

impl From<MealType> for crate::entity::MealType {
    fn from(value: MealType) -> (meal: Self)
        ensures
            meal@ == value@,
    {
        match value {
            MealType::Breakfast => crate::entity::MealType::Breakfast,
            MealType::Lunch => crate::entity::MealType::Lunch,
            MealType::Dinner => crate::entity::MealType::Dinner,
        }
    }
}

impl FromSpecImpl<MealType> for crate::entity::MealType {
    open spec fn obeys_from_spec() -> bool {
        true
    }

    open spec fn from_spec(value: MealType) -> Self {
        meal_to_entity(value)
    }
}

/// The view of an optional meal of the domain.
pub open spec fn meal_view(meal: Option<MealType>) -> Option<Meal> {
    match meal {
        Some(m) => Some(m@),
        None => None,
    }
}

/// An ingredient of a recipe.
#[derive(Debug)]
pub struct Ingredient {
    pub name: String,
    pub quantity_type: QuantityType,
    pub quantity: Quantity,
}

impl View for Ingredient {
    type V = IngredientView;

    open spec fn view(&self) -> IngredientView {
        IngredientView {
            name: self.name@,
            quantity_type: self.quantity_type@,
            quantity: self.quantity,
        }
    }
}

impl From<IngredientEntity> for Ingredient {
    /// The ingredient without its identities and its order.
    fn from(value: IngredientEntity) -> (ingredient: Self)
        ensures
            ingredient@ == value@.content(),
    {
        Ingredient {
            name: value.name,
            quantity_type: QuantityType::from(value.quantity_type),
            quantity: value.quantity,
        }
    }
}

impl FromSpecImpl<IngredientEntity> for Ingredient {
    open spec fn obeys_from_spec() -> bool {
        true
    }

    open spec fn from_spec(value: IngredientEntity) -> Self {
        Ingredient {
            name: value.name,
            quantity_type: unit_of_entity(value.quantity_type),
            quantity: value.quantity,
        }
    }
}

impl From<Ingredient> for MutableIngredientEntity {
    fn from(value: Ingredient) -> (entity: Self)
        ensures
            entity@ == value@,
    {
        MutableIngredientEntity {
            name: value.name,
            quantity_type: crate::entity::QuantityType::from(value.quantity_type),
            quantity: value.quantity,
        }
    }
}

impl FromSpecImpl<Ingredient> for MutableIngredientEntity {
    open spec fn obeys_from_spec() -> bool {
        true
    }

    open spec fn from_spec(value: Ingredient) -> Self {
        MutableIngredientEntity {
            name: value.name,
            quantity_type: unit_to_entity(value.quantity_type),
            quantity: value.quantity,
        }
    }
}

/// The ingredients of the domain for persisted ingredients, in order.
pub fn ingredients_from_entities(entities: Vec<IngredientEntity>) -> (ingredients: Vec<Ingredient>)
    ensures
        views(ingredients@) == views(entities@).map_values(
            |entity: StoredIngredientView| entity.content(),
        ),
{
    let ghost target = views(entities@).map_values(|entity: StoredIngredientView| entity.content());
    let mut ingredients: Vec<Ingredient> = Vec::new();
    proof {
        assert(views(ingredients@) =~= target.take(0));
    }
    for entity in it: entities
        invariant
            it.seq() == entities@,
            target == views(entities@).map_values(|entity: StoredIngredientView| entity.content()),
            ingredients@.len() == it.index(),
            views(ingredients@) == target.take(it.index() as int),
    {
        let ghost before = ingredients@;
        let ghost at = it.index() as int;
        ingredients.push(Ingredient::from(entity));
        proof {
            assert(views(ingredients@) =~= views(before).push(ingredients@[at]@));
            assert(target.take(at + 1) =~= target.take(at).push(target[at]));
        }
    }
    proof {
        assert(target.take(entities.len() as int) =~= target);
    }
    ingredients
}

/// The ingredients to persist for ingredients of the domain, in order.
pub fn ingredients_to_entities(ingredients: Vec<Ingredient>) -> (entities: Vec<
    MutableIngredientEntity,
>)
    ensures
        views(entities@) == views(ingredients@),
{
    let ghost target = views(ingredients@);
    let mut entities: Vec<MutableIngredientEntity> = Vec::new();
    proof {
        assert(views(entities@) =~= target.take(0));
    }
    for ingredient in it: ingredients
        invariant
            it.seq() == ingredients@,
            target == views(ingredients@),
            entities@.len() == it.index(),
            views(entities@) == target.take(it.index() as int),
    {
        let ghost before = entities@;
        let ghost at = it.index() as int;
        entities.push(MutableIngredientEntity::from(ingredient));
        proof {
            assert(views(entities@) =~= views(before).push(entities@[at]@));
            assert(target.take(at + 1) =~= target.take(at).push(target[at]));
        }
    }
    proof {
        assert(target.take(ingredients.len() as int) =~= target);
    }
    entities
}

/// A recipe with its identity.
#[derive(Debug)]
pub struct Recipe {
    pub recipe_id: i32,
    pub name: String,
    pub description: Option<String>,
    pub ingredients: Vec<Ingredient>,
    pub cooking_time: Option<CookingTime>,
    pub meal_type: MealType,
}

impl View for Recipe {
    type V = RecipeView;

    open spec fn view(&self) -> RecipeView {
        RecipeView {
            recipe_id: self.recipe_id,
            name: self.name@,
            description: text_view(self.description),
            ingredients: views(self.ingredients@),
            cooking_time: self.cooking_time,
            meal_type: self.meal_type@,
        }
    }
}

impl From<RecipeEntity> for Recipe {
    /// The recipe of the domain for a persisted recipe: the same content,
    /// the ingredients in stored order without their identities.
    fn from(value: RecipeEntity) -> (recipe: Self)
        ensures
            recipe@ == value@.recipe(),
    {
        Recipe {
            recipe_id: value.recipe_id,
            name: value.name,
            description: value.description,
            ingredients: ingredients_from_entities(value.ingredients),
            cooking_time: value.cooking_time,
            meal_type: MealType::from(value.meal_type),
        }
    }
}

impl FromSpecImpl<RecipeEntity> for Recipe {
    open spec fn obeys_from_spec() -> bool {
        false
    }

    open spec fn from_spec(value: RecipeEntity) -> Self {
        arbitrary()
    }
}

impl From<Recipe> for MutableRecipeEntity {
    /// What is submitted to the repository to update a recipe: its content
    /// without its identity.
    fn from(value: Recipe) -> (entity: Self)
        ensures
            entity@ == value@.content(),
    {
        MutableRecipeEntity {
            name: value.name,
            description: value.description,
            ingredients: ingredients_to_entities(value.ingredients),
            cooking_time: value.cooking_time,
            meal_type: crate::entity::MealType::from(value.meal_type),
        }
    }
}

impl FromSpecImpl<Recipe> for MutableRecipeEntity {
    open spec fn obeys_from_spec() -> bool {
        false
    }

    open spec fn from_spec(value: Recipe) -> Self {
        arbitrary()
    }
}

/// A recipe that has not been stored yet.
#[derive(Debug)]
pub struct NewRecipe {
    pub name: String,
    pub description: Option<String>,
    pub ingredients: Vec<Ingredient>,
    pub cooking_time: Option<CookingTime>,
    pub meal_type: MealType,
}

impl View for NewRecipe {
    type V = RecipeContentView;

    open spec fn view(&self) -> RecipeContentView {
        RecipeContentView {
            name: self.name@,
            description: text_view(self.description),
            ingredients: views(self.ingredients@),
            cooking_time: self.cooking_time,
            meal_type: self.meal_type@,
        }
    }
}

impl From<NewRecipe> for MutableRecipeEntity {
    /// What is submitted to the repository to create the recipe.
    fn from(value: NewRecipe) -> (entity: Self)
        ensures
            entity@ == value@,
    {
        MutableRecipeEntity {
            name: value.name,
            description: value.description,
            ingredients: ingredients_to_entities(value.ingredients),
            cooking_time: value.cooking_time,
            meal_type: crate::entity::MealType::from(value.meal_type),
        }
    }
}

impl FromSpecImpl<NewRecipe> for MutableRecipeEntity {
    open spec fn obeys_from_spec() -> bool {
        false
    }

    open spec fn from_spec(value: NewRecipe) -> Self {
        arbitrary()
    }
}

/// The criteria of a search. A criterion that is `None` matches everything.
#[derive(Debug)]
pub struct SearchCriteria {
    pub recipe_name: Option<String>,
    pub ingredient_name: Option<String>,
    pub meal_type: Option<MealType>,
}

impl View for SearchCriteria {
    type V = CriteriaView;

    open spec fn view(&self) -> CriteriaView {
        CriteriaView {
            recipe_name: text_view(self.recipe_name),
            ingredient_name: text_view(self.ingredient_name),
            meal_type: meal_view(self.meal_type),
        }
    }
}

impl From<SearchCriteria> for SearchRecipesArguments {
    fn from(value: SearchCriteria) -> (args: Self)
        ensures
            args@ == value@,
    {
        SearchRecipesArguments {
            recipe_name: value.recipe_name,
            ingredient_name: value.ingredient_name,
            meal_type: match value.meal_type {
                Some(meal) => Some(crate::entity::MealType::from(meal)),
                None => None,
            },
        }
    }
}

impl FromSpecImpl<SearchCriteria> for SearchRecipesArguments {
    open spec fn obeys_from_spec() -> bool {
        true
    }

    open spec fn from_spec(value: SearchCriteria) -> Self {
        SearchRecipesArguments {
            recipe_name: value.recipe_name,
            ingredient_name: value.ingredient_name,
            meal_type: match value.meal_type {
                Some(meal) => Some(meal_to_entity(meal)),
                None => None,
            },
        }
    }
}

/// The recipes of the domain for persisted recipes, in order.
pub fn recipes_from_entities(entities: Vec<RecipeEntity>) -> (recipes: Vec<Recipe>)
    ensures
        views(recipes@) == views(entities@).map_values(|entity: StoredRecipeView| entity.recipe()),
{
    let ghost target = views(entities@).map_values(|entity: StoredRecipeView| entity.recipe());
    let mut recipes: Vec<Recipe> = Vec::new();
    proof {
        assert(views(recipes@) =~= target.take(0));
    }
    for entity in it: entities
        invariant
            it.seq() == entities@,
            target == views(entities@).map_values(|entity: StoredRecipeView| entity.recipe()),
            recipes@.len() == it.index(),
            views(recipes@) == target.take(it.index() as int),
    {
        let ghost before = recipes@;
        let ghost at = it.index() as int;
        recipes.push(Recipe::from(entity));
        proof {
            assert(views(recipes@) =~= views(before).push(recipes@[at]@));
            assert(target.take(at + 1) =~= target.take(at).push(target[at]));
        }
    }
    proof {
        assert(target.take(entities.len() as int) =~= target);
    }
    recipes
}

/// Why listing failed.
#[derive(Debug)]
pub enum ListRecipeError {
    Unknown(Failure),
}

impl View for ListRecipeError {
    type V = Fault;

    open spec fn view(&self) -> Fault {
        match self {
            ListRecipeError::Unknown(failure) => Fault::Unknown(failure@),
        }
    }
}

impl From<crate::entity::ListRecipeError> for ListRecipeError {
    /// The same kind of error, with the same failure.
    fn from(value: crate::entity::ListRecipeError) -> (error: Self)
        ensures
            error@ == value@,
    {
        match value {
            crate::entity::ListRecipeError::Unknown(failure) => ListRecipeError::Unknown(failure),
        }
    }
}

impl FromSpecImpl<crate::entity::ListRecipeError> for ListRecipeError {
    open spec fn obeys_from_spec() -> bool {
        true
    }

    open spec fn from_spec(value: crate::entity::ListRecipeError) -> Self {
        match value {
            crate::entity::ListRecipeError::Unknown(failure) => ListRecipeError::Unknown(failure),
        }
    }
}

impl ListRecipeError {
    /// The text that reports the error.
    pub fn message(&self) -> (text: String)
        ensures
            text@ == fault_message(self@),
    {
        match self {
            ListRecipeError::Unknown(failure) => failure.message(),
        }
    }
}

/// Why a search failed.
#[derive(Debug)]
pub enum SearchRecipeError {
    Unknown(Failure),
}

impl View for SearchRecipeError {
    type V = Fault;

    open spec fn view(&self) -> Fault {
        match self {
            SearchRecipeError::Unknown(failure) => Fault::Unknown(failure@),
        }
    }
}

impl From<crate::entity::SearchRecipeError> for SearchRecipeError {
    /// The same kind of error, with the same failure.
    fn from(value: crate::entity::SearchRecipeError) -> (error: Self)
        ensures
            error@ == value@,
    {
        match value {
            crate::entity::SearchRecipeError::Unknown(failure) => SearchRecipeError::Unknown(failure),
        }
    }
}

impl FromSpecImpl<crate::entity::SearchRecipeError> for SearchRecipeError {
    open spec fn obeys_from_spec() -> bool {
        true
    }

    open spec fn from_spec(value: crate::entity::SearchRecipeError) -> Self {
        match value {
            crate::entity::SearchRecipeError::Unknown(failure) => SearchRecipeError::Unknown(failure),
        }
    }
}

impl SearchRecipeError {
    /// The text that reports the error.
    pub fn message(&self) -> (text: String)
        ensures
            text@ == fault_message(self@),
    {
        match self {
            SearchRecipeError::Unknown(failure) => failure.message(),
        }
    }
}

/// Why a create failed.
#[derive(Debug)]
pub enum CreateRecipeError {
    Unknown(Failure),
}

impl View for CreateRecipeError {
    type V = Fault;

    open spec fn view(&self) -> Fault {
        match self {
            CreateRecipeError::Unknown(failure) => Fault::Unknown(failure@),
        }
    }
}

impl From<crate::entity::CreateRecipeError> for CreateRecipeError {
    /// The same kind of error, with the same failure.
    fn from(value: crate::entity::CreateRecipeError) -> (error: Self)
        ensures
            error@ == value@,
    {
        match value {
            crate::entity::CreateRecipeError::Unknown(failure) => CreateRecipeError::Unknown(failure),
        }
    }
}

impl FromSpecImpl<crate::entity::CreateRecipeError> for CreateRecipeError {
    open spec fn obeys_from_spec() -> bool {
        true
    }

    open spec fn from_spec(value: crate::entity::CreateRecipeError) -> Self {
        match value {
            crate::entity::CreateRecipeError::Unknown(failure) => CreateRecipeError::Unknown(failure),
        }
    }
}

impl CreateRecipeError {
    /// The text that reports the error.
    pub fn message(&self) -> (text: String)
        ensures
            text@ == fault_message(self@),
    {
        match self {
            CreateRecipeError::Unknown(failure) => failure.message(),
        }
    }
}

/// Why an update failed.
#[derive(Debug)]
pub enum UpdateRecipeError {
    Unknown(Failure),
    NotFound,
}

impl View for UpdateRecipeError {
    type V = Fault;

    open spec fn view(&self) -> Fault {
        match self {
            UpdateRecipeError::Unknown(failure) => Fault::Unknown(failure@),
            UpdateRecipeError::NotFound => Fault::NotFound,
        }
    }
}

impl From<crate::entity::UpdateRecipeError> for UpdateRecipeError {
    /// The same kind of error, with the same failure.
    fn from(value: crate::entity::UpdateRecipeError) -> (error: Self)
        ensures
            error@ == value@,
    {
        match value {
            crate::entity::UpdateRecipeError::Unknown(failure) => UpdateRecipeError::Unknown(failure),
            crate::entity::UpdateRecipeError::NotFound => UpdateRecipeError::NotFound,
        }
    }
}

impl FromSpecImpl<crate::entity::UpdateRecipeError> for UpdateRecipeError {
    open spec fn obeys_from_spec() -> bool {
        true
    }

    open spec fn from_spec(value: crate::entity::UpdateRecipeError) -> Self {
        match value {
            crate::entity::UpdateRecipeError::Unknown(failure) => UpdateRecipeError::Unknown(failure),
            crate::entity::UpdateRecipeError::NotFound => UpdateRecipeError::NotFound,
        }
    }
}

impl UpdateRecipeError {
    /// The text that reports the error.
    pub fn message(&self) -> (text: String)
        ensures
            text@ == fault_message(self@),
    {
        match self {
            UpdateRecipeError::Unknown(failure) => failure.message(),
            UpdateRecipeError::NotFound => not_found_text(),
        }
    }
}

/// Why a delete failed.
#[derive(Debug)]
pub enum DeleteRecipeError {
    Unknown(Failure),
    NotFound,
}

impl View for DeleteRecipeError {
    type V = Fault;

    open spec fn view(&self) -> Fault {
        match self {
            DeleteRecipeError::Unknown(failure) => Fault::Unknown(failure@),
            DeleteRecipeError::NotFound => Fault::NotFound,
        }
    }
}

impl From<crate::entity::DeleteRecipeError> for DeleteRecipeError {
    /// The same kind of error, with the same failure.
    fn from(value: crate::entity::DeleteRecipeError) -> (error: Self)
        ensures
            error@ == value@,
    {
        match value {
            crate::entity::DeleteRecipeError::Unknown(failure) => DeleteRecipeError::Unknown(failure),
            crate::entity::DeleteRecipeError::NotFound => DeleteRecipeError::NotFound,
        }
    }
}

impl FromSpecImpl<crate::entity::DeleteRecipeError> for DeleteRecipeError {
    open spec fn obeys_from_spec() -> bool {
        true
    }

    open spec fn from_spec(value: crate::entity::DeleteRecipeError) -> Self {
        match value {
            crate::entity::DeleteRecipeError::Unknown(failure) => DeleteRecipeError::Unknown(failure),
            crate::entity::DeleteRecipeError::NotFound => DeleteRecipeError::NotFound,
        }
    }
}

impl DeleteRecipeError {
    /// The text that reports the error.
    pub fn message(&self) -> (text: String)
        ensures
            text@ == fault_message(self@),
    {
        match self {
            DeleteRecipeError::Unknown(failure) => failure.message(),
            DeleteRecipeError::NotFound => not_found_text(),
        }
    }
}

} // verus!
