//! The wire shapes: what a request carries in and a response carries out.
//!
//! They are the domain objects again, in the shape that is serialized. The
//! conversions keep the view; the errors keep their kind, which decides the
//! status code of the response.

use vstd::prelude::*;
use vstd::std_specs::convert::FromSpecImpl;
use crate::domain::{Ingredient, NewRecipe, Recipe, SearchCriteria};
use crate::failure::{fault_message, not_found_text, Failure, Fault};
use crate::measure::{CookingTime, Quantity};
use crate::model::{
    text_view, views, CriteriaView, IngredientView, Meal, RecipeContentView, RecipeView, Unit,
};

verus! {

/// The unit of an ingredient quantity, on the wire.
#[derive(Clone, Copy, Debug, PartialEq, Eq, Structural)]
pub enum QuantityType {
    Count,
    Kilo,
    Gram,
    Liter,
    Milliliter,
}

impl View for QuantityType {
    type V = Unit;

    open spec fn view(&self) -> Unit {
        match self {
            QuantityType::Count => Unit::Count,
            QuantityType::Kilo => Unit::Kilo,
            QuantityType::Gram => Unit::Gram,
            QuantityType::Liter => Unit::Liter,
            QuantityType::Milliliter => Unit::Milliliter,
        }
    }
}

/// The unit on the wire for a unit of the domain.
pub open spec fn unit_of_domain(value: crate::domain::QuantityType) -> QuantityType {
    match value {
        crate::domain::QuantityType::Count => QuantityType::Count,
        crate::domain::QuantityType::Kilo => QuantityType::Kilo,
        crate::domain::QuantityType::Gram => QuantityType::Gram,
        crate::domain::QuantityType::Liter => QuantityType::Liter,
        crate::domain::QuantityType::Milliliter => QuantityType::Milliliter,
    }
}

/// The unit of the domain for a unit on the wire.
pub open spec fn unit_to_domain(value: QuantityType) -> crate::domain::QuantityType {
    match value {
        QuantityType::Count => crate::domain::QuantityType::Count,
        QuantityType::Kilo => crate::domain::QuantityType::Kilo,
        QuantityType::Gram => crate::domain::QuantityType::Gram,
        QuantityType::Liter => crate::domain::QuantityType::Liter,
        QuantityType::Milliliter => crate::domain::QuantityType::Milliliter,
    }
}

impl From<crate::domain::QuantityType> for QuantityType {
    fn from(value: crate::domain::QuantityType) -> (converted: Self)
        ensures
            converted@ == value@,
    {
        match value {
            crate::domain::QuantityType::Count => QuantityType::Count,
            crate::domain::QuantityType::Kilo => QuantityType::Kilo,
            crate::domain::QuantityType::Gram => QuantityType::Gram,
            crate::domain::QuantityType::Liter => QuantityType::Liter,
            crate::domain::QuantityType::Milliliter => QuantityType::Milliliter,
        }
    }
}

impl FromSpecImpl<crate::domain::QuantityType> for QuantityType {
    open spec fn obeys_from_spec() -> bool {
        true
    }

    open spec fn from_spec(value: crate::domain::QuantityType) -> Self {
        unit_of_domain(value)
    }
}

impl From<QuantityType> for crate::domain::QuantityType {
    fn from(value: QuantityType) -> (converted: Self)
        ensures
            converted@ == value@,
    {
        match value {
            QuantityType::Count => crate::domain::QuantityType::Count,
            QuantityType::Kilo => crate::domain::QuantityType::Kilo,
            QuantityType::Gram => crate::domain::QuantityType::Gram,
            QuantityType::Liter => crate::domain::QuantityType::Liter,
            QuantityType::Milliliter => crate::domain::QuantityType::Milliliter,
        }
    }
}

impl FromSpecImpl<QuantityType> for crate::domain::QuantityType {
    open spec fn obeys_from_spec() -> bool {
        true
    }

    open spec fn from_spec(value: QuantityType) -> Self {
        unit_to_domain(value)
    }
}

/// The meal of a recipe, on the wire.
#[derive(Clone, Copy, Debug, PartialEq, Eq, Structural)]
pub enum MealType {
    Breakfast,
    Lunch,
    Dinner,
}

impl View for MealType {
    type V = Meal;

    open spec fn view(&self) -> Meal {
        match self {
            MealType::Breakfast => Meal::Breakfast,
            MealType::Lunch => Meal::Lunch,
            MealType::Dinner => Meal::Dinner,
        }
    }
}

/// The meal on the wire for a meal of the domain.
pub open spec fn meal_of_domain(value: crate::domain::MealType) -> MealType {
    match value {
        crate::domain::MealType::Breakfast => MealType::Breakfast,
        crate::domain::MealType::Lunch => MealType::Lunch,
        crate::domain::MealType::Dinner => MealType::Dinner,
    }
}

/// The meal of the domain for a meal on the wire.
pub open spec fn meal_to_domain(value: MealType) -> crate::domain::MealType {
    match value {
        MealType::Breakfast => crate::domain::MealType::Breakfast,
        MealType::Lunch => crate::domain::MealType::Lunch,
        MealType::Dinner => crate::domain::MealType::Dinner,
    }
}

impl From<crate::domain::MealType> for MealType {
    fn from(value: crate::domain::MealType) -> (converted: Self)
        ensures
            converted@ == value@,
    {
        match value {
            crate::domain::MealType::Breakfast => MealType::Breakfast,
            crate::domain::MealType::Lunch => MealType::Lunch,
            crate::domain::MealType::Dinner => MealType::Dinner,
        }
    }
}

impl FromSpecImpl<crate::domain::MealType> for MealType {
    open spec fn obeys_from_spec() -> bool {
        true
    }

    open spec fn from_spec(value: crate::domain::MealType) -> Self {
        meal_of_domain(value)
    }
}

impl From<MealType> for crate::domain::MealType {
    fn from(value: MealType) -> (converted: Self)
        ensures
            converted@ == value@,
    {
        match value {
            MealType::Breakfast => crate::domain::MealType::Breakfast,
            MealType::Lunch => crate::domain::MealType::Lunch,
            MealType::Dinner => crate::domain::MealType::Dinner,
        }
    }
}

impl FromSpecImpl<MealType> for crate::domain::MealType {
    open spec fn obeys_from_spec() -> bool {
        true
    }

    open spec fn from_spec(value: MealType) -> Self {
        meal_to_domain(value)
    }
}

/// An ingredient on the wire.
#[derive(Debug)]
pub struct IngredientDto {
    pub name: String,
    pub quantity_type: QuantityType,
    pub quantity: Quantity,
}

impl View for IngredientDto {
    type V = IngredientView;

    open spec fn view(&self) -> IngredientView {
        IngredientView {
            name: self.name@,
            quantity_type: self.quantity_type@,
            quantity: self.quantity,
        }
    }
}

impl From<Ingredient> for IngredientDto {
    fn from(value: Ingredient) -> (dto: Self)
        ensures
            dto@ == value@,
    {
        IngredientDto {
            name: value.name,
            quantity_type: QuantityType::from(value.quantity_type),
            quantity: value.quantity,
        }
    }
}

impl FromSpecImpl<Ingredient> for IngredientDto {
    open spec fn obeys_from_spec() -> bool {
        true
    }

    open spec fn from_spec(value: Ingredient) -> Self {
        IngredientDto {
            name: value.name,
            quantity_type: unit_of_domain(value.quantity_type),
            quantity: value.quantity,
        }
    }
}

impl From<IngredientDto> for Ingredient {
    fn from(value: IngredientDto) -> (ingredient: Self)
        ensures
            ingredient@ == value@,
    {
        Ingredient {
            name: value.name,
            quantity_type: crate::domain::QuantityType::from(value.quantity_type),
            quantity: value.quantity,
        }
    }
}

impl FromSpecImpl<IngredientDto> for Ingredient {
    open spec fn obeys_from_spec() -> bool {
        true
    }

    open spec fn from_spec(value: IngredientDto) -> Self {
        Ingredient {
            name: value.name,
            quantity_type: unit_to_domain(value.quantity_type),
            quantity: value.quantity,
        }
    }
}

/// The ingredients on the wire for ingredients of the domain, in order.
pub fn ingredients_to_wire(items: Vec<Ingredient>) -> (converted: Vec<IngredientDto>)
    ensures
        views(converted@) == views(items@),
{
    let ghost target = views(items@);
    let mut converted: Vec<IngredientDto> = Vec::new();
    proof {
        assert(views(converted@) =~= target.take(0));
    }
    for item in it: items
        invariant
            it.seq() == items@,
            target == views(items@),
            converted@.len() == it.index(),
            views(converted@) == target.take(it.index() as int),
    {
        let ghost before = converted@;
        let ghost at = it.index() as int;
        converted.push(IngredientDto::from(item));
        proof {
            assert(views(converted@) =~= views(before).push(converted@[at]@));
            assert(target.take(at + 1) =~= target.take(at).push(target[at]));
        }
    }
    proof {
        assert(target.take(items.len() as int) =~= target);
    }
    converted
}

/// The ingredients of the domain for ingredients on the wire, in order.
pub fn ingredients_from_wire(items: Vec<IngredientDto>) -> (converted: Vec<Ingredient>)
    ensures
        views(converted@) == views(items@),
{
    let ghost target = views(items@);
    let mut converted: Vec<Ingredient> = Vec::new();
    proof {
        assert(views(converted@) =~= target.take(0));
    }
    for item in it: items
        invariant
            it.seq() == items@,
            target == views(items@),
            converted@.len() == it.index(),
            views(converted@) == target.take(it.index() as int),
    {
        let ghost before = converted@;
        let ghost at = it.index() as int;
        converted.push(Ingredient::from(item));
        proof {
            assert(views(converted@) =~= views(before).push(converted@[at]@));
            assert(target.take(at + 1) =~= target.take(at).push(target[at]));
        }
    }
    proof {
        assert(target.take(items.len() as int) =~= target);
    }
    converted
}

/// A recipe on the wire.
#[derive(Debug)]
pub struct RecipeDto {
    pub recipe_id: i32,
    pub name: String,
    pub description: Option<String>,
    pub ingredients: Vec<IngredientDto>,
    pub cooking_time: Option<CookingTime>,
    pub meal_type: MealType,
}

impl View for RecipeDto {
    type V = RecipeView;

    open spec fn view(&self) -> RecipeView {
        RecipeView {
            recipe_id: self.recipe_id,
            name: self.name@,
            description: text_view(self.description),
            ingredients: views(self.ingredients@),
            cooking_time: self.cooking_time,
            meal_type: self.meal_type@,
        }
    }
}

impl From<Recipe> for RecipeDto {
    /// The recipe as a response carries it.
    fn from(value: Recipe) -> (dto: Self)
        ensures
            dto@ == value@,
    {
        RecipeDto {
            recipe_id: value.recipe_id,
            name: value.name,
            description: value.description,
            ingredients: ingredients_to_wire(value.ingredients),
            cooking_time: value.cooking_time,
            meal_type: MealType::from(value.meal_type),
        }
    }
}

impl FromSpecImpl<Recipe> for RecipeDto {
    open spec fn obeys_from_spec() -> bool {
        false
    }

    open spec fn from_spec(value: Recipe) -> Self {
        arbitrary()
    }
}

/// The recipes on the wire for recipes of the domain, in order.
pub fn recipes_to_wire(items: Vec<Recipe>) -> (converted: Vec<RecipeDto>)
    ensures
        views(converted@) == views(items@),
{
    let ghost target = views(items@);
    let mut converted: Vec<RecipeDto> = Vec::new();
    proof {
        assert(views(converted@) =~= target.take(0));
    }
    for item in it: items
        invariant
            it.seq() == items@,
            target == views(items@),
            converted@.len() == it.index(),
            views(converted@) == target.take(it.index() as int),
    {
        let ghost before = converted@;
        let ghost at = it.index() as int;
        converted.push(RecipeDto::from(item));
        proof {
            assert(views(converted@) =~= views(before).push(converted@[at]@));
            assert(target.take(at + 1) =~= target.take(at).push(target[at]));
        }
    }
    proof {
        assert(target.take(items.len() as int) =~= target);
    }
    converted
}

/// The recipe that an update request asks for: the content of its body
/// under the identity of its path. The identity in the body is not looked at.
pub fn recipe_for_update(recipe_id: i32, data: RecipeDto) -> (recipe: Recipe)
    ensures
        recipe@ == (RecipeView { recipe_id, ..data@ }),
{
    Recipe {
        recipe_id,
        name: data.name,
        description: data.description,
        ingredients: ingredients_from_wire(data.ingredients),
        cooking_time: data.cooking_time,
        meal_type: crate::domain::MealType::from(data.meal_type),
    }
}

/// A recipe to create, on the wire.
#[derive(Debug)]
pub struct NewRecipeDto {
    pub name: String,
    pub description: Option<String>,
    pub ingredients: Vec<IngredientDto>,
    pub cooking_time: Option<CookingTime>,
    pub meal_type: MealType,
}

impl View for NewRecipeDto {
    type V = RecipeContentView;

    open spec fn view(&self) -> RecipeContentView {
        RecipeContentView {
            name: self.name@,
            description: text_view(self.description),
            ingredients: views(self.ingredients@),
            cooking_time: self.cooking_time,
            meal_type: self.meal_type@,
        }
    }
}

impl From<NewRecipeDto> for NewRecipe {
    /// The recipe that a create request asks for.
    fn from(value: NewRecipeDto) -> (recipe: Self)
        ensures
            recipe@ == value@,
    {
        NewRecipe {
            name: value.name,
            description: value.description,
            ingredients: ingredients_from_wire(value.ingredients),
            cooking_time: value.cooking_time,
            meal_type: crate::domain::MealType::from(value.meal_type),
        }
    }
}

impl FromSpecImpl<NewRecipeDto> for NewRecipe {
    open spec fn obeys_from_spec() -> bool {
        false
    }

    open spec fn from_spec(value: NewRecipeDto) -> Self {
        arbitrary()
    }
}

/// The criteria of a search, on the wire. A criterion that is absent
/// matches everything.
#[derive(Debug)]
pub struct SearchCriteriaDto {
    pub recipe_name: Option<String>,
    pub ingredient_name: Option<String>,
    pub meal_type: Option<MealType>,
}

impl View for SearchCriteriaDto {
    type V = CriteriaView;

    open spec fn view(&self) -> CriteriaView {
        CriteriaView {
            recipe_name: text_view(self.recipe_name),
            ingredient_name: text_view(self.ingredient_name),
            meal_type: match self.meal_type {
                Some(meal) => Some(meal@),
                None => None,
            },
        }
    }
}

impl From<SearchCriteriaDto> for SearchCriteria {
    fn from(value: SearchCriteriaDto) -> (criteria: Self)
        ensures
            criteria@ == value@,
    {
        SearchCriteria {
            recipe_name: value.recipe_name,
            ingredient_name: value.ingredient_name,
            meal_type: match value.meal_type {
                Some(meal) => Some(crate::domain::MealType::from(meal)),
                None => None,
            },
        }
    }
}

impl FromSpecImpl<SearchCriteriaDto> for SearchCriteria {
    open spec fn obeys_from_spec() -> bool {
        true
    }

    open spec fn from_spec(value: SearchCriteriaDto) -> Self {
        SearchCriteria {
            recipe_name: value.recipe_name,
            ingredient_name: value.ingredient_name,
            meal_type: match value.meal_type {
                Some(meal) => Some(meal_to_domain(meal)),
                None => None,
            },
        }
    }
}

/// The status code that reports a fault: 404 for a recipe that is not
/// there, 500 for a failure of the store.
pub open spec fn status_of(fault: Fault) -> u16 {
    match fault {
        Fault::Unknown(_) => 500,
        Fault::NotFound => 404,
    }
}

/// Why a list request failed.
#[derive(Debug)]
pub enum ListRecipeError {
    Unknown(Failure),
}

impl View for ListRecipeError {
    type V = Fault;

    open spec fn view(&self) -> Fault {
        match self {
            ListRecipeError::Unknown(failure) => Fault::Unknown(failure@),
        }
    }
}

impl From<crate::domain::ListRecipeError> for ListRecipeError {
    /// The same kind of error, with the same failure.
    fn from(value: crate::domain::ListRecipeError) -> (error: Self)
        ensures
            error@ == value@,
    {
        match value {
            crate::domain::ListRecipeError::Unknown(failure) => ListRecipeError::Unknown(failure),
        }
    }
}

impl FromSpecImpl<crate::domain::ListRecipeError> for ListRecipeError {
    open spec fn obeys_from_spec() -> bool {
        true
    }

    open spec fn from_spec(value: crate::domain::ListRecipeError) -> Self {
        match value {
            crate::domain::ListRecipeError::Unknown(failure) => ListRecipeError::Unknown(failure),
        }
    }
}

impl ListRecipeError {
    /// The status code of the response that reports the error.
    pub fn status_code(&self) -> (code: u16)
        ensures
            code == status_of(self@),
    {
        match self {
            ListRecipeError::Unknown(_) => 500,
        }
    }

    /// The text of the response that reports the error. It names the step
    /// that failed, never what the store said.
    pub fn message(&self) -> (text: String)
        ensures
            text@ == fault_message(self@),
    {
        match self {
            ListRecipeError::Unknown(failure) => failure.message(),
        }
    }
}

/// Why a search request failed.
#[derive(Debug)]
pub enum SearchRecipeError {
    Unknown(Failure),
}

impl View for SearchRecipeError {
    type V = Fault;

    open spec fn view(&self) -> Fault {
        match self {
            SearchRecipeError::Unknown(failure) => Fault::Unknown(failure@),
        }
    }
}

impl From<crate::domain::SearchRecipeError> for SearchRecipeError {
    /// The same kind of error, with the same failure.
    fn from(value: crate::domain::SearchRecipeError) -> (error: Self)
        ensures
            error@ == value@,
    {
        match value {
            crate::domain::SearchRecipeError::Unknown(failure) => SearchRecipeError::Unknown(failure),
        }
    }
}

impl FromSpecImpl<crate::domain::SearchRecipeError> for SearchRecipeError {
    open spec fn obeys_from_spec() -> bool {
        true
    }

    open spec fn from_spec(value: crate::domain::SearchRecipeError) -> Self {
        match value {
            crate::domain::SearchRecipeError::Unknown(failure) => SearchRecipeError::Unknown(failure),
        }
    }
}

impl SearchRecipeError {
    /// The status code of the response that reports the error.
    pub fn status_code(&self) -> (code: u16)
        ensures
            code == status_of(self@),
    {
        match self {
            SearchRecipeError::Unknown(_) => 500,
        }
    }

    /// The text of the response that reports the error. It names the step
    /// that failed, never what the store said.
    pub fn message(&self) -> (text: String)
        ensures
            text@ == fault_message(self@),
    {
        match self {
            SearchRecipeError::Unknown(failure) => failure.message(),
        }
    }
}

/// Why a create request failed.
#[derive(Debug)]
pub enum CreateRecipeError {
    Unknown(Failure),
}

impl View for CreateRecipeError {
    type V = Fault;

    open spec fn view(&self) -> Fault {
        match self {
            CreateRecipeError::Unknown(failure) => Fault::Unknown(failure@),
        }
    }
}

impl From<crate::domain::CreateRecipeError> for CreateRecipeError {
    /// The same kind of error, with the same failure.
    fn from(value: crate::domain::CreateRecipeError) -> (error: Self)
        ensures
            error@ == value@,
    {
        match value {
            crate::domain::CreateRecipeError::Unknown(failure) => CreateRecipeError::Unknown(failure),
        }
    }
}

impl FromSpecImpl<crate::domain::CreateRecipeError> for CreateRecipeError {
    open spec fn obeys_from_spec() -> bool {
        true
    }

    open spec fn from_spec(value: crate::domain::CreateRecipeError) -> Self {
        match value {
            crate::domain::CreateRecipeError::Unknown(failure) => CreateRecipeError::Unknown(failure),
        }
    }
}

impl CreateRecipeError {
    /// The status code of the response that reports the error.
    pub fn status_code(&self) -> (code: u16)
        ensures
            code == status_of(self@),
    {
        match self {
            CreateRecipeError::Unknown(_) => 500,
        }
    }

    /// The text of the response that reports the error. It names the step
    /// that failed, never what the store said.
    pub fn message(&self) -> (text: String)
        ensures
            text@ == fault_message(self@),
    {
        match self {
            CreateRecipeError::Unknown(failure) => failure.message(),
        }
    }
}

/// Why an update request failed.
#[derive(Debug)]
pub enum UpdateRecipeError {
    Unknown(Failure),
    NotFound,
}

impl View for UpdateRecipeError {
    type V = Fault;

    open spec fn view(&self) -> Fault {
        match self {
            UpdateRecipeError::Unknown(failure) => Fault::Unknown(failure@),
            UpdateRecipeError::NotFound => Fault::NotFound,
        }
    }
}

impl From<crate::domain::UpdateRecipeError> for UpdateRecipeError {
    /// The same kind of error, with the same failure.
    fn from(value: crate::domain::UpdateRecipeError) -> (error: Self)
        ensures
            error@ == value@,
    {
        match value {
            crate::domain::UpdateRecipeError::Unknown(failure) => UpdateRecipeError::Unknown(failure),
            crate::domain::UpdateRecipeError::NotFound => UpdateRecipeError::NotFound,
        }
    }
}

impl FromSpecImpl<crate::domain::UpdateRecipeError> for UpdateRecipeError {
    open spec fn obeys_from_spec() -> bool {
        true
    }

    open spec fn from_spec(value: crate::domain::UpdateRecipeError) -> Self {
        match value {
            crate::domain::UpdateRecipeError::Unknown(failure) => UpdateRecipeError::Unknown(failure),
            crate::domain::UpdateRecipeError::NotFound => UpdateRecipeError::NotFound,
        }
    }
}

impl UpdateRecipeError {
    /// The status code of the response that reports the error.
    pub fn status_code(&self) -> (code: u16)
        ensures
            code == status_of(self@),
    {
        match self {
            UpdateRecipeError::Unknown(_) => 500,
            UpdateRecipeError::NotFound => 404,
        }
    }

    /// The text of the response that reports the error. It names the step
    /// that failed, never what the store said.
    pub fn message(&self) -> (text: String)
        ensures
            text@ == fault_message(self@),
    {
        match self {
            UpdateRecipeError::Unknown(failure) => failure.message(),
            UpdateRecipeError::NotFound => not_found_text(),
        }
    }
}

/// Why a delete request failed.
#[derive(Debug)]
pub enum DeleteRecipeError {
    Unknown(Failure),
    NotFound,
}

impl View for DeleteRecipeError {
    type V = Fault;

    open spec fn view(&self) -> Fault {
        match self {
            DeleteRecipeError::Unknown(failure) => Fault::Unknown(failure@),
            DeleteRecipeError::NotFound => Fault::NotFound,
        }
    }
}

impl From<crate::domain::DeleteRecipeError> for DeleteRecipeError {
    /// The same kind of error, with the same failure.
    fn from(value: crate::domain::DeleteRecipeError) -> (error: Self)
        ensures
            error@ == value@,
    {
        match value {
            crate::domain::DeleteRecipeError::Unknown(failure) => DeleteRecipeError::Unknown(failure),
            crate::domain::DeleteRecipeError::NotFound => DeleteRecipeError::NotFound,
        }
    }
}

impl FromSpecImpl<crate::domain::DeleteRecipeError> for DeleteRecipeError {
    open spec fn obeys_from_spec() -> bool {
        true
    }

    open spec fn from_spec(value: crate::domain::DeleteRecipeError) -> Self {
        match value {
            crate::domain::DeleteRecipeError::Unknown(failure) => DeleteRecipeError::Unknown(failure),
            crate::domain::DeleteRecipeError::NotFound => DeleteRecipeError::NotFound,
        }
    }
}

impl DeleteRecipeError {
    /// The status code of the response that reports the error.
    pub fn status_code(&self) -> (code: u16)
        ensures
            code == status_of(self@),
    {
        match self {
            DeleteRecipeError::Unknown(_) => 500,
            DeleteRecipeError::NotFound => 404,
        }
    }

    /// The text of the response that reports the error. It names the step
    /// that failed, never what the store said.
    pub fn message(&self) -> (text: String)
        ensures
            text@ == fault_message(self@),
    {
        match self {
            DeleteRecipeError::Unknown(failure) => failure.message(),
            DeleteRecipeError::NotFound => not_found_text(),
        }
    }
}

} // verus!
