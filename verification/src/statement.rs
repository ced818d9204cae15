//! The statements a repository sends to the relational store, and the
//! replies it gets back.
//!
//! Two tables are behind them: `recipe`, one row per recipe, and
//! `ingredient`, one row per ingredient, each pointing at its recipe and
//! carrying its position in that recipe's list.

use vstd::prelude::*;
use crate::entity::{IngredientEntity, MealType, QuantityType, SearchRecipesArguments};
use crate::measure::Quantity;
use crate::model::{text_view, views, CriteriaView, Meal, StoredIngredientView, Unit};

verus! {

/// The columns of a recipe row that a caller supplies.
#[derive(Debug)]
pub struct RecipeFields {
    pub name: String,
    pub description: Option<String>,
    pub cooking_time_secs: Option<i64>,
    pub meal_type: MealType,
}

/// The view of [`RecipeFields`].
pub struct RecipeFieldsView {
    pub name: Seq<char>,
    pub description: Option<Seq<char>>,
    pub cooking_time_secs: Option<i64>,
    pub meal_type: Meal,
}

impl View for RecipeFields {
    type V = RecipeFieldsView;

    open spec fn view(&self) -> RecipeFieldsView {
        RecipeFieldsView {
            name: self.name@,
            description: text_view(self.description),
            cooking_time_secs: self.cooking_time_secs,
            meal_type: self.meal_type@,
        }
    }
}

/// One row of the recipe table.
#[derive(Debug)]
pub struct RecipeRow {
    pub recipe_id: i32,
    pub name: String,
    pub description: Option<String>,
    pub cooking_time_secs: Option<i64>,
    pub meal_type: MealType,
}

/// The view of a [`RecipeRow`].
pub struct RecipeRowView {
    pub recipe_id: i32,
    pub name: Seq<char>,
    pub description: Option<Seq<char>>,
    pub cooking_time_secs: Option<i64>,
    pub meal_type: Meal,
}

impl View for RecipeRow {
    type V = RecipeRowView;

    open spec fn view(&self) -> RecipeRowView {
        RecipeRowView {
            recipe_id: self.recipe_id,
            name: self.name@,
            description: text_view(self.description),
            cooking_time_secs: self.cooking_time_secs,
            meal_type: self.meal_type@,
        }
    }
}

impl Clone for RecipeRow {
    fn clone(&self) -> (copy: Self)
        ensures
            copy == *self,
    {
        RecipeRow {
            recipe_id: self.recipe_id,
            name: self.name.clone(),
            description: self.description.clone(),
            cooking_time_secs: self.cooking_time_secs,
            meal_type: self.meal_type,
        }
    }
}

/// The columns of one ingredient row of a bulk insert. The store adds the
/// ingredient's identity.
#[derive(Debug)]
pub struct NewIngredientRow {
    pub recipe_id: i32,
    pub ingredient_order: i32,
    pub name: String,
    pub quantity: Quantity,
    pub quantity_type: QuantityType,
}

/// The view of a [`NewIngredientRow`].
pub struct NewIngredientRowView {
    pub recipe_id: i32,
    pub ingredient_order: i32,
    pub name: Seq<char>,
    pub quantity: Quantity,
    pub quantity_type: Unit,
}

impl View for NewIngredientRow {
    type V = NewIngredientRowView;

    open spec fn view(&self) -> NewIngredientRowView {
        NewIngredientRowView {
            recipe_id: self.recipe_id,
            ingredient_order: self.ingredient_order,
            name: self.name@,
            quantity: self.quantity,
            quantity_type: self.quantity_type@,
        }
    }
}

/// One row of the read query: a recipe row with the ingredient rows that
/// point at it, aggregated. A recipe without ingredient rows has `None`
/// there, as an outer join gives it.
#[derive(Debug)]
pub struct JoinedRow {
    pub recipe_id: i32,
    pub name: String,
    pub description: Option<String>,
    pub cooking_time_secs: Option<i64>,
    pub ingredients: Option<Vec<IngredientEntity>>,
    pub meal_type: MealType,
}

/// The view of a [`JoinedRow`].
pub struct JoinedRowView {
    pub recipe_id: i32,
    pub name: Seq<char>,
    pub description: Option<Seq<char>>,
    pub cooking_time_secs: Option<i64>,
    pub ingredients: Option<Seq<StoredIngredientView>>,
    pub meal_type: Meal,
}

impl View for JoinedRow {
    type V = JoinedRowView;

    open spec fn view(&self) -> JoinedRowView {
        JoinedRowView {
            recipe_id: self.recipe_id,
            name: self.name@,
            description: text_view(self.description),
            cooking_time_secs: self.cooking_time_secs,
            ingredients: match self.ingredients {
                Some(rows) => Some(views(rows@)),
                None => None,
            },
            meal_type: self.meal_type@,
        }
    }
}

/// A statement for the store.
#[derive(Debug)]
pub enum Statement {
    /// Open a transaction.
    Begin,
    /// Insert a recipe row; the store generates its identity and returns the
    /// row.
    InsertRecipe(RecipeFields),
    /// Overwrite the columns of the recipe row with this identity and return
    /// the row.
    UpdateRecipe(i32, RecipeFields),
    /// Delete the ingredient rows that point at this recipe.
    DeleteIngredients(i32),
    /// Insert these ingredient rows in one statement and return them with
    /// their generated identities. With no row this is not a statement the
    /// store accepts.
    InsertIngredients(Vec<NewIngredientRow>),
    /// Delete the recipe row with this identity.
    DeleteRecipe(i32),
    /// Read every recipe with its ingredients.
    ListRecipes,
    /// Read the recipes that satisfy the criteria, with their ingredients.
    SearchRecipes(SearchRecipesArguments),
    /// Commit the open transaction.
    Commit,
    /// Roll the open transaction back.
    Rollback,
}

/// The view of a [`Statement`].
pub enum StatementView {
    Begin,
    InsertRecipe(RecipeFieldsView),
    UpdateRecipe(i32, RecipeFieldsView),
    DeleteIngredients(i32),
    InsertIngredients(Seq<NewIngredientRowView>),
    DeleteRecipe(i32),
    ListRecipes,
    SearchRecipes(CriteriaView),
    Commit,
    Rollback,
}

impl View for Statement {
    type V = StatementView;

    open spec fn view(&self) -> StatementView {
        match self {
            Statement::Begin => StatementView::Begin,
            Statement::InsertRecipe(fields) => StatementView::InsertRecipe(fields@),
            Statement::UpdateRecipe(recipe_id, fields) => StatementView::UpdateRecipe(
                *recipe_id,
                fields@,
            ),
            Statement::DeleteIngredients(recipe_id) => StatementView::DeleteIngredients(*recipe_id),
            Statement::InsertIngredients(rows) => StatementView::InsertIngredients(views(rows@)),
            Statement::DeleteRecipe(recipe_id) => StatementView::DeleteRecipe(*recipe_id),
            Statement::ListRecipes => StatementView::ListRecipes,
            Statement::SearchRecipes(args) => StatementView::SearchRecipes(args@),
            Statement::Commit => StatementView::Commit,
            Statement::Rollback => StatementView::Rollback,
        }
    }
}

/// What the store answers to a statement.
#[derive(Debug)]
pub enum Reply {
    /// The statement ran and returns nothing.
    Done,
    /// The one recipe row the statement returns.
    Recipe(RecipeRow),
    /// The statement returns a row and found none.
    NoRow,
    /// The ingredient rows the statement returns.
    Ingredients(Vec<IngredientEntity>),
    /// The number of rows the statement deleted.
    Affected(u64),
    /// The rows of a read query.
    Recipes(Vec<JoinedRow>),
    /// The statement failed; the text says why.
    Failed(String),
}

/// The view of a [`Reply`].
pub enum ReplyView {
    Done,
    Recipe(RecipeRowView),
    NoRow,
    Ingredients(Seq<StoredIngredientView>),
    Affected(u64),
    Recipes(Seq<JoinedRowView>),
    Failed(Seq<char>),
}

impl View for Reply {
    type V = ReplyView;

    open spec fn view(&self) -> ReplyView {
        match self {
            Reply::Done => ReplyView::Done,
            Reply::Recipe(row) => ReplyView::Recipe(row@),
            Reply::NoRow => ReplyView::NoRow,
            Reply::Ingredients(rows) => ReplyView::Ingredients(views(rows@)),
            Reply::Affected(count) => ReplyView::Affected(*count),
            Reply::Recipes(rows) => ReplyView::Recipes(views(rows@)),
            Reply::Failed(cause) => ReplyView::Failed(cause@),
        }
    }
}

} // verus!
