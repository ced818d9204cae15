//! The relational store as mathematics: two tables, two identity sequences,
//! at most one open transaction, and what each statement does to them.
//!
//! This is the meaning that the repository's protocols are proved against.
//! A statement that fails changes nothing. Statements outside a transaction
//! act on the committed tables at once; inside one they act on the
//! transaction's own copy, which replaces the committed tables on commit and
//! is thrown away on rollback. Identities come from sequences that only move
//! forward, also when the transaction that drew from them is rolled back.

use vstd::prelude::*;
use crate::model::{CriteriaView, StoredIngredientView};
use crate::statement::{
    JoinedRowView, NewIngredientRowView, RecipeFieldsView, RecipeRowView, ReplyView, StatementView,
};
use crate::text::contains_term;

verus! {

/// The contents of the two tables, each in the order the store reads it.
pub struct Tables {
    pub recipes: Seq<RecipeRowView>,
    pub ingredients: Seq<StoredIngredientView>,
}

/// The state of the store.
pub struct DatabaseView {
    /// What every reader outside a transaction sees.
    pub committed: Tables,
    /// The working copy of the open transaction, if one is open.
    pub open: Option<Tables>,
    /// The next value of the recipe identity sequence.
    pub next_recipe_id: int,
    /// The next value of the ingredient identity sequence.
    pub next_ingredient_id: int,
}

/// The rows that point at the given recipe.
pub open spec fn owned_by(recipe_id: i32) -> spec_fn(StoredIngredientView) -> bool {
    |row: StoredIngredientView| row.recipe_id == recipe_id
}

/// The rows that point at any other recipe.
pub open spec fn not_owned_by(recipe_id: i32) -> spec_fn(StoredIngredientView) -> bool {
    |row: StoredIngredientView| row.recipe_id != recipe_id
}

/// The recipe table has a row with this identity.
pub open spec fn has_recipe(recipes: Seq<RecipeRowView>, recipe_id: i32) -> bool {
    exists|k: int| 0 <= k < recipes.len() && #[trigger] recipes[k].recipe_id == recipe_id
}

/// The position of the row with this identity, where there is one.
pub open spec fn position_of(recipes: Seq<RecipeRowView>, recipe_id: i32) -> int {
    choose|k: int| 0 <= k < recipes.len() && #[trigger] recipes[k].recipe_id == recipe_id
}

/// The recipe row that an insert or update writes.
pub open spec fn recipe_row(recipe_id: i32, fields: RecipeFieldsView) -> RecipeRowView {
    RecipeRowView {
        recipe_id,
        name: fields.name,
        description: fields.description,
        cooking_time_secs: fields.cooking_time_secs,
        meal_type: fields.meal_type,
    }
}

/// The ingredient row that a bulk insert writes for one of its rows.
pub open spec fn ingredient_row(ingredient_id: i32, row: NewIngredientRowView) -> StoredIngredientView {
    StoredIngredientView {
        ingredient_id,
        recipe_id: row.recipe_id,
        ingredient_order: row.ingredient_order,
        name: row.name,
        quantity_type: row.quantity_type,
        quantity: row.quantity,
    }
}

/// The ingredient rows that a bulk insert writes: the given rows in order,
/// with consecutive identities from `first_id` on.
pub open spec fn ingredient_rows(first_id: int, rows: Seq<NewIngredientRowView>) -> Seq<
    StoredIngredientView,
> {
    Seq::new(rows.len(), |k: int| ingredient_row((first_id + k) as i32, rows[k]))
}

/// Whether some ingredient row of the recipe has `term` in its name.
pub open spec fn has_ingredient_named(
    ingredients: Seq<StoredIngredientView>,
    recipe_id: i32,
    term: Seq<char>,
) -> bool {
    exists|i: int|
        0 <= i < ingredients.len() && (#[trigger] ingredients[i]).recipe_id == recipe_id
            && contains_term(ingredients[i].name, term)
}

impl Tables {
    /// The empty tables.
    pub open spec fn empty() -> Tables {
        Tables { recipes: Seq::empty(), ingredients: Seq::empty() }
    }

    /// The ingredient rows of one recipe, in table order.
    pub open spec fn ingredients_of(self, recipe_id: i32) -> Seq<StoredIngredientView> {
        self.ingredients.filter(owned_by(recipe_id))
    }

    /// The condition of the search query on one recipe row.
    pub open spec fn selects(self, row: RecipeRowView, criteria: CriteriaView) -> bool {
        &&& criteria.recipe_name matches Some(term) ==> contains_term(row.name, term)
        &&& criteria.ingredient_name matches Some(term) ==> has_ingredient_named(
            self.ingredients,
            row.recipe_id,
            term,
        )
        &&& criteria.meal_type matches Some(meal) ==> row.meal_type == meal
    }

    /// The row of the read query for one recipe row.
    pub open spec fn joined(self, row: RecipeRowView) -> JoinedRowView {
        let ingredients = self.ingredients_of(row.recipe_id);
        JoinedRowView {
            recipe_id: row.recipe_id,
            name: row.name,
            description: row.description,
            cooking_time_secs: row.cooking_time_secs,
            ingredients: if ingredients.len() == 0 {
                None
            } else {
                Some(ingredients)
            },
            meal_type: row.meal_type,
        }
    }

    /// The search condition as a predicate on recipe rows.
    pub open spec fn selecting(self, criteria: CriteriaView) -> spec_fn(RecipeRowView) -> bool {
        |row: RecipeRowView| self.selects(row, criteria)
    }

    /// The join as a function on recipe rows.
    pub open spec fn joining(self) -> spec_fn(RecipeRowView) -> JoinedRowView {
        |row: RecipeRowView| self.joined(row)
    }

    /// The read query without a condition: one row per recipe, in table
    /// order.
    pub open spec fn list(self) -> Seq<JoinedRowView> {
        self.recipes.map_values(self.joining())
    }

    /// The read query with the search condition.
    pub open spec fn search(self, criteria: CriteriaView) -> Seq<JoinedRowView> {
        self.recipes.filter(self.selecting(criteria)).map_values(self.joining())
    }

    /// The constraints of the two tables: identities are positive, below the
    /// next value of their sequence and ascending in table order (so no two
    /// rows share one), and every ingredient row points at a recipe row.
    pub open spec fn wf(self, next_recipe_id: int, next_ingredient_id: int) -> bool {
        &&& recipes_within(self.recipes, next_recipe_id)
        &&& recipes_ascending(self.recipes)
        &&& ingredients_within(self.ingredients, next_ingredient_id)
        &&& ingredients_ascending(self.ingredients)
        &&& references_hold(self.recipes, self.ingredients)
    }
}

/// Every recipe identity is positive and below `bound`.
pub open spec fn recipes_within(recipes: Seq<RecipeRowView>, bound: int) -> bool {
    forall|i: int| 0 <= i < recipes.len() ==> 0 < (#[trigger] recipes[i]).recipe_id < bound
}

/// Recipe identities ascend in table order.
pub open spec fn recipes_ascending(recipes: Seq<RecipeRowView>) -> bool {
    forall|i: int, j: int|
        0 <= i < j < recipes.len() ==> (#[trigger] recipes[i]).recipe_id < (
        #[trigger] recipes[j]).recipe_id
}

/// Every ingredient identity is positive and below `bound`.
pub open spec fn ingredients_within(ingredients: Seq<StoredIngredientView>, bound: int) -> bool {
    forall|i: int|
        0 <= i < ingredients.len() ==> 0 < (#[trigger] ingredients[i]).ingredient_id < bound
}

/// Ingredient identities ascend in table order.
pub open spec fn ingredients_ascending(ingredients: Seq<StoredIngredientView>) -> bool {
    forall|i: int, j: int|
        0 <= i < j < ingredients.len() ==> (#[trigger] ingredients[i]).ingredient_id < (
        #[trigger] ingredients[j]).ingredient_id
}

/// Every ingredient row points at a recipe row.
pub open spec fn references_hold(
    recipes: Seq<RecipeRowView>,
    ingredients: Seq<StoredIngredientView>,
) -> bool {
    forall|i: int|
        0 <= i < ingredients.len() ==> has_recipe(recipes, (#[trigger] ingredients[i]).recipe_id)
}

/// Why `Begin` fails.
pub open spec fn cause_transaction_open() -> Seq<char> {
    "a transaction is already open"@
}

/// Why `Commit` and `Rollback` fail.
pub open spec fn cause_no_transaction() -> Seq<char> {
    "no transaction is open"@
}

/// Why an insert fails when its identity sequence has run out.
pub open spec fn cause_sequence_exhausted() -> Seq<char> {
    "the identity sequence is exhausted"@
}

/// Why a bulk insert without rows fails.
pub open spec fn cause_no_rows() -> Seq<char> {
    "an insert statement needs at least one row"@
}

/// Why a statement that writes fails where only reading is allowed.
pub open spec fn cause_not_a_query() -> Seq<char> {
    "the statement is not a query"@
}

/// Why a statement fails that would leave an ingredient row without its
/// recipe row.
pub open spec fn cause_foreign_key() -> Seq<char> {
    "an ingredient row would point at no recipe row"@
}

impl DatabaseView {
    /// A store with empty tables whose sequences start at the given values.
    pub open spec fn empty(next_recipe_id: int, next_ingredient_id: int) -> DatabaseView {
        DatabaseView {
            committed: Tables::empty(),
            open: None,
            next_recipe_id,
            next_ingredient_id,
        }
    }

    /// The tables that a statement acts on.
    pub open spec fn current(self) -> Tables {
        match self.open {
            Some(tables) => tables,
            None => self.committed,
        }
    }

    /// The store after a statement has changed the tables it acts on.
    pub open spec fn with_current(self, tables: Tables) -> DatabaseView {
        match self.open {
            Some(_) => DatabaseView { open: Some(tables), ..self },
            None => DatabaseView { committed: tables, ..self },
        }
    }

    /// The store after its open transaction, if any, has been thrown away.
    pub open spec fn abandoned(self) -> DatabaseView {
        DatabaseView { open: None, ..self }
    }

    /// The constraints hold of the committed tables and of the working copy,
    /// and the sequences are within the range of a 32-bit identity, or just
    /// past it when exhausted.
    pub open spec fn wf(self) -> bool {
        &&& 1 <= self.next_recipe_id <= i32::MAX + 1
        &&& 1 <= self.next_ingredient_id <= i32::MAX + 1
        &&& self.committed.wf(self.next_recipe_id, self.next_ingredient_id)
        &&& self.open matches Some(tables) ==> tables.wf(
            self.next_recipe_id,
            self.next_ingredient_id,
        )
    }

    /// `Begin`: the transaction starts from the committed tables.
    pub open spec fn begin(self) -> (DatabaseView, ReplyView) {
        if self.open is None {
            (DatabaseView { open: Some(self.committed), ..self }, ReplyView::Done)
        } else {
            (self, ReplyView::Failed(cause_transaction_open()))
        }
    }

    /// `Commit`: the working copy becomes the committed tables.
    pub open spec fn commit(self) -> (DatabaseView, ReplyView) {
        match self.open {
            Some(tables) => (
                DatabaseView { committed: tables, open: None, ..self },
                ReplyView::Done,
            ),
            None => (self, ReplyView::Failed(cause_no_transaction())),
        }
    }

    /// `Rollback`: the working copy is thrown away.
    pub open spec fn rollback(self) -> (DatabaseView, ReplyView) {
        match self.open {
            Some(_) => (self.abandoned(), ReplyView::Done),
            None => (self, ReplyView::Failed(cause_no_transaction())),
        }
    }

    /// `InsertRecipe`: a row with the next identity is appended.
    pub open spec fn insert_recipe(self, fields: RecipeFieldsView) -> (DatabaseView, ReplyView) {
        if self.next_recipe_id > i32::MAX {
            (self, ReplyView::Failed(cause_sequence_exhausted()))
        } else {
            let row = recipe_row(self.next_recipe_id as i32, fields);
            let tables = Tables { recipes: self.current().recipes.push(row), ..self.current() };
            (
                DatabaseView { next_recipe_id: self.next_recipe_id + 1, ..self.with_current(tables) },
                ReplyView::Recipe(row),
            )
        }
    }

    /// `UpdateRecipe`: the row with the identity is overwritten in place;
    /// without such a row nothing happens and no row is returned.
    pub open spec fn update_recipe(self, recipe_id: i32, fields: RecipeFieldsView) -> (
        DatabaseView,
        ReplyView,
    ) {
        if has_recipe(self.current().recipes, recipe_id) {
            let row = recipe_row(recipe_id, fields);
            let at = position_of(self.current().recipes, recipe_id);
            let tables = Tables { recipes: self.current().recipes.update(at, row), ..self.current() };
            (self.with_current(tables), ReplyView::Recipe(row))
        } else {
            (self, ReplyView::NoRow)
        }
    }

    /// `DeleteIngredients`: the rows of the recipe go, the others stay in
    /// order.
    pub open spec fn delete_ingredients(self, recipe_id: i32) -> (DatabaseView, ReplyView) {
        let kept = self.current().ingredients.filter(not_owned_by(recipe_id));
        let tables = Tables { ingredients: kept, ..self.current() };
        (
            self.with_current(tables),
            ReplyView::Affected((self.current().ingredients.len() - kept.len()) as u64),
        )
    }

    /// `InsertIngredients`: the rows are appended in order with consecutive
    /// new identities. It fails without rows, when a row points at no recipe,
    /// and when the sequence cannot number all rows.
    pub open spec fn insert_ingredients(self, rows: Seq<NewIngredientRowView>) -> (
        DatabaseView,
        ReplyView,
    ) {
        if rows.len() == 0 {
            (self, ReplyView::Failed(cause_no_rows()))
        } else if exists|k: int|
            0 <= k < rows.len() && !has_recipe(self.current().recipes, (#[trigger] rows[k]).recipe_id) {
            (self, ReplyView::Failed(cause_foreign_key()))
        } else if self.next_ingredient_id + rows.len() > i32::MAX + 1 {
            (self, ReplyView::Failed(cause_sequence_exhausted()))
        } else {
            let inserted = ingredient_rows(self.next_ingredient_id, rows);
            let tables = Tables {
                ingredients: self.current().ingredients + inserted,
                ..self.current()
            };
            (
                DatabaseView {
                    next_ingredient_id: self.next_ingredient_id + rows.len(),
                    ..self.with_current(tables)
                },
                ReplyView::Ingredients(inserted),
            )
        }
    }

    /// `DeleteRecipe`: the row with the identity goes, if there is one. It
    /// fails while ingredient rows still point at the recipe.
    pub open spec fn delete_recipe(self, recipe_id: i32) -> (DatabaseView, ReplyView) {
        if self.current().ingredients_of(recipe_id).len() > 0 {
            (self, ReplyView::Failed(cause_foreign_key()))
        } else if has_recipe(self.current().recipes, recipe_id) {
            let at = position_of(self.current().recipes, recipe_id);
            let tables = Tables { recipes: self.current().recipes.remove(at), ..self.current() };
            (self.with_current(tables), ReplyView::Affected(1))
        } else {
            (self, ReplyView::Affected(0))
        }
    }

    /// What the store replies to a statement that is run for its rows only:
    /// a query is answered from the tables that statements act on, anything
    /// else is refused.
    pub open spec fn read(self, statement: StatementView) -> ReplyView {
        match statement {
            StatementView::ListRecipes => ReplyView::Recipes(self.current().list()),
            StatementView::SearchRecipes(criteria) => ReplyView::Recipes(
                self.current().search(criteria),
            ),
            _ => ReplyView::Failed(cause_not_a_query()),
        }
    }

    /// What a statement does to the store, and what the store replies.
    pub open spec fn execute(self, statement: StatementView) -> (DatabaseView, ReplyView) {
        match statement {
            StatementView::Begin => self.begin(),
            StatementView::InsertRecipe(fields) => self.insert_recipe(fields),
            StatementView::UpdateRecipe(recipe_id, fields) => self.update_recipe(recipe_id, fields),
            StatementView::DeleteIngredients(recipe_id) => self.delete_ingredients(recipe_id),
            StatementView::InsertIngredients(rows) => self.insert_ingredients(rows),
            StatementView::DeleteRecipe(recipe_id) => self.delete_recipe(recipe_id),
            StatementView::ListRecipes => (self, ReplyView::Recipes(self.current().list())),
            StatementView::SearchRecipes(criteria) => (
                self,
                ReplyView::Recipes(self.current().search(criteria)),
            ),
            StatementView::Commit => self.commit(),
            StatementView::Rollback => self.rollback(),
        }
    }
}

} // verus!
