//! A repository on the store in memory.
//!
//! It drives the same protocols that a repository on a database server
//! drives, against [`crate::database::Database`]. Its operations fail only
//! where the store's identity sequences run out.

use vstd::prelude::*;
use crate::database::Database;
use crate::entity::{
    CreateRecipeError, DeleteRecipeError, ListRecipeError, MutableRecipeEntity, RecipeEntity,
    SearchRecipeError, SearchRecipesArguments, UpdateRecipeError,
};
use crate::model::StoredRecipeView;
use crate::protocol::{
    list_finish, list_statement, outcome, search_finish, search_statement, CreateRecipe,
    CreateRecipeView, DeleteRecipe, Step, UpdateRecipe, UpdateRecipeView,
};
use crate::refinement::{
    at_rest, lemma_create, lemma_delete, lemma_listed, lemma_search, lemma_update, stored_recipes,
};
use crate::repository::RecipeRepository;
use crate::results::{create_result, delete_result, update_result};
use crate::runs::{
    lemma_run_create, lemma_run_delete, lemma_run_update, no_faults, run_create, run_delete,
    run_update,
};
use crate::statement::StatementView;
use crate::tables::DatabaseView;

verus! {

/// A repository that keeps its recipes in memory.
pub struct MemoryStore {
    db: Database,
}

impl View for MemoryStore {
    type V = DatabaseView;

    closed spec fn view(&self) -> DatabaseView {
        self.db@
    }
}

impl MemoryStore {
    /// An empty repository whose identities start at 1.
    pub fn new() -> (store: MemoryStore)
        ensures
            store.wf(),
            store@ == DatabaseView::empty(1, 1),
            store.recipes() == Seq::<StoredRecipeView>::empty(),
    {
        MemoryStore::starting_at(1, 1)
    }

    /// An empty repository whose identity sequences start at the given
    /// values, or at 1 where a value is below 1.
    pub fn starting_at(next_recipe_id: i32, next_ingredient_id: i32) -> (store: MemoryStore)
        ensures
            store.wf(),
            store@ == DatabaseView::empty(
                if next_recipe_id < 1 { 1 } else { next_recipe_id as int },
                if next_ingredient_id < 1 { 1 } else { next_ingredient_id as int },
            ),
            store.recipes() == Seq::<StoredRecipeView>::empty(),
    {
        let store = MemoryStore { db: Database::starting_at(next_recipe_id, next_ingredient_id) };
        proof {
            assert(stored_recipes(store@.committed) =~= Seq::<StoredRecipeView>::empty());
        }
        store
    }
}

impl MemoryStore {
    /// The number of ingredient rows that the store holds for the recipe.
    pub fn count_ingredients(&self, recipe_id: i32) -> (count: usize)
        ensures
            count == self@.committed.ingredients_of(recipe_id).len(),
    {
        self.db.count_ingredients(recipe_id)
    }
}

impl RecipeRepository for MemoryStore {
    open spec fn wf(&self) -> bool {
        at_rest(self@)
    }

    open spec fn recipes(&self) -> Seq<StoredRecipeView> {
        stored_recipes(self@.committed)
    }

    proof fn lemma_at_rest(&self) {
        lemma_listed(self@.committed, self@.next_recipe_id, self@.next_ingredient_id);
    }

    /// Every stored recipe. It does not fail.
    fn list_recipes(&self) -> (result: Result<Vec<RecipeEntity>, ListRecipeError>)
        ensures
            result is Ok,
    {
        let statement = list_statement();
        let reply = self.db.read(&statement);
        list_finish(reply)
    }

    /// Stores a new recipe. It fails exactly where an identity sequence
    /// cannot number the recipe or its ingredients.
    fn create_recipe(&mut self, entity: MutableRecipeEntity) -> (result: Result<
        RecipeEntity,
        CreateRecipeError,
    >)
        ensures
            (final(self)@, outcome(result)) == create_result(old(self)@, entity@),
    {
        let ghost start = self@;
        let (first, opening) = CreateRecipe::start(entity);
        let mut statement = first;
        let mut state = opening;
        loop
            invariant
                self.db.wf(),
                run_create(self@, statement@, state@, no_faults()) == run_create(
                    start,
                    StatementView::Begin,
                    CreateRecipeView::Opening(entity@),
                    no_faults(),
                ),
                at_rest(start),
                start == old(self)@,
            decreases state@.remaining(),
        {
            let reply = self.db.execute(statement);
            match state.step(reply) {
                Step::Run(next_statement, next_state) => {
                    statement = next_statement;
                    state = next_state;
                },
                Step::Finish(result) => {
                    self.db.abandon();
                    proof {
                        lemma_run_create(start, entity@);
                        lemma_create(start, entity@);
                    }
                    return result;
                },
            }
        }
    }

    /// Replaces a recipe. It is `NotFound` exactly where no recipe has the
    /// identity, and fails otherwise exactly where the ingredient sequence
    /// cannot number the new ingredients.
    fn update_recipe(&mut self, recipe_id: i32, entity: MutableRecipeEntity) -> (result: Result<
        RecipeEntity,
        UpdateRecipeError,
    >)
        ensures
            (final(self)@, outcome(result)) == update_result(old(self)@, recipe_id, entity@),
    {
        let ghost start = self@;
        let (first, opening) = UpdateRecipe::start(recipe_id, entity);
        let mut statement = first;
        let mut state = opening;
        loop
            invariant
                self.db.wf(),
                run_update(self@, statement@, state@, no_faults()) == run_update(
                    start,
                    StatementView::Begin,
                    UpdateRecipeView::Opening(recipe_id, entity@),
                    no_faults(),
                ),
                at_rest(start),
                start == old(self)@,
            decreases state@.remaining(),
        {
            let reply = self.db.execute(statement);
            match state.step(reply) {
                Step::Run(next_statement, next_state) => {
                    statement = next_statement;
                    state = next_state;
                },
                Step::Finish(result) => {
                    self.db.abandon();
                    proof {
                        lemma_run_update(start, recipe_id, entity@);
                        lemma_update(start, recipe_id, entity@);
                    }
                    return result;
                },
            }
        }
    }

    /// Removes a recipe and its ingredients. It is `NotFound` exactly where
    /// no recipe has the identity, and does not fail otherwise.
    fn delete_recipe(&mut self, recipe_id: i32) -> (result: Result<(), DeleteRecipeError>)
        ensures
            (final(self)@, outcome(result)) == delete_result(old(self)@, recipe_id),
    {
        let ghost start = self@;
        let (first, opening) = DeleteRecipe::start(recipe_id);
        let mut statement = first;
        let mut state = opening;
        loop
            invariant
                self.db.wf(),
                run_delete(self@, statement@, state, no_faults()) == run_delete(
                    start,
                    StatementView::Begin,
                    DeleteRecipe::Opening(recipe_id),
                    no_faults(),
                ),
                at_rest(start),
                start == old(self)@,
            decreases state.remaining(),
        {
            let reply = self.db.execute(statement);
            match state.step(reply) {
                Step::Run(next_statement, next_state) => {
                    statement = next_statement;
                    state = next_state;
                },
                Step::Finish(result) => {
                    self.db.abandon();
                    proof {
                        lemma_run_delete(start, recipe_id);
                        lemma_delete(start, recipe_id);
                    }
                    return result;
                },
            }
        }
    }

    /// The stored recipes that satisfy the criteria. It does not fail.
    fn search_recipes(&self, args: SearchRecipesArguments) -> (result: Result<
        Vec<RecipeEntity>,
        SearchRecipeError,
    >)
        ensures
            result is Ok,
    {
        let ghost criteria = args@;
        let statement = search_statement(args);
        let reply = self.db.read(&statement);
        proof {
            lemma_search(self@.committed, criteria);
        }
        search_finish(reply)
    }
}

} // verus!
