//! The repository contract: five operations on stored recipes, and what
//! each of them owes its caller.
//!
//! The contract is stated over the sequence of recipes that a listing would
//! return. It leaves a repository free to fail with an unknown fault at any
//! time, as a store on the far side of a network may; it does not leave it
//! free to change anything when it fails.

use vstd::prelude::*;
use crate::entity::{
    CreateRecipeError, DeleteRecipeError, ListRecipeError, MutableRecipeEntity, RecipeEntity,
    SearchRecipeError, SearchRecipesArguments, UpdateRecipeError,
};
use crate::failure::Fault;
use crate::model::{satisfies, stores, views, CriteriaView, RecipeContentView, StoredRecipeView};
use crate::protocol::outcome;

verus! {

/// Some stored recipe has this identity.
pub open spec fn has_stored(recipes: Seq<StoredRecipeView>, recipe_id: i32) -> bool {
    exists|k: int| 0 <= k < recipes.len() && (#[trigger] recipes[k]).recipe_id == recipe_id
}

/// No two stored recipes share an identity.
pub open spec fn distinct(recipes: Seq<StoredRecipeView>) -> bool {
    forall|i: int, j: int|
        0 <= i < j < recipes.len() ==> (#[trigger] recipes[i]).recipe_id != (
        #[trigger] recipes[j]).recipe_id
}

/// Every ingredient belongs to the recipe it is listed under, and its order
/// is its position in that list: 0, 1, 2 and so on, without gap or repeat.
pub open spec fn dense(recipes: Seq<StoredRecipeView>) -> bool {
    forall|k: int, i: int|
        0 <= k < recipes.len() && 0 <= i < recipes[k].ingredients.len() ==> {
            let ingredient = #[trigger] recipes[k].ingredients[i];
            ingredient.recipe_id == recipes[k].recipe_id && ingredient.ingredient_order == i
        }
}

/// The search predicate as a function on stored recipes.
pub open spec fn satisfying(criteria: CriteriaView) -> spec_fn(StoredRecipeView) -> bool {
    |recipe: StoredRecipeView| satisfies(recipe, criteria)
}

/// What a create owes: on success a recipe with a new, positive identity
/// that stores the submitted content and is listed last, all others as
/// before; on failure an unknown fault and no change.
pub open spec fn creates(
    before: Seq<StoredRecipeView>,
    content: RecipeContentView,
    result: Result<StoredRecipeView, Fault>,
    after: Seq<StoredRecipeView>,
) -> bool {
    match result {
        Ok(stored) => {
            &&& stores(stored, content)
            &&& stored.recipe_id > 0
            &&& !has_stored(before, stored.recipe_id)
            &&& after == before.push(stored)
        },
        Err(fault) => fault is Unknown && after == before,
    }
}

/// What an update owes: on success the recipe of that identity is replaced
/// where it stands by one that stores the submitted content, all others as
/// before; `NotFound` only where no recipe has the identity; on any failure
/// no change.
pub open spec fn updates(
    before: Seq<StoredRecipeView>,
    recipe_id: i32,
    content: RecipeContentView,
    result: Result<StoredRecipeView, Fault>,
    after: Seq<StoredRecipeView>,
) -> bool {
    match result {
        Ok(stored) => {
            &&& stores(stored, content)
            &&& stored.recipe_id == recipe_id
            &&& exists|k: int|
                0 <= k < before.len() && (#[trigger] before[k]).recipe_id == recipe_id && after
                    == before.update(k, stored)
        },
        Err(Fault::NotFound) => !has_stored(before, recipe_id) && after == before,
        Err(Fault::Unknown(_)) => after == before,
    }
}

/// What a delete owes: on success the recipe of that identity is gone with
/// its ingredients, all others as before and in order; `NotFound` only where
/// no recipe has the identity; on any failure no change.
pub open spec fn deletes(
    before: Seq<StoredRecipeView>,
    recipe_id: i32,
    result: Result<(), Fault>,
    after: Seq<StoredRecipeView>,
) -> bool {
    match result {
        Ok(_) => {
            &&& !has_stored(after, recipe_id)
            &&& exists|k: int|
                0 <= k < before.len() && (#[trigger] before[k]).recipe_id == recipe_id && after
                    == before.remove(k)
        },
        Err(Fault::NotFound) => !has_stored(before, recipe_id) && after == before,
        Err(Fault::Unknown(_)) => after == before,
    }
}

/// A store of recipes.
pub trait RecipeRepository {
    /// The repository is in a state between two operations.
    spec fn wf(&self) -> bool;

    /// The stored recipes, each with its ingredients in order, as a listing
    /// returns them.
    spec fn recipes(&self) -> Seq<StoredRecipeView>;

    /// At rest, identities are unique and ingredient orders are dense.
    proof fn lemma_at_rest(&self)
        requires
            self.wf(),
        ensures
            distinct(self.recipes()),
            dense(self.recipes()),
    ;

    /// Every stored recipe with its ingredients.
    fn list_recipes(&self) -> (result: Result<Vec<RecipeEntity>, ListRecipeError>)
        requires
            self.wf(),
        ensures
            match result {
                Ok(entities) => views(entities@) == self.recipes(),
                Err(error) => error@ is Unknown,
            },
    ;

    /// Stores a new recipe and returns it with the identities it was given.
    fn create_recipe(&mut self, entity: MutableRecipeEntity) -> (result: Result<
        RecipeEntity,
        CreateRecipeError,
    >)
        requires
            old(self).wf(),
        ensures
            final(self).wf(),
            creates(old(self).recipes(), entity@, outcome(result), final(self).recipes()),
    ;

    /// Replaces the content of the recipe with this identity, ingredients
    /// and all, and returns the recipe as stored.
    fn update_recipe(&mut self, recipe_id: i32, entity: MutableRecipeEntity) -> (result: Result<
        RecipeEntity,
        UpdateRecipeError,
    >)
        requires
            old(self).wf(),
        ensures
            final(self).wf(),
            updates(old(self).recipes(), recipe_id, entity@, outcome(result), final(self).recipes()),
    ;

    /// Removes the recipe with this identity and its ingredients.
    fn delete_recipe(&mut self, recipe_id: i32) -> (result: Result<(), DeleteRecipeError>)
        requires
            old(self).wf(),
        ensures
            final(self).wf(),
            deletes(old(self).recipes(), recipe_id, outcome(result), final(self).recipes()),
    ;

    /// The stored recipes that satisfy every given criterion, in listing
    /// order.
    fn search_recipes(&self, args: SearchRecipesArguments) -> (result: Result<
        Vec<RecipeEntity>,
        SearchRecipeError,
    >)
        requires
            self.wf(),
        ensures
            match result {
                Ok(entities) => views(entities@) == self.recipes().filter(satisfying(args@)),
                Err(error) => error@ is Unknown,
            },
    ;
}

} // verus!
