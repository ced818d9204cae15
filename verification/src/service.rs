//! The recipe service: the five operations on domain objects.
//!
//! The service holds a repository and nothing else. It turns what it is
//! handed into entities, calls the repository, and turns what comes back
//! into domain objects, error for error. The turning back is public, so that
//! a caller who reaches the repository in another way, across an `await`
//! for one, has the same results from the same functions.

use vstd::prelude::*;
use crate::domain::{
    recipes_from_entities, CreateRecipeError, DeleteRecipeError, ListRecipeError, NewRecipe,
    Recipe, SearchCriteria, SearchRecipeError, UpdateRecipeError,
};
use crate::entity::{MutableRecipeEntity, RecipeEntity, SearchRecipesArguments};
use crate::failure::Fault;
use crate::model::{views, RecipeContentView, RecipeView, StoredRecipeView};
use crate::protocol::outcome;
use crate::repository::{creates, deletes, satisfying, updates, RecipeRepository};

verus! {

/// The recipes of the domain for stored recipes, in order.
pub open spec fn domain_recipes(stored: Seq<StoredRecipeView>) -> Seq<RecipeView> {
    stored.map_values(|recipe: StoredRecipeView| recipe.recipe())
}

/// The view of what a read of the service returns.
pub open spec fn recipes_view<E: View>(result: Result<Vec<Recipe>, E>) -> Result<
    Seq<RecipeView>,
    E::V,
> {
    match result {
        Ok(recipes) => Ok(views(recipes@)),
        Err(error) => Err(error@),
    }
}

/// What the service makes of a read of the repository: the recipes of the
/// domain for the entities, or the same fault.
pub open spec fn read_through<E: View>(result: Result<Vec<RecipeEntity>, E>) -> Result<
    Seq<RecipeView>,
    E::V,
> {
    match result {
        Ok(entities) => Ok(domain_recipes(views(entities@))),
        Err(error) => Err(error@),
    }
}

/// What the service makes of a write of the repository that returns a
/// recipe: the recipe of the domain for the entity, or the same fault.
pub open spec fn written_through(result: Result<StoredRecipeView, Fault>) -> Result<
    RecipeView,
    Fault,
> {
    match result {
        Ok(stored) => Ok(stored.recipe()),
        Err(fault) => Err(fault),
    }
}

/// What a listing of the repository becomes in the domain.
pub fn list_outcome(result: Result<Vec<RecipeEntity>, crate::entity::ListRecipeError>) -> (listed:
    Result<Vec<Recipe>, ListRecipeError>)
    ensures
        recipes_view(listed) == read_through(result),
{
    match result {
        Ok(entities) => Ok(recipes_from_entities(entities)),
        Err(error) => Err(ListRecipeError::from(error)),
    }
}

/// What a search of the repository becomes in the domain.
pub fn search_outcome(
    result: Result<Vec<RecipeEntity>, crate::entity::SearchRecipeError>,
) -> (found: Result<Vec<Recipe>, SearchRecipeError>)
    ensures
        recipes_view(found) == read_through(result),
{
    match result {
        Ok(entities) => Ok(recipes_from_entities(entities)),
        Err(error) => Err(SearchRecipeError::from(error)),
    }
}

/// What a create of the repository becomes in the domain.
pub fn create_outcome(result: Result<RecipeEntity, crate::entity::CreateRecipeError>) -> (created:
    Result<Recipe, CreateRecipeError>)
    ensures
        outcome(created) == written_through(outcome(result)),
{
    match result {
        Ok(entity) => Ok(Recipe::from(entity)),
        Err(error) => Err(CreateRecipeError::from(error)),
    }
}

/// What an update of the repository becomes in the domain.
pub fn update_outcome(result: Result<RecipeEntity, crate::entity::UpdateRecipeError>) -> (updated:
    Result<Recipe, UpdateRecipeError>)
    ensures
        outcome(updated) == written_through(outcome(result)),
{
    match result {
        Ok(entity) => Ok(Recipe::from(entity)),
        Err(error) => Err(UpdateRecipeError::from(error)),
    }
}

/// What a delete of the repository becomes in the domain.
pub fn delete_outcome(result: Result<(), crate::entity::DeleteRecipeError>) -> (deleted: Result<
    (),
    DeleteRecipeError,
>)
    ensures
        outcome(deleted) == outcome(result),
{
    match result {
        Ok(done) => Ok(done),
        Err(error) => Err(DeleteRecipeError::from(error)),
    }
}

/// What a create of the service owes, over the stored recipes before and
/// after: on success the new recipe is listed last and the result is that
/// recipe as the domain sees it; on failure nothing has changed.
pub open spec fn created(
    before: Seq<StoredRecipeView>,
    content: RecipeContentView,
    result: Result<RecipeView, Fault>,
    after: Seq<StoredRecipeView>,
) -> bool {
    match result {
        Ok(recipe) => {
            &&& after.len() == before.len() + 1
            &&& creates(before, content, Ok(after.last()), after)
            &&& recipe == after.last().recipe()
        },
        Err(fault) => creates(before, content, Err(fault), after),
    }
}

/// What an update of the service owes: on success the recipe of that
/// identity has been replaced and the result is the new one as the domain
/// sees it; on failure nothing has changed.
pub open spec fn updated(
    before: Seq<StoredRecipeView>,
    recipe_id: i32,
    content: RecipeContentView,
    result: Result<RecipeView, Fault>,
    after: Seq<StoredRecipeView>,
) -> bool {
    match result {
        Ok(recipe) => exists|k: int|
            0 <= k < after.len() && updates(before, recipe_id, content, Ok(#[trigger] after[k]), after)
                && recipe == after[k].recipe(),
        Err(fault) => updates(before, recipe_id, content, Err(fault), after),
    }
}

/// The domain service over a repository.
#[derive(Debug)]
pub struct RecipeService<RR: RecipeRepository> {
    repository: RR,
}

impl<RR: RecipeRepository> RecipeService<RR> {
    /// The repository is in a state between two operations.
    pub closed spec fn wf(&self) -> bool {
        self.repository.wf()
    }

    /// The recipes that the repository holds.
    pub closed spec fn recipes(&self) -> Seq<StoredRecipeView> {
        self.repository.recipes()
    }

    /// A service over the repository.
    pub fn new(repository: RR) -> (service: Self)
        ensures
            service.wf() == repository.wf(),
            service.recipes() == repository.recipes(),
    {
        RecipeService { repository }
    }

    /// Every recipe. Whether it succeeds is the repository's to decide; if
    /// it does, these are the stored recipes.
    pub fn list_recipes(&self) -> (result: Result<Vec<Recipe>, ListRecipeError>)
        requires
            self.wf(),
        ensures
            match result {
                Ok(recipes) => views(recipes@) == domain_recipes(self.recipes()),
                Err(error) => error@ is Unknown,
            },
    {
        list_outcome(self.repository.list_recipes())
    }

    /// Stores a new recipe.
    pub fn create_recipe(&mut self, dto: NewRecipe) -> (result: Result<Recipe, CreateRecipeError>)
        requires
            old(self).wf(),
        ensures
            final(self).wf(),
            created(old(self).recipes(), dto@, outcome(result), final(self).recipes()),
    {
        let ghost before = self.repository.recipes();
        let stored = self.repository.create_recipe(MutableRecipeEntity::from(dto));
        proof {
            if stored is Ok {
                let after = self.repository.recipes();
                assert(after.last() == stored->Ok_0@);
            }
        }
        create_outcome(stored)
    }

    /// Replaces the content of the recipe that has the identity of `dto`.
    pub fn update_recipe(&mut self, dto: Recipe) -> (result: Result<Recipe, UpdateRecipeError>)
        requires
            old(self).wf(),
        ensures
            final(self).wf(),
            updated(
                old(self).recipes(),
                dto.recipe_id,
                dto@.content(),
                outcome(result),
                final(self).recipes(),
            ),
    {
        let ghost before = self.repository.recipes();
        let recipe_id = dto.recipe_id;
        let stored = self.repository.update_recipe(recipe_id, MutableRecipeEntity::from(dto));
        proof {
            if stored is Ok {
                let after = self.repository.recipes();
                let entity = stored->Ok_0@;
                let k = choose|k: int|
                    0 <= k < before.len() && (#[trigger] before[k]).recipe_id == recipe_id && after
                        == before.update(k, entity);
                assert(after[k] == entity);
            }
        }
        update_outcome(stored)
    }

    /// Removes the recipe with this identity and its ingredients.
    pub fn delete_recipe(&mut self, recipe_id: i32) -> (result: Result<(), DeleteRecipeError>)
        requires
            old(self).wf(),
        ensures
            final(self).wf(),
            deletes(old(self).recipes(), recipe_id, outcome(result), final(self).recipes()),
    {
        delete_outcome(self.repository.delete_recipe(recipe_id))
    }

    /// The recipes that satisfy every given criterion.
    pub fn search_recipes(&self, criteria: SearchCriteria) -> (result: Result<
        Vec<Recipe>,
        SearchRecipeError,
    >)
        requires
            self.wf(),
        ensures
            match result {
                Ok(recipes) => views(recipes@) == domain_recipes(
                    self.recipes().filter(satisfying(criteria@)),
                ),
                Err(error) => error@ is Unknown,
            },
    {
        search_outcome(self.repository.search_recipes(SearchRecipesArguments::from(criteria)))
    }
}

} // verus!
