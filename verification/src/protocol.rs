//! The write and read protocols of the repository, as state machines.
//!
//! A protocol decides which statement goes to the store next and what the
//! operation returns in the end; it does not talk to the store itself. Its
//! driver sends each statement, hands the reply to `step`, and goes on until
//! the protocol finishes. A driver that is left with an open transaction when
//! its protocol finishes throws that transaction away: every write protocol
//! commits on its one path to success and nowhere else.

use vstd::prelude::*;
use vstd::string::StringExecFns;
use crate::entity::{
    CreateRecipeError, DeleteRecipeError, IngredientEntity, ListRecipeError,
    MutableIngredientEntity, MutableRecipeEntity, RecipeEntity, SearchRecipeError,
    SearchRecipesArguments, UpdateRecipeError,
};
use crate::failure::{Failure, FailureView, Fault};
use crate::mapping::{
    compose, composed, fields_of, ingredient_rows_for, new_rows, recipe_fields, recipe_of_row,
    recipes_from_rows,
};
use crate::model::{views, IngredientView, RecipeContentView, StoredRecipeView};
use crate::statement::{
    JoinedRowView, RecipeRow, RecipeRowView, Reply, ReplyView, Statement, StatementView,
};

verus! {

/// What a protocol does after a reply: run another statement and wait in a
/// new state, or finish with the operation's result.
#[derive(Debug)]
pub enum Step<S, R> {
    Run(Statement, S),
    Finish(R),
}

/// The view of a [`Step`].
pub enum StepView<S, R> {
    Run(StatementView, S),
    Finish(R),
}

/// The view of an operation's result.
pub open spec fn outcome<T: View, E: View>(result: Result<T, E>) -> Result<T::V, E::V> {
    match result {
        Ok(value) => Ok(value@),
        Err(error) => Err(error@),
    }
}

/// The view of a step of a write protocol.
pub open spec fn step_view<S: View, T: View, E: View>(step: Step<S, Result<T, E>>) -> StepView<
    S::V,
    Result<T::V, E::V>,
> {
    match step {
        Step::Run(statement, state) => StepView::Run(statement@, state@),
        Step::Finish(result) => StepView::Finish(outcome(result)),
    }
}

/// What a reply says of why its statement did not do what was expected.
pub open spec fn cause_of(reply: ReplyView) -> Seq<char> {
    match reply {
        ReplyView::Failed(text) => text,
        ReplyView::NoRow => "no row was returned"@,
        _ => "the store gave an unexpected reply"@,
    }
}

/// The unknown fault of a step that got the wrong reply.
pub open spec fn failed(context: Seq<char>, reply: ReplyView) -> Fault {
    Fault::Unknown(FailureView { context, cause: cause_of(reply) })
}

/// Why a list of more than 2^31 - 1 ingredients is not stored.
pub open spec fn cause_too_many() -> Seq<char> {
    "the ingredient list is too long to be numbered"@
}

/// The failure of the step `context` that got `reply`.
fn failure(context: &str, reply: Reply) -> (failure: Failure)
    ensures
        Fault::Unknown(failure@) == failed(context@, reply@),
{
    let cause = match reply {
        Reply::Failed(text) => text,
        Reply::NoRow => String::from_str("no row was returned"),
        _ => String::from_str("the store gave an unexpected reply"),
    };
    Failure::new(context, cause)
}

/// The state of a create between two statements.
#[derive(Debug)]
pub enum CreateRecipe {
    /// The transaction is being opened.
    Opening(MutableRecipeEntity),
    /// The recipe row is being inserted; the ingredients wait.
    InsertingRecipe(Vec<MutableIngredientEntity>),
    /// The ingredient rows are being inserted.
    InsertingIngredients(RecipeRow),
    /// The transaction is being committed.
    Committing(RecipeEntity),
}

/// The view of [`CreateRecipe`].
pub enum CreateRecipeView {
    Opening(RecipeContentView),
    InsertingRecipe(Seq<IngredientView>),
    InsertingIngredients(RecipeRowView),
    Committing(StoredRecipeView),
}

impl View for CreateRecipe {
    type V = CreateRecipeView;

    open spec fn view(&self) -> CreateRecipeView {
        match self {
            CreateRecipe::Opening(entity) => CreateRecipeView::Opening(entity@),
            CreateRecipe::InsertingRecipe(ingredients) => CreateRecipeView::InsertingRecipe(
                views(ingredients@),
            ),
            CreateRecipe::InsertingIngredients(row) => CreateRecipeView::InsertingIngredients(row@),
            CreateRecipe::Committing(entity) => CreateRecipeView::Committing(entity@),
        }
    }
}

impl CreateRecipeView {
    /// An upper bound on the statements still to run.
    pub open spec fn remaining(self) -> nat {
        match self {
            CreateRecipeView::Opening(_) => 4,
            CreateRecipeView::InsertingRecipe(_) => 3,
            CreateRecipeView::InsertingIngredients(_) => 2,
            CreateRecipeView::Committing(_) => 1,
        }
    }

    /// The create protocol: open a transaction, insert the recipe row, insert
    /// the ingredient rows in one statement unless there are none, commit.
    /// Any other reply than the expected one ends the create with an unknown
    /// fault that names the step.
    pub open spec fn step(self, reply: ReplyView) -> StepView<
        CreateRecipeView,
        Result<StoredRecipeView, Fault>,
    > {
        match (self, reply) {
            (CreateRecipeView::Opening(content), ReplyView::Done) => StepView::Run(
                StatementView::InsertRecipe(fields_of(content)),
                CreateRecipeView::InsertingRecipe(content.ingredients),
            ),
            (CreateRecipeView::Opening(_), _) => StepView::Finish(
                Err(failed("Failed to open transaction"@, reply)),
            ),
            (CreateRecipeView::InsertingRecipe(ingredients), ReplyView::Recipe(row)) => {
                if ingredients.len() == 0 {
                    StepView::Run(
                        StatementView::Commit,
                        CreateRecipeView::Committing(composed(row, Seq::empty())),
                    )
                } else if ingredients.len() > i32::MAX {
                    StepView::Finish(
                        Err(
                            Fault::Unknown(
                                FailureView {
                                    context: "Failed to create ingredients"@,
                                    cause: cause_too_many(),
                                },
                            ),
                        ),
                    )
                } else {
                    StepView::Run(
                        StatementView::InsertIngredients(new_rows(row.recipe_id, ingredients)),
                        CreateRecipeView::InsertingIngredients(row),
                    )
                }
            },
            (CreateRecipeView::InsertingRecipe(_), _) => StepView::Finish(
                Err(failed("Failed to insert recipe"@, reply)),
            ),
            (CreateRecipeView::InsertingIngredients(row), ReplyView::Ingredients(rows)) => {
                StepView::Run(
                    StatementView::Commit,
                    CreateRecipeView::Committing(composed(row, rows)),
                )
            },
            (CreateRecipeView::InsertingIngredients(_), _) => StepView::Finish(
                Err(failed("Failed to create ingredients"@, reply)),
            ),
            (CreateRecipeView::Committing(stored), ReplyView::Done) => StepView::Finish(Ok(stored)),
            (CreateRecipeView::Committing(_), _) => StepView::Finish(
                Err(failed("Failed to commit transaction"@, reply)),
            ),
        }
    }
}

impl CreateRecipe {
    /// The first statement of a create, and the state to wait in.
    pub fn start(entity: MutableRecipeEntity) -> (first: (Statement, CreateRecipe))
        ensures
            first.0@ == StatementView::Begin,
            first.1@ == CreateRecipeView::Opening(entity@),
    {
        (Statement::Begin, CreateRecipe::Opening(entity))
    }

    /// What the create does after `reply`.
    pub fn step(self, reply: Reply) -> (step: Step<
        CreateRecipe,
        Result<RecipeEntity, CreateRecipeError>,
    >)
        ensures
            step_view(step) == self@.step(reply@),
            step matches Step::Run(_, next) ==> next@.remaining() < self@.remaining(),
    {
        match (self, reply) {
            (CreateRecipe::Opening(entity), Reply::Done) => Step::Run(
                Statement::InsertRecipe(
                    recipe_fields(
                        entity.name,
                        entity.description,
                        entity.cooking_time,
                        entity.meal_type,
                    ),
                ),
                CreateRecipe::InsertingRecipe(entity.ingredients),
            ),
            (CreateRecipe::Opening(_), reply) => Step::Finish(
                Err(CreateRecipeError::Unknown(failure("Failed to open transaction", reply))),
            ),
            (CreateRecipe::InsertingRecipe(ingredients), Reply::Recipe(row)) => {
                if ingredients.len() == 0 {
                    let none: Vec<IngredientEntity> = Vec::new();
                    proof {
                        assert(views(none@) =~= Seq::empty());
                    }
                    Step::Run(Statement::Commit, CreateRecipe::Committing(compose(row, none)))
                } else {
                    match ingredient_rows_for(row.recipe_id, ingredients) {
                        Some(rows) => Step::Run(
                            Statement::InsertIngredients(rows),
                            CreateRecipe::InsertingIngredients(row),
                        ),
                        None => Step::Finish(
                            Err(
                                CreateRecipeError::Unknown(
                                    Failure::new(
                                        "Failed to create ingredients",
                                        String::from_str(
                                            "the ingredient list is too long to be numbered",
                                        ),
                                    ),
                                ),
                            ),
                        ),
                    }
                }
            },
            (CreateRecipe::InsertingRecipe(_), reply) => Step::Finish(
                Err(CreateRecipeError::Unknown(failure("Failed to insert recipe", reply))),
            ),
            (CreateRecipe::InsertingIngredients(row), Reply::Ingredients(rows)) => Step::Run(
                Statement::Commit,
                CreateRecipe::Committing(compose(row, rows)),
            ),
            (CreateRecipe::InsertingIngredients(_), reply) => Step::Finish(
                Err(CreateRecipeError::Unknown(failure("Failed to create ingredients", reply))),
            ),
            (CreateRecipe::Committing(entity), Reply::Done) => Step::Finish(Ok(entity)),
            (CreateRecipe::Committing(_), reply) => Step::Finish(
                Err(CreateRecipeError::Unknown(failure("Failed to commit transaction", reply))),
            ),
        }
    }
}

/// The state of an update between two statements.
#[derive(Debug)]
pub enum UpdateRecipe {
    /// The transaction is being opened.
    Opening(i32, MutableRecipeEntity),
    /// The recipe row is being overwritten; the ingredients wait.
    UpdatingRecipe(i32, Vec<MutableIngredientEntity>),
    /// The old ingredient rows are being deleted; the new ingredients wait.
    ClearingIngredients(RecipeRow, Vec<MutableIngredientEntity>),
    /// The new ingredient rows are being inserted.
    InsertingIngredients(RecipeRow),
    /// The transaction is being committed.
    Committing(RecipeEntity),
}

/// The view of [`UpdateRecipe`].
pub enum UpdateRecipeView {
    Opening(i32, RecipeContentView),
    UpdatingRecipe(i32, Seq<IngredientView>),
    ClearingIngredients(RecipeRowView, Seq<IngredientView>),
    InsertingIngredients(RecipeRowView),
    Committing(StoredRecipeView),
}

impl View for UpdateRecipe {
    type V = UpdateRecipeView;

    open spec fn view(&self) -> UpdateRecipeView {
        match self {
            UpdateRecipe::Opening(recipe_id, entity) => UpdateRecipeView::Opening(
                *recipe_id,
                entity@,
            ),
            UpdateRecipe::UpdatingRecipe(recipe_id, ingredients) => UpdateRecipeView::UpdatingRecipe(
                *recipe_id,
                views(ingredients@),
            ),
            UpdateRecipe::ClearingIngredients(row, ingredients) => {
                UpdateRecipeView::ClearingIngredients(row@, views(ingredients@))
            },
            UpdateRecipe::InsertingIngredients(row) => UpdateRecipeView::InsertingIngredients(row@),
            UpdateRecipe::Committing(entity) => UpdateRecipeView::Committing(entity@),
        }
    }
}

impl UpdateRecipeView {
    /// An upper bound on the statements still to run.
    pub open spec fn remaining(self) -> nat {
        match self {
            UpdateRecipeView::Opening(_, _) => 5,
            UpdateRecipeView::UpdatingRecipe(_, _) => 4,
            UpdateRecipeView::ClearingIngredients(_, _) => 3,
            UpdateRecipeView::InsertingIngredients(_) => 2,
            UpdateRecipeView::Committing(_) => 1,
        }
    }

    /// The update protocol: open a transaction, overwrite the recipe row,
    /// delete all its ingredient rows, insert the new ones in one statement
    /// unless there are none, commit. Where the overwrite finds no row the
    /// update ends with `NotFound`; any other unexpected reply ends it with
    /// an unknown fault that names the step.
    pub open spec fn step(self, reply: ReplyView) -> StepView<
        UpdateRecipeView,
        Result<StoredRecipeView, Fault>,
    > {
        match (self, reply) {
            (UpdateRecipeView::Opening(recipe_id, content), ReplyView::Done) => StepView::Run(
                StatementView::UpdateRecipe(recipe_id, fields_of(content)),
                UpdateRecipeView::UpdatingRecipe(recipe_id, content.ingredients),
            ),
            (UpdateRecipeView::Opening(_, _), _) => StepView::Finish(
                Err(failed("Failed to open transaction"@, reply)),
            ),
            (UpdateRecipeView::UpdatingRecipe(recipe_id, ingredients), ReplyView::Recipe(row)) => {
                StepView::Run(
                    StatementView::DeleteIngredients(recipe_id),
                    UpdateRecipeView::ClearingIngredients(row, ingredients),
                )
            },
            (UpdateRecipeView::UpdatingRecipe(_, _), ReplyView::NoRow) => StepView::Finish(
                Err(Fault::NotFound),
            ),
            (UpdateRecipeView::UpdatingRecipe(_, _), _) => StepView::Finish(
                Err(failed("Failed to update recipe"@, reply)),
            ),
            (UpdateRecipeView::ClearingIngredients(row, ingredients), ReplyView::Affected(_)) => {
                if ingredients.len() == 0 {
                    StepView::Run(
                        StatementView::Commit,
                        UpdateRecipeView::Committing(composed(row, Seq::empty())),
                    )
                } else if ingredients.len() > i32::MAX {
                    StepView::Finish(
                        Err(
                            Fault::Unknown(
                                FailureView {
                                    context: "Failed to create ingredients"@,
                                    cause: cause_too_many(),
                                },
                            ),
                        ),
                    )
                } else {
                    StepView::Run(
                        StatementView::InsertIngredients(new_rows(row.recipe_id, ingredients)),
                        UpdateRecipeView::InsertingIngredients(row),
                    )
                }
            },
            (UpdateRecipeView::ClearingIngredients(_, _), _) => StepView::Finish(
                Err(failed("Failed to clear out old ingredients"@, reply)),
            ),
            (UpdateRecipeView::InsertingIngredients(row), ReplyView::Ingredients(rows)) => {
                StepView::Run(
                    StatementView::Commit,
                    UpdateRecipeView::Committing(composed(row, rows)),
                )
            },
            (UpdateRecipeView::InsertingIngredients(_), _) => StepView::Finish(
                Err(failed("Failed to create ingredients"@, reply)),
            ),
            (UpdateRecipeView::Committing(stored), ReplyView::Done) => StepView::Finish(Ok(stored)),
            (UpdateRecipeView::Committing(_), _) => StepView::Finish(
                Err(failed("Failed to commit transaction"@, reply)),
            ),
        }
    }
}

impl UpdateRecipe {
    /// The first statement of an update, and the state to wait in.
    pub fn start(recipe_id: i32, entity: MutableRecipeEntity) -> (first: (Statement, UpdateRecipe))
        ensures
            first.0@ == StatementView::Begin,
            first.1@ == UpdateRecipeView::Opening(recipe_id, entity@),
    {
        (Statement::Begin, UpdateRecipe::Opening(recipe_id, entity))
    }

    /// What the update does after `reply`.
    pub fn step(self, reply: Reply) -> (step: Step<
        UpdateRecipe,
        Result<RecipeEntity, UpdateRecipeError>,
    >)
        ensures
            step_view(step) == self@.step(reply@),
            step matches Step::Run(_, next) ==> next@.remaining() < self@.remaining(),
    {
        match (self, reply) {
            (UpdateRecipe::Opening(recipe_id, entity), Reply::Done) => Step::Run(
                Statement::UpdateRecipe(
                    recipe_id,
                    recipe_fields(
                        entity.name,
                        entity.description,
                        entity.cooking_time,
                        entity.meal_type,
                    ),
                ),
                UpdateRecipe::UpdatingRecipe(recipe_id, entity.ingredients),
            ),
            (UpdateRecipe::Opening(_, _), reply) => Step::Finish(
                Err(UpdateRecipeError::Unknown(failure("Failed to open transaction", reply))),
            ),
            (UpdateRecipe::UpdatingRecipe(recipe_id, ingredients), Reply::Recipe(row)) => Step::Run(
                Statement::DeleteIngredients(recipe_id),
                UpdateRecipe::ClearingIngredients(row, ingredients),
            ),
            (UpdateRecipe::UpdatingRecipe(_, _), Reply::NoRow) => Step::Finish(
                Err(UpdateRecipeError::NotFound),
            ),
            (UpdateRecipe::UpdatingRecipe(_, _), reply) => Step::Finish(
                Err(UpdateRecipeError::Unknown(failure("Failed to update recipe", reply))),
            ),
            (UpdateRecipe::ClearingIngredients(row, ingredients), Reply::Affected(_)) => {
                if ingredients.len() == 0 {
                    let none: Vec<IngredientEntity> = Vec::new();
                    proof {
                        assert(views(none@) =~= Seq::empty());
                    }
                    Step::Run(Statement::Commit, UpdateRecipe::Committing(compose(row, none)))
                } else {
                    match ingredient_rows_for(row.recipe_id, ingredients) {
                        Some(rows) => Step::Run(
                            Statement::InsertIngredients(rows),
                            UpdateRecipe::InsertingIngredients(row),
                        ),
                        None => Step::Finish(
                            Err(
                                UpdateRecipeError::Unknown(
                                    Failure::new(
                                        "Failed to create ingredients",
                                        String::from_str(
                                            "the ingredient list is too long to be numbered",
                                        ),
                                    ),
                                ),
                            ),
                        ),
                    }
                }
            },
            (UpdateRecipe::ClearingIngredients(_, _), reply) => Step::Finish(
                Err(
                    UpdateRecipeError::Unknown(failure("Failed to clear out old ingredients", reply)),
                ),
            ),
            (UpdateRecipe::InsertingIngredients(row), Reply::Ingredients(rows)) => Step::Run(
                Statement::Commit,
                UpdateRecipe::Committing(compose(row, rows)),
            ),
            (UpdateRecipe::InsertingIngredients(_), reply) => Step::Finish(
                Err(UpdateRecipeError::Unknown(failure("Failed to create ingredients", reply))),
            ),
            (UpdateRecipe::Committing(entity), Reply::Done) => Step::Finish(Ok(entity)),
            (UpdateRecipe::Committing(_), reply) => Step::Finish(
                Err(UpdateRecipeError::Unknown(failure("Failed to commit transaction", reply))),
            ),
        }
    }
}

/// The state of a delete between two statements.
#[derive(Clone, Copy, Debug)]
pub enum DeleteRecipe {
    /// The transaction is being opened.
    Opening(i32),
    /// The ingredient rows of the recipe are being deleted.
    DeletingIngredients(i32),
    /// The recipe row is being deleted.
    DeletingRecipe,
    /// The transaction is being committed: a recipe row was deleted.
    Committing,
    /// The transaction is being rolled back: there was no recipe row.
    RollingBack,
}

impl View for DeleteRecipe {
    type V = DeleteRecipe;

    open spec fn view(&self) -> DeleteRecipe {
        *self
    }
}

impl DeleteRecipe {
    /// An upper bound on the statements still to run.
    pub open spec fn remaining(self) -> nat {
        match self {
            DeleteRecipe::Opening(_) => 4,
            DeleteRecipe::DeletingIngredients(_) => 3,
            DeleteRecipe::DeletingRecipe => 2,
            DeleteRecipe::Committing => 1,
            DeleteRecipe::RollingBack => 1,
        }
    }

    /// The delete protocol: open a transaction, delete the ingredient rows
    /// of the recipe, then the recipe row; commit if a recipe row went, else
    /// roll back and end with `NotFound`. Any other unexpected reply ends the
    /// delete with an unknown fault that names the step.
    pub open spec fn next(self, reply: ReplyView) -> StepView<DeleteRecipe, Result<(), Fault>> {
        match (self, reply) {
            (DeleteRecipe::Opening(recipe_id), ReplyView::Done) => StepView::Run(
                StatementView::DeleteIngredients(recipe_id),
                DeleteRecipe::DeletingIngredients(recipe_id),
            ),
            (DeleteRecipe::Opening(_), _) => StepView::Finish(
                Err(failed("Failed to start transaction"@, reply)),
            ),
            (DeleteRecipe::DeletingIngredients(recipe_id), ReplyView::Affected(_)) => StepView::Run(
                StatementView::DeleteRecipe(recipe_id),
                DeleteRecipe::DeletingRecipe,
            ),
            (DeleteRecipe::DeletingIngredients(_), _) => StepView::Finish(
                Err(failed("Failed to delete ingredients"@, reply)),
            ),
            (DeleteRecipe::DeletingRecipe, ReplyView::Affected(rows)) => {
                if rows > 0 {
                    StepView::Run(StatementView::Commit, DeleteRecipe::Committing)
                } else {
                    StepView::Run(StatementView::Rollback, DeleteRecipe::RollingBack)
                }
            },
            (DeleteRecipe::DeletingRecipe, _) => StepView::Finish(
                Err(failed("Failed to delete recipe"@, reply)),
            ),
            (DeleteRecipe::Committing, ReplyView::Done) => StepView::Finish(Ok(())),
            (DeleteRecipe::Committing, _) => StepView::Finish(
                Err(failed("Failed to commit transaction"@, reply)),
            ),
            (DeleteRecipe::RollingBack, ReplyView::Done) => StepView::Finish(Err(Fault::NotFound)),
            (DeleteRecipe::RollingBack, _) => StepView::Finish(
                Err(failed("Failed to rollback transaction"@, reply)),
            ),
        }
    }

    /// The first statement of a delete, and the state to wait in.
    pub fn start(recipe_id: i32) -> (first: (Statement, DeleteRecipe))
        ensures
            first.0@ == StatementView::Begin,
            first.1 == DeleteRecipe::Opening(recipe_id),
    {
        (Statement::Begin, DeleteRecipe::Opening(recipe_id))
    }

    /// What the delete does after `reply`.
    pub fn step(self, reply: Reply) -> (step: Step<DeleteRecipe, Result<(), DeleteRecipeError>>)
        ensures
            step_view(step) == self.next(reply@),
            step matches Step::Run(_, next) ==> next.remaining() < self.remaining(),
    {
        match (self, reply) {
            (DeleteRecipe::Opening(recipe_id), Reply::Done) => Step::Run(
                Statement::DeleteIngredients(recipe_id),
                DeleteRecipe::DeletingIngredients(recipe_id),
            ),
            (DeleteRecipe::Opening(_), reply) => Step::Finish(
                Err(DeleteRecipeError::Unknown(failure("Failed to start transaction", reply))),
            ),
            (DeleteRecipe::DeletingIngredients(recipe_id), Reply::Affected(_)) => Step::Run(
                Statement::DeleteRecipe(recipe_id),
                DeleteRecipe::DeletingRecipe,
            ),
            (DeleteRecipe::DeletingIngredients(_), reply) => Step::Finish(
                Err(DeleteRecipeError::Unknown(failure("Failed to delete ingredients", reply))),
            ),
            (DeleteRecipe::DeletingRecipe, Reply::Affected(rows)) => {
                if rows > 0 {
                    Step::Run(Statement::Commit, DeleteRecipe::Committing)
                } else {
                    Step::Run(Statement::Rollback, DeleteRecipe::RollingBack)
                }
            },
            (DeleteRecipe::DeletingRecipe, reply) => Step::Finish(
                Err(DeleteRecipeError::Unknown(failure("Failed to delete recipe", reply))),
            ),
            (DeleteRecipe::Committing, Reply::Done) => Step::Finish(Ok(())),
            (DeleteRecipe::Committing, reply) => Step::Finish(
                Err(DeleteRecipeError::Unknown(failure("Failed to commit transaction", reply))),
            ),
            (DeleteRecipe::RollingBack, Reply::Done) => Step::Finish(
                Err(DeleteRecipeError::NotFound),
            ),
            (DeleteRecipe::RollingBack, reply) => Step::Finish(
                Err(DeleteRecipeError::Unknown(failure("Failed to rollback transaction", reply))),
            ),
        }
    }
}

/// The entities that the rows of a read query stand for.
pub open spec fn recipes_of_rows(rows: Seq<JoinedRowView>) -> Seq<StoredRecipeView> {
    rows.map_values(|row: JoinedRowView| recipe_of_row(row))
}

/// What a read returns for the reply to its one statement: the entities of
/// the rows, or an unknown fault that names the read.
pub open spec fn read_outcome(context: Seq<char>, reply: ReplyView) -> Result<
    Seq<StoredRecipeView>,
    Fault,
> {
    match reply {
        ReplyView::Recipes(rows) => Ok(recipes_of_rows(rows)),
        _ => Err(failed(context, reply)),
    }
}

/// The view of what a read returns.
pub open spec fn read_view<E: View>(result: Result<Vec<RecipeEntity>, E>) -> Result<
    Seq<StoredRecipeView>,
    E::V,
> {
    match result {
        Ok(entities) => Ok(views(entities@)),
        Err(error) => Err(error@),
    }
}

/// The one statement of the list.
pub fn list_statement() -> (statement: Statement)
    ensures
        statement@ == StatementView::ListRecipes,
{
    Statement::ListRecipes
}

/// What the list returns for the reply to its statement.
pub fn list_finish(reply: Reply) -> (result: Result<Vec<RecipeEntity>, ListRecipeError>)
    ensures
        read_view(result) == read_outcome("Failed to get recipes"@, reply@),
{
    match reply {
        Reply::Recipes(rows) => Ok(recipes_from_rows(rows)),
        reply => Err(ListRecipeError::Unknown(failure("Failed to get recipes", reply))),
    }
}

/// The one statement of a search.
pub fn search_statement(args: SearchRecipesArguments) -> (statement: Statement)
    ensures
        statement@ == StatementView::SearchRecipes(args@),
{
    Statement::SearchRecipes(args)
}

/// What a search returns for the reply to its statement.
pub fn search_finish(reply: Reply) -> (result: Result<Vec<RecipeEntity>, SearchRecipeError>)
    ensures
        read_view(result) == read_outcome("Failed to query for recipes"@, reply@),
{
    match reply {
        Reply::Recipes(rows) => Ok(recipes_from_rows(rows)),
        reply => Err(SearchRecipeError::Unknown(failure("Failed to query for recipes", reply))),
    }
}

} // verus!
