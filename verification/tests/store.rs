use gecko_recipes::database::Database;
use gecko_recipes::entity::{
    CreateRecipeError, DeleteRecipeError, IngredientEntity, ListRecipeError, MealType,
    MutableIngredientEntity, MutableRecipeEntity, QuantityType, SearchRecipeError,
    SearchRecipesArguments, UpdateRecipeError,
};
use gecko_recipes::mapping::{compose, ingredient_rows_for, recipe_fields, recipe_from_row};
use gecko_recipes::measure::{CookingTime, Quantity};
use gecko_recipes::protocol::{
    list_finish, list_statement, search_finish, search_statement, CreateRecipe, DeleteRecipe,
    Step, UpdateRecipe,
};
use gecko_recipes::statement::{
    JoinedRow, NewIngredientRow, RecipeFields, RecipeRow, Reply, Statement,
};

fn fields(name: &str) -> RecipeFields {
    RecipeFields {
        name: name.to_string(),
        description: None,
        cooking_time_secs: Some(60),
        meal_type: MealType::Lunch,
    }
}

fn new_row(recipe_id: i32, order: i32, name: &str) -> NewIngredientRow {
    NewIngredientRow {
        recipe_id,
        ingredient_order: order,
        name: name.to_string(),
        quantity: Quantity::from_bits(1.5f32.to_bits()),
        quantity_type: QuantityType::Gram,
    }
}

fn ingredient(name: &str) -> MutableIngredientEntity {
    MutableIngredientEntity {
        name: name.to_string(),
        quantity_type: QuantityType::Kilo,
        quantity: Quantity::from_bits(0.25f32.to_bits()),
    }
}

fn entity(name: &str, ingredients: Vec<MutableIngredientEntity>) -> MutableRecipeEntity {
    MutableRecipeEntity {
        name: name.to_string(),
        description: Some("a description".to_string()),
        ingredients,
        cooking_time: Some(CookingTime { secs: 90, nanos: 500 }),
        meal_type: MealType::Dinner,
    }
}

fn row(recipe_id: i32, name: &str) -> RecipeRow {
    RecipeRow {
        recipe_id,
        name: name.to_string(),
        description: None,
        cooking_time_secs: Some(90),
        meal_type: MealType::Dinner,
    }
}

fn listed(db: &Database) -> Vec<JoinedRow> {
    match db.read(&Statement::ListRecipes) {
        Reply::Recipes(rows) => rows,
        other => panic!("unexpected reply {:?}", other),
    }
}

fn failure_of(reply: Reply) -> String {
    match reply {
        Reply::Failed(cause) => cause,
        other => panic!("unexpected reply {:?}", other),
    }
}

#[test]
fn insert_recipe_generates_ascending_identities() {
    let mut db = Database::new();
    let first = db.execute(Statement::InsertRecipe(fields("One")));
    let second = db.execute(Statement::InsertRecipe(fields("Two")));
    match (first, second) {
        (Reply::Recipe(a), Reply::Recipe(b)) => {
            assert_eq!(a.recipe_id, 1);
            assert_eq!(b.recipe_id, 2);
            assert_eq!(a.name, "One");
            assert_eq!(b.cooking_time_secs, Some(60));
        }
        other => panic!("unexpected replies {:?}", other),
    }
    assert_eq!(listed(&db).len(), 2);
}

#[test]
fn sequences_start_where_they_are_told_to() {
    let mut db = Database::starting_at(40, -3);
    match db.execute(Statement::InsertRecipe(fields("One"))) {
        Reply::Recipe(a) => assert_eq!(a.recipe_id, 40),
        other => panic!("unexpected reply {:?}", other),
    }
    match db.execute(Statement::InsertIngredients(vec![new_row(40, 0, "Salt")])) {
        Reply::Ingredients(rows) => assert_eq!(rows[0].ingredient_id, 1),
        other => panic!("unexpected reply {:?}", other),
    }
}

#[test]
fn insert_recipe_fails_when_the_sequence_is_exhausted() {
    let mut db = Database::starting_at(i32::MAX, 1);
    assert!(matches!(db.execute(Statement::InsertRecipe(fields("Last"))), Reply::Recipe(_)));
    let cause = failure_of(db.execute(Statement::InsertRecipe(fields("One too many"))));
    assert_eq!(cause, "the identity sequence is exhausted");
    assert_eq!(listed(&db).len(), 1);
}

#[test]
fn insert_ingredients_numbers_rows_consecutively() {
    let mut db = Database::starting_at(1, 10);
    db.execute(Statement::InsertRecipe(fields("One")));
    let reply = db.execute(Statement::InsertIngredients(vec![
        new_row(1, 0, "Flour"),
        new_row(1, 1, "Water"),
        new_row(1, 2, "Salt"),
    ]));
    match reply {
        Reply::Ingredients(rows) => {
            assert_eq!(rows.len(), 3);
            assert_eq!(rows[0].ingredient_id, 10);
            assert_eq!(rows[1].ingredient_id, 11);
            assert_eq!(rows[2].ingredient_id, 12);
            assert_eq!(rows[1].name, "Water");
            assert_eq!(rows[2].ingredient_order, 2);
            assert_eq!(rows[0].recipe_id, 1);
            assert_eq!(f32::from_bits(rows[0].quantity.to_bits()), 1.5);
            assert_eq!(rows[0].quantity_type, QuantityType::Gram);
        }
        other => panic!("unexpected reply {:?}", other),
    }
    assert_eq!(db.count_ingredients(1), 3);
}

#[test]
fn insert_ingredients_without_rows_is_refused() {
    let mut db = Database::new();
    db.execute(Statement::InsertRecipe(fields("One")));
    let cause = failure_of(db.execute(Statement::InsertIngredients(vec![])));
    assert_eq!(cause, "an insert statement needs at least one row");
}

#[test]
fn insert_ingredients_needs_the_recipe_row() {
    let mut db = Database::new();
    db.execute(Statement::InsertRecipe(fields("One")));
    let cause = failure_of(db.execute(Statement::InsertIngredients(vec![
        new_row(1, 0, "Flour"),
        new_row(7, 1, "Water"),
    ])));
    assert_eq!(cause, "an ingredient row would point at no recipe row");
    assert_eq!(db.count_ingredients(1), 0);
}

#[test]
fn insert_ingredients_fails_when_the_sequence_cannot_number_all_rows() {
    let mut db = Database::starting_at(1, i32::MAX - 1);
    db.execute(Statement::InsertRecipe(fields("One")));
    let cause = failure_of(db.execute(Statement::InsertIngredients(vec![
        new_row(1, 0, "Flour"),
        new_row(1, 1, "Water"),
        new_row(1, 2, "Salt"),
    ])));
    assert_eq!(cause, "the identity sequence is exhausted");
    assert_eq!(db.count_ingredients(1), 0);
    match db.execute(Statement::InsertIngredients(vec![new_row(1, 0, "Flour"), new_row(1, 1, "Water")])) {
        Reply::Ingredients(rows) => {
            assert_eq!(rows[0].ingredient_id, i32::MAX - 1);
            assert_eq!(rows[1].ingredient_id, i32::MAX);
        }
        other => panic!("unexpected reply {:?}", other),
    }
}

#[test]
fn delete_recipe_is_refused_while_ingredients_point_at_it() {
    let mut db = Database::new();
    db.execute(Statement::InsertRecipe(fields("One")));
    db.execute(Statement::InsertIngredients(vec![new_row(1, 0, "Flour")]));
    let cause = failure_of(db.execute(Statement::DeleteRecipe(1)));
    assert_eq!(cause, "an ingredient row would point at no recipe row");
    assert!(matches!(db.execute(Statement::DeleteIngredients(1)), Reply::Affected(1)));
    assert!(matches!(db.execute(Statement::DeleteRecipe(1)), Reply::Affected(1)));
    assert!(matches!(db.execute(Statement::DeleteRecipe(1)), Reply::Affected(0)));
    assert!(listed(&db).is_empty());
}

#[test]
fn delete_ingredients_counts_what_it_deletes() {
    let mut db = Database::new();
    db.execute(Statement::InsertRecipe(fields("One")));
    db.execute(Statement::InsertRecipe(fields("Two")));
    db.execute(Statement::InsertIngredients(vec![new_row(1, 0, "Flour"), new_row(2, 0, "Egg")]));
    db.execute(Statement::InsertIngredients(vec![new_row(1, 1, "Water")]));
    assert!(matches!(db.execute(Statement::DeleteIngredients(1)), Reply::Affected(2)));
    assert!(matches!(db.execute(Statement::DeleteIngredients(1)), Reply::Affected(0)));
    assert_eq!(db.count_ingredients(2), 1);
}

#[test]
fn update_recipe_overwrites_in_place() {
    let mut db = Database::new();
    db.execute(Statement::InsertRecipe(fields("One")));
    db.execute(Statement::InsertRecipe(fields("Two")));
    match db.execute(Statement::UpdateRecipe(1, fields("Uno"))) {
        Reply::Recipe(row) => {
            assert_eq!(row.recipe_id, 1);
            assert_eq!(row.name, "Uno");
        }
        other => panic!("unexpected reply {:?}", other),
    }
    assert!(matches!(db.execute(Statement::UpdateRecipe(3, fields("Tres"))), Reply::NoRow));
    let rows = listed(&db);
    assert_eq!(rows[0].name, "Uno");
    assert_eq!(rows[1].name, "Two");
}

#[test]
fn the_join_has_null_for_a_recipe_without_ingredients() {
    let mut db = Database::new();
    db.execute(Statement::InsertRecipe(fields("One")));
    db.execute(Statement::InsertRecipe(fields("Two")));
    db.execute(Statement::InsertIngredients(vec![new_row(2, 0, "Egg")]));
    let rows = listed(&db);
    assert!(rows[0].ingredients.is_none());
    assert_eq!(rows[1].ingredients.as_ref().map(|i| i.len()), Some(1));
}

#[test]
fn a_transaction_is_invisible_until_it_commits() {
    let mut db = Database::new();
    assert!(!db.in_transaction());
    assert!(matches!(db.execute(Statement::Begin), Reply::Done));
    assert!(db.in_transaction());
    db.execute(Statement::InsertRecipe(fields("One")));
    db.execute(Statement::InsertIngredients(vec![new_row(1, 0, "Flour")]));
    assert_eq!(db.count_ingredients(1), 0);
    assert!(matches!(db.execute(Statement::Commit), Reply::Done));
    assert!(!db.in_transaction());
    assert_eq!(db.count_ingredients(1), 1);
    assert_eq!(listed(&db).len(), 1);
}

#[test]
fn a_rollback_restores_the_tables_and_not_the_sequences() {
    let mut db = Database::new();
    db.execute(Statement::InsertRecipe(fields("Kept")));
    db.execute(Statement::Begin);
    db.execute(Statement::InsertRecipe(fields("Lost")));
    db.execute(Statement::DeleteRecipe(1));
    assert!(matches!(db.execute(Statement::Rollback), Reply::Done));
    let rows = listed(&db);
    assert_eq!(rows.len(), 1);
    assert_eq!(rows[0].name, "Kept");
    match db.execute(Statement::InsertRecipe(fields("Next"))) {
        Reply::Recipe(row) => assert_eq!(row.recipe_id, 3),
        other => panic!("unexpected reply {:?}", other),
    }
}

#[test]
fn abandon_throws_the_open_transaction_away() {
    let mut db = Database::new();
    db.execute(Statement::Begin);
    db.execute(Statement::InsertRecipe(fields("Lost")));
    db.abandon();
    assert!(!db.in_transaction());
    assert!(listed(&db).is_empty());
    db.abandon();
    assert!(listed(&db).is_empty());
}

#[test]
fn transactions_do_not_nest_and_need_to_be_open() {
    let mut db = Database::new();
    assert_eq!(failure_of(db.execute(Statement::Commit)), "no transaction is open");
    assert_eq!(failure_of(db.execute(Statement::Rollback)), "no transaction is open");
    db.execute(Statement::Begin);
    assert_eq!(failure_of(db.execute(Statement::Begin)), "a transaction is already open");
}

#[test]
fn read_refuses_what_is_not_a_query() {
    let db = Database::new();
    assert_eq!(failure_of(db.read(&Statement::Begin)), "the statement is not a query");
    assert_eq!(
        failure_of(db.read(&Statement::DeleteRecipe(1))),
        "the statement is not a query"
    );
    assert!(matches!(db.read(&Statement::ListRecipes), Reply::Recipes(_)));
}

#[test]
fn search_statement_filters_rows() {
    let mut db = Database::new();
    db.execute(Statement::InsertRecipe(fields("Apple Pie")));
    db.execute(Statement::InsertRecipe(fields("Pea Soup")));
    db.execute(Statement::InsertIngredients(vec![new_row(1, 0, "Apple"), new_row(2, 0, "Peas")]));
    let args = SearchRecipesArguments {
        recipe_name: Some("p".to_string()),
        ingredient_name: Some("PEA".to_string()),
        meal_type: Some(MealType::Lunch),
    };
    match db.execute(search_statement(args)) {
        Reply::Recipes(rows) => {
            assert_eq!(rows.len(), 1);
            assert_eq!(rows[0].name, "Pea Soup");
        }
        other => panic!("unexpected reply {:?}", other),
    }
}

#[test]
fn recipe_fields_hold_whole_seconds() {
    let fields = recipe_fields(
        "Name".to_string(),
        Some("Text".to_string()),
        Some(CookingTime { secs: 75, nanos: 999_999_999 }),
        MealType::Breakfast,
    );
    assert_eq!(fields.name, "Name");
    assert_eq!(fields.description.as_deref(), Some("Text"));
    assert_eq!(fields.cooking_time_secs, Some(75));
    assert_eq!(fields.meal_type, MealType::Breakfast);
    let none = recipe_fields("Name".to_string(), None, None, MealType::Lunch);
    assert_eq!(none.cooking_time_secs, None);
}

#[test]
fn ingredient_rows_carry_the_list_index() {
    let rows = ingredient_rows_for(9, vec![ingredient("a"), ingredient("b"), ingredient("c")])
        .expect("a short list");
    assert_eq!(rows.len(), 3);
    for (index, row) in rows.iter().enumerate() {
        assert_eq!(row.recipe_id, 9);
        assert_eq!(row.ingredient_order, index as i32);
        assert_eq!(row.quantity_type, QuantityType::Kilo);
        assert_eq!(f32::from_bits(row.quantity.to_bits()), 0.25);
    }
    assert_eq!(rows[0].name, "a");
    assert_eq!(rows[2].name, "c");
    assert_eq!(ingredient_rows_for(9, vec![]).expect("an empty list").len(), 0);
}

#[test]
fn compose_reads_the_seconds_column() {
    let entity = compose(row(4, "Stew"), vec![]);
    assert_eq!(entity.recipe_id, 4);
    assert_eq!(entity.name, "Stew");
    assert_eq!(entity.cooking_time, Some(CookingTime { secs: 90, nanos: 0 }));
    assert!(entity.ingredients.is_empty());
    assert_eq!(entity.meal_type, MealType::Dinner);
}

#[test]
fn a_row_without_ingredients_becomes_a_recipe_with_the_empty_list() {
    let entity = recipe_from_row(JoinedRow {
        recipe_id: 5,
        name: "Tea".to_string(),
        description: Some("hot".to_string()),
        cooking_time_secs: None,
        ingredients: None,
        meal_type: MealType::Breakfast,
    });
    assert_eq!(entity.recipe_id, 5);
    assert!(entity.ingredients.is_empty());
    assert_eq!(entity.cooking_time, None);
    assert_eq!(entity.description.as_deref(), Some("hot"));
    let with = recipe_from_row(JoinedRow {
        recipe_id: 6,
        name: "Toast".to_string(),
        description: None,
        cooking_time_secs: Some(-1),
        ingredients: Some(vec![IngredientEntity {
            ingredient_id: 3,
            recipe_id: 6,
            ingredient_order: 0,
            name: "Bread".to_string(),
            quantity_type: QuantityType::Count,
            quantity: Quantity::from_bits(2.0f32.to_bits()),
        }]),
        meal_type: MealType::Breakfast,
    });
    assert_eq!(with.ingredients.len(), 1);
    assert_eq!(with.ingredients[0].name, "Bread");
    assert_eq!(with.cooking_time, Some(CookingTime { secs: u64::MAX, nanos: 0 }));
}

fn create_context(state: CreateRecipe, reply: Reply) -> (String, String) {
    match state.step(reply) {
        Step::Finish(Err(CreateRecipeError::Unknown(failure))) => (failure.context, failure.cause),
        other => panic!("unexpected step {:?}", step_name(&other)),
    }
}

fn step_name<S, R>(step: &Step<S, R>) -> &'static str {
    match step {
        Step::Run(_, _) => "run",
        Step::Finish(_) => "finish",
    }
}

#[test]
fn create_walks_through_its_statements() {
    let (first, state) = CreateRecipe::start(entity("Bread", vec![ingredient("Flour"), ingredient("Water")]));
    assert!(matches!(first, Statement::Begin));
    let state = match state.step(Reply::Done) {
        Step::Run(Statement::InsertRecipe(fields), state) => {
            assert_eq!(fields.name, "Bread");
            assert_eq!(fields.cooking_time_secs, Some(90));
            assert_eq!(fields.description.as_deref(), Some("a description"));
            state
        }
        other => panic!("unexpected step {}", step_name(&other)),
    };
    let state = match state.step(Reply::Recipe(row(12, "Bread"))) {
        Step::Run(Statement::InsertIngredients(rows), state) => {
            assert_eq!(rows.len(), 2);
            assert_eq!(rows[0].recipe_id, 12);
            assert_eq!(rows[0].ingredient_order, 0);
            assert_eq!(rows[1].ingredient_order, 1);
            assert_eq!(rows[1].name, "Water");
            state
        }
        other => panic!("unexpected step {}", step_name(&other)),
    };
    let stored = vec![IngredientEntity {
        ingredient_id: 77,
        recipe_id: 12,
        ingredient_order: 0,
        name: "Flour".to_string(),
        quantity_type: QuantityType::Kilo,
        quantity: Quantity::from_bits(0.25f32.to_bits()),
    }];
    let state = match state.step(Reply::Ingredients(stored)) {
        Step::Run(Statement::Commit, state) => state,
        other => panic!("unexpected step {}", step_name(&other)),
    };
    match state.step(Reply::Done) {
        Step::Finish(Ok(entity)) => {
            assert_eq!(entity.recipe_id, 12);
            assert_eq!(entity.name, "Bread");
            assert_eq!(entity.ingredients.len(), 1);
            assert_eq!(entity.ingredients[0].ingredient_id, 77);
            assert_eq!(entity.cooking_time, Some(CookingTime::from_secs(90)));
        }
        other => panic!("unexpected step {}", step_name(&other)),
    }
}

#[test]
fn create_skips_the_bulk_insert_for_an_empty_list() {
    let (_, state) = CreateRecipe::start(entity("Water", vec![]));
    let state = match state.step(Reply::Done) {
        Step::Run(Statement::InsertRecipe(_), state) => state,
        other => panic!("unexpected step {}", step_name(&other)),
    };
    let state = match state.step(Reply::Recipe(row(3, "Water"))) {
        Step::Run(Statement::Commit, state) => state,
        other => panic!("unexpected step {}", step_name(&other)),
    };
    match state.step(Reply::Done) {
        Step::Finish(Ok(entity)) => assert!(entity.ingredients.is_empty()),
        other => panic!("unexpected step {}", step_name(&other)),
    }
}

#[test]
fn create_names_the_step_that_failed() {
    let start = || CreateRecipe::start(entity("Bread", vec![ingredient("Flour")])).1;
    assert_eq!(
        create_context(start(), Reply::Failed("pool timed out".to_string())),
        ("Failed to open transaction".to_string(), "pool timed out".to_string())
    );
    let inserting = || match start().step(Reply::Done) {
        Step::Run(_, state) => state,
        other => panic!("unexpected step {}", step_name(&other)),
    };
    assert_eq!(
        create_context(inserting(), Reply::Failed("connection reset".to_string())),
        ("Failed to insert recipe".to_string(), "connection reset".to_string())
    );
    assert_eq!(
        create_context(inserting(), Reply::NoRow),
        ("Failed to insert recipe".to_string(), "no row was returned".to_string())
    );
    assert_eq!(
        create_context(inserting(), Reply::Affected(1)),
        ("Failed to insert recipe".to_string(), "the store gave an unexpected reply".to_string())
    );
    let ingredients = || match inserting().step(Reply::Recipe(row(1, "Bread"))) {
        Step::Run(_, state) => state,
        other => panic!("unexpected step {}", step_name(&other)),
    };
    assert_eq!(
        create_context(ingredients(), Reply::Failed("deadlock".to_string())),
        ("Failed to create ingredients".to_string(), "deadlock".to_string())
    );
    let committing = match ingredients().step(Reply::Ingredients(vec![])) {
        Step::Run(Statement::Commit, state) => state,
        other => panic!("unexpected step {}", step_name(&other)),
    };
    assert_eq!(
        create_context(committing, Reply::Failed("server closed".to_string())),
        ("Failed to commit transaction".to_string(), "server closed".to_string())
    );
}

#[test]
fn update_walks_through_its_statements() {
    let (first, state) = UpdateRecipe::start(8, entity("Bread", vec![ingredient("Rye")]));
    assert!(matches!(first, Statement::Begin));
    let state = match state.step(Reply::Done) {
        Step::Run(Statement::UpdateRecipe(8, fields), state) => {
            assert_eq!(fields.name, "Bread");
            state
        }
        other => panic!("unexpected step {}", step_name(&other)),
    };
    let state = match state.step(Reply::Recipe(row(8, "Bread"))) {
        Step::Run(Statement::DeleteIngredients(8), state) => state,
        other => panic!("unexpected step {}", step_name(&other)),
    };
    let state = match state.step(Reply::Affected(5)) {
        Step::Run(Statement::InsertIngredients(rows), state) => {
            assert_eq!(rows.len(), 1);
            assert_eq!(rows[0].recipe_id, 8);
            assert_eq!(rows[0].ingredient_order, 0);
            state
        }
        other => panic!("unexpected step {}", step_name(&other)),
    };
    let state = match state.step(Reply::Ingredients(vec![])) {
        Step::Run(Statement::Commit, state) => state,
        other => panic!("unexpected step {}", step_name(&other)),
    };
    assert!(matches!(state.step(Reply::Done), Step::Finish(Ok(_))));
}

#[test]
fn update_is_not_found_when_no_row_comes_back() {
    let (_, state) = UpdateRecipe::start(8, entity("Bread", vec![]));
    let state = match state.step(Reply::Done) {
        Step::Run(_, state) => state,
        other => panic!("unexpected step {}", step_name(&other)),
    };
    assert!(matches!(state.step(Reply::NoRow), Step::Finish(Err(UpdateRecipeError::NotFound))));
}

#[test]
fn update_skips_the_bulk_insert_for_an_empty_list() {
    let (_, state) = UpdateRecipe::start(8, entity("Bread", vec![]));
    let state = match state.step(Reply::Done) {
        Step::Run(_, state) => state,
        other => panic!("unexpected step {}", step_name(&other)),
    };
    let state = match state.step(Reply::Recipe(row(8, "Bread"))) {
        Step::Run(_, state) => state,
        other => panic!("unexpected step {}", step_name(&other)),
    };
    assert!(matches!(state.step(Reply::Affected(2)), Step::Run(Statement::Commit, _)));
}

#[test]
fn update_names_the_step_that_failed() {
    let context = |state: UpdateRecipe, reply: Reply| match state.step(reply) {
        Step::Finish(Err(UpdateRecipeError::Unknown(failure))) => failure.context,
        other => panic!("unexpected step {}", step_name(&other)),
    };
    let start = || UpdateRecipe::start(8, entity("Bread", vec![ingredient("Rye")])).1;
    let next = |state: UpdateRecipe, reply: Reply| match state.step(reply) {
        Step::Run(_, state) => state,
        other => panic!("unexpected step {}", step_name(&other)),
    };
    assert_eq!(context(start(), Reply::Failed("x".to_string())), "Failed to open transaction");
    let updating = || next(start(), Reply::Done);
    assert_eq!(context(updating(), Reply::Failed("x".to_string())), "Failed to update recipe");
    let clearing = || next(updating(), Reply::Recipe(row(8, "Bread")));
    assert_eq!(
        context(clearing(), Reply::Failed("x".to_string())),
        "Failed to clear out old ingredients"
    );
    let inserting = || next(clearing(), Reply::Affected(0));
    assert_eq!(
        context(inserting(), Reply::Failed("x".to_string())),
        "Failed to create ingredients"
    );
    let committing = next(inserting(), Reply::Ingredients(vec![]));
    assert_eq!(
        context(committing, Reply::Failed("x".to_string())),
        "Failed to commit transaction"
    );
}

#[test]
fn delete_commits_when_a_row_went_and_rolls_back_when_none_did() {
    let (first, state) = DeleteRecipe::start(5);
    assert!(matches!(first, Statement::Begin));
    let state = match state.step(Reply::Done) {
        Step::Run(Statement::DeleteIngredients(5), state) => state,
        other => panic!("unexpected step {}", step_name(&other)),
    };
    let state = match state.step(Reply::Affected(3)) {
        Step::Run(Statement::DeleteRecipe(5), state) => state,
        other => panic!("unexpected step {}", step_name(&other)),
    };
    match state.step(Reply::Affected(1)) {
        Step::Run(Statement::Commit, committing) => {
            assert!(matches!(committing.step(Reply::Done), Step::Finish(Ok(()))));
        }
        other => panic!("unexpected step {}", step_name(&other)),
    }
    match state.step(Reply::Affected(0)) {
        Step::Run(Statement::Rollback, rolling_back) => {
            assert!(matches!(
                rolling_back.step(Reply::Done),
                Step::Finish(Err(DeleteRecipeError::NotFound))
            ));
        }
        other => panic!("unexpected step {}", step_name(&other)),
    }
}

#[test]
fn delete_names_the_step_that_failed() {
    let context = |state: DeleteRecipe, reply: Reply| match state.step(reply) {
        Step::Finish(Err(DeleteRecipeError::Unknown(failure))) => failure.context,
        other => panic!("unexpected step {}", step_name(&other)),
    };
    let failed = || Reply::Failed("x".to_string());
    assert_eq!(context(DeleteRecipe::Opening(1), failed()), "Failed to start transaction");
    assert_eq!(context(DeleteRecipe::DeletingIngredients(1), failed()), "Failed to delete ingredients");
    assert_eq!(context(DeleteRecipe::DeletingRecipe, failed()), "Failed to delete recipe");
    assert_eq!(context(DeleteRecipe::Committing, failed()), "Failed to commit transaction");
    assert_eq!(context(DeleteRecipe::RollingBack, failed()), "Failed to rollback transaction");
}

#[test]
fn reads_turn_rows_into_recipes_and_failures_into_errors() {
    assert!(matches!(list_statement(), Statement::ListRecipes));
    let rows = vec![JoinedRow {
        recipe_id: 5,
        name: "Tea".to_string(),
        description: None,
        cooking_time_secs: Some(120),
        ingredients: None,
        meal_type: MealType::Breakfast,
    }];
    let recipes = list_finish(Reply::Recipes(rows)).expect("rows are recipes");
    assert_eq!(recipes.len(), 1);
    assert_eq!(recipes[0].name, "Tea");
    assert_eq!(recipes[0].cooking_time, Some(CookingTime::from_secs(120)));
    match list_finish(Reply::Failed("down".to_string())) {
        Err(ListRecipeError::Unknown(failure)) => {
            assert_eq!(failure.context, "Failed to get recipes");
            assert_eq!(failure.cause, "down");
        }
        other => panic!("unexpected result {:?}", other),
    }
    assert!(search_finish(Reply::Recipes(vec![])).expect("no rows").is_empty());
    match search_finish(Reply::Done) {
        Err(SearchRecipeError::Unknown(failure)) => {
            assert_eq!(failure.context, "Failed to query for recipes");
            assert_eq!(failure.cause, "the store gave an unexpected reply");
        }
        other => panic!("unexpected result {:?}", other),
    }
}

fn create_failing_at(db: &mut Database, entity: MutableRecipeEntity, fail_at: usize) -> Result<gecko_recipes::entity::RecipeEntity, CreateRecipeError> {
    let (mut statement, mut state) = CreateRecipe::start(entity);
    let mut sent = 0;
    loop {
        let reply = if sent == fail_at {
            Reply::Failed("the connection was lost".to_string())
        } else {
            db.execute(statement)
        };
        sent += 1;
        match state.step(reply) {
            Step::Run(next, waiting) => {
                statement = next;
                state = waiting;
            }
            Step::Finish(result) => {
                db.abandon();
                return result;
            }
        }
    }
}

fn update_failing_at(db: &mut Database, recipe_id: i32, entity: MutableRecipeEntity, fail_at: usize) -> Result<gecko_recipes::entity::RecipeEntity, UpdateRecipeError> {
    let (mut statement, mut state) = UpdateRecipe::start(recipe_id, entity);
    let mut sent = 0;
    loop {
        let reply = if sent == fail_at {
            Reply::Failed("the connection was lost".to_string())
        } else {
            db.execute(statement)
        };
        sent += 1;
        match state.step(reply) {
            Step::Run(next, waiting) => {
                statement = next;
                state = waiting;
            }
            Step::Finish(result) => {
                db.abandon();
                return result;
            }
        }
    }
}

fn delete_failing_at(db: &mut Database, recipe_id: i32, fail_at: usize) -> Result<(), DeleteRecipeError> {
    let (mut statement, mut state) = DeleteRecipe::start(recipe_id);
    let mut sent = 0;
    loop {
        let reply = if sent == fail_at {
            Reply::Failed("the connection was lost".to_string())
        } else {
            db.execute(statement)
        };
        sent += 1;
        match state.step(reply) {
            Step::Run(next, waiting) => {
                statement = next;
                state = waiting;
            }
            Step::Finish(result) => {
                db.abandon();
                return result;
            }
        }
    }
}

#[test]
fn a_create_that_fails_at_any_statement_stores_nothing() {
    let contexts = [
        "Failed to open transaction",
        "Failed to insert recipe",
        "Failed to create ingredients",
        "Failed to commit transaction",
    ];
    for (fail_at, context) in contexts.iter().enumerate() {
        let mut db = Database::new();
        let result = create_failing_at(
            &mut db,
            entity("Bread", vec![ingredient("Flour"), ingredient("Water")]),
            fail_at,
        );
        match result {
            Err(CreateRecipeError::Unknown(failure)) => {
                assert_eq!(&failure.context, context);
                assert_eq!(failure.cause, "the connection was lost");
            }
            other => panic!("unexpected result {:?}", other),
        }
        assert!(!db.in_transaction());
        assert!(listed(&db).is_empty());
        assert_eq!(db.count_ingredients(1), 0);
    }
    let mut db = Database::new();
    let created = create_failing_at(&mut db, entity("Bread", vec![ingredient("Flour")]), 4)
        .expect("nothing fails");
    assert_eq!(created.recipe_id, 1);
    assert_eq!(listed(&db).len(), 1);
}

#[test]
fn an_update_that_fails_at_any_statement_changes_nothing() {
    let contexts = [
        "Failed to open transaction",
        "Failed to update recipe",
        "Failed to clear out old ingredients",
        "Failed to create ingredients",
        "Failed to commit transaction",
    ];
    for (fail_at, context) in contexts.iter().enumerate() {
        let mut db = Database::new();
        create_failing_at(&mut db, entity("Bread", vec![ingredient("Flour"), ingredient("Water")]), 9)
            .expect("nothing fails");
        let result = update_failing_at(&mut db, 1, entity("Cake", vec![ingredient("Sugar")]), fail_at);
        match result {
            Err(UpdateRecipeError::Unknown(failure)) => assert_eq!(&failure.context, context),
            other => panic!("unexpected result {:?}", other),
        }
        assert!(!db.in_transaction());
        let rows = listed(&db);
        assert_eq!(rows.len(), 1);
        assert_eq!(rows[0].name, "Bread");
        let ingredients = rows[0].ingredients.as_ref().expect("two ingredients");
        assert_eq!(ingredients.len(), 2);
        assert_eq!(ingredients[0].name, "Flour");
        assert_eq!(ingredients[1].name, "Water");
    }
}

#[test]
fn a_delete_that_fails_at_any_statement_changes_nothing() {
    let contexts = [
        "Failed to start transaction",
        "Failed to delete ingredients",
        "Failed to delete recipe",
        "Failed to commit transaction",
    ];
    for (fail_at, context) in contexts.iter().enumerate() {
        let mut db = Database::new();
        create_failing_at(&mut db, entity("Bread", vec![ingredient("Flour"), ingredient("Water")]), 9)
            .expect("nothing fails");
        match delete_failing_at(&mut db, 1, fail_at) {
            Err(DeleteRecipeError::Unknown(failure)) => assert_eq!(&failure.context, context),
            other => panic!("unexpected result {:?}", other),
        }
        assert!(!db.in_transaction());
        assert_eq!(listed(&db).len(), 1);
        assert_eq!(db.count_ingredients(1), 2);
    }
    let mut db = Database::new();
    match delete_failing_at(&mut db, 1, 3) {
        Err(DeleteRecipeError::Unknown(failure)) => {
            assert_eq!(failure.context, "Failed to rollback transaction")
        }
        other => panic!("unexpected result {:?}", other),
    }
    assert!(!db.in_transaction());
}
