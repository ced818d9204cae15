use gecko_recipes::domain::{
    CreateRecipeError, DeleteRecipeError, Ingredient, ListRecipeError, MealType, NewRecipe,
    QuantityType, Recipe, SearchCriteria, SearchRecipeError, UpdateRecipeError,
};
use gecko_recipes::entity;
use gecko_recipes::failure::Failure;
use gecko_recipes::measure::{CookingTime, Quantity};
use gecko_recipes::memory::MemoryStore;
use gecko_recipes::service::{
    create_outcome, delete_outcome, list_outcome, search_outcome, update_outcome, RecipeService,
};

fn ingredient(name: &str, quantity: f32) -> Ingredient {
    Ingredient {
        name: name.to_string(),
        quantity_type: QuantityType::Gram,
        quantity: Quantity::from_bits(quantity.to_bits()),
    }
}

fn new_recipe(name: &str, meal_type: MealType, ingredients: Vec<Ingredient>) -> NewRecipe {
    NewRecipe {
        name: name.to_string(),
        description: None,
        ingredients,
        cooking_time: Some(CookingTime { secs: 60, nanos: 1 }),
        meal_type,
    }
}

fn entity_recipe(recipe_id: i32, name: &str) -> entity::RecipeEntity {
    entity::RecipeEntity {
        recipe_id,
        name: name.to_string(),
        description: None,
        ingredients: vec![entity::IngredientEntity {
            ingredient_id: 9,
            recipe_id,
            ingredient_order: 0,
            name: "Egg".to_string(),
            quantity_type: entity::QuantityType::Count,
            quantity: Quantity::from_bits(2.0f32.to_bits()),
        }],
        cooking_time: None,
        meal_type: entity::MealType::Lunch,
    }
}

fn failure() -> Failure {
    Failure::new("Failed to open transaction", "pool closed".to_string())
}

#[test]
fn the_service_creates_lists_updates_and_deletes() {
    let mut service = RecipeService::new(MemoryStore::new());
    assert!(service.list_recipes().expect("listing succeeds").is_empty());

    let created = service
        .create_recipe(new_recipe(
            "Omelette",
            MealType::Breakfast,
            vec![ingredient("Egg", 3.0), ingredient("Butter", 10.0)],
        ))
        .expect("create succeeds");
    assert!(created.recipe_id > 0);
    assert_eq!(created.name, "Omelette");
    assert_eq!(created.cooking_time, Some(CookingTime::from_secs(60)));
    assert_eq!(created.ingredients.len(), 2);
    assert_eq!(created.ingredients[0].name, "Egg");
    assert_eq!(created.ingredients[1].name, "Butter");

    let listed = service.list_recipes().expect("listing succeeds");
    assert_eq!(listed.len(), 1);
    assert_eq!(listed[0].recipe_id, created.recipe_id);
    assert_eq!(listed[0].ingredients.len(), 2);

    let updated = service
        .update_recipe(Recipe {
            recipe_id: created.recipe_id,
            name: "Scrambled eggs".to_string(),
            description: Some("Stir".to_string()),
            ingredients: vec![ingredient("Egg", 2.0)],
            cooking_time: None,
            meal_type: MealType::Lunch,
        })
        .expect("update succeeds");
    assert_eq!(updated.recipe_id, created.recipe_id);
    assert_eq!(updated.name, "Scrambled eggs");
    assert_eq!(updated.description.as_deref(), Some("Stir"));
    assert_eq!(updated.meal_type, MealType::Lunch);
    assert_eq!(updated.ingredients.len(), 1);
    assert_eq!(f32::from_bits(updated.ingredients[0].quantity.to_bits()), 2.0);

    let listed = service.list_recipes().expect("listing succeeds");
    assert_eq!(listed.len(), 1);
    assert_eq!(listed[0].name, "Scrambled eggs");
    assert_eq!(listed[0].ingredients.len(), 1);

    assert!(service.delete_recipe(created.recipe_id).is_ok());
    assert!(service.list_recipes().expect("listing succeeds").is_empty());
}

#[test]
fn the_service_reports_not_found() {
    let mut service = RecipeService::new(MemoryStore::new());
    let update = service.update_recipe(Recipe {
        recipe_id: 999999,
        name: "Ghost".to_string(),
        description: None,
        ingredients: vec![],
        cooking_time: None,
        meal_type: MealType::Dinner,
    });
    assert!(matches!(update, Err(UpdateRecipeError::NotFound)));
    assert!(matches!(service.delete_recipe(999999), Err(DeleteRecipeError::NotFound)));
    assert!(service.list_recipes().expect("listing succeeds").is_empty());
}

#[test]
fn the_service_searches() {
    let mut service = RecipeService::new(MemoryStore::new());
    service
        .create_recipe(new_recipe("Chocolate Cake", MealType::Dinner, vec![ingredient("Flour", 1.0)]))
        .unwrap();
    service
        .create_recipe(new_recipe("Vanilla Pudding", MealType::Dinner, vec![ingredient("Milk", 1.0)]))
        .unwrap();
    service.create_recipe(new_recipe("Choco Toast", MealType::Breakfast, vec![])).unwrap();
    let found = service
        .search_recipes(SearchCriteria {
            recipe_name: Some("Choco".to_string()),
            ingredient_name: None,
            meal_type: Some(MealType::Dinner),
        })
        .expect("search succeeds");
    assert_eq!(found.len(), 1);
    assert_eq!(found[0].name, "Chocolate Cake");
    let all = service
        .search_recipes(SearchCriteria { recipe_name: None, ingredient_name: None, meal_type: None })
        .expect("search succeeds");
    assert_eq!(all.len(), 3);
}

#[test]
fn the_service_reports_a_store_that_is_exhausted() {
    let mut service = RecipeService::new(MemoryStore::starting_at(i32::MAX, 1));
    assert!(service.create_recipe(new_recipe("Last", MealType::Lunch, vec![])).is_ok());
    match service.create_recipe(new_recipe("Over", MealType::Lunch, vec![])) {
        Err(CreateRecipeError::Unknown(failure)) => {
            assert_eq!(failure.context, "Failed to insert recipe");
        }
        other => panic!("unexpected result {:?}", other),
    }
    assert_eq!(service.list_recipes().expect("listing succeeds").len(), 1);
}

#[test]
fn outcomes_of_reads_keep_recipes_and_errors() {
    let listed = list_outcome(Ok(vec![entity_recipe(1, "A"), entity_recipe(2, "B")]))
        .expect("recipes stay recipes");
    assert_eq!(listed.len(), 2);
    assert_eq!(listed[0].recipe_id, 1);
    assert_eq!(listed[1].name, "B");
    assert_eq!(listed[1].ingredients[0].name, "Egg");
    assert_eq!(listed[1].ingredients[0].quantity_type, QuantityType::Count);
    match list_outcome(Err(entity::ListRecipeError::Unknown(failure()))) {
        Err(ListRecipeError::Unknown(failure)) => assert_eq!(failure.cause, "pool closed"),
        other => panic!("unexpected result {:?}", other),
    }
    assert_eq!(search_outcome(Ok(vec![entity_recipe(3, "C")])).expect("recipes")[0].recipe_id, 3);
    match search_outcome(Err(entity::SearchRecipeError::Unknown(failure()))) {
        Err(SearchRecipeError::Unknown(failure)) => {
            assert_eq!(failure.context, "Failed to open transaction")
        }
        other => panic!("unexpected result {:?}", other),
    }
}

#[test]
fn outcomes_of_writes_keep_recipes_and_errors() {
    let created = create_outcome(Ok(entity_recipe(4, "D"))).expect("a recipe");
    assert_eq!(created.recipe_id, 4);
    assert_eq!(created.meal_type, MealType::Lunch);
    assert!(matches!(
        create_outcome(Err(entity::CreateRecipeError::Unknown(failure()))),
        Err(CreateRecipeError::Unknown(_))
    ));
    let updated = update_outcome(Ok(entity_recipe(5, "E"))).expect("a recipe");
    assert_eq!(updated.name, "E");
    assert!(matches!(
        update_outcome(Err(entity::UpdateRecipeError::NotFound)),
        Err(UpdateRecipeError::NotFound)
    ));
    assert!(matches!(
        update_outcome(Err(entity::UpdateRecipeError::Unknown(failure()))),
        Err(UpdateRecipeError::Unknown(_))
    ));
    assert!(matches!(delete_outcome(Ok(())), Ok(())));
    assert!(matches!(
        delete_outcome(Err(entity::DeleteRecipeError::NotFound)),
        Err(DeleteRecipeError::NotFound)
    ));
    assert!(matches!(
        delete_outcome(Err(entity::DeleteRecipeError::Unknown(failure()))),
        Err(DeleteRecipeError::Unknown(_))
    ));
}
