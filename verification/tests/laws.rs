use gecko_recipes::entity::{
    CreateRecipeError, MealType, MutableIngredientEntity, MutableRecipeEntity, QuantityType,
    SearchRecipesArguments, UpdateRecipeError,
};
use gecko_recipes::measure::{CookingTime, Quantity};
use gecko_recipes::memory::MemoryStore;
use gecko_recipes::repository::RecipeRepository;

fn ingredient(name: &str, quantity: f32, quantity_type: QuantityType) -> MutableIngredientEntity {
    MutableIngredientEntity {
        name: name.to_string(),
        quantity: Quantity::from_bits(quantity.to_bits()),
        quantity_type,
    }
}

fn recipe(name: &str, meal_type: MealType, ingredients: Vec<MutableIngredientEntity>) -> MutableRecipeEntity {
    MutableRecipeEntity {
        name: name.to_string(),
        description: Some(format!("How to make {}", name)),
        ingredients,
        cooking_time: Some(CookingTime { secs: 600, nanos: 250 }),
        meal_type,
    }
}

fn names(store: &MemoryStore, args: SearchRecipesArguments) -> Vec<String> {
    store
        .search_recipes(args)
        .expect("search succeeds")
        .into_iter()
        .map(|r| r.name)
        .collect()
}

#[test]
fn a_created_recipe_is_listed_as_it_was_submitted() {
    let mut store = MemoryStore::new();
    store.create_recipe(recipe("Other", MealType::Lunch, vec![ingredient("X", 1.0, QuantityType::Count)])).unwrap();
    let submitted = vec![
        ("Flour", 0.5f32, QuantityType::Kilo),
        ("Water", 300.0, QuantityType::Milliliter),
        ("Yeast", 7.0, QuantityType::Gram),
        ("Salt", 1.5, QuantityType::Count),
        ("Oil", 0.01, QuantityType::Liter),
    ];
    let created = store
        .create_recipe(recipe(
            "Bread",
            MealType::Breakfast,
            submitted.iter().map(|(n, q, t)| ingredient(n, *q, *t)).collect(),
        ))
        .expect("create succeeds");
    let listed = store.list_recipes().expect("listing succeeds");
    assert_eq!(listed.len(), 2);
    let found = &listed[1];
    assert_eq!(found.recipe_id, created.recipe_id);
    assert_eq!(found.name, "Bread");
    assert_eq!(found.description.as_deref(), Some("How to make Bread"));
    assert_eq!(found.meal_type, MealType::Breakfast);
    assert_eq!(found.cooking_time, Some(CookingTime { secs: 600, nanos: 0 }));
    assert_eq!(found.ingredients.len(), submitted.len());
    for (index, (name, quantity, unit)) in submitted.iter().enumerate() {
        let stored = &found.ingredients[index];
        assert_eq!(&stored.name, name);
        assert_eq!(f32::from_bits(stored.quantity.to_bits()), *quantity);
        assert_eq!(stored.quantity_type, *unit);
        assert_eq!(stored.ingredient_order, index as i32);
        assert_eq!(stored.recipe_id, created.recipe_id);
        assert_eq!(stored.ingredient_id, created.ingredients[index].ingredient_id);
    }
}

#[test]
fn identities_are_new_and_positive() {
    let mut store = MemoryStore::new();
    let a = store.create_recipe(recipe("A", MealType::Lunch, vec![])).unwrap();
    let b = store.create_recipe(recipe("B", MealType::Lunch, vec![])).unwrap();
    store.delete_recipe(b.recipe_id).unwrap();
    let c = store.create_recipe(recipe("C", MealType::Lunch, vec![])).unwrap();
    assert!(a.recipe_id > 0);
    assert!(b.recipe_id > a.recipe_id);
    assert!(c.recipe_id > b.recipe_id);
}

#[test]
fn an_update_leaves_no_trace_of_the_old_ingredients() {
    let mut store = MemoryStore::new();
    let created = store
        .create_recipe(recipe(
            "Soup",
            MealType::Dinner,
            vec![ingredient("A", 1.0, QuantityType::Count), ingredient("B", 2.0, QuantityType::Count)],
        ))
        .unwrap();
    let other = store
        .create_recipe(recipe("Side", MealType::Dinner, vec![ingredient("Z", 9.0, QuantityType::Gram)]))
        .unwrap();
    let updated = store
        .update_recipe(
            created.recipe_id,
            recipe(
                "Soup",
                MealType::Dinner,
                vec![
                    ingredient("C", 3.0, QuantityType::Count),
                    ingredient("D", 4.0, QuantityType::Count),
                    ingredient("E", 5.0, QuantityType::Count),
                ],
            ),
        )
        .expect("update succeeds");
    let stored: Vec<&str> = updated.ingredients.iter().map(|i| i.name.as_str()).collect();
    assert_eq!(stored, vec!["C", "D", "E"]);
    assert_eq!(store.count_ingredients(created.recipe_id), 3);
    let listed = store.list_recipes().unwrap();
    assert_eq!(listed.len(), 2);
    assert_eq!(listed[0].recipe_id, created.recipe_id);
    let listed_names: Vec<&str> = listed[0].ingredients.iter().map(|i| i.name.as_str()).collect();
    assert_eq!(listed_names, vec!["C", "D", "E"]);
    let orders: Vec<i32> = listed[0].ingredients.iter().map(|i| i.ingredient_order).collect();
    assert_eq!(orders, vec![0, 1, 2]);
    for old in created.ingredients.iter() {
        assert!(listed[0].ingredients.iter().all(|i| i.ingredient_id != old.ingredient_id));
    }
    assert_eq!(listed[1].recipe_id, other.recipe_id);
    assert_eq!(listed[1].ingredients.len(), 1);
    assert_eq!(listed[1].ingredients[0].name, "Z");
}

#[test]
fn an_update_with_fewer_ingredients_removes_the_excess() {
    let mut store = MemoryStore::new();
    let created = store
        .create_recipe(recipe(
            "Soup",
            MealType::Dinner,
            vec![
                ingredient("A", 1.0, QuantityType::Count),
                ingredient("B", 2.0, QuantityType::Count),
                ingredient("C", 2.0, QuantityType::Count),
            ],
        ))
        .unwrap();
    store
        .update_recipe(
            created.recipe_id,
            recipe("Soup", MealType::Dinner, vec![ingredient("B", 2.0, QuantityType::Count)]),
        )
        .unwrap();
    assert_eq!(store.count_ingredients(created.recipe_id), 1);
    let listed = store.list_recipes().unwrap();
    assert_eq!(listed[0].ingredients[0].name, "B");
    assert_eq!(listed[0].ingredients[0].ingredient_order, 0);
}

#[test]
fn not_found_changes_nothing() {
    let mut store = MemoryStore::new();
    let created = store
        .create_recipe(recipe("Soup", MealType::Dinner, vec![ingredient("A", 1.0, QuantityType::Count)]))
        .unwrap();
    let update = store.update_recipe(999999, recipe("Ghost", MealType::Lunch, vec![ingredient("Q", 1.0, QuantityType::Count)]));
    assert!(matches!(update, Err(UpdateRecipeError::NotFound)));
    let delete = store.delete_recipe(999999);
    assert!(matches!(delete, Err(gecko_recipes::entity::DeleteRecipeError::NotFound)));
    let listed = store.list_recipes().unwrap();
    assert_eq!(listed.len(), 1);
    assert_eq!(listed[0].recipe_id, created.recipe_id);
    assert_eq!(listed[0].name, "Soup");
    assert_eq!(listed[0].ingredients.len(), 1);
    assert_eq!(listed[0].ingredients[0].ingredient_id, created.ingredients[0].ingredient_id);
    assert_eq!(store.count_ingredients(999999), 0);
}

#[test]
fn a_delete_cascades_and_spares_the_others() {
    let mut store = MemoryStore::new();
    let keep1 = store
        .create_recipe(recipe("Keep 1", MealType::Lunch, vec![ingredient("A", 1.0, QuantityType::Count)]))
        .unwrap();
    let gone = store
        .create_recipe(recipe(
            "Gone",
            MealType::Lunch,
            vec![ingredient("B", 1.0, QuantityType::Count), ingredient("C", 1.0, QuantityType::Count)],
        ))
        .unwrap();
    let keep2 = store
        .create_recipe(recipe("Keep 2", MealType::Lunch, vec![ingredient("D", 1.0, QuantityType::Count)]))
        .unwrap();
    assert!(store.delete_recipe(gone.recipe_id).is_ok());
    assert_eq!(store.count_ingredients(gone.recipe_id), 0);
    assert_eq!(store.count_ingredients(keep1.recipe_id), 1);
    assert_eq!(store.count_ingredients(keep2.recipe_id), 1);
    let listed = store.list_recipes().unwrap();
    let ids: Vec<i32> = listed.iter().map(|r| r.recipe_id).collect();
    assert_eq!(ids, vec![keep1.recipe_id, keep2.recipe_id]);
    assert_eq!(listed[0].ingredients[0].name, "A");
    assert_eq!(listed[1].ingredients[0].name, "D");
    assert!(matches!(
        store.delete_recipe(gone.recipe_id),
        Err(gecko_recipes::entity::DeleteRecipeError::NotFound)
    ));
}

#[test]
fn search_composes_its_criteria() {
    let mut store = MemoryStore::new();
    store
        .create_recipe(recipe("Chocolate Cake", MealType::Dinner, vec![ingredient("Flour", 1.0, QuantityType::Kilo)]))
        .unwrap();
    store
        .create_recipe(recipe("Vanilla Pudding", MealType::Dinner, vec![ingredient("Milk", 1.0, QuantityType::Liter)]))
        .unwrap();
    store.create_recipe(recipe("Choco Toast", MealType::Breakfast, vec![])).unwrap();
    let found = names(
        &store,
        SearchRecipesArguments {
            recipe_name: Some("Choco".to_string()),
            ingredient_name: None,
            meal_type: Some(MealType::Dinner),
        },
    );
    assert_eq!(found, vec!["Chocolate Cake"]);
    let all = names(
        &store,
        SearchRecipesArguments { recipe_name: None, ingredient_name: None, meal_type: None },
    );
    assert_eq!(all, vec!["Chocolate Cake", "Vanilla Pudding", "Choco Toast"]);
    let by_ingredient = names(
        &store,
        SearchRecipesArguments {
            recipe_name: None,
            ingredient_name: Some("fLoUr".to_string()),
            meal_type: None,
        },
    );
    assert_eq!(by_ingredient, vec!["Chocolate Cake"]);
    let by_name = names(
        &store,
        SearchRecipesArguments {
            recipe_name: Some("CHOCO".to_string()),
            ingredient_name: None,
            meal_type: None,
        },
    );
    assert_eq!(by_name, vec!["Chocolate Cake", "Choco Toast"]);
    let none = names(
        &store,
        SearchRecipesArguments {
            recipe_name: Some("Choco".to_string()),
            ingredient_name: Some("Milk".to_string()),
            meal_type: None,
        },
    );
    assert!(none.is_empty());
    let empty_term = names(
        &store,
        SearchRecipesArguments {
            recipe_name: Some(String::new()),
            ingredient_name: None,
            meal_type: None,
        },
    );
    assert_eq!(empty_term.len(), 3);
    let empty_ingredient_term = names(
        &store,
        SearchRecipesArguments {
            recipe_name: None,
            ingredient_name: Some(String::new()),
            meal_type: None,
        },
    );
    assert_eq!(empty_ingredient_term, vec!["Chocolate Cake", "Vanilla Pudding"]);
}

#[test]
fn a_create_that_cannot_number_its_ingredients_stores_nothing() {
    let mut store = MemoryStore::starting_at(5, i32::MAX - 1);
    let result = store.create_recipe(recipe(
        "Too much",
        MealType::Lunch,
        vec![
            ingredient("A", 1.0, QuantityType::Count),
            ingredient("B", 1.0, QuantityType::Count),
            ingredient("C", 1.0, QuantityType::Count),
        ],
    ));
    match result {
        Err(CreateRecipeError::Unknown(failure)) => {
            assert_eq!(failure.context, "Failed to create ingredients");
            assert_eq!(failure.cause, "the identity sequence is exhausted");
        }
        other => panic!("unexpected result {:?}", other),
    }
    assert!(store.list_recipes().unwrap().is_empty());
    assert_eq!(store.count_ingredients(5), 0);
    let next = store
        .create_recipe(recipe(
            "Fits",
            MealType::Lunch,
            vec![ingredient("A", 1.0, QuantityType::Count), ingredient("B", 1.0, QuantityType::Count)],
        ))
        .expect("two ingredients can be numbered");
    assert_eq!(next.recipe_id, 6);
    assert_eq!(next.ingredients[1].ingredient_id, i32::MAX);
}

#[test]
fn a_create_that_cannot_number_its_recipe_fails() {
    let mut store = MemoryStore::starting_at(i32::MAX, 1);
    assert!(store.create_recipe(recipe("Last", MealType::Lunch, vec![])).is_ok());
    match store.create_recipe(recipe("Over", MealType::Lunch, vec![])) {
        Err(CreateRecipeError::Unknown(failure)) => {
            assert_eq!(failure.context, "Failed to insert recipe");
            assert_eq!(failure.cause, "the identity sequence is exhausted");
        }
        other => panic!("unexpected result {:?}", other),
    }
    assert_eq!(store.list_recipes().unwrap().len(), 1);
}

#[test]
fn an_update_that_cannot_number_its_ingredients_changes_nothing() {
    let mut store = MemoryStore::starting_at(1, i32::MAX - 1);
    let created = store
        .create_recipe(recipe("Soup", MealType::Dinner, vec![ingredient("A", 1.0, QuantityType::Count)]))
        .unwrap();
    let result = store.update_recipe(
        created.recipe_id,
        recipe(
            "Stew",
            MealType::Lunch,
            vec![ingredient("B", 1.0, QuantityType::Count), ingredient("C", 1.0, QuantityType::Count)],
        ),
    );
    match result {
        Err(UpdateRecipeError::Unknown(failure)) => {
            assert_eq!(failure.context, "Failed to create ingredients");
        }
        other => panic!("unexpected result {:?}", other),
    }
    let listed = store.list_recipes().unwrap();
    assert_eq!(listed.len(), 1);
    assert_eq!(listed[0].name, "Soup");
    assert_eq!(listed[0].meal_type, MealType::Dinner);
    assert_eq!(listed[0].ingredients.len(), 1);
    assert_eq!(listed[0].ingredients[0].name, "A");
}

#[test]
fn an_empty_store_is_empty() {
    let store = MemoryStore::starting_at(0, 0);
    assert!(store.list_recipes().unwrap().is_empty());
    assert_eq!(store.count_ingredients(1), 0);
}
