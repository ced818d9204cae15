//! The relational store held in memory.
//!
//! It runs each statement as the model in [`crate::tables`] says, so a
//! repository built on it behaves as one built on a relational database
//! does, without one.

use vstd::prelude::*;
use vstd::string::StringExecFns;
use crate::constraints::{lemma_execute_keeps_constraints, lemma_position_of};
use crate::entity::{IngredientEntity, SearchRecipesArguments};
use crate::model::views;
use crate::sequences::lemma_filter_all;
use crate::statement::{
    JoinedRow, NewIngredientRow, RecipeFields, RecipeRow, RecipeRowView, Reply, Statement,
};
use crate::tables::{
    has_ingredient_named, has_recipe, ingredient_rows, not_owned_by, owned_by, DatabaseView, Tables,
};
use crate::text::{contains_ignore_case, contains_term};

verus! {

/// The rows of the two tables.
struct TableData {
    recipes: Vec<RecipeRow>,
    ingredients: Vec<IngredientEntity>,
}

impl View for TableData {
    type V = Tables;

    closed spec fn view(&self) -> Tables {
        Tables { recipes: views(self.recipes@), ingredients: views(self.ingredients@) }
    }
}

/// A relational store in memory.
pub struct Database {
    /// The tables that statements act on.
    tables: TableData,
    /// The committed tables, set aside while a transaction is open.
    saved: Option<TableData>,
    next_recipe_id: i64,
    next_ingredient_id: i64,
}

impl View for Database {
    type V = DatabaseView;

    closed spec fn view(&self) -> DatabaseView {
        match self.saved {
            Some(saved) => DatabaseView {
                committed: saved@,
                open: Some(self.tables@),
                next_recipe_id: self.next_recipe_id as int,
                next_ingredient_id: self.next_ingredient_id as int,
            },
            None => DatabaseView {
                committed: self.tables@,
                open: None,
                next_recipe_id: self.next_recipe_id as int,
                next_ingredient_id: self.next_ingredient_id as int,
            },
        }
    }
}

/// The first position at which the recipe table has a row with the identity.
fn find_recipe(recipes: &Vec<RecipeRow>, recipe_id: i32) -> (found: Option<usize>)
    ensures
        match found {
            Some(at) => at < recipes.len() && recipes[at as int].recipe_id == recipe_id,
            None => !has_recipe(views(recipes@), recipe_id),
        },
{
    let mut at: usize = 0;
    while at < recipes.len()
        invariant
            at <= recipes.len(),
            forall|k: int| 0 <= k < at ==> (#[trigger] views(recipes@)[k]).recipe_id != recipe_id,
        decreases recipes.len() - at,
    {
        if recipes[at].recipe_id == recipe_id {
            return Some(at);
        }
        at += 1;
    }
    None
}

/// Copies of the ingredient rows that point at the recipe, or of those that
/// do not, in table order.
fn select_rows(rows: &Vec<IngredientEntity>, recipe_id: i32, owned: bool) -> (selected: Vec<
    IngredientEntity,
>)
    ensures
        views(selected@) == views(rows@).filter(
            if owned {
                owned_by(recipe_id)
            } else {
                not_owned_by(recipe_id)
            },
        ),
{
    let ghost keep = if owned {
        owned_by(recipe_id)
    } else {
        not_owned_by(recipe_id)
    };
    let mut selected: Vec<IngredientEntity> = Vec::new();
    let mut i: usize = 0;
    proof {
        reveal(Seq::filter);
        assert(views(rows@).take(0) =~= Seq::empty());
        assert(views(selected@) =~= Seq::empty());
    }
    while i < rows.len()
        invariant
            i <= rows.len(),
            keep == (if owned {
                owned_by(recipe_id)
            } else {
                not_owned_by(recipe_id)
            }),
            views(selected@) == views(rows@).take(i as int).filter(keep),
        decreases rows.len() - i,
    {
        proof {
            assert(views(rows@).take(i + 1) =~= views(rows@).take(i as int).push(rows@[i as int]@));
            views(rows@).take(i as int).lemma_filter_push(rows@[i as int]@, keep);
        }
        if (rows[i].recipe_id == recipe_id) == owned {
            let ghost before = selected@;
            selected.push(rows[i].clone());
            proof {
                assert(views(selected@) =~= views(before).push(rows@[i as int]@));
            }
        }
        i += 1;
    }
    proof {
        assert(views(rows@).take(rows.len() as int) =~= views(rows@));
    }
    selected
}

/// Whether an ingredient row of the recipe has `term` in its name.
fn any_row_named(rows: &Vec<IngredientEntity>, recipe_id: i32, term: &str) -> (found: bool)
    ensures
        found == has_ingredient_named(views(rows@), recipe_id, term@),
{
    let mut i: usize = 0;
    while i < rows.len()
        invariant
            i <= rows.len(),
            forall|k: int|
                0 <= k < i ==> !((#[trigger] views(rows@)[k]).recipe_id == recipe_id
                    && contains_term(views(rows@)[k].name, term@)),
        decreases rows.len() - i,
    {
        if rows[i].recipe_id == recipe_id && contains_ignore_case(rows[i].name.as_str(), term) {
            proof {
                let row = views(rows@)[i as int];
                assert(row.recipe_id == recipe_id && contains_term(row.name, term@));
            }
            return true;
        }
        i += 1;
    }
    false
}

impl TableData {
    /// The row of the read query for one recipe row.
    fn join(&self, row: &RecipeRow) -> (joined: JoinedRow)
        ensures
            joined@ == self@.joined(row@),
    {
        let rows = select_rows(&self.ingredients, row.recipe_id, true);
        JoinedRow {
            recipe_id: row.recipe_id,
            name: row.name.clone(),
            description: row.description.clone(),
            cooking_time_secs: row.cooking_time_secs,
            ingredients: if rows.len() == 0 {
                None
            } else {
                Some(rows)
            },
            meal_type: row.meal_type,
        }
    }

    /// The condition of the search query on one recipe row.
    fn selects(&self, row: &RecipeRow, args: &SearchRecipesArguments) -> (selected: bool)
        ensures
            selected == self@.selects(row@, args@),
    {
        match &args.recipe_name {
            Some(term) => {
                if !contains_ignore_case(row.name.as_str(), term.as_str()) {
                    return false;
                }
            },
            None => {},
        }
        match &args.ingredient_name {
            Some(term) => {
                if !any_row_named(&self.ingredients, row.recipe_id, term.as_str()) {
                    return false;
                }
            },
            None => {},
        }
        match args.meal_type {
            Some(meal) => {
                if meal != row.meal_type {
                    return false;
                }
            },
            None => {},
        }
        true
    }

    /// The read query: with `Some` criteria the search, with `None` the
    /// list.
    fn select(&self, args: Option<&SearchRecipesArguments>) -> (rows: Vec<JoinedRow>)
        ensures
            views(rows@) == (match args {
                Some(criteria) => self@.search(criteria@),
                None => self@.list(),
            }),
    {
        let ghost keep = match args {
            Some(criteria) => self@.selecting(criteria@),
            None => |row: RecipeRowView| true,
        };
        let ghost all = views(self.recipes@);
        let mut rows: Vec<JoinedRow> = Vec::new();
        let mut i: usize = 0;
        proof {
            reveal(Seq::filter);
            assert(all.take(0) =~= Seq::empty());
            assert(views(rows@) =~= all.take(0).filter(keep).map_values(self@.joining()));
        }
        while i < self.recipes.len()
            invariant
                i <= self.recipes.len(),
                all == views(self.recipes@),
                keep == (match args {
                    Some(criteria) => self@.selecting(criteria@),
                    None => |row: RecipeRowView| true,
                }),
                views(rows@) == all.take(i as int).filter(keep).map_values(self@.joining()),
            decreases self.recipes.len() - i,
        {
            let row = &self.recipes[i];
            let selected = match args {
                Some(criteria) => self.selects(row, criteria),
                None => true,
            };
            proof {
                assert(all.take(i + 1) =~= all.take(i as int).push(row@));
                all.take(i as int).lemma_filter_push(row@, keep);
                assert(selected == keep(row@));
            }
            if selected {
                let ghost before = rows@;
                rows.push(self.join(row));
                proof {
                    assert(views(rows@) =~= views(before).push(self@.joined(row@)));
                    assert(all.take(i as int).filter(keep).push(row@).map_values(self@.joining())
                        =~= all.take(i as int).filter(keep).map_values(self@.joining()).push(
                        self@.joined(row@),
                    ));
                }
            }
            i += 1;
        }
        proof {
            assert(all.take(self.recipes.len() as int) =~= all);
            if args is None {
                lemma_filter_all(all, keep);
            }
        }
        rows
    }
}

impl Database {
    /// The constraints of the store hold.
    pub open spec fn wf(&self) -> bool {
        self@.wf()
    }

    /// An empty store whose identity sequences start at 1.
    pub fn new() -> (db: Database)
        ensures
            db.wf(),
            db@ == DatabaseView::empty(1, 1),
    {
        Database::starting_at(1, 1)
    }

    /// An empty store whose identity sequences start at the given values, or
    /// at 1 where a value is below 1.
    pub fn starting_at(next_recipe_id: i32, next_ingredient_id: i32) -> (db: Database)
        ensures
            db.wf(),
            db@ == DatabaseView::empty(
                if next_recipe_id < 1 { 1 } else { next_recipe_id as int },
                if next_ingredient_id < 1 { 1 } else { next_ingredient_id as int },
            ),
    {
        let db = Database {
            tables: TableData { recipes: Vec::new(), ingredients: Vec::new() },
            saved: None,
            next_recipe_id: if next_recipe_id < 1 { 1 } else { next_recipe_id as i64 },
            next_ingredient_id: if next_ingredient_id < 1 { 1 } else { next_ingredient_id as i64 },
        };
        proof {
            assert(db@.committed.recipes =~= Seq::empty());
            assert(db@.committed.ingredients =~= Seq::empty());
        }
        db
    }

    /// Whether a transaction is open.
    pub fn in_transaction(&self) -> (open: bool)
        ensures
            open == (self@.open is Some),
    {
        self.saved.is_some()
    }

    /// Throws the open transaction away, if there is one.
    pub fn abandon(&mut self)
        requires
            old(self).wf(),
        ensures
            final(self).wf(),
            final(self)@ == old(self)@.abandoned(),
    {
        match self.saved.take() {
            Some(saved) => {
                self.tables = saved;
            },
            None => {},
        }
    }

    fn begin(&mut self) -> (reply: Reply)
        ensures
            (final(self)@, reply@) == old(self)@.begin(),
    {
        if self.saved.is_some() {
            return Reply::Failed(String::from_str("a transaction is already open"));
        }
        let copy = TableData {
            recipes: self.tables.recipes.clone(),
            ingredients: self.tables.ingredients.clone(),
        };
        self.saved = Some(copy);
        Reply::Done
    }

    fn commit(&mut self) -> (reply: Reply)
        ensures
            (final(self)@, reply@) == old(self)@.commit(),
    {
        match self.saved.take() {
            Some(_) => Reply::Done,
            None => Reply::Failed(String::from_str("no transaction is open")),
        }
    }

    fn rollback(&mut self) -> (reply: Reply)
        ensures
            (final(self)@, reply@) == old(self)@.rollback(),
    {
        match self.saved.take() {
            Some(saved) => {
                self.tables = saved;
                Reply::Done
            },
            None => Reply::Failed(String::from_str("no transaction is open")),
        }
    }

    fn insert_recipe(&mut self, fields: RecipeFields) -> (reply: Reply)
        requires
            old(self).wf(),
        ensures
            (final(self)@, reply@) == old(self)@.insert_recipe(fields@),
    {
        if self.next_recipe_id > 0x7fff_ffff {
            return Reply::Failed(String::from_str("the identity sequence is exhausted"));
        }
        let row = RecipeRow {
            recipe_id: self.next_recipe_id as i32,
            name: fields.name,
            description: fields.description,
            cooking_time_secs: fields.cooking_time_secs,
            meal_type: fields.meal_type,
        };
        let returned = row.clone();
        self.tables.recipes.push(row);
        self.next_recipe_id = self.next_recipe_id + 1;
        proof {
            assert(views(self.tables.recipes@) == views(old(self).tables.recipes@).push(row@));
        }
        Reply::Recipe(returned)
    }

    fn update_recipe(&mut self, recipe_id: i32, fields: RecipeFields) -> (reply: Reply)
        requires
            old(self).wf(),
        ensures
            (final(self)@, reply@) == old(self)@.update_recipe(recipe_id, fields@),
    {
        match find_recipe(&self.tables.recipes, recipe_id) {
            Some(at) => {
                let row = RecipeRow {
                    recipe_id,
                    name: fields.name,
                    description: fields.description,
                    cooking_time_secs: fields.cooking_time_secs,
                    meal_type: fields.meal_type,
                };
                let returned = row.clone();
                proof {
                    lemma_position_of(views(self.tables.recipes@), recipe_id, at as int);
                }
                self.tables.recipes[at] = row;
                proof {
                    assert(views(self.tables.recipes@) == views(old(self).tables.recipes@).update(
                        at as int,
                        row@,
                    ));
                }
                Reply::Recipe(returned)
            },
            None => Reply::NoRow,
        }
    }

    fn delete_ingredients(&mut self, recipe_id: i32) -> (reply: Reply)
        ensures
            (final(self)@, reply@) == old(self)@.delete_ingredients(recipe_id),
    {
        let kept = select_rows(&self.tables.ingredients, recipe_id, false);
        proof {
            views(self.tables.ingredients@).lemma_filter_len(not_owned_by(recipe_id));
        }
        let deleted: usize = self.tables.ingredients.len() - kept.len();
        self.tables.ingredients = kept;
        Reply::Affected(deleted as u64)
    }

    fn insert_ingredients(&mut self, rows: Vec<NewIngredientRow>) -> (reply: Reply)
        requires
            old(self).wf(),
        ensures
            (final(self)@, reply@) == old(self)@.insert_ingredients(views(rows@)),
    {
        if rows.len() == 0 {
            return Reply::Failed(String::from_str("an insert statement needs at least one row"));
        }
        let mut k: usize = 0;
        while k < rows.len()
            invariant
                k <= rows.len(),
                forall|j: int|
                    0 <= j < k ==> has_recipe(
                        views(self.tables.recipes@),
                        (#[trigger] views(rows@)[j]).recipe_id,
                    ),
            decreases rows.len() - k,
        {
            match find_recipe(&self.tables.recipes, rows[k].recipe_id) {
                Some(at) => {
                    proof {
                        let row = views(rows@)[k as int];
                        assert(views(self.tables.recipes@)[at as int].recipe_id == row.recipe_id);
                    }
                },
                None => {
                    proof {
                        let row = views(rows@)[k as int];
                        assert(!has_recipe(views(self.tables.recipes@), row.recipe_id));
                    }
                    return Reply::Failed(
                        String::from_str("an ingredient row would point at no recipe row"),
                    );
                },
            }
            k += 1;
        }
        let room: i64 = 0x8000_0000 - self.next_ingredient_id;
        if rows.len() > room as usize {
            return Reply::Failed(String::from_str("the identity sequence is exhausted"));
        }
        let ghost target = ingredient_rows(self.next_ingredient_id as int, views(rows@));
        let mut inserted: Vec<IngredientEntity> = Vec::new();
        let mut k: usize = 0;
        while k < rows.len()
            invariant
                k <= rows.len(),
                rows.len() <= room,
                room == 0x8000_0000 - self.next_ingredient_id,
                1 <= self.next_ingredient_id,
                target == ingredient_rows(self.next_ingredient_id as int, views(rows@)),
                views(inserted@) == target.take(k as int),
            decreases rows.len() - k,
        {
            let row = &rows[k];
            let ghost before = inserted@;
            inserted.push(
                IngredientEntity {
                    ingredient_id: (self.next_ingredient_id + k as i64) as i32,
                    recipe_id: row.recipe_id,
                    ingredient_order: row.ingredient_order,
                    name: row.name.clone(),
                    quantity_type: row.quantity_type,
                    quantity: row.quantity,
                },
            );
            proof {
                assert(views(inserted@) =~= views(before).push(inserted@[k as int]@));
                assert(target.take(k + 1) =~= target.take(k as int).push(target[k as int]));
            }
            k += 1;
        }
        proof {
            assert(target.take(rows.len() as int) =~= target);
        }
        let mut copies = inserted.clone();
        let ghost before = self.tables.ingredients@;
        self.tables.ingredients.append(&mut copies);
        self.next_ingredient_id = self.next_ingredient_id + rows.len() as i64;
        proof {
            assert(views(self.tables.ingredients@) =~= views(before) + target);
        }
        Reply::Ingredients(inserted)
    }

    fn delete_recipe(&mut self, recipe_id: i32) -> (reply: Reply)
        requires
            old(self).wf(),
        ensures
            (final(self)@, reply@) == old(self)@.delete_recipe(recipe_id),
    {
        let owned = select_rows(&self.tables.ingredients, recipe_id, true);
        if owned.len() > 0 {
            return Reply::Failed(
                String::from_str("an ingredient row would point at no recipe row"),
            );
        }
        match find_recipe(&self.tables.recipes, recipe_id) {
            Some(at) => {
                proof {
                    lemma_position_of(views(self.tables.recipes@), recipe_id, at as int);
                }
                let ghost before = self.tables.recipes@;
                self.tables.recipes.remove(at);
                proof {
                    assert(views(self.tables.recipes@) =~= views(before).remove(at as int));
                }
                Reply::Affected(1)
            },
            None => Reply::Affected(0),
        }
    }

    /// The number of committed ingredient rows that point at the recipe.
    pub fn count_ingredients(&self, recipe_id: i32) -> (count: usize)
        ensures
            count == self@.committed.ingredients_of(recipe_id).len(),
    {
        let rows = match &self.saved {
            Some(saved) => select_rows(&saved.ingredients, recipe_id, true),
            None => select_rows(&self.tables.ingredients, recipe_id, true),
        };
        rows.len()
    }

    /// Answers a query without a claim on the store; refuses any other
    /// statement.
    pub fn read(&self, statement: &Statement) -> (reply: Reply)
        ensures
            reply@ == self@.read(statement@),
    {
        match statement {
            Statement::ListRecipes => Reply::Recipes(self.tables.select(None)),
            Statement::SearchRecipes(args) => Reply::Recipes(self.tables.select(Some(args))),
            _ => Reply::Failed(String::from_str("the statement is not a query")),
        }
    }

    /// Runs one statement.
    pub fn execute(&mut self, statement: Statement) -> (reply: Reply)
        requires
            old(self).wf(),
        ensures
            final(self).wf(),
            (final(self)@, reply@) == old(self)@.execute(statement@),
    {
        proof {
            lemma_execute_keeps_constraints(self@, statement@);
        }
        match statement {
            Statement::Begin => self.begin(),
            Statement::InsertRecipe(fields) => self.insert_recipe(fields),
            Statement::UpdateRecipe(recipe_id, fields) => self.update_recipe(recipe_id, fields),
            Statement::DeleteIngredients(recipe_id) => self.delete_ingredients(recipe_id),
            Statement::InsertIngredients(rows) => self.insert_ingredients(rows),
            Statement::DeleteRecipe(recipe_id) => self.delete_recipe(recipe_id),
            Statement::ListRecipes => Reply::Recipes(self.tables.select(None)),
            Statement::SearchRecipes(args) => Reply::Recipes(self.tables.select(Some(&args))),
            Statement::Commit => self.commit(),
            Statement::Rollback => self.rollback(),
        }
    }
}

} // verus!
