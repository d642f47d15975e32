//! The relational schema: six tables, their key columns, and the foreign keys
//! that tie dependent rows to their parents.
//!
//! The store itself does not cascade deletes or reject dangling references, so
//! every integrity rule of this crate is derived from the two lists kept here:
//! the foreign keys of a table (checked before a row is created) and the
//! dependents of a table (removed before a row is deleted).

use vstd::prelude::*;

verus! {

/// One of the six tables of the store.
#[derive(Clone, Copy, Debug, PartialEq, Eq, Structural)]
pub enum Table {
    Ingredients,
    IngredientMacros,
    Meals,
    MealIngredients,
    Recipes,
    RecipeIngredients,
}

/// A key column: the primary key `id`, or one of the three foreign keys.
#[derive(Clone, Copy, Debug, PartialEq, Eq, Structural)]
pub enum Column {
    Id,
    IngredientId,
    MealId,
    RecipeId,
}

/// One of the three foreign keys. Each is a column of the dependent tables
/// that have it, and each refers to the rows of one parent table.
#[derive(Clone, Copy, Debug, PartialEq, Eq, Structural)]
pub enum ForeignKey {
    IngredientId,
    MealId,
    RecipeId,
}

/// A place from which a table is referenced: the dependent table and the
/// foreign key of it that holds the reference.
#[derive(Clone, Copy, Debug, PartialEq, Eq, Structural)]
pub struct Dependent {
    pub table: Table,
    pub key: ForeignKey,
}

impl ForeignKey {
    /// The table whose rows the key refers to.
    #[verifier::when_used_as_spec(spec_parent)]
    pub fn parent(self) -> (table: Table)
        ensures
            table == self.spec_parent(),
    {
        match self {
            ForeignKey::IngredientId => Table::Ingredients,
            ForeignKey::MealId => Table::Meals,
            ForeignKey::RecipeId => Table::Recipes,
        }
    }

    /// The table whose rows the key refers to.
    pub open spec fn spec_parent(self) -> Table {
        match self {
            ForeignKey::IngredientId => Table::Ingredients,
            ForeignKey::MealId => Table::Meals,
            ForeignKey::RecipeId => Table::Recipes,
        }
    }

    /// The column that holds the key.
    #[verifier::when_used_as_spec(spec_column)]
    pub fn column(self) -> (column: Column)
        ensures
            column == self.spec_column(),
    {
        match self {
            ForeignKey::IngredientId => Column::IngredientId,
            ForeignKey::MealId => Column::MealId,
            ForeignKey::RecipeId => Column::RecipeId,
        }
    }

    /// The column that holds the key.
    pub open spec fn spec_column(self) -> Column {
        match self {
            ForeignKey::IngredientId => Column::IngredientId,
            ForeignKey::MealId => Column::MealId,
            ForeignKey::RecipeId => Column::RecipeId,
        }
    }
}

impl Column {
    /// The foreign key that the column holds; the primary key is none.
    pub open spec fn foreign_key(self) -> Option<ForeignKey> {
        match self {
            Column::Id => None,
            Column::IngredientId => Some(ForeignKey::IngredientId),
            Column::MealId => Some(ForeignKey::MealId),
            Column::RecipeId => Some(ForeignKey::RecipeId),
        }
    }

    /// The column's name in the store.
    pub open spec fn spec_name(self) -> Seq<char> {
        match self {
            Column::Id => "id"@,
            Column::IngredientId => "ingredient_id"@,
            Column::MealId => "meal_id"@,
            Column::RecipeId => "recipe_id"@,
        }
    }

    /// The column's name in the store.
    pub fn name(self) -> (text: &'static str)
        ensures
            text@ == self.spec_name(),
    {
        match self {
            Column::Id => "id",
            Column::IngredientId => "ingredient_id",
            Column::MealId => "meal_id",
            Column::RecipeId => "recipe_id",
        }
    }
}

impl Table {
    /// The table's name in the store.
    pub open spec fn spec_name(self) -> Seq<char> {
        match self {
            Table::Ingredients => "ingredients"@,
            Table::IngredientMacros => "ingredient_macros"@,
            Table::Meals => "meals"@,
            Table::MealIngredients => "meal_ingredients"@,
            Table::Recipes => "recipes"@,
            Table::RecipeIngredients => "recipe_ingredients"@,
        }
    }

    /// The table's name in the store.
    pub fn name(self) -> (text: &'static str)
        ensures
            text@ == self.spec_name(),
    {
        match self {
            Table::Ingredients => "ingredients",
            Table::IngredientMacros => "ingredient_macros",
            Table::Meals => "meals",
            Table::MealIngredients => "meal_ingredients",
            Table::Recipes => "recipes",
            Table::RecipeIngredients => "recipe_ingredients",
        }
    }

    /// The foreign keys of the table, in the order in which the parents are
    /// looked up before a row is created.
    pub open spec fn foreign_keys(self) -> Seq<ForeignKey> {
        match self {
            Table::IngredientMacros => seq![ForeignKey::IngredientId],
            Table::MealIngredients => seq![ForeignKey::MealId, ForeignKey::IngredientId],
            Table::RecipeIngredients => seq![ForeignKey::RecipeId, ForeignKey::IngredientId],
            _ => seq![],
        }
    }

    /// The places that reference the table, in the order in which they are
    /// cleared before a row of the table is deleted.
    pub open spec fn dependents(self) -> Seq<Dependent> {
        match self {
            Table::Ingredients => seq![
                Dependent { table: Table::IngredientMacros, key: ForeignKey::IngredientId },
                Dependent { table: Table::MealIngredients, key: ForeignKey::IngredientId },
                Dependent { table: Table::RecipeIngredients, key: ForeignKey::IngredientId },
            ],
            Table::Meals => seq![
                Dependent { table: Table::MealIngredients, key: ForeignKey::MealId },
            ],
            Table::Recipes => seq![
                Dependent { table: Table::RecipeIngredients, key: ForeignKey::RecipeId },
            ],
            _ => seq![],
        }
    }

    /// Whether the table has the column: every table has `id`, and each of
    /// the three dependent tables has the foreign keys of its parents.
    pub open spec fn has_column(self, column: Column) -> bool {
        match column {
            Column::Id => true,
            Column::IngredientId => self == Table::IngredientMacros || self
                == Table::MealIngredients || self == Table::RecipeIngredients,
            Column::MealId => self == Table::MealIngredients,
            Column::RecipeId => self == Table::RecipeIngredients,
        }
    }

    /// Whether this table has the foreign key `key`.
    pub open spec fn has_key(self, key: ForeignKey) -> bool {
        self.has_column(key.column())
    }

    /// The foreign keys of the table, in lookup order.
    pub fn foreign_key_list(self) -> (keys: Vec<ForeignKey>)
        ensures
            keys@ == self.foreign_keys(),
    {
        let mut keys: Vec<ForeignKey> = Vec::new();
        match self {
            Table::IngredientMacros => {
                keys.push(ForeignKey::IngredientId);
            },
            Table::MealIngredients => {
                keys.push(ForeignKey::MealId);
                keys.push(ForeignKey::IngredientId);
            },
            Table::RecipeIngredients => {
                keys.push(ForeignKey::RecipeId);
                keys.push(ForeignKey::IngredientId);
            },
            _ => {},
        }
        assert(keys@ =~= self.foreign_keys());
        keys
    }

    /// The places that reference the table, in cascade order.
    pub fn dependent_list(self) -> (places: Vec<Dependent>)
        ensures
            places@ == self.dependents(),
    {
        let mut places: Vec<Dependent> = Vec::new();
        match self {
            Table::Ingredients => {
                places.push(
                    Dependent { table: Table::IngredientMacros, key: ForeignKey::IngredientId },
                );
                places.push(
                    Dependent { table: Table::MealIngredients, key: ForeignKey::IngredientId },
                );
                places.push(
                    Dependent { table: Table::RecipeIngredients, key: ForeignKey::IngredientId },
                );
            },
            Table::Meals => {
                places.push(Dependent { table: Table::MealIngredients, key: ForeignKey::MealId });
            },
            Table::Recipes => {
                places.push(
                    Dependent { table: Table::RecipeIngredients, key: ForeignKey::RecipeId },
                );
            },
            _ => {},
        }
        assert(places@ =~= self.dependents());
        places
    }
}

/// The foreign keys listed for a table are the foreign keys that it has.
pub proof fn lemma_foreign_keys_cover(table: Table, key: ForeignKey)
    ensures
        table.foreign_keys().contains(key) <==> table.has_key(key),
{
    let keys = table.foreign_keys();
    if table.has_key(key) {
        if keys[0] == key {
        } else {
            assert(keys[1] == key);
        }
    }
}

/// The dependents listed for a table are the places whose foreign key
/// refers to it: a delete clears every table that can point to the row.
pub proof fn lemma_dependents_cover(parent: Table, table: Table, key: ForeignKey)
    ensures
        parent.dependents().contains(Dependent { table, key }) <==> table.has_key(key)
            && key.parent() == parent,
{
    let place = Dependent { table, key };
    let places = parent.dependents();
    if table.has_key(key) && key.parent() == parent {
        if places[0] == place {
        } else if places.len() >= 2 && places[1] == place {
        } else {
            assert(places[2] == place);
        }
    }
}

} // verus!
