//! The words of the command line: which kind of record a command is about,
//! and what it asks for.

use vstd::prelude::*;

verus! {

/// What a command is about.
#[derive(Clone, Copy, Debug, PartialEq, Eq, Structural)]
pub enum CmdPattern {
    Unknown,
    Ingredient,
    IngredientMacro,
    Meal,
    MealIngredient,
    Recipe,
    RecipeIngredient,
    Help,
}

/// What a command asks for.
#[derive(Clone, Copy, Debug, PartialEq, Eq, Structural)]
pub enum SubCmdPattern {
    Unknown,
    Create,
    Read,
    Update,
    Delete,
    Help,
}

/// The meaning of the first word of a command. Every word but the seven
/// that are listed is unknown; upper and lower case differ.
pub open spec fn cmd_of(word: Seq<char>) -> CmdPattern {
    if word == "ingredient"@ {
        CmdPattern::Ingredient
    } else if word == "ingredient_macro"@ {
        CmdPattern::IngredientMacro
    } else if word == "meal"@ {
        CmdPattern::Meal
    } else if word == "meal_ingredient"@ {
        CmdPattern::MealIngredient
    } else if word == "recipe"@ {
        CmdPattern::Recipe
    } else if word == "recipe_ingredient"@ {
        CmdPattern::RecipeIngredient
    } else if word == "help"@ {
        CmdPattern::Help
    } else {
        CmdPattern::Unknown
    }
}

/// The meaning of the second word of a command. Every word but the five
/// that are listed is unknown; upper and lower case differ.
pub open spec fn subcmd_of(word: Seq<char>) -> SubCmdPattern {
    if word == "create"@ {
        SubCmdPattern::Create
    } else if word == "read"@ {
        SubCmdPattern::Read
    } else if word == "update"@ {
        SubCmdPattern::Update
    } else if word == "delete"@ {
        SubCmdPattern::Delete
    } else if word == "help"@ {
        SubCmdPattern::Help
    } else {
        SubCmdPattern::Unknown
    }
}

/// Whether a command is put to the store: it names one of the six kinds of
/// record and one of the four operations. Every other command only prints
/// how the program is used.
pub open spec fn reaches_store(cmd: CmdPattern, subcmd: SubCmdPattern) -> bool {
    cmd != CmdPattern::Unknown && cmd != CmdPattern::Help && subcmd != SubCmdPattern::Unknown
        && subcmd != SubCmdPattern::Help
}

/// Whether a command is put to the store, or only answered with the usage.
pub fn touches_store(cmd: CmdPattern, subcmd: SubCmdPattern) -> (touches: bool)
    ensures
        touches == reaches_store(cmd, subcmd),
{
    let known_cmd = match cmd {
        CmdPattern::Unknown => false,
        CmdPattern::Help => false,
        _ => true,
    };
    let known_subcmd = match subcmd {
        SubCmdPattern::Unknown => false,
        SubCmdPattern::Help => false,
        _ => true,
    };
    known_cmd && known_subcmd
}

fn same_text(left: &str, right: &str) -> (same: bool)
    ensures
        same == (left@ == right@),
{
    let a = left.to_owned();
    let b = right.to_owned();
    a == b
}

/// Reads the first word of a command.
pub fn decode_cmd(cmd_str: &str) -> (cmd: CmdPattern)
    ensures
        cmd == cmd_of(cmd_str@),
{
    if same_text(cmd_str, "ingredient") {
        CmdPattern::Ingredient
    } else if same_text(cmd_str, "ingredient_macro") {
        CmdPattern::IngredientMacro
    } else if same_text(cmd_str, "meal") {
        CmdPattern::Meal
    } else if same_text(cmd_str, "meal_ingredient") {
        CmdPattern::MealIngredient
    } else if same_text(cmd_str, "recipe") {
        CmdPattern::Recipe
    } else if same_text(cmd_str, "recipe_ingredient") {
        CmdPattern::RecipeIngredient
    } else if same_text(cmd_str, "help") {
        CmdPattern::Help
    } else {
        CmdPattern::Unknown
    }
}

/// Reads the second word of a command.
pub fn decode_subcmd(subcmd_str: &str) -> (subcmd: SubCmdPattern)
    ensures
        subcmd == subcmd_of(subcmd_str@),
{
    if same_text(subcmd_str, "create") {
        SubCmdPattern::Create
    } else if same_text(subcmd_str, "read") {
        SubCmdPattern::Read
    } else if same_text(subcmd_str, "update") {
        SubCmdPattern::Update
    } else if same_text(subcmd_str, "delete") {
        SubCmdPattern::Delete
    } else if same_text(subcmd_str, "help") {
        SubCmdPattern::Help
    } else {
        SubCmdPattern::Unknown
    }
}

} // verus!
