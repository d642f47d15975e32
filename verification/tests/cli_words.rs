use nutriplan_db_sqlite::cli::{
    decode_cmd, decode_subcmd, touches_store, CmdPattern, SubCmdPattern,
};

#[test]
fn decode_cmd_knows_every_table() {
    assert_eq!(decode_cmd("ingredient"), CmdPattern::Ingredient);
    assert_eq!(decode_cmd("ingredient_macro"), CmdPattern::IngredientMacro);
    assert_eq!(decode_cmd("meal"), CmdPattern::Meal);
    assert_eq!(decode_cmd("meal_ingredient"), CmdPattern::MealIngredient);
    assert_eq!(decode_cmd("recipe"), CmdPattern::Recipe);
    assert_eq!(decode_cmd("recipe_ingredient"), CmdPattern::RecipeIngredient);
    assert_eq!(decode_cmd("help"), CmdPattern::Help);
}

#[test]
fn decode_cmd_rejects_other_words() {
    assert_eq!(decode_cmd(""), CmdPattern::Unknown);
    assert_eq!(decode_cmd("Ingredient"), CmdPattern::Unknown);
    assert_eq!(decode_cmd("ingredients"), CmdPattern::Unknown);
    assert_eq!(decode_cmd("meal "), CmdPattern::Unknown);
    assert_eq!(decode_cmd("create"), CmdPattern::Unknown);
}

#[test]
fn decode_subcmd_knows_every_operation() {
    assert_eq!(decode_subcmd("create"), SubCmdPattern::Create);
    assert_eq!(decode_subcmd("read"), SubCmdPattern::Read);
    assert_eq!(decode_subcmd("update"), SubCmdPattern::Update);
    assert_eq!(decode_subcmd("delete"), SubCmdPattern::Delete);
    assert_eq!(decode_subcmd("help"), SubCmdPattern::Help);
}

#[test]
fn decode_subcmd_rejects_other_words() {
    assert_eq!(decode_subcmd(""), SubCmdPattern::Unknown);
    assert_eq!(decode_subcmd("CREATE"), SubCmdPattern::Unknown);
    assert_eq!(decode_subcmd("remove"), SubCmdPattern::Unknown);
    assert_eq!(decode_subcmd("meal"), SubCmdPattern::Unknown);
}

#[test]
fn only_a_known_command_with_a_known_operation_touches_the_store() {
    let cmds = [
        CmdPattern::Ingredient,
        CmdPattern::IngredientMacro,
        CmdPattern::Meal,
        CmdPattern::MealIngredient,
        CmdPattern::Recipe,
        CmdPattern::RecipeIngredient,
    ];
    let subcmds =
        [SubCmdPattern::Create, SubCmdPattern::Read, SubCmdPattern::Update, SubCmdPattern::Delete];
    for cmd in cmds {
        for subcmd in subcmds {
            assert!(touches_store(cmd, subcmd));
        }
        assert!(!touches_store(cmd, SubCmdPattern::Unknown));
        assert!(!touches_store(cmd, SubCmdPattern::Help));
    }
    for subcmd in subcmds {
        assert!(!touches_store(CmdPattern::Unknown, subcmd));
        assert!(!touches_store(CmdPattern::Help, subcmd));
    }
    assert!(!touches_store(decode_cmd("meals"), decode_subcmd("create")));
    assert!(!touches_store(decode_cmd("meal"), decode_subcmd("creates")));
    assert!(touches_store(decode_cmd("meal"), decode_subcmd("create")));
}
