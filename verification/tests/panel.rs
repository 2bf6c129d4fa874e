use pose_engine::admin::{
    draw_admin_commands_window, draw_give_items, draw_kits, draw_spawn_entities, u32_decimal,
    AdminClicks, AdminCommandState, ChatCommand, ChatCommandKind,
};

fn test_state() -> AdminCommandState {
    AdminCommandState {
        give_item_qty: 42,
        give_item_selected_idx: 1,
        give_item_search_text: String::from("app"),
        kits_selected_idx: 0,
        spawn_entity_qty: 7,
        spawn_entity_selected_idx: 2,
        spawn_entity_search_text: String::new(),
    }
}

fn catalogs() -> (Vec<String>, Vec<String>, Vec<String>) {
    (
        vec![
            String::from("armor.cloth.robe"),
            String::from("food.apple"),
            String::from("weapons.sword.iron"),
        ],
        vec![String::from("admin_kit"), String::from("starter_kit")],
        vec![
            String::from("wild.peaceful.deer"),
            String::from("wild.aggressive.wolf"),
            String::from("dungeon.myrmidon.minotaur"),
        ],
    )
}

#[test]
fn decimal_rendering_is_exact() {
    assert_eq!(u32_decimal(0), String::from("0"));
    assert_eq!(u32_decimal(7), String::from("7"));
    assert_eq!(u32_decimal(42), String::from("42"));
    assert_eq!(u32_decimal(100_000), String::from("100000"));
    assert_eq!(u32_decimal(4_294_967_295), String::from("4294967295"));
}

#[test]
fn give_items_click_issues_prefixed_command() {
    let (items, _, _) = catalogs();
    let state = test_state();
    let mut actions: Vec<ChatCommand> = Vec::new();
    draw_give_items(&state, &items, true, &mut actions);
    assert_eq!(actions.len(), 1);
    assert_eq!(actions[0].cmd, ChatCommandKind::GiveItem);
    assert_eq!(
        actions[0].args,
        vec![String::from("common.items.food.apple"), String::from("42")]
    );
}

#[test]
fn no_click_issues_nothing() {
    let (items, kits, entities) = catalogs();
    let state = test_state();
    let mut actions: Vec<ChatCommand> = Vec::new();
    draw_give_items(&state, &items, false, &mut actions);
    draw_kits(&state, &kits, false, &mut actions);
    draw_spawn_entities(&state, &entities, false, &mut actions);
    assert_eq!(actions.len(), 0);
}

#[test]
fn kit_click_issues_plain_name() {
    let (_, kits, _) = catalogs();
    let state = test_state();
    let mut actions: Vec<ChatCommand> = Vec::new();
    draw_kits(&state, &kits, true, &mut actions);
    assert_eq!(actions.len(), 1);
    assert_eq!(actions[0].cmd, ChatCommandKind::Kit);
    assert_eq!(actions[0].args, vec![String::from("admin_kit")]);
}

#[test]
fn window_runs_sections_in_order() {
    let (items, kits, entities) = catalogs();
    let state = test_state();
    let clicks = AdminClicks { give_item: true, kit: true, spawn_entity: true };
    let actions = draw_admin_commands_window(&state, &items, &kits, &entities, clicks);
    assert_eq!(actions.len(), 3);
    assert_eq!(actions[0].cmd, ChatCommandKind::GiveItem);
    assert_eq!(actions[1].cmd, ChatCommandKind::Kit);
    assert_eq!(actions[2].cmd, ChatCommandKind::MakeNpc);
    assert_eq!(
        actions[2].args,
        vec![
            String::from("common.entity.dungeon.myrmidon.minotaur"),
            String::from("7")
        ]
    );
}

#[test]
fn window_with_single_click() {
    let (items, kits, entities) = catalogs();
    let state = test_state();
    let clicks = AdminClicks { give_item: false, kit: false, spawn_entity: true };
    let actions = draw_admin_commands_window(&state, &items, &kits, &entities, clicks);
    assert_eq!(actions.len(), 1);
    assert_eq!(actions[0].cmd, ChatCommandKind::MakeNpc);
}
