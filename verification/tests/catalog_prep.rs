use pose_engine::catalog::{prepare_catalog, str_le_exec, strip_prefix_once};

#[test]
fn prefix_is_stripped_and_sorted() {
    let raw = vec![
        String::from("common.items.weapons.sword.iron"),
        String::from("common.items.food.apple"),
        String::from("common.items.armor.cloth.robe"),
    ];
    let out = prepare_catalog(&raw, "common.items.");
    assert_eq!(
        out,
        vec![
            String::from("armor.cloth.robe"),
            String::from("food.apple"),
            String::from("weapons.sword.iron"),
        ]
    );
}

#[test]
fn entries_without_the_prefix_stay_whole() {
    let raw = vec![
        String::from("veloren.core.pseudo"),
        String::from("common.entity.wild.wolf"),
    ];
    let out = prepare_catalog(&raw, "common.entity.");
    assert_eq!(
        out,
        vec![String::from("veloren.core.pseudo"), String::from("wild.wolf")]
    );
}

#[test]
fn duplicates_and_empty_results_survive() {
    let raw = vec![
        String::from("kit.admin"),
        String::from("kit."),
        String::from("kit.admin"),
    ];
    let out = prepare_catalog(&raw, "kit.");
    assert_eq!(
        out,
        vec![String::new(), String::from("admin"), String::from("admin")]
    );
    let none: Vec<String> = Vec::new();
    assert_eq!(prepare_catalog(&none, "kit."), none);
}

#[test]
fn strip_removes_one_leading_prefix_only() {
    let s = String::from("common.items.common.items.odd");
    let stripped = strip_prefix_once(&s, "common.items.");
    assert_eq!(stripped, String::from("common.items.odd"));
    let plain = String::from("short");
    assert_eq!(strip_prefix_once(&plain, "much.longer.prefix."), plain);
}

#[test]
fn byte_order_matches_host_string_order() {
    let pairs = [
        ("apple", "banana"),
        ("app", "apple"),
        ("", "a"),
        ("same", "same"),
        ("zeta", "alpha"),
    ];
    for (a, b) in pairs {
        let sa = String::from(a);
        let sb = String::from(b);
        assert_eq!(str_le_exec(&sa, &sb), a <= b);
    }
}
