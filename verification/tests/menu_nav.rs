use jobdash::menu::{main_menu, Action, Menu, MenuItem};
use jobdash::model::Model;
use jobdash::prompt::SubmitRule;

#[test]
fn first_lands_on_the_first_child_of_jobs() {
    let m = main_menu();
    assert_eq!(m.first(), 1);
}

#[test]
fn down_steps_through_siblings_without_wrapping() {
    let m = main_menu();
    assert_eq!(m.down(1), 3);
    assert_eq!(m.down(3), 6);
    assert_eq!(m.down(6), 6);
}

#[test]
fn up_steps_back_and_sticks_at_the_first_sibling() {
    let m = main_menu();
    assert_eq!(m.up(1), 1);
    assert_eq!(m.up(3), 1);
    assert_eq!(m.up(6), 3);
}

#[test]
fn enter_descends_into_a_section_with_children() {
    let m = main_menu();
    let mut model = Model::new();
    let (t, spawn) = m.enter(1, &mut model);
    assert_eq!(t, 2);
    assert!(spawn.is_none());
}

#[test]
fn enter_on_a_childless_section_stays_put() {
    let mut m = Menu(Vec::new());
    let root = m.with_section("Top", None);
    let empty = m.with_section("Empty", Some(root));
    let mut model = Model::new();
    let (t, spawn) = m.enter(empty, &mut model);
    assert_eq!(t, empty);
    assert!(spawn.is_none());
}

#[test]
fn enter_on_a_noop_leaf_keeps_index_and_state() {
    let m = main_menu();
    let mut model = Model::new();
    let (t, spawn) = m.enter(2, &mut model);
    assert_eq!(t, 2);
    assert!(spawn.is_none());
    assert!(model.prompt.is_none());
    assert!(model.job1.buffer.is_none());
}

#[test]
fn enter_set_env_opens_the_secret_prompt_once() {
    let m = main_menu();
    let mut model = Model::new();
    let (t, spawn) = m.enter(7, &mut model);
    assert_eq!(t, 7);
    assert!(spawn.is_none());
    let p = model.prompt.expect("prompt should be open");
    assert_eq!(p.title, "Enter your Yubikey pin");
    assert!(p.secret);
    assert_eq!(p.cursor, 0usize);
    assert!(p.text.is_empty());
    assert_eq!(p.error, "");
}

#[test]
fn back_returns_to_the_entered_section() {
    let m = main_menu();
    let mut model = Model::new();
    let (t, _spawn) = m.enter(1, &mut model);
    assert_eq!(m.back(t), Some(1));
}

#[test]
fn back_from_the_top_visible_level_yields_nothing() {
    let m = main_menu();
    assert_eq!(m.back(1), None);
    assert_eq!(m.back(2), Some(1));
}

#[test]
fn builder_links_parent_and_children_in_one_step() {
    let mut m = Menu(Vec::new());
    let root = m.with_section("Top", None);
    let kid = m.with_item("Leaf", Action::Noop, Some(root));
    assert_eq!(root, 0usize);
    assert_eq!(kid, 1usize);
    assert_eq!(m.0[0].items(), vec![1usize]);
    assert_eq!(m.0[1].parent(), Some(0usize));
    assert_eq!(m.0[1].title(), "Leaf");
    assert_eq!(m.0[1].items(), Vec::<usize>::new());
}

#[test]
fn menu_items_compare_by_shape_not_by_action() {
    let a = MenuItem::Item { title: "x".to_string(), action: Action::Noop, parent: Some(0) };
    let b = MenuItem::Item {
        title: "x".to_string(),
        action: Action::OpenPrompt {
            title: "p".to_string(),
            secret: false,
            rule: SubmitRule::AcceptAny,
        },
        parent: Some(0),
    };
    let c = MenuItem::Item { title: "y".to_string(), action: Action::Noop, parent: Some(0) };
    assert!(a == b);
    assert!(a != c);
}

#[test]
fn visible_section_lists_children_and_highlight() {
    let m = main_menu();
    let v = m.visible(3);
    assert_eq!(v.title, "Jobs");
    assert_eq!(
        v.entries,
        vec![
            "Run (Server)".to_string(),
            "Build Frontend".to_string(),
            "Configure iTask".to_string()
        ]
    );
    assert_eq!(v.sections, vec![true, true, true]);
    assert_eq!(v.selected, 1usize);
}

#[test]
fn visible_leaf_row_is_marked_as_item() {
    let m = main_menu();
    let v = m.visible(7);
    assert_eq!(v.title, "Configure iTask");
    assert_eq!(v.entries, vec!["Set ENV".to_string()]);
    assert_eq!(v.sections, vec![false]);
    assert_eq!(v.selected, 0usize);
}
