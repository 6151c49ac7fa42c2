use jobdash::job::{CommandSpec, SlotId};
use jobdash::key::Key;
use jobdash::menu::{main_menu, Action, Menu};
use jobdash::model::Model;

#[test]
fn j_toggles_the_menu_open_and_closed() {
    let menu = main_menu();
    let mut m = Model::new();
    m.handle_key(&menu, Key::Char('j'));
    assert_eq!(m.menu, Some(1));
    m.handle_key(&menu, Key::Char('j'));
    assert_eq!(m.menu, None);
}

#[test]
fn q_sets_the_quit_flag() {
    let menu = main_menu();
    let mut m = Model::new();
    m.handle_key(&menu, Key::Char('q'));
    assert!(m.quit);
    assert_eq!(m.menu, None);
}

#[test]
fn navigation_keys_are_ignored_while_the_menu_is_closed() {
    let menu = main_menu();
    let mut m = Model::new();
    m.handle_key(&menu, Key::Down);
    m.handle_key(&menu, Key::Up);
    m.handle_key(&menu, Key::Esc);
    m.handle_key(&menu, Key::Enter);
    assert_eq!(m.menu, None);
    assert!(!m.quit);
    assert!(m.prompt.is_none());
}

#[test]
fn arrows_move_enter_descends_and_escape_steps_out() {
    let menu = main_menu();
    let mut m = Model::new();
    m.handle_key(&menu, Key::Char('j'));
    m.handle_key(&menu, Key::Down);
    assert_eq!(m.menu, Some(3));
    m.handle_key(&menu, Key::Enter);
    assert_eq!(m.menu, Some(4));
    m.handle_key(&menu, Key::Down);
    assert_eq!(m.menu, Some(5));
    m.handle_key(&menu, Key::Up);
    assert_eq!(m.menu, Some(4));
    m.handle_key(&menu, Key::Esc);
    assert_eq!(m.menu, Some(3));
    m.handle_key(&menu, Key::Esc);
    assert_eq!(m.menu, None);
}

#[test]
fn prompt_takes_every_key_and_escape_is_consumed() {
    let menu = main_menu();
    let mut m = Model::new();
    m.handle_key(&menu, Key::Char('j'));
    m.handle_key(&menu, Key::Down);
    m.handle_key(&menu, Key::Down);
    assert_eq!(m.menu, Some(6));
    m.handle_key(&menu, Key::Enter);
    assert_eq!(m.menu, Some(7));
    m.handle_key(&menu, Key::Enter);
    assert!(m.prompt.is_some());
    m.handle_key(&menu, Key::Char('q'));
    assert!(!m.quit, "q goes to the prompt, not to quitting");
    assert_eq!(m.prompt.as_ref().unwrap().text, vec!['q']);
    assert_eq!(m.menu, Some(7), "menu untouched while the prompt is active");
    m.handle_key(&menu, Key::Esc);
    assert!(m.prompt.is_none());
    assert_eq!(m.menu, Some(7), "escape that closed the prompt is not re-routed");
}

#[test]
fn submitting_the_pin_prompt_shows_its_rejection() {
    let menu = main_menu();
    let mut m = Model::new();
    let (_t, _spawn) = menu.enter(7, &mut m);
    m.handle_key(&menu, Key::Char('1'));
    m.handle_key(&menu, Key::Enter);
    let p = m.prompt.as_ref().unwrap();
    assert_eq!(p.error, "Invalid pin");
    assert_eq!(p.text, vec!['1']);
}

#[test]
fn a_menu_leaf_starts_a_job_and_surfaces_the_spawn_request() {
    let mut menu = Menu(Vec::new());
    let root = menu.with_section("Top", None);
    let sec = menu.with_section("Jobs", Some(root));
    let command = CommandSpec {
        program: "server".chars().collect(),
        args: vec!["--port".chars().collect(), "80".chars().collect()],
    };
    let leaf = menu.with_item(
        "Serve",
        Action::StartJob { slot: SlotId::First, command },
        Some(sec),
    );
    let mut m = Model::new();
    m.menu = Some(leaf);
    let spawn = m.handle_key(&menu, Key::Enter);
    let rq = spawn.expect("the started job owes a spawn");
    assert_eq!(rq.slot, SlotId::First);
    let prog: String = rq.program.iter().collect();
    assert_eq!(prog, "server");
    assert_eq!(rq.args.len(), 2);
    let title: String = m.job1.title.iter().collect();
    assert_eq!(title, "server ...");
    assert!(m.job1.buffer.is_some());
    let again = m.handle_key(&menu, Key::Enter);
    assert!(again.is_none(), "an occupied slot refuses the start");
    assert!(m.job1.buffer.as_ref().unwrap().snapshot().is_empty());
}
