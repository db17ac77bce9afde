use resume_builder::data::manager::{DataManager, Education, Project, Resume};
use resume_builder::tui::app::{Action, AppState, Focus, MenuItem};
use resume_builder::tui::components::content_pane::{EditTarget, EntryType};
use resume_builder::tui::ui::{handle_key, to_digit, Key};

fn resume(education: Vec<Education>, projects: Vec<Project>) -> Resume {
    Resume {
        name: "Ada".to_string(),
        contact: "ada@example.org".to_string(),
        website: None,
        education,
        projects,
        experience: vec![],
    }
}

fn school(name: &str) -> Education {
    Education {
        name: name.to_string(),
        degree: "BSc".to_string(),
        years: "2010".to_string(),
        points: vec!["p".to_string()],
    }
}

fn empty_app() -> AppState {
    AppState::new(DataManager::new("data/resume.json", resume(vec![], vec![])))
}

fn app_with_two_schools() -> AppState {
    AppState::new(DataManager::new(
        "data/resume.json",
        resume(vec![school("MIT"), school("ETH")], vec![]),
    ))
}

fn press(app: &mut AppState, keys: &[Key]) -> Vec<Action> {
    keys.iter().map(|k| handle_key(app, *k)).collect()
}

fn type_text(app: &mut AppState, text: &str) {
    for c in text.chars() {
        assert!(matches!(handle_key(app, Key::Char(c)), Action::Nothing));
    }
}

fn is_nothing(action: &Action) -> bool {
    matches!(action, Action::Nothing)
}

#[test]
fn a_new_session_starts_in_the_sidebar_on_the_first_section() {
    let app = empty_app();
    assert_eq!(app.current_menu, MenuItem::PersonalInfo);
    assert_eq!(app.focus, Focus::Sidebar);
    assert!(!app.should_exit);
    assert!(!app.content_pane.is_editing());
    assert_eq!(app.content_pane.selected_entry(), None);
    assert_eq!(app.sidebar.items(), &MenuItem::all());
    assert_eq!(app.data_manager.file_path, "data/resume.json");
}

#[test]
fn up_and_down_move_through_the_sections_cyclically() {
    let mut app = empty_app();
    app.previous_menu();
    assert_eq!(app.current_menu, MenuItem::Exit);
    app.next_menu();
    assert_eq!(app.current_menu, MenuItem::PersonalInfo);
    for _ in 0..7 {
        app.next_menu();
    }
    assert_eq!(app.current_menu, MenuItem::PersonalInfo);
    for _ in 0..10 {
        app.next_menu();
    }
    assert_eq!(app.current_menu, MenuItem::Projects);
}

#[test]
fn activate_on_exit_ends_the_session() {
    let mut app = empty_app();
    app.previous_menu();
    let action = app.select_current_menu();
    assert!(is_nothing(&action));
    assert!(app.should_exit);
    assert_eq!(app.focus, Focus::Sidebar);
}

#[test]
fn activate_on_export_in_the_sidebar_asks_for_an_export_and_keeps_the_focus() {
    let mut app = empty_app();
    app.handle_number_input(6);
    let action = app.select_current_menu();
    assert!(matches!(action, Action::Export));
    assert_eq!(app.focus, Focus::Sidebar);
    assert_eq!(app.content_pane.export_status(), &Some("Exporting...".to_string()));
    app.finish_export(Ok("Generated output/resume.tex".to_string()));
    assert_eq!(
        app.content_pane.export_status(),
        &Some("Generated output/resume.tex".to_string())
    );
}

#[test]
fn activate_on_export_in_the_content_pane_asks_for_an_export() {
    let mut app = empty_app();
    app.handle_number_input(6);
    app.switch_focus();
    assert_eq!(app.focus, Focus::Content);
    let action = app.select_current_menu();
    assert!(matches!(action, Action::Export));
    assert_eq!(app.content_pane.export_status(), &None);
    app.finish_export(Err("template not found".to_string()));
    assert_eq!(
        app.content_pane.export_status(),
        &Some("Export failed: template not found".to_string())
    );
}

#[test]
fn activate_in_the_sidebar_enters_the_section_and_selects_the_first_entry() {
    let mut app = app_with_two_schools();
    app.next_menu();
    let action = app.select_current_menu();
    assert!(is_nothing(&action));
    assert_eq!(app.focus, Focus::Content);
    assert_eq!(app.content_pane.selected_entry(), Some(0));

    let mut app = empty_app();
    app.next_menu();
    app.select_current_menu();
    assert_eq!(app.focus, Focus::Content);
    assert_eq!(app.content_pane.selected_entry(), None);
}

#[test]
fn the_selection_passes_through_every_entry_and_the_add_slot_then_wraps() {
    let mut app = app_with_two_schools();
    app.next_menu();
    app.select_current_menu();
    let mut seen = vec![app.content_pane.selected_entry()];
    for _ in 0..3 {
        app.next_menu();
        seen.push(app.content_pane.selected_entry());
    }
    assert_eq!(seen, vec![Some(0), Some(1), Some(2), Some(0)]);
    app.previous_menu();
    assert_eq!(app.content_pane.selected_entry(), Some(2));
    assert_eq!(app.current_menu, MenuItem::Education);
}

#[test]
fn activate_on_a_selected_entry_opens_it() {
    let mut app = app_with_two_schools();
    app.next_menu();
    app.select_current_menu();
    app.next_menu();
    let action = app.select_current_menu();
    assert!(is_nothing(&action));
    assert!(app.content_pane.is_editing());
    assert_eq!(app.content_pane.edit_target(), EditTarget::ExistingEntry(MenuItem::Education, 1));
    assert_eq!(app.content_pane.entry_type(), Some(EntryType::Education(1)));
    assert_eq!(app.content_pane.fields()[0], "ETH");
    assert_eq!(app.content_pane.cursor_position(), 3);
    assert_eq!(app.content_pane.parent_menu(), None);
}

#[test]
fn activate_on_the_add_slot_opens_a_new_entry() {
    let mut app = app_with_two_schools();
    app.next_menu();
    app.select_current_menu();
    app.next_menu();
    app.next_menu();
    assert_eq!(app.content_pane.selected_entry(), Some(2));
    app.select_current_menu();
    assert!(app.content_pane.is_editing());
    assert_eq!(app.content_pane.edit_target(), EditTarget::NewEntry(MenuItem::Education));
    assert_eq!(app.content_pane.parent_menu(), Some(MenuItem::Education));
    assert!(app.content_pane.fields().iter().all(|f| f.is_empty()));
}

#[test]
fn a_new_education_entry_is_written_and_committed() {
    let mut app = empty_app();
    let actions = press(&mut app, &[Key::Down, Key::Enter, Key::Enter]);
    assert!(actions.iter().all(is_nothing));
    assert_eq!(app.content_pane.edit_target(), EditTarget::NewEntry(MenuItem::Education));
    assert_eq!(app.content_pane.fields().len(), 4);
    assert!(app.content_pane.fields().iter().all(|f| f.is_empty()));

    app.next_menu();
    app.next_menu();
    app.next_menu();
    assert_eq!(app.content_pane.current_field(), 3);
    type_text(&mut app, "x; y");
    let action = app.select_current_menu();
    assert!(matches!(action, Action::Persist));

    assert_eq!(app.data_manager.resume.education.len(), 1);
    let entry = &app.data_manager.resume.education[0];
    assert_eq!(entry.points, vec!["x".to_string(), "y".to_string()]);
    assert_eq!(entry.name, "");
    assert_eq!(entry.degree, "");
    assert_eq!(entry.years, "");
    assert_eq!(app.focus, Focus::Content);
    assert!(!app.content_pane.is_editing());
    assert_eq!(app.content_pane.selected_entry(), None);
    assert_eq!(app.content_pane.edit_target(), EditTarget::Closed);
    assert_eq!(app.current_menu, MenuItem::Education);
}

#[test]
fn typing_into_the_first_field_reaches_the_stored_entry() {
    let mut app = empty_app();
    press(&mut app, &[Key::Down, Key::Enter, Key::Enter]);
    type_text(&mut app, "MIT");
    let actions = press(&mut app, &[Key::Enter, Key::Enter, Key::Enter]);
    assert!(actions.iter().all(is_nothing));
    type_text(&mut app, "x; y");
    let action = handle_key(&mut app, Key::Enter);
    assert!(matches!(action, Action::Persist));
    let entry = &app.data_manager.resume.education[0];
    assert_eq!(entry.name, "MIT");
    assert_eq!(entry.points, vec!["x".to_string(), "y".to_string()]);
}

#[test]
fn a_project_without_a_link_is_stored_without_one() {
    let mut app = empty_app();
    app.handle_number_input(4);
    press(&mut app, &[Key::Enter, Key::Enter]);
    assert_eq!(app.content_pane.edit_target(), EditTarget::NewEntry(MenuItem::Projects));
    type_text(&mut app, "Loom");
    press(&mut app, &[Key::Enter, Key::Enter]);
    type_text(&mut app, "weaves");
    let action = handle_key(&mut app, Key::Enter);
    assert!(matches!(action, Action::Persist));
    let project = &app.data_manager.resume.projects[0];
    assert_eq!(project.name, "Loom");
    assert_eq!(project.link, None);
    assert_eq!(project.points, vec!["weaves".to_string()]);
}

#[test]
fn committing_an_existing_entry_updates_it_in_place() {
    let mut app = app_with_two_schools();
    press(&mut app, &[Key::Down, Key::Enter, Key::Enter]);
    assert_eq!(app.content_pane.edit_target(), EditTarget::ExistingEntry(MenuItem::Education, 0));
    press(&mut app, &[Key::Backspace, Key::Backspace, Key::Backspace]);
    type_text(&mut app, "Caltech");
    let actions = press(&mut app, &[Key::Enter, Key::Enter, Key::Enter, Key::Enter]);
    assert!(matches!(actions[3], Action::Persist));
    let names: Vec<&str> =
        app.data_manager.resume.education.iter().map(|e| e.name.as_str()).collect();
    assert_eq!(names, vec!["Caltech", "ETH"]);
    assert_eq!(app.data_manager.resume.education[0].points, vec!["p".to_string()]);
}

#[test]
fn a_commit_into_a_vanished_entry_is_reported() {
    let mut app = app_with_two_schools();
    press(&mut app, &[Key::Down, Key::Enter, Key::Down, Key::Enter]);
    assert_eq!(app.content_pane.edit_target(), EditTarget::ExistingEntry(MenuItem::Education, 1));
    app.data_manager.delete_education(0).unwrap();
    let actions = press(&mut app, &[Key::Enter, Key::Enter, Key::Enter, Key::Enter]);
    match &actions[3] {
        Action::Report(message) => {
            assert_eq!(message, "Error saving data: Education index out of bounds")
        }
        other => panic!("unexpected action {:?}", other),
    }
    assert!(!app.content_pane.is_editing());
    assert_eq!(app.data_manager.resume.education.len(), 1);
    assert_eq!(app.data_manager.resume.education[0].name, "ETH");
}

#[test]
fn cancel_in_the_sidebar_does_nothing() {
    let mut app = empty_app();
    let action = app.cancel();
    assert!(is_nothing(&action));
    assert_eq!(app.focus, Focus::Sidebar);
    assert_eq!(app.current_menu, MenuItem::PersonalInfo);
}

#[test]
fn cancel_while_browsing_returns_to_the_sidebar() {
    let mut app = app_with_two_schools();
    press(&mut app, &[Key::Down, Key::Enter]);
    let action = handle_key(&mut app, Key::Esc);
    assert!(is_nothing(&action));
    assert_eq!(app.focus, Focus::Sidebar);
    assert_eq!(app.current_menu, MenuItem::Education);
}

#[test]
fn cancel_while_editing_a_new_entry_returns_to_the_parent_section() {
    let mut app = empty_app();
    press(&mut app, &[Key::Down, Key::Enter, Key::Enter]);
    type_text(&mut app, "draft");
    let action = handle_key(&mut app, Key::Esc);
    assert!(is_nothing(&action));
    assert!(!app.content_pane.is_editing());
    assert_eq!(app.content_pane.selected_entry(), None);
    assert_eq!(app.current_menu, MenuItem::Education);
    assert_eq!(app.focus, Focus::Content);
    assert!(app.data_manager.resume.education.is_empty());
}

#[test]
fn cancel_without_a_parent_section_activates_again() {
    let mut app = app_with_two_schools();
    press(&mut app, &[Key::Down, Key::Enter, Key::Enter]);
    assert_eq!(app.content_pane.parent_menu(), None);
    assert_eq!(app.content_pane.edit_target(), EditTarget::ExistingEntry(MenuItem::Education, 0));
    let action = handle_key(&mut app, Key::Esc);
    assert!(is_nothing(&action));
    assert!(app.content_pane.is_editing());
    assert_eq!(app.content_pane.edit_target(), EditTarget::NewEntry(MenuItem::Education));
    assert_eq!(app.content_pane.parent_menu(), Some(MenuItem::Education));
    assert_eq!(app.data_manager.resume.education.len(), 2);
    handle_key(&mut app, Key::Esc);
    assert!(!app.content_pane.is_editing());
    assert_eq!(app.current_menu, MenuItem::Education);
}

#[test]
fn tab_toggles_the_focus_and_enters_the_section() {
    let mut app = app_with_two_schools();
    app.next_menu();
    let action = handle_key(&mut app, Key::Tab);
    assert!(is_nothing(&action));
    assert_eq!(app.focus, Focus::Content);
    assert_eq!(app.content_pane.selected_entry(), Some(0));
    handle_key(&mut app, Key::Tab);
    assert_eq!(app.focus, Focus::Sidebar);

    let mut app = empty_app();
    app.next_menu();
    handle_key(&mut app, Key::Tab);
    assert_eq!(app.focus, Focus::Content);
    assert_eq!(app.content_pane.selected_entry(), None);
}

#[test]
fn switching_into_the_content_pane_selects_the_first_entry() {
    let mut app = app_with_two_schools();
    app.next_menu();
    assert_eq!(app.content_pane.selected_entry(), None);
    app.switch_focus();
    assert_eq!(app.focus, Focus::Content);
    assert_eq!(app.content_pane.selected_entry(), Some(0));
    assert_eq!(app.current_menu, MenuItem::Education);
    assert!(!app.content_pane.is_editing());
}

#[test]
fn switching_into_the_content_pane_of_one_entry_selects_it() {
    let mut app = AppState::new(DataManager::new(
        "data/resume.json",
        resume(vec![school("MIT")], vec![]),
    ));
    app.next_menu();
    app.switch_focus();
    assert_eq!(app.focus, Focus::Content);
    assert_eq!(app.content_pane.selected_entry(), Some(0));
}

#[test]
fn switching_into_an_empty_or_listless_section_selects_nothing() {
    let mut app = empty_app();
    app.next_menu();
    app.switch_focus();
    assert_eq!(app.focus, Focus::Content);
    assert_eq!(app.content_pane.selected_entry(), None);

    let mut app = app_with_two_schools();
    app.switch_focus();
    assert_eq!(app.current_menu, MenuItem::PersonalInfo);
    assert_eq!(app.focus, Focus::Content);
    assert_eq!(app.content_pane.selected_entry(), None);
}

#[test]
fn switching_back_to_the_sidebar_changes_the_focus_only() {
    let mut app = app_with_two_schools();
    app.next_menu();
    app.switch_focus();
    app.next_menu();
    assert_eq!(app.content_pane.selected_entry(), Some(1));
    app.switch_focus();
    assert_eq!(app.focus, Focus::Sidebar);
    assert_eq!(app.content_pane.selected_entry(), Some(1));
    assert_eq!(app.current_menu, MenuItem::Education);
    app.switch_focus();
    assert_eq!(app.focus, Focus::Content);
    assert_eq!(app.content_pane.selected_entry(), Some(0));
}

#[test]
fn switch_focus_does_what_the_focus_key_does() {
    let mut by_call = app_with_two_schools();
    let mut by_key = app_with_two_schools();
    by_call.next_menu();
    by_key.next_menu();
    for _ in 0..3 {
        by_call.switch_focus();
        handle_key(&mut by_key, Key::Tab);
        assert_eq!(by_call.focus, by_key.focus);
        assert_eq!(by_call.content_pane.selected_entry(), by_key.content_pane.selected_entry());
    }
}

#[test]
fn a_failed_save_keeps_the_commit_and_is_reported() {
    let mut app = app_with_two_schools();
    press(&mut app, &[Key::Down, Key::Enter, Key::Enter]);
    type_text(&mut app, "!");
    let actions = press(&mut app, &[Key::Enter, Key::Enter, Key::Enter, Key::Enter]);
    assert!(matches!(actions[3], Action::Persist));
    let action = app.finish_persist(Err("disk full".to_string()));
    match &action {
        Action::Report(message) => assert_eq!(message, "Error saving to file: disk full"),
        other => panic!("unexpected action {:?}", other),
    }
    let names: Vec<&str> =
        app.data_manager.resume.education.iter().map(|e| e.name.as_str()).collect();
    assert_eq!(names, vec!["MIT!", "ETH"]);
    assert!(!app.content_pane.is_editing());
    assert_eq!(app.content_pane.selected_entry(), None);
    assert_eq!(app.focus, Focus::Content);
    assert!(!app.should_exit);
}

#[test]
fn a_successful_save_asks_for_nothing_more() {
    let mut app = empty_app();
    press(&mut app, &[Key::Down, Key::Enter, Key::Enter]);
    press(&mut app, &[Key::Enter, Key::Enter, Key::Enter]);
    let action = handle_key(&mut app, Key::Enter);
    assert!(matches!(action, Action::Persist));
    let action = app.finish_persist(Ok(()));
    assert!(is_nothing(&action));
    assert_eq!(app.data_manager.resume.education.len(), 1);
    assert!(!app.content_pane.is_editing());
}

#[test]
fn digits_select_sections_in_the_sidebar_only() {
    let mut app = empty_app();
    handle_key(&mut app, Key::Char('4'));
    assert_eq!(app.current_menu, MenuItem::Projects);
    handle_key(&mut app, Key::Char('8'));
    handle_key(&mut app, Key::Char('0'));
    handle_key(&mut app, Key::Char('x'));
    assert_eq!(app.current_menu, MenuItem::Projects);
    handle_key(&mut app, Key::Tab);
    handle_key(&mut app, Key::Char('2'));
    assert_eq!(app.current_menu, MenuItem::Projects);
    app.handle_number_input(2);
    assert_eq!(app.current_menu, MenuItem::Projects);
}

#[test]
fn digits_are_text_while_a_buffer_is_open() {
    let mut app = empty_app();
    press(&mut app, &[Key::Down, Key::Enter, Key::Enter]);
    type_text(&mut app, "2024");
    assert_eq!(app.content_pane.fields()[0], "2024");
    assert_eq!(app.current_menu, MenuItem::Education);
}

#[test]
fn text_and_backspace_are_ignored_in_the_sidebar() {
    let mut app = empty_app();
    press(&mut app, &[Key::Down, Key::Enter, Key::Enter]);
    type_text(&mut app, "ab");
    app.switch_focus();
    app.handle_text_input('c');
    app.handle_backspace();
    assert_eq!(app.content_pane.fields()[0], "ab");
    app.switch_focus();
    app.handle_backspace();
    assert_eq!(app.content_pane.fields()[0], "a");
}

#[test]
fn other_keys_are_ignored() {
    let mut app = app_with_two_schools();
    press(&mut app, &[Key::Down, Key::Enter]);
    let action = handle_key(&mut app, Key::Other);
    assert!(is_nothing(&action));
    assert_eq!(app.current_menu, MenuItem::Education);
    assert_eq!(app.focus, Focus::Content);
    assert_eq!(app.content_pane.selected_entry(), Some(0));
}

#[test]
fn activate_on_a_section_without_a_list_changes_nothing_in_the_content_pane() {
    let mut app = empty_app();
    press(&mut app, &[Key::Enter]);
    assert_eq!(app.focus, Focus::Content);
    let action = handle_key(&mut app, Key::Enter);
    assert!(is_nothing(&action));
    assert!(!app.content_pane.is_editing());
    assert_eq!(app.current_menu, MenuItem::PersonalInfo);
}

#[test]
fn exit_sets_the_flag() {
    let mut app = empty_app();
    app.exit();
    assert!(app.should_exit);
}

#[test]
fn digits_have_their_values() {
    assert_eq!(to_digit('0'), Some(0));
    assert_eq!(to_digit('7'), Some(7));
    assert_eq!(to_digit('9'), Some(9));
    assert_eq!(to_digit('a'), None);
    assert_eq!(to_digit('/'), None);
    assert_eq!(to_digit(':'), None);
    assert_eq!(to_digit('٣'), None);
}

#[test]
fn the_invariant_survives_any_sequence_of_keys() {
    let keys = [
        Key::Down,
        Key::Enter,
        Key::Char('a'),
        Key::Up,
        Key::Tab,
        Key::Char('3'),
        Key::Backspace,
        Key::Esc,
        Key::Char(';'),
        Key::Other,
        Key::Enter,
        Key::Down,
        Key::Char('é'),
    ];
    let mut app = app_with_two_schools();
    let mut seed: u64 = 0x2545_F491_4F6C_DD1D;
    for _ in 0..4000 {
        seed ^= seed << 13;
        seed ^= seed >> 7;
        seed ^= seed << 17;
        let key = keys[(seed % keys.len() as u64) as usize];
        handle_key(&mut app, key);
        assert!(app.is_well_formed());
        app.should_exit = false;
    }
}

#[test]
fn move_next_in_an_open_buffer_moves_between_fields_without_wrapping() {
    let mut app = empty_app();
    press(&mut app, &[Key::Down, Key::Enter, Key::Enter]);
    press(&mut app, &[Key::Up]);
    assert_eq!(app.content_pane.current_field(), 0);
    press(&mut app, &[Key::Down, Key::Down, Key::Down, Key::Down, Key::Down]);
    assert_eq!(app.content_pane.current_field(), 3);
    press(&mut app, &[Key::Up]);
    assert_eq!(app.content_pane.current_field(), 2);
    assert_eq!(app.current_menu, MenuItem::Education);
}
