use kadai::app::App;
use kadai::app::AppState;
use kadai::events::IoAction;
use kadai::events::Key;
use kadai::events::KeyEvent;
use kadai::events::KeyMods;
use kadai::lists::TaskList;

fn plain(code: Key) -> KeyEvent {
    KeyEvent { code, mods: KeyMods::Plain }
}

fn tracker_app_with_columns(names: &[&str]) -> App {
    let mut app = App::create(String::from("project"), Vec::new());
    let mut columns: Vec<TaskList> = Vec::new();
    for name in names {
        columns.push(TaskList::from(String::from(*name)));
    }
    app.load_project_data(columns, TaskList::empty_backlog(), TaskList::empty_archive());
    app
}

fn type_text(app: &mut App, text: &str) {
    for c in text.chars() {
        app.handle_key(plain(Key::Char(c)));
    }
}

#[test]
fn create_starts_in_the_right_screen() {
    let app = App::create(String::new(), Vec::new());
    assert!(matches!(app.state, AppState::ProjectMenu));
    let app = App::create(String::from("p"), Vec::new());
    assert!(matches!(app.state, AppState::Tracker));
    assert_eq!(app.task_lists.len(), 1);
    assert!(!app.quit);
    assert!(!app.unsaved_changes);
}

#[test]
fn load_replaces_empty_columns_with_a_default() {
    let mut app = App::create(String::from("p"), Vec::new());
    app.load_project_data(Vec::new(), TaskList::empty_backlog(), TaskList::empty_archive());
    assert_eq!(app.task_lists.len(), 1);
    assert_eq!(app.task_lists[0].name, "Tasks");
    assert_eq!(app.active_list, 0);
}

#[test]
fn end_to_end_task_journey_across_the_board() {
    // Three empty columns; a task created in column 0 travels to column 2,
    // is archived, and is finally deleted from the archive.
    let mut app = tracker_app_with_columns(&["To Do", "Doing", "Done"]);
    assert_eq!(app.task_lists.len(), 3);

    // Create a task with summary "T1" in column 0.
    app.handle_key(plain(Key::Char('n')));
    assert!(matches!(app.state, AppState::CreateTask(_)));
    type_text(&mut app, "T1");
    app.handle_key(plain(Key::Enter));
    assert!(matches!(app.state, AppState::Tracker));
    assert_eq!(app.task_lists[0].tasks.items.len(), 1);
    assert_eq!(app.task_lists[0].tasks.items[0].summary, "T1");
    assert_eq!(app.task_lists[0].tasks.selected, Some(0));
    assert!(app.unsaved_changes);

    // Move it to the next list twice: it lands in column 2, and the columns
    // it left are empty with no selection.
    app.handle_key(plain(Key::Char(' ')));
    app.handle_key(plain(Key::Char(' ')));
    assert_eq!(app.active_list, 2);
    assert_eq!(app.task_lists[0].tasks.items.len(), 0);
    assert_eq!(app.task_lists[0].tasks.selected, None);
    assert_eq!(app.task_lists[1].tasks.items.len(), 0);
    assert_eq!(app.task_lists[1].tasks.selected, None);
    assert_eq!(app.task_lists[2].tasks.items.len(), 1);
    assert_eq!(app.task_lists[2].tasks.items[0].summary, "T1");

    // Archive it: column 2 empties, the archive holds it selected at 0.
    app.handle_key(plain(Key::Char('A')));
    assert_eq!(app.task_lists[2].tasks.items.len(), 0);
    assert_eq!(app.task_lists[2].tasks.selected, None);
    assert_eq!(app.archive.tasks.items.len(), 1);
    assert_eq!(app.archive.tasks.selected, Some(0));

    // Delete it from inside the archive popup: the archive empties.
    app.handle_key(plain(Key::Char('a')));
    assert!(matches!(app.state, AppState::ArchivePopup(_)));
    app.handle_key(plain(Key::Char('d')));
    assert!(matches!(app.state, AppState::DeleteTask(_)));
    app.handle_key(plain(Key::Char('y')));
    assert!(matches!(app.state, AppState::ArchivePopup(_)));
    assert_eq!(app.archive.tasks.items.len(), 0);
    assert_eq!(app.archive.tasks.selected, None);
}

#[test]
fn mode_stack_pops_exactly_one_level() {
    // CreateTask entered from BacklogPopup entered from Tracker: cancelling
    // returns to BacklogPopup over Tracker, not to Tracker.
    let mut app = tracker_app_with_columns(&["Tasks"]);
    app.handle_key(plain(Key::Char('b')));
    assert!(matches!(app.state, AppState::BacklogPopup(_)));
    app.handle_key(plain(Key::Char('n')));
    assert!(matches!(app.state, AppState::CreateTask(_)));
    app.handle_key(plain(Key::Esc));
    match &app.state {
        AppState::BacklogPopup(prev) => assert!(matches!(**prev, AppState::Tracker)),
        _ => panic!("cancel must land on the backlog popup"),
    }
    app.handle_key(plain(Key::Esc));
    assert!(matches!(app.state, AppState::Tracker));
}

#[test]
fn task_created_in_backlog_popup_lands_in_backlog() {
    let mut app = tracker_app_with_columns(&["Tasks"]);
    app.handle_key(plain(Key::Char('b')));
    app.handle_key(plain(Key::Char('n')));
    type_text(&mut app, "B1");
    app.handle_key(plain(Key::Enter));
    assert_eq!(app.backlog.tasks.items.len(), 1);
    assert_eq!(app.backlog.tasks.items[0].summary, "B1");
    assert_eq!(app.backlog.tasks.selected, Some(0));
    assert_eq!(app.task_lists[0].tasks.items.len(), 0);
}

#[test]
fn editing_a_task_replaces_it_in_place() {
    let mut app = tracker_app_with_columns(&["Tasks"]);
    app.handle_key(plain(Key::Char('n')));
    type_text(&mut app, "old");
    app.handle_key(plain(Key::Enter));

    app.handle_key(plain(Key::Char('e')));
    assert!(matches!(app.state, AppState::EditTask(_)));
    // The summary field was populated with the old text; extend it.
    type_text(&mut app, "er");
    // Tab to the description field and give the task a description.
    app.handle_key(plain(Key::Tab));
    type_text(&mut app, "details");
    app.handle_key(plain(Key::Enter));

    assert_eq!(app.task_lists[0].tasks.items.len(), 1);
    let task = &app.task_lists[0].tasks.items[0];
    assert_eq!(task.summary, "older");
    assert_eq!(task.description.as_deref(), Some("details"));
    assert_eq!(task.category, None);
    assert_eq!(app.task_lists[0].tasks.selected, Some(0));
}

#[test]
fn empty_detail_fields_become_absent() {
    let mut app = tracker_app_with_columns(&["Tasks"]);
    app.handle_key(plain(Key::Char('n')));
    type_text(&mut app, "bare");
    app.handle_key(plain(Key::Enter));
    let task = &app.task_lists[0].tasks.items[0];
    assert_eq!(task.description, None);
    assert_eq!(task.category, None);
}

#[test]
fn deleting_the_last_column_synthesizes_a_default() {
    let mut app = tracker_app_with_columns(&["Only"]);
    app.handle_key(plain(Key::Char('D')));
    assert!(matches!(app.state, AppState::DeleteList(_)));
    app.handle_key(plain(Key::Char('y')));
    assert_eq!(app.task_lists.len(), 1);
    assert_eq!(app.task_lists[0].name, "Tasks");
    assert_eq!(app.task_lists[0].color_index, 7);
    assert!(app.task_lists[0].tasks.items.is_empty());
    assert_eq!(app.active_list, 0);
}

#[test]
fn deleting_the_rightmost_column_clamps_the_active_index() {
    let mut app = tracker_app_with_columns(&["A", "B", "C"]);
    app.handle_key(plain(Key::Char('l')));
    app.handle_key(plain(Key::Char('l')));
    assert_eq!(app.active_list, 2);
    app.handle_key(plain(Key::Char('D')));
    app.handle_key(plain(Key::Enter));
    assert_eq!(app.task_lists.len(), 2);
    assert_eq!(app.active_list, 1);
    assert_eq!(app.task_lists[0].name, "A");
    assert_eq!(app.task_lists[1].name, "B");
}

#[test]
fn column_navigation_wraps_both_ways() {
    let mut app = tracker_app_with_columns(&["A", "B", "C"]);
    assert_eq!(app.active_list, 0);
    app.handle_key(plain(Key::Char('h')));
    assert_eq!(app.active_list, 2);
    app.handle_key(plain(Key::Char('l')));
    assert_eq!(app.active_list, 0);
    app.handle_key(plain(Key::Char('l')));
    assert_eq!(app.active_list, 1);
}

#[test]
fn reordering_columns_moves_the_active_one() {
    let mut app = tracker_app_with_columns(&["A", "B", "C"]);
    app.handle_key(plain(Key::Char('L')));
    assert_eq!(app.active_list, 1);
    assert_eq!(app.task_lists[0].name, "B");
    assert_eq!(app.task_lists[1].name, "A");
    app.handle_key(plain(Key::Char('H')));
    assert_eq!(app.active_list, 0);
    assert_eq!(app.task_lists[0].name, "A");
    assert_eq!(app.task_lists[1].name, "B");
    // At the ends the swap is a no-op.
    app.handle_key(plain(Key::Char('H')));
    assert_eq!(app.active_list, 0);
    assert_eq!(app.task_lists[0].name, "A");
}

#[test]
fn list_color_wraps_around_the_palette() {
    let mut app = tracker_app_with_columns(&["A"]);
    assert_eq!(app.task_lists[0].color_index, 7);
    app.handle_key(plain(Key::Char('c')));
    assert_eq!(app.task_lists[0].color_index, 1);
    app.handle_key(plain(Key::Char('C')));
    assert_eq!(app.task_lists[0].color_index, 7);
    app.handle_key(plain(Key::Char('C')));
    assert_eq!(app.task_lists[0].color_index, 6);
}

#[test]
fn renaming_a_list_keeps_its_tasks() {
    let mut app = tracker_app_with_columns(&["Old Name"]);
    app.handle_key(plain(Key::Char('n')));
    type_text(&mut app, "task");
    app.handle_key(plain(Key::Enter));

    app.handle_key(plain(Key::Char('E')));
    assert!(matches!(app.state, AppState::EditList(_)));
    // The field holds "Old Name"; erase it and type a fresh name.
    app.handle_key(plain(Key::Delete));
    type_text(&mut app, "New Name");
    app.handle_key(plain(Key::Enter));

    assert_eq!(app.task_lists[0].name, "New Name");
    assert_eq!(app.task_lists[0].tasks.items.len(), 1);
}

#[test]
fn creating_a_list_appends_a_fresh_column() {
    let mut app = tracker_app_with_columns(&["A"]);
    app.handle_key(plain(Key::Char('N')));
    assert!(matches!(app.state, AppState::CreateList(_)));
    type_text(&mut app, "B");
    app.handle_key(plain(Key::Enter));
    assert_eq!(app.task_lists.len(), 2);
    assert_eq!(app.task_lists[1].name, "B");
    assert!(app.task_lists[1].tasks.items.is_empty());
}

#[test]
fn moving_from_backlog_targets_the_first_column() {
    let mut app = tracker_app_with_columns(&["A", "B"]);
    app.handle_key(plain(Key::Char('b')));
    app.handle_key(plain(Key::Char('n')));
    type_text(&mut app, "B1");
    app.handle_key(plain(Key::Enter));
    assert_eq!(app.backlog.tasks.items.len(), 1);
    app.handle_key(plain(Key::Char(' ')));
    assert_eq!(app.backlog.tasks.items.len(), 0);
    assert_eq!(app.backlog.tasks.selected, None);
    assert_eq!(app.task_lists[0].tasks.items.len(), 1);
    assert_eq!(app.task_lists[0].tasks.items[0].summary, "B1");
    assert_eq!(app.task_lists[0].tasks.selected, Some(0));
}

#[test]
fn backlog_key_sends_the_selected_task_to_backlog() {
    let mut app = tracker_app_with_columns(&["A"]);
    app.handle_key(plain(Key::Char('n')));
    type_text(&mut app, "T");
    app.handle_key(plain(Key::Enter));
    app.handle_key(plain(Key::Char('B')));
    assert_eq!(app.task_lists[0].tasks.items.len(), 0);
    assert_eq!(app.backlog.tasks.items.len(), 1);
    assert_eq!(app.backlog.tasks.selected, Some(0));
}

#[test]
fn quit_keys_raise_the_quit_flag() {
    let mut app = tracker_app_with_columns(&["A"]);
    assert!(!app.quit);
    app.handle_key(plain(Key::Char('q')));
    assert!(app.quit);
}

#[test]
fn save_key_requests_a_save() {
    let mut app = tracker_app_with_columns(&["A"]);
    let act = app.handle_key(plain(Key::Char('s')));
    assert!(matches!(act, Some(IoAction::Save)));
}

#[test]
fn task_view_scrolls_and_returns() {
    let mut app = tracker_app_with_columns(&["A"]);
    app.handle_key(plain(Key::Char('n')));
    type_text(&mut app, "T");
    app.handle_key(plain(Key::Enter));
    app.handle_key(plain(Key::Enter));
    assert!(matches!(app.state, AppState::TaskView(_)));
    app.handle_key(plain(Key::Char('j')));
    app.handle_key(plain(Key::Char('j')));
    assert_eq!(app.detail_scroll, 2);
    app.handle_key(plain(Key::Char('k')));
    app.handle_key(plain(Key::Char('k')));
    app.handle_key(plain(Key::Char('k')));
    assert_eq!(app.detail_scroll, 0);
    app.handle_key(plain(Key::Enter));
    assert!(matches!(app.state, AppState::Tracker));
    assert_eq!(app.detail_scroll, 0);
}

#[test]
fn ctrl_w_deletes_a_word_while_editing() {
    let mut app = tracker_app_with_columns(&["A"]);
    app.handle_key(plain(Key::Char('n')));
    type_text(&mut app, "two words");
    app.handle_key(KeyEvent { code: Key::Char('w'), mods: KeyMods::Ctrl });
    app.handle_key(plain(Key::Enter));
    assert_eq!(app.task_lists[0].tasks.items[0].summary, "two");
}

#[test]
fn selection_moves_within_a_column() {
    let mut app = tracker_app_with_columns(&["A"]);
    for name in ["x", "y", "z"] {
        app.handle_key(plain(Key::Char('n')));
        type_text(&mut app, name);
        app.handle_key(plain(Key::Enter));
    }
    assert_eq!(app.task_lists[0].tasks.selected, Some(0));
    app.handle_key(plain(Key::Char('j')));
    assert_eq!(app.task_lists[0].tasks.selected, Some(1));
    app.handle_key(plain(Key::Char('j')));
    app.handle_key(plain(Key::Char('j')));
    assert_eq!(app.task_lists[0].tasks.selected, Some(0));
    app.handle_key(plain(Key::Char('k')));
    assert_eq!(app.task_lists[0].tasks.selected, Some(2));
    app.handle_key(plain(Key::Char('g')));
    assert_eq!(app.task_lists[0].tasks.selected, Some(0));
    app.handle_key(plain(Key::Char('G')));
    assert_eq!(app.task_lists[0].tasks.selected, Some(2));
}

#[test]
fn reordering_tasks_follows_the_moved_task() {
    let mut app = tracker_app_with_columns(&["A"]);
    for name in ["x", "y", "z"] {
        app.handle_key(plain(Key::Char('n')));
        type_text(&mut app, name);
        app.handle_key(plain(Key::Enter));
    }
    app.handle_key(plain(Key::Char('J')));
    assert_eq!(app.task_lists[0].tasks.items[0].summary, "y");
    assert_eq!(app.task_lists[0].tasks.items[1].summary, "x");
    assert_eq!(app.task_lists[0].tasks.selected, Some(1));
    app.handle_key(plain(Key::Char('K')));
    assert_eq!(app.task_lists[0].tasks.items[0].summary, "x");
    assert_eq!(app.task_lists[0].tasks.selected, Some(0));
    // Ctrl-j sends the selected task to the bottom.
    app.handle_key(KeyEvent { code: Key::Char('j'), mods: KeyMods::Ctrl });
    assert_eq!(app.task_lists[0].tasks.items[2].summary, "x");
    assert_eq!(app.task_lists[0].tasks.selected, Some(2));
    // Ctrl-k brings it back to the top.
    app.handle_key(KeyEvent { code: Key::Char('k'), mods: KeyMods::Ctrl });
    assert_eq!(app.task_lists[0].tasks.items[0].summary, "x");
    assert_eq!(app.task_lists[0].tasks.selected, Some(0));
}

#[test]
fn project_menu_flow_creates_and_opens_a_project() {
    let mut app = App::create(String::new(), Vec::new());
    assert!(matches!(app.state, AppState::ProjectMenu));
    app.handle_key(plain(Key::Char('n')));
    assert!(matches!(app.state, AppState::CreateProject(_)));
    type_text(&mut app, "alpha");
    let act = app.handle_key(plain(Key::Enter));
    match act {
        Some(IoAction::CreateDir(name)) => assert_eq!(name, "alpha"),
        _ => panic!("creating a project must ask for its directory"),
    }
    assert!(matches!(app.state, AppState::ProjectMenu));
    assert_eq!(app.project_list.projects.items, vec![String::from("alpha")]);
    assert_eq!(app.project_list.projects.selected, Some(0));

    let act = app.handle_key(plain(Key::Enter));
    match act {
        Some(IoAction::LoadProject(name)) => assert_eq!(name, "alpha"),
        _ => panic!("opening a project must ask for its data"),
    }
    assert!(matches!(app.state, AppState::Tracker));
    assert_eq!(app.project_title, "alpha");
}

#[test]
fn renaming_a_project_requests_a_directory_rename() {
    let mut app = App::create(String::new(), vec![String::from("alpha")]);
    app.handle_key(plain(Key::Char('e')));
    assert!(matches!(app.state, AppState::EditProject(_)));
    // The field holds "alpha"; erase it and type a fresh name.
    app.handle_key(plain(Key::Delete));
    type_text(&mut app, "beta");
    let act = app.handle_key(plain(Key::Enter));
    match act {
        Some(IoAction::RenameDir(from, to)) => {
            assert_eq!(from, "alpha");
            assert_eq!(to, "beta");
        },
        _ => panic!("renaming a project must ask for the directory rename"),
    }
    assert_eq!(app.project_list.projects.items, vec![String::from("beta")]);
}

#[test]
fn committing_an_empty_project_name_is_rejected() {
    let mut app = App::create(String::new(), Vec::new());
    app.handle_key(plain(Key::Char('n')));
    let act = app.handle_key(plain(Key::Enter));
    assert!(act.is_none());
    assert!(app.project_list.projects.items.is_empty());
    assert!(matches!(app.state, AppState::ProjectMenu));
}

#[test]
fn deleting_a_project_requests_directory_removal() {
    let mut app = App::create(String::new(), vec![String::from("alpha"), String::from("beta")]);
    app.handle_key(plain(Key::Char('d')));
    assert!(matches!(app.state, AppState::DeleteProject(_)));
    let act = app.handle_key(plain(Key::Char('y')));
    match act {
        Some(IoAction::RemoveDir(name)) => assert_eq!(name, "alpha"),
        _ => panic!("deleting a project must ask for directory removal"),
    }
    assert_eq!(app.project_list.projects.items, vec![String::from("beta")]);
    assert_eq!(app.project_list.projects.selected, Some(0));
}

#[test]
fn tracked_task_count_sums_all_columns() {
    let mut app = tracker_app_with_columns(&["A", "B"]);
    app.handle_key(plain(Key::Char('n')));
    type_text(&mut app, "one");
    app.handle_key(plain(Key::Enter));
    app.handle_key(plain(Key::Char('l')));
    app.handle_key(plain(Key::Char('n')));
    type_text(&mut app, "two");
    app.handle_key(plain(Key::Enter));
    assert_eq!(app.num_tracked_tasks(), 2);
    assert_eq!(app.backlog.tasks.items.len(), 0);
}

#[test]
fn detail_scroll_clamps_at_both_ends() {
    let mut app = tracker_app_with_columns(&["A"]);
    app.scroll_details(-3);
    assert_eq!(app.detail_scroll, 0);
    app.detail_scroll = 32767;
    app.scroll_details(5);
    assert_eq!(app.detail_scroll, 32767);
    app.scroll_details(-2);
    assert_eq!(app.detail_scroll, 32765);
}

#[test]
fn confirm_pops_exactly_one_level_too() {
    let mut app = tracker_app_with_columns(&["A"]);
    app.handle_key(plain(Key::Char('b')));
    app.handle_key(plain(Key::Char('n')));
    type_text(&mut app, "t");
    app.handle_key(plain(Key::Enter));
    match &app.state {
        AppState::BacklogPopup(prev) => assert!(matches!(**prev, AppState::Tracker)),
        _ => panic!("confirm must land on the backlog popup"),
    }
}

#[test]
fn moving_to_the_focused_column_requeues_the_task() {
    let mut app = tracker_app_with_columns(&["A"]);
    for name in ["x", "y"] {
        app.handle_key(plain(Key::Char('n')));
        type_text(&mut app, name);
        app.handle_key(plain(Key::Enter));
    }
    assert_eq!(app.task_lists[0].tasks.selected, Some(0));
    app.move_task_to_list(0);
    assert_eq!(app.task_lists[0].tasks.items.len(), 2);
    assert_eq!(app.task_lists[0].tasks.items[0].summary, "y");
    assert_eq!(app.task_lists[0].tasks.items[1].summary, "x");
    assert_eq!(app.task_lists[0].tasks.selected, Some(0));
}

#[test]
fn moving_to_an_out_of_range_column_is_rejected() {
    let mut app = tracker_app_with_columns(&["A"]);
    app.handle_key(plain(Key::Char('n')));
    type_text(&mut app, "x");
    app.handle_key(plain(Key::Enter));
    app.unsaved_changes = false;
    app.move_task_to_list(5);
    assert_eq!(app.task_lists[0].tasks.items.len(), 1);
    assert!(!app.unsaved_changes);
}

#[test]
fn cancel_leaves_the_board_and_fields_untouched() {
    let mut app = tracker_app_with_columns(&["A"]);
    app.handle_key(plain(Key::Char('n')));
    type_text(&mut app, "xy");
    app.handle_key(plain(Key::Esc));
    assert!(matches!(app.state, AppState::Tracker));
    // Nothing was committed, and cancel clears nothing either: the typed
    // text stays in the field until the next prompt wipes it.
    assert_eq!(app.task_lists[0].tasks.items.len(), 0);
    assert!(!app.unsaved_changes);
    assert_eq!(app.task_detail_inputs[0].text, vec!['x', 'y']);
}

#[test]
fn declining_a_deletion_changes_nothing() {
    let mut app = tracker_app_with_columns(&["A"]);
    app.handle_key(plain(Key::Char('n')));
    type_text(&mut app, "keep");
    app.handle_key(plain(Key::Enter));
    app.handle_key(plain(Key::Char('d')));
    assert!(matches!(app.state, AppState::DeleteTask(_)));
    app.handle_key(plain(Key::Char('n')));
    assert!(matches!(app.state, AppState::Tracker));
    assert_eq!(app.task_lists[0].tasks.items.len(), 1);
    assert_eq!(app.task_lists[0].tasks.selected, Some(0));
}

#[test]
fn detail_fields_carry_their_labels() {
    let app = App::create(String::new(), Vec::new());
    assert_eq!(app.task_detail_inputs[0].name, "Summary");
    assert_eq!(app.task_detail_inputs[1].name, "Description");
    assert_eq!(app.task_detail_inputs[2].name, "Category");
    assert_eq!(app.project_detail_input.name, "Project Name");
    assert_eq!(app.list_detail_input.name, "List Name");
}
