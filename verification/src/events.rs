use vstd::prelude::*;
use crate::app::App;
use crate::app::AppState;
use crate::app::ProjectAction;
use crate::app::state_ok;

verus! {

/// A decoded keyboard key, as the terminal layer hands it to the core.
pub enum Key {
    Char(char),
    Up,
    Down,
    Left,
    Right,
    Enter,
    Esc,
    Backspace,
    Delete,
    Tab,
    BackTab,
    Home,
    End,
    Other,
}

/// The modifier set held while the key was pressed.
pub enum KeyMods {
    Plain,
    Ctrl,
    Other,
}

/// One decoded key event.
pub struct KeyEvent {
    pub code: Key,
    pub mods: KeyMods,
}

/// The file or directory work that a keystroke asks the shell to perform;
/// the core itself never touches the disk.
pub enum IoAction {
    /// Write the project's three files; on success the shell clears the
    /// board's dirty flag.
    Save,
    /// Read the named project's three files and hand them to
    /// [`App::load_project_data`].
    LoadProject(String),
    /// Rename the first directory to the second.
    RenameDir(String, String),
    /// Create a directory of this name.
    CreateDir(String),
    /// Remove the directory of this name.
    RemoveDir(String),
}

/// The state that cancelling or confirming a wrapper returns to: exactly one
/// level of the mode stack, never further.
pub open spec fn return_state(s: AppState) -> Option<AppState> {
    match s {
        AppState::ProjectMenu => Option::None,
        AppState::Tracker => Option::None,
        AppState::EditProject(p) => Option::Some(*p),
        AppState::CreateProject(p) => Option::Some(*p),
        AppState::DeleteProject(p) => Option::Some(*p),
        AppState::TaskView(p) => Option::Some(*p),
        AppState::BacklogPopup(p) => Option::Some(*p),
        AppState::ArchivePopup(p) => Option::Some(*p),
        AppState::EditTask(p) => Option::Some(*p),
        AppState::CreateTask(p) => Option::Some(*p),
        AppState::DeleteTask(p) => Option::Some(*p),
        AppState::EditList(p) => Option::Some(*p),
        AppState::CreateList(p) => Option::Some(*p),
        AppState::DeleteList(p) => Option::Some(*p),
    }
}

/// The mode stack is strictly last-in, first-out: a wrapper entered from `s`
/// returns to `s` itself — entering the create-task prompt from the backlog
/// popup over the tracker and cancelling lands back on the backlog popup
/// over the tracker, not on the tracker.
pub proof fn lemma_mode_stack_lifo(s: AppState)
    ensures
        return_state(AppState::EditProject(Box::new(s))) == Option::Some(s),
        return_state(AppState::CreateProject(Box::new(s))) == Option::Some(s),
        return_state(AppState::DeleteProject(Box::new(s))) == Option::Some(s),
        return_state(AppState::TaskView(Box::new(s))) == Option::Some(s),
        return_state(AppState::BacklogPopup(Box::new(s))) == Option::Some(s),
        return_state(AppState::ArchivePopup(Box::new(s))) == Option::Some(s),
        return_state(AppState::EditTask(Box::new(s))) == Option::Some(s),
        return_state(AppState::CreateTask(Box::new(s))) == Option::Some(s),
        return_state(AppState::DeleteTask(Box::new(s))) == Option::Some(s),
        return_state(AppState::EditList(Box::new(s))) == Option::Some(s),
        return_state(AppState::CreateList(Box::new(s))) == Option::Some(s),
        return_state(AppState::DeleteList(Box::new(s))) == Option::Some(s),
{
}

// The keymap, stated: one relation per screen between the board before
// (`pre`) and after (`post`) one key, each handled key tied to the named
// operation's relation and every other key left as the identity.

/// The effect of one text-editing key on the focused field; `false` for
/// keys outside the editing family.
pub open spec fn editing_key_post(key: KeyEvent, pre: App, post: App) -> bool {
    match key.code {
        Key::Char(c) => if c == 'w' && key.mods is Ctrl {
            post.state == pre.state && crate::app::input_delete_to_left_space_post(pre, post)
        } else {
            post.state == pre.state && crate::app::add_to_detail_input_post(pre, post, c)
        },
        Key::Backspace => post.state == pre.state && crate::app::delete_from_detail_input_post(
            pre,
            post,
        ),
        Key::Delete => post.state == pre.state && crate::app::clear_focused_input_post(pre, post),
        Key::Left => match key.mods {
            KeyMods::Plain => post.state == pre.state && crate::app::input_left_post(pre, post),
            KeyMods::Ctrl => post.state == pre.state && crate::app::input_jump_to_space_left_post(
                pre,
                post,
            ),
            KeyMods::Other => post == pre,
        },
        Key::Right => match key.mods {
            KeyMods::Plain => post.state == pre.state && crate::app::input_right_post(pre, post),
            KeyMods::Ctrl => post.state == pre.state && crate::app::input_jump_to_space_right_post(
                pre,
                post,
            ),
            KeyMods::Other => post == pre,
        },
        Key::Home => post.state == pre.state && crate::app::input_start_post(pre, post),
        Key::End => post.state == pre.state && crate::app::input_end_post(pre, post),
        _ => false,
    }
}

/// Entering a task prompt: the three detail fields emptied, labels kept,
/// focus back on the first field, everything else untouched.
pub open spec fn detail_fields_cleared(pre: App, post: App) -> bool {
    &&& crate::app::same_board(pre, post)
    &&& crate::app::same_project_menu(pre, post)
    &&& post.project_detail_input == pre.project_detail_input
    &&& post.list_detail_input == pre.list_detail_input
    &&& post.quit == pre.quit
    &&& post.detail_scroll == pre.detail_scroll
    &&& post.unsaved_changes == pre.unsaved_changes
    &&& post.active_detail_input == 0
    &&& post.task_detail_inputs@.len() == pre.task_detail_inputs@.len()
    &&& forall|i: int|
        0 <= i < pre.task_detail_inputs@.len() ==> {
            &&& (#[trigger] post.task_detail_inputs@[i]).name == pre.task_detail_inputs@[i].name
            &&& post.task_detail_inputs@[i].text@.len() == 0
            &&& post.task_detail_inputs@[i].pos == 0
        }
}

/// Entering the edit-task prompt: the detail fields populated from the
/// selected task, focus back on the first field.
pub open spec fn detail_fields_populated(pre: App, post: App) -> bool {
    &&& crate::app::populate_task_detail_inputs_post(pre, post)
    &&& post.active_detail_input == 0
}

/// What one key does on the project menu.
pub open spec fn project_menu_key_post(
    key: KeyEvent,
    pre: App,
    post: App,
    act: Option<IoAction>,
) -> bool {
    match key.code {
        Key::Char(c) => if c == 'q' {
            post == App { quit: true, ..pre } && act is None
        } else if c == 'n' {
            &&& (post == App {
                state: AppState::CreateProject(Box::new(pre.state)),
                project_detail_input: post.project_detail_input,
                ..pre
            })
            &&& post.project_detail_input.name == pre.project_detail_input.name
            &&& post.project_detail_input.text@.len() == 0
            &&& post.project_detail_input.pos == 0
            &&& act is None
        } else if c == 'd' {
            &&& (if pre.project_list.projects.items@.len() > 0 {
                post == App { state: AppState::DeleteProject(Box::new(pre.state)), ..pre }
            } else {
                post == pre
            })
            &&& act is None
        } else if c == 'e' {
            &&& (if pre.project_list.projects.items@.len() > 0 {
                post.state == AppState::EditProject(Box::new(pre.state))
                    && crate::app::populate_project_detail_inputs_post(pre, post)
            } else {
                post == pre
            })
            &&& act is None
        } else if c == 'j' {
            post.state == pre.state && crate::app::list_down_post(pre, post) && act is None
        } else if c == 'k' {
            post.state == pre.state && crate::app::list_up_post(pre, post) && act is None
        } else if c == 'g' {
            post.state == pre.state && crate::app::jump_to_list_top_post(pre, post) && act is None
        } else if c == 'G' {
            post.state == pre.state && crate::app::jump_to_list_bottom_post(pre, post)
                && act is None
        } else if c == ' ' {
            open_highlighted_project_post(pre, post, act)
        } else {
            post == pre && act is None
        },
        Key::Esc => post == App { quit: true, ..pre } && act is None,
        Key::Down => post.state == pre.state && crate::app::list_down_post(pre, post)
            && act is None,
        Key::Up => post.state == pre.state && crate::app::list_up_post(pre, post) && act is None,
        Key::Home => post.state == pre.state && crate::app::jump_to_list_top_post(pre, post)
            && act is None,
        Key::End => post.state == pre.state && crate::app::jump_to_list_bottom_post(pre, post)
            && act is None,
        Key::Enter => open_highlighted_project_post(pre, post, act),
        _ => post == pre && act is None,
    }
}

/// What opening the highlighted project leaves behind: with a selection the
/// board switches to that project's tracker and asks the shell for its data;
/// with none nothing changes.
pub open spec fn open_highlighted_project_post(
    pre: App,
    post: App,
    act: Option<IoAction>,
) -> bool {
    &&& pre.project_list.projects.selected is Some ==> ({
        let name = pre.project_list.projects.items@[
            pre.project_list.projects.selected->Some_0 as int
        ];
        &&& (post == App {
            state: AppState::Tracker,
            project_title: post.project_title,
            ..pre
        })
        &&& post.project_title@ == name@
        &&& (act matches Option::Some(IoAction::LoadProject(p)) && p@ == name@)
    })
    &&& pre.project_list.projects.selected is None ==> post == pre && act is None
}

/// What one key does on the tracker board.
pub open spec fn tracker_key_post(key: KeyEvent, pre: App, post: App, act: Option<
    IoAction,
>) -> bool {
    match key.code {
        Key::Char(c) => if c == 'q' {
            post == App { quit: true, ..pre } && act is None
        } else if c == 's' {
            post == pre && act == Option::Some(IoAction::Save)
        } else if c == 'n' {
            post.state == AppState::CreateTask(Box::new(pre.state)) && detail_fields_cleared(
                pre,
                post,
            ) && act is None
        } else if c == 'd' {
            &&& (if pre.focused().items@.len() > 0 {
                post == App { state: AppState::DeleteTask(Box::new(pre.state)), ..pre }
            } else {
                post == pre
            })
            &&& act is None
        } else if c == 'e' {
            &&& (if pre.focused().items@.len() > 0 {
                post.state == AppState::EditTask(Box::new(pre.state)) && detail_fields_populated(
                    pre,
                    post,
                )
            } else {
                post == pre
            })
            &&& act is None
        } else if c == 'N' {
            &&& (post == App {
                state: AppState::CreateList(Box::new(pre.state)),
                list_detail_input: post.list_detail_input,
                ..pre
            })
            &&& post.list_detail_input.name == pre.list_detail_input.name
            &&& post.list_detail_input.text@.len() == 0
            &&& post.list_detail_input.pos == 0
            &&& act is None
        } else if c == 'D' {
            post == App { state: AppState::DeleteList(Box::new(pre.state)), ..pre } && act is None
        } else if c == 'E' {
            post.state == AppState::EditList(Box::new(pre.state))
                && crate::app::populate_list_detail_inputs_post(pre, post) && act is None
        } else if c == 'j' {
            match key.mods {
                KeyMods::Plain => post.state == pre.state && crate::app::list_down_post(pre, post)
                    && act is None,
                KeyMods::Ctrl => post.state == pre.state && crate::app::task_to_bottom_post(
                    pre,
                    post,
                ) && act is None,
                KeyMods::Other => post == pre && act is None,
            }
        } else if c == 'J' {
            post.state == pre.state && crate::app::task_down_post(pre, post) && act is None
        } else if c == 'k' {
            match key.mods {
                KeyMods::Plain => post.state == pre.state && crate::app::list_up_post(pre, post)
                    && act is None,
                KeyMods::Ctrl => post.state == pre.state && crate::app::task_to_top_post(pre, post)
                    && act is None,
                KeyMods::Other => post == pre && act is None,
            }
        } else if c == 'K' {
            post.state == pre.state && crate::app::task_up_post(pre, post) && act is None
        } else if c == 'h' {
            crate::app::prev_list_post(pre, post) && act is None
        } else if c == 'H' {
            post.state == pre.state && crate::app::list_left_post(pre, post) && act is None
        } else if c == 'l' {
            crate::app::next_list_post(pre, post) && act is None
        } else if c == 'L' {
            post.state == pre.state && crate::app::list_right_post(pre, post) && act is None
        } else if c == 'g' {
            post.state == pre.state && crate::app::jump_to_list_top_post(pre, post) && act is None
        } else if c == 'G' {
            post.state == pre.state && crate::app::jump_to_list_bottom_post(pre, post)
                && act is None
        } else if c == 'c' {
            post.state == pre.state && crate::app::cycle_list_color_post(pre, post, 1i8) && act
                is None
        } else if c == 'C' {
            post.state == pre.state && crate::app::cycle_list_color_post(pre, post, -1i8) && act
                is None
        } else if c == ' ' {
            post.state == pre.state && crate::app::move_task_to_next_list_post(pre, post) && act
                is None
        } else if c == 'b' {
            post == App { state: AppState::BacklogPopup(Box::new(pre.state)), ..pre } && act
                is None
        } else if c == 'B' {
            post.state == pre.state && crate::app::move_task_to_backlog_post(pre, post) && act
                is None
        } else if c == 'a' {
            post == App { state: AppState::ArchivePopup(Box::new(pre.state)), ..pre } && act
                is None
        } else if c == 'A' {
            post.state == pre.state && crate::app::move_task_to_archive_post(pre, post) && act
                is None
        } else {
            post == pre && act is None
        },
        Key::Esc => post == App { quit: true, ..pre } && act is None,
        Key::Down => match key.mods {
            KeyMods::Plain => post.state == pre.state && crate::app::list_down_post(pre, post)
                && act is None,
            KeyMods::Ctrl => post.state == pre.state && crate::app::task_down_post(pre, post)
                && act is None,
            KeyMods::Other => post == pre && act is None,
        },
        Key::Up => match key.mods {
            KeyMods::Plain => post.state == pre.state && crate::app::list_up_post(pre, post)
                && act is None,
            KeyMods::Ctrl => post.state == pre.state && crate::app::task_up_post(pre, post)
                && act is None,
            KeyMods::Other => post == pre && act is None,
        },
        Key::Left => match key.mods {
            KeyMods::Plain => crate::app::prev_list_post(pre, post) && act is None,
            KeyMods::Ctrl => post.state == pre.state && crate::app::list_left_post(pre, post)
                && act is None,
            KeyMods::Other => post == pre && act is None,
        },
        Key::Right => match key.mods {
            KeyMods::Plain => crate::app::next_list_post(pre, post) && act is None,
            KeyMods::Ctrl => post.state == pre.state && crate::app::list_right_post(pre, post)
                && act is None,
            KeyMods::Other => post == pre && act is None,
        },
        Key::Home => post.state == pre.state && crate::app::jump_to_list_top_post(pre, post)
            && act is None,
        Key::End => post.state == pre.state && crate::app::jump_to_list_bottom_post(pre, post)
            && act is None,
        Key::Backspace => post.state == pre.state && crate::app::move_task_to_prev_list_post(
            pre,
            post,
        ) && act is None,
        Key::Enter => {
            &&& (if pre.focused().items@.len() > 0 {
                post == App { state: AppState::TaskView(Box::new(pre.state)), ..pre }
            } else {
                post == pre
            })
            &&& act is None
        },
        _ => post == pre && act is None,
    }
}

/// What one key does on the task-details view entered from `prev`.
pub open spec fn task_view_key_post(
    key: KeyEvent,
    prev: AppState,
    pre: App,
    post: App,
    act: Option<IoAction>,
) -> bool {
    match key.code {
        Key::Char(c) => if c == 'q' {
            post == App { quit: true, ..pre } && act is None
        } else if c == 's' {
            post == pre && act == Option::Some(IoAction::Save)
        } else if c == 'j' {
            crate::app::scroll_details_post(pre, post, 1i16) && act is None
        } else if c == 'k' {
            crate::app::scroll_details_post(pre, post, -1i16) && act is None
        } else {
            post == pre && act is None
        },
        Key::Down => crate::app::scroll_details_post(pre, post, 1i16) && act is None,
        Key::Up => crate::app::scroll_details_post(pre, post, -1i16) && act is None,
        Key::Enter => post == App { state: prev, detail_scroll: 0, ..pre } && act is None,
        Key::Esc => post == App { state: prev, detail_scroll: 0, ..pre } && act is None,
        _ => post == pre && act is None,
    }
}

/// What one key does on the backlog popup entered from `prev`.
pub open spec fn backlog_popup_key_post(
    key: KeyEvent,
    prev: AppState,
    pre: App,
    post: App,
    act: Option<IoAction>,
) -> bool {
    match key.code {
        Key::Char(c) => if c == 'q' {
            post == App { quit: true, ..pre } && act is None
        } else if c == 's' {
            post == pre && act == Option::Some(IoAction::Save)
        } else if c == 'n' {
            post.state == AppState::CreateTask(Box::new(pre.state)) && detail_fields_cleared(
                pre,
                post,
            ) && act is None
        } else if c == 'd' {
            &&& (if pre.focused().items@.len() > 0 {
                post == App { state: AppState::DeleteTask(Box::new(pre.state)), ..pre }
            } else {
                post == pre
            })
            &&& act is None
        } else if c == 'e' {
            &&& (if pre.focused().items@.len() > 0 {
                post.state == AppState::EditTask(Box::new(pre.state)) && detail_fields_populated(
                    pre,
                    post,
                )
            } else {
                post == pre
            })
            &&& act is None
        } else if c == 'j' {
            match key.mods {
                KeyMods::Plain => post.state == pre.state && crate::app::list_down_post(pre, post)
                    && act is None,
                KeyMods::Ctrl => post.state == pre.state && crate::app::task_to_bottom_post(
                    pre,
                    post,
                ) && act is None,
                KeyMods::Other => post == pre && act is None,
            }
        } else if c == 'J' {
            post.state == pre.state && crate::app::task_down_post(pre, post) && act is None
        } else if c == 'k' {
            match key.mods {
                KeyMods::Plain => post.state == pre.state && crate::app::list_up_post(pre, post)
                    && act is None,
                KeyMods::Ctrl => post.state == pre.state && crate::app::task_to_top_post(pre, post)
                    && act is None,
                KeyMods::Other => post == pre && act is None,
            }
        } else if c == 'K' {
            post.state == pre.state && crate::app::task_up_post(pre, post) && act is None
        } else if c == 'g' {
            post.state == pre.state && crate::app::jump_to_list_top_post(pre, post) && act is None
        } else if c == 'G' {
            post.state == pre.state && crate::app::jump_to_list_bottom_post(pre, post)
                && act is None
        } else if c == ' ' {
            post.state == pre.state && crate::app::move_task_to_list_post(pre, post, 0) && act
                is None
        } else if c == 'c' {
            post.state == pre.state && crate::app::cycle_list_color_post(pre, post, 1i8) && act
                is None
        } else if c == 'C' {
            post.state == pre.state && crate::app::cycle_list_color_post(pre, post, -1i8) && act
                is None
        } else if c == 'b' {
            post == App { state: prev, ..pre } && act is None
        } else if c == 'a' {
            post == App { state: AppState::ArchivePopup(Box::new(prev)), ..pre } && act is None
        } else {
            post == pre && act is None
        },
        Key::Down => match key.mods {
            KeyMods::Plain => post.state == pre.state && crate::app::list_down_post(pre, post)
                && act is None,
            KeyMods::Ctrl => post.state == pre.state && crate::app::task_down_post(pre, post)
                && act is None,
            KeyMods::Other => post == pre && act is None,
        },
        Key::Up => match key.mods {
            KeyMods::Plain => post.state == pre.state && crate::app::list_up_post(pre, post)
                && act is None,
            KeyMods::Ctrl => post.state == pre.state && crate::app::task_up_post(pre, post)
                && act is None,
            KeyMods::Other => post == pre && act is None,
        },
        Key::Home => post.state == pre.state && crate::app::jump_to_list_top_post(pre, post)
            && act is None,
        Key::End => post.state == pre.state && crate::app::jump_to_list_bottom_post(pre, post)
            && act is None,
        Key::Esc => post == App { state: prev, ..pre } && act is None,
        Key::Enter => {
            &&& (if pre.focused().items@.len() > 0 {
                post == App { state: AppState::TaskView(Box::new(pre.state)), ..pre }
            } else {
                post == pre
            })
            &&& act is None
        },
        _ => post == pre && act is None,
    }
}

/// What one key does on the archive popup entered from `prev`.
pub open spec fn archive_popup_key_post(
    key: KeyEvent,
    prev: AppState,
    pre: App,
    post: App,
    act: Option<IoAction>,
) -> bool {
    match key.code {
        Key::Char(c) => if c == 'q' {
            post == App { quit: true, ..pre } && act is None
        } else if c == 's' {
            post == pre && act == Option::Some(IoAction::Save)
        } else if c == 'd' {
            &&& (if pre.focused().items@.len() > 0 {
                post == App { state: AppState::DeleteTask(Box::new(pre.state)), ..pre }
            } else {
                post == pre
            })
            &&& act is None
        } else if c == 'j' {
            match key.mods {
                KeyMods::Plain => post.state == pre.state && crate::app::list_down_post(pre, post)
                    && act is None,
                KeyMods::Ctrl => post.state == pre.state && crate::app::task_to_bottom_post(
                    pre,
                    post,
                ) && act is None,
                KeyMods::Other => post == pre && act is None,
            }
        } else if c == 'J' {
            post.state == pre.state && crate::app::task_down_post(pre, post) && act is None
        } else if c == 'k' {
            match key.mods {
                KeyMods::Plain => post.state == pre.state && crate::app::list_up_post(pre, post)
                    && act is None,
                KeyMods::Ctrl => post.state == pre.state && crate::app::task_to_top_post(pre, post)
                    && act is None,
                KeyMods::Other => post == pre && act is None,
            }
        } else if c == 'K' {
            post.state == pre.state && crate::app::task_up_post(pre, post) && act is None
        } else if c == 'g' {
            post.state == pre.state && crate::app::jump_to_list_top_post(pre, post) && act is None
        } else if c == 'G' {
            post.state == pre.state && crate::app::jump_to_list_bottom_post(pre, post)
                && act is None
        } else if c == ' ' {
            post.state == pre.state && crate::app::move_task_to_list_post(
                pre,
                post,
                (pre.task_lists@.len() - 1) as usize,
            ) && act is None
        } else if c == 'c' {
            post.state == pre.state && crate::app::cycle_list_color_post(pre, post, 1i8) && act
                is None
        } else if c == 'C' {
            post.state == pre.state && crate::app::cycle_list_color_post(pre, post, -1i8) && act
                is None
        } else if c == 'a' {
            post == App { state: prev, ..pre } && act is None
        } else if c == 'b' {
            post == App { state: AppState::BacklogPopup(Box::new(prev)), ..pre } && act is None
        } else {
            post == pre && act is None
        },
        Key::Down => match key.mods {
            KeyMods::Plain => post.state == pre.state && crate::app::list_down_post(pre, post)
                && act is None,
            KeyMods::Ctrl => post.state == pre.state && crate::app::task_down_post(pre, post)
                && act is None,
            KeyMods::Other => post == pre && act is None,
        },
        Key::Up => match key.mods {
            KeyMods::Plain => post.state == pre.state && crate::app::list_up_post(pre, post)
                && act is None,
            KeyMods::Ctrl => post.state == pre.state && crate::app::task_up_post(pre, post)
                && act is None,
            KeyMods::Other => post == pre && act is None,
        },
        Key::Home => post.state == pre.state && crate::app::jump_to_list_top_post(pre, post)
            && act is None,
        Key::End => post.state == pre.state && crate::app::jump_to_list_bottom_post(pre, post)
            && act is None,
        Key::Esc => post == App { state: prev, ..pre } && act is None,
        Key::Enter => {
            &&& (if pre.focused().items@.len() > 0 {
                post == App { state: AppState::TaskView(Box::new(pre.state)), ..pre }
            } else {
                post == pre
            })
            &&& act is None
        },
        _ => post == pre && act is None,
    }
}

/// What one key does on the edit- or create-project prompt entered from
/// `prev`.
pub open spec fn project_editor_key_post(
    key: KeyEvent,
    prev: AppState,
    pre: App,
    post: App,
    act: Option<IoAction>,
) -> bool {
    match key.code {
        Key::Enter => {
            &&& post.state == prev
            &&& match act {
                Option::Some(IoAction::RenameDir(from, to)) => crate::app::save_to_project_post(
                    pre,
                    post,
                    Option::Some(ProjectAction::Rename(from, to)),
                ),
                Option::Some(IoAction::CreateDir(name)) => crate::app::save_to_project_post(
                    pre,
                    post,
                    Option::Some(ProjectAction::Create(name)),
                ),
                Option::None => crate::app::save_to_project_post(pre, post, Option::None),
                _ => false,
            }
        },
        Key::Esc => post == App { state: prev, ..pre } && act is None,
        Key::Char(_) => editing_key_post(key, pre, post) && act is None,
        Key::Backspace => editing_key_post(key, pre, post) && act is None,
        Key::Delete => editing_key_post(key, pre, post) && act is None,
        Key::Left => editing_key_post(key, pre, post) && act is None,
        Key::Right => editing_key_post(key, pre, post) && act is None,
        Key::Home => editing_key_post(key, pre, post) && act is None,
        Key::End => editing_key_post(key, pre, post) && act is None,
        _ => post == pre && act is None,
    }
}

/// What one key does on the delete-project prompt entered from `prev`.
pub open spec fn delete_project_key_post(
    key: KeyEvent,
    prev: AppState,
    pre: App,
    post: App,
    act: Option<IoAction>,
) -> bool {
    match key.code {
        Key::Char(c) => if c == 'y' {
            post.state == prev && match act {
                Option::Some(IoAction::RemoveDir(name)) => crate::app::delete_focused_project_post(
                    pre,
                    post,
                    Option::Some(name),
                ),
                Option::None => crate::app::delete_focused_project_post(pre, post, Option::None),
                _ => false,
            }
        } else if c == 'n' {
            post == App { state: prev, ..pre } && act is None
        } else {
            post == pre && act is None
        },
        Key::Enter => post.state == prev && match act {
            Option::Some(IoAction::RemoveDir(name)) => crate::app::delete_focused_project_post(
                pre,
                post,
                Option::Some(name),
            ),
            Option::None => crate::app::delete_focused_project_post(pre, post, Option::None),
            _ => false,
        },
        Key::Esc => post == App { state: prev, ..pre } && act is None,
        _ => post == pre && act is None,
    }
}

/// What one key does on the edit- or create-task prompt entered from `prev`.
pub open spec fn task_editor_key_post(
    key: KeyEvent,
    prev: AppState,
    pre: App,
    post: App,
    act: Option<IoAction>,
) -> bool {
    match key.code {
        Key::Enter => post.state == prev && crate::app::save_details_to_task_post(pre, post)
            && act is None,
        Key::Esc => post == App { state: prev, ..pre } && act is None,
        Key::Tab => crate::app::next_detail_input_post(pre, post) && act is None,
        Key::BackTab => crate::app::prev_detail_input_post(pre, post) && act is None,
        Key::Down => crate::app::next_detail_input_post(pre, post) && act is None,
        Key::Up => crate::app::prev_detail_input_post(pre, post) && act is None,
        Key::Char(_) => editing_key_post(key, pre, post) && act is None,
        Key::Backspace => editing_key_post(key, pre, post) && act is None,
        Key::Delete => editing_key_post(key, pre, post) && act is None,
        Key::Left => editing_key_post(key, pre, post) && act is None,
        Key::Right => editing_key_post(key, pre, post) && act is None,
        Key::Home => editing_key_post(key, pre, post) && act is None,
        Key::End => editing_key_post(key, pre, post) && act is None,
        _ => post == pre && act is None,
    }
}

/// What one key does on the delete-task prompt entered from `prev`.
pub open spec fn delete_task_key_post(
    key: KeyEvent,
    prev: AppState,
    pre: App,
    post: App,
    act: Option<IoAction>,
) -> bool {
    match key.code {
        Key::Char(c) => if c == 'y' {
            post.state == prev && crate::app::delete_highlighted_task_post(pre, post)
                && act is None
        } else if c == 'n' {
            post == App { state: prev, ..pre } && act is None
        } else {
            post == pre && act is None
        },
        Key::Enter => post.state == prev && crate::app::delete_highlighted_task_post(pre, post)
            && act is None,
        Key::Esc => post == App { state: prev, ..pre } && act is None,
        _ => post == pre && act is None,
    }
}

/// What one key does on the edit- or create-list prompt entered from `prev`.
pub open spec fn list_editor_key_post(
    key: KeyEvent,
    prev: AppState,
    pre: App,
    post: App,
    act: Option<IoAction>,
) -> bool {
    match key.code {
        Key::Enter => post.state == prev && crate::app::save_details_to_list_post(pre, post)
            && act is None,
        Key::Esc => post == App { state: prev, ..pre } && act is None,
        Key::Char(_) => editing_key_post(key, pre, post) && act is None,
        Key::Backspace => editing_key_post(key, pre, post) && act is None,
        Key::Delete => editing_key_post(key, pre, post) && act is None,
        Key::Left => editing_key_post(key, pre, post) && act is None,
        Key::Right => editing_key_post(key, pre, post) && act is None,
        Key::Home => editing_key_post(key, pre, post) && act is None,
        Key::End => editing_key_post(key, pre, post) && act is None,
        _ => post == pre && act is None,
    }
}

/// What one key does on the delete-list prompt entered from `prev`.
pub open spec fn delete_list_key_post(
    key: KeyEvent,
    prev: AppState,
    pre: App,
    post: App,
    act: Option<IoAction>,
) -> bool {
    match key.code {
        Key::Char(c) => if c == 'y' {
            post.state == prev && crate::app::delete_focused_list_post(pre, post) && act is None
        } else if c == 'n' {
            post == App { state: prev, ..pre } && act is None
        } else {
            post == pre && act is None
        },
        Key::Enter => post.state == prev && crate::app::delete_focused_list_post(pre, post)
            && act is None,
        Key::Esc => post == App { state: prev, ..pre } && act is None,
        _ => post == pre && act is None,
    }
}

impl App {
    /// Routes one decoded key to the handler of the current screen and says
    /// which file-system work, if any, the shell must now perform. The
    /// keymap is stated screen by screen in the `*_key_post` relations: each
    /// handled key is tied to the named operation's relation, every other
    /// key is the identity, and cancel and confirm pop exactly one level of
    /// the mode stack (the two list popups confirm into the task view
    /// instead).
    pub fn handle_key(&mut self, key: KeyEvent) -> (act: Option<IoAction>)
        requires
            old(self).inv(),
            state_ok(old(self).state),
        ensures
            final(self).inv(),
            state_ok(final(self).state),
            (key.code is Esc && return_state(old(self).state) is Some) ==> Option::Some(
                final(self).state,
            ) == return_state(old(self).state),
            (key.code is Enter && return_state(old(self).state) is Some && !(old(self).state
                is BacklogPopup) && !(old(self).state is ArchivePopup)) ==> Option::Some(
                final(self).state,
            ) == return_state(old(self).state),
            old(self).state is ProjectMenu ==> project_menu_key_post(
                key,
                *old(self),
                *final(self),
                act,
            ),
            old(self).state is Tracker ==> tracker_key_post(key, *old(self), *final(self), act),
            old(self).state matches AppState::EditProject(prev) ==> project_editor_key_post(
                key,
                *prev,
                *old(self),
                *final(self),
                act,
            ),
            old(self).state matches AppState::CreateProject(prev) ==> project_editor_key_post(
                key,
                *prev,
                *old(self),
                *final(self),
                act,
            ),
            old(self).state matches AppState::DeleteProject(prev) ==> delete_project_key_post(
                key,
                *prev,
                *old(self),
                *final(self),
                act,
            ),
            old(self).state matches AppState::TaskView(prev) ==> task_view_key_post(
                key,
                *prev,
                *old(self),
                *final(self),
                act,
            ),
            old(self).state matches AppState::BacklogPopup(prev) ==> backlog_popup_key_post(
                key,
                *prev,
                *old(self),
                *final(self),
                act,
            ),
            old(self).state matches AppState::ArchivePopup(prev) ==> archive_popup_key_post(
                key,
                *prev,
                *old(self),
                *final(self),
                act,
            ),
            old(self).state matches AppState::EditTask(prev) ==> task_editor_key_post(
                key,
                *prev,
                *old(self),
                *final(self),
                act,
            ),
            old(self).state matches AppState::CreateTask(prev) ==> task_editor_key_post(
                key,
                *prev,
                *old(self),
                *final(self),
                act,
            ),
            old(self).state matches AppState::DeleteTask(prev) ==> delete_task_key_post(
                key,
                *prev,
                *old(self),
                *final(self),
                act,
            ),
            old(self).state matches AppState::EditList(prev) ==> list_editor_key_post(
                key,
                *prev,
                *old(self),
                *final(self),
                act,
            ),
            old(self).state matches AppState::CreateList(prev) ==> list_editor_key_post(
                key,
                *prev,
                *old(self),
                *final(self),
                act,
            ),
            old(self).state matches AppState::DeleteList(prev) ==> delete_list_key_post(
                key,
                *prev,
                *old(self),
                *final(self),
                act,
            ),
    {
        let state = self.state.clone();
        match state {
            AppState::ProjectMenu => self.handle_project_menu_events(key, state),
            AppState::EditProject(prev) => self.handle_edit_project_events(key, *prev),
            AppState::CreateProject(prev) => self.handle_create_project_events(key, *prev),
            AppState::DeleteProject(prev) => self.handle_delete_project_events(key, *prev),
            AppState::Tracker => self.handle_tracker_events(key, state),
            AppState::TaskView(prev) => self.handle_task_view_events(key, *prev),
            AppState::BacklogPopup(prev) => self.handle_backlog_popup_events(key, *prev),
            AppState::ArchivePopup(prev) => self.handle_archive_popup_events(key, *prev),
            AppState::EditTask(prev) => self.handle_edit_task_events(key, *prev),
            AppState::CreateTask(prev) => self.handle_create_task_events(key, *prev),
            AppState::DeleteTask(prev) => self.handle_delete_task_events(key, *prev),
            AppState::EditList(prev) => self.handle_edit_list_events(key, *prev),
            AppState::CreateList(prev) => self.handle_create_list_events(key, *prev),
            AppState::DeleteList(prev) => self.handle_delete_list_events(key, *prev),
        }
    }

    fn handle_project_menu_events(&mut self, key: KeyEvent, state: AppState) -> (act: Option<
        IoAction,
    >)
        requires
            old(self).inv(),
            state_ok(old(self).state),
            old(self).state is ProjectMenu,
            state == old(self).state,
        ensures
            final(self).inv(),
            state_ok(final(self).state),
            project_menu_key_post(key, *old(self), *final(self), act),
    {
        match key.code {
            Key::Char(c) => {
                if c == 'q' {
                    self.set_quit(true);
                    None
                } else if c == 'n' {
                    self.clear_project_inputs();
                    self.change_state(AppState::CreateProject(Box::new(state)));
                    None
                } else if c == 'd' {
                    if !self.project_list.is_empty() {
                        self.change_state(AppState::DeleteProject(Box::new(state)));
                    }
                    None
                } else if c == 'e' {
                    if !self.project_list.is_empty() {
                        self.populate_project_detail_inputs();
                        self.change_state(AppState::EditProject(Box::new(state)));
                    }
                    None
                } else if c == 'j' {
                    self.list_down();
                    None
                } else if c == 'k' {
                    self.list_up();
                    None
                } else if c == 'g' {
                    self.jump_to_list_top();
                    None
                } else if c == 'G' {
                    self.jump_to_list_bottom();
                    None
                } else if c == ' ' {
                    self.open_highlighted_project()
                } else {
                    None
                }
            },
            Key::Esc => {
                self.set_quit(true);
                None
            },
            Key::Down => {
                self.list_down();
                None
            },
            Key::Up => {
                self.list_up();
                None
            },
            Key::Home => {
                self.jump_to_list_top();
                None
            },
            Key::End => {
                self.jump_to_list_bottom();
                None
            },
            Key::Enter => self.open_highlighted_project(),
            _ => None,
        }
    }

    /// Makes the highlighted project current and asks the shell to load its
    /// data; a no-op when the menu is empty.
    fn open_highlighted_project(&mut self) -> (act: Option<IoAction>)
        requires
            old(self).inv(),
            state_ok(old(self).state),
        ensures
            final(self).inv(),
            state_ok(final(self).state),
            open_highlighted_project_post(*old(self), *final(self), act),
    {
        if !self.project_list.is_empty() {
            match self.get_highlighted_project() {
                Some(project) => {
                    self.project_title = project.clone();
                    self.change_state(AppState::Tracker);
                    Some(IoAction::LoadProject(project))
                },
                None => None,
            }
        } else {
            None
        }
    }

    fn handle_edit_project_events(&mut self, key: KeyEvent, prev: AppState) -> (act: Option<
        IoAction,
    >)
        requires
            old(self).inv(),
            state_ok(old(self).state),
            old(self).state is EditProject,
            return_state(old(self).state) == Option::Some(prev),
        ensures
            final(self).inv(),
            state_ok(final(self).state),
            project_editor_key_post(key, prev, *old(self), *final(self), act),
            key.code is Esc ==> final(self).state == prev,
            key.code is Enter ==> final(self).state == prev,
    {
        match key.code {
            Key::Char(c) => {
                if c == 'w' && matches!(key.mods, KeyMods::Ctrl) {
                    self.delete_to_prev_space();
                } else {
                    self.add_to_detail_input(c);
                }
                None
            },
            Key::Backspace => {
                self.delete_from_detail_input();
                None
            },
            Key::Delete => {
                self.clear_focused_input();
                None
            },
            Key::Left => {
                match key.mods {
                    KeyMods::Plain => self.input_left(),
                    KeyMods::Ctrl => self.input_jump_to_space_left(),
                    KeyMods::Other => (),
                }
                None
            },
            Key::Right => {
                match key.mods {
                    KeyMods::Plain => self.input_right(),
                    KeyMods::Ctrl => self.input_jump_to_space_right(),
                    KeyMods::Other => (),
                }
                None
            },
            Key::Home => {
                self.input_start();
                None
            },
            Key::End => {
                self.input_end();
                None
            },
            Key::Enter => {
                let act = self.save_to_project();
                self.change_state(prev);
                project_action_to_io(act)
            },
            Key::Esc => {
                self.change_state(prev);
                None
            },
            _ => None,
        }
    }

    fn handle_create_project_events(&mut self, key: KeyEvent, prev: AppState) -> (act: Option<
        IoAction,
    >)
        requires
            old(self).inv(),
            state_ok(old(self).state),
            old(self).state is CreateProject,
            return_state(old(self).state) == Option::Some(prev),
        ensures
            final(self).inv(),
            state_ok(final(self).state),
            project_editor_key_post(key, prev, *old(self), *final(self), act),
            key.code is Esc ==> final(self).state == prev,
            key.code is Enter ==> final(self).state == prev,
    {
        match key.code {
            Key::Char(c) => {
                if c == 'w' && matches!(key.mods, KeyMods::Ctrl) {
                    self.delete_to_prev_space();
                } else {
                    self.add_to_detail_input(c);
                }
                None
            },
            Key::Backspace => {
                self.delete_from_detail_input();
                None
            },
            Key::Delete => {
                self.clear_focused_input();
                None
            },
            Key::Left => {
                match key.mods {
                    KeyMods::Plain => self.input_left(),
                    KeyMods::Ctrl => self.input_jump_to_space_left(),
                    KeyMods::Other => (),
                }
                None
            },
            Key::Right => {
                match key.mods {
                    KeyMods::Plain => self.input_right(),
                    KeyMods::Ctrl => self.input_jump_to_space_right(),
                    KeyMods::Other => (),
                }
                None
            },
            Key::Home => {
                self.input_start();
                None
            },
            Key::End => {
                self.input_end();
                None
            },
            Key::Enter => {
                let act = self.save_to_project();
                self.change_state(prev);
                project_action_to_io(act)
            },
            Key::Esc => {
                self.change_state(prev);
                None
            },
            _ => None,
        }
    }

    fn handle_delete_project_events(&mut self, key: KeyEvent, prev: AppState) -> (act: Option<
        IoAction,
    >)
        requires
            old(self).inv(),
            state_ok(old(self).state),
            return_state(old(self).state) == Option::Some(prev),
        ensures
            final(self).inv(),
            state_ok(final(self).state),
            delete_project_key_post(key, prev, *old(self), *final(self), act),
            key.code is Esc ==> final(self).state == prev,
            key.code is Enter ==> final(self).state == prev,
    {
        match key.code {
            Key::Char(c) => {
                if c == 'y' {
                    let removed = self.delete_focused_project();
                    self.change_state(prev);
                    match removed {
                        Some(name) => Some(IoAction::RemoveDir(name)),
                        None => None,
                    }
                } else if c == 'n' {
                    self.change_state(prev);
                    None
                } else {
                    None
                }
            },
            Key::Enter => {
                let removed = self.delete_focused_project();
                self.change_state(prev);
                match removed {
                    Some(name) => Some(IoAction::RemoveDir(name)),
                    None => None,
                }
            },
            Key::Esc => {
                self.change_state(prev);
                None
            },
            _ => None,
        }
    }

    fn handle_tracker_events(&mut self, key: KeyEvent, state: AppState) -> (act: Option<IoAction>)
        requires
            old(self).inv(),
            state_ok(old(self).state),
            old(self).state is Tracker,
            state == old(self).state,
        ensures
            final(self).inv(),
            state_ok(final(self).state),
            tracker_key_post(key, *old(self), *final(self), act),
    {
        match key.code {
            Key::Char(c) => {
                if c == 'q' {
                    self.set_quit(true);
                    None
                } else if c == 's' {
                    Some(IoAction::Save)
                } else if c == 'n' {
                    self.clear_detail_inputs();
                    self.reset_active_detail_input();
                    self.change_state(AppState::CreateTask(Box::new(state)));
                    None
                } else if c == 'd' {
                    if !self.focused_list_is_empty() {
                        self.change_state(AppState::DeleteTask(Box::new(state)));
                    }
                    None
                } else if c == 'e' {
                    if !self.focused_list_is_empty() {
                        self.populate_task_detail_inputs();
                        self.reset_active_detail_input();
                        self.change_state(AppState::EditTask(Box::new(state)));
                    }
                    None
                } else if c == 'N' {
                    self.clear_list_inputs();
                    self.change_state(AppState::CreateList(Box::new(state)));
                    None
                } else if c == 'D' {
                    self.change_state(AppState::DeleteList(Box::new(state)));
                    None
                } else if c == 'E' {
                    self.populate_list_detail_inputs();
                    self.change_state(AppState::EditList(Box::new(state)));
                    None
                } else if c == 'j' {
                    match key.mods {
                        KeyMods::Plain => self.list_down(),
                        KeyMods::Ctrl => self.task_to_bottom(),
                        KeyMods::Other => (),
                    }
                    None
                } else if c == 'J' {
                    self.task_down();
                    None
                } else if c == 'k' {
                    match key.mods {
                        KeyMods::Plain => self.list_up(),
                        KeyMods::Ctrl => self.task_to_top(),
                        KeyMods::Other => (),
                    }
                    None
                } else if c == 'K' {
                    self.task_up();
                    None
                } else if c == 'h' {
                    self.prev_list();
                    None
                } else if c == 'H' {
                    self.list_left();
                    None
                } else if c == 'l' {
                    self.next_list();
                    None
                } else if c == 'L' {
                    self.list_right();
                    None
                } else if c == 'g' {
                    self.jump_to_list_top();
                    None
                } else if c == 'G' {
                    self.jump_to_list_bottom();
                    None
                } else if c == 'c' {
                    self.cycle_list_color(1);
                    None
                } else if c == 'C' {
                    self.cycle_list_color(-1);
                    None
                } else if c == ' ' {
                    self.move_task_to_next_list();
                    None
                } else if c == 'b' {
                    self.change_state(AppState::BacklogPopup(Box::new(state)));
                    None
                } else if c == 'B' {
                    self.move_task_to_backlog();
                    None
                } else if c == 'a' {
                    self.change_state(AppState::ArchivePopup(Box::new(state)));
                    None
                } else if c == 'A' {
                    self.move_task_to_archive();
                    None
                } else {
                    None
                }
            },
            Key::Esc => {
                self.set_quit(true);
                None
            },
            Key::Down => {
                match key.mods {
                    KeyMods::Plain => self.list_down(),
                    KeyMods::Ctrl => self.task_down(),
                    KeyMods::Other => (),
                }
                None
            },
            Key::Up => {
                match key.mods {
                    KeyMods::Plain => self.list_up(),
                    KeyMods::Ctrl => self.task_up(),
                    KeyMods::Other => (),
                }
                None
            },
            Key::Left => {
                match key.mods {
                    KeyMods::Plain => self.prev_list(),
                    KeyMods::Ctrl => self.list_left(),
                    KeyMods::Other => (),
                }
                None
            },
            Key::Right => {
                match key.mods {
                    KeyMods::Plain => self.next_list(),
                    KeyMods::Ctrl => self.list_right(),
                    KeyMods::Other => (),
                }
                None
            },
            Key::Home => {
                self.jump_to_list_top();
                None
            },
            Key::End => {
                self.jump_to_list_bottom();
                None
            },
            Key::Backspace => {
                self.move_task_to_prev_list();
                None
            },
            Key::Enter => {
                if !self.focused_list_is_empty() {
                    self.change_state(AppState::TaskView(Box::new(state)));
                }
                None
            },
            _ => None,
        }
    }

    fn handle_task_view_events(&mut self, key: KeyEvent, prev: AppState) -> (act: Option<IoAction>)
        requires
            old(self).inv(),
            state_ok(old(self).state),
            return_state(old(self).state) == Option::Some(prev),
        ensures
            final(self).inv(),
            state_ok(final(self).state),
            task_view_key_post(key, prev, *old(self), *final(self), act),
            key.code is Esc ==> final(self).state == prev,
            key.code is Enter ==> final(self).state == prev,
    {
        match key.code {
            Key::Char(c) => {
                if c == 'q' {
                    self.set_quit(true);
                    None
                } else if c == 's' {
                    Some(IoAction::Save)
                } else if c == 'j' {
                    self.scroll_details(1);
                    None
                } else if c == 'k' {
                    self.scroll_details(-1);
                    None
                } else {
                    None
                }
            },
            Key::Down => {
                self.scroll_details(1);
                None
            },
            Key::Up => {
                self.scroll_details(-1);
                None
            },
            Key::Enter => {
                self.reset_scroll();
                self.change_state(prev);
                None
            },
            Key::Esc => {
                self.reset_scroll();
                self.change_state(prev);
                None
            },
            _ => None,
        }
    }

    fn handle_backlog_popup_events(&mut self, key: KeyEvent, prev: AppState) -> (act: Option<
        IoAction,
    >)
        requires
            old(self).inv(),
            old(self).state is BacklogPopup,
            state_ok(old(self).state),
            return_state(old(self).state) == Option::Some(prev),
        ensures
            final(self).inv(),
            state_ok(final(self).state),
            backlog_popup_key_post(key, prev, *old(self), *final(self), act),
            key.code is Esc ==> final(self).state == prev,
    {
        match key.code {
            Key::Char(c) => {
                if c == 'q' {
                    self.set_quit(true);
                    None
                } else if c == 's' {
                    Some(IoAction::Save)
                } else if c == 'n' {
                    self.clear_detail_inputs();
                    self.reset_active_detail_input();
                    self.change_state(
                        AppState::CreateTask(
                            Box::new(AppState::BacklogPopup(Box::new(prev))),
                        ),
                    );
                    None
                } else if c == 'd' {
                    if !self.focused_list_is_empty() {
                        self.change_state(
                            AppState::DeleteTask(
                                Box::new(AppState::BacklogPopup(Box::new(prev))),
                            ),
                        );
                    }
                    None
                } else if c == 'e' {
                    if !self.focused_list_is_empty() {
                        self.populate_task_detail_inputs();
                        self.reset_active_detail_input();
                        self.change_state(
                            AppState::EditTask(
                                Box::new(AppState::BacklogPopup(Box::new(prev))),
                            ),
                        );
                    }
                    None
                } else if c == 'j' {
                    match key.mods {
                        KeyMods::Plain => self.list_down(),
                        KeyMods::Ctrl => self.task_to_bottom(),
                        KeyMods::Other => (),
                    }
                    None
                } else if c == 'J' {
                    self.task_down();
                    None
                } else if c == 'k' {
                    match key.mods {
                        KeyMods::Plain => self.list_up(),
                        KeyMods::Ctrl => self.task_to_top(),
                        KeyMods::Other => (),
                    }
                    None
                } else if c == 'K' {
                    self.task_up();
                    None
                } else if c == 'g' {
                    self.jump_to_list_top();
                    None
                } else if c == 'G' {
                    self.jump_to_list_bottom();
                    None
                } else if c == ' ' {
                    self.move_task_to_list(0);
                    None
                } else if c == 'c' {
                    self.cycle_list_color(1);
                    None
                } else if c == 'C' {
                    self.cycle_list_color(-1);
                    None
                } else if c == 'b' {
                    self.change_state(prev);
                    None
                } else if c == 'a' {
                    self.change_state(AppState::ArchivePopup(Box::new(prev)));
                    None
                } else {
                    None
                }
            },
            Key::Down => {
                match key.mods {
                    KeyMods::Plain => self.list_down(),
                    KeyMods::Ctrl => self.task_down(),
                    KeyMods::Other => (),
                }
                None
            },
            Key::Up => {
                match key.mods {
                    KeyMods::Plain => self.list_up(),
                    KeyMods::Ctrl => self.task_up(),
                    KeyMods::Other => (),
                }
                None
            },
            Key::Home => {
                self.jump_to_list_top();
                None
            },
            Key::End => {
                self.jump_to_list_bottom();
                None
            },
            Key::Esc => {
                self.change_state(prev);
                None
            },
            Key::Enter => {
                if !self.focused_list_is_empty() {
                    self.change_state(
                        AppState::TaskView(Box::new(AppState::BacklogPopup(Box::new(prev)))),
                    );
                }
                None
            },
            _ => None,
        }
    }

    fn handle_archive_popup_events(&mut self, key: KeyEvent, prev: AppState) -> (act: Option<
        IoAction,
    >)
        requires
            old(self).inv(),
            old(self).state is ArchivePopup,
            state_ok(old(self).state),
            return_state(old(self).state) == Option::Some(prev),
        ensures
            final(self).inv(),
            state_ok(final(self).state),
            archive_popup_key_post(key, prev, *old(self), *final(self), act),
            key.code is Esc ==> final(self).state == prev,
    {
        match key.code {
            Key::Char(c) => {
                if c == 'q' {
                    self.set_quit(true);
                    None
                } else if c == 's' {
                    Some(IoAction::Save)
                } else if c == 'd' {
                    if !self.focused_list_is_empty() {
                        self.change_state(
                            AppState::DeleteTask(
                                Box::new(AppState::ArchivePopup(Box::new(prev))),
                            ),
                        );
                    }
                    None
                } else if c == 'j' {
                    match key.mods {
                        KeyMods::Plain => self.list_down(),
                        KeyMods::Ctrl => self.task_to_bottom(),
                        KeyMods::Other => (),
                    }
                    None
                } else if c == 'J' {
                    self.task_down();
                    None
                } else if c == 'k' {
                    match key.mods {
                        KeyMods::Plain => self.list_up(),
                        KeyMods::Ctrl => self.task_to_top(),
                        KeyMods::Other => (),
                    }
                    None
                } else if c == 'K' {
                    self.task_up();
                    None
                } else if c == 'g' {
                    self.jump_to_list_top();
                    None
                } else if c == 'G' {
                    self.jump_to_list_bottom();
                    None
                } else if c == ' ' {
                    let dest_index = self.task_lists.len() - 1;
                    self.move_task_to_list(dest_index);
                    None
                } else if c == 'c' {
                    self.cycle_list_color(1);
                    None
                } else if c == 'C' {
                    self.cycle_list_color(-1);
                    None
                } else if c == 'a' {
                    self.change_state(prev);
                    None
                } else if c == 'b' {
                    self.change_state(AppState::BacklogPopup(Box::new(prev)));
                    None
                } else {
                    None
                }
            },
            Key::Down => {
                match key.mods {
                    KeyMods::Plain => self.list_down(),
                    KeyMods::Ctrl => self.task_down(),
                    KeyMods::Other => (),
                }
                None
            },
            Key::Up => {
                match key.mods {
                    KeyMods::Plain => self.list_up(),
                    KeyMods::Ctrl => self.task_up(),
                    KeyMods::Other => (),
                }
                None
            },
            Key::Home => {
                self.jump_to_list_top();
                None
            },
            Key::End => {
                self.jump_to_list_bottom();
                None
            },
            Key::Esc => {
                self.change_state(prev);
                None
            },
            Key::Enter => {
                if !self.focused_list_is_empty() {
                    self.change_state(
                        AppState::TaskView(Box::new(AppState::ArchivePopup(Box::new(prev)))),
                    );
                }
                None
            },
            _ => None,
        }
    }

    fn handle_edit_task_events(&mut self, key: KeyEvent, prev: AppState) -> (act: Option<IoAction>)
        requires
            old(self).inv(),
            old(self).state is EditTask,
            state_ok(old(self).state),
            return_state(old(self).state) == Option::Some(prev),
        ensures
            final(self).inv(),
            state_ok(final(self).state),
            task_editor_key_post(key, prev, *old(self), *final(self), act),
            key.code is Esc ==> final(self).state == prev,
            key.code is Enter ==> final(self).state == prev,
    {
        match key.code {
            Key::Char(c) => {
                if c == 'w' && matches!(key.mods, KeyMods::Ctrl) {
                    self.delete_to_prev_space();
                } else {
                    self.add_to_detail_input(c);
                }
                None
            },
            Key::Backspace => {
                self.delete_from_detail_input();
                None
            },
            Key::Delete => {
                self.clear_focused_input();
                None
            },
            Key::Left => {
                match key.mods {
                    KeyMods::Plain => self.input_left(),
                    KeyMods::Ctrl => self.input_jump_to_space_left(),
                    KeyMods::Other => (),
                }
                None
            },
            Key::Right => {
                match key.mods {
                    KeyMods::Plain => self.input_right(),
                    KeyMods::Ctrl => self.input_jump_to_space_right(),
                    KeyMods::Other => (),
                }
                None
            },
            Key::Home => {
                self.input_start();
                None
            },
            Key::End => {
                self.input_end();
                None
            },
            Key::Tab => {
                self.next_detail_input();
                None
            },
            Key::BackTab => {
                self.prev_detail_input();
                None
            },
            Key::Down => {
                self.next_detail_input();
                None
            },
            Key::Up => {
                self.prev_detail_input();
                None
            },
            Key::Enter => {
                self.save_details_to_task();
                self.change_state(prev);
                None
            },
            Key::Esc => {
                self.change_state(prev);
                None
            },
            _ => None,
        }
    }

    fn handle_create_task_events(&mut self, key: KeyEvent, prev: AppState) -> (act: Option<
        IoAction,
    >)
        requires
            old(self).inv(),
            old(self).state is CreateTask,
            state_ok(old(self).state),
            return_state(old(self).state) == Option::Some(prev),
        ensures
            final(self).inv(),
            state_ok(final(self).state),
            task_editor_key_post(key, prev, *old(self), *final(self), act),
            key.code is Esc ==> final(self).state == prev,
            key.code is Enter ==> final(self).state == prev,
    {
        match key.code {
            Key::Char(c) => {
                if c == 'w' && matches!(key.mods, KeyMods::Ctrl) {
                    self.delete_to_prev_space();
                } else {
                    self.add_to_detail_input(c);
                }
                None
            },
            Key::Backspace => {
                self.delete_from_detail_input();
                None
            },
            Key::Delete => {
                self.clear_focused_input();
                None
            },
            Key::Left => {
                match key.mods {
                    KeyMods::Plain => self.input_left(),
                    KeyMods::Ctrl => self.input_jump_to_space_left(),
                    KeyMods::Other => (),
                }
                None
            },
            Key::Right => {
                match key.mods {
                    KeyMods::Plain => self.input_right(),
                    KeyMods::Ctrl => self.input_jump_to_space_right(),
                    KeyMods::Other => (),
                }
                None
            },
            Key::Home => {
                self.input_start();
                None
            },
            Key::End => {
                self.input_end();
                None
            },
            Key::Tab => {
                self.next_detail_input();
                None
            },
            Key::BackTab => {
                self.prev_detail_input();
                None
            },
            Key::Down => {
                self.next_detail_input();
                None
            },
            Key::Up => {
                self.prev_detail_input();
                None
            },
            Key::Enter => {
                self.save_details_to_task();
                self.change_state(prev);
                None
            },
            Key::Esc => {
                self.change_state(prev);
                None
            },
            _ => None,
        }
    }

    fn handle_delete_task_events(&mut self, key: KeyEvent, prev: AppState) -> (act: Option<
        IoAction,
    >)
        requires
            old(self).inv(),
            old(self).state is DeleteTask,
            state_ok(old(self).state),
            return_state(old(self).state) == Option::Some(prev),
        ensures
            final(self).inv(),
            state_ok(final(self).state),
            delete_task_key_post(key, prev, *old(self), *final(self), act),
            key.code is Esc ==> final(self).state == prev,
            key.code is Enter ==> final(self).state == prev,
    {
        match key.code {
            Key::Char(c) => {
                if c == 'y' {
                    self.delete_highlighted_task();
                    self.change_state(prev);
                } else if c == 'n' {
                    self.change_state(prev);
                }
                None
            },
            Key::Enter => {
                self.delete_highlighted_task();
                self.change_state(prev);
                None
            },
            Key::Esc => {
                self.change_state(prev);
                None
            },
            _ => None,
        }
    }

    fn handle_edit_list_events(&mut self, key: KeyEvent, prev: AppState) -> (act: Option<IoAction>)
        requires
            old(self).inv(),
            old(self).state is EditList,
            state_ok(old(self).state),
            return_state(old(self).state) == Option::Some(prev),
        ensures
            final(self).inv(),
            state_ok(final(self).state),
            list_editor_key_post(key, prev, *old(self), *final(self), act),
            key.code is Esc ==> final(self).state == prev,
            key.code is Enter ==> final(self).state == prev,
    {
        match key.code {
            Key::Char(c) => {
                if c == 'w' && matches!(key.mods, KeyMods::Ctrl) {
                    self.delete_to_prev_space();
                } else {
                    self.add_to_detail_input(c);
                }
                None
            },
            Key::Backspace => {
                self.delete_from_detail_input();
                None
            },
            Key::Delete => {
                self.clear_focused_input();
                None
            },
            Key::Left => {
                match key.mods {
                    KeyMods::Plain => self.input_left(),
                    KeyMods::Ctrl => self.input_jump_to_space_left(),
                    KeyMods::Other => (),
                }
                None
            },
            Key::Right => {
                match key.mods {
                    KeyMods::Plain => self.input_right(),
                    KeyMods::Ctrl => self.input_jump_to_space_right(),
                    KeyMods::Other => (),
                }
                None
            },
            Key::Home => {
                self.input_start();
                None
            },
            Key::End => {
                self.input_end();
                None
            },
            Key::Enter => {
                self.save_details_to_list();
                self.change_state(prev);
                None
            },
            Key::Esc => {
                self.change_state(prev);
                None
            },
            _ => None,
        }
    }

    fn handle_create_list_events(&mut self, key: KeyEvent, prev: AppState) -> (act: Option<
        IoAction,
    >)
        requires
            old(self).inv(),
            old(self).state is CreateList,
            state_ok(old(self).state),
            return_state(old(self).state) == Option::Some(prev),
        ensures
            final(self).inv(),
            state_ok(final(self).state),
            list_editor_key_post(key, prev, *old(self), *final(self), act),
            key.code is Esc ==> final(self).state == prev,
            key.code is Enter ==> final(self).state == prev,
    {
        match key.code {
            Key::Char(c) => {
                if c == 'w' && matches!(key.mods, KeyMods::Ctrl) {
                    self.delete_to_prev_space();
                } else {
                    self.add_to_detail_input(c);
                }
                None
            },
            Key::Backspace => {
                self.delete_from_detail_input();
                None
            },
            Key::Delete => {
                self.clear_focused_input();
                None
            },
            Key::Left => {
                match key.mods {
                    KeyMods::Plain => self.input_left(),
                    KeyMods::Ctrl => self.input_jump_to_space_left(),
                    KeyMods::Other => (),
                }
                None
            },
            Key::Right => {
                match key.mods {
                    KeyMods::Plain => self.input_right(),
                    KeyMods::Ctrl => self.input_jump_to_space_right(),
                    KeyMods::Other => (),
                }
                None
            },
            Key::Home => {
                self.input_start();
                None
            },
            Key::End => {
                self.input_end();
                None
            },
            Key::Enter => {
                self.save_details_to_list();
                self.change_state(prev);
                None
            },
            Key::Esc => {
                self.change_state(prev);
                None
            },
            _ => None,
        }
    }

    fn handle_delete_list_events(&mut self, key: KeyEvent, prev: AppState) -> (act: Option<
        IoAction,
    >)
        requires
            old(self).inv(),
            old(self).state is DeleteList,
            state_ok(old(self).state),
            return_state(old(self).state) == Option::Some(prev),
        ensures
            final(self).inv(),
            state_ok(final(self).state),
            delete_list_key_post(key, prev, *old(self), *final(self), act),
            key.code is Esc ==> final(self).state == prev,
            key.code is Enter ==> final(self).state == prev,
    {
        match key.code {
            Key::Char(c) => {
                if c == 'y' {
                    self.delete_focused_list();
                    self.change_state(prev);
                } else if c == 'n' {
                    self.change_state(prev);
                }
                None
            },
            Key::Enter => {
                self.delete_focused_list();
                self.change_state(prev);
                None
            },
            Key::Esc => {
                self.change_state(prev);
                None
            },
            _ => None,
        }
    }
}

/// The directory work a committed project edit still needs.
fn project_action_to_io(act: Option<ProjectAction>) -> (io: Option<IoAction>)
    ensures
        act is None ==> io is None,
        (act matches Option::Some(ProjectAction::Rename(f, t)) ==> io == Option::Some(
            IoAction::RenameDir(f, t),
        )),
        (act matches Option::Some(ProjectAction::Create(n)) ==> io == Option::Some(
            IoAction::CreateDir(n),
        )),
{
    match act {
        Some(ProjectAction::Rename(from, to)) => Some(IoAction::RenameDir(from, to)),
        Some(ProjectAction::Create(name)) => Some(IoAction::CreateDir(name)),
        None => None,
    }
}

} // verus!
