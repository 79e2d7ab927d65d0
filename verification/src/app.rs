use vstd::prelude::*;
use vstd::string::StringExecFns;
use crate::collection::SelectableCollection;
use crate::collection::next_index;
use crate::collection::prev_index;
use crate::inputs::Input;
use crate::lists::Task;
use crate::lists::TaskList;
use crate::lists::ProjectList;

verus! {

/// The screen being shown, together with the chain of screens that confirm
/// or cancel return to. Every wrapping variant owns exactly one "return"
/// state, so the value is a push/pop stack of unbounded depth.
pub enum AppState {
    ProjectMenu,
    EditProject(Box<AppState>),
    CreateProject(Box<AppState>),
    DeleteProject(Box<AppState>),
    Tracker,
    TaskView(Box<AppState>),
    BacklogPopup(Box<AppState>),
    ArchivePopup(Box<AppState>),
    EditTask(Box<AppState>),
    CreateTask(Box<AppState>),
    DeleteTask(Box<AppState>),
    EditList(Box<AppState>),
    CreateList(Box<AppState>),
    DeleteList(Box<AppState>),
}

impl Clone for AppState {
    /// Transitions copy the state they leave, so renderers and handlers can
    /// hold the old and the new value at once.
    fn clone(&self) -> (r: Self)
        ensures
            r == *self,
        decreases *self,
    {
        match self {
            AppState::ProjectMenu => AppState::ProjectMenu,
            AppState::EditProject(prev) => AppState::EditProject(Box::new((**prev).clone())),
            AppState::CreateProject(prev) => AppState::CreateProject(Box::new((**prev).clone())),
            AppState::DeleteProject(prev) => AppState::DeleteProject(Box::new((**prev).clone())),
            AppState::Tracker => AppState::Tracker,
            AppState::TaskView(prev) => AppState::TaskView(Box::new((**prev).clone())),
            AppState::BacklogPopup(prev) => AppState::BacklogPopup(Box::new((**prev).clone())),
            AppState::ArchivePopup(prev) => AppState::ArchivePopup(Box::new((**prev).clone())),
            AppState::EditTask(prev) => AppState::EditTask(Box::new((**prev).clone())),
            AppState::CreateTask(prev) => AppState::CreateTask(Box::new((**prev).clone())),
            AppState::DeleteTask(prev) => AppState::DeleteTask(Box::new((**prev).clone())),
            AppState::EditList(prev) => AppState::EditList(Box::new((**prev).clone())),
            AppState::CreateList(prev) => AppState::CreateList(Box::new((**prev).clone())),
            AppState::DeleteList(prev) => AppState::DeleteList(Box::new((**prev).clone())),
        }
    }
}

/// Which of the board's task collections keyboard input currently targets.
#[derive(Clone, Copy, PartialEq, Eq, Structural)]
pub enum Focus {
    Columns,
    Backlog,
    Archive,
}

/// Which editable text field a state's keystrokes land in.
#[derive(Clone, Copy, PartialEq, Eq, Structural)]
pub enum InputTarget {
    Project,
    TaskDetail,
    ListName,
}

/// The collection a navigation state focuses: wrapping states defer to the
/// state they return to, the tracker focuses the active column, the two
/// popups focus their own list, and the project screens focus none.
pub open spec fn focus_of(state: AppState) -> Option<Focus>
    decreases state,
{
    match state {
        AppState::ProjectMenu => Option::None,
        AppState::EditProject(_) => Option::None,
        AppState::CreateProject(_) => Option::None,
        AppState::DeleteProject(_) => Option::None,
        AppState::Tracker => Option::Some(Focus::Columns),
        AppState::BacklogPopup(_) => Option::Some(Focus::Backlog),
        AppState::ArchivePopup(_) => Option::Some(Focus::Archive),
        AppState::TaskView(prev) => focus_of(*prev),
        AppState::EditTask(prev) => focus_of(*prev),
        AppState::CreateTask(prev) => focus_of(*prev),
        AppState::DeleteTask(prev) => focus_of(*prev),
        AppState::EditList(prev) => focus_of(*prev),
        AppState::CreateList(prev) => focus_of(*prev),
        AppState::DeleteList(prev) => focus_of(*prev),
    }
}

/// The text field a state's keystrokes edit, if it has one.
pub open spec fn input_of(state: AppState) -> Option<InputTarget> {
    match state {
        AppState::EditProject(_) => Option::Some(InputTarget::Project),
        AppState::CreateProject(_) => Option::Some(InputTarget::Project),
        AppState::EditTask(_) => Option::Some(InputTarget::TaskDetail),
        AppState::CreateTask(_) => Option::Some(InputTarget::TaskDetail),
        AppState::EditList(_) => Option::Some(InputTarget::ListName),
        AppState::CreateList(_) => Option::Some(InputTarget::ListName),
        _ => Option::None,
    }
}

/// The navigation states the key handlers can actually reach: every wrapper
/// that views, edits or deletes a task or list was entered from a state that
/// focuses some collection.
pub open spec fn state_ok(state: AppState) -> bool
    decreases state,
{
    match state {
        AppState::ProjectMenu => true,
        AppState::Tracker => true,
        AppState::EditProject(prev) => state_ok(*prev),
        AppState::CreateProject(prev) => state_ok(*prev),
        AppState::DeleteProject(prev) => state_ok(*prev),
        AppState::BacklogPopup(prev) => state_ok(*prev),
        AppState::ArchivePopup(prev) => state_ok(*prev),
        AppState::TaskView(prev) => state_ok(*prev) && focus_of(*prev) is Some,
        AppState::EditTask(prev) => state_ok(*prev) && focus_of(*prev) is Some,
        AppState::CreateTask(prev) => state_ok(*prev) && focus_of(*prev) is Some,
        AppState::DeleteTask(prev) => state_ok(*prev) && focus_of(*prev) is Some,
        AppState::EditList(prev) => state_ok(*prev) && focus_of(*prev) is Some,
        AppState::CreateList(prev) => state_ok(*prev) && focus_of(*prev) is Some,
        AppState::DeleteList(prev) => state_ok(*prev) && focus_of(*prev) is Some,
    }
}

/// Walks the return chain of `state` down to the screen that owns a task
/// collection and says which collection that is.
pub fn resolve_focus(state: &AppState) -> (f: Option<Focus>)
    ensures
        f == focus_of(*state),
    decreases *state,
{
    match state {
        AppState::ProjectMenu => None,
        AppState::EditProject(_) => None,
        AppState::CreateProject(_) => None,
        AppState::DeleteProject(_) => None,
        AppState::Tracker => Some(Focus::Columns),
        AppState::BacklogPopup(_) => Some(Focus::Backlog),
        AppState::ArchivePopup(_) => Some(Focus::Archive),
        AppState::TaskView(prev) => resolve_focus(&**prev),
        AppState::EditTask(prev) => resolve_focus(&**prev),
        AppState::CreateTask(prev) => resolve_focus(&**prev),
        AppState::DeleteTask(prev) => resolve_focus(&**prev),
        AppState::EditList(prev) => resolve_focus(&**prev),
        AppState::CreateList(prev) => resolve_focus(&**prev),
        AppState::DeleteList(prev) => resolve_focus(&**prev),
    }
}

/// Which text field the given state edits.
pub fn resolve_input(state: &AppState) -> (t: Option<InputTarget>)
    ensures
        t == input_of(*state),
{
    match state {
        AppState::EditProject(_) => Some(InputTarget::Project),
        AppState::CreateProject(_) => Some(InputTarget::Project),
        AppState::EditTask(_) => Some(InputTarget::TaskDetail),
        AppState::CreateTask(_) => Some(InputTarget::TaskDetail),
        AppState::EditList(_) => Some(InputTarget::ListName),
        AppState::CreateList(_) => Some(InputTarget::ListName),
        _ => None,
    }
}

/// The root aggregate of one tracker session: the tracker columns, backlog,
/// archive, the navigation state, and the text fields the editing screens
/// share.
pub struct App {
    pub project_title: String,
    pub project_list: ProjectList,
    pub project_detail_input: Input,
    pub unsaved_changes: bool,
    pub quit: bool,
    pub state: AppState,
    pub task_lists: Vec<TaskList>,
    pub active_list: usize,
    pub backlog: TaskList,
    pub archive: TaskList,
    pub detail_scroll: u16,
    pub task_detail_inputs: Vec<Input>,
    pub active_detail_input: usize,
    pub list_detail_input: Input,
}

/// The project menu's title and list are unchanged between `a` and `b`.
pub open spec fn same_project_menu(a: App, b: App) -> bool {
    &&& a.project_title == b.project_title
    &&& a.project_list == b.project_list
}

/// All four editable text fields are unchanged between `a` and `b`.
pub open spec fn same_inputs(a: App, b: App) -> bool {
    &&& a.project_detail_input == b.project_detail_input
    &&& a.task_detail_inputs == b.task_detail_inputs
    &&& a.active_detail_input == b.active_detail_input
    &&& a.list_detail_input == b.list_detail_input
}

/// Every editable text field except the focused one is unchanged between
/// `a` and `b`.
pub open spec fn same_inputs_but_focused(a: App, b: App) -> bool {
    &&& b.active_detail_input == a.active_detail_input
    &&& b.task_detail_inputs@.len() == a.task_detail_inputs@.len()
    &&& match input_of(a.state) {
        Option::Some(InputTarget::Project) => {
            &&& b.task_detail_inputs == a.task_detail_inputs
            &&& b.list_detail_input == a.list_detail_input
        },
        Option::Some(InputTarget::TaskDetail) => {
            &&& b.project_detail_input == a.project_detail_input
            &&& b.list_detail_input == a.list_detail_input
            &&& (forall|i: int|
                0 <= i < a.task_detail_inputs@.len() && i != a.active_detail_input
                    ==> #[trigger] b.task_detail_inputs@[i] == a.task_detail_inputs@[i])
        },
        Option::Some(InputTarget::ListName) => {
            &&& b.project_detail_input == a.project_detail_input
            &&& b.task_detail_inputs == a.task_detail_inputs
        },
        Option::None => false,
    }
}

/// The board's collections are unchanged between `a` and `b`.
pub open spec fn same_board(a: App, b: App) -> bool {
    &&& a.task_lists == b.task_lists
    &&& a.active_list == b.active_list
    &&& a.backlog == b.backlog
    &&& a.archive == b.archive
}

/// Navigation state, quit flag and detail scroll are unchanged between `a`
/// and `b`.
pub open spec fn same_nav(a: App, b: App) -> bool {
    &&& a.state == b.state
    &&& a.quit == b.quit
    &&& a.detail_scroll == b.detail_scroll
}

/// Everything on the board except the focused collection's items and
/// selection is unchanged between `a` and `b`.
pub open spec fn same_board_but_focused(a: App, b: App) -> bool {
    &&& b.active_list == a.active_list
    &&& b.task_lists@.len() == a.task_lists@.len()
    &&& match focus_of(a.state) {
        Option::Some(Focus::Columns) => {
            &&& (forall|i: int|
                0 <= i < a.task_lists@.len() && i != a.active_list
                    ==> #[trigger] b.task_lists@[i] == a.task_lists@[i])
            &&& b.task_lists@[a.active_list as int].name == a.task_lists@[
                a.active_list as int
            ].name
            &&& b.task_lists@[a.active_list as int].color_index == a.task_lists@[
                a.active_list as int
            ].color_index
            &&& b.backlog == a.backlog
            &&& b.archive == a.archive
        },
        Option::Some(Focus::Backlog) => {
            &&& b.task_lists == a.task_lists
            &&& b.backlog.name == a.backlog.name
            &&& b.backlog.color_index == a.backlog.color_index
            &&& b.archive == a.archive
        },
        Option::Some(Focus::Archive) => {
            &&& b.task_lists == a.task_lists
            &&& b.backlog == a.backlog
            &&& b.archive.name == a.archive.name
            &&& b.archive.color_index == a.archive.color_index
        },
        Option::None => false,
    }
}

/// The tasks held across all tracker columns.
pub open spec fn total_tasks(lists: Seq<TaskList>) -> int
    decreases lists.len(),
{
    if lists.len() == 0 {
        0
    } else {
        total_tasks(lists.drop_last()) + lists.last().tasks.items@.len()
    }
}

// What each board operation leaves behind, stated as a relation between the
// board before (`pre`) and after (`post`). Each operation's own `ensures`
// names its relation, and the key handlers' contracts reuse them, so one
// statement serves both.

/// Cyclic motion of the active-column index, one to the right.
pub open spec fn next_list_post(pre: App, post: App) -> bool {
    &&& (post == App { active_list: post.active_list, ..pre })
    &&& post.active_list as int == next_index(
        pre.active_list as int,
        pre.task_lists@.len() as int,
    )
}

/// Cyclic motion of the active-column index, one to the left.
pub open spec fn prev_list_post(pre: App, post: App) -> bool {
    &&& (post == App { active_list: post.active_list, ..pre })
    &&& post.active_list as int == prev_index(
        pre.active_list as int,
        pre.task_lists@.len() as int,
    )
}

pub open spec fn scroll_details_post(pre: App, post: App, amount: i16) -> bool {
    &&& (post == App { detail_scroll: post.detail_scroll, ..pre })
    &&& post.detail_scroll as int == {
            let target = pre.detail_scroll as int + amount as int;
            if target < 0 {
                0
            } else if target > 32767 {
                32767
            } else {
                target
            }
        }
}

pub open spec fn list_down_post(pre: App, post: App) -> bool {
    &&& post.quit == pre.quit
    &&& post.detail_scroll == pre.detail_scroll
    &&& post.unsaved_changes == pre.unsaved_changes
    &&& pre.state is ProjectMenu ==> ({
            &&& same_board(pre, post)
            &&& post.project_title == pre.project_title
            &&& same_inputs(pre, post)
            &&& post.project_list.projects.items@ == pre.project_list.projects.items@
            &&& (pre.project_list.projects.items@.len() == 0 ==> post.project_list.projects.selected == pre.project_list.projects.selected)
            &&& (pre.project_list.projects.items@.len() > 0 ==> post.project_list.projects.selected == Option::Some(
                next_index(
                    pre.project_list.projects.selected->Some_0 as int,
                    pre.project_list.projects.items@.len() as int,
                ) as usize,
            ))
        })
    &&& !(pre.state is ProjectMenu) ==> ({
            &&& same_project_menu(pre, post)
            &&& same_inputs(pre, post)
            &&& same_board_but_focused(pre, post)
            &&& post.focused().items@ == pre.focused().items@
            &&& (pre.focused().items@.len() == 0 ==> post.focused().selected
                == pre.focused().selected)
            &&& (pre.focused().items@.len() > 0 ==> post.focused().selected
                == Option::Some(
                next_index(
                    pre.focused().selected->Some_0 as int,
                    pre.focused().items@.len() as int,
                ) as usize,
            ))
        })
}

pub open spec fn list_up_post(pre: App, post: App) -> bool {
    &&& post.quit == pre.quit
    &&& post.detail_scroll == pre.detail_scroll
    &&& post.unsaved_changes == pre.unsaved_changes
    &&& pre.state is ProjectMenu ==> ({
            &&& same_board(pre, post)
            &&& post.project_title == pre.project_title
            &&& same_inputs(pre, post)
            &&& post.project_list.projects.items@ == pre.project_list.projects.items@
            &&& (pre.project_list.projects.items@.len() == 0 ==> post.project_list.projects.selected == pre.project_list.projects.selected)
            &&& (pre.project_list.projects.items@.len() > 0 ==> post.project_list.projects.selected == Option::Some(
                prev_index(
                    pre.project_list.projects.selected->Some_0 as int,
                    pre.project_list.projects.items@.len() as int,
                ) as usize,
            ))
        })
    &&& !(pre.state is ProjectMenu) ==> ({
            &&& same_project_menu(pre, post)
            &&& same_inputs(pre, post)
            &&& same_board_but_focused(pre, post)
            &&& post.focused().items@ == pre.focused().items@
            &&& (pre.focused().items@.len() == 0 ==> post.focused().selected
                == pre.focused().selected)
            &&& (pre.focused().items@.len() > 0 ==> post.focused().selected
                == Option::Some(
                prev_index(
                    pre.focused().selected->Some_0 as int,
                    pre.focused().items@.len() as int,
                ) as usize,
            ))
        })
}

pub open spec fn jump_to_list_top_post(pre: App, post: App) -> bool {
    &&& post.quit == pre.quit
    &&& post.detail_scroll == pre.detail_scroll
    &&& post.unsaved_changes == pre.unsaved_changes
    &&& pre.state is ProjectMenu ==> ({
            &&& same_board(pre, post)
            &&& post.project_title == pre.project_title
            &&& same_inputs(pre, post)
            &&& post.project_list.projects.items@ == pre.project_list.projects.items@
            &&& post.project_list.projects.selected == (if pre.project_list.projects.selected is Some {
                Option::Some(0usize)
            } else {
                pre.project_list.projects.selected
            })
        })
    &&& !(pre.state is ProjectMenu) ==> ({
            &&& same_project_menu(pre, post)
            &&& same_inputs(pre, post)
            &&& same_board_but_focused(pre, post)
            &&& post.focused().items@ == pre.focused().items@
            &&& post.focused().selected == (if pre.focused().selected is Some {
                Option::Some(0usize)
            } else {
                pre.focused().selected
            })
        })
}

pub open spec fn jump_to_list_bottom_post(pre: App, post: App) -> bool {
    &&& post.quit == pre.quit
    &&& post.detail_scroll == pre.detail_scroll
    &&& post.unsaved_changes == pre.unsaved_changes
    &&& pre.state is ProjectMenu ==> ({
            &&& same_board(pre, post)
            &&& post.project_title == pre.project_title
            &&& same_inputs(pre, post)
            &&& post.project_list.projects.items@ == pre.project_list.projects.items@
            &&& post.project_list.projects.selected == (if pre.project_list.projects.selected is Some {
                Option::Some((pre.project_list.projects.items@.len() - 1) as usize)
            } else {
                pre.project_list.projects.selected
            })
        })
    &&& !(pre.state is ProjectMenu) ==> ({
            &&& same_project_menu(pre, post)
            &&& same_inputs(pre, post)
            &&& same_board_but_focused(pre, post)
            &&& post.focused().items@ == pre.focused().items@
            &&& post.focused().selected == (if pre.focused().selected is Some {
                Option::Some((pre.focused().items@.len() - 1) as usize)
            } else {
                pre.focused().selected
            })
        })
}

pub open spec fn task_up_post(pre: App, post: App) -> bool {
    &&& post.quit == pre.quit
    &&& post.detail_scroll == pre.detail_scroll
    &&& same_project_menu(pre, post)
    &&& same_inputs(pre, post)
    &&& same_board_but_focused(pre, post)
    &&& (pre.focused().selected is Some && pre.focused().selected->Some_0 > 0)
            ==> ({
            let c = pre.focused();
            let i = c.selected->Some_0 as int;
            &&& post.focused().items@ == c.items@.update(i, c.items@[i - 1]).update(
                i - 1,
                c.items@[i],
            )
            &&& post.focused().selected == Option::Some((i - 1) as usize)
            &&& post.unsaved_changes
        })
    &&& !(pre.focused().selected is Some && pre.focused().selected->Some_0 > 0)
            ==> post.focused() == pre.focused() && post.unsaved_changes
            == pre.unsaved_changes
}

pub open spec fn task_down_post(pre: App, post: App) -> bool {
    &&& post.quit == pre.quit
    &&& post.detail_scroll == pre.detail_scroll
    &&& same_project_menu(pre, post)
    &&& same_inputs(pre, post)
    &&& same_board_but_focused(pre, post)
    &&& pre.focused().selected is Some ==> ({
            let c = pre.focused();
            let i = c.selected->Some_0 as int;
            let j = if i + 1 >= c.items@.len() {
                c.items@.len() - 1
            } else {
                i + 1
            };
            &&& post.focused().items@ == c.items@.update(i, c.items@[j]).update(
                j,
                c.items@[i],
            )
            &&& post.focused().selected == Option::Some(j as usize)
            &&& post.unsaved_changes
        })
    &&& pre.focused().selected is None ==> post.focused() == pre.focused()
            && post.unsaved_changes == pre.unsaved_changes
}

pub open spec fn task_to_bottom_post(pre: App, post: App) -> bool {
    &&& post.quit == pre.quit
    &&& post.detail_scroll == pre.detail_scroll
    &&& same_project_menu(pre, post)
    &&& same_inputs(pre, post)
    &&& same_board_but_focused(pre, post)
    &&& pre.focused().selected is Some ==> ({
            let c = pre.focused();
            let i = c.selected->Some_0 as int;
            &&& post.focused().items@ == c.items@.remove(i).push(c.items@[i])
            &&& post.focused().selected == Option::Some((c.items@.len() - 1) as usize)
            &&& post.unsaved_changes
        })
    &&& pre.focused().selected is None ==> post.focused() == pre.focused()
            && post.unsaved_changes == pre.unsaved_changes
}

pub open spec fn task_to_top_post(pre: App, post: App) -> bool {
    &&& post.quit == pre.quit
    &&& post.detail_scroll == pre.detail_scroll
    &&& same_project_menu(pre, post)
    &&& same_inputs(pre, post)
    &&& same_board_but_focused(pre, post)
    &&& pre.focused().selected is Some ==> ({
            let c = pre.focused();
            let i = c.selected->Some_0 as int;
            &&& post.focused().items@ == c.items@.remove(i).insert(0, c.items@[i])
            &&& post.focused().selected == Option::Some(0usize)
            &&& post.unsaved_changes
        })
    &&& pre.focused().selected is None ==> post.focused() == pre.focused()
            && post.unsaved_changes == pre.unsaved_changes
}

pub open spec fn list_left_post(pre: App, post: App) -> bool {
    &&& post.quit == pre.quit
    &&& post.detail_scroll == pre.detail_scroll
    &&& same_project_menu(pre, post)
    &&& same_inputs(pre, post)
    &&& post.backlog == pre.backlog
    &&& post.archive == pre.archive
    &&& pre.active_list == 0 ==> post.task_lists == pre.task_lists
            && post.active_list == 0 && post.unsaved_changes == pre.unsaved_changes
    &&& pre.active_list > 0 ==> ({
            let a = pre.active_list as int;
            &&& post.task_lists@ == pre.task_lists@.update(
                a,
                pre.task_lists@[a - 1],
            ).update(a - 1, pre.task_lists@[a])
            &&& post.active_list == pre.active_list - 1
            &&& post.unsaved_changes
        })
}

pub open spec fn list_right_post(pre: App, post: App) -> bool {
    &&& post.quit == pre.quit
    &&& post.detail_scroll == pre.detail_scroll
    &&& same_project_menu(pre, post)
    &&& same_inputs(pre, post)
    &&& post.backlog == pre.backlog
    &&& post.archive == pre.archive
    &&& pre.active_list + 1 >= pre.task_lists@.len() ==> post.task_lists
            == pre.task_lists && post.active_list == pre.active_list
            && post.unsaved_changes == pre.unsaved_changes
    &&& pre.active_list + 1 < pre.task_lists@.len() ==> ({
            let a = pre.active_list as int;
            &&& post.task_lists@ == pre.task_lists@.update(
                a,
                pre.task_lists@[a + 1],
            ).update(a + 1, pre.task_lists@[a])
            &&& post.active_list == pre.active_list + 1
            &&& post.unsaved_changes
        })
}

pub open spec fn cycle_list_color_post(pre: App, post: App, amount: i8) -> bool {
    &&& post.quit == pre.quit
    &&& post.detail_scroll == pre.detail_scroll
    &&& same_project_menu(pre, post)
    &&& same_inputs(pre, post)
    &&& post.unsaved_changes
    &&& post.active_list == pre.active_list
    &&& post.task_lists@.len() == pre.task_lists@.len()
    &&& match focus_of(pre.state) {
            Option::Some(Focus::Columns) => {
                let a = pre.active_list as int;
                &&& (forall|j: int|
                    0 <= j < pre.task_lists@.len() && j != a
                        ==> #[trigger] post.task_lists@[j] == pre.task_lists@[j])
                &&& post.task_lists@[a].name == pre.task_lists@[a].name
                &&& post.task_lists@[a].tasks == pre.task_lists@[a].tasks
                &&& post.task_lists@[a].color_index as int == cycle_color(
                    pre.task_lists@[a].color_index as int,
                    amount as int,
                )
                &&& post.backlog == pre.backlog
                &&& post.archive == pre.archive
            },
            Option::Some(Focus::Backlog) => {
                &&& post.task_lists == pre.task_lists
                &&& post.backlog.name == pre.backlog.name
                &&& post.backlog.tasks == pre.backlog.tasks
                &&& post.backlog.color_index as int == cycle_color(
                    pre.backlog.color_index as int,
                    amount as int,
                )
                &&& post.archive == pre.archive
            },
            Option::Some(Focus::Archive) => {
                &&& post.task_lists == pre.task_lists
                &&& post.backlog == pre.backlog
                &&& post.archive.name == pre.archive.name
                &&& post.archive.tasks == pre.archive.tasks
                &&& post.archive.color_index as int == cycle_color(
                    pre.archive.color_index as int,
                    amount as int,
                )
            },
            Option::None => false,
        }
}

pub open spec fn move_task_to_next_list_post(pre: App, post: App) -> bool {
    &&& post.quit == pre.quit
    &&& post.detail_scroll == pre.detail_scroll
    &&& same_project_menu(pre, post)
    &&& same_inputs(pre, post)
    &&& post.backlog == pre.backlog
    &&& post.archive == pre.archive
    &&& post.task_lists@.len() == pre.task_lists@.len()
    &&& (pre.active_list + 1 == pre.task_lists@.len() || pre.task_lists@[
            pre.active_list as int
        ].tasks.selected is None) ==> (post.task_lists == pre.task_lists && post.active_list == pre.active_list && post.unsaved_changes == pre.unsaved_changes)
    &&& (pre.active_list + 1 < pre.task_lists@.len() && pre.task_lists@[
            pre.active_list as int
        ].tasks.selected is Some) ==> ({
            let a = pre.active_list as int;
            let src = pre.task_lists@[a].tasks;
            let dst = pre.task_lists@[a + 1].tasks;
            let i = src.selected->Some_0 as int;
            &&& post.active_list == pre.active_list + 1
            &&& (forall|j: int|
                0 <= j < pre.task_lists@.len() && j != a && j != a + 1
                    ==> #[trigger] post.task_lists@[j] == pre.task_lists@[j])
            &&& post.task_lists@[a].name == pre.task_lists@[a].name
            &&& post.task_lists@[a].color_index == pre.task_lists@[a].color_index
            &&& post.task_lists@[a].tasks.items@ == src.items@.remove(i)
            &&& post.task_lists@[a].tasks.selected == crate::collection::sel_after_remove(
                src.selected,
                src.items@.len() as int,
            )
            &&& post.task_lists@[a + 1].name == pre.task_lists@[a + 1].name
            &&& post.task_lists@[a + 1].color_index == pre.task_lists@[
                a + 1
            ].color_index
            &&& post.task_lists@[a + 1].tasks.items@ == dst.items@.push(src.items@[i])
            &&& post.task_lists@[a + 1].tasks.selected == Option::Some(
                dst.items@.len() as usize,
            )
            &&& post.unsaved_changes
        })
}

pub open spec fn move_task_to_prev_list_post(pre: App, post: App) -> bool {
    &&& post.quit == pre.quit
    &&& post.detail_scroll == pre.detail_scroll
    &&& same_project_menu(pre, post)
    &&& same_inputs(pre, post)
    &&& post.backlog == pre.backlog
    &&& post.archive == pre.archive
    &&& post.task_lists@.len() == pre.task_lists@.len()
    &&& (pre.active_list == 0 || pre.task_lists@[
            pre.active_list as int
        ].tasks.selected is None) ==> (post.task_lists == pre.task_lists && post.active_list == pre.active_list && post.unsaved_changes == pre.unsaved_changes)
    &&& (pre.active_list > 0 && pre.task_lists@[
            pre.active_list as int
        ].tasks.selected is Some) ==> ({
            let a = pre.active_list as int;
            let src = pre.task_lists@[a].tasks;
            let dst = pre.task_lists@[a - 1].tasks;
            let i = src.selected->Some_0 as int;
            &&& post.active_list == pre.active_list - 1
            &&& (forall|j: int|
                0 <= j < pre.task_lists@.len() && j != a && j != a - 1
                    ==> #[trigger] post.task_lists@[j] == pre.task_lists@[j])
            &&& post.task_lists@[a].name == pre.task_lists@[a].name
            &&& post.task_lists@[a].color_index == pre.task_lists@[a].color_index
            &&& post.task_lists@[a].tasks.items@ == src.items@.remove(i)
            &&& post.task_lists@[a].tasks.selected == crate::collection::sel_after_remove(
                src.selected,
                src.items@.len() as int,
            )
            &&& post.task_lists@[a - 1].name == pre.task_lists@[a - 1].name
            &&& post.task_lists@[a - 1].color_index == pre.task_lists@[
                a - 1
            ].color_index
            &&& post.task_lists@[a - 1].tasks.items@ == dst.items@.push(src.items@[i])
            &&& post.task_lists@[a - 1].tasks.selected == Option::Some(
                dst.items@.len() as usize,
            )
            &&& post.unsaved_changes
        })
}

pub open spec fn move_task_to_list_post(pre: App, post: App, index: usize) -> bool {
    &&& post.quit == pre.quit
    &&& post.detail_scroll == pre.detail_scroll
    &&& same_project_menu(pre, post)
    &&& same_inputs(pre, post)
    &&& post.active_list == pre.active_list
    &&& post.task_lists@.len() == pre.task_lists@.len()
    &&& (index >= pre.task_lists@.len() || pre.focused().selected is None) ==> (
        post.task_lists == pre.task_lists && post.backlog == pre.backlog && post.archive == pre.archive && post.unsaved_changes
            == pre.unsaved_changes)
    &&& (index < pre.task_lists@.len() && pre.focused().selected is Some
            && focus_of(pre.state) == Option::Some(Focus::Columns) && index == pre.active_list) ==> ({
            let src = pre.focused();
            let i = src.selected->Some_0 as int;
            &&& post.focused().items@ == src.items@.remove(i).push(src.items@[i])
            &&& post.focused().selected == (if src.items@.len() == 1 {
                Option::Some(0usize)
            } else {
                crate::collection::sel_after_remove(src.selected, src.items@.len() as int)
            })
            &&& (forall|j: int|
                0 <= j < pre.task_lists@.len() && j != index ==> #[trigger] post.task_lists@[j] == pre.task_lists@[j])
            &&& post.task_lists@[index as int].name == pre.task_lists@[
                index as int
            ].name
            &&& post.task_lists@[index as int].color_index == pre.task_lists@[
                index as int
            ].color_index
            &&& post.backlog == pre.backlog
            &&& post.archive == pre.archive
            &&& post.unsaved_changes
        })
    &&& (index < pre.task_lists@.len() && pre.focused().selected is Some
            && !(focus_of(pre.state) == Option::Some(Focus::Columns) && index == pre.active_list)) ==> ({
            let src = pre.focused();
            let i = src.selected->Some_0 as int;
            let dst = pre.task_lists@[index as int].tasks;
            &&& post.focused().items@ == src.items@.remove(i)
            &&& post.focused().selected == crate::collection::sel_after_remove(
                src.selected,
                src.items@.len() as int,
            )
            &&& post.task_lists@[index as int].name == pre.task_lists@[
                index as int
            ].name
            &&& post.task_lists@[index as int].color_index == pre.task_lists@[
                index as int
            ].color_index
            &&& post.task_lists@[index as int].tasks.items@ == dst.items@.push(
                src.items@[i],
            )
            &&& post.task_lists@[index as int].tasks.selected == (if dst.items@.len()
                == 0 {
                Option::Some(0usize)
            } else {
                dst.selected
            })
            &&& (forall|j: int|
                0 <= j < pre.task_lists@.len() && j != index
                    && (focus_of(pre.state) != Option::Some(Focus::Columns) || j != pre.active_list) ==> #[trigger] post.task_lists@[j] == pre.task_lists@[j])
            &&& (focus_of(pre.state) == Option::Some(Focus::Backlog) ==> post.archive == pre.archive)
            &&& (focus_of(pre.state) == Option::Some(Focus::Archive) ==> post.backlog == pre.backlog)
            &&& (focus_of(pre.state) == Option::Some(Focus::Columns) ==> post.backlog == pre.backlog && post.archive == pre.archive && post.task_lists@[pre.active_list as int].name == pre.task_lists@[
                pre.active_list as int
            ].name && post.task_lists@[pre.active_list as int].color_index == pre.task_lists@[pre.active_list as int].color_index)
            &&& post.unsaved_changes
        })
}

pub open spec fn move_task_to_backlog_post(pre: App, post: App) -> bool {
    &&& post.quit == pre.quit
    &&& post.detail_scroll == pre.detail_scroll
    &&& same_project_menu(pre, post)
    &&& same_inputs(pre, post)
    &&& post.active_list == pre.active_list
    &&& post.archive == pre.archive
    &&& post.task_lists@.len() == pre.task_lists@.len()
    &&& pre.task_lists@[pre.active_list as int].tasks.selected is None ==> (post.task_lists == pre.task_lists && post.backlog == pre.backlog
            && post.unsaved_changes == pre.unsaved_changes)
    &&& pre.task_lists@[pre.active_list as int].tasks.selected is Some ==> ({
            let a = pre.active_list as int;
            let src = pre.task_lists@[a].tasks;
            let i = src.selected->Some_0 as int;
            &&& (forall|j: int|
                0 <= j < pre.task_lists@.len() && j != a ==> #[trigger] post.task_lists@[j] == pre.task_lists@[j])
            &&& post.task_lists@[a].name == pre.task_lists@[a].name
            &&& post.task_lists@[a].color_index == pre.task_lists@[a].color_index
            &&& post.task_lists@[a].tasks.items@ == src.items@.remove(i)
            &&& post.task_lists@[a].tasks.selected == crate::collection::sel_after_remove(
                src.selected,
                src.items@.len() as int,
            )
            &&& post.backlog.name == pre.backlog.name
            &&& post.backlog.color_index == pre.backlog.color_index
            &&& post.backlog.tasks.items@ == pre.backlog.tasks.items@.push(
                src.items@[i],
            )
            &&& post.backlog.tasks.selected == (if pre.backlog.tasks.items@.len()
                == 0 {
                Option::Some(0usize)
            } else {
                pre.backlog.tasks.selected
            })
            &&& post.unsaved_changes
        })
}

pub open spec fn move_task_to_archive_post(pre: App, post: App) -> bool {
    &&& post.quit == pre.quit
    &&& post.detail_scroll == pre.detail_scroll
    &&& same_project_menu(pre, post)
    &&& same_inputs(pre, post)
    &&& post.active_list == pre.active_list
    &&& post.backlog == pre.backlog
    &&& post.task_lists@.len() == pre.task_lists@.len()
    &&& pre.task_lists@[pre.active_list as int].tasks.selected is None ==> (post.task_lists == pre.task_lists && post.archive == pre.archive
            && post.unsaved_changes == pre.unsaved_changes)
    &&& pre.task_lists@[pre.active_list as int].tasks.selected is Some ==> ({
            let a = pre.active_list as int;
            let src = pre.task_lists@[a].tasks;
            let i = src.selected->Some_0 as int;
            &&& (forall|j: int|
                0 <= j < pre.task_lists@.len() && j != a ==> #[trigger] post.task_lists@[j] == pre.task_lists@[j])
            &&& post.task_lists@[a].name == pre.task_lists@[a].name
            &&& post.task_lists@[a].color_index == pre.task_lists@[a].color_index
            &&& post.task_lists@[a].tasks.items@ == src.items@.remove(i)
            &&& post.task_lists@[a].tasks.selected == crate::collection::sel_after_remove(
                src.selected,
                src.items@.len() as int,
            )
            &&& post.archive.name == pre.archive.name
            &&& post.archive.color_index == pre.archive.color_index
            &&& post.archive.tasks.items@ == pre.archive.tasks.items@.push(
                src.items@[i],
            )
            &&& post.archive.tasks.selected == (if pre.archive.tasks.items@.len()
                == 0 {
                Option::Some(0usize)
            } else {
                pre.archive.tasks.selected
            })
            &&& post.unsaved_changes
        })
}

pub open spec fn delete_highlighted_task_post(pre: App, post: App) -> bool {
    &&& post.quit == pre.quit
    &&& post.detail_scroll == pre.detail_scroll
    &&& same_project_menu(pre, post)
    &&& same_inputs(pre, post)
    &&& !(pre.state is DeleteTask) ==> (same_board(pre, post) && post.unsaved_changes == pre.unsaved_changes)
    &&& pre.state is DeleteTask ==> same_board_but_focused(pre, post)
    &&& (pre.state is DeleteTask && pre.focused().selected is None) ==> (post.focused() == pre.focused() && post.unsaved_changes == pre.unsaved_changes)
    &&& (pre.state is DeleteTask && pre.focused().selected is Some) ==> ({
            let c = pre.focused();
            let i = c.selected->Some_0 as int;
            &&& post.focused().items@ == c.items@.remove(i)
            &&& post.focused().selected == crate::collection::sel_after_remove(
                c.selected,
                c.items@.len() as int,
            )
            &&& post.unsaved_changes
        })
}

pub open spec fn delete_focused_list_post(pre: App, post: App) -> bool {
    &&& post.quit == pre.quit
    &&& post.detail_scroll == pre.detail_scroll
    &&& same_project_menu(pre, post)
    &&& same_inputs(pre, post)
    &&& post.backlog == pre.backlog
    &&& post.archive == pre.archive
    &&& post.unsaved_changes
    &&& pre.task_lists@.len() == 1 ==> ({
            &&& post.task_lists@.len() == 1
            &&& post.task_lists@[0].name@ == "Tasks"@
            &&& post.task_lists@[0].color_index == 7
            &&& post.task_lists@[0].tasks.items@.len() == 0
            &&& post.active_list == 0
        })
    &&& pre.task_lists@.len() > 1 ==> ({
            &&& post.task_lists@ == pre.task_lists@.remove(
                pre.active_list as int,
            )
            &&& post.active_list as int == (if pre.active_list
                >= pre.task_lists@.len() - 1 {
                pre.active_list - 1
            } else {
                pre.active_list as int
            })
        })
}

pub open spec fn add_to_detail_input_post(pre: App, post: App, c: char) -> bool {
    &&& post.quit == pre.quit
    &&& post.detail_scroll == pre.detail_scroll
    &&& same_project_menu(pre, post)
    &&& same_board(pre, post)
    &&& post.unsaved_changes == pre.unsaved_changes
    &&& same_inputs_but_focused(pre, post)
    &&& post.focused_input().name == pre.focused_input().name
    &&& ({
            let f0 = pre.focused_input();
            let f1 = post.focused_input();
            if f0.pos == 0 && c == ' ' {
                f1.text == f0.text && f1.pos == f0.pos
            } else {
                f1.text@ == f0.text@.insert(f0.pos as int, c) && f1.pos == f0.pos + 1
            }
        })
}

pub open spec fn delete_from_detail_input_post(pre: App, post: App) -> bool {
    &&& post.quit == pre.quit
    &&& post.detail_scroll == pre.detail_scroll
    &&& same_project_menu(pre, post)
    &&& same_board(pre, post)
    &&& post.unsaved_changes == pre.unsaved_changes
    &&& same_inputs_but_focused(pre, post)
    &&& post.focused_input().name == pre.focused_input().name
    &&& ({
            let f0 = pre.focused_input();
            let f1 = post.focused_input();
            if f0.pos == 0 {
                f1.text == f0.text && f1.pos == 0
            } else {
                f1.text@ == f0.text@.remove(f0.pos - 1) && f1.pos == f0.pos - 1
            }
        })
}

pub open spec fn clear_focused_input_post(pre: App, post: App) -> bool {
    &&& post.quit == pre.quit
    &&& post.detail_scroll == pre.detail_scroll
    &&& same_project_menu(pre, post)
    &&& same_board(pre, post)
    &&& post.unsaved_changes == pre.unsaved_changes
    &&& same_inputs_but_focused(pre, post)
    &&& post.focused_input().name == pre.focused_input().name
    &&& post.focused_input().text@.len() == 0
    &&& post.focused_input().pos == 0
}

pub open spec fn input_left_post(pre: App, post: App) -> bool {
    &&& post.quit == pre.quit
    &&& post.detail_scroll == pre.detail_scroll
    &&& same_project_menu(pre, post)
    &&& same_board(pre, post)
    &&& post.unsaved_changes == pre.unsaved_changes
    &&& same_inputs_but_focused(pre, post)
    &&& post.focused_input().name == pre.focused_input().name
    &&& post.focused_input().text == pre.focused_input().text
    &&& post.focused_input().pos == (if pre.focused_input().pos > 0 {
            (pre.focused_input().pos - 1) as usize
        } else {
            0usize
        })
}

pub open spec fn input_right_post(pre: App, post: App) -> bool {
    &&& post.quit == pre.quit
    &&& post.detail_scroll == pre.detail_scroll
    &&& same_project_menu(pre, post)
    &&& same_board(pre, post)
    &&& post.unsaved_changes == pre.unsaved_changes
    &&& same_inputs_but_focused(pre, post)
    &&& post.focused_input().name == pre.focused_input().name
    &&& post.focused_input().text == pre.focused_input().text
    &&& post.focused_input().pos == (if pre.focused_input().pos < pre.focused_input().text@.len() {
            (pre.focused_input().pos + 1) as usize
        } else {
            pre.focused_input().pos
        })
}

pub open spec fn input_start_post(pre: App, post: App) -> bool {
    &&& post.quit == pre.quit
    &&& post.detail_scroll == pre.detail_scroll
    &&& same_project_menu(pre, post)
    &&& same_board(pre, post)
    &&& post.unsaved_changes == pre.unsaved_changes
    &&& same_inputs_but_focused(pre, post)
    &&& post.focused_input().name == pre.focused_input().name
    &&& post.focused_input().text == pre.focused_input().text
    &&& post.focused_input().pos == 0
}

pub open spec fn input_end_post(pre: App, post: App) -> bool {
    &&& post.quit == pre.quit
    &&& post.detail_scroll == pre.detail_scroll
    &&& same_project_menu(pre, post)
    &&& same_board(pre, post)
    &&& post.unsaved_changes == pre.unsaved_changes
    &&& same_inputs_but_focused(pre, post)
    &&& post.focused_input().name == pre.focused_input().name
    &&& post.focused_input().text == pre.focused_input().text
    &&& post.focused_input().pos == pre.focused_input().text@.len()
}

pub open spec fn input_jump_to_space_left_post(pre: App, post: App) -> bool {
    &&& post.quit == pre.quit
    &&& post.detail_scroll == pre.detail_scroll
    &&& same_project_menu(pre, post)
    &&& same_board(pre, post)
    &&& post.unsaved_changes == pre.unsaved_changes
    &&& same_inputs_but_focused(pre, post)
    &&& post.focused_input().name == pre.focused_input().name
    &&& post.focused_input().text == pre.focused_input().text
    &&& post.focused_input().pos == crate::inputs::prev_space_pos(
            pre.focused_input().text@,
            pre.focused_input().pos as int,
        )
}

pub open spec fn input_jump_to_space_right_post(pre: App, post: App) -> bool {
    &&& post.quit == pre.quit
    &&& post.detail_scroll == pre.detail_scroll
    &&& same_project_menu(pre, post)
    &&& same_board(pre, post)
    &&& post.unsaved_changes == pre.unsaved_changes
    &&& same_inputs_but_focused(pre, post)
    &&& post.focused_input().name == pre.focused_input().name
    &&& post.focused_input().text == pre.focused_input().text
    &&& post.focused_input().pos == crate::inputs::next_space_pos(
            pre.focused_input().text@,
            if pre.focused_input().pos + 1 <= pre.focused_input().text@.len() {
                pre.focused_input().pos + 1
            } else {
                pre.focused_input().text@.len() as int
            },
        )
}

pub open spec fn input_delete_to_left_space_post(pre: App, post: App) -> bool {
    &&& post.quit == pre.quit
    &&& post.detail_scroll == pre.detail_scroll
    &&& same_project_menu(pre, post)
    &&& same_board(pre, post)
    &&& post.unsaved_changes == pre.unsaved_changes
    &&& same_inputs_but_focused(pre, post)
    &&& post.focused_input().name == pre.focused_input().name
    &&& ({
            let f0 = pre.focused_input();
            let f1 = post.focused_input();
            let p = crate::inputs::prev_space_pos(f0.text@, f0.pos as int);
            f1.pos == p && f1.text@ == f0.text@.subrange(0, p) + f0.text@.subrange(
                f0.pos as int,
                f0.text@.len() as int,
            )
        })
}

pub open spec fn next_detail_input_post(pre: App, post: App) -> bool {
    &&& (post == App {
            active_detail_input: post.active_detail_input,
            ..pre
        })
    &&& post.active_detail_input as int == next_index(
            pre.active_detail_input as int,
            pre.task_detail_inputs@.len() as int,
        )
}

pub open spec fn prev_detail_input_post(pre: App, post: App) -> bool {
    &&& (post == App {
            active_detail_input: post.active_detail_input,
            ..pre
        })
    &&& post.active_detail_input as int == prev_index(
            pre.active_detail_input as int,
            pre.task_detail_inputs@.len() as int,
        )
}

pub open spec fn populate_task_detail_inputs_post(pre: App, post: App) -> bool {
    &&& post.quit == pre.quit
    &&& post.detail_scroll == pre.detail_scroll
    &&& same_project_menu(pre, post)
    &&& same_board(pre, post)
    &&& post.unsaved_changes == pre.unsaved_changes
    &&& post.project_detail_input == pre.project_detail_input
    &&& post.list_detail_input == pre.list_detail_input
    &&& post.task_detail_inputs@.len() == pre.task_detail_inputs@.len()
    &&& pre.focused().selected is None ==> post.task_detail_inputs == pre.task_detail_inputs
    &&& pre.focused().selected is Some ==> ({
            let task = pre.focused().items@[pre.focused().selected->Some_0 as int];
            let desc = match task.description {
                Option::Some(d) => d@,
                Option::None => Seq::<char>::empty(),
            };
            let cat = match task.category {
                Option::Some(c) => c@,
                Option::None => Seq::<char>::empty(),
            };
            &&& post.task_detail_inputs@[0].text@ == task.summary@
            &&& post.task_detail_inputs@[0].pos == task.summary@.len()
            &&& post.task_detail_inputs@[0].name@ == "Summary"@
            &&& post.task_detail_inputs@[1].text@ == desc
            &&& post.task_detail_inputs@[1].pos == desc.len()
            &&& post.task_detail_inputs@[1].name@ == "Description"@
            &&& post.task_detail_inputs@[2].text@ == cat
            &&& post.task_detail_inputs@[2].pos == cat.len()
            &&& post.task_detail_inputs@[2].name@ == "Category"@
        })
}

pub open spec fn populate_list_detail_inputs_post(pre: App, post: App) -> bool {
    &&& post.quit == pre.quit
    &&& post.detail_scroll == pre.detail_scroll
    &&& same_project_menu(pre, post)
    &&& same_board(pre, post)
    &&& post.unsaved_changes == pre.unsaved_changes
    &&& post.project_detail_input == pre.project_detail_input
    &&& post.task_detail_inputs == pre.task_detail_inputs
    &&& post.active_detail_input == pre.active_detail_input
    &&& ({
            let list_name = match focus_of(pre.state) {
                Option::Some(Focus::Columns) => pre.task_lists@[
                    pre.active_list as int
                ].name,
                Option::Some(Focus::Backlog) => pre.backlog.name,
                Option::Some(Focus::Archive) => pre.archive.name,
                Option::None => arbitrary(),
            };
            &&& post.list_detail_input.text@ == list_name@
            &&& post.list_detail_input.pos == list_name@.len()
            &&& post.list_detail_input.name@ == "List Name"@
        })
}

pub open spec fn populate_project_detail_inputs_post(pre: App, post: App) -> bool {
    &&& post.quit == pre.quit
    &&& post.detail_scroll == pre.detail_scroll
    &&& same_project_menu(pre, post)
    &&& same_board(pre, post)
    &&& post.unsaved_changes == pre.unsaved_changes
    &&& post.task_detail_inputs == pre.task_detail_inputs
    &&& post.active_detail_input == pre.active_detail_input
    &&& post.list_detail_input == pre.list_detail_input
    &&& pre.project_list.projects.selected is None ==> post.project_detail_input
            == pre.project_detail_input
    &&& pre.project_list.projects.selected is Some ==> ({
            let name = pre.project_list.projects.items@[
                pre.project_list.projects.selected->Some_0 as int
            ];
            &&& post.project_detail_input.text@ == name@
            &&& post.project_detail_input.pos == name@.len()
            &&& post.project_detail_input.name@ == "Project Name"@
        })
}

pub open spec fn save_details_to_task_post(pre: App, post: App) -> bool {
    &&& post.quit == pre.quit
    &&& post.detail_scroll == pre.detail_scroll
    &&& same_project_menu(pre, post)
    &&& post.unsaved_changes
    &&& post.project_detail_input == pre.project_detail_input
    &&& post.list_detail_input == pre.list_detail_input
    &&& post.active_detail_input == pre.active_detail_input
    &&& post.task_detail_inputs@.len() == pre.task_detail_inputs@.len()
    &&& forall|i: int|
            0 <= i < pre.task_detail_inputs@.len() ==> {
                &&& (#[trigger] post.task_detail_inputs@[i]).name == pre.task_detail_inputs@[i].name
                &&& post.task_detail_inputs@[i].text@.len() == 0
                &&& post.task_detail_inputs@[i].pos == 0
            }
    &&& !(pre.state is EditTask || pre.state is CreateTask) ==> same_board(
            pre,
            post,
        )
    &&& (pre.state is EditTask || pre.state is CreateTask)
            ==> same_board_but_focused(pre, post)
    &&& pre.state is EditTask ==> ({
            let c = pre.focused();
            if c.selected is Some {
                let i = c.selected->Some_0 as int;
                &&& post.focused().items@.len() == c.items@.len()
                &&& (forall|j: int|
                    0 <= j < c.items@.len() && j != i ==> #[trigger] post.focused().items@[j] == c.items@[j])
                &&& task_from_details(
                    post.focused().items@[i],
                    pre.task_detail_inputs@[0].text@,
                    pre.task_detail_inputs@[1].text@,
                    pre.task_detail_inputs@[2].text@,
                )
                &&& post.focused().selected == c.selected
            } else {
                post.focused() == c
            }
        })
    &&& pre.state is CreateTask ==> ({
            let c = pre.focused();
            &&& post.focused().items@.len() == c.items@.len() + 1
            &&& (forall|j: int|
                0 <= j < c.items@.len() ==> #[trigger] post.focused().items@[j]
                    == c.items@[j])
            &&& task_from_details(
                post.focused().items@[c.items@.len() as int],
                pre.task_detail_inputs@[0].text@,
                pre.task_detail_inputs@[1].text@,
                pre.task_detail_inputs@[2].text@,
            )
            &&& post.focused().selected == (if c.items@.len() == 0 {
                Option::Some(0usize)
            } else {
                c.selected
            })
        })
}

pub open spec fn save_details_to_list_post(pre: App, post: App) -> bool {
    &&& post.quit == pre.quit
    &&& post.detail_scroll == pre.detail_scroll
    &&& same_project_menu(pre, post)
    &&& post.unsaved_changes
    &&& post.project_detail_input == pre.project_detail_input
    &&& post.task_detail_inputs == pre.task_detail_inputs
    &&& post.active_detail_input == pre.active_detail_input
    &&& post.list_detail_input.name == pre.list_detail_input.name
    &&& post.list_detail_input.text@.len() == 0
    &&& post.list_detail_input.pos == 0
    &&& !(pre.state is EditList || pre.state is CreateList) ==> same_board(
            pre,
            post,
        )
    &&& pre.state is EditList ==> ({
            &&& post.active_list == pre.active_list
            &&& post.task_lists@.len() == pre.task_lists@.len()
            &&& match focus_of(pre.state) {
                Option::Some(Focus::Columns) => {
                    let a = pre.active_list as int;
                    &&& (forall|j: int|
                        0 <= j < pre.task_lists@.len() && j != a ==> #[trigger] post.task_lists@[j] == pre.task_lists@[j])
                    &&& post.task_lists@[a].name@ == pre.list_detail_input.text@
                    &&& post.task_lists@[a].color_index == pre.task_lists@[
                        a
                    ].color_index
                    &&& post.task_lists@[a].tasks == pre.task_lists@[a].tasks
                    &&& post.backlog == pre.backlog
                    &&& post.archive == pre.archive
                },
                Option::Some(Focus::Backlog) => {
                    &&& post.task_lists == pre.task_lists
                    &&& post.backlog.name@ == pre.list_detail_input.text@
                    &&& post.backlog.color_index == pre.backlog.color_index
                    &&& post.backlog.tasks == pre.backlog.tasks
                    &&& post.archive == pre.archive
                },
                Option::Some(Focus::Archive) => {
                    &&& post.task_lists == pre.task_lists
                    &&& post.backlog == pre.backlog
                    &&& post.archive.name@ == pre.list_detail_input.text@
                    &&& post.archive.color_index == pre.archive.color_index
                    &&& post.archive.tasks == pre.archive.tasks
                },
                Option::None => false,
            }
        })
    &&& pre.state is CreateList ==> ({
            &&& post.active_list == pre.active_list
            &&& post.backlog == pre.backlog
            &&& post.archive == pre.archive
            &&& post.task_lists@.len() == pre.task_lists@.len() + 1
            &&& (forall|j: int|
                0 <= j < pre.task_lists@.len() ==> #[trigger] post.task_lists@[j]
                    == pre.task_lists@[j])
            &&& post.task_lists@.last().name@ == pre.list_detail_input.text@
            &&& post.task_lists@.last().color_index == 7
            &&& post.task_lists@.last().tasks.items@.len() == 0
            &&& post.task_lists@.last().tasks.selected is None
        })
}

pub open spec fn save_to_project_post(pre: App, post: App, act: Option<ProjectAction>) -> bool {
    &&& post.quit == pre.quit
    &&& post.detail_scroll == pre.detail_scroll
    &&& same_board(pre, post)
    &&& post.unsaved_changes == pre.unsaved_changes
    &&& post.project_title == pre.project_title
    &&& post.task_detail_inputs == pre.task_detail_inputs
    &&& post.active_detail_input == pre.active_detail_input
    &&& post.list_detail_input == pre.list_detail_input
    &&& post.project_detail_input.name == pre.project_detail_input.name
    &&& post.project_detail_input.text@.len() == 0
    &&& post.project_detail_input.pos == 0
    &&& pre.project_detail_input.text@.len() == 0 ==> (act is None && post.project_list == pre.project_list)
    &&& (pre.project_detail_input.text@.len() > 0 && pre.state is EditProject)
            ==> ({
            let ps = pre.project_list.projects;
            if ps.selected is Some {
                let i = ps.selected->Some_0 as int;
                &&& (act matches Option::Some(ProjectAction::Rename(from, to)) && from@
                    == ps.items@[i]@ && to@ == pre.project_detail_input.text@)
                &&& post.project_list.projects.items@.len() == ps.items@.len()
                &&& (forall|j: int|
                    0 <= j < ps.items@.len() && j != i ==> #[trigger] post.project_list.projects.items@[j] == ps.items@[j])
                &&& post.project_list.projects.items@[i]@ == pre.project_detail_input.text@
                &&& post.project_list.projects.selected == ps.selected
            } else {
                act is None && post.project_list == pre.project_list
            }
        })
    &&& (pre.project_detail_input.text@.len() > 0 && pre.state is CreateProject)
            ==> ({
            let ps = pre.project_list.projects;
            &&& (act matches Option::Some(ProjectAction::Create(n)) && n@ == pre.project_detail_input.text@)
            &&& post.project_list.projects.items@.len() == ps.items@.len() + 1
            &&& (forall|j: int|
                0 <= j < ps.items@.len() ==> #[trigger] post.project_list.projects.items@[j] == ps.items@[j])
            &&& post.project_list.projects.items@.last()@ == pre.project_detail_input.text@
            &&& post.project_list.projects.selected == (if ps.items@.len() == 0 {
                Option::Some(0usize)
            } else {
                ps.selected
            })
        })
}

pub open spec fn delete_focused_project_post(pre: App, post: App, removed: Option<String>) -> bool {
    &&& post.quit == pre.quit
    &&& post.detail_scroll == pre.detail_scroll
    &&& same_board(pre, post)
    &&& same_inputs(pre, post)
    &&& post.unsaved_changes == pre.unsaved_changes
    &&& post.project_title == pre.project_title
    &&& pre.project_list.projects.selected is None ==> (removed is None && post.project_list == pre.project_list)
    &&& pre.project_list.projects.selected is Some ==> ({
            let ps = pre.project_list.projects;
            let i = ps.selected->Some_0 as int;
            &&& (removed matches Option::Some(name) && name == ps.items@[i])
            &&& post.project_list.projects.items@ == ps.items@.remove(i)
            &&& post.project_list.projects.selected
                == crate::collection::sel_after_remove(ps.selected, ps.items@.len() as int)
        })
}


impl App {
    /// The session invariant: at least one tracker column, the active index
    /// in range, every collection obeying its selection invariant, exactly
    /// three task-detail fields with a valid active index, every caret in
    /// range, and the scroll offset within signed range.
    pub open spec fn inv(self) -> bool {
        &&& 1 <= self.task_lists@.len()
        &&& self.active_list < self.task_lists@.len()
        &&& (forall|i: int|
            0 <= i < self.task_lists@.len() ==> (#[trigger] self.task_lists@[i]).inv())
        &&& self.backlog.inv()
        &&& self.archive.inv()
        &&& self.project_list.projects.inv()
        &&& self.task_detail_inputs@.len() == 3
        &&& self.active_detail_input < 3
        &&& (forall|i: int| 0 <= i < 3 ==> (#[trigger] self.task_detail_inputs@[i]).inv())
        &&& self.project_detail_input.inv()
        &&& self.list_detail_input.inv()
        &&& self.detail_scroll <= 32767
    }

    /// The collection that the given navigation state targets on this board.
    pub open spec fn focused_in(self, state: AppState) -> SelectableCollection<Task>
        recommends
            focus_of(state) is Some,
    {
        match focus_of(state) {
            Option::Some(Focus::Columns) => self.task_lists@[self.active_list as int].tasks,
            Option::Some(Focus::Backlog) => self.backlog.tasks,
            Option::Some(Focus::Archive) => self.archive.tasks,
            Option::None => arbitrary(),
        }
    }

    /// The collection that keyboard input currently targets.
    pub open spec fn focused(self) -> SelectableCollection<Task>
        recommends
            focus_of(self.state) is Some,
    {
        self.focused_in(self.state)
    }

    /// Starts a session. An empty title opens the project menu; a named
    /// project opens its tracker (the shell then loads its data). The board
    /// starts with one default column, empty backlog and archive, and empty
    /// input fields.
    pub fn create(project_title: String, projects: Vec<String>) -> (app: App)
        ensures
            app.inv(),
            state_ok(app.state),
            app.project_title == project_title,
            app.project_list.projects.items@ == projects@,
            app.state == (if project_title@.len() == 0 {
                AppState::ProjectMenu
            } else {
                AppState::Tracker
            }),
            !app.quit,
            !app.unsaved_changes,
            app.active_list == 0,
            app.task_lists@.len() == 1,
            app.task_lists@[0].tasks.items@.len() == 0,
            app.backlog.tasks.items@.len() == 0,
            app.archive.tasks.items@.len() == 0,
            app.detail_scroll == 0,
            app.active_detail_input == 0,
            forall|i: int| 0 <= i < 3 ==> (#[trigger] app.task_detail_inputs@[i]).text@.len() == 0,
            app.task_detail_inputs@[0].name@ == "Summary"@,
            app.task_detail_inputs@[1].name@ == "Description"@,
            app.task_detail_inputs@[2].name@ == "Category"@,
            app.project_detail_input.text@.len() == 0,
            app.project_detail_input.name@ == "Project Name"@,
            app.list_detail_input.text@.len() == 0,
            app.list_detail_input.name@ == "List Name"@,
    {
        let empty_title = project_title.as_str().unicode_len() == 0;
        let mut task_detail_inputs: Vec<Input> = Vec::new();
        task_detail_inputs.push(Input::new().name(String::from_str("Summary")));
        task_detail_inputs.push(Input::new().name(String::from_str("Description")));
        task_detail_inputs.push(Input::new().name(String::from_str("Category")));
        let mut task_lists: Vec<TaskList> = Vec::new();
        task_lists.push(TaskList::default());
        App {
            project_title,
            project_list: ProjectList::create(projects),
            project_detail_input: Input::new().name(String::from_str("Project Name")),
            unsaved_changes: false,
            quit: false,
            state: if empty_title {
                AppState::ProjectMenu
            } else {
                AppState::Tracker
            },
            task_lists,
            active_list: 0,
            backlog: TaskList::empty_backlog(),
            archive: TaskList::empty_archive(),
            detail_scroll: 0,
            task_detail_inputs,
            active_detail_input: 0,
            list_detail_input: Input::new().name(String::from_str("List Name")),
        }
    }

    /// Installs a loaded project's lists. A tracker must never have zero
    /// columns, so an empty set of columns is replaced by one default
    /// column; each non-empty collection starts out selected at its first
    /// item.
    pub fn load_project_data(
        &mut self,
        task_lists: Vec<TaskList>,
        backlog: TaskList,
        archive: TaskList,
    )
        requires
            old(self).inv(),
            forall|i: int| 0 <= i < task_lists@.len() ==> (#[trigger] task_lists@[i]).inv(),
            backlog.inv(),
            archive.inv(),
        ensures
            final(self).inv(),
            same_nav(*old(self), *final(self)),
            same_inputs(*old(self), *final(self)),
            final(self).project_title == old(self).project_title,
            final(self).project_list == old(self).project_list,
            final(self).project_detail_input == old(self).project_detail_input,
            final(self).unsaved_changes == old(self).unsaved_changes,
            final(self).active_list == 0,
            final(self).task_lists@.len() == (if task_lists@.len() == 0 {
                1int
            } else {
                task_lists@.len() as int
            }),
            task_lists@.len() == 0 ==> final(self).task_lists@[0].tasks.items@.len() == 0,
            forall|i: int|
                0 <= i < task_lists@.len() ==> {
                    &&& (#[trigger] final(self).task_lists@[i]).name == task_lists@[i].name
                    &&& final(self).task_lists@[i].color_index == task_lists@[i].color_index
                    &&& final(self).task_lists@[i].tasks.items@ == task_lists@[i].tasks.items@
                    &&& final(self).task_lists@[i].tasks.selected == (if task_lists@[
                        i
                    ].tasks.items@.len() > 0 {
                        Option::Some(0usize)
                    } else {
                        Option::<usize>::None
                    })
                },
            final(self).backlog.name == backlog.name,
            final(self).backlog.tasks.items@ == backlog.tasks.items@,
            final(self).backlog.tasks.selected == (if backlog.tasks.items@.len() > 0 {
                Option::Some(0usize)
            } else {
                Option::<usize>::None
            }),
            final(self).archive.name == archive.name,
            final(self).archive.tasks.items@ == archive.tasks.items@,
            final(self).archive.tasks.selected == (if archive.tasks.items@.len() > 0 {
                Option::Some(0usize)
            } else {
                Option::<usize>::None
            }),
    {
        self.task_lists = task_lists;
        if self.task_lists.len() == 0 {
            self.task_lists.push(TaskList::default());
        }
        self.active_list = 0;
        self.backlog = backlog;
        self.archive = archive;
        self.reset_list_selections();
    }

    /// Re-selects the first item of every non-empty collection on the board.
    pub fn reset_list_selections(&mut self)
        requires
            old(self).inv(),
        ensures
            final(self).inv(),
            same_nav(*old(self), *final(self)),
            same_project_menu(*old(self), *final(self)),
            same_inputs(*old(self), *final(self)),
            final(self).unsaved_changes == old(self).unsaved_changes,
            final(self).active_list == old(self).active_list,
            final(self).task_lists@.len() == old(self).task_lists@.len(),
            forall|i: int|
                0 <= i < old(self).task_lists@.len() ==> {
                    &&& (#[trigger] final(self).task_lists@[i]).name == old(self).task_lists@[
                        i
                    ].name
                    &&& final(self).task_lists@[i].color_index == old(self).task_lists@[
                        i
                    ].color_index
                    &&& final(self).task_lists@[i].tasks.items@ == old(self).task_lists@[
                        i
                    ].tasks.items@
                    &&& final(self).task_lists@[i].tasks.selected == (if old(self).task_lists@[
                        i
                    ].tasks.items@.len() > 0 {
                        Option::Some(0usize)
                    } else {
                        old(self).task_lists@[i].tasks.selected
                    })
                },
            final(self).backlog.name == old(self).backlog.name,
            final(self).backlog.color_index == old(self).backlog.color_index,
            final(self).backlog.tasks.items@ == old(self).backlog.tasks.items@,
            final(self).backlog.tasks.selected == (if old(self).backlog.tasks.items@.len() > 0 {
                Option::Some(0usize)
            } else {
                old(self).backlog.tasks.selected
            }),
            final(self).archive.name == old(self).archive.name,
            final(self).archive.color_index == old(self).archive.color_index,
            final(self).archive.tasks.items@ == old(self).archive.tasks.items@,
            final(self).archive.tasks.selected == (if old(self).archive.tasks.items@.len() > 0 {
                Option::Some(0usize)
            } else {
                old(self).archive.tasks.selected
            }),
    {
        select_first_each(&mut self.task_lists);
        if !self.backlog.is_empty() {
            self.backlog.select(Some(0));
        }
        if !self.archive.is_empty() {
            self.archive.select(Some(0));
        }
    }

    /// The name under the project-menu selection, if any.
    pub fn get_highlighted_project(&self) -> (p: Option<String>)
        requires
            self.inv(),
        ensures
            match p {
                Option::Some(name) => self.project_list.projects.selected is Some && name@
                    == self.project_list.projects.items@[
                    self.project_list.projects.selected->Some_0 as int
                ]@,
                Option::None => self.project_list.projects.selected is None,
            },
    {
        match self.project_list.get_selected_index() {
            Some(i) => Some(self.project_list.projects.items[i].clone()),
            None => None,
        }
    }

    pub fn set_quit(&mut self, quit: bool)
        ensures
            final(self).quit == quit,
            (*final(self) == App { quit, ..*old(self) }),
    {
        self.quit = quit;
    }

    /// Replaces the navigation state; transitions copy on entry, so both the
    /// old and the new value stay available to the caller.
    pub fn change_state(&mut self, state: AppState)
        ensures
            final(self).state == state,
            (*final(self) == App { state, ..*old(self) }),
    {
        self.state = state;
    }

    /// How many tasks the tracker columns hold, saturating at the machine
    /// limit.
    pub fn num_tracked_tasks(&self) -> (n: usize)
        ensures
            total_tasks(self.task_lists@) <= usize::MAX ==> n == total_tasks(self.task_lists@),
            total_tasks(self.task_lists@) > usize::MAX ==> n == usize::MAX,
    {
        let mut n: usize = 0;
        let mut i: usize = 0;
        proof {
            assert(self.task_lists@.subrange(0, 0) =~= Seq::<TaskList>::empty());
        }
        while i < self.task_lists.len()
            invariant
                i <= self.task_lists@.len(),
                total_tasks(self.task_lists@.subrange(0, i as int)) <= usize::MAX ==> n
                    == total_tasks(self.task_lists@.subrange(0, i as int)),
                total_tasks(self.task_lists@.subrange(0, i as int)) > usize::MAX ==> n
                    == usize::MAX,
            decreases self.task_lists@.len() - i,
        {
            let len = self.task_lists[i].len();
            proof {
                assert(self.task_lists@.subrange(0, i + 1).drop_last() =~= self.task_lists@.subrange(
                    0,
                    i as int,
                ));
                assert(self.task_lists@.subrange(0, i + 1).last() == self.task_lists@[i as int]);
            }
            match n.checked_add(len) {
                Some(v) => n = v,
                None => n = usize::MAX,
            }
            i = i + 1;
        }
        proof {
            assert(self.task_lists@.subrange(0, self.task_lists@.len() as int)
                =~= self.task_lists@);
        }
        n
    }

    /// Scrolls the task-details view, clamped to the displayable range.
    pub fn scroll_details(&mut self, amount: i16)
        requires
            old(self).inv(),
        ensures
            final(self).inv(),
            scroll_details_post(*old(self), *final(self), amount),
    {
        let target: i32 = self.detail_scroll as i32 + amount as i32;
        if target < 0 {
            self.detail_scroll = 0;
        } else if target > 32767 {
            self.detail_scroll = 32767;
        } else {
            self.detail_scroll = target as u16;
        }
    }

    pub fn reset_scroll(&mut self)
        ensures
            (*final(self) == App { detail_scroll: 0, ..*old(self) }),
    {
        self.detail_scroll = 0;
    }

    /// Moves the active column one to the right, wrapping past the end.
    pub fn next_list(&mut self)
        requires
            old(self).inv(),
        ensures
            final(self).inv(),
            next_list_post(*old(self), *final(self)),
    {
        if self.active_list >= self.task_lists.len() - 1 {
            self.active_list = 0;
        } else {
            self.active_list = self.active_list + 1;
        }
    }

    /// Moves the active column one to the left, wrapping at the front.
    pub fn prev_list(&mut self)
        requires
            old(self).inv(),
        ensures
            final(self).inv(),
            prev_list_post(*old(self), *final(self)),
    {
        if self.active_list == 0 {
            self.active_list = self.task_lists.len() - 1;
        } else {
            self.active_list = self.active_list - 1;
        }
    }

    /// The list that the given navigation state targets.
    pub fn get_focused_list<'a>(&'a self, state: &AppState) -> (l: &'a TaskList)
        requires
            self.inv(),
            focus_of(*state) is Some,
        ensures
            *l == (match focus_of(*state) {
                Option::Some(Focus::Columns) => self.task_lists@[self.active_list as int],
                Option::Some(Focus::Backlog) => self.backlog,
                Option::Some(Focus::Archive) => self.archive,
                Option::None => arbitrary(),
            }),
            l.tasks == self.focused_in(*state),
    {
        let focus = resolve_focus(state);
        match focus {
            Some(Focus::Columns) => &self.task_lists[self.active_list],
            Some(Focus::Backlog) => &self.backlog,
            Some(Focus::Archive) => &self.archive,
            None => unreached(),
        }
    }

    /// Whether the focused collection has no tasks.
    pub fn focused_list_is_empty(&self) -> (b: bool)
        requires
            self.inv(),
            focus_of(self.state) is Some,
        ensures
            b == (self.focused().items@.len() == 0),
    {
        let state = self.state.clone();
        let list = self.get_focused_list(&state);
        list.is_empty()
    }

    /// The task under the focused collection's selection, if any.
    pub fn get_selected_task(&self) -> (t: Option<&Task>)
        requires
            self.inv(),
            focus_of(self.state) is Some,
        ensures
            match t {
                Option::Some(task) => self.focused().selected is Some && *task
                    == self.focused().items@[self.focused().selected->Some_0 as int],
                Option::None => self.focused().selected is None,
            },
    {
        let state = self.state.clone();
        let list = self.get_focused_list(&state);
        match list.tasks.get_selected_index() {
            Some(i) => Some(&list.tasks.items[i]),
            None => None,
        }
    }
}

/// Where `delta` steps take a palette color, wrapping the `1..=7` range
/// end to end.
pub open spec fn cycle_color(c: int, delta: int) -> int {
    if c + delta < 1 {
        7
    } else if c + delta > 7 {
        1
    } else {
        c + delta
    }
}

impl App {
    /// Moves the selection of the project menu (in the menu) or of the
    /// focused collection one step down, cyclically.
    pub fn list_down(&mut self)
        requires
            old(self).inv(),
            old(self).state is ProjectMenu || focus_of(old(self).state) is Some,
        ensures
            final(self).inv(),
            final(self).state == old(self).state,
            list_down_post(*old(self), *final(self)),
    {
        if matches!(self.state, AppState::ProjectMenu) {
            self.project_list.projects.move_next();
        } else {
            let focus = resolve_focus(&self.state);
            match focus {
                Some(Focus::Columns) => {
                    let idx = self.active_list;
                    let mut l = TaskList::default();
                    self.task_lists.set_and_swap(idx, &mut l);
                    l.tasks.move_next();
                    self.task_lists.set_and_swap(idx, &mut l);
                },
                Some(Focus::Backlog) => {
                    self.backlog.tasks.move_next();
                },
                Some(Focus::Archive) => {
                    self.archive.tasks.move_next();
                },
                None => {
                    proof {
                        assert(false);
                    }
                },
            }
        }
    }

    /// Moves the selection of the project menu (in the menu) or of the
    /// focused collection one step up, cyclically.
    pub fn list_up(&mut self)
        requires
            old(self).inv(),
            old(self).state is ProjectMenu || focus_of(old(self).state) is Some,
        ensures
            final(self).inv(),
            final(self).state == old(self).state,
            list_up_post(*old(self), *final(self)),
    {
        if matches!(self.state, AppState::ProjectMenu) {
            self.project_list.projects.move_prev();
        } else {
            let focus = resolve_focus(&self.state);
            match focus {
                Some(Focus::Columns) => {
                    let idx = self.active_list;
                    let mut l = TaskList::default();
                    self.task_lists.set_and_swap(idx, &mut l);
                    l.tasks.move_prev();
                    self.task_lists.set_and_swap(idx, &mut l);
                },
                Some(Focus::Backlog) => {
                    self.backlog.tasks.move_prev();
                },
                Some(Focus::Archive) => {
                    self.archive.tasks.move_prev();
                },
                None => {
                    proof {
                        assert(false);
                    }
                },
            }
        }
    }

    /// Moves the selection of the project menu (in the menu) or of the
    /// focused collection to the first item, when something is selected.
    pub fn jump_to_list_top(&mut self)
        requires
            old(self).inv(),
            old(self).state is ProjectMenu || focus_of(old(self).state) is Some,
        ensures
            final(self).inv(),
            final(self).state == old(self).state,
            jump_to_list_top_post(*old(self), *final(self)),
    {
        if matches!(self.state, AppState::ProjectMenu) {
            self.project_list.projects.jump_to_top();
        } else {
            let focus = resolve_focus(&self.state);
            match focus {
                Some(Focus::Columns) => {
                    let idx = self.active_list;
                    let mut l = TaskList::default();
                    self.task_lists.set_and_swap(idx, &mut l);
                    l.tasks.jump_to_top();
                    self.task_lists.set_and_swap(idx, &mut l);
                },
                Some(Focus::Backlog) => {
                    self.backlog.tasks.jump_to_top();
                },
                Some(Focus::Archive) => {
                    self.archive.tasks.jump_to_top();
                },
                None => {
                    proof {
                        assert(false);
                    }
                },
            }
        }
    }

    /// Moves the selection of the project menu (in the menu) or of the
    /// focused collection to the last item, when something is selected.
    pub fn jump_to_list_bottom(&mut self)
        requires
            old(self).inv(),
            old(self).state is ProjectMenu || focus_of(old(self).state) is Some,
        ensures
            final(self).inv(),
            final(self).state == old(self).state,
            jump_to_list_bottom_post(*old(self), *final(self)),
    {
        if matches!(self.state, AppState::ProjectMenu) {
            self.project_list.projects.jump_to_bottom();
        } else {
            let focus = resolve_focus(&self.state);
            match focus {
                Some(Focus::Columns) => {
                    let idx = self.active_list;
                    let mut l = TaskList::default();
                    self.task_lists.set_and_swap(idx, &mut l);
                    l.tasks.jump_to_bottom();
                    self.task_lists.set_and_swap(idx, &mut l);
                },
                Some(Focus::Backlog) => {
                    self.backlog.tasks.jump_to_bottom();
                },
                Some(Focus::Archive) => {
                    self.archive.tasks.jump_to_bottom();
                },
                None => {
                    proof {
                        assert(false);
                    }
                },
            }
        }
    }

    /// Swaps the focused collection's selected task with its upper neighbor
    /// and keeps the selection on the moved task; a no-op at the top or with
    /// nothing selected.
    pub fn task_up(&mut self)
        requires
            old(self).inv(),
            focus_of(old(self).state) is Some,
        ensures
            final(self).inv(),
            final(self).state == old(self).state,
            task_up_post(*old(self), *final(self)),
    {
        let focus = resolve_focus(&self.state);
        match focus {
            Some(Focus::Columns) => {
                let idx = self.active_list;
                let sel = self.task_lists[idx].get_selected_index();
                if let Some(i) = sel {
                    if i > 0 {
                        let mut l = TaskList::default();
                        self.task_lists.set_and_swap(idx, &mut l);
                        l.swap(i, i - 1);
                        l.select(Some(i - 1));
                        self.task_lists.set_and_swap(idx, &mut l);
                        self.unsaved_changes = true;
                    }
                }
            },
            Some(Focus::Backlog) => {
                let sel = self.backlog.get_selected_index();
                if let Some(i) = sel {
                    if i > 0 {
                        self.backlog.swap(i, i - 1);
                        self.backlog.select(Some(i - 1));
                        self.unsaved_changes = true;
                    }
                }
            },
            Some(Focus::Archive) => {
                let sel = self.archive.get_selected_index();
                if let Some(i) = sel {
                    if i > 0 {
                        self.archive.swap(i, i - 1);
                        self.archive.select(Some(i - 1));
                        self.unsaved_changes = true;
                    }
                }
            },
            None => {
                proof {
                    assert(false);
                }
            },
        }
    }

    /// Swaps the focused collection's selected task with its lower neighbor,
    /// saturating at the bottom, and keeps the selection on the moved slot.
    pub fn task_down(&mut self)
        requires
            old(self).inv(),
            focus_of(old(self).state) is Some,
        ensures
            final(self).inv(),
            final(self).state == old(self).state,
            task_down_post(*old(self), *final(self)),
    {
        let focus = resolve_focus(&self.state);
        match focus {
            Some(Focus::Columns) => {
                let idx = self.active_list;
                let sel = self.task_lists[idx].get_selected_index();
                if let Some(i) = sel {
                    let len = self.task_lists[idx].len();
                    let j = if i + 1 >= len {
                        len - 1
                    } else {
                        i + 1
                    };
                    let mut l = TaskList::default();
                    self.task_lists.set_and_swap(idx, &mut l);
                    l.swap(i, j);
                    l.select(Some(j));
                    self.task_lists.set_and_swap(idx, &mut l);
                    self.unsaved_changes = true;
                }
            },
            Some(Focus::Backlog) => {
                let sel = self.backlog.get_selected_index();
                if let Some(i) = sel {
                    let len = self.backlog.len();
                    let j = if i + 1 >= len {
                        len - 1
                    } else {
                        i + 1
                    };
                    self.backlog.swap(i, j);
                    self.backlog.select(Some(j));
                    self.unsaved_changes = true;
                }
            },
            Some(Focus::Archive) => {
                let sel = self.archive.get_selected_index();
                if let Some(i) = sel {
                    let len = self.archive.len();
                    let j = if i + 1 >= len {
                        len - 1
                    } else {
                        i + 1
                    };
                    self.archive.swap(i, j);
                    self.archive.select(Some(j));
                    self.unsaved_changes = true;
                }
            },
            None => {
                proof {
                    assert(false);
                }
            },
        }
    }

    /// Moves the focused collection's selected task to the end and selects
    /// it there; a no-op with nothing selected.
    pub fn task_to_bottom(&mut self)
        requires
            old(self).inv(),
            focus_of(old(self).state) is Some,
        ensures
            final(self).inv(),
            final(self).state == old(self).state,
            task_to_bottom_post(*old(self), *final(self)),
    {
        let focus = resolve_focus(&self.state);
        match focus {
            Some(Focus::Columns) => {
                let idx = self.active_list;
                let sel = self.task_lists[idx].get_selected_index();
                if let Some(i) = sel {
                    let mut l = TaskList::default();
                    self.task_lists.set_and_swap(idx, &mut l);
                    let task = l.remove(i);
                    l.push(task);
                    let last = l.len() - 1;
                    l.select(Some(last));
                    self.task_lists.set_and_swap(idx, &mut l);
                    self.unsaved_changes = true;
                }
            },
            Some(Focus::Backlog) => {
                let sel = self.backlog.get_selected_index();
                if let Some(i) = sel {
                    let task = self.backlog.remove(i);
                    self.backlog.push(task);
                    let last = self.backlog.len() - 1;
                    self.backlog.select(Some(last));
                    self.unsaved_changes = true;
                }
            },
            Some(Focus::Archive) => {
                let sel = self.archive.get_selected_index();
                if let Some(i) = sel {
                    let task = self.archive.remove(i);
                    self.archive.push(task);
                    let last = self.archive.len() - 1;
                    self.archive.select(Some(last));
                    self.unsaved_changes = true;
                }
            },
            None => {
                proof {
                    assert(false);
                }
            },
        }
    }

    /// Moves the focused collection's selected task to the front and selects
    /// it there; a no-op with nothing selected.
    pub fn task_to_top(&mut self)
        requires
            old(self).inv(),
            focus_of(old(self).state) is Some,
        ensures
            final(self).inv(),
            final(self).state == old(self).state,
            task_to_top_post(*old(self), *final(self)),
    {
        let focus = resolve_focus(&self.state);
        match focus {
            Some(Focus::Columns) => {
                let idx = self.active_list;
                let sel = self.task_lists[idx].get_selected_index();
                if let Some(i) = sel {
                    let mut l = TaskList::default();
                    self.task_lists.set_and_swap(idx, &mut l);
                    let task = l.remove(i);
                    l.insert(0, task);
                    l.select(Some(0));
                    self.task_lists.set_and_swap(idx, &mut l);
                    self.unsaved_changes = true;
                }
            },
            Some(Focus::Backlog) => {
                let sel = self.backlog.get_selected_index();
                if let Some(i) = sel {
                    let task = self.backlog.remove(i);
                    self.backlog.insert(0, task);
                    self.backlog.select(Some(0));
                    self.unsaved_changes = true;
                }
            },
            Some(Focus::Archive) => {
                let sel = self.archive.get_selected_index();
                if let Some(i) = sel {
                    let task = self.archive.remove(i);
                    self.archive.insert(0, task);
                    self.archive.select(Some(0));
                    self.unsaved_changes = true;
                }
            },
            None => {
                proof {
                    assert(false);
                }
            },
        }
    }

    /// Swaps the active column with its left neighbor, keeping it active;
    /// a no-op at the leftmost column.
    pub fn list_left(&mut self)
        requires
            old(self).inv(),
        ensures
            final(self).inv(),
            final(self).state == old(self).state,
            list_left_post(*old(self), *final(self)),
    {
        if self.active_list > 0 {
            let a = self.active_list;
            let b = a - 1;
            let ghost t0 = self.task_lists@;
            let mut la = TaskList::default();
            self.task_lists.set_and_swap(a, &mut la);
            self.task_lists.set_and_swap(b, &mut la);
            self.task_lists.set_and_swap(a, &mut la);
            self.active_list = b;
            self.unsaved_changes = true;
            proof {
                assert(self.task_lists@ =~= t0.update(a as int, t0[b as int]).update(
                    b as int,
                    t0[a as int],
                ));
            }
        }
    }

    /// Swaps the active column with its right neighbor, keeping it active;
    /// a no-op at the rightmost column.
    pub fn list_right(&mut self)
        requires
            old(self).inv(),
        ensures
            final(self).inv(),
            final(self).state == old(self).state,
            list_right_post(*old(self), *final(self)),
    {
        let a = self.active_list;
        if a >= self.task_lists.len() - 1 {
            return;
        }
        let b = a + 1;
        let ghost t0 = self.task_lists@;
        let mut la = TaskList::default();
        self.task_lists.set_and_swap(a, &mut la);
        self.task_lists.set_and_swap(b, &mut la);
        self.task_lists.set_and_swap(a, &mut la);
        self.active_list = b;
        self.unsaved_changes = true;
        proof {
            assert(self.task_lists@ =~= t0.update(a as int, t0[b as int]).update(
                b as int,
                t0[a as int],
            ));
        }
    }

    /// Steps the focused list's color through the palette, wrapping the
    /// `1..=7` range end to end.
    pub fn cycle_list_color(&mut self, amount: i8)
        requires
            old(self).inv(),
            focus_of(old(self).state) is Some,
        ensures
            final(self).inv(),
            final(self).state == old(self).state,
            cycle_list_color_post(*old(self), *final(self), amount),
    {
        let focus = resolve_focus(&self.state);
        match focus {
            Some(Focus::Columns) => {
                let idx = self.active_list;
                let mut l = TaskList::default();
                self.task_lists.set_and_swap(idx, &mut l);
                l.color_index = cycled_color(l.color_index, amount);
                self.task_lists.set_and_swap(idx, &mut l);
            },
            Some(Focus::Backlog) => {
                self.backlog.color_index = cycled_color(self.backlog.color_index, amount);
            },
            Some(Focus::Archive) => {
                self.archive.color_index = cycled_color(self.archive.color_index, amount);
            },
            None => {
                proof {
                    assert(false);
                }
            },
        }
        self.unsaved_changes = true;
    }
}

impl App {
    /// Moves the selected task of the active column onto the end of the next
    /// column, makes that column active and selects the moved task there; a
    /// no-op on the last column or with nothing selected.
    pub fn move_task_to_next_list(&mut self)
        requires
            old(self).inv(),
        ensures
            final(self).inv(),
            final(self).state == old(self).state,
            move_task_to_next_list_post(*old(self), *final(self)),
    {
        if self.active_list != self.task_lists.len() - 1 {
            let a = self.active_list;
            let sel = self.task_lists[a].get_selected_index();
            if let Some(i) = sel {
                let mut l = TaskList::default();
                self.task_lists.set_and_swap(a, &mut l);
                let task = l.remove(i);
                self.task_lists.set_and_swap(a, &mut l);
                self.active_list = a + 1;
                let mut d = TaskList::default();
                self.task_lists.set_and_swap(a + 1, &mut d);
                d.push(task);
                let last = d.len() - 1;
                d.select(Some(last));
                self.task_lists.set_and_swap(a + 1, &mut d);
                self.unsaved_changes = true;
            }
        }
    }

    /// Moves the selected task of the active column onto the end of the
    /// previous column, makes that column active and selects the moved task
    /// there; a no-op on the first column or with nothing selected.
    pub fn move_task_to_prev_list(&mut self)
        requires
            old(self).inv(),
        ensures
            final(self).inv(),
            final(self).state == old(self).state,
            move_task_to_prev_list_post(*old(self), *final(self)),
    {
        if self.active_list != 0 {
            let a = self.active_list;
            let sel = self.task_lists[a].get_selected_index();
            if let Some(i) = sel {
                let mut l = TaskList::default();
                self.task_lists.set_and_swap(a, &mut l);
                let task = l.remove(i);
                self.task_lists.set_and_swap(a, &mut l);
                self.active_list = a - 1;
                let mut d = TaskList::default();
                self.task_lists.set_and_swap(a - 1, &mut d);
                d.push(task);
                let last = d.len() - 1;
                d.select(Some(last));
                self.task_lists.set_and_swap(a - 1, &mut d);
                self.unsaved_changes = true;
            }
        }
    }

    /// Moves the focused collection's selected task onto the end of the
    /// column at `index`; rejects an out-of-range `index` as a no-op, and
    /// does nothing with no selection.
    pub fn move_task_to_list(&mut self, index: usize)
        requires
            old(self).inv(),
            focus_of(old(self).state) is Some,
        ensures
            final(self).inv(),
            final(self).state == old(self).state,
            move_task_to_list_post(*old(self), *final(self), index),
    {
        if index >= self.task_lists.len() {
            return;
        }
        let focus = resolve_focus(&self.state);
        let taken: Option<Task> = match focus {
            Some(Focus::Columns) => {
                let a = self.active_list;
                let sel = self.task_lists[a].get_selected_index();
                match sel {
                    Some(i) => {
                        let mut l = TaskList::default();
                        self.task_lists.set_and_swap(a, &mut l);
                        let task = l.remove(i);
                        if index == a {
                            // The focused column is also the destination: the
                            // task leaves its slot and rejoins at the end.
                            l.push(task);
                            self.task_lists.set_and_swap(a, &mut l);
                            self.unsaved_changes = true;
                            return;
                        }
                        self.task_lists.set_and_swap(a, &mut l);
                        Some(task)
                    },
                    None => None,
                }
            },
            Some(Focus::Backlog) => {
                let sel = self.backlog.get_selected_index();
                match sel {
                    Some(i) => Some(self.backlog.remove(i)),
                    None => None,
                }
            },
            Some(Focus::Archive) => {
                let sel = self.archive.get_selected_index();
                match sel {
                    Some(i) => Some(self.archive.remove(i)),
                    None => None,
                }
            },
            None => {
                proof {
                    assert(false);
                }
                None
            },
        };
        if let Some(task) = taken {
            let mut d = TaskList::default();
            self.task_lists.set_and_swap(index, &mut d);
            d.push(task);
            self.task_lists.set_and_swap(index, &mut d);
            self.unsaved_changes = true;
        }
    }

    /// Moves the active column's selected task onto the end of the backlog;
    /// a no-op with nothing selected.
    pub fn move_task_to_backlog(&mut self)
        requires
            old(self).inv(),
        ensures
            final(self).inv(),
            final(self).state == old(self).state,
            move_task_to_backlog_post(*old(self), *final(self)),
    {
        let a = self.active_list;
        let sel = self.task_lists[a].get_selected_index();
        if let Some(i) = sel {
            let mut l = TaskList::default();
            self.task_lists.set_and_swap(a, &mut l);
            let task = l.remove(i);
            self.task_lists.set_and_swap(a, &mut l);
            self.backlog.push(task);
            self.unsaved_changes = true;
        }
    }

    /// Moves the active column's selected task onto the end of the archive;
    /// a no-op with nothing selected.
    pub fn move_task_to_archive(&mut self)
        requires
            old(self).inv(),
        ensures
            final(self).inv(),
            final(self).state == old(self).state,
            move_task_to_archive_post(*old(self), *final(self)),
    {
        let a = self.active_list;
        let sel = self.task_lists[a].get_selected_index();
        if let Some(i) = sel {
            let mut l = TaskList::default();
            self.task_lists.set_and_swap(a, &mut l);
            let task = l.remove(i);
            self.task_lists.set_and_swap(a, &mut l);
            self.archive.push(task);
            self.unsaved_changes = true;
        }
    }

    /// Removes the focused collection's selected task, when the board is on
    /// the delete-task prompt; any other state is a no-op.
    pub fn delete_highlighted_task(&mut self)
        requires
            old(self).inv(),
            old(self).state is DeleteTask ==> focus_of(old(self).state) is Some,
        ensures
            final(self).inv(),
            final(self).state == old(self).state,
            delete_highlighted_task_post(*old(self), *final(self)),
    {
        if !matches!(self.state, AppState::DeleteTask(_)) {
            return;
        }
        let focus = resolve_focus(&self.state);
        match focus {
            Some(Focus::Columns) => {
                let a = self.active_list;
                let sel = self.task_lists[a].get_selected_index();
                if let Some(i) = sel {
                    let mut l = TaskList::default();
                    self.task_lists.set_and_swap(a, &mut l);
                    l.remove(i);
                    self.task_lists.set_and_swap(a, &mut l);
                    self.unsaved_changes = true;
                }
            },
            Some(Focus::Backlog) => {
                let sel = self.backlog.get_selected_index();
                if let Some(i) = sel {
                    self.backlog.remove(i);
                    self.unsaved_changes = true;
                }
            },
            Some(Focus::Archive) => {
                let sel = self.archive.get_selected_index();
                if let Some(i) = sel {
                    self.archive.remove(i);
                    self.unsaved_changes = true;
                }
            },
            None => {
                proof {
                    assert(false);
                }
            },
        }
    }

    /// Removes the active tracker column. A tracker must never have zero
    /// columns, so deleting the last one synthesizes a fresh default column;
    /// the active index is clamped back into range.
    pub fn delete_focused_list(&mut self)
        requires
            old(self).inv(),
        ensures
            final(self).inv(),
            final(self).state == old(self).state,
            delete_focused_list_post(*old(self), *final(self)),
    {
        self.task_lists.remove(self.active_list);
        if self.task_lists.len() == 0 {
            self.task_lists.push(TaskList::default());
            self.active_list = 0;
        } else if self.active_list >= self.task_lists.len() {
            self.active_list = self.active_list - 1;
        }
        self.unsaved_changes = true;
    }
}

impl App {
    /// The text field that the current state's keystrokes edit.
    pub open spec fn focused_input(self) -> Input
        recommends
            input_of(self.state) is Some,
    {
        match input_of(self.state) {
            Option::Some(InputTarget::Project) => self.project_detail_input,
            Option::Some(InputTarget::TaskDetail) => self.task_detail_inputs@[
                self.active_detail_input as int
            ],
            Option::Some(InputTarget::ListName) => self.list_detail_input,
            Option::None => arbitrary(),
        }
    }

    /// Read access to the text field the current state edits.
    pub fn get_focused_input(&self) -> (inp: &Input)
        requires
            self.inv(),
            input_of(self.state) is Some,
        ensures
            *inp == self.focused_input(),
    {
        let target = resolve_input(&self.state);
        match target {
            Some(InputTarget::Project) => &self.project_detail_input,
            Some(InputTarget::TaskDetail) => &self.task_detail_inputs[self.active_detail_input],
            Some(InputTarget::ListName) => &self.list_detail_input,
            None => unreached(),
        }
    }

    /// Types `c` into the focused field at its caret; a space at the very
    /// start is rejected.
    pub fn add_to_detail_input(&mut self, c: char)
        requires
            old(self).inv(),
            input_of(old(self).state) is Some,
        ensures
            final(self).inv(),
            final(self).state == old(self).state,
            add_to_detail_input_post(*old(self), *final(self), c),
    {
        let target = resolve_input(&self.state);
        match target {
            Some(InputTarget::Project) => {
                self.project_detail_input.push(c);
            },
            Some(InputTarget::TaskDetail) => {
                let idx = self.active_detail_input;
                let mut inp = Input::new();
                self.task_detail_inputs.set_and_swap(idx, &mut inp);
                inp.push(c);
                self.task_detail_inputs.set_and_swap(idx, &mut inp);
            },
            Some(InputTarget::ListName) => {
                self.list_detail_input.push(c);
            },
            None => {
                proof {
                    assert(false);
                }
            },
        }
    }

    /// Deletes the character before the focused field's caret, if any.
    pub fn delete_from_detail_input(&mut self)
        requires
            old(self).inv(),
            input_of(old(self).state) is Some,
        ensures
            final(self).inv(),
            final(self).state == old(self).state,
            delete_from_detail_input_post(*old(self), *final(self)),
    {
        let target = resolve_input(&self.state);
        match target {
            Some(InputTarget::Project) => {
                self.project_detail_input.pop();
            },
            Some(InputTarget::TaskDetail) => {
                let idx = self.active_detail_input;
                let mut inp = Input::new();
                self.task_detail_inputs.set_and_swap(idx, &mut inp);
                inp.pop();
                self.task_detail_inputs.set_and_swap(idx, &mut inp);
            },
            Some(InputTarget::ListName) => {
                self.list_detail_input.pop();
            },
            None => {
                proof {
                    assert(false);
                }
            },
        }
    }

    /// Empties the focused field, keeping its label.
    pub fn clear_focused_input(&mut self)
        requires
            old(self).inv(),
            input_of(old(self).state) is Some,
        ensures
            final(self).inv(),
            final(self).state == old(self).state,
            clear_focused_input_post(*old(self), *final(self)),
    {
        let target = resolve_input(&self.state);
        match target {
            Some(InputTarget::Project) => {
                self.project_detail_input.clear();
            },
            Some(InputTarget::TaskDetail) => {
                let idx = self.active_detail_input;
                let mut inp = Input::new();
                self.task_detail_inputs.set_and_swap(idx, &mut inp);
                inp.clear();
                self.task_detail_inputs.set_and_swap(idx, &mut inp);
            },
            Some(InputTarget::ListName) => {
                self.list_detail_input.clear();
            },
            None => {
                proof {
                    assert(false);
                }
            },
        }
    }

    /// Moves the focused field's caret one character left, stopping at the
    /// start.
    pub fn input_left(&mut self)
        requires
            old(self).inv(),
            input_of(old(self).state) is Some,
        ensures
            final(self).inv(),
            final(self).state == old(self).state,
            input_left_post(*old(self), *final(self)),
    {
        let target = resolve_input(&self.state);
        match target {
            Some(InputTarget::Project) => {
                self.project_detail_input.move_left();
            },
            Some(InputTarget::TaskDetail) => {
                let idx = self.active_detail_input;
                let mut inp = Input::new();
                self.task_detail_inputs.set_and_swap(idx, &mut inp);
                inp.move_left();
                self.task_detail_inputs.set_and_swap(idx, &mut inp);
            },
            Some(InputTarget::ListName) => {
                self.list_detail_input.move_left();
            },
            None => {
                proof {
                    assert(false);
                }
            },
        }
    }

    /// Moves the focused field's caret one character right, stopping at the
    /// end.
    pub fn input_right(&mut self)
        requires
            old(self).inv(),
            input_of(old(self).state) is Some,
        ensures
            final(self).inv(),
            final(self).state == old(self).state,
            input_right_post(*old(self), *final(self)),
    {
        let target = resolve_input(&self.state);
        match target {
            Some(InputTarget::Project) => {
                self.project_detail_input.move_right();
            },
            Some(InputTarget::TaskDetail) => {
                let idx = self.active_detail_input;
                let mut inp = Input::new();
                self.task_detail_inputs.set_and_swap(idx, &mut inp);
                inp.move_right();
                self.task_detail_inputs.set_and_swap(idx, &mut inp);
            },
            Some(InputTarget::ListName) => {
                self.list_detail_input.move_right();
            },
            None => {
                proof {
                    assert(false);
                }
            },
        }
    }

    /// Moves the focused field's caret to the start.
    pub fn input_start(&mut self)
        requires
            old(self).inv(),
            input_of(old(self).state) is Some,
        ensures
            final(self).inv(),
            final(self).state == old(self).state,
            input_start_post(*old(self), *final(self)),
    {
        let target = resolve_input(&self.state);
        match target {
            Some(InputTarget::Project) => {
                self.project_detail_input.move_start();
            },
            Some(InputTarget::TaskDetail) => {
                let idx = self.active_detail_input;
                let mut inp = Input::new();
                self.task_detail_inputs.set_and_swap(idx, &mut inp);
                inp.move_start();
                self.task_detail_inputs.set_and_swap(idx, &mut inp);
            },
            Some(InputTarget::ListName) => {
                self.list_detail_input.move_start();
            },
            None => {
                proof {
                    assert(false);
                }
            },
        }
    }

    /// Moves the focused field's caret past the last character.
    pub fn input_end(&mut self)
        requires
            old(self).inv(),
            input_of(old(self).state) is Some,
        ensures
            final(self).inv(),
            final(self).state == old(self).state,
            input_end_post(*old(self), *final(self)),
    {
        let target = resolve_input(&self.state);
        match target {
            Some(InputTarget::Project) => {
                self.project_detail_input.move_end();
            },
            Some(InputTarget::TaskDetail) => {
                let idx = self.active_detail_input;
                let mut inp = Input::new();
                self.task_detail_inputs.set_and_swap(idx, &mut inp);
                inp.move_end();
                self.task_detail_inputs.set_and_swap(idx, &mut inp);
            },
            Some(InputTarget::ListName) => {
                self.list_detail_input.move_end();
            },
            None => {
                proof {
                    assert(false);
                }
            },
        }
    }

    /// Moves the focused field's caret to the nearest space on its left, or
    /// to the start.
    pub fn input_jump_to_space_left(&mut self)
        requires
            old(self).inv(),
            input_of(old(self).state) is Some,
        ensures
            final(self).inv(),
            final(self).state == old(self).state,
            input_jump_to_space_left_post(*old(self), *final(self)),
    {
        let target = resolve_input(&self.state);
        match target {
            Some(InputTarget::Project) => {
                self.project_detail_input.move_to_prev_space();
            },
            Some(InputTarget::TaskDetail) => {
                let idx = self.active_detail_input;
                let mut inp = Input::new();
                self.task_detail_inputs.set_and_swap(idx, &mut inp);
                inp.move_to_prev_space();
                self.task_detail_inputs.set_and_swap(idx, &mut inp);
            },
            Some(InputTarget::ListName) => {
                self.list_detail_input.move_to_prev_space();
            },
            None => {
                proof {
                    assert(false);
                }
            },
        }
    }

    /// Moves the focused field's caret to the next space strictly right of
    /// it, or to the end.
    pub fn input_jump_to_space_right(&mut self)
        requires
            old(self).inv(),
            input_of(old(self).state) is Some,
        ensures
            final(self).inv(),
            final(self).state == old(self).state,
            input_jump_to_space_right_post(*old(self), *final(self)),
    {
        let target = resolve_input(&self.state);
        match target {
            Some(InputTarget::Project) => {
                self.project_detail_input.move_to_next_space();
            },
            Some(InputTarget::TaskDetail) => {
                let idx = self.active_detail_input;
                let mut inp = Input::new();
                self.task_detail_inputs.set_and_swap(idx, &mut inp);
                inp.move_to_next_space();
                self.task_detail_inputs.set_and_swap(idx, &mut inp);
            },
            Some(InputTarget::ListName) => {
                self.list_detail_input.move_to_next_space();
            },
            None => {
                proof {
                    assert(false);
                }
            },
        }
    }

    /// Deletes from the previous-space position up to the focused field's
    /// caret: the "delete previous word" operation.
    pub fn input_delete_to_left_space(&mut self)
        requires
            old(self).inv(),
            input_of(old(self).state) is Some,
        ensures
            final(self).inv(),
            final(self).state == old(self).state,
            input_delete_to_left_space_post(*old(self), *final(self)),
    {
        let target = resolve_input(&self.state);
        match target {
            Some(InputTarget::Project) => {
                self.project_detail_input.delete_to_left_space();
            },
            Some(InputTarget::TaskDetail) => {
                let idx = self.active_detail_input;
                let mut inp = Input::new();
                self.task_detail_inputs.set_and_swap(idx, &mut inp);
                inp.delete_to_left_space();
                self.task_detail_inputs.set_and_swap(idx, &mut inp);
            },
            Some(InputTarget::ListName) => {
                self.list_detail_input.delete_to_left_space();
            },
            None => {
                proof {
                    assert(false);
                }
            },
        }
    }

    /// Deletes the word left of the focused field's caret.
    pub fn delete_to_prev_space(&mut self)
        requires
            old(self).inv(),
            input_of(old(self).state) is Some,
        ensures
            final(self).inv(),
            final(self).state == old(self).state,
            input_delete_to_left_space_post(*old(self), *final(self)),
    {
        self.input_delete_to_left_space();
    }

    /// Moves the editing focus to the next of the three task-detail fields,
    /// cyclically.
    pub fn next_detail_input(&mut self)
        requires
            old(self).inv(),
        ensures
            final(self).inv(),
            next_detail_input_post(*old(self), *final(self)),
    {
        if self.active_detail_input >= self.task_detail_inputs.len() - 1 {
            self.active_detail_input = 0;
        } else {
            self.active_detail_input = self.active_detail_input + 1;
        }
    }

    /// Moves the editing focus to the previous of the three task-detail
    /// fields, cyclically.
    pub fn prev_detail_input(&mut self)
        requires
            old(self).inv(),
        ensures
            final(self).inv(),
            prev_detail_input_post(*old(self), *final(self)),
    {
        if self.active_detail_input == 0 {
            self.active_detail_input = self.task_detail_inputs.len() - 1;
        } else {
            self.active_detail_input = self.active_detail_input - 1;
        }
    }

    /// Returns the editing focus to the first task-detail field.
    pub fn reset_active_detail_input(&mut self)
        ensures
            (*final(self) == App { active_detail_input: 0, ..*old(self) }),
    {
        self.active_detail_input = 0;
    }

    /// Empties all three task-detail fields, keeping their labels.
    pub fn clear_detail_inputs(&mut self)
        requires
            old(self).inv(),
        ensures
            final(self).inv(),
            same_nav(*old(self), *final(self)),
            same_project_menu(*old(self), *final(self)),
            same_board(*old(self), *final(self)),
            final(self).unsaved_changes == old(self).unsaved_changes,
            final(self).project_detail_input == old(self).project_detail_input,
            final(self).list_detail_input == old(self).list_detail_input,
            final(self).active_detail_input == old(self).active_detail_input,
            final(self).task_detail_inputs@.len() == old(self).task_detail_inputs@.len(),
            forall|i: int|
                0 <= i < old(self).task_detail_inputs@.len() ==> {
                    &&& (#[trigger] final(self).task_detail_inputs@[i]).name == old(self).task_detail_inputs@[i].name
                    &&& final(self).task_detail_inputs@[i].text@.len() == 0
                    &&& final(self).task_detail_inputs@[i].pos == 0
                },
    {
        let mut i: usize = 0;
        while i < self.task_detail_inputs.len()
            invariant
                i <= self.task_detail_inputs@.len(),
                self.task_detail_inputs@.len() == old(self).task_detail_inputs@.len(),
                same_nav(*old(self), *self),
                same_project_menu(*old(self), *self),
                same_board(*old(self), *self),
                self.unsaved_changes == old(self).unsaved_changes,
                self.project_detail_input == old(self).project_detail_input,
                self.list_detail_input == old(self).list_detail_input,
                self.active_detail_input == old(self).active_detail_input,
                forall|j: int|
                    i <= j < self.task_detail_inputs@.len() ==> #[trigger] self.task_detail_inputs@[j]
                        == old(self).task_detail_inputs@[j],
                forall|j: int|
                    0 <= j < i ==> {
                        &&& (#[trigger] self.task_detail_inputs@[j]).name == old(self).task_detail_inputs@[j].name
                        &&& self.task_detail_inputs@[j].text@.len() == 0
                        &&& self.task_detail_inputs@[j].pos == 0
                    },
            decreases self.task_detail_inputs@.len() - i,
        {
            let mut inp = Input::new();
            self.task_detail_inputs.set_and_swap(i, &mut inp);
            inp.clear();
            self.task_detail_inputs.set_and_swap(i, &mut inp);
            i = i + 1;
        }
    }

    /// Empties the list-name field, keeping its label.
    pub fn clear_list_inputs(&mut self)
        ensures
            final(self).list_detail_input.name == old(self).list_detail_input.name,
            final(self).list_detail_input.text@.len() == 0,
            final(self).list_detail_input.pos == 0,
            (*final(self) == App { list_detail_input: final(self).list_detail_input, ..*old(self) }),
    {
        self.list_detail_input.clear();
    }

    /// Empties the project-name field, keeping its label.
    pub fn clear_project_inputs(&mut self)
        ensures
            final(self).project_detail_input.name == old(self).project_detail_input.name,
            final(self).project_detail_input.text@.len() == 0,
            final(self).project_detail_input.pos == 0,
            (*final(self) == App {
                project_detail_input: final(self).project_detail_input,
                ..*old(self)
            }),
    {
        self.project_detail_input.clear();
    }
}

/// The file-system work that committing a project edit asks the shell to
/// perform: renaming a project's directory, or creating a fresh one.
pub enum ProjectAction {
    Rename(String, String),
    Create(String),
}

/// `t` is the task a commit builds from the three detail texts: an empty
/// description or category becomes absent rather than empty.
pub open spec fn task_from_details(
    t: Task,
    summary: Seq<char>,
    desc: Seq<char>,
    cat: Seq<char>,
) -> bool {
    &&& t.summary@ == summary
    &&& (desc.len() == 0 ==> t.description is None)
    &&& (desc.len() > 0 ==> t.description is Some && t.description->0@ == desc)
    &&& (cat.len() == 0 ==> t.category is None)
    &&& (cat.len() > 0 ==> t.category is Some && t.category->0@ == cat)
}

impl App {
    /// Copies the selected task's fields into the three detail fields, each
    /// caret at its end; a no-op with nothing selected.
    pub fn populate_task_detail_inputs(&mut self)
        requires
            old(self).inv(),
            focus_of(old(self).state) is Some,
        ensures
            final(self).inv(),
            final(self).state == old(self).state,
            final(self).active_detail_input == old(self).active_detail_input,
            populate_task_detail_inputs_post(*old(self), *final(self)),
    {
        let picked: Option<Task> = match self.get_selected_task() {
            Some(task) => Some(task.clone()),
            None => None,
        };
        if let Some(task) = picked {
            let description = match task.description {
                Some(d) => d,
                None => String::new(),
            };
            let category = match task.category {
                Some(c) => c,
                None => String::new(),
            };
            self.task_detail_inputs.set(
                0,
                Input::from(task.summary).name(String::from_str("Summary")),
            );
            self.task_detail_inputs.set(
                1,
                Input::from(description).name(String::from_str("Description")),
            );
            self.task_detail_inputs.set(
                2,
                Input::from(category).name(String::from_str("Category")),
            );
        }
    }

    /// Copies the focused list's name into the list-name field, the caret at
    /// its end.
    pub fn populate_list_detail_inputs(&mut self)
        requires
            old(self).inv(),
            focus_of(old(self).state) is Some,
        ensures
            final(self).inv(),
            final(self).state == old(self).state,
            populate_list_detail_inputs_post(*old(self), *final(self)),
    {
        let state = self.state.clone();
        let name = self.get_focused_list(&state).name.clone();
        self.list_detail_input = Input::from(name).name(String::from_str("List Name"));
    }

    /// Copies the selected project's name into the project-name field, the
    /// caret at its end; a no-op with nothing selected.
    pub fn populate_project_detail_inputs(&mut self)
        requires
            old(self).inv(),
        ensures
            final(self).inv(),
            final(self).state == old(self).state,
            populate_project_detail_inputs_post(*old(self), *final(self)),
    {
        if let Some(i) = self.project_list.get_selected_index() {
            let project = self.project_list.projects.items[i].clone();
            self.project_detail_input = Input::from(project).name(
                String::from_str("Project Name"),
            );
        }
    }

    /// Commits the three detail fields, emptying them. On the edit-task
    /// prompt the selected task is replaced in place; on the create-task
    /// prompt the new task is appended to the focused collection, becoming
    /// selected when it is the first. Any other state only drains the fields.
    pub fn save_details_to_task(&mut self)
        requires
            old(self).inv(),
            (old(self).state is EditTask || old(self).state is CreateTask) ==> focus_of(
                old(self).state,
            ) is Some,
        ensures
            final(self).inv(),
            final(self).state == old(self).state,
            save_details_to_task_post(*old(self), *final(self)),
    {
        let mut inp = Input::new();
        self.task_detail_inputs.set_and_swap(0, &mut inp);
        let summary = inp.extract();
        self.task_detail_inputs.set_and_swap(0, &mut inp);
        let mut inp = Input::new();
        self.task_detail_inputs.set_and_swap(1, &mut inp);
        let desc = inp.extract();
        self.task_detail_inputs.set_and_swap(1, &mut inp);
        let mut inp = Input::new();
        self.task_detail_inputs.set_and_swap(2, &mut inp);
        let cat = inp.extract();
        self.task_detail_inputs.set_and_swap(2, &mut inp);

        let description = if desc.as_str().unicode_len() == 0 {
            None
        } else {
            Some(desc)
        };
        let category = if cat.as_str().unicode_len() == 0 {
            None
        } else {
            Some(cat)
        };
        let new_task = Task { summary, description, category };

        if matches!(self.state, AppState::EditTask(_)) {
            let focus = resolve_focus(&self.state);
            match focus {
                Some(Focus::Columns) => {
                    let a = self.active_list;
                    let sel = self.task_lists[a].get_selected_index();
                    if let Some(i) = sel {
                        let mut l = TaskList::default();
                        self.task_lists.set_and_swap(a, &mut l);
                        l.remove(i);
                        l.insert(i, new_task);
                        l.select(Some(i));
                        self.task_lists.set_and_swap(a, &mut l);
                    }
                },
                Some(Focus::Backlog) => {
                    let sel = self.backlog.get_selected_index();
                    if let Some(i) = sel {
                        self.backlog.remove(i);
                        self.backlog.insert(i, new_task);
                        self.backlog.select(Some(i));
                    }
                },
                Some(Focus::Archive) => {
                    let sel = self.archive.get_selected_index();
                    if let Some(i) = sel {
                        self.archive.remove(i);
                        self.archive.insert(i, new_task);
                        self.archive.select(Some(i));
                    }
                },
                None => {
                    proof {
                        assert(false);
                    }
                },
            }
        } else if matches!(self.state, AppState::CreateTask(_)) {
            let focus = resolve_focus(&self.state);
            match focus {
                Some(Focus::Columns) => {
                    let a = self.active_list;
                    let mut l = TaskList::default();
                    self.task_lists.set_and_swap(a, &mut l);
                    l.push(new_task);
                    self.task_lists.set_and_swap(a, &mut l);
                },
                Some(Focus::Backlog) => {
                    self.backlog.push(new_task);
                },
                Some(Focus::Archive) => {
                    self.archive.push(new_task);
                },
                None => {
                    proof {
                        assert(false);
                    }
                },
            }
        }
        self.unsaved_changes = true;
    }

    /// Commits the list-name field, emptying it. On the edit-list prompt the
    /// focused list is renamed in place; on the create-list prompt a fresh
    /// column with that name is appended. Any other state only drains the
    /// field.
    pub fn save_details_to_list(&mut self)
        requires
            old(self).inv(),
            old(self).state is EditList ==> focus_of(old(self).state) is Some,
        ensures
            final(self).inv(),
            final(self).state == old(self).state,
            save_details_to_list_post(*old(self), *final(self)),
    {
        let name = self.list_detail_input.extract();
        if matches!(self.state, AppState::EditList(_)) {
            let focus = resolve_focus(&self.state);
            match focus {
                Some(Focus::Columns) => {
                    let a = self.active_list;
                    let mut l = TaskList::default();
                    self.task_lists.set_and_swap(a, &mut l);
                    l.name = name;
                    self.task_lists.set_and_swap(a, &mut l);
                },
                Some(Focus::Backlog) => {
                    self.backlog.name = name;
                },
                Some(Focus::Archive) => {
                    self.archive.name = name;
                },
                None => {
                    proof {
                        assert(false);
                    }
                },
            }
        } else if matches!(self.state, AppState::CreateList(_)) {
            self.task_lists.push(TaskList::from(name));
        }
        self.unsaved_changes = true;
    }

    /// Commits the project-name field, emptying it. An empty name is
    /// rejected. On the edit-project prompt the selected project is renamed
    /// in place; on the create-project prompt the name is appended, becoming
    /// selected when it is the first. The returned action tells the shell
    /// which directory work the commit still needs.
    pub fn save_to_project(&mut self) -> (act: Option<ProjectAction>)
        requires
            old(self).inv(),
            old(self).state is EditProject || old(self).state is CreateProject,
        ensures
            final(self).inv(),
            final(self).state == old(self).state,
            save_to_project_post(*old(self), *final(self), act),
    {
        let name = self.project_detail_input.extract();
        if name.as_str().unicode_len() == 0 {
            return None;
        }
        if matches!(self.state, AppState::EditProject(_)) {
            match self.project_list.get_selected_index() {
                Some(i) => {
                    let old_name = self.project_list.remove(i);
                    self.project_list.insert(i, name.clone());
                    self.project_list.select(Some(i));
                    Some(ProjectAction::Rename(old_name, name))
                },
                None => None,
            }
        } else {
            self.project_list.push(name.clone());
            Some(ProjectAction::Create(name))
        }
    }

    /// Removes the selected project from the menu and hands its name back so
    /// the shell can delete the directory; a no-op with nothing selected.
    pub fn delete_focused_project(&mut self) -> (removed: Option<String>)
        requires
            old(self).inv(),
        ensures
            final(self).inv(),
            final(self).state == old(self).state,
            delete_focused_project_post(*old(self), *final(self), removed),
    {
        match self.project_list.get_selected_index() {
            Some(i) => {
                let project = self.project_list.remove(i);
                Some(project)
            },
            None => None,
        }
    }
}

/// Steps a palette color by `amount`, wrapping the `1..=7` range end to end.
fn cycled_color(c: u8, amount: i8) -> (r: u8)
    ensures
        r as int == cycle_color(c as int, amount as int),
        1 <= r <= 7,
{
    let target: i16 = c as i16 + amount as i16;
    if target < 1 {
        7
    } else if target > 7 {
        1
    } else {
        target as u8
    }
}

/// Re-selects the first item of every non-empty list.
fn select_first_each(lists: &mut Vec<TaskList>)
    requires
        forall|i: int| 0 <= i < old(lists)@.len() ==> (#[trigger] old(lists)@[i]).inv(),
    ensures
        final(lists)@.len() == old(lists)@.len(),
        forall|i: int| 0 <= i < old(lists)@.len() ==> (#[trigger] final(lists)@[i]).inv(),
        forall|i: int|
            0 <= i < old(lists)@.len() ==> {
                &&& (#[trigger] final(lists)@[i]).name == old(lists)@[i].name
                &&& final(lists)@[i].color_index == old(lists)@[i].color_index
                &&& final(lists)@[i].tasks.items@ == old(lists)@[i].tasks.items@
                &&& final(lists)@[i].tasks.selected == (if old(lists)@[i].tasks.items@.len() > 0 {
                    Option::Some(0usize)
                } else {
                    old(lists)@[i].tasks.selected
                })
            },
{
    let mut i: usize = 0;
    while i < lists.len()
        invariant
            i <= lists@.len(),
            lists@.len() == old(lists)@.len(),
            forall|j: int| 0 <= j < lists@.len() ==> (#[trigger] lists@[j]).inv(),
            forall|j: int| i <= j < lists@.len() ==> #[trigger] lists@[j] == old(lists)@[j],
            forall|j: int|
                0 <= j < i ==> {
                    &&& (#[trigger] lists@[j]).name == old(lists)@[j].name
                    &&& lists@[j].color_index == old(lists)@[j].color_index
                    &&& lists@[j].tasks.items@ == old(lists)@[j].tasks.items@
                    &&& lists@[j].tasks.selected == (if old(lists)@[j].tasks.items@.len() > 0 {
                        Option::Some(0usize)
                    } else {
                        old(lists)@[j].tasks.selected
                    })
                },
        decreases lists@.len() - i,
    {
        let empty = lists[i].is_empty();
        if !empty {
            let mut l = TaskList::default();
            lists.set_and_swap(i, &mut l);
            l.select(Some(0));
            lists.set_and_swap(i, &mut l);
        }
        i = i + 1;
    }
}

} // verus!
