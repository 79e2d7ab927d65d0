use vstd::prelude::*;
use vstd::string::StringExecFns;
use crate::collection::SelectableCollection;

verus! {

/// A single task on the board: a required summary line plus optional
/// free-text description and category labels. Tasks have no identity of
/// their own; moving one between collections is a remove-then-insert.
pub struct Task {
    pub summary: String,
    pub description: Option<String>,
    pub category: Option<String>,
}

impl Clone for Task {
    fn clone(&self) -> (r: Self)
        ensures
            r == *self,
    {
        Task {
            summary: self.summary.clone(),
            description: match &self.description {
                Some(d) => Some(d.clone()),
                None => None,
            },
            category: match &self.category {
                Some(c) => Some(c.clone()),
                None => None,
            },
        }
    }
}

/// A named, colored collection of tasks. The tracker columns, the backlog
/// and the archive all share this shape.
pub struct TaskList {
    pub name: String,
    pub color_index: u8,
    pub tasks: SelectableCollection<Task>,
}

impl TaskList {
    /// The tasks keep their selection invariant and the color stays inside
    /// the palette's cyclic range.
    pub open spec fn inv(self) -> bool {
        &&& self.tasks.inv()
        &&& 1 <= self.color_index <= 7
    }

    pub fn default() -> (r: Self)
        ensures
            r.name@ == "Tasks"@,
            r.color_index == 7,
            r.tasks.items@.len() == 0,
            r.tasks.selected is None,
            r.inv(),
    {
        TaskList {
            name: String::from_str("Tasks"),
            color_index: 7,
            tasks: SelectableCollection::new(),
        }
    }

    pub fn from(name: String) -> (r: Self)
        ensures
            r.name == name,
            r.color_index == 7,
            r.tasks.items@.len() == 0,
            r.tasks.selected is None,
            r.inv(),
    {
        TaskList { name, color_index: 7, tasks: SelectableCollection::new() }
    }

    pub fn empty_backlog() -> (r: Self)
        ensures
            r.name@ == "Backlog"@,
            r.color_index == 6,
            r.tasks.items@.len() == 0,
            r.tasks.selected is None,
            r.inv(),
    {
        TaskList {
            name: String::from_str("Backlog"),
            color_index: 6,
            tasks: SelectableCollection::new(),
        }
    }

    pub fn empty_archive() -> (r: Self)
        ensures
            r.name@ == "Archive"@,
            r.color_index == 1,
            r.tasks.items@.len() == 0,
            r.tasks.selected is None,
            r.inv(),
    {
        TaskList {
            name: String::from_str("Archive"),
            color_index: 1,
            tasks: SelectableCollection::new(),
        }
    }

    pub fn is_empty(&self) -> (b: bool)
        ensures
            b == (self.tasks.items@.len() == 0),
    {
        self.tasks.is_empty()
    }

    pub fn select(&mut self, index: Option<usize>)
        requires
            match index {
                None => old(self).tasks.items@.len() == 0,
                Some(i) => i < old(self).tasks.items@.len(),
            },
        ensures
            final(self).tasks.items@ == old(self).tasks.items@,
            final(self).tasks.selected == index,
            final(self).name == old(self).name,
            final(self).color_index == old(self).color_index,
            old(self).inv() ==> final(self).inv(),
    {
        self.tasks.select(index);
    }

    pub fn get_selected_index(&self) -> (s: Option<usize>)
        ensures
            s == self.tasks.selected,
    {
        self.tasks.get_selected_index()
    }

    pub fn len(&self) -> (n: usize)
        ensures
            n == self.tasks.items@.len(),
    {
        self.tasks.len()
    }

    pub fn swap(&mut self, i1: usize, i2: usize)
        requires
            old(self).tasks.inv(),
            i1 < old(self).tasks.items@.len(),
            i2 < old(self).tasks.items@.len(),
        ensures
            final(self).tasks.items@ == old(self).tasks.items@.update(
                i1 as int,
                old(self).tasks.items@[i2 as int],
            ).update(i2 as int, old(self).tasks.items@[i1 as int]),
            final(self).tasks.selected == old(self).tasks.selected,
            final(self).name == old(self).name,
            final(self).color_index == old(self).color_index,
            old(self).inv() ==> final(self).inv(),
    {
        self.tasks.swap(i1, i2);
    }

    pub fn remove(&mut self, i: usize) -> (task: Task)
        requires
            old(self).tasks.inv(),
            i < old(self).tasks.items@.len(),
        ensures
            task == old(self).tasks.items@[i as int],
            final(self).tasks.items@ == old(self).tasks.items@.remove(i as int),
            final(self).tasks.selected == crate::collection::sel_after_remove(
                old(self).tasks.selected,
                old(self).tasks.items@.len() as int,
            ),
            final(self).name == old(self).name,
            final(self).color_index == old(self).color_index,
            old(self).inv() ==> final(self).inv(),
    {
        self.tasks.remove(i)
    }

    pub fn push(&mut self, task: Task)
        requires
            old(self).tasks.inv(),
        ensures
            final(self).tasks.items@ == old(self).tasks.items@.push(task),
            final(self).tasks.selected == (if old(self).tasks.items@.len() == 0 {
                Option::Some(0usize)
            } else {
                old(self).tasks.selected
            }),
            final(self).name == old(self).name,
            final(self).color_index == old(self).color_index,
            old(self).inv() ==> final(self).inv(),
    {
        self.tasks.push(task);
    }

    pub fn insert(&mut self, i: usize, task: Task)
        requires
            i <= old(self).tasks.items@.len(),
        ensures
            final(self).tasks.items@ == old(self).tasks.items@.insert(i as int, task),
            final(self).tasks.selected == old(self).tasks.selected,
            final(self).name == old(self).name,
            final(self).color_index == old(self).color_index,
            old(self).inv() && old(self).tasks.items@.len() > 0 ==> final(self).inv(),
    {
        self.tasks.insert(i, task);
    }
}

/// The names of the projects on disk, with a selection for the menu screen.
pub struct ProjectList {
    pub projects: SelectableCollection<String>,
}

impl ProjectList {
    /// Builds the menu from the project names the shell discovered; the
    /// first project starts out selected.
    pub fn create(projects: Vec<String>) -> (r: Self)
        ensures
            r.projects.items@ == projects@,
            r.projects.selected == (if projects@.len() == 0 {
                Option::<usize>::None
            } else {
                Option::Some(0usize)
            }),
            r.projects.inv(),
    {
        ProjectList { projects: SelectableCollection::from_items(projects) }
    }

    pub fn is_empty(&self) -> (b: bool)
        ensures
            b == (self.projects.items@.len() == 0),
    {
        self.projects.is_empty()
    }

    pub fn select(&mut self, index: Option<usize>)
        requires
            match index {
                None => old(self).projects.items@.len() == 0,
                Some(i) => i < old(self).projects.items@.len(),
            },
        ensures
            final(self).projects.items@ == old(self).projects.items@,
            final(self).projects.selected == index,
            final(self).projects.inv(),
    {
        self.projects.select(index);
    }

    pub fn get_selected_index(&self) -> (s: Option<usize>)
        ensures
            s == self.projects.selected,
    {
        self.projects.get_selected_index()
    }

    pub fn len(&self) -> (n: usize)
        ensures
            n == self.projects.items@.len(),
    {
        self.projects.len()
    }

    pub fn remove(&mut self, i: usize) -> (name: String)
        requires
            old(self).projects.inv(),
            i < old(self).projects.items@.len(),
        ensures
            name == old(self).projects.items@[i as int],
            final(self).projects.items@ == old(self).projects.items@.remove(i as int),
            final(self).projects.selected == crate::collection::sel_after_remove(
                old(self).projects.selected,
                old(self).projects.items@.len() as int,
            ),
            final(self).projects.inv(),
    {
        self.projects.remove(i)
    }

    pub fn push(&mut self, project: String)
        requires
            old(self).projects.inv(),
        ensures
            final(self).projects.items@ == old(self).projects.items@.push(project),
            final(self).projects.selected == (if old(self).projects.items@.len() == 0 {
                Option::Some(0usize)
            } else {
                old(self).projects.selected
            }),
            final(self).projects.inv(),
    {
        self.projects.push(project);
    }

    pub fn insert(&mut self, i: usize, project: String)
        requires
            i <= old(self).projects.items@.len(),
        ensures
            final(self).projects.items@ == old(self).projects.items@.insert(i as int, project),
            final(self).projects.selected == old(self).projects.selected,
            old(self).projects.inv() && old(self).projects.items@.len() > 0
                ==> final(self).projects.inv(),
    {
        self.projects.insert(i, project);
    }
}

} // verus!
