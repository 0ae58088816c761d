use vstd::prelude::*;

use crate::input::{browse_consumes, edited_buffer, popup_open_after, KeyCode};
use crate::stateful_list::{cursor_after_delete, next_cursor, previous_cursor, StatefulList};

verus! {

/// A to-do item.
pub struct Task {
    pub title: String,
    pub is_completed: bool,
}

impl Task {
    /// An open task with an empty title.
    pub fn default() -> (r: Self)
        ensures
            r.title@ == Seq::<char>::empty(),
            !r.is_completed,
    {
        Self { title: String::new(), is_completed: false }
    }

    /// An open task with the given title.
    pub fn new(title: String) -> (r: Self)
        ensures
            r.title == title,
            !r.is_completed,
    {
        Self { title, is_completed: false }
    }
}

/// The task list with its create popup.
pub struct TaskState {
    pub tasks: StatefulList<Task>,
    /// The draft of the task being created while the popup is open.
    pub new_task: Task,
    pub new_task_popup_enabled: bool,
}

/// The list after the selected task's completion flag is flipped in place.
pub open spec fn toggled_tasks(items: Seq<Task>, sel: Option<usize>) -> Seq<Task> {
    match sel {
        Some(i) => items.update(
            i as int,
            Task { title: items[i as int].title, is_completed: !items[i as int].is_completed },
        ),
        None => items,
    }
}

/// Whether the draft is an empty, open task.
pub open spec fn task_draft_empty(t: Task) -> bool {
    t.title@ == Seq::<char>::empty() && !t.is_completed
}

/// The list and draft after `key` in browsing mode, the popup being closed.
/// Only 'n' touches the draft, which it empties.
pub open spec fn task_browse_step(pre: TaskState, key: KeyCode, post: TaskState) -> bool {
    let items = pre.tasks.items@;
    let sel = pre.tasks.selected;
    match key {
        KeyCode::Char('n') => post.tasks.items@ == items && post.tasks.selected == sel
            && task_draft_empty(post.new_task),
        _ => post.new_task == pre.new_task && match key {
            KeyCode::Up => post.tasks.items@ == items && post.tasks.selected
                == previous_cursor(sel, items.len()),
            KeyCode::Down => post.tasks.items@ == items && post.tasks.selected
                == next_cursor(sel, items.len()),
            KeyCode::Enter => post.tasks.items@ == toggled_tasks(items, sel)
                && post.tasks.selected == sel,
            KeyCode::Char('d') => match sel {
                None => post.tasks.items@ == items && post.tasks.selected == sel,
                Some(i) => post.tasks.items@ == items.remove(i as int) && post.tasks.selected
                    == cursor_after_delete(i, post.tasks.items@.len()),
            },
            _ => post.tasks.items@ == items && post.tasks.selected == sel,
        },
    }
}

/// The list and draft after `key` while the create popup is open: Enter
/// commits the draft as a new task at the tail, Escape discards it, and any
/// other key edits it. Enter and Escape leave an empty draft.
pub open spec fn task_popup_step(pre: TaskState, key: KeyCode, post: TaskState) -> bool {
    let items = pre.tasks.items@;
    &&& post.tasks.selected == pre.tasks.selected
    &&& match key {
        KeyCode::Enter => {
            &&& post.tasks.items@.len() == items.len() + 1
            &&& post.tasks.items@.drop_last() == items
            &&& post.tasks.items@.last().title@ == pre.new_task.title@
            &&& !post.tasks.items@.last().is_completed
            &&& task_draft_empty(post.new_task)
        },
        KeyCode::Esc => post.tasks.items@ == items && task_draft_empty(post.new_task),
        _ => {
            &&& post.tasks.items@ == items
            &&& post.new_task.title@ == edited_buffer(pre.new_task.title@, key)
            &&& post.new_task.is_completed == pre.new_task.is_completed
        },
    }
}

impl TaskState {
    pub open spec fn wf(&self) -> bool {
        self.tasks.wf()
    }

    /// An empty list, an empty draft, and the popup closed.
    pub fn new() -> (r: Self)
        ensures
            r.wf(),
            r.tasks.items@.len() == 0,
            r.tasks.selected is None,
            r.new_task.title@ == Seq::<char>::empty(),
            !r.new_task_popup_enabled,
    {
        Self {
            tasks: StatefulList::with_items(Vec::new()),
            new_task: Task::default(),
            new_task_popup_enabled: false,
        }
    }

    fn delete_selected_task(&mut self)
        requires
            old(self).wf(),
        ensures
            final(self).wf(),
            final(self).new_task == old(self).new_task,
            final(self).new_task_popup_enabled == old(self).new_task_popup_enabled,
            task_browse_step(*old(self), KeyCode::Char('d'), *final(self)),
    {
        self.tasks.delete_current();
    }

    fn open_create_popup(&mut self)
        ensures
            final(self).new_task_popup_enabled,
            final(self).tasks == old(self).tasks,
            final(self).new_task == old(self).new_task,
    {
        self.new_task_popup_enabled = true;
    }

    fn close_create_popup(&mut self)
        ensures
            !final(self).new_task_popup_enabled,
            final(self).tasks == old(self).tasks,
            final(self).new_task == old(self).new_task,
    {
        self.new_task_popup_enabled = false;
    }

    fn create_new_task(&mut self)
        requires
            old(self).wf(),
        ensures
            final(self).wf(),
            final(self).new_task_popup_enabled == old(self).new_task_popup_enabled,
            task_popup_step(*old(self), KeyCode::Enter, *final(self)),
    {
        let new_task = Task::new(self.new_task.title.clone());
        self.tasks.push(new_task);
        assert(self.tasks.items@.drop_last() =~= old(self).tasks.items@);
        self.new_task = Task::default();
    }

    /// Handles a key. While the popup is open every key is taken by it and
    /// edits, commits or discards the draft; while browsing, the list keys
    /// are taken and any other key is left for the caller. Returns whether
    /// the key was taken.
    pub fn on_keycode(&mut self, key: KeyCode) -> (r: bool)
        requires
            old(self).wf(),
        ensures
            final(self).wf(),
            r == (old(self).new_task_popup_enabled || browse_consumes(key)),
            final(self).new_task_popup_enabled == popup_open_after(
                old(self).new_task_popup_enabled,
                key,
            ),
            old(self).new_task_popup_enabled ==> task_popup_step(*old(self), key, *final(self)),
            !old(self).new_task_popup_enabled ==> task_browse_step(*old(self), key, *final(self)),
            old(self).new_task_popup_enabled && key == KeyCode::Enter ==> {
                &&& final(self).tasks.items@.len() == old(self).tasks.items@.len() + 1
                &&& final(self).tasks.items@.last().title@ == old(self).new_task.title@
                &&& !final(self).tasks.items@.last().is_completed
            },
    {
        if self.new_task_popup_enabled {
            self.on_popup_keycode(key);
            return true;
        }
        match key {
            KeyCode::Up => {
                self.tasks.previous();
                true
            },
            KeyCode::Down => {
                self.tasks.next();
                true
            },
            KeyCode::Enter => {
                if let Some(selection) = self.tasks.selected() {
                    self.tasks.items[selection].is_completed =
                        !self.tasks.items[selection].is_completed;
                }
                true
            },
            KeyCode::Char(c) => {
                if c == 'd' {
                    self.delete_selected_task();
                    true
                } else if c == 'n' {
                    self.open_create_popup();
                    self.new_task = Task::default();
                    true
                } else {
                    false
                }
            },
            _ => false,
        }
    }

    fn on_popup_keycode(&mut self, key: KeyCode)
        requires
            old(self).wf(),
            old(self).new_task_popup_enabled,
        ensures
            final(self).wf(),
            final(self).new_task_popup_enabled == popup_open_after(true, key),
            task_popup_step(*old(self), key, *final(self)),
    {
        match key {
            KeyCode::Char(c) => {
                self.new_task.title.push(c);
            },
            KeyCode::Backspace => {
                self.new_task.title.pop();
            },
            KeyCode::Esc => {
                self.close_create_popup();
                self.new_task = Task::default();
            },
            KeyCode::Enter => {
                self.create_new_task();
                self.close_create_popup();
            },
            _ => {},
        }
    }
}

} // verus!
