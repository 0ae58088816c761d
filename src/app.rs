use vstd::prelude::*;

use crate::input::{browse_consumes, popup_open_after, KeyCode};
use crate::tasks::{task_browse_step, task_popup_step, TaskState};
use crate::timers::{tick_step, timer_browse_step, timer_popup_step, TimerState};

verus! {

/// The tab titles and the index of the active tab.
pub struct TabsState<'a> {
    pub titles: Vec<&'a str>,
    pub index: usize,
}

impl<'a> TabsState<'a> {
    /// The index points at a title, when there is one.
    pub open spec fn wf(&self) -> bool {
        self.titles@.len() == 0 || self.index < self.titles@.len()
    }

    /// Tabs with the given titles, the first one active.
    pub fn new(titles: Vec<&'a str>) -> (r: TabsState<'a>)
        ensures
            r.wf(),
            r.titles@ == titles@,
            r.index == 0,
    {
        TabsState { titles, index: 0 }
    }

    /// Activates the next tab, wrapping to the first.
    pub fn next(&mut self)
        requires
            old(self).wf(),
            old(self).titles@.len() > 0,
        ensures
            final(self).wf(),
            final(self).titles@ == old(self).titles@,
            final(self).index == (old(self).index + 1) % (old(self).titles@.len() as int),
    {
        let len = self.titles.len();
        self.index = (self.index + 1) % len;
    }

    /// Activates the previous tab, wrapping to the last.
    pub fn previous(&mut self)
        requires
            old(self).wf(),
            old(self).titles@.len() > 0,
        ensures
            final(self).wf(),
            final(self).titles@ == old(self).titles@,
            final(self).index == if old(self).index == 0 {
                old(self).titles@.len() - 1
            } else {
                old(self).index - 1
            },
    {
        if self.index > 0 {
            self.index -= 1;
        } else {
            self.index = self.titles.len() - 1;
        }
    }
}

/// The tabs of the application, in display order.
pub enum AppTab {
    Tasks,
    Timers,
}

/// The title shown for a tab.
pub fn get_menu_item_title(menu_item: AppTab) -> (r: &'static str)
    ensures
        menu_item is Tasks ==> r@ == "Tasks"@,
        menu_item is Timers ==> r@ == "Timers"@,
{
    match menu_item {
        AppTab::Tasks => "Tasks",
        AppTab::Timers => "Timers",
    }
}

/// The whole application state: tabs, both features, and the quit flag.
pub struct App<'a> {
    pub title: &'a str,
    pub tabs: TabsState<'a>,
    pub task_state: TaskState,
    pub timer_state: TimerState,
    pub should_quit: bool,
    pub display_debugger: bool,
    pub enhanced_graphics: bool,
}

/// Index of the task tab.
pub const TASKS_TAB: usize = 0;

/// Index of the timer tab.
pub const TIMERS_TAB: usize = 1;

/// Whether a key left to the global bindings sets the quit flag.
pub open spec fn quits(popup_open: bool, key: KeyCode) -> bool {
    !popup_open && key == KeyCode::Char('q')
}

/// The active tab after a key that no feature took.
pub open spec fn tab_after_global_key(index: usize, key: KeyCode) -> usize {
    match key {
        KeyCode::Char('1') => TASKS_TAB,
        KeyCode::Char('2') => TIMERS_TAB,
        KeyCode::Left => if index == 0 { 1 } else { (index - 1) as usize },
        KeyCode::Right => ((index + 1) % 2) as usize,
        _ => index,
    }
}

impl<'a> App<'a> {
    /// Two tabs, the active one within them, and both features well formed.
    pub open spec fn wf(&self) -> bool {
        &&& self.tabs.wf()
        &&& self.tabs.titles@.len() == 2
        &&& self.task_state.wf()
        &&& self.timer_state.wf()
    }

    /// Whether the active tab's create popup is open.
    pub open spec fn popup_open(&self) -> bool {
        if self.tabs.index == TASKS_TAB {
            self.task_state.new_task_popup_enabled
        } else {
            self.timer_state.new_timer_popup_enabled
        }
    }

    /// The task tab active, both features empty, and the quit flag clear.
    pub fn new(title: &'a str, enhanced_graphics: bool) -> (r: App<'a>)
        ensures
            r.wf(),
            r.title == title,
            r.enhanced_graphics == enhanced_graphics,
            r.tabs.titles@.len() == 2,
            r.tabs.titles@[0]@ == "Tasks"@,
            r.tabs.titles@[1]@ == "Timers"@,
            r.tabs.index == TASKS_TAB,
            !r.display_debugger,
            !r.task_state.new_task_popup_enabled,
            !r.timer_state.new_timer_popup_enabled,
            !r.should_quit,
            !r.popup_open(),
            r.task_state.tasks.items@.len() == 0,
            r.timer_state.timers.items@.len() == 0,
    {
        let mut titles: Vec<&'a str> = Vec::new();
        titles.push(get_menu_item_title(AppTab::Tasks));
        titles.push(get_menu_item_title(AppTab::Timers));
        App {
            title,
            should_quit: false,
            tabs: TabsState::new(titles),
            task_state: TaskState::new(),
            timer_state: TimerState::new(),
            enhanced_graphics,
            display_debugger: false,
        }
    }

    /// Hands `key` to the active tab's feature; a key that it does not take
    /// goes to the global bindings: '1' and '2' pick a tab, Left and Right
    /// cycle the tabs, and 'q' sets the quit flag.
    pub fn on_keycode(&mut self, key: KeyCode)
        requires
            old(self).wf(),
        ensures
            final(self).wf(),
            final(self).title == old(self).title,
            final(self).tabs.titles@ == old(self).tabs.titles@,
            final(self).should_quit == (old(self).should_quit || quits(old(self).popup_open(), key)),
            final(self).display_debugger == old(self).display_debugger,
            final(self).enhanced_graphics == old(self).enhanced_graphics,
            final(self).tabs.index == if old(self).popup_open() || browse_consumes(key) {
                old(self).tabs.index
            } else {
                tab_after_global_key(old(self).tabs.index, key)
            },
            old(self).tabs.index == TASKS_TAB ==> {
                &&& final(self).timer_state == old(self).timer_state
                &&& final(self).task_state.new_task_popup_enabled == popup_open_after(
                    old(self).task_state.new_task_popup_enabled,
                    key,
                )
                &&& old(self).task_state.new_task_popup_enabled ==> task_popup_step(
                    old(self).task_state,
                    key,
                    final(self).task_state,
                )
                &&& !old(self).task_state.new_task_popup_enabled ==> task_browse_step(
                    old(self).task_state,
                    key,
                    final(self).task_state,
                )
            },
            old(self).tabs.index == TIMERS_TAB ==> {
                &&& final(self).task_state == old(self).task_state
                &&& final(self).timer_state.new_timer_popup_enabled == popup_open_after(
                    old(self).timer_state.new_timer_popup_enabled,
                    key,
                )
                &&& final(self).timer_state.clock_origin == old(self).timer_state.clock_origin
                &&& final(self).timer_state.last_tick_ms == old(self).timer_state.last_tick_ms
                &&& old(self).timer_state.new_timer_popup_enabled ==> timer_popup_step(
                    old(self).timer_state,
                    key,
                    final(self).timer_state,
                )
                &&& !old(self).timer_state.new_timer_popup_enabled ==> timer_browse_step(
                    old(self).timer_state,
                    key,
                    final(self).timer_state,
                )
            },
    {
        if self.tabs.index == TASKS_TAB && self.task_state.on_keycode(key) {
            return;
        }
        if self.tabs.index == TIMERS_TAB && self.timer_state.on_keycode(key) {
            return;
        }
        match key {
            KeyCode::Char(c) => {
                if c == '1' {
                    self.tabs.index = TASKS_TAB;
                } else if c == '2' {
                    self.tabs.index = TIMERS_TAB;
                } else if c == 'q' {
                    self.should_quit = true;
                }
            },
            KeyCode::Left => self.on_left(),
            KeyCode::Right => self.on_right(),
            _ => {},
        }
    }

    /// Activates the next tab.
    pub fn on_right(&mut self)
        requires
            old(self).wf(),
        ensures
            final(self).wf(),
            final(self).tabs.index == tab_after_global_key(old(self).tabs.index, KeyCode::Right),
            final(self).tabs.titles@ == old(self).tabs.titles@,
            final(self).task_state == old(self).task_state,
            final(self).timer_state == old(self).timer_state,
            final(self).should_quit == old(self).should_quit,
            final(self).title == old(self).title,
            final(self).display_debugger == old(self).display_debugger,
            final(self).enhanced_graphics == old(self).enhanced_graphics,
    {
        self.tabs.next();
    }

    /// Activates the previous tab.
    pub fn on_left(&mut self)
        requires
            old(self).wf(),
        ensures
            final(self).wf(),
            final(self).tabs.index == tab_after_global_key(old(self).tabs.index, KeyCode::Left),
            final(self).tabs.titles@ == old(self).tabs.titles@,
            final(self).task_state == old(self).task_state,
            final(self).timer_state == old(self).timer_state,
            final(self).should_quit == old(self).should_quit,
            final(self).title == old(self).title,
            final(self).display_debugger == old(self).display_debugger,
            final(self).enhanced_graphics == old(self).enhanced_graphics,
    {
        self.tabs.previous();
    }

    /// Hands a tick to the timer feature; nothing else changes.
    pub fn on_tick(&mut self)
        requires
            old(self).wf(),
        ensures
            final(self).wf(),
            final(self).tabs == old(self).tabs,
            final(self).task_state == old(self).task_state,
            final(self).should_quit == old(self).should_quit,
            final(self).title == old(self).title,
            final(self).display_debugger == old(self).display_debugger,
            final(self).enhanced_graphics == old(self).enhanced_graphics,
            tick_step(old(self).timer_state, final(self).timer_state.last_tick_ms, final(self).timer_state),
            final(self).timer_state.last_tick_ms >= old(self).timer_state.last_tick_ms,
    {
        self.timer_state.on_tick();
    }
}

/// While a popup is open the quit key neither quits nor closes it; once
/// Escape or Enter has closed it, the quit key quits.
pub proof fn lemma_popup_holds_back_quit(closing: KeyCode)
    requires
        closing is Esc || closing is Enter,
    ensures
        !quits(true, KeyCode::Char('q')),
        popup_open_after(true, KeyCode::Char('q')),
        !popup_open_after(true, closing),
        quits(popup_open_after(true, closing), KeyCode::Char('q')),
{
}

} // verus!
