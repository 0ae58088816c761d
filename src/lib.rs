//! Interactive state core of a terminal task and timer manager: selectable
//! lists, per-feature modal key handling, tab switching and timer accrual.

mod app;
mod input;
mod stateful_list;
mod tasks;
mod timers;

pub use app::{get_menu_item_title, App, AppTab, TabsState, TASKS_TAB, TIMERS_TAB};
pub use input::KeyCode;
pub use stateful_list::StatefulList;
pub use tasks::{Task, TaskState};
pub use timers::{Timer, TimerState, TICK_INTERVAL_MS};
