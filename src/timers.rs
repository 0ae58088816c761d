use vstd::prelude::*;

use std::time::{Duration, Instant};

use crate::input::{browse_consumes, edited_buffer, popup_open_after, KeyCode};
use crate::stateful_list::{cursor_after_delete, next_cursor, previous_cursor, StatefulList};

verus! {

#[verifier::external_type_specification]
#[verifier::external_body]
pub struct ExInstant(Instant);

/// Relies on Instant::now: a reading of the monotonic clock.
pub assume_specification[ Instant::now ]() -> Instant;

/// Relies on Instant::elapsed: the monotonic time since the instant.
pub assume_specification[ Instant::elapsed ](i: &Instant) -> Duration;

/// Relies on Duration::as_millis: the whole milliseconds of a duration.
pub assume_specification[ Duration::as_millis ](d: &Duration) -> u128;

/// Relies on chrono's Local::now and DateTime::timestamp_millis: the wall-clock
/// time, as milliseconds since the Unix epoch.
#[verifier::external_body]
fn local_now_millis() -> (r: i64) {
    chrono::Local::now().timestamp_millis()
}

/// Ticks that come sooner than this after the last processed one are skipped.
pub const TICK_INTERVAL_MS: u64 = 1000;

/// Whether a tick at `now` is processed, the last one having been at `last`.
pub open spec fn tick_due(last: u64, now: u64) -> bool {
    now - last > TICK_INTERVAL_MS
}

/// A timer's active time after a tick at `now`: an active timer gains the
/// time since the last processed tick (saturating), when the tick is due.
pub open spec fn accrued_ms(acc: u64, active: bool, last: u64, now: u64) -> u64 {
    if active && tick_due(last, now) {
        if acc + (now - last) > u64::MAX {
            u64::MAX
        } else {
            (acc + (now - last)) as u64
        }
    } else {
        acc
    }
}

/// The time of the last processed tick after a tick at `now`.
pub open spec fn last_tick_after(last: u64, now: u64) -> u64 {
    if tick_due(last, now) {
        now
    } else {
        last
    }
}

/// A named duration that accrues while it is active.
pub struct Timer {
    pub title: String,
    pub is_active: bool,
    /// Active time accrued so far, in milliseconds.
    pub time_active_ms: u64,
    /// Creation time, in milliseconds since the Unix epoch.
    pub time_created_ms: i64,
}

impl Timer {
    /// An inactive timer with the given title and creation time, and no
    /// active time.
    pub fn new_at(title: String, created_ms: i64) -> (r: Self)
        ensures
            r.title == title,
            !r.is_active,
            r.time_active_ms == 0,
            r.time_created_ms == created_ms,
    {
        Self { title, is_active: false, time_active_ms: 0, time_created_ms: created_ms }
    }

    /// An inactive timer with an empty title, created now.
    pub fn default() -> (r: Self)
        ensures
            r.title@ == Seq::<char>::empty(),
            !r.is_active,
            r.time_active_ms == 0,
    {
        Self::new_at(String::new(), local_now_millis())
    }

    /// An inactive timer with the given title, created now.
    pub fn new(title: String) -> (r: Self)
        ensures
            r.title == title,
            !r.is_active,
            r.time_active_ms == 0,
    {
        Self::new_at(title, local_now_millis())
    }
}

/// The timer list with its create popup and its tick clock.
pub struct TimerState {
    pub timers: StatefulList<Timer>,
    /// The draft of the timer being created while the popup is open.
    pub new_timer: Timer,
    pub new_timer_popup_enabled: bool,
    /// The monotonic instant that tick times are measured from.
    pub clock_origin: Instant,
    /// The time of the last processed tick, in milliseconds since `clock_origin`.
    pub last_tick_ms: u64,
}

/// The list after the selected timer's active flag is flipped in place.
pub open spec fn toggled_timers(items: Seq<Timer>, sel: Option<usize>) -> Seq<Timer> {
    match sel {
        Some(i) => items.update(
            i as int,
            Timer { is_active: !items[i as int].is_active, ..items[i as int] },
        ),
        None => items,
    }
}

/// Whether the draft is an empty, inactive timer with no active time.
pub open spec fn timer_draft_empty(t: Timer) -> bool {
    t.title@ == Seq::<char>::empty() && !t.is_active && t.time_active_ms == 0
}

/// The list and draft after `key` in browsing mode, the popup being closed.
/// Only 'n' touches the draft, which it empties.
pub open spec fn timer_browse_step(pre: TimerState, key: KeyCode, post: TimerState) -> bool {
    let items = pre.timers.items@;
    let sel = pre.timers.selected;
    match key {
        KeyCode::Char('n') => post.timers.items@ == items && post.timers.selected == sel
            && timer_draft_empty(post.new_timer),
        _ => post.new_timer == pre.new_timer && match key {
            KeyCode::Up => post.timers.items@ == items && post.timers.selected
                == previous_cursor(sel, items.len()),
            KeyCode::Down => post.timers.items@ == items && post.timers.selected
                == next_cursor(sel, items.len()),
            KeyCode::Enter => post.timers.items@ == toggled_timers(items, sel)
                && post.timers.selected == sel,
            KeyCode::Char('d') => match sel {
                None => post.timers.items@ == items && post.timers.selected == sel,
                Some(i) => post.timers.items@ == items.remove(i as int) && post.timers.selected
                    == cursor_after_delete(i, post.timers.items@.len()),
            },
            _ => post.timers.items@ == items && post.timers.selected == sel,
        },
    }
}

/// The list and draft after `key` while the create popup is open: Enter
/// commits the draft as a new inactive timer at the tail, Escape discards
/// it, and any other key edits its title. Enter and Escape leave an empty
/// draft.
pub open spec fn timer_popup_step(pre: TimerState, key: KeyCode, post: TimerState) -> bool {
    let items = pre.timers.items@;
    &&& post.timers.selected == pre.timers.selected
    &&& match key {
        KeyCode::Enter => {
            &&& post.timers.items@.len() == items.len() + 1
            &&& post.timers.items@.drop_last() == items
            &&& post.timers.items@.last().title@ == pre.new_timer.title@
            &&& !post.timers.items@.last().is_active
            &&& post.timers.items@.last().time_active_ms == 0
            &&& timer_draft_empty(post.new_timer)
        },
        KeyCode::Esc => post.timers.items@ == items && timer_draft_empty(post.new_timer),
        _ => {
            &&& post.timers.items@ == items
            &&& post.new_timer.title@ == edited_buffer(pre.new_timer.title@, key)
            &&& post.new_timer.is_active == pre.new_timer.is_active
            &&& post.new_timer.time_active_ms == pre.new_timer.time_active_ms
            &&& post.new_timer.time_created_ms == pre.new_timer.time_created_ms
        },
    }
}

/// The state after a tick at `now`: when the tick is due, every active timer
/// gains the time since the last processed tick and the tick becomes the
/// last processed one; nothing else changes.
pub open spec fn tick_step(pre: TimerState, now: u64, post: TimerState) -> bool {
    &&& post.last_tick_ms == last_tick_after(pre.last_tick_ms, now)
    &&& post.clock_origin == pre.clock_origin
    &&& post.timers.selected == pre.timers.selected
    &&& post.timers.items@.len() == pre.timers.items@.len()
    &&& forall|i: int|
        0 <= i < pre.timers.items@.len() ==> {
            let (a, b) = (pre.timers.items@[i], #[trigger] post.timers.items@[i]);
            &&& b.title == a.title
            &&& b.is_active == a.is_active
            &&& b.time_created_ms == a.time_created_ms
            &&& b.time_active_ms == accrued_ms(
                a.time_active_ms,
                a.is_active,
                pre.last_tick_ms,
                now,
            )
        }
    &&& post.new_timer == pre.new_timer
    &&& post.new_timer_popup_enabled == pre.new_timer_popup_enabled
}

impl TimerState {
    pub open spec fn wf(&self) -> bool {
        self.timers.wf()
    }

    /// An empty list, an empty draft, the popup closed, and the tick clock
    /// starting now.
    pub fn new() -> (r: Self)
        ensures
            r.wf(),
            r.timers.items@.len() == 0,
            r.timers.selected is None,
            r.new_timer.title@ == Seq::<char>::empty(),
            !r.new_timer_popup_enabled,
            r.last_tick_ms == 0,
    {
        Self {
            timers: StatefulList::with_items(Vec::new()),
            new_timer: Timer::default(),
            new_timer_popup_enabled: false,
            clock_origin: Instant::now(),
            last_tick_ms: 0,
        }
    }

    fn delete_selected_timer(&mut self)
        requires
            old(self).wf(),
        ensures
            final(self).wf(),
            final(self).new_timer == old(self).new_timer,
            final(self).new_timer_popup_enabled == old(self).new_timer_popup_enabled,
            final(self).last_tick_ms == old(self).last_tick_ms,
            final(self).clock_origin == old(self).clock_origin,
            timer_browse_step(*old(self), KeyCode::Char('d'), *final(self)),
    {
        self.timers.delete_current();
    }

    fn open_create_popup(&mut self)
        ensures
            final(self).new_timer_popup_enabled,
            final(self).timers == old(self).timers,
            final(self).new_timer == old(self).new_timer,
            final(self).last_tick_ms == old(self).last_tick_ms,
            final(self).clock_origin == old(self).clock_origin,
    {
        self.new_timer_popup_enabled = true;
    }

    fn close_create_popup(&mut self)
        ensures
            !final(self).new_timer_popup_enabled,
            final(self).timers == old(self).timers,
            final(self).new_timer == old(self).new_timer,
            final(self).last_tick_ms == old(self).last_tick_ms,
            final(self).clock_origin == old(self).clock_origin,
    {
        self.new_timer_popup_enabled = false;
    }

    fn create_new_timer(&mut self)
        requires
            old(self).wf(),
        ensures
            final(self).wf(),
            final(self).new_timer_popup_enabled == old(self).new_timer_popup_enabled,
            final(self).last_tick_ms == old(self).last_tick_ms,
            final(self).clock_origin == old(self).clock_origin,
            timer_popup_step(*old(self), KeyCode::Enter, *final(self)),
    {
        let new_timer = Timer::new(self.new_timer.title.clone());
        self.timers.push(new_timer);
        assert(self.timers.items@.drop_last() =~= old(self).timers.items@);
        self.new_timer = Timer::default();
    }

    /// Handles a key. While the popup is open every key is taken by it and
    /// edits, commits or discards the draft; while browsing, the list keys
    /// are taken and any other key is left for the caller. Returns whether
    /// the key was taken.
    pub fn on_keycode(&mut self, key: KeyCode) -> (r: bool)
        requires
            old(self).wf(),
        ensures
            final(self).wf(),
            r == (old(self).new_timer_popup_enabled || browse_consumes(key)),
            final(self).new_timer_popup_enabled == popup_open_after(
                old(self).new_timer_popup_enabled,
                key,
            ),
            final(self).last_tick_ms == old(self).last_tick_ms,
            final(self).clock_origin == old(self).clock_origin,
            old(self).new_timer_popup_enabled ==> timer_popup_step(*old(self), key, *final(self)),
            !old(self).new_timer_popup_enabled ==> timer_browse_step(
                *old(self),
                key,
                *final(self),
            ),
            old(self).new_timer_popup_enabled && key == KeyCode::Enter ==> {
                &&& final(self).timers.items@.len() == old(self).timers.items@.len() + 1
                &&& final(self).timers.items@.last().title@ == old(self).new_timer.title@
                &&& !final(self).timers.items@.last().is_active
            },
    {
        if self.new_timer_popup_enabled {
            self.on_popup_keycode(key);
            return true;
        }
        match key {
            KeyCode::Up => {
                self.timers.previous();
                true
            },
            KeyCode::Down => {
                self.timers.next();
                true
            },
            KeyCode::Enter => {
                if let Some(selection) = self.timers.selected() {
                    self.timers.items[selection].is_active =
                        !self.timers.items[selection].is_active;
                }
                true
            },
            KeyCode::Char(c) => {
                if c == 'd' {
                    self.delete_selected_timer();
                    true
                } else if c == 'n' {
                    self.open_create_popup();
                    self.new_timer = Timer::default();
                    true
                } else {
                    false
                }
            },
            _ => false,
        }
    }

    fn on_popup_keycode(&mut self, key: KeyCode)
        requires
            old(self).wf(),
            old(self).new_timer_popup_enabled,
        ensures
            final(self).wf(),
            final(self).new_timer_popup_enabled == popup_open_after(true, key),
            final(self).last_tick_ms == old(self).last_tick_ms,
            final(self).clock_origin == old(self).clock_origin,
            timer_popup_step(*old(self), key, *final(self)),
    {
        match key {
            KeyCode::Char(c) => {
                self.new_timer.title.push(c);
            },
            KeyCode::Backspace => {
                self.new_timer.title.pop();
            },
            KeyCode::Esc => {
                self.close_create_popup();
                self.new_timer = Timer::default();
            },
            KeyCode::Enter => {
                self.create_new_timer();
                self.close_create_popup();
            },
            _ => {},
        }
    }

    /// Processes a tick at `now_ms` (milliseconds since `clock_origin`). When
    /// more than the tick interval has passed since the last processed tick,
    /// every active timer gains that time and the tick becomes the last
    /// processed one; otherwise nothing changes.
    pub fn tick_at(&mut self, now_ms: u64)
        requires
            old(self).wf(),
            now_ms >= old(self).last_tick_ms,
        ensures
            final(self).wf(),
            tick_step(*old(self), now_ms, *final(self)),
    {
        let elapsed = now_ms - self.last_tick_ms;
        if elapsed > TICK_INTERVAL_MS {
            let len = self.timers.items.len();
            let ghost pre = self.timers.items@;
            let mut i: usize = 0;
            while i < len
                invariant
                    i <= len,
                    len == pre.len(),
                    self.timers.items@.len() == len,
                    self.timers.selected == old(self).timers.selected,
                    self.timers.wf(),
                    elapsed == now_ms - old(self).last_tick_ms,
                    elapsed > TICK_INTERVAL_MS,
                    pre == old(self).timers.items@,
                    self.last_tick_ms == old(self).last_tick_ms,
                    self.clock_origin == old(self).clock_origin,
                    self.new_timer == old(self).new_timer,
                    self.new_timer_popup_enabled == old(self).new_timer_popup_enabled,
                    forall|j: int| i <= j < len ==> #[trigger] self.timers.items@[j] == pre[j],
                    forall|j: int|
                        0 <= j < i ==> {
                            let (a, b) = (pre[j], #[trigger] self.timers.items@[j]);
                            &&& b.title == a.title
                            &&& b.is_active == a.is_active
                            &&& b.time_created_ms == a.time_created_ms
                            &&& b.time_active_ms == accrued_ms(
                                a.time_active_ms,
                                a.is_active,
                                old(self).last_tick_ms,
                                now_ms,
                            )
                        },
                decreases len - i,
            {
                if self.timers.items[i].is_active {
                    let acc = self.timers.items[i].time_active_ms;
                    self.timers.items[i].time_active_ms = acc.saturating_add(elapsed);
                }
                i += 1;
            }
            self.last_tick_ms = now_ms;
        }
    }

    /// Processes a tick at the current monotonic time, measured from
    /// `clock_origin`. Whatever the clock reads, the result is a tick step
    /// ending at the new last processed tick, which never moves back.
    pub fn on_tick(&mut self)
        requires
            old(self).wf(),
        ensures
            final(self).wf(),
            final(self).last_tick_ms >= old(self).last_tick_ms,
            tick_step(*old(self), final(self).last_tick_ms, *final(self)),
    {
        let ms = self.clock_origin.elapsed().as_millis();
        let now: u64 = if ms > u64::MAX as u128 {
            u64::MAX
        } else {
            ms as u64
        };
        if now >= self.last_tick_ms {
            self.tick_at(now);
        }
    }
}

/// A timer's active time and last processed tick after ticks at `readings`,
/// in order.
pub open spec fn after_ticks(acc: u64, active: bool, last: u64, readings: Seq<u64>) -> (u64, u64)
    decreases readings.len(),
{
    if readings.len() == 0 {
        (acc, last)
    } else {
        let now = readings[0];
        after_ticks(
            accrued_ms(acc, active, last, now),
            active,
            last_tick_after(last, now),
            readings.drop_first(),
        )
    }
}

/// Over ticks at non-decreasing times, an active timer gains exactly the time
/// from the first to the last processed tick, which falls short of the whole
/// elapsed time by at most one tick interval; an inactive timer gains nothing.
pub proof fn lemma_tick_accrual(acc: u64, active: bool, last: u64, readings: Seq<u64>)
    requires
        forall|i: int, j: int| 0 <= i <= j < readings.len() ==> readings[i] <= readings[j],
        readings.len() > 0 ==> last <= readings[0],
        readings.len() > 0 ==> acc + (readings.last() - last) <= u64::MAX,
    ensures
        ({
            let (acc2, last2) = after_ticks(acc, active, last, readings);
            &&& active ==> acc2 == acc + (last2 - last)
            &&& !active ==> acc2 == acc
            &&& readings.len() == 0 ==> last2 == last
            &&& readings.len() > 0 ==> {
                &&& last <= last2 <= readings.last()
                &&& readings.last() - last2 <= TICK_INTERVAL_MS
                &&& active ==> readings.last() - last - TICK_INTERVAL_MS <= acc2 - acc
                    <= readings.last() - last
            }
        }),
    decreases readings.len(),
{
    if readings.len() > 0 {
        let now = readings[0];
        let acc1 = accrued_ms(acc, active, last, now);
        let last1 = last_tick_after(last, now);
        let rest = readings.drop_first();
        if rest.len() > 0 {
            assert(rest[0] == readings[1]);
            assert(rest.last() == readings.last());
            assert forall|i: int, j: int| 0 <= i <= j < rest.len() implies rest[i] <= rest[j] by {
                assert(rest[i] == readings[i + 1] && rest[j] == readings[j + 1]);
            }
        }
        lemma_tick_accrual(acc1, active, last1, rest);
    }
}

proof fn lemma_tick_series_follows_model(states: Seq<TimerState>, readings: Seq<u64>, k: int)
    requires
        states.len() == readings.len() + 1,
        forall|n: int|
            0 <= n < readings.len() ==> tick_step(#[trigger] states[n], readings[n], states[n + 1]),
        forall|i: int, j: int| 0 <= i <= j < readings.len() ==> readings[i] <= readings[j],
        readings.len() > 0 ==> states[0].last_tick_ms <= readings[0],
        0 <= k < states[0].timers.items@.len(),
    ensures
        k < states.last().timers.items@.len(),
        states.last().timers.items@[k].is_active == states[0].timers.items@[k].is_active,
        (states.last().timers.items@[k].time_active_ms, states.last().last_tick_ms)
            == after_ticks(
            states[0].timers.items@[k].time_active_ms,
            states[0].timers.items@[k].is_active,
            states[0].last_tick_ms,
            readings,
        ),
    decreases readings.len(),
{
    if readings.len() > 0 {
        let rest_states = states.drop_first();
        let rest = readings.drop_first();
        assert(tick_step(states[0], readings[0], states[1]));
        assert forall|n: int| 0 <= n < rest.len() implies tick_step(
            #[trigger] rest_states[n],
            rest[n],
            rest_states[n + 1],
        ) by {
            assert(tick_step(states[n + 1], readings[n + 1], states[n + 2]));
        }
        if rest.len() > 0 {
            assert(rest[0] == readings[1]);
            assert forall|i: int, j: int| 0 <= i <= j < rest.len() implies rest[i] <= rest[j] by {
                assert(rest[i] == readings[i + 1] && rest[j] == readings[j + 1]);
            }
        }
        lemma_tick_series_follows_model(rest_states, rest, k);
        assert(rest_states.last() == states.last());
    }
}

/// Over any run of ticks at non-decreasing times, each applied as a tick step
/// to the state the previous one left, an active timer gains the elapsed time
/// since the first state's last processed tick, short by at most one tick
/// interval; an inactive timer gains nothing.
pub proof fn lemma_ticks_track_elapsed_time(states: Seq<TimerState>, readings: Seq<u64>, k: int)
    requires
        readings.len() > 0,
        states.len() == readings.len() + 1,
        forall|n: int|
            0 <= n < readings.len() ==> tick_step(#[trigger] states[n], readings[n], states[n + 1]),
        forall|i: int, j: int| 0 <= i <= j < readings.len() ==> readings[i] <= readings[j],
        states[0].last_tick_ms <= readings[0],
        0 <= k < states[0].timers.items@.len(),
        states[0].timers.items@[k].time_active_ms + (readings.last() - states[0].last_tick_ms)
            <= u64::MAX,
    ensures
        k < states.last().timers.items@.len(),
        ({
            let (a, b) = (states[0].timers.items@[k], states.last().timers.items@[k]);
            let elapsed = readings.last() - states[0].last_tick_ms;
            &&& a.is_active ==> elapsed - TICK_INTERVAL_MS <= b.time_active_ms - a.time_active_ms
                <= elapsed
            &&& !a.is_active ==> b.time_active_ms == a.time_active_ms
        }),
{
    lemma_tick_series_follows_model(states, readings, k);
    let a = states[0].timers.items@[k];
    lemma_tick_accrual(a.time_active_ms, a.is_active, states[0].last_tick_ms, readings);
}

} // verus!
