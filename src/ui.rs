//! The widget runtime: identities, bubbled events, the choices of the polling loop, and
//! a menu widget.
use vstd::prelude::*;
use crate::input::{Event, KeyCode, MOD_CONTROL, MOD_NONE, is_key};

verus! {

/// An opaque, non-zero widget identity, compared only for equality.
#[derive(Debug, PartialEq, Eq, Structural, Copy, Clone)]
pub struct UiId {
    id: u64,
}

impl UiId {
    pub closed spec fn spec_value(self) -> u64 {
        self.id
    }

    pub fn value(&self) -> (r: u64)
        ensures
            r == self.spec_value(),
    {
        self.id
    }
}

/// The value that a widget hands its parent when it finishes with a result.
pub enum UiResult {
    /// The entry that a menu had selected.
    Selected(usize),
    /// The identifier of the branch exit that the actor reached.
    Exit(String),
}

/// What a widget reports: it finished well, it was canceled, it finished with a value,
/// it only needs a redraw, or nothing.
pub enum UiEventType {
    Done,
    Canceled,
    Result(UiResult),
    Changed,
    Empty,
}

/// An outcome bubbled up by the widget `id`.
pub struct UiEvent {
    pub id: UiId,
    pub e: UiEventType,
}

/// Whether `t` is one of the three outcomes that end a wait on a widget.
pub open spec fn is_terminal(t: UiEventType) -> bool {
    t is Done || t is Canceled || t is Result
}

/// Whether the loop driving the root widget `main_id` stops on `event`.
pub open spec fn exits_on(main_id: UiId, event: Option<UiEvent>) -> bool {
    match event {
        Some(ev) => ev.id == main_id && is_terminal(ev.e),
        None => false,
    }
}

/// Whether `e` is the interrupt combination, control and `c`, which ends the loop at once.
pub open spec fn is_interrupt_spec(e: Event) -> bool {
    is_key(e, KeyCode::Char('c'), MOD_CONTROL)
}

pub fn is_interrupt(e: &Event) -> (r: bool)
    ensures
        r == is_interrupt_spec(*e),
{
    match e {
        Event::Key(k) => k.modifiers == MOD_CONTROL && match k.code {
            KeyCode::Char(c) => c == 'c',
            _ => false,
        },
        _ => false,
    }
}

/// Relies on crossterm::terminal::size: the terminal's columns and rows, or `None` where
/// they cannot be had.
#[verifier::external_body]
fn terminal_size() -> (r: Option<(u16, u16)>) {
    crossterm::terminal::size().ok()
}

/// The terminal's columns and rows, or 80 by 20 where they cannot be had.
pub fn buffer_size() -> (r: (u16, u16)) {
    match terminal_size() {
        Some(size) => size,
        None => (80, 20),
    }
}

/// Hands out widget identities.
pub struct UiContext {
    id_counter: u64,
}

impl UiContext {
    /// The identity that `next_id` hands out next.
    pub closed spec fn counter(&self) -> u64 {
        self.id_counter
    }

    pub closed spec fn wf(&self) -> bool {
        self.id_counter >= 1
    }

    pub fn create() -> (r: Option<UiContext>)
        ensures
            r is Some,
            r->0.wf(),
            r->0.counter() == 1,
    {
        Some(UiContext { id_counter: 1 })
    }

    /// A fresh identity: each call hands out the one after the last.
    pub fn next_id(&mut self) -> (r: UiId)
        requires
            old(self).wf(),
            old(self).counter() < u64::MAX,
        ensures
            final(self).wf(),
            r.spec_value() == old(self).counter(),
            r.spec_value() >= 1,
            final(self).counter() == old(self).counter() + 1,
    {
        let result = UiId { id: self.id_counter };
        self.id_counter = self.id_counter + 1;
        result
    }

    /// Whether the loop driving the root widget `main_id` stops on the bubbled `event`.
    pub fn should_exit(&self, main_id: UiId, event: Option<UiEvent>) -> (r: bool)
        ensures
            r == exits_on(main_id, event),
    {
        match event {
            Some(ui_event) => {
                if ui_event.id == main_id {
                    match ui_event.e {
                        UiEventType::Canceled => true,
                        UiEventType::Done => true,
                        UiEventType::Result(_) => true,
                        _ => false,
                    }
                } else {
                    false
                }
            },
            None => false,
        }
    }

    /// The terminal's columns and rows, or 80 by 20 where they cannot be had.
    pub fn buffer_size(&self) -> (r: (u16, u16)) {
        buffer_size()
    }
}

/// How many short polls the loop waits for input before it ticks the root widget anyway.
pub const POLL_RETRIES: u32 = 25;

/// How long one short poll waits, in milliseconds.
pub const POLL_TIMEOUT_MS: u64 = 100;

/// The state of the main loop between two renders: how many short polls are left,
/// whether input arrived, and the terminal size last handed to the root widget.
pub struct PollCycle {
    pub retry: u32,
    pub has_input: bool,
    pub last_size: (u16, u16),
}

impl PollCycle {
    /// Before the first cycle no size has been seen.
    pub fn new() -> (r: PollCycle)
        ensures
            r.retry == 0,
            !r.has_input,
            r.last_size == (0u16, 0u16),
    {
        PollCycle { retry: 0, has_input: false, last_size: (0, 0) }
    }

    /// Starts waiting for input: no input yet, the whole retry budget left.
    pub fn begin(&mut self)
        ensures
            final(self).retry == POLL_RETRIES,
            !final(self).has_input,
            final(self).last_size == old(self).last_size,
    {
        self.retry = POLL_RETRIES;
        self.has_input = false;
    }

    /// Whether to poll again: no input has arrived and retries are left.
    pub fn waiting(&self) -> (r: bool)
        ensures
            r == (!self.has_input && self.retry > 0),
    {
        !self.has_input && self.retry > 0
    }

    /// Records that an event was read and routed.
    pub fn input_seen(&mut self)
        ensures
            final(self).has_input,
            final(self).retry == old(self).retry,
            final(self).last_size == old(self).last_size,
    {
        self.has_input = true;
    }

    /// Records the terminal size read after a poll. Where it changed, the root widget is
    /// to be resized and the wait ends; else one retry is spent.
    pub fn size_seen(&mut self, size: (u16, u16)) -> (resized: bool)
        ensures
            resized == (size != old(self).last_size),
            final(self).last_size == size,
            final(self).has_input == old(self).has_input,
            resized ==> final(self).retry == 0,
            !resized ==> final(self).retry == if old(self).retry > 0 {
                old(self).retry - 1
            } else {
                0
            },
    {
        if size.0 != self.last_size.0 || size.1 != self.last_size.1 {
            self.last_size = size;
            self.retry = 0;
            true
        } else {
            if self.retry > 0 {
                self.retry = self.retry - 1;
            }
            false
        }
    }
}

/// A list of entries to choose from with the arrows or a digit; Enter chooses, Escape
/// cancels where the menu allows it.
pub struct Menu {
    pub id: UiId,
    pub entries: Vec<String>,
    pub cancelable: bool,
    pub selected: usize,
    /// `Some(Some(i))` once entry `i` was chosen.
    pub result: Option<Option<usize>>,
    pub need_refresh: bool,
}

/// The digit of the key `e` pressed alone, for the keys `0` to `9`.
pub open spec fn digit_key(e: Event) -> Option<nat> {
    match e {
        Event::Key(k) => match k.code {
            KeyCode::Char(c) => if k.modifiers == MOD_NONE && '0' <= c <= '9' {
                Some((c as u32 - '0' as u32) as nat)
            } else {
                None
            },
            _ => None,
        },
        _ => None,
    }
}

/// `n` and `r` are the menu and the bubbled event after the key `e` reached `o`.
pub open spec fn menu_input_post(o: Menu, n: Menu, e: Event, r: Option<UiEvent>) -> bool {
    let len = o.entries@.len();
    let o1 = Menu { need_refresh: true, ..o };
    let changed = Some(UiEvent { id: o.id, e: UiEventType::Changed });
    if is_key(e, KeyCode::Down, MOD_NONE) {
        n == (Menu { selected: if o.selected + 1 >= len { 0 } else { (o.selected + 1) as usize }, ..o1 }) && r == changed
    } else if is_key(e, KeyCode::Up, MOD_NONE) {
        n == (Menu { selected: if o.selected > 0 { (o.selected - 1) as usize } else { (len - 1) as usize }, ..o1 }) && r == changed
    } else if digit_key(e) is Some {
        n == (Menu { selected: if digit_key(e)->0 < len { digit_key(e)->0 as usize } else { o.selected }, ..o1 }) && r == changed
    } else if is_key(e, KeyCode::Char('\n'), MOD_NONE) {
        &&& n == (Menu { result: Some(Some(o.selected)), ..o1 })
        &&& r is Some
        &&& r->0.id == o.id
        &&& r->0.e matches UiEventType::Result(UiResult::Selected(i))
        &&& i == o.selected
    } else if is_key(e, KeyCode::Esc, MOD_NONE) && o.cancelable {
        n == (Menu { result: None, ..o1 }) && r == Some(UiEvent { id: o.id, e: UiEventType::Canceled })
    } else {
        n == o1 && r is None
    }
}

impl Menu {
    /// There is an entry, and the selected one is among them.
    pub open spec fn wf(&self) -> bool {
        0 < self.entries.len() && self.selected < self.entries.len()
    }

    /// A menu of `entries`, the first one selected.
    pub fn new(entries: Vec<String>, cancelable: bool, context: &mut UiContext) -> (r: Menu)
        requires
            entries@.len() > 0,
            old(context).wf(),
            old(context).counter() < u64::MAX,
        ensures
            r.wf(),
            final(context).wf(),
            final(context).counter() == old(context).counter() + 1,
            r.id.spec_value() == old(context).counter(),
            r.entries == entries,
            r.cancelable == cancelable,
            r.selected == 0,
            r.result is None,
            r.need_refresh,
    {
        Menu { id: context.next_id(), entries, cancelable, selected: 0, result: None, need_refresh: true }
    }

    pub fn get_selected(&self) -> (r: usize)
        ensures
            r == self.selected,
    {
        self.selected
    }

    pub fn result(&self) -> (r: Option<Option<usize>>)
        ensures
            r == self.result,
    {
        self.result
    }

    pub fn get_id(&self) -> (r: UiId)
        ensures
            r == self.id,
    {
        self.id
    }

    pub fn mark_refresh(&mut self, value: bool)
        ensures
            *final(self) == (Menu { need_refresh: value, ..*old(self) }),
    {
        self.need_refresh = value;
    }

    pub fn need_refresh(&self) -> (r: bool)
        ensures
            r == self.need_refresh,
    {
        self.need_refresh
    }

    /// `e` bubbled up from this menu.
    pub fn event(&self, e: UiEventType) -> (r: Option<UiEvent>)
        ensures
            r == Some(UiEvent { id: self.id, e }),
    {
        Some(UiEvent { id: self.id, e })
    }

    /// Handles a key: down and up move the selection round the list, a digit selects
    /// that entry where there is one, Enter chooses, Escape cancels.
    pub fn input(&mut self, e: &Event) -> (r: Option<UiEvent>)
        requires
            old(self).wf(),
        ensures
            final(self).wf(),
            menu_input_post(*old(self), *final(self), *e, r),
    {
        self.mark_refresh(true);
        if let Event::Key(k) = e {
            if k.modifiers == MOD_NONE {
                match k.code {
                    KeyCode::Down => {
                        self.selected = self.selected + 1;
                        if self.selected >= self.entries.len() {
                            self.selected = 0;
                        }
                        return self.event(UiEventType::Changed);
                    },
                    KeyCode::Up => {
                        self.selected = if self.selected > 0 {
                            self.selected - 1
                        } else {
                            self.entries.len() - 1
                        };
                        return self.event(UiEventType::Changed);
                    },
                    KeyCode::Char(c) => {
                        if '0' <= c && c <= '9' {
                            let n = (c as u32 - '0' as u32) as usize;
                            if n < self.entries.len() {
                                self.selected = n;
                            }
                            return self.event(UiEventType::Changed);
                        }
                        if c == '\n' {
                            self.result = Some(Some(self.selected));
                            return self.event(UiEventType::Result(UiResult::Selected(self.selected)));
                        }
                    },
                    KeyCode::Esc => {
                        if self.cancelable {
                            self.result = None;
                            return self.event(UiEventType::Canceled);
                        }
                    },
                    _ => {},
                }
            }
        }
        None
    }
}

} // verus!
