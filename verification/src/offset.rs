//! The user-adjustable offset and the handlers through which it is changed.
//!
//! The offset is an owned value: every change goes through `&mut self`, so
//! two changes never overlap and a reader never sees one half applied. A host
//! that shares it between threads keeps it behind a lock of its own.

use crate::dispatch::{brightness_notify, notification, Invocation};
use vstd::prelude::*;
use vstd::string::*;

verus! {

/// The step by which a tray menu entry changes the offset.
pub const MENU_STEP: i32 = 5;

/// The offset after one adjustment by `delta`.
pub open spec fn adjusted(offset: int, delta: int) -> int {
    offset + delta
}

/// The offset state, adjusted by remote calls and by the tray menu and read by
/// the control loop.
#[derive(Debug)]
pub struct Autobright {
    offset: i32,
}

impl View for Autobright {
    type V = int;

    closed spec fn view(&self) -> int {
        self.offset as int
    }
}

/// An entry of the tray menu.
#[derive(Clone, Copy, Debug, PartialEq, Eq, Structural)]
pub enum MenuEntry {
    Increase,
    Decrease,
    Quit,
}

/// What the host does after a tray menu entry was handled.
#[derive(Clone, Debug, PartialEq, Eq)]
pub enum MenuAction {
    /// The offset changed: start this command, which shows it to the user.
    Notify(Invocation),
    /// Leave the menu's event loop.
    Quit,
}

/// What the host does after a remote call was handled.
#[derive(Clone, Debug, PartialEq, Eq)]
pub struct Reply {
    /// The status to send back to the caller.
    pub status: String,
    /// The command to start, which shows the new offset to the user.
    pub notification: Invocation,
}

/// The text that a tray menu entry is shown with.
pub open spec fn label_of(entry: MenuEntry) -> Seq<char> {
    match entry {
        MenuEntry::Increase => "Increase"@,
        MenuEntry::Decrease => "Decrease"@,
        MenuEntry::Quit => "Quit"@,
    }
}

impl MenuEntry {
    /// The text that the entry is shown with.
    pub fn label(self) -> (label: &'static str)
        ensures
            label@ == label_of(self),
    {
        match self {
            MenuEntry::Increase => "Increase",
            MenuEntry::Decrease => "Decrease",
            MenuEntry::Quit => "Quit",
        }
    }
}

/// The entries of the tray menu, from top to bottom.
pub fn menu_entries() -> (entries: Vec<MenuEntry>)
    ensures
        entries@ == seq![MenuEntry::Increase, MenuEntry::Decrease, MenuEntry::Quit],
{
    let mut entries: Vec<MenuEntry> = Vec::new();
    entries.push(MenuEntry::Increase);
    entries.push(MenuEntry::Decrease);
    entries.push(MenuEntry::Quit);
    entries
}

impl Autobright {
    /// The state at startup, holding the configured default offset.
    pub fn new(default_offset: i32) -> (state: Self)
        ensures
            state@ == default_offset,
    {
        Autobright { offset: default_offset }
    }

    /// The current offset.
    pub fn offset(&self) -> (offset: i32)
        ensures
            offset == self@,
    {
        self.offset
    }

    /// Adds `delta` to the offset and returns the new offset, which has to fit
    /// in 32 bits.
    pub fn adjust(&mut self, delta: i32) -> (offset: i32)
        requires
            i32::MIN <= adjusted(old(self)@, delta as int) <= i32::MAX,
        ensures
            final(self)@ == adjusted(old(self)@, delta as int),
            offset == final(self)@,
    {
        self.offset = self.offset + delta;
        self.offset
    }

    /// Remote call: raises the offset by `value`, reports success and asks for
    /// the new offset to be shown. No `value` is refused; the new offset has to
    /// fit in 32 bits.
    pub fn increase(&mut self, value: i32) -> (reply: Reply)
        requires
            i32::MIN <= adjusted(old(self)@, value as int) <= i32::MAX,
        ensures
            final(self)@ == adjusted(old(self)@, value as int),
            reply.status@ == "Ok"@,
            reply.notification@ == notification(final(self)@),
    {
        self.offset = self.offset + value;
        Reply { status: String::from_str("Ok"), notification: brightness_notify(self.offset) }
    }

    /// Remote call: lowers the offset by `value`, reports success and asks for
    /// the new offset to be shown. No `value` is refused; the new offset has to
    /// fit in 32 bits.
    pub fn decrease(&mut self, value: i32) -> (reply: Reply)
        requires
            i32::MIN <= adjusted(old(self)@, -(value as int)) <= i32::MAX,
        ensures
            final(self)@ == adjusted(old(self)@, -(value as int)),
            reply.status@ == "Ok"@,
            reply.notification@ == notification(final(self)@),
    {
        self.offset = self.offset - value;
        Reply { status: String::from_str("Ok"), notification: brightness_notify(self.offset) }
    }

    /// Handles a tray menu entry: `Increase` and `Decrease` move the offset by
    /// `MENU_STEP` and ask for the new offset to be shown, `Quit` leaves the
    /// offset alone and ends the menu.
    pub fn select(&mut self, entry: MenuEntry) -> (action: MenuAction)
        requires
            entry == MenuEntry::Increase ==> adjusted(old(self)@, MENU_STEP as int) <= i32::MAX,
            entry == MenuEntry::Decrease ==> adjusted(old(self)@, -(MENU_STEP as int)) >= i32::MIN,
        ensures
            match entry {
                MenuEntry::Increase => final(self)@ == adjusted(old(self)@, MENU_STEP as int),
                MenuEntry::Decrease => final(self)@ == adjusted(old(self)@, -(MENU_STEP as int)),
                MenuEntry::Quit => final(self)@ == old(self)@,
            },
            match entry {
                MenuEntry::Quit => action == MenuAction::Quit,
                _ => action matches MenuAction::Notify(command) && command@ == notification(
                    final(self)@,
                ),
            },
    {
        match entry {
            MenuEntry::Increase => {
                self.offset = self.offset + MENU_STEP;
                MenuAction::Notify(brightness_notify(self.offset))
            },
            MenuEntry::Decrease => {
                self.offset = self.offset - MENU_STEP;
                MenuAction::Notify(brightness_notify(self.offset))
            },
            MenuEntry::Quit => MenuAction::Quit,
        }
    }
}

/// The sum of a sequence of deltas.
pub open spec fn total(deltas: Seq<int>) -> int
    decreases deltas.len(),
{
    if deltas.len() == 0 {
        0
    } else {
        total(deltas.drop_last()) + deltas.last()
    }
}

/// The offset after the adjustments `deltas` were applied to `start`, one after
/// another in the order given.
pub open spec fn after_adjustments(start: int, deltas: Seq<int>) -> int
    decreases deltas.len(),
{
    if deltas.len() == 0 {
        start
    } else {
        adjusted(after_adjustments(start, deltas.drop_last()), deltas.last())
    }
}

/// `merged` holds the adjustments of three callers, each caller's in its own
/// order and the three woven together in any way.
pub open spec fn interleaves(merged: Seq<int>, first: Seq<int>, second: Seq<int>, third: Seq<int>) -> bool
    decreases merged.len(),
{
    if merged.len() == 0 {
        first.len() == 0 && second.len() == 0 && third.len() == 0
    } else {
        ||| first.len() > 0 && first.last() == merged.last() && interleaves(
            merged.drop_last(),
            first.drop_last(),
            second,
            third,
        )
        ||| second.len() > 0 && second.last() == merged.last() && interleaves(
            merged.drop_last(),
            first,
            second.drop_last(),
            third,
        )
        ||| third.len() > 0 && third.last() == merged.last() && interleaves(
            merged.drop_last(),
            first,
            second,
            third.drop_last(),
        )
    }
}

/// A run of adjustments ends at the starting offset plus the sum of the deltas.
/// Applied to a prefix of the run, this is what a read at that point observes.
pub proof fn lemma_adjustments_add_up(start: int, deltas: Seq<int>)
    ensures
        after_adjustments(start, deltas) == start + total(deltas),
    decreases deltas.len(),
{
    if deltas.len() > 0 {
        lemma_adjustments_add_up(start, deltas.drop_last());
    }
}

/// No update is lost: however the adjustments of three callers are woven
/// together, the offset ends at the starting offset plus the sum of all of them.
pub proof fn lemma_no_lost_update(
    start: int,
    merged: Seq<int>,
    first: Seq<int>,
    second: Seq<int>,
    third: Seq<int>,
)
    requires
        interleaves(merged, first, second, third),
    ensures
        after_adjustments(start, merged) == start + total(first) + total(second) + total(third),
    decreases merged.len(),
{
    if merged.len() > 0 {
        let rest = merged.drop_last();
        if first.len() > 0 && first.last() == merged.last() && interleaves(
            rest,
            first.drop_last(),
            second,
            third,
        ) {
            lemma_no_lost_update(start, rest, first.drop_last(), second, third);
        } else if second.len() > 0 && second.last() == merged.last() && interleaves(
            rest,
            first,
            second.drop_last(),
            third,
        ) {
            lemma_no_lost_update(start, rest, first, second.drop_last(), third);
        } else {
            lemma_no_lost_update(start, rest, first, second, third.drop_last());
        }
    }
}

} // verus!
