//! The interactive session: selection, scroll, detail pane and status line,
//! one transition per input event, and the dispatch table that ties
//! keyboard input to them. Every transition is total: keys that have no
//! work to do leave the state exactly as it was.

use vstd::prelude::*;
use vstd::string::StringExecFns;
use crate::detail::DetailOutcome;
use crate::detail::DetailView;
use crate::detail::link_status;
use crate::detail::link_status_message;
use crate::model::ConversationSummary;
use crate::text::decimal_digit;
use crate::text::decimal_string;

verus! {

/// Keyboard input after the terminal driver has decoded it.
#[derive(Clone, Copy, Debug, PartialEq, Eq)]
pub enum InputEvent {
    Quit,
    MoveUp,
    MoveDown,
    Refresh,
    ScrollUpLine,
    ScrollDownLine,
    ScrollUpPage,
    ScrollDownPage,
    Digit(u8),
    Other,
}

/// Outside work a transition asks the event loop to do after the state has
/// already changed.
#[derive(Debug, PartialEq, Eq)]
pub enum Action {
    Nothing,
    LoadDetail,
    RefreshList,
    CopyLink(String),
}

/// Addition capped at the top of the `usize` range.
pub open spec fn sat_add(x: int, k: int) -> int {
    if x + k <= usize::MAX {
        x + k
    } else {
        usize::MAX as int
    }
}

/// Subtraction stopped at zero.
pub open spec fn floor_sub(x: int, k: int) -> int {
    if x >= k {
        x - k
    } else {
        0
    }
}

/// Where move-down lands starting from `sel` in a list of `len` entries.
pub open spec fn down_target(sel: int, len: int) -> int {
    if sel + 1 < len {
        sel + 1
    } else {
        sel
    }
}

/// Where move-up lands starting from `sel`.
pub open spec fn up_target(sel: int) -> int {
    if sel > 0 {
        sel - 1
    } else {
        sel
    }
}

/// Law: moving down and then up, from any index with room below it,
/// returns the selection to exactly where it started. (Each of the two
/// moves also resets the scroll and empties the pane and its link table;
/// that is part of the moves' own contracts.)
pub proof fn lemma_move_round_trip(sel: int, len: int)
    requires
        0 <= sel,
        sel + 1 < len,
    ensures
        up_target(down_target(sel, len)) == sel,
{
}

/// Status after a link was handed to the clipboard.
pub open spec fn copied_status(digit: int) -> Seq<char> {
    "Copied link "@ + seq![decimal_digit(digit)] + " to clipboard!"@
}

/// Status after a digit key with no link behind it.
pub open spec fn no_link_status(digit: int) -> Seq<char> {
    "No link "@ + seq![decimal_digit(digit)] + " found."@
}

fn copied_message(digit: u8) -> (r: String)
    requires
        1 <= digit <= 9,
    ensures
        r@ =~= copied_status(digit as int),
{
    let mut r = String::from_str("Copied link ");
    let d = decimal_string(digit as usize);
    r.append(d.as_str());
    r.append(" to clipboard!");
    r
}

fn no_link_message(digit: u8) -> (r: String)
    requires
        1 <= digit <= 9,
    ensures
        r@ =~= no_link_status(digit as int),
{
    let mut r = String::from_str("No link ");
    let d = decimal_string(digit as usize);
    r.append(d.as_str());
    r.append(" found.");
    r
}

/// The whole session: the single mutable value of the program, owned by
/// the event loop and changed only through the transitions below.
pub struct SessionState {
    pub conversations: Vec<ConversationSummary>,
    pub selection: usize,
    pub scroll: usize,
    pub detail: Option<DetailView>,
    pub status: String,
    pub quitting: bool,
}

/// Whether the digit key `digit` has a link behind it in the current pane.
pub open spec fn has_link(s: SessionState, digit: int) -> bool {
    match s.detail {
        Some(dv) => 0 <= digit - 1 < dv.links@.len(),
        None => false,
    }
}

/// Everything but the scroll offset agrees between two states.
pub open spec fn same_but_scroll(a: SessionState, b: SessionState) -> bool {
    a.conversations == b.conversations && a.selection == b.selection && a.detail == b.detail
        && a.status == b.status && a.quitting == b.quitting
}

/// The link behind digit key `digit`.
pub open spec fn link_for(s: SessionState, digit: int) -> Seq<char>
    recommends
        has_link(s, digit),
{
    match s.detail {
        Some(dv) => dv.links@[digit - 1]@,
        None => Seq::<char>::empty(),
    }
}

impl SessionState {
    /// The selection stays inside the list; over an empty list it rests
    /// at 0 and means nothing.
    pub open spec fn wf(self) -> bool {
        if self.conversations@.len() == 0 {
            self.selection == 0
        } else {
            (self.selection as int) < self.conversations@.len() as int
        }
    }

    /// Starts a session over a fetched list: the first conversation (when
    /// there is one) selected, nothing scrolled, no detail yet.
    pub fn new(conversations: Vec<ConversationSummary>) -> (s: SessionState)
        ensures
            s.wf(),
            s.conversations == conversations,
            s.selection == 0,
            s.scroll == 0,
            s.detail is None,
            s.status@ =~= Seq::<char>::empty(),
            !s.quitting,
    {
        SessionState {
            conversations,
            selection: 0,
            scroll: 0,
            detail: None,
            status: String::new(),
            quitting: false,
        }
    }

    /// Move-up: one step toward the top. At index 0 (or over an empty
    /// list) nothing changes at all. A changed selection clears the pane,
    /// the link table and the status, resets the scroll, and asks the loop
    /// to load the newly selected conversation's detail.
    pub fn move_up(&mut self) -> (a: Action)
        requires
            old(self).wf(),
        ensures
            final(self).wf(),
            final(self).conversations == old(self).conversations,
            final(self).quitting == old(self).quitting,
            final(self).selection as int == up_target(old(self).selection as int),
            old(self).selection > 0 ==> final(self).scroll == 0 && final(self).detail is None
                && final(self).status@ =~= Seq::<char>::empty() && a is LoadDetail,
            old(self).selection == 0 ==> *final(self) == *old(self) && a is Nothing,
    {
        if self.selection > 0 {
            self.selection = self.selection - 1;
            self.scroll = 0;
            self.detail = None;
            self.status = String::new();
            Action::LoadDetail
        } else {
            Action::Nothing
        }
    }

    /// Move-down: one step toward the end. At the last entry (or over an
    /// empty list) nothing changes at all; otherwise as for move-up.
    pub fn move_down(&mut self) -> (a: Action)
        requires
            old(self).wf(),
        ensures
            final(self).wf(),
            final(self).conversations == old(self).conversations,
            final(self).quitting == old(self).quitting,
            final(self).selection as int == down_target(
                old(self).selection as int,
                old(self).conversations@.len() as int,
            ),
            old(self).selection as int + 1 < old(self).conversations@.len() ==> final(self).scroll == 0 && final(self).detail is None && final(self).status@
                =~= Seq::<char>::empty() && a is LoadDetail,
            !(old(self).selection as int + 1 < old(self).conversations@.len()) ==> *final(self)
                == *old(self) && a is Nothing,
    {
        if self.conversations.len() > 0 && self.selection < self.conversations.len() - 1 {
            self.selection = self.selection + 1;
            self.scroll = 0;
            self.detail = None;
            self.status = String::new();
            Action::LoadDetail
        } else {
            Action::Nothing
        }
    }

    /// Scrolls the pane down by `amount` lines, saturating; the viewport
    /// clamps the stored offset again at render time.
    pub fn scroll_down(&mut self, amount: usize)
        requires
            old(self).wf(),
        ensures
            final(self).wf(),
            final(self).conversations == old(self).conversations,
            final(self).selection == old(self).selection,
            final(self).detail == old(self).detail,
            final(self).status == old(self).status,
            final(self).quitting == old(self).quitting,
            final(self).scroll as int == sat_add(old(self).scroll as int, amount as int),
    {
        self.scroll = self.scroll.saturating_add(amount);
    }

    /// Scrolls the pane up by `amount` lines, stopping at the top.
    pub fn scroll_up(&mut self, amount: usize)
        requires
            old(self).wf(),
        ensures
            final(self).wf(),
            final(self).conversations == old(self).conversations,
            final(self).selection == old(self).selection,
            final(self).detail == old(self).detail,
            final(self).status == old(self).status,
            final(self).quitting == old(self).quitting,
            final(self).scroll as int == floor_sub(old(self).scroll as int, amount as int),
    {
        self.scroll = self.scroll.saturating_sub(amount);
    }

    /// Digit key: hand over the link at that index, if the current pane
    /// has one, and report the copy; without one only the status changes —
    /// digit keys beyond the table never fail.
    pub fn press_digit(&mut self, digit: u8) -> (a: Action)
        requires
            old(self).wf(),
            1 <= digit <= 9,
        ensures
            final(self).wf(),
            final(self).conversations == old(self).conversations,
            final(self).selection == old(self).selection,
            final(self).scroll == old(self).scroll,
            final(self).detail == old(self).detail,
            final(self).quitting == old(self).quitting,
            has_link(*old(self), digit as int) ==> (a matches Action::CopyLink(l) && l@
                == link_for(*old(self), digit as int) && final(self).status@ =~= copied_status(
                digit as int,
            )),
            !has_link(*old(self), digit as int) ==> (a is Nothing && final(self).status@
                =~= no_link_status(digit as int)),
    {
        let idx = (digit - 1) as usize;
        let link_found: Option<String> = match &self.detail {
            Some(dv) => if idx < dv.links.len() {
                Some(dv.links[idx].clone())
            } else {
                None
            },
            None => None,
        };
        match link_found {
            Some(link) => {
                self.status = copied_message(digit);
                Action::CopyLink(link)
            },
            None => {
                self.status = no_link_message(digit);
                Action::Nothing
            },
        }
    }

    /// A clipboard failure is reported on the status line only; nothing
    /// else moves.
    pub fn note_clipboard_failure(&mut self)
        requires
            old(self).wf(),
        ensures
            final(self).wf(),
            final(self).conversations == old(self).conversations,
            final(self).selection == old(self).selection,
            final(self).scroll == old(self).scroll,
            final(self).detail == old(self).detail,
            final(self).quitting == old(self).quitting,
            final(self).status@ =~= "Clipboard copy failed."@,
    {
        self.status = String::from_str("Clipboard copy failed.");
    }

    /// A refresh landed: the list is replaced wholesale, selection and
    /// scroll return to the top, and the pane clears until the next load.
    pub fn install_conversations(&mut self, conversations: Vec<ConversationSummary>)
        ensures
            final(self).wf(),
            final(self).conversations == conversations,
            final(self).selection == 0,
            final(self).scroll == 0,
            final(self).detail is None,
            final(self).status@ =~= Seq::<char>::empty(),
            final(self).quitting == old(self).quitting,
    {
        self.conversations = conversations;
        self.selection = 0;
        self.scroll = 0;
        self.detail = None;
        self.status = String::new();
    }

    /// A failed refresh leaves the list and the selection untouched and
    /// says so on the status line.
    pub fn note_refresh_failure(&mut self)
        requires
            old(self).wf(),
        ensures
            final(self).wf(),
            final(self).conversations == old(self).conversations,
            final(self).selection == old(self).selection,
            final(self).scroll == old(self).scroll,
            final(self).detail == old(self).detail,
            final(self).quitting == old(self).quitting,
            final(self).status@ =~= "Refresh failed."@,
    {
        self.status = String::from_str("Refresh failed.");
    }

    /// A resolved detail load replaces the pane atomically: a rendered
    /// view installs its link table and reports the link count; an empty
    /// load leaves the pane empty with a clear status. Either way the
    /// scroll returns to the top and no stale view survives.
    pub fn install_detail(&mut self, outcome: DetailOutcome)
        requires
            old(self).wf(),
        ensures
            final(self).wf(),
            final(self).conversations == old(self).conversations,
            final(self).selection == old(self).selection,
            final(self).quitting == old(self).quitting,
            final(self).scroll == 0,
            outcome is Empty ==> final(self).detail is None && final(self).status@
                =~= Seq::<char>::empty(),
            outcome matches DetailOutcome::Loaded(dv) ==> final(self).detail == Some(dv) && final(self).status@ =~= link_status(dv.links@.len()),
    {
        self.scroll = 0;
        match outcome {
            DetailOutcome::Empty => {
                self.detail = None;
                self.status = String::new();
            },
            DetailOutcome::Loaded(dv) => {
                let n = dv.links.len();
                self.detail = Some(dv);
                self.status = link_status_message(n);
            },
        }
    }

    /// A failed detail load never leaves a stale pane: the previous view
    /// is discarded and the status cleared rather than showing counts that
    /// belong to another conversation.
    pub fn note_detail_failure(&mut self)
        requires
            old(self).wf(),
        ensures
            final(self).wf(),
            final(self).conversations == old(self).conversations,
            final(self).selection == old(self).selection,
            final(self).quitting == old(self).quitting,
            final(self).scroll == 0,
            final(self).detail is None,
            final(self).status@ =~= Seq::<char>::empty(),
    {
        self.scroll = 0;
        self.detail = None;
        self.status = String::new();
    }

    /// The transition table: one input event, one transition, and the
    /// outside work the event loop owes afterwards (a detail load, a list
    /// refresh, a link for the clipboard sink) — or nothing.
    pub fn handle_event(&mut self, ev: InputEvent) -> (a: Action)
        requires
            old(self).wf(),
        ensures
            final(self).wf(),
            final(self).conversations == old(self).conversations,
            ev is Quit ==> (final(self).quitting && final(self).selection == old(self).selection
                && final(self).scroll == old(self).scroll && final(self).detail == old(self).detail
                && final(self).status == old(self).status && a is Nothing),
            ev is MoveUp ==> (final(self).quitting == old(self).quitting && final(self).selection as int == up_target(old(self).selection as int) && (old(self).selection > 0
                ==> (final(self).scroll == 0 && final(self).detail is None && final(self).status@
                =~= Seq::<char>::empty() && a is LoadDetail)) && (old(self).selection == 0 ==> (
            *final(self) == *old(self) && a is Nothing))),
            ev is MoveDown ==> (final(self).quitting == old(self).quitting && final(self).selection as int == down_target(
                old(self).selection as int,
                old(self).conversations@.len() as int,
            ) && (old(self).selection as int + 1 < old(self).conversations@.len() ==> (final(self).scroll == 0 && final(self).detail is None && final(self).status@
                =~= Seq::<char>::empty() && a is LoadDetail)) && (!(old(self).selection as int + 1
                < old(self).conversations@.len()) ==> (*final(self) == *old(self)
                && a is Nothing))),
            ev is Refresh ==> (*final(self) == *old(self) && a is RefreshList),
            ev is ScrollDownLine ==> (same_but_scroll(*final(self), *old(self)) && final(self).scroll as int == sat_add(old(self).scroll as int, 1) && a is Nothing),
            ev is ScrollDownPage ==> (same_but_scroll(*final(self), *old(self)) && final(self).scroll as int == sat_add(old(self).scroll as int, 5) && a is Nothing),
            ev is ScrollUpLine ==> (same_but_scroll(*final(self), *old(self)) && final(self).scroll as int == floor_sub(old(self).scroll as int, 1) && a is Nothing),
            ev is ScrollUpPage ==> (same_but_scroll(*final(self), *old(self)) && final(self).scroll as int == floor_sub(old(self).scroll as int, 5) && a is Nothing),
            ev matches InputEvent::Digit(d) ==> ((1 <= d <= 9 ==> (final(self).selection == old(self).selection && final(self).scroll == old(self).scroll && final(self).detail == old(self).detail && final(self).quitting == old(self).quitting && (has_link(
                *old(self),
                d as int,
            ) ==> (a matches Action::CopyLink(l) && l@ == link_for(*old(self), d as int) && final(self).status@ =~= copied_status(d as int))) && (!has_link(*old(self), d as int) ==> (
            a is Nothing && final(self).status@ =~= no_link_status(d as int))))) && (!(1 <= d <= 9)
                ==> (*final(self) == *old(self) && a is Nothing))),
            ev is Other ==> (*final(self) == *old(self) && a is Nothing),
    {
        match ev {
            InputEvent::Quit => {
                self.quitting = true;
                Action::Nothing
            },
            InputEvent::MoveUp => self.move_up(),
            InputEvent::MoveDown => self.move_down(),
            InputEvent::Refresh => Action::RefreshList,
            InputEvent::ScrollDownLine => {
                self.scroll_down(1);
                Action::Nothing
            },
            InputEvent::ScrollDownPage => {
                self.scroll_down(5);
                Action::Nothing
            },
            InputEvent::ScrollUpLine => {
                self.scroll_up(1);
                Action::Nothing
            },
            InputEvent::ScrollUpPage => {
                self.scroll_up(5);
                Action::Nothing
            },
            InputEvent::Digit(d) => {
                if 1 <= d && d <= 9 {
                    self.press_digit(d)
                } else {
                    Action::Nothing
                }
            },
            InputEvent::Other => Action::Nothing,
        }
    }
}

/// What a character key maps to, before the dispatcher runs it.
pub open spec fn spec_event_for_char(c: char) -> InputEvent {
    if c == 'q' {
        InputEvent::Quit
    } else if c == 'r' {
        InputEvent::Refresh
    } else if c == 'j' {
        InputEvent::ScrollDownLine
    } else if c == 'k' {
        InputEvent::ScrollUpLine
    } else if c == 'J' {
        InputEvent::ScrollDownPage
    } else if c == 'K' {
        InputEvent::ScrollUpPage
    } else if '1' <= c <= '9' {
        InputEvent::Digit((c as u8 - '0' as u8) as u8)
    } else {
        InputEvent::Other
    }
}

/// Maps a character key to its transition; every character maps somewhere,
/// unknown ones to a no-op.
pub fn event_for_char(c: char) -> (ev: InputEvent)
    ensures
        ev == spec_event_for_char(c),
{
    if c == 'q' {
        InputEvent::Quit
    } else if c == 'r' {
        InputEvent::Refresh
    } else if c == 'j' {
        InputEvent::ScrollDownLine
    } else if c == 'k' {
        InputEvent::ScrollUpLine
    } else if c == 'J' {
        InputEvent::ScrollDownPage
    } else if c == 'K' {
        InputEvent::ScrollUpPage
    } else if '1' <= c && c <= '9' {
        InputEvent::Digit(c as u8 - '0' as u8)
    } else {
        InputEvent::Other
    }
}

} // verus!
