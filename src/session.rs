//! The session as values: every state change of the dashboard as a function
//! from state to state, and what those functions keep.

use vstd::prelude::*;
use crate::app::{Category, Effect, Key, Tab};
use crate::config::ConfigView;
use crate::selection::{
    distinct, lemma_toggle_keeps_selection_ok, lemma_toggle_twice, selection_ok, toggled,
};
use crate::text::decimal;
use crate::tips::TipView;
use crate::waitlist::Stats;

verus! {

/// The indices of the first `n` tips that pass `filter`, in tip order.
pub open spec fn filtered_upto(tips: Seq<TipView>, filter: Category, n: nat) -> Seq<usize>
    decreases n,
{
    if n == 0 {
        seq![]
    } else {
        let before = filtered_upto(tips, filter, (n - 1) as nat);
        if filter.admits(tips[n - 1].category) {
            before.push((n - 1) as usize)
        } else {
            before
        }
    }
}

/// The indices of the tips that pass `filter`, in tip order.
pub open spec fn filtered_indices(tips: Seq<TipView>, filter: Category) -> Seq<usize> {
    filtered_upto(tips, filter, tips.len())
}

/// The filtered indices are increasing and below `n`.
pub proof fn lemma_filtered_increasing(tips: Seq<TipView>, filter: Category, n: nat)
    requires
        n <= tips.len() <= usize::MAX,
    ensures
        forall|i: int, j: int|
            0 <= i < j < filtered_upto(tips, filter, n).len() ==> filtered_upto(tips, filter, n)[i]
                < filtered_upto(tips, filter, n)[j],
        forall|i: int|
            0 <= i < filtered_upto(tips, filter, n).len() ==> filtered_upto(tips, filter, n)[i]
                < n,
        filtered_upto(tips, filter, n).len() <= n,
    decreases n,
{
    if n > 0 {
        lemma_filtered_increasing(tips, filter, (n - 1) as nat);
    }
}

/// The filtered view holds no index twice.
pub proof fn lemma_filtered_distinct(tips: Seq<TipView>, filter: Category)
    requires
        tips.len() <= usize::MAX,
    ensures
        distinct(filtered_indices(tips, filter)),
{
    lemma_filtered_increasing(tips, filter, tips.len());
}

/// The session's state as values.
#[verifier::ext_equal]
pub struct SessionView {
    pub tab: Tab,
    pub tips: Seq<TipView>,
    pub selected: Seq<usize>,
    pub cursor: usize,
    pub filter: Category,
    pub draft_subject: Seq<char>,
    pub stats: Option<Stats>,
    pub config: ConfigView,
    pub confirm_quit: bool,
    pub pending_g: bool,
    pub show_help: bool,
    pub is_loading: bool,
    pub status: Option<Seq<char>>,
}

impl SessionView {
    /// The selection's capacity.
    pub open spec fn capacity(self) -> nat {
        self.config.tips_per_issue as nat
    }

    /// The session invariant: the selection is distinct and within capacity.
    pub open spec fn wf(self) -> bool {
        selection_ok(self.selected, self.capacity())
    }

    /// The indices that the tips tab lists under the current filter.
    pub open spec fn filtered(self) -> Seq<usize> {
        filtered_indices(self.tips, self.filter)
    }

    /// The length of the list that the current tab shows.
    pub open spec fn list_len(self) -> nat {
        match self.tab {
            Tab::Tips => self.filtered().len(),
            Tab::Draft => self.selected.len(),
            _ => 0,
        }
    }

    /// The session on tab `tab`, with the cursor back at the top.
    pub open spec fn on_tab(self, tab: Tab) -> SessionView {
        SessionView { tab: tab, cursor: 0, ..self }
    }

    pub open spec fn next_tab(self) -> SessionView {
        self.on_tab(self.tab.next())
    }

    pub open spec fn prev_tab(self) -> SessionView {
        self.on_tab(self.tab.prev())
    }

    /// The cursor one row down, held at the last row; no change on an empty list.
    pub open spec fn next_item(self) -> SessionView {
        if self.list_len() > 0 {
            SessionView {
                cursor: if self.cursor + 1 < self.list_len() {
                    (self.cursor + 1) as usize
                } else {
                    (self.list_len() - 1) as usize
                },
                ..self
            }
        } else {
            self
        }
    }

    /// The cursor one row up, held at the top.
    pub open spec fn prev_item(self) -> SessionView {
        if self.cursor > 0 {
            SessionView { cursor: (self.cursor - 1) as usize, ..self }
        } else {
            self
        }
    }

    pub open spec fn top(self) -> SessionView {
        SessionView { cursor: 0, ..self }
    }

    /// The cursor on the last row; no change on an empty list.
    pub open spec fn bottom(self) -> SessionView {
        if self.list_len() > 0 {
            SessionView { cursor: (self.list_len() - 1) as usize, ..self }
        } else {
            self
        }
    }

    /// On the tips tab, the selection with the tip under the cursor toggled.
    pub open spec fn toggle(self) -> SessionView {
        if self.tab == Tab::Tips && self.cursor < self.filtered().len() {
            SessionView {
                selected: toggled(self.selected, self.filtered()[self.cursor as int], self.capacity()),
                ..self
            }
        } else {
            self
        }
    }

    /// On the tips tab, the next category filter, cursor at the top.
    pub open spec fn cycle_category(self) -> SessionView {
        if self.tab == Tab::Tips {
            SessionView {
                filter: self.filter.next(),
                cursor: 0,
                status: Some(filter_message(self.filter.next())),
                ..self
            }
        } else {
            self
        }
    }

    /// On the tips tab, the selection replaced by the first tips of the
    /// filtered view, as many as the capacity allows, in view order.
    pub open spec fn select_all(self) -> SessionView {
        if self.tab == Tab::Tips {
            let picked = self.filtered().take(min_nat(self.capacity(), self.filtered().len()) as int);
            SessionView { selected: picked, status: Some(selected_message(picked.len())), ..self }
        } else {
            self
        }
    }

    /// On the draft tab, the selection without the entry at the cursor; a
    /// cursor left past the end moves to the new last row.
    pub open spec fn remove_from_draft(self) -> SessionView {
        if self.tab == Tab::Draft && self.cursor < self.selected.len() {
            let rest = self.selected.remove(self.cursor as int);
            SessionView {
                selected: rest,
                cursor: if self.cursor > 0 && self.cursor >= rest.len() {
                    (rest.len() - 1) as usize
                } else {
                    self.cursor
                },
                status: Some("Tip removed from draft"@),
                ..self
            }
        } else {
            self
        }
    }

    /// A reload: the tips replaced wholesale.
    pub open spec fn loaded(self, tips: Seq<TipView>) -> SessionView {
        SessionView { tips: tips, status: Some(loaded_message(tips.len())), ..self }
    }

    /// A load in which the sources named in `unreadable` could not be read:
    /// the tips of the others replace the old ones, and the status names the
    /// sources left out.
    pub open spec fn loaded_partly(self, tips: Seq<TipView>, unreadable: Seq<Seq<char>>) -> SessionView {
        if unreadable.len() == 0 {
            self.loaded(tips)
        } else {
            SessionView {
                tips: tips,
                status: Some(loaded_message(tips.len()) + "; unreadable:"@ + listed(unreadable)),
                ..self
            }
        }
    }

    /// A key press. A pending quit is confirmed by the quit key; any other key
    /// cancels it, together with any half-made gesture, and then does its own
    /// work.
    pub open spec fn key_step(self, key: Key) -> (SessionView, Effect) {
        if self.confirm_quit && key == Key::Char('q') {
            (self, Effect::Quit)
        } else {
            SessionView {
                confirm_quit: false,
                pending_g: self.pending_g && !self.confirm_quit,
                ..self
            }.gesture(key)
        }
    }

    /// A key press with no quit pending: the go-to-top key acts on its second
    /// press in a row, and any other key drops a first press and then does its
    /// own work.
    pub open spec fn gesture(self, key: Key) -> (SessionView, Effect) {
        if key == Key::Char('g') {
            if self.pending_g {
                (SessionView { pending_g: false, ..self.top() }, Effect::Continue)
            } else {
                (SessionView { pending_g: true, ..self }, Effect::Continue)
            }
        } else {
            SessionView { pending_g: false, ..self }.command(key)
        }
    }

    /// The work of a key other than the go-to-top key.
    pub open spec fn command(self, key: Key) -> (SessionView, Effect) {
        match key {
            Key::Char(c) => if c == 'q' {
                (SessionView { confirm_quit: true, ..self }, Effect::Continue)
            } else if c == '1' {
                (self.on_tab(Tab::Tips), Effect::Continue)
            } else if c == '2' {
                (self.on_tab(Tab::Draft), Effect::Continue)
            } else if c == '3' {
                (self.on_tab(Tab::Preview), Effect::Continue)
            } else if c == '4' {
                (self.on_tab(Tab::Stats), Effect::Continue)
            } else if c == 'j' {
                (self.next_item(), Effect::Continue)
            } else if c == 'k' {
                (self.prev_item(), Effect::Continue)
            } else if c == 'G' {
                (self.bottom(), Effect::Continue)
            } else if c == ' ' {
                (self.toggle(), Effect::Continue)
            } else if c == 'c' {
                (self.cycle_category(), Effect::Continue)
            } else if c == 'a' {
                (self.select_all(), Effect::Continue)
            } else if c == 'd' {
                (self.remove_from_draft(), Effect::Continue)
            } else if c == '?' {
                (SessionView { show_help: !self.show_help, ..self }, Effect::Continue)
            } else if c == 's' {
                (self, Effect::SaveDraft)
            } else if c == 'S' {
                (self, Effect::Send)
            } else if c == 'r' {
                (self, Effect::Refresh)
            } else {
                (self, Effect::Continue)
            },
            Key::Tab => (self.next_tab(), Effect::Continue),
            Key::BackTab => (self.prev_tab(), Effect::Continue),
            Key::Down => (self.next_item(), Effect::Continue),
            Key::Up => (self.prev_item(), Effect::Continue),
            Key::Enter => (self.confirm(), Effect::Continue),
            Key::Other => (self, Effect::Continue),
        }
    }

    /// The confirm key: from tips to draft when something is selected, from
    /// draft to preview, a hint on preview, nothing on stats.
    pub open spec fn confirm(self) -> SessionView {
        match self.tab {
            Tab::Tips => if self.selected.len() > 0 {
                SessionView {
                    status: Some(added_message(self.selected.len())),
                    ..self.on_tab(Tab::Draft)
                }
            } else {
                self
            },
            Tab::Draft => self.on_tab(Tab::Preview),
            Tab::Preview => SessionView { status: Some("Press 'S' to send newsletter"@), ..self },
            Tab::Stats => self,
        }
    }
}

/// The smaller of two numbers.
pub open spec fn min_nat(a: nat, b: nat) -> nat {
    if a < b {
        a
    } else {
        b
    }
}

/// The status after `n` tips were loaded.
pub open spec fn loaded_message(n: nat) -> Seq<char> {
    "Loaded "@ + decimal(n) + " tips"@
}

/// Each name preceded by a space.
pub open spec fn listed(names: Seq<Seq<char>>) -> Seq<char>
    decreases names.len(),
{
    if names.len() == 0 {
        seq![]
    } else {
        listed(names.drop_last()) + " "@ + names.last()
    }
}

/// The status after the filter moved to `c`.
pub open spec fn filter_message(c: Category) -> Seq<char> {
    "Filter: "@ + c.name()
}

/// The status after `n` tips were selected at once.
pub open spec fn selected_message(n: nat) -> Seq<char> {
    "Selected "@ + decimal(n) + " tips"@
}

/// The status after a selection of `n` tips moved to the draft.
pub open spec fn added_message(n: nat) -> Seq<char> {
    decimal(n) + " tips added to draft"@
}

/// Toggling the tip under the cursor twice, with nothing in between,
/// restores the selection and the whole session, when that tip was not
/// selected or was the last one selected.
pub proof fn lemma_session_toggle_twice(v: SessionView)
    requires
        v.wf(),
        v.tab == Tab::Tips,
        v.cursor < v.filtered().len(),
        !v.selected.contains(v.filtered()[v.cursor as int]) || v.selected.last() == v.filtered()[v.cursor as int],
    ensures
        v.toggle().toggle() == v,
{
    lemma_toggle_twice(v.selected, v.filtered()[v.cursor as int], v.capacity());
    assert(v.toggle().toggle() =~= v);
}

/// Selecting all visible tips selects exactly the first `min(k, m)` of the
/// `m` tips in the filtered view, `k` being the capacity, in view order and
/// with no index twice.
pub proof fn lemma_select_all_exact(v: SessionView)
    requires
        v.tab == Tab::Tips,
        v.tips.len() <= usize::MAX,
    ensures
        v.select_all().selected.len() == min_nat(v.capacity(), v.filtered().len()),
        forall|i: int|
            0 <= i < v.select_all().selected.len() ==> v.select_all().selected[i]
                == v.filtered()[i],
        distinct(v.select_all().selected),
{
    lemma_filtered_distinct(v.tips, v.filter);
}

/// Changing the category filter leaves the selection as it was, members and
/// order.
pub proof fn lemma_filter_change_keeps_selection(v: SessionView)
    ensures
        v.cycle_category().selected == v.selected,
        v.key_step(Key::Char('c')).0.selected == v.selected,
{
}

/// Four steps forward through the tabs return to the starting tab.
pub proof fn lemma_next_tab_cycles(v: SessionView)
    ensures
        v.next_tab().next_tab().next_tab().next_tab().tab == v.tab,
        v.next_tab().cursor == 0,
        v.prev_tab().cursor == 0,
{
}

/// Whatever key moves to another tab leaves the cursor at the top.
pub proof fn lemma_tab_change_resets_cursor(v: SessionView, key: Key)
    ensures
        v.key_step(key).0.tab != v.tab ==> v.key_step(key).0.cursor == 0,
{
}

/// Every operation on a session keeps its selection distinct and within
/// capacity.
pub proof fn lemma_operations_keep_invariant(v: SessionView)
    requires
        v.wf(),
        v.tips.len() <= usize::MAX,
    ensures
        v.toggle().wf(),
        v.select_all().wf(),
        v.remove_from_draft().wf(),
        v.cycle_category().wf(),
        v.confirm().wf(),
        forall|e: String| #[trigger] v.issue_created(Err(e)).wf(),
        forall|n: u32| #[trigger] v.issue_sent(Ok(n)).wf(),
{
    if v.tab == Tab::Tips && v.cursor < v.filtered().len() {
        lemma_toggle_keeps_selection_ok(v.selected, v.filtered()[v.cursor as int], v.capacity());
    }
    if v.tab == Tab::Tips {
        lemma_select_all_exact(v);
    }
    if v.tab == Tab::Draft && v.cursor < v.selected.len() {
        let p = v.cursor as int;
        let t = v.selected.remove(p);
        assert forall|i: int, j: int| 0 <= i < j < t.len() implies t[i] != t[j] by {
            let a = if i < p { i } else { i + 1 };
            let b = if j < p { j } else { j + 1 };
            assert(t[i] == v.selected[a] && t[j] == v.selected[b] && a < b);
        }
    }
}

/// No key press breaks the session invariant.
pub proof fn lemma_key_keeps_invariant(v: SessionView, key: Key)
    requires
        v.wf(),
        v.tips.len() <= usize::MAX,
    ensures
        v.key_step(key).0.wf(),
{
    lemma_operations_keep_invariant(v);
    lemma_operations_keep_invariant(SessionView { pending_g: false, ..v });
}

} // verus!
