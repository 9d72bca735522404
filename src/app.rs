//! The session state: tab focus, cursor, category filter, pending two-key
//! gestures, the selection and the status line, and the key handling that
//! moves it.

use vstd::prelude::*;
use crate::config::Config;
use crate::selection::lemma_position_of;
use crate::session::{
    listed, filtered_upto, lemma_key_keeps_invariant, lemma_operations_keep_invariant, min_nat,
    SessionView,
};
use crate::text::{decimal_string, same_text};
use crate::tips::{Tip, tip_views};
use crate::waitlist::Stats;

verus! {

/// The tabs of the dashboard, in cycle order.
#[derive(Debug, Clone, Copy, PartialEq, Eq, Structural)]
pub enum Tab {
    Tips,
    Draft,
    Preview,
    Stats,
}

impl Tab {
    /// The tab that follows this one, the last wrapping to the first.
    pub open spec fn next(self) -> Tab {
        match self {
            Tab::Tips => Tab::Draft,
            Tab::Draft => Tab::Preview,
            Tab::Preview => Tab::Stats,
            Tab::Stats => Tab::Tips,
        }
    }

    /// The tab before this one, the first wrapping to the last.
    pub open spec fn prev(self) -> Tab {
        match self {
            Tab::Tips => Tab::Stats,
            Tab::Draft => Tab::Tips,
            Tab::Preview => Tab::Draft,
            Tab::Stats => Tab::Preview,
        }
    }

    pub open spec fn title_text(self) -> Seq<char> {
        match self {
            Tab::Tips => "Tips"@,
            Tab::Draft => "Draft"@,
            Tab::Preview => "Preview"@,
            Tab::Stats => "Stats"@,
        }
    }

    pub fn title(&self) -> (r: &'static str)
        ensures
            r@ == self.title_text(),
    {
        match self {
            Tab::Tips => "Tips",
            Tab::Draft => "Draft",
            Tab::Preview => "Preview",
            Tab::Stats => "Stats",
        }
    }

    /// Every tab, in cycle order.
    pub fn all() -> (r: &'static [Tab])
        ensures
            r@ == seq![Tab::Tips, Tab::Draft, Tab::Preview, Tab::Stats],
    {
        &[Tab::Tips, Tab::Draft, Tab::Preview, Tab::Stats]
    }
}

/// The category filter: every tip, or the tips of one category.
#[derive(Debug, Clone, Copy, PartialEq, Eq, Structural)]
pub enum Category {
    All,
    Orchestration,
    ContextManagement,
    Workflow,
    Subagents,
    Tooling,
}

impl Category {
    /// The category name that a tip carries.
    pub open spec fn name(self) -> Seq<char> {
        match self {
            Category::All => "All"@,
            Category::Orchestration => "orchestration"@,
            Category::ContextManagement => "context-management"@,
            Category::Workflow => "workflow"@,
            Category::Subagents => "subagents"@,
            Category::Tooling => "tooling"@,
        }
    }

    pub open spec fn icon_text(self) -> Seq<char> {
        match self {
            Category::All => "*"@,
            Category::Orchestration => "O"@,
            Category::ContextManagement => "C"@,
            Category::Workflow => "W"@,
            Category::Subagents => "S"@,
            Category::Tooling => "T"@,
        }
    }

    /// The filter that cycling moves to, the last wrapping to `All`.
    pub open spec fn next(self) -> Category {
        match self {
            Category::All => Category::Orchestration,
            Category::Orchestration => Category::ContextManagement,
            Category::ContextManagement => Category::Workflow,
            Category::Workflow => Category::Subagents,
            Category::Subagents => Category::Tooling,
            Category::Tooling => Category::All,
        }
    }

    /// Whether a tip of category `category` passes this filter.
    pub open spec fn admits(self, category: Seq<char>) -> bool {
        self == Category::All || category == self.name()
    }

    pub fn as_str(&self) -> (r: &'static str)
        ensures
            r@ == self.name(),
    {
        match self {
            Category::All => "All",
            Category::Orchestration => "orchestration",
            Category::ContextManagement => "context-management",
            Category::Workflow => "workflow",
            Category::Subagents => "subagents",
            Category::Tooling => "tooling",
        }
    }

    pub fn icon(&self) -> (r: &'static str)
        ensures
            r@ == self.icon_text(),
    {
        match self {
            Category::All => "*",
            Category::Orchestration => "O",
            Category::ContextManagement => "C",
            Category::Workflow => "W",
            Category::Subagents => "S",
            Category::Tooling => "T",
        }
    }
}

/// A key press, as the session reads it.
#[derive(Debug, Clone, Copy, PartialEq, Eq, Structural)]
pub enum Key {
    Char(char),
    Tab,
    BackTab,
    Up,
    Down,
    Enter,
    Other,
}

/// What the caller must do after a key press.
#[derive(Debug, Clone, Copy, PartialEq, Eq, Structural)]
pub enum Effect {
    /// Nothing more: read the next key.
    Continue,
    /// End the session.
    Quit,
    /// Write the draft record.
    SaveDraft,
    /// Run the publish workflow.
    Send,
    /// Fetch fresh counts.
    Refresh,
}

/// The state of one curation session.
pub struct App {
    /// The active tab.
    pub current_tab: Tab,
    /// Every loaded tip, by stable index.
    pub tips: Vec<Tip>,
    /// Indices of the chosen tips, in the order they will be published.
    pub selected_tips: Vec<usize>,
    /// Cursor in the list that the active tab shows.
    pub list_index: usize,
    /// Category filter of the tips tab.
    pub category_filter: Category,
    /// Subject line of the draft.
    pub draft_subject: String,
    /// Last counts fetched from the remote service.
    pub stats: Option<Stats>,
    /// Session settings.
    pub config: Config,
    /// A first quit key was pressed and awaits confirmation.
    pub confirm_quit: bool,
    /// A first go-to-top key was pressed and awaits the second.
    pub pending_g: bool,
    /// The help overlay is shown.
    pub show_help: bool,
    /// A remote call is under way.
    pub is_loading: bool,
    /// Status line text.
    pub status_message: Option<String>,
}

impl View for App {
    type V = SessionView;

    open spec fn view(&self) -> SessionView {
        SessionView {
            tab: self.current_tab,
            tips: tip_views(self.tips@),
            selected: self.selected_tips@,
            cursor: self.list_index,
            filter: self.category_filter,
            draft_subject: self.draft_subject@,
            stats: self.stats,
            config: self.config@,
            confirm_quit: self.confirm_quit,
            pending_g: self.pending_g,
            show_help: self.show_help,
            is_loading: self.is_loading,
            status: match self.status_message {
                Some(m) => Some(m@),
                None => None,
            },
        }
    }
}

impl App {
    /// A fresh session: no tips, nothing selected, on the tips tab with
    /// every category shown.
    pub fn new(config: Config) -> (r: App)
        ensures
            r@.tab == Tab::Tips,
            r@.tips.len() == 0,
            r@.selected.len() == 0,
            r@.cursor == 0,
            r@.filter == Category::All,
            r@.draft_subject.len() == 0,
            r@.stats is None,
            r@.config == config@,
            !r@.confirm_quit && !r@.pending_g && !r@.show_help && !r@.is_loading,
            r@.status is None,
            r@.wf(),
    {
        let r = App {
            current_tab: Tab::Tips,
            tips: Vec::new(),
            selected_tips: Vec::new(),
            list_index: 0,
            category_filter: Category::All,
            draft_subject: String::new(),
            stats: None,
            config,
            confirm_quit: false,
            pending_g: false,
            show_help: false,
            is_loading: false,
            status_message: None,
        };
        assert(r@.tips =~= seq![]);
        r
    }

    /// Replaces the tips wholesale with a fresh load.
    pub fn load_tips(&mut self, tips: Vec<Tip>)
        ensures
            final(self)@ == old(self)@.loaded(tip_views(tips@)),
    {
        let n = tips.len();
        self.tips = tips;
        self.status_message = Some(
            String::from_str("Loaded ").concat(decimal_string(n as u64).as_str()).concat(" tips"),
        );
    }

    /// Replaces the tips with those of the sources that could be read, and
    /// names in the status the sources in `unreadable` that could not.
    pub fn load_tips_partly(&mut self, tips: Vec<Tip>, unreadable: &Vec<String>)
        ensures
            final(self)@ == old(self)@.loaded_partly(
                tip_views(tips@),
                unreadable@.map_values(|n: String| n@),
            ),
    {
        self.load_tips(tips);
        if unreadable.len() > 0 {
            let ghost names = unreadable@.map_values(|n: String| n@);
            let mut status = String::from_str("Loaded ").concat(
                decimal_string(self.tips.len() as u64).as_str(),
            ).concat(" tips").concat("; unreadable:");
            let ghost head = status@;
            let mut i: usize = 0;
            while i < unreadable.len()
                invariant
                    i <= unreadable@.len(),
                    names == unreadable@.map_values(|n: String| n@),
                    status@ == head + listed(names.take(i as int)),
                decreases unreadable@.len() - i,
            {
                assert(names.take(i + 1 as int).drop_last() =~= names.take(i as int));
                status.append(" ");
                status.append(unreadable[i].as_str());
                i = i + 1;
            }
            assert(names.take(i as int) =~= names);
            self.status_message = Some(status);
        }
    }

    /// Handles one key press and says what the caller must do next.
    pub fn handle_key(&mut self, key: Key) -> (r: Effect)
        ensures
            (final(self)@, r) == old(self)@.key_step(key),
            old(self)@.wf() ==> final(self)@.wf(),
    {
        let ntips = self.tips.len();
        assert(old(self)@.tips.len() == ntips);
        proof {
            if old(self)@.wf() {
                lemma_key_keeps_invariant(old(self)@, key);
            }
        }
        if self.confirm_quit {
            if key == Key::Char('q') {
                return Effect::Quit;
            }
            self.confirm_quit = false;
            self.pending_g = false;
        }
        if key == Key::Char('g') {
            if self.pending_g {
                self.go_to_top();
                self.pending_g = false;
            } else {
                self.pending_g = true;
            }
            return Effect::Continue;
        }
        self.pending_g = false;
        match key {
            Key::Char(c) => {
                if c == 'q' {
                    self.confirm_quit = true;
                } else if c == '1' {
                    self.select_tab(Tab::Tips);
                } else if c == '2' {
                    self.select_tab(Tab::Draft);
                } else if c == '3' {
                    self.select_tab(Tab::Preview);
                } else if c == '4' {
                    self.select_tab(Tab::Stats);
                } else if c == 'j' {
                    self.next_item();
                } else if c == 'k' {
                    self.prev_item();
                } else if c == 'G' {
                    self.go_to_bottom();
                } else if c == ' ' {
                    self.toggle_selection();
                } else if c == 'c' {
                    self.cycle_category();
                } else if c == 'a' {
                    self.select_all();
                } else if c == 'd' {
                    self.remove_from_draft();
                } else if c == '?' {
                    self.show_help = !self.show_help;
                } else if c == 's' {
                    return Effect::SaveDraft;
                } else if c == 'S' {
                    return Effect::Send;
                } else if c == 'r' {
                    return Effect::Refresh;
                }
            },
            Key::Tab => self.next_tab(),
            Key::BackTab => self.prev_tab(),
            Key::Down => self.next_item(),
            Key::Up => self.prev_item(),
            Key::Enter => self.confirm_action(),
            Key::Other => {},
        }
        Effect::Continue
    }

    /// The indices and tips that the tips tab lists under the current filter.
    pub fn filtered_tips(&self) -> (r: Vec<(usize, &Tip)>)
        ensures
            r@.len() == self@.filtered().len(),
            forall|j: int|
                0 <= j < r@.len() ==> r@[j].0 == self@.filtered()[j] && *r@[j].1
                    == self.tips@[r@[j].0 as int],
    {
        let mut r: Vec<(usize, &Tip)> = Vec::new();
        let mut i: usize = 0;
        while i < self.tips.len()
            invariant
                i <= self.tips@.len(),
                r@.len() == filtered_upto(self@.tips, self.category_filter, i as nat).len(),
                forall|j: int|
                    0 <= j < r@.len() ==> r@[j].0 == filtered_upto(
                        self@.tips,
                        self.category_filter,
                        i as nat,
                    )[j] && *r@[j].1 == self.tips@[r@[j].0 as int],
            decreases self.tips@.len() - i,
        {
            let tip = &self.tips[i];
            assert(self@.tips[i as int] == self.tips@[i as int]@);
            let ghost before = r@;
            let ghost upto = filtered_upto(self@.tips, self.category_filter, i as nat);
            let admitted = self.category_filter == Category::All || same_text(
                tip.category.as_str(),
                self.category_filter.as_str(),
            );
            assert(admitted == self.category_filter.admits(self@.tips[i as int].category));
            if admitted {
                r.push((i, tip));
                assert(filtered_upto(self@.tips, self.category_filter, (i + 1) as nat) == upto.push(
                    i,
                ));
                assert(forall|j: int| 0 <= j < before.len() ==> r@[j] == before[j]);
            } else {
                assert(filtered_upto(self@.tips, self.category_filter, (i + 1) as nat) == upto);
            }
            i = i + 1;
        }
        assert(self@.tips.len() == self.tips@.len());
        r
    }

    /// The length of the list that the current tab shows.
    fn current_list_len(&self) -> (r: usize)
        ensures
            r == self@.list_len(),
    {
        match self.current_tab {
            Tab::Tips => self.filtered_tips().len(),
            Tab::Draft => self.selected_tips.len(),
            _ => 0,
        }
    }

    /// Switches to `tab`, cursor at the top.
    pub fn select_tab(&mut self, tab: Tab)
        ensures
            final(self)@ == old(self)@.on_tab(tab),
    {
        self.current_tab = tab;
        self.list_index = 0;
    }

    pub fn next_tab(&mut self)
        ensures
            final(self)@ == old(self)@.next_tab(),
    {
        let next = match self.current_tab {
            Tab::Tips => Tab::Draft,
            Tab::Draft => Tab::Preview,
            Tab::Preview => Tab::Stats,
            Tab::Stats => Tab::Tips,
        };
        self.select_tab(next);
    }

    pub fn prev_tab(&mut self)
        ensures
            final(self)@ == old(self)@.prev_tab(),
    {
        let prev = match self.current_tab {
            Tab::Tips => Tab::Stats,
            Tab::Draft => Tab::Tips,
            Tab::Preview => Tab::Draft,
            Tab::Stats => Tab::Preview,
        };
        self.select_tab(prev);
    }

    pub fn next_item(&mut self)
        ensures
            final(self)@ == old(self)@.next_item(),
    {
        let max = self.current_list_len();
        if max > 0 {
            self.list_index = if self.list_index < max - 1 {
                self.list_index + 1
            } else {
                max - 1
            };
        }
    }

    pub fn prev_item(&mut self)
        ensures
            final(self)@ == old(self)@.prev_item(),
    {
        if self.list_index > 0 {
            self.list_index = self.list_index - 1;
        }
    }

    pub fn go_to_top(&mut self)
        ensures
            final(self)@ == old(self)@.top(),
    {
        self.list_index = 0;
    }

    /// On the tips tab, toggles the tip under the cursor in the selection.
    pub fn toggle_selection(&mut self)
        ensures
            final(self)@ == old(self)@.toggle(),
            old(self)@.wf() ==> final(self)@.wf(),
    {
        let ntips = self.tips.len();
        assert(old(self)@.tips.len() == ntips);
        proof {
            if old(self)@.wf() {
                lemma_operations_keep_invariant(old(self)@);
            }
        }
        if self.current_tab != Tab::Tips {
            return;
        }
        let idx = {
            let filtered = self.filtered_tips();
            if self.list_index >= filtered.len() {
                return;
            }
            filtered[self.list_index].0
        };
        let ghost sel = self.selected_tips@;
        let mut pos: usize = 0;
        while pos < self.selected_tips.len() && self.selected_tips[pos] != idx
            invariant
                self.selected_tips@ == sel,
                pos <= sel.len(),
                forall|q: int| 0 <= q < pos ==> sel[q] != idx,
            decreases sel.len() - pos,
        {
            pos = pos + 1;
        }
        if pos < self.selected_tips.len() {
            proof {
                lemma_position_of(sel, idx, pos as int);
            }
            self.selected_tips.remove(pos);
        } else if self.selected_tips.len() < self.config.tips_per_issue {
            self.selected_tips.push(idx);
        }
    }

    /// On the tips tab, moves to the next category filter; the selection is
    /// left as it is.
    pub fn cycle_category(&mut self)
        ensures
            final(self)@ == old(self)@.cycle_category(),
    {
        if self.current_tab != Tab::Tips {
            return;
        }
        self.category_filter = match self.category_filter {
            Category::All => Category::Orchestration,
            Category::Orchestration => Category::ContextManagement,
            Category::ContextManagement => Category::Workflow,
            Category::Workflow => Category::Subagents,
            Category::Subagents => Category::Tooling,
            Category::Tooling => Category::All,
        };
        self.list_index = 0;
        self.status_message = Some(String::from_str("Filter: ").concat(self.category_filter.as_str()));
    }

    /// On the tips tab, selects the first visible tips, up to the capacity.
    pub fn select_all(&mut self)
        ensures
            final(self)@ == old(self)@.select_all(),
            old(self)@.wf() ==> final(self)@.wf(),
    {
        let ntips = self.tips.len();
        assert(old(self)@.tips.len() == ntips);
        proof {
            if old(self)@.wf() {
                lemma_operations_keep_invariant(old(self)@);
            }
        }
        if self.current_tab != Tab::Tips {
            return;
        }
        let max = self.config.tips_per_issue;
        let mut indices: Vec<usize> = Vec::new();
        {
            let filtered = self.filtered_tips();
            let mut j: usize = 0;
            while j < filtered.len() && j < max
                invariant
                    filtered@.len() == self@.filtered().len(),
                    forall|k: int| 0 <= k < filtered@.len() ==> filtered@[k].0 == self@.filtered()[k],
                    j <= filtered@.len(),
                    j <= max,
                    max == self.config.tips_per_issue,
                    indices@ == self@.filtered().take(j as int),
                decreases filtered@.len() - j,
            {
                indices.push(filtered[j].0);
                assert(indices@ =~= self@.filtered().take(j + 1));
                j = j + 1;
            }
            assert(j == min_nat(max as nat, self@.filtered().len()));
        }
        let n = indices.len();
        self.selected_tips = indices;
        self.status_message = Some(
            String::from_str("Selected ").concat(decimal_string(n as u64).as_str()).concat(" tips"),
        );
    }

    /// On the draft tab, removes the entry under the cursor from the selection.
    pub fn remove_from_draft(&mut self)
        ensures
            final(self)@ == old(self)@.remove_from_draft(),
            old(self)@.wf() ==> final(self)@.wf(),
    {
        let ntips = self.tips.len();
        assert(old(self)@.tips.len() == ntips);
        proof {
            if old(self)@.wf() {
                lemma_operations_keep_invariant(old(self)@);
            }
        }
        if self.current_tab != Tab::Draft {
            return;
        }
        if self.list_index < self.selected_tips.len() {
            self.selected_tips.remove(self.list_index);
            if self.list_index > 0 && self.list_index >= self.selected_tips.len() {
                self.list_index = self.selected_tips.len() - 1;
            }
            self.status_message = Some(String::from_str("Tip removed from draft"));
        }
    }

    /// The confirm key: moves from tips to draft when something is selected,
    /// and from draft to preview; on preview it only points at the send key.
    pub fn confirm_action(&mut self)
        ensures
            final(self)@ == old(self)@.confirm(),
    {
        match self.current_tab {
            Tab::Tips => {
                if self.selected_tips.len() > 0 {
                    let n = self.selected_tips.len();
                    self.select_tab(Tab::Draft);
                    self.status_message = Some(
                        decimal_string(n as u64).concat(" tips added to draft"),
                    );
                }
            },
            Tab::Draft => {
                self.select_tab(Tab::Preview);
            },
            Tab::Preview => {
                self.status_message = Some(String::from_str("Press 'S' to send newsletter"));
            },
            Tab::Stats => {},
        }
    }

    pub fn go_to_bottom(&mut self)
        ensures
            final(self)@ == old(self)@.bottom(),
    {
        let max = self.current_list_len();
        if max > 0 {
            self.list_index = max - 1;
        }
    }
}

} // verus!
