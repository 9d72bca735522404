//! The publish workflow and the saved draft: render the selection as the
//! next issue, create it remotely, dispatch it, then refresh the counts.
//! The remote calls are made by the caller, which hands each outcome back.

use vstd::prelude::*;
use crate::app::App;
use crate::html::{generate_newsletter_html, newsletter_html, newsletter_subject, subject_line};
use crate::session::SessionView;
use crate::text::{decimal, decimal_string};
use crate::tips::{Tip, TipView, tip_views};
use crate::waitlist::Stats;

verus! {

/// What a publish run hands to the remote service.
pub struct Publication {
    pub issue_number: u32,
    pub subject: String,
    pub html: String,
}

/// A draft as it is saved: issue number, subject, creation time, and the
/// selected tips in selection order.
pub struct Draft {
    pub issue_number: u32,
    pub subject: String,
    pub created_at: String,
    pub tips: Vec<Tip>,
}

/// The number of the next issue: one past the last known count, or one when
/// no count is known; held at the largest `u32`.
pub open spec fn next_issue(stats: Option<Stats>) -> u32 {
    match stats {
        Some(s) => if s.total_issues < u32::MAX {
            (s.total_issues + 1) as u32
        } else {
            u32::MAX
        },
        None => 1,
    }
}

/// The tips that the selection names, in selection order; an index past the
/// end of `tips` names none.
pub open spec fn selected_views(tips: Seq<TipView>, sel: Seq<usize>) -> Seq<TipView>
    decreases sel.len(),
{
    if sel.len() == 0 {
        seq![]
    } else {
        let before = selected_views(tips, sel.drop_last());
        if sel.last() < tips.len() {
            before.push(tips[sel.last() as int])
        } else {
            before
        }
    }
}

/// Whether `html` is the page of `tips` as issue `issue`, on some date.
pub open spec fn renders(html: Seq<char>, tips: Seq<TipView>, issue: nat) -> bool {
    exists|date: Seq<char>| html == newsletter_html(tips, issue, date)
}

/// An outcome's text: its value or its error.
pub open spec fn outcome_text(outcome: Result<String, String>) -> Seq<char> {
    match outcome {
        Ok(v) => v@,
        Err(e) => e@,
    }
}

/// The status after a dispatch that reached `n` recipients.
pub open spec fn sent_message(n: nat) -> Seq<char> {
    "Newsletter sent to "@ + decimal(n) + " subscribers!"@
}

impl SessionView {
    /// The start of a publish run: refused with a notice when nothing is
    /// selected, else under way with the draft being created.
    pub open spec fn publish_started(self) -> SessionView {
        if self.selected.len() == 0 {
            SessionView { status: Some("No tips selected!"@), ..self }
        } else {
            SessionView { is_loading: true, status: Some("Creating newsletter issue..."@), ..self }
        }
    }

    /// The remote draft was created, or creating it failed; a failure ends
    /// the run and leaves the selection as it is.
    pub open spec fn issue_created(self, outcome: Result<String, String>) -> SessionView {
        match outcome {
            Ok(id) => SessionView {
                status: Some("Sending to subscribers... (issue: "@ + id@ + ")"@),
                ..self
            },
            Err(e) => SessionView {
                is_loading: false,
                status: Some("Create issue failed: "@ + e@),
                ..self
            },
        }
    }

    /// The draft was dispatched, which consumes the selection, or dispatching
    /// failed, which ends the run and leaves the selection as it is.
    pub open spec fn issue_sent(self, outcome: Result<u32, String>) -> SessionView {
        match outcome {
            Ok(n) => SessionView {
                selected: seq![],
                status: Some(sent_message(n as nat)),
                ..self
            },
            Err(e) => SessionView { is_loading: false, status: Some("Send failed: "@ + e@), ..self },
        }
    }

    pub open spec fn refresh_started(self) -> SessionView {
        SessionView { is_loading: true, status: Some("Refreshing..."@), ..self }
    }

    /// Fresh counts replace the cached ones; a failure keeps the cached ones.
    pub open spec fn refreshed(self, outcome: Result<Stats, String>) -> SessionView {
        match outcome {
            Ok(st) => SessionView {
                stats: Some(st),
                is_loading: false,
                status: Some("Stats refreshed"@),
                ..self
            },
            Err(e) => SessionView { is_loading: false, status: Some("Error: "@ + e@), ..self },
        }
    }

    pub open spec fn draft_saved(self, location: Seq<char>) -> SessionView {
        SessionView { status: Some("Draft saved to "@ + location), ..self }
    }
}

/// A failed draft creation leaves the selection as it was and reports the
/// failure; a failed dispatch does the same.
pub proof fn lemma_publish_failure_keeps_selection(v: SessionView, e: String)
    ensures
        v.issue_created(Err(e)).selected == v.selected,
        v.issue_created(Err(e)).status == Some("Create issue failed: "@ + e@),
        v.issue_sent(Err(e)).selected == v.selected,
        v.issue_sent(Err(e)).status == Some("Send failed: "@ + e@),
{
}

/// A successful dispatch clears the selection, and it stays clear whether
/// the refresh that follows succeeds or fails.
pub proof fn lemma_dispatch_success_clears(
    v: SessionView,
    recipients: u32,
    fetched: Result<Stats, String>,
)
    ensures
        v.issue_sent(Ok(recipients)).selected.len() == 0,
        v.issue_sent(Ok(recipients)).refresh_started().refreshed(fetched).selected.len() == 0,
{
}

/// A draft of a selection whose indices all name loaded tips holds exactly
/// those tips, in selection order; with a cached issue count below the
/// largest `u32`, it is numbered one past that count.
pub proof fn lemma_draft_holds_selection(tips: Seq<TipView>, sel: Seq<usize>, stats: Stats)
    requires
        forall|i: int| 0 <= i < sel.len() ==> sel[i] < tips.len(),
        stats.total_issues < u32::MAX,
    ensures
        selected_views(tips, sel).len() == sel.len(),
        forall|i: int|
            0 <= i < sel.len() ==> #[trigger] selected_views(tips, sel)[i] == tips[sel[i] as int],
        next_issue(Some(stats)) == stats.total_issues + 1,
    decreases sel.len(),
{
    if sel.len() > 0 {
        let before = sel.drop_last();
        lemma_draft_holds_selection(tips, before, stats);
        assert forall|i: int| 0 <= i < sel.len() implies #[trigger] selected_views(tips, sel)[i]
            == tips[sel[i] as int] by {
            if i < before.len() {
                assert(selected_views(tips, before)[i] == tips[before[i] as int]);
            }
        }
    }
}

/// Relies on `chrono::Utc::now` and `to_rfc3339`, for the present moment as
/// an RFC 3339 timestamp, which always begins with the date. `Utc::now`
/// panics only on a system clock set before 1970.
#[verifier::external_body]
fn now_rfc3339() -> (r: String)
    ensures
        r@.len() > 0,
{
    chrono::Utc::now().to_rfc3339()
}

impl App {
    /// The number of the next issue.
    pub fn issue_number(&self) -> (r: u32)
        ensures
            r == next_issue(self.stats),
    {
        match self.stats {
            Some(s) => if s.total_issues < u32::MAX {
                s.total_issues + 1
            } else {
                u32::MAX
            },
            None => 1,
        }
    }

    /// Copies of the selected tips, in selection order.
    pub fn selected_entries(&self) -> (r: Vec<Tip>)
        ensures
            tip_views(r@) == selected_views(self@.tips, self@.selected),
    {
        let mut r: Vec<Tip> = Vec::new();
        let mut i: usize = 0;
        while i < self.selected_tips.len()
            invariant
                i <= self.selected_tips@.len(),
                self@.tips.len() == self.tips@.len(),
                tip_views(r@) == selected_views(self@.tips, self.selected_tips@.take(i as int)),
            decreases self.selected_tips@.len() - i,
        {
            let k = self.selected_tips[i];
            let ghost before = r@;
            assert(self.selected_tips@.take(i + 1).drop_last() =~= self.selected_tips@.take(
                i as int,
            ));
            if k < self.tips.len() {
                r.push(self.tips[k].duplicate());
                assert(tip_views(r@) =~= tip_views(before).push(self@.tips[k as int]));
            }
            i = i + 1;
        }
        assert(self.selected_tips@.take(i as int) =~= self.selected_tips@);
        r
    }

    /// The draft record of the current selection, stamped `created_at`.
    pub fn draft_at(&self, created_at: String) -> (r: Draft)
        ensures
            r.issue_number == next_issue(self.stats),
            tip_views(r.tips@) == selected_views(self@.tips, self@.selected),
            r.subject@ == subject_line(r.issue_number as nat, r.tips@.len()),
            r.created_at == created_at,
    {
        let tips = self.selected_entries();
        let issue_number = self.issue_number();
        let subject = newsletter_subject(issue_number, tips.len());
        Draft { issue_number, subject, created_at, tips }
    }

    /// The draft record of the current selection, stamped now.
    pub fn draft_record(&self) -> (r: Draft)
        ensures
            r.created_at@.len() > 0,
            r.issue_number == next_issue(self.stats),
            tip_views(r.tips@) == selected_views(self@.tips, self@.selected),
            r.subject@ == subject_line(r.issue_number as nat, r.tips@.len()),
    {
        self.draft_at(now_rfc3339())
    }

    /// Notes that the draft was written to `location`.
    pub fn draft_saved(&mut self, location: &str)
        ensures
            final(self)@ == old(self)@.draft_saved(location@),
    {
        self.status_message = Some(String::from_str("Draft saved to ").concat(location));
    }

    /// Starts a publish run. With nothing selected it only says so and gives
    /// `None`. Otherwise it renders the selected tips, in selection order, as
    /// the next issue and gives its subject and page for the remote service.
    pub fn begin_send(&mut self) -> (r: Option<Publication>)
        ensures
            final(self)@ == old(self)@.publish_started(),
            r is None <==> old(self)@.selected.len() == 0,
            r matches Some(p) ==> p.issue_number == next_issue(old(self).stats),
            r matches Some(p) ==> p.subject@ == subject_line(
                p.issue_number as nat,
                selected_views(old(self)@.tips, old(self)@.selected).len(),
            ),
            r matches Some(p) ==> renders(
                p.html@,
                selected_views(old(self)@.tips, old(self)@.selected),
                p.issue_number as nat,
            ),
    {
        if self.selected_tips.len() == 0 {
            self.status_message = Some(String::from_str("No tips selected!"));
            return None;
        }
        self.is_loading = true;
        let tips = self.selected_entries();
        let issue_number = self.issue_number();
        let html = generate_newsletter_html(tips.as_slice(), issue_number);
        let subject = newsletter_subject(issue_number, tips.len());
        assert(tips@.len() == tip_views(tips@).len());
        proof {
            let date = choose|date: Seq<char>|
                html@ == newsletter_html(tip_views(tips@), issue_number as nat, date);
            assert(html@ == newsletter_html(
                selected_views(old(self)@.tips, old(self)@.selected),
                issue_number as nat,
                date,
            ));
            assert(renders(
                html@,
                selected_views(old(self)@.tips, old(self)@.selected),
                issue_number as nat,
            ));
        }
        self.status_message = Some(String::from_str("Creating newsletter issue..."));
        Some(Publication { issue_number, subject, html })
    }

    /// Takes the outcome of creating the remote draft; gives the draft's id
    /// to dispatch, or `None` when creating failed and the run is over.
    pub fn issue_created(&mut self, outcome: Result<String, String>) -> (r: Option<String>)
        ensures
            final(self)@ == old(self)@.issue_created(outcome),
            r is Some <==> outcome is Ok,
            r matches Some(id) ==> id@ == outcome_text(outcome),
    {
        match outcome {
            Ok(id) => {
                self.status_message = Some(
                    String::from_str("Sending to subscribers... (issue: ").concat(id.as_str()).concat(
                        ")",
                    ),
                );
                Some(id)
            },
            Err(e) => {
                self.status_message = Some(
                    String::from_str("Create issue failed: ").concat(e.as_str()),
                );
                self.is_loading = false;
                None
            },
        }
    }

    /// Takes the outcome of dispatching the draft; gives whether the counts
    /// must now be refreshed, which is so exactly when dispatch succeeded.
    pub fn issue_sent(&mut self, outcome: Result<u32, String>) -> (r: bool)
        ensures
            final(self)@ == old(self)@.issue_sent(outcome),
            r == outcome is Ok,
    {
        match outcome {
            Ok(count) => {
                self.status_message = Some(
                    String::from_str("Newsletter sent to ").concat(
                        decimal_string(count as u64).as_str(),
                    ).concat(" subscribers!"),
                );
                self.selected_tips.clear();
                true
            },
            Err(e) => {
                self.status_message = Some(String::from_str("Send failed: ").concat(e.as_str()));
                self.is_loading = false;
                false
            },
        }
    }

    pub fn start_refresh(&mut self)
        ensures
            final(self)@ == old(self)@.refresh_started(),
    {
        self.is_loading = true;
        self.status_message = Some(String::from_str("Refreshing..."));
    }

    /// Takes the outcome of fetching the counts.
    pub fn refresh(&mut self, fetched: Result<Stats, String>)
        ensures
            final(self)@ == old(self)@.refreshed(fetched),
    {
        match fetched {
            Ok(st) => {
                self.stats = Some(st);
                self.status_message = Some(String::from_str("Stats refreshed"));
            },
            Err(e) => {
                self.status_message = Some(String::from_str("Error: ").concat(e.as_str()));
            },
        }
        self.is_loading = false;
    }

}

} // verus!
