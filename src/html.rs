//! The issue document: every selected tip as a terminal-styled card inside
//! one HTML page, and the subject line that goes with it.

use vstd::prelude::*;
use crate::text::{decimal, decimal_string, replace_all, replaced, same_text};
use crate::tips::{Tip, TipView, tip_views};

verus! {

pub const CASE_HEAD: &'static str = r#"
    <div style="margin-bottom: 24px; font-family: 'SF Mono', 'Fira Code', ui-monospace, monospace;">
      <div style="background: #18181b; padding: 12px 16px; border-radius: 8px 8px 0 0; border-bottom: 1px solid #27272a;">
        <span style="color: #22c55e;">❯</span>
        <span style="color: #06b6d4;"> ccd</span>
        <span style="color: #a1a1aa;"> --use-case "#;

pub const CASE_TITLE: &'static str = r#"</span>
      </div>
      <div style="background: #0a0a0a; padding: 16px; border-radius: 0 0 8px 8px;">
        <div style="color: #fafafa; font-size: 14px; font-weight: 600; margin-bottom: 8px;">
          "#;

pub const CASE_TITLE_GAP: &'static str = r#" "#;

pub const CASE_SOURCE: &'static str = r#"
        </div>
        <div style="color: #71717a; font-size: 11px; margin-bottom: 12px;">
          // source: "#;

pub const CASE_BODY: &'static str = r#"
        </div>
        <div style="color: #a1a1aa; font-size: 13px; line-height: 1.6;">
          "#;

pub const CASE_TAIL: &'static str = r#"
        </div>
      </div>
    </div>
"#;

pub const DOC_HEAD: &'static str = r#"<!DOCTYPE html>
<html>
<head>
  <meta charset="utf-8">
  <meta name="viewport" content="width=device-width, initial-scale=1">
  <title>CC Daily #"#;

pub const DOC_ISSUE: &'static str = r#"</title>
</head>
<body style="font-family: -apple-system, BlinkMacSystemFont, 'Segoe UI', Roboto, sans-serif; margin: 0; padding: 0; background: #09090b;">
  <div style="max-width: 640px; margin: 0 auto; padding: 32px 16px;">

    <!-- Terminal Header -->
    <div style="background: #18181b; border-radius: 8px; padding: 16px; margin-bottom: 24px; border: 1px solid #27272a;">
      <div style="display: flex; align-items: center; margin-bottom: 12px;">
        <span style="width: 12px; height: 12px; border-radius: 50%; background: #ef4444; margin-right: 8px;"></span>
        <span style="width: 12px; height: 12px; border-radius: 50%; background: #eab308; margin-right: 8px;"></span>
        <span style="width: 12px; height: 12px; border-radius: 50%; background: #22c55e;"></span>
        <span style="color: #71717a; font-size: 12px; margin-left: auto; font-family: ui-monospace, monospace;">cc-daily</span>
      </div>
      <div style="color: #06b6d4; font-size: 20px; font-weight: 600;">
        CC Daily
      </div>
      <div style="color: #52525b; font-size: 12px; margin-top: 4px; font-family: ui-monospace, monospace;">
        Issue #"#;

pub const DOC_DATE: &'static str = r#" • "#;

pub const DOC_COUNT: &'static str = r#" • "#;

pub const DOC_INTRO: &'static str = r#" real use cases
      </div>
    </div>

    <!-- Intro as command -->
    <div style="margin-bottom: 24px; padding: 12px 16px; background: #0a0a0a; border-radius: 8px; font-family: ui-monospace, monospace;">
      <span style="color: #22c55e;">❯</span>
      <span style="color: #a1a1aa;"> cat intro.md</span>
      <p style="color: #d4d4d8; margin: 12px 0 0; font-size: 13px; line-height: 1.6;">
        This week's collection: <span style="color: #06b6d4;">"#;

pub const DOC_CASES: &'static str = r#" real use cases</span> from developers
        who've cracked the code on AI coding workflows. Each one tested in production.
      </p>
    </div>

    <!-- Use Cases -->
    "#;

pub const DOC_TAIL: &'static str = r#"

    <!-- Footer -->
    <div style="margin-top: 32px; padding: 16px; background: #18181b; border-radius: 8px; text-align: center; font-family: ui-monospace, monospace;">
      <div style="color: #52525b; font-size: 11px;">
        <span style="color: #22c55e;">❯</span> curated from reddit & the developer community
      </div>
      <div style="color: #3f3f46; font-size: 10px; margin-top: 8px;">
        <a href="{{unsubscribe_url}}" style="color: #3f3f46;">unsubscribe</a> •
        <a href="https://mustafasarac.com" style="color: #3f3f46;">mustafasarac.com</a>
      </div>
    </div>

  </div>
</body>
</html>"#;

/// The emoji shown on a card for a category name; a light bulb for a name
/// outside the known set.
pub open spec fn emoji_of(category: Seq<char>) -> Seq<char> {
    if category == "orchestration"@ {
        "\u{1f3ad}"@
    } else if category == "context-management"@ {
        "\u{1f4dd}"@
    } else if category == "workflow"@ {
        "\u{26a1}"@
    } else if category == "subagents"@ {
        "\u{1f916}"@
    } else if category == "tooling"@ {
        "\u{1f527}"@
    } else {
        "\u{1f4a1}"@
    }
}

/// The emoji shown on a card for `category`.
pub fn category_icon(category: &str) -> (r: &'static str)
    ensures
        r@ == emoji_of(category@),
{
    if same_text(category, "orchestration") {
        "\u{1f3ad}"
    } else if same_text(category, "context-management") {
        "\u{1f4dd}"
    } else if same_text(category, "workflow") {
        "\u{26a1}"
    } else if same_text(category, "subagents") {
        "\u{1f916}"
    } else if same_text(category, "tooling") {
        "\u{1f527}"
    } else {
        "\u{1f4a1}"
    }
}

/// A tip's text made fit for a card: markers turned into labels, bold marks
/// dropped, paragraphs and line breaks into HTML, code fences into blocks.
pub open spec fn cleaned(text: Seq<char>) -> Seq<char> {
    let a = replaced(text, "**Source:**"@, "// source:"@);
    let b = replaced(a, "**Why it works:**"@, WHY_LABEL@);
    let c = replaced(b, "**"@, ""@);
    let d = replaced(c, "\n\n"@, PARAGRAPH_BREAK@);
    let e = replaced(d, "\n"@, "<br>"@);
    let f = replaced(e, "```bash"@, PRE_BASH@);
    let g = replaced(f, "```markdown"@, PRE_MARKDOWN@);
    let h = replaced(g, "```json"@, PRE_JSON@);
    replaced(h, "```"@, "</pre>"@)
}

pub const WHY_LABEL: &'static str = "<br><br><strong style=\"color:#06b6d4;\">Why it works:</strong>";

pub const PARAGRAPH_BREAK: &'static str = "</p><p style=\"margin: 8px 0; color: #a1a1aa;\">";

pub const PRE_BASH: &'static str = "<pre style=\"background: #000; padding: 12px; border-radius: 4px; overflow-x: auto; margin: 12px 0; color: #22c55e;\">";

pub const PRE_MARKDOWN: &'static str = "<pre style=\"background: #000; padding: 12px; border-radius: 4px; overflow-x: auto; margin: 12px 0; color: #a1a1aa;\">";

pub const PRE_JSON: &'static str = "<pre style=\"background: #000; padding: 12px; border-radius: 4px; overflow-x: auto; margin: 12px 0; color: #fbbf24;\">";

fn clean_content(text: &str) -> (r: String)
    ensures
        r@ == cleaned(text@),
{
    proof {
        reveal_strlit("**Source:**");
        reveal_strlit("**Why it works:**");
        reveal_strlit("**");
        reveal_strlit("\n\n");
        reveal_strlit("\n");
        reveal_strlit("```bash");
        reveal_strlit("```markdown");
        reveal_strlit("```json");
        reveal_strlit("```");
    }
    let a = replace_all(text, "**Source:**", "// source:");
    let b = replace_all(a.as_str(), "**Why it works:**", WHY_LABEL);
    let c = replace_all(b.as_str(), "**", "");
    let d = replace_all(c.as_str(), "\n\n", PARAGRAPH_BREAK);
    let e = replace_all(d.as_str(), "\n", "<br>");
    let f = replace_all(e.as_str(), "```bash", PRE_BASH);
    let g = replace_all(f.as_str(), "```markdown", PRE_MARKDOWN);
    let h = replace_all(g.as_str(), "```json", PRE_JSON);
    replace_all(h.as_str(), "```", "</pre>")
}

/// The attribution shown on a card: the tip's own, or `Community`.
pub open spec fn shown_source(source: Seq<char>) -> Seq<char> {
    if source.len() == 0 {
        "Community"@
    } else {
        source
    }
}

/// The card of the tip at position `i` (numbered from one on the page).
pub open spec fn card(i: nat, t: TipView) -> Seq<char> {
    CASE_HEAD@ + decimal(i + 1) + CASE_TITLE@ + emoji_of(t.category) + CASE_TITLE_GAP@ + t.title
        + CASE_SOURCE@ + shown_source(t.source) + CASE_BODY@ + cleaned(t.content) + CASE_TAIL@
}

/// The cards of the first `n` tips, in order.
pub open spec fn cards(tips: Seq<TipView>, n: nat) -> Seq<char>
    decreases n,
{
    if n == 0 {
        seq![]
    } else {
        cards(tips, (n - 1) as nat) + card((n - 1) as nat, tips[n - 1])
    }
}

/// The whole page for `tips` as issue `issue`, dated `date`.
pub open spec fn newsletter_html(tips: Seq<TipView>, issue: nat, date: Seq<char>) -> Seq<char> {
    DOC_HEAD@ + decimal(issue) + DOC_ISSUE@ + decimal(issue) + DOC_DATE@ + date + DOC_COUNT@
        + decimal(tips.len()) + DOC_INTRO@ + decimal(tips.len()) + DOC_CASES@ + cards(
        tips,
        tips.len(),
    ) + DOC_TAIL@
}

/// The subject line of issue `issue` with `count` tips.
pub open spec fn subject_line(issue: nat, count: nat) -> Seq<char> {
    "CC Daily #"@ + decimal(issue) + ": "@ + decimal(count) + " Real Use Cases"@
}

pub fn newsletter_subject(issue_number: u32, count: usize) -> (r: String)
    ensures
        r@ == subject_line(issue_number as nat, count as nat),
{
    String::from_str("CC Daily #")
        .concat(decimal_string(issue_number as u64).as_str())
        .concat(": ")
        .concat(decimal_string(count as u64).as_str())
        .concat(" Real Use Cases")
}

fn render_card(i: usize, tip: &Tip) -> (r: String)
    requires
        i < usize::MAX,
    ensures
        r@ == card(i as nat, tip@),
{
    let source = if tip.source.as_str().is_empty() {
        "Community"
    } else {
        tip.source.as_str()
    };
    let content = clean_content(tip.content.as_str());
    let number = decimal_string(i as u64 + 1);
    String::from_str(CASE_HEAD)
        .concat(number.as_str())
        .concat(CASE_TITLE)
        .concat(category_icon(tip.category.as_str()))
        .concat(CASE_TITLE_GAP)
        .concat(tip.title.as_str())
        .concat(CASE_SOURCE)
        .concat(source)
        .concat(CASE_BODY)
        .concat(content.as_str())
        .concat(CASE_TAIL)
}

/// The page for `tips` as issue `issue_number`, dated `date`.
pub fn render_newsletter(tips: &[Tip], issue_number: u32, date: &str) -> (r: String)
    ensures
        r@ == newsletter_html(tip_views(tips@), issue_number as nat, date@),
{
    let ghost views = tip_views(tips@);
    let mut body = String::new();
    let mut i: usize = 0;
    while i < tips.len()
        invariant
            i <= tips@.len(),
            views == tip_views(tips@),
            body@ == cards(views, i as nat),
        decreases tips@.len() - i,
    {
        let c = render_card(i, &tips[i]);
        body.append(c.as_str());
        i = i + 1;
    }
    let issue = decimal_string(issue_number as u64);
    let count = decimal_string(tips.len() as u64);
    String::from_str(DOC_HEAD)
        .concat(issue.as_str())
        .concat(DOC_ISSUE)
        .concat(issue.as_str())
        .concat(DOC_DATE)
        .concat(date)
        .concat(DOC_COUNT)
        .concat(count.as_str())
        .concat(DOC_INTRO)
        .concat(count.as_str())
        .concat(DOC_CASES)
        .concat(body.as_str())
        .concat(DOC_TAIL)
}

/// Relies on `chrono::Local::now` and its `%Y-%m-%d` formatting, for today's
/// date on this machine. Nothing is promised of the text. `Local::now` panics
/// only from the machine's state: a system clock set before 1970, or local
/// time-zone data that chrono cannot use.
#[verifier::external_body]
fn today() -> (r: String) {
    chrono::Local::now().format("%Y-%m-%d").to_string()
}

/// The page for `tips` as issue `issue_number`, dated today.
pub fn generate_newsletter_html(tips: &[Tip], issue_number: u32) -> (r: String)
    ensures
        exists|date: Seq<char>| r@ == newsletter_html(tip_views(tips@), issue_number as nat, date),
{
    let date = today();
    render_newsletter(tips, issue_number, date.as_str())
}

} // verus!
