//! Tips and the parser that reads them out of section-delimited text.

use vstd::prelude::*;
use crate::text::{
    chars_of, find_exec, find_from, has_prefix, occurs_at, occurs_at_exec, same_text, string_of,
    trim, trimmed,
};

verus! {

/// The marker that opens a section; the rest of its line is the title.
pub const HEADER_MARKER: &'static str = "## ";

/// The marker that opens an attribution line inside a section.
pub const SOURCE_MARKER: &'static str = "**Source:**";

/// What separates an ordinal prefix from the title proper.
pub const TITLE_SEPARATOR: &'static str = ". ";

/// One curated tip, as read from a category source.
pub struct Tip {
    /// Category name, as the source was named.
    pub category: String,
    /// Short tag shown beside the title.
    pub icon: String,
    /// Title with any ordinal prefix removed.
    pub title: String,
    /// Attribution; empty when the section names none.
    pub source: String,
    /// Every line of the section after its header, each ended by a newline.
    pub content: String,
}

/// A tip's fields as character sequences.
pub struct TipView {
    pub category: Seq<char>,
    pub icon: Seq<char>,
    pub title: Seq<char>,
    pub source: Seq<char>,
    pub content: Seq<char>,
}

impl View for Tip {
    type V = TipView;

    open spec fn view(&self) -> TipView {
        TipView {
            category: self.category@,
            icon: self.icon@,
            title: self.title@,
            source: self.source@,
            content: self.content@,
        }
    }
}

impl Tip {
    /// A copy of this tip.
    pub fn duplicate(&self) -> (r: Tip)
        ensures
            r@ == self@,
    {
        Tip {
            category: self.category.clone(),
            icon: self.icon.clone(),
            title: self.title.clone(),
            source: self.source.clone(),
            content: self.content.clone(),
        }
    }
}

/// The views of a sequence of tips.
pub open spec fn tip_views(tips: Seq<Tip>) -> Seq<TipView> {
    tips.map_values(|t: Tip| t@)
}

/// The short tag of a category name; `*` for a name outside the known set.
pub open spec fn icon_of(category: Seq<char>) -> Seq<char> {
    if category == "orchestration"@ {
        "O"@
    } else if category == "context-management"@ {
        "C"@
    } else if category == "workflow"@ {
        "W"@
    } else if category == "subagents"@ {
        "S"@
    } else if category == "tooling"@ {
        "T"@
    } else {
        "*"@
    }
}

pub fn category_icon(category: &str) -> (r: &'static str)
    ensures
        r@ == icon_of(category@),
{
    if same_text(category, "orchestration") {
        "O"
    } else if same_text(category, "context-management") {
        "C"
    } else if same_text(category, "workflow") {
        "W"
    } else if same_text(category, "subagents") {
        "S"
    } else if same_text(category, "tooling") {
        "T"
    } else {
        "*"
    }
}

// ---------------------------------------------------------------------------
// Lines

/// How many characters from position `from` on come before the next line
/// break or the end of `s`.
pub open spec fn line_len(s: Seq<char>, from: int) -> nat
    decreases s.len() - from,
{
    if from < 0 || from >= s.len() || s[from] == '\n' {
        0
    } else {
        1 + line_len(s, from + 1)
    }
}

/// The position of the first line break at or after `from`, or the end of `s`.
pub open spec fn line_end(s: Seq<char>, from: int) -> int {
    from + line_len(s, from)
}

proof fn lemma_line_end_bounds(s: Seq<char>, from: int)
    requires
        0 <= from <= s.len(),
    ensures
        line_end(s, from) <= s.len(),
        line_end(s, from) < s.len() ==> s[line_end(s, from)] == '\n',
        forall|i: int| from <= i < line_end(s, from) ==> s[i] != '\n',
    decreases s.len() - from,
{
    if from < s.len() && s[from] != '\n' {
        lemma_line_end_bounds(s, from + 1);
    }
}

/// A line without the carriage return that may end it.
pub open spec fn without_cr(line: Seq<char>) -> Seq<char> {
    if line.len() > 0 && line.last() == '\r' {
        line.drop_last()
    } else {
        line
    }
}

/// The lines of `s` from position `from` on: split at each `\n`, a trailing
/// `\r` dropped from each, and no empty line after a final `\n`.
pub open spec fn lines_from(s: Seq<char>, from: int) -> Seq<Seq<char>>
    decreases s.len() - from,
{
    if from < 0 || from >= s.len() {
        seq![]
    } else {
        let e = line_end(s, from);
        if e >= s.len() {
            seq![without_cr(s.subrange(from, e))]
        } else {
            seq![without_cr(s.subrange(from, e))] + lines_from(s, e + 1)
        }
    }
}

/// The lines of a text.
pub open spec fn lines_of(s: Seq<char>) -> Seq<Seq<char>> {
    lines_from(s, 0)
}

// ---------------------------------------------------------------------------
// Sections

/// A title without the ordinal prefix that ends at the first separator.
pub open spec fn without_ordinal(raw: Seq<char>) -> Seq<char> {
    match find_from(raw, TITLE_SEPARATOR@, 0) {
        Some(k) => raw.skip(k + TITLE_SEPARATOR@.len()),
        None => raw,
    }
}

/// Whether a line opens a section.
pub open spec fn is_header(line: Seq<char>) -> bool {
    has_prefix(line, HEADER_MARKER@)
}

/// The title that a header line gives.
pub open spec fn header_title(line: Seq<char>) -> Seq<char> {
    without_ordinal(trimmed(line.skip(HEADER_MARKER@.len() as int)))
}

/// The tip that a header line opens, before any of its lines.
pub open spec fn opened(category: Seq<char>, line: Seq<char>) -> TipView {
    TipView {
        category: category,
        icon: icon_of(category),
        title: header_title(line),
        source: seq![],
        content: seq![],
    }
}

/// A tip once one more line of its section has been read.
pub open spec fn with_line(t: TipView, line: Seq<char>) -> TipView {
    TipView {
        source: if has_prefix(line, SOURCE_MARKER@) {
            trimmed(line.skip(SOURCE_MARKER@.len() as int))
        } else {
            t.source
        },
        content: t.content + line + seq!['\n'],
        ..t
    }
}

/// After the first `n` lines: the tips that are complete, and the one whose
/// section is still open.
pub open spec fn scan(lines: Seq<Seq<char>>, category: Seq<char>, n: nat) -> (
    Seq<TipView>,
    Option<TipView>,
)
    decreases n,
{
    if n == 0 {
        (seq![], None)
    } else {
        let (done, open) = scan(lines, category, (n - 1) as nat);
        let line = lines[n - 1];
        if is_header(line) {
            (closed(done, open), Some(opened(category, line)))
        } else {
            match open {
                Some(t) => (done, Some(with_line(t, line))),
                None => (done, None),
            }
        }
    }
}

/// The complete tips, followed by the open one if there is one.
pub open spec fn closed(done: Seq<TipView>, open: Option<TipView>) -> Seq<TipView> {
    match open {
        Some(t) => done.push(t),
        None => done,
    }
}

/// The tips of one category source, in the order of their headers.
pub open spec fn parsed_tips(category: Seq<char>, text: Seq<char>) -> Seq<TipView> {
    let lines = lines_of(text);
    let (done, open) = scan(lines, category, lines.len());
    closed(done, open)
}

/// The position of the line break that ends the line starting at `from`.
fn next_line_end(chars: &Vec<char>, from: usize) -> (r: usize)
    requires
        from <= chars@.len(),
    ensures
        r as int == line_end(chars@, from as int),
        from <= r <= chars@.len(),
{
    proof {
        lemma_line_end_bounds(chars@, from as int);
    }
    let mut i: usize = from;
    while i < chars.len() && chars[i] != '\n'
        invariant
            from <= i <= line_end(chars@, from as int),
            line_end(chars@, from as int) <= chars@.len(),
            line_end(chars@, from as int) < chars@.len() ==> chars@[line_end(chars@, from as int)]
                == '\n',
            forall|j: int| from <= j < line_end(chars@, from as int) ==> chars@[j] != '\n',
        decreases chars@.len() - i,
    {
        i = i + 1;
    }
    i
}

/// Whether `chars[from..to]` begins with `p`.
fn starts_with_at(chars: &Vec<char>, from: usize, to: usize, p: &Vec<char>) -> (r: bool)
    requires
        from <= to <= chars@.len(),
    ensures
        r == has_prefix(chars@.subrange(from as int, to as int), p@),
{
    let line = Ghost(chars@.subrange(from as int, to as int));
    if p.len() > to - from {
        return false;
    }
    let r = occurs_at_exec(chars, p, from);
    assert(line@.subrange(0, p@.len() as int) =~= chars@.subrange(
        from as int,
        from + p@.len(),
    ));
    r
}

/// A raw title without its ordinal prefix: the text after the first `". "`,
/// or the whole title when it holds none.
pub fn strip_ordinal(raw: &str) -> (r: String)
    ensures
        r@ == without_ordinal(raw@),
{
    let raw_chars = chars_of(raw);
    let sep = chars_of(TITLE_SEPARATOR);
    let title = match find_exec(&raw_chars, &sep, 0) {
        Some(k) => {
            proof {
                reveal_strlit(". ");
            }
            let n = raw_chars.len();
            assert(occurs_at(raw_chars@, sep@, k as int));
            string_of(&raw_chars, k + sep.len(), n)
        },
        None => String::from_str(raw),
    };
    assert(title@ =~= without_ordinal(raw@));
    title
}

/// The tip that the header line `chars[from..to]` opens.
fn opened_tip(category: &str, icon: &str, chars: &Vec<char>, from: usize, to: usize) -> (r: Tip)
    requires
        from <= to <= chars@.len(),
        is_header(chars@.subrange(from as int, to as int)),
        icon@ == icon_of(category@),
    ensures
        r@ == opened(category@, chars@.subrange(from as int, to as int)),
{
    let ghost line = chars@.subrange(from as int, to as int);
    proof {
        reveal_strlit("## ");
    }
    let marker_len = HEADER_MARKER.unicode_len();
    let rest = string_of(chars, from + marker_len, to);
    assert(rest@ =~= line.skip(HEADER_MARKER@.len() as int));
    let raw = trim(rest.as_str());
    let title = strip_ordinal(raw);
    Tip {
        category: String::from_str(category),
        icon: String::from_str(icon),
        title,
        source: String::new(),
        content: String::new(),
    }
}

/// The tip `t` once the line `chars[from..to]` of its section has been read.
fn absorb_line(t: Tip, chars: &Vec<char>, from: usize, to: usize, marker: &Vec<char>) -> (r: Tip)
    requires
        from <= to <= chars@.len(),
        marker@ == SOURCE_MARKER@,
    ensures
        r@ == with_line(t@, chars@.subrange(from as int, to as int)),
{
    let ghost line = chars@.subrange(from as int, to as int);
    let ghost before = t@;
    let mut t = t;
    if starts_with_at(chars, from, to, marker) {
        let rest = string_of(chars, from + marker.len(), to);
        assert(rest@ =~= line.skip(SOURCE_MARKER@.len() as int));
        t.source = String::from_str(trim(rest.as_str()));
    }
    let body_line = string_of(chars, from, to);
    t.content.append(body_line.as_str());
    t.content.append("\n");
    proof {
        reveal_strlit("\n");
    }
    assert(t.content@ =~= before.content + line + seq!['\n']);
    t
}

/// The tips of one category source, in the order of their headers: each
/// begins at a header line and takes the lines up to the next header or the
/// end of the text. Text with no header gives no tip.
pub fn parse_tip_source(category: &str, text: &str) -> (r: Vec<Tip>)
    ensures
        tip_views(r@) == parsed_tips(category@, text@),
{
    let chars = chars_of(text);
    let header = chars_of(HEADER_MARKER);
    let marker = chars_of(SOURCE_MARKER);
    let icon = category_icon(category);
    let ghost lines = lines_of(text@);
    let ghost mut k: nat = 0;
    let mut done: Vec<Tip> = Vec::new();
    let mut open: Option<Tip> = None;
    let mut pos: usize = 0;
    while pos < chars.len()
        invariant
            chars@ == text@,
            header@ == HEADER_MARKER@,
            marker@ == SOURCE_MARKER@,
            icon@ == icon_of(category@),
            lines == lines_of(text@),
            pos <= chars@.len(),
            k <= lines.len(),
            lines.skip(k as int) == lines_from(text@, pos as int),
            tip_views(done@) == scan(lines, category@, k).0,
            match open {
                Some(t) => scan(lines, category@, k).1 == Some(t@),
                None => scan(lines, category@, k).1 is None,
            },
        decreases chars@.len() - pos,
    {
        let end = next_line_end(&chars, pos);
        let stop = if end > pos && chars[end - 1] == '\r' {
            end - 1
        } else {
            end
        };
        let ghost line = chars@.subrange(pos as int, stop as int);
        assert(line == without_cr(chars@.subrange(pos as int, end as int))) by {
            if end > pos && chars@[end - 1] == '\r' {
                assert(line =~= chars@.subrange(pos as int, end as int).drop_last());
            }
        }
        assert(lines[k as int] == line && lines.skip(k + 1 as int) == lines_from(text@, end + 1)) by {
            assert(lines_from(text@, pos as int).len() > 0);
            assert(lines.skip(k as int)[0] == lines[k as int]);
            assert(lines.skip(k + 1 as int) =~= lines.skip(k as int).skip(1));
            assert(lines_from(text@, pos as int).skip(1) =~= lines_from(text@, end + 1));
        }
        if starts_with_at(&chars, pos, stop, &header) {
            let ghost before = tip_views(done@);
            match open {
                Some(t) => {
                    done.push(t);
                },
                None => {},
            }
            assert(tip_views(done@) =~= closed(before, scan(lines, category@, k).1));
            open = Some(opened_tip(category, icon, &chars, pos, stop));
        } else {
            open = match open {
                Some(t) => Some(absorb_line(t, &chars, pos, stop, &marker)),
                None => None,
            };
        }
        proof {
            k = k + 1;
        }
        pos = if end < chars.len() {
            end + 1
        } else {
            end
        };
    }
    assert(k == lines.len()) by {
        if k < lines.len() {
            assert(lines.skip(k as int).len() > 0);
        }
    }
    let ghost before = tip_views(done@);
    match open {
        Some(t) => {
            done.push(t);
        },
        None => {},
    }
    assert(tip_views(done@) =~= closed(before, scan(lines, category@, k).1));
    done
}

/// The tips of several category sources, each given as its category name and
/// its text: the tips of each source in turn, in the order of the sources.
pub open spec fn parsed_sources(sources: Seq<(String, String)>) -> Seq<TipView>
    decreases sources.len(),
{
    if sources.len() == 0 {
        seq![]
    } else {
        let last = sources.last();
        parsed_sources(sources.drop_last()) + parsed_tips(last.0@, last.1@)
    }
}

/// Parses each category source on its own and joins the results in source
/// order; a tip's position in the result is its stable index.
pub fn load_tips_from_sources(sources: &Vec<(String, String)>) -> (r: Vec<Tip>)
    ensures
        tip_views(r@) == parsed_sources(sources@),
{
    let mut all: Vec<Tip> = Vec::new();
    let mut i: usize = 0;
    while i < sources.len()
        invariant
            i <= sources@.len(),
            tip_views(all@) == parsed_sources(sources@.take(i as int)),
        decreases sources@.len() - i,
    {
        let mut part = parse_tip_source(sources[i].0.as_str(), sources[i].1.as_str());
        let ghost before = all@;
        let ghost got = part@;
        all.append(&mut part);
        assert(sources@.take(i + 1 as int).drop_last() =~= sources@.take(i as int));
        assert(tip_views(all@) =~= tip_views(before) + tip_views(got));
        i = i + 1;
    }
    assert(sources@.take(i as int) =~= sources@);
    all
}

} // verus!
