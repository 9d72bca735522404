use ccd_cli::tips::{category_icon, load_tips_from_sources, parse_tip_source, strip_ordinal};

#[test]
fn test_category_icon() {
    assert_eq!(category_icon("orchestration"), "O");
    assert_eq!(category_icon("workflow"), "W");
    assert_eq!(category_icon("unknown"), "*");
}

#[test]
fn every_known_category_has_its_letter() {
    assert_eq!(category_icon("context-management"), "C");
    assert_eq!(category_icon("subagents"), "S");
    assert_eq!(category_icon("tooling"), "T");
    assert_eq!(category_icon(""), "*");
}

#[test]
fn headers_give_titles_without_ordinals() {
    let tips = parse_tip_source("workflow", "## 1. Alpha\nfirst body\n## Beta\nsecond body\n");
    assert_eq!(tips.len(), 2);
    assert_eq!(tips[0].title, "Alpha");
    assert_eq!(tips[1].title, "Beta");
    assert_eq!(tips[0].content, "first body\n");
    assert_eq!(tips[1].content, "second body\n");
    assert_eq!(tips[0].category, "workflow");
    assert_eq!(tips[0].icon, "W");
}

#[test]
fn only_the_first_separator_is_cut() {
    let tips = parse_tip_source("tooling", "## 11. Use git. Often\n");
    assert_eq!(tips.len(), 1);
    assert_eq!(tips[0].title, "Use git. Often");
    assert_eq!(strip_ordinal("3. A. B"), "A. B");
    assert_eq!(strip_ordinal("No ordinal"), "No ordinal");
    assert_eq!(strip_ordinal("v1.2"), "v1.2");
}

#[test]
fn source_line_sets_trimmed_attribution_and_stays_in_body() {
    let tips = parse_tip_source("workflow", "## Tip\nText\n**Source:** Reddit  \nMore\n");
    assert_eq!(tips.len(), 1);
    assert_eq!(tips[0].source, "Reddit");
    assert_eq!(tips[0].content, "Text\n**Source:** Reddit  \nMore\n");
}

#[test]
fn last_source_line_wins() {
    let tips = parse_tip_source("workflow", "## Tip\n**Source:** A\n**Source:**  B\n");
    assert_eq!(tips[0].source, "B");
}

#[test]
fn title_is_trimmed() {
    let tips = parse_tip_source("workflow", "##    2. Spaced out   \n");
    assert_eq!(tips[0].title, "Spaced out");
}

#[test]
fn text_without_headers_gives_no_tips() {
    assert_eq!(parse_tip_source("workflow", "").len(), 0);
    assert_eq!(parse_tip_source("workflow", "intro\n# Title\n##no space\n").len(), 0);
}

#[test]
fn lines_before_the_first_header_are_dropped() {
    let tips = parse_tip_source("workflow", "# Workflow tips\nintro\n## First\nbody");
    assert_eq!(tips.len(), 1);
    assert_eq!(tips[0].title, "First");
    assert_eq!(tips[0].content, "body\n");
}

#[test]
fn header_without_content_gives_empty_body() {
    let tips = parse_tip_source("subagents", "## Lonely\n## Next\n");
    assert_eq!(tips.len(), 2);
    assert_eq!(tips[0].content, "");
    assert_eq!(tips[0].source, "");
    assert_eq!(tips[1].content, "");
}

#[test]
fn carriage_returns_are_dropped_from_lines() {
    let tips = parse_tip_source("workflow", "## 1. Win\r\nline\r\n\r\n");
    assert_eq!(tips.len(), 1);
    assert_eq!(tips[0].title, "Win");
    assert_eq!(tips[0].content, "line\n\n");
}

#[test]
fn sources_are_joined_in_order() {
    let sources = vec![
        ("orchestration".to_string(), "## 1. A\na\n## 2. B\nb\n".to_string()),
        ("workflow".to_string(), "## C\nc\n".to_string()),
        ("tooling".to_string(), "## D\n## E\n## F\n".to_string()),
    ];
    let tips = load_tips_from_sources(&sources);
    let titles: Vec<&str> = tips.iter().map(|t| t.title.as_str()).collect();
    assert_eq!(titles, vec!["A", "B", "C", "D", "E", "F"]);
    assert_eq!(tips[2].category, "workflow");
    assert_eq!(tips[5].icon, "T");
}

#[test]
fn unicode_white_space_is_trimmed() {
    let tips = parse_tip_source("workflow", "## \u{3000}1. Wide\u{a0}\n**Source:**\u{2003}Forum\t\n");
    assert_eq!(tips[0].title, "Wide");
    assert_eq!(tips[0].source, "Forum");
}
