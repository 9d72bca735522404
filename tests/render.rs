use ccd_cli::config::{
    default_api_url, default_project_id, default_subject_template, default_tips_per_issue,
    endpoint_url, Config,
};
use ccd_cli::html::{generate_newsletter_html, newsletter_subject, render_newsletter};
use ccd_cli::text::{decimal_string, truncate};
use ccd_cli::tips::Tip;
use ccd_cli::waitlist::{
    issue_id_from_response, recipient_count_from_response, stats_from_response, Stats,
};

fn tip(category: &str, title: &str, source: &str, content: &str) -> Tip {
    Tip {
        category: category.to_string(),
        icon: String::new(),
        title: title.to_string(),
        source: source.to_string(),
        content: content.to_string(),
    }
}

#[test]
fn test_generate_html() {
    let tips = vec![Tip {
        category: "workflow".to_string(),
        icon: "⚡".to_string(),
        title: "Test Tip".to_string(),
        source: "Test Source".to_string(),
        content: "Test content here.".to_string(),
    }];

    let html = generate_newsletter_html(&tips, 1);
    assert!(html.contains("CC Daily"));
    assert!(html.contains("Test Tip"));
    assert!(html.contains("Test Source"));
}

#[test]
fn page_carries_issue_date_and_count() {
    let tips = vec![tip("workflow", "One", "", "x"), tip("tooling", "Two", "Me", "y")];
    let html = render_newsletter(&tips, 12, "2026-03-04");
    assert!(html.starts_with("<!DOCTYPE html>"));
    assert!(html.contains("<title>CC Daily #12</title>"));
    assert!(html.contains("Issue #12 • 2026-03-04 • 2 real use cases"));
    assert!(html.contains("--use-case 1</span>"));
    assert!(html.contains("--use-case 2</span>"));
    assert!(html.contains("⚡ One"));
    assert!(html.contains("🔧 Two"));
    assert!(html.contains("// source: Community"));
    assert!(html.contains("// source: Me"));
    assert!(html.contains("{{unsubscribe_url}}"));
    assert!(html.ends_with("</html>"));
}

#[test]
fn card_content_is_cleaned() {
    let tips = vec![tip(
        "other",
        "T",
        "S",
        "**Source:** R\n**Why it works:** so\n\n```bash\nls\n```",
    )];
    let html = render_newsletter(&tips, 1, "d");
    assert!(html.contains("💡 T"));
    assert!(html.contains("// source: R<br>"));
    assert!(html.contains("<strong style=\"color:#06b6d4;\">Why it works:</strong> so"));
    assert!(html.contains("</p><p style=\"margin: 8px 0; color: #a1a1aa;\">"));
    assert!(html.contains("color: #22c55e;\"><br>ls<br></pre>"));
    assert!(!html.contains("**"));
}

#[test]
fn subject_line_names_issue_and_count() {
    assert_eq!(newsletter_subject(7, 8), "CC Daily #7: 8 Real Use Cases");
    assert_eq!(newsletter_subject(0, 0), "CC Daily #0: 0 Real Use Cases");
}

#[test]
fn decimal_notation() {
    assert_eq!(decimal_string(0), "0");
    assert_eq!(decimal_string(9), "9");
    assert_eq!(decimal_string(10), "10");
    assert_eq!(decimal_string(1234567890), "1234567890");
    assert_eq!(decimal_string(u64::MAX), u64::MAX.to_string());
}

#[test]
fn truncation_keeps_short_titles() {
    assert_eq!(truncate("short", 60), "short");
    assert_eq!(truncate("abcdef", 6), "abcdef");
    assert_eq!(truncate("abcdefg", 6), "abc...");
    assert_eq!(truncate("", 3), "");
    assert_eq!(truncate("ab", 2), "ab");
    assert_eq!(truncate("", 0), "");
}

#[test]
fn truncation_counts_bytes() {
    assert_eq!(truncate("héllo", 6), "héllo");
    assert_eq!(truncate("héllo!", 6), "hé...");
    assert_eq!(truncate("héllo!", 6).len(), 6);
}

#[test]
fn defaults() {
    let config = Config::default();
    assert_eq!(config.api_url, "https://waitlist.neurabytelabs.com");
    assert_eq!(config.project_id, "claudecodedaily");
    assert_eq!(config.tips_per_issue, 8);
    assert_eq!(
        config.subject_template,
        "CC Daily #{issue}: {count} Real Use Cases"
    );
    assert_eq!(default_api_url(), config.api_url);
    assert_eq!(default_project_id(), config.project_id);
    assert_eq!(default_tips_per_issue(), 8);
    assert_eq!(default_subject_template(), config.subject_template);
}

#[test]
fn endpoints_join_base_project_and_path() {
    let config = Config::default();
    assert_eq!(
        config.api_endpoint("/newsletter/stats"),
        "https://waitlist.neurabytelabs.com/api/claudecodedaily/newsletter/stats"
    );
    assert_eq!(endpoint_url("http://h", "p", "/x"), "http://h/api/p/x");
}

#[test]
fn stats_answer_without_data_is_an_error() {
    let s = Stats {
        total_subscribers: 3,
        confirmed_subscribers: 2,
        pending_subscribers: 1,
        total_issues: 9,
    };
    assert_eq!(stats_from_response(Some(s), None), Ok(s));
    assert_eq!(
        stats_from_response(None, Some("bad key".to_string())),
        Err("bad key".to_string())
    );
    assert_eq!(stats_from_response(None, None), Err("Unknown error".to_string()));
}

#[test]
fn created_issue_id_prefers_the_nested_one() {
    assert_eq!(
        issue_id_from_response(Some(true), Some("a".to_string()), Some("b".to_string()), None),
        Ok("a".to_string())
    );
    assert_eq!(
        issue_id_from_response(Some(true), None, Some("b".to_string()), None),
        Ok("b".to_string())
    );
    assert_eq!(
        issue_id_from_response(Some(true), None, None, None),
        Err("No issue ID in response".to_string())
    );
    assert_eq!(
        issue_id_from_response(Some(false), Some("a".to_string()), None, Some("nope".to_string())),
        Err("nope".to_string())
    );
    assert_eq!(
        issue_id_from_response(None, None, None, None),
        Err("Unknown error".to_string())
    );
}

#[test]
fn recipient_count_wraps_to_u32() {
    assert_eq!(recipient_count_from_response(Some(true), Some(42), None), Ok(42));
    assert_eq!(recipient_count_from_response(Some(true), None, None), Ok(0));
    assert_eq!(
        recipient_count_from_response(Some(true), Some(0x1_0000_0005), None),
        Ok(5)
    );
    assert_eq!(
        recipient_count_from_response(Some(false), Some(1), Some("denied".to_string())),
        Err("denied".to_string())
    );
}
