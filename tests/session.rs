use ccd_cli::app::{App, Category, Effect, Key, Tab};
use ccd_cli::config::Config;
use ccd_cli::tips::{load_tips_from_sources, parse_tip_source};
use ccd_cli::waitlist::Stats;

fn sample_app(capacity: usize) -> App {
    let mut config = Config::default();
    config.tips_per_issue = capacity;
    let mut app = App::new(config);
    let sources = vec![
        ("orchestration".to_string(), "## 1. O1\n## 2. O2\n".to_string()),
        ("workflow".to_string(), "## W1\n## W2\n## W3\n".to_string()),
    ];
    app.load_tips(load_tips_from_sources(&sources));
    app
}

fn stats(total_issues: u32) -> Stats {
    Stats {
        total_subscribers: 10,
        confirmed_subscribers: 7,
        pending_subscribers: 3,
        total_issues,
    }
}

#[test]
fn new_session_starts_on_tips() {
    let app = App::new(Config::default());
    assert_eq!(app.current_tab, Tab::Tips);
    assert_eq!(app.category_filter, Category::All);
    assert!(app.selected_tips.is_empty());
    assert_eq!(app.list_index, 0);
    assert!(app.status_message.is_none());
    assert_eq!(app.config.tips_per_issue, 8);
}

#[test]
fn loading_reports_the_count() {
    let app = sample_app(8);
    assert_eq!(app.tips.len(), 5);
    assert_eq!(app.status_message.as_deref(), Some("Loaded 5 tips"));
}

#[test]
fn toggles_never_exceed_capacity() {
    let mut app = sample_app(2);
    for _ in 0..5 {
        app.toggle_selection();
        app.next_item();
        assert!(app.selected_tips.len() <= 2);
    }
    assert_eq!(app.selected_tips, vec![0, 1]);
}

#[test]
fn toggling_twice_restores_the_selection() {
    let mut app = sample_app(8);
    app.toggle_selection();
    app.next_item();
    app.next_item();
    let before = app.selected_tips.clone();
    app.toggle_selection();
    assert_eq!(app.selected_tips, vec![0, 2]);
    app.toggle_selection();
    assert_eq!(app.selected_tips, before);
}

#[test]
fn toggling_an_earlier_entry_twice_moves_it_last() {
    let mut app = sample_app(8);
    app.toggle_selection();
    app.next_item();
    app.toggle_selection();
    app.prev_item();
    app.toggle_selection();
    app.toggle_selection();
    assert_eq!(app.selected_tips, vec![1, 0]);
}

#[test]
fn select_all_takes_the_first_visible_up_to_capacity() {
    let mut app = sample_app(3);
    app.select_all();
    assert_eq!(app.selected_tips, vec![0, 1, 2]);
    assert_eq!(app.status_message.as_deref(), Some("Selected 3 tips"));

    let mut app = sample_app(8);
    app.cycle_category();
    assert_eq!(app.category_filter, Category::Orchestration);
    app.select_all();
    assert_eq!(app.selected_tips, vec![0, 1]);
    assert_eq!(app.status_message.as_deref(), Some("Selected 2 tips"));
}

#[test]
fn filter_change_keeps_the_selection() {
    let mut app = sample_app(8);
    app.next_item();
    app.next_item();
    app.next_item();
    app.toggle_selection();
    app.go_to_top();
    app.toggle_selection();
    let before = app.selected_tips.clone();
    for _ in 0..6 {
        app.cycle_category();
        assert_eq!(app.selected_tips, before);
        assert_eq!(app.list_index, 0);
    }
    assert_eq!(app.category_filter, Category::All);
}

#[test]
fn cycling_reports_the_filter() {
    let mut app = sample_app(8);
    app.cycle_category();
    app.cycle_category();
    assert_eq!(app.category_filter, Category::ContextManagement);
    assert_eq!(app.status_message.as_deref(), Some("Filter: context-management"));
    assert_eq!(app.filtered_tips().len(), 0);
    app.cycle_category();
    let visible: Vec<usize> = app.filtered_tips().iter().map(|(i, _)| *i).collect();
    assert_eq!(visible, vec![2, 3, 4]);
}

#[test]
fn filter_and_toggle_only_act_on_tips_tab() {
    let mut app = sample_app(8);
    app.next_tab();
    app.toggle_selection();
    app.cycle_category();
    app.select_all();
    assert!(app.selected_tips.is_empty());
    assert_eq!(app.category_filter, Category::All);
}

#[test]
fn four_next_tabs_return_to_the_start() {
    for start in [Tab::Tips, Tab::Draft, Tab::Preview, Tab::Stats] {
        let mut app = sample_app(8);
        app.select_tab(start);
        for _ in 0..4 {
            app.list_index = 3;
            app.next_tab();
            assert_eq!(app.list_index, 0);
        }
        assert_eq!(app.current_tab, start);
    }
    let mut app = sample_app(8);
    app.prev_tab();
    assert_eq!(app.current_tab, Tab::Stats);
    app.next_tab();
    assert_eq!(app.current_tab, Tab::Tips);
}

#[test]
fn tab_titles_and_order() {
    let titles: Vec<&str> = Tab::all().iter().map(|t| t.title()).collect();
    assert_eq!(titles, vec!["Tips", "Draft", "Preview", "Stats"]);
    assert_eq!(Category::ContextManagement.as_str(), "context-management");
    assert_eq!(Category::All.icon(), "*");
    assert_eq!(Category::Tooling.icon(), "T");
}

#[test]
fn cursor_clamps_to_the_list() {
    let mut app = sample_app(8);
    app.prev_item();
    assert_eq!(app.list_index, 0);
    for _ in 0..10 {
        app.next_item();
    }
    assert_eq!(app.list_index, 4);
    app.go_to_top();
    assert_eq!(app.list_index, 0);
    app.go_to_bottom();
    assert_eq!(app.list_index, 4);
    app.select_tab(Tab::Draft);
    app.next_item();
    app.go_to_bottom();
    assert_eq!(app.list_index, 0);
}

#[test]
fn removing_the_last_draft_entry_moves_the_cursor_up() {
    let mut app = sample_app(8);
    app.select_all();
    app.select_tab(Tab::Draft);
    app.go_to_bottom();
    assert_eq!(app.list_index, 4);
    app.remove_from_draft();
    assert_eq!(app.selected_tips, vec![0, 1, 2, 3]);
    assert_eq!(app.list_index, 3);
    assert_eq!(app.status_message.as_deref(), Some("Tip removed from draft"));
    app.go_to_top();
    app.remove_from_draft();
    assert_eq!(app.selected_tips, vec![1, 2, 3]);
    assert_eq!(app.list_index, 0);
}

#[test]
fn confirm_moves_through_the_tabs() {
    let mut app = sample_app(8);
    app.confirm_action();
    assert_eq!(app.current_tab, Tab::Tips);
    app.toggle_selection();
    app.toggle_selection();
    app.next_item();
    app.next_item();
    app.toggle_selection();
    app.confirm_action();
    assert_eq!(app.current_tab, Tab::Draft);
    assert_eq!(app.list_index, 0);
    assert_eq!(app.status_message.as_deref(), Some("1 tips added to draft"));
    app.confirm_action();
    assert_eq!(app.current_tab, Tab::Preview);
    app.confirm_action();
    assert_eq!(app.current_tab, Tab::Preview);
    assert_eq!(app.status_message.as_deref(), Some("Press 'S' to send newsletter"));
}

#[test]
fn quit_needs_two_presses_in_a_row() {
    let mut app = sample_app(8);
    assert_eq!(app.handle_key(Key::Char('q')), Effect::Continue);
    assert!(app.confirm_quit);
    assert_eq!(app.handle_key(Key::Char('j')), Effect::Continue);
    assert!(!app.confirm_quit);
    assert_eq!(app.list_index, 1);
    assert_eq!(app.handle_key(Key::Char('q')), Effect::Continue);
    assert_eq!(app.handle_key(Key::Char('q')), Effect::Quit);
}

#[test]
fn key_that_cancels_a_quit_still_acts() {
    let mut app = sample_app(8);
    app.handle_key(Key::Char('G'));
    app.handle_key(Key::Char('q'));
    app.handle_key(Key::Char('g'));
    assert!(!app.confirm_quit);
    assert!(app.pending_g);
    app.handle_key(Key::Char('g'));
    assert_eq!(app.list_index, 0);
    app.handle_key(Key::Char('q'));
    assert_eq!(app.handle_key(Key::Char('s')), Effect::SaveDraft);
    assert!(!app.confirm_quit);
}

#[test]
fn go_to_top_needs_two_presses_in_a_row() {
    let mut app = sample_app(8);
    app.handle_key(Key::Char('G'));
    assert_eq!(app.list_index, 4);
    app.handle_key(Key::Char('g'));
    assert!(app.pending_g);
    assert_eq!(app.list_index, 4);
    app.handle_key(Key::Char('k'));
    assert!(!app.pending_g);
    assert_eq!(app.list_index, 3);
    app.handle_key(Key::Char('g'));
    app.handle_key(Key::Char('g'));
    assert_eq!(app.list_index, 0);
    assert!(!app.pending_g);
}

#[test]
fn keys_map_to_actions() {
    let mut app = sample_app(8);
    assert_eq!(app.handle_key(Key::Char('s')), Effect::SaveDraft);
    assert_eq!(app.handle_key(Key::Char('S')), Effect::Send);
    assert_eq!(app.handle_key(Key::Char('r')), Effect::Refresh);
    assert_eq!(app.handle_key(Key::Char(' ')), Effect::Continue);
    assert_eq!(app.selected_tips, vec![0]);
    app.handle_key(Key::Char('?'));
    assert!(app.show_help);
    app.handle_key(Key::Char('3'));
    assert_eq!(app.current_tab, Tab::Preview);
    app.handle_key(Key::BackTab);
    assert_eq!(app.current_tab, Tab::Draft);
    app.handle_key(Key::Char('d'));
    assert!(app.selected_tips.is_empty());
    app.handle_key(Key::Tab);
    assert_eq!(app.current_tab, Tab::Preview);
}

#[test]
fn publishing_nothing_is_refused() {
    let mut app = sample_app(8);
    assert!(app.begin_send().is_none());
    assert_eq!(app.status_message.as_deref(), Some("No tips selected!"));
    assert!(!app.is_loading);
}

#[test]
fn create_failure_keeps_the_selection() {
    let mut app = sample_app(8);
    app.refresh(Ok(stats(4)));
    app.toggle_selection();
    let publication = app.begin_send().expect("a selection was made");
    assert_eq!(publication.issue_number, 5);
    assert_eq!(publication.subject, "CC Daily #5: 1 Real Use Cases");
    assert!(publication.html.contains("O1"));
    assert!(app.is_loading);
    let next = app.issue_created(Err("quota exceeded".to_string()));
    assert!(next.is_none());
    assert_eq!(app.selected_tips, vec![0]);
    assert_eq!(app.status_message.as_deref(), Some("Create issue failed: quota exceeded"));
    assert!(!app.is_loading);
}

#[test]
fn dispatch_failure_keeps_the_selection() {
    let mut app = sample_app(8);
    app.toggle_selection();
    app.begin_send().expect("a selection was made");
    let id = app.issue_created(Ok("iss_7".to_string()));
    assert_eq!(id.as_deref(), Some("iss_7"));
    assert_eq!(app.status_message.as_deref(), Some("Sending to subscribers... (issue: iss_7)"));
    assert!(!app.issue_sent(Err("timeout".to_string())));
    assert_eq!(app.selected_tips, vec![0]);
    assert_eq!(app.status_message.as_deref(), Some("Send failed: timeout"));
}

#[test]
fn dispatch_success_clears_and_refreshes() {
    let mut app = sample_app(8);
    app.refresh(Ok(stats(1)));
    app.select_all();
    app.begin_send().expect("a selection was made");
    app.issue_created(Ok("x".to_string()));
    assert!(app.issue_sent(Ok(123)));
    assert!(app.selected_tips.is_empty());
    assert_eq!(app.status_message.as_deref(), Some("Newsletter sent to 123 subscribers!"));
    app.start_refresh();
    assert!(app.is_loading);
    app.refresh(Err("offline".to_string()));
    assert!(app.selected_tips.is_empty());
    assert_eq!(app.stats, Some(stats(1)));
    assert_eq!(app.status_message.as_deref(), Some("Error: offline"));
    assert!(!app.is_loading);
}

#[test]
fn refresh_replaces_the_counts() {
    let mut app = sample_app(8);
    app.refresh(Ok(stats(3)));
    assert_eq!(app.stats, Some(stats(3)));
    assert_eq!(app.status_message.as_deref(), Some("Stats refreshed"));
    assert_eq!(app.issue_number(), 4);
    app.refresh(Ok(stats(u32::MAX)));
    assert_eq!(app.issue_number(), u32::MAX);
}

#[test]
fn issue_number_defaults_to_one() {
    let app = sample_app(8);
    assert_eq!(app.issue_number(), 1);
}

#[test]
fn end_to_end_load_select_and_save() {
    let sources = vec![
        ("orchestration".to_string(), "## 1. A\na\n## 2. B\nb\n".to_string()),
        ("workflow".to_string(), "## C\n**Source:** Reddit\nc\n".to_string()),
        ("tooling".to_string(), "## D\n## E\n## F\n".to_string()),
    ];
    let mut app = App::new(Config::default());
    app.load_tips(load_tips_from_sources(&sources));
    assert_eq!(app.tips.len(), 6);
    let titles: Vec<&str> = app.tips.iter().map(|t| t.title.as_str()).collect();
    assert_eq!(titles, vec!["A", "B", "C", "D", "E", "F"]);
    app.refresh(Ok(stats(41)));
    for pos in [4usize, 0, 2, 5, 1] {
        app.go_to_top();
        for _ in 0..pos {
            app.next_item();
        }
        app.toggle_selection();
    }
    assert_eq!(app.selected_tips, vec![4, 0, 2, 5, 1]);
    let draft = app.draft_at("2026-01-01T00:00:00+00:00".to_string());
    assert_eq!(draft.issue_number, 42);
    assert_eq!(draft.tips.len(), 5);
    let order: Vec<&str> = draft.tips.iter().map(|t| t.title.as_str()).collect();
    assert_eq!(order, vec!["E", "A", "C", "F", "B"]);
    assert_eq!(draft.tips[2].source, "Reddit");
    assert_eq!(draft.subject, "CC Daily #42: 5 Real Use Cases");
    assert_eq!(draft.created_at, "2026-01-01T00:00:00+00:00");
    let stamped = app.draft_record();
    assert_eq!(stamped.issue_number, 42);
    assert!(!stamped.created_at.is_empty());
    app.draft_saved("/tmp/draft.json");
    assert_eq!(app.status_message.as_deref(), Some("Draft saved to /tmp/draft.json"));
}

#[test]
fn selected_entries_skip_stale_indices() {
    let mut app = sample_app(8);
    app.select_all();
    app.load_tips(parse_tip_source("workflow", "## Only\n"));
    let entries = app.selected_entries();
    assert_eq!(entries.len(), 1);
    assert_eq!(entries[0].title, "Only");
}

#[test]
fn unreadable_sources_are_named_in_the_status() {
    let mut app = App::new(Config::default());
    let tips = parse_tip_source("workflow", "## One\n## Two\n");
    app.load_tips_partly(tips, &vec!["tooling".to_string(), "subagents".to_string()]);
    assert_eq!(app.tips.len(), 2);
    assert_eq!(
        app.status_message.as_deref(),
        Some("Loaded 2 tips; unreadable: tooling subagents")
    );
    app.load_tips_partly(parse_tip_source("workflow", "## One\n"), &Vec::new());
    assert_eq!(app.status_message.as_deref(), Some("Loaded 1 tips"));
}
