use politiktok::accountability::{
    evidence_badge_class, evidence_label, status_badge_class, status_label, strength_badge_class,
    strength_label,
};
use politiktok::briefings::{priority_badge_class, priority_label, priority_panel_class, starts_expanded};
use politiktok::campaign_copy::format_label;
use politiktok::canvassing::{section_badge_class, section_type_label};
use politiktok::coaching::{
    bubble_class, chat_class, difficulty_label, interviewer_label, mode_button_class, mode_label,
    speaker_label,
};
use politiktok::coalition::tension_badge;
use politiktok::compliance::verdict_badge;
use politiktok::dashboard::{stat_gradient, stat_text_color};
use politiktok::disinfo::risk_badge;
use politiktok::empathy::{sentiment_badge_class, sentiment_label};
use politiktok::forms::tab_class;
use politiktok::local_issues::{severity_badge_class, severity_badge_lowered};
use politiktok::media_monitor::tone_badge;
use politiktok::opposition::{position_count, position_count_label, positions_shown, Positions, PositionsShown};
use politiktok::policy_chatbot::{
    chat_bubble_class, chat_side_class, chat_speaker, session_button_class, side_tab_class,
};
use politiktok::regulatory::urgency_filter;
use politiktok::sentiment::{
    chart_labels, feed_offset, post_badge_class, shows_pager, spike_badge_class, summary_totals,
    topics_cell, window_button_class, SentimentSummary,
};
use politiktok::volunteers::{
    skill_chips, task_badge_class, task_detail_badge_class, volunteer_badge_class,
    volunteer_detail_badge_class, volunteer_row_class,
};

fn strings(v: &[&str]) -> Vec<String> {
    v.iter().map(|s| s.to_string()).collect()
}

#[test]
fn labels_pass_unknown_keys_through() {
    assert_eq!(format_label("press_release"), "Press Release");
    assert_eq!(format_label("tiktok_script"), "tiktok_script");
    assert_eq!(mode_label("townhall"), "Town Hall");
    assert_eq!(mode_label("podcast"), "podcast");
    assert_eq!(difficulty_label("hard"), "Hard");
    assert_eq!(difficulty_label("brutal"), "brutal");
    assert_eq!(sentiment_label("neutral"), "Neutral");
    assert_eq!(sentiment_label("weird"), "weird");
}

#[test]
fn coaching_speakers_and_classes() {
    assert_eq!(interviewer_label("journalist"), "Journalist");
    assert_eq!(interviewer_label("debate"), "Debate Opponent");
    assert_eq!(interviewer_label("townhall"), "Voter");
    assert_eq!(interviewer_label("other"), "Interviewer");
    assert_eq!(speaker_label("candidate", "debate"), "You (Candidate)");
    assert_eq!(speaker_label("interviewer", "townhall"), "Voter");
    assert_eq!(chat_class("candidate"), "chat chat-end");
    assert_eq!(chat_class("coach"), "chat chat-start");
    assert_eq!(bubble_class("candidate"), "chat-bubble chat-bubble-primary");
    assert_eq!(bubble_class("coach"), "chat-bubble chat-bubble-secondary");
    assert_eq!(mode_button_class(true), "btn btn-primary btn-sm");
    assert_eq!(mode_button_class(false), "btn btn-outline btn-sm");
}

#[test]
fn chat_classes() {
    assert_eq!(chat_speaker("user"), "You");
    assert_eq!(chat_speaker("assistant"), "Policy Assistant");
    assert_eq!(chat_side_class("user"), "chat chat-end");
    assert_eq!(chat_bubble_class("assistant"), "chat-bubble chat-bubble-secondary");
    assert_eq!(
        session_button_class(true),
        "w-full text-left p-2 rounded-lg bg-primary/10 text-primary text-sm truncate"
    );
    assert_eq!(
        side_tab_class(false),
        "flex-1 py-2 text-sm font-medium text-slate-400 hover:text-base-content"
    );
    assert_eq!(tab_class(true), "tab tab-active");
    assert_eq!(tab_class(false), "tab");
}

#[test]
fn page_badges() {
    assert_eq!(section_badge_class("objection_handling"), "badge badge-warning badge-sm");
    assert_eq!(section_badge_class("x"), "badge badge-ghost badge-sm");
    assert_eq!(section_type_label("issue_discussion"), "Issue Discussion");
    assert_eq!(section_type_label("x"), "Section");
    assert_eq!(tension_badge("critical"), "badge badge-error");
    assert_eq!(tension_badge("low"), "badge badge-success");
    assert_eq!(tension_badge("?"), "badge badge-ghost");
    assert_eq!(sentiment_badge_class("mixed"), "badge badge-warning");
    assert_eq!(sentiment_badge_class("neutral"), "badge badge-ghost");
    assert_eq!(risk_badge("high"), "badge badge-error badge-lg");
    assert_eq!(tone_badge("alarmist"), "badge badge-error");
    assert_eq!(verdict_badge(true, false), ("badge badge-success badge-sm", "Compliant"));
    assert_eq!(verdict_badge(false, true), ("badge badge-error badge-lg", "Non-Compliant"));
    assert_eq!(urgency_filter("all"), None);
    assert_eq!(urgency_filter("high"), Some("high".to_string()));
}

#[test]
fn local_issue_severity_ignores_case() {
    assert_eq!(severity_badge_class("CRITICAL"), "badge badge-error");
    assert_eq!(severity_badge_class("High"), "badge badge-warning");
    assert_eq!(severity_badge_class("moderate"), "badge badge-info");
    assert_eq!(severity_badge_class("Low"), "badge badge-ghost");
    assert_eq!(severity_badge_class("unknown"), "badge badge-ghost");
    assert_eq!(severity_badge_lowered("high"), "badge badge-warning");
    assert_eq!(severity_badge_lowered("High"), "badge badge-ghost");
}

#[test]
fn accountability_and_briefing_badges() {
    assert_eq!(evidence_badge_class(None), evidence_badge_class(Some("no-such-class")));
    assert_eq!(evidence_label(None), evidence_label(Some("no-such-class")));
    assert_eq!(strength_badge_class(None), strength_badge_class(Some("no-such")));
    assert_eq!(strength_label(None), strength_label(Some("no-such")));
    assert_eq!(status_label("brand_new_status"), "brand_new_status");
    assert!(!status_badge_class("x").is_empty());
    assert_eq!(priority_label("unheard_of"), "unheard_of");
    assert!(!priority_badge_class("x").is_empty());
    assert!(!priority_panel_class("x").is_empty());
    assert!(!starts_expanded("x"));
}

#[test]
fn volunteer_badges_and_chips() {
    assert_eq!(volunteer_badge_class("active"), "badge badge-success badge-sm");
    assert_eq!(volunteer_badge_class("paused"), "badge badge-outline badge-sm");
    assert_eq!(volunteer_detail_badge_class("inactive"), "badge badge-ghost");
    assert_eq!(task_badge_class("in_progress"), "badge badge-warning badge-sm");
    assert_eq!(task_detail_badge_class("cancelled"), "badge badge-ghost badge-lg");
    assert_eq!(task_detail_badge_class("x"), "badge badge-outline badge-lg");
    assert_eq!(volunteer_row_class(true), "hover bg-warning/5");
    assert_eq!(volunteer_row_class(false), "hover");
    let (shown, more) = skill_chips(&strings(&["a", "b", "c", "d", "e"]));
    assert_eq!(shown, strings(&["a", "b", "c"]));
    assert_eq!(more, Some("+2".to_string()));
    let (shown, more) = skill_chips(&strings(&["a", "b", "c"]));
    assert_eq!(shown, strings(&["a", "b", "c"]));
    assert_eq!(more, None);
}

#[test]
fn dashboard_colors() {
    assert_eq!(stat_text_color("rose"), "#fb7185");
    assert_eq!(stat_text_color("teal"), "#818cf8");
    assert_eq!(stat_gradient("teal"), stat_gradient("indigo"));
    assert_eq!(
        stat_gradient("emerald"),
        "linear-gradient(135deg, rgba(16,185,129,0.15), rgba(16,185,129,0.05))"
    );
}

#[test]
fn opponent_positions() {
    let table = Positions::Table(vec![
        ("tax".to_string(), "cut".to_string()),
        ("health".to_string(), "{\"plan\":\"single payer\"}".to_string()),
    ]);
    assert_eq!(position_count(&table), 2);
    assert_eq!(position_count(&Positions::Text("Pro-business".to_string())), 0);
    assert_eq!(position_count_label(2), "2 policy positions");
    assert!(matches!(positions_shown(&table), PositionsShown::Rows));
    assert!(matches!(positions_shown(&Positions::Table(Vec::new())), PositionsShown::Nothing));
    assert!(matches!(positions_shown(&Positions::Text("x".to_string())), PositionsShown::Prose));
    assert!(matches!(positions_shown(&Positions::Text(String::new())), PositionsShown::Nothing));
    assert!(matches!(positions_shown(&Positions::Other), PositionsShown::Nothing));
}

fn summary(topic: &str, p: i64, n: i64, u: i64) -> SentimentSummary {
    SentimentSummary {
        topic: topic.to_string(),
        positive_count: p,
        negative_count: n,
        neutral_count: u,
        total_count: p + n + u,
    }
}

#[test]
fn sentiment_totals_and_labels() {
    let items = vec![summary("Tax", 5, 2, 1), summary("Jobs", 1, 4, 0)];
    let t = summary_totals(&items);
    assert_eq!((t.positive, t.negative, t.neutral, t.posts), (6, 6, 1, 13));
    assert_eq!(chart_labels(&items), strings(&["Tax (+5/-2)", "Jobs (+1/-4)"]));
    let many: Vec<SentimentSummary> = (0..20).map(|i| summary(&format!("t{i}"), i, 0, 0)).collect();
    let labels = chart_labels(&many);
    assert_eq!(labels.len(), 15);
    assert_eq!(labels[14], "t14 (+14/-0)");
    assert_eq!(summary_totals(&Vec::new()).posts, 0);
}

#[test]
fn sentiment_paging_and_cells() {
    assert_eq!(feed_offset(1), 0);
    assert_eq!(feed_offset(3), 40);
    assert!(shows_pager(20));
    assert!(!shows_pager(19));
    assert_eq!(window_button_class("24h", "24h"), "join-item btn btn-sm btn-active");
    assert_eq!(window_button_class("24h", "7d"), "join-item btn btn-sm");
    assert_eq!(post_badge_class(Some("neutral")), "badge badge-info badge-sm");
    assert_eq!(post_badge_class(None), "badge badge-ghost badge-sm");
    assert_eq!(spike_badge_class("negative"), "badge badge-error badge-sm");
    assert_eq!(spike_badge_class("mixed"), "badge badge-info badge-sm");
    assert_eq!(topics_cell(&Vec::new()), "--");
    assert_eq!(topics_cell(&strings(&["a", "b"])), "a, b");
}
