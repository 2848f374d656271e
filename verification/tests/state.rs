use politiktok::campaign_copy::replace_result;
use politiktok::coaching::{
    begin_response, complete_response, send_disabled, topics_line, CoachingMessage,
    CoachingSession,
};
use politiktok::coalition::{segment_selected, toggle_segment, CoalitionSegment};
use politiktok::empathy::{select_all_personas, selected_positions};
use politiktok::fundraising::{newest_first, refreshes_selection};
use politiktok::knowledge_base::record_answer;
use politiktok::local_issues::{click_issue, ExpandAction};
use politiktok::media_monitor::add_article_slot;
use politiktok::navigation::{login_redirect, not_found_message};
use politiktok::multilingual::{fallback_languages, language_name, offered_languages, Language};
use politiktok::policy_chatbot::{begin_chat, complete_chat, session_title, ChatMessage};
use politiktok::question_anticipation::toggle_expanded;
use politiktok::selection::{contains_text, toggle_text};

fn strings(v: &[&str]) -> Vec<String> {
    v.iter().map(|s| s.to_string()).collect()
}

fn is_v4(id: &str) -> bool {
    let b = id.as_bytes();
    b.len() == 36
        && b.iter().enumerate().all(|(i, c)| {
            if i == 8 || i == 13 || i == 18 || i == 23 {
                *c == b'-'
            } else {
                c.is_ascii_digit() || (b'a'..=b'f').contains(c)
            }
        })
        && b[14] == b'4'
        && matches!(b[19], b'8' | b'9' | b'a' | b'b')
}

#[test]
fn toggle_text_adds_then_removes() {
    let mut formats = strings(&["email", "social_post"]);
    toggle_text(&mut formats, "speech".to_string());
    assert_eq!(formats, strings(&["email", "social_post", "speech"]));
    toggle_text(&mut formats, "email".to_string());
    assert_eq!(formats, strings(&["social_post", "speech"]));
    assert!(contains_text(&formats, "speech"));
    assert!(!contains_text(&formats, "email"));
}

#[test]
fn toggling_twice_restores_selection() {
    let before = strings(&["a", "b"]);
    let mut v = before.clone();
    toggle_text(&mut v, "c".to_string());
    toggle_text(&mut v, "c".to_string());
    assert_eq!(v, before);
    let mut e = vec![0usize, 2];
    toggle_expanded(&mut e, 5);
    assert_eq!(e, vec![0, 2, 5]);
    toggle_expanded(&mut e, 5);
    assert_eq!(e, vec![0, 2]);
    toggle_expanded(&mut e, 0);
    assert_eq!(e, vec![2]);
}

#[test]
fn toggle_removes_only_first_duplicate() {
    let mut v = strings(&["x", "y", "x"]);
    toggle_text(&mut v, "x".to_string());
    assert_eq!(v, strings(&["y", "x"]));
}

fn segment(name: &str) -> CoalitionSegment {
    CoalitionSegment { name: name.to_string(), description: String::new(), key_priorities: Vec::new() }
}

#[test]
fn segments_toggle_by_name() {
    let mut sel = vec![segment("Labor"), segment("Suburban")];
    let mut other = segment("Labor");
    other.description = "different description".to_string();
    toggle_segment(&mut sel, other);
    assert_eq!(sel.len(), 1);
    assert_eq!(sel[0].name, "Suburban");
    assert!(!segment_selected(&sel, "Labor"));
    toggle_segment(&mut sel, segment("Rural"));
    assert!(segment_selected(&sel, "Rural"));
    assert_eq!(sel.len(), 2);
}

#[test]
fn select_all_clears_when_everything_is_selected() {
    let all = strings(&["a", "b", "c"]);
    let mut sel = strings(&["b"]);
    select_all_personas(&mut sel, &all);
    assert_eq!(sel, all);
    select_all_personas(&mut sel, &all);
    assert!(sel.is_empty());
    assert_eq!(selected_positions(&all, &strings(&["c", "a"])), vec![0, 2]);
}

#[test]
fn newest_donation_first_and_refresh_rule() {
    assert_eq!(newest_first(vec![1, 2, 3]), vec![3, 2, 1]);
    assert_eq!(newest_first(Vec::<u8>::new()), Vec::<u8>::new());
    assert!(refreshes_selection(Some("d1"), "d1"));
    assert!(!refreshes_selection(Some("d2"), "d1"));
    assert!(!refreshes_selection(None, "d1"));
}

#[test]
fn answers_go_on_top_of_history() {
    let mut h = vec!["older".to_string()];
    record_answer(&mut h, "newest".to_string());
    assert_eq!(h, strings(&["newest", "older"]));
}

#[test]
fn replace_result_only_within_range() {
    let mut v = vec![1, 2, 3];
    replace_result(&mut v, 1, 20);
    assert_eq!(v, vec![1, 20, 3]);
    replace_result(&mut v, 7, 99);
    assert_eq!(v, vec![1, 20, 3]);
    let mut slots = vec![("a".to_string(), "b".to_string())];
    add_article_slot(&mut slots);
    assert_eq!(slots.len(), 2);
    assert_eq!(slots[1], (String::new(), String::new()));
}

#[test]
fn clicking_an_issue_twice() {
    let mut expanded: Option<String> = None;
    assert!(matches!(click_issue(None, &mut expanded, "Roads"), ExpandAction::Nothing));
    assert_eq!(expanded, None);
    match click_issue(Some("Ward 5"), &mut expanded, "Roads") {
        ExpandAction::Load { issue, area } => {
            assert_eq!(issue, "Roads");
            assert_eq!(area, "Ward 5");
        }
        _ => panic!("expected a load"),
    }
    assert_eq!(expanded, Some("Roads".to_string()));
    assert!(matches!(click_issue(Some("Ward 5"), &mut expanded, "Roads"), ExpandAction::Collapse));
    assert_eq!(expanded, None);
    let mut other = Some("Parks".to_string());
    assert!(matches!(click_issue(Some("W"), &mut other, "Roads"), ExpandAction::Load { .. }));
    assert_eq!(other, Some("Roads".to_string()));
}

#[test]
fn languages_and_names() {
    let langs = fallback_languages();
    let codes: Vec<&str> = langs.iter().map(|l| l.code.as_str()).collect();
    assert_eq!(codes, vec!["en", "es", "fr", "zh", "ar", "hi", "pt", "de", "ja", "ko"]);
    assert_eq!(language_name(&langs, "zh"), "Mandarin");
    assert_eq!(language_name(&langs, "sw"), "sw");
    let server = vec![Language { code: "sw".to_string(), name: "Swahili".to_string() }];
    let offered = offered_languages(Some(server));
    assert_eq!(language_name(&offered, "sw"), "Swahili");
    assert_eq!(offered_languages(None).len(), 10);
}

fn coaching_session() -> CoachingSession {
    CoachingSession {
        id: "s1".to_string(),
        mode: "debate".to_string(),
        topics: strings(&["Tax"]),
        difficulty: "hard".to_string(),
        messages: vec![CoachingMessage { role: "interviewer".to_string(), content: "Why?".to_string() }],
    }
}

#[test]
fn coaching_answer_joins_conversation_at_once() {
    let mut session = Some(coaching_session());
    assert!(begin_response(&mut session, "   ", false).is_none());
    assert!(begin_response(&mut session, "Because", true).is_none());
    assert_eq!(session.as_ref().unwrap().messages.len(), 1);
    let req = begin_response(&mut session, "  Because  ", false).unwrap();
    assert_eq!(req.response, "Because");
    assert_eq!(req.id, "s1");
    assert_eq!(req.history.len(), 1);
    let s = session.as_ref().unwrap();
    assert_eq!(s.messages.len(), 2);
    assert_eq!(s.messages[1].role, "candidate");
    assert_eq!(s.messages[1].content, "Because");
    complete_response(
        &mut session,
        vec![CoachingMessage { role: "interviewer".to_string(), content: "Next".to_string() }],
    );
    assert_eq!(session.as_ref().unwrap().messages.len(), 1);
    assert_eq!(session.as_ref().unwrap().id, "s1");
    let mut none: Option<CoachingSession> = None;
    assert!(begin_response(&mut none, "x", false).is_none());
    complete_response(&mut none, Vec::new());
    assert!(none.is_none());
    assert!(send_disabled(false, " "));
    assert!(send_disabled(true, "x"));
    assert!(!send_disabled(false, "x"));
    assert_eq!(topics_line(&strings(&["Tax", "Jobs"])), "Tax, Jobs");
}

#[test]
fn chat_question_then_answer_fills_placeholder() {
    let mut msgs: Vec<ChatMessage<u32>> = Vec::new();
    assert!(begin_chat(&mut msgs, "Q?", false, None).is_none());
    assert!(begin_chat(&mut msgs, "  ", false, Some("s1")).is_none());
    assert!(begin_chat(&mut msgs, "Q?", true, Some("s1")).is_none());
    assert!(msgs.is_empty());
    let p = begin_chat(&mut msgs, " What is the tax plan? ", false, Some("s1")).unwrap();
    assert_eq!(p.question, "What is the tax plan?");
    assert_eq!(p.session_id, "s1");
    assert_eq!(msgs.len(), 2);
    assert_eq!(msgs[0].role, "user");
    assert_eq!(msgs[0].content, "What is the tax plan?");
    assert_eq!(msgs[1].role, "assistant");
    assert_eq!(msgs[1].content, "");
    assert_eq!(msgs[1].id, p.placeholder_id);
    assert!(is_v4(&msgs[0].id));
    assert!(is_v4(&p.placeholder_id));
    assert_ne!(msgs[0].id, p.placeholder_id);
    complete_chat(&mut msgs, &p.placeholder_id, Ok(("Lower rates.".to_string(), Some(3))));
    assert_eq!(msgs[1].content, "Lower rates.");
    assert_eq!(msgs[1].sources, Some(3));
    assert_eq!(msgs[0].content, "What is the tax plan?");
}

#[test]
fn chat_failure_writes_error_into_placeholder() {
    let mut msgs: Vec<ChatMessage<u32>> = Vec::new();
    let p = begin_chat(&mut msgs, "Q", false, Some("s")).unwrap();
    complete_chat(&mut msgs, &p.placeholder_id, Err("server down".to_string()));
    assert_eq!(msgs[1].content, "Error: server down");
    assert_eq!(msgs[1].sources, None);
    let before_len = msgs.len();
    complete_chat(&mut msgs, "no-such-id", Ok(("x".to_string(), None)));
    assert_eq!(msgs.len(), before_len);
    assert_eq!(msgs[1].content, "Error: server down");
}

#[test]
fn session_titles_fall_back() {
    assert_eq!(session_title(Some("10:00"), Some("09:00")), "Chat 10:00");
    assert_eq!(session_title(None, Some("09:00")), "Chat 09:00");
    assert_eq!(session_title(None, None), "Chat New session");
}

#[test]
fn login_and_not_found_messages() {
    assert_eq!(login_redirect(""), "/auth?redirect_url=/dashboard");
    assert_eq!(login_redirect("/volunteers"), "/auth?redirect_url=/volunteers");
    assert_eq!(not_found_message(&strings(&["a", "b"])), "Page not found: /a/b");
    assert_eq!(not_found_message(&Vec::new()), "Page not found: /");
}

#[test]
fn clicking_a_format_twice_keeps_the_selected_set() {
    let mut v = strings(&["email", "speech", "email_x"]);
    toggle_text(&mut v, "email".to_string());
    toggle_text(&mut v, "email".to_string());
    assert_eq!(v, strings(&["speech", "email_x", "email"]));
}
