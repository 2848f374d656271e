use politiktok::accountability::{
    classification_message, commitment_preview, extraction_message, prepare_evidence,
    prepare_extraction,
};
use politiktok::briefings::prepare_briefing;
use politiktok::call_intel::prepare_call_analysis;
use politiktok::campaign_copy::{prepare_copy, prepare_regeneration, GeneratedCopy};
use politiktok::canvassing::{copy_status, prepare_script};
use politiktok::coalition::prepare_tension_analysis;
use politiktok::compliance::{prepare_check, prepare_report};
use politiktok::disinfo::{prepare_counter_response, prepare_disinfo_analysis};
use politiktok::empathy::prepare_simulation;
use politiktok::faction_mapper::{prepare_consensus, prepare_faction_analysis};
use politiktok::forms::{failure_message, optional_text, require_text, text_or};
use politiktok::fundraising::prepare_donor;
use politiktok::knowledge_base::{ingested_message, prepare_document, prepare_question};
use politiktok::local_issues::prepare_local_analysis;
use politiktok::media_monitor::{prepare_article, prepare_comparison};
use politiktok::meetings::prepare_summary;
use politiktok::multilingual::{fallback_languages, prepare_adaptation, prepare_translation};
use politiktok::narrative::{prepare_narrative_text, prepare_theme, theme_after_analysis};
use politiktok::opposition::prepare_opponent;
use politiktok::policy_chatbot::prepare_upload;
use politiktok::policy_diff::prepare_diff;
use politiktok::question_anticipation::prepare_questions;
use politiktok::regulatory::{brief_button_label, prepare_brief, prepare_impact};
use politiktok::volunteers::{assignment_text, prepare_task, prepare_volunteer};

fn strings(v: &[&str]) -> Vec<String> {
    v.iter().map(|s| s.to_string()).collect()
}

#[test]
fn required_and_optional_fields() {
    assert_eq!(require_text("  x ", "Needed."), Ok("x".to_string()));
    assert_eq!(require_text(" \n ", "Needed."), Err("Needed."));
    assert_eq!(optional_text("   "), None);
    assert_eq!(optional_text(" 18-30 "), Some("18-30".to_string()));
    assert_eq!(text_or(None, "N/A"), "N/A");
    assert_eq!(text_or(Some("jane@x.org"), "N/A"), "jane@x.org");
    assert_eq!(failure_message("Generation failed: ", "timeout"), "Generation failed: timeout");
}

#[test]
fn campaign_copy_form_checks_in_order() {
    let formats = strings(&["email", "social_post"]);
    assert_eq!(prepare_copy("  ", "msg", &formats).err(), Some("Topic is required."));
    assert_eq!(
        prepare_copy("Infrastructure", " \n  ", &formats).err(),
        Some("At least one key message is required.")
    );
    assert_eq!(
        prepare_copy("Infrastructure", "Jobs", &Vec::new()).err(),
        Some("Select at least one format.")
    );
    let req = prepare_copy(" Infrastructure ", "Jobs now\n\n  Safer roads ", &formats).unwrap();
    assert_eq!(req.topic, "Infrastructure");
    assert_eq!(req.key_messages, strings(&["Jobs now", "Safer roads"]));
    assert_eq!(req.formats, formats);
}

#[test]
fn regeneration_targets_the_active_tab() {
    let results = vec![
        GeneratedCopy { format: "email".to_string(), content: "Hi".to_string() },
        GeneratedCopy { format: "speech".to_string(), content: "Friends".to_string() },
    ];
    assert_eq!(prepare_regeneration(&results, 2, "x"), None);
    assert_eq!(
        prepare_regeneration(&results, 1, "  shorter "),
        Some(("speech".to_string(), Some("shorter".to_string())))
    );
    assert_eq!(prepare_regeneration(&results, 0, "   "), Some(("email".to_string(), None)));
}

#[test]
fn canvassing_form_checks_name_then_issues() {
    assert_eq!(
        prepare_script("Swing Voters", "Roads", "  ", "").err(),
        Some("Candidate name is required.")
    );
    assert_eq!(
        prepare_script("Swing Voters", "\n \n", "Jane", "").err(),
        Some("At least one local issue is required.")
    );
    let req = prepare_script(" Swing Voters ", "Roads\n Parks ", " Jane Smith ", "Vote early\n\nVolunteer").unwrap();
    assert_eq!(req.segment, "Swing Voters");
    assert_eq!(req.candidate, "Jane Smith");
    assert_eq!(req.issues, strings(&["Roads", "Parks"]));
    assert_eq!(req.asks, strings(&["Vote early", "Volunteer"]));
    assert_eq!(copy_status(Ok(())), "Copied to clipboard!");
    assert_eq!(copy_status(Err("offline")), "Copy failed: offline");
}

#[test]
fn coalition_needs_text_and_two_segments() {
    assert_eq!(prepare_tension_analysis(" ", 3), Err("Please enter policy text to analyze."));
    assert_eq!(
        prepare_tension_analysis("Tax plan", 1),
        Err("Please select at least two coalition segments.")
    );
    assert_eq!(prepare_tension_analysis(" Tax plan ", 2), Ok("Tax plan".to_string()));
}

#[test]
fn empathy_simulation_uses_selected_personas_in_listed_order() {
    let all = strings(&["p1", "p2", "p3", "p4"]);
    assert_eq!(
        prepare_simulation("", &all, &strings(&["p1"])),
        Err("Please enter policy text to simulate.")
    );
    assert_eq!(
        prepare_simulation("Plan", &all, &Vec::new()),
        Err("Please select at least one persona.")
    );
    assert_eq!(
        prepare_simulation(" Plan ", &all, &strings(&["p4", "p2", "zz"])),
        Ok(("Plan".to_string(), vec![1usize, 3usize]))
    );
}

#[test]
fn faction_forms() {
    assert_eq!(prepare_faction_analysis(" ", "x"), Err("Party context is required."));
    assert_eq!(
        prepare_faction_analysis(" Party ", " Ann, Bo "),
        Ok(("Party".to_string(), "Ann, Bo".to_string()))
    );
    assert_eq!(prepare_consensus(false, ""), None);
    assert_eq!(
        prepare_consensus(true, "  "),
        Some(Err("Policy proposal is required for consensus mapping."))
    );
    assert_eq!(prepare_consensus(true, " Ban cars "), Some(Ok("Ban cars".to_string())));
}

#[test]
fn donor_form_is_silent_without_name_or_email() {
    assert!(prepare_donor("Ann", "  ", "x").is_none());
    assert!(prepare_donor(" ", "a@b.c", "x").is_none());
    let d = prepare_donor(" Ann Lee ", " ann@x.org ", "major, ,repeat ").unwrap();
    assert_eq!(d.name, "Ann Lee");
    assert_eq!(d.email, "ann@x.org");
    assert_eq!(d.tags, strings(&["major", "repeat"]));
}

#[test]
fn knowledge_base_forms() {
    assert_eq!(prepare_question("  "), Err("Please enter a question."));
    assert_eq!(prepare_question(" Who? "), Ok("Who?".to_string()));
    assert_eq!(prepare_document(" ", "x"), Err("Document title is required."));
    assert_eq!(prepare_document("T", " "), Err("Document content is required."));
    assert_eq!(prepare_document(" T ", " C "), Ok(("T".to_string(), "C".to_string())));
    assert_eq!(ingested_message("doc-7"), "Document ingested (ID: doc-7)");
}

#[test]
fn local_issue_form() {
    assert_eq!(prepare_local_analysis(" ", "a", "b"), Err("Area description is required."));
    assert_eq!(
        prepare_local_analysis(" Ward 5 ", "  ", " Flooding "),
        Ok(("Ward 5".to_string(), None, Some("Flooding".to_string())))
    );
}

#[test]
fn translation_form_checks_text_then_languages() {
    let langs = fallback_languages();
    assert_eq!(
        prepare_translation(" ", "en", "es", "", &langs).err(),
        Some("Source text is required.")
    );
    assert_eq!(
        prepare_translation("Hello", "fr", "fr", "", &langs).err(),
        Some("Source and target languages must be different.")
    );
    let req = prepare_translation(" Hello ", "en", "xx", " formal ", &langs).unwrap();
    assert_eq!(req.text, "Hello");
    assert_eq!(req.source_name, "English");
    assert_eq!(req.target_name, "xx");
    assert_eq!(req.context, Some("formal".to_string()));
    assert_eq!(prepare_adaptation(" ", "x"), Err("Text is required."));
    assert_eq!(prepare_adaptation("Hi", " "), Err("Target culture is required."));
    assert_eq!(prepare_adaptation(" Hi ", " Quebec "), Ok(("Hi".to_string(), "Quebec".to_string())));
}

#[test]
fn narrative_forms_and_theme_choice() {
    assert_eq!(prepare_narrative_text(" "), Err("Please enter text to analyze."));
    assert_eq!(prepare_theme("  "), Err("Select a narrative theme first."));
    assert_eq!(prepare_theme(" Crime ").unwrap(), "Crime");
    assert_eq!(
        theme_after_analysis("old".to_string(), &strings(&["Economy", "Crime"])),
        "Economy"
    );
    assert_eq!(theme_after_analysis("old".to_string(), &Vec::new()), "old");
}

#[test]
fn opponent_form_requires_name() {
    assert!(matches!(prepare_opponent(" ", "P", "D", "B", "X"), Err("Name is required.")));
    let o = prepare_opponent(" Sam ", " Green ", " ", " bio ", " {\"tax\":\"cut\"} ").ok().unwrap();
    assert_eq!(o.name, "Sam");
    assert_eq!(o.party, "Green");
    assert_eq!(o.district, "");
    assert_eq!(o.bio, "bio");
    assert_eq!(o.positions, "{\"tax\":\"cut\"}");
}

#[test]
fn chat_upload_form() {
    assert_eq!(prepare_upload("T", " "), Err("Title and content are required."));
    assert_eq!(prepare_upload(" ", "C"), Err("Title and content are required."));
    assert_eq!(prepare_upload(" T ", " C "), Ok(("T".to_string(), "C".to_string())));
}

#[test]
fn volunteer_form() {
    assert!(matches!(
        prepare_volunteer("Ann", " ", "", "", "", "", "", ""),
        Err("Name and email are required.")
    ));
    let v = prepare_volunteer(" Ann ", " a@x.org ", "  ", "canvassing, phone banking,", " weekends ", " ", "new", " Retired teacher ")
        .ok()
        .unwrap();
    assert_eq!(v.name, "Ann");
    assert_eq!(v.email, "a@x.org");
    assert_eq!(v.phone, None);
    assert_eq!(v.skills, strings(&["canvassing", "phone banking"]));
    assert_eq!(v.availability, "weekends");
    assert_eq!(v.location, None);
    assert_eq!(v.tags, strings(&["new"]));
    assert_eq!(v.bio, Some("Retired teacher".to_string()));
}

#[test]
fn task_form_defaults_limit_to_five() {
    assert!(matches!(prepare_task(" ", "", "", "", "", "", "5"), Err("Title is required.")));
    let t = prepare_task(" Door knock ", " Ward 3 ", "driving,", "", "2024-05-01", " ", " 12 ")
        .ok()
        .unwrap();
    assert_eq!(t.title, "Door knock");
    assert_eq!(t.description, "Ward 3");
    assert_eq!(t.required_skills, strings(&["driving"]));
    assert_eq!(t.location, None);
    assert_eq!(t.date_start, Some("2024-05-01".to_string()));
    assert_eq!(t.date_end, None);
    assert_eq!(t.max_volunteers, 12);
    let bad = prepare_task("T", "", "", "", "", "", "many").ok().unwrap();
    assert_eq!(bad.max_volunteers, 5);
    let neg = prepare_task("T", "", "", "", "", "", "-3").ok().unwrap();
    assert_eq!(neg.max_volunteers, -3);
    assert_eq!(assignment_text(3, 10), "3/10");
}

#[test]
fn accountability_forms_and_messages() {
    assert!(matches!(prepare_extraction(" ", "x"), Err("Both title and text are required.")));
    assert!(matches!(prepare_extraction("x", " "), Err("Both title and text are required.")));
    let r = prepare_extraction(" Speech ", " We will ").ok().unwrap();
    assert_eq!(r.title, "Speech");
    assert_eq!(r.text, "We will");
    assert_eq!(prepare_evidence("  "), Err("Evidence text is required."));
    assert_eq!(prepare_evidence(" Vote record "), Ok("Vote record".to_string()));
    assert_eq!(commitment_preview("short"), "short");
    let long = "b".repeat(100);
    assert_eq!(commitment_preview(&long), format!("{}...", "b".repeat(80)));
    let accented = "\u{e9}".repeat(41);
    assert_eq!(commitment_preview(&accented), "\u{e9}".repeat(40) + "...");
    assert_eq!(
        classification_message(Some("kept"), 87),
        "Classified as \"kept\" with 87% confidence."
    );
    assert_eq!(
        classification_message(None, 0),
        "Classified as \"unknown\" with 0% confidence."
    );
    assert_eq!(extraction_message(4), "Successfully extracted 4 commitments.");
}

#[test]
fn briefing_form_passes_topics_lines() {
    let r = prepare_briefing("rally", "Jobs\n \nHealth ", " Workers ", " Tough crowd ");
    assert_eq!(r.event_type, "rally");
    assert_eq!(r.topics, strings(&["Jobs", "Health"]));
    assert_eq!(r.audience, "Workers");
    assert_eq!(r.context, "Tough crowd");
}

#[test]
fn call_compliance_meeting_diff_question_forms() {
    assert!(prepare_call_analysis("  ").is_err());
    assert_eq!(prepare_call_analysis(" Hello? ").unwrap(), "Hello?");
    assert!(matches!(prepare_report("fec", " ", "d"), Err("Reporting period is required.")));
    assert!(matches!(prepare_report("fec", "Q1", " "), Err("Campaign data is required.")));
    let rep = prepare_report("fec", " Q1 ", " data ").ok().unwrap();
    assert_eq!((rep.report_type.as_str(), rep.period.as_str(), rep.data.as_str()), ("fec", "Q1", "data"));
    assert!(prepare_check(" ").is_err());
    assert!(matches!(prepare_summary(" ", "t", ""), Err("Meeting title is required.")));
    assert!(matches!(prepare_summary("T", " ", ""), Err("Meeting transcript is required.")));
    let m = prepare_summary(" Standup ", " notes ", "Ann\n\n Bo ").ok().unwrap();
    assert_eq!(m.attendees, strings(&["Ann", "Bo"]));
    assert!(matches!(prepare_diff("a", " ", "b", "x"), Err("Both documents must have content.")));
    let d = prepare_diff(" A ", " one ", " B ", " two ").ok().unwrap();
    assert_eq!((d.a_title.as_str(), d.a_text.as_str(), d.b_title.as_str(), d.b_text.as_str()), ("A", "one", "B", "two"));
    assert!(matches!(prepare_questions(" ", "debate", ""), Err("Please provide context for the event.")));
}

#[test]
fn disinfo_media_regulatory_forms() {
    assert_eq!(prepare_disinfo_analysis(" ", "x"), Err("Content is required for analysis."));
    assert_eq!(
        prepare_disinfo_analysis(" claim ", " tweet "),
        Ok(("claim".to_string(), "tweet".to_string()))
    );
    assert_eq!(prepare_counter_response(None, "all"), None);
    assert_eq!(
        prepare_counter_response(Some("claim"), " seniors "),
        Some(("claim".to_string(), "seniors".to_string()))
    );
    assert_eq!(prepare_article(" ", "x"), Err("Article text is required."));
    let slots = vec![
        ("BBC".to_string(), "text one".to_string()),
        (" ".to_string(), "no source".to_string()),
        ("CNN".to_string(), " text two ".to_string()),
    ];
    assert!(matches!(prepare_comparison(" ", &slots), Err("Topic is required for comparison.")));
    let one = vec![("BBC".to_string(), "t".to_string())];
    assert!(matches!(
        prepare_comparison("Tax", &one),
        Err("At least two articles with sources are needed for comparison.")
    ));
    let c = prepare_comparison(" Tax ", &slots).ok().unwrap();
    assert_eq!(c.topic, "Tax");
    assert_eq!(
        c.articles,
        vec![
            ("BBC".to_string(), "text one".to_string()),
            ("CNN".to_string(), "text two".to_string())
        ]
    );
    assert_eq!(prepare_brief(&Vec::new()), Err("Select at least one update for the brief."));
    assert_eq!(prepare_impact(" ", "x"), Err("Regulatory update text is required."));
    assert_eq!(brief_button_label(3), "Generate Brief (3 selected)");
}
