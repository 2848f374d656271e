//! Verified view-model logic of the PolitikTok campaign platform: the form
//! validation, text normalisation, badge selection, list and chat state
//! handling that the platform's pages perform around their server calls.

pub mod accountability;
pub mod briefings;
pub mod call_intel;
pub mod campaign_copy;
pub mod canvassing;
pub mod clipboard;
pub mod coaching;
pub mod coalition;
pub mod compliance;
pub mod dashboard;
pub mod disinfo;
pub mod empathy;
pub mod faction_mapper;
pub mod forms;
pub mod fundraising;
pub mod knowledge_base;
pub mod local_issues;
pub mod media_monitor;
pub mod meetings;
pub mod multilingual;
pub mod narrative;
pub mod navigation;
pub mod numbers;
pub mod opposition;
pub mod policy_chatbot;
pub mod policy_diff;
pub mod question_anticipation;
pub mod regulatory;
pub mod selection;
pub mod sentiment;
pub mod text;
pub mod volunteers;
