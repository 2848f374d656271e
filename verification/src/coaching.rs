//! The coaching page: labels of modes, levels and speakers, and the
//! conversation of a session, which takes the candidate's answer at once
//! and the coach's reply when it arrives.

use vstd::prelude::*;
use vstd::string::*;
use crate::text::{copy_texts, join_spec, join_texts, text_eq, trim, trim_spec};

verus! {

broadcast use vstd::string::group_string_axioms;

/// The label of a coaching mode in the session header (other modes are shown as they are).
pub open spec fn mode_label_spec(mode: Seq<char>) -> Seq<char> {
    if mode == "journalist"@ {
        "Press Interview"@
    } else if mode == "debate"@ {
        "Debate"@
    } else if mode == "townhall"@ {
        "Town Hall"@
    } else {
        mode
    }
}

/// The label of a coaching mode in the session header (other modes are shown as they are).
pub fn mode_label<'a>(mode: &'a str) -> (r: &'a str)
    ensures
        r@ == mode_label_spec(mode@),
{
    if text_eq(mode, "journalist") {
        "Press Interview"
    } else if text_eq(mode, "debate") {
        "Debate"
    } else if text_eq(mode, "townhall") {
        "Town Hall"
    } else {
        mode
    }
}

/// The label of a difficulty level (other levels are shown as they are).
pub open spec fn difficulty_label_spec(difficulty: Seq<char>) -> Seq<char> {
    if difficulty == "easy"@ {
        "Easy"@
    } else if difficulty == "medium"@ {
        "Medium"@
    } else if difficulty == "hard"@ {
        "Hard"@
    } else {
        difficulty
    }
}

/// The label of a difficulty level (other levels are shown as they are).
pub fn difficulty_label<'a>(difficulty: &'a str) -> (r: &'a str)
    ensures
        r@ == difficulty_label_spec(difficulty@),
{
    if text_eq(difficulty, "easy") {
        "Easy"
    } else if text_eq(difficulty, "medium") {
        "Medium"
    } else if text_eq(difficulty, "hard") {
        "Hard"
    } else {
        difficulty
    }
}

/// Who asks the questions in a coaching mode.
pub open spec fn interviewer_label_spec(mode: Seq<char>) -> Seq<char> {
    if mode == "journalist"@ {
        "Journalist"@
    } else if mode == "debate"@ {
        "Debate Opponent"@
    } else if mode == "townhall"@ {
        "Voter"@
    } else {
        "Interviewer"@
    }
}

/// Who asks the questions in a coaching mode.
pub fn interviewer_label(mode: &str) -> (r: &'static str)
    ensures
        r@ == interviewer_label_spec(mode@),
{
    if text_eq(mode, "journalist") {
        "Journalist"
    } else if text_eq(mode, "debate") {
        "Debate Opponent"
    } else if text_eq(mode, "townhall") {
        "Voter"
    } else {
        "Interviewer"
    }
}

/// What `interviewer_label` gives tells the values apart: each result below is given
/// for exactly the values listed with it, and every other value gets
/// "Interviewer".
pub proof fn interviewer_label_by_value(x: Seq<char>)
    ensures
        interviewer_label_spec(x) == "Journalist"@ <==> x == "journalist"@,
        interviewer_label_spec(x) == "Debate Opponent"@ <==> x == "debate"@,
        interviewer_label_spec(x) == "Voter"@ <==> x == "townhall"@,
        interviewer_label_spec(x) == "Interviewer"@ <==> !(x == "journalist"@ || x == "debate"@ || x == "townhall"@),
{
    reveal_strlit("Debate Opponent");
    reveal_strlit("Interviewer");
    reveal_strlit("Journalist");
    reveal_strlit("Voter");
    reveal_strlit("journalist");
    reveal_strlit("debate");
    reveal_strlit("townhall");
    assert("Debate Opponent"@.len() != "Interviewer"@.len());
    assert("Debate Opponent"@.len() != "Journalist"@.len());
    assert("Debate Opponent"@.len() != "Voter"@.len());
    assert("Interviewer"@.len() != "Journalist"@.len());
    assert("Interviewer"@.len() != "Voter"@.len());
    assert("Journalist"@.len() != "Voter"@.len());
    assert("journalist"@.len() != "debate"@.len());
    assert("journalist"@.len() != "townhall"@.len());
    assert("debate"@.len() != "townhall"@.len());
}

/// The speaker label of a message: the candidate, or the interviewer of
/// the session's mode.
pub fn speaker_label(role: &str, mode: &str) -> (r: &'static str)
    ensures
        role@ == "candidate"@ ==> r@ == "You (Candidate)"@,
        role@ != "candidate"@ ==> r@ == interviewer_label_spec(mode@),
{
    if text_eq(role, "candidate") {
        "You (Candidate)"
    } else {
        interviewer_label(mode)
    }
}

/// The chat alignment class of a message: the candidate's on the right.
pub fn chat_class(role: &str) -> (r: &'static str)
    ensures
        role@ == "candidate"@ ==> r@ == "chat chat-end"@,
        role@ != "candidate"@ ==> r@ == "chat chat-start"@,
{
    if text_eq(role, "candidate") {
        "chat chat-end"
    } else {
        "chat chat-start"
    }
}

/// The bubble class of a message.
pub fn bubble_class(role: &str) -> (r: &'static str)
    ensures
        role@ == "candidate"@ ==> r@ == "chat-bubble chat-bubble-primary"@,
        role@ != "candidate"@ ==> r@ == "chat-bubble chat-bubble-secondary"@,
{
    if text_eq(role, "candidate") {
        "chat-bubble chat-bubble-primary"
    } else {
        "chat-bubble chat-bubble-secondary"
    }
}

/// The class of a mode button in the setup form.
pub fn mode_button_class(selected: bool) -> (r: &'static str)
    ensures
        selected ==> r@ == "btn btn-primary btn-sm"@,
        !selected ==> r@ == "btn btn-outline btn-sm"@,
{
    if selected {
        "btn btn-primary btn-sm"
    } else {
        "btn btn-outline btn-sm"
    }
}

/// The topics line of the session header.
pub fn topics_line(topics: &Vec<String>) -> (r: String)
    ensures
        r@ == join_spec(topics.deep_view(), ", "@),
{
    join_texts(topics, ", ")
}

/// Whether the send button is disabled: while a reply is awaited, or when
/// the answer is blank.
pub fn send_disabled(responding: bool, input: &str) -> (r: bool)
    ensures
        r == (responding || trim_spec(input@).len() == 0),
{
    responding || trim(input).is_empty()
}

/// One message of a coaching conversation.
pub struct CoachingMessage {
    pub role: String,
    pub content: String,
}

/// The `(role, content)` view of a conversation.
pub open spec fn messages_view(v: Seq<CoachingMessage>) -> Seq<(Seq<char>, Seq<char>)> {
    v.map_values(|m: CoachingMessage| (m.role@, m.content@))
}

/// A running coaching session.
pub struct CoachingSession {
    pub id: String,
    pub mode: String,
    pub topics: Vec<String>,
    pub difficulty: String,
    pub messages: Vec<CoachingMessage>,
}

/// What the coach is asked to answer: the session as it stood before the
/// answer, and the trimmed answer.
pub struct ResponseRequest {
    pub id: String,
    pub mode: String,
    pub topics: Vec<String>,
    pub difficulty: String,
    pub history: Vec<CoachingMessage>,
    pub response: String,
}

/// A copy of a conversation.
pub fn copy_messages(v: &Vec<CoachingMessage>) -> (r: Vec<CoachingMessage>)
    ensures
        messages_view(r@) == messages_view(v@),
{
    let mut out: Vec<CoachingMessage> = Vec::new();
    let mut i: usize = 0;
    while i < v.len()
        invariant
            i <= v.len(),
            messages_view(out@) == messages_view(v@).take(i as int),
        decreases v.len() - i,
    {
        let ghost before = out@;
        let m = CoachingMessage {
            role: String::from_str(v[i].role.as_str()),
            content: String::from_str(v[i].content.as_str()),
        };
        out.push(m);
        proof {
            assert(messages_view(out@) =~= messages_view(before).push((m.role@, m.content@)));
            assert(messages_view(v@).take(i + 1) =~= messages_view(v@).take(i as int).push(
                messages_view(v@)[i as int],
            ));
        }
        i += 1;
    }
    proof {
        assert(messages_view(v@).take(v.len() as int) =~= messages_view(v@));
    }
    out
}

/// Whether an answer is taken: a session is running, no reply is awaited
/// and the trimmed answer is not blank.
pub open spec fn answer_taken(session: Option<CoachingSession>, input: Seq<char>, responding: bool) -> bool {
    session is Some && !responding && trim_spec(input).len() > 0
}

/// Sends the candidate's answer. When it is taken, the answer joins the
/// conversation at once as the candidate's message, and the request for
/// the coach's reply is returned; otherwise nothing changes.
pub fn begin_response(session: &mut Option<CoachingSession>, input: &str, responding: bool) -> (r:
    Option<ResponseRequest>)
    ensures
        !answer_taken(*old(session), input@, responding) ==> r is None && *final(session)
            == *old(session),
        answer_taken(*old(session), input@, responding) ==> (r matches Some(q) && *final(session) matches Some(s) && {
            let o = (*old(session)).unwrap();
            &&& q.id@ == o.id@
            &&& q.mode@ == o.mode@
            &&& q.topics.deep_view() == o.topics.deep_view()
            &&& q.difficulty@ == o.difficulty@
            &&& messages_view(q.history@) == messages_view(o.messages@)
            &&& q.response@ == trim_spec(input@)
            &&& s.id == o.id
            &&& s.mode == o.mode
            &&& s.topics == o.topics
            &&& s.difficulty == o.difficulty
            &&& messages_view(s.messages@) == messages_view(o.messages@).push(
                ("candidate"@, trim_spec(input@)),
            )
        }),
{
    let answer = trim(input);
    if answer.is_empty() || responding || session.is_none() {
        return None;
    }
    let current = session.take();
    match current {
        Some(sess) => {
            let request = ResponseRequest {
                id: String::from_str(sess.id.as_str()),
                mode: String::from_str(sess.mode.as_str()),
                topics: copy_texts(&sess.topics),
                difficulty: String::from_str(sess.difficulty.as_str()),
                history: copy_messages(&sess.messages),
                response: String::from_str(answer),
            };
            let CoachingSession { id, mode, topics, difficulty, messages } = sess;
            let mut messages = messages;
            let ghost before = messages@;
            let m = CoachingMessage { role: String::from_str("candidate"), content: String::from_str(answer) };
            messages.push(m);
            proof {
                assert(messages_view(messages@) =~= messages_view(before).push((m.role@, m.content@)));
            }
            *session = Some(CoachingSession { id, mode, topics, difficulty, messages });
            Some(request)
        },
        None => None,
    }
}

/// Takes the coach's reply: the conversation becomes the one the server
/// sent back (nothing happens once the session was closed).
pub fn complete_response(session: &mut Option<CoachingSession>, updated: Vec<CoachingMessage>)
    ensures
        *old(session) is None ==> *final(session) is None,
        *old(session) matches Some(o) ==> (*final(session) matches Some(s) && s.id == o.id
            && s.mode == o.mode && s.topics == o.topics && s.difficulty == o.difficulty
            && s.messages@ == updated@),
{
    let current = session.take();
    match current {
        Some(sess) => {
            let CoachingSession { id, mode, topics, difficulty, messages: _ } = sess;
            *session = Some(CoachingSession { id, mode, topics, difficulty, messages: updated });
        },
        None => {},
    }
}

} // verus!
