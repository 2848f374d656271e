//! The policy chat page: a question joins the conversation at once with
//! an empty answer placeholder, which the reply then fills; session list
//! titles, message classes and the document upload form.

use vstd::prelude::*;
use vstd::string::*;
use crate::selection::{first_match, lemma_first_match};
use crate::text::{text_eq, trim, trim_spec};

verus! {

broadcast use vstd::string::group_string_axioms;

/// A lowercase hexadecimal digit.
pub open spec fn is_lower_hex(c: char) -> bool {
    ('0' <= c && c <= '9') || ('a' <= c && c <= 'f')
}

/// The hyphenated lowercase text of a random (version 4) UUID: 36
/// characters, hyphens at positions 8, 13, 18 and 23, hexadecimal digits
/// elsewhere, the version digit `4` at position 14 and a variant digit
/// among `8`, `9`, `a`, `b` at position 19.
pub open spec fn is_v4_id(s: Seq<char>) -> bool {
    &&& s.len() == 36
    &&& forall|i: int|
        0 <= i < 36 ==> if i == 8 || i == 13 || i == 18 || i == 23 {
            #[trigger] s[i] == '-'
        } else {
            is_lower_hex(s[i])
        }
    &&& s[14] == '4'
    &&& (s[19] == '8' || s[19] == '9' || s[19] == 'a' || s[19] == 'b')
}

/// `uuid::Uuid::new_v4().to_string()`. The crate's source fills 128 bits
/// from the system's random source, masks in the version and variant bits
/// and prints them hyphenated in lowercase; the contract claims that shape
/// and nothing of the random digits. The call panics when the system
/// gives no random bytes, which no argument can rule out.
#[verifier::external_body]
fn new_message_id() -> (r: String)
    ensures
        is_v4_id(r@),
{
    uuid::Uuid::new_v4().to_string()
}

/// One message of a policy chat, with the sources an answer cites.
pub struct ChatMessage<S> {
    pub id: String,
    pub session_id: String,
    pub role: String,
    pub content: String,
    pub sources: Option<S>,
    pub created_at: Option<String>,
}

/// Messages are found by their ids.
pub open spec fn message_id<S>() -> spec_fn(ChatMessage<S>) -> Seq<char> {
    |m: ChatMessage<S>| m.id@
}

/// A question on its way: the trimmed question, its session and the id of
/// the placeholder that will hold the answer.
pub struct PendingChat {
    pub question: String,
    pub session_id: String,
    pub placeholder_id: String,
}

/// Whether a question is sent: a session is open, no answer is awaited and
/// the trimmed question is not blank.
pub open spec fn question_taken(input: Seq<char>, sending: bool, session: Option<Seq<char>>) -> bool {
    session is Some && !sending && trim_spec(input).len() > 0
}

/// `m` is a fresh message of the session with that role and content: a
/// random id, no sources and no time yet.
pub open spec fn fresh_message<S>(m: ChatMessage<S>, session: Seq<char>, role: Seq<char>, content: Seq<char>) -> bool {
    &&& is_v4_id(m.id@)
    &&& m.session_id@ == session
    &&& m.role@ == role
    &&& m.content@ == content
    &&& m.sources is None
    &&& m.created_at is None
}

/// Sends the question in the input field. When it is taken, the question
/// joins the conversation at once as the user's message, followed by an
/// empty assistant message that will hold the answer; otherwise nothing
/// changes.
pub fn begin_chat<S>(messages: &mut Vec<ChatMessage<S>>, input: &str, sending: bool, session: Option<&str>) -> (r: Option<PendingChat>)
    ensures
        !question_taken(input@, sending, match session { Some(s) => Some(s@), None => None }) ==> r is None && final(messages)@ == old(messages)@,
        question_taken(input@, sending, match session { Some(s) => Some(s@), None => None }) ==> (r matches Some(p) && {
            let n = old(messages)@.len() as int;
            let sid = session.unwrap()@;
            &&& p.question@ == trim_spec(input@)
            &&& p.session_id@ == sid
            &&& final(messages)@.len() == n + 2
            &&& final(messages)@.take(n) == old(messages)@
            &&& fresh_message(final(messages)@[n], sid, "user"@, trim_spec(input@))
            &&& fresh_message(final(messages)@[n + 1], sid, "assistant"@, Seq::<char>::empty())
            &&& final(messages)@[n + 1].id@ == p.placeholder_id@
        }),
{
    let question = trim(input);
    if question.is_empty() || sending {
        return None;
    }
    let sid = match session {
        Some(s) => s,
        None => return None,
    };
    let ghost before = messages@;
    let user = ChatMessage {
        id: new_message_id(),
        session_id: String::from_str(sid),
        role: String::from_str("user"),
        content: String::from_str(question),
        sources: None,
        created_at: None,
    };
    messages.push(user);
    let placeholder_id = new_message_id();
    let placeholder = ChatMessage {
        id: String::from_str(placeholder_id.as_str()),
        session_id: String::from_str(sid),
        role: String::from_str("assistant"),
        content: String::new(),
        sources: None,
        created_at: None,
    };
    messages.push(placeholder);
    proof {
        assert(messages@.take(before.len() as int) =~= before);
    }
    Some(PendingChat {
        question: String::from_str(question),
        session_id: String::from_str(sid),
        placeholder_id,
    })
}

/// The text an answer leaves in its placeholder: the answer, or the error
/// after "Error: ".
pub open spec fn reply_content<S>(reply: Result<(String, Option<S>), String>) -> Seq<char> {
    match reply {
        Ok(a) => a.0@,
        Err(e) => "Error: "@ + e@,
    }
}

/// The sources the placeholder holds after the reply: those of the
/// answer, or what it held before when the call failed.
pub open spec fn reply_sources<S>(reply: Result<(String, Option<S>), String>, before: Option<S>) -> Option<S> {
    match reply {
        Ok(a) => a.1,
        Err(_) => before,
    }
}

/// `new` is `old` with the message at `p` holding `content` and `sources`
/// and nothing else changed.
pub open spec fn filled_at<S>(old: Seq<ChatMessage<S>>, new: Seq<ChatMessage<S>>, p: int, content: Seq<char>, sources: Option<S>) -> bool {
    &&& new.len() == old.len()
    &&& forall|i: int| 0 <= i < old.len() && i != p ==> #[trigger] new[i] == old[i]
    &&& new[p].id == old[p].id
    &&& new[p].session_id == old[p].session_id
    &&& new[p].role == old[p].role
    &&& new[p].created_at == old[p].created_at
    &&& new[p].content@ == content
    &&& new[p].sources == sources
}

/// Takes the reply to a question: the first message carrying the
/// placeholder's id gets the answer and its sources, or the error text;
/// when no message carries that id nothing changes.
pub fn complete_chat<S>(messages: &mut Vec<ChatMessage<S>>, placeholder_id: &str, reply: Result<(String, Option<S>), String>)
    ensures
        first_match(old(messages)@, message_id::<S>(), placeholder_id@) < 0 ==> final(messages)@ == old(messages)@,
        first_match(old(messages)@, message_id::<S>(), placeholder_id@) >= 0 ==> filled_at(
            old(messages)@,
            final(messages)@,
            first_match(old(messages)@, message_id::<S>(), placeholder_id@),
            reply_content(reply),
            reply_sources(reply, old(messages)@[first_match(old(messages)@, message_id::<S>(), placeholder_id@)].sources),
        ),
{
    let ghost l = messages@;
    let ghost key = message_id::<S>();
    proof {
        lemma_first_match(l, key, placeholder_id@);
    }
    let mut i: usize = 0;
    while i < messages.len()
        invariant
            messages@ == l,
            l == old(messages)@,
            key == message_id::<S>(),
            i <= messages.len(),
            forall|j: int| 0 <= j < i ==> key(#[trigger] l[j]) != placeholder_id@,
        decreases messages.len() - i,
    {
        if text_eq(messages[i].id.as_str(), placeholder_id) {
            proof {
                lemma_first_match(l, key, placeholder_id@);
                let p = first_match(l, key, placeholder_id@);
                assert(key(l[i as int]) == placeholder_id@);
                if p < i {
                    assert(key(l[p]) != placeholder_id@);
                }
                assert(p == i);
            }
            let m = messages.remove(i);
            let ChatMessage { id, session_id, role, content: _, sources, created_at } = m;
            let (content, new_sources) = match reply {
                Ok((c, s)) => (c, s),
                Err(e) => (String::from_str("Error: ").concat(e.as_str()), sources),
            };
            let filled = ChatMessage { id, session_id, role, content, sources: new_sources, created_at };
            messages.insert(i, filled);
            proof {
                assert(messages@ =~= l.update(i as int, filled));
            }
            return;
        }
        i += 1;
    }
    proof {
        lemma_first_match(l, key, placeholder_id@);
        let p = first_match(l, key, placeholder_id@);
        if p >= 0 {
            assert(key(l[p]) != placeholder_id@);
        }
    }
}

/// The reply to a question lands on that question's placeholder when no
/// earlier message, nor the question itself, carries the placeholder's id.
pub proof fn reply_lands_on_placeholder<S>(old: Seq<ChatMessage<S>>, user: ChatMessage<S>, placeholder: ChatMessage<S>)
    requires
        forall|i: int| 0 <= i < old.len() ==> (#[trigger] old[i]).id@ != placeholder.id@,
        user.id@ != placeholder.id@,
    ensures
        first_match(old.push(user).push(placeholder), message_id::<S>(), placeholder.id@) == old.len() + 1,
{
    let l = old.push(user).push(placeholder);
    let key = message_id::<S>();
    lemma_first_match(l, key, placeholder.id@);
    let p = first_match(l, key, placeholder.id@);
    assert(key(l[old.len() as int + 1]) == placeholder.id@);
    if 0 <= p < old.len() {
        assert(l[p] == old[p]);
    }
    if p == old.len() {
        assert(l[p] == user);
    }
}

/// The speaker label of a chat message.
pub fn chat_speaker(role: &str) -> (r: &'static str)
    ensures
        role@ == "user"@ ==> r@ == "You"@,
        role@ != "user"@ ==> r@ == "Policy Assistant"@,
{
    if text_eq(role, "user") {
        "You"
    } else {
        "Policy Assistant"
    }
}

/// The alignment class of a chat message: the user's on the right.
pub fn chat_side_class(role: &str) -> (r: &'static str)
    ensures
        role@ == "user"@ ==> r@ == "chat chat-end"@,
        role@ != "user"@ ==> r@ == "chat chat-start"@,
{
    if text_eq(role, "user") {
        "chat chat-end"
    } else {
        "chat chat-start"
    }
}

/// The bubble class of a chat message.
pub fn chat_bubble_class(role: &str) -> (r: &'static str)
    ensures
        role@ == "user"@ ==> r@ == "chat-bubble chat-bubble-primary"@,
        role@ != "user"@ ==> r@ == "chat-bubble chat-bubble-secondary"@,
{
    if text_eq(role, "user") {
        "chat-bubble chat-bubble-primary"
    } else {
        "chat-bubble chat-bubble-secondary"
    }
}

/// The class of a session in the session list.
pub fn session_button_class(active: bool) -> (r: &'static str)
    ensures
        active ==> r@ == "w-full text-left p-2 rounded-lg bg-primary/10 text-primary text-sm truncate"@,
        !active ==> r@ == "w-full text-left p-2 rounded-lg hover:bg-slate-700/30 text-sm truncate"@,
{
    if active {
        "w-full text-left p-2 rounded-lg bg-primary/10 text-primary text-sm truncate"
    } else {
        "w-full text-left p-2 rounded-lg hover:bg-slate-700/30 text-sm truncate"
    }
}

/// The class of the Chats and Docs tab buttons.
pub fn side_tab_class(active: bool) -> (r: &'static str)
    ensures
        active ==> r@ == "flex-1 py-2 text-sm font-medium border-b-2 border-primary text-primary"@,
        !active ==> r@ == "flex-1 py-2 text-sm font-medium text-slate-400 hover:text-base-content"@,
{
    if active {
        "flex-1 py-2 text-sm font-medium border-b-2 border-primary text-primary"
    } else {
        "flex-1 py-2 text-sm font-medium text-slate-400 hover:text-base-content"
    }
}

/// The title of a session in the session list: "Chat " and its last
/// activity, else its creation time, else "New session".
pub fn session_title(last_active: Option<&str>, created_at: Option<&str>) -> (r: String)
    ensures
        last_active matches Some(t) ==> r@ == "Chat "@ + t@,
        last_active is None && created_at is Some ==> r@ == "Chat "@ + created_at.unwrap()@,
        last_active is None && created_at is None ==> r@ == "Chat "@ + "New session"@,
{
    let shown = match last_active {
        Some(t) => t,
        None => match created_at {
            Some(t) => t,
            None => "New session",
        },
    };
    String::from_str("Chat ").concat(shown)
}

/// Reads the upload form: both the trimmed title and the trimmed content
/// are required.
pub fn prepare_upload(title: &str, content: &str) -> (r: Result<(String, String), &'static str>)
    ensures
        trim_spec(title@).len() == 0 || trim_spec(content@).len() == 0 ==> r == Err::<
            (String, String),
            &'static str,
        >("Title and content are required."),
        trim_spec(title@).len() > 0 && trim_spec(content@).len() > 0 ==> (r matches Ok(q)
            && q.0@ == trim_spec(title@) && q.1@ == trim_spec(content@)),
{
    let t = trim(title);
    let c = trim(content);
    if t.is_empty() || c.is_empty() {
        return Err("Title and content are required.");
    }
    Ok((String::from_str(t), String::from_str(c)))
}

} // verus!
