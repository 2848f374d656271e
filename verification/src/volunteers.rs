//! The volunteer and task pages: status badges, skill chips, and the
//! add-volunteer and create-task forms.

use vstd::prelude::*;
use vstd::string::*;
use crate::forms::{opt_view, optional_spec, optional_text};
use crate::numbers::{decimal_spec, digits_spec, format_i64, format_u64, parse_i32, parse_i32_spec};
use crate::text::{comma_items, items_spec, split_spec, text_eq, trim, trim_spec, trimmed};

verus! {

broadcast use vstd::string::group_string_axioms;

/// The badge class of a volunteer's status in the tables.
pub open spec fn volunteer_badge_class_spec(status: Seq<char>) -> Seq<char> {
    if status == "active"@ {
        "badge badge-success badge-sm"@
    } else if status == "inactive"@ {
        "badge badge-ghost badge-sm"@
    } else {
        "badge badge-outline badge-sm"@
    }
}

/// The badge class of a volunteer's status in the tables.
pub fn volunteer_badge_class(status: &str) -> (r: &'static str)
    ensures
        r@ == volunteer_badge_class_spec(status@),
{
    if text_eq(status, "active") {
        "badge badge-success badge-sm"
    } else if text_eq(status, "inactive") {
        "badge badge-ghost badge-sm"
    } else {
        "badge badge-outline badge-sm"
    }
}

/// What `volunteer_badge_class` gives tells the values apart: each result below is given
/// for exactly the values listed with it, and every other value gets
/// "badge badge-outline badge-sm".
pub proof fn volunteer_badge_class_by_value(x: Seq<char>)
    ensures
        volunteer_badge_class_spec(x) == "badge badge-success badge-sm"@ <==> x == "active"@,
        volunteer_badge_class_spec(x) == "badge badge-ghost badge-sm"@ <==> x == "inactive"@,
        volunteer_badge_class_spec(x) == "badge badge-outline badge-sm"@ <==> !(x == "active"@ || x == "inactive"@),
{
    reveal_strlit("badge badge-ghost badge-sm");
    reveal_strlit("badge badge-outline badge-sm");
    reveal_strlit("badge badge-success badge-sm");
    reveal_strlit("active");
    reveal_strlit("inactive");
    assert("badge badge-ghost badge-sm"@.len() != "badge badge-outline badge-sm"@.len());
    assert("badge badge-ghost badge-sm"@.len() != "badge badge-success badge-sm"@.len());
    assert("badge badge-outline badge-sm"@[12] != "badge badge-success badge-sm"@[12]);
    assert("active"@.len() != "inactive"@.len());
}

/// The badge class of a volunteer's status on the detail page.
pub open spec fn volunteer_detail_badge_class_spec(status: Seq<char>) -> Seq<char> {
    if status == "active"@ {
        "badge badge-success"@
    } else if status == "inactive"@ {
        "badge badge-ghost"@
    } else {
        "badge badge-outline"@
    }
}

/// The badge class of a volunteer's status on the detail page.
pub fn volunteer_detail_badge_class(status: &str) -> (r: &'static str)
    ensures
        r@ == volunteer_detail_badge_class_spec(status@),
{
    if text_eq(status, "active") {
        "badge badge-success"
    } else if text_eq(status, "inactive") {
        "badge badge-ghost"
    } else {
        "badge badge-outline"
    }
}

/// What `volunteer_detail_badge_class` gives tells the values apart: each result below is given
/// for exactly the values listed with it, and every other value gets
/// "badge badge-outline".
pub proof fn volunteer_detail_badge_class_by_value(x: Seq<char>)
    ensures
        volunteer_detail_badge_class_spec(x) == "badge badge-success"@ <==> x == "active"@,
        volunteer_detail_badge_class_spec(x) == "badge badge-ghost"@ <==> x == "inactive"@,
        volunteer_detail_badge_class_spec(x) == "badge badge-outline"@ <==> !(x == "active"@ || x == "inactive"@),
{
    reveal_strlit("badge badge-ghost");
    reveal_strlit("badge badge-outline");
    reveal_strlit("badge badge-success");
    reveal_strlit("active");
    reveal_strlit("inactive");
    assert("badge badge-ghost"@.len() != "badge badge-outline"@.len());
    assert("badge badge-ghost"@.len() != "badge badge-success"@.len());
    assert("badge badge-outline"@[12] != "badge badge-success"@[12]);
    assert("active"@.len() != "inactive"@.len());
}

/// The badge class of a task's status in the task list.
pub open spec fn task_badge_class_spec(status: Seq<char>) -> Seq<char> {
    if status == "open"@ {
        "badge badge-info badge-sm"@
    } else if status == "in_progress"@ {
        "badge badge-warning badge-sm"@
    } else if status == "completed"@ {
        "badge badge-success badge-sm"@
    } else if status == "cancelled"@ {
        "badge badge-ghost badge-sm"@
    } else {
        "badge badge-outline badge-sm"@
    }
}

/// The badge class of a task's status in the task list.
pub fn task_badge_class(status: &str) -> (r: &'static str)
    ensures
        r@ == task_badge_class_spec(status@),
{
    if text_eq(status, "open") {
        "badge badge-info badge-sm"
    } else if text_eq(status, "in_progress") {
        "badge badge-warning badge-sm"
    } else if text_eq(status, "completed") {
        "badge badge-success badge-sm"
    } else if text_eq(status, "cancelled") {
        "badge badge-ghost badge-sm"
    } else {
        "badge badge-outline badge-sm"
    }
}

/// What `task_badge_class` gives tells the values apart: each result below is given
/// for exactly the values listed with it, and every other value gets
/// "badge badge-outline badge-sm".
pub proof fn task_badge_class_by_value(x: Seq<char>)
    ensures
        task_badge_class_spec(x) == "badge badge-info badge-sm"@ <==> x == "open"@,
        task_badge_class_spec(x) == "badge badge-warning badge-sm"@ <==> x == "in_progress"@,
        task_badge_class_spec(x) == "badge badge-success badge-sm"@ <==> x == "completed"@,
        task_badge_class_spec(x) == "badge badge-ghost badge-sm"@ <==> x == "cancelled"@,
        task_badge_class_spec(x) == "badge badge-outline badge-sm"@ <==> !(x == "open"@ || x == "in_progress"@ || x == "completed"@ || x == "cancelled"@),
{
    reveal_strlit("badge badge-ghost badge-sm");
    reveal_strlit("badge badge-info badge-sm");
    reveal_strlit("badge badge-outline badge-sm");
    reveal_strlit("badge badge-success badge-sm");
    reveal_strlit("badge badge-warning badge-sm");
    reveal_strlit("open");
    reveal_strlit("in_progress");
    reveal_strlit("completed");
    reveal_strlit("cancelled");
    assert("badge badge-ghost badge-sm"@.len() != "badge badge-info badge-sm"@.len());
    assert("badge badge-ghost badge-sm"@.len() != "badge badge-outline badge-sm"@.len());
    assert("badge badge-ghost badge-sm"@.len() != "badge badge-success badge-sm"@.len());
    assert("badge badge-ghost badge-sm"@.len() != "badge badge-warning badge-sm"@.len());
    assert("badge badge-info badge-sm"@.len() != "badge badge-outline badge-sm"@.len());
    assert("badge badge-info badge-sm"@.len() != "badge badge-success badge-sm"@.len());
    assert("badge badge-info badge-sm"@.len() != "badge badge-warning badge-sm"@.len());
    assert("badge badge-outline badge-sm"@[12] != "badge badge-success badge-sm"@[12]);
    assert("badge badge-outline badge-sm"@[12] != "badge badge-warning badge-sm"@[12]);
    assert("badge badge-success badge-sm"@[12] != "badge badge-warning badge-sm"@[12]);
    assert("open"@.len() != "in_progress"@.len());
    assert("open"@.len() != "completed"@.len());
    assert("open"@.len() != "cancelled"@.len());
    assert("in_progress"@.len() != "completed"@.len());
    assert("in_progress"@.len() != "cancelled"@.len());
    assert("completed"@[1] != "cancelled"@[1]);
}

/// The badge class of a task's status on the task page.
pub open spec fn task_detail_badge_class_spec(status: Seq<char>) -> Seq<char> {
    if status == "open"@ {
        "badge badge-info badge-lg"@
    } else if status == "in_progress"@ {
        "badge badge-warning badge-lg"@
    } else if status == "completed"@ {
        "badge badge-success badge-lg"@
    } else if status == "cancelled"@ {
        "badge badge-ghost badge-lg"@
    } else {
        "badge badge-outline badge-lg"@
    }
}

/// The badge class of a task's status on the task page.
pub fn task_detail_badge_class(status: &str) -> (r: &'static str)
    ensures
        r@ == task_detail_badge_class_spec(status@),
{
    if text_eq(status, "open") {
        "badge badge-info badge-lg"
    } else if text_eq(status, "in_progress") {
        "badge badge-warning badge-lg"
    } else if text_eq(status, "completed") {
        "badge badge-success badge-lg"
    } else if text_eq(status, "cancelled") {
        "badge badge-ghost badge-lg"
    } else {
        "badge badge-outline badge-lg"
    }
}

/// What `task_detail_badge_class` gives tells the values apart: each result below is given
/// for exactly the values listed with it, and every other value gets
/// "badge badge-outline badge-lg".
pub proof fn task_detail_badge_class_by_value(x: Seq<char>)
    ensures
        task_detail_badge_class_spec(x) == "badge badge-info badge-lg"@ <==> x == "open"@,
        task_detail_badge_class_spec(x) == "badge badge-warning badge-lg"@ <==> x == "in_progress"@,
        task_detail_badge_class_spec(x) == "badge badge-success badge-lg"@ <==> x == "completed"@,
        task_detail_badge_class_spec(x) == "badge badge-ghost badge-lg"@ <==> x == "cancelled"@,
        task_detail_badge_class_spec(x) == "badge badge-outline badge-lg"@ <==> !(x == "open"@ || x == "in_progress"@ || x == "completed"@ || x == "cancelled"@),
{
    reveal_strlit("badge badge-ghost badge-lg");
    reveal_strlit("badge badge-info badge-lg");
    reveal_strlit("badge badge-outline badge-lg");
    reveal_strlit("badge badge-success badge-lg");
    reveal_strlit("badge badge-warning badge-lg");
    reveal_strlit("open");
    reveal_strlit("in_progress");
    reveal_strlit("completed");
    reveal_strlit("cancelled");
    assert("badge badge-ghost badge-lg"@.len() != "badge badge-info badge-lg"@.len());
    assert("badge badge-ghost badge-lg"@.len() != "badge badge-outline badge-lg"@.len());
    assert("badge badge-ghost badge-lg"@.len() != "badge badge-success badge-lg"@.len());
    assert("badge badge-ghost badge-lg"@.len() != "badge badge-warning badge-lg"@.len());
    assert("badge badge-info badge-lg"@.len() != "badge badge-outline badge-lg"@.len());
    assert("badge badge-info badge-lg"@.len() != "badge badge-success badge-lg"@.len());
    assert("badge badge-info badge-lg"@.len() != "badge badge-warning badge-lg"@.len());
    assert("badge badge-outline badge-lg"@[12] != "badge badge-success badge-lg"@[12]);
    assert("badge badge-outline badge-lg"@[12] != "badge badge-warning badge-lg"@[12]);
    assert("badge badge-success badge-lg"@[12] != "badge badge-warning badge-lg"@[12]);
    assert("open"@.len() != "in_progress"@.len());
    assert("open"@.len() != "completed"@.len());
    assert("open"@.len() != "cancelled"@.len());
    assert("in_progress"@.len() != "completed"@.len());
    assert("in_progress"@.len() != "cancelled"@.len());
    assert("completed"@[1] != "cancelled"@[1]);
}

/// The class of a volunteer row: at-risk rows are tinted.
pub fn volunteer_row_class(at_risk: bool) -> (r: &'static str)
    ensures
        at_risk ==> r@ == "hover bg-warning/5"@,
        !at_risk ==> r@ == "hover"@,
{
    if at_risk {
        "hover bg-warning/5"
    } else {
        "hover"
    }
}

/// The skill chips of a table row: the first three skills, and a "+N"
/// chip counting the others when there are more than three.
pub fn skill_chips(skills: &Vec<String>) -> (r: (Vec<String>, Option<String>))
    ensures
        skills.len() <= 3 ==> r.0.deep_view() == skills.deep_view() && r.1 is None,
        skills.len() > 3 ==> r.0.deep_view() == skills.deep_view().take(3) && (r.1 matches Some(
            t,
        ) && t@ == "+"@ + digits_spec((skills.len() - 3) as nat)),
{
    let n: usize = if skills.len() < 3 { skills.len() } else { 3 };
    let mut shown: Vec<String> = Vec::new();
    let mut i: usize = 0;
    while i < n
        invariant
            n <= skills.len(),
            n == if skills.len() < 3 { skills.len() } else { 3 },
            i <= n,
            shown.deep_view() == skills.deep_view().take(i as int),
        decreases n - i,
    {
        let ghost before = shown.deep_view();
        let t = String::from_str(skills[i].as_str());
        shown.push(t);
        proof {
            assert(skills.deep_view()[i as int] == skills@[i as int]@);
            assert(shown.deep_view() =~= before.push(t@));
            assert(skills.deep_view().take(i + 1) =~= skills.deep_view().take(i as int).push(
                skills.deep_view()[i as int],
            ));
        }
        i += 1;
    }
    proof {
        if skills.len() <= 3 {
            assert(skills.deep_view().take(n as int) =~= skills.deep_view());
        }
    }
    if skills.len() > 3 {
        let extra = format_u64((skills.len() - 3) as u64);
        (shown, Some(String::from_str("+").concat(extra.as_str())))
    } else {
        (shown, None)
    }
}

/// What a new volunteer is created with.
pub struct VolunteerRequest {
    pub name: String,
    pub email: String,
    pub phone: Option<String>,
    pub skills: Vec<String>,
    pub availability: String,
    pub location: Option<String>,
    pub tags: Vec<String>,
    pub bio: Option<String>,
}

/// Reads the add-volunteer form: the trimmed name and email are both
/// required; skills and tags are comma-separated lists; phone, location
/// and bio are optional; availability is passed on trimmed.
pub fn prepare_volunteer(
    name: &str,
    email: &str,
    phone: &str,
    skills: &str,
    availability: &str,
    location: &str,
    tags: &str,
    bio: &str,
) -> (r: Result<VolunteerRequest, &'static str>)
    ensures
        trim_spec(name@).len() == 0 || trim_spec(email@).len() == 0 ==> r == Err::<
            VolunteerRequest,
            &'static str,
        >("Name and email are required."),
        trim_spec(name@).len() > 0 && trim_spec(email@).len() > 0 ==> (r matches Ok(q) && q.name@
            == trim_spec(name@) && q.email@ == trim_spec(email@) && opt_view(q.phone)
            == optional_spec(phone@) && q.skills.deep_view() == items_spec(split_spec(skills@, ','))
            && q.availability@ == trim_spec(availability@) && opt_view(q.location) == optional_spec(
            location@,
        ) && q.tags.deep_view() == items_spec(split_spec(tags@, ',')) && opt_view(q.bio)
            == optional_spec(bio@)),
{
    let n = trim(name);
    let e = trim(email);
    if n.is_empty() || e.is_empty() {
        return Err("Name and email are required.");
    }
    Ok(VolunteerRequest {
        name: String::from_str(n),
        email: String::from_str(e),
        phone: optional_text(phone),
        skills: comma_items(skills),
        availability: trimmed(availability),
        location: optional_text(location),
        tags: comma_items(tags),
        bio: optional_text(bio),
    })
}

/// What a new task is created with.
pub struct TaskRequest {
    pub title: String,
    pub description: String,
    pub required_skills: Vec<String>,
    pub location: Option<String>,
    pub date_start: Option<String>,
    pub date_end: Option<String>,
    pub max_volunteers: i32,
}

/// The volunteer limit read from its field: the trimmed text as an `i32`,
/// or five when it does not parse.
pub open spec fn max_volunteers_spec(text: Seq<char>) -> int {
    match parse_i32_spec(trim_spec(text)) {
        Some(v) => v,
        None => 5,
    }
}

/// Reads the create-task form: the trimmed title is required; skills are a
/// comma-separated list; location and dates are optional; the volunteer
/// limit defaults to five.
pub fn prepare_task(
    title: &str,
    description: &str,
    skills: &str,
    location: &str,
    date_start: &str,
    date_end: &str,
    max_volunteers: &str,
) -> (r: Result<TaskRequest, &'static str>)
    ensures
        trim_spec(title@).len() == 0 ==> r == Err::<TaskRequest, &'static str>(
            "Title is required.",
        ),
        trim_spec(title@).len() > 0 ==> (r matches Ok(q) && q.title@ == trim_spec(title@)
            && q.description@ == trim_spec(description@) && q.required_skills.deep_view()
            == items_spec(split_spec(skills@, ',')) && opt_view(q.location) == optional_spec(
            location@,
        ) && opt_view(q.date_start) == optional_spec(date_start@) && opt_view(q.date_end)
            == optional_spec(date_end@) && q.max_volunteers == max_volunteers_spec(
            max_volunteers@,
        )),
{
    let t = trim(title);
    if t.is_empty() {
        return Err("Title is required.");
    }
    let max = match parse_i32(trim(max_volunteers)) {
        Some(v) => v,
        None => 5,
    };
    Ok(TaskRequest {
        title: String::from_str(t),
        description: trimmed(description),
        required_skills: comma_items(skills),
        location: optional_text(location),
        date_start: optional_text(date_start),
        date_end: optional_text(date_end),
        max_volunteers: max,
    })
}

/// The assignment cell of a task: assigned volunteers over the limit.
pub fn assignment_text(assigned: i64, max_volunteers: i64) -> (r: String)
    ensures
        r@ == decimal_spec(assigned as int) + "/"@ + decimal_spec(max_volunteers as int),
{
    format_i64(assigned).concat("/").concat(format_i64(max_volunteers).as_str())
}

} // verus!
