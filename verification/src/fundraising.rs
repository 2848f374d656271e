//! The fundraising page: the add-donor form, the detail panel that follows
//! a recorded donation, and the order of the donation history.

use vstd::prelude::*;
use vstd::string::*;
use crate::text::{comma_items, items_spec, split_spec, text_eq, trim, trim_spec};

verus! {

broadcast use vstd::string::group_string_axioms;

/// What a new donor is created with.
pub struct DonorRequest {
    pub name: String,
    pub email: String,
    pub tags: Vec<String>,
}

/// Reads the add-donor form: nothing is saved unless both the trimmed
/// name and the trimmed email are present; the tags are the trimmed,
/// non-empty comma-separated entries.
pub fn prepare_donor(name: &str, email: &str, tags: &str) -> (r: Option<DonorRequest>)
    ensures
        trim_spec(name@).len() == 0 || trim_spec(email@).len() == 0 ==> r is None,
        trim_spec(name@).len() > 0 && trim_spec(email@).len() > 0 ==> (r matches Some(q)
            && q.name@ == trim_spec(name@) && q.email@ == trim_spec(email@)
            && q.tags.deep_view() == items_spec(split_spec(tags@, ','))),
{
    let n = trim(name);
    let e = trim(email);
    if n.is_empty() || e.is_empty() {
        return None;
    }
    Some(DonorRequest { name: String::from_str(n), email: String::from_str(e), tags: comma_items(tags) })
}

/// Whether the donor shown in the detail panel is the one whose donation
/// was just recorded, so that the panel shows the updated record.
pub fn refreshes_selection(selected_id: Option<&str>, updated_id: &str) -> (r: bool)
    ensures
        r == (selected_id matches Some(s) && s@ == updated_id@),
{
    match selected_id {
        Some(s) => text_eq(s, updated_id),
        None => false,
    }
}

/// The donation history, newest entry first.
pub fn newest_first<T>(history: Vec<T>) -> (r: Vec<T>)
    ensures
        r@ == history@.reverse(),
{
    let ghost h = history@;
    let mut rest = history;
    let mut out: Vec<T> = Vec::new();
    while rest.len() > 0
        invariant
            rest@ == h.take(rest.len() as int),
            rest.len() <= h.len(),
            out@ == h.skip(rest.len() as int).reverse(),
        decreases rest.len(),
    {
        let ghost n = rest.len();
        let x = rest.pop().unwrap();
        proof {
            assert(x == h[n - 1]);
            assert(rest@ =~= h.take(n - 1));
            assert(h.skip(n - 1).reverse() =~= h.skip(n as int).reverse().push(h[n - 1]));
        }
        out.push(x);
    }
    proof {
        assert(h.skip(0) =~= h);
    }
    out
}

} // verus!
