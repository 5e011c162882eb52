use vstd::prelude::*;
use vstd::string::StringExecFns;
use crate::tags::{Tags, TagsView};

verus! {

/// The text of the audit record for a forwarded call that carried `tags`:
/// each tag field on its own labelled line.
pub open spec fn audit_line(t: TagsView) -> Seq<char> {
    "Person: "@ + t.person + "\nCompany: "@ + t.company + "\nPurpose: "@ + t.purpose
}

/// Formats the audit record emitted once a forwarded call has succeeded.
/// Pure formatting: a missing or empty field is rendered as it is, never an
/// error.
pub fn audit_record(tags: &Tags) -> (r: String)
    ensures
        r@ == audit_line(tags@),
{
    let mut out = String::from_str("Person: ");
    out.append(tags.person.as_str());
    out.append("\nCompany: ");
    out.append(tags.company.as_str());
    out.append("\nPurpose: ");
    out.append(tags.purpose.as_str());
    proof {
        assert(out@ =~= audit_line(tags@));
    }
    out
}

} // verus!
