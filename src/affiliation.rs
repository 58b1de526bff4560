//! Affiliations written as `institution; department; address; country`.
use vstd::prelude::*;
use crate::text::{split_on, split_text, trim, trim_text};

verus! {

/// The text of an optional string.
pub open spec fn opt_view(o: Option<String>) -> Option<Seq<char>> {
    match o {
        Some(s) => Some(s@),
        None => None,
    }
}

/// The field held by the `k`-th `;`-separated piece of `s`: the piece
/// trimmed of white space, absent where the piece is missing or blank.
pub open spec fn affiliation_field(s: Seq<char>, k: int) -> Option<Seq<char>> {
    let pieces = split_on(s, ';');
    if 0 <= k < pieces.len() && trim(pieces[k]).len() > 0 {
        Some(trim(pieces[k]))
    } else {
        None
    }
}

#[derive(Debug, Clone, PartialEq, Eq)]
pub struct Affiliation {
    pub institution: Option<String>,
    pub department: Option<String>,
    pub address: Option<String>,
    pub country: Option<String>,
}

/// The trimmed `k`-th piece, if present and not blank.
fn field_at(parts: &Vec<String>, k: usize) -> (r: Option<String>)
    ensures
        opt_view(r) == (if k < parts@.len() && trim(parts@[k as int]@).len() > 0 {
            Some(trim(parts@[k as int]@))
        } else {
            None::<Seq<char>>
        }),
{
    if k < parts.len() {
        let t = trim_text(parts[k].as_str());
        if t.as_str().is_empty() {
            None
        } else {
            Some(t)
        }
    } else {
        None
    }
}

impl Affiliation {
    /// Reads the first four `;`-separated pieces of `affil_str` as the
    /// institution, department, address and country; each is trimmed, and a
    /// missing or blank piece leaves its field empty. Pieces after the fourth
    /// are ignored.
    pub fn parse(affil_str: &str) -> (r: Self)
        ensures
            opt_view(r.institution) == affiliation_field(affil_str@, 0),
            opt_view(r.department) == affiliation_field(affil_str@, 1),
            opt_view(r.address) == affiliation_field(affil_str@, 2),
            opt_view(r.country) == affiliation_field(affil_str@, 3),
    {
        let parts = split_text(affil_str, ';');
        proof {
            assert(forall|k: int|
                0 <= k < parts@.len() ==> #[trigger] parts@[k]@ == split_on(affil_str@, ';')[k]);
        }
        let institution = field_at(&parts, 0);
        let department = field_at(&parts, 1);
        let address = field_at(&parts, 2);
        let country = field_at(&parts, 3);
        Affiliation { institution, department, address, country }
    }
}

} // verus!
