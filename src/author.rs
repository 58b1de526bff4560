//! Author records: names, ORCID identifiers, affiliations and tags, put
//! together by builders that validate what they are given.
use vstd::prelude::*;
use vstd::string::*;
use crate::affiliation::{opt_view, affiliation_field, Affiliation};
use crate::text::{split_on, split_text, words, split_words};

verus! {

/// Why an author record could not be made.
#[derive(Debug, PartialEq, Eq)]
pub enum AuthorError {
    InvalidOrcid,
    MissingName,
    AffiliationParsingError,
    General(String),
}

impl AuthorError {
    /// A human-readable description of the error.
    pub fn message(&self) -> (r: String)
        ensures
            r@ == author_error_message(*self),
    {
        match self {
            AuthorError::InvalidOrcid => String::from_str("Invalid ORCID format"),
            AuthorError::MissingName => String::from_str("Missing author name"),
            AuthorError::AffiliationParsingError => String::from_str("Affiliation parsing error"),
            AuthorError::General(detail) => {
                let mut m = String::from_str("General author error: ");
                m.append(detail.as_str());
                m
            },
        }
    }
}

/// The text of an [`AuthorError`].
pub open spec fn author_error_message(e: AuthorError) -> Seq<char> {
    match e {
        AuthorError::InvalidOrcid => "Invalid ORCID format"@,
        AuthorError::MissingName => "Missing author name"@,
        AuthorError::AffiliationParsingError => "Affiliation parsing error"@,
        AuthorError::General(detail) => "General author error: "@ + detail@,
    }
}

/// A person's name: a first and a last name, and possibly a middle one.
#[derive(Debug, Clone, PartialEq, Eq)]
pub struct Name {
    pub first: String,
    pub middle: Option<String>,
    pub last: String,
}

/// Collects the parts of a [`Name`]; an empty part counts as not given.
#[derive(Debug)]
pub struct NameBuilder {
    first: Option<String>,
    middle: Option<String>,
    last: Option<String>,
}

/// A part of a name as a builder keeps it: an empty text is no part.
pub open spec fn part_of(s: Seq<char>) -> Option<Seq<char>> {
    if s.len() == 0 {
        None
    } else {
        Some(s)
    }
}

fn part_from(s: &str) -> (r: Option<String>)
    ensures
        opt_view(r) == part_of(s@),
{
    if s.is_empty() {
        None
    } else {
        Some(s.to_owned())
    }
}

impl Name {
    /// A builder with no part set.
    pub fn builder() -> (r: NameBuilder)
        ensures
            r.first_part() is None,
            r.middle_part() is None,
            r.last_part() is None,
    {
        NameBuilder { first: None, middle: None, last: None }
    }
}

impl NameBuilder {
    pub closed spec fn first_part(&self) -> Option<Seq<char>> {
        opt_view(self.first)
    }

    pub closed spec fn middle_part(&self) -> Option<Seq<char>> {
        opt_view(self.middle)
    }

    pub closed spec fn last_part(&self) -> Option<Seq<char>> {
        opt_view(self.last)
    }

    /// Sets the first name; an empty text clears it.
    pub fn first(self, first: &str) -> (r: Self)
        ensures
            r.first_part() == part_of(first@),
            r.middle_part() == self.middle_part(),
            r.last_part() == self.last_part(),
    {
        let mut b = self;
        b.first = part_from(first);
        b
    }

    /// Sets the middle name; an empty text clears it.
    pub fn middle(self, middle: &str) -> (r: Self)
        ensures
            r.first_part() == self.first_part(),
            r.middle_part() == part_of(middle@),
            r.last_part() == self.last_part(),
    {
        let mut b = self;
        b.middle = part_from(middle);
        b
    }

    /// Sets the last name; an empty text clears it.
    pub fn last(self, last: &str) -> (r: Self)
        ensures
            r.first_part() == self.first_part(),
            r.middle_part() == self.middle_part(),
            r.last_part() == part_of(last@),
    {
        let mut b = self;
        b.last = part_from(last);
        b
    }

    /// The name, which needs a first and a last part.
    pub fn build(self) -> (r: Result<Name, AuthorError>)
        ensures
            r is Ok <==> self.first_part() is Some && self.last_part() is Some,
            r is Err ==> r->Err_0 == AuthorError::MissingName,
            r matches Ok(n) ==> n.first@ == self.first_part()->0 && opt_view(n.middle)
                == self.middle_part() && n.last@ == self.last_part()->0,
    {
        match (self.first, self.last) {
            (Some(first), Some(last)) => Ok(Name { first, middle: self.middle, last }),
            _ => Err(AuthorError::MissingName),
        }
    }
}

/// The `-`-separated groups of an ORCID identifier.
pub open spec fn orcid_groups(s: Seq<char>) -> Seq<Seq<char>> {
    split_on(s, '-')
}

pub open spec fn is_decimal_digit(c: char) -> bool {
    '0' <= c && c <= '9'
}

/// Four groups of four decimal digits, joined by `-`.
pub open spec fn is_valid_orcid(s: Seq<char>) -> bool {
    let g = orcid_groups(s);
    g.len() == 4 && forall|k: int|
        0 <= k < 4 ==> #[trigger] g[k].len() == 4 && forall|j: int|
            0 <= j < 4 ==> is_decimal_digit(#[trigger] g[k][j])
}

/// An ORCID identifier in its `0000-0000-0000-0000` form.
#[derive(Debug, Clone, PartialEq, Eq)]
pub struct Orcid(pub String);

/// The text of an ORCID identifier.
pub open spec fn orcid_text(o: Orcid) -> Seq<char> {
    o.0@
}

fn is_digit_group(g: &str) -> (r: bool)
    ensures
        r == (g@.len() == 4 && forall|j: int| 0 <= j < 4 ==> is_decimal_digit(#[trigger] g@[j])),
{
    let n = g.unicode_len();
    if n != 4 {
        return false;
    }
    let mut i: usize = 0;
    while i < 4
        invariant
            n == g@.len() == 4,
            i <= 4,
            forall|j: int| 0 <= j < i ==> is_decimal_digit(#[trigger] g@[j]),
        decreases 4 - i,
    {
        let c = g.get_char(i);
        if !('0' <= c && c <= '9') {
            return false;
        }
        i = i + 1;
    }
    true
}

impl Orcid {
    /// Accepts exactly four groups of four decimal digits joined by `-`.
    pub fn parse(orcid_str: &str) -> (r: Result<Self, AuthorError>)
        ensures
            r is Ok <==> is_valid_orcid(orcid_str@),
            r matches Ok(o) ==> o.0@ == orcid_str@,
            r is Err ==> r->Err_0 == AuthorError::InvalidOrcid,
    {
        let groups = split_text(orcid_str, '-');
        if groups.len() != 4 {
            return Err(AuthorError::InvalidOrcid);
        }
        let mut k: usize = 0;
        while k < 4
            invariant
                groups@.len() == 4,
                crate::text::views_of(groups@) == orcid_groups(orcid_str@),
                k <= 4,
                forall|m: int|
                    0 <= m < k ==> #[trigger] orcid_groups(orcid_str@)[m].len() == 4 && forall|
                        j: int,
                    |
                        0 <= j < 4 ==> is_decimal_digit(#[trigger] orcid_groups(orcid_str@)[m][j]),
            decreases 4 - k,
        {
            proof {
                assert(groups@[k as int]@ == orcid_groups(orcid_str@)[k as int]);
            }
            if !is_digit_group(groups[k].as_str()) {
                return Err(AuthorError::InvalidOrcid);
            }
            k = k + 1;
        }
        Ok(Orcid(orcid_str.to_owned()))
    }
}

/// An author: a name, and optionally an ORCID, an affiliation and tags.
#[derive(Debug, Clone)]
pub struct Author {
    pub name: Name,
    pub orcid: Option<Orcid>,
    pub affiliation: Option<Affiliation>,
    pub tags: Vec<String>,
}

/// Collects the parts of an [`Author`].
#[derive(Debug)]
pub struct AuthorBuilder {
    name: Option<Name>,
    orcid: Option<Orcid>,
    affiliation: Option<Affiliation>,
    tags: Vec<String>,
}

impl Author {
    /// A builder with nothing set and no tags.
    pub fn builder() -> (r: AuthorBuilder)
        ensures
            r.name_part() is None,
            r.orcid_part() is None,
            r.affiliation_part() is None,
            r.tags_part().len() == 0,
    {
        AuthorBuilder { name: None, orcid: None, affiliation: None, tags: Vec::new() }
    }
}

/// The words of a full name as the parts of a [`Name`]: two words are a first
/// and a last name, three a first, a middle and a last name.
pub open spec fn name_words_fit(w: Seq<Seq<char>>) -> bool {
    w.len() == 2 || w.len() == 3
}

impl AuthorBuilder {
    pub closed spec fn name_part(&self) -> Option<Name> {
        self.name
    }

    pub closed spec fn orcid_part(&self) -> Option<Orcid> {
        self.orcid
    }

    pub closed spec fn affiliation_part(&self) -> Option<Affiliation> {
        self.affiliation
    }

    pub closed spec fn tags_part(&self) -> Seq<String> {
        self.tags@
    }

    /// Sets the name; never fails.
    pub fn name(self, name: Name) -> (r: Result<Self, AuthorError>)
        ensures
            r matches Ok(b) && b.name_part() == Some(name) && b.orcid_part() == self.orcid_part()
                && b.affiliation_part() == self.affiliation_part() && b.tags_part()
                == self.tags_part(),
    {
        let mut b = self;
        b.name = Some(name);
        Ok(b)
    }

    /// Sets the name from its text: two words are a first and a last name,
    /// three a first, a middle and a last name; any other count is
    /// `MissingName`.
    pub fn name_from_str(self, name_str: &str) -> (r: Result<Self, AuthorError>)
        ensures
            r is Ok <==> name_words_fit(words(name_str@)),
            r is Err ==> r->Err_0 == AuthorError::MissingName,
            r matches Ok(b) ==> {
                let w = words(name_str@);
                &&& b.name_part() is Some
                &&& b.name_part()->0.first@ == w[0]
                &&& b.name_part()->0.last@ == w.last()
                &&& opt_view(b.name_part()->0.middle) == (if w.len() == 3 {
                    Some(w[1])
                } else {
                    None::<Seq<char>>
                })
                &&& b.orcid_part() == self.orcid_part()
                &&& b.affiliation_part() == self.affiliation_part()
                &&& b.tags_part() == self.tags_part()
            },
    {
        let parts = split_words(name_str);
        proof {
            assert(forall|k: int|
                0 <= k < parts@.len() ==> #[trigger] parts@[k]@ == words(name_str@)[k]);
            assert(forall|k: int| 0 <= k < parts@.len() ==> #[trigger] parts@[k]@.len() > 0) by {
                crate::text::lemma_words_nonempty(name_str@);
            }
        }
        if parts.len() == 0 {
            return Err(AuthorError::MissingName);
        }
        let built = if parts.len() == 2 {
            Name::builder().first(parts[0].as_str()).last(parts[1].as_str()).build()
        } else if parts.len() == 3 {
            Name::builder().first(parts[0].as_str()).middle(parts[1].as_str()).last(
                parts[2].as_str(),
            ).build()
        } else {
            return Err(AuthorError::MissingName);
        };
        match built {
            Ok(name) => self.name(name),
            Err(e) => Err(e),
        }
    }

    /// Sets the ORCID; never fails.
    pub fn orcid(self, orcid: Orcid) -> (r: Result<Self, AuthorError>)
        ensures
            r matches Ok(b) && b.name_part() == self.name_part() && b.orcid_part() == Some(orcid)
                && b.affiliation_part() == self.affiliation_part() && b.tags_part()
                == self.tags_part(),
    {
        let mut b = self;
        b.orcid = Some(orcid);
        Ok(b)
    }

    /// Sets the ORCID from its text, which must be valid.
    pub fn orcid_from_str(self, orcid_str: &str) -> (r: Result<Self, AuthorError>)
        ensures
            r is Ok <==> is_valid_orcid(orcid_str@),
            r is Err ==> r->Err_0 == AuthorError::InvalidOrcid,
            r matches Ok(b) ==> b.name_part() == self.name_part() && b.orcid_part() is Some
                && orcid_text(b.orcid_part()->0) == orcid_str@ && b.affiliation_part()
                == self.affiliation_part() && b.tags_part() == self.tags_part(),
    {
        match Orcid::parse(orcid_str) {
            Ok(o) => self.orcid(o),
            Err(e) => Err(e),
        }
    }

    /// Sets the affiliation; never fails.
    pub fn affiliation(self, affiliation: Affiliation) -> (r: Result<Self, AuthorError>)
        ensures
            r matches Ok(b) && b.name_part() == self.name_part() && b.orcid_part()
                == self.orcid_part() && b.affiliation_part() == Some(affiliation)
                && b.tags_part() == self.tags_part(),
    {
        let mut b = self;
        b.affiliation = Some(affiliation);
        Ok(b)
    }

    /// Sets the affiliation from its text, as [`Affiliation::parse`] reads
    /// it; never fails.
    pub fn affiliation_from_str(self, affil_str: &str) -> (r: Result<Self, AuthorError>)
        ensures
            r matches Ok(b) && b.name_part() == self.name_part() && b.orcid_part()
                == self.orcid_part() && b.tags_part() == self.tags_part() && b.affiliation_part()
                is Some && ({
                let a = b.affiliation_part()->0;
                &&& opt_view(a.institution) == affiliation_field(affil_str@, 0)
                &&& opt_view(a.department) == affiliation_field(affil_str@, 1)
                &&& opt_view(a.address) == affiliation_field(affil_str@, 2)
                &&& opt_view(a.country) == affiliation_field(affil_str@, 3)
            }),
    {
        let affiliation = Affiliation::parse(affil_str);
        self.affiliation(affiliation)
    }

    /// Replaces the tags; never fails.
    pub fn tags(self, tags: Vec<String>) -> (r: Result<Self, AuthorError>)
        ensures
            r matches Ok(b) && b.name_part() == self.name_part() && b.orcid_part()
                == self.orcid_part() && b.affiliation_part() == self.affiliation_part()
                && b.tags_part() == tags@,
    {
        let mut b = self;
        b.tags = tags;
        Ok(b)
    }

    /// The author, which needs a name.
    pub fn build(self) -> (r: Result<Author, AuthorError>)
        ensures
            r is Ok <==> self.name_part() is Some,
            r is Err ==> r->Err_0 == AuthorError::MissingName,
            r matches Ok(a) ==> a.name == self.name_part()->0 && a.orcid == self.orcid_part()
                && a.affiliation == self.affiliation_part() && a.tags@ == self.tags_part(),
    {
        match self.name {
            Some(name) => Ok(Author {
                name,
                orcid: self.orcid,
                affiliation: self.affiliation,
                tags: self.tags,
            }),
            None => Err(AuthorError::MissingName),
        }
    }
}

} // verus!
