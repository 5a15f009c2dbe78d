//! The records that the listing and lookup commands return.
use vstd::prelude::*;

verus! {

/// One secret of the remote store.
///
/// `arn` identifies the secret uniquely; `name` need not be unique.
#[derive(Debug)]
pub struct Secret {
    pub arn: String,
    pub name: String,
    pub description: Option<String>,
    pub value: Option<String>,
}

/// The text of an optional string, with an absent one read as empty.
pub open spec fn text_or_empty(t: Option<String>) -> Seq<char> {
    match t {
        Some(s) => s@,
        None => Seq::empty(),
    }
}

/// Returns the text of `t`, or an empty string where `t` is absent.
pub fn string_or_empty(t: &Option<String>) -> (r: String)
    ensures
        r@ == text_or_empty(*t),
{
    match t {
        Some(s) => s.clone(),
        None => String::new(),
    }
}

fn clone_optional(t: &Option<String>) -> (r: Option<String>)
    ensures
        r == *t,
{
    match t {
        Some(s) => Some(s.clone()),
        None => None,
    }
}

impl Clone for Secret {
    fn clone(&self) -> (r: Self)
        ensures
            r == *self,
    {
        Secret {
            arn: self.arn.clone(),
            name: self.name.clone(),
            description: clone_optional(&self.description),
            value: clone_optional(&self.value),
        }
    }
}

/// The header row of a table of secrets.
pub open spec fn header_row() -> Seq<Seq<char>> {
    seq!["Name"@, "Description"@]
}

/// The table row of one secret: its name and its description, an absent
/// description shown as an empty cell.
pub open spec fn row_of(s: Secret) -> Seq<Seq<char>> {
    seq![s.name@, text_or_empty(s.description)]
}

impl Secret {
    /// The cells of this secret's row in a table.
    pub fn fields(&self) -> (r: Vec<String>)
        ensures
            r.deep_view() == row_of(*self),
    {
        let r = vec![self.name.clone(), string_or_empty(&self.description)];
        assert(r.deep_view() =~= row_of(*self));
        r
    }

    /// The column titles of a table of secrets.
    pub fn headers() -> (r: Vec<String>)
        ensures
            r.deep_view() == header_row(),
    {
        let r = vec![String::from_str("Name"), String::from_str("Description")];
        assert(r.deep_view() =~= header_row());
        r
    }
}

/// The secrets of one listing, in the order the store gave them.
#[derive(Debug)]
pub struct SecretList {
    pub list: Vec<Secret>,
}

} // verus!
