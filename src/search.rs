//! Case-insensitive search of secrets by name.
use vstd::prelude::*;

use crate::error::AsmError;
use crate::secret::{Secret, SecretList};

verus! {

/// What `str::to_lowercase` makes of a text.
pub uninterp spec fn lower_of(s: Seq<char>) -> Seq<char>;

/// Relies on `str::to_lowercase`: the lower-case form depends on the
/// characters alone, and an empty text stays empty.
#[verifier::external_body]
pub(crate) fn lowercase(s: &str) -> (r: String)
    ensures
        r@ == lower_of(s@),
        s@.len() == 0 ==> r@.len() == 0,
{
    s.to_lowercase()
}

/// `needle` stands in `hay` from position `i` on.
pub open spec fn occurs_at(hay: Seq<char>, needle: Seq<char>, i: int) -> bool {
    0 <= i && i + needle.len() <= hay.len() && hay.subrange(i, i + needle.len()) == needle
}

/// `needle` is a contiguous part of `hay`.
pub open spec fn contains_seq(hay: Seq<char>, needle: Seq<char>) -> bool {
    exists|i: int| occurs_at(hay, needle, i)
}

/// A secret named `name` answers the search for `query`: the lower-case name
/// holds the lower-case query.
pub open spec fn name_matches(name: Seq<char>, query: Seq<char>) -> bool {
    contains_seq(lower_of(name), lower_of(query))
}

/// The test that a secret answers the search for `query`.
pub open spec fn answers(query: Seq<char>) -> spec_fn(Secret) -> bool {
    |s: Secret| name_matches(s.name@, query)
}

/// The secrets of `list` that answer the search for `query`, in list order.
pub open spec fn matching(list: Seq<Secret>, query: Seq<char>) -> Seq<Secret> {
    list.filter(answers(query))
}

/// Searching for `query` in `list` is exact and case-blind: every secret it
/// keeps comes from the list and has a name that holds the query without
/// regard to case, and every listed secret whose name holds it is kept.
pub proof fn lemma_search_keeps_exactly_matches(list: Seq<Secret>, query: Seq<char>)
    ensures
        forall|i: int|
            0 <= i < matching(list, query).len() ==> name_matches(
                #[trigger] matching(list, query)[i].name@,
                query,
            ),
        forall|s: Secret| #[trigger]
            matching(list, query).contains(s) ==> list.contains(s) && name_matches(s.name@, query),
        forall|s: Secret|
            list.contains(s) && name_matches(s.name@, query) ==> #[trigger] matching(
                list,
                query,
            ).contains(s),
{
    broadcast use vstd::seq_lib::group_filter_ensures;

    let pred = answers(query);
    assert forall|s: Secret| #[trigger] matching(list, query).contains(s) implies list.contains(s)
        && name_matches(s.name@, query) by {
        list.lemma_filter_contains_rev(pred, s);
        let j = choose|j: int| 0 <= j < matching(list, query).len() && matching(list, query)[j] == s;
        assert(pred(matching(list, query)[j]));
    }
    assert forall|s: Secret| list.contains(s) && name_matches(s.name@, query) implies #[trigger] matching(
        list,
        query,
    ).contains(s) by {
        let j = choose|j: int| 0 <= j < list.len() && list[j] == s;
        assert(pred(list[j]));
    }
}

/// The characters of `s`, one element each.
pub fn chars_of(s: &str) -> (r: Vec<char>)
    ensures
        r@ == s@,
{
    let n = s.unicode_len();
    let mut r: Vec<char> = Vec::new();
    let mut i: usize = 0;
    while i < n
        invariant
            n == s@.len(),
            i <= n,
            r@ == s@.subrange(0, i as int),
        decreases n - i,
    {
        r.push(s.get_char(i));
        i = i + 1;
        assert(r@ =~= s@.subrange(0, i as int));
    }
    assert(r@ =~= s@);
    r
}

/// Whether `needle` stands in `hay` from position `at` on.
fn occurs_at_exec(hay: &Vec<char>, needle: &Vec<char>, at: usize) -> (r: bool)
    requires
        at + needle@.len() <= hay@.len(),
    ensures
        r == occurs_at(hay@, needle@, at as int),
{
    let hay_len = hay.len();
    let mut k: usize = 0;
    while k < needle.len()
        invariant
            at + needle@.len() <= hay@.len(),
            hay_len == hay@.len(),
            k <= needle@.len(),
            forall|j: int| 0 <= j < k ==> hay@[at + j] == needle@[j],
        decreases needle@.len() - k,
    {
        if hay[at + k] != needle[k] {
            assert(hay@.subrange(at as int, at + needle@.len())[k as int] != needle@[k as int]);
            return false;
        }
        k = k + 1;
    }
    assert(hay@.subrange(at as int, at + needle@.len()) =~= needle@);
    true
}

/// Whether `needle` is a contiguous part of `hay`.
pub fn contains_chars(hay: &str, needle: &str) -> (r: bool)
    ensures
        r == contains_seq(hay@, needle@),
{
    let h = chars_of(hay);
    let n = chars_of(needle);
    if n.len() > h.len() {
        return false;
    }
    let last = h.len() - n.len();
    let mut i: usize = 0;
    while i < last
        invariant
            h@ == hay@,
            n@ == needle@,
            last == h@.len() - n@.len(),
            i <= last,
            forall|j: int| 0 <= j < i ==> !occurs_at(hay@, needle@, j),
        decreases last - i,
    {
        if occurs_at_exec(&h, &n, i) {
            return true;
        }
        i = i + 1;
    }
    occurs_at_exec(&h, &n, last)
}

/// Whether a secret named `name` answers the search for `query`, compared
/// without regard to case.
pub fn name_contains(name: &str, query: &str) -> (r: bool)
    ensures
        r == name_matches(name@, query@),
{
    let lname = lowercase(name);
    let lquery = lowercase(query);
    contains_chars(lname.as_str(), lquery.as_str())
}

/// The secrets of `list` whose names hold `query`, compared without regard
/// to case, in list order.
pub fn filter_matching(list: &Vec<Secret>, query: &str) -> (r: Vec<Secret>)
    ensures
        r@ == matching(list@, query@),
{
    let lquery = lowercase(query);
    let ghost pred = answers(query@);
    let mut r: Vec<Secret> = Vec::new();
    let mut i: usize = 0;
    while i < list.len()
        invariant
            i <= list@.len(),
            lquery@ == lower_of(query@),
            pred == answers(query@),
            r@ == list@.subrange(0, i as int).filter(pred),
        decreases list@.len() - i,
    {
        let s = &list[i];
        let lname = lowercase(s.name.as_str());
        let keep = contains_chars(lname.as_str(), lquery.as_str());
        proof {
            let head = list@.subrange(0, i + 1);
            assert(head.drop_last() =~= list@.subrange(0, i as int));
            assert(head.last() == list@[i as int]);
            assert(keep == pred(list@[i as int]));
            reveal(Seq::filter);
            assert(head.filter(pred) == (if pred(head.last()) {
                head.drop_last().filter(pred).push(head.last())
            } else {
                head.drop_last().filter(pred)
            }));
        }
        if keep {
            r.push(s.clone());
        }
        i = i + 1;
    }
    assert(list@.subrange(0, i as int) =~= list@);
    r
}

/// Keeps the secrets of `secrets` whose names hold `search_string`, compared
/// without regard to case, in list order; where none does, the search fails
/// with [`AsmError::NoMatch`].
pub fn search_all_secrets(secrets: &SecretList, search_string: &str) -> (r: Result<
    SecretList,
    AsmError,
>)
    ensures
        matching(secrets.list@, search_string@).len() == 0 <==> r is Err,
        r matches Ok(found) ==> found.list@ == matching(secrets.list@, search_string@),
        r matches Err(e) ==> (e matches AsmError::NoMatch { query } && query@ == search_string@),
{
    let found = filter_matching(&secrets.list, search_string);
    if found.len() == 0 {
        Err(AsmError::NoMatch { query: String::from_str(search_string) })
    } else {
        Ok(SecretList { list: found })
    }
}

} // verus!
