//! Picking one secret among those a search found.
use vstd::prelude::*;

use crate::error::AsmError;
use crate::secret::{Secret, SecretList};

verus! {

/// The names of `list`, in list order.
pub open spec fn names_of(list: Seq<Secret>) -> Seq<Seq<char>> {
    list.map_values(|s: Secret| s.name@)
}

impl SecretList {
    /// The names to offer when the user must choose, in list order.
    pub fn names(&self) -> (r: Vec<String>)
        ensures
            r.deep_view() == names_of(self.list@),
    {
        let mut r: Vec<String> = Vec::new();
        let mut i: usize = 0;
        while i < self.list.len()
            invariant
                i <= self.list@.len(),
                r.deep_view() == names_of(self.list@.subrange(0, i as int)),
            decreases self.list@.len() - i,
        {
            let name = self.list[i].name.clone();
            let ghost before = r@;
            let ghost before_dv = r.deep_view();
            r.push(name);
            assert(r@ == before.push(name));
            assert(r.deep_view() =~= before_dv.push(name@));
            i = i + 1;
            assert(r.deep_view() =~= names_of(self.list@.subrange(0, i as int)));
        }
        assert(self.list@.subrange(0, i as int) =~= self.list@);
        r
    }

    /// Whether the user must be asked to choose: only where more than one
    /// secret was found.
    pub fn needs_prompt(&self) -> (r: bool)
        ensures
            r == (self.list@.len() > 1),
    {
        self.list.len() > 1
    }
}

/// Picks one secret of `found`. A single secret is taken as it stands,
/// whatever `choice` says; among several, `choice` is the position of the
/// one the user chose, and a position past the end is refused with
/// [`AsmError::InvalidSelection`].
pub fn select_secret(found: SecretList, choice: usize) -> (r: Result<Secret, AsmError>)
    ensures
        found.list@.len() == 1 ==> r == Ok::<Secret, AsmError>(found.list@[0]),
        found.list@.len() != 1 && choice < found.list@.len() ==> r == Ok::<Secret, AsmError>(
            found.list@[choice as int],
        ),
        found.list@.len() != 1 && choice >= found.list@.len() ==> r == Err::<Secret, AsmError>(
            AsmError::InvalidSelection { index: choice, count: found.list@.len() as usize },
        ),
{
    let mut list = found.list;
    let count = list.len();
    if count == 1 {
        Ok(list.remove(0))
    } else if choice < count {
        Ok(list.remove(choice))
    } else {
        Err(AsmError::InvalidSelection { index: choice, count })
    }
}

} // verus!
