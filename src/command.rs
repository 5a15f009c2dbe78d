//! The commands handed to the external secrets tool.
use vstd::prelude::*;

use crate::error::AsmError;

verus! {

/// One call of the external tool's secrets-manager command: a subcommand
/// and its further arguments, in order.
#[derive(Debug)]
pub struct AwsSM {
    pub subcommand: String,
    pub arguments: Vec<String>,
}

/// The program that carries out every remote operation.
pub open spec fn program_name() -> Seq<char> {
    "aws"@
}

/// The full argument list of a call of `subcommand` with `arguments`.
pub open spec fn argv_of(subcommand: Seq<char>, arguments: Seq<Seq<char>>) -> Seq<Seq<char>> {
    seq!["secretsmanager"@, subcommand] + arguments
}

impl AwsSM {
    /// A call of `subcommand` with no further arguments yet.
    pub fn new(subcommand: &str) -> (r: Self)
        ensures
            r.subcommand@ == subcommand@,
            r.arguments.deep_view() == Seq::<Seq<char>>::empty(),
    {
        let r = AwsSM { subcommand: String::from_str(subcommand), arguments: Vec::new() };
        assert(r.arguments.deep_view() =~= Seq::<Seq<char>>::empty());
        r
    }

    /// The same call with `args` appended to its arguments, in order.
    pub fn args(self, args: Vec<String>) -> (r: Self)
        ensures
            r.subcommand == self.subcommand,
            r.arguments.deep_view() == self.arguments.deep_view() + args.deep_view(),
    {
        let mut arguments = self.arguments;
        let ghost start = arguments@;
        let ghost added = args@;
        let mut extra = args;
        arguments.append(&mut extra);
        assert(arguments@ == start + added);
        assert(arguments.deep_view() =~= self.arguments.deep_view() + args.deep_view());
        AwsSM { subcommand: self.subcommand, arguments }
    }

    /// The program to start for this call.
    pub fn program(&self) -> (r: String)
        ensures
            r@ == program_name(),
    {
        String::from_str("aws")
    }

    /// The arguments to start the program with: the service, the
    /// subcommand, then the further arguments in order.
    pub fn argv(&self) -> (r: Vec<String>)
        ensures
            r.deep_view() == argv_of(self.subcommand@, self.arguments.deep_view()),
    {
        let head = vec![String::from_str("secretsmanager"), self.subcommand.clone()];
        assert(head.deep_view() =~= seq!["secretsmanager"@, self.subcommand@]);
        let r = AwsSM { subcommand: String::new(), arguments: head }.args(clone_all(&self.arguments));
        r.arguments
    }

    /// What a finished run of the tool yields: its standard output where it
    /// reported success, else its standard error as [`AsmError::Remote`].
    pub fn outcome(success: bool, stdout: String, stderr: String) -> (r: Result<String, AsmError>)
        ensures
            success ==> r == Ok::<String, AsmError>(stdout),
            !success ==> r == Err::<String, AsmError>(AsmError::Remote { stderr }),
    {
        if success {
            Ok(stdout)
        } else {
            Err(AsmError::Remote { stderr })
        }
    }
}

/// A copy of every string of `v`, in order.
fn clone_all(v: &Vec<String>) -> (r: Vec<String>)
    ensures
        r.deep_view() == v.deep_view(),
{
    let mut r: Vec<String> = Vec::new();
    let mut i: usize = 0;
    while i < v.len()
        invariant
            i <= v@.len(),
            r.deep_view() == v.deep_view().subrange(0, i as int),
        decreases v@.len() - i,
    {
        let a = v[i].clone();
        let ghost before = r@;
        let ghost before_dv = r.deep_view();
        r.push(a);
        assert(r@ == before.push(a));
        assert(r.deep_view() =~= before_dv.push(a@));
        i = i + 1;
        assert(r.deep_view() =~= v.deep_view().subrange(0, i as int));
    }
    assert(v.deep_view().subrange(0, i as int) =~= v.deep_view());
    r
}

} // verus!
