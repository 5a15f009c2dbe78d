//! The decisions of the create, edit and delete commands, and the choice of
//! editor.
use vstd::prelude::*;

use crate::command::AwsSM;
use crate::search::{chars_of, lower_of, lowercase};
use crate::error::AsmError;
use crate::secret::{string_or_empty, text_or_empty, Secret};
use crate::value::{get_secret_value, plain_value_text};

verus! {

/// `prefix` begins `s`.
pub open spec fn starts_with_seq(s: Seq<char>, prefix: Seq<char>) -> bool {
    prefix.len() <= s.len() && s.subrange(0, prefix.len() as int) == prefix
}

/// A reply to the deletion question that agrees: exactly `y`, or any reply
/// whose lower-case form begins with `yes`.
pub open spec fn is_confirmation(reply: Seq<char>) -> bool {
    reply == "y"@ || starts_with_seq(lower_of(reply), "yes"@)
}

/// The argument that hands the tool the contents of the file at `path`.
pub open spec fn file_url_of(path: Seq<char>) -> Seq<char> {
    "file://"@ + path
}

/// The arguments of a create call for a secret named `name` whose value is in
/// the file at `path`.
pub open spec fn create_args(name: Seq<char>, path: Seq<char>, description: Option<String>) -> Seq<
    Seq<char>,
> {
    seq!["--name"@, name, "--secret-string"@, file_url_of(path)] + match description {
        Some(d) => seq!["--description"@, d@],
        None => Seq::<Seq<char>>::empty(),
    }
}

/// The arguments of an update call that sets the value of the secret `arn`,
/// or its description where `description` is set, from the file at `path`.
pub open spec fn update_args(arn: Seq<char>, path: Seq<char>, description: bool) -> Seq<Seq<char>> {
    seq![
        "--secret-id"@,
        arn,
        if description {
            "--description"@
        } else {
            "--secret-string"@
        },
        file_url_of(path),
    ]
}

/// The editor named by `visual`, else by `editor`, else `vi`.
pub open spec fn editor_of(visual: Option<String>, editor: Option<String>) -> Seq<char> {
    match visual {
        Some(v) => v@,
        None => match editor {
            Some(e) => e@,
            None => "vi"@,
        },
    }
}

/// Whether `prefix` begins `s`.
pub fn starts_with_chars(s: &str, prefix: &str) -> (r: bool)
    ensures
        r == starts_with_seq(s@, prefix@),
{
    let sv = chars_of(s);
    let pv = chars_of(prefix);
    if pv.len() > sv.len() {
        return false;
    }
    let mut k: usize = 0;
    while k < pv.len()
        invariant
            sv@ == s@,
            pv@ == prefix@,
            pv@.len() <= sv@.len(),
            k <= pv@.len(),
            forall|j: int| 0 <= j < k ==> sv@[j] == pv@[j],
        decreases pv@.len() - k,
    {
        if sv[k] != pv[k] {
            assert(s@.subrange(0, prefix@.len() as int)[k as int] != prefix@[k as int]);
            return false;
        }
        k = k + 1;
    }
    assert(s@.subrange(0, prefix@.len() as int) =~= prefix@);
    true
}

/// Whether `a` and `b` hold the same characters.
pub fn same_text(a: &str, b: &str) -> (r: bool)
    ensures
        r == (a@ == b@),
{
    if a.unicode_len() != b.unicode_len() {
        return false;
    }
    let r = starts_with_chars(a, b);
    assert(r == (a@ == b@)) by {
        if r {
            assert(a@.subrange(0, b@.len() as int) =~= a@);
        }
        if a@ == b@ {
            assert(a@.subrange(0, b@.len() as int) =~= b@);
        }
    }
    r
}

/// Whether the reply to the deletion question agrees to delete.
pub fn confirms_deletion(reply: &str) -> (r: bool)
    ensures
        r == is_confirmation(reply@),
{
    if same_text(reply, "y") {
        return true;
    }
    let lower = lowercase(reply);
    starts_with_chars(lower.as_str(), "yes")
}

/// The argument that hands the tool the contents of the file at `path`.
pub fn file_url(path: &str) -> (r: String)
    ensures
        r@ == file_url_of(path@),
{
    let mut r = String::from_str("file://");
    r.append(path);
    r
}

/// Whether two byte strings are equal.
fn same_bytes(a: &Vec<u8>, b: &Vec<u8>) -> (r: bool)
    ensures
        r == (a@ == b@),
{
    if a.len() != b.len() {
        return false;
    }
    let mut k: usize = 0;
    while k < a.len()
        invariant
            a@.len() == b@.len(),
            k <= a@.len(),
            forall|j: int| 0 <= j < k ==> a@[j] == b@[j],
        decreases a@.len() - k,
    {
        if a[k] != b[k] {
            return false;
        }
        k = k + 1;
    }
    assert(a@ =~= b@);
    true
}

/// The call that creates a secret named `secret_name` from the file at
/// `path`, once the editor has been closed. Where the file no longer exists
/// the user has abandoned the secret and no call is made.
pub fn create_secret(secret_name: &str, description: &Option<String>, path: &str, file_exists: bool) -> (r: Option<AwsSM>)
    ensures
        !file_exists ==> r is None,
        file_exists ==> (r matches Some(c) && c.subcommand@ == "create-secret"@
            && c.arguments.deep_view() == create_args(secret_name@, path@, *description)),
{
    if !file_exists {
        return None;
    }
    let mut args = vec![
        String::from_str("--name"),
        String::from_str(secret_name),
        String::from_str("--secret-string"),
        file_url(path),
    ];
    match description {
        Some(d) => {
            args.push(String::from_str("--description"));
            args.push(d.clone());
        },
        None => {},
    }
    assert(args.deep_view() =~= create_args(secret_name@, path@, *description));
    Some(AwsSM::new("create-secret").args(args))
}

/// The call that deletes `secret` when `reply` agrees to it; none otherwise.
pub fn delete_secret(secret: &Secret, reply: &str) -> (r: Option<AwsSM>)
    ensures
        !is_confirmation(reply@) ==> r is None,
        is_confirmation(reply@) ==> (r matches Some(c) && c.subcommand@ == "delete-secret"@
            && c.arguments.deep_view() == seq!["--secret-id"@, secret.arn@]),
{
    if !confirms_deletion(reply) {
        return None;
    }
    let args = vec![String::from_str("--secret-id"), secret.arn.clone()];
    assert(args.deep_view() =~= seq!["--secret-id"@, secret.arn@]);
    Some(AwsSM::new("delete-secret").args(args))
}

/// The call that stores an edit of `secret`: its value, or its description
/// where `edit_description` is set. `before` holds the bytes the file at
/// `path` was seeded with and `after` the file's bytes once the editor has been
/// closed; where they are the same bytes nothing changed and no call is made.
pub fn edit_secret(secret: &Secret, edit_description: bool, path: &str, before: &Vec<u8>, after: &Vec<u8>) -> (r: Option<AwsSM>)
    ensures
        before@ == after@ ==> r is None,
        before@ != after@ ==> (r matches Some(c) && c.subcommand@ == "update-secret"@
            && c.arguments.deep_view() == update_args(secret.arn@, path@, edit_description)),
{
    if same_bytes(before, after) {
        return None;
    }
    let flag = if edit_description {
        String::from_str("--description")
    } else {
        String::from_str("--secret-string")
    };
    let args = vec![String::from_str("--secret-id"), secret.arn.clone(), flag, file_url(path)];
    assert(args.deep_view() =~= update_args(secret.arn@, path@, edit_description));
    Some(AwsSM::new("update-secret").args(args))
}

/// The call that lists every secret.
pub fn list_command() -> (r: AwsSM)
    ensures
        r.subcommand@ == "list-secrets"@,
        r.arguments.deep_view() == Seq::<Seq<char>>::empty(),
{
    AwsSM::new("list-secrets")
}

/// A call of `subcommand` about the secret `arn`.
fn secret_id_command(subcommand: &str, arn: &str) -> (r: AwsSM)
    ensures
        r.subcommand@ == subcommand@,
        r.arguments.deep_view() == seq!["--secret-id"@, arn@],
{
    let args = vec![String::from_str("--secret-id"), String::from_str(arn)];
    assert(args.deep_view() =~= seq!["--secret-id"@, arn@]);
    let r = AwsSM::new(subcommand).args(args);
    assert(r.arguments.deep_view() =~= seq!["--secret-id"@, arn@]);
    r
}

/// The call that fetches the secret `arn` with its value.
pub fn get_value_command(arn: &str) -> (r: AwsSM)
    ensures
        r.subcommand@ == "get-secret-value"@,
        r.arguments.deep_view() == seq!["--secret-id"@, arn@],
{
    secret_id_command("get-secret-value", arn)
}

/// The call that describes the secret `arn`.
pub fn describe_command(arn: &str) -> (r: AwsSM)
    ensures
        r.subcommand@ == "describe-secret"@,
        r.arguments.deep_view() == seq!["--secret-id"@, arn@],
{
    secret_id_command("describe-secret", arn)
}

/// Whether editing needs the secret's value fetched first: only where the
/// value, not the description, is edited.
pub fn edit_needs_value(edit_description: bool) -> (r: bool)
    ensures
        r == !edit_description,
{
    !edit_description
}

/// The text the edit file is seeded with: the description of `secret` (empty
/// where it has none) where the description is edited, else the value of
/// `fetched`, the secret as fetched with its value, shown without colour.
pub fn edit_seed(secret: &Secret, edit_description: bool, fetched: &Option<Secret>) -> (r: Result<String, AsmError>)
    requires
        !edit_description ==> fetched is Some,
    ensures
        edit_description ==> (r matches Ok(t) && t@ == text_or_empty(secret.description)),
        !edit_description ==> (r matches Ok(t) && t@ == plain_value_text(
            text_or_empty(fetched->Some_0.value),
        )),
{
    if edit_description {
        Ok(string_or_empty(&secret.description))
    } else {
        match fetched {
            Some(f) => get_secret_value(f, false),
            None => Ok(String::new()),
        }
    }
}

/// The user's editor: the one named by `visual` (the `VISUAL` setting),
/// else by `editor` (the `EDITOR` setting), else `vi`.
pub fn get_editor(visual: Option<String>, editor: Option<String>) -> (r: String)
    ensures
        r@ == editor_of(visual, editor),
{
    match visual {
        Some(v) => v,
        None => match editor {
            Some(e) => e,
            None => String::from_str("vi"),
        },
    }
}

} // verus!
