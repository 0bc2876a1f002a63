use vstd::prelude::*;

verus! {

/// Which side of the re-exec the process is on.
#[derive(Clone, Copy, Debug, PartialEq, Eq, Structural)]
pub enum Stage {
    /// Launch the program again inside new namespaces and wait for it.
    Outer,
    /// Inside the namespaces: set up, then run the command.
    Inner,
}

/// What `str::to_uppercase` makes of a string.
pub uninterp spec fn upper_of(s: Seq<char>) -> Seq<char>;

/// Relies on `str::to_uppercase`: the result depends on the characters alone.
#[verifier::external_body]
fn uppercase(s: &str) -> (r: String)
    ensures
        r@ == upper_of(s@),
{
    s.to_uppercase()
}

/// The suffix of the sentinel variable's name.
pub open spec fn sentinel_suffix() -> Seq<char> {
    seq!['_', 'C', 'O', 'N', 'T', 'A', 'I', 'N', 'E', 'R', '_', 'I', 'N', 'T', 'E', 'R', 'N', 'A', 'L']
}

/// The name of the sentinel variable, given the program identifier in upper case.
pub fn sentinel_key_of(upper: &str) -> (r: String)
    ensures
        r@ == upper@ + sentinel_suffix(),
{
    let r = String::from_str(upper).concat("_CONTAINER_INTERNAL");
    proof {
        reveal_strlit("_CONTAINER_INTERNAL");
    }
    r
}

/// The name of the sentinel variable: the program identifier in upper case,
/// then `_CONTAINER_INTERNAL`.
pub fn sentinel_key(program: &str) -> (r: String)
    ensures
        r@ == upper_of(program@) + sentinel_suffix(),
{
    let upper = uppercase(program);
    sentinel_key_of(upper.as_str())
}

/// The value the sentinel variable holds inside: `<program>/<version>`.
pub fn sentinel_value(program: &str, version: &str) -> (r: String)
    ensures
        r@ == program@ + seq!['/'] + version@,
{
    let r = String::from_str(program).concat("/").concat(version);
    proof {
        reveal_strlit("/");
    }
    r
}

/// The side selected by the sentinel variable's value, if it is set: the
/// inner side only for exactly the expected value.
pub open spec fn stage_of(found: Option<Seq<char>>, expected: Seq<char>) -> Stage {
    if found == Some(expected) {
        Stage::Inner
    } else {
        Stage::Outer
    }
}

/// The inner side is selected only when the sentinel variable is present
/// with exactly the expected value; absent, or with any other value, the
/// outer side is.
pub fn select_stage(found: &Option<String>, expected: &String) -> (r: Stage)
    ensures
        r == stage_of(
            if found is Some {
                Some(found->0@)
            } else {
                None
            },
            expected@,
        ),
{
    match found {
        Some(v) => if v.eq(expected) {
            Stage::Inner
        } else {
            Stage::Outer
        },
        None => Stage::Outer,
    }
}

/// With the sentinel variable unset the outer side runs; set to exactly
/// `<program>/<version>`, the inner side; set to any other string, even
/// another version of the same program, the outer side.
pub proof fn lemma_sentinel_round_trip(program: Seq<char>, version: Seq<char>, other: Seq<char>)
    requires
        other != program + seq!['/'] + version,
    ensures
        stage_of(None, program + seq!['/'] + version) == Stage::Outer,
        stage_of(Some(program + seq!['/'] + version), program + seq!['/'] + version)
            == Stage::Inner,
        stage_of(Some(other), program + seq!['/'] + version) == Stage::Outer,
{
}

/// The command run when none is given: an interactive shell.
pub open spec fn default_command() -> Seq<char> {
    seq!['/', 'b', 'i', 'n', '/', 's', 'h']
}

/// The command to run in the container: the given arguments, or the
/// default shell when there are none.
pub fn child_command(args: Vec<String>) -> (r: Vec<String>)
    ensures
        args@.len() == 0 ==> r@.len() == 1 && r@[0]@ == default_command(),
        args@.len() > 0 ==> r@ == args@,
{
    if args.len() == 0 {
        let shell = String::from_str("/bin/sh");
        proof {
            reveal_strlit("/bin/sh");
        }
        let mut r: Vec<String> = Vec::new();
        r.push(shell);
        r
    } else {
        args
    }
}

} // verus!
