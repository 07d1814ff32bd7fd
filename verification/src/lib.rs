//! A small greeting library.
//!
//! Given an argument vector, the program prints exactly one line: the
//! greeting `Hello, <name>!` when exactly one name was supplied, and the
//! usage line `Usage: <prog> <name>` otherwise. The functions here compute
//! that line; printing is left to the caller.

use vstd::prelude::*;

verus! {

/// The greeting for `name`: `Hello, ` and `name` and `!`, concatenated
/// exactly, with no trimming, case change or escaping.
pub open spec fn greeting(name: Seq<char>) -> Seq<char> {
    "Hello, "@ + name + "!"@
}

/// The usage line for a program invoked as `prog`: `Usage: ` and `prog`
/// and ` <name>`, concatenated exactly.
pub open spec fn usage(prog: Seq<char>) -> Seq<char> {
    "Usage: "@ + prog + " <name>"@
}

/// Builds the greeting for `name`. Total over arbitrary strings,
/// the empty string included.
pub fn say_hello(name: &str) -> (r: String)
    ensures
        r@ == greeting(name@),
{
    let mut r = String::from_str("Hello, ");
    r.append(name);
    r.append("!");
    r
}

/// Builds the usage line for a program invoked as `prog`.
pub fn usage_line(prog: &str) -> (r: String)
    ensures
        r@ == usage(prog@),
{
    let mut r = String::from_str("Usage: ");
    r.append(prog);
    r.append(" <name>");
    r
}

/// The one line the program prints for the argument vector `args`,
/// whose first element is the program's own name: the greeting for
/// `args[1]` when the vector holds the program name and exactly one
/// more argument, and the usage line otherwise, whether the extra
/// arguments are too few or too many.
pub fn response_line(args: &Vec<String>) -> (r: String)
    requires
        args@.len() >= 1,
    ensures
        args@.len() == 2 ==> r@ == greeting(args@[1]@),
        args@.len() != 2 ==> r@ == usage(args@[0]@),
{
    if args.len() == 2 {
        say_hello(args[1].as_str())
    } else {
        usage_line(args[0].as_str())
    }
}

/// The greeting is a pure function of the name: equal inputs give
/// identical output, so building the greeting twice from the same
/// name yields the same string both times.
pub proof fn lemma_greeting_deterministic(a: Seq<char>, b: Seq<char>)
    requires
        a == b,
    ensures
        greeting(a) == greeting(b),
{
}

} // verus!
