//! The greeting itself: what is written for a given name.

use vstd::prelude::*;

verus! {

/// The words that stand before the name.
pub open spec fn greeting_prefix() -> Seq<char> {
    seq!['H', 'e', 'l', 'l', 'o', ',', ' ']
}

/// The line that greets `name`: the prefix, the name as it is, and an
/// exclamation mark.
pub open spec fn greeting_line(name: Seq<char>) -> Seq<char> {
    greeting_prefix() + name + seq!['!']
}

/// Everything that one greeting puts on the output stream: the line and the
/// newline that ends it.
pub open spec fn greeting_output(name: Seq<char>) -> Seq<char> {
    greeting_line(name).push('\n')
}

/// Builds the text that greets `input`, ready to be written out.
///
/// The name is taken as it is: nothing is trimmed, escaped or checked.
pub fn hello(input: &str) -> (out: String)
    ensures
        out@ == greeting_output(input@),
{
    let mut out = String::from_str("Hello, ");
    out.append(input);
    out.append("!\n");
    proof {
        reveal_strlit("Hello, ");
        reveal_strlit("!\n");
        assert(out@ =~= greeting_output(input@));
    }
    out
}

/// Asking again changes nothing: two calls of [`hello`] on the same name
/// return the same text.
pub proof fn lemma_hello_repeats(input: &str, first: String, second: String)
    requires
        call_ensures(hello, (input,), first),
        call_ensures(hello, (input,), second),
    ensures
        first@ == second@,
{
}

} // verus!
