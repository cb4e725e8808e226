use vstd::prelude::*;
use vstd::string::*;

verus! {

/// The characters `Echo: `, which start every echoed reply.
pub open spec fn echo_prefix() -> Seq<char> {
    seq!['E', 'c', 'h', 'o', ':', ' ']
}

/// `Echo: ` followed by the given text.
pub fn echo_reply(text: &str) -> (reply: String)
    ensures
        reply@ == echo_prefix() + text@,
{
    proof {
        reveal_strlit("Echo: ");
    }
    let mut reply = String::from_str("Echo: ");
    reply.append(text);
    reply
}

} // verus!
