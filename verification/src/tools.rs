use crate::decimal::{decimal, format_i64};
use vstd::prelude::*;

verus! {

/// Arguments of the `echo` tool.
pub struct EchoParams {
    pub message: String,
}

/// Arguments of the `add` tool and of the JSON-RPC `add` method.
pub struct AddParams {
    pub a: i64,
    pub b: i64,
}

/// Gives back the message it was handed.
pub fn echo(message: String) -> (reply: String)
    ensures
        reply@ == message@,
{
    message
}

/// The sum of two integers; the sum must fit in an `i64`.
pub fn add(a: i64, b: i64) -> (sum: i64)
    requires
        i64::MIN <= a + b <= i64::MAX,
    ensures
        sum == a + b,
{
    a + b
}

/// The tool server: one tool that echoes, one that adds.
pub struct Tools;

impl Tools {
    /// The `echo` tool: returns the supplied message.
    pub fn echo(&self, params: EchoParams) -> (reply: String)
        ensures
            reply@ == params.message@,
    {
        self::echo(params.message)
    }

    /// The `add` tool: the decimal text of the sum of two integers.
    pub fn add(&self, params: AddParams) -> (reply: String)
        requires
            i64::MIN <= params.a + params.b <= i64::MAX,
        ensures
            reply@ == decimal(params.a + params.b),
    {
        format_i64(self::add(params.a, params.b))
    }
}

} // verus!
