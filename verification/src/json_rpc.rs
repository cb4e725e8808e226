use crate::tools::AddParams;
use vstd::prelude::*;

verus! {

/// The JSON-RPC `add` method: the sum of the two parameters, which must fit
/// in an `i64`.
pub fn add(params: AddParams) -> (sum: i64)
    requires
        i64::MIN <= params.a + params.b <= i64::MAX,
    ensures
        sum == params.a + params.b,
{
    params.a + params.b
}

} // verus!
