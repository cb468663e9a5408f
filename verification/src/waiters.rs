//! The parties that wait for room to open a stream, by their open tokens.

use vstd::prelude::*;

verus! {

/// A `smallvec::SmallVec` of open tokens that keeps the first five without
/// allocating.
#[verifier::external_body]
pub struct WaiterList {
    inner: smallvec::SmallVec<[u64; 5]>,
}

/// The tokens a list holds, in the order in which they were registered.
pub uninterp spec fn waiting_tokens(list: WaiterList) -> Seq<u64>;

/// `SmallVec::new`: the contract claims that the new list holds nothing.
#[verifier::external_body]
pub(crate) fn waiters_new() -> (list: WaiterList)
    ensures
        waiting_tokens(list) == Seq::<u64>::empty(),
{
    WaiterList { inner: smallvec::SmallVec::new() }
}

/// `SmallVec::push`: the contract claims that the token is appended behind
/// those the list held.
#[verifier::external_body]
pub(crate) fn waiters_push(list: &mut WaiterList, token: u64)
    ensures
        waiting_tokens(*final(list)) == waiting_tokens(*old(list)).push(token),
{
    list.inner.push(token)
}

/// `SmallVec::len`: the contract claims that it is the number of tokens held.
#[verifier::external_body]
pub(crate) fn waiters_len(list: &WaiterList) -> (n: usize)
    ensures
        n == waiting_tokens(*list).len(),
{
    list.inner.len()
}

/// `SmallVec::drain` over the whole list: the contract claims that every
/// token comes out, in order, and that the list is empty afterwards.
#[verifier::external_body]
pub(crate) fn waiters_take(list: &mut WaiterList) -> (tokens: Vec<u64>)
    ensures
        tokens@ == waiting_tokens(*old(list)),
        waiting_tokens(*final(list)) == Seq::<u64>::empty(),
{
    list.inner.drain(..).collect()
}

} // verus!
