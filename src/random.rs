//! Uniform random selection of one item of a collection.
use vstd::prelude::*;
use rand::Rng;
use crate::error::ApiError;

verus! {

/// Relies on rand's `Rng::random_range` over the thread-local generator:
/// for a non-empty range `..len` it returns an index below `len` (the range
/// `IndexedRandom::choose` draws from). It panics on an empty range.
#[verifier::external_body]
fn random_index(len: usize) -> (r: usize)
    requires
        len > 0,
    ensures
        r < len,
{
    rand::rng().random_range(..len)
}

/// The item at `index`, or `None` when `index` is out of range.
pub fn take_at<T>(items: Vec<T>, index: usize) -> (r: Option<T>)
    ensures
        r == if index < items@.len() {
            Some(items@[index as int])
        } else {
            None::<T>
        },
{
    let mut items = items;
    if index < items.len() {
        Some(items.swap_remove(index))
    } else {
        None
    }
}

/// One item drawn uniformly at random, or `None` for an empty collection.
pub fn choose_random<T>(items: Vec<T>) -> (r: Option<T>)
    ensures
        r is Some <==> items@.len() > 0,
        r matches Some(x) ==> items@.contains(x),
{
    if items.len() == 0 {
        return None;
    }
    let ghost all = items@;
    let i = random_index(items.len());
    let r = take_at(items, i);
    assert(all[i as int] == r.unwrap());
    r
}

/// The message of the error for a random pick from an empty collection of `what`.
pub open spec fn nothing_found_message(what: Seq<char>) -> Seq<char> {
    seq!['N', 'o', ' '] + what + seq![' ', 'f', 'o', 'u', 'n', 'd']
}

/// One item drawn uniformly at random; an empty collection of `what` is an
/// `Unexpected` error saying "No {what} found".
pub fn pick_random<T>(items: Vec<T>, what: &str) -> (r: Result<T, ApiError>)
    ensures
        r is Ok <==> items@.len() > 0,
        r matches Ok(x) ==> items@.contains(x),
        r matches Err(e) ==> e matches ApiError::Unexpected(m) && m@ == nothing_found_message(what@),
{
    match choose_random(items) {
        Some(x) => Ok(x),
        None => {
            let mut message = String::from_str("No ");
            message.append(what);
            message.append(" found");
            proof {
                reveal_strlit("No ");
                reveal_strlit(" found");
                assert(message@ =~= nothing_found_message(what@));
            }
            Err(ApiError::Unexpected(message))
        },
    }
}

} // verus!
