//! Trusted boundary to the outside crates the engine leans on: random
//! choices from `rand`, and `vec1`'s never-empty vector for tag lists.

use vstd::prelude::*;

use crate::tag::Tag;
use crate::visit::PlayerIndex;

verus! {

/// Relies on rand's `thread_rng` and `Rng::gen_range`: a uniformly chosen
/// index below `n`.  Nothing can be promised about which index comes back,
/// only that it is in range; `gen_range` panics on an empty range, so `n`
/// must be positive.
#[verifier::external_body]
pub fn choose_index(n: usize) -> (r: usize)
    requires
        n > 0,
    ensures
        r < n,
{
    rand::Rng::gen_range(&mut rand::thread_rng(), 0..n)
}

/// Relies on rand's `SliceRandom::shuffle`: a permutation of the same
/// elements in an order nothing can be promised about.
#[verifier::external_body]
pub fn shuffle_indices(v: &mut Vec<PlayerIndex>)
    ensures
        final(v)@.len() == old(v)@.len(),
        final(v)@.to_multiset() == old(v)@.to_multiset(),
{
    rand::seq::SliceRandom::shuffle(v.as_mut_slice(), &mut rand::thread_rng())
}

#[verifier::external_type_specification]
#[verifier::external_body]
#[verifier::reject_recursive_types(T)]
pub struct ExVec1<T>(vec1::Vec1<T>);

/// The tags held by a never-empty tag list, in order.
pub uninterp spec fn tag_list_contents(v: vec1::Vec1<Tag>) -> Seq<Tag>;

/// Relies on vec1's `Vec1::new`: a list holding exactly the one element.
#[verifier::external_body]
pub fn tag_list_new(t: Tag) -> (r: vec1::Vec1<Tag>)
    ensures
        tag_list_contents(r) == seq![t],
{
    vec1::Vec1::new(t)
}

/// Relies on vec1's `Vec1::push`: appends the element at the end.
#[verifier::external_body]
pub fn tag_list_push(v: &mut vec1::Vec1<Tag>, t: Tag)
    ensures
        tag_list_contents(*final(v)) == tag_list_contents(*old(v)).push(t),
{
    v.push(t)
}

/// Relies on vec1's `Vec1::len`: the number of elements, at least one.
#[verifier::external_body]
pub fn tag_list_len(v: &vec1::Vec1<Tag>) -> (r: usize)
    ensures
        r == tag_list_contents(*v).len(),
        r >= 1,
{
    v.len()
}

/// Relies on slice `contains` through vec1's `Vec1::as_slice`: whether the
/// element occurs in the list.
#[verifier::external_body]
pub fn tag_list_contains(v: &vec1::Vec1<Tag>, t: Tag) -> (r: bool)
    ensures
        r == tag_list_contents(*v).contains(t),
{
    v.as_slice().contains(&t)
}

} // verus!
