//! The bounded list of kitties that one account holds.

use vstd::prelude::*;
use frame_support::BoundedVec;
use frame_support::traits::ConstU32;

verus! {

/// Number of a kitty.
pub type KittyIndex = u32;

/// Largest number of kitties one account may hold.
pub const MAX_OWNER_KITTY: u32 = 3;

/// The kitties of one account, in the order the list keeps them.
pub type OwnedKitties = BoundedVec<u32, ConstU32<MAX_OWNER_KITTY>>;

/// `bounded_collections::BoundedVec`, which `frame_support` hands on.
#[verifier::external_type_specification]
#[verifier::external_body]
#[verifier::reject_recursive_types(T)]
#[verifier::reject_recursive_types(S)]
pub struct ExBoundedVec<T, S>(BoundedVec<T, S>);

/// `bounded_collections::ConstU32`, the bound of a list as a type.
#[verifier::external_type_specification]
#[verifier::external_body]
pub struct ExConstU32<const T: u32>(ConstU32<T>);

/// The numbers that a list holds, first to last.
pub uninterp spec fn owned_ids(list: BoundedVec<u32, ConstU32<MAX_OWNER_KITTY>>) -> Seq<u32>;

/// `BoundedVec::new`.
///
/// Trusted: the new list holds nothing.
#[verifier::external_body]
fn list_new() -> (list: OwnedKitties)
    ensures
        owned_ids(list) == Seq::<u32>::empty(),
{
    BoundedVec::new()
}

/// `BoundedVec::as_ref`, the list read as a slice.
///
/// Trusted: the slice is what the list holds, in its order.
#[verifier::external_body]
fn list_as_slice(list: &OwnedKitties) -> (ids: &[u32])
    ensures
        ids@ == owned_ids(*list),
{
    list.as_ref()
}

/// `BoundedVec::try_push`.
///
/// Trusted: below the bound the number is appended and `Ok` comes back; at
/// the bound the list stays as it was and the number comes back in `Err`.
#[verifier::external_body]
fn list_try_push(list: &mut OwnedKitties, id: KittyIndex) -> (pushed: Result<(), u32>)
    ensures
        pushed is Ok <==> owned_ids(*old(list)).len() < MAX_OWNER_KITTY,
        pushed is Ok ==> owned_ids(*final(list)) == owned_ids(*old(list)).push(id),
        pushed is Err ==> owned_ids(*final(list)) == owned_ids(*old(list)),
        pushed matches Err(back) ==> back == id,
{
    list.try_push(id)
}

/// `BoundedVec::swap_remove`.
///
/// Trusted: the number at `index` is taken out and returned, and the last
/// number of the list takes its place.
#[verifier::external_body]
fn list_swap_remove(list: &mut OwnedKitties, index: usize) -> (taken: KittyIndex)
    requires
        index < owned_ids(*old(list)).len(),
    ensures
        taken == owned_ids(*old(list))[index as int],
        owned_ids(*final(list)) == swap_removed(owned_ids(*old(list)), index as int),
{
    list.swap_remove(index)
}

/// `ids` after the number at `index` left and the last one took its place.
pub open spec fn swap_removed(ids: Seq<u32>, index: int) -> Seq<u32>
    recommends
        0 <= index < ids.len(),
{
    ids.update(index, ids.last()).drop_last()
}

/// Whether `index` is the first place in `ids` where `id` stands.
pub open spec fn is_first_at(ids: Seq<u32>, id: u32, index: int) -> bool {
    &&& 0 <= index < ids.len()
    &&& ids[index] == id
    &&& forall|j: int| 0 <= j < index ==> ids[j] != id
}

/// The first place in `ids` where `id` stands; meaningful when it is there.
pub open spec fn first_index(ids: Seq<u32>, id: u32) -> int {
    choose|index: int| is_first_at(ids, id, index)
}

/// `ids` after `id` left its first place and the last number moved there.
pub open spec fn without(ids: Seq<u32>, id: u32) -> Seq<u32> {
    swap_removed(ids, first_index(ids, id))
}

/// An empty list.
pub fn empty() -> (list: OwnedKitties)
    ensures
        owned_ids(list) == Seq::<u32>::empty(),
{
    list_new()
}

/// How many kitties the list holds.
pub fn count(list: &OwnedKitties) -> (n: usize)
    ensures
        n == owned_ids(*list).len(),
{
    list_as_slice(list).len()
}

/// A copy of the numbers in the list, first to last.
pub fn ids(list: &OwnedKitties) -> (ids: Vec<KittyIndex>)
    ensures
        ids@ == owned_ids(*list),
{
    let held = list_as_slice(list);
    let mut ids: Vec<KittyIndex> = Vec::new();
    let mut i: usize = 0;
    while i < held.len()
        invariant
            i <= held@.len(),
            ids@ == held@.take(i as int),
        decreases held@.len() - i,
    {
        ids.push(held[i]);
        i += 1;
    }
    ids
}

/// Where `id` first stands in the list, if it is there.
pub fn position(list: &OwnedKitties, id: KittyIndex) -> (found: Option<usize>)
    ensures
        match found {
            Some(index) => is_first_at(owned_ids(*list), id, index as int),
            None => !owned_ids(*list).contains(id),
        },
{
    let held = list_as_slice(list);
    let mut i: usize = 0;
    while i < held.len()
        invariant
            i <= held@.len(),
            held@ == owned_ids(*list),
            forall|j: int| 0 <= j < i ==> held@[j] != id,
        decreases held@.len() - i,
    {
        if held[i] == id {
            return Some(i);
        }
        i += 1;
    }
    None
}

/// Appends `id` unless the list is full; says whether it did.
pub fn try_add(list: &mut OwnedKitties, id: KittyIndex) -> (added: bool)
    ensures
        added <==> owned_ids(*old(list)).len() < MAX_OWNER_KITTY,
        added ==> owned_ids(*final(list)) == owned_ids(*old(list)).push(id),
        !added ==> owned_ids(*final(list)) == owned_ids(*old(list)),
{
    list_try_push(list, id).is_ok()
}

/// Takes `id` out of the list, the last number moving into its place; says
/// whether it was there.
pub fn take_out(list: &mut OwnedKitties, id: KittyIndex) -> (taken: bool)
    ensures
        taken <==> owned_ids(*old(list)).contains(id),
        taken ==> owned_ids(*final(list)) == without(owned_ids(*old(list)), id),
        !taken ==> owned_ids(*final(list)) == owned_ids(*old(list)),
{
    match position(list, id) {
        Some(index) => {
            let _ = list_swap_remove(list, index);
            true
        },
        None => false,
    }
}

/// In a list without repeats a number stands first where it stands at all.
pub proof fn lemma_first_index_of_member(ids: Seq<u32>, id: u32)
    requires
        ids.no_duplicates(),
        ids.contains(id),
    ensures
        is_first_at(ids, id, first_index(ids, id)),
{
    let index = choose|index: int| 0 <= index < ids.len() && ids[index] == id;
    assert(is_first_at(ids, id, index));
}

/// Appending a number that a list without repeats does not hold keeps it
/// without repeats, and adds that number and no other.
pub proof fn lemma_push_fresh(ids: Seq<u32>, id: u32)
    requires
        ids.no_duplicates(),
        !ids.contains(id),
    ensures
        ids.push(id).no_duplicates(),
        forall|other: u32|
            #[trigger] ids.push(id).contains(other) <==> ids.contains(other) || other == id,
{
    let pushed = ids.push(id);
    assert forall|other: u32| ids.contains(other) || other == id implies pushed.contains(
        other,
    ) by {
        if ids.contains(other) {
            let index = choose|index: int| 0 <= index < ids.len() && ids[index] == other;
            assert(pushed[index] == other);
        } else {
            assert(pushed[ids.len() as int] == id);
        }
    }
}

/// Taking a number out of a list without repeats leaves a list without
/// repeats, one shorter, that holds the other numbers and not this one.
pub proof fn lemma_without(ids: Seq<u32>, id: u32)
    requires
        ids.no_duplicates(),
        ids.contains(id),
    ensures
        without(ids, id).len() == ids.len() - 1,
        without(ids, id).no_duplicates(),
        forall|other: u32|
            #[trigger] without(ids, id).contains(other) <==> ids.contains(other) && other != id,
{
    lemma_first_index_of_member(ids, id);
    let gap = first_index(ids, id);
    let rest = without(ids, id);
    assert forall|other: u32| ids.contains(other) && other != id implies rest.contains(other) by {
        let index = choose|index: int| 0 <= index < ids.len() && ids[index] == other;
        if index == ids.len() - 1 {
            assert(rest[gap] == other);
        } else {
            assert(rest[index] == other);
        }
    }
}

} // verus!
