//! Which descriptors to wait on, and which of them came back ready.
//!
//! The wait itself is a system call and not made here. What is made here is
//! the descriptor set that goes into it, and the reading of the set that
//! comes out of it.
use crate::relay::RelayEvent;
use crate::relay_model::Signal;
use nix::sys::select::FdSet;
use vstd::prelude::*;

verus! {

/// `nix::sys::select::FdSet`: a descriptor set, as `select` takes and leaves
/// it. Nothing inside it is visible here; [`members`] stands for what it
/// holds.
#[verifier::external_type_specification]
#[verifier::external_body]
pub struct ExFdSet(FdSet);

/// The least number that is too large for a descriptor in a set.
pub const DESCRIPTOR_LIMIT: i32 = 1024;

/// The descriptors that `set` holds.
pub uninterp spec fn members(set: FdSet) -> Set<int>;

/// Whether `descriptor` is one that a set can hold.
pub open spec fn watchable(descriptor: i32) -> bool {
    0 <= descriptor < DESCRIPTOR_LIMIT
}

/// Makes a set with `nix::sys::select::FdSet::new`. The contract claims
/// that the new set holds no descriptor.
#[verifier::external_body]
fn empty_set() -> (set: FdSet)
    ensures
        members(set) == Set::<int>::empty(),
{
    FdSet::new()
}

/// Adds `descriptor` to the set with `nix::sys::select::FdSet::insert`. The
/// contract claims that afterwards the set holds what it held and
/// `descriptor`. The call panics on a descriptor that no set can hold, so
/// those are left out.
#[verifier::external_body]
fn insert(set: &mut FdSet, descriptor: i32)
    requires
        watchable(descriptor),
    ensures
        members(*final(set)) == members(*old(set)).insert(descriptor as int),
{
    set.insert(descriptor)
}

/// Asks `nix::sys::select::FdSet::contains` whether the set holds
/// `descriptor`. The contract claims that the answer is membership, and that
/// the set, though taken by mutable reference, is left as it was. The call
/// panics on a descriptor that no set can hold, so those are left out.
#[verifier::external_body]
fn contains(set: &mut FdSet, descriptor: i32) -> (held: bool)
    requires
        watchable(descriptor),
    ensures
        held == members(*old(set)).contains(descriptor as int),
        members(*final(set)) == members(*old(set)),
{
    set.contains(descriptor)
}

/// Tells whether a set can hold `descriptor`.
pub fn is_watchable(descriptor: i32) -> (fits: bool)
    ensures
        fits == watchable(descriptor),
{
    0 <= descriptor && descriptor < DESCRIPTOR_LIMIT
}

/// The set to wait on: the keyboard and the master, and nothing else. It is
/// made afresh for every wait, because a wait overwrites it.
pub fn armed(keyboard: i32, master: i32) -> (set: FdSet)
    requires
        watchable(keyboard),
        watchable(master),
    ensures
        members(set) == set![keyboard as int, master as int],
{
    let mut set = empty_set();
    insert(&mut set, keyboard);
    insert(&mut set, master);
    assert(members(set) =~= set![keyboard as int, master as int]);
    set
}

/// Reads a set that a wait has left: the keyboard and the master are ready
/// exactly if the set holds them.
pub fn readiness(set: &mut FdSet, keyboard: i32, master: i32) -> (event: RelayEvent)
    requires
        watchable(keyboard),
        watchable(master),
    ensures
        event@ == (Signal::Ready {
            keyboard: members(*old(set)).contains(keyboard as int),
            master: members(*old(set)).contains(master as int),
        }),
        members(*final(set)) == members(*old(set)),
{
    let keyboard_ready = contains(set, keyboard);
    let master_ready = contains(set, master);
    RelayEvent::Ready { keyboard: keyboard_ready, master: master_ready }
}

} // verus!
