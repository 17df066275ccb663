//! The role-based rule that decides whether a member may use stickers at all in a
//! community.
use vstd::prelude::*;

verus! {

/// Some role of `roles` is among the roles `held` by the requester.
pub open spec fn holds_any(roles: Seq<u64>, held: Seq<u64>) -> bool {
    exists|i: int| 0 <= i < roles.len() && held.contains(#[trigger] roles[i])
}

/// The access rule: a held blacklisted role denies; else an empty whitelist admits
/// everyone; else the requester must hold a whitelisted role.
pub open spec fn allowed(whitelisted: Seq<u64>, blacklisted: Seq<u64>, held: Seq<u64>) -> bool {
    !holds_any(blacklisted, held) && (whitelisted.len() == 0 || holds_any(whitelisted, held))
}

fn holds(held: &Vec<u64>, role: u64) -> (r: bool)
    ensures
        r == held@.contains(role),
{
    let mut i: usize = 0;
    while i < held.len()
        invariant
            i <= held@.len(),
            forall|j: int| 0 <= j < i ==> held@[j] != role,
        decreases held@.len() - i,
    {
        if held[i] == role {
            return true;
        }
        i = i + 1;
    }
    false
}

/// Whether the requester, holding the roles `held`, holds any of `roles`.
pub fn holds_any_of(roles: &Vec<u64>, held: &Vec<u64>) -> (r: bool)
    ensures
        r == holds_any(roles@, held@),
{
    let mut i: usize = 0;
    while i < roles.len()
        invariant
            i <= roles@.len(),
            forall|j: int| 0 <= j < i ==> !held@.contains(#[trigger] roles@[j]),
        decreases roles@.len() - i,
    {
        if holds(held, roles[i]) {
            return true;
        }
        i = i + 1;
    }
    false
}

/// Whether a requester holding the roles `held` may use stickers, under the
/// given whitelist and blacklist.
pub fn access_allowed(whitelisted: &Vec<u64>, blacklisted: &Vec<u64>, held: &Vec<u64>) -> (r: bool)
    ensures
        r == allowed(whitelisted@, blacklisted@, held@),
{
    // a blacklisted role blocks, whatever the whitelist says
    if holds_any_of(blacklisted, held) {
        return false;
    }
    if whitelisted.len() == 0 {
        return true;
    }
    holds_any_of(whitelisted, held)
}

} // verus!
