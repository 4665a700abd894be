use vstd::prelude::*;

use crate::entities::{ActorEntity, ActorV, CommunityEntity, CommunityV};
use crate::errors::FedError;

verus! {

/// When an actor's contribution to a community is accepted: the actor is not
/// banned from the community, and where the community restricts posting to
/// its membership, the actor holds it.
pub open spec fn trusted_spec(a: ActorV, c: CommunityV) -> bool {
    !c.banned.contains(a.id) && (!c.posting_restricted || c.members.contains(a.id))
}

/// Is this local id on the list?
fn contains_id(v: &Vec<u64>, x: u64) -> (r: bool)
    ensures
        r == v@.contains(x),
{
    let mut i: usize = 0;
    while i < v.len()
        invariant
            i <= v@.len(),
            forall|k: int| 0 <= k < i ==> v@[k] != x,
        decreases v@.len() - i,
    {
        if v[i] == x {
            proof {
                assert(v@[i as int] == x);
            }
            return true;
        }
        i = i + 1;
    }
    proof {
        assert(!v@.contains(x));
    }
    false
}

/// Trust verification, a pure predicate over already-resolved entities: the
/// check succeeds exactly when `trusted_spec` holds, and a denial is always
/// the distinct not-permitted failure.
pub fn verify_person_in_community(actor: &ActorEntity, community: &CommunityEntity) -> (r: Result<
    (),
    FedError,
>)
    ensures
        r is Ok <==> trusted_spec(actor@, community@),
        r is Err ==> r == Err::<(), FedError>(FedError::NotPermitted),
{
    if contains_id(&community.banned, actor.id) {
        return Err(FedError::NotPermitted);
    }
    if community.posting_restricted && !contains_id(&community.members, actor.id) {
        return Err(FedError::NotPermitted);
    }
    Ok(())
}

} // verus!
