//! Staff permission checks against the Discord role ids configured per rank.
use vstd::prelude::*;
use crate::model::{role_rank, StaffRole};

verus! {

/// The Discord role ids configured for each staff rank.
#[derive(Clone, Copy)]
pub struct ConfiguredRoles<'a> {
    pub helper: &'a [u64],
    pub moderator: &'a [u64],
    pub gm: &'a [u64],
    pub legacy_staff: &'a [u64],
    pub admin: &'a [u64],
    pub owner: &'a [u64],
}

/// The role ids that grant a rank of at least `minimum`: those of every rank from
/// `minimum` up (legacy staff ids count as helper), owner ids always.
pub open spec fn allowed_role_ids(minimum: StaffRole, roles: ConfiguredRoles<'_>) -> Seq<u64> {
    let r = role_rank(minimum);
    (if r <= 0 { roles.helper@ + roles.legacy_staff@ } else { Seq::empty() }) + (if r <= 1 {
        roles.moderator@
    } else {
        Seq::empty()
    }) + (if r <= 2 { roles.gm@ } else { Seq::empty() }) + (if r <= 3 {
        roles.admin@
    } else {
        Seq::empty()
    }) + roles.owner@
}

/// A member holds one of the role ids that grant at least `minimum`.
pub open spec fn has_role_spec(member: Seq<u64>, minimum: StaffRole, roles: ConfiguredRoles<'_>) -> bool {
    let allowed = allowed_role_ids(minimum, roles);
    allowed.len() > 0 && exists|i: int| 0 <= i < member.len() && allowed.contains(member[i])
}

fn extend_ids(out: &mut Vec<u64>, ids: &[u64])
    ensures
        final(out)@ == old(out)@ + ids@,
{
    let mut i: usize = 0;
    while i < ids.len()
        invariant
            i <= ids@.len(),
            out@ == old(out)@ + ids@.take(i as int),
        decreases ids@.len() - i,
    {
        out.push(ids[i]);
        i = i + 1;
        assert(out@ =~= old(out)@ + ids@.take(i as int));
    }
    assert(ids@.take(i as int) =~= ids@);
}

fn contains_id(ids: &[u64], id: u64) -> (r: bool)
    ensures
        r == ids@.contains(id),
{
    let mut i: usize = 0;
    while i < ids.len()
        invariant
            i <= ids@.len(),
            forall|k: int| 0 <= k < i ==> ids@[k] != id,
        decreases ids@.len() - i,
    {
        if ids[i] == id {
            assert(ids@[i as int] == id);
            return true;
        }
        i = i + 1;
    }
    false
}

pub fn has_configured_role(
    member_role_ids: &[u64],
    minimum_role: StaffRole,
    configured_roles: ConfiguredRoles<'_>,
) -> (r: bool)
    ensures
        r == has_role_spec(member_role_ids@, minimum_role, configured_roles),
{
    let rank = minimum_role.rank();
    let mut allowed: Vec<u64> = Vec::new();
    if rank <= 0 {
        extend_ids(&mut allowed, configured_roles.helper);
        extend_ids(&mut allowed, configured_roles.legacy_staff);
    }
    let ghost a1 = allowed@;
    if rank <= 1 {
        extend_ids(&mut allowed, configured_roles.moderator);
    }
    let ghost a2 = allowed@;
    if rank <= 2 {
        extend_ids(&mut allowed, configured_roles.gm);
    }
    let ghost a3 = allowed@;
    if rank <= 3 {
        extend_ids(&mut allowed, configured_roles.admin);
    }
    extend_ids(&mut allowed, configured_roles.owner);
    assert(allowed@ =~= allowed_role_ids(minimum_role, configured_roles));
    if allowed.len() == 0 {
        return false;
    }
    let mut i: usize = 0;
    while i < member_role_ids.len()
        invariant
            i <= member_role_ids@.len(),
            allowed@ == allowed_role_ids(minimum_role, configured_roles),
            forall|k: int| 0 <= k < i ==> !allowed@.contains(#[trigger] member_role_ids@[k]),
        decreases member_role_ids@.len() - i,
    {
        if contains_id(allowed.as_slice(), member_role_ids[i]) {
            return true;
        }
        i = i + 1;
    }
    false
}

/// An id grants at least `minimum`.
pub open spec fn grants(id: u64, minimum: StaffRole, roles: ConfiguredRoles<'_>) -> bool {
    let r = role_rank(minimum);
    ||| (r <= 0 && (roles.helper@.contains(id) || roles.legacy_staff@.contains(id)))
    ||| (r <= 1 && roles.moderator@.contains(id))
    ||| (r <= 2 && roles.gm@.contains(id))
    ||| (r <= 3 && roles.admin@.contains(id))
    ||| roles.owner@.contains(id)
}

proof fn lemma_concat_contains(a: Seq<u64>, b: Seq<u64>, x: u64)
    ensures
        (a + b).contains(x) <==> (a.contains(x) || b.contains(x)),
{
    if (a + b).contains(x) {
        let j = choose|j: int| 0 <= j < (a + b).len() && (a + b)[j] == x;
        if j < a.len() {
            assert(a[j] == x);
        } else {
            assert(b[j - a.len()] == x);
        }
    }
    if a.contains(x) {
        let j = choose|j: int| 0 <= j < a.len() && a[j] == x;
        assert((a + b)[j] == x);
    }
    if b.contains(x) {
        let j = choose|j: int| 0 <= j < b.len() && b[j] == x;
        assert((a + b)[j + a.len()] == x);
    }
}

proof fn lemma_empty_contains_nothing(x: u64)
    ensures
        !Seq::<u64>::empty().contains(x),
{
}

/// An id is among the allowed ones exactly when it grants the rank.
pub proof fn lemma_allowed_iff_grants(id: u64, minimum: StaffRole, roles: ConfiguredRoles<'_>)
    ensures
        allowed_role_ids(minimum, roles).contains(id) <==> grants(id, minimum, roles),
{
    let r = role_rank(minimum);
    let p1 = if r <= 0 { roles.helper@ + roles.legacy_staff@ } else { Seq::empty() };
    let p2 = if r <= 1 { roles.moderator@ } else { Seq::empty() };
    let p3 = if r <= 2 { roles.gm@ } else { Seq::empty() };
    let p4 = if r <= 3 { roles.admin@ } else { Seq::empty() };
    lemma_concat_contains(roles.helper@, roles.legacy_staff@, id);
    lemma_concat_contains(p1, p2, id);
    lemma_concat_contains(p1 + p2, p3, id);
    lemma_concat_contains(p1 + p2 + p3, p4, id);
    lemma_concat_contains(p1 + p2 + p3 + p4, roles.owner@, id);
    lemma_empty_contains_nothing(id);
}

/// Lowering the required rank never takes a permission away.
pub proof fn lemma_lower_minimum_keeps_access(
    member: Seq<u64>,
    low: StaffRole,
    high: StaffRole,
    roles: ConfiguredRoles<'_>,
)
    requires
        role_rank(low) <= role_rank(high),
        has_role_spec(member, high, roles),
    ensures
        has_role_spec(member, low, roles),
{
    let i = choose|i: int| 0 <= i < member.len() && allowed_role_ids(high, roles).contains(member[i]);
    lemma_allowed_iff_grants(member[i], high, roles);
    lemma_allowed_iff_grants(member[i], low, roles);
    assert(allowed_role_ids(low, roles).contains(member[i]));
}

/// A member holding an owner role id passes every rank check.
pub proof fn lemma_owner_passes_every_check(
    member: Seq<u64>,
    minimum: StaffRole,
    roles: ConfiguredRoles<'_>,
    i: int,
)
    requires
        0 <= i < member.len(),
        roles.owner@.contains(member[i]),
    ensures
        has_role_spec(member, minimum, roles),
{
    lemma_allowed_iff_grants(member[i], minimum, roles);
}

/// Without any configured role id, nobody passes a rank check.
pub proof fn lemma_unconfigured_roles_deny(member: Seq<u64>, minimum: StaffRole, roles: ConfiguredRoles<'_>)
    requires
        roles.helper@.len() == 0,
        roles.moderator@.len() == 0,
        roles.gm@.len() == 0,
        roles.legacy_staff@.len() == 0,
        roles.admin@.len() == 0,
        roles.owner@.len() == 0,
    ensures
        !has_role_spec(member, minimum, roles),
{
    assert(allowed_role_ids(minimum, roles).len() == 0);
}

/// The staff check of a command: without a guild member (a direct message) it fails;
/// otherwise the member's role ids must grant at least `minimum_role`.
pub fn has_staff_role(
    member_role_ids: Option<&[u64]>,
    minimum_role: StaffRole,
    configured_roles: ConfiguredRoles<'_>,
) -> (r: bool)
    ensures
        r == match member_role_ids {
            Some(ids) => has_role_spec(ids@, minimum_role, configured_roles),
            None => false,
        },
{
    match member_role_ids {
        Some(ids) => has_configured_role(ids, minimum_role, configured_roles),
        None => false,
    }
}

/// Staff access: the helper rank.
pub fn has_staff_access(member_role_ids: Option<&[u64]>, configured_roles: ConfiguredRoles<'_>) -> (r:
    bool)
    ensures
        r == match member_role_ids {
            Some(ids) => has_role_spec(ids@, StaffRole::Helper, configured_roles),
            None => false,
        },
{
    has_staff_role(member_role_ids, StaffRole::Helper, configured_roles)
}

/// The role ids configured for exactly this rank; legacy staff ids count as helper ids.
pub open spec fn own_rank_ids(rank: StaffRole, roles: ConfiguredRoles<'_>) -> Seq<u64> {
    match rank {
        StaffRole::Helper => roles.helper@ + roles.legacy_staff@,
        StaffRole::Moderator => roles.moderator@,
        StaffRole::Gm => roles.gm@,
        StaffRole::Admin => roles.admin@,
        StaffRole::Owner => roles.owner@,
    }
}

/// A member holding a role id configured for a rank passes the check for that rank,
/// and for every rank below it (helper < moderator < gm < admin < owner).
pub proof fn lemma_own_rank_ids_grant(
    member: Seq<u64>,
    rank: StaffRole,
    minimum: StaffRole,
    roles: ConfiguredRoles<'_>,
    id: u64,
)
    requires
        member.contains(id),
        own_rank_ids(rank, roles).contains(id),
        role_rank(minimum) <= role_rank(rank),
    ensures
        has_role_spec(member, minimum, roles),
{
    lemma_concat_contains(roles.helper@, roles.legacy_staff@, id);
    assert(grants(id, minimum, roles));
    lemma_allowed_iff_grants(id, minimum, roles);
    let i = choose|i: int| 0 <= i < member.len() && member[i] == id;
    assert(allowed_role_ids(minimum, roles).contains(member[i]));
}

} // verus!
