//! Guild permissions and the role hierarchy.

use std::collections::HashMap;
use vstd::prelude::*;

verus! {

broadcast use vstd::std_specs::hash::group_hash_axioms;

/// Every permission flag that Discord defines, as one bit set (what
/// `serenity::model::permissions::Permissions::all()` holds: bits 0 to 46 and
/// 48 to 50).
pub const ALL_PERMISSIONS: u64 = 0x7_7fff_ffff_ffffu64;

/// A role of a guild: its id, its place in the hierarchy and the permission
/// bits it grants.
#[derive(Clone, Copy, Debug, PartialEq, Eq)]
pub struct RoleInfo {
    pub id: u64,
    pub position: u16,
    pub permissions: u64,
}

/// A guild member as the permission rules see it: the user's id and the ids of
/// the member's roles.
#[derive(Debug)]
pub struct MemberInfo {
    pub user_id: u64,
    pub roles: Vec<u64>,
}

/// The permission bits that role `id` grants, nothing if the guild has no such
/// role.
pub open spec fn role_bits(roles: Map<u64, RoleInfo>, id: u64) -> u64 {
    if roles.contains_key(id) {
        roles[id].permissions
    } else {
        0
    }
}

/// The union of the permissions of the listed roles that the guild has,
/// folded from the first role to the last.
pub open spec fn roles_union(member_roles: Seq<u64>, roles: Map<u64, RoleInfo>) -> u64
    decreases member_roles.len(),
{
    if member_roles.len() == 0 {
        0
    } else {
        roles_union(member_roles.drop_last(), roles) | role_bits(roles, member_roles.last())
    }
}

/// The permissions of a member: every permission for the guild's owner,
/// otherwise the union of the permissions of the member's roles.
pub open spec fn member_permissions(
    member_user_id: u64,
    member_roles: Seq<u64>,
    guild_owner_id: u64,
    roles: Map<u64, RoleInfo>,
) -> u64 {
    if guild_owner_id == member_user_id {
        ALL_PERMISSIONS
    } else {
        roles_union(member_roles, roles)
    }
}

/// The permission bits a member holds in a guild.
pub fn aggregate_role_permissions(
    guild_member: &MemberInfo,
    guild_owner_id: u64,
    guild_roles: &HashMap<u64, RoleInfo>,
) -> (permissions: u64)
    ensures
        permissions == member_permissions(
            guild_member.user_id,
            guild_member.roles@,
            guild_owner_id,
            guild_roles@,
        ),
{
    if guild_owner_id == guild_member.user_id {
        return ALL_PERMISSIONS;
    }
    let roles = &guild_member.roles;
    let mut acc: u64 = 0;
    let mut i: usize = 0;
    while i < roles.len()
        invariant
            i <= roles.len(),
            acc == roles_union(roles@.subrange(0, i as int), guild_roles@),
        decreases roles.len() - i,
    {
        let bits: u64 = match guild_roles.get(&roles[i]) {
            Some(role) => role.permissions,
            None => 0,
        };
        assert(roles@.subrange(0, i + 1).drop_last() =~= roles@.subrange(0, i as int));
        acc = acc | bits;
        i += 1;
    }
    assert(roles@.subrange(0, roles.len() as int) =~= roles@);
    acc
}

proof fn lemma_or_keeps(x: u64, y: u64, c: u64)
    requires
        x & c == c,
    ensures
        (x | y) & c == c,
{
    assert((x & c == c) ==> ((x | y) & c == c)) by (bit_vector);
}

proof fn lemma_or_adds(x: u64, y: u64)
    ensures
        (x | y) & y == y,
{
    assert((x | y) & y == y) by (bit_vector);
}

/// Every role of the member that the guild has contributes all of its
/// permissions to the union.
pub proof fn lemma_roles_union_includes(member_roles: Seq<u64>, roles: Map<u64, RoleInfo>, k: int)
    requires
        0 <= k < member_roles.len(),
        roles.contains_key(member_roles[k]),
    ensures
        roles_union(member_roles, roles) & roles[member_roles[k]].permissions
            == roles[member_roles[k]].permissions,
    decreases member_roles.len(),
{
    let rest = member_roles.drop_last();
    let last_bits = role_bits(roles, member_roles.last());
    if k == member_roles.len() - 1 {
        lemma_or_adds(roles_union(rest, roles), last_bits);
    } else {
        lemma_roles_union_includes(rest, roles, k);
        assert(rest[k] == member_roles[k]);
        lemma_or_keeps(roles_union(rest, roles), last_bits, roles[member_roles[k]].permissions);
    }
}

/// A member holds every permission that any of their roles grants.
pub proof fn law_member_holds_role_permissions(
    member_user_id: u64,
    member_roles: Seq<u64>,
    guild_owner_id: u64,
    roles: Map<u64, RoleInfo>,
    k: int,
)
    requires
        0 <= k < member_roles.len(),
        roles.contains_key(member_roles[k]),
        member_user_id != guild_owner_id,
    ensures
        member_permissions(member_user_id, member_roles, guild_owner_id, roles)
            & roles[member_roles[k]].permissions == roles[member_roles[k]].permissions,
{
    lemma_roles_union_includes(member_roles, roles, k);
}

proof fn lemma_or_within(a: u64, b: u64, mask: u64)
    requires
        a & mask == a,
        b & mask == b,
    ensures
        (a | b) & mask == a | b,
{
    assert((a & mask == a && b & mask == b) ==> ((a | b) & mask == a | b)) by (bit_vector);
}

/// A member who is not the owner holds only permissions that some of their
/// roles grant: every bit outside `mask` that no role of theirs has, they lack.
pub proof fn law_member_permissions_come_from_roles(
    member_user_id: u64,
    member_roles: Seq<u64>,
    guild_owner_id: u64,
    roles: Map<u64, RoleInfo>,
    mask: u64,
)
    requires
        member_user_id != guild_owner_id,
        forall|i: int|
            0 <= i < member_roles.len() && roles.contains_key(#[trigger] member_roles[i]) ==> roles[member_roles[i]].permissions
                & mask == roles[member_roles[i]].permissions,
    ensures
        member_permissions(member_user_id, member_roles, guild_owner_id, roles) & mask == member_permissions(
            member_user_id,
            member_roles,
            guild_owner_id,
            roles,
        ),
    decreases member_roles.len(),
{
    if member_roles.len() == 0 {
        assert(0u64 & mask == 0u64) by (bit_vector);
    } else {
        let rest = member_roles.drop_last();
        assert forall|i: int|
            0 <= i < rest.len() && roles.contains_key(#[trigger] rest[i]) implies roles[rest[i]].permissions & mask
            == roles[rest[i]].permissions by {
            assert(rest[i] == member_roles[i]);
        }
        law_member_permissions_come_from_roles(member_user_id, rest, guild_owner_id, roles, mask);
        let last = member_roles[member_roles.len() - 1];
        if !roles.contains_key(last) {
            assert(0u64 & mask == 0u64) by (bit_vector);
        }
        lemma_or_within(roles_union(rest, roles), role_bits(roles, last), mask);
    }
}

/// The guild's owner holds every permission, whatever their roles.
pub proof fn law_owner_holds_all_permissions(
    owner_id: u64,
    member_roles: Seq<u64>,
    roles: Map<u64, RoleInfo>,
)
    ensures
        member_permissions(owner_id, member_roles, owner_id, roles) == ALL_PERMISSIONS,
{
}

/// A member none of whose roles the guild has, and who is not the owner, holds
/// no permission.
pub proof fn law_no_roles_no_permissions(
    member_user_id: u64,
    member_roles: Seq<u64>,
    guild_owner_id: u64,
    roles: Map<u64, RoleInfo>,
)
    requires
        member_user_id != guild_owner_id,
        forall|i: int| 0 <= i < member_roles.len() ==> !roles.contains_key(#[trigger] member_roles[i]),
    ensures
        member_permissions(member_user_id, member_roles, guild_owner_id, roles) == 0,
    decreases member_roles.len(),
{
    if member_roles.len() > 0 {
        let rest = member_roles.drop_last();
        assert forall|i: int| 0 <= i < rest.len() implies !roles.contains_key(#[trigger] rest[i]) by {
            assert(rest[i] == member_roles[i]);
        }
        law_no_roles_no_permissions(member_user_id, rest, guild_owner_id, roles);
        assert(!roles.contains_key(member_roles[member_roles.len() - 1]));
        assert(0u64 | 0u64 == 0u64) by (bit_vector);
    }
}

/// How far `r1` stands above `r2`: the difference of their positions, or, at
/// the same position, the difference of their ids taken the other way round
/// (the older role ranks higher). Ids are read as `i64`, as `i64::from` on a
/// role id does.
pub open spec fn role_order(r1: RoleInfo, r2: RoleInfo) -> int {
    if r1.position == r2.position {
        (r2.id as i64) - (r1.id as i64)
    } else {
        r1.position - r2.position
    }
}

/// Whether `role_order` can be computed without an overflow: positions are
/// subtracted as `u16` and ids as `i64`.
pub open spec fn role_order_computable(r1: RoleInfo, r2: RoleInfo) -> bool {
    if r1.position == r2.position {
        i64::MIN <= (r2.id as i64) - (r1.id as i64) <= i64::MAX
    } else {
        r1.position > r2.position
    }
}

/// Compares the places of two roles of the guild in the hierarchy: positive
/// when `role1` stands above `role2`.
pub fn compare_role_position(guild_roles: &HashMap<u64, RoleInfo>, role1: u64, role2: u64) -> (order: i64)
    requires
        guild_roles@.contains_key(role1),
        guild_roles@.contains_key(role2),
        role_order_computable(guild_roles@[role1], guild_roles@[role2]),
    ensures
        order == role_order(guild_roles@[role1], guild_roles@[role2]),
{
    let r1 = match guild_roles.get(&role1) {
        Some(r) => *r,
        None => RoleInfo { id: 0, position: 0, permissions: 0 },
    };
    let r2 = match guild_roles.get(&role2) {
        Some(r) => *r,
        None => RoleInfo { id: 0, position: 0, permissions: 0 },
    };
    if r1.position == r2.position {
        return (r2.id as i64) - (r1.id as i64);
    }
    (r1.position - r2.position) as i64
}

/// A role compared with itself is level.
pub proof fn law_role_order_reflexive(r: RoleInfo)
    ensures
        role_order_computable(r, r),
        role_order(r, r) == 0,
{
}

/// At the same position, comparing two roles one way gives the opposite of
/// comparing them the other way.
pub proof fn law_role_order_antisymmetric(r1: RoleInfo, r2: RoleInfo)
    requires
        r1.position == r2.position,
    ensures
        role_order(r1, r2) == -role_order(r2, r1),
{
}

/// A role stands above another (their comparison is positive) exactly when its
/// position is higher, or, at the same position, its id (read as `i64`) is
/// smaller; when the positions differ the comparison is their difference.
pub proof fn law_role_order_sign(r1: RoleInfo, r2: RoleInfo)
    ensures
        role_order(r1, r2) > 0 <==> (r1.position > r2.position || (r1.position == r2.position && (r1.id as i64)
            < (r2.id as i64))),
        role_order(r1, r2) < 0 <==> (r1.position < r2.position || (r1.position == r2.position && (r1.id as i64)
            > (r2.id as i64))),
        r1.position != r2.position ==> role_order(r1, r2) == (r1.position as int) - (r2.position as int),
{
}

/// A guild as the hierarchy rules see it: its id (also the id of its
/// `@everyone` role), its owner and its roles by id.
#[derive(Debug)]
pub struct GuildInfo {
    pub id: u64,
    pub owner_id: u64,
    pub roles: HashMap<u64, RoleInfo>,
}

/// A member's standing in the hierarchy: the user's id, whether the member has
/// any role, and the id of the member's highest role as the guild's cache
/// reports it.
#[derive(Clone, Copy, Debug)]
pub struct RankedMember {
    pub user_id: u64,
    pub has_roles: bool,
    pub highest_role: Option<u64>,
}

/// The role that ranks a member: the highest one, or the guild's `@everyone`
/// role (whose id is the guild's) for a member without roles.
pub open spec fn ranking_role(guild_id: u64, m: RankedMember) -> u64 {
    if m.has_roles {
        m.highest_role.unwrap()
    } else {
        guild_id
    }
}

/// Whether the hierarchy has to be consulted to decide if the bot (user
/// `me_id`) can manage user `member_id`: neither is the owner and they are
/// different users.
pub open spec fn needs_hierarchy(owner_id: u64, me_id: u64, member_id: u64) -> bool {
    member_id != owner_id && member_id != me_id && me_id != owner_id
}

/// Whether the hierarchy has to be consulted to decide if the bot (user
/// `me_id`) can manage user `member_id` in `guild`.
pub fn hierarchy_needed(guild: &GuildInfo, me_id: u64, member_id: u64) -> (b: bool)
    ensures
        b == needs_hierarchy(guild.owner_id, me_id, member_id),
{
    member_id != guild.owner_id && member_id != me_id && me_id != guild.owner_id
}

/// What deciding by the hierarchy needs: the ranking roles are known and in the
/// guild, and comparing them does not overflow.
pub open spec fn hierarchy_decidable(guild: &GuildInfo, me: RankedMember, member: RankedMember) -> bool {
    &&& me.has_roles ==> me.highest_role is Some
    &&& member.has_roles ==> member.highest_role is Some
    &&& guild.roles@.contains_key(ranking_role(guild.id, me))
    &&& guild.roles@.contains_key(ranking_role(guild.id, member))
    &&& role_order_computable(
        guild.roles@[ranking_role(guild.id, me)],
        guild.roles@[ranking_role(guild.id, member)],
    )
}

/// Whether the bot (`me`) can manage `member`: never the owner or itself; every
/// other member when the bot owns the guild; otherwise exactly the members
/// whose ranking role stands below the bot's.
pub open spec fn manageable(guild: &GuildInfo, me: RankedMember, member: RankedMember) -> bool {
    if member.user_id == guild.owner_id {
        false
    } else if member.user_id == me.user_id {
        false
    } else if me.user_id == guild.owner_id {
        true
    } else {
        role_order(
            guild.roles@[ranking_role(guild.id, me)],
            guild.roles@[ranking_role(guild.id, member)],
        ) > 0
    }
}

fn ranking_role_of(guild_id: u64, m: &RankedMember) -> (id: u64)
    requires
        m.has_roles ==> m.highest_role is Some,
    ensures
        id == ranking_role(guild_id, *m),
{
    if !m.has_roles {
        guild_id
    } else {
        match m.highest_role {
            Some(r) => r,
            None => guild_id,
        }
    }
}

/// Whether the bot (`me`) can manage (ban, kick, mute) `member` in `guild`.
pub fn member_managable(guild: &GuildInfo, me: &RankedMember, member: &RankedMember) -> (b: bool)
    requires
        needs_hierarchy(guild.owner_id, me.user_id, member.user_id) ==> hierarchy_decidable(guild, *me, *member),
    ensures
        b == manageable(guild, *me, *member),
{
    if member.user_id == guild.owner_id {
        return false;
    }
    if member.user_id == me.user_id {
        return false;
    }
    if me.user_id == guild.owner_id {
        return true;
    }
    let highest_me_role = ranking_role_of(guild.id, me);
    let member_highest_role = ranking_role_of(guild.id, member);
    compare_role_position(&guild.roles, highest_me_role, member_highest_role) > 0
}

/// Nobody can manage the guild's owner, and the bot cannot manage itself.
pub proof fn law_owner_and_self_unmanageable(guild: &GuildInfo, me: RankedMember, member: RankedMember)
    requires
        member.user_id == guild.owner_id || member.user_id == me.user_id,
    ensures
        !manageable(guild, me, member),
{
}

/// A bot that owns the guild can manage every other member.
pub proof fn law_owner_bot_manages_others(guild: &GuildInfo, me: RankedMember, member: RankedMember)
    requires
        me.user_id == guild.owner_id,
        member.user_id != me.user_id,
    ensures
        manageable(guild, me, member),
{
}

/// A member ranked by the same role as the bot cannot be managed by it, unless
/// the bot owns the guild.
pub proof fn law_equal_rank_unmanageable(guild: &GuildInfo, me: RankedMember, member: RankedMember)
    requires
        me.user_id != guild.owner_id,
        ranking_role(guild.id, me) == ranking_role(guild.id, member),
    ensures
        !manageable(guild, me, member),
{
}

/// When neither is the owner and they differ, the bot can manage the member
/// exactly when the bot's ranking role has a higher position, or the same
/// position and a smaller id (read as `i64`).
pub proof fn law_manageable_by_rank(guild: &GuildInfo, me: RankedMember, member: RankedMember)
    requires
        needs_hierarchy(guild.owner_id, me.user_id, member.user_id),
    ensures
        manageable(guild, me, member) <==> ({
            let mine = guild.roles@[ranking_role(guild.id, me)];
            let theirs = guild.roles@[ranking_role(guild.id, member)];
            mine.position > theirs.position || (mine.position == theirs.position && (mine.id as i64)
                < (theirs.id as i64))
        }),
{
    law_role_order_sign(
        guild.roles@[ranking_role(guild.id, me)],
        guild.roles@[ranking_role(guild.id, member)],
    );
}

/// Whether `member_managable` can decide for these members: both ranking roles
/// are known and in the guild, and comparing them does not overflow.
pub fn managability_decidable(guild: &GuildInfo, me: &RankedMember, member: &RankedMember) -> (b: bool)
    ensures
        b == (needs_hierarchy(guild.owner_id, me.user_id, member.user_id) ==> hierarchy_decidable(
            guild,
            *me,
            *member,
        )),
{
    if !hierarchy_needed(guild, me.user_id, member.user_id) {
        return true;
    }
    if (me.has_roles && me.highest_role.is_none()) || (member.has_roles && member.highest_role.is_none()) {
        return false;
    }
    let a = ranking_role_of(guild.id, me);
    let b = ranking_role_of(guild.id, member);
    match (guild.roles.get(&a), guild.roles.get(&b)) {
        (Some(r1), Some(r2)) => {
            if r1.position == r2.position {
                (r2.id as i64).checked_sub(r1.id as i64).is_some()
            } else {
                r1.position > r2.position
            }
        },
        _ => false,
    }
}

/// Whether every role of the map is filed under its own id.
pub open spec fn roles_keyed_by_id(roles: Map<u64, RoleInfo>) -> bool {
    forall|k: u64| #[trigger] roles.contains_key(k) ==> roles[k].id == k
}

proof fn lemma_i64_cast_injective(a: u64, b: u64)
    ensures
        (a as i64) == (b as i64) ==> a == b,
{
    assert((a as i64) == (b as i64) ==> a == b) by (bit_vector);
}

/// In a guild whose roles are filed under their own ids, comparing two roles
/// gives 0 exactly when they are the same role.
pub proof fn law_role_order_zero_iff_same(roles: Map<u64, RoleInfo>, role1: u64, role2: u64)
    requires
        roles_keyed_by_id(roles),
        roles.contains_key(role1),
        roles.contains_key(role2),
        role_order_computable(roles[role1], roles[role2]),
    ensures
        role_order(roles[role1], roles[role2]) == 0 <==> role1 == role2,
{
    let r1 = roles[role1];
    let r2 = roles[role2];
    assert(r1.id == role1);
    assert(r2.id == role2);
    lemma_i64_cast_injective(r1.id, r2.id);
}

} // verus!
