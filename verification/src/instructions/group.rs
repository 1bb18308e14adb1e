//! Groups and their members.

use vstd::prelude::*;
use crate::address::Address;
use crate::constants::{
    ENTRY_PAY, MAX_DESCRIPTION_LENGTH, MAX_ENTRY_REQUIREMENT, MAX_GROUP_PRIVACY, MAX_NAME_LENGTH,
    ROLE_ADMIN, ROLE_MEMBER, ROLE_OWNER,
};
use crate::errors::SocialFiError;
use crate::events::{GroupCreated, MemberJoined, MemberKicked, MemberRoleUpdated};
use crate::state::{Group, GroupMember};
use crate::text::{byte_len, text_byte_len};

verus! {

// ==================== Create Group ====================

/// Why a group is not created, if it is not. The checks apply in this
/// order: name too long; description too long; unknown privacy setting;
/// unknown entry requirement.
pub open spec fn group_rejection(
    name: Seq<char>,
    description: Seq<char>,
    privacy: u8,
    entry_requirement: u8,
) -> Option<SocialFiError> {
    if byte_len(name) > MAX_NAME_LENGTH {
        Some(SocialFiError::GroupNameTooLong)
    } else if byte_len(description) > MAX_DESCRIPTION_LENGTH {
        Some(SocialFiError::ProposalDescriptionTooLong)
    } else if privacy > MAX_GROUP_PRIVACY {
        Some(SocialFiError::InvalidGroupPrivacy)
    } else if entry_requirement > MAX_ENTRY_REQUIREMENT {
        Some(SocialFiError::InvalidEntryRequirement)
    } else {
        None
    }
}

/// A group whose only member is its creator.
pub open spec fn founded_group(
    id: Address,
    creator: Address,
    name: String,
    description: String,
    privacy: u8,
    entry_requirement: u8,
    entry_price: Option<u64>,
    now: i64,
    bump: u8,
) -> Group {
    Group {
        id,
        name,
        description,
        creator,
        privacy,
        entry_requirement,
        entry_price,
        token_mint: None,
        nft_collection: None,
        member_count: 1,
        post_count: 0,
        created_at: now,
        bump,
    }
}

/// The membership of `wallet` in `group` with the given role, begun at
/// `now`.
pub open spec fn membership(group: Address, wallet: Address, role: u8, now: i64, bump: u8) ->
    GroupMember {
    GroupMember { group, wallet, role, joined_at: now, banned: false, bump }
}

/// What the beginning of `member`'s membership reports.
pub open spec fn joined_event(member: GroupMember) -> MemberJoined {
    MemberJoined {
        group: member.group,
        member: member.wallet,
        role: member.role,
        timestamp: member.joined_at,
    }
}

/// Everything the founding of a group yields.
#[derive(Clone, Debug, PartialEq, Eq)]
pub struct GroupFounded {
    pub group: Group,
    /// The creator's membership, as owner.
    pub owner: GroupMember,
    pub created: GroupCreated,
    pub joined: MemberJoined,
}

/// Founds a group under the identity `id`, with `creator` as its owner and
/// first member.
pub fn create_group(
    id: Address,
    creator: Address,
    name: String,
    description: String,
    privacy: u8,
    entry_requirement: u8,
    entry_price: Option<u64>,
    now: i64,
    group_bump: u8,
    member_bump: u8,
) -> (r: Result<GroupFounded, SocialFiError>)
    ensures
        match group_rejection(name@, description@, privacy, entry_requirement) {
            Some(e) => r is Err && r->Err_0 == e,
            None => r is Ok && r->Ok_0.group == founded_group(
                id,
                creator,
                name,
                description,
                privacy,
                entry_requirement,
                entry_price,
                now,
                group_bump,
            ) && r->Ok_0.owner == membership(id, creator, ROLE_OWNER, now, member_bump)
                && r->Ok_0.created == (GroupCreated {
                group: id,
                creator,
                name,
                privacy,
                timestamp: now,
            }) && r->Ok_0.joined == joined_event(r->Ok_0.owner),
        },
{
    if text_byte_len(name.as_str()) > MAX_NAME_LENGTH {
        return Err(SocialFiError::GroupNameTooLong);
    }
    if text_byte_len(description.as_str()) > MAX_DESCRIPTION_LENGTH {
        return Err(SocialFiError::ProposalDescriptionTooLong);
    }
    if privacy > MAX_GROUP_PRIVACY {
        return Err(SocialFiError::InvalidGroupPrivacy);
    }
    if entry_requirement > MAX_ENTRY_REQUIREMENT {
        return Err(SocialFiError::InvalidEntryRequirement);
    }
    let created = GroupCreated { group: id, creator, name: name.clone(), privacy, timestamp: now };
    let group = Group {
        id,
        name,
        description,
        creator,
        privacy,
        entry_requirement,
        entry_price,
        token_mint: None,
        nft_collection: None,
        member_count: 1,
        post_count: 0,
        created_at: now,
        bump: group_bump,
    };
    let owner = GroupMember {
        group: id,
        wallet: creator,
        role: ROLE_OWNER,
        joined_at: now,
        banned: false,
        bump: member_bump,
    };
    let joined = MemberJoined { group: id, member: creator, role: ROLE_OWNER, timestamp: now };
    Ok(GroupFounded { group, owner, created, joined })
}

// ==================== Join Group ====================

/// What a new member owes the group's creator on entry: the entry price
/// where the group asks for payment and names a price, nothing otherwise.
pub open spec fn entry_fee(group: Group) -> Option<u64> {
    if group.entry_requirement == ENTRY_PAY {
        group.entry_price
    } else {
        None
    }
}

/// Everything an entry into a group yields.
#[derive(Clone, Copy, Debug, PartialEq, Eq)]
pub struct GroupJoined {
    pub member: GroupMember,
    pub joined: MemberJoined,
    /// What the new member owes the group's creator, if anything.
    pub fee: Option<u64>,
}

/// Enters `wallet` into `group` as an ordinary member.
///
/// Rejected with `ArithmeticOverflow`, and without any change, when the
/// member count cannot grow. Otherwise the group counts one member more.
pub fn join_group(group: &mut Group, wallet: Address, now: i64, bump: u8) -> (r: Result<
    GroupJoined,
    SocialFiError,
>)
    ensures
        old(group).member_count == u64::MAX ==> r is Err && r->Err_0
            == SocialFiError::ArithmeticOverflow && *final(group) == *old(group),
        old(group).member_count < u64::MAX ==> r is Ok && r->Ok_0.member == membership(
            old(group).id,
            wallet,
            ROLE_MEMBER,
            now,
            bump,
        ) && r->Ok_0.joined == joined_event(r->Ok_0.member) && r->Ok_0.fee == entry_fee(
            *old(group),
        ) && *final(group) == (Group {
            member_count: (old(group).member_count + 1) as u64,
            ..*old(group)
        }),
{
    let member_count: u64 = match group.member_count.checked_add(1) {
        Some(v) => v,
        None => {
            return Err(SocialFiError::ArithmeticOverflow);
        },
    };
    let fee: Option<u64> = if group.entry_requirement == ENTRY_PAY {
        group.entry_price
    } else {
        None
    };
    group.member_count = member_count;
    let member = GroupMember {
        group: group.id,
        wallet,
        role: ROLE_MEMBER,
        joined_at: now,
        banned: false,
        bump,
    };
    let joined = MemberJoined { group: group.id, member: wallet, role: ROLE_MEMBER, timestamp: now };
    Ok(GroupJoined { member, joined, fee })
}

// ==================== Update Member Role ====================

/// Why a change of role is rejected, if it is. The checks apply in this
/// order: the acting member is neither owner nor admin; the new role is not
/// admin, moderator or member; the acting member is the target.
pub open spec fn role_update_rejection(
    admin_member: GroupMember,
    target_member: GroupMember,
    new_role: u8,
) -> Option<SocialFiError> {
    if admin_member.role > ROLE_ADMIN {
        Some(SocialFiError::InsufficientPermissions)
    } else if new_role < ROLE_ADMIN || new_role > ROLE_MEMBER {
        Some(SocialFiError::InsufficientPermissions)
    } else if admin_member.wallet == target_member.wallet {
        Some(SocialFiError::CannotActOnSelf)
    } else {
        None
    }
}

/// Gives `target_member` the role `new_role` on behalf of `admin_member`.
/// On rejection nothing changes.
pub fn update_member_role(
    admin_member: &GroupMember,
    target_member: &mut GroupMember,
    new_role: u8,
    now: i64,
) -> (r: Result<MemberRoleUpdated, SocialFiError>)
    ensures
        match role_update_rejection(*admin_member, *old(target_member), new_role) {
            Some(e) => r == Err::<MemberRoleUpdated, SocialFiError>(e) && *final(target_member)
                == *old(target_member),
            None => r == Ok::<MemberRoleUpdated, SocialFiError>(
                (MemberRoleUpdated {
                    group: old(target_member).group,
                    member: old(target_member).wallet,
                    old_role: old(target_member).role,
                    new_role,
                    updated_by: admin_member.wallet,
                    timestamp: now,
                }),
            ) && *final(target_member) == (GroupMember { role: new_role, ..*old(target_member) }),
        },
{
    if !admin_member.can_manage_members() {
        return Err(SocialFiError::InsufficientPermissions);
    }
    if new_role < ROLE_ADMIN || new_role > ROLE_MEMBER {
        return Err(SocialFiError::InsufficientPermissions);
    }
    if admin_member.wallet == target_member.wallet {
        return Err(SocialFiError::CannotActOnSelf);
    }
    let old_role: u8 = target_member.role;
    target_member.role = new_role;
    Ok(
        MemberRoleUpdated {
            group: target_member.group,
            member: target_member.wallet,
            old_role,
            new_role,
            updated_by: admin_member.wallet,
            timestamp: now,
        },
    )
}

// ==================== Kick Member ====================

/// Why a removal is rejected, if it is. The checks apply in this order: the
/// acting member is neither owner nor admin; the acting member is the
/// target; the group counts no member.
pub open spec fn kick_rejection(
    group: Group,
    admin_member: GroupMember,
    target_member: GroupMember,
) -> Option<SocialFiError> {
    if admin_member.role > ROLE_ADMIN {
        Some(SocialFiError::InsufficientPermissions)
    } else if admin_member.wallet == target_member.wallet {
        Some(SocialFiError::CannotActOnSelf)
    } else if group.member_count == 0 {
        Some(SocialFiError::ArithmeticUnderflow)
    } else {
        None
    }
}

/// Removes `target_member` from `group` on behalf of `admin_member`.
///
/// On success the group counts one member fewer; dropping the membership
/// record is the caller's part. On rejection nothing changes.
pub fn kick_member(
    group: &mut Group,
    admin_member: &GroupMember,
    target_member: &GroupMember,
    now: i64,
) -> (r: Result<MemberKicked, SocialFiError>)
    ensures
        match kick_rejection(*old(group), *admin_member, *target_member) {
            Some(e) => r == Err::<MemberKicked, SocialFiError>(e) && *final(group) == *old(group),
            None => r == Ok::<MemberKicked, SocialFiError>(
                (MemberKicked {
                    group: old(group).id,
                    member: target_member.wallet,
                    kicked_by: admin_member.wallet,
                    timestamp: now,
                }),
            ) && *final(group) == (Group {
                member_count: (old(group).member_count - 1) as u64,
                ..*old(group)
            }),
        },
{
    if !admin_member.can_manage_members() {
        return Err(SocialFiError::InsufficientPermissions);
    }
    if admin_member.wallet == target_member.wallet {
        return Err(SocialFiError::CannotActOnSelf);
    }
    let member_count: u64 = match group.member_count.checked_sub(1) {
        Some(v) => v,
        None => {
            return Err(SocialFiError::ArithmeticUnderflow);
        },
    };
    group.member_count = member_count;
    Ok(
        MemberKicked {
            group: group.id,
            member: target_member.wallet,
            kicked_by: admin_member.wallet,
            timestamp: now,
        },
    )
}

} // verus!
