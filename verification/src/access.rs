//! Who may use which command.

use vstd::prelude::*;

verus! {

/// What the platform tells about the member who gave a command.
#[derive(Debug)]
pub struct Member {
    /// The roles of the member.
    pub roles: Vec<u64>,
    /// Whether the member administers the guild, where the platform says.
    pub administrator: Option<bool>,
}

/// Where a command came from, measured against the guild it is meant for.
#[derive(Debug, Clone, Copy, PartialEq, Eq, Structural)]
pub enum GuildCheck {
    /// The command came from the guild.
    Allowed,
    /// The command came in a direct message.
    DirectMessage,
    /// The command came from another guild.
    WrongGuild,
}

/// What a check of a role gave.
#[derive(Debug, Clone, Copy, PartialEq, Eq, Structural)]
pub enum RoleCheck {
    /// The member has the role or administers the guild.
    Allowed,
    /// The command did not come from the guild.
    OutsideGuild(GuildCheck),
    /// The platform does not know the member.
    MemberUnknown,
    /// The member has neither the role nor the administration.
    Denied,
}

/// Where a command from `guild` stands against the guild `target`.
pub open spec fn guild_checked(guild: Option<u64>, target: u64) -> GuildCheck {
    match guild {
        None => GuildCheck::DirectMessage,
        Some(id) => if id == target {
            GuildCheck::Allowed
        } else {
            GuildCheck::WrongGuild
        },
    }
}

/// Whether a member administers the guild; a member of whom the platform
/// does not say so does not.
pub open spec fn administers(administrator: Option<bool>) -> bool {
    administrator == Some(true)
}

/// What checking a role gives: the guild is looked at first, then the
/// member has to be known, then the role or the administration decides.
pub open spec fn role_checked(
    guild: Option<u64>,
    target: u64,
    member: Option<(Seq<u64>, Option<bool>)>,
    role: u64,
) -> RoleCheck {
    if guild_checked(guild, target) != GuildCheck::Allowed {
        RoleCheck::OutsideGuild(guild_checked(guild, target))
    } else {
        match member {
            None => RoleCheck::MemberUnknown,
            Some((roles, administrator)) => if roles.contains(role) || administers(
                administrator,
            ) {
                RoleCheck::Allowed
            } else {
                RoleCheck::Denied
            },
        }
    }
}

/// What the contracts see of a member.
pub open spec fn member_view(member: Option<&Member>) -> Option<(Seq<u64>, Option<bool>)> {
    match member {
        Some(m) => Some((m.roles@, m.administrator)),
        None => None,
    }
}

/// Checks that a command came from the guild it is meant for.
pub fn check_guild(guild: Option<u64>, target: u64) -> (check: GuildCheck)
    ensures
        check == guild_checked(guild, target),
{
    match guild {
        None => GuildCheck::DirectMessage,
        Some(id) => {
            if id == target {
                GuildCheck::Allowed
            } else {
                GuildCheck::WrongGuild
            }
        },
    }
}

/// Checks that the member who gave a command administers the guild; a
/// member that the platform does not know does not.
pub fn check_admin(member: Option<&Member>) -> (admin: bool)
    ensures
        admin == match member {
            Some(m) => administers(m.administrator),
            None => false,
        },
{
    match member {
        Some(m) => match m.administrator {
            Some(yes) => yes,
            None => false,
        },
        None => false,
    }
}

/// Whether the member has the role.
pub fn has_role(member: &Member, role: u64) -> (yes: bool)
    ensures
        yes == member.roles@.contains(role),
{
    let mut i: usize = 0;
    while i < member.roles.len()
        invariant
            i <= member.roles.len(),
            forall|j: int| 0 <= j < i ==> member.roles@[j] != role,
        decreases member.roles.len() - i,
    {
        if member.roles[i] == role {
            return true;
        }
        i += 1;
    }
    false
}

/// Checks that a command came from the guild and from a member who has the
/// role or administers the guild.
pub fn check_role(guild: Option<u64>, target: u64, member: Option<&Member>, role: u64) -> (check:
    RoleCheck)
    ensures
        check == role_checked(guild, target, member_view(member), role),
{
    match check_guild(guild, target) {
        GuildCheck::Allowed => match member {
            None => RoleCheck::MemberUnknown,
            Some(m) => {
                if has_role(m, role) || check_admin(member) {
                    RoleCheck::Allowed
                } else {
                    RoleCheck::Denied
                }
            },
        },
        other => RoleCheck::OutsideGuild(other),
    }
}

/// Checks that a command came from staff with the quest-giver role.
pub fn check_quest_role(
    guild: Option<u64>,
    target: u64,
    member: Option<&Member>,
    quest_giver_role: u64,
) -> (check: RoleCheck)
    ensures
        check == role_checked(guild, target, member_view(member), quest_giver_role),
{
    check_role(guild, target, member, quest_giver_role)
}

/// Checks that a command came from a member with the participant role.
pub fn check_participant_role(
    guild: Option<u64>,
    target: u64,
    member: Option<&Member>,
    participant_role: u64,
) -> (check: RoleCheck)
    ensures
        check == role_checked(guild, target, member_view(member), participant_role),
{
    check_role(guild, target, member, participant_role)
}

} // verus!
