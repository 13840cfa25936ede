//! Changes to the settings of a guild.

use vstd::prelude::*;
use vstd::string::StringExecFns;
use crate::cache::GuildConfig;
use crate::text::{decimal_text, u64_to_string, Text};

verus! {

/// The settings with the announcement channel set.
pub fn set_channel(config: GuildConfig, channel_id: u64) -> (changed: GuildConfig)
    ensures
        changed == (GuildConfig { announcement_channel_id: Some(channel_id), ..config }),
{
    GuildConfig { announcement_channel_id: Some(channel_id), ping_role_id: config.ping_role_id }
}

/// The settings with the ping role set.
pub fn set_role(config: GuildConfig, role_id: u64) -> (changed: GuildConfig)
    ensures
        changed == (GuildConfig { ping_role_id: Some(role_id), ..config }),
{
    GuildConfig {
        announcement_channel_id: config.announcement_channel_id,
        ping_role_id: Some(role_id),
    }
}

/// The settings without an announcement channel.
pub fn clear_channel(config: GuildConfig) -> (changed: GuildConfig)
    ensures
        changed == (GuildConfig { announcement_channel_id: None, ..config }),
{
    GuildConfig { announcement_channel_id: None, ping_role_id: config.ping_role_id }
}

/// The settings without a ping role.
pub fn clear_role(config: GuildConfig) -> (changed: GuildConfig)
    ensures
        changed == (GuildConfig { ping_role_id: None, ..config }),
{
    GuildConfig { announcement_channel_id: config.announcement_channel_id, ping_role_id: None }
}

/// How a channel is shown: as a mention, or as not set.
pub open spec fn channel_shown(channel: Option<u64>) -> Text {
    match channel {
        Some(id) => "<#"@ + decimal_text(id as int) + ">"@,
        None => "Not set (command channel)"@,
    }
}

/// How a role is shown: as a mention, or as not set.
pub open spec fn role_shown(role: Option<u64>) -> Text {
    match role {
        Some(id) => "<@&"@ + decimal_text(id as int) + ">"@,
        None => "Not set (default participant)"@,
    }
}

/// The settings as they are shown to an administrator.
pub open spec fn settings_shown(config: GuildConfig) -> Text {
    "**⚙️ Current Configuration**\n\n**Channels**\n📢 Announcement: "@ + channel_shown(
        config.announcement_channel_id,
    ) + "\n\n**Roles**\n🔔 Ping Role: "@ + role_shown(config.ping_role_id)
}

/// Writes the settings out for an administrator to read.
pub fn view(config: &GuildConfig) -> (content: String)
    ensures
        content@ == settings_shown(*config),
{
    let mut content = String::from_str(
        "**⚙️ Current Configuration**\n\n**Channels**\n📢 Announcement: ",
    );
    match config.announcement_channel_id {
        Some(id) => {
            let digits = u64_to_string(id);
            content.append("<#");
            content.append(digits.as_str());
            content.append(">");
        },
        None => {
            content.append("Not set (command channel)");
        },
    }
    content.append("\n\n**Roles**\n🔔 Ping Role: ");
    match config.ping_role_id {
        Some(id) => {
            let digits = u64_to_string(id);
            content.append("<@&");
            content.append(digits.as_str());
            content.append(">");
        },
        None => {
            content.append("Not set (default participant)");
        },
    }
    content
}

} // verus!
