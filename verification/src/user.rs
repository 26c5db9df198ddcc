//! What the server tells about a user, as plain data.

use crate::snowflake::Snowflake;
use vstd::prelude::*;

verus! {

/// A mark on a user's account.
#[derive(Clone, Copy, Debug, PartialEq, Eq, Structural)]
pub enum UserFlags {
    Staff,
    Partner,
    HypeSquad,
    BugHunterLevel1,
    HypeSquadBravey,
    HypeSquadBrilliance,
    HypeSquadBalance,
    PremiumEarlySupporter,
    TeamPseudoUser,
    BugHunterLevel2,
    VerifiedBot,
    VerifiedDeveloper,
    CertifiedModerator,
    BotHttpInteractions,
    ActiveDeveloper,
}

/// The number that stands for a mark.
pub open spec fn flag_bits(flag: UserFlags) -> u32 {
    match flag {
        UserFlags::Staff => 0x1,
        UserFlags::Partner => 0x2,
        UserFlags::HypeSquad => 0x4,
        UserFlags::BugHunterLevel1 => 0x8,
        UserFlags::HypeSquadBravey => 0x40,
        UserFlags::HypeSquadBrilliance => 0x80,
        UserFlags::HypeSquadBalance => 0x100,
        UserFlags::PremiumEarlySupporter => 0x200,
        UserFlags::TeamPseudoUser => 0x400,
        UserFlags::BugHunterLevel2 => 0x4000,
        UserFlags::VerifiedBot => 0x1_0000,
        UserFlags::VerifiedDeveloper => 0x2_0000,
        UserFlags::CertifiedModerator => 0x4_0000,
        UserFlags::BotHttpInteractions => 0x8_0000,
        UserFlags::ActiveDeveloper => 0x40_0000,
    }
}

impl UserFlags {
    /// The number that stands for this mark.
    pub fn bits(self) -> (bits: u32)
        ensures
            bits == flag_bits(self),
    {
        match self {
            UserFlags::Staff => 0x1,
            UserFlags::Partner => 0x2,
            UserFlags::HypeSquad => 0x4,
            UserFlags::BugHunterLevel1 => 0x8,
            UserFlags::HypeSquadBravey => 0x40,
            UserFlags::HypeSquadBrilliance => 0x80,
            UserFlags::HypeSquadBalance => 0x100,
            UserFlags::PremiumEarlySupporter => 0x200,
            UserFlags::TeamPseudoUser => 0x400,
            UserFlags::BugHunterLevel2 => 0x4000,
            UserFlags::VerifiedBot => 0x1_0000,
            UserFlags::VerifiedDeveloper => 0x2_0000,
            UserFlags::CertifiedModerator => 0x4_0000,
            UserFlags::BotHttpInteractions => 0x8_0000,
            UserFlags::ActiveDeveloper => 0x40_0000,
        }
    }

    /// The mark that a number stands for: `Some` exactly for the numbers of
    /// the marks.
    pub fn from_bits(bits: u32) -> (flag: Option<UserFlags>)
        ensures
            match flag {
                Some(flag) => flag_bits(flag) == bits,
                None => forall|flag: UserFlags| flag_bits(flag) != bits,
            },
    {
        match bits {
            0x1 => Some(UserFlags::Staff),
            0x2 => Some(UserFlags::Partner),
            0x4 => Some(UserFlags::HypeSquad),
            0x8 => Some(UserFlags::BugHunterLevel1),
            0x40 => Some(UserFlags::HypeSquadBravey),
            0x80 => Some(UserFlags::HypeSquadBrilliance),
            0x100 => Some(UserFlags::HypeSquadBalance),
            0x200 => Some(UserFlags::PremiumEarlySupporter),
            0x400 => Some(UserFlags::TeamPseudoUser),
            0x4000 => Some(UserFlags::BugHunterLevel2),
            0x1_0000 => Some(UserFlags::VerifiedBot),
            0x2_0000 => Some(UserFlags::VerifiedDeveloper),
            0x4_0000 => Some(UserFlags::CertifiedModerator),
            0x8_0000 => Some(UserFlags::BotHttpInteractions),
            0x40_0000 => Some(UserFlags::ActiveDeveloper),
            _ => None,
        }
    }
}

/// The kind of subscription a user holds.
#[derive(Clone, Copy, Debug, PartialEq, Eq, Structural)]
pub enum PremiumType {
    NoPremium,
    NitroClassic,
    Nitro,
    NitroBasic,
}

/// The number that stands for a kind of subscription.
pub open spec fn premium_code(premium: PremiumType) -> u8 {
    match premium {
        PremiumType::NoPremium => 0,
        PremiumType::NitroClassic => 1,
        PremiumType::Nitro => 2,
        PremiumType::NitroBasic => 3,
    }
}

impl PremiumType {
    /// The number that stands for this kind of subscription.
    pub fn code(self) -> (code: u8)
        ensures
            code == premium_code(self),
    {
        match self {
            PremiumType::NoPremium => 0,
            PremiumType::NitroClassic => 1,
            PremiumType::Nitro => 2,
            PremiumType::NitroBasic => 3,
        }
    }

    /// The kind of subscription that a number stands for: `Some` exactly for
    /// 0 to 3.
    pub fn from_code(code: u8) -> (premium: Option<PremiumType>)
        ensures
            premium is Some <==> code <= 3,
            premium matches Some(kind) ==> premium_code(kind) == code,
    {
        match code {
            0 => Some(PremiumType::NoPremium),
            1 => Some(PremiumType::NitroClassic),
            2 => Some(PremiumType::Nitro),
            3 => Some(PremiumType::NitroBasic),
            _ => None,
        }
    }
}

/// The decoration of a user's avatar.
#[derive(Debug)]
pub struct AvatarDecorationData {
    pub asset: String,
    pub sku_id: Snowflake,
}

/// A user.
#[derive(Debug)]
pub struct User {
    pub id: String,
    pub username: String,
    pub discriminator: String,
    pub global_name: Option<String>,
    pub avatar: Option<String>,
    pub bot: Option<bool>,
    pub system: Option<bool>,
    pub mfa_enabled: Option<bool>,
    pub banner: Option<String>,
    pub accent_color: Option<u32>,
    pub locale: Option<String>,
    pub verified: Option<bool>,
    pub email: Option<String>,
    pub flags: Option<UserFlags>,
    pub premium_type: Option<PremiumType>,
    pub public_flags: Option<UserFlags>,
    pub avatar_decoration_data: Option<AvatarDecorationData>,
}

/// What `READY` tells: the session is established, and for whom.
#[derive(Debug)]
pub struct ReadyEvent {
    pub api_version: u32,
    pub user: User,
    pub guilds: serde_json::Value,
    pub session_id: String,
    pub resume_gateway_url: String,
    pub shard: Option<Vec<(u64, u64)>>,
    pub application: serde_json::Value,
}

} // verus!
