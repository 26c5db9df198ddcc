use disco::intents::{IntentSet, Intents};
use disco::user::{PremiumType, UserFlags};

const ALL: [(Intents, u32); 20] = [
    (Intents::Guilds, 1 << 0),
    (Intents::GuildMembers, 1 << 1),
    (Intents::GuildModeration, 1 << 2),
    (Intents::GuildExpressions, 1 << 3),
    (Intents::GuildIntegrations, 1 << 4),
    (Intents::GuildWebhooks, 1 << 5),
    (Intents::GuildInvites, 1 << 6),
    (Intents::GuildVoiceStates, 1 << 7),
    (Intents::GuildPresences, 1 << 8),
    (Intents::GuildMessages, 1 << 9),
    (Intents::GuildMessageReactions, 1 << 10),
    (Intents::GuildMessageTyping, 1 << 11),
    (Intents::DirectMessages, 1 << 12),
    (Intents::DirectMessageReactions, 1 << 13),
    (Intents::DirectMessageTyping, 1 << 14),
    (Intents::MessageContent, 1 << 15),
    (Intents::GuildScheduledEvents, 1 << 16),
    (Intents::AutoModerationConfiguration, 1 << 20),
    (Intents::GuildMessagePolls, 1 << 24),
    (Intents::DirectMessagePolls, 1 << 25),
];

#[test]
fn every_intent_has_its_bit() {
    for (intent, bits) in ALL {
        assert_eq!(intent.bits(), bits);
    }
}

#[test]
fn a_set_holds_what_was_put_in() {
    let set = IntentSet::empty();
    assert_eq!(set.bits(), 0);
    for (intent, _) in ALL {
        assert!(!set.contains(intent));
    }
    let set = set.with(Intents::GuildMessages).with(Intents::MessageContent);
    assert_eq!(set.bits(), (1 << 9) | (1 << 15));
    for (intent, _) in ALL {
        let expected = intent == Intents::GuildMessages || intent == Intents::MessageContent;
        assert_eq!(set.contains(intent), expected);
    }
    let again = set.with(Intents::GuildMessages);
    assert_eq!(again.bits(), set.bits());
}

#[test]
fn a_set_reads_from_its_number() {
    let set = IntentSet::from_bits(0x0210_0201);
    assert_eq!(set.bits(), 0x0210_0201);
    assert!(set.contains(Intents::Guilds));
    assert!(set.contains(Intents::GuildMessages));
    assert!(set.contains(Intents::AutoModerationConfiguration));
    assert!(set.contains(Intents::DirectMessagePolls));
    assert!(!set.contains(Intents::GuildMembers));
    assert!(!set.contains(Intents::GuildMessagePolls));
    let unknown = IntentSet::from_bits(1 << 31);
    for (intent, _) in ALL {
        assert!(!unknown.contains(intent));
    }
    assert_eq!(unknown.bits(), 1 << 31);
}

#[test]
fn user_flags_read_back_from_their_numbers() {
    let all = [
        (UserFlags::Staff, 1u32 << 0),
        (UserFlags::Partner, 1 << 1),
        (UserFlags::HypeSquad, 1 << 2),
        (UserFlags::BugHunterLevel1, 1 << 3),
        (UserFlags::HypeSquadBravey, 1 << 6),
        (UserFlags::HypeSquadBrilliance, 1 << 7),
        (UserFlags::HypeSquadBalance, 1 << 8),
        (UserFlags::PremiumEarlySupporter, 1 << 9),
        (UserFlags::TeamPseudoUser, 1 << 10),
        (UserFlags::BugHunterLevel2, 1 << 14),
        (UserFlags::VerifiedBot, 1 << 16),
        (UserFlags::VerifiedDeveloper, 1 << 17),
        (UserFlags::CertifiedModerator, 1 << 18),
        (UserFlags::BotHttpInteractions, 1 << 19),
        (UserFlags::ActiveDeveloper, 1 << 22),
    ];
    for (flag, bits) in all {
        assert_eq!(flag.bits(), bits);
        assert_eq!(UserFlags::from_bits(bits), Some(flag));
    }
    for bits in [0u32, 3, 1 << 4, 1 << 5, 1 << 11, 1 << 15, 1 << 20, 1 << 21, 1 << 23, u32::MAX] {
        assert_eq!(UserFlags::from_bits(bits), None);
    }
}

#[test]
fn premium_types_read_back_from_their_codes() {
    let all = [
        (PremiumType::NoPremium, 0u8),
        (PremiumType::NitroClassic, 1),
        (PremiumType::Nitro, 2),
        (PremiumType::NitroBasic, 3),
    ];
    for (premium, code) in all {
        assert_eq!(premium.code(), code);
        assert_eq!(PremiumType::from_code(code), Some(premium));
    }
    assert_eq!(PremiumType::from_code(4), None);
    assert_eq!(PremiumType::from_code(255), None);
}
