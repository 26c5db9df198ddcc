//! The intents of a session: which groups of events the client asks for.
//!
//! On the wire the intents are one number in which every intent has a bit of
//! its own. Here they are a set.

use vstd::prelude::*;

verus! {

/// A group of events that a client can ask for.
#[derive(Clone, Copy, Debug, PartialEq, Eq, Structural)]
pub enum Intents {
    Guilds,
    GuildMembers,
    GuildModeration,
    GuildExpressions,
    GuildIntegrations,
    GuildWebhooks,
    GuildInvites,
    GuildVoiceStates,
    GuildPresences,
    GuildMessages,
    GuildMessageReactions,
    GuildMessageTyping,
    DirectMessages,
    DirectMessageReactions,
    DirectMessageTyping,
    MessageContent,
    GuildScheduledEvents,
    AutoModerationConfiguration,
    GuildMessagePolls,
    DirectMessagePolls,
}

/// The position of an intent's bit.
pub open spec fn position_of(intent: Intents) -> u32 {
    match intent {
        Intents::Guilds => 0,
        Intents::GuildMembers => 1,
        Intents::GuildModeration => 2,
        Intents::GuildExpressions => 3,
        Intents::GuildIntegrations => 4,
        Intents::GuildWebhooks => 5,
        Intents::GuildInvites => 6,
        Intents::GuildVoiceStates => 7,
        Intents::GuildPresences => 8,
        Intents::GuildMessages => 9,
        Intents::GuildMessageReactions => 10,
        Intents::GuildMessageTyping => 11,
        Intents::DirectMessages => 12,
        Intents::DirectMessageReactions => 13,
        Intents::DirectMessageTyping => 14,
        Intents::MessageContent => 15,
        Intents::GuildScheduledEvents => 16,
        Intents::AutoModerationConfiguration => 20,
        Intents::GuildMessagePolls => 24,
        Intents::DirectMessagePolls => 25,
    }
}

/// The number that stands for an intent alone.
pub open spec fn mask_of(intent: Intents) -> u32 {
    match intent {
        Intents::Guilds => 0x1,
        Intents::GuildMembers => 0x2,
        Intents::GuildModeration => 0x4,
        Intents::GuildExpressions => 0x8,
        Intents::GuildIntegrations => 0x10,
        Intents::GuildWebhooks => 0x20,
        Intents::GuildInvites => 0x40,
        Intents::GuildVoiceStates => 0x80,
        Intents::GuildPresences => 0x100,
        Intents::GuildMessages => 0x200,
        Intents::GuildMessageReactions => 0x400,
        Intents::GuildMessageTyping => 0x800,
        Intents::DirectMessages => 0x1000,
        Intents::DirectMessageReactions => 0x2000,
        Intents::DirectMessageTyping => 0x4000,
        Intents::MessageContent => 0x8000,
        Intents::GuildScheduledEvents => 0x1_0000,
        Intents::AutoModerationConfiguration => 0x10_0000,
        Intents::GuildMessagePolls => 0x100_0000,
        Intents::DirectMessagePolls => 0x200_0000,
    }
}

/// Whether a number has the bit at a position set.
pub open spec fn has_bit(bits: u32, position: u32) -> bool {
    bits & (1u32 << position) != 0
}

/// The intents that a number stands for.
pub open spec fn intents_in(bits: u32) -> Set<Intents> {
    Set::new(|intent: Intents| has_bit(bits, position_of(intent)))
}

/// The number of an intent is the single bit at its position.
pub proof fn lemma_mask_is_one_bit(intent: Intents)
    ensures
        mask_of(intent) == 1u32 << position_of(intent),
        position_of(intent) < 32,
{
    assert(0x1u32 == 1u32 << 0u32 && 0x2u32 == 1u32 << 1u32 && 0x4u32 == 1u32 << 2u32 && 0x8u32
        == 1u32 << 3u32 && 0x10u32 == 1u32 << 4u32 && 0x20u32 == 1u32 << 5u32 && 0x40u32 == 1u32
        << 6u32 && 0x80u32 == 1u32 << 7u32 && 0x100u32 == 1u32 << 8u32 && 0x200u32 == 1u32 << 9u32
        && 0x400u32 == 1u32 << 10u32 && 0x800u32 == 1u32 << 11u32 && 0x1000u32 == 1u32 << 12u32
        && 0x2000u32 == 1u32 << 13u32 && 0x4000u32 == 1u32 << 14u32 && 0x8000u32 == 1u32 << 15u32
        && 0x1_0000u32 == 1u32 << 16u32 && 0x10_0000u32 == 1u32 << 20u32 && 0x100_0000u32 == 1u32
        << 24u32 && 0x200_0000u32 == 1u32 << 25u32) by (bit_vector);
}

/// Setting one bit sets that bit and leaves every other as it was; a number
/// without bits has none set.
proof fn lemma_setting_a_bit(bits: u32, p: u32, q: u32)
    requires
        p < 32,
        q < 32,
    ensures
        has_bit(bits | (1u32 << p), q) == (has_bit(bits, q) || p == q),
        !has_bit(0, q),
{
    assert(((bits | (1u32 << p)) & (1u32 << q) != 0) == ((bits & (1u32 << q) != 0) || p == q))
        by (bit_vector)
        requires
            p < 32,
            q < 32,
    ;
    assert(0u32 & (1u32 << q) == 0) by (bit_vector);
}

impl Intents {
    /// The number that stands for this intent alone.
    pub fn bits(self) -> (bits: u32)
        ensures
            bits == mask_of(self),
    {
        match self {
            Intents::Guilds => 0x1,
            Intents::GuildMembers => 0x2,
            Intents::GuildModeration => 0x4,
            Intents::GuildExpressions => 0x8,
            Intents::GuildIntegrations => 0x10,
            Intents::GuildWebhooks => 0x20,
            Intents::GuildInvites => 0x40,
            Intents::GuildVoiceStates => 0x80,
            Intents::GuildPresences => 0x100,
            Intents::GuildMessages => 0x200,
            Intents::GuildMessageReactions => 0x400,
            Intents::GuildMessageTyping => 0x800,
            Intents::DirectMessages => 0x1000,
            Intents::DirectMessageReactions => 0x2000,
            Intents::DirectMessageTyping => 0x4000,
            Intents::MessageContent => 0x8000,
            Intents::GuildScheduledEvents => 0x1_0000,
            Intents::AutoModerationConfiguration => 0x10_0000,
            Intents::GuildMessagePolls => 0x100_0000,
            Intents::DirectMessagePolls => 0x200_0000,
        }
    }
}

/// A set of intents, kept as the number that goes on the wire.
#[derive(Clone, Copy, Debug)]
pub struct IntentSet {
    bits: u32,
}

impl View for IntentSet {
    type V = Set<Intents>;

    closed spec fn view(&self) -> Set<Intents> {
        intents_in(self.bits)
    }
}

impl IntentSet {
    /// The number that goes on the wire.
    pub closed spec fn wire(&self) -> u32 {
        self.bits
    }

    /// No intent at all.
    pub fn empty() -> (set: IntentSet)
        ensures
            set@ == Set::<Intents>::empty(),
            set.wire() == 0,
    {
        proof {
            assert forall|intent: Intents| !has_bit(0, position_of(intent)) by {
                lemma_mask_is_one_bit(intent);
                lemma_setting_a_bit(0, 0, position_of(intent));
            }
            assert(intents_in(0) =~= Set::<Intents>::empty());
        }
        IntentSet { bits: 0 }
    }

    /// The intents that a number stands for. Bits that stand for no intent
    /// are kept as they are.
    pub fn from_bits(bits: u32) -> (set: IntentSet)
        ensures
            set@ == intents_in(bits),
            set.wire() == bits,
    {
        IntentSet { bits }
    }

    /// The number that goes on the wire.
    pub fn bits(&self) -> (bits: u32)
        ensures
            bits == self.wire(),
            intents_in(bits) == self@,
    {
        self.bits
    }

    /// This set and one more intent.
    pub fn with(self, intent: Intents) -> (set: IntentSet)
        ensures
            set@ == self@.insert(intent),
            set.wire() == self.wire() | mask_of(intent),
    {
        let mask = intent.bits();
        proof {
            lemma_mask_is_one_bit(intent);
            assert forall|other: Intents|
                has_bit(self.bits | mask, position_of(other)) == (has_bit(
                    self.bits,
                    position_of(other),
                ) || other == intent) by {
                lemma_mask_is_one_bit(other);
                lemma_setting_a_bit(self.bits, position_of(intent), position_of(other));
            }
            assert(intents_in(self.bits | mask) =~= intents_in(self.bits).insert(intent));
        }
        IntentSet { bits: self.bits | mask }
    }

    /// Whether an intent is in this set.
    pub fn contains(&self, intent: Intents) -> (found: bool)
        ensures
            found == self@.contains(intent),
    {
        proof {
            lemma_mask_is_one_bit(intent);
        }
        self.bits & intent.bits() != 0
    }
}

} // verus!
