//! The gateway subscription: which categories of events the bot asks for
//! when it connects.

use vstd::prelude::*;

verus! {

/// Bit of the guild-messages category in an intents mask (bit 9).
pub const GUILD_MESSAGES: u64 = 0x200;

/// Bit of the message-content category in an intents mask (bit 15).
pub const MESSAGE_CONTENT: u64 = 0x8000;

/// A set of gateway intents, held as the bit mask that the gateway protocol
/// uses for it.
#[derive(Clone, Copy, Debug, PartialEq, Eq, Structural)]
pub struct Intents {
    pub bits: u64,
}

/// `serenity::model::gateway::GatewayIntents::GUILD_MESSAGES`, as its bits.
/// Trusted: the flag is declared as `1 << 9`.
#[verifier::external_body]
fn guild_messages_bits() -> (bits: u64)
    ensures
        bits == GUILD_MESSAGES,
{
    serenity::model::gateway::GatewayIntents::GUILD_MESSAGES.bits()
}

/// `serenity::model::gateway::GatewayIntents::MESSAGE_CONTENT`, as its bits.
/// Trusted: the flag is declared as `1 << 15`.
#[verifier::external_body]
fn message_content_bits() -> (bits: u64)
    ensures
        bits == MESSAGE_CONTENT,
{
    serenity::model::gateway::GatewayIntents::MESSAGE_CONTENT.bits()
}

impl Intents {
    /// Whether every category of `flags` is in this set.
    pub open spec fn contains(self, flags: u64) -> bool {
        self.bits & flags == flags
    }

    /// The subscription that [`Intents::required`] returns.
    pub open spec fn spec_required() -> Intents {
        Intents { bits: 0x8200 }
    }

    /// The fixed subscription of the bot: guild messages and message
    /// content, and nothing else.
    #[verifier::when_used_as_spec(spec_required)]
    pub fn required() -> (intents: Intents)
        ensures
            intents == Intents::spec_required(),
            intents.bits == GUILD_MESSAGES | MESSAGE_CONTENT,
            intents.contains(GUILD_MESSAGES),
            intents.contains(MESSAGE_CONTENT),
    {
        let guild: u64 = guild_messages_bits();
        let content: u64 = message_content_bits();
        assert(0x200u64 | 0x8000u64 == 0x8200u64) by (bit_vector);
        assert(0x8200u64 & 0x200u64 == 0x200u64) by (bit_vector);
        assert(0x8200u64 & 0x8000u64 == 0x8000u64) by (bit_vector);
        Intents { bits: guild | content }
    }
}

} // verus!
