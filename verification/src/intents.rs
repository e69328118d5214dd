//! The gateway intents that the bot asks for: every intent that Discord does
//! not count as privileged, and the content of messages.

use vstd::prelude::*;

verus! {

/// The intent for the members of a guild. Privileged.
pub const GUILD_MEMBERS: u64 = 0x2;

/// The intent for the presence of the members of a guild. Privileged.
pub const GUILD_PRESENCES: u64 = 0x100;

/// The intent for the content of messages. Privileged.
pub const MESSAGE_CONTENT: u64 = 0x8000;

/// Every intent that is not privileged: of the bits 0 to 16, 20 and 21, all
/// but the three above.
pub const NON_PRIVILEGED: u64 = 0x317EFD;

/// The intents that the bot asks for.
pub const REQUESTED: u64 = 0x31FEFD;

/// The bits of serenity's `GatewayIntents::non_privileged()`.
///
/// Not proved: the value. serenity declares the intents as the flags at bits
/// 0 to 16, 20 and 21, and makes `non_privileged()` the complement of
/// `GUILD_MEMBERS`, `GUILD_PRESENCES` and `MESSAGE_CONTENT`, cut down to the
/// declared flags.
#[verifier::external_body]
fn non_privileged_bits() -> (bits: u64)
    ensures
        bits == NON_PRIVILEGED,
{
    poise::serenity_prelude::GatewayIntents::non_privileged().bits()
}

/// The bits of serenity's `GatewayIntents::MESSAGE_CONTENT`.
///
/// Not proved: the value. serenity declares the flag as `1 << 15`.
#[verifier::external_body]
fn message_content_bits() -> (bits: u64)
    ensures
        bits == MESSAGE_CONTENT,
{
    poise::serenity_prelude::GatewayIntents::MESSAGE_CONTENT.bits()
}

/// The intents to connect with, as the bits of a gateway identify: the
/// non-privileged ones together with the content of messages. Of the
/// privileged intents it holds the content of messages and no other.
pub fn gateway_intents() -> (bits: u64)
    ensures
        bits == REQUESTED,
        bits == NON_PRIVILEGED | MESSAGE_CONTENT,
        bits & MESSAGE_CONTENT == MESSAGE_CONTENT,
        bits & GUILD_MEMBERS == 0,
        bits & GUILD_PRESENCES == 0,
{
    let bits = non_privileged_bits() | message_content_bits();
    assert(0x317EFDu64 | 0x8000u64 == 0x31FEFDu64) by (bit_vector);
    assert(0x31FEFDu64 & 0x8000u64 == 0x8000u64) by (bit_vector);
    assert(0x31FEFDu64 & 0x2u64 == 0) by (bit_vector);
    assert(0x31FEFDu64 & 0x100u64 == 0) by (bit_vector);
    bits
}

} // verus!
