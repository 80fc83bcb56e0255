//! Packets of the game protocols: their fields, how they are written, and
//! how they are read back.

use vstd::prelude::*;
use crate::protocol::codec::{
    ReadingError, VarInt, be_bytes, bool_byte, bool_decode, i16_decode, i64_decode,
    lemma_bool_round_trip, lemma_i16_round_trip, lemma_i64_round_trip, lemma_varint_round_trip,
    read_bool, read_i16_be, read_i64_be, read_var_int, unsigned_of, unsigned_of_i16,
    unsigned_of_i64, varint_bytes, varint_decode, write_bool, write_i16_be, write_i64_be,
    write_var_int,
};

verus! {

/// The hotbar slot a player selects.
#[derive(Clone, Copy, PartialEq, Eq, Debug, Structural)]
pub struct SSetHeldItem {
    pub slot: i16,
}

impl SSetHeldItem {
    /// The packet's bytes.
    pub open spec fn encoding(self) -> Seq<u8> {
        be_bytes(unsigned_of_i16(self.slot), 2)
    }

    /// What reading the packet from the front of `bytes` gives: the packet
    /// and the number of bytes used.
    pub open spec fn decode(bytes: Seq<u8>) -> Result<(SSetHeldItem, nat), ReadingError> {
        match i16_decode(bytes) {
            Ok(v) => Ok((SSetHeldItem { slot: v }, 2)),
            Err(e) => Err(e),
        }
    }

    pub fn read(buf: &[u8]) -> (r: Result<(SSetHeldItem, usize), ReadingError>)
        ensures
            match (r, SSetHeldItem::decode(buf@)) {
                (Ok(a), Ok(b)) => a.0 == b.0 && a.1 == b.1,
                (Err(e), Err(g)) => e == g,
                _ => false,
            },
    {
        match read_i16_be(buf) {
            Ok(v) => Ok((SSetHeldItem { slot: v }, 2)),
            Err(e) => Err(e),
        }
    }

    pub fn write_packet_data(&self, out: &mut Vec<u8>)
        ensures
            final(out)@ == old(out)@ + self.encoding(),
    {
        write_i16_be(out, self.slot);
    }
}

/// A `SSetHeldItem` read back from its bytes is the packet written.
pub proof fn lemma_set_held_item_round_trip(p: SSetHeldItem, rest: Seq<u8>)
    ensures
        SSetHeldItem::decode(p.encoding() + rest) == Ok::<(SSetHeldItem, nat), ReadingError>((p, p.encoding().len())),
{
    lemma_i16_round_trip(p.slot, rest);
}

/// A ping carrying a payload the server echoes.
#[derive(Clone, Copy, PartialEq, Eq, Debug, Structural)]
pub struct SPlayPingRequest {
    pub payload: i64,
}

impl SPlayPingRequest {
    /// The packet's bytes.
    pub open spec fn encoding(self) -> Seq<u8> {
        be_bytes(unsigned_of_i64(self.payload), 8)
    }

    /// What reading the packet from the front of `bytes` gives: the packet
    /// and the number of bytes used.
    pub open spec fn decode(bytes: Seq<u8>) -> Result<(SPlayPingRequest, nat), ReadingError> {
        match i64_decode(bytes) {
            Ok(v) => Ok((SPlayPingRequest { payload: v }, 8)),
            Err(e) => Err(e),
        }
    }

    pub fn read(buf: &[u8]) -> (r: Result<(SPlayPingRequest, usize), ReadingError>)
        ensures
            match (r, SPlayPingRequest::decode(buf@)) {
                (Ok(a), Ok(b)) => a.0 == b.0 && a.1 == b.1,
                (Err(e), Err(g)) => e == g,
                _ => false,
            },
    {
        match read_i64_be(buf) {
            Ok(v) => Ok((SPlayPingRequest { payload: v }, 8)),
            Err(e) => Err(e),
        }
    }

    pub fn write_packet_data(&self, out: &mut Vec<u8>)
        ensures
            final(out)@ == old(out)@ + self.encoding(),
    {
        write_i64_be(out, self.payload);
    }
}

/// A `SPlayPingRequest` read back from its bytes is the packet written.
pub proof fn lemma_ping_request_round_trip(p: SPlayPingRequest, rest: Seq<u8>)
    ensures
        SPlayPingRequest::decode(p.encoding() + rest) == Ok::<(SPlayPingRequest, nat), ReadingError>((p, p.encoding().len())),
{
    lemma_i64_round_trip(p.payload, rest);
}

/// Whether the player stands on the ground.
#[derive(Clone, Copy, PartialEq, Eq, Debug, Structural)]
pub struct SSetPlayerGround {
    pub on_ground: bool,
}

impl SSetPlayerGround {
    /// The packet's bytes.
    pub open spec fn encoding(self) -> Seq<u8> {
        seq![bool_byte(self.on_ground)]
    }

    /// What reading the packet from the front of `bytes` gives: the packet
    /// and the number of bytes used.
    pub open spec fn decode(bytes: Seq<u8>) -> Result<(SSetPlayerGround, nat), ReadingError> {
        match bool_decode(bytes) {
            Ok(v) => Ok((SSetPlayerGround { on_ground: v }, 1)),
            Err(e) => Err(e),
        }
    }

    pub fn read(buf: &[u8]) -> (r: Result<(SSetPlayerGround, usize), ReadingError>)
        ensures
            match (r, SSetPlayerGround::decode(buf@)) {
                (Ok(a), Ok(b)) => a.0 == b.0 && a.1 == b.1,
                (Err(e), Err(g)) => e == g,
                _ => false,
            },
    {
        match read_bool(buf) {
            Ok(v) => Ok((SSetPlayerGround { on_ground: v }, 1)),
            Err(e) => Err(e),
        }
    }

    pub fn write_packet_data(&self, out: &mut Vec<u8>)
        ensures
            final(out)@ == old(out)@ + self.encoding(),
    {
        write_bool(out, self.on_ground);
    }
}

/// A `SSetPlayerGround` read back from its bytes is the packet written.
pub proof fn lemma_player_ground_round_trip(p: SSetPlayerGround, rest: Seq<u8>)
    ensures
        SSetPlayerGround::decode(p.encoding() + rest) == Ok::<(SSetPlayerGround, nat), ReadingError>((p, p.encoding().len())),
{
    lemma_bool_round_trip(p.on_ground, rest);
}
/// A recipe the player has looked at in the recipe book.
#[derive(Clone, Copy, PartialEq, Eq, Debug, Structural)]
pub struct SRecipeBookSeenRecipe {
    pub recipe_display_id: VarInt,
}

impl SRecipeBookSeenRecipe {
    pub open spec fn encoding(self) -> Seq<u8> {
        varint_bytes(unsigned_of(self.recipe_display_id.0))
    }

    pub open spec fn decode(bytes: Seq<u8>) -> Result<(SRecipeBookSeenRecipe, nat), ReadingError> {
        match varint_decode(bytes) {
            Ok(v) => Ok((SRecipeBookSeenRecipe { recipe_display_id: VarInt(v.0) }, v.1)),
            Err(e) => Err(e),
        }
    }

    pub fn read(buf: &[u8]) -> (r: Result<(SRecipeBookSeenRecipe, usize), ReadingError>)
        ensures
            match (r, SRecipeBookSeenRecipe::decode(buf@)) {
                (Ok(a), Ok(b)) => a.0 == b.0 && a.1 == b.1,
                (Err(e), Err(g)) => e == g,
                _ => false,
            },
    {
        match read_var_int(buf) {
            Ok((v, n)) => Ok((SRecipeBookSeenRecipe { recipe_display_id: v }, n)),
            Err(e) => Err(e),
        }
    }

    pub fn write_packet_data(&self, out: &mut Vec<u8>)
        ensures
            final(out)@ == old(out)@ + self.encoding(),
    {
        write_var_int(out, self.recipe_display_id);
    }
}

/// A `SRecipeBookSeenRecipe` read back from its bytes is the packet written.
pub proof fn lemma_seen_recipe_round_trip(p: SRecipeBookSeenRecipe, rest: Seq<u8>)
    ensures
        SRecipeBookSeenRecipe::decode(p.encoding() + rest) == Ok::<(SRecipeBookSeenRecipe, nat), ReadingError>(
            (p, p.encoding().len()),
        ),
{
    lemma_varint_round_trip(p.recipe_display_id.0, rest);
}

/// A request to receive debug samples of one type.
#[derive(Clone, Copy, PartialEq, Eq, Debug, Structural)]
pub struct SDebugSubscriptionRequest {
    pub sample_type: VarInt,
}

impl SDebugSubscriptionRequest {
    /// The sample type of tick timings.
    pub const TICK_TIME: i32 = 0;

    pub open spec fn encoding(self) -> Seq<u8> {
        varint_bytes(unsigned_of(self.sample_type.0))
    }

    pub open spec fn decode(bytes: Seq<u8>) -> Result<(SDebugSubscriptionRequest, nat), ReadingError> {
        match varint_decode(bytes) {
            Ok(v) => Ok((SDebugSubscriptionRequest { sample_type: VarInt(v.0) }, v.1)),
            Err(e) => Err(e),
        }
    }

    pub fn read(buf: &[u8]) -> (r: Result<(SDebugSubscriptionRequest, usize), ReadingError>)
        ensures
            match (r, SDebugSubscriptionRequest::decode(buf@)) {
                (Ok(a), Ok(b)) => a.0 == b.0 && a.1 == b.1,
                (Err(e), Err(g)) => e == g,
                _ => false,
            },
    {
        match read_var_int(buf) {
            Ok((v, n)) => Ok((SDebugSubscriptionRequest { sample_type: v }, n)),
            Err(e) => Err(e),
        }
    }

    pub fn write_packet_data(&self, out: &mut Vec<u8>)
        ensures
            final(out)@ == old(out)@ + self.encoding(),
    {
        write_var_int(out, self.sample_type);
    }
}

/// A `SDebugSubscriptionRequest` read back from its bytes is the packet written.
pub proof fn lemma_debug_subscription_round_trip(p: SDebugSubscriptionRequest, rest: Seq<u8>)
    ensures
        SDebugSubscriptionRequest::decode(p.encoding() + rest) == Ok::<(SDebugSubscriptionRequest, nat), ReadingError>(
            (p, p.encoding().len()),
        ),
{
    lemma_varint_round_trip(p.sample_type.0, rest);
}

/// The client finished loading the world (no fields).
#[derive(Clone, Copy, PartialEq, Eq, Debug, Structural)]
pub struct SPlayerLoaded;

impl SPlayerLoaded {
    /// Reading uses no bytes and always succeeds.
    pub fn read(buf: &[u8]) -> (r: Result<(SPlayerLoaded, usize), ReadingError>)
        ensures
            r == Ok::<(SPlayerLoaded, usize), ReadingError>((SPlayerLoaded, 0)),
    {
        Ok((SPlayerLoaded, 0))
    }

    /// Writes nothing.
    pub fn write_packet_data(&self, out: &mut Vec<u8>)
        ensures
            final(out)@ == old(out)@,
    {
    }
}

/// Marks the start or end of a bundle of packets (no fields).
#[derive(Clone, Copy, PartialEq, Eq, Debug, Structural)]
pub struct CBundleDelimiter;

impl CBundleDelimiter {
    /// Writes nothing.
    pub fn write_packet_data(&self, out: &mut Vec<u8>)
        ensures
            final(out)@ == old(out)@,
    {
    }
}

/// Sends the client back to the configuration phase (no fields).
#[derive(Clone, Copy, PartialEq, Eq, Debug, Structural)]
pub struct CStartConfiguration;

impl CStartConfiguration {
    /// Writes nothing.
    pub fn write_packet_data(&self, out: &mut Vec<u8>)
        ensures
            final(out)@ == old(out)@,
    {
    }
}

/// Bedrock: removes a scoreboard objective from the client.
pub struct CRemoveObjective {
    pub objective_name: String,
}

/// Bedrock: the player's answer to a form.
pub struct SModalFormResponse {
    pub form_id: u32,
    /// The answer as JSON, absent when the form was closed.
    pub json_response: Option<String>,
    /// Why the form was closed, if it was.
    pub form_cancel_reason: Option<u8>,
}

} // verus!
