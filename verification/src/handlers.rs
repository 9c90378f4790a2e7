//! The fixed name-to-handler table.
//!
//! A handful of native functions deviate from the default
//! zero-argument, current-player calling shape.  This table maps each such
//! (normalized) name to the adaptation strategy that gives the script
//! caller a correctly-typed signature; every name absent from the table
//! falls back to the default shape.  The table is a closed chain of
//! comparisons, so a duplicate registration for one name is impossible by
//! construction.

use vstd::prelude::*;
use vstd::string::StringSliceAdditionalSpecFns;

verus! {

/// The calling shape a script-visible symbol is given.
#[derive(Clone, Copy, PartialEq, Eq, Structural, Debug)]
pub enum HandlerShape {
    /// The fallback: no script arguments; both subject slots carry the
    /// current player and the payload is empty.
    DefaultUnit,
    /// Typed default shape: one 64-bit integer argument as payload,
    /// subjects defaulted to the current player pair.
    TypedInt,
    /// Custom shape: two explicit entity arguments, empty payload.
    TwoEntities,
    /// Custom shape: one explicit entity argument; the second subject slot
    /// is filled with the null entity, empty payload.
    EntityThenNull,
}

/// The handler table: the adaptation strategy registered for a normalized
/// name, or `None` for every name that falls back to the default shape.
pub open spec fn handler_spec(name: Seq<u8>) -> Option<HandlerShape> {
    if name == "advance_time".spec_bytes() {
        Some(HandlerShape::TypedInt)
    } else if name == "give_quest_xp".spec_bytes() {
        Some(HandlerShape::TypedInt)
    } else if name == "give_xp".spec_bytes() {
        Some(HandlerShape::TypedInt)
    } else if name == "on_info_advance_playing_time_by_hours".spec_bytes() {
        Some(HandlerShape::TypedInt)
    } else if name == "set_player_rank".spec_bytes() {
        Some(HandlerShape::TypedInt)
    } else if name == "set_target_hour".spec_bytes() {
        Some(HandlerShape::TypedInt)
    } else if name == "auto_loot".spec_bytes() {
        Some(HandlerShape::TwoEntities)
    } else if name == "kill".spec_bytes() {
        Some(HandlerShape::TwoEntities)
    } else if name == "spawn_new_entity".spec_bytes() {
        Some(HandlerShape::TwoEntities)
    } else if name == "place_summoned_party_member".spec_bytes() {
        Some(HandlerShape::TwoEntities)
    } else if name == "join_player_party".spec_bytes() {
        Some(HandlerShape::EntityThenNull)
    } else if name == "dismiss_player_party".spec_bytes() {
        Some(HandlerShape::EntityThenNull)
    } else if name == "remove_npc".spec_bytes() {
        Some(HandlerShape::EntityThenNull)
    } else {
        None
    }
}

/// The shape a symbol of the given normalized name is exported with: its
/// registered handler, or the default shape when none is registered.
pub open spec fn export_shape(name: Seq<u8>) -> HandlerShape {
    match handler_spec(name) {
        Some(shape) => shape,
        None => HandlerShape::DefaultUnit,
    }
}

/// Byte-string equality.
pub fn bytes_eq(a: &[u8], b: &[u8]) -> (r: bool)
    ensures
        r <==> a@ == b@,
{
    if a.len() != b.len() {
        assert(a@ != b@);
        return false;
    }
    let mut i: usize = 0;
    while i < a.len()
        invariant
            i <= a@.len(),
            a@.len() == b@.len(),
            forall|k: int| 0 <= k < i ==> a@[k] == b@[k],
        decreases a@.len() - i,
    {
        if a[i] != b[i] {
            assert(a@ != b@);
            return false;
        }
        i = i + 1;
    }
    assert(a@ =~= b@);
    true
}

/// Look up the handler strategy registered for a normalized name.
pub fn get_custom_handler(name: &[u8]) -> (r: Option<HandlerShape>)
    ensures
        r == handler_spec(name@),
{
    if bytes_eq(name, "advance_time".as_bytes()) {
        Some(HandlerShape::TypedInt)
    } else if bytes_eq(name, "give_quest_xp".as_bytes()) {
        Some(HandlerShape::TypedInt)
    } else if bytes_eq(name, "give_xp".as_bytes()) {
        Some(HandlerShape::TypedInt)
    } else if bytes_eq(name, "on_info_advance_playing_time_by_hours".as_bytes()) {
        Some(HandlerShape::TypedInt)
    } else if bytes_eq(name, "set_player_rank".as_bytes()) {
        Some(HandlerShape::TypedInt)
    } else if bytes_eq(name, "set_target_hour".as_bytes()) {
        Some(HandlerShape::TypedInt)
    } else if bytes_eq(name, "auto_loot".as_bytes()) {
        Some(HandlerShape::TwoEntities)
    } else if bytes_eq(name, "kill".as_bytes()) {
        Some(HandlerShape::TwoEntities)
    } else if bytes_eq(name, "spawn_new_entity".as_bytes()) {
        Some(HandlerShape::TwoEntities)
    } else if bytes_eq(name, "place_summoned_party_member".as_bytes()) {
        Some(HandlerShape::TwoEntities)
    } else if bytes_eq(name, "join_player_party".as_bytes()) {
        Some(HandlerShape::EntityThenNull)
    } else if bytes_eq(name, "dismiss_player_party".as_bytes()) {
        Some(HandlerShape::EntityThenNull)
    } else if bytes_eq(name, "remove_npc".as_bytes()) {
        Some(HandlerShape::EntityThenNull)
    } else {
        None
    }
}

/// A name registered in the handler table is never exported with the
/// default shape, and a name absent from it always is.
pub proof fn lemma_handler_selection(name: Seq<u8>)
    ensures
        handler_spec(name) is Some <==> export_shape(name) != HandlerShape::DefaultUnit,
{
}

} // verus!
