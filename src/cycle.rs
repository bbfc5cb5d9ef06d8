//! Laws of the supply / decode / set / reset cycle, stated over the models
//! that the providers' and the module's contracts use.
use vstd::prelude::*;
use crate::bag::channel_id;
use crate::codec::{
    decoded_bytes, encoded_bytes, le_bytes_of_u64, lemma_short_bytes_round_trip,
    lemma_u64_round_trip,
};
use crate::pallet::{decoded_value, required_error, set_result, slot_after_set, Error, Origin};
use crate::provider::entries_after_supply;

verus! {

/// Whatever a bag held before, once a provider holding `v` has supplied to
/// it, the module decodes exactly `v` from it.
pub proof fn lemma_supply_decode_round_trip(entries: Map<Seq<u8>, Seq<u8>>, v: u64)
    ensures
        decoded_value(entries_after_supply(entries, Some(v))) == Some(v),
{
    let payload = le_bytes_of_u64(v);
    lemma_u64_round_trip(v);
    lemma_short_bytes_round_trip(payload);
    let after = entries_after_supply(entries, Some(v));
    assert(after.contains_key(channel_id()));
    assert(after[channel_id()] == encoded_bytes(payload));
    assert(decoded_bytes(after[channel_id()]) == Some(payload));
}

/// Within one block, a second `set` from the block author fails with
/// `AlreadySet` and keeps the value stored by the first, whatever the values.
pub proof fn lemma_second_set_rejected(v1: u64, v2: u64)
    ensures
        set_result(None, Origin::NoSigner) == Ok::<(), Error>(()),
        slot_after_set(None, Origin::NoSigner, v1) == Some(v1),
        set_result(slot_after_set(None, Origin::NoSigner, v1), Origin::NoSigner) == Err::<
            (),
            Error,
        >(Error::AlreadySet),
        slot_after_set(slot_after_set(None, Origin::NoSigner, v1), Origin::NoSigner, v2) == Some(
            v1,
        ),
{
}

/// `set` from a signed origin always fails and leaves the slot as it was.
pub proof fn lemma_signed_set_rejected(slot: Option<u64>, who: u64, v: u64)
    ensures
        set_result(slot, Origin::Signed(who)) == Err::<(), Error>(Error::BadOrigin),
        slot_after_set(slot, Origin::Signed(who), v) == slot,
{
}

/// The inherent is required exactly when the bag holds a decodable entry for
/// this channel: never for an empty bag, nor for an entry whose bytes do not
/// decode.
pub proof fn lemma_required_iff_decodable(entries: Map<Seq<u8>, Seq<u8>>)
    ensures
        required_error(entries) is Some <==> decoded_value(entries) is Some,
        entries.is_empty() ==> required_error(entries) is None,
        entries.contains_key(channel_id()) && decoded_bytes(entries[channel_id()]) is None
            ==> required_error(entries) is None,
{
    if entries.is_empty() {
        assert(!entries.contains_key(channel_id()));
    }
}

} // verus!
