//! The per-block inherent data bag, an outside collection of encoded
//! entries keyed by channel identifier, and this channel's identifier.
use vstd::prelude::*;
use sp_inherents::InherentData;
use crate::codec::{decoded_bytes, encoded_bytes};

verus! {

#[verifier::external_type_specification]
#[verifier::external_body]
pub struct ExInherentData(sp_inherents::InherentData);

/// The entries of a bag: for each identifier, the encoded bytes stored under it.
pub uninterp spec fn bag_entries(d: InherentData) -> Map<Seq<u8>, Seq<u8>>;

/// The identifier of this channel: the ASCII bytes `ext_data`.
pub const INHERENT_IDENTIFIER: [u8; 8] = [101, 120, 116, 95, 100, 97, 116, 97];

/// This channel's identifier as a sequence of bytes.
pub open spec fn channel_id() -> Seq<u8> {
    seq![101u8, 120u8, 116u8, 95u8, 100u8, 97u8, 116u8, 97u8]
}

/// The identifier of this channel.
pub fn inherent_identifier() -> (r: [u8; 8])
    ensures
        r@ == channel_id(),
{
    let r = INHERENT_IDENTIFIER;
    assert(r@ =~= channel_id());
    r
}

/// Whether two identifiers hold the same bytes.
pub fn same_identifier(a: &[u8; 8], b: &[u8; 8]) -> (r: bool)
    ensures
        r == (a@ == b@),
{
    let mut i: usize = 0;
    while i < 8
        invariant
            0 <= i <= 8,
            a@.len() == 8,
            b@.len() == 8,
            forall|j: int| 0 <= j < i ==> a@[j] == b@[j],
        decreases 8 - i,
    {
        if a[i] != b[i] {
            return false;
        }
        i = i + 1;
    }
    assert(a@ =~= b@);
    true
}

/// Relies on `InherentData::replace_data` with a `Vec<u8>`: the entry under
/// `identifier` becomes the vector's SCALE encoding, whether or not one was
/// there. The encoding panics on a vector longer than `u32::MAX`.
#[verifier::external_body]
pub(crate) fn bag_replace_bytes(bag: &mut InherentData, identifier: [u8; 8], payload: &Vec<u8>)
    requires
        payload@.len() <= u32::MAX,
    ensures
        bag_entries(*final(bag)) == bag_entries(*old(bag)).insert(identifier@, encoded_bytes(payload@)),
{
    bag.replace_data(identifier, payload)
}

/// Relies on `InherentData::get_data` with a `Vec<u8>`: `Ok(None)` with no
/// entry under `identifier`, else the vector SCALE-decoded from the entry,
/// or an error where it does not decode (here `None`).
#[verifier::external_body]
pub(crate) fn bag_get_bytes(bag: &InherentData, identifier: &[u8; 8]) -> (r: Option<Option<Vec<u8>>>)
    ensures
        !bag_entries(*bag).contains_key(identifier@) ==> r matches Some(None),
        bag_entries(*bag).contains_key(identifier@) ==> match decoded_bytes(bag_entries(*bag)[identifier@]) {
            Some(p) => r matches Some(Some(v)) && v@ == p,
            None => r is None,
        },
{
    bag.get_data::<Vec<u8>>(identifier).ok()
}

} // verus!
