//! The off-chain side: providers that pack the held value into the bag for
//! the block being built, and tell which reported errors are theirs.
use vstd::prelude::*;
use vstd::slice::slice_to_vec;
use sp_inherents::InherentData;
use crate::bag::{bag_entries, bag_replace_bytes, channel_id, inherent_identifier, same_identifier};
use crate::codec::{encode_u64, encoded_bytes, le_bytes_of_u64, lemma_u64_round_trip};

verus! {

/// The bag entries after a provider holding `held` supplied to a bag with
/// `entries`: this channel's entry becomes the encoded value, or nothing
/// changes when no value is held.
pub open spec fn entries_after_supply(entries: Map<Seq<u8>, Seq<u8>>, held: Option<u64>) -> Map<
    Seq<u8>,
    Seq<u8>,
> {
    match held {
        Some(v) => entries.insert(channel_id(), encoded_bytes(le_bytes_of_u64(v))),
        None => entries,
    }
}

/// Store `v`, encoded, as this channel's entry of `bag`.
fn put_value(bag: &mut InherentData, v: u64)
    ensures
        bag_entries(*final(bag)) == entries_after_supply(bag_entries(*old(bag)), Some(v)),
{
    let encoded = encode_u64(v);
    proof {
        lemma_u64_round_trip(v);
    }
    bag_replace_bytes(bag, inherent_identifier(), &encoded);
}

/// A failure reported back for this channel: every one of them is fatal.
#[derive(Debug, PartialEq, Eq)]
pub struct FatalInherentError {
    /// The raw error bytes that were reported.
    pub error: Vec<u8>,
}

/// Why an incrementing provider could not supply a value.
#[derive(Clone, Copy, Debug, PartialEq, Eq, Structural)]
pub enum SupplyError {
    /// No value is held: the node was set up without one.
    MissingData,
    /// The held value is `u64::MAX` and cannot advance.
    CounterExhausted,
}

/// The provider of inherent data from the node: it holds the value, if any,
/// that goes into the next block.
pub struct ExternalDataInherentProvider(pub Option<u64>);

impl ExternalDataInherentProvider {
    /// Put the held value, encoded, into `inherent_data` under this channel's
    /// identifier, replacing what was there; with no value, leave it as it is.
    pub fn provide_inherent_data(&self, inherent_data: &mut InherentData)
        ensures
            bag_entries(*final(inherent_data)) == entries_after_supply(
                bag_entries(*old(inherent_data)),
                self.0,
            ),
    {
        match self.0 {
            Some(data) => put_value(inherent_data, data),
            None => {},
        }
    }

    /// Claim the errors reported for this channel, all of them fatal, and
    /// leave those of other channels (`None`).
    pub fn try_handle_error(&self, identifier: &[u8; 8], error: &[u8]) -> (r: Option<
        Result<(), FatalInherentError>,
    >)
        ensures
            r is None <==> identifier@ != channel_id(),
            identifier@ == channel_id() ==> (r matches Some(Err(e)) && e.error@ == error@),
    {
        let own = inherent_identifier();
        if same_identifier(identifier, &own) {
            Some(Err(FatalInherentError { error: slice_to_vec(error) }))
        } else {
            None
        }
    }
}

/// A provider whose held value advances by one each time it is supplied.
pub struct IncrementingProvider {
    pub held: Option<u64>,
}

impl IncrementingProvider {
    /// Take the held value and advance it by one: the read-then-increment
    /// step, to be done under the provider's lock. Fails, changing nothing,
    /// when no value is held or it cannot advance.
    pub fn advance(&mut self) -> (r: Result<u64, SupplyError>)
        ensures
            match old(self).held {
                None => r == Err::<u64, SupplyError>(SupplyError::MissingData),
                Some(v) => if v == u64::MAX {
                    r == Err::<u64, SupplyError>(SupplyError::CounterExhausted)
                } else {
                    r == Ok::<u64, SupplyError>(v)
                },
            },
            r matches Ok(v) ==> final(self).held == Some((v + 1) as u64),
            r is Err ==> final(self).held == old(self).held,
    {
        let current = match self.held {
            None => {
                return Err(SupplyError::MissingData);
            },
            Some(v) => v,
        };
        match current.checked_add(1) {
            None => Err(SupplyError::CounterExhausted),
            Some(next) => {
                self.held = Some(next);
                Ok(current)
            },
        }
    }

    /// Supply the held value, as `provide_inherent_data` does, and advance it
    /// by one; returns the value supplied. Fails, changing nothing, when no
    /// value is held or it cannot advance.
    pub fn supply(&mut self, inherent_data: &mut InherentData) -> (r: Result<u64, SupplyError>)
        ensures
            match old(self).held {
                None => r == Err::<u64, SupplyError>(SupplyError::MissingData),
                Some(v) => if v == u64::MAX {
                    r == Err::<u64, SupplyError>(SupplyError::CounterExhausted)
                } else {
                    r == Ok::<u64, SupplyError>(v)
                },
            },
            r matches Ok(v) ==> final(self).held == Some((v + 1) as u64) && bag_entries(
                *final(inherent_data),
            ) == entries_after_supply(bag_entries(*old(inherent_data)), Some(v)),
            r is Err ==> final(self).held == old(self).held && bag_entries(*final(inherent_data))
                == bag_entries(*old(inherent_data)),
    {
        let current = self.advance()?;
        put_value(inherent_data, current);
        Ok(current)
    }
}

} // verus!
