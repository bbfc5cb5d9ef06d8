//! The on-chain module: one storage slot written at most once per block by
//! the block author, cleared when each block begins, plus the decisions the
//! block-validation engine asks of it.
use vstd::prelude::*;
use sp_inherents::InherentData;
use crate::bag::{bag_entries, bag_get_bytes, channel_id, inherent_identifier};
use crate::codec::{decode_u64, decoded_bytes, decoded_u64};

verus! {

/// The weight (computational cost) reported by a block hook.
pub type Weight = u64;

/// Who dispatched a call.
#[derive(Clone, Copy, Debug, PartialEq, Eq, Structural)]
pub enum Origin {
    /// The chain's root authority.
    Root,
    /// An ordinary transaction signed by the given account.
    Signed(u64),
    /// No signer: the block-construction path itself.
    NoSigner,
}

/// Why a dispatch was rejected.
#[derive(Clone, Copy, Debug, PartialEq, Eq, Structural)]
pub enum Error {
    /// The call came from an origin it does not admit.
    BadOrigin,
    /// No value is stored yet.
    NoneValue,
    /// The stored counter cannot grow any further.
    StorageOverflow,
    /// The inherent data was already set in the current block.
    AlreadySet,
}

/// What the module tells observers.
#[derive(Clone, Copy, Debug, PartialEq, Eq, Structural)]
pub enum Event {
    /// A `set` call succeeded with this value.
    InherentDataSet { data: u64 },
    /// An account stored a number.
    SomethingStored { something: u32, who: u64 },
}

/// The calls of the module.
#[derive(Clone, Copy, Debug, PartialEq, Eq, Structural)]
pub enum Call {
    /// Store the block's inherent data.
    SetInherentData { inherent_data: u64 },
}

/// The error reported when a block lacks the inherent that was offered to it.
#[derive(Clone, Copy, Debug, PartialEq, Eq, Structural)]
pub enum InherentError {
    InherentRequiredForDataPresent,
}

impl InherentError {
    /// Every error of this channel invalidates the block.
    pub fn is_fatal_error(&self) -> (r: bool)
        ensures
            r,
    {
        match self {
            InherentError::InherentRequiredForDataPresent => true,
        }
    }
}

/// The value this channel's entry in `entries` decodes to: the entry's bytes
/// hold a byte vector, which holds the value.
pub open spec fn decoded_value(entries: Map<Seq<u8>, Seq<u8>>) -> Option<u64> {
    if entries.contains_key(channel_id()) {
        match decoded_bytes(entries[channel_id()]) {
            Some(p) => decoded_u64(p),
            None => None,
        }
    } else {
        None
    }
}

/// What `is_inherent_required` reports for a bag with these entries.
pub open spec fn required_error(entries: Map<Seq<u8>, Seq<u8>>) -> Option<InherentError> {
    match decoded_value(entries) {
        Some(_) => Some(InherentError::InherentRequiredForDataPresent),
        None => None,
    }
}

/// The outcome of `set` from `origin` on a slot holding `slot`.
pub open spec fn set_result(slot: Option<u64>, origin: Origin) -> Result<(), Error> {
    if origin != Origin::NoSigner {
        Err(Error::BadOrigin)
    } else if slot is Some {
        Err(Error::AlreadySet)
    } else {
        Ok(())
    }
}

/// The slot after `set(origin, v)` on a slot holding `slot`.
pub open spec fn slot_after_set(slot: Option<u64>, origin: Origin, v: u64) -> Option<u64> {
    if set_result(slot, origin) is Ok {
        Some(v)
    } else {
        slot
    }
}

/// The module's state for the current block.
pub struct Pallet {
    /// The inherent data accepted in the current block.
    pub slot: Option<u64>,
    /// The number last stored by a signed account.
    pub something: Option<u32>,
    /// The events emitted so far, oldest first.
    pub events: Vec<Event>,
}

impl Pallet {
    /// A module with empty storage and no events.
    pub fn new() -> (r: Pallet)
        ensures
            r.slot is None,
            r.something is None,
            r.events@.len() == 0,
    {
        Pallet { slot: None, something: None, events: Vec::new() }
    }

    /// Store the block's inherent data. Only the block-construction path
    /// (no signer) may call it, and only once per block.
    pub fn set(&mut self, origin: Origin, inherent_data: u64) -> (r: Result<(), Error>)
        ensures
            r == set_result(old(self).slot, origin),
            final(self).slot == slot_after_set(old(self).slot, origin, inherent_data),
            final(self).something == old(self).something,
            r is Ok ==> final(self).events@ == old(self).events@.push(
                Event::InherentDataSet { data: inherent_data },
            ),
            r is Err ==> final(self).events@ == old(self).events@,
    {
        if origin != Origin::NoSigner {
            return Err(Error::BadOrigin);
        }
        if self.slot.is_some() {
            return Err(Error::AlreadySet);
        }
        self.slot = Some(inherent_data);
        self.events.push(Event::InherentDataSet { data: inherent_data });
        Ok(())
    }

    /// Run a call of the module from `origin`.
    pub fn dispatch(&mut self, origin: Origin, call: Call) -> (r: Result<(), Error>)
        ensures
            match call {
                Call::SetInherentData { inherent_data } => {
                    &&& r == set_result(old(self).slot, origin)
                    &&& final(self).slot == slot_after_set(old(self).slot, origin, inherent_data)
                    &&& final(self).something == old(self).something
                    &&& r is Ok ==> final(self).events@ == old(self).events@.push(
                        Event::InherentDataSet { data: inherent_data },
                    )
                    &&& r is Err ==> final(self).events@ == old(self).events@
                },
            },
    {
        match call {
            Call::SetInherentData { inherent_data } => self.set(origin, inherent_data),
        }
    }

    /// Store a number on behalf of the signed account that sent it.
    pub fn do_something(&mut self, origin: Origin, something: u32) -> (r: Result<(), Error>)
        ensures
            match origin {
                Origin::Signed(who) => {
                    &&& r is Ok
                    &&& final(self).something == Some(something)
                    &&& final(self).events@ == old(self).events@.push(
                        Event::SomethingStored { something, who },
                    )
                },
                _ => {
                    &&& r == Err::<(), Error>(Error::BadOrigin)
                    &&& final(self).something == old(self).something
                    &&& final(self).events@ == old(self).events@
                },
            },
            final(self).slot == old(self).slot,
    {
        match origin {
            Origin::Signed(who) => {
                self.something = Some(something);
                self.events.push(Event::SomethingStored { something, who });
                Ok(())
            },
            _ => Err(Error::BadOrigin),
        }
    }

    /// Add one to the stored number on behalf of a signed account; fails
    /// where nothing is stored or the number is already `u32::MAX`.
    pub fn cause_error(&mut self, origin: Origin) -> (r: Result<(), Error>)
        ensures
            r == (if !(origin is Signed) {
                Err(Error::BadOrigin)
            } else {
                match old(self).something {
                    None => Err(Error::NoneValue),
                    Some(n) => if n == u32::MAX {
                        Err(Error::StorageOverflow)
                    } else {
                        Ok(())
                    },
                }
            }),
            r is Ok ==> final(self).something == Some((old(self).something->Some_0 + 1) as u32),
            r is Err ==> final(self).something == old(self).something,
            final(self).slot == old(self).slot,
            final(self).events@ == old(self).events@,
    {
        match origin {
            Origin::Signed(_) => {},
            _ => {
                return Err(Error::BadOrigin);
            },
        }
        match self.something {
            None => Err(Error::NoneValue),
            Some(n) => match n.checked_add(1) {
                None => Err(Error::StorageOverflow),
                Some(next) => {
                    self.something = Some(next);
                    Ok(())
                },
            },
        }
    }

    /// The block hook run as each block begins: the slot is cleared,
    /// whatever it held.
    pub fn on_initialize(&mut self, block_number: u64) -> (r: Weight)
        ensures
            final(self).slot is None,
            final(self).something == old(self).something,
            final(self).events@ == old(self).events@,
            r == 0,
    {
        self.slot = None;
        0
    }

    /// The value carried by this channel's entry in `data`; `None` where
    /// the entry is missing or does not decode.
    pub fn get_and_decode_data(data: &InherentData) -> (r: Option<u64>)
        ensures
            r == decoded_value(bag_entries(*data)),
    {
        let id = inherent_identifier();
        match bag_get_bytes(data, &id) {
            Some(Some(encoded)) => decode_u64(encoded.as_slice()),
            _ => None,
        }
    }

    /// Whether a block must carry this inherent: it must when `data` holds a
    /// decodable entry for this channel, and the error names what is missing.
    pub fn is_inherent_required(data: &InherentData) -> (r: Result<Option<InherentError>, InherentError>)
        ensures
            r == Ok::<Option<InherentError>, InherentError>(required_error(bag_entries(*data))),
    {
        match Self::get_and_decode_data(data) {
            Some(_) => Ok(Some(InherentError::InherentRequiredForDataPresent)),
            None => Ok(None),
        }
    }

    /// The call that carries the decoded inherent data, if `data` holds it.
    pub fn create_inherent(data: &InherentData) -> (r: Option<Call>)
        ensures
            r == match decoded_value(bag_entries(*data)) {
                Some(v) => Some(Call::SetInherentData { inherent_data: v }),
                None => None::<Call>,
            },
    {
        match Self::get_and_decode_data(data) {
            Some(inherent_data) => Some(Call::SetInherentData { inherent_data }),
            None => None,
        }
    }

    /// Whether `call` is the one that carries this channel's inherent.
    pub fn is_inherent(call: &Call) -> (r: bool)
        ensures
            r == (call is SetInherentData),
    {
        match call {
            Call::SetInherentData { .. } => true,
        }
    }
}

} // verus!
