//! Capability masks of the hardware-enforced control fields.
//!
//! The host reports, for each family of control fields, one 64-bit value. A
//! bit that is clear in its low half must be zero in a field of the family; a
//! bit that is set in its high half must be one.

use vstd::prelude::*;
use crate::error::Error;
use crate::host::{Capability, HostCall, HostReply};

verus! {

/// Bits that a control field must carry as one: the high half of the mask.
pub open spec fn must_be_one(cap: u64) -> u64 {
    cap >> 32
}

/// Bits that a control field must carry as zero: the low half of the mask,
/// inverted.
pub open spec fn must_be_zero(cap: u64) -> u64 {
    !cap & 0xffff_ffff
}

/// A mask is consistent when it demands no bit as both one and zero.
pub open spec fn consistent(cap: u64) -> bool {
    must_be_one(cap) & must_be_zero(cap) == 0
}

/// The value to write for `desired` under the mask `cap`.
pub open spec fn constrained(desired: u64, cap: u64) -> u64 {
    (desired | must_be_one(cap)) & !must_be_zero(cap)
}

/// Fits `desired` to the capability mask `cap`: the bits that must be one are
/// set, then the bits that must be zero are cleared.
pub fn constrain(desired: u64, cap: u64) -> (effective: u64)
    ensures
        effective == constrained(desired, cap),
        effective & must_be_zero(cap) == 0,
        consistent(cap) ==> effective & must_be_one(cap) == must_be_one(cap),
{
    let one: u64 = cap >> 32;
    let zero: u64 = !cap & 0xffff_ffff;
    let effective: u64 = (desired | one) & !zero;
    proof {
        lemma_constrained_respects_mask(desired, cap);
    }
    effective
}

/// Whatever is desired, the constrained value has every must-be-zero bit
/// clear, and under a consistent mask it has every must-be-one bit set.
pub proof fn lemma_constrained_respects_mask(desired: u64, cap: u64)
    ensures
        constrained(desired, cap) & must_be_zero(cap) == 0,
        consistent(cap) ==> constrained(desired, cap) & must_be_one(cap) == must_be_one(cap),
{
    let one = must_be_one(cap);
    let zero = must_be_zero(cap);
    assert(((desired | one) & !zero) & zero == 0) by (bit_vector);
    assert(one & zero == 0 ==> ((desired | one) & !zero) & one == one) by (bit_vector);
}

/// The capability masks that have been read from the host. A mask is read
/// at most once: the first value that is stored for a family stays.
#[derive(Clone, Copy, Debug, PartialEq, Eq)]
pub struct CapabilityCache {
    pin_based: Option<u64>,
    proc_based: Option<u64>,
    proc_based2: Option<u64>,
    entry: Option<u64>,
    exit: Option<u64>,
}

/// The call that reads the mask of `family`.
pub open spec fn read_of(family: Capability) -> HostCall {
    HostCall::ReadCapability { family }
}

/// The cache and the mask to use after the host has answered the read of
/// the mask of `family`, where `known` holds the masks stored before.
pub open spec fn stored(known: Map<Capability, u64>, family: Capability, reply: HostReply) -> (
    Map<Capability, u64>,
    Result<u64, Error>,
) {
    if known.dom().contains(family) {
        (known, Ok(known[family]))
    } else {
        match reply {
            Ok(value) => (known.insert(family, value), Ok(value)),
            Err(cause) => (known, Err(Error::HostCallFailure { call: read_of(family), cause })),
        }
    }
}

impl View for CapabilityCache {
    type V = Map<Capability, u64>;

    /// The masks that are known, by family.
    closed spec fn view(&self) -> Map<Capability, u64> {
        Map::new(|family: Capability| self.slot(family) is Some, |family: Capability| self.slot(family)->0)
    }
}

impl CapabilityCache {
    spec fn slot(self, family: Capability) -> Option<u64> {
        match family {
            Capability::PinBased => self.pin_based,
            Capability::ProcBased => self.proc_based,
            Capability::ProcBased2 => self.proc_based2,
            Capability::Entry => self.entry,
            Capability::Exit => self.exit,
        }
    }

    /// A cache that knows no mask yet.
    pub fn new() -> (cache: CapabilityCache)
        ensures
            cache@ == Map::<Capability, u64>::empty(),
    {
        let cache = CapabilityCache {
            pin_based: None,
            proc_based: None,
            proc_based2: None,
            entry: None,
            exit: None,
        };
        assert(cache@ =~= Map::<Capability, u64>::empty());
        cache
    }

    /// The mask of `family`, if it has been read.
    pub fn get(&self, family: Capability) -> (mask: Option<u64>)
        ensures
            mask == if self@.dom().contains(family) {
                Some(self@[family])
            } else {
                None
            },
    {
        match family {
            Capability::PinBased => self.pin_based,
            Capability::ProcBased => self.proc_based,
            Capability::ProcBased2 => self.proc_based2,
            Capability::Entry => self.entry,
            Capability::Exit => self.exit,
        }
    }

    /// The call to make before the mask of `family` can be used: the read of
    /// the mask, unless it has been read already.
    pub fn request(&self, family: Capability) -> (call: Option<HostCall>)
        ensures
            call == if self@.dom().contains(family) {
                None
            } else {
                Some(read_of(family))
            },
    {
        match self.get(family) {
            Some(_) => None,
            None => Some(HostCall::ReadCapability { family }),
        }
    }

    /// Takes the host's answer to the read of the mask of `family`, and gives
    /// the mask to use. A mask that was stored before stays, and the answer
    /// is passed over. Otherwise a value that was read is stored for good,
    /// and a refusal is the error of the read, with nothing stored.
    pub fn store(&mut self, family: Capability, reply: HostReply) -> (mask: Result<u64, Error>)
        ensures
            (final(self)@, mask) == stored(old(self)@, family, reply),
    {
        match self.get(family) {
            Some(known) => Ok(known),
            None => match reply {
                Ok(value) => {
                    match family {
                        Capability::PinBased => {
                            self.pin_based = Some(value);
                        },
                        Capability::ProcBased => {
                            self.proc_based = Some(value);
                        },
                        Capability::ProcBased2 => {
                            self.proc_based2 = Some(value);
                        },
                        Capability::Entry => {
                            self.entry = Some(value);
                        },
                        Capability::Exit => {
                            self.exit = Some(value);
                        },
                    }
                    assert(self@ =~= old(self)@.insert(family, value));
                    Ok(value)
                },
                Err(cause) => Err(
                    Error::HostCallFailure { call: HostCall::ReadCapability { family }, cause },
                ),
            },
        }
    }
}

/// Once a mask is stored, every later answer for its family gives that same
/// mask and leaves the cache as it is.
pub proof fn lemma_mask_read_once(
    known: Map<Capability, u64>,
    family: Capability,
    first: u64,
    later: HostReply,
)
    ensures
        ({
            let (after, mask) = stored(known, family, Ok(first));
            &&& mask is Ok
            &&& after.dom().contains(family)
            &&& stored(after, family, later) == (after, mask)
        }),
{
}

} // verus!
