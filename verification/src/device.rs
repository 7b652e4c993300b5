//! The simulated device: answers a read request by looking the address up in
//! the catalog, drawing a fresh value from the register's domain, and
//! encoding it into the word count that the catalog fixes for that address.

use vstd::prelude::*;
use vstd::std_specs::hash::group_hash_axioms;
use std::collections::HashMap;
use rand::Rng;
use crate::catalog::{RegisterDescriptor, spec_word_count};
use crate::codec::{encode, spec_encode, spec_decode, lemma_round_trip};

verus! {

broadcast use group_hash_axioms;

/// Protocol-level rejection of a request.
#[derive(Clone, Copy, PartialEq, Eq, Structural, Debug)]
pub enum DeviceFault {
    /// The request is not a read of input registers.
    IllegalFunction,
    /// The requested address is absent from the catalog.
    IllegalDataAddress,
}

/// A request as the device sees it, already stripped of transport framing.
#[derive(Clone, Copy, Debug)]
pub enum DeviceRequest {
    /// Read `count` input registers starting at `address`.
    ReadInputRegisters { address: u16, count: u16 },
    /// Any other protocol function: the device supports none.
    Unsupported,
}

/// Look up the first catalog entry for `address`.
pub fn lookup(cat: &Vec<RegisterDescriptor>, address: u16) -> (r: Option<RegisterDescriptor>)
    ensures
        match r {
            Some(d) => exists|i: int|
                0 <= i < cat@.len() && cat@[i] == d && cat@[i].address == address,
            None => forall|i: int| 0 <= i < cat@.len() ==> cat@[i].address != address,
        },
{
    let mut i: usize = 0;
    while i < cat.len()
        invariant
            i <= cat@.len(),
            forall|j: int| 0 <= j < i ==> cat@[j].address != address,
        decreases cat@.len() - i,
    {
        if cat[i].address == address {
            return Some(cat[i]);
        }
        i += 1;
    }
    None
}

/// The device's only mutable state: the last value generated per address,
/// kept for diagnostic continuity. Correctness never reads it back; each
/// read generates a fresh value.
pub struct DeviceState {
    pub last_values: HashMap<u16, i32>,
}

impl DeviceState {
    pub fn new() -> (s: Self)
        ensures
            s.last_values@ == Map::<u16, i32>::empty(),
    {
        DeviceState { last_values: HashMap::new() }
    }
}

/// Relies on rand::Rng::gen_range over the inclusive range lo..=hi: it
/// returns a uniformly drawn value inside the range, and panics only when
/// the range is empty.
#[verifier::external_body]
fn random_in_range(lo: i32, hi: i32) -> (r: i32)
    requires
        lo <= hi,
    ensures
        lo <= r <= hi,
{
    rand::thread_rng().gen_range(lo..=hi)
}

/// Answer one request against the catalog.
///
/// A read of a cataloged address draws a fresh value from that register's
/// domain, records it, and returns the value encoded in the word count that
/// the catalog fixes for the address — also when the requested count
/// disagrees, which is the caller's error and must not break the encode
/// side's symmetry with the decode side. A read of an unknown address is
/// answered with an explicit fault, never with fabricated data. Any other
/// function is rejected.
pub fn handle_request(
    cat: &Vec<RegisterDescriptor>,
    state: &mut DeviceState,
    req: DeviceRequest,
) -> (r: Result<Vec<u16>, DeviceFault>)
    requires
        forall|i: int| 0 <= i < cat@.len() ==> (#[trigger] cat@[i]).wf(),
    ensures
        match req {
            DeviceRequest::Unsupported => {
                &&& r == Result::<Vec<u16>, DeviceFault>::Err(DeviceFault::IllegalFunction)
                &&& final(state).last_values@ == old(state).last_values@
            },
            DeviceRequest::ReadInputRegisters { address, count } => {
                if exists|i: int| 0 <= i < cat@.len() && cat@[i].address == address {
                    exists|i: int, v: i32|
                        #![trigger cat@[i], old(state).last_values@.insert(address, v)]
                        {
                            &&& 0 <= i < cat@.len()
                            &&& cat@[i].address == address
                            &&& cat@[i].domain_lo <= v <= cat@[i].domain_hi
                            &&& r is Ok
                            &&& r->Ok_0@ == spec_encode(cat@[i].kind, v as int)
                            &&& r->Ok_0@.len() == spec_word_count(cat@[i].kind)
                            &&& spec_decode(cat@[i].kind, r->Ok_0@) == v as int
                            &&& final(state).last_values@ == old(state).last_values@.insert(address, v)
                        }
                } else {
                    &&& r == Result::<Vec<u16>, DeviceFault>::Err(DeviceFault::IllegalDataAddress)
                    &&& final(state).last_values@ == old(state).last_values@
                }
            },
        },
{
    match req {
        DeviceRequest::Unsupported => Err(DeviceFault::IllegalFunction),
        DeviceRequest::ReadInputRegisters { address, count: _ } => {
            match lookup(cat, address) {
                None => Err(DeviceFault::IllegalDataAddress),
                Some(d) => {
                    let v = random_in_range(d.domain_lo, d.domain_hi);
                    state.last_values.insert(address, v);
                    let words = encode(d.kind, v);
                    proof {
                        lemma_round_trip(d.kind, v as int);
                    }
                    Ok(words)
                },
            }
        },
    }
}

} // verus!
