use vstd::prelude::*;

use crate::error::GpuError;

verus! {

/// The fixed vertex payload: four 32-bit values, each written here as its
/// four little-endian IEEE-754 single-precision bytes.
pub open spec fn spec_vertex_payload() -> Seq<u8> {
    seq![
        0x00u8, 0x00u8, 0x80u8, 0x3fu8,
        0x00u8, 0x00u8, 0x00u8, 0x40u8,
        0x00u8, 0x00u8, 0x80u8, 0x40u8,
        0x00u8, 0x00u8, 0x40u8, 0x40u8,
    ]
}

/// Build the fixed vertex payload the bootstrap writes into its buffer.
pub fn vertex_payload() -> (payload: Vec<u8>)
    ensures
        payload@ == spec_vertex_payload(),
        payload@.len() == 16,
{
    let mut payload: Vec<u8> = Vec::new();
    payload.push(0x00u8);
    payload.push(0x00u8);
    payload.push(0x80u8);
    payload.push(0x3fu8);
    payload.push(0x00u8);
    payload.push(0x00u8);
    payload.push(0x00u8);
    payload.push(0x40u8);
    payload.push(0x00u8);
    payload.push(0x00u8);
    payload.push(0x80u8);
    payload.push(0x40u8);
    payload.push(0x00u8);
    payload.push(0x00u8);
    payload.push(0x40u8);
    payload.push(0x40u8);
    proof {
        assert(payload@ =~= spec_vertex_payload());
    }
    payload
}

/// Copy `payload` into the mapped region starting at offset zero, leaving
/// the rest of the region untouched. The copy happens only when the payload
/// fits; a region too small for it — a zero-length region included — is
/// rejected unchanged, never overrun.
pub fn write_payload(mapped: &mut Vec<u8>, payload: &Vec<u8>) -> (r: Result<(), GpuError>)
    ensures
        match r {
            Ok(_) => {
                &&& payload@.len() <= old(mapped)@.len()
                &&& final(mapped)@.len() == old(mapped)@.len()
                &&& final(mapped)@ == payload@ + old(mapped)@.skip(payload@.len() as int)
            },
            Err(e) => {
                &&& e == GpuError::PayloadTooLarge
                &&& payload@.len() > old(mapped)@.len()
                &&& final(mapped)@ == old(mapped)@
            },
        },
{
    if payload.len() > mapped.len() {
        return Err(GpuError::PayloadTooLarge);
    }
    let mut i: usize = 0;
    while i < payload.len()
        invariant
            i <= payload@.len(),
            payload@.len() <= mapped@.len(),
            mapped@.len() == old(mapped)@.len(),
            forall|j: int| 0 <= j < i ==> mapped@[j] == payload@[j],
            forall|j: int| i <= j < mapped@.len() ==> mapped@[j] == old(mapped)@[j],
        decreases payload@.len() - i,
    {
        mapped.set(i, payload[i]);
        i = i + 1;
    }
    proof {
        assert(mapped@ =~= payload@ + old(mapped)@.skip(payload@.len() as int));
    }
    Ok(())
}

} // verus!
