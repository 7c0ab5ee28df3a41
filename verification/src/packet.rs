//! Datagrams: the opaque byte payloads this stack moves, tagged with
//! the address they came from.

use vstd::prelude::*;
use crate::addr::Addr;

verus! {

/// One received packet: its payload and its source address.
#[derive(Debug)]
pub struct Datagram {
    pub bytes: Vec<u8>,
    pub from: Addr,
}

/// The mathematical value of a datagram.
pub struct DatagramV {
    pub bytes: Seq<u8>,
    pub from: Addr,
}

impl View for Datagram {
    type V = DatagramV;

    open spec fn view(&self) -> DatagramV {
        DatagramV { bytes: self.bytes@, from: self.from }
    }
}

/// An exact copy of a byte vector.
pub fn clone_bytes(v: &Vec<u8>) -> (r: Vec<u8>)
    ensures
        r@ == v@,
{
    let mut out: Vec<u8> = Vec::new();
    let mut i: usize = 0;
    while i < v.len()
        invariant
            i <= v.len(),
            out@ == v@.take(i as int),
        decreases v.len() - i,
    {
        out.push(v[i]);
        proof {
            assert(out@ =~= v@.take(i + 1));
        }
        i = i + 1;
    }
    proof {
        assert(out@ =~= v@);
    }
    out
}

} // verus!
