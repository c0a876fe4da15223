//! Account identifiers: 32-byte addresses used by all components.

use vstd::prelude::*;

verus! {

/// The number of bytes in an account address.
pub const ADDRESS_BYTES: usize = 32;

/// A 32-byte on-chain account address, held as plain bytes.
#[derive(Debug)]
pub struct Address {
    pub bytes: Vec<u8>,
}

impl View for Address {
    type V = Seq<u8>;

    open spec fn view(&self) -> Seq<u8> {
        self.bytes@
    }
}

impl DeepView for Address {
    type V = Seq<u8>;

    open spec fn deep_view(&self) -> Seq<u8> {
        self.bytes@
    }
}

impl Clone for Address {
    fn clone(&self) -> (r: Self)
        ensures
            r@ == self@,
    {
        let mut copy: Vec<u8> = Vec::new();
        let mut i: usize = 0;
        while i < self.bytes.len()
            invariant
                i <= self.bytes.len(),
                copy@ == self.bytes@.subrange(0, i as int),
            decreases self.bytes.len() - i,
        {
            copy.push(self.bytes[i]);
            i = i + 1;
        }
        proof {
            assert(copy@ =~= self.bytes@);
        }
        Address { bytes: copy }
    }
}

impl Address {
    /// An address is well formed when it holds exactly 32 bytes.
    pub open spec fn wf(&self) -> bool {
        self@.len() == ADDRESS_BYTES
    }

    /// Builds an address from exactly 32 bytes; rejects any other length.
    pub fn from_bytes(bytes: Vec<u8>) -> (r: Option<Address>)
        ensures
            bytes@.len() == ADDRESS_BYTES ==> (r matches Some(a) && a@ == bytes@ && a.wf()),
            bytes@.len() != ADDRESS_BYTES ==> r is None,
    {
        if bytes.len() == ADDRESS_BYTES {
            Some(Address { bytes })
        } else {
            None
        }
    }

    /// The all-zero address, used as a neutral placeholder identifier.
    pub fn zeroed() -> (r: Address)
        ensures
            r.wf(),
            forall|i: int| 0 <= i < 32 ==> r@[i] == 0u8,
    {
        let mut bytes: Vec<u8> = Vec::new();
        let mut i: usize = 0;
        while i < 32
            invariant
                i <= 32,
                bytes@.len() == i,
                forall|j: int| 0 <= j < i ==> bytes@[j] == 0u8,
            decreases 32 - i,
        {
            bytes.push(0u8);
            i = i + 1;
        }
        Address { bytes }
    }

    /// The raw bytes of the address.
    pub fn as_bytes(&self) -> (r: &Vec<u8>)
        ensures
            r@ == self@,
    {
        &self.bytes
    }

    /// Byte-for-byte equality of two addresses.
    pub fn eq_addr(&self, other: &Address) -> (b: bool)
        ensures
            b == (self@ == other@),
    {
        if self.bytes.len() != other.bytes.len() {
            proof {
                assert(self@ != other@);
            }
            return false;
        }
        let mut i: usize = 0;
        while i < self.bytes.len()
            invariant
                i <= self.bytes.len(),
                self.bytes@.len() == other.bytes@.len(),
                forall|j: int| 0 <= j < i ==> self.bytes@[j] == other.bytes@[j],
            decreases self.bytes.len() - i,
        {
            if self.bytes[i] != other.bytes[i] {
                proof {
                    assert(self@[i as int] != other@[i as int]);
                }
                return false;
            }
            i = i + 1;
        }
        proof {
            assert(self@ =~= other@);
        }
        true
    }
}

/// Whether a sequence of addresses holds one whose bytes equal `a`.
pub open spec fn spec_contains_address(s: Seq<Seq<u8>>, a: Seq<u8>) -> bool {
    s.contains(a)
}

/// Linear search for an address with the given bytes.
pub fn contains_address(v: &Vec<Address>, a: &Address) -> (b: bool)
    ensures
        b == spec_contains_address(v.deep_view(), a@),
{
    let mut i: usize = 0;
    while i < v.len()
        invariant
            i <= v.len(),
            forall|j: int| 0 <= j < i ==> v.deep_view()[j] != a@,
        decreases v.len() - i,
    {
        if v[i].eq_addr(a) {
            proof {
                assert(v.deep_view()[i as int] == a@);
            }
            return true;
        }
        i = i + 1;
    }
    proof {
        assert forall|j: int| 0 <= j < v.deep_view().len() implies v.deep_view()[j] != a@ by {}
    }
    false
}

} // verus!
