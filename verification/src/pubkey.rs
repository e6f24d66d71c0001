//! Addresses of accounts.
use vstd::prelude::*;

verus! {

/// The address of an account: 32 bytes.
#[derive(Clone, Copy, Debug, PartialEq, Eq, Hash)]
pub struct Pubkey {
    pub bytes: [u8; 32],
}

impl View for Pubkey {
    type V = Seq<u8>;

    open spec fn view(&self) -> Seq<u8> {
        self.bytes@
    }
}

impl Pubkey {
    /// The address whose bytes are all zero. It stands for "no account".
    pub open spec fn zero() -> Seq<u8> {
        Seq::new(32, |i: int| 0u8)
    }

    /// The address with these bytes.
    pub fn new_from_array(bytes: [u8; 32]) -> (r: Pubkey)
        ensures
            r.bytes == bytes,
    {
        Pubkey { bytes }
    }

    /// The bytes of the address.
    pub fn to_bytes(&self) -> (r: [u8; 32])
        ensures
            r == self.bytes,
    {
        self.bytes
    }

    /// Whether two addresses are the same.
    pub fn equals(&self, other: &Pubkey) -> (r: bool)
        ensures
            r == (*self == *other),
            r == (self@ == other@),
    {
        let mut i: usize = 0;
        while i < 32
            invariant
                0 <= i <= 32,
                forall|j: int| 0 <= j < i ==> self.bytes[j] == other.bytes[j],
            decreases 32 - i,
        {
            if self.bytes[i] != other.bytes[i] {
                return false;
            }
            i += 1;
        }
        assert(self.bytes@ =~= other.bytes@);
        assert(self.bytes =~= other.bytes);
        true
    }

    /// Whether this is the all-zero address.
    pub fn is_default(&self) -> (r: bool)
        ensures
            r == (self@ == Pubkey::zero()),
    {
        let mut i: usize = 0;
        while i < 32
            invariant
                0 <= i <= 32,
                forall|j: int| 0 <= j < i ==> self.bytes[j] == 0u8,
            decreases 32 - i,
        {
            if self.bytes[i] != 0 {
                assert(self@[i as int] != Pubkey::zero()[i as int]);
                return false;
            }
            i += 1;
        }
        assert(self@ =~= Pubkey::zero());
        true
    }
}

impl Default for Pubkey {
    fn default() -> (r: Pubkey)
        ensures
            r@ == Pubkey::zero(),
    {
        let r = Pubkey { bytes: [0u8; 32] };
        assert(r@ =~= Pubkey::zero());
        r
    }
}

} // verus!
