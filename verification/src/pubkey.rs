//! Account addresses as plain 32-byte values.
use vstd::prelude::*;
use vstd::std_specs::cmp::PartialEqSpecImpl;

verus! {

broadcast use vstd::array::group_array_axioms;

/// A 32-byte account address (a Solana public key), held as plain bytes.
#[derive(Clone, Copy, Debug)]
pub struct Pubkey {
    pub bytes: [u8; 32],
}

impl View for Pubkey {
    type V = Seq<u8>;

    open spec fn view(&self) -> Seq<u8> {
        self.bytes@
    }
}

impl Pubkey {
    /// The all-zero address, which the program stores for "no account yet".
    pub open spec fn spec_zero() -> Pubkey {
        Pubkey { bytes: vstd::array::spec_array_fill_for_copy_type::<u8, 32>(0u8) }
    }

    /// Whether this is the all-zero address.
    pub open spec fn is_zero(self) -> bool {
        self == Pubkey::spec_zero()
    }

    /// The all-zero address (`Pubkey::default()` of the Solana SDK).
    pub fn zero() -> (k: Pubkey)
        ensures
            k.is_zero(),
            k@ == Seq::new(32, |i: int| 0u8),
    {
        let k = Pubkey { bytes: [0u8; 32] };
        assert(k@ =~= Seq::new(32, |i: int| 0u8));
        k
    }

    /// Two addresses are equal exactly when their bytes are.
    pub proof fn lemma_view_injective(a: Pubkey, b: Pubkey)
        ensures
            a@ == b@ <==> a == b,
    {
        if a@ == b@ {
            assert(a.bytes =~= b.bytes);
        }
    }

    /// Wraps 32 raw bytes.
    pub fn new_from_array(bytes: [u8; 32]) -> (k: Pubkey)
        ensures
            k.bytes == bytes,
    {
        Pubkey { bytes }
    }

    /// The raw bytes.
    pub fn to_bytes(&self) -> (b: [u8; 32])
        ensures
            b == self.bytes,
    {
        self.bytes
    }

    /// Whether two addresses hold the same 32 bytes.
    pub fn same_as(&self, other: &Pubkey) -> (r: bool)
        ensures
            r <==> (*self == *other),
    {
        let mut i: usize = 0;
        while i < 32
            invariant
                i <= 32,
                forall|j: int| 0 <= j < i ==> self.bytes[j] == other.bytes[j],
            decreases 32 - i,
        {
            if self.bytes[i] != other.bytes[i] {
                return false;
            }
            i = i + 1;
        }
        assert(self.bytes =~= other.bytes);
        true
    }
}

impl PartialEq for Pubkey {
    fn eq(&self, other: &Pubkey) -> (r: bool) {
        self.same_as(other)
    }
}

impl PartialEqSpecImpl for Pubkey {
    open spec fn obeys_eq_spec() -> bool {
        true
    }

    open spec fn eq_spec(&self, other: &Pubkey) -> bool {
        *self == *other
    }
}

impl Eq for Pubkey {

}

} // verus!
