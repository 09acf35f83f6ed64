use vstd::prelude::*;

verus! {

broadcast use vstd::array::group_array_axioms;

/// Number of bytes in an account address.
pub const KEY_LEN: usize = 32;

/// The address of an account: 32 bytes.
#[derive(Clone, Copy, Debug, PartialEq, Eq)]
pub struct Pubkey {
    pub bytes: [u8; 32],
}

/// The address made of zero bytes, which stands for "no account".
pub open spec fn zero_key() -> Pubkey {
    Pubkey { bytes: vstd::array::array_fill_for_copy_types::<u8, 32>(0u8) }
}

impl Pubkey {
    /// Whether this is the address that stands for "no account".
    pub open spec fn spec_is_default(self) -> bool {
        self == zero_key()
    }

    /// The address with the given bytes.
    pub fn new_from_array(bytes: [u8; 32]) -> (k: Pubkey)
        ensures
            k.bytes == bytes,
    {
        Pubkey { bytes }
    }

    /// The address made of zero bytes.
    pub fn default_key() -> (k: Pubkey)
        ensures
            k == zero_key(),
    {
        Pubkey { bytes: [0u8; 32] }
    }

    /// Whether two addresses are the same.
    pub fn same(&self, other: &Pubkey) -> (b: bool)
        ensures
            b == (*self == *other),
    {
        let mut i: usize = 0;
        while i < KEY_LEN
            invariant
                i <= KEY_LEN,
                forall|j: int| 0 <= j < i ==> self.bytes@[j] == other.bytes@[j],
            decreases KEY_LEN - i,
        {
            if self.bytes[i] != other.bytes[i] {
                return false;
            }
            i = i + 1;
        }
        assert(self.bytes =~= other.bytes);
        true
    }

    /// Whether this is the address made of zero bytes.
    pub fn is_default(&self) -> (b: bool)
        ensures
            b == self.spec_is_default(),
    {
        let zero = Pubkey::default_key();
        self.same(&zero)
    }
}

} // verus!
