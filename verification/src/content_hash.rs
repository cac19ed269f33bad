use vstd::prelude::*;
use crate::text::{digit, hex_digits};

verus! {

/// The two hexadecimal digits of each byte of `bytes`, high nibble first.
pub open spec fn hex_of(bytes: Seq<u8>) -> Seq<char>
    decreases bytes.len(),
{
    if bytes.len() == 0 {
        Seq::empty()
    } else {
        let b = bytes.last();
        hex_of(bytes.drop_last()) + seq![hex_digits()[b as int / 16], hex_digits()[b as int % 16]]
    }
}

/// A content address: the digest of a policy value.
#[derive(Debug, Clone, Copy)]
pub struct ContentHash {
    pub digest: [u8; 32],
}

impl PartialEq for ContentHash {
    fn eq(&self, other: &Self) -> (r: bool) {
        let mut i: usize = 0;
        while i < 32
            invariant
                i <= 32,
                forall|j: int| 0 <= j < i ==> self.digest@[j] == other.digest@[j],
            decreases 32 - i,
        {
            if self.digest[i] != other.digest[i] {
                return false;
            }
            i = i + 1;
        }
        assert(self.digest =~= other.digest);
        true
    }
}

impl Eq for ContentHash {}

impl vstd::std_specs::cmp::PartialEqSpecImpl for ContentHash {
    open spec fn obeys_eq_spec() -> bool {
        true
    }

    open spec fn eq_spec(&self, other: &Self) -> bool {
        *self == *other
    }
}

impl ContentHash {
    /// The digest as lower-case hexadecimal text.
    pub fn to_hex(&self) -> (s: String)
        ensures
            s@ == hex_of(self.digest@),
    {
        let mut s = String::new();
        let mut i: usize = 0;
        while i < 32
            invariant
                i <= 32,
                self.digest@.len() == 32,
                s@ == hex_of(self.digest@.take(i as int)),
            decreases 32 - i,
        {
            let b = self.digest[i];
            s.append(digit((b / 16) as usize));
            s.append(digit((b % 16) as usize));
            assert(self.digest@.take(i + 1).drop_last() =~= self.digest@.take(i as int));
            i = i + 1;
        }
        assert(self.digest@.take(32) =~= self.digest@);
        s
    }
}

} // verus!
