//! The proof format of the first Zcash shielded transfers.

use vstd::prelude::*;
use vstd::std_specs::cmp::PartialEqSpecImpl;
use vstd::string::StringExecFns;

verus! {

/// The sixteen digits of lower-case hexadecimal, by value.
pub open spec fn hex_digit(nibble: int) -> char {
    seq!['0', '1', '2', '3', '4', '5', '6', '7', '8', '9', 'a', 'b', 'c', 'd', 'e', 'f'][nibble]
}

/// `bytes` in lower-case hexadecimal: two digits for each byte, the high
/// half first.
pub open spec fn hex_text(bytes: Seq<u8>) -> Seq<char> {
    Seq::new(
        2 * bytes.len(),
        |i: int|
            if i % 2 == 0 {
                hex_digit(bytes[i / 2] as int / 16)
            } else {
                hex_digit(bytes[i / 2] as int % 16)
            },
    )
}

/// `hex::encode`: the bytes as a string of lower-case hexadecimal digits, two
/// for each byte.
#[verifier::external_body]
fn hex_encode(bytes: &[u8]) -> (text: String)
    ensures
        text@ == hex_text(bytes@),
{
    hex::encode(bytes)
}

/// An encoding of a BCTV14 proof, as used in Zcash.
pub struct Bctv14Proof(pub [u8; 296]);

impl Copy for Bctv14Proof {

}

impl Clone for Bctv14Proof {
    fn clone(&self) -> (copy: Self)
        ensures
            copy == *self,
    {
        let bytes: [u8; 296] = self.0;
        Self(bytes)
    }
}

impl PartialEq for Bctv14Proof {
    fn eq(&self, other: &Self) -> (same: bool) {
        let mut i: usize = 0;
        while i < 296
            invariant
                i <= 296,
                forall|j: int| 0 <= j < i ==> self.0[j] == other.0[j],
            decreases 296 - i,
        {
            if self.0[i] != other.0[i] {
                return false;
            }
            i = i + 1;
        }
        proof {
            assert(self.0@ =~= other.0@);
        }
        true
    }
}

impl PartialEqSpecImpl for Bctv14Proof {
    open spec fn obeys_eq_spec() -> bool {
        true
    }

    open spec fn eq_spec(&self, other: &Self) -> bool {
        self.0@ == other.0@
    }
}

impl Eq for Bctv14Proof {

}

impl Bctv14Proof {
    /// What the proof is shown as in debug output: its name, and its bytes in
    /// hexadecimal between quotes.
    pub open spec fn debug_text(self) -> Seq<char> {
        "Bctv14Proof(\""@ + hex_text(self.0@) + "\")"@
    }

    /// The proof as it is shown in debug output.
    pub fn debug(&self) -> (text: String)
        ensures
            text@ == self.debug_text(),
    {
        let digits = hex_encode(self.0.as_slice());
        String::from_str("Bctv14Proof(\"").concat(digits.as_str()).concat("\")")
    }
}

} // verus!
