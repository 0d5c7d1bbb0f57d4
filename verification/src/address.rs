//! Account addresses: their bytes, their order, and their text.

use vstd::prelude::*;
use std::str::FromStr;
use solana_program::pubkey::{ParsePubkeyError, Pubkey};
use crate::error::Error;

verus! {

/// The address of an account: thirty-two bytes, compared bytewise.
#[derive(Clone, Copy, Debug)]
pub struct Address {
    pub bytes: [u8; 32],
}

impl View for Address {
    type V = Seq<u8>;

    open spec fn view(&self) -> Seq<u8> {
        self.bytes@
    }
}

impl Address {
    /// Wraps the thirty-two bytes of an address.
    pub fn new_from_array(bytes: [u8; 32]) -> (r: Address)
        ensures
            r.bytes == bytes,
            r@ == bytes@,
    {
        Address { bytes }
    }

    /// The bytes of the address.
    pub fn to_bytes(&self) -> (r: [u8; 32])
        ensures
            r == self.bytes,
            r@ == self@,
    {
        self.bytes
    }

    /// The bytes of the address as a growable vector, as used for a seed.
    pub fn to_vec(&self) -> (r: Vec<u8>)
        ensures
            r@ == self@,
            r@.len() == 32,
    {
        let mut out: Vec<u8> = Vec::new();
        let mut i: usize = 0;
        while i < 32
            invariant
                i <= 32,
                out@.len() == i,
                forall|j: int| 0 <= j < i ==> out@[j] == self.bytes@[j],
            decreases 32 - i,
        {
            out.push(self.bytes[i]);
            i = i + 1;
        }
        assert(out@ =~= self@);
        out
    }

    /// Whether two addresses hold the same bytes.
    pub fn same(&self, other: &Address) -> (r: bool)
        ensures
            r == (self@ == other@),
            r == (*self == *other),
    {
        let mut i: usize = 0;
        while i < 32
            invariant
                i <= 32,
                forall|j: int| 0 <= j < i ==> self.bytes@[j] == other.bytes@[j],
            decreases 32 - i,
        {
            if self.bytes[i] != other.bytes[i] {
                return false;
            }
            i = i + 1;
        }
        assert(self.bytes =~= other.bytes);
        true
    }
}

/// Two addresses with the same bytes are the same address.
pub proof fn lemma_address_ext(a: Address, b: Address)
    requires
        a@ == b@,
    ensures
        a == b,
{
    assert(a.bytes =~= b.bytes);
}

/// How one address stands to another in the order of their bytes.
#[derive(Clone, Copy, Debug)]
pub enum Order {
    /// The first comes before the second.
    Before,
    /// They are the same address.
    Same,
    /// The first comes after the second.
    After,
}

/// Whether `a` and `b` agree in their first `k` bytes and `a` is smaller in
/// the byte after them.
pub open spec fn precedes_at(a: Seq<u8>, b: Seq<u8>, k: int) -> bool {
    &&& 0 <= k < a.len()
    &&& k < b.len()
    &&& forall|j: int| 0 <= j < k ==> a[j] == b[j]
    &&& a[k] < b[k]
}

/// Whether `a` comes before `b`: at the first byte in which they differ,
/// `a` has the smaller one.
pub open spec fn precedes(a: Seq<u8>, b: Seq<u8>) -> bool {
    exists|k: int| precedes_at(a, b, k)
}

/// The order of the bytes is transitive.
pub proof fn lemma_precedes_is_transitive(a: Seq<u8>, b: Seq<u8>, c: Seq<u8>)
    requires
        precedes(a, b),
        precedes(b, c),
    ensures
        precedes(a, c),
{
    let k1 = choose|k: int| precedes_at(a, b, k);
    let k2 = choose|k: int| precedes_at(b, c, k);
    if k1 <= k2 {
        assert(precedes_at(a, c, k1));
    } else {
        assert(precedes_at(a, c, k2));
    }
}

/// No address comes before itself, and of two addresses at most one comes
/// before the other.
pub proof fn lemma_precedes_is_asymmetric(a: Seq<u8>, b: Seq<u8>)
    requires
        precedes(a, b),
    ensures
        a != b,
        !precedes(b, a),
{
    let k1 = choose|k: int| precedes_at(a, b, k);
    if precedes(b, a) {
        let k2 = choose|k: int| precedes_at(b, a, k);
        if k1 <= k2 {
            assert(false);
        } else {
            assert(false);
        }
    }
}

/// Of two different byte strings of one length, one comes before the other.
pub proof fn lemma_precedes_is_total(a: Seq<u8>, b: Seq<u8>)
    requires
        a.len() == b.len(),
        a != b,
    ensures
        precedes(a, b) || precedes(b, a),
{
    if forall|i: int| 0 <= i < a.len() ==> a[i] == b[i] {
        assert(a =~= b);
    }
    let k = lemma_first_difference(a, b, a.len() as int);
    if a[k] < b[k] {
        assert(precedes_at(a, b, k));
    } else {
        assert(precedes_at(b, a, k));
    }
}

proof fn lemma_first_difference(a: Seq<u8>, b: Seq<u8>, bound: int) -> (k: int)
    requires
        a.len() == b.len(),
        0 <= bound <= a.len(),
        exists|i: int| 0 <= i < bound && a[i] != b[i],
    ensures
        0 <= k < bound,
        a[k] != b[k],
        forall|j: int| 0 <= j < k ==> a[j] == b[j],
    decreases bound,
{
    if exists|i: int| 0 <= i < bound - 1 && a[i] != b[i] {
        lemma_first_difference(a, b, bound - 1)
    } else {
        bound - 1
    }
}

impl Address {
    /// Compares two addresses byte by byte, the first byte counting most.
    pub fn compare(&self, other: &Address) -> (r: Order)
        ensures
            r is Before == precedes(self@, other@),
            r is Same == (self@ == other@),
            r is After == precedes(other@, self@),
    {
        let mut i: usize = 0;
        while i < 32
            invariant
                i <= 32,
                forall|j: int| 0 <= j < i ==> self.bytes@[j] == other.bytes@[j],
            decreases 32 - i,
        {
            if self.bytes[i] < other.bytes[i] {
                proof {
                    assert(precedes_at(self@, other@, i as int));
                    lemma_precedes_is_asymmetric(self@, other@);
                }
                return Order::Before;
            }
            if self.bytes[i] > other.bytes[i] {
                proof {
                    assert(precedes_at(other@, self@, i as int));
                    lemma_precedes_is_asymmetric(other@, self@);
                }
                return Order::After;
            }
            i = i + 1;
        }
        proof {
            assert(self@ =~= other@);
            if precedes(self@, other@) {
                lemma_precedes_is_asymmetric(self@, other@);
            }
            if precedes(other@, self@) {
                lemma_precedes_is_asymmetric(other@, self@);
            }
        }
        Order::Same
    }
}

/// Why `solana_program` read no address from a text; carried through
/// unopened.
#[verifier::external_type_specification]
#[verifier::external_body]
pub struct ExParsePubkeyError(ParsePubkeyError);

/// The bytes of the address that `text` spells in base 58, or `None` where
/// `solana_program` reads no address from it.
pub uninterp spec fn address_parsing(text: Seq<char>) -> Option<Seq<u8>>;

/// Calls `Pubkey::from_str` of `solana_program`.
///
/// Trusted: the outcome is a function of the text, which `address_parsing`
/// names.
#[verifier::external_body]
fn pubkey_from_str(text: &str) -> (r: Result<Address, ParsePubkeyError>)
    ensures
        r matches Ok(address) ==> address_parsing(text@) == Some(address@),
        r is Err ==> address_parsing(text@) is None,
{
    let key = Pubkey::from_str(text)?;
    Ok(Address { bytes: key.to_bytes() })
}

/// Reads an address from its base 58 text.
pub fn parse_pubkey(s: &str) -> (r: Result<Address, Error>)
    ensures
        match address_parsing(s@) {
            Some(bytes) => r matches Ok(address) && address@ == bytes,
            None => r == Err::<Address, Error>(Error::InvalidAddress),
        },
{
    match pubkey_from_str(s) {
        Ok(address) => Ok(address),
        Err(_) => Err(Error::InvalidAddress),
    }
}

} // verus!
