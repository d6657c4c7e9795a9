//! The derived database-encryption key: a byte key with its hex rendering
//! for the database layer, and the errors of the key-management lifecycle.

use vstd::prelude::*;

verus! {

/// An error from key derivation or key storage.
#[derive(Debug, Clone, PartialEq, Eq)]
pub enum CryptoError {
    KeyDerivation(String),
    InvalidPin,
    NoPinConfigured,
    Keyring(String),
    OperationFailed(String),
}

/// The lowercase hex digit of a nibble value.
pub open spec fn hex_digit(n: int) -> char {
    if n == 0 {
        '0'
    } else if n == 1 {
        '1'
    } else if n == 2 {
        '2'
    } else if n == 3 {
        '3'
    } else if n == 4 {
        '4'
    } else if n == 5 {
        '5'
    } else if n == 6 {
        '6'
    } else if n == 7 {
        '7'
    } else if n == 8 {
        '8'
    } else if n == 9 {
        '9'
    } else if n == 10 {
        'a'
    } else if n == 11 {
        'b'
    } else if n == 12 {
        'c'
    } else if n == 13 {
        'd'
    } else if n == 14 {
        'e'
    } else {
        'f'
    }
}

/// The lowercase hex encoding of a byte sequence: two digits per byte,
/// high nibble first.
pub open spec fn hex_of(bytes: Seq<u8>) -> Seq<char>
    decreases bytes.len(),
{
    if bytes.len() == 0 {
        Seq::empty()
    } else {
        seq![hex_digit(bytes[0] as int / 16), hex_digit(bytes[0] as int % 16)] + hex_of(
            bytes.drop_first(),
        )
    }
}

/// A derived encryption key.
#[derive(Clone)]
pub struct DerivedKey {
    key: Vec<u8>,
}

impl View for DerivedKey {
    type V = Seq<u8>;

    closed spec fn view(&self) -> Seq<u8> {
        self.key@
    }
}

impl DerivedKey {
    /// Wraps raw key bytes.
    pub fn new(key: Vec<u8>) -> (r: DerivedKey)
        ensures
            r@ == key@,
    {
        DerivedKey { key }
    }

    /// The key as a hex string, as the database layer expects it.
    ///
    /// Relies on hex::encode: each byte becomes two lowercase hex digits,
    /// high nibble first.
    #[verifier::external_body]
    pub fn as_hex(&self) -> (r: String)
        ensures
            r@ == hex_of(self@),
    {
        hex::encode(&self.key)
    }

    /// The raw key bytes.
    pub fn as_bytes(&self) -> (r: &[u8])
        ensures
            r@ == self@,
    {
        self.key.as_slice()
    }
}

} // verus!
