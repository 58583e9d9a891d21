//! Key handles and the tags that describe them.

use crate::value::Object;
use vstd::prelude::*;
use vstd::string::StringExecFns;

verus! {

/// The external encoding of a key.
#[derive(Clone, Copy, Debug, PartialEq, Eq, Structural)]
pub enum KeyFormat {
    Raw,
    Pkcs8,
    Spki,
    Jwk,
}

/// An operation that a key may take part in.
#[derive(Clone, Copy, Debug, PartialEq, Eq, Structural)]
pub enum KeyUsage {
    Encrypt,
    Decrypt,
    Sign,
    Verify,
    DeriveKey,
    DeriveBits,
    WrapKey,
    UnwrapKey,
}

/// Key material in an external form: the bytes of a buffer, or a structured
/// key.
#[derive(Debug, PartialEq, Eq)]
pub enum KeyData {
    Buffer(Vec<u8>),
    Jwk(Object),
}

/// What a [`CryptoKey`] is, as a mathematical value.
pub ghost struct CryptoKeyView {
    pub algorithm: Seq<char>,
    pub material: Seq<u8>,
    pub extractable: bool,
    pub usages: Set<KeyUsage>,
}

/// A key handle. Its attributes are fixed when it is made.
#[derive(Debug, PartialEq, Eq)]
pub struct CryptoKey {
    algorithm: String,
    material: Vec<u8>,
    extractable: bool,
    usages: Vec<KeyUsage>,
}

impl View for CryptoKey {
    type V = CryptoKeyView;

    closed spec fn view(&self) -> CryptoKeyView {
        CryptoKeyView {
            algorithm: self.algorithm@,
            material: self.material@,
            extractable: self.extractable,
            usages: self.usages@.to_set(),
        }
    }
}

impl CryptoKey {
    /// A key of the named algorithm over `material`, with the given
    /// extractability and usages.
    pub fn new(algorithm: &str, material: Vec<u8>, extractable: bool, usages: Vec<KeyUsage>) -> (key:
        CryptoKey)
        ensures
            key@.algorithm == algorithm@,
            key@.material == material@,
            key@.extractable == extractable,
            key@.usages == usages@.to_set(),
    {
        CryptoKey { algorithm: String::from_str(algorithm), material, extractable, usages }
    }

    /// The tag of the algorithm that the key belongs to.
    pub fn algorithm(&self) -> (name: &str)
        ensures
            name@ == self@.algorithm,
    {
        self.algorithm.as_str()
    }

    /// The bytes of the key.
    pub fn material(&self) -> (bytes: &Vec<u8>)
        ensures
            bytes@ == self@.material,
    {
        &self.material
    }

    /// Whether the key may be exported.
    pub fn extractable(&self) -> (yes: bool)
        ensures
            yes == self@.extractable,
    {
        self.extractable
    }

    /// The usages of the key, in the order in which they were given.
    pub fn usages(&self) -> (usages: &Vec<KeyUsage>)
        ensures
            usages@.to_set() == self@.usages,
    {
        &self.usages
    }

    /// Whether the key may take part in `usage`.
    pub fn allows(&self, usage: KeyUsage) -> (yes: bool)
        ensures
            yes == self@.usages.contains(usage),
    {
        let mut i: usize = 0;
        while i < self.usages.len()
            invariant
                i <= self.usages.len(),
                forall|j: int| 0 <= j < i ==> self.usages[j] != usage,
            decreases self.usages.len() - i,
        {
            if self.usages[i] == usage {
                assert(self.usages@.contains(usage));
                return true;
            }
            i += 1;
        }
        false
    }
}

} // verus!
