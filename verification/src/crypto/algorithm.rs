//! The capability contract of an algorithm provider.

use crate::crypto::key::{CryptoKey, CryptoKeyView, KeyData, KeyFormat, KeyUsage};
use crate::error::Error;
use crate::value::Object;
use vstd::prelude::*;

verus! {

/// What holds of a key that an import produced: it grants no usage and no
/// extractability beyond what the caller asked for, and a key imported from
/// raw bytes holds exactly those bytes.
pub open spec fn imported(
    key: CryptoKeyView,
    format: KeyFormat,
    key_data: KeyData,
    extractable: bool,
    usages: Seq<KeyUsage>,
) -> bool {
    &&& key.extractable ==> extractable
    &&& key.usages.subset_of(usages.to_set())
    &&& (format == KeyFormat::Raw && key_data is Buffer) ==> key.material == key_data->Buffer_0@
}

/// What holds of the data that an export produced: the key was extractable,
/// and a raw export is the bytes of the key.
pub open spec fn exported(key: CryptoKeyView, format: KeyFormat, data: KeyData) -> bool {
    &&& key.extractable
    &&& format == KeyFormat::Raw ==> data is Buffer && data->Buffer_0@ == key.material
}

/// The operations of an algorithm. A provider implements `name` and any
/// subset of the others; each operation that it leaves out fails with
/// [`Error::unsupported`], which the caller can catch.
///
/// Keys, parameters and data are lent for the length of a call. The
/// parameters are loosely typed: a provider reads the members that concern
/// it and passes over the rest.
#[allow(unused_variables)]
pub trait CryptoAlgorithm {
    /// The name under which the algorithm is registered.
    fn name(&self) -> &'static str;

    /// The identifier of the algorithm in a structured key.
    fn get_jwk_identifier(&self) -> (result: Result<&'static str, Error>)
        default_ensures
            result is Err && result->Err_0.is_unsupported(),
    {
        Err(Error::unsupported())
    }

    /// Encrypts `data` under `key`.
    fn encrypt(&self, params: &Object, key: &CryptoKey, data: Vec<u8>) -> (result: Result<
        Vec<u8>,
        Error,
    >)
        default_ensures
            result is Err && result->Err_0.is_unsupported(),
    {
        Err(Error::unsupported())
    }

    /// Decrypts `data` under `key`.
    fn decrypt(&self, params: &Object, key: &CryptoKey, data: Vec<u8>) -> (result: Result<
        Vec<u8>,
        Error,
    >)
        default_ensures
            result is Err && result->Err_0.is_unsupported(),
    {
        Err(Error::unsupported())
    }

    /// Signs `data` under `key`.
    fn sign(&self, params: &Object, key: &CryptoKey, data: Vec<u8>) -> (result: Result<
        Vec<u8>,
        Error,
    >)
        default_ensures
            result is Err && result->Err_0.is_unsupported(),
    {
        Err(Error::unsupported())
    }

    /// Whether `signature` is the signature of `data` under `key`. The one
    /// operation that answers with a truth value and no buffer.
    fn verify(
        &self,
        params: &Object,
        key: &CryptoKey,
        signature: Vec<u8>,
        data: Vec<u8>,
    ) -> (result: Result<bool, Error>)
        default_ensures
            result is Err && result->Err_0.is_unsupported(),
    {
        Err(Error::unsupported())
    }

    /// The digest of `data`.
    fn digest(&self, params: &Object, data: Vec<u8>) -> (result: Result<Vec<u8>, Error>)
        default_ensures
            result is Err && result->Err_0.is_unsupported(),
    {
        Err(Error::unsupported())
    }

    /// Derives `length` bits from `base_key`.
    fn derive_bits(&self, params: &Object, base_key: CryptoKey, length: usize) -> (result: Result<
        Vec<u8>,
        Error,
    >)
        default_ensures
            result is Err && result->Err_0.is_unsupported(),
    {
        Err(Error::unsupported())
    }

    /// Exports `key` in `format` and encrypts the export under
    /// `wrapping_key`.
    fn wrap_key(
        &self,
        params: &Object,
        format: KeyFormat,
        key: &CryptoKey,
        wrapping_key: CryptoKey,
    ) -> (result: Result<Vec<u8>, Error>)
        default_ensures
            result is Err && result->Err_0.is_unsupported(),
    {
        Err(Error::unsupported())
    }

    /// Decrypts `wrapped_key` under `unwrapping_key`, into the encoding of
    /// a key in `format`.
    fn unwrap_key(
        &self,
        params: &Object,
        format: KeyFormat,
        wrapped_key: Vec<u8>,
        unwrapping_key: &CryptoKey,
        extractable: bool,
        usages: Vec<KeyUsage>,
    ) -> (result: Result<Vec<u8>, Error>)
        default_ensures
            result is Err && result->Err_0.is_unsupported(),
    {
        Err(Error::unsupported())
    }

    /// Makes a new key.
    fn generate_key(&self, params: &Object, extractable: bool, usages: Vec<KeyUsage>) -> (result:
        Result<CryptoKey, Error>)
        default_ensures
            result is Err && result->Err_0.is_unsupported(),
    {
        Err(Error::unsupported())
    }

    /// Imports a key from its external form. The key that comes back is no
    /// more extractable and has no more usages than the caller asked for.
    fn import_key(
        &self,
        params: &Object,
        format: KeyFormat,
        key_data: KeyData,
        extractable: bool,
        usages: Vec<KeyUsage>,
    ) -> (result: Result<CryptoKey, Error>)
        ensures
            result matches Ok(key) ==> imported(key@, format, key_data, extractable, usages@),
        default_ensures
            result is Err && result->Err_0.is_unsupported(),
    {
        Err(Error::unsupported())
    }

    /// Exports a key to an external form. Only an extractable key is
    /// exported.
    fn export_key(&self, format: KeyFormat, key: &CryptoKey) -> (result: Result<KeyData, Error>)
        ensures
            result matches Ok(data) ==> exported(key@, format, data),
        default_ensures
            result is Err && result->Err_0.is_unsupported(),
    {
        Err(Error::unsupported())
    }

    /// The length in bits of a key that is derived with `params`, for a
    /// caller that did not state it.
    fn get_key_length(&self, params: &Object) -> (result: Result<usize, Error>)
        default_ensures
            result is Err && result->Err_0.is_unsupported(),
    {
        Err(Error::unsupported())
    }
}

/// A key that was imported from raw bytes exports, in the raw format, to
/// the same bytes.
pub proof fn lemma_raw_round_trip(
    key_data: KeyData,
    extractable: bool,
    usages: Seq<KeyUsage>,
    key: CryptoKeyView,
    data: KeyData,
)
    requires
        key_data is Buffer,
        imported(key, KeyFormat::Raw, key_data, extractable, usages),
        exported(key, KeyFormat::Raw, data),
    ensures
        data is Buffer,
        data->Buffer_0@ == key_data->Buffer_0@,
{
}

} // verus!
