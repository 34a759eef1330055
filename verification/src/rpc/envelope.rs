//! Signed Ethereum transactions, decoded by `alloy` from their EIP-2718 bytes.

use vstd::prelude::*;
use alloy::consensus::{EthereumTxEnvelope, TxEip4844Variant, TxEnvelope};
use alloy::eips::eip7594::BlobTransactionSidecarVariant;
use alloy::primitives::{Address, B256};
use alloy::rlp::Decodable;
use crate::hex::prefixed_hex;
use crate::text::ascii_lower;

verus! {

#[verifier::external_type_specification]
#[verifier::external_body]
#[verifier::reject_recursive_types(Eip4844)]
pub struct ExEthereumTxEnvelope<Eip4844>(EthereumTxEnvelope<Eip4844>);

#[verifier::external_type_specification]
#[verifier::external_body]
#[verifier::reject_recursive_types(T)]
pub struct ExTxEip4844Variant<T>(TxEip4844Variant<T>);

#[verifier::external_type_specification]
#[verifier::external_body]
pub struct ExBlobTransactionSidecarVariant(BlobTransactionSidecarVariant);

/// The message with which decoding a transaction from these bytes fails,
/// or `None` where it succeeds.
pub uninterp spec fn envelope_decode_failure(raw: Seq<u8>) -> Option<Seq<char>>;

/// The 32-byte hash of the transaction decoded from these bytes.
pub uninterp spec fn transaction_hash(raw: Seq<u8>) -> Seq<u8>;

/// The 20-byte address that `Signed::recover_signer` recovers from the
/// transaction decoded from these bytes, or the message with which it fails.
pub uninterp spec fn signer_recovery(raw: Seq<u8>) -> Result<Seq<u8>, Seq<char>>;

/// The EIP-55 checksummed text of a 20-byte address.
pub uninterp spec fn checksum_address_text(address: Seq<u8>) -> Seq<char>;

/// A transaction envelope decoded from raw bytes, kept with those bytes.
#[derive(Debug)]
pub struct SignedTransaction {
    envelope: TxEnvelope,
    raw: Vec<u8>,
}

impl View for SignedTransaction {
    type V = Seq<u8>;

    /// The bytes the envelope was decoded from.
    closed spec fn view(&self) -> Seq<u8> {
        self.raw@
    }
}

/// Decodes a transaction envelope with `<TxEnvelope as Decodable>::decode`.
///
/// The decoder (EIP-2718 network decoding in `alloy-eips`) is not written
/// out: whether it succeeds, and its error message, are named
/// `envelope_decode_failure` of the input bytes.
#[verifier::external_body]
pub(crate) fn decode_transaction(raw: &[u8]) -> (r: Result<SignedTransaction, String>)
    ensures
        match r {
            Ok(tx) => tx@ == raw@ && envelope_decode_failure(raw@) is None,
            Err(m) => envelope_decode_failure(raw@) == Some(m@),
        },
{
    let mut buf = raw;
    match TxEnvelope::decode(&mut buf) {
        Ok(envelope) => Ok(SignedTransaction { envelope, raw: raw.to_vec() }),
        Err(error) => Err(error.to_string()),
    }
}

/// The hash of a decoded transaction, from `TxEnvelope::hash`: the hash that
/// decoding computed, 32 bytes, named `transaction_hash` of the raw bytes.
#[verifier::external_body]
pub(crate) fn hash_bytes(tx: &SignedTransaction) -> (r: Vec<u8>)
    ensures
        r@ == transaction_hash(tx@),
        r@.len() == 32,
{
    tx.envelope.hash().to_vec()
}

/// The text of a 32-byte hash, from the `Display` of `B256`: `0x` and 64
/// lowercase hexadecimal digits. `B256::from_slice` panics on any other
/// length, hence the `requires`.
#[verifier::external_body]
pub(crate) fn hash_text(hash: &[u8]) -> (r: String)
    requires
        hash@.len() == 32,
    ensures
        r@ == prefixed_hex(hash@),
{
    B256::from_slice(hash).to_string()
}

/// Recovers the signer of a decoded transaction with the inherent
/// `Signed::recover_signer` of the envelope's signed transaction, one arm per
/// variant: the address recovered from the signature over the transaction's
/// signing hash (a high `s` is normalised first), 20 bytes, or the message of
/// the signature error; named `signer_recovery` of the raw bytes.
#[verifier::external_body]
pub(crate) fn recover_signer(tx: &SignedTransaction) -> (r: Result<Vec<u8>, String>)
    ensures
        match r {
            Ok(a) => signer_recovery(tx@) == Ok::<Seq<u8>, Seq<char>>(a@) && a@.len() == 20,
            Err(m) => signer_recovery(tx@) == Err::<Seq<u8>, Seq<char>>(m@),
        },
{
    let recovered = match &tx.envelope {
        TxEnvelope::Legacy(signed) => signed.recover_signer(),
        TxEnvelope::Eip2930(signed) => signed.recover_signer(),
        TxEnvelope::Eip1559(signed) => signed.recover_signer(),
        TxEnvelope::Eip4844(signed) => signed.recover_signer(),
        TxEnvelope::Eip7702(signed) => signed.recover_signer(),
    };
    match recovered {
        Ok(address) => Ok(address.to_vec()),
        Err(error) => Err(error.to_string()),
    }
}

/// The text of a 20-byte address, from the `Display` of `Address`: its
/// EIP-55 checksum form, `0x` and 40 hexadecimal digits whose letters are
/// upper- or lower-case by the address's hash. Which letters are upper-case
/// is left to the name `checksum_address_text`; stated is that lower-casing
/// the text gives the plain lowercase form. `Address::from_slice` panics on
/// any other length, hence the `requires`.
#[verifier::external_body]
pub(crate) fn address_text(address: &[u8]) -> (r: String)
    requires
        address@.len() == 20,
    ensures
        r@ == checksum_address_text(address@),
        vstd::utf8::is_ascii_chars(r@),
        ascii_lower(r@) == prefixed_hex(address@),
{
    Address::from_slice(address).to_string()
}

} // verus!
