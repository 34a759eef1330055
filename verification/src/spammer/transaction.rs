//! The throw-away transactions of the load generator: they are not meant to
//! be valid on chain, only to parse at the RPC server.

use vstd::prelude::*;
use alloy::eips::eip2718::Encodable2718;
use alloy::network::TransactionBuilder;
use alloy::primitives::{Address, Bytes, TxKind, U256};
use alloy::rpc::types::{TransactionInput, TransactionRequest};
use futures_util::FutureExt;
use crate::hex::{encode_hex, prefixed_hex};
use crate::spammer::random::{is_alphanumeric_byte, random_payload};
use crate::spammer::signer::Signer;

verus! {

/// Gas limit of every generated transaction.
pub const GAS_LIMIT: u64 = 25_000;

/// Fee cap and priority fee, in wei, of every generated transaction.
pub const FEE_PER_GAS: u128 = 7_000_000_000;

/// The chain every generated transaction names.
pub const CHAIN_ID: u64 = 1;

/// The EIP-2718 type of every generated transaction (EIP-1559).
pub const TRANSACTION_TYPE: u8 = 2;

/// The address every generated transaction calls: twenty zero bytes.
pub open spec fn zero_address() -> Seq<u8> {
    Seq::new(20, |i: int| 0u8)
}

/// The fields of a transaction before it is signed.
#[derive(Debug)]
pub struct UnsignedTransaction {
    pub nonce: u64,
    pub value: u128,
    pub gas: u64,
    pub to: Vec<u8>,
    pub max_fee_per_gas: u128,
    pub max_priority_fee_per_gas: u128,
    pub chain_id: u64,
    pub transaction_type: u8,
    pub input: Vec<u8>,
}

impl UnsignedTransaction {
    /// A type-2 call to the zero address on chain 1 with nonce 0, value 0,
    /// gas 25000, fees of 7 gwei and this calldata.
    pub fn with_input(input: Vec<u8>) -> (r: Self)
        ensures
            r.nonce == 0,
            r.value == 0,
            r.gas == GAS_LIMIT,
            r.to@ == zero_address(),
            r.max_fee_per_gas == FEE_PER_GAS,
            r.max_priority_fee_per_gas == FEE_PER_GAS,
            r.chain_id == CHAIN_ID,
            r.transaction_type == TRANSACTION_TYPE,
            r.input == input,
    {
        let mut to: Vec<u8> = Vec::new();
        let mut i: usize = 0;
        while i < 20
            invariant
                i <= 20,
                to@ == Seq::new(i as nat, |j: int| 0u8),
            decreases 20 - i,
        {
            to.push(0);
            i = i + 1;
        }
        UnsignedTransaction {
            nonce: 0,
            value: 0,
            gas: GAS_LIMIT,
            to,
            max_fee_per_gas: FEE_PER_GAS,
            max_priority_fee_per_gas: FEE_PER_GAS,
            chain_id: CHAIN_ID,
            transaction_type: TRANSACTION_TYPE,
            input,
        }
    }
}

/// The text a signed transaction is sent as: `0x` and the lowercase hex of
/// its EIP-2718 encoding.
pub fn transaction_hex(encoded: &[u8]) -> (r: String)
    ensures
        r@ == prefixed_hex(encoded@),
{
    let mut text = "0x".to_owned();
    let digits = encode_hex(encoded);
    proof {
        reveal_strlit("0x");
    }
    text.append(digits.as_str());
    text
}

/// The EIP-2718 encoding of the transaction with these fields, signed with
/// the wallet of this private key.
pub uninterp spec fn signed_encoding(
    key: Seq<char>,
    nonce: u64,
    value: u128,
    gas: u64,
    to: Seq<u8>,
    max_fee_per_gas: u128,
    max_priority_fee_per_gas: u128,
    chain_id: u64,
    transaction_type: u8,
    input: Seq<u8>,
) -> Seq<u8>;

/// Signs a transaction with these fields and encodes it: a
/// `TransactionRequest` with the fields (the calldata as both `data` and
/// `input`), built with `TransactionBuilder::build` on the signer's wallet,
/// then `Encodable2718::encoded_2718` of the signed envelope. The wallet's
/// local key signs with RFC 6979 nonces and no added entropy, so the bytes
/// are a function of the key and the fields alone, named `signed_encoding`.
/// The build is polled once (`now_or_never`); it awaits nothing, but where
/// it is not ready or fails the result is `None`, and when that happens is
/// not stated. `Address::from_slice` panics unless the address is 20 bytes,
/// hence the `requires`.
#[verifier::external_body]
pub(crate) fn sign_and_encode(signer: &Signer, fields: &UnsignedTransaction) -> (r: Option<Vec<u8>>)
    requires
        fields.to@.len() == 20,
    ensures
        r matches Some(b) ==> b@ == signed_encoding(
            signer@,
            fields.nonce,
            fields.value,
            fields.gas,
            fields.to@,
            fields.max_fee_per_gas,
            fields.max_priority_fee_per_gas,
            fields.chain_id,
            fields.transaction_type,
            fields.input@,
        ),
{
    let data = Bytes::from(fields.input.clone());
    let request = TransactionRequest {
        nonce: Some(fields.nonce), value: Some(U256::from(fields.value)), gas: Some(fields.gas),
        to: Some(TxKind::Call(Address::from_slice(&fields.to))),
        max_fee_per_gas: Some(fields.max_fee_per_gas), max_priority_fee_per_gas: Some(fields.max_priority_fee_per_gas),
        chain_id: Some(fields.chain_id), transaction_type: Some(fields.transaction_type),
        input: TransactionInput { data: Some(data.clone()), input: Some(data) },
        ..Default::default()
    };
    match request.build(signer.wallet()).now_or_never() {
        Some(Ok(signed)) => Some(signed.encoded_2718()),
        Some(Err(_)) | None => None,
    }
}

/// A calldata the load generator may draw: 32 ASCII letters and digits.
pub open spec fn is_payload(p: Seq<u8>) -> bool {
    p.len() == 32 && forall|i: int| 0 <= i < 32 ==> is_alphanumeric_byte(#[trigger] p[i])
}

/// The encoding of a generated transaction with this calldata, signed with
/// this key: nonce 0, value 0, gas 25000, a call to the zero address, fees
/// of 7 gwei, chain 1, type 2.
pub open spec fn generated_encoding(key: Seq<char>, payload: Seq<u8>) -> Seq<u8> {
    signed_encoding(
        key,
        0,
        0,
        GAS_LIMIT,
        zero_address(),
        FEE_PER_GAS,
        FEE_PER_GAS,
        CHAIN_ID,
        TRANSACTION_TYPE,
        payload,
    )
}

/// A throw-away transaction to send to the RPC server: a random calldata of
/// 32 letters and digits, the fixed fields of `with_input`, signed with this
/// signer's key and sent as `0x` and the lowercase hex of its encoding.
/// `None` where signing fails.
pub fn create_transaction(signer: &Signer) -> (r: Option<String>)
    ensures
        r matches Some(s) ==> exists|p: Seq<u8>|
            #![trigger generated_encoding(signer@, p)]
            is_payload(p) && s@ == prefixed_hex(generated_encoding(signer@, p)),
{
    let payload = random_payload();
    let ghost p = payload@;
    let fields = UnsignedTransaction::with_input(payload);
    match sign_and_encode(signer, &fields) {
        Some(encoded) => {
            let text = transaction_hex(&encoded);
            assert(is_payload(p) && text@ == prefixed_hex(generated_encoding(signer@, p)));
            Some(text)
        },
        None => None,
    }
}

} // verus!
