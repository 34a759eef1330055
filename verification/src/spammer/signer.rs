//! A signer of the load generator: the wallet made from one private key,
//! kept with that key.

use vstd::prelude::*;
use alloy::network::EthereumWallet;
use alloy::signers::local::PrivateKeySigner;
use std::str::FromStr;
use crate::hex::hex_decoding;

verus! {

#[verifier::external_type_specification]
#[verifier::external_body]
pub struct ExEthereumWallet(EthereumWallet);

/// Whether `PrivateKeySigner::from_str` accepts a text as a private key.
pub uninterp spec fn private_key_accepted(key: Seq<char>) -> bool;

/// The wallet of one private key, with the key's text. Only
/// `signer_from_key` makes one, so the wallet is always the key's own.
#[derive(Debug)]
pub struct Signer {
    wallet: EthereumWallet,
    key: String,
}

impl View for Signer {
    type V = Seq<char>;

    /// The text of the private key the wallet was made from.
    closed spec fn view(&self) -> Seq<char> {
        self.key@
    }
}

impl Signer {
    /// The wallet that signs with this key.
    pub fn wallet(&self) -> &EthereumWallet {
        &self.wallet
    }
}

/// The signer of a private key: `PrivateKeySigner::from_str`, whose signer
/// `EthereumWallet::new` makes the wallet's default signer, kept with the
/// key's text. Whether the key is accepted is named `private_key_accepted`;
/// stated of it, from the source, is that an accepted key is 32 bytes of
/// hexadecimal text (with or without `0x`). That those bytes must also be a
/// valid secp256k1 secret (non-zero, below the group order) is left to the
/// name. The wallet itself is opaque here.
#[verifier::external_body]
pub(crate) fn signer_from_key(key: &str) -> (r: Option<Signer>)
    ensures
        r is Some <==> private_key_accepted(key@),
        r matches Some(s) ==> s@ == key@,
        r is Some ==> (hex_decoding(vstd::utf8::encode_utf8(key@)) matches Some(b) && b.len() == 32),
{
    match PrivateKeySigner::from_str(key) {
        Ok(signer) => Some(Signer { wallet: EthereumWallet::new(signer), key: key.to_owned() }),
        Err(_) => None,
    }
}

} // verus!
