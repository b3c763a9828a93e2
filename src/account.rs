use vstd::prelude::*;

use crate::context::ExecutionContext;
use crate::error::HyperliquidError;
use crate::hex_text::{
    hex_bytes, is_address_text, is_rendered_address, is_signing_key_text,
    lemma_rendered_address_is_address, strip_hex_prefix,
};
use alloy::primitives::Address;
use alloy::signers::local::PrivateKeySigner;

verus! {

/// Relies on alloy's `FromStr` for `Address`, which decodes the text with
/// const-hex's `decode_to_array::<_, 20>`: an optional `0x`/`0X` prefix, then
/// exactly forty hexadecimal digits, each pair one byte, high nibble first.
/// The address is handed out as its twenty bytes (`Address::into_array`);
/// the error is the decoder's message.
#[verifier::external_body]
fn decode_address(text: &str) -> (r: Result<[u8; 20], String>)
    ensures
        r is Ok <==> is_address_text(text@),
        r is Ok ==> r->Ok_0@ == hex_bytes(strip_hex_prefix(text@)),
{
    text.parse::<Address>().map(|a| a.into_array()).map_err(|e| e.to_string())
}

/// The wallet address that a signing key derives: the last twenty bytes of
/// the Keccak-256 digest of its public key, rendered as text.
pub uninterp spec fn wallet_address_of(private_key: Seq<char>) -> Seq<char>;

/// Relies on alloy's `FromStr` for `PrivateKeySigner`: const-hex decodes
/// thirty-two bytes (optional `0x`/`0X` prefix), then k256 accepts them as a
/// big-endian scalar only when it is non-zero and below the group order. The
/// signer's address is then rendered by alloy's `Debug` for `Address`: `0x`
/// and the twenty bytes as lower-case hexadecimal.
#[verifier::external_body]
fn derive_wallet_address(private_key: &str) -> (r: Result<String, String>)
    ensures
        r is Ok <==> is_signing_key_text(private_key@),
        r is Ok ==> r->Ok_0@ == wallet_address_of(private_key@),
        r is Ok ==> is_rendered_address(r->Ok_0@),
{
    private_key.parse::<PrivateKeySigner>()
        .map(|signer| format!("{:?}", signer.address()))
        .map_err(|e| e.to_string())
}

/// Reads an account address into its twenty bytes. Text that is not an
/// address is refused with `InvalidInput`, before anything is sent to the
/// venue.
pub fn parse_account_address(address: &str) -> (r: Result<[u8; 20], HyperliquidError>)
    ensures
        r is Ok <==> is_address_text(address@),
        r is Ok ==> r->Ok_0@ == hex_bytes(strip_hex_prefix(address@)),
        r is Err ==> r->Err_0 is InvalidInput,
{
    match decode_address(address) {
        Ok(a) => Ok(a),
        Err(message) => Err(HyperliquidError::InvalidInput { message }),
    }
}

/// Reads a signing key and derives its wallet address. Text that is not a
/// secp256k1 secret key is refused with `InvalidPrivateKey`. The same key
/// always yields the same address, and that address is itself accepted as
/// an account address by the read-only queries.
pub fn wallet_address_for_key(private_key: &str) -> (r: Result<String, HyperliquidError>)
    ensures
        r is Ok <==> is_signing_key_text(private_key@),
        r is Err ==> r->Err_0 is InvalidPrivateKey,
        r is Ok ==> r->Ok_0@ == wallet_address_of(private_key@),
        r is Ok ==> is_rendered_address(r->Ok_0@),
        r is Ok ==> is_address_text(r->Ok_0@),
{
    match derive_wallet_address(private_key) {
        Ok(address) => {
            proof {
                lemma_rendered_address_is_address(address@);
            }
            Ok(address)
        },
        Err(message) => Err(HyperliquidError::InvalidPrivateKey { message }),
    }
}

/// The first steps of opening an exchange session: the wallet address and
/// the session's task runner. The signing key is read before anything else
/// is set up, so a malformed key is refused with `InvalidPrivateKey` and no
/// runner is created. With a valid key the only other failure is a
/// `NetworkError` from the runner.
pub fn prepare_exchange(private_key: &str) -> (r: Result<(String, ExecutionContext), HyperliquidError>)
    ensures
        !is_signing_key_text(private_key@) ==> (r is Err && r->Err_0 is InvalidPrivateKey),
        is_signing_key_text(private_key@) ==> (r is Ok || r->Err_0 is NetworkError),
        r is Ok ==> r->Ok_0.0@ == wallet_address_of(private_key@),
        r is Ok ==> is_rendered_address(r->Ok_0.0@),
        r is Ok ==> is_address_text(r->Ok_0.0@),
{
    let wallet_address = match wallet_address_for_key(private_key) {
        Ok(a) => a,
        Err(e) => {
            return Err(e);
        },
    };
    let context = match ExecutionContext::new() {
        Ok(c) => c,
        Err(e) => {
            return Err(e);
        },
    };
    Ok((wallet_address, context))
}

} // verus!
