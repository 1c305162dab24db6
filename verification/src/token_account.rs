use anchor_lang::AccountDeserialize;
use vstd::prelude::*;

use crate::pubkey::Pubkey;

verus! {

/// `anchor_lang::error::Error`, the error with which the ledger framework
/// refuses account data. Nothing is known of what it holds.
#[verifier::external_type_specification]
#[verifier::external_body]
pub struct ExFrameworkError(anchor_lang::error::Error);

/// Bytes that a token account takes.
pub const TOKEN_ACCOUNT_LEN: usize = 165;

/// A token account as it is presented to an operation: its address and the
/// bytes stored under it.
#[derive(Clone, Debug, PartialEq, Eq)]
pub struct TokenAccountInfo {
    pub key: Pubkey,
    pub data: Vec<u8>,
}

/// The four bytes at `at` are the tag of an optional field: little-endian 0
/// (absent) or 1 (present).
pub open spec fn option_tag_is_valid(data: Seq<u8>, at: int) -> bool {
    &&& data[at] == 0 || data[at] == 1
    &&& data[at + 1] == 0
    &&& data[at + 2] == 0
    &&& data[at + 3] == 0
}

/// The bytes are a token account in use: `TOKEN_ACCOUNT_LEN` bytes laid out as
/// mint (32), owner (32), amount (8), optional delegate (4 + 32), state (1),
/// optional native reserve (4 + 8), delegated amount (8), optional close
/// authority (4 + 32), with well-formed option tags and a state of 1
/// (initialized) or 2 (frozen).
pub open spec fn token_account_is_readable(data: Seq<u8>) -> bool {
    &&& data.len() == TOKEN_ACCOUNT_LEN
    &&& option_tag_is_valid(data, 72)
    &&& data[108] == 1 || data[108] == 2
    &&& option_tag_is_valid(data, 109)
    &&& option_tag_is_valid(data, 129)
}

/// The owner that a token account's bytes name, if they are a token account in
/// use.
pub open spec fn token_account_owner(data: Seq<u8>) -> Option<Seq<u8>> {
    if token_account_is_readable(data) {
        Some(data.subrange(32, 64))
    } else {
        None
    }
}

/// Reads the owner out of a token account's bytes with
/// `anchor_spl::token::TokenAccount::try_deserialize`.
///
/// Trusted, not proved: that the call succeeds exactly on the bytes that
/// `token_account_is_readable` describes, and that the owner it then reports is
/// bytes 32 to 63 of the data.
#[verifier::external_body]
pub(crate) fn read_token_account_owner(data: &[u8]) -> (r: Result<
    [u8; 32],
    anchor_lang::error::Error,
>)
    ensures
        r is Ok <==> token_account_is_readable(data@),
        r matches Ok(owner) ==> owner@ == data@.subrange(32, 64),
{
    let mut buf: &[u8] = data;
    match anchor_spl::token::TokenAccount::try_deserialize(&mut buf) {
        Ok(account) => Ok(account.owner.to_bytes()),
        Err(e) => Err(e),
    }
}

} // verus!
