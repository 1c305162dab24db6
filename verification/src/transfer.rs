use vstd::prelude::*;

use crate::errors::BlinkPayError;
use crate::pubkey::Pubkey;
use crate::token_account::{token_account_owner, TokenAccountInfo};
use crate::utils::{
    is_sol_token, transfer_sol, transfer_spl_tokens, validate_token_account_ownership,
};

verus! {

/// A movement of funds that an operation has decided on and that the caller
/// must carry out, together with the record's new state, as one unit: if the
/// movement fails, the record goes back to what it was.
#[derive(Clone, Copy, Debug, PartialEq, Eq)]
pub enum TransferInstruction {
    /// Native currency, from one party's balance to another's.
    Sol { from: Pubkey, to: Pubkey, amount: u64 },
    /// Tokens, from one token account to another, authorised by the owner of
    /// the first and carried out by `token_program`.
    SplToken { from: Pubkey, to: Pubkey, authority: Pubkey, token_program: Pubkey, amount: u64 },
}

/// The accounts that come with an operation that moves funds from `source`.
#[derive(Clone, Debug, PartialEq, Eq)]
pub struct TransferAccounts {
    /// The source's own account, for native currency.
    pub source: Option<Pubkey>,
    /// The recipient's own account, for native currency.
    pub recipient: Option<Pubkey>,
    /// The source's token account, for tokens.
    pub source_token_account: Option<TokenAccountInfo>,
    /// The recipient's token account, for tokens.
    pub recipient_token_account: Option<Pubkey>,
    /// The program that moves tokens.
    pub token_program: Option<Pubkey>,
}

/// The native transfer of `amount` from `source` to `recipient`, or why the
/// accounts presented do not allow it: each of the two parties' accounts must
/// be there and be that party's.
pub open spec fn native_transfer(
    accounts: TransferAccounts,
    source: Pubkey,
    recipient: Pubkey,
    amount: u64,
) -> Result<TransferInstruction, BlinkPayError> {
    if accounts.source != Some(source) {
        Err(BlinkPayError::InvalidAuthority)
    } else if accounts.recipient != Some(recipient) {
        Err(BlinkPayError::InvalidRecipient)
    } else {
        Ok(TransferInstruction::Sol { from: source, to: recipient, amount })
    }
}

/// The token transfer of `amount` out of the token account of `source`, or why
/// the accounts presented do not allow it: both token accounts and the token
/// program must be there, and the source token account must be a token account
/// in use that `source` owns.
pub open spec fn token_transfer(accounts: TransferAccounts, source: Pubkey, amount: u64) -> Result<
    TransferInstruction,
    BlinkPayError,
> {
    if accounts.source_token_account is None {
        Err(BlinkPayError::InvalidTokenAccountOwner)
    } else if accounts.recipient_token_account is None {
        Err(BlinkPayError::InvalidAssociatedTokenAccount)
    } else if accounts.token_program is None {
        Err(BlinkPayError::InvalidTokenMint)
    } else if token_account_owner(accounts.source_token_account.unwrap().data@) != Some(source@) {
        Err(BlinkPayError::InvalidTokenAccountOwner)
    } else {
        Ok(
            TransferInstruction::SplToken {
                from: accounts.source_token_account.unwrap().key,
                to: accounts.recipient_token_account.unwrap(),
                authority: source,
                token_program: accounts.token_program.unwrap(),
                amount,
            },
        )
    }
}

/// The transfer of `amount` of the asset `token_mint` from `source` to
/// `recipient`: native where the asset is the native currency, a token
/// transfer otherwise.
pub open spec fn planned_transfer(
    accounts: TransferAccounts,
    token_mint: Pubkey,
    source: Pubkey,
    recipient: Pubkey,
    amount: u64,
) -> Result<TransferInstruction, BlinkPayError> {
    if token_mint == Pubkey::spec_default() {
        native_transfer(accounts, source, recipient, amount)
    } else {
        token_transfer(accounts, source, amount)
    }
}

/// Decides the transfer of `amount` of the asset `token_mint` from `source` to
/// `recipient` out of the accounts presented, and changes nothing.
pub fn plan_transfer(
    accounts: &TransferAccounts,
    token_mint: &Pubkey,
    source: &Pubkey,
    recipient: &Pubkey,
    amount: u64,
) -> (r: Result<TransferInstruction, BlinkPayError>)
    ensures
        r == planned_transfer(*accounts, *token_mint, *source, *recipient, amount),
{
    if is_sol_token(token_mint) {
        let source_account = match &accounts.source {
            Some(key) => key,
            None => { return Err(BlinkPayError::InvalidAuthority); },
        };
        if *source_account != *source {
            return Err(BlinkPayError::InvalidAuthority);
        }
        let recipient_account = match &accounts.recipient {
            Some(key) => key,
            None => { return Err(BlinkPayError::InvalidRecipient); },
        };
        if *recipient_account != *recipient {
            return Err(BlinkPayError::InvalidRecipient);
        }
        Ok(transfer_sol(source, recipient, amount))
    } else {
        let source_token_account = match &accounts.source_token_account {
            Some(account) => account,
            None => { return Err(BlinkPayError::InvalidTokenAccountOwner); },
        };
        let recipient_token_account = match &accounts.recipient_token_account {
            Some(key) => key,
            None => { return Err(BlinkPayError::InvalidAssociatedTokenAccount); },
        };
        let token_program = match &accounts.token_program {
            Some(key) => key,
            None => { return Err(BlinkPayError::InvalidTokenMint); },
        };
        match validate_token_account_ownership(source_token_account, source) {
            Ok(()) => {},
            Err(e) => { return Err(e); },
        }
        Ok(
            transfer_spl_tokens(
                &source_token_account.key,
                recipient_token_account,
                source,
                token_program,
                amount,
            ),
        )
    }
}

} // verus!
