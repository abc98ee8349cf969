//! The ledger's balance query: the argument sent for a wallet and the balance read from
//! the reply.
use vstd::prelude::*;
use crate::signer::{ledger_account_of, principal_of_text, Signer};

verus! {

/// The Candid argument of an `account_balance` query on the account with these 32 bytes,
/// or `None` where the bytes fail the account identifier's checksum.
pub uninterp spec fn balance_request_of(account: Seq<u8>) -> Option<Seq<u8>>;

/// The balance, in e8s, that an `account_balance` reply holds, or `None` where the reply
/// is no such record.
pub uninterp spec fn balance_in_reply(reply: Seq<u8>) -> Option<u64>;

/// Why a balance query could not be prepared or read.
#[derive(Clone, Copy, Debug, PartialEq, Eq, Structural)]
pub enum LedgerError {
    /// The wallet identifier is not the textual form of a principal.
    InvalidWalletId,
    /// The account could not be encoded as a query argument.
    UnencodableAccount,
    /// The ledger's reply is not a balance record.
    MalformedReply,
}

/// Relies on `candid::encode_args` on an `ic_ledger_types::AccountBalanceArgs`; the 32
/// bytes become its account through `AccountIdentifier::try_from`, which refuses them
/// where their checksum fails.
#[verifier::external_body]
fn encode_balance_args(account: &[u8]) -> (r: Option<Vec<u8>>)
    requires
        account@.len() == 32,
    ensures
        r is Some <==> balance_request_of(account@) is Some,
        r is Some ==> r->0@ == balance_request_of(account@)->0,
{
    let bytes: [u8; 32] = account.try_into().ok()?;
    let account = ic_ledger_types::AccountIdentifier::try_from(bytes).ok()?;
    candid::encode_args((ic_ledger_types::AccountBalanceArgs { account },)).ok()
}

/// Relies on `candid::decode_one` of an `ic_ledger_types::Tokens`, the record
/// `{ e8s : nat64 }` that the ledger answers `account_balance` with.
#[verifier::external_body]
fn decode_balance(reply: &[u8]) -> (r: Option<u64>)
    ensures
        r == balance_in_reply(reply@),
{
    candid::decode_one::<ic_ledger_types::Tokens>(reply).ok().map(|t| t.e8s())
}

/// The argument of the ledger's `account_balance` query for the default account of the
/// wallet whose principal `wallet_id` spells.
pub fn balance_request(wallet_id: &str) -> (r: Result<Vec<u8>, LedgerError>)
    ensures
        principal_of_text(wallet_id@) is None ==> r == Err::<Vec<u8>, LedgerError>(
            LedgerError::InvalidWalletId,
        ),
        principal_of_text(wallet_id@) is Some ==> {
            let account = ledger_account_of(principal_of_text(wallet_id@)->0);
            &&& balance_request_of(account) is None ==> r == Err::<Vec<u8>, LedgerError>(
                LedgerError::UnencodableAccount,
            )
            &&& balance_request_of(account) is Some ==> r is Ok && r->Ok_0@ == balance_request_of(
                account,
            )->0
        },
{
    let wallet = match Signer::from_text(wallet_id) {
        Some(w) => w,
        None => return Err(LedgerError::InvalidWalletId),
    };
    let account = match wallet.ledger_account() {
        Some(a) => a,
        None => return Err(LedgerError::InvalidWalletId),
    };
    match encode_balance_args(account.as_slice()) {
        Some(request) => Ok(request),
        None => Err(LedgerError::UnencodableAccount),
    }
}

/// The balance, in e8s, that the ledger's reply to `account_balance` holds.
pub fn balance_from_reply(reply: &[u8]) -> (r: Result<u64, LedgerError>)
    ensures
        balance_in_reply(reply@) is Some ==> r == Ok::<u64, LedgerError>(
            balance_in_reply(reply@)->0,
        ),
        balance_in_reply(reply@) is None ==> r == Err::<u64, LedgerError>(
            LedgerError::MalformedReply,
        ),
{
    match decode_balance(reply) {
        Some(e8s) => Ok(e8s),
        None => Err(LedgerError::MalformedReply),
    }
}

} // verus!
