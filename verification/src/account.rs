//! Token accounts: the raw payload as the ledger returns it, and the record
//! that the account decoder reads out of it.

use crate::text::{is_decimal, is_decimal_str};
use solana_account_decoder::parse_account_data::SplTokenAdditionalDataV2;
use solana_account_decoder::parse_token::{parse_token_v3, TokenAccountType};
use vstd::prelude::*;

verus! {

/// One account of the token program as the ledger returned it: its address
/// and its undecoded payload.
#[derive(Clone, Debug, PartialEq, Eq)]
pub struct RawAccount {
    pub address: String,
    pub payload: Vec<u8>,
}

/// A raw account as plain values.
pub struct RawAccountView {
    pub address: Seq<char>,
    pub payload: Seq<u8>,
}

impl View for RawAccount {
    type V = RawAccountView;

    open spec fn view(&self) -> RawAccountView {
        RawAccountView { address: self.address@, payload: self.payload@ }
    }
}

/// A token account in structured form. The amount is the balance in the
/// token's smallest unit, written in decimal, with no scale applied.
#[derive(Clone, Debug, PartialEq, Eq)]
pub struct DecodedTokenAccount {
    pub address: String,
    pub mint: String,
    pub owner: String,
    pub amount: String,
}

/// A decoded token account as plain values.
pub struct DecodedTokenAccountView {
    pub address: Seq<char>,
    pub mint: Seq<char>,
    pub owner: Seq<char>,
    pub amount: Seq<char>,
}

impl View for DecodedTokenAccount {
    type V = DecodedTokenAccountView;

    open spec fn view(&self) -> DecodedTokenAccountView {
        DecodedTokenAccountView {
            address: self.address@,
            mint: self.mint@,
            owner: self.owner@,
            amount: self.amount@,
        }
    }
}

impl DecodedTokenAccountView {
    /// The amount is a run of decimal digits.
    pub open spec fn wf(self) -> bool {
        is_decimal(self.amount)
    }
}

/// Why a payload gave no token account.
#[derive(Clone, Copy, Debug, PartialEq, Eq, Structural)]
pub enum DecodeError {
    /// The payload does not have the layout of a token account.
    NotTokenAccount,
    /// The payload was read, but its amount is not a run of decimal digits.
    InvalidAmount,
}

/// The three texts that the account decoder reads out of a payload.
pub struct TokenFields {
    pub mint: String,
    pub owner: String,
    pub amount: String,
}

/// What the decoder read, as plain values.
pub struct TokenFieldsView {
    pub mint: Seq<char>,
    pub owner: Seq<char>,
    pub amount: Seq<char>,
}

impl View for TokenFields {
    type V = TokenFieldsView;

    open spec fn view(&self) -> TokenFieldsView {
        TokenFieldsView { mint: self.mint@, owner: self.owner@, amount: self.amount@ }
    }
}

/// Mint, owner and amount as `solana_account_decoder` reports them for a
/// payload that it takes for a token account, when amounts are shown with
/// `decimals` decimals; `None` for every other payload.
pub uninterp spec fn parsed_token_account(payload: Seq<u8>, decimals: u8) -> Option<
    TokenFieldsView,
>;

/// What was read, as plain values.
pub open spec fn fields_view(fields: Option<TokenFields>) -> Option<TokenFieldsView> {
    match fields {
        Some(f) => Some(f@),
        None => None,
    }
}

/// Calls `solana_account_decoder::parse_token::parse_token_v3` with additional
/// data that holds `decimals` and nothing else. Trusted: the decoder's answer
/// depends on the payload and on `decimals` alone; what is handed on is the
/// mint, the owner and the raw amount of the `Account` variant, and `None`
/// where the decoder reports a mint, a multisig or an error.
#[verifier::external_body]
fn parse_token_payload(payload: &[u8], decimals: u8) -> (r: Option<TokenFields>)
    ensures
        fields_view(r) == parsed_token_account(payload@, decimals),
{
    let additional = SplTokenAdditionalDataV2::with_decimals(decimals);
    match parse_token_v3(payload, Some(&additional)) {
        Ok(TokenAccountType::Account(a)) => Some(
            TokenFields { mint: a.mint, owner: a.owner, amount: a.token_amount.amount },
        ),
        Ok(TokenAccountType::Mint(_)) => None,
        Ok(TokenAccountType::Multisig(_)) => None,
        Err(_) => None,
    }
}

/// The record made of an address and of what the decoder read, if anything.
pub open spec fn account_of_fields(
    address: Seq<char>,
    fields: Option<TokenFieldsView>,
) -> Result<DecodedTokenAccountView, DecodeError> {
    match fields {
        None => Err(DecodeError::NotTokenAccount),
        Some(f) => if is_decimal(f.amount) {
            Ok(
                DecodedTokenAccountView {
                    address,
                    mint: f.mint,
                    owner: f.owner,
                    amount: f.amount,
                },
            )
        } else {
            Err(DecodeError::InvalidAmount)
        },
    }
}

/// The outcome of decoding one raw account.
pub open spec fn decoded(raw: RawAccountView) -> Result<DecodedTokenAccountView, DecodeError> {
    account_of_fields(raw.address, parsed_token_account(raw.payload, 0))
}

/// The view of an outcome of decoding.
pub open spec fn outcome_view(r: Result<DecodedTokenAccount, DecodeError>) -> Result<
    DecodedTokenAccountView,
    DecodeError,
> {
    match r {
        Ok(a) => Ok(a@),
        Err(e) => Err(e),
    }
}

/// Whatever decodes carries its raw account's address and an amount that is a
/// run of decimal digits: no sign, no point.
pub proof fn lemma_decoded_is_well_formed(raw: RawAccountView)
    ensures
        decoded(raw) matches Ok(account) ==> account.wf() && account.address == raw.address,
{
}

impl RawAccount {
    /// The raw account at `address` with the given payload.
    pub fn new(address: String, payload: Vec<u8>) -> (raw: RawAccount)
        ensures
            raw@ == (RawAccountView { address: address@, payload: payload@ }),
    {
        RawAccount { address, payload }
    }
}

impl DecodedTokenAccount {
    /// A copy with the same four texts.
    pub fn duplicate(&self) -> (copy: DecodedTokenAccount)
        ensures
            copy@ == self@,
    {
        DecodedTokenAccount {
            address: self.address.clone(),
            mint: self.mint.clone(),
            owner: self.owner.clone(),
            amount: self.amount.clone(),
        }
    }
}

/// Builds the record of the account at `address` from what the decoder read.
/// Fails where the decoder read nothing, and where the amount it read is not
/// a run of decimal digits.
pub fn account_from_fields(address: String, fields: Option<TokenFields>) -> (r: Result<
    DecodedTokenAccount,
    DecodeError,
>)
    ensures
        outcome_view(r) == account_of_fields(address@, fields_view(fields)),
        r matches Ok(a) ==> a@.wf(),
{
    match fields {
        None => Err(DecodeError::NotTokenAccount),
        Some(f) => {
            if is_decimal_str(f.amount.as_str()) {
                Ok(
                    DecodedTokenAccount {
                        address,
                        mint: f.mint,
                        owner: f.owner,
                        amount: f.amount,
                    },
                )
            } else {
                Err(DecodeError::InvalidAmount)
            }
        },
    }
}

/// Decodes one raw account. Succeeds exactly where the account decoder takes
/// the payload for a token account and reads an amount that is a run of
/// decimal digits; the record then carries the raw account's address and the
/// mint, owner and amount that the decoder read, the amount in the token's
/// smallest unit.
pub fn decode(raw: &RawAccount) -> (r: Result<DecodedTokenAccount, DecodeError>)
    ensures
        outcome_view(r) == decoded(raw@),
        r matches Ok(a) ==> a@.wf() && a@.address == raw@.address,
{
    let fields: Option<TokenFields> = parse_token_payload(raw.payload.as_slice(), 0);
    account_from_fields(raw.address.clone(), fields)
}

} // verus!
