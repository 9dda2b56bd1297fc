//! What the engine reads of the token program's state: a holding and a mint.

use crate::address::{address_of, Address};
use spl_token::solana_program::program_pack::Pack;
use vstd::prelude::*;

verus! {

/// A token holding: how many units of one mint an owner has in one account.
#[derive(Clone, Copy, Debug, PartialEq, Eq)]
pub struct TokenAccount {
    pub mint: Address,
    pub owner: Address,
    pub amount: u64,
}

/// A token identity and its circulating supply.
#[derive(Clone, Copy, Debug, PartialEq, Eq)]
pub struct TokenMint {
    pub supply: u64,
    pub decimals: u8,
}

/// What the token program reads out of the packed bytes of a holding: its
/// mint, its owner and its amount, or nothing where the bytes are no
/// initialized holding.
pub uninterp spec fn unpacked_account(data: Seq<u8>) -> Option<(Seq<u8>, Seq<u8>, u64)>;

/// What the token program reads out of the packed bytes of a mint: its supply
/// and its decimals, or nothing where the bytes are no initialized mint.
pub uninterp spec fn unpacked_mint(data: Seq<u8>) -> Option<(u64, u8)>;

/// Calls `spl_token::state::Account::unpack` and hands out the mint, the
/// owner and the amount it read. Unpacking is a pure function of the bytes;
/// the contract only gives its result a name.
#[verifier::external_body]
fn unpack_account(data: &[u8]) -> (fields: Option<([u8; 32], [u8; 32], u64)>)
    ensures
        match fields {
            Some((mint, owner, amount)) => unpacked_account(data@) == Some(
                (mint@, owner@, amount),
            ),
            None => unpacked_account(data@) is None,
        },
{
    match spl_token::state::Account::unpack(data) {
        Ok(account) => Some((account.mint.to_bytes(), account.owner.to_bytes(), account.amount)),
        Err(_) => None,
    }
}

/// Calls `spl_token::state::Mint::unpack` and hands out the supply and the
/// decimals it read. Unpacking is a pure function of the bytes; the contract
/// only gives its result a name.
#[verifier::external_body]
fn unpack_mint(data: &[u8]) -> (fields: Option<(u64, u8)>)
    ensures
        fields == unpacked_mint(data@),
{
    match spl_token::state::Mint::unpack(data) {
        Ok(mint) => Some((mint.supply, mint.decimals)),
        Err(_) => None,
    }
}

impl TokenAccount {
    /// The number of bytes the token program packs a holding into.
    pub const LEN: u64 = 165;

    /// The holding that packed bytes stand for, if any.
    pub open spec fn unpacked(data: Seq<u8>) -> Option<TokenAccount> {
        match unpacked_account(data) {
            Some((mint, owner, amount)) => Some(
                TokenAccount { mint: address_of(mint), owner: address_of(owner), amount },
            ),
            None => None,
        }
    }

    /// Reads a holding out of the bytes the token program packed it into.
    pub fn unpack(data: &[u8]) -> (holding: Option<TokenAccount>)
        ensures
            holding == Self::unpacked(data@),
    {
        match unpack_account(data) {
            Some((mint, owner, amount)) => {
                let holding = TokenAccount {
                    mint: Address { bytes: mint },
                    owner: Address { bytes: owner },
                    amount,
                };
                proof {
                    Address::lemma_view_injective(holding.mint, address_of(mint@));
                    Address::lemma_view_injective(holding.owner, address_of(owner@));
                }
                Some(holding)
            },
            None => None,
        }
    }
}

impl TokenMint {
    /// The number of bytes the token program packs a mint into.
    pub const LEN: u64 = 82;

    /// The mint that packed bytes stand for, if any.
    pub open spec fn unpacked(data: Seq<u8>) -> Option<TokenMint> {
        match unpacked_mint(data) {
            Some((supply, decimals)) => Some(TokenMint { supply, decimals }),
            None => None,
        }
    }

    /// Reads a mint out of the bytes the token program packed it into.
    pub fn unpack(data: &[u8]) -> (mint: Option<TokenMint>)
        ensures
            mint == Self::unpacked(data@),
    {
        match unpack_mint(data) {
            Some((supply, decimals)) => Some(TokenMint { supply, decimals }),
            None => None,
        }
    }
}

} // verus!
