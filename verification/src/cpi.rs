//! Instructions for other on-chain programs, built by the SPL crates.
//!
//! The instructions are held as plain values: the program they address,
//! the accounts they name with their signer and writable flags, and their
//! data bytes.

use vstd::prelude::*;

use spl_token::solana_program::pubkey::Pubkey;

use crate::key::Key;

verus! {

/// One account named by an instruction.
#[derive(Clone, Copy, Debug)]
pub struct AccountMetaData {
    pub pubkey: Key,
    pub is_signer: bool,
    pub is_writable: bool,
}

/// An instruction for another program.
#[derive(Debug)]
pub struct CpiInstruction {
    pub program_id: Key,
    pub accounts: Vec<AccountMetaData>,
    pub data: Vec<u8>,
}

/// An instruction to invoke, with the seeds of the program-derived
/// addresses that sign it.
#[derive(Debug)]
pub struct CpiCall {
    pub instruction: CpiInstruction,
    pub signer_seeds: Vec<Vec<Vec<u8>>>,
}

/// The account entry for `pubkey` with the given flags.
pub open spec fn meta(pubkey: Key, is_signer: bool, is_writable: bool) -> AccountMetaData {
    AccountMetaData { pubkey, is_signer, is_writable }
}

/// The address of the SPL token program.
pub open spec fn token_program_address() -> Seq<u8> {
    seq![
        6u8, 221, 246, 225, 215, 101, 161, 147, 217, 203, 225, 70, 206, 235, 121, 172,
        28, 180, 133, 237, 95, 91, 55, 145, 58, 140, 245, 133, 126, 255, 0, 169,
    ]
}

/// The address of the SPL associated token account program.
pub open spec fn associated_token_program_address() -> Seq<u8> {
    seq![
        140u8, 151, 37, 143, 78, 36, 137, 241, 187, 61, 16, 41, 20, 142, 13, 131,
        11, 90, 19, 153, 218, 255, 16, 132, 4, 142, 123, 216, 219, 233, 248, 89,
    ]
}

/// The address of the system program: 32 zero bytes.
pub open spec fn system_program_address() -> Seq<u8> {
    Seq::new(32, |i: int| 0u8)
}

/// The little-endian bytes of `amount`.
pub open spec fn le_bytes(amount: u64) -> Seq<u8> {
    Seq::new(8, |i: int| ((amount as nat / pow256(i as nat)) % 256) as u8)
}

/// 256 raised to `n`.
pub open spec fn pow256(n: nat) -> nat
    decreases n,
{
    if n == 0 {
        1
    } else {
        256 * pow256((n - 1) as nat)
    }
}

/// The data of an SPL token `Transfer` instruction: tag 3, then the amount.
pub open spec fn transfer_data(amount: u64) -> Seq<u8> {
    seq![3u8] + le_bytes(amount)
}

/// The accounts of an SPL token `Transfer` instruction.
pub open spec fn transfer_accounts(
    source: Key,
    destination: Key,
    authority: Key,
    signers: Seq<Key>,
) -> Seq<AccountMetaData> {
    seq![meta(source, false, true), meta(destination, false, true), meta(authority, signers.len() == 0, false)]
        + signers.map_values(|k: Key| meta(k, true, false))
}

/// The associated token account of `wallet` for `mint` under `token_program`:
/// the program-derived address of the associated token account program for
/// the seeds wallet, token program and mint.
pub uninterp spec fn associated_token_address(wallet: Seq<u8>, mint: Seq<u8>, token_program: Seq<u8>) -> Seq<u8>;

/// `ix` is the SPL token `Transfer` of `amount` from `source` to
/// `destination` on the authority of `authority` (with the multisig
/// `signers`), addressed to `token_program`.
pub open spec fn is_transfer(
    ix: CpiInstruction,
    token_program: Key,
    source: Key,
    destination: Key,
    authority: Key,
    signers: Seq<Key>,
    amount: u64,
) -> bool {
    &&& ix.program_id == token_program
    &&& ix.accounts@ == transfer_accounts(source, destination, authority, signers)
    &&& ix.data@ == transfer_data(amount)
}

/// `ix` is the associated token account program's `Create` of the account
/// of `wallet` for `mint` under the token program at `token_program`, paid
/// by `funding`.
pub open spec fn is_create_associated_token_account(
    ix: CpiInstruction,
    funding: Key,
    wallet: Key,
    mint: Key,
    token_program: Seq<u8>,
) -> bool {
    &&& ix.program_id@ == associated_token_program_address()
    &&& ix.accounts@.len() == 6
    &&& ix.accounts@[0] == meta(funding, true, true)
    &&& ix.accounts@[1].pubkey@ == associated_token_address(wallet@, mint@, token_program)
    &&& !ix.accounts@[1].is_signer
    &&& ix.accounts@[1].is_writable
    &&& ix.accounts@[2] == meta(wallet, false, false)
    &&& ix.accounts@[3] == meta(mint, false, false)
    &&& ix.accounts@[4].pubkey@ == system_program_address()
    &&& !ix.accounts@[4].is_signer
    &&& !ix.accounts@[4].is_writable
    &&& ix.accounts@[5].pubkey@ == token_program
    &&& !ix.accounts@[5].is_signer
    &&& !ix.accounts@[5].is_writable
    &&& ix.data@ == seq![0u8]
}

/// `spl_token::ID`, the address of the SPL token program.
///
/// Trusted: the address is the one `spl_token` declares,
/// `TokenkegQfeZyiNwAJbNbGKPFXCWuBvf9Ss623VQ5DA`, whose bytes
/// `token_program_address` lists.
#[verifier::external_body]
pub(crate) fn token_program_id() -> (k: Key)
    ensures
        k@ == token_program_address(),
{
    Key { bytes: spl_token::ID.to_bytes() }
}

/// `spl_token::instruction::transfer`: the instruction that moves `amount`
/// tokens from `source` to `destination` on the authority of `authority`.
///
/// Trusted: as its source shows, it fails exactly when `token_program` is
/// not the SPL token program (with `IncorrectProgramId`, here `None`);
/// otherwise the instruction addresses `token_program`, names the source
/// and destination as writable, the authority as read-only and signing
/// when there are no multisig signers, then each signer as a read-only
/// signer, and its data is tag 3 followed by the amount in little-endian.
#[verifier::external_body]
pub(crate) fn transfer(
    token_program: &Key,
    source: &Key,
    destination: &Key,
    authority: &Key,
    signers: &Vec<Key>,
    amount: u64,
) -> (r: Option<CpiInstruction>)
    ensures
        r is Some <==> token_program@ == token_program_address(),
        r matches Some(ix) ==> is_transfer(ix, *token_program, *source, *destination, *authority, signers@, amount),
{
    let keys: Vec<Pubkey> = signers.iter().map(|k| Pubkey::new_from_array(k.bytes)).collect();
    let refs: Vec<&Pubkey> = keys.iter().collect();
    let ix = spl_token::instruction::transfer(
        &Pubkey::new_from_array(token_program.bytes),
        &Pubkey::new_from_array(source.bytes),
        &Pubkey::new_from_array(destination.bytes),
        &Pubkey::new_from_array(authority.bytes),
        &refs,
        amount,
    ).ok()?;
    let accounts = ix.accounts.iter().map(|m| AccountMetaData { pubkey: Key { bytes: m.pubkey.to_bytes() }, is_signer: m.is_signer, is_writable: m.is_writable }).collect();
    Some(CpiInstruction { program_id: Key { bytes: ix.program_id.to_bytes() }, accounts, data: ix.data })
}

/// `spl_associated_token_account::instruction::create_associated_token_account`:
/// the instruction that creates the associated token account of `wallet`
/// for `mint`, paid by `funding`.
///
/// Trusted: as its source shows, the instruction addresses the associated
/// token account program and names, in order, the funding account (writable,
/// signing), the derived associated token address (writable), the wallet,
/// the mint, the system program and `token_program` (all read-only), and its
/// data is the single byte 0 (`Create`). Left unsaid: the derived address is
/// only named; its derivation panics if no bump seed gives an address off
/// the curve, which happens with negligible probability and is not stated.
#[verifier::external_body]
pub(crate) fn create_associated_token_account(
    funding: &Key,
    wallet: &Key,
    mint: &Key,
    token_program: &Key,
) -> (ix: CpiInstruction)
    ensures
        ix.accounts@.len() == 6,
        ix.accounts@[1].pubkey@ == associated_token_address(wallet@, mint@, token_program@),
        is_create_associated_token_account(ix, *funding, *wallet, *mint, token_program@),
{
    let ix = spl_associated_token_account::instruction::create_associated_token_account(
        &Pubkey::new_from_array(funding.bytes),
        &Pubkey::new_from_array(wallet.bytes),
        &Pubkey::new_from_array(mint.bytes),
        &Pubkey::new_from_array(token_program.bytes),
    );
    let accounts = ix.accounts.iter().map(|m| AccountMetaData { pubkey: Key { bytes: m.pubkey.to_bytes() }, is_signer: m.is_signer, is_writable: m.is_writable }).collect();
    CpiInstruction { program_id: Key { bytes: ix.program_id.to_bytes() }, accounts, data: ix.data }
}

} // verus!
