//! The program's instructions, each a decision from the accounts it is
//! given to the new state of the base account, the instruction it invokes
//! on another program and the event it reports.

use vstd::prelude::*;

use crate::cpi::{
    create_associated_token_account, is_create_associated_token_account, is_transfer, meta,
    token_program_address, token_program_id, transfer, transfer_data, CpiCall, CpiInstruction,
};
use crate::key::Key;
use crate::state::{BaseAccount, BaseAccountInfo, ErrorCode, JpegOrderPlaced, OrderPlaced, Refusal};

verus! {

/// The accounts given to `initialize`, by address.
#[derive(Clone, Copy, Debug)]
pub struct Initialize {
    pub initializer: Key,
    pub base_account: Key,
    pub fee_receiver: Key,
    pub fee_token: Key,
    pub ata: Key,
    /// Whether the `ata` account holds no data yet.
    pub ata_is_empty: bool,
}

/// The accounts given to `set_fee_token`, by address.
#[derive(Clone, Copy, Debug)]
pub struct SetFeeToken {
    pub base_account: Key,
    pub new_receiver: Key,
    pub payer: Key,
    pub fee_token: Key,
    pub new_fee_reciever_token_account: Key,
    /// Whether the new receiving token account holds no data yet.
    pub new_fee_reciever_token_account_is_empty: bool,
    pub new_fee_token_account: Key,
}

/// The accounts given to `set_pimping_fee`, by address.
#[derive(Clone, Copy, Debug)]
pub struct SetPimpimgFee {
    pub base_account: Key,
    pub payer: Key,
}

/// The accounts given to `set_fee_receiver`, by address.
#[derive(Clone, Copy, Debug)]
pub struct SetFeeReceiver {
    pub base_account: Key,
    pub new_receiver: Key,
    pub payer: Key,
    pub fee_token: Key,
    pub new_fee_reciever_token_account: Key,
    /// Whether the new receiving token account holds no data yet.
    pub new_fee_reciever_token_account_is_empty: bool,
}

/// The accounts given to `pimp_my_pfp`, by address.
#[derive(Clone, Copy, Debug)]
pub struct PimpMyPfp {
    pub base_account: Key,
    pub payer: Key,
    pub nft_token_account: Key,
    pub fee_reciever_token_account: Key,
    pub fee_payer_token_account: Key,
    pub token_program: Key,
}

/// The accounts given to `pimp_my_jpeg`, by address.
#[derive(Clone, Copy, Debug)]
pub struct PimpMyJpeg {
    pub base_account: Key,
    pub payer: Key,
    pub fee_reciever_token_account: Key,
    pub fee_payer_token_account: Key,
    pub token_program: Key,
}

/// The accounts given to `withdraw`: their addresses, the program that owns
/// the base account, and the lamports each holds.
#[derive(Clone, Copy, Debug)]
pub struct Withdraw {
    pub base_account: Key,
    /// The program that owns the base account.
    pub base_account_owner: Key,
    pub base_account_lamports: u64,
    pub owner: Key,
    pub owner_lamports: u64,
}

/// The accounts given to `get_fee_token`, by address.
#[derive(Clone, Copy, Debug)]
pub struct GetFeeToken {
    pub base_account: Key,
}

/// The lamports to write back, in this order, after a withdrawal.
#[derive(Clone, Copy, Debug, PartialEq, Eq, Structural)]
pub struct LamportBalances {
    pub base_account_lamports: u64,
    pub owner_lamports: u64,
}

/// The configuration that `get_fee_token` and `initialize` report.
pub open spec fn account_info(account: BaseAccount, base_account: Key) -> BaseAccountInfo {
    BaseAccountInfo {
        base_account,
        pimping_fee: account.pimping_fee,
        fee_token: account.fee_token,
        fee_receiver: account.fee_receiver,
    }
}

/// The signing seeds handed to the invocation: the fee payer's seeds as one
/// signer when there are any, no signer otherwise.
pub open spec fn signer_seeds_for(seeds: Seq<Seq<u8>>) -> Seq<Seq<Seq<u8>>> {
    if seeds.len() > 0 {
        seq![seeds]
    } else {
        seq![]
    }
}

/// `call` creates the associated token account of `wallet` for `mint` under
/// the SPL token program, paid by `fee_payer`, with no signer seeds.
pub open spec fn creates_token_account(call: CpiCall, fee_payer: Key, wallet: Key, mint: Key) -> bool {
    &&& is_create_associated_token_account(call.instruction, fee_payer, wallet, mint, token_program_address())
    &&& call.signer_seeds@.len() == 0
}

/// The base account after `initialize`: the initializer owns it, with the
/// given fee, paid in `fee_token` to the `ata` account.
pub open spec fn initialized(account: BaseAccount, ctx: Initialize, initial_fee: u64) -> BaseAccount {
    BaseAccount {
        owner: ctx.initializer,
        pimping_fee: initial_fee,
        fee_receiver: ctx.ata,
        fee_token: ctx.fee_token,
        bump: account.bump,
    }
}

/// What `set_fee_token` makes of the base account.
pub open spec fn set_fee_token_outcome(account: BaseAccount, ctx: SetFeeToken) -> Result<BaseAccount, Refusal> {
    if ctx.payer@ != account.owner@ {
        Err(Refusal::NotAuthorized)
    } else if account.fee_token@ != ctx.fee_token@ {
        Err(Refusal::InvalidFeeToken)
    } else {
        Ok(BaseAccount {
            fee_receiver: ctx.new_fee_reciever_token_account,
            fee_token: ctx.new_fee_token_account,
            ..account
        })
    }
}

/// What `set_fee_receiver` makes of the base account.
pub open spec fn set_fee_receiver_outcome(account: BaseAccount, ctx: SetFeeReceiver) -> Result<BaseAccount, Refusal> {
    if ctx.payer@ != account.owner@ {
        Err(Refusal::NotAuthorized)
    } else if account.fee_token@ != ctx.fee_token@ {
        Err(Refusal::InvalidFeeToken)
    } else {
        Ok(BaseAccount { fee_receiver: ctx.new_fee_reciever_token_account, ..account })
    }
}

/// What `set_pimping_fee` makes of the base account.
pub open spec fn set_pimping_fee_outcome(account: BaseAccount, ctx: SetPimpimgFee, new_fee: u64) -> Result<BaseAccount, Refusal> {
    if ctx.payer@ != account.owner@ {
        Err(Refusal::NotAuthorized)
    } else {
        Ok(BaseAccount { pimping_fee: new_fee, ..account })
    }
}

/// Why a payment into `receiver` through `token_program` is refused, if it is.
pub open spec fn payment_refusal(account: BaseAccount, receiver: Key, token_program: Key) -> Option<Refusal> {
    if receiver@ != account.fee_receiver@ {
        Some(Refusal::InvalidPaymentReceiver)
    } else if token_program@ != token_program_address() {
        Some(Refusal::IncorrectProgramId)
    } else {
        None
    }
}

/// `call` pays the configured fee from `source` to `receiver` on the
/// authority of `payer`, signed by nothing but the transaction.
pub open spec fn pays_fee(
    call: CpiCall,
    account: BaseAccount,
    token_program: Key,
    source: Key,
    receiver: Key,
    payer: Key,
) -> bool {
    &&& is_transfer(call.instruction, token_program, source, receiver, payer, seq![], account.pimping_fee)
    &&& call.signer_seeds@.len() == 0
}

/// The lamports held before the withdrawal by the receiving account, once
/// the base account has been emptied: none when the two are one account.
pub open spec fn owner_lamports_after_emptying(ctx: Withdraw) -> nat {
    if ctx.owner@ == ctx.base_account@ {
        0
    } else {
        ctx.owner_lamports as nat
    }
}

/// What `withdraw` makes of the two balances.
pub open spec fn withdraw_outcome(ctx: Withdraw) -> Result<LamportBalances, Refusal> {
    if ctx.owner@ != ctx.base_account_owner@ {
        Err(Refusal::NotAuthorized)
    } else if owner_lamports_after_emptying(ctx) + ctx.base_account_lamports > u64::MAX {
        Err(Refusal::Program(ErrorCode::Overflow))
    } else {
        Ok(LamportBalances {
            base_account_lamports: 0,
            owner_lamports: (owner_lamports_after_emptying(ctx) + ctx.base_account_lamports) as u64,
        })
    }
}

/// The instruction that creates the associated token account of `wallet`
/// for `mint` under the SPL token program, paid by `fee_payer`, and the
/// seeds that sign it: `fee_payer_seeds` as one signer, if it holds any.
pub fn make_ata(wallet: &Key, mint: &Key, fee_payer: &Key, fee_payer_seeds: &Vec<Vec<u8>>) -> (call: CpiCall)
    ensures
        is_create_associated_token_account(call.instruction, *fee_payer, *wallet, *mint, token_program_address()),
        call.signer_seeds.deep_view() == signer_seeds_for(fee_payer_seeds.deep_view()),
        call.signer_seeds@.len() == (if fee_payer_seeds@.len() > 0 { 1int } else { 0int }),
        fee_payer_seeds@.len() > 0 ==> call.signer_seeds.deep_view() == seq![fee_payer_seeds.deep_view()],
{
    let mut seeds: Vec<Vec<u8>> = Vec::new();
    let mut i: usize = 0;
    while i < fee_payer_seeds.len()
        invariant
            0 <= i <= fee_payer_seeds@.len(),
            seeds@.len() == i,
            forall|j: int| 0 <= j < i ==> #[trigger] seeds@[j]@ == fee_payer_seeds@[j]@,
        decreases fee_payer_seeds@.len() - i,
    {
        let seed: Vec<u8> = fee_payer_seeds[i].clone();
        assert(seed@ =~= fee_payer_seeds@[i as int]@);
        seeds.push(seed);
        i = i + 1;
    }
    assert(seeds.deep_view() =~= fee_payer_seeds.deep_view());
    let mut signer_seeds: Vec<Vec<Vec<u8>>> = Vec::new();
    if fee_payer_seeds.len() > 0 {
        signer_seeds.push(seeds);
    }
    assert(signer_seeds.deep_view() =~= signer_seeds_for(fee_payer_seeds.deep_view()));
    let token_program = token_program_id();
    let instruction = create_associated_token_account(fee_payer, wallet, mint, &token_program);
    CpiCall { instruction, signer_seeds }
}

/// The mint of a token account: the first 32 bytes of its data.
pub fn get_mint_from_token_account(data: &[u8]) -> (mint: Key)
    requires
        data@.len() >= 32,
    ensures
        mint@ == data@.subrange(0, 32),
{
    let mut bytes: [u8; 32] = [0u8; 32];
    let mut i: usize = 0;
    while i < 32
        invariant
            0 <= i <= 32,
            data@.len() >= 32,
            bytes@.len() == 32,
            forall|j: int| 0 <= j < i ==> bytes@[j] == data@[j],
        decreases 32 - i,
    {
        bytes[i] = data[i];
        i = i + 1;
    }
    let mint = Key::new_from_array(bytes);
    assert(mint@ =~= data@.subrange(0, 32));
    mint
}

/// Sets up the base account for its initializer: owner, fee, fee token and
/// the token account that receives the fees. When that token account holds
/// no data yet, also returns the instruction that creates it, paid by the
/// initializer. Reports the new configuration.
pub fn initialize(ctx: &Initialize, base_account: &mut BaseAccount, initial_fee: u64) -> (r: (Option<CpiCall>, BaseAccountInfo))
    ensures
        *final(base_account) == initialized(*old(base_account), *ctx, initial_fee),
        r.0 is Some <==> ctx.ata_is_empty,
        r.0 matches Some(call) ==> creates_token_account(call, ctx.initializer, ctx.fee_receiver, ctx.fee_token),
        r.1 == account_info(*final(base_account), ctx.base_account),
        final(base_account).owner == ctx.initializer,
        final(base_account).pimping_fee == initial_fee,
        final(base_account).fee_receiver == ctx.ata,
        final(base_account).fee_token == ctx.fee_token,
        final(base_account).bump == old(base_account).bump,
        r.1.base_account == ctx.base_account,
        r.1.pimping_fee == initial_fee,
        r.1.fee_token == ctx.fee_token,
        r.1.fee_receiver == ctx.ata,
{
    let create = if ctx.ata_is_empty {
        let no_seeds: Vec<Vec<u8>> = Vec::new();
        Some(make_ata(&ctx.fee_receiver, &ctx.fee_token, &ctx.initializer, &no_seeds))
    } else {
        None
    };
    base_account.owner = ctx.initializer;
    base_account.pimping_fee = initial_fee;
    base_account.fee_receiver = ctx.ata;
    base_account.fee_token = ctx.fee_token;
    let info = BaseAccountInfo {
        base_account: ctx.base_account,
        pimping_fee: base_account.pimping_fee,
        fee_token: base_account.fee_token,
        fee_receiver: base_account.fee_receiver,
    };
    (create, info)
}

/// Moves the fees to a new token: the owner names the current fee token
/// account and the new one, with the new receiving token account. When that
/// account holds no data yet, also returns the instruction that creates it
/// for `new_receiver`, paid by the owner.
pub fn set_fee_token(ctx: &SetFeeToken, base_account: &mut BaseAccount) -> (r: Result<Option<CpiCall>, Refusal>)
    ensures
        match set_fee_token_outcome(*old(base_account), *ctx) {
            Ok(account) => {
                &&& *final(base_account) == account
                &&& r matches Ok(create) && (create is Some <==> ctx.new_fee_reciever_token_account_is_empty)
                &&& r matches Ok(Some(call)) ==> creates_token_account(
                    call,
                    ctx.payer,
                    ctx.new_receiver,
                    ctx.new_fee_token_account,
                )
            },
            Err(refusal) => {
                &&& *final(base_account) == *old(base_account)
                &&& r matches Err(e) && e == refusal
            },
        },
        ctx.payer@ != old(base_account).owner@ ==> r == Err::<Option<CpiCall>, Refusal>(Refusal::NotAuthorized)
            && *final(base_account) == *old(base_account),
        ctx.payer@ == old(base_account).owner@ && ctx.fee_token@ != old(base_account).fee_token@ ==> r
            == Err::<Option<CpiCall>, Refusal>(Refusal::InvalidFeeToken) && *final(base_account) == *old(
            base_account,
        ),
        r is Ok ==> {
            &&& ctx.payer@ == old(base_account).owner@
            &&& ctx.fee_token@ == old(base_account).fee_token@
            &&& final(base_account).fee_token == ctx.new_fee_token_account
            &&& final(base_account).fee_receiver == ctx.new_fee_reciever_token_account
            &&& final(base_account).owner == old(base_account).owner
            &&& final(base_account).pimping_fee == old(base_account).pimping_fee
            &&& final(base_account).bump == old(base_account).bump
        },
        ctx.payer@ == old(base_account).owner@ && ctx.fee_token@ == old(base_account).fee_token@ ==> r is Ok,
        r matches Ok(create) ==> (create is Some <==> ctx.new_fee_reciever_token_account_is_empty),
        r matches Ok(Some(call)) ==> creates_token_account(call, ctx.payer, ctx.new_receiver, ctx.new_fee_token_account),
{
    if !ctx.payer.equals(&base_account.owner) {
        return Err(Refusal::NotAuthorized);
    }
    if !base_account.fee_token.equals(&ctx.fee_token) {
        return Err(Refusal::InvalidFeeToken);
    }
    let create = if ctx.new_fee_reciever_token_account_is_empty {
        let no_seeds: Vec<Vec<u8>> = Vec::new();
        Some(make_ata(&ctx.new_receiver, &ctx.new_fee_token_account, &ctx.payer, &no_seeds))
    } else {
        None
    };
    base_account.fee_receiver = ctx.new_fee_reciever_token_account;
    base_account.fee_token = ctx.new_fee_token_account;
    Ok(create)
}

/// Sends the fees to a new token account of the current fee token: the
/// owner names the fee token account and the new receiving token account.
/// When that account holds no data yet, also returns the instruction that
/// creates it for `new_receiver`, paid by the owner.
pub fn set_fee_receiver(ctx: &SetFeeReceiver, base_account: &mut BaseAccount) -> (r: Result<Option<CpiCall>, Refusal>)
    ensures
        match set_fee_receiver_outcome(*old(base_account), *ctx) {
            Ok(account) => {
                &&& *final(base_account) == account
                &&& r matches Ok(create) && (create is Some <==> ctx.new_fee_reciever_token_account_is_empty)
                &&& r matches Ok(Some(call)) ==> creates_token_account(call, ctx.payer, ctx.new_receiver, ctx.fee_token)
            },
            Err(refusal) => {
                &&& *final(base_account) == *old(base_account)
                &&& r matches Err(e) && e == refusal
            },
        },
        ctx.payer@ != old(base_account).owner@ ==> r == Err::<Option<CpiCall>, Refusal>(Refusal::NotAuthorized)
            && *final(base_account) == *old(base_account),
        ctx.payer@ == old(base_account).owner@ && ctx.fee_token@ != old(base_account).fee_token@ ==> r
            == Err::<Option<CpiCall>, Refusal>(Refusal::InvalidFeeToken) && *final(base_account) == *old(
            base_account,
        ),
        r is Ok ==> {
            &&& ctx.payer@ == old(base_account).owner@
            &&& ctx.fee_token@ == old(base_account).fee_token@
            &&& final(base_account).fee_receiver == ctx.new_fee_reciever_token_account
            &&& final(base_account).fee_token == old(base_account).fee_token
            &&& final(base_account).owner == old(base_account).owner
            &&& final(base_account).pimping_fee == old(base_account).pimping_fee
            &&& final(base_account).bump == old(base_account).bump
        },
        ctx.payer@ == old(base_account).owner@ && ctx.fee_token@ == old(base_account).fee_token@ ==> r is Ok,
        r matches Ok(create) ==> (create is Some <==> ctx.new_fee_reciever_token_account_is_empty),
        r matches Ok(Some(call)) ==> creates_token_account(call, ctx.payer, ctx.new_receiver, ctx.fee_token),
{
    if !ctx.payer.equals(&base_account.owner) {
        return Err(Refusal::NotAuthorized);
    }
    if !base_account.fee_token.equals(&ctx.fee_token) {
        return Err(Refusal::InvalidFeeToken);
    }
    let create = if ctx.new_fee_reciever_token_account_is_empty {
        let no_seeds: Vec<Vec<u8>> = Vec::new();
        Some(make_ata(&ctx.new_receiver, &ctx.fee_token, &ctx.payer, &no_seeds))
    } else {
        None
    };
    base_account.fee_receiver = ctx.new_fee_reciever_token_account;
    Ok(create)
}

/// Sets the price of a service; only the owner may.
pub fn set_pimping_fee(ctx: &SetPimpimgFee, base_account: &mut BaseAccount, new_set_pimping_fee: u64) -> (r: Result<(), Refusal>)
    ensures
        match set_pimping_fee_outcome(*old(base_account), *ctx, new_set_pimping_fee) {
            Ok(account) => *final(base_account) == account && r is Ok,
            Err(refusal) => *final(base_account) == *old(base_account) && r == Err::<(), Refusal>(refusal),
        },
        r is Ok <==> ctx.payer@ == old(base_account).owner@,
        r is Err ==> r == Err::<(), Refusal>(Refusal::NotAuthorized) && *final(base_account) == *old(base_account),
        r is Ok ==> {
            &&& final(base_account).pimping_fee == new_set_pimping_fee
            &&& final(base_account).owner == old(base_account).owner
            &&& final(base_account).fee_receiver == old(base_account).fee_receiver
            &&& final(base_account).fee_token == old(base_account).fee_token
            &&& final(base_account).bump == old(base_account).bump
        },
{
    if !ctx.payer.equals(&base_account.owner) {
        return Err(Refusal::NotAuthorized);
    }
    base_account.pimping_fee = new_set_pimping_fee;
    Ok(())
}

/// The payment of the configured fee from the payer's token account into
/// `receiver`, once `receiver` is checked against the configuration.
fn pay_fee(
    base_account: &BaseAccount,
    token_program: &Key,
    source: &Key,
    receiver: &Key,
    payer: &Key,
) -> (r: Result<CpiCall, Refusal>)
    ensures
        match payment_refusal(*base_account, *receiver, *token_program) {
            Some(refusal) => r matches Err(e) && e == refusal,
            None => r matches Ok(call) && pays_fee(call, *base_account, *token_program, *source, *receiver, *payer),
        },
{
    if !receiver.equals(&base_account.fee_receiver) {
        return Err(Refusal::InvalidPaymentReceiver);
    }
    let no_signers: Vec<Key> = Vec::new();
    match transfer(token_program, source, receiver, payer, &no_signers, base_account.pimping_fee) {
        Some(instruction) => Ok(CpiCall { instruction, signer_seeds: Vec::new() }),
        None => Err(Refusal::IncorrectProgramId),
    }
}

/// Places an order for an NFT profile picture: reads the NFT's mint from
/// its token account data, then pays the configured fee from the payer's
/// token account into the configured receiver, and reports the order.
pub fn pimp_my_pfp(ctx: &PimpMyPfp, base_account: &BaseAccount, nft_token_account_data: &[u8]) -> (r: Result<(CpiCall, OrderPlaced), Refusal>)
    requires
        nft_token_account_data@.len() >= 32,
    ensures
        match payment_refusal(*base_account, ctx.fee_reciever_token_account, ctx.token_program) {
            Some(refusal) => r matches Err(e) && e == refusal,
            None => r matches Ok((call, event)) && {
                &&& pays_fee(
                    call,
                    *base_account,
                    ctx.token_program,
                    ctx.fee_payer_token_account,
                    ctx.fee_reciever_token_account,
                    ctx.payer,
                )
                &&& event.user == ctx.payer
                &&& event.nft_address@ == nft_token_account_data@.subrange(0, 32)
                &&& event.is_nft
            },
        },
        ctx.fee_reciever_token_account@ != base_account.fee_receiver@ ==> r
            == Err::<(CpiCall, OrderPlaced), Refusal>(Refusal::InvalidPaymentReceiver),
        ctx.fee_reciever_token_account@ == base_account.fee_receiver@ && ctx.token_program@
            != token_program_address() ==> r == Err::<(CpiCall, OrderPlaced), Refusal>(Refusal::IncorrectProgramId),
        ctx.fee_reciever_token_account@ == base_account.fee_receiver@ && ctx.token_program@
            == token_program_address() ==> (r matches Ok((call, event)) && {
            &&& call.instruction.program_id == ctx.token_program
            &&& call.instruction.data@ == transfer_data(base_account.pimping_fee)
            &&& call.instruction.accounts@ == seq![
                meta(ctx.fee_payer_token_account, false, true),
                meta(ctx.fee_reciever_token_account, false, true),
                meta(ctx.payer, true, false),
            ]
            &&& call.signer_seeds@.len() == 0
            &&& event.user == ctx.payer
            &&& event.nft_address@ == nft_token_account_data@.subrange(0, 32)
            &&& event.is_nft
        }),
{
    let token_mint = get_mint_from_token_account(nft_token_account_data);
    let call = pay_fee(
        base_account,
        &ctx.token_program,
        &ctx.fee_payer_token_account,
        &ctx.fee_reciever_token_account,
        &ctx.payer,
    )?;
    Ok((call, OrderPlaced { user: ctx.payer, nft_address: token_mint, is_nft: true }))
}

/// Places an order for a plain picture: pays the configured fee from the
/// payer's token account into the configured receiver, and reports the
/// order.
pub fn pimp_my_jpeg(ctx: &PimpMyJpeg, base_account: &BaseAccount) -> (r: Result<(CpiCall, JpegOrderPlaced), Refusal>)
    ensures
        match payment_refusal(*base_account, ctx.fee_reciever_token_account, ctx.token_program) {
            Some(refusal) => r matches Err(e) && e == refusal,
            None => r matches Ok((call, event)) && {
                &&& pays_fee(
                    call,
                    *base_account,
                    ctx.token_program,
                    ctx.fee_payer_token_account,
                    ctx.fee_reciever_token_account,
                    ctx.payer,
                )
                &&& event.user == ctx.payer
                &&& !event.is_nft
            },
        },
        ctx.fee_reciever_token_account@ != base_account.fee_receiver@ ==> r
            == Err::<(CpiCall, JpegOrderPlaced), Refusal>(Refusal::InvalidPaymentReceiver),
        ctx.fee_reciever_token_account@ == base_account.fee_receiver@ && ctx.token_program@
            != token_program_address() ==> r == Err::<(CpiCall, JpegOrderPlaced), Refusal>(
            Refusal::IncorrectProgramId,
        ),
        ctx.fee_reciever_token_account@ == base_account.fee_receiver@ && ctx.token_program@
            == token_program_address() ==> (r matches Ok((call, event)) && {
            &&& call.instruction.program_id == ctx.token_program
            &&& call.instruction.data@ == transfer_data(base_account.pimping_fee)
            &&& call.instruction.accounts@ == seq![
                meta(ctx.fee_payer_token_account, false, true),
                meta(ctx.fee_reciever_token_account, false, true),
                meta(ctx.payer, true, false),
            ]
            &&& call.signer_seeds@.len() == 0
            &&& event.user == ctx.payer
            &&& !event.is_nft
        }),
{
    let call = pay_fee(
        base_account,
        &ctx.token_program,
        &ctx.fee_payer_token_account,
        &ctx.fee_reciever_token_account,
        &ctx.payer,
    )?;
    Ok((call, JpegOrderPlaced { user: ctx.payer, is_nft: false }))
}

/// Reports the configuration held by the base account.
pub fn get_fee_token(ctx: &GetFeeToken, base_account: &BaseAccount) -> (info: BaseAccountInfo)
    ensures
        info == account_info(*base_account, ctx.base_account),
        info.base_account == ctx.base_account,
        info.pimping_fee == base_account.pimping_fee,
        info.fee_token == base_account.fee_token,
        info.fee_receiver == base_account.fee_receiver,
{
    BaseAccountInfo {
        base_account: ctx.base_account,
        pimping_fee: base_account.pimping_fee,
        fee_token: base_account.fee_token,
        fee_receiver: base_account.fee_receiver,
    }
}

/// Empties the base account of its lamports into the receiving account,
/// when the receiving account is the program that owns the base account.
/// The base account is emptied first, so when the two are one account its
/// balance is unchanged.
pub fn withdraw(ctx: &Withdraw) -> (r: Result<LamportBalances, Refusal>)
    ensures
        r == withdraw_outcome(*ctx),
        ctx.owner@ != ctx.base_account_owner@ ==> r == Err::<LamportBalances, Refusal>(Refusal::NotAuthorized),
        r matches Ok(after) ==> {
            &&& ctx.owner@ == ctx.base_account_owner@
            &&& after.base_account_lamports == 0
            &&& ctx.owner@ != ctx.base_account@ ==> after.owner_lamports == ctx.owner_lamports
                + ctx.base_account_lamports
            &&& ctx.owner@ == ctx.base_account@ ==> after.owner_lamports == ctx.base_account_lamports
        },
        ctx.owner@ == ctx.base_account_owner@ && ctx.owner@ != ctx.base_account@ ==> (r is Err <==> ctx.owner_lamports
            + ctx.base_account_lamports > u64::MAX),
        ctx.owner@ == ctx.base_account_owner@ && ctx.owner@ == ctx.base_account@ ==> r is Ok,
{
    if !ctx.owner.equals(&ctx.base_account_owner) {
        return Err(Refusal::NotAuthorized);
    }
    let owner_lamports: u64 = if ctx.owner.equals(&ctx.base_account) {
        0
    } else {
        ctx.owner_lamports
    };
    match owner_lamports.checked_add(ctx.base_account_lamports) {
        Some(total) => Ok(LamportBalances { base_account_lamports: 0, owner_lamports: total }),
        None => Err(Refusal::Program(ErrorCode::Overflow)),
    }
}

} // verus!
