//! What holds of the program across its instructions.

use vstd::prelude::*;

use crate::cpi::{
    associated_token_address, associated_token_program_address, le_bytes, meta, pow256,
    system_program_address, token_program_address, transfer_data, CpiCall,
};
use crate::key::Key;
use crate::program::{
    account_info, creates_token_account, initialized, pays_fee, payment_refusal, set_fee_receiver_outcome, signer_seeds_for,
    set_fee_token_outcome, set_pimping_fee_outcome, withdraw_outcome, Initialize, SetFeeReceiver,
    SetFeeToken, SetPimpimgFee, Withdraw,
};
use crate::state::{BaseAccount, Refusal};

verus! {

/// One of the instructions by which the owner changes the configuration.
pub enum AdminRequest {
    SetFeeToken(SetFeeToken),
    SetFeeReceiver(SetFeeReceiver),
    SetPimpingFee(SetPimpimgFee, u64),
}

/// The signer of an administrative request.
pub open spec fn signer(request: AdminRequest) -> Key {
    match request {
        AdminRequest::SetFeeToken(ctx) => ctx.payer,
        AdminRequest::SetFeeReceiver(ctx) => ctx.payer,
        AdminRequest::SetPimpingFee(ctx, _) => ctx.payer,
    }
}

/// What one administrative request makes of the base account.
pub open spec fn admin_outcome(account: BaseAccount, request: AdminRequest) -> Result<BaseAccount, Refusal> {
    match request {
        AdminRequest::SetFeeToken(ctx) => set_fee_token_outcome(account, ctx),
        AdminRequest::SetFeeReceiver(ctx) => set_fee_receiver_outcome(account, ctx),
        AdminRequest::SetPimpingFee(ctx, fee) => set_pimping_fee_outcome(account, ctx, fee),
    }
}

/// The base account after the requests, in order; a refused request leaves
/// it as it was.
pub open spec fn apply_requests(account: BaseAccount, requests: Seq<AdminRequest>) -> BaseAccount
    decreases requests.len(),
{
    if requests.len() == 0 {
        account
    } else {
        let next = match admin_outcome(account, requests[0]) {
            Ok(changed) => changed,
            Err(_) => account,
        };
        apply_requests(next, requests.drop_first())
    }
}

/// An administrative request succeeds only when the owner signs it, and a
/// request the owner did not sign is answered `NotAuthorized`.
pub proof fn only_the_owner_reconfigures(account: BaseAccount, request: AdminRequest)
    ensures
        admin_outcome(account, request) is Ok ==> signer(request)@ == account.owner@,
        signer(request)@ != account.owner@ ==> admin_outcome(account, request) == Err::<BaseAccount, Refusal>(
            Refusal::NotAuthorized,
        ),
{
}

/// No administrative request changes the owner or the bump of the base
/// account, whatever requests come in whatever order.
pub proof fn owner_is_permanent(account: BaseAccount, requests: Seq<AdminRequest>)
    ensures
        apply_requests(account, requests).owner == account.owner,
        apply_requests(account, requests).bump == account.bump,
    decreases requests.len(),
{
    if requests.len() > 0 {
        let next = match admin_outcome(account, requests[0]) {
            Ok(changed) => changed,
            Err(_) => account,
        };
        owner_is_permanent(next, requests.drop_first());
    }
}

/// Requests that the owner did not sign leave the base account as it was.
pub proof fn strangers_change_nothing(account: BaseAccount, requests: Seq<AdminRequest>)
    requires
        forall|i: int| 0 <= i < requests.len() ==> #[trigger] signer(requests[i])@ != account.owner@,
    ensures
        apply_requests(account, requests) == account,
    decreases requests.len(),
{
    if requests.len() > 0 {
        assert(signer(requests[0])@ != account.owner@);
        let rest = requests.drop_first();
        assert forall|i: int| 0 <= i < rest.len() implies #[trigger] signer(rest[i])@ != account.owner@ by {
            assert(rest[i] == requests[i + 1]);
        }
        strangers_change_nothing(account, rest);
    }
}

/// A fee set by the owner is the fee that is then reported.
pub proof fn reported_fee_is_the_fee_set(account: BaseAccount, ctx: SetPimpimgFee, fee: u64, base_account: Key)
    requires
        ctx.payer@ == account.owner@,
    ensures
        set_pimping_fee_outcome(account, ctx, fee) matches Ok(changed) && account_info(
            changed,
            base_account,
        ).pimping_fee == fee,
{
}

/// A fee token and receiver set by the owner are the ones then reported.
pub proof fn reported_token_is_the_token_set(account: BaseAccount, ctx: SetFeeToken, base_account: Key)
    requires
        ctx.payer@ == account.owner@,
        ctx.fee_token@ == account.fee_token@,
    ensures
        set_fee_token_outcome(account, ctx) matches Ok(changed) && {
            let info = account_info(changed, base_account);
            &&& info.fee_token == ctx.new_fee_token_account
            &&& info.fee_receiver == ctx.new_fee_reciever_token_account
            &&& info.pimping_fee == account.pimping_fee
        },
{
}

/// A fee receiver set by the owner is the one then reported, with the fee
/// token unchanged.
pub proof fn reported_receiver_is_the_receiver_set(account: BaseAccount, ctx: SetFeeReceiver, base_account: Key)
    requires
        ctx.payer@ == account.owner@,
        ctx.fee_token@ == account.fee_token@,
    ensures
        set_fee_receiver_outcome(account, ctx) matches Ok(changed) && {
            let info = account_info(changed, base_account);
            &&& info.fee_receiver == ctx.new_fee_reciever_token_account
            &&& info.fee_token == account.fee_token
            &&& info.pimping_fee == account.pimping_fee
        },
{
}

/// The owner cannot move the fees to a new token without naming the
/// recorded fee token: such a request is answered `InvalidFeeToken`,
/// whether or not the new receiving account exists yet.
pub proof fn fee_token_change_needs_the_recorded_token(account: BaseAccount, ctx: SetFeeToken)
    requires
        ctx.fee_token@ != account.fee_token@,
    ensures
        set_fee_token_outcome(account, ctx) is Err,
        ctx.payer@ == account.owner@ ==> set_fee_token_outcome(account, ctx) == Err::<BaseAccount, Refusal>(
            Refusal::InvalidFeeToken,
        ),
{
}

/// The owner cannot move the fees to a new receiver without naming the
/// recorded fee token: such a request is answered `InvalidFeeToken`,
/// whether or not the new receiving account exists yet.
pub proof fn fee_receiver_change_needs_the_recorded_token(account: BaseAccount, ctx: SetFeeReceiver)
    requires
        ctx.fee_token@ != account.fee_token@,
    ensures
        set_fee_receiver_outcome(account, ctx) is Err,
        ctx.payer@ == account.owner@ ==> set_fee_receiver_outcome(account, ctx) == Err::<BaseAccount, Refusal>(
            Refusal::InvalidFeeToken,
        ),
{
}

/// A request signed by the owner and naming the recorded fee token is
/// accepted, and sets the new token and receiver and nothing else.
pub proof fn owner_with_recorded_token_moves_the_fees(account: BaseAccount, ctx: SetFeeToken)
    requires
        ctx.payer@ == account.owner@,
        ctx.fee_token@ == account.fee_token@,
    ensures
        set_fee_token_outcome(account, ctx) matches Ok(changed) && {
            &&& changed.fee_token == ctx.new_fee_token_account
            &&& changed.fee_receiver == ctx.new_fee_reciever_token_account
            &&& changed.owner == account.owner
            &&& changed.pimping_fee == account.pimping_fee
            &&& changed.bump == account.bump
        },
{
}

/// A request signed by the owner and naming the recorded fee token is
/// accepted, and sets the new receiver and nothing else.
pub proof fn owner_with_recorded_token_moves_the_receiver(account: BaseAccount, ctx: SetFeeReceiver)
    requires
        ctx.payer@ == account.owner@,
        ctx.fee_token@ == account.fee_token@,
    ensures
        set_fee_receiver_outcome(account, ctx) matches Ok(changed) && {
            &&& changed.fee_receiver == ctx.new_fee_reciever_token_account
            &&& changed.fee_token == account.fee_token
            &&& changed.owner == account.owner
            &&& changed.pimping_fee == account.pimping_fee
            &&& changed.bump == account.bump
        },
{
}

/// A payment into the configured receiver through the SPL token program is
/// never refused, whatever the fee and the rest of the configuration.
pub proof fn payment_to_the_receiver_is_accepted(account: BaseAccount, receiver: Key, token_program: Key)
    requires
        receiver@ == account.fee_receiver@,
        token_program@ == token_program_address(),
    ensures
        payment_refusal(account, receiver, token_program) is None,
{
}

/// A payment is refused only for paying elsewhere than the configured
/// receiver, or through another program than the SPL token program.
pub proof fn payment_refusals_have_a_cause(account: BaseAccount, receiver: Key, token_program: Key)
    ensures
        payment_refusal(account, receiver, token_program) == Some(Refusal::InvalidPaymentReceiver) <==> receiver@
            != account.fee_receiver@,
        payment_refusal(account, receiver, token_program) == Some(Refusal::IncorrectProgramId) <==> (receiver@
            == account.fee_receiver@ && token_program@ != token_program_address()),
{
}

/// All the fee payer's seeds, in order, sign as one signer; without seeds
/// nothing signs.
pub proof fn all_seeds_sign_together(seeds: Seq<Seq<u8>>)
    ensures
        seeds.len() > 0 ==> signer_seeds_for(seeds).len() == 1 && signer_seeds_for(seeds)[0] == seeds,
        seeds.len() == 0 ==> signer_seeds_for(seeds).len() == 0,
{
}

/// The reported configuration names the base account it was asked about and
/// holds that account's fee, fee token and receiver, whatever its state.
pub proof fn report_names_the_base_account(account: BaseAccount, base_account: Key)
    ensures
        account_info(account, base_account).base_account == base_account,
        account_info(account, base_account).pimping_fee == account.pimping_fee,
        account_info(account, base_account).fee_token == account.fee_token,
        account_info(account, base_account).fee_receiver == account.fee_receiver,
{
}

/// The value of eight little-endian bytes.
pub open spec fn le_value(bytes: Seq<u8>) -> int {
    bytes[0] + 256 * bytes[1] + 0x1_0000 * bytes[2] + 0x100_0000 * bytes[3] + 0x1_0000_0000 * bytes[4]
        + 0x100_0000_0000 * bytes[5] + 0x1_0000_0000_0000 * bytes[6] + 0x100_0000_0000_0000 * bytes[7]
}

/// The amount a transfer carries is written in full: its eight bytes read
/// back, little-endian, as the amount, so different fees give different
/// transfers.
pub proof fn transfer_carries_the_whole_amount(amount: u64)
    ensures
        transfer_data(amount).len() == 9,
        transfer_data(amount)[0] == 3,
        le_value(transfer_data(amount).drop_first()) == amount,
{
    reveal_with_fuel(pow256, 8);
    let b = le_bytes(amount);
    assert(transfer_data(amount).drop_first() =~= b);
    assert(b[0] == (amount as nat / 1) % 256);
    assert(b[1] == (amount as nat / 0x100) % 256);
    assert(b[2] == (amount as nat / 0x1_0000) % 256);
    assert(b[3] == (amount as nat / 0x100_0000) % 256);
    assert(b[4] == (amount as nat / 0x1_0000_0000) % 256);
    assert(b[5] == (amount as nat / 0x100_0000_0000) % 256);
    assert(b[6] == (amount as nat / 0x1_0000_0000_0000) % 256);
    assert(b[7] == (amount as nat / 0x100_0000_0000_0000) % 256);
    assert(amount == (amount / 1) % 256 + 256 * ((amount / 0x100) % 256) + 0x1_0000 * ((amount / 0x1_0000) % 256)
        + 0x100_0000 * ((amount / 0x100_0000) % 256) + 0x1_0000_0000 * ((amount / 0x1_0000_0000) % 256)
        + 0x100_0000_0000 * ((amount / 0x100_0000_0000) % 256) + 0x1_0000_0000_0000 * ((amount
        / 0x1_0000_0000_0000) % 256) + 0x100_0000_0000_0000 * ((amount / 0x100_0000_0000_0000) % 256))
        by (bit_vector);
}

/// An accepted payment is a plain SPL token transfer of the configured fee:
/// addressed to the given token program, debiting the payer's token account,
/// crediting the receiver, authorised by the payer's signature alone.
pub proof fn payment_is_a_plain_transfer_of_the_fee(
    call: CpiCall,
    account: BaseAccount,
    token_program: Key,
    source: Key,
    receiver: Key,
    payer: Key,
)
    requires
        pays_fee(call, account, token_program, source, receiver, payer),
    ensures
        call.instruction.program_id == token_program,
        call.instruction.accounts@ == seq![meta(source, false, true), meta(receiver, false, true), meta(payer, true, false)],
        call.instruction.data@ == transfer_data(account.pimping_fee),
        call.signer_seeds@.len() == 0,
{
    assert(seq![].map_values(|k: Key| meta(k, true, false)) =~= Seq::<crate::cpi::AccountMetaData>::empty());
}

/// A creation of a receiving token account is paid and signed by the
/// given payer, names the wallet and mint it is for, and addresses the
/// account derived for them under the SPL token program.
pub proof fn creation_is_for_the_wallet_and_mint(call: CpiCall, fee_payer: Key, wallet: Key, mint: Key)
    requires
        creates_token_account(call, fee_payer, wallet, mint),
    ensures
        call.instruction.program_id@ == associated_token_program_address(),
        call.instruction.accounts@.len() == 6,
        call.instruction.accounts@[0] == meta(fee_payer, true, true),
        call.instruction.accounts@[1].pubkey@ == associated_token_address(wallet@, mint@, token_program_address()),
        call.instruction.accounts@[1].is_writable,
        call.instruction.accounts@[2] == meta(wallet, false, false),
        call.instruction.accounts@[3] == meta(mint, false, false),
        call.instruction.accounts@[4].pubkey@ == system_program_address(),
        call.instruction.accounts@[5].pubkey@ == token_program_address(),
        call.instruction.data@ == seq![0u8],
        call.signer_seeds@.len() == 0,
{
}

/// A fee change by the owner sets the fee and nothing else.
pub proof fn fee_change_sets_only_the_fee(account: BaseAccount, ctx: SetPimpimgFee, fee: u64)
    ensures
        set_pimping_fee_outcome(account, ctx, fee) is Ok <==> ctx.payer@ == account.owner@,
        set_pimping_fee_outcome(account, ctx, fee) matches Ok(changed) ==> {
            &&& changed.pimping_fee == fee
            &&& changed.owner == account.owner
            &&& changed.fee_receiver == account.fee_receiver
            &&& changed.fee_token == account.fee_token
            &&& changed.bump == account.bump
        },
{
}

/// Initialization reports the configuration it sets: the initial fee, the
/// fee token, and the token account it names as receiver.
pub proof fn initialization_is_reported(account: BaseAccount, ctx: Initialize, initial_fee: u64)
    ensures
        account_info(initialized(account, ctx, initial_fee), ctx.base_account).base_account == ctx.base_account,
        account_info(initialized(account, ctx, initial_fee), ctx.base_account).pimping_fee == initial_fee,
        account_info(initialized(account, ctx, initial_fee), ctx.base_account).fee_token == ctx.fee_token,
        account_info(initialized(account, ctx, initial_fee), ctx.base_account).fee_receiver == ctx.ata,
        initialized(account, ctx, initial_fee).owner == ctx.initializer,
        initialized(account, ctx, initial_fee).bump == account.bump,
{
}

/// Whoever initialized the base account may then change its fee, and is
/// the only one who may.
pub proof fn initializer_controls_the_fee(
    account: BaseAccount,
    ctx: Initialize,
    initial_fee: u64,
    request: SetPimpimgFee,
    fee: u64,
)
    ensures
        set_pimping_fee_outcome(initialized(account, ctx, initial_fee), request, fee) is Ok
            <==> request.payer@ == ctx.initializer@,
{
}

/// Of two fees set by the owner one after the other, the second holds.
pub proof fn last_fee_set_holds(account: BaseAccount, ctx: SetPimpimgFee, first: u64, second: u64)
    requires
        ctx.payer@ == account.owner@,
    ensures
        set_pimping_fee_outcome(account, ctx, first) matches Ok(after_first) && set_pimping_fee_outcome(
            after_first,
            ctx,
            second,
        ) == set_pimping_fee_outcome(account, ctx, second),
{
}

/// An accepted payment moves exactly the configured fee, into the
/// configured receiver and nowhere else.
pub proof fn payments_go_to_the_receiver(
    call: CpiCall,
    account: BaseAccount,
    token_program: Key,
    source: Key,
    receiver: Key,
    payer: Key,
)
    requires
        pays_fee(call, account, token_program, source, receiver, payer),
        payment_refusal(account, receiver, token_program) is None,
    ensures
        call.instruction.accounts@[1].pubkey@ == account.fee_receiver@,
        call.instruction.accounts@[1].is_writable,
        call.instruction.accounts@[0].pubkey == source,
        call.instruction.accounts@[2].pubkey == payer,
        call.instruction.accounts@[2].is_signer,
        call.instruction.data@ == transfer_data(account.pimping_fee),
{
}

/// After the owner sets a fee, a payment into the configured receiver
/// through the token program moves exactly that fee.
pub proof fn payment_charges_the_fee_set(
    account: BaseAccount,
    ctx: SetPimpimgFee,
    fee: u64,
    call: CpiCall,
    token_program: Key,
    source: Key,
    payer: Key,
)
    requires
        ctx.payer@ == account.owner@,
        set_pimping_fee_outcome(account, ctx, fee) matches Ok(changed) && pays_fee(
            call,
            changed,
            token_program,
            source,
            changed.fee_receiver,
            payer,
        ),
    ensures
        call.instruction.data@ == transfer_data(fee),
        call.instruction.accounts@[1].pubkey == account.fee_receiver,
{
}

/// A withdrawal empties the base account into the receiving account and
/// creates no lamports: the two balances keep their sum, and when the two
/// are one account its balance is unchanged.
pub proof fn withdrawal_conserves_lamports(ctx: Withdraw)
    ensures
        withdraw_outcome(ctx) matches Ok(after) ==> {
            &&& after.base_account_lamports == 0
            &&& ctx.owner@ != ctx.base_account@ ==> after.base_account_lamports + after.owner_lamports
                == ctx.base_account_lamports + ctx.owner_lamports
            &&& ctx.owner@ == ctx.base_account@ ==> after.owner_lamports == ctx.base_account_lamports
        },
{
}

/// A withdrawal signed by anyone but the program that owns the base account
/// is refused; one so signed fails only when the sum overflows.
pub proof fn withdrawal_needs_the_owning_program(ctx: Withdraw)
    ensures
        ctx.owner@ != ctx.base_account_owner@ ==> withdraw_outcome(ctx) == Err::<
            crate::program::LamportBalances,
            Refusal,
        >(Refusal::NotAuthorized),
        ctx.owner@ == ctx.base_account_owner@ && ctx.owner_lamports as int + ctx.base_account_lamports as int
            <= u64::MAX ==> withdraw_outcome(ctx) is Ok,
{
}

} // verus!
