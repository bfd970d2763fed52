use pimpmypfp::{
    get_fee_token, get_mint_from_token_account, initialize, make_ata, pimp_my_jpeg, pimp_my_pfp,
    set_fee_receiver, set_fee_token, set_pimping_fee, withdraw, BaseAccount, CpiInstruction,
    ErrorCode, GetFeeToken, Initialize, Key, LamportBalances, PimpMyJpeg, PimpMyPfp, Refusal,
    SetFeeReceiver, SetFeeToken, SetPimpimgFee, Withdraw,
};
use spl_token::solana_program::pubkey::Pubkey;

fn key(b: u8) -> Key {
    Key::new_from_array([b; 32])
}

fn token_program() -> Key {
    Key::new_from_array(spl_token::ID.to_bytes())
}

fn account() -> BaseAccount {
    BaseAccount {
        owner: key(1),
        pimping_fee: 1_000,
        fee_receiver: key(2),
        fee_token: key(3),
        bump: 7,
    }
}

fn same_account(a: &BaseAccount, b: &BaseAccount) -> bool {
    a.owner == b.owner
        && a.pimping_fee == b.pimping_fee
        && a.fee_receiver == b.fee_receiver
        && a.fee_token == b.fee_token
        && a.bump == b.bump
}

fn check_ata_creation(ix: &CpiInstruction, funding: Key, wallet: Key, mint: Key) {
    let expected = spl_associated_token_account::get_associated_token_address(
        &Pubkey::new_from_array(wallet.bytes),
        &Pubkey::new_from_array(mint.bytes),
    );
    assert_eq!(ix.program_id.bytes, spl_associated_token_account::ID.to_bytes());
    assert_eq!(ix.accounts.len(), 6);
    assert_eq!(ix.accounts[0].pubkey, funding);
    assert!(ix.accounts[0].is_signer && ix.accounts[0].is_writable);
    assert_eq!(ix.accounts[1].pubkey.bytes, expected.to_bytes());
    assert!(!ix.accounts[1].is_signer && ix.accounts[1].is_writable);
    assert_eq!(ix.accounts[2].pubkey, wallet);
    assert_eq!(ix.accounts[3].pubkey, mint);
    assert_eq!(ix.accounts[4].pubkey.bytes, [0u8; 32]);
    assert_eq!(ix.accounts[5].pubkey, token_program());
    for meta in &ix.accounts[2..] {
        assert!(!meta.is_signer && !meta.is_writable);
    }
    assert_eq!(ix.data, vec![0u8]);
}

#[test]
fn key_equality_is_bytewise() {
    let mut bytes = [9u8; 32];
    assert_eq!(Key::new_from_array(bytes), key(9));
    bytes[31] = 8;
    assert_ne!(Key::new_from_array(bytes), key(9));
    assert_eq!(Key::new_from_array(bytes).to_bytes(), bytes);
}

#[test]
fn token_program_address_is_spl_token() {
    let call = make_ata(&key(4), &key(5), &key(6), &Vec::new());
    assert_eq!(
        call.instruction.accounts[5].pubkey.bytes,
        [
            6u8, 221, 246, 225, 215, 101, 161, 147, 217, 203, 225, 70, 206, 235, 121, 172, 28, 180,
            133, 237, 95, 91, 55, 145, 58, 140, 245, 133, 126, 255, 0, 169
        ]
    );
}

#[test]
fn associated_token_program_address_is_spl_ata() {
    let call = make_ata(&key(4), &key(5), &key(6), &Vec::new());
    assert_eq!(
        call.instruction.program_id.bytes,
        [
            140u8, 151, 37, 143, 78, 36, 137, 241, 187, 61, 16, 41, 20, 142, 13, 131, 11, 90, 19,
            153, 218, 255, 16, 132, 4, 142, 123, 216, 219, 233, 248, 89
        ]
    );
}

#[test]
fn make_ata_builds_the_creation() {
    let call = make_ata(&key(4), &key(5), &key(6), &Vec::new());
    check_ata_creation(&call.instruction, key(6), key(4), key(5));
    assert!(call.signer_seeds.is_empty());
}

#[test]
fn make_ata_signs_with_given_seeds() {
    let seeds = vec![b"pfp".to_vec(), vec![1, 2, 3]];
    let call = make_ata(&key(4), &key(5), &key(6), &seeds);
    assert_eq!(call.signer_seeds, vec![seeds]);
}

#[test]
fn initialize_sets_the_configuration() {
    let ctx = Initialize {
        initializer: key(10),
        base_account: key(11),
        fee_receiver: key(12),
        fee_token: key(13),
        ata: key(14),
        ata_is_empty: false,
    };
    let mut acct = account();
    let (create, info) = initialize(&ctx, &mut acct, 500);
    assert!(create.is_none());
    assert_eq!(acct.owner, key(10));
    assert_eq!(acct.pimping_fee, 500);
    assert_eq!(acct.fee_receiver, key(14));
    assert_eq!(acct.fee_token, key(13));
    assert_eq!(acct.bump, 7);
    assert_eq!(info.base_account, key(11));
    assert_eq!(info.pimping_fee, 500);
    assert_eq!(info.fee_token, key(13));
    assert_eq!(info.fee_receiver, key(14));
}

#[test]
fn initialize_creates_a_missing_token_account() {
    let ctx = Initialize {
        initializer: key(10),
        base_account: key(11),
        fee_receiver: key(12),
        fee_token: key(13),
        ata: key(14),
        ata_is_empty: true,
    };
    let mut acct = account();
    let (create, _) = initialize(&ctx, &mut acct, 500);
    let call = create.expect("creation");
    check_ata_creation(&call.instruction, key(10), key(12), key(13));
    assert!(call.signer_seeds.is_empty());
}

fn fee_token_ctx(payer: Key, fee_token: Key, empty: bool) -> SetFeeToken {
    SetFeeToken {
        base_account: key(11),
        new_receiver: key(20),
        payer,
        fee_token,
        new_fee_reciever_token_account: key(21),
        new_fee_reciever_token_account_is_empty: empty,
        new_fee_token_account: key(22),
    }
}

#[test]
fn set_fee_token_by_owner() {
    let mut acct = account();
    let r = set_fee_token(&fee_token_ctx(key(1), key(3), false), &mut acct);
    assert!(matches!(r, Ok(None)));
    assert_eq!(acct.fee_receiver, key(21));
    assert_eq!(acct.fee_token, key(22));
    assert_eq!(acct.owner, key(1));
    assert_eq!(acct.pimping_fee, 1_000);
}

#[test]
fn set_fee_token_creates_receiver_account() {
    let mut acct = account();
    let r = set_fee_token(&fee_token_ctx(key(1), key(3), true), &mut acct);
    let call = r.expect("accepted").expect("creation");
    check_ata_creation(&call.instruction, key(1), key(20), key(22));
}

#[test]
fn set_fee_token_refuses_stranger() {
    let mut acct = account();
    let r = set_fee_token(&fee_token_ctx(key(9), key(3), true), &mut acct);
    assert_eq!(r.err(), Some(Refusal::NotAuthorized));
    assert!(same_account(&acct, &account()));
}

#[test]
fn set_fee_token_refuses_wrong_token() {
    let mut acct = account();
    let r = set_fee_token(&fee_token_ctx(key(1), key(4), true), &mut acct);
    assert_eq!(r.err(), Some(Refusal::InvalidFeeToken));
    assert!(same_account(&acct, &account()));
}

fn receiver_ctx(payer: Key, fee_token: Key, empty: bool) -> SetFeeReceiver {
    SetFeeReceiver {
        base_account: key(11),
        new_receiver: key(20),
        payer,
        fee_token,
        new_fee_reciever_token_account: key(21),
        new_fee_reciever_token_account_is_empty: empty,
    }
}

#[test]
fn set_fee_receiver_by_owner() {
    let mut acct = account();
    let r = set_fee_receiver(&receiver_ctx(key(1), key(3), true), &mut acct);
    let call = r.expect("accepted").expect("creation");
    check_ata_creation(&call.instruction, key(1), key(20), key(3));
    assert_eq!(acct.fee_receiver, key(21));
    assert_eq!(acct.fee_token, key(3));
}

#[test]
fn set_fee_receiver_refusals() {
    let mut acct = account();
    assert_eq!(
        set_fee_receiver(&receiver_ctx(key(2), key(3), false), &mut acct).err(),
        Some(Refusal::NotAuthorized)
    );
    assert_eq!(
        set_fee_receiver(&receiver_ctx(key(1), key(2), false), &mut acct).err(),
        Some(Refusal::InvalidFeeToken)
    );
    assert!(same_account(&acct, &account()));
}

#[test]
fn set_pimping_fee_by_owner_and_stranger() {
    let mut acct = account();
    assert!(set_pimping_fee(&SetPimpimgFee { base_account: key(11), payer: key(1) }, &mut acct, 42).is_ok());
    assert_eq!(acct.pimping_fee, 42);
    assert_eq!(
        set_pimping_fee(&SetPimpimgFee { base_account: key(11), payer: key(2) }, &mut acct, 43),
        Err(Refusal::NotAuthorized)
    );
    assert_eq!(acct.pimping_fee, 42);
}

fn jpeg_ctx(receiver: Key, program: Key) -> PimpMyJpeg {
    PimpMyJpeg {
        base_account: key(11),
        payer: key(30),
        fee_reciever_token_account: receiver,
        fee_payer_token_account: key(31),
        token_program: program,
    }
}

#[test]
fn pimp_my_jpeg_pays_the_fee() {
    let acct = account();
    let (call, event) = pimp_my_jpeg(&jpeg_ctx(key(2), token_program()), &acct).expect("accepted");
    let ix = &call.instruction;
    assert_eq!(ix.program_id, token_program());
    assert_eq!(ix.data, vec![3u8, 0xe8, 0x03, 0, 0, 0, 0, 0, 0]);
    assert_eq!(ix.accounts.len(), 3);
    assert_eq!(ix.accounts[0].pubkey, key(31));
    assert!(ix.accounts[0].is_writable && !ix.accounts[0].is_signer);
    assert_eq!(ix.accounts[1].pubkey, key(2));
    assert!(ix.accounts[1].is_writable && !ix.accounts[1].is_signer);
    assert_eq!(ix.accounts[2].pubkey, key(30));
    assert!(!ix.accounts[2].is_writable && ix.accounts[2].is_signer);
    assert!(call.signer_seeds.is_empty());
    assert_eq!(event.user, key(30));
    assert!(!event.is_nft);
}

#[test]
fn pimp_my_jpeg_refusals() {
    let acct = account();
    assert_eq!(
        pimp_my_jpeg(&jpeg_ctx(key(5), token_program()), &acct).err(),
        Some(Refusal::InvalidPaymentReceiver)
    );
    assert_eq!(
        pimp_my_jpeg(&jpeg_ctx(key(2), key(5)), &acct).err(),
        Some(Refusal::IncorrectProgramId)
    );
    assert_eq!(
        pimp_my_jpeg(&jpeg_ctx(key(5), key(5)), &acct).err(),
        Some(Refusal::InvalidPaymentReceiver)
    );
}

#[test]
fn pimp_my_pfp_reports_the_mint() {
    let acct = account();
    let mut data: Vec<u8> = (0u8..32).collect();
    data.extend_from_slice(&[0xff; 133]);
    let ctx = PimpMyPfp {
        base_account: key(11),
        payer: key(30),
        nft_token_account: key(32),
        fee_reciever_token_account: key(2),
        fee_payer_token_account: key(31),
        token_program: token_program(),
    };
    let (call, event) = pimp_my_pfp(&ctx, &acct, &data).expect("accepted");
    assert_eq!(event.nft_address.bytes.to_vec(), (0u8..32).collect::<Vec<u8>>());
    assert_eq!(event.user, key(30));
    assert!(event.is_nft);
    assert_eq!(call.instruction.data[0], 3);
    assert_eq!(call.instruction.accounts[1].pubkey, key(2));
}

#[test]
fn pimp_my_pfp_refuses_wrong_receiver() {
    let acct = account();
    let data = [7u8; 32];
    let ctx = PimpMyPfp {
        base_account: key(11),
        payer: key(30),
        nft_token_account: key(32),
        fee_reciever_token_account: key(3),
        fee_payer_token_account: key(31),
        token_program: token_program(),
    };
    assert_eq!(pimp_my_pfp(&ctx, &acct, &data).err(), Some(Refusal::InvalidPaymentReceiver));
}

#[test]
fn get_mint_reads_the_first_bytes() {
    let mut data = vec![0u8; 165];
    data[0] = 200;
    data[31] = 100;
    data[32] = 55;
    let mint = get_mint_from_token_account(&data);
    let mut expected = [0u8; 32];
    expected[0] = 200;
    expected[31] = 100;
    assert_eq!(mint, Key::new_from_array(expected));
}

#[test]
fn get_fee_token_reports_configuration() {
    let info = get_fee_token(&GetFeeToken { base_account: key(11) }, &account());
    assert_eq!(info.base_account, key(11));
    assert_eq!(info.pimping_fee, 1_000);
    assert_eq!(info.fee_token, key(3));
    assert_eq!(info.fee_receiver, key(2));
}

fn withdraw_ctx(owner: Key, base_lamports: u64, owner_lamports: u64) -> Withdraw {
    Withdraw {
        base_account: key(11),
        base_account_owner: key(40),
        base_account_lamports: base_lamports,
        owner,
        owner_lamports,
    }
}

#[test]
fn withdraw_moves_all_lamports() {
    assert_eq!(
        withdraw(&withdraw_ctx(key(40), 700, 300)),
        Ok(LamportBalances { base_account_lamports: 0, owner_lamports: 1_000 })
    );
}

#[test]
fn withdraw_refuses_others() {
    assert_eq!(withdraw(&withdraw_ctx(key(41), 700, 300)), Err(Refusal::NotAuthorized));
}

#[test]
fn withdraw_overflow() {
    assert_eq!(
        withdraw(&withdraw_ctx(key(40), 2, u64::MAX - 1)),
        Err(Refusal::Program(ErrorCode::Overflow))
    );
    assert_eq!(
        withdraw(&withdraw_ctx(key(40), 1, u64::MAX - 1)),
        Ok(LamportBalances { base_account_lamports: 0, owner_lamports: u64::MAX })
    );
}

#[test]
fn withdraw_into_itself_keeps_the_balance() {
    let ctx = Withdraw {
        base_account: key(40),
        base_account_owner: key(40),
        base_account_lamports: 900,
        owner: key(40),
        owner_lamports: 900,
    };
    assert_eq!(withdraw(&ctx), Ok(LamportBalances { base_account_lamports: 0, owner_lamports: 900 }));
}

#[test]
fn messages() {
    assert_eq!(Refusal::NotAuthorized.message(), "Not authorized");
    assert_eq!(Refusal::InvalidFeeToken.message(), "invalid fee token");
    assert_eq!(Refusal::InvalidPaymentReceiver.message(), "Not valid payment reciever");
    assert_eq!(
        Refusal::IncorrectProgramId.message(),
        spl_token::solana_program::program_error::ProgramError::IncorrectProgramId.to_string()
    );
    assert_eq!(
        ErrorCode::Unauthorized.message(),
        "You are not authorized to perform this action."
    );
    assert_eq!(ErrorCode::Overflow.name(), "Overflow");
    assert_eq!(Refusal::Program(ErrorCode::InsufficientFunds).message(), "InsufficientFunds");
}
