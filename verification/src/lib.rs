//! The decisions of a paid picture-ordering service on Solana: who may
//! configure it, what an order costs, where payments go, and the
//! instructions it hands to the SPL token and associated token account
//! programs.

pub mod cpi;
pub mod key;
pub mod laws;
pub mod program;
pub mod state;

pub use cpi::{AccountMetaData, CpiCall, CpiInstruction};
pub use key::Key;
pub use program::{
    get_fee_token, get_mint_from_token_account, initialize, make_ata, pimp_my_jpeg, pimp_my_pfp,
    set_fee_receiver, set_fee_token, set_pimping_fee, withdraw, GetFeeToken, Initialize,
    LamportBalances, PimpMyJpeg, PimpMyPfp, SetFeeReceiver, SetFeeToken, SetPimpimgFee, Withdraw,
};
pub use state::{BaseAccount, BaseAccountInfo, ErrorCode, JpegOrderPlaced, OrderPlaced, Refusal};
