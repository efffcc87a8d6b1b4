use vstd::prelude::*;
use crate::state::JoinInfo;

verus! {

/// Bootstrap message: the administrator identities, validated and
/// normalized by the caller before they reach the core.
#[derive(Debug, Clone, PartialEq, Eq)]
pub struct InstantiateMsg {
    pub admins: Vec<String>,
}

/// A fungible-token payment forwarded into a join request: the
/// contributing participant, the amount sent, and the decoded target round.
#[derive(Debug, Clone, PartialEq, Eq)]
pub struct TokenReceiveMsg {
    pub sender: String,
    pub amount: u128,
    pub join: JoinInfo,
}

/// The actions the core executes.
#[derive(Debug, Clone, PartialEq, Eq)]
pub enum ExecuteMsg {
    BeginRaffleRound {
        expire_type: u8,
        minimum_stake: u128,
        winners_distribution: Vec<u32>,
        pay_token: Option<String>,
    },
    JoinRaffleRoundByJuno { id: u32 },
    JoinRaffleRoundByToken(TokenReceiveMsg),
    EndRaffleRound { id: u32 },
}

/// The read operations the core answers.
#[derive(Debug, Clone, PartialEq, Eq)]
pub enum QueryMsg {
    GetCount {},
    GetTotalDeposit {},
    GetRaffleInfo { id: u32 },
}

/// Response to `GetCount`: the current counter value.
#[derive(Debug, Clone, PartialEq, Eq)]
pub struct GetCountResponse {
    pub count: u32,
}

/// Response carrying a round's winner identifiers.
#[derive(Debug, Clone, PartialEq, Eq)]
pub struct GetWinnerResponse {
    pub winner: Vec<String>,
}

/// One fund movement the core instructs the external ledger to perform
/// when a round settles; the core only constructs these.
#[derive(Debug, Clone, PartialEq, Eq)]
pub enum TransferInstruction {
    /// A native-currency transfer.
    Native { to: String, denom: String, amount: u128 },
    /// A call into the fungible-token contract's transfer entry point.
    Token { contract: String, to: String, amount: u128 },
}

/// Does the instruction move `amount` to `to` in the round's settlement
/// asset: the native currency when `pay_token` is unset, the token
/// contract otherwise?
pub open spec fn transfer_matches(
    t: TransferInstruction,
    pay_token: Option<String>,
    to: String,
    amount: u128,
) -> bool {
    match pay_token {
        Option::None => match t {
            TransferInstruction::Native { to: t_to, denom, amount: a } => {
                t_to == to && denom@ == "ujuno"@ && a == amount
            },
            TransferInstruction::Token { .. } => false,
        },
        Option::Some(tok) => match t {
            TransferInstruction::Token { contract, to: t_to, amount: a } => {
                contract == tok && t_to == to && a == amount
            },
            TransferInstruction::Native { .. } => false,
        },
    }
}

} // verus!
