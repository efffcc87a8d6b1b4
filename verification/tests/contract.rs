use juno_raffle::contract::ContractState;
use juno_raffle::error::ContractError;
use juno_raffle::msg::{ExecuteMsg, InstantiateMsg, TokenReceiveMsg, TransferInstruction};
use juno_raffle::state::{Coin, JoinInfo, Raffle};

const ENV_TIME: u64 = 1_571_797_419_879_305_533;
const ENV_HEIGHT: u64 = 12_345;

fn coin(denom: &str, amount: u128) -> Coin {
    Coin { denom: denom.to_string(), amount }
}

fn fresh_state() -> ContractState {
    ContractState::instantiate(InstantiateMsg { admins: vec!["creator".to_string()] })
}

#[test]
fn begin_raffle_round() {
    let mut state = fresh_state();

    let raffle_msg = ExecuteMsg::BeginRaffleRound {
        expire_type: 0,
        minimum_stake: 10,
        winners_distribution: vec![1, 2, 3],
        pay_token: None,
    };
    state
        .execute(&"creator".to_string(), &vec![], ENV_HEIGHT, ENV_TIME, 0, raffle_msg)
        .unwrap();

    let raffle = state.get_raffle_info(0).unwrap();
    assert_eq!(
        *raffle,
        Raffle {
            id: 0,
            begin_time_stamp: ENV_TIME,
            minimum_stake: 10,
            end_time_stamp: ENV_TIME + 1800 * 1_000_000_000,
            winners_distribution: vec![1, 2, 3],
            players: vec![],
            winner_payouts: vec![],
            winners: vec![],
            active: true,
            pay_token: None,
        }
    );
}

#[test]
fn join_raffle_round() {
    let mut state = fresh_state();

    let raffle_msg = ExecuteMsg::BeginRaffleRound {
        expire_type: 0,
        pay_token: None,
        minimum_stake: 10,
        winners_distribution: vec![1, 2, 3],
    };
    state
        .execute(&"creator".to_string(), &vec![], ENV_HEIGHT, ENV_TIME, 0, raffle_msg)
        .unwrap();

    let join_raffle_msg = ExecuteMsg::JoinRaffleRoundByJuno { id: 0 };

    // no funds attached
    let err = state
        .execute(&"player".to_string(), &vec![], ENV_HEIGHT, ENV_TIME, 0, join_raffle_msg.clone())
        .unwrap_err();
    match err {
        ContractError::WrongPayment {} => {},
        e => panic!("unexpected error: {:?}", e),
    }

    let funds = vec![coin("ujuno", 10)];
    state
        .execute(&"player".to_string(), &funds, ENV_HEIGHT, ENV_TIME, 0, join_raffle_msg.clone())
        .unwrap();

    let raffle = state.get_raffle_info(0).unwrap();
    assert_eq!(
        *raffle,
        Raffle {
            id: 0,
            begin_time_stamp: ENV_TIME,
            minimum_stake: 10,
            end_time_stamp: ENV_TIME + 1800 * 1_000_000_000,
            winners_distribution: vec![1, 2, 3],
            players: vec!["player".to_string()],
            winner_payouts: vec![],
            winners: vec![],
            active: true,
            pay_token: None,
        }
    );

    // the same identity joining twice
    let err = state
        .execute(&"player".to_string(), &funds, ENV_HEIGHT, ENV_TIME, 0, join_raffle_msg.clone())
        .unwrap_err();
    match err {
        ContractError::AlreadyRegistered {} => {},
        e => panic!("unexpected error: {:?}", e),
    }
    // the rejected duplicate left the player list unchanged
    assert_eq!(state.get_raffle_info(0).unwrap().players, vec!["player".to_string()]);

    // an amount below the minimum stake
    let low = vec![coin("ujuno", 1)];
    let err = state
        .execute(&"player1".to_string(), &low, ENV_HEIGHT, ENV_TIME, 0, join_raffle_msg)
        .unwrap_err();
    match err {
        ContractError::NotSufficientFunds {} => {},
        e => panic!("unexpected error: {:?}", e),
    }
}

#[test]
fn choose_winners() {
    let mut state = fresh_state();

    let raffle_msg = ExecuteMsg::BeginRaffleRound {
        expire_type: 0,
        pay_token: None,
        minimum_stake: 10,
        winners_distribution: vec![5, 3, 2],
    };
    state
        .execute(&"creator".to_string(), &vec![], ENV_HEIGHT, ENV_TIME, 0, raffle_msg)
        .unwrap();

    let join_raffle_msg = ExecuteMsg::JoinRaffleRoundByJuno { id: 0 };
    let funds = vec![coin("ujuno", 1_000_000)];
    state
        .execute(&"player".to_string(), &funds, ENV_HEIGHT, ENV_TIME, 0, join_raffle_msg.clone())
        .unwrap();
    let funds = vec![coin("ujuno", 2_000_000)];
    state
        .execute(&"player2".to_string(), &funds, ENV_HEIGHT, ENV_TIME, 0, join_raffle_msg)
        .unwrap();

    // closing before the close time fails
    let end_raffle_msg = ExecuteMsg::EndRaffleRound { id: 0 };
    let err = state
        .execute(&"creator".to_string(), &vec![], ENV_HEIGHT, ENV_TIME, 3_000_000, end_raffle_msg.clone())
        .unwrap_err();
    match err {
        ContractError::RaffleNotEnded {} => {},
        e => panic!("unexpected error: {:?}", e),
    }

    // closing at the close time succeeds: two slots settle, with replacement
    let after = ENV_TIME + 1800 * 1_000_000_000;
    let msgs = state
        .execute(&"creator".to_string(), &vec![], ENV_HEIGHT, after, 3_000_000, end_raffle_msg)
        .unwrap();

    let raffle = state.get_raffle_info(0).unwrap();
    assert!(!raffle.active);
    assert_eq!(raffle.winners.len(), 2);
    assert_eq!(raffle.winner_payouts.len(), 2);
    // reward per share: 3_000_000 / (5 + 3 + 2) = 300_000
    assert_eq!(raffle.winner_payouts, vec![5 * 300_000, 3 * 300_000]);
    for w in &raffle.winners {
        assert!(w == "player" || w == "player2");
    }
    assert_eq!(msgs.len(), 2);
    for (i, m) in msgs.iter().enumerate() {
        match m {
            TransferInstruction::Native { to, denom, amount } => {
                assert_eq!(to, &raffle.winners[i]);
                assert_eq!(denom, "ujuno");
                assert_eq!(*amount, raffle.winner_payouts[i]);
            },
            other => panic!("unexpected instruction: {:?}", other),
        }
    }
    let payout_total: u128 = raffle.winner_payouts.iter().sum();
    assert!(payout_total <= 3_000_000);
}

#[test]
fn round_ids_count_up_from_zero() {
    let mut state = fresh_state();
    assert!(matches!(state.get_current_counter(), Err(ContractError::NotFound {})));
    for expected in 0u32..4 {
        let id = state
            .begin_raffle_round(&"creator".to_string(), ENV_TIME, 1, 10, vec![1], None)
            .unwrap();
        assert_eq!(id, expected);
        assert_eq!(state.get_current_counter().unwrap(), expected);
    }
}

#[test]
fn begin_round_rejections() {
    let mut state = fresh_state();
    let err = state
        .begin_raffle_round(&"mallory".to_string(), ENV_TIME, 0, 10, vec![1], None)
        .unwrap_err();
    assert!(matches!(err, ContractError::Unauthorized {}));

    let err = state
        .begin_raffle_round(&"creator".to_string(), ENV_TIME, 4, 10, vec![1], None)
        .unwrap_err();
    assert!(matches!(err, ContractError::WrongExpire {}));

    // a failed creation does not advance the counter
    assert!(matches!(state.get_current_counter(), Err(ContractError::NotFound {})));
}

#[test]
fn duration_classes() {
    let mut state = fresh_state();
    let creator = "creator".to_string();
    let durations: [u64; 4] = [1800, 3600, 24 * 3600, 7 * 24 * 3600];
    for (class, secs) in durations.iter().enumerate() {
        let id = state
            .begin_raffle_round(&creator, ENV_TIME, class as u8, 1, vec![1], None)
            .unwrap();
        let raffle = state.get_raffle_info(id).unwrap();
        assert_eq!(raffle.end_time_stamp, ENV_TIME + secs * 1_000_000_000);
    }
}

#[test]
fn join_rejections_by_asset_and_time() {
    let mut state = fresh_state();
    let creator = "creator".to_string();
    state
        .begin_raffle_round(&creator, ENV_TIME, 0, 10, vec![1, 2], None)
        .unwrap();

    // unknown round
    let err = state
        .join_raffle_round_by_juno(&"p".to_string(), &vec![coin("ujuno", 10)], ENV_TIME, 9)
        .unwrap_err();
    assert!(matches!(err, ContractError::NotFound {}));

    // wrong denomination
    let err = state
        .join_raffle_round_by_juno(&"p".to_string(), &vec![coin("uatom", 10)], ENV_TIME, 0)
        .unwrap_err();
    assert!(matches!(err, ContractError::MustPayByJuno {}));

    // more than one coin attached
    let err = state
        .join_raffle_round_by_juno(
            &"p".to_string(),
            &vec![coin("ujuno", 10), coin("uatom", 1)],
            ENV_TIME,
            0,
        )
        .unwrap_err();
    assert!(matches!(err, ContractError::WrongPayment {}));

    // amount 5 against a minimum stake of 10
    let err = state
        .join_raffle_round_by_juno(&"p".to_string(), &vec![coin("ujuno", 5)], ENV_TIME, 0)
        .unwrap_err();
    assert!(matches!(err, ContractError::NotSufficientFunds {}));

    // joining after expiry
    let after = ENV_TIME + 1800 * 1_000_000_000;
    let err = state
        .join_raffle_round_by_juno(&"p".to_string(), &vec![coin("ujuno", 10)], after, 0)
        .unwrap_err();
    assert!(matches!(err, ContractError::RaffleExpired {}));

    // a failed join left the player list untouched
    assert!(state.get_raffle_info(0).unwrap().players.is_empty());
}

#[test]
fn join_closed_round_is_rejected() {
    let mut state = fresh_state();
    // a round marked inactive before its natural expiry
    state.counter = Some(juno_raffle::state::Counter { counter: 0 });
    state.raffles.push(Raffle {
        id: 0,
        begin_time_stamp: ENV_TIME,
        end_time_stamp: ENV_TIME + 1_000_000_000,
        minimum_stake: 1,
        winners_distribution: vec![1],
        players: vec![],
        winner_payouts: vec![],
        winners: vec![],
        active: false,
        pay_token: None,
    });
    let err = state
        .join_raffle_round_by_juno(&"p".to_string(), &vec![coin("ujuno", 1)], ENV_TIME, 0)
        .unwrap_err();
    assert!(matches!(err, ContractError::RegistrationsClosed {}));
}

#[test]
fn token_round_flow() {
    let mut state = fresh_state();
    let creator = "creator".to_string();
    state
        .begin_raffle_round(&creator, ENV_TIME, 0, 10, vec![4, 1], Some("tokenc".to_string()))
        .unwrap();

    // a native payment into a token-settled round
    let err = state
        .join_raffle_round_by_juno(&"p".to_string(), &vec![coin("ujuno", 10)], ENV_TIME, 0)
        .unwrap_err();
    assert!(matches!(err, ContractError::MustPayByToken {}));

    // forwarded by the wrong token contract
    let wrapper = TokenReceiveMsg {
        sender: "alice".to_string(),
        amount: 10,
        join: JoinInfo { id: 0 },
    };
    let err = state
        .join_raffle_round_by_token(&"othertoken".to_string(), ENV_TIME, &wrapper)
        .unwrap_err();
    assert!(matches!(err, ContractError::WrongPayment {}));

    // the configured token contract admits the join
    state
        .join_raffle_round_by_token(&"tokenc".to_string(), ENV_TIME, &wrapper)
        .unwrap();
    assert_eq!(state.get_raffle_info(0).unwrap().players, vec!["alice".to_string()]);

    // settling pays through the token contract
    let after = ENV_TIME + 1800 * 1_000_000_000;
    let msgs = state
        .choose_winners(&creator, ENV_HEIGHT, after, 0, 1_000, )
        .unwrap();
    // reward per share: 1_000 / 5 = 200; one winner (one player)
    assert_eq!(msgs.len(), 1);
    match &msgs[0] {
        TransferInstruction::Token { contract, to, amount } => {
            assert_eq!(contract, "tokenc");
            assert_eq!(to, "alice");
            assert_eq!(*amount, 4 * 200);
        },
        other => panic!("unexpected instruction: {:?}", other),
    }
}

#[test]
fn close_rejections() {
    let mut state = fresh_state();
    let creator = "creator".to_string();
    state
        .begin_raffle_round(&creator, ENV_TIME, 0, 10, vec![0], None)
        .unwrap();
    state
        .join_raffle_round_by_juno(&"p".to_string(), &vec![coin("ujuno", 10)], ENV_TIME, 0)
        .unwrap();

    let after = ENV_TIME + 1800 * 1_000_000_000;
    let err = state
        .choose_winners(&"mallory".to_string(), ENV_HEIGHT, after, 0, 100)
        .unwrap_err();
    assert!(matches!(err, ContractError::Unauthorized {}));

    let err = state.choose_winners(&creator, ENV_HEIGHT, after, 9, 100).unwrap_err();
    assert!(matches!(err, ContractError::NotFound {}));

    let err = state.choose_winners(&creator, ENV_HEIGHT, ENV_TIME, 0, 100).unwrap_err();
    assert!(matches!(err, ContractError::RaffleNotEnded {}));

    // all prize shares zero, with a slot to settle
    let err = state.choose_winners(&creator, ENV_HEIGHT, after, 0, 100).unwrap_err();
    assert!(matches!(err, ContractError::DivisionByZero {}));
}

#[test]
fn close_with_no_players_settles_nothing() {
    let mut state = fresh_state();
    let creator = "creator".to_string();
    state
        .begin_raffle_round(&creator, ENV_TIME, 0, 10, vec![5, 3, 2], None)
        .unwrap();
    let after = ENV_TIME + 1800 * 1_000_000_000;
    let msgs = state.choose_winners(&creator, ENV_HEIGHT, after, 0, 1_000_000).unwrap();
    assert!(msgs.is_empty());
    let raffle = state.get_raffle_info(0).unwrap();
    assert!(!raffle.active);
    assert!(raffle.winners.is_empty());
    assert!(raffle.winner_payouts.is_empty());
}

#[test]
fn close_is_deterministic() {
    let build = || {
        let mut state = fresh_state();
        state
            .begin_raffle_round(&"creator".to_string(), ENV_TIME, 0, 10, vec![5, 3, 2], None)
            .unwrap();
        for p in ["a", "b", "c", "d", "e"] {
            state
                .join_raffle_round_by_juno(&p.to_string(), &vec![coin("ujuno", 10)], ENV_TIME, 0)
                .unwrap();
        }
        state
    };
    let after = ENV_TIME + 1800 * 1_000_000_000;
    let mut s1 = build();
    let mut s2 = build();
    let m1 = s1.choose_winners(&"creator".to_string(), ENV_HEIGHT, after, 0, 999).unwrap();
    let m2 = s2.choose_winners(&"creator".to_string(), ENV_HEIGHT, after, 0, 999).unwrap();
    assert_eq!(m1, m2);
    assert_eq!(
        s1.get_raffle_info(0).unwrap().winners,
        s2.get_raffle_info(0).unwrap().winners
    );
}

#[test]
fn close_winner_indices_exact() {
    // For height 12345 and closer "creator", the first two stream words are
    // 3905808875 and 2628364725 (computed from the ChaCha20 block function
    // on the derived seed); with two players both indices are 1.
    let mut state = fresh_state();
    state
        .begin_raffle_round(&"creator".to_string(), ENV_TIME, 0, 10, vec![5, 3, 2], None)
        .unwrap();
    let join = |state: &mut ContractState, who: &str, amount: u128| {
        state
            .join_raffle_round_by_juno(&who.to_string(), &vec![coin("ujuno", amount)], ENV_TIME, 0)
            .unwrap();
    };
    join(&mut state, "player", 1_000_000);
    join(&mut state, "player2", 2_000_000);
    let after = ENV_TIME + 1800 * 1_000_000_000;
    state
        .choose_winners(&"creator".to_string(), ENV_HEIGHT, after, 0, 3_000_000)
        .unwrap();
    let raffle = state.get_raffle_info(0).unwrap();
    assert_eq!(raffle.winners, vec!["player2".to_string(), "player2".to_string()]);
}

#[test]
fn payout_floor_retains_residual() {
    let mut state = fresh_state();
    state
        .begin_raffle_round(&"creator".to_string(), ENV_TIME, 0, 1, vec![3], None)
        .unwrap();
    state
        .join_raffle_round_by_juno(&"solo".to_string(), &vec![coin("ujuno", 1)], ENV_TIME, 0)
        .unwrap();
    let after = ENV_TIME + 1800 * 1_000_000_000;
    // 1000 / 3 = 333 per share; the payout is 999 and the residual unit stays
    let msgs = state
        .choose_winners(&"creator".to_string(), ENV_HEIGHT, after, 0, 1_000)
        .unwrap();
    let raffle = state.get_raffle_info(0).unwrap();
    assert_eq!(raffle.winners, vec!["solo".to_string()]);
    assert_eq!(raffle.winner_payouts, vec![999]);
    assert_eq!(msgs.len(), 1);
}
