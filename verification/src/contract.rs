use vstd::prelude::*;
use crate::error::ContractError;
use crate::msg::{transfer_matches, ExecuteMsg, InstantiateMsg, TransferInstruction};
use crate::rng::{chacha_word, close_seed, make_base_prng_seed, new_entropy, DetRng};
use crate::state::{registered, Coin, Counter, Raffle};
use crate::sum::{
    lemma_sum_u128_take_step, lemma_sum_u32_elem_le, lemma_sum_u32_nonneg, lemma_sum_u32_take_le,
    lemma_sum_u32_take_step, sum_u128, sum_u32,
};

verus! {

/// The longest duration class, in nanoseconds: one week. A creation clock
/// must leave room for it so the close time cannot wrap.
pub const MAX_DURATION_NANOS: u64 = 604800000000000;

/// The nanoseconds a duration class stands for: half an hour, an hour, a
/// day or a week.
pub open spec fn duration_nanos(expire_type: u8) -> int {
    if expire_type == 0 {
        1800000000000
    } else if expire_type == 1 {
        3600000000000
    } else if expire_type == 2 {
        86400000000000
    } else {
        604800000000000
    }
}

/// The id the next successful creation returns: one past the stored
/// counter, starting from zero when no counter exists yet.
pub open spec fn next_round_id(counter: Option<Counter>) -> u32 {
    match counter {
        Option::None => 0u32,
        Option::Some(c) => (c.counter + 1) as u32,
    }
}

/// Is `who` a member of the administrator set?
pub open spec fn admins_contain(admins: Seq<String>, who: Seq<char>) -> bool {
    exists|i: int| 0 <= i < admins.len() && admins[i]@ == who
}

/// The whole persisted state of the raffle core: the administrator set
/// fixed at bootstrap, the round-id counter, and every round ever opened,
/// keyed by its unique id.
pub struct ContractState {
    pub admins: Vec<String>,
    pub counter: Option<Counter>,
    pub raffles: Vec<Raffle>,
}

impl ContractState {
    /// Round ids never repeat.
    pub open spec fn ids_unique(self) -> bool {
        forall|i: int, j: int|
            0 <= i < j < self.raffles@.len() ==> self.raffles@[i].id != self.raffles@[j].id
    }

    /// Well-formedness: ids are unique and bounded by the counter, every
    /// round is well formed, and no round exists before the counter does.
    pub open spec fn wf(self) -> bool {
        &&& self.ids_unique()
        &&& forall|i: int| 0 <= i < self.raffles@.len() ==> (#[trigger] self.raffles@[i]).wf()
        &&& match self.counter {
            Option::None => self.raffles@.len() == 0,
            Option::Some(c) => forall|i: int|
                0 <= i < self.raffles@.len() ==> (#[trigger] self.raffles@[i]).id <= c.counter,
        }
    }

    /// Is a round stored under this id?
    pub open spec fn spec_has_raffle(self, id: u32) -> bool {
        exists|i: int| 0 <= i < self.raffles@.len() && self.raffles@[i].id == id
    }

    /// The position of the round stored under `id` (meaningful only when
    /// `spec_has_raffle(id)` holds; unique by `ids_unique`).
    pub open spec fn raffle_pos(self, id: u32) -> int {
        choose|i: int| 0 <= i < self.raffles@.len() && self.raffles@[i].id == id
    }

    /// System bootstrap: fixes the administrator set once, from identities
    /// the caller has already validated; no rounds and no counter exist yet.
    pub fn instantiate(msg: InstantiateMsg) -> (r: ContractState)
        ensures
            r.wf(),
            r.admins == msg.admins,
            r.counter is None,
            r.raffles@.len() == 0,
    {
        ContractState { admins: msg.admins, counter: None, raffles: Vec::new() }
    }

    /// Membership test against the administrator set fixed at bootstrap.
    pub fn is_admin(&self, addr: &String) -> (r: bool)
        ensures
            r == admins_contain(self.admins@, addr@),
    {
        let mut i: usize = 0;
        while i < self.admins.len()
            invariant
                0 <= i <= self.admins@.len(),
                forall|j: int| 0 <= j < i ==> self.admins@[j]@ != addr@,
            decreases self.admins@.len() - i,
        {
            if self.admins[i].eq(addr) {
                return true;
            }
            i = i + 1;
        }
        false
    }

    /// Finds the position of the round stored under `id`.
    fn find_raffle(&self, id: u32) -> (r: Option<usize>)
        requires
            self.ids_unique(),
        ensures
            match r {
                Option::None => !self.spec_has_raffle(id),
                Option::Some(i) => {
                    &&& self.spec_has_raffle(id)
                    &&& i < self.raffles@.len()
                    &&& self.raffles@[i as int].id == id
                    &&& i as int == self.raffle_pos(id)
                },
            },
    {
        let mut i: usize = 0;
        while i < self.raffles.len()
            invariant
                0 <= i <= self.raffles@.len(),
                self.ids_unique(),
                forall|j: int| 0 <= j < i ==> (#[trigger] self.raffles@[j]).id != id,
            decreases self.raffles@.len() - i,
        {
            if self.raffles[i].id == id {
                proof {
                    let p = self.raffle_pos(id);
                    assert(0 <= p < self.raffles@.len() && self.raffles@[p].id == id);
                    if p != i as int {
                        assert(self.raffles@[p].id != self.raffles@[i as int].id);
                    }
                }
                return Some(i);
            }
            i = i + 1;
        }
        None
    }

    /// The current counter value, or `NotFound` before any round was opened.
    pub fn get_current_counter(&self) -> (r: Result<u32, ContractError>)
        ensures
            match self.counter {
                Option::None => r == Result::<u32, ContractError>::Err(ContractError::NotFound {}),
                Option::Some(c) => r == Result::<u32, ContractError>::Ok(c.counter),
            },
    {
        match &self.counter {
            None => Err(ContractError::NotFound {}),
            Some(c) => Ok(c.counter),
        }
    }

    /// The stored record of round `id`, or `NotFound`.
    pub fn get_raffle_info(&self, id: u32) -> (r: Result<&Raffle, ContractError>)
        requires
            self.ids_unique(),
        ensures
            match r {
                Result::Ok(raffle) => self.spec_has_raffle(id) && *raffle == self.raffles@[self.raffle_pos(id)],
                Result::Err(e) => !self.spec_has_raffle(id) && e == (ContractError::NotFound {}),
            },
    {
        match self.find_raffle(id) {
            Some(i) => Ok(&self.raffles[i]),
            None => Err(ContractError::NotFound {}),
        }
    }
}

/// What stops a creation: a non-administrator caller, then an unknown
/// duration class.
pub open spec fn begin_error(s: ContractState, sender: Seq<char>, expire_type: u8) -> Option<
    ContractError,
> {
    if !admins_contain(s.admins@, sender) {
        Option::Some(ContractError::Unauthorized {})
    } else if expire_type > 3 {
        Option::Some(ContractError::WrongExpire {})
    } else {
        Option::None
    }
}

/// A successful creation: the new round is appended with the next id from
/// the counter, open and empty, its close time one duration class past its
/// open time; the counter now holds that id and nothing else changes.
pub open spec fn begin_ok(
    pre: ContractState,
    post: ContractState,
    now: u64,
    expire_type: u8,
    minimum_stake: u128,
    winners_distribution: Vec<u32>,
    pay_token: Option<String>,
) -> bool {
    let id = next_round_id(pre.counter);
    let nr = post.raffles@[pre.raffles@.len() as int];
    &&& post.admins == pre.admins
    &&& post.counter == Option::Some(Counter { counter: id })
    &&& post.raffles@.len() == pre.raffles@.len() + 1
    &&& forall|j: int| 0 <= j < pre.raffles@.len() ==> post.raffles@[j] == pre.raffles@[j]
    &&& nr.id == id
    &&& nr.begin_time_stamp == now
    &&& nr.end_time_stamp == now + duration_nanos(expire_type)
    &&& nr.minimum_stake == minimum_stake
    &&& nr.winners_distribution == winners_distribution
    &&& nr.players@.len() == 0
    &&& nr.winners@.len() == 0
    &&& nr.winner_payouts@.len() == 0
    &&& nr.active
    &&& nr.pay_token == pay_token
}

impl ContractState {
    /// Opens a new round. An administrator picks a duration class, the
    /// minimum stake, the prize-share weights and the settlement asset;
    /// the round gets the next id from the counter and starts open and
    /// empty. On any error the state is unchanged.
    pub fn begin_raffle_round(
        &mut self,
        sender: &String,
        now: u64,
        expire_type: u8,
        minimum_stake: u128,
        winners_distribution: Vec<u32>,
        pay_token: Option<String>,
    ) -> (r: Result<u32, ContractError>)
        requires
            old(self).wf(),
            now <= u64::MAX - MAX_DURATION_NANOS,
            old(self).counter matches Some(c) ==> c.counter < u32::MAX,
        ensures
            final(self).wf(),
            final(self).admins == old(self).admins,
            (r is Err) <==> (begin_error(*old(self), sender@, expire_type) is Some),
            r matches Err(e) ==> Option::Some(e) == begin_error(*old(self), sender@, expire_type)
                && *final(self) == *old(self),
            r matches Ok(id) ==> id == next_round_id(old(self).counter) && begin_ok(
                *old(self),
                *final(self),
                now,
                expire_type,
                minimum_stake,
                winners_distribution,
                pay_token,
            ),
    {
        if !self.is_admin(sender) {
            return Err(ContractError::Unauthorized {});
        }
        let id: u32 = match &self.counter {
            Some(c) => c.counter + 1,
            None => 0,
        };
        let end_time_stamp: u64 = match expire_type {
            0 => now + 1800000000000,
            1 => now + 3600000000000,
            2 => now + 86400000000000,
            3 => now + 604800000000000,
            _ => { return Err(ContractError::WrongExpire {}); },
        };
        let raffle = Raffle {
            id,
            begin_time_stamp: now,
            end_time_stamp,
            minimum_stake,
            winners_distribution,
            winners: Vec::new(),
            players: Vec::new(),
            winner_payouts: Vec::new(),
            active: true,
            pay_token,
        };
        self.counter = Some(Counter { counter: id });
        self.raffles.push(raffle);
        Ok(id)
    }
}

} // verus!

verus! {

/// Field-by-field equality of two rounds, the player list excepted.
pub open spec fn same_round_except_players(a: Raffle, b: Raffle) -> bool {
    &&& b.id == a.id
    &&& b.begin_time_stamp == a.begin_time_stamp
    &&& b.end_time_stamp == a.end_time_stamp
    &&& b.minimum_stake == a.minimum_stake
    &&& b.winners_distribution == a.winners_distribution
    &&& b.winner_payouts == a.winner_payouts
    &&& b.winners == a.winners
    &&& b.active == a.active
    &&& b.pay_token == a.pay_token
}

/// A successful join: `who` is appended to the target round's player list
/// and nothing else changes.
pub open spec fn joined_ok(pre: ContractState, post: ContractState, id: u32, who: String) -> bool {
    let i = pre.raffle_pos(id);
    &&& post.admins == pre.admins
    &&& post.counter == pre.counter
    &&& post.raffles@.len() == pre.raffles@.len()
    &&& forall|j: int|
        0 <= j < pre.raffles@.len() && j != i ==> post.raffles@[j] == pre.raffles@[j]
    &&& same_round_except_players(pre.raffles@[i], post.raffles@[i])
    &&& post.raffles@[i].players@ == pre.raffles@[i].players@.push(who)
}

/// The five admission preconditions of a native-currency join, checked in
/// order; the first violated one decides the error. `None` means the join
/// is admitted.
pub open spec fn juno_join_error(
    s: ContractState,
    sender: Seq<char>,
    funds: Seq<Coin>,
    now: u64,
    id: u32,
) -> Option<ContractError> {
    if !s.spec_has_raffle(id) {
        Option::Some(ContractError::NotFound {})
    } else {
        let r = s.raffles@[s.raffle_pos(id)];
        if r.spec_is_expired(now) {
            Option::Some(ContractError::RaffleExpired {})
        } else if r.pay_token is Some {
            Option::Some(ContractError::MustPayByToken {})
        } else if funds.len() != 1 {
            Option::Some(ContractError::WrongPayment {})
        } else if funds[0].denom@ != "ujuno"@ {
            Option::Some(ContractError::MustPayByJuno {})
        } else if funds[0].amount < r.minimum_stake {
            Option::Some(ContractError::NotSufficientFunds {})
        } else if !r.active {
            Option::Some(ContractError::RegistrationsClosed {})
        } else if registered(r.players@, sender) {
            Option::Some(ContractError::AlreadyRegistered {})
        } else {
            Option::None
        }
    }
}

/// The admission preconditions of a token-settled join, in the same order;
/// the paying token contract must be the round's configured one.
pub open spec fn token_join_error(
    s: ContractState,
    token_contract: Seq<char>,
    sender: Seq<char>,
    amount: u128,
    now: u64,
    id: u32,
) -> Option<ContractError> {
    if !s.spec_has_raffle(id) {
        Option::Some(ContractError::NotFound {})
    } else {
        let r = s.raffles@[s.raffle_pos(id)];
        if r.spec_is_expired(now) {
            Option::Some(ContractError::RaffleExpired {})
        } else if !(r.pay_token matches Some(tok) && tok@ == token_contract) {
            Option::Some(ContractError::WrongPayment {})
        } else if amount < r.minimum_stake {
            Option::Some(ContractError::NotSufficientFunds {})
        } else if !r.active {
            Option::Some(ContractError::RegistrationsClosed {})
        } else if registered(r.players@, sender) {
            Option::Some(ContractError::AlreadyRegistered {})
        } else {
            Option::None
        }
    }
}

impl ContractState {
    /// Appends `who` to round `i`'s player list, preserving well-formedness.
    fn push_player(&mut self, i: usize, who: String)
        requires
            old(self).wf(),
            i < old(self).raffles@.len(),
            old(self).raffles@[i as int].active,
            !registered(old(self).raffles@[i as int].players@, who@),
        ensures
            final(self).wf(),
            final(self).admins == old(self).admins,
            final(self).counter == old(self).counter,
            final(self).raffles@.len() == old(self).raffles@.len(),
            forall|j: int|
                0 <= j < old(self).raffles@.len() && j != i ==> final(self).raffles@[j] == old(
                    self,
                ).raffles@[j],
            same_round_except_players(old(self).raffles@[i as int], final(self).raffles@[i as int]),
            final(self).raffles@[i as int].players@ == old(self).raffles@[i as int].players@.push(
                who,
            ),
    {
        let ghost pre = self.raffles@[i as int].players@;
        self.raffles[i].players.push(who);
        proof {
            let post = self.raffles@[i as int].players@;
            assert forall|a: int, b: int| 0 <= a < b < post.len() implies post[a]@ != post[b]@ by {
                if b < pre.len() {
                } else {
                    assert(post[b] == who);
                    assert(post[a] == pre[a]);
                    assert(!registered(pre, who@));
                }
            }
        }
    }

    /// Admits a native-currency join: the round must exist, not be expired,
    /// settle in the native currency, be paid exactly one ujuno coin of at
    /// least the minimum stake, still be open, and not list the sender yet.
    /// On success the sender joins the player list; on any error the state
    /// is unchanged.
    pub fn join_raffle_round_by_juno(
        &mut self,
        sender: &String,
        funds: &Vec<Coin>,
        now: u64,
        id: u32,
    ) -> (r: Result<(), ContractError>)
        requires
            old(self).wf(),
        ensures
            final(self).wf(),
            (r is Err) <==> (juno_join_error(*old(self), sender@, funds@, now, id) is Some),
            r matches Err(e) ==> Option::Some(e) == juno_join_error(
                *old(self),
                sender@,
                funds@,
                now,
                id,
            ) && *final(self) == *old(self),
            r is Ok ==> joined_ok(*old(self), *final(self), id, *sender),
    {
        let i = match self.find_raffle(id) {
            Some(i) => i,
            None => { return Err(ContractError::NotFound {}); },
        };
        if self.raffles[i].is_expired(now) {
            return Err(ContractError::RaffleExpired {});
        }
        if self.raffles[i].pay_token.is_some() {
            return Err(ContractError::MustPayByToken {});
        }
        if funds.len() != 1 {
            return Err(ContractError::WrongPayment {});
        }
        let ujuno: String = "ujuno".to_owned();
        if !funds[0].denom.eq(&ujuno) {
            return Err(ContractError::MustPayByJuno {});
        }
        if funds[0].amount < self.raffles[i].minimum_stake {
            return Err(ContractError::NotSufficientFunds {});
        }
        if !self.raffles[i].active {
            return Err(ContractError::RegistrationsClosed {});
        }
        if crate::state::contains_player(&self.raffles[i].players, sender) {
            return Err(ContractError::AlreadyRegistered {});
        }
        self.push_player(i, sender.clone());
        Ok(())
    }

    /// Admits a token-settled join forwarded by a fungible-token contract:
    /// the round must exist, not be expired, be settled by exactly the
    /// calling token contract, the forwarded amount must reach the minimum
    /// stake, the round must still be open, and the contributing sender
    /// must not be listed yet. On success the sender joins the player
    /// list; on any error the state is unchanged.
    pub fn join_raffle_round_by_token(
        &mut self,
        token_contract: &String,
        now: u64,
        wrapper: &crate::msg::TokenReceiveMsg,
    ) -> (r: Result<(), ContractError>)
        requires
            old(self).wf(),
        ensures
            final(self).wf(),
            (r is Err) <==> (token_join_error(
                *old(self),
                token_contract@,
                wrapper.sender@,
                wrapper.amount,
                now,
                wrapper.join.id,
            ) is Some),
            r matches Err(e) ==> Option::Some(e) == token_join_error(
                *old(self),
                token_contract@,
                wrapper.sender@,
                wrapper.amount,
                now,
                wrapper.join.id,
            ) && *final(self) == *old(self),
            r is Ok ==> joined_ok(*old(self), *final(self), wrapper.join.id, wrapper.sender),
    {
        let id = wrapper.join.id;
        let i = match self.find_raffle(id) {
            Some(i) => i,
            None => { return Err(ContractError::NotFound {}); },
        };
        if self.raffles[i].is_expired(now) {
            return Err(ContractError::RaffleExpired {});
        }
        let token_ok = match &self.raffles[i].pay_token {
            Some(tok) => tok.eq(token_contract),
            None => false,
        };
        if !token_ok {
            return Err(ContractError::WrongPayment {});
        }
        if wrapper.amount < self.raffles[i].minimum_stake {
            return Err(ContractError::NotSufficientFunds {});
        }
        if !self.raffles[i].active {
            return Err(ContractError::RegistrationsClosed {});
        }
        if crate::state::contains_player(&self.raffles[i].players, &wrapper.sender) {
            return Err(ContractError::AlreadyRegistered {});
        }
        self.push_player(i, wrapper.sender.clone());
        Ok(())
    }
}

} // verus!

verus! {

/// What stops a close: a non-administrator caller, an unknown round, a
/// round whose close time has not been reached, and prize shares summing
/// to zero when at least one slot would have to be settled.
pub open spec fn close_error(s: ContractState, sender: Seq<char>, now: u64, id: u32) -> Option<
    ContractError,
> {
    if !admins_contain(s.admins@, sender) {
        Option::Some(ContractError::Unauthorized {})
    } else if !s.spec_has_raffle(id) {
        Option::Some(ContractError::NotFound {})
    } else {
        let r = s.raffles@[s.raffle_pos(id)];
        if !r.spec_is_expired(now) {
            Option::Some(ContractError::RaffleNotEnded {})
        } else if r.settled_len() > 0 && sum_u32(r.winners_distribution@) == 0 {
            Option::Some(ContractError::DivisionByZero {})
        } else {
            Option::None
        }
    }
}

/// The floor-divided allocation per unit of prize share; zero when there
/// are no shares (in which case no slot is settled).
pub open spec fn spec_reward_per_share(total_deposit: u128, total_shares: int) -> int {
    if total_shares == 0 {
        0
    } else {
        total_deposit as int / total_shares
    }
}

/// A successful close of round `id`: exactly `min(shares, players)` slots
/// are settled; slot `j`'s winner is the participant at index
/// `word j of the seed's stream, modulo the player count` — drawn with
/// replacement from the unmodified list — and its payout is the
/// floor-divided reward per share times slot `j`'s weight; one matching
/// transfer instruction is emitted per slot; the round is closed in place
/// and every other field and round is untouched. The payouts sum to at
/// most the floor-divided allocation, which never exceeds the deposit.
pub open spec fn close_ok(
    pre: ContractState,
    post: ContractState,
    sender: Seq<char>,
    height: u64,
    id: u32,
    total_deposit: u128,
    msgs: Seq<TransferInstruction>,
) -> bool {
    let i = pre.raffle_pos(id);
    let r0 = pre.raffles@[i];
    let r1 = post.raffles@[i];
    let seed = close_seed(height, sender);
    let n = r0.players@.len() as int;
    let k = r0.settled_len();
    let ts = sum_u32(r0.winners_distribution@);
    let rps = spec_reward_per_share(total_deposit, ts);
    &&& post.raffles@.len() == pre.raffles@.len()
    &&& forall|j: int|
        0 <= j < pre.raffles@.len() && j != i ==> post.raffles@[j] == pre.raffles@[j]
    &&& r1.id == r0.id
    &&& r1.begin_time_stamp == r0.begin_time_stamp
    &&& r1.end_time_stamp == r0.end_time_stamp
    &&& r1.minimum_stake == r0.minimum_stake
    &&& r1.winners_distribution == r0.winners_distribution
    &&& r1.players == r0.players
    &&& r1.pay_token == r0.pay_token
    &&& !r1.active
    &&& r1.winners@.len() == k
    &&& r1.winner_payouts@.len() == k
    &&& msgs.len() == k
    &&& forall|j: int|
        0 <= j < k ==> r1.winners@[j] == r0.players@[chacha_word(seed, j) as int % n]
    &&& forall|j: int|
        0 <= j < k ==> (#[trigger] r1.winner_payouts@[j]) as int == rps * (
        r0.winners_distribution@[j] as int)
    &&& forall|j: int|
        0 <= j < k ==> transfer_matches(
            #[trigger] msgs[j],
            r0.pay_token,
            r1.winners@[j],
            r1.winner_payouts@[j],
        )
    &&& sum_u128(r1.winner_payouts@) == rps * sum_u32(r0.winners_distribution@.take(k))
    &&& sum_u128(r1.winner_payouts@) <= rps * ts
    &&& rps * ts <= total_deposit
}

/// Draws the winners of one close and computes their payouts and transfer
/// instructions: slot `j` goes to the participant at index `word j of the
/// seed's stream, modulo the player count`, drawn with replacement from
/// the unmodified list, and pays the reward per share times the slot's
/// weight in the round's settlement asset.
#[verifier::rlimit(100)]
fn settle_round(
    players: &Vec<String>,
    dist: &Vec<u32>,
    pay_token: &Option<String>,
    seed: &Vec<u8>,
    k: usize,
    total_deposit: u128,
    total_shares: u128,
    reward_per_share: u128,
) -> (out: (Vec<String>, Vec<u128>, Vec<TransferInstruction>))
    requires
        seed@.len() == 32,
        k <= dist@.len(),
        k <= players@.len(),
        total_shares as int == sum_u32(dist@),
        reward_per_share as int == spec_reward_per_share(total_deposit, total_shares as int),
        reward_per_share as int * total_shares as int <= total_deposit as int,
        k > 0 ==> total_shares > 0,
    ensures
        out.0@.len() == k,
        out.1@.len() == k,
        out.2@.len() == k,
        forall|m: int|
            0 <= m < k ==> out.0@[m] == players@[chacha_word(seed@, m) as int % (
            players@.len() as int)],
        forall|m: int|
            0 <= m < k ==> (#[trigger] out.1@[m]) as int == reward_per_share as int * (
            dist@[m] as int),
        forall|m: int|
            0 <= m < k ==> transfer_matches(#[trigger] out.2@[m], *pay_token, out.0@[m], out.1@[m]),
        sum_u128(out.1@) == reward_per_share as int * sum_u32(dist@.take(k as int)),
        sum_u128(out.1@) <= reward_per_share as int * total_shares as int,
{
    let n = players.len();
    let mut winners: Vec<String> = Vec::new();
    let mut payouts: Vec<u128> = Vec::new();
    let mut msgs: Vec<TransferInstruction> = Vec::new();
    let mut rng = DetRng::from_seed(seed);
    let mut j: usize = 0;
    while j < k
        invariant
            0 <= j <= k,
            k <= dist@.len(),
            k <= n,
            n == players@.len(),
            total_shares as int == sum_u32(dist@),
            reward_per_share as int * total_shares as int <= total_deposit as int,
            k > 0 ==> total_shares > 0,
            rng.spec_seed() == seed@,
            rng.spec_drawn() == j,
            winners@.len() == j,
            payouts@.len() == j,
            msgs@.len() == j,
            forall|m: int|
                0 <= m < j ==> winners@[m] == players@[chacha_word(seed@, m) as int % (
                n as int)],
            forall|m: int|
                0 <= m < j ==> (#[trigger] payouts@[m]) as int == reward_per_share as int * (
                dist@[m] as int),
            forall|m: int|
                0 <= m < j ==> transfer_matches(
                    #[trigger] msgs@[m],
                    *pay_token,
                    winners@[m],
                    payouts@[m],
                ),
            sum_u128(payouts@) == reward_per_share as int * sum_u32(dist@.take(j as int)),
        decreases k - j,
    {
        let v = rng.next_u32();
        let widx = ((v as u64) % (n as u64)) as usize;
        assert(widx < n);
        let w = players[widx].clone();
        winners.push(w.clone());

        let d = dist[j];
        proof {
            lemma_sum_u32_elem_le(dist@, j as int);
            vstd::arithmetic::mul::lemma_mul_inequality(
                d as int,
                total_shares as int,
                reward_per_share as int,
            );
            vstd::arithmetic::mul::lemma_mul_is_commutative(
                d as int,
                reward_per_share as int,
            );
            vstd::arithmetic::mul::lemma_mul_is_commutative(
                total_shares as int,
                reward_per_share as int,
            );
        }
        let reward = reward_per_share * (d as u128);
        let ghost pre_payouts = payouts@;
        payouts.push(reward);
        proof {
            lemma_sum_u128_take_step(payouts@, j as int);
            assert(payouts@.take(j as int) =~= pre_payouts);
            assert(payouts@.take(j + 1) =~= payouts@);
            lemma_sum_u32_take_step(dist@, j as int);
            vstd::arithmetic::mul::lemma_mul_is_distributive_add(
                reward_per_share as int,
                sum_u32(dist@.take(j as int)),
                d as int,
            );
        }

        let transfer = match pay_token {
            None => TransferInstruction::Native {
                to: w,
                denom: "ujuno".to_owned(),
                amount: reward,
            },
            Some(tok) => TransferInstruction::Token {
                contract: tok.clone(),
                to: w,
                amount: reward,
            },
        };
        msgs.push(transfer);
        j = j + 1;
    }
    proof {
        lemma_sum_u32_take_le(dist@, k as int);
        lemma_sum_u32_nonneg(dist@.take(k as int));
        vstd::arithmetic::mul::lemma_mul_inequality(
            sum_u32(dist@.take(k as int)),
            total_shares as int,
            reward_per_share as int,
        );
        vstd::arithmetic::mul::lemma_mul_is_commutative(
            sum_u32(dist@.take(k as int)),
            reward_per_share as int,
        );
        vstd::arithmetic::mul::lemma_mul_is_commutative(
            total_shares as int,
            reward_per_share as int,
        );
    }
    (winners, payouts, msgs)
}

impl ContractState {
    /// Settles an expired round: an administrator draws one winner per
    /// prize slot from the deterministic stream seeded by the closing
    /// context, computes each payout as the floor-divided reward per share
    /// times the slot's weight, records winners and payouts, marks the
    /// round closed, and returns the transfer instructions for the
    /// external ledger. On any error nothing changes.
    #[verifier::rlimit(100)]
    pub fn choose_winners(
        &mut self,
        sender: &String,
        height: u64,
        now: u64,
        id: u32,
        total_deposit: u128,
    ) -> (r: Result<Vec<TransferInstruction>, ContractError>)
        requires
            old(self).wf(),
        ensures
            final(self).wf(),
            final(self).admins == old(self).admins,
            final(self).counter == old(self).counter,
            (r is Err) <==> (close_error(*old(self), sender@, now, id) is Some),
            r matches Err(e) ==> Option::Some(e) == close_error(*old(self), sender@, now, id)
                && *final(self) == *old(self),
            r matches Ok(msgs) ==> close_ok(
                *old(self),
                *final(self),
                sender@,
                height,
                id,
                total_deposit,
                msgs@,
            ),
    {
        if !self.is_admin(sender) {
            return Err(ContractError::Unauthorized {});
        }
        let i = match self.find_raffle(id) {
            Some(i) => i,
            None => { return Err(ContractError::NotFound {}); },
        };
        if !self.raffles[i].is_expired(now) {
            return Err(ContractError::RaffleNotEnded {});
        }
        let ghost r0 = self.raffles@[i as int];

        let n = self.raffles[i].players.len();
        let kd = self.raffles[i].winners_distribution.len();
        let k = if kd < n {
            kd
        } else {
            n
        };
        assert(k as int == r0.settled_len());

        let mut total_shares: u128 = 0;
        let mut t: usize = 0;
        while t < kd
            invariant
                *self == *old(self),
                i < self.raffles@.len(),
                r0 == self.raffles@[i as int],
                kd == r0.winners_distribution@.len(),
                0 <= t <= kd,
                total_shares as int == sum_u32(r0.winners_distribution@.take(t as int)),
                total_shares as int <= (t as int) * 0xffffffff,
            decreases kd - t,
        {
            let d = self.raffles[i].winners_distribution[t];
            proof {
                lemma_sum_u32_take_step(r0.winners_distribution@, t as int);
            }
            total_shares = total_shares + d as u128;
            t = t + 1;
        }
        proof {
            assert(r0.winners_distribution@.take(kd as int) =~= r0.winners_distribution@);
        }

        if k > 0 && total_shares == 0 {
            return Err(ContractError::DivisionByZero {});
        }

        let reward_per_share: u128 = if total_shares == 0 {
            0
        } else {
            total_deposit / total_shares
        };
        proof {
            if total_shares != 0 {
                vstd::arithmetic::div_mod::lemma_fundamental_div_mod(
                    total_deposit as int,
                    total_shares as int,
                );
                vstd::arithmetic::div_mod::lemma_mod_bound(
                    total_deposit as int,
                    total_shares as int,
                );
                vstd::arithmetic::mul::lemma_mul_is_commutative(
                    reward_per_share as int,
                    total_shares as int,
                );
            }
        }
        assert(reward_per_share as int * total_shares as int <= total_deposit as int);

        let prng_seed = make_base_prng_seed();
        let seed = new_entropy(height, sender, &prng_seed, &prng_seed);
        assert(seed@ == close_seed(height, sender@));

        let (winners, payouts, msgs) = settle_round(
            &self.raffles[i].players,
            &self.raffles[i].winners_distribution,
            &self.raffles[i].pay_token,
            &seed,
            k,
            total_deposit,
            total_shares,
            reward_per_share,
        );

        let old_r = self.raffles.remove(i);
        let new_r = Raffle {
            winners,
            winner_payouts: payouts,
            active: false,
            ..old_r
        };
        self.raffles.insert(i, new_r);
        proof {
            assert(self.raffles@ =~= old(self).raffles@.update(i as int, self.raffles@[i as int]));
        }
        Ok(msgs)
    }
}

} // verus!

verus! {

/// The ujuno portion of a balance list, as the total-deposit query reads
/// it: the amount of the first ujuno coin, or zero when none is present.
pub open spec fn spec_juno_amount(balances: Seq<Coin>) -> u128
    decreases balances.len(),
{
    if balances.len() == 0 {
        0
    } else if balances[0].denom@ == "ujuno"@ {
        balances[0].amount
    } else {
        spec_juno_amount(balances.drop_first())
    }
}

/// Extracts the total settleable native balance from a ledger answer: the
/// amount of the first ujuno coin, or zero.
pub fn juno_amount(balances: &Vec<Coin>) -> (r: u128)
    ensures
        r == spec_juno_amount(balances@),
{
    let ujuno: String = "ujuno".to_owned();
    proof {
        assert(balances@.skip(0) =~= balances@);
    }
    let mut i: usize = 0;
    while i < balances.len()
        invariant
            0 <= i <= balances@.len(),
            ujuno@ == "ujuno"@,
            spec_juno_amount(balances@) == spec_juno_amount(balances@.skip(i as int)),
        decreases balances@.len() - i,
    {
        proof {
            assert(balances@.skip(i as int)[0] == balances@[i as int]);
        }
        if balances[i].denom.eq(&ujuno) {
            return balances[i].amount;
        }
        proof {
            assert(balances@.skip(i as int).drop_first() =~= balances@.skip(i + 1));
        }
        i = i + 1;
    }
    proof {
        assert(balances@.skip(balances@.len() as int).len() == 0);
    }
    0
}

/// Round ids are strictly increasing: the very first creation returns id
/// zero, and a creation that finds the counter at `prev` — the id the
/// previous creation returned — returns `prev + 1`.
pub proof fn lemma_round_ids_increase(prev: u32)
    requires
        prev < u32::MAX,
    ensures
        next_round_id(Option::Some(Counter { counter: prev })) == prev + 1,
        next_round_id(Option::<Counter>::None) == 0,
{
}

impl ContractState {
    /// Decodes one action and applies it: creations and joins move no
    /// funds of their own, a close returns the transfer instructions the
    /// ledger must execute. The caller supplies its identity, the attached
    /// native funds, the clock, the block height and the custody balance;
    /// on any error the state is unchanged.
    pub fn execute(
        &mut self,
        sender: &String,
        funds: &Vec<Coin>,
        height: u64,
        now: u64,
        total_deposit: u128,
        msg: ExecuteMsg,
    ) -> (r: Result<Vec<TransferInstruction>, ContractError>)
        requires
            old(self).wf(),
            now <= u64::MAX - MAX_DURATION_NANOS,
            old(self).counter matches Some(c) ==> c.counter < u32::MAX,
        ensures
            final(self).wf(),
            match msg {
                ExecuteMsg::BeginRaffleRound {
                    expire_type,
                    minimum_stake,
                    winners_distribution,
                    pay_token,
                } => {
                    &&& (r is Err) <==> (begin_error(*old(self), sender@, expire_type) is Some)
                    &&& r matches Err(e) ==> Option::Some(e) == begin_error(
                        *old(self),
                        sender@,
                        expire_type,
                    ) && *final(self) == *old(self)
                    &&& r matches Ok(msgs) ==> msgs@.len() == 0 && begin_ok(
                        *old(self),
                        *final(self),
                        now,
                        expire_type,
                        minimum_stake,
                        winners_distribution,
                        pay_token,
                    )
                },
                ExecuteMsg::JoinRaffleRoundByJuno { id } => {
                    &&& (r is Err) <==> (juno_join_error(*old(self), sender@, funds@, now, id) is Some)
                    &&& r matches Err(e) ==> Option::Some(e) == juno_join_error(
                        *old(self),
                        sender@,
                        funds@,
                        now,
                        id,
                    ) && *final(self) == *old(self)
                    &&& r matches Ok(msgs) ==> msgs@.len() == 0 && joined_ok(
                        *old(self),
                        *final(self),
                        id,
                        *sender,
                    )
                },
                ExecuteMsg::JoinRaffleRoundByToken(wrapper) => {
                    &&& (r is Err) <==> (token_join_error(
                        *old(self),
                        sender@,
                        wrapper.sender@,
                        wrapper.amount,
                        now,
                        wrapper.join.id,
                    ) is Some)
                    &&& r matches Err(e) ==> Option::Some(e) == token_join_error(
                        *old(self),
                        sender@,
                        wrapper.sender@,
                        wrapper.amount,
                        now,
                        wrapper.join.id,
                    ) && *final(self) == *old(self)
                    &&& r matches Ok(msgs) ==> msgs@.len() == 0 && joined_ok(
                        *old(self),
                        *final(self),
                        wrapper.join.id,
                        wrapper.sender,
                    )
                },
                ExecuteMsg::EndRaffleRound { id } => {
                    &&& (r is Err) <==> (close_error(*old(self), sender@, now, id) is Some)
                    &&& r matches Err(e) ==> Option::Some(e) == close_error(
                        *old(self),
                        sender@,
                        now,
                        id,
                    ) && *final(self) == *old(self)
                    &&& r matches Ok(msgs) ==> close_ok(
                        *old(self),
                        *final(self),
                        sender@,
                        height,
                        id,
                        total_deposit,
                        msgs@,
                    )
                },
            },
    {
        match msg {
            ExecuteMsg::BeginRaffleRound {
                expire_type,
                minimum_stake,
                winners_distribution,
                pay_token,
            } => {
                match self.begin_raffle_round(
                    sender,
                    now,
                    expire_type,
                    minimum_stake,
                    winners_distribution,
                    pay_token,
                ) {
                    Ok(_) => Ok(Vec::new()),
                    Err(e) => Err(e),
                }
            },
            ExecuteMsg::JoinRaffleRoundByJuno { id } => {
                match self.join_raffle_round_by_juno(sender, funds, now, id) {
                    Ok(()) => Ok(Vec::new()),
                    Err(e) => Err(e),
                }
            },
            ExecuteMsg::JoinRaffleRoundByToken(wrapper) => {
                match self.join_raffle_round_by_token(sender, now, &wrapper) {
                    Ok(()) => Ok(Vec::new()),
                    Err(e) => Err(e),
                }
            },
            ExecuteMsg::EndRaffleRound { id } => {
                self.choose_winners(sender, height, now, id, total_deposit)
            },
        }
    }
}

} // verus!

