use vstd::prelude::*;

verus! {

/// A payment in the native currency: a denomination and an amount.
#[derive(Debug, Clone, PartialEq, Eq)]
pub struct Coin {
    pub denom: String,
    pub amount: u128,
}

/// The payload that a fungible-token transfer carries into a join request:
/// the round the sender wants to enter.
#[derive(Debug, Clone, PartialEq, Eq)]
pub struct JoinInfo {
    pub id: u32,
}

/// The process-wide counter from which round ids are allocated.
#[derive(Debug, Clone, PartialEq, Eq)]
pub struct Counter {
    pub counter: u32,
}

/// One raffle round. Timestamps are nanoseconds; amounts are integral
/// units of the settlement asset. While `active`, `winners` and
/// `winner_payouts` are empty; closing populates them and clears `active`.
#[derive(Debug, Clone, PartialEq, Eq)]
pub struct Raffle {
    pub id: u32,
    pub begin_time_stamp: u64,
    pub end_time_stamp: u64,
    pub minimum_stake: u128,
    pub winners_distribution: Vec<u32>,
    pub players: Vec<String>,
    pub winner_payouts: Vec<u128>,
    pub winners: Vec<String>,
    pub active: bool,
    pub pay_token: Option<String>,
}

/// Does `who` already appear in the player list?
pub open spec fn registered(players: Seq<String>, who: Seq<char>) -> bool {
    exists|i: int| 0 <= i < players.len() && players[i]@ == who
}

impl Raffle {
    /// No participant identifier appears twice in the player list.
    pub open spec fn players_unique(self) -> bool {
        forall|i: int, j: int|
            0 <= i < j < self.players@.len() ==> self.players@[i]@ != self.players@[j]@
    }

    /// The number of prize slots that a close settles: one per prize share,
    /// but never more than there are participants.
    pub open spec fn settled_len(self) -> int {
        if self.winners_distribution@.len() <= self.players@.len() {
            self.winners_distribution@.len() as int
        } else {
            self.players@.len() as int
        }
    }

    /// Well-formedness, established at creation and preserved by every
    /// operation: the close time lies after the open time, no participant
    /// is listed twice, and the winner and payout lists are empty while the
    /// round is open and of equal, settled length afterwards.
    pub open spec fn wf(self) -> bool {
        &&& self.begin_time_stamp < self.end_time_stamp
        &&& self.players_unique()
        &&& self.active ==> self.winners@.len() == 0 && self.winner_payouts@.len() == 0
        &&& !self.active ==> self.winners@.len() == self.settled_len()
            && self.winner_payouts@.len() == self.settled_len()
    }

    /// Expiry relative to a caller-supplied clock.
    pub open spec fn spec_is_expired(self, now: u64) -> bool {
        self.end_time_stamp <= now
    }

    /// A round is expired once the clock has reached its close time.
    pub fn is_expired(&self, now: u64) -> (r: bool)
        ensures
            r == self.spec_is_expired(now),
    {
        self.end_time_stamp <= now
    }
}

/// No participant identifier appears twice in a well-formed round's player
/// list: any two distinct positions hold distinct identifiers.
pub proof fn lemma_players_unique(r: Raffle, i: int, j: int)
    requires
        r.wf(),
        0 <= i < r.players@.len(),
        0 <= j < r.players@.len(),
        i != j,
    ensures
        r.players@[i]@ != r.players@[j]@,
{
}

/// Linear scan for a participant identifier.
pub fn contains_player(players: &Vec<String>, who: &String) -> (r: bool)
    ensures
        r == registered(players@, who@),
{
    let mut i: usize = 0;
    while i < players.len()
        invariant
            0 <= i <= players@.len(),
            forall|j: int| 0 <= j < i ==> players@[j]@ != who@,
        decreases players@.len() - i,
    {
        if players[i].eq(who) {
            return true;
        }
        i = i + 1;
    }
    false
}

} // verus!
