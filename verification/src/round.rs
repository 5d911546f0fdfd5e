//! The round state machine: dealing, hitting, standing with synchronous
//! dealer auto-play, settlement, and the session win tally.
//!
//! A round moves through the phases Idle → PlayerTurn → DealerTurn →
//! Settled, and back to Idle on replay. Actions taken outside their phase
//! are silent no-ops. Each action's postcondition is stated through a
//! transition relation (`deal_rel`, `hit_rel`, `stand_rel`, `replay_rel`)
//! over the state before and after the call.

use vstd::prelude::*;

use crate::deck;
use crate::deck::Card;
use crate::deck::card_value_spec;

verus! {

/// Phase of the current round. DealerTurn is passed through inside
/// `stand`, which resolves the dealer's hand synchronously; it is never
/// the phase of a round at rest.
#[derive(Clone, Copy, Debug, PartialEq, Eq, Structural)]
pub enum Phase {
    Idle,
    PlayerTurn,
    DealerTurn,
    Settled,
}

/// Result of a settled round. NoWinner is the push when both sides bust.
#[derive(Clone, Copy, Debug, PartialEq, Eq, Structural)]
pub enum Outcome {
    PlayerWins,
    DealerWins,
    Draw,
    NoWinner,
}

/// Session-lifetime win counters. They persist across rounds and are
/// never reset or decremented.
#[derive(Clone, Copy, Debug, PartialEq, Eq, Structural)]
pub struct Tally {
    pub player_wins: u64,
    pub dealer_wins: u64,
}

/// State of the single active round.
#[derive(Debug, PartialEq)]
pub struct Round {
    pub phase: Phase,
    /// The player's hand, in draw order: two dealt cards, then hits.
    pub player_cards: Vec<Card>,
    /// The dealer's hand, in draw order: one card dealt, the rest drawn
    /// during `stand`.
    pub dealer_cards: Vec<Card>,
    /// Running total of the player's hand.
    pub player_total: u32,
    /// Running total of the dealer's hand.
    pub dealer_total: u32,
    /// Number of hits the player has taken this round, at most three.
    pub hits: u8,
    /// The settled result, present exactly in the Settled phase.
    pub outcome: Option<Outcome>,
}

/// Sum of the point values of a hand.
pub open spec fn hand_value(s: Seq<Card>) -> int
    decreases s.len(),
{
    if s.len() == 0 {
        0
    } else {
        hand_value(s.drop_last()) + card_value_spec(s.last())
    }
}

/// A hand of n cards totals between 2n and 11n.
pub proof fn lemma_hand_value_bounds(s: Seq<Card>)
    ensures
        2 * s.len() <= hand_value(s) <= 11 * s.len(),
    decreases s.len(),
{
    if s.len() > 0 {
        lemma_hand_value_bounds(s.drop_last());
    }
}

/// Appending a card adds its value to the hand's total.
pub proof fn lemma_hand_value_push(s: Seq<Card>, c: Card)
    ensures
        hand_value(s.push(c)) == hand_value(s) + card_value_spec(c),
{
    assert(s.push(c).drop_last() =~= s);
}

impl Tally {
    /// Both counters start at zero.
    pub fn new() -> (t: Tally)
        ensures
            t.player_wins == 0,
            t.dealer_wins == 0,
    {
        Tally { player_wins: 0, dealer_wins: 0 }
    }
}

/// How a settled outcome changes the tally: the winning side's counter
/// grows by exactly one; a draw or a double bust changes neither.
pub open spec fn tally_step(pre: Tally, post: Tally, o: Outcome) -> bool {
    match o {
        Outcome::PlayerWins => post.player_wins == pre.player_wins + 1 && post.dealer_wins
            == pre.dealer_wins,
        Outcome::DealerWins => post.player_wins == pre.player_wins && post.dealer_wins
            == pre.dealer_wins + 1,
        Outcome::Draw => post == pre,
        Outcome::NoWinner => post == pre,
    }
}

/// The settlement policy, first matching rule wins: a lone bust loses;
/// otherwise the higher unbusted total wins; both busting is NoWinner;
/// equal unbusted totals draw.
pub open spec fn settle_spec(p: int, d: int) -> Outcome {
    if p > 21 && d <= 21 {
        Outcome::DealerWins
    } else if d > 21 && p <= 21 {
        Outcome::PlayerWins
    } else if d > p && d <= 21 {
        Outcome::DealerWins
    } else if d < p && p <= 21 {
        Outcome::PlayerWins
    } else if d > 21 && p > 21 {
        Outcome::NoWinner
    } else {
        Outcome::Draw
    }
}

/// Settle a round from the two final totals.
pub fn settle(player_total: u32, dealer_total: u32) -> (o: Outcome)
    ensures
        o == settle_spec(player_total as int, dealer_total as int),
{
    if player_total > 21 && dealer_total <= 21 {
        Outcome::DealerWins
    } else if dealer_total > 21 && player_total <= 21 {
        Outcome::PlayerWins
    } else if dealer_total > player_total && dealer_total <= 21 {
        Outcome::DealerWins
    } else if dealer_total < player_total && player_total <= 21 {
        Outcome::PlayerWins
    } else if dealer_total > 21 && player_total > 21 {
        Outcome::NoWinner
    } else {
        Outcome::Draw
    }
}

impl Round {
    /// The state between rounds: no cards, zero totals, no hits taken,
    /// no result.
    pub open spec fn cleared(self) -> bool {
        &&& self.phase == Phase::Idle
        &&& self.player_cards@.len() == 0
        &&& self.dealer_cards@.len() == 0
        &&& self.player_total == 0
        &&& self.dealer_total == 0
        &&& self.hits == 0
        &&& self.outcome is None
    }

    /// Well-formedness: totals are the sums of the hands, the hit counter
    /// is capped at three, and each resting phase fixes the shape of both
    /// hands. DealerTurn is no resting phase.
    pub open spec fn wf(self) -> bool {
        &&& self.hits <= 3
        &&& self.player_total == hand_value(self.player_cards@)
        &&& self.dealer_total == hand_value(self.dealer_cards@)
        &&& match self.phase {
            Phase::Idle => self.player_cards@.len() == 0 && self.dealer_cards@.len() == 0
                && self.hits == 0 && self.outcome is None,
            Phase::PlayerTurn => self.player_cards@.len() == 2 + self.hits && self.dealer_cards@.len()
                == 1 && self.outcome is None,
            Phase::DealerTurn => false,
            Phase::Settled => self.player_cards@.len() == 2 + self.hits && 2
                <= self.dealer_cards@.len() <= 5 && self.outcome is Some,
        }
    }

    /// Dealing is permitted only between rounds.
    pub open spec fn deal_permitted(self) -> bool {
        self.phase == Phase::Idle
    }

    /// Hitting is permitted during the player's turn, for at most three
    /// hits, and only while the player's total is at most twenty.
    pub open spec fn hit_permitted(self) -> bool {
        self.phase == Phase::PlayerTurn && self.hits < 3 && self.player_total <= 20
    }

    /// Standing is permitted during the player's turn.
    pub open spec fn stand_permitted(self) -> bool {
        self.phase == Phase::PlayerTurn
    }

    /// Replay is permitted once the round is settled.
    pub open spec fn replay_permitted(self) -> bool {
        self.phase == Phase::Settled
    }

    /// A round starts cleared, in the Idle phase.
    pub fn new() -> (r: Round)
        ensures
            r.wf(),
            r.cleared(),
    {
        Round {
            phase: Phase::Idle,
            player_cards: Vec::new(),
            dealer_cards: Vec::new(),
            player_total: 0,
            dealer_total: 0,
            hits: 0,
            outcome: None,
        }
    }

    /// Whether `deal` would act on the current state.
    pub fn can_deal(&self) -> (b: bool)
        ensures
            b == self.deal_permitted(),
    {
        self.phase == Phase::Idle
    }

    /// Whether `hit` would act on the current state.
    pub fn can_hit(&self) -> (b: bool)
        ensures
            b == self.hit_permitted(),
    {
        self.phase == Phase::PlayerTurn && self.hits < 3 && self.player_total <= 20
    }

    /// Whether `stand` would act on the current state.
    pub fn can_stand(&self) -> (b: bool)
        ensures
            b == self.stand_permitted(),
    {
        self.phase == Phase::PlayerTurn
    }

    /// Whether `replay` would act on the current state.
    pub fn can_replay(&self) -> (b: bool)
        ensures
            b == self.replay_permitted(),
    {
        self.phase == Phase::Settled
    }

    /// The card in player slot `slot` (draw order), or None for an empty
    /// slot.
    pub fn player_card(&self, slot: usize) -> (c: Option<Card>)
        ensures
            c == (if slot < self.player_cards@.len() {
                Some(self.player_cards@[slot as int])
            } else {
                None::<Card>
            }),
    {
        if slot < self.player_cards.len() {
            Some(self.player_cards[slot])
        } else {
            None
        }
    }

    /// The card in dealer slot `slot` (draw order), or None for an empty
    /// slot.
    pub fn dealer_card(&self, slot: usize) -> (c: Option<Card>)
        ensures
            c == (if slot < self.dealer_cards@.len() {
                Some(self.dealer_cards@[slot as int])
            } else {
                None::<Card>
            }),
    {
        if slot < self.dealer_cards.len() {
            Some(self.dealer_cards[slot])
        } else {
            None
        }
    }
}

/// What `deal` leaves behind when it acts: two drawn cards for the player,
/// one for the dealer, each total the sum of its hand, the hit counter
/// reset and the previous result cleared.
pub open spec fn fresh_hand_dealt(post: Round) -> bool {
    &&& post.phase == Phase::PlayerTurn
    &&& post.player_cards@.len() == 2
    &&& post.dealer_cards@.len() == 1
    &&& post.player_total == hand_value(post.player_cards@)
    &&& post.dealer_total == hand_value(post.dealer_cards@)
    &&& post.hits == 0
    &&& post.outcome is None
}

/// Transition relation of `deal`: acts from Idle, otherwise a no-op.
pub open spec fn deal_rel(pre: Round, post: Round) -> bool {
    if pre.deal_permitted() {
        fresh_hand_dealt(post)
    } else {
        post == pre
    }
}

/// `post` extends `pre` by exactly one card at the end.
pub open spec fn one_more_card(pre: Seq<Card>, post: Seq<Card>) -> bool {
    &&& post.len() == pre.len() + 1
    &&& post.take(pre.len() as int) == pre
}

/// Transition relation of `hit`: when permitted, one drawn card joins the
/// player's hand and its value joins the total; otherwise a no-op.
pub open spec fn hit_rel(pre: Round, post: Round) -> bool {
    if pre.hit_permitted() {
        &&& post.phase == Phase::PlayerTurn
        &&& one_more_card(pre.player_cards@, post.player_cards@)
        &&& post.player_total == pre.player_total + card_value_spec(post.player_cards@.last())
        &&& post.hits == pre.hits + 1
        &&& post.dealer_cards@ == pre.dealer_cards@
        &&& post.dealer_total == pre.dealer_total
        &&& post.outcome is None
    } else {
        post == pre
    }
}

/// What `stand` leaves behind when it acts. The dealer keeps the dealt
/// card, draws a second unconditionally, then draws only while the total
/// is below sixteen, never past five cards; the round settles by the
/// settlement policy. The player's hand is untouched.
pub open spec fn dealer_resolved(pre: Round, post: Round) -> bool {
    &&& post.phase == Phase::Settled
    &&& post.player_cards@ == pre.player_cards@
    &&& post.player_total == pre.player_total
    &&& post.hits == pre.hits
    &&& post.dealer_cards@.len() >= 2
    &&& post.dealer_cards@.len() <= 5
    &&& post.dealer_cards@.take(pre.dealer_cards@.len() as int) == pre.dealer_cards@
    &&& post.dealer_total == hand_value(post.dealer_cards@)
    &&& post.dealer_total >= 16 || post.dealer_cards@.len() == 5
    &&& forall|i: int|
        2 <= i < post.dealer_cards@.len() ==> hand_value(post.dealer_cards@.take(i)) < 16
    &&& post.outcome == Some(settle_spec(post.player_total as int, post.dealer_total as int))
}

/// Transition relation of `stand`: acts from PlayerTurn, otherwise a
/// no-op.
pub open spec fn stand_rel(pre: Round, post: Round) -> bool {
    if pre.stand_permitted() {
        dealer_resolved(pre, post)
    } else {
        post == pre
    }
}

/// Transition relation of `replay`: acts from Settled and clears all hand
/// data; otherwise a no-op. It never touches the tally.
pub open spec fn replay_rel(pre: Round, post: Round) -> bool {
    if pre.replay_permitted() {
        post.cleared()
    } else {
        post == pre
    }
}

impl Round {
    /// Deal a new hand: two cards for the player, one for the dealer.
    /// A silent no-op outside the Idle phase.
    pub fn deal(&mut self)
        requires
            old(self).wf(),
        ensures
            final(self).wf(),
            deal_rel(*old(self), *final(self)),
    {
        if self.phase == Phase::Idle {
            let c1 = deck::draw_card();
            let c2 = deck::draw_card();
            let d1 = deck::draw_card();
            let v1: u32 = deck::card_value(c1);
            let v2: u32 = deck::card_value(c2);
            let dv: u32 = deck::card_value(d1);
            proof {
                lemma_hand_value_push(self.player_cards@, c1);
                lemma_hand_value_push(self.player_cards@.push(c1), c2);
                lemma_hand_value_push(self.dealer_cards@, d1);
            }
            self.player_cards.push(c1);
            self.player_cards.push(c2);
            self.player_total = v1 + v2;
            self.dealer_cards.push(d1);
            self.dealer_total = dv;
            self.hits = 0;
            self.outcome = None;
            self.phase = Phase::PlayerTurn;
        }
    }

    /// Take one more card for the player and add its value to the total.
    /// A silent no-op outside the player's turn, after three hits, or
    /// once the player's total exceeds twenty.
    pub fn hit(&mut self)
        requires
            old(self).wf(),
        ensures
            final(self).wf(),
            hit_rel(*old(self), *final(self)),
    {
        if self.phase == Phase::PlayerTurn && self.hits < 3 && self.player_total <= 20 {
            let c = deck::draw_card();
            let v: u32 = deck::card_value(c);
            proof {
                lemma_hand_value_push(self.player_cards@, c);
                assert(self.player_cards@.push(c).take(self.player_cards@.len() as int)
                    =~= self.player_cards@);
            }
            self.player_cards.push(c);
            self.player_total = self.player_total + v;
            self.hits = self.hits + 1;
        }
    }

    /// End the player's turn: the dealer draws a second card, keeps
    /// drawing while below sixteen and under five cards, and the round
    /// settles, updating the tally of the winning side, if any.
    /// A silent no-op outside the player's turn.
    pub fn stand(&mut self, tally: &mut Tally)
        requires
            old(self).wf(),
            old(self).stand_permitted() ==> old(tally).player_wins < u64::MAX && old(
                tally,
            ).dealer_wins < u64::MAX,
        ensures
            final(self).wf(),
            stand_rel(*old(self), *final(self)),
            old(self).stand_permitted() ==> tally_step(
                *old(tally),
                *final(tally),
                settle_spec(final(self).player_total as int, final(self).dealer_total as int),
            ),
            !old(self).stand_permitted() ==> *final(tally) == *old(tally),
    {
        if self.phase == Phase::PlayerTurn {
            self.phase = Phase::DealerTurn;
            let c = deck::draw_card();
            let v: u32 = deck::card_value(c);
            proof {
                lemma_hand_value_bounds(self.dealer_cards@);
                lemma_hand_value_push(self.dealer_cards@, c);
                assert(self.dealer_cards@.push(c).take(1int) =~= self.dealer_cards@);
            }
            self.dealer_cards.push(c);
            self.dealer_total = self.dealer_total + v;
            while self.dealer_total < 16 && self.dealer_cards.len() < 5
                invariant
                    old(self).wf(),
                    old(self).phase == Phase::PlayerTurn,
                    2 <= self.dealer_cards@.len() <= 5,
                    self.dealer_total == hand_value(self.dealer_cards@),
                    self.dealer_total <= 11 * self.dealer_cards@.len(),
                    self.dealer_cards@.take(1int) == old(self).dealer_cards@,
                    forall|i: int|
                        2 <= i < self.dealer_cards@.len() ==> hand_value(
                            self.dealer_cards@.take(i),
                        ) < 16,
                    self.phase == Phase::DealerTurn,
                    self.player_cards@ == old(self).player_cards@,
                    self.player_total == old(self).player_total,
                    self.hits == old(self).hits,
                    self.outcome == old(self).outcome,
                decreases 5 - self.dealer_cards@.len(),
            {
                let c2 = deck::draw_card();
                let v2: u32 = deck::card_value(c2);
                let ghost pre_cards = self.dealer_cards@;
                proof {
                    lemma_hand_value_push(self.dealer_cards@, c2);
                }
                self.dealer_cards.push(c2);
                self.dealer_total = self.dealer_total + v2;
                proof {
                    assert(self.dealer_cards@.take(1int) =~= pre_cards.take(1int));
                    assert forall|i: int| 2 <= i < self.dealer_cards@.len() implies hand_value(
                        self.dealer_cards@.take(i),
                    ) < 16 by {
                        if i < pre_cards.len() {
                            assert(self.dealer_cards@.take(i) =~= pre_cards.take(i));
                        } else {
                            assert(self.dealer_cards@.take(i) =~= pre_cards);
                        }
                    }
                    lemma_hand_value_bounds(self.dealer_cards@);
                }
            }
            let o = settle(self.player_total, self.dealer_total);
            self.outcome = Some(o);
            match o {
                Outcome::PlayerWins => {
                    tally.player_wins = tally.player_wins + 1;
                },
                Outcome::DealerWins => {
                    tally.dealer_wins = tally.dealer_wins + 1;
                },
                Outcome::Draw => {},
                Outcome::NoWinner => {},
            }
            self.phase = Phase::Settled;
        }
    }

    /// Clear all hand data and the result for a new round. The tally is
    /// not touched: it belongs to the session, not the round.
    /// A silent no-op unless the round is settled.
    pub fn replay(&mut self)
        requires
            old(self).wf(),
        ensures
            final(self).wf(),
            replay_rel(*old(self), *final(self)),
    {
        if self.phase == Phase::Settled {
            self.player_cards = Vec::new();
            self.dealer_cards = Vec::new();
            self.player_total = 0;
            self.dealer_total = 0;
            self.hits = 0;
            self.outcome = None;
            self.phase = Phase::Idle;
        }
    }
}

/// One step along the phase cycle Idle → PlayerTurn → DealerTurn →
/// Settled → Idle, or standing still.
pub open spec fn cycle_step(pre: Phase, post: Phase) -> bool {
    ||| post == pre
    ||| (pre == Phase::Idle && post == Phase::PlayerTurn)
    ||| (pre == Phase::PlayerTurn && post == Phase::DealerTurn)
    ||| (pre == Phase::DealerTurn && post == Phase::Settled)
    ||| (pre == Phase::Settled && post == Phase::Idle)
}

/// At most two steps along the phase cycle.
pub open spec fn cycle_steps_within_two(pre: Phase, post: Phase) -> bool {
    exists|mid: Phase| cycle_step(pre, mid) && cycle_step(mid, post)
}

/// Law: phase transitions strictly follow the cycle Idle → PlayerTurn →
/// DealerTurn → Settled → Idle. Dealing, hitting and replaying move the
/// phase at most one step; standing moves it at most two, passing through
/// the dealer's turn; hitting never leaves the player's turn.
pub proof fn lemma_phase_cycle(pre: Round, post: Round)
    ensures
        deal_rel(pre, post) ==> cycle_step(pre.phase, post.phase),
        hit_rel(pre, post) ==> post.phase == pre.phase,
        stand_rel(pre, post) ==> cycle_steps_within_two(pre.phase, post.phase),
        replay_rel(pre, post) ==> cycle_step(pre.phase, post.phase),
{
    if stand_rel(pre, post) {
        if pre.stand_permitted() {
            assert(cycle_step(pre.phase, Phase::DealerTurn) && cycle_step(
                Phase::DealerTurn,
                post.phase,
            ));
        } else {
            assert(cycle_step(pre.phase, pre.phase) && cycle_step(pre.phase, post.phase));
        }
    }
}

/// Law: a second deal with no stand or replay in between is a no-op. The
/// first deal either leaves the Idle phase or was itself a no-op outside
/// it, and dealing is guarded on Idle.
pub proof fn lemma_second_deal_is_noop(s0: Round, s1: Round, s2: Round)
    requires
        deal_rel(s0, s1),
        deal_rel(s1, s2),
    ensures
        s2 == s1,
{
}

/// Law: after a deal from Idle, the dealer's total is the value of
/// exactly one drawn card and the player's total is the sum of exactly
/// two.
pub proof fn lemma_deal_totals(pre: Round, post: Round)
    requires
        pre.deal_permitted(),
        deal_rel(pre, post),
    ensures
        post.dealer_cards@.len() == 1,
        post.dealer_total == card_value_spec(post.dealer_cards@[0]),
        post.player_cards@.len() == 2,
        post.player_total == card_value_spec(post.player_cards@[0]) + card_value_spec(
            post.player_cards@[1],
        ),
{
    let d = post.dealer_cards@;
    assert(hand_value(d.drop_last()) == 0);
    assert(d.last() == d[0]);
    let p = post.player_cards@;
    assert(hand_value(p.drop_last().drop_last()) == 0);
    assert(hand_value(p.drop_last()) == hand_value(p.drop_last().drop_last()) + card_value_spec(
        p.drop_last().last(),
    ));
    assert(p.drop_last().last() == p[0]);
    assert(p.last() == p[1]);
}

/// Law: a fourth hit changes nothing. Hits are capped at three, so a hit
/// taken with three already on the counter is a no-op.
pub proof fn lemma_hit_cap(pre: Round, post: Round)
    requires
        hit_rel(pre, post),
        pre.hits >= 3,
    ensures
        post == pre,
{
}

} // verus!
