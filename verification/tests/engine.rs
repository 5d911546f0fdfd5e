use blackjack::deck::Card;
use blackjack::deck::Rank;
use blackjack::deck::Suit;
use blackjack::deck::card_value;
use blackjack::round::Outcome;
use blackjack::round::Phase;
use blackjack::round::Round;
use blackjack::round::Tally;
use blackjack::round::settle;

fn card(rank: Rank) -> Card {
    Card { rank, suit: Suit::Spades }
}

fn total_of(cards: &[Card]) -> u32 {
    cards.iter().map(|c| card_value(*c)).sum()
}

/// A well-formed state in the middle of the player's turn.
fn player_turn_round(player: Vec<Card>, dealer: Vec<Card>, hits: u8) -> Round {
    assert_eq!(player.len(), 2 + hits as usize);
    assert_eq!(dealer.len(), 1);
    let player_total = total_of(&player);
    let dealer_total = total_of(&dealer);
    Round {
        phase: Phase::PlayerTurn,
        player_cards: player,
        dealer_cards: dealer,
        player_total,
        dealer_total,
        hits,
        outcome: None,
    }
}

#[test]
fn new_round_is_cleared_and_idle() {
    let r = Round::new();
    assert_eq!(r.phase, Phase::Idle);
    assert!(r.player_cards.is_empty());
    assert!(r.dealer_cards.is_empty());
    assert_eq!(r.player_total, 0);
    assert_eq!(r.dealer_total, 0);
    assert_eq!(r.hits, 0);
    assert_eq!(r.outcome, None);
    let t = Tally::new();
    assert_eq!(t.player_wins, 0);
    assert_eq!(t.dealer_wins, 0);
}

#[test]
fn deal_gives_player_two_cards_and_dealer_one() {
    let mut r = Round::new();
    r.deal();
    assert_eq!(r.phase, Phase::PlayerTurn);
    assert_eq!(r.player_cards.len(), 2);
    assert_eq!(r.dealer_cards.len(), 1);
    assert_eq!(r.player_total, total_of(&r.player_cards));
    assert_eq!(r.dealer_total, card_value(r.dealer_cards[0]));
    assert_eq!(r.hits, 0);
    assert_eq!(r.outcome, None);
}

#[test]
fn second_deal_in_a_row_is_a_noop() {
    let mut r = Round::new();
    r.deal();
    let snapshot_player = r.player_cards.clone();
    let snapshot_dealer = r.dealer_cards.clone();
    let (pt, dt, hits) = (r.player_total, r.dealer_total, r.hits);
    r.deal();
    assert_eq!(r.phase, Phase::PlayerTurn);
    assert_eq!(r.player_cards, snapshot_player);
    assert_eq!(r.dealer_cards, snapshot_dealer);
    assert_eq!((r.player_total, r.dealer_total, r.hits), (pt, dt, hits));
}

#[test]
fn actions_outside_their_phase_are_noops() {
    let mut t = Tally::new();

    let mut idle = Round::new();
    idle.hit();
    assert_eq!(idle, Round::new());
    idle.stand(&mut t);
    assert_eq!(idle, Round::new());
    assert_eq!((t.player_wins, t.dealer_wins), (0, 0));
    idle.replay();
    assert_eq!(idle, Round::new());

    let playing = player_turn_round(
        vec![card(Rank::Two), card(Rank::Three)],
        vec![card(Rank::Four)],
        0,
    );
    let mut r = player_turn_round(
        vec![card(Rank::Two), card(Rank::Three)],
        vec![card(Rank::Four)],
        0,
    );
    r.deal();
    assert_eq!(r, playing);
    r.replay();
    assert_eq!(r, playing);
}

#[test]
fn hit_appends_one_card_and_its_value() {
    let mut r = player_turn_round(
        vec![card(Rank::Two), card(Rank::Two)],
        vec![card(Rank::Five)],
        0,
    );
    r.hit();
    assert_eq!(r.phase, Phase::PlayerTurn);
    assert_eq!(r.hits, 1);
    assert_eq!(r.player_cards.len(), 3);
    assert_eq!(r.player_total, 4 + card_value(r.player_cards[2]));
    assert_eq!(r.dealer_cards.len(), 1);
    assert_eq!(r.dealer_total, 5);
    assert_eq!(r.outcome, None);
}

#[test]
fn fourth_hit_changes_nothing() {
    let five_twos = vec![
        card(Rank::Two),
        card(Rank::Two),
        card(Rank::Two),
        card(Rank::Two),
        card(Rank::Two),
    ];
    let mut r = player_turn_round(five_twos.clone(), vec![card(Rank::Five)], 3);
    r.hit();
    assert_eq!(r.phase, Phase::PlayerTurn);
    assert_eq!(r.hits, 3);
    assert_eq!(r.player_cards, five_twos);
    assert_eq!(r.player_total, 10);
}

#[test]
fn hit_is_disabled_above_twenty() {
    let mut r = player_turn_round(
        vec![card(Rank::Ace), card(Rank::Ten)],
        vec![card(Rank::Five)],
        0,
    );
    assert_eq!(r.player_total, 21);
    assert!(!r.can_hit());
    r.hit();
    assert_eq!(r.hits, 0);
    assert_eq!(r.player_cards.len(), 2);
    assert_eq!(r.player_total, 21);
}

#[test]
fn hit_is_allowed_at_exactly_twenty() {
    let r = player_turn_round(
        vec![card(Rank::Ten), card(Rank::Ten)],
        vec![card(Rank::Five)],
        0,
    );
    assert_eq!(r.player_total, 20);
    assert!(r.can_hit());
}

#[test]
fn stand_resolves_dealer_and_settles() {
    let mut t = Tally::new();
    let mut r = player_turn_round(
        vec![card(Rank::Ten), card(Rank::Ten)],
        vec![card(Rank::Five)],
        0,
    );
    r.stand(&mut t);
    assert_eq!(r.phase, Phase::Settled);

    // The player's hand is untouched.
    assert_eq!(r.player_cards.len(), 2);
    assert_eq!(r.player_total, 20);
    assert_eq!(r.hits, 0);

    // The dealt dealer card is kept, and the totals add up.
    assert_eq!(r.dealer_cards[0], card(Rank::Five));
    assert_eq!(r.dealer_total, total_of(&r.dealer_cards));

    // Dealer auto-play: two to five cards, stopping as soon as the total
    // reaches sixteen.
    assert!(r.dealer_cards.len() >= 2);
    assert!(r.dealer_cards.len() <= 5);
    assert!(r.dealer_total >= 16 || r.dealer_cards.len() == 5);
    for k in 2..r.dealer_cards.len() {
        assert!(total_of(&r.dealer_cards[..k]) < 16);
    }

    // Settlement matches the policy on the final totals.
    assert_eq!(r.outcome, Some(settle(r.player_total, r.dealer_total)));
}

#[test]
fn settlement_precedence_is_exact() {
    assert_eq!(settle(22, 20), Outcome::DealerWins);
    assert_eq!(settle(18, 22), Outcome::PlayerWins);
    assert_eq!(settle(19, 20), Outcome::DealerWins);
    assert_eq!(settle(20, 18), Outcome::PlayerWins);
    assert_eq!(settle(22, 23), Outcome::NoWinner);
    assert_eq!(settle(20, 20), Outcome::Draw);
}

#[test]
fn tally_moves_only_on_wins_and_by_exactly_one() {
    let mut r = Round::new();
    let mut t = Tally::new();
    for _ in 0..50 {
        r.deal();
        let before = t;
        r.stand(&mut t);
        match r.outcome.unwrap() {
            Outcome::PlayerWins => {
                assert_eq!(t.player_wins, before.player_wins + 1);
                assert_eq!(t.dealer_wins, before.dealer_wins);
            }
            Outcome::DealerWins => {
                assert_eq!(t.player_wins, before.player_wins);
                assert_eq!(t.dealer_wins, before.dealer_wins + 1);
            }
            Outcome::Draw | Outcome::NoWinner => {
                assert_eq!(t, before);
            }
        }
        r.replay();
    }
}

#[test]
fn busted_player_never_wins() {
    let mut t = Tally::new();
    let mut r = player_turn_round(
        vec![card(Rank::Ace), card(Rank::Nine), card(Rank::Two)],
        vec![card(Rank::Five)],
        1,
    );
    assert_eq!(r.player_total, 22);
    r.stand(&mut t);
    match r.outcome.unwrap() {
        Outcome::DealerWins => {
            assert!(r.dealer_total <= 21);
            assert_eq!((t.player_wins, t.dealer_wins), (0, 1));
        }
        Outcome::NoWinner => {
            assert!(r.dealer_total > 21);
            assert_eq!((t.player_wins, t.dealer_wins), (0, 0));
        }
        o => panic!("a busted player cannot settle as {:?}", o),
    }
}

#[test]
fn replay_clears_the_round_but_not_the_tally() {
    let mut t = Tally::new();
    let mut r = player_turn_round(
        vec![card(Rank::Ten), card(Rank::Ten)],
        vec![card(Rank::Five)],
        0,
    );
    r.stand(&mut t);
    let settled_tally = t;
    r.replay();
    assert_eq!(r.phase, Phase::Idle);
    assert!(r.player_cards.is_empty());
    assert!(r.dealer_cards.is_empty());
    assert_eq!(r.player_total, 0);
    assert_eq!(r.dealer_total, 0);
    assert_eq!(r.hits, 0);
    assert_eq!(r.outcome, None);
    assert_eq!(t, settled_tally);
}

#[test]
fn phases_cycle_through_a_full_round() {
    let mut r = Round::new();
    let mut t = Tally::new();
    assert_eq!(r.phase, Phase::Idle);
    assert!(r.can_deal() && !r.can_hit() && !r.can_stand() && !r.can_replay());
    r.deal();
    assert_eq!(r.phase, Phase::PlayerTurn);
    assert!(!r.can_deal() && r.can_stand() && !r.can_replay());
    r.stand(&mut t);
    assert_eq!(r.phase, Phase::Settled);
    assert!(!r.can_deal() && !r.can_hit() && !r.can_stand() && r.can_replay());
    r.replay();
    assert_eq!(r.phase, Phase::Idle);
    assert!(r.can_deal());
}

#[test]
fn slot_accessors_report_cards_and_empty_slots() {
    let r = player_turn_round(
        vec![card(Rank::Two), card(Rank::King)],
        vec![card(Rank::Five)],
        0,
    );
    assert_eq!(r.player_card(0), Some(card(Rank::Two)));
    assert_eq!(r.player_card(1), Some(card(Rank::King)));
    assert_eq!(r.player_card(2), None);
    assert_eq!(r.player_card(4), None);
    assert_eq!(r.dealer_card(0), Some(card(Rank::Five)));
    assert_eq!(r.dealer_card(1), None);
}

#[test]
fn dealer_draws_are_seed_dependent_but_rules_hold_for_any_seed() {
    for seed in [0u64, 1, 7, 424242, u64::MAX] {
        quad_rand::srand(seed);
        let mut r = Round::new();
        let mut t = Tally::new();
        r.deal();
        assert_eq!(r.player_total, total_of(&r.player_cards));
        r.stand(&mut t);
        assert!(r.dealer_cards.len() >= 2);
        assert!(r.dealer_cards.len() <= 5);
        assert!(r.dealer_total >= 16 || r.dealer_cards.len() == 5);
        assert_eq!(r.outcome, Some(settle(r.player_total, r.dealer_total)));
        assert!(t.player_wins + t.dealer_wins <= 1);
    }
}
