use csr::error::Error as ConduitError;
use csr::game::{draw_truth, score_coins, score_dice, Action, Event, GameLoop, Truth};
use csr::service_error::Error;
use csr::types::{ClientResponse, Coin, CoinGuess, DiceGuess, Pong, ServerRequest, SessionType, UserID};

fn pong() -> Event {
    Event::Reply(Some(ClientResponse::Pong(Pong::new("pong"))))
}

fn vote(a: bool) -> Event {
    Event::Reply(Some(ClientResponse::Again(a)))
}

fn expect_ping(g: &GameLoop, uid: u64) {
    match g.action() {
        Action::Ask(u, ServerRequest::Ping(p)) => {
            assert_eq!(u, UserID(uid));
            assert_eq!(p.text(), "Game start");
        }
        _ => panic!("expected a ping"),
    }
}

fn expect_winner(g: &GameLoop, to: u64, winner: u64, name: &str) {
    match g.action() {
        Action::Tell(u, ServerRequest::Winner(w)) => {
            assert_eq!(u, UserID(to));
            assert_eq!(w.user_id(), UserID(winner));
            assert_eq!(w.user_name(), name);
        }
        _ => panic!("expected a winner announcement"),
    }
}

fn expect_vote(g: &GameLoop, uid: u64) {
    assert!(matches!(g.action(), Action::Ask(u, ServerRequest::TryAgain(true)) if u == UserID(uid)));
}

fn two_players(kind: SessionType) -> GameLoop {
    GameLoop::new(
        vec![(UserID(1), "A".to_string()), (UserID(2), "B".to_string())],
        vec![UserID(1), UserID(2)],
        kind,
    )
}

#[test]
fn single_user_coin_round() {
    let mut g = GameLoop::new(vec![(UserID(7), "a".to_string())], vec![UserID(7)], SessionType::Coin);
    expect_ping(&g, 7);
    g.step(pong());
    assert!(matches!(g.action(), Action::Draw(SessionType::Coin)));
    g.step(Event::Drawn(Truth::Coin { flips: vec![Coin::Heads, Coin::Heads] }));
    match g.action() {
        Action::Ask(u, ServerRequest::FlipCoin(f)) => {
            assert_eq!(u, UserID(7));
            assert_eq!(f.count(), 2);
        }
        _ => panic!("expected a coin prompt"),
    }
    g.step(Event::Reply(Some(ClientResponse::CoinGuess(CoinGuess::new(&[Coin::Heads, Coin::Tails])))));
    expect_winner(&g, 7, 7, "a");
    g.step(Event::Sent(true));
    expect_vote(&g, 7);
    g.step(vote(false));
    assert!(matches!(g.action(), Action::Finish));
    assert!(g.is_finished());
}

#[test]
fn dice_tie_goes_to_last_polled() {
    let mut g = two_players(SessionType::Dice);
    expect_ping(&g, 1);
    g.step(pong());
    expect_ping(&g, 2);
    g.step(pong());
    assert!(matches!(g.action(), Action::Draw(SessionType::Dice)));
    g.step(Event::Drawn(Truth::Dice { sides: 6, rolls: vec![3, 5] }));
    for uid in [1u64, 2] {
        match g.action() {
            Action::Ask(u, ServerRequest::RollDice(r)) => {
                assert_eq!(u, UserID(uid));
                assert_eq!((r.sides(), r.count()), (6, 2));
            }
            _ => panic!("expected a dice prompt"),
        }
        g.step(Event::Reply(Some(ClientResponse::DiceGuess(DiceGuess::new(&[3, 5])))));
    }
    expect_winner(&g, 1, 2, "B");
    g.step(Event::Sent(true));
    expect_winner(&g, 2, 2, "B");
    g.step(Event::Sent(true));
    expect_vote(&g, 1);
}

#[test]
fn higher_score_keeps_lead() {
    let mut g = two_players(SessionType::Dice);
    g.step(pong());
    g.step(pong());
    g.step(Event::Drawn(Truth::Dice { sides: 6, rolls: vec![3, 5] }));
    g.step(Event::Reply(Some(ClientResponse::DiceGuess(DiceGuess::new(&[3, 5])))));
    g.step(Event::Reply(Some(ClientResponse::DiceGuess(DiceGuess::new(&[1, 5])))));
    expect_winner(&g, 1, 1, "A");
}

#[test]
fn all_zero_scores_elect_last_user() {
    let mut g = two_players(SessionType::Coin);
    g.step(pong());
    g.step(pong());
    g.step(Event::Drawn(Truth::Coin { flips: vec![Coin::Heads] }));
    g.step(Event::Reply(Some(ClientResponse::CoinGuess(CoinGuess::new(&[Coin::Tails])))));
    g.step(Event::Reply(Some(ClientResponse::CoinGuess(CoinGuess::new(&[])))));
    expect_winner(&g, 1, 2, "B");
}

#[test]
fn one_no_vote_ends_the_loop() {
    let mut g = two_players(SessionType::Coin);
    g.step(pong());
    g.step(pong());
    g.step(Event::Drawn(Truth::Coin { flips: vec![Coin::Tails] }));
    g.step(Event::Reply(Some(ClientResponse::CoinGuess(CoinGuess::new(&[Coin::Tails])))));
    g.step(Event::Reply(Some(ClientResponse::CoinGuess(CoinGuess::new(&[Coin::Heads])))));
    g.step(Event::Sent(true));
    g.step(Event::Sent(true));
    expect_vote(&g, 1);
    g.step(vote(true));
    expect_vote(&g, 2);
    g.step(vote(false));
    assert!(matches!(g.action(), Action::Finish));
}

#[test]
fn all_yes_votes_start_another_round() {
    let mut g = GameLoop::new(vec![(UserID(4), "d".to_string())], vec![UserID(4)], SessionType::Coin);
    g.step(pong());
    g.step(Event::Drawn(Truth::Coin { flips: vec![Coin::Tails] }));
    g.step(Event::Reply(Some(ClientResponse::CoinGuess(CoinGuess::new(&[Coin::Tails])))));
    g.step(Event::Sent(true));
    g.step(vote(true));
    expect_ping(&g, 4);
}

#[test]
fn disconnect_is_reported_to_everyone() {
    let mut g = two_players(SessionType::Dice);
    g.step(pong());
    g.step(pong());
    g.step(Event::Drawn(Truth::Dice { sides: 4, rolls: vec![1] }));
    g.step(Event::Reply(None));
    for uid in [1u64, 2] {
        match g.action() {
            Action::Report(u, e) => {
                assert_eq!(u, UserID(uid));
                assert_eq!(e, Error::Conduit(ConduitError::ClientDisconnected));
            }
            _ => panic!("expected a report"),
        }
        g.step(Event::Sent(false));
    }
    assert!(matches!(g.action(), Action::Finish));
}

#[test]
fn wrong_reply_kind_is_reported() {
    let mut g = GameLoop::new(vec![(UserID(1), "a".to_string())], vec![UserID(1)], SessionType::Dice);
    g.step(pong());
    g.step(Event::Drawn(Truth::Dice { sides: 8, rolls: vec![2, 7] }));
    g.step(Event::Reply(Some(ClientResponse::CoinGuess(CoinGuess::new(&[Coin::Heads])))));
    match g.action() {
        Action::Report(u, e) => {
            assert_eq!(u, UserID(1));
            assert_eq!(e, Error::Conduit(ConduitError::InvalidClientResponse));
        }
        _ => panic!("expected a report"),
    }
}

#[test]
fn client_error_is_reported() {
    let mut g = GameLoop::new(vec![(UserID(1), "a".to_string())], vec![UserID(1)], SessionType::Coin);
    g.step(Event::Reply(Some(ClientResponse::ClientError("oops".to_string()))));
    match g.action() {
        Action::Report(_, e) => assert_eq!(e, Error::Conduit(ConduitError::ClientError("oops".to_string()))),
        _ => panic!("expected a report"),
    }
}

#[test]
fn unreachable_user_is_reported() {
    let mut g = GameLoop::new(
        vec![(UserID(1), "a".to_string()), (UserID(2), "b".to_string())],
        vec![UserID(1)],
        SessionType::Coin,
    );
    expect_ping(&g, 1);
    g.step(pong());
    match g.action() {
        Action::Report(u, e) => {
            assert_eq!(u, UserID(1));
            assert_eq!(e, Error::ClientUnreachable(UserID(2)));
        }
        _ => panic!("expected a report"),
    }
    g.step(Event::Sent(true));
    assert!(matches!(g.action(), Action::Finish));
}

#[test]
fn undelivered_winner_is_reported() {
    let mut g = GameLoop::new(vec![(UserID(1), "a".to_string())], vec![UserID(1)], SessionType::Coin);
    g.step(pong());
    g.step(Event::Drawn(Truth::Coin { flips: vec![Coin::Heads] }));
    g.step(Event::Reply(Some(ClientResponse::CoinGuess(CoinGuess::new(&[Coin::Heads])))));
    g.step(Event::Sent(false));
    assert!(matches!(
        g.action(),
        Action::Report(_, Error::Conduit(ConduitError::ClientDisconnected))
    ));
}

#[test]
fn empty_user_list_has_no_winner() {
    let mut g = GameLoop::new(vec![], vec![], SessionType::Coin);
    assert!(matches!(g.action(), Action::Draw(SessionType::Coin)));
    g.step(Event::Drawn(Truth::Coin { flips: vec![Coin::Heads] }));
    assert!(matches!(g.action(), Action::Finish));
}

#[test]
fn unsuitable_values_are_ignored() {
    let mut g = GameLoop::new(vec![(UserID(1), "a".to_string())], vec![UserID(1)], SessionType::Dice);
    g.step(pong());
    g.step(Event::Drawn(Truth::Coin { flips: vec![Coin::Heads] }));
    assert!(matches!(g.action(), Action::Draw(SessionType::Dice)));
    g.step(Event::Drawn(Truth::Dice { sides: 7, rolls: vec![1] }));
    assert!(matches!(g.action(), Action::Draw(SessionType::Dice)));
    g.step(Event::Drawn(Truth::Dice { sides: 6, rolls: vec![9] }));
    assert!(matches!(g.action(), Action::Draw(SessionType::Dice)));
    g.step(Event::Sent(true));
    assert!(matches!(g.action(), Action::Draw(SessionType::Dice)));
}

#[test]
fn dice_scores() {
    assert_eq!(score_dice(&[3, 5], &[3, 5]), 2);
    assert_eq!(score_dice(&[3, 5], &[3, 3, 5, 6]), 3);
    assert_eq!(score_dice(&[3, 3], &[3]), 1);
    assert_eq!(score_dice(&[1], &[]), 0);
}

#[test]
fn coin_scores() {
    assert_eq!(score_coins(&[Coin::Heads, Coin::Heads], &[Coin::Heads, Coin::Tails]), 1);
    assert_eq!(score_coins(&[Coin::Heads, Coin::Tails, Coin::Heads], &[Coin::Heads]), 1);
    assert_eq!(score_coins(&[Coin::Tails], &[Coin::Tails, Coin::Tails, Coin::Tails]), 1);
    assert_eq!(score_coins(&[], &[Coin::Tails]), 0);
}

#[test]
fn drawn_values_are_in_range() {
    for _ in 0..200 {
        match draw_truth(SessionType::Dice) {
            Truth::Dice { sides, rolls } => {
                assert!([4u8, 6, 8, 12, 20].contains(&sides));
                assert!(!rolls.is_empty() && rolls.len() <= 6);
                assert!(rolls.iter().all(|r| *r >= 1 && *r <= sides));
            }
            Truth::Coin { .. } => panic!("dice game drew coins"),
        }
        match draw_truth(SessionType::Coin) {
            Truth::Coin { flips } => assert!(!flips.is_empty() && flips.len() <= 6),
            Truth::Dice { .. } => panic!("coin game drew dice"),
        }
    }
}
