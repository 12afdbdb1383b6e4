use csr::clean;
use csr::error::Error;
use csr::event::{client_reply, flip_coin_reply, ping_reply, roll_dice_reply, try_again_reply, Answer};
use csr::types::{
    event_response_from_wire, ClientResponse, Coin, CoinGuess, DiceGuess, EventRegister, FlipCoin,
    HostInfo, JoinInfo, Ping, Pong, RollDice, ServerRequest, SessionData, SessionID, SessionType,
    Sessions, StartInfo, UserID, Winner,
};

#[test]
fn session_type_wire_values() {
    assert_eq!(SessionType::Dice.to_wire(), 0);
    assert_eq!(SessionType::Coin.to_wire(), 1);
    assert_eq!(SessionType::from_wire(0), Ok(SessionType::Dice));
    assert_eq!(SessionType::from_wire(1), Ok(SessionType::Coin));
    assert_eq!(SessionType::from_wire(2), Err(Error::InvalidSessionType));
    assert_eq!(SessionType::from_wire(-1), Err(Error::InvalidSessionType));
}

#[test]
fn coin_wire_values() {
    assert_eq!(Coin::Heads.to_wire(), 0);
    assert_eq!(Coin::Tails.to_wire(), 1);
    assert_eq!(Coin::from_wire(1), Ok(Coin::Tails));
    assert_eq!(Coin::from_wire(7), Err(Error::InvalidCoinValue));
}

#[test]
fn host_info_round_trip() {
    let h = HostInfo::new(SessionType::Coin, 4);
    let w = h.to_wire();
    assert_eq!(w.session_type, 1);
    assert_eq!(w.player_count, 4);
    let back = HostInfo::from_wire(&w).unwrap();
    assert_eq!(back.session_type(), SessionType::Coin);
    assert_eq!(back.player_count(), 4);
    let bad = clean::HostInfo { session_type: 9, player_count: 1 };
    assert!(matches!(HostInfo::from_wire(&bad), Err(Error::InvalidSessionType)));
}

#[test]
fn session_data_round_trip() {
    let users = vec!["a".to_string(), "b".to_string()];
    let d = SessionData::new(SessionID(3), SessionType::Dice, &users);
    let w = d.to_wire();
    assert_eq!(w.session_id, 3);
    assert_eq!(w.session_type, 0);
    assert_eq!(w.users, users);
    let back = SessionData::from_wire(&w).unwrap();
    assert_eq!(back.session_id(), SessionID(3));
    assert_eq!(back.session_type(), SessionType::Dice);
    assert_eq!(back.users(), &users[..]);
}

#[test]
fn sessions_round_trip_and_refusal() {
    let a = SessionData::new(SessionID(1), SessionType::Coin, &[]);
    let b = SessionData::new(SessionID(2), SessionType::Dice, &["x".to_string()]);
    let s = Sessions::new(&[a, b]);
    let w = s.to_wire();
    assert_eq!(w.data.len(), 2);
    let back = Sessions::from_wire(&w).unwrap();
    assert_eq!(back.sessions().len(), 2);
    assert_eq!(back.sessions()[1].users(), &["x".to_string()][..]);
    let bad = clean::Sessions {
        data: vec![clean::SessionData { session_id: 1, session_type: 5, users: vec![] }],
    };
    assert!(matches!(Sessions::from_wire(&bad), Err(Error::InvalidSessionType)));
}

#[test]
fn join_info_round_trip() {
    let j = JoinInfo::new(SessionID(5), UserID(7), "a");
    let back = JoinInfo::from_wire(&j.to_wire());
    assert_eq!(back.session_id(), SessionID(5));
    assert_eq!(back.user_id(), UserID(7));
    assert_eq!(back.user_name(), "a");
}

#[test]
fn start_info_and_event_register_round_trip() {
    let s = StartInfo::new(SessionID(8));
    assert_eq!(StartInfo::from_wire(&s.to_wire()).session_id(), SessionID(8));
    let e = EventRegister::new(SessionID(2), UserID(9));
    let back = EventRegister::from_wire(&e.to_wire());
    assert_eq!(back, e);
    assert_eq!(back.session_id(), SessionID(2));
    assert_eq!(back.user_id(), UserID(9));
}

#[test]
fn prompt_round_trip() {
    let prompts = vec![
        ServerRequest::JoinInfo(JoinInfo::new(SessionID(1), UserID(2), "n")),
        ServerRequest::Ping(Ping::new("hi")),
        ServerRequest::RollDice(RollDice::new(6, 2)),
        ServerRequest::FlipCoin(FlipCoin::new(3)),
        ServerRequest::Winner(Winner::new(UserID(7), "a")),
        ServerRequest::TryAgain(true),
        ServerRequest::ServerError("boom".to_string()),
    ];
    for p in prompts.iter() {
        let back = ServerRequest::from_wire(&p.to_wire()).unwrap();
        match (p, &back) {
            (ServerRequest::JoinInfo(a), ServerRequest::JoinInfo(b)) => {
                assert_eq!(a.session_id(), b.session_id());
                assert_eq!(a.user_id(), b.user_id());
                assert_eq!(a.user_name(), b.user_name());
            }
            (ServerRequest::Ping(a), ServerRequest::Ping(b)) => assert_eq!(a.text(), b.text()),
            (ServerRequest::RollDice(a), ServerRequest::RollDice(b)) => {
                assert_eq!(a.sides(), b.sides());
                assert_eq!(a.count(), b.count());
            }
            (ServerRequest::FlipCoin(a), ServerRequest::FlipCoin(b)) => assert_eq!(a.count(), b.count()),
            (ServerRequest::Winner(a), ServerRequest::Winner(b)) => {
                assert_eq!(a.user_id(), b.user_id());
                assert_eq!(a.user_name(), b.user_name());
            }
            (ServerRequest::TryAgain(a), ServerRequest::TryAgain(b)) => assert_eq!(a, b),
            (ServerRequest::ServerError(a), ServerRequest::ServerError(b)) => assert_eq!(a, b),
            _ => panic!("variant changed"),
        }
    }
}

#[test]
fn prompt_wire_form() {
    let w = ServerRequest::RollDice(RollDice::new(20, 6)).to_wire();
    match w.msg {
        Some(clean::ServerMsg::Dice(d)) => {
            assert_eq!(d.sides, 20);
            assert_eq!(d.count, 6);
        }
        _ => panic!("wrong payload"),
    }
}

#[test]
fn empty_prompt_refused() {
    let w = clean::ServerRequest { msg: None };
    assert!(matches!(ServerRequest::from_wire(&w), Err(Error::InvalidServerRequest)));
}

#[test]
fn reply_round_trip() {
    let w = ClientResponse::DiceGuess(DiceGuess::new(&[3, 5])).to_wire();
    match &w.msg {
        Some(clean::ClientMsg::DiceGuess(d)) => assert_eq!(d.number, vec![3u32, 5]),
        _ => panic!("wrong payload"),
    }
    match ClientResponse::from_wire(&w).unwrap() {
        ClientResponse::DiceGuess(d) => assert_eq!(d.number(), &[3u8, 5][..]),
        _ => panic!("variant changed"),
    }
    let w = ClientResponse::CoinGuess(CoinGuess::new(&[Coin::Tails, Coin::Heads])).to_wire();
    match &w.msg {
        Some(clean::ClientMsg::CoinGuess(c)) => assert_eq!(c.coins, vec![1, 0]),
        _ => panic!("wrong payload"),
    }
    match ClientResponse::from_wire(&w).unwrap() {
        ClientResponse::CoinGuess(c) => assert_eq!(c.coins(), &[Coin::Tails, Coin::Heads][..]),
        _ => panic!("variant changed"),
    }
    match ClientResponse::from_wire(&ClientResponse::Pong(Pong::new("p")).to_wire()).unwrap() {
        ClientResponse::Pong(p) => assert_eq!(p.text(), "p"),
        _ => panic!("variant changed"),
    }
    match ClientResponse::from_wire(&ClientResponse::Again(false).to_wire()).unwrap() {
        ClientResponse::Again(a) => assert!(!a),
        _ => panic!("variant changed"),
    }
    match ClientResponse::from_wire(&ClientResponse::ClientError("e".to_string()).to_wire()).unwrap() {
        ClientResponse::ClientError(e) => assert_eq!(e, "e"),
        _ => panic!("variant changed"),
    }
}

#[test]
fn reply_refusals() {
    let none = clean::ClientResponse { msg: None };
    assert!(matches!(ClientResponse::from_wire(&none), Err(Error::InvalidClientResponse)));
    let bad_coin = clean::ClientResponse {
        msg: Some(clean::ClientMsg::CoinGuess(clean::CoinGuess { coins: vec![0, 2] })),
    };
    assert!(matches!(ClientResponse::from_wire(&bad_coin), Err(Error::InvalidCoinValue)));
}

#[test]
fn dice_guess_narrowed_from_wire() {
    let w = clean::ClientResponse {
        msg: Some(clean::ClientMsg::DiceGuess(clean::DiceGuess { number: vec![256 + 4, 2] })),
    };
    match ClientResponse::from_wire(&w).unwrap() {
        ClientResponse::DiceGuess(d) => assert_eq!(d.number(), &[4u8, 2][..]),
        _ => panic!("variant changed"),
    }
}

#[test]
fn event_response_read_off_wire() {
    let w = clean::ClientEventResponse {
        er: Some(clean::EventRegister { session_id: 1, user_id: 7 }),
        client_response: Some(ClientResponse::Again(true).to_wire()),
    };
    let (er, cr) = event_response_from_wire(&w).unwrap();
    assert_eq!(er, EventRegister::new(SessionID(1), UserID(7)));
    assert!(matches!(cr, ClientResponse::Again(true)));
    let missing = clean::ClientEventResponse { er: None, client_response: None };
    assert!(matches!(event_response_from_wire(&missing), Err(Error::InvalidClientResponse)));
}

#[test]
fn conduit_correlation() {
    let guess = roll_dice_reply(Some(ClientResponse::DiceGuess(DiceGuess::new(&[1, 2]))));
    assert_eq!(guess, Ok(vec![1u8, 2]));
    let wrong = roll_dice_reply(Some(ClientResponse::CoinGuess(CoinGuess::new(&[Coin::Heads]))));
    assert_eq!(wrong, Err(Error::InvalidClientResponse));
    assert_eq!(roll_dice_reply(None), Err(Error::ClientDisconnected));
    assert_eq!(
        roll_dice_reply(Some(ClientResponse::ClientError("x".to_string()))),
        Err(Error::ClientError("x".to_string()))
    );
}

#[test]
fn other_prompt_replies() {
    assert_eq!(ping_reply(Some(ClientResponse::Pong(Pong::new("pong")))), Ok("pong".to_string()));
    assert_eq!(ping_reply(Some(ClientResponse::Again(true))), Err(Error::InvalidClientResponse));
    assert_eq!(
        flip_coin_reply(Some(ClientResponse::CoinGuess(CoinGuess::new(&[Coin::Tails])))),
        Ok(vec![Coin::Tails])
    );
    assert_eq!(flip_coin_reply(None), Err(Error::ClientDisconnected));
    assert_eq!(try_again_reply(Some(ClientResponse::Again(false))), Ok(false));
    assert_eq!(
        try_again_reply(Some(ClientResponse::Pong(Pong::new("p")))),
        Err(Error::InvalidClientResponse)
    );
}

#[test]
fn client_reply_wraps_answers() {
    assert!(client_reply(Ok(Answer::Done)).is_none());
    assert!(matches!(client_reply(Ok(Answer::Vote(true))), Some(ClientResponse::Again(true))));
    match client_reply(Ok(Answer::Text("pong".to_string()))) {
        Some(ClientResponse::Pong(p)) => assert_eq!(p.text(), "pong"),
        _ => panic!("wrong response"),
    }
    match client_reply(Ok(Answer::Dice(vec![4]))) {
        Some(ClientResponse::DiceGuess(d)) => assert_eq!(d.number(), &[4u8][..]),
        _ => panic!("wrong response"),
    }
    match client_reply(Ok(Answer::Coins(vec![Coin::Heads]))) {
        Some(ClientResponse::CoinGuess(c)) => assert_eq!(c.coins(), &[Coin::Heads][..]),
        _ => panic!("wrong response"),
    }
    match client_reply(Err("bad input".to_string())) {
        Some(ClientResponse::ClientError(e)) => assert_eq!(e, "bad input"),
        _ => panic!("wrong response"),
    }
}
