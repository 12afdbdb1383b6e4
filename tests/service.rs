use csr::service::{Callback, CleanService};
use csr::service_error::Error;
use csr::types::{SessionID, SessionType, UserID};

#[test]
fn host_then_list() {
    let mut s: CleanService<u32> = CleanService::new();
    let sd = s.host_session(SessionType::Coin, 1);
    assert_eq!(sd.session_id(), SessionID(1));
    assert_eq!(sd.session_type(), SessionType::Coin);
    assert!(sd.users().is_empty());
    let list = s.list_sessions();
    assert_eq!(list.len(), 1);
    assert_eq!(list[0].session_id(), SessionID(1));
    assert_eq!(list[0].session_type(), SessionType::Coin);
    assert!(list[0].users().is_empty());
}

#[test]
fn join_lists_user_and_starts_game() {
    let mut s: CleanService<u32> = CleanService::new();
    s.host_session(SessionType::Coin, 1);
    s.register_server_event_sender(SessionID(1), UserID(7), 70).unwrap_err();
    let start = s.join_session(SessionID(1), UserID(7), "a").unwrap();
    let list = s.list_sessions();
    assert_eq!(list[0].users(), &["a".to_string()][..]);
    let g = start.expect("the game starts on quorum");
    assert_eq!(g.users, vec![(UserID(7), "a".to_string())]);
    assert_eq!(g.session_type, SessionType::Coin);
}

#[test]
fn join_unknown_session() {
    let mut s: CleanService<u32> = CleanService::new();
    s.host_session(SessionType::Dice, 2);
    assert!(matches!(
        s.join_session(SessionID(999), UserID(1), "x"),
        Err(Error::SessionNotFound(SessionID(999)))
    ));
    assert!(matches!(
        s.join_session(SessionID(0), UserID(1), "x"),
        Err(Error::SessionNotFound(SessionID(0)))
    ));
}

#[test]
fn session_ids_increase() {
    let mut s: CleanService<u32> = CleanService::new();
    let a = s.host_session(SessionType::Dice, 2).session_id();
    let b = s.host_session(SessionType::Coin, 3).session_id();
    let c = s.host_session(SessionType::Coin, 1).session_id();
    assert_eq!((a, b, c), (SessionID(1), SessionID(2), SessionID(3)));
    s.end_session(b).unwrap();
    let d = s.host_session(SessionType::Dice, 1).session_id();
    assert_eq!(d, SessionID(4));
    let ids: Vec<SessionID> = s.list_sessions().iter().map(|x| x.session_id()).collect();
    assert_eq!(ids, vec![SessionID(1), SessionID(3), SessionID(4)]);
}

#[test]
fn second_join_refused() {
    let mut s: CleanService<u32> = CleanService::new();
    s.host_session(SessionType::Dice, 3);
    assert!(s.join_session(SessionID(1), UserID(5), "e").unwrap().is_none());
    assert!(matches!(
        s.join_session(SessionID(1), UserID(5), "e"),
        Err(Error::UserAlreadyInSession(UserID(5), SessionID(1)))
    ));
    assert!(matches!(
        s.join_session(SessionID(1), UserID(5), "other"),
        Err(Error::UserAlreadyInSession(UserID(5), SessionID(1)))
    ));
    assert_eq!(s.list_sessions()[0].users().len(), 1);
}

#[test]
fn quorum_starts_once() {
    let mut s: CleanService<u32> = CleanService::new();
    s.host_session(SessionType::Dice, 2);
    assert!(s.join_session(SessionID(1), UserID(1), "a").unwrap().is_none());
    s.register_server_event_sender(SessionID(1), UserID(1), 10).unwrap();
    let g = s.join_session(SessionID(1), UserID(2), "b").unwrap().expect("quorum");
    assert_eq!(g.users, vec![(UserID(1), "a".to_string()), (UserID(2), "b".to_string())]);
    assert!(!s.all_linked(SessionID(1)));
    assert_eq!(s.take_conduits(SessionID(1)).unwrap(), vec![(UserID(1), 10)]);
    assert_eq!(s.take_conduits(SessionID(1)).unwrap(), vec![]);
    assert!(matches!(
        s.join_session(SessionID(1), UserID(3), "c"),
        Err(Error::SessionFull(SessionID(1)))
    ));
    assert!(matches!(
        s.join_session(SessionID(1), UserID(2), "b"),
        Err(Error::UserAlreadyInSession(UserID(2), SessionID(1)))
    ));
}

#[test]
fn conduit_registration() {
    let mut s: CleanService<u32> = CleanService::new();
    s.host_session(SessionType::Coin, 3);
    assert!(matches!(
        s.register_server_event_sender(SessionID(2), UserID(1), 1),
        Err(Error::SessionNotFound(SessionID(2)))
    ));
    assert!(matches!(
        s.register_server_event_sender(SessionID(1), UserID(1), 1),
        Err(Error::UserNotInSession(UserID(1), SessionID(1)))
    ));
    s.join_session(SessionID(1), UserID(1), "a").unwrap();
    s.join_session(SessionID(1), UserID(2), "b").unwrap();
    s.register_server_event_sender(SessionID(1), UserID(2), 20).unwrap();
    s.register_server_event_sender(SessionID(1), UserID(1), 10).unwrap();
    s.register_server_event_sender(SessionID(1), UserID(2), 21).unwrap();
    assert!(s.join_session(SessionID(1), UserID(3), "c").unwrap().is_some());
    assert!(!s.all_linked(SessionID(1)));
    s.register_server_event_sender(SessionID(1), UserID(3), 30).unwrap();
    assert!(s.all_linked(SessionID(1)));
    assert!(!s.all_linked(SessionID(2)));
    assert_eq!(
        s.take_conduits(SessionID(1)).unwrap(),
        vec![(UserID(2), 21), (UserID(1), 10), (UserID(3), 30)]
    );
    assert!(matches!(s.take_conduits(SessionID(2)), Err(Error::SessionNotFound(SessionID(2)))));
}

#[test]
fn start_and_end_session() {
    let mut s: CleanService<u32> = CleanService::new();
    s.host_session(SessionType::Coin, 2);
    assert!(s.start_session(SessionID(1)).is_ok());
    assert!(matches!(s.start_session(SessionID(2)), Err(Error::SessionNotFound(SessionID(2)))));
    s.join_session(SessionID(1), UserID(1), "a").unwrap();
    s.end_session(SessionID(1)).unwrap();
    assert!(s.list_sessions().is_empty());
    assert!(matches!(s.end_session(SessionID(1)), Err(Error::SessionNotFound(SessionID(1)))));
    assert!(matches!(
        s.join_session(SessionID(1), UserID(1), "a"),
        Err(Error::SessionNotFound(SessionID(1)))
    ));
    assert_eq!(s.session_count(), 1);
}

#[test]
fn zero_player_session_never_admits() {
    let mut s: CleanService<u32> = CleanService::new();
    s.host_session(SessionType::Coin, 0);
    assert!(matches!(
        s.join_session(SessionID(1), UserID(1), "a"),
        Err(Error::SessionFull(SessionID(1)))
    ));
}

#[test]
fn callback_routes() {
    let mut cb: Callback<u32> = Callback::new();
    assert!(matches!(cb.route(UserID(1)), Err(Error::ClientUnreachable(UserID(1)))));
    cb.attach(UserID(1), 5);
    cb.attach(UserID(2), 6);
    cb.attach(UserID(1), 7);
    assert_eq!(cb.route(UserID(1)), Ok(&5));
    assert_eq!(cb.route(UserID(2)), Ok(&6));
    assert_eq!(cb.user_ids(), vec![UserID(1), UserID(2), UserID(1)]);
    let cb2 = Callback::from_conduits(vec![(UserID(3), 9u32)]);
    assert_eq!(cb2.route(UserID(3)), Ok(&9));
}
