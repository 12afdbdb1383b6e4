//! Domain values of the protocol and their mapping to and from the wire messages.
use vstd::prelude::*;

use crate::clean;
use crate::clean::{ClientMsgModel, ServerMsgModel, SessionDataModel};
use crate::error::Error;

verus! {

/// Identifier of a hosted session, allocated by the server.
#[derive(Clone, Copy, Debug, PartialEq, Eq, Hash, PartialOrd, Ord, Structural)]
pub struct SessionID(pub u64);

/// Identifier of a user, chosen by the client.
#[derive(Clone, Copy, Debug, PartialEq, Eq, Hash, PartialOrd, Ord, Structural)]
pub struct UserID(pub u64);

/// The game played in a session.
#[derive(Clone, Copy, Debug, PartialEq, Eq, Structural)]
pub enum SessionType {
    Dice,
    Coin,
}

/// The wire value of a session type.
pub open spec fn session_type_code(t: SessionType) -> i32 {
    match t {
        SessionType::Dice => clean::SESSION_TYPE_DICE,
        SessionType::Coin => clean::SESSION_TYPE_COIN,
    }
}

/// The session type that a wire value denotes; any other value is refused.
pub open spec fn session_type_of(v: i32) -> Result<SessionType, Error> {
    if v == clean::SESSION_TYPE_DICE {
        Ok(SessionType::Dice)
    } else if v == clean::SESSION_TYPE_COIN {
        Ok(SessionType::Coin)
    } else {
        Err(Error::InvalidSessionType)
    }
}

impl SessionType {
    pub fn from_wire(v: i32) -> (r: Result<SessionType, Error>)
        ensures
            r == session_type_of(v),
    {
        if v == clean::SESSION_TYPE_DICE {
            Ok(SessionType::Dice)
        } else if v == clean::SESSION_TYPE_COIN {
            Ok(SessionType::Coin)
        } else {
            Err(Error::InvalidSessionType)
        }
    }

    pub fn to_wire(self) -> (r: i32)
        ensures
            r == session_type_code(self),
    {
        match self {
            SessionType::Dice => clean::SESSION_TYPE_DICE,
            SessionType::Coin => clean::SESSION_TYPE_COIN,
        }
    }
}

/// One side of a coin.
#[derive(Clone, Copy, Debug, PartialEq, Eq, Structural)]
pub enum Coin {
    Heads,
    Tails,
}

/// The wire value of a coin side.
pub open spec fn coin_code(c: Coin) -> i32 {
    match c {
        Coin::Heads => clean::COIN_HEADS,
        Coin::Tails => clean::COIN_TAILS,
    }
}

/// The coin side that a wire value denotes, if any.
pub open spec fn coin_of(v: i32) -> Option<Coin> {
    if v == clean::COIN_HEADS {
        Some(Coin::Heads)
    } else if v == clean::COIN_TAILS {
        Some(Coin::Tails)
    } else {
        None
    }
}

impl Coin {
    pub fn from_wire(v: i32) -> (r: Result<Coin, Error>)
        ensures
            r == (match coin_of(v) {
                Some(c) => Ok::<Coin, Error>(c),
                None => Err(Error::InvalidCoinValue),
            }),
    {
        if v == clean::COIN_HEADS {
            Ok(Coin::Heads)
        } else if v == clean::COIN_TAILS {
            Ok(Coin::Tails)
        } else {
            Err(Error::InvalidCoinValue)
        }
    }

    pub fn to_wire(self) -> (r: i32)
        ensures
            r == coin_code(self),
    {
        match self {
            Coin::Heads => clean::COIN_HEADS,
            Coin::Tails => clean::COIN_TAILS,
        }
    }
}

/// The view of a decoding result: the decoded value's view, or the error.
pub open spec fn decoded<T: View>(r: Result<T, Error>) -> Result<T::V, Error> {
    match r {
        Ok(v) => Ok(v@),
        Err(e) => Err(e),
    }
}

/// A request to host a session.
pub struct HostInfo {
    typ: SessionType,
    player_count: u8,
}

impl View for HostInfo {
    type V = (SessionType, u8);

    closed spec fn view(&self) -> (SessionType, u8) {
        (self.typ, self.player_count)
    }
}

pub open spec fn encode_host_info(h: (SessionType, u8)) -> (i32, u32) {
    (session_type_code(h.0), h.1 as u32)
}

pub open spec fn decode_host_info(w: (i32, u32)) -> Result<(SessionType, u8), Error> {
    match session_type_of(w.0) {
        Ok(t) => Ok((t, w.1 as u8)),
        Err(e) => Err(e),
    }
}

impl HostInfo {
    pub fn new(typ: SessionType, player_count: u8) -> (r: Self)
        ensures
            r@ == (typ, player_count),
    {
        HostInfo { typ, player_count }
    }

    pub fn session_type(&self) -> (r: SessionType)
        ensures
            r == self@.0,
    {
        self.typ
    }

    pub fn player_count(&self) -> (r: u8)
        ensures
            r == self@.1,
    {
        self.player_count
    }

    pub fn to_wire(&self) -> (r: clean::HostInfo)
        ensures
            r@ == encode_host_info(self@),
    {
        clean::HostInfo { session_type: self.typ.to_wire(), player_count: self.player_count as u32 }
    }

    pub fn from_wire(w: &clean::HostInfo) -> (r: Result<HostInfo, Error>)
        ensures
            decoded(r) == decode_host_info(w@),
    {
        match SessionType::from_wire(w.session_type) {
            Ok(typ) => Ok(HostInfo { typ, player_count: w.player_count as u8 }),
            Err(e) => Err(e),
        }
    }
}

/// The value of a session descriptor: id, type and the names of its users.
pub type SessionDataView = (SessionID, SessionType, Seq<Seq<char>>);

/// Copies a list of strings.
fn copy_strings(s: &[String]) -> (r: Vec<String>)
    ensures
        r@ == s@,
{
    let mut r: Vec<String> = Vec::new();
    let mut i: usize = 0;
    while i < s.len()
        invariant
            i <= s@.len(),
            r@ == s@.take(i as int),
        decreases s@.len() - i,
    {
        r.push(s[i].clone());
        i = i + 1;
        assert(r@ =~= s@.take(i as int));
    }
    assert(r@ =~= s@);
    r
}

/// A session as it is listed: id, type and the names of its users.
#[derive(Clone, Debug)]
pub struct SessionData {
    sid: SessionID,
    typ: SessionType,
    users: Vec<String>,
}

impl View for SessionData {
    type V = SessionDataView;

    closed spec fn view(&self) -> SessionDataView {
        (self.sid, self.typ, clean::names_of(self.users@))
    }
}

pub open spec fn encode_session_data(d: SessionDataView) -> SessionDataModel {
    (d.0.0, session_type_code(d.1), d.2)
}

pub open spec fn decode_session_data(w: SessionDataModel) -> Result<SessionDataView, Error> {
    match session_type_of(w.1) {
        Ok(t) => Ok((SessionID(w.0), t, w.2)),
        Err(e) => Err(e),
    }
}

impl SessionData {
    pub fn new(sid: SessionID, typ: SessionType, users: &[String]) -> (r: Self)
        ensures
            r@ == (sid, typ, clean::names_of(users@)),
    {
        SessionData { sid, typ, users: copy_strings(users) }
    }

    pub fn session_id(&self) -> (r: SessionID)
        ensures
            r == self@.0,
    {
        self.sid
    }

    pub fn session_type(&self) -> (r: SessionType)
        ensures
            r == self@.1,
    {
        self.typ
    }

    pub fn users(&self) -> (r: &[String])
        ensures
            clean::names_of(r@) == self@.2,
    {
        self.users.as_slice()
    }

    pub fn to_wire(&self) -> (r: clean::SessionData)
        ensures
            r@ == encode_session_data(self@),
    {
        clean::SessionData {
            session_id: self.sid.0,
            session_type: self.typ.to_wire(),
            users: copy_strings(self.users.as_slice()),
        }
    }

    pub fn from_wire(w: &clean::SessionData) -> (r: Result<SessionData, Error>)
        ensures
            decoded(r) == decode_session_data(w@),
    {
        match SessionType::from_wire(w.session_type) {
            Ok(typ) => Ok(
                SessionData {
                    sid: SessionID(w.session_id),
                    typ,
                    users: copy_strings(w.users.as_slice()),
                },
            ),
            Err(e) => Err(e),
        }
    }
}

impl SessionData {
    /// A copy of this descriptor.
    pub fn copy(&self) -> (r: SessionData)
        ensures
            r@ == self@,
    {
        SessionData { sid: self.sid, typ: self.typ, users: copy_strings(self.users.as_slice()) }
    }
}

pub open spec fn views_of(d: Seq<SessionData>) -> Seq<SessionDataView> {
    d.map_values(|x: SessionData| x@)
}

/// Copies a list of session descriptors.
fn copy_data(d: &[SessionData]) -> (r: Vec<SessionData>)
    ensures
        views_of(r@) == views_of(d@),
{
    let mut r: Vec<SessionData> = Vec::new();
    let mut i: usize = 0;
    while i < d.len()
        invariant
            i <= d@.len(),
            views_of(r@) =~= views_of(d@.take(i as int)),
        decreases d@.len() - i,
    {
        let ghost prev = r@;
        r.push(d[i].copy());
        proof {
            prev.lemma_push_map_commute(|x: SessionData| x@, r@[i as int]);
            d@.lemma_map_take_succ(|x: SessionData| x@, i as int);
        }
        i = i + 1;
    }
    assert(d@.take(d@.len() as int) =~= d@);
    r
}

/// The sessions of a server, as listed.
pub struct Sessions {
    data: Vec<SessionData>,
}

impl View for Sessions {
    type V = Seq<SessionDataView>;

    closed spec fn view(&self) -> Seq<SessionDataView> {
        views_of(self.data@)
    }
}

pub open spec fn encode_sessions(s: Seq<SessionDataView>) -> Seq<SessionDataModel> {
    s.map_values(|d: SessionDataView| encode_session_data(d))
}

pub open spec fn decode_sessions(w: Seq<SessionDataModel>) -> Result<Seq<SessionDataView>, Error> {
    if forall|i: int| 0 <= i < w.len() ==> decode_session_data(#[trigger] w[i]) is Ok {
        Ok(w.map_values(|d: SessionDataModel| decode_session_data(d)->Ok_0))
    } else {
        Err(Error::InvalidSessionType)
    }
}

impl Sessions {
    pub fn new(data: &[SessionData]) -> (r: Self)
        ensures
            r@ == views_of(data@),
    {
        Sessions { data: copy_data(data) }
    }

    pub fn sessions(&self) -> (r: &[SessionData])
        ensures
            views_of(r@) == self@,
    {
        self.data.as_slice()
    }

    pub fn to_wire(&self) -> (r: clean::Sessions)
        ensures
            r@ == encode_sessions(self@),
    {
        let mut data: Vec<clean::SessionData> = Vec::new();
        let mut i: usize = 0;
        while i < self.data.len()
            invariant
                i <= self.data@.len(),
                data@.map_values(|d: clean::SessionData| d@) =~= encode_sessions(
                    self@.take(i as int),
                ),
            decreases self.data@.len() - i,
        {
            let ghost prev = data@;
            data.push(self.data[i].to_wire());
            proof {
                prev.lemma_push_map_commute(|d: clean::SessionData| d@, data@[i as int]);
                self@.lemma_map_take_succ(|d: SessionDataView| encode_session_data(d), i as int);
                self.data@.lemma_map_take_succ(|x: SessionData| x@, i as int);
            }
            i = i + 1;
        }
        assert(self@.take(self@.len() as int) =~= self@);
        clean::Sessions { data }
    }

    pub fn from_wire(w: &clean::Sessions) -> (r: Result<Sessions, Error>)
        ensures
            decoded(r) == decode_sessions(w@),
    {
        let mut data: Vec<SessionData> = Vec::new();
        let mut i: usize = 0;
        while i < w.data.len()
            invariant
                i <= w.data@.len(),
                w@.len() == w.data@.len(),
                forall|j: int| 0 <= j < i ==> decode_session_data(#[trigger] w@[j]) is Ok,
                views_of(data@) =~= w@.take(i as int).map_values(
                    |d: SessionDataModel| decode_session_data(d)->Ok_0,
                ),
            decreases w.data@.len() - i,
        {
            match SessionData::from_wire(&w.data[i]) {
                Ok(d) => {
                    let ghost prev = data@;
                    data.push(d);
                    proof {
                        prev.lemma_push_map_commute(|x: SessionData| x@, data@[i as int]);
                        w@.lemma_map_take_succ(
                            |d: SessionDataModel| decode_session_data(d)->Ok_0,
                            i as int,
                        );
                    }
                },
                Err(e) => {
                    assert(decode_session_data(w@[i as int]) is Err);
                    return Err(e);
                },
            }
            i = i + 1;
        }
        assert(w@.take(w@.len() as int) =~= w@);
        Ok(Sessions { data })
    }
}

/// A request to join a session under a user id and a display name.
pub struct JoinInfo {
    sid: SessionID,
    uid: UserID,
    user_name: String,
}

impl View for JoinInfo {
    type V = (SessionID, UserID, Seq<char>);

    closed spec fn view(&self) -> (SessionID, UserID, Seq<char>) {
        (self.sid, self.uid, self.user_name@)
    }
}

pub open spec fn encode_join_info(j: (SessionID, UserID, Seq<char>)) -> (u64, u64, Seq<char>) {
    (j.0.0, j.1.0, j.2)
}

pub open spec fn decode_join_info(w: (u64, u64, Seq<char>)) -> (SessionID, UserID, Seq<char>) {
    (SessionID(w.0), UserID(w.1), w.2)
}

impl JoinInfo {
    pub fn new(sid: SessionID, uid: UserID, user_name: &str) -> (r: Self)
        ensures
            r@ == (sid, uid, user_name@),
    {
        JoinInfo { sid, uid, user_name: user_name.to_owned() }
    }

    pub fn session_id(&self) -> (r: SessionID)
        ensures
            r == self@.0,
    {
        self.sid
    }

    pub fn user_id(&self) -> (r: UserID)
        ensures
            r == self@.1,
    {
        self.uid
    }

    pub fn user_name(&self) -> (r: &str)
        ensures
            r@ == self@.2,
    {
        self.user_name.as_str()
    }

    pub fn to_wire(&self) -> (r: clean::JoinInfo)
        ensures
            r@ == encode_join_info(self@),
    {
        clean::JoinInfo {
            session_id: self.sid.0,
            user_id: self.uid.0,
            user_name: self.user_name.clone(),
        }
    }

    pub fn from_wire(w: &clean::JoinInfo) -> (r: JoinInfo)
        ensures
            r@ == decode_join_info(w@),
    {
        JoinInfo {
            sid: SessionID(w.session_id),
            uid: UserID(w.user_id),
            user_name: w.user_name.clone(),
        }
    }
}

pub open spec fn encode_start_info(s: SessionID) -> u64 {
    s.0
}

pub open spec fn decode_start_info(w: u64) -> SessionID {
    SessionID(w)
}

/// A request to start a session explicitly.
pub struct StartInfo {
    sid: SessionID,
}

impl View for StartInfo {
    type V = SessionID;

    closed spec fn view(&self) -> SessionID {
        self.sid
    }
}

impl StartInfo {
    pub fn new(sid: SessionID) -> (r: Self)
        ensures
            r@ == sid,
    {
        StartInfo { sid }
    }

    pub fn session_id(&self) -> (r: SessionID)
        ensures
            r == self@,
    {
        self.sid
    }

    pub fn to_wire(&self) -> (r: clean::StartInfo)
        ensures
            r.session_id == encode_start_info(self@),
    {
        clean::StartInfo { session_id: self.sid.0 }
    }

    pub fn from_wire(w: &clean::StartInfo) -> (r: StartInfo)
        ensures
            r@ == decode_start_info(w.session_id),
    {
        StartInfo { sid: SessionID(w.session_id) }
    }
}

pub open spec fn encode_event_register(e: (SessionID, UserID)) -> (u64, u64) {
    (e.0.0, e.1.0)
}

pub open spec fn decode_event_register(w: (u64, u64)) -> (SessionID, UserID) {
    (SessionID(w.0), UserID(w.1))
}

/// The key of a user's conduit: the session and the user.
#[derive(Clone, Copy, Debug, PartialEq, Eq, Hash, Structural)]
pub struct EventRegister {
    sid: SessionID,
    uid: UserID,
}

impl View for EventRegister {
    type V = (SessionID, UserID);

    closed spec fn view(&self) -> (SessionID, UserID) {
        (self.sid, self.uid)
    }
}

impl EventRegister {
    pub fn new(sid: SessionID, uid: UserID) -> (r: Self)
        ensures
            r@ == (sid, uid),
    {
        EventRegister { sid, uid }
    }

    pub fn session_id(&self) -> (r: SessionID)
        ensures
            r == self@.0,
    {
        self.sid
    }

    pub fn user_id(&self) -> (r: UserID)
        ensures
            r == self@.1,
    {
        self.uid
    }

    pub fn to_wire(&self) -> (r: clean::EventRegister)
        ensures
            (r.session_id, r.user_id) == encode_event_register(self@),
    {
        clean::EventRegister { session_id: self.sid.0, user_id: self.uid.0 }
    }

    pub fn from_wire(w: &clean::EventRegister) -> (r: EventRegister)
        ensures
            r@ == decode_event_register((w.session_id, w.user_id)),
    {
        EventRegister { sid: SessionID(w.session_id), uid: UserID(w.user_id) }
    }
}

/// A liveness prompt carrying a text.
pub struct Ping {
    text: String,
}

impl View for Ping {
    type V = Seq<char>;

    closed spec fn view(&self) -> Seq<char> {
        self.text@
    }
}

impl Ping {
    pub fn new(text: &str) -> (r: Self)
        ensures
            r@ == text@,
    {
        Ping { text: text.to_owned() }
    }

    pub fn text(&self) -> (r: &str)
        ensures
            r@ == self@,
    {
        self.text.as_str()
    }
}

/// The answer to a [`Ping`].
pub struct Pong {
    text: String,
}

impl View for Pong {
    type V = Seq<char>;

    closed spec fn view(&self) -> Seq<char> {
        self.text@
    }
}

impl Pong {
    pub fn new(text: &str) -> (r: Self)
        ensures
            r@ == text@,
    {
        Pong { text: text.to_owned() }
    }

    pub fn text(&self) -> (r: &str)
        ensures
            r@ == self@,
    {
        self.text.as_str()
    }
}

/// A prompt to guess `count` dice with `sides` sides each.
pub struct RollDice {
    sides: u8,
    count: u8,
}

impl View for RollDice {
    type V = (u8, u8);

    closed spec fn view(&self) -> (u8, u8) {
        (self.sides, self.count)
    }
}

impl RollDice {
    pub fn new(sides: u8, count: u8) -> (r: Self)
        ensures
            r@ == (sides, count),
    {
        RollDice { sides, count }
    }

    pub fn sides(&self) -> (r: u8)
        ensures
            r == self@.0,
    {
        self.sides
    }

    pub fn count(&self) -> (r: u8)
        ensures
            r == self@.1,
    {
        self.count
    }
}

/// A prompt to guess `count` coin flips.
pub struct FlipCoin {
    count: u8,
}

impl View for FlipCoin {
    type V = u8;

    closed spec fn view(&self) -> u8 {
        self.count
    }
}

impl FlipCoin {
    pub fn new(count: u8) -> (r: Self)
        ensures
            r@ == count,
    {
        FlipCoin { count }
    }

    pub fn count(&self) -> (r: u8)
        ensures
            r == self@,
    {
        self.count
    }
}

/// Copies a list of bytes.
pub(crate) fn copy_bytes(s: &[u8]) -> (r: Vec<u8>)
    ensures
        r@ == s@,
{
    let mut r: Vec<u8> = Vec::new();
    let mut i: usize = 0;
    while i < s.len()
        invariant
            i <= s@.len(),
            r@ == s@.take(i as int),
        decreases s@.len() - i,
    {
        r.push(s[i]);
        i = i + 1;
        assert(r@ =~= s@.take(i as int));
    }
    assert(r@ =~= s@);
    r
}

/// Copies a list of coins.
pub(crate) fn copy_coins(s: &[Coin]) -> (r: Vec<Coin>)
    ensures
        r@ == s@,
{
    let mut r: Vec<Coin> = Vec::new();
    let mut i: usize = 0;
    while i < s.len()
        invariant
            i <= s@.len(),
            r@ == s@.take(i as int),
        decreases s@.len() - i,
    {
        r.push(s[i]);
        i = i + 1;
        assert(r@ =~= s@.take(i as int));
    }
    assert(r@ =~= s@);
    r
}

/// A client's guess of the dice values.
pub struct DiceGuess {
    number: Vec<u8>,
}

impl View for DiceGuess {
    type V = Seq<u8>;

    closed spec fn view(&self) -> Seq<u8> {
        self.number@
    }
}

impl DiceGuess {
    pub fn new(number: &[u8]) -> (r: Self)
        ensures
            r@ == number@,
    {
        DiceGuess { number: copy_bytes(number) }
    }

    pub fn number(&self) -> (r: &[u8])
        ensures
            r@ == self@,
    {
        self.number.as_slice()
    }
}

/// A client's guess of the coin flips.
pub struct CoinGuess {
    coins: Vec<Coin>,
}

impl View for CoinGuess {
    type V = Seq<Coin>;

    closed spec fn view(&self) -> Seq<Coin> {
        self.coins@
    }
}

impl CoinGuess {
    pub fn new(coins: &[Coin]) -> (r: Self)
        ensures
            r@ == coins@,
    {
        CoinGuess { coins: copy_coins(coins) }
    }

    pub fn coins(&self) -> (r: &[Coin])
        ensures
            r@ == self@,
    {
        self.coins.as_slice()
    }
}

/// The announcement of a round's winner.
pub struct Winner {
    uid: UserID,
    name: String,
}

impl View for Winner {
    type V = (UserID, Seq<char>);

    closed spec fn view(&self) -> (UserID, Seq<char>) {
        (self.uid, self.name@)
    }
}

impl Winner {
    pub fn new(uid: UserID, name: &str) -> (r: Self)
        ensures
            r@ == (uid, name@),
    {
        Winner { uid, name: name.to_owned() }
    }

    pub fn user_id(&self) -> (r: UserID)
        ensures
            r == self@.0,
    {
        self.uid
    }

    pub fn user_name(&self) -> (r: &str)
        ensures
            r@ == self@.1,
    {
        self.name.as_str()
    }
}

/// The value of a server prompt.
pub enum PromptModel {
    UserJoined(SessionID, UserID, Seq<char>),
    Ping(Seq<char>),
    RollDice(u8, u8),
    FlipCoin(u8),
    Winner(UserID, Seq<char>),
    TryAgain(bool),
    ServerError(Seq<char>),
}

/// A prompt that the server pushes to a client.
pub enum ServerRequest {
    JoinInfo(JoinInfo),
    Ping(Ping),
    RollDice(RollDice),
    FlipCoin(FlipCoin),
    Winner(Winner),
    TryAgain(bool),
    ServerError(String),
}

impl View for ServerRequest {
    type V = PromptModel;

    open spec fn view(&self) -> PromptModel {
        match self {
            ServerRequest::JoinInfo(j) => PromptModel::UserJoined(j@.0, j@.1, j@.2),
            ServerRequest::Ping(p) => PromptModel::Ping(p@),
            ServerRequest::RollDice(r) => PromptModel::RollDice(r@.0, r@.1),
            ServerRequest::FlipCoin(f) => PromptModel::FlipCoin(f@),
            ServerRequest::Winner(w) => PromptModel::Winner(w@.0, w@.1),
            ServerRequest::TryAgain(t) => PromptModel::TryAgain(*t),
            ServerRequest::ServerError(e) => PromptModel::ServerError(e@),
        }
    }
}

/// The value of a client response.
pub enum ReplyModel {
    Pong(Seq<char>),
    DiceGuess(Seq<u8>),
    CoinGuess(Seq<Coin>),
    Again(bool),
    ClientError(Seq<char>),
}

/// A client's response to a prompt.
pub enum ClientResponse {
    Pong(Pong),
    DiceGuess(DiceGuess),
    CoinGuess(CoinGuess),
    Again(bool),
    ClientError(String),
}

impl View for ClientResponse {
    type V = ReplyModel;

    open spec fn view(&self) -> ReplyModel {
        match self {
            ClientResponse::Pong(p) => ReplyModel::Pong(p@),
            ClientResponse::DiceGuess(d) => ReplyModel::DiceGuess(d@),
            ClientResponse::CoinGuess(c) => ReplyModel::CoinGuess(c@),
            ClientResponse::Again(a) => ReplyModel::Again(*a),
            ClientResponse::ClientError(e) => ReplyModel::ClientError(e@),
        }
    }
}

pub open spec fn widen_dice(s: Seq<u8>) -> Seq<u32> {
    s.map_values(|n: u8| n as u32)
}

pub open spec fn narrow_dice(s: Seq<u32>) -> Seq<u8> {
    s.map_values(|n: u32| n as u8)
}

pub open spec fn encode_coins(s: Seq<Coin>) -> Seq<i32> {
    s.map_values(|c: Coin| coin_code(c))
}

/// The coins that wire values denote; refused if any value is no coin.
pub open spec fn decode_coins(w: Seq<i32>) -> Result<Seq<Coin>, Error> {
    if forall|i: int| 0 <= i < w.len() ==> coin_of(#[trigger] w[i]) is Some {
        Ok(w.map_values(|v: i32| coin_of(v)->Some_0))
    } else {
        Err(Error::InvalidCoinValue)
    }
}

pub open spec fn encode_prompt(p: PromptModel) -> Option<ServerMsgModel> {
    Some(
        match p {
            PromptModel::UserJoined(s, u, n) => ServerMsgModel::UserJoined(s.0, u.0, n),
            PromptModel::Ping(t) => ServerMsgModel::Ping(t),
            PromptModel::RollDice(sides, count) => ServerMsgModel::Dice(
                sides as u32,
                count as u32,
            ),
            PromptModel::FlipCoin(count) => ServerMsgModel::Coin(count as u32),
            PromptModel::Winner(u, n) => ServerMsgModel::Winner(u.0, n),
            PromptModel::TryAgain(t) => ServerMsgModel::TryAgain(t),
            PromptModel::ServerError(e) => ServerMsgModel::Error(e),
        },
    )
}

pub open spec fn decode_prompt(w: Option<ServerMsgModel>) -> Result<PromptModel, Error> {
    match w {
        None => Err(Error::InvalidServerRequest),
        Some(m) => Ok(
            match m {
                ServerMsgModel::UserJoined(s, u, n) => PromptModel::UserJoined(
                    SessionID(s),
                    UserID(u),
                    n,
                ),
                ServerMsgModel::Ping(t) => PromptModel::Ping(t),
                ServerMsgModel::Dice(sides, count) => PromptModel::RollDice(
                    sides as u8,
                    count as u8,
                ),
                ServerMsgModel::Coin(count) => PromptModel::FlipCoin(count as u8),
                ServerMsgModel::Winner(u, n) => PromptModel::Winner(UserID(u), n),
                ServerMsgModel::TryAgain(t) => PromptModel::TryAgain(t),
                ServerMsgModel::Error(e) => PromptModel::ServerError(e),
            },
        ),
    }
}

pub open spec fn encode_reply(r: ReplyModel) -> Option<ClientMsgModel> {
    Some(
        match r {
            ReplyModel::Pong(t) => ClientMsgModel::Pong(t),
            ReplyModel::DiceGuess(d) => ClientMsgModel::DiceGuess(widen_dice(d)),
            ReplyModel::CoinGuess(c) => ClientMsgModel::CoinGuess(encode_coins(c)),
            ReplyModel::Again(a) => ClientMsgModel::Again(a),
            ReplyModel::ClientError(e) => ClientMsgModel::Error(e),
        },
    )
}

pub open spec fn decode_reply(w: Option<ClientMsgModel>) -> Result<ReplyModel, Error> {
    match w {
        None => Err(Error::InvalidClientResponse),
        Some(m) => match m {
            ClientMsgModel::Pong(t) => Ok(ReplyModel::Pong(t)),
            ClientMsgModel::DiceGuess(d) => Ok(ReplyModel::DiceGuess(narrow_dice(d))),
            ClientMsgModel::CoinGuess(c) => match decode_coins(c) {
                Ok(coins) => Ok(ReplyModel::CoinGuess(coins)),
                Err(e) => Err(e),
            },
            ClientMsgModel::Again(a) => Ok(ReplyModel::Again(a)),
            ClientMsgModel::Error(e) => Ok(ReplyModel::ClientError(e)),
        },
    }
}

fn widen(s: &[u8]) -> (r: Vec<u32>)
    ensures
        r@ == widen_dice(s@),
{
    let mut r: Vec<u32> = Vec::new();
    let mut i: usize = 0;
    while i < s.len()
        invariant
            i <= s@.len(),
            r@ =~= widen_dice(s@.take(i as int)),
        decreases s@.len() - i,
    {
        r.push(s[i] as u32);
        proof {
            s@.lemma_map_take_succ(|n: u8| n as u32, i as int);
        }
        i = i + 1;
    }
    assert(s@.take(s@.len() as int) =~= s@);
    r
}

fn narrow(s: &[u32]) -> (r: Vec<u8>)
    ensures
        r@ == narrow_dice(s@),
{
    let mut r: Vec<u8> = Vec::new();
    let mut i: usize = 0;
    while i < s.len()
        invariant
            i <= s@.len(),
            r@ =~= narrow_dice(s@.take(i as int)),
        decreases s@.len() - i,
    {
        r.push(s[i] as u8);
        proof {
            s@.lemma_map_take_succ(|n: u32| n as u8, i as int);
        }
        i = i + 1;
    }
    assert(s@.take(s@.len() as int) =~= s@);
    r
}

fn coins_to_wire(s: &[Coin]) -> (r: Vec<i32>)
    ensures
        r@ == encode_coins(s@),
{
    let mut r: Vec<i32> = Vec::new();
    let mut i: usize = 0;
    while i < s.len()
        invariant
            i <= s@.len(),
            r@ =~= encode_coins(s@.take(i as int)),
        decreases s@.len() - i,
    {
        r.push(s[i].to_wire());
        proof {
            s@.lemma_map_take_succ(|c: Coin| coin_code(c), i as int);
        }
        i = i + 1;
    }
    assert(s@.take(s@.len() as int) =~= s@);
    r
}

fn coins_from_wire(w: &[i32]) -> (r: Result<Vec<Coin>, Error>)
    ensures
        match r {
            Ok(v) => decode_coins(w@) == Ok::<Seq<Coin>, Error>(v@),
            Err(e) => decode_coins(w@) == Err::<Seq<Coin>, Error>(e),
        },
{
    let mut r: Vec<Coin> = Vec::new();
    let mut i: usize = 0;
    while i < w.len()
        invariant
            i <= w@.len(),
            forall|j: int| 0 <= j < i ==> coin_of(#[trigger] w@[j]) is Some,
            r@ =~= w@.take(i as int).map_values(|v: i32| coin_of(v)->Some_0),
        decreases w@.len() - i,
    {
        match Coin::from_wire(w[i]) {
            Ok(c) => {
                r.push(c);
                proof {
                    w@.lemma_map_take_succ(|v: i32| coin_of(v)->Some_0, i as int);
                }
            },
            Err(e) => {
                assert(coin_of(w@[i as int]) is None);
                return Err(e);
            },
        }
        i = i + 1;
    }
    assert(w@.take(w@.len() as int) =~= w@);
    Ok(r)
}

impl ServerRequest {
    pub fn to_wire(&self) -> (r: clean::ServerRequest)
        ensures
            r@ == encode_prompt(self@),
    {
        let msg = match self {
            ServerRequest::JoinInfo(j) => clean::ServerMsg::UserJoined(j.to_wire()),
            ServerRequest::Ping(p) => clean::ServerMsg::Ping(clean::Ping { text: p.text.clone() }),
            ServerRequest::RollDice(d) => clean::ServerMsg::Dice(
                clean::RollDice { sides: d.sides as u32, count: d.count as u32 },
            ),
            ServerRequest::FlipCoin(f) => clean::ServerMsg::Coin(
                clean::FlipCoin { count: f.count as u32 },
            ),
            ServerRequest::Winner(w) => clean::ServerMsg::Winner(
                clean::Winner { user_id: w.uid.0, user_name: w.name.clone() },
            ),
            ServerRequest::TryAgain(t) => clean::ServerMsg::TryAgain(*t),
            ServerRequest::ServerError(e) => clean::ServerMsg::Error(e.clone()),
        };
        clean::ServerRequest { msg: Some(msg) }
    }

    pub fn from_wire(w: &clean::ServerRequest) -> (r: Result<ServerRequest, Error>)
        ensures
            decoded(r) == decode_prompt(w@),
    {
        match &w.msg {
            None => Err(Error::InvalidServerRequest),
            Some(m) => Ok(
                match m {
                    clean::ServerMsg::UserJoined(j) => ServerRequest::JoinInfo(
                        JoinInfo::from_wire(j),
                    ),
                    clean::ServerMsg::Ping(p) => ServerRequest::Ping(
                        Ping { text: p.text.clone() },
                    ),
                    clean::ServerMsg::Dice(d) => ServerRequest::RollDice(
                        RollDice { sides: d.sides as u8, count: d.count as u8 },
                    ),
                    clean::ServerMsg::Coin(f) => ServerRequest::FlipCoin(
                        FlipCoin { count: f.count as u8 },
                    ),
                    clean::ServerMsg::Winner(x) => ServerRequest::Winner(
                        Winner { uid: UserID(x.user_id), name: x.user_name.clone() },
                    ),
                    clean::ServerMsg::TryAgain(t) => ServerRequest::TryAgain(*t),
                    clean::ServerMsg::Error(e) => ServerRequest::ServerError(e.clone()),
                },
            ),
        }
    }
}

impl ClientResponse {
    pub fn to_wire(&self) -> (r: clean::ClientResponse)
        ensures
            r@ == encode_reply(self@),
    {
        let msg = match self {
            ClientResponse::Pong(p) => clean::ClientMsg::Pong(clean::Pong { text: p.text.clone() }),
            ClientResponse::DiceGuess(d) => clean::ClientMsg::DiceGuess(
                clean::DiceGuess { number: widen(d.number.as_slice()) },
            ),
            ClientResponse::CoinGuess(c) => clean::ClientMsg::CoinGuess(
                clean::CoinGuess { coins: coins_to_wire(c.coins.as_slice()) },
            ),
            ClientResponse::Again(a) => clean::ClientMsg::Again(*a),
            ClientResponse::ClientError(e) => clean::ClientMsg::Error(e.clone()),
        };
        clean::ClientResponse { msg: Some(msg) }
    }

    pub fn from_wire(w: &clean::ClientResponse) -> (r: Result<ClientResponse, Error>)
        ensures
            decoded(r) == decode_reply(w@),
    {
        match &w.msg {
            None => Err(Error::InvalidClientResponse),
            Some(m) => match m {
                clean::ClientMsg::Pong(p) => Ok(ClientResponse::Pong(Pong { text: p.text.clone() })),
                clean::ClientMsg::DiceGuess(d) => Ok(
                    ClientResponse::DiceGuess(DiceGuess { number: narrow(d.number.as_slice()) }),
                ),
                clean::ClientMsg::CoinGuess(c) => match coins_from_wire(c.coins.as_slice()) {
                    Ok(coins) => Ok(ClientResponse::CoinGuess(CoinGuess { coins })),
                    Err(e) => Err(e),
                },
                clean::ClientMsg::Again(a) => Ok(ClientResponse::Again(*a)),
                clean::ClientMsg::Error(e) => Ok(ClientResponse::ClientError(e.clone())),
            },
        }
    }
}

/// Decoding the wire form of a prompt gives back the prompt.
pub proof fn lemma_prompt_round_trip(p: PromptModel)
    ensures
        decode_prompt(encode_prompt(p)) == Ok::<PromptModel, Error>(p),
{
    match p {
        PromptModel::RollDice(sides, count) => {
            assert((sides as u32) as u8 == sides) by (bit_vector);
            assert((count as u32) as u8 == count) by (bit_vector);
        },
        PromptModel::FlipCoin(count) => {
            assert((count as u32) as u8 == count) by (bit_vector);
        },
        _ => {},
    }
}

/// Decoding the wire form of a client response gives back the response.
pub proof fn lemma_reply_round_trip(r: ReplyModel)
    ensures
        decode_reply(encode_reply(r)) == Ok::<ReplyModel, Error>(r),
{
    match r {
        ReplyModel::DiceGuess(d) => {
            assert forall|i: int| 0 <= i < d.len() implies narrow_dice(widen_dice(d))[i] == d[i] by {
                let n = d[i];
                assert((n as u32) as u8 == n) by (bit_vector);
            }
            assert(narrow_dice(widen_dice(d)) =~= d);
        },
        ReplyModel::CoinGuess(c) => {
            let w = encode_coins(c);
            assert forall|i: int| 0 <= i < w.len() implies coin_of(#[trigger] w[i]) == Some(c[i]) by {
                match c[i] {
                    Coin::Heads => {},
                    Coin::Tails => {},
                }
            }
            assert(w.map_values(|v: i32| coin_of(v)->Some_0) =~= c);
        },
        _ => {},
    }
}

/// Decoding the wire form of a host request gives back the request.
pub proof fn lemma_host_info_round_trip(h: (SessionType, u8))
    ensures
        decode_host_info(encode_host_info(h)) == Ok::<(SessionType, u8), Error>(h),
{
    let n = h.1;
    assert((n as u32) as u8 == n) by (bit_vector);
}

/// Decoding the wire form of a session descriptor gives back the descriptor.
pub proof fn lemma_session_data_round_trip(d: SessionDataView)
    ensures
        decode_session_data(encode_session_data(d)) == Ok::<SessionDataView, Error>(d),
{
}

/// Decoding the wire form of a session list gives back the list.
pub proof fn lemma_sessions_round_trip(s: Seq<SessionDataView>)
    ensures
        decode_sessions(encode_sessions(s)) == Ok::<Seq<SessionDataView>, Error>(s),
{
    let w = encode_sessions(s);
    assert forall|i: int| 0 <= i < w.len() implies decode_session_data(#[trigger] w[i]) == Ok::<
        SessionDataView,
        Error,
    >(s[i]) by {
        lemma_session_data_round_trip(s[i]);
    }
    assert(w.map_values(|d: SessionDataModel| decode_session_data(d)->Ok_0) =~= s);
}

/// Decoding the wire form of a join request gives back the request.
pub proof fn lemma_join_info_round_trip(j: (SessionID, UserID, Seq<char>))
    ensures
        decode_join_info(encode_join_info(j)) == j,
{
}

/// Reads a client's response off the wire together with the conduit it
/// answers; a missing part or an undecodable response is refused.
pub fn event_response_from_wire(w: &clean::ClientEventResponse) -> (r: Result<
    (EventRegister, ClientResponse),
    Error,
>)
    ensures
        match (&w.er, &w.client_response) {
            (Some(er), Some(cr)) => match decode_reply(cr@) {
                Ok(m) => r matches Ok((key, resp)) && key@ == (SessionID(er.session_id), UserID(
                    er.user_id,
                )) && resp@ == m,
                Err(e) => r == Err::<(EventRegister, ClientResponse), Error>(e),
            },
            _ => r == Err::<(EventRegister, ClientResponse), Error>(Error::InvalidClientResponse),
        },
{
    match (&w.er, &w.client_response) {
        (Some(er), Some(cr)) => match ClientResponse::from_wire(cr) {
            Ok(resp) => Ok((EventRegister::from_wire(er), resp)),
            Err(e) => Err(e),
        },
        _ => Err(Error::InvalidClientResponse),
    }
}

/// Decoding the wire form of a start request gives back the request.
pub proof fn lemma_start_info_round_trip(s: SessionID)
    ensures
        decode_start_info(encode_start_info(s)) == s,
{
}

/// Decoding the wire form of a conduit key gives back the key.
pub proof fn lemma_event_register_round_trip(e: (SessionID, UserID))
    ensures
        decode_event_register(encode_event_register(e)) == e,
{
}

} // verus!
