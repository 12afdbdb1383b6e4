//! Messages as they travel on the wire: plain integers and strings, enumerations
//! as `i32`, every payload of a stream message optional.
use vstd::prelude::*;

verus! {

/// Wire value of `SessionType::Dice`.
pub const SESSION_TYPE_DICE: i32 = 0;
/// Wire value of `SessionType::Coin`.
pub const SESSION_TYPE_COIN: i32 = 1;
/// Wire value of `Coin::Heads`.
pub const COIN_HEADS: i32 = 0;
/// Wire value of `Coin::Tails`.
pub const COIN_TAILS: i32 = 1;

pub struct HostInfo {
    pub session_type: i32,
    pub player_count: u32,
}

impl View for HostInfo {
    type V = (i32, u32);

    open spec fn view(&self) -> (i32, u32) {
        (self.session_type, self.player_count)
    }
}

pub struct SessionData {
    pub session_id: u64,
    pub session_type: i32,
    pub users: Vec<String>,
}

/// The value of a wire session descriptor: id, type and user names.
pub type SessionDataModel = (u64, i32, Seq<Seq<char>>);

pub open spec fn names_of(users: Seq<String>) -> Seq<Seq<char>> {
    users.map_values(|s: String| s@)
}

impl View for SessionData {
    type V = SessionDataModel;

    open spec fn view(&self) -> SessionDataModel {
        (self.session_id, self.session_type, names_of(self.users@))
    }
}

pub struct Sessions {
    pub data: Vec<SessionData>,
}

impl View for Sessions {
    type V = Seq<SessionDataModel>;

    open spec fn view(&self) -> Seq<SessionDataModel> {
        self.data@.map_values(|d: SessionData| d@)
    }
}

pub struct JoinInfo {
    pub session_id: u64,
    pub user_id: u64,
    pub user_name: String,
}

impl View for JoinInfo {
    type V = (u64, u64, Seq<char>);

    open spec fn view(&self) -> (u64, u64, Seq<char>) {
        (self.session_id, self.user_id, self.user_name@)
    }
}

pub struct StartInfo {
    pub session_id: u64,
}

#[derive(Clone, Copy, Debug, PartialEq, Eq, Hash, Structural)]
pub struct EventRegister {
    pub session_id: u64,
    pub user_id: u64,
}

pub struct Ping {
    pub text: String,
}

pub struct Pong {
    pub text: String,
}

pub struct RollDice {
    pub sides: u32,
    pub count: u32,
}

pub struct FlipCoin {
    pub count: u32,
}

pub struct DiceGuess {
    pub number: Vec<u32>,
}

pub struct CoinGuess {
    pub coins: Vec<i32>,
}

pub struct Winner {
    pub user_id: u64,
    pub user_name: String,
}

/// Payload of a server prompt on the wire.
pub enum ServerMsg {
    UserJoined(JoinInfo),
    Ping(Ping),
    Dice(RollDice),
    Coin(FlipCoin),
    Winner(Winner),
    TryAgain(bool),
    Error(String),
}

/// The value of a wire prompt payload.
pub enum ServerMsgModel {
    UserJoined(u64, u64, Seq<char>),
    Ping(Seq<char>),
    Dice(u32, u32),
    Coin(u32),
    Winner(u64, Seq<char>),
    TryAgain(bool),
    Error(Seq<char>),
}

impl View for ServerMsg {
    type V = ServerMsgModel;

    open spec fn view(&self) -> ServerMsgModel {
        match self {
            ServerMsg::UserJoined(j) => ServerMsgModel::UserJoined(
                j.session_id,
                j.user_id,
                j.user_name@,
            ),
            ServerMsg::Ping(p) => ServerMsgModel::Ping(p.text@),
            ServerMsg::Dice(d) => ServerMsgModel::Dice(d.sides, d.count),
            ServerMsg::Coin(c) => ServerMsgModel::Coin(c.count),
            ServerMsg::Winner(w) => ServerMsgModel::Winner(w.user_id, w.user_name@),
            ServerMsg::TryAgain(t) => ServerMsgModel::TryAgain(*t),
            ServerMsg::Error(e) => ServerMsgModel::Error(e@),
        }
    }
}

pub struct ServerRequest {
    pub msg: Option<ServerMsg>,
}

impl View for ServerRequest {
    type V = Option<ServerMsgModel>;

    open spec fn view(&self) -> Option<ServerMsgModel> {
        match &self.msg {
            Some(m) => Some(m@),
            None => None,
        }
    }
}

/// Payload of a client response on the wire.
pub enum ClientMsg {
    Pong(Pong),
    DiceGuess(DiceGuess),
    CoinGuess(CoinGuess),
    Again(bool),
    Error(String),
}

/// The value of a wire response payload.
pub enum ClientMsgModel {
    Pong(Seq<char>),
    DiceGuess(Seq<u32>),
    CoinGuess(Seq<i32>),
    Again(bool),
    Error(Seq<char>),
}

impl View for ClientMsg {
    type V = ClientMsgModel;

    open spec fn view(&self) -> ClientMsgModel {
        match self {
            ClientMsg::Pong(p) => ClientMsgModel::Pong(p.text@),
            ClientMsg::DiceGuess(d) => ClientMsgModel::DiceGuess(d.number@),
            ClientMsg::CoinGuess(c) => ClientMsgModel::CoinGuess(c.coins@),
            ClientMsg::Again(a) => ClientMsgModel::Again(*a),
            ClientMsg::Error(e) => ClientMsgModel::Error(e@),
        }
    }
}

pub struct ClientResponse {
    pub msg: Option<ClientMsg>,
}

impl View for ClientResponse {
    type V = Option<ClientMsgModel>;

    open spec fn view(&self) -> Option<ClientMsgModel> {
        match &self.msg {
            Some(m) => Some(m@),
            None => None,
        }
    }
}

/// A client's response to a prompt, tagged with the conduit it answers.
pub struct ClientEventResponse {
    pub er: Option<EventRegister>,
    pub client_response: Option<ClientResponse>,
}

/// The payload of a call that carries nothing.
pub struct Empty {}

} // verus!
