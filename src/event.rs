//! Correlation of a prompt with the response that a conduit's inbound queue yields.
//!
//! A request-response prompt is answered by the next value dequeued from the
//! user's inbound queue, or by nothing when that queue closed. The functions here
//! turn that dequeued value into the prompt's result.
use vstd::prelude::*;

use crate::error::{Error, ErrorModel};
use crate::types::{copy_bytes, copy_coins, ClientResponse, CoinGuess, DiceGuess, Pong, Coin, ReplyModel};

verus! {

/// The value of what the inbound queue yielded.
pub open spec fn received(r: Option<ClientResponse>) -> Option<ReplyModel> {
    match r {
        Some(c) => Some(c@),
        None => None,
    }
}

/// The value of a prompt's result.
pub open spec fn outcome<T: View>(r: Result<T, Error>) -> Result<T::V, ErrorModel> {
    match r {
        Ok(v) => Ok(v@),
        Err(e) => Err(e@),
    }
}

/// A dequeued response before its kind is checked: a closed queue and a
/// client-reported failure are errors whatever the prompt was.
pub open spec fn awaited(r: Option<ReplyModel>) -> Result<ReplyModel, ErrorModel> {
    match r {
        None => Err(ErrorModel::ClientDisconnected),
        Some(ReplyModel::ClientError(e)) => Err(ErrorModel::ClientError(e)),
        Some(m) => Ok(m),
    }
}

/// The result of a `Ping` prompt: the text of a `Pong`.
pub open spec fn ping_outcome(r: Option<ReplyModel>) -> Result<Seq<char>, ErrorModel> {
    match awaited(r) {
        Err(e) => Err(e),
        Ok(ReplyModel::Pong(t)) => Ok(t),
        Ok(_) => Err(ErrorModel::InvalidClientResponse),
    }
}

/// The result of a `RollDice` prompt: the values of a `DiceGuess`.
pub open spec fn roll_dice_outcome(r: Option<ReplyModel>) -> Result<Seq<u8>, ErrorModel> {
    match awaited(r) {
        Err(e) => Err(e),
        Ok(ReplyModel::DiceGuess(d)) => Ok(d),
        Ok(_) => Err(ErrorModel::InvalidClientResponse),
    }
}

/// The result of a `FlipCoin` prompt: the coins of a `CoinGuess`.
pub open spec fn flip_coin_outcome(r: Option<ReplyModel>) -> Result<Seq<Coin>, ErrorModel> {
    match awaited(r) {
        Err(e) => Err(e),
        Ok(ReplyModel::CoinGuess(c)) => Ok(c),
        Ok(_) => Err(ErrorModel::InvalidClientResponse),
    }
}

/// The result of a `TryAgain` prompt: the vote of an `Again`.
pub open spec fn try_again_outcome(r: Option<ReplyModel>) -> Result<bool, ErrorModel> {
    match awaited(r) {
        Err(e) => Err(e),
        Ok(ReplyModel::Again(a)) => Ok(a),
        Ok(_) => Err(ErrorModel::InvalidClientResponse),
    }
}

/// The answer to a `Ping` prompt, from what the inbound queue yielded (`None`: it closed).
pub fn ping_reply(r: Option<ClientResponse>) -> (res: Result<String, Error>)
    ensures
        outcome(res) == ping_outcome(received(r)),
{
    match r {
        None => Err(Error::ClientDisconnected),
        Some(ClientResponse::ClientError(e)) => Err(Error::ClientError(e)),
        Some(ClientResponse::Pong(p)) => Ok(p.text().to_owned()),
        Some(_) => Err(Error::InvalidClientResponse),
    }
}

/// The answer to a `RollDice` prompt, from what the inbound queue yielded (`None`: it closed).
pub fn roll_dice_reply(r: Option<ClientResponse>) -> (res: Result<Vec<u8>, Error>)
    ensures
        outcome(res) == roll_dice_outcome(received(r)),
{
    match r {
        None => Err(Error::ClientDisconnected),
        Some(ClientResponse::ClientError(e)) => Err(Error::ClientError(e)),
        Some(ClientResponse::DiceGuess(d)) => Ok(copy_bytes(d.number())),
        Some(_) => Err(Error::InvalidClientResponse),
    }
}

/// The answer to a `FlipCoin` prompt, from what the inbound queue yielded (`None`: it closed).
pub fn flip_coin_reply(r: Option<ClientResponse>) -> (res: Result<Vec<Coin>, Error>)
    ensures
        outcome(res) == flip_coin_outcome(received(r)),
{
    match r {
        None => Err(Error::ClientDisconnected),
        Some(ClientResponse::ClientError(e)) => Err(Error::ClientError(e)),
        Some(ClientResponse::CoinGuess(c)) => Ok(copy_coins(c.coins())),
        Some(_) => Err(Error::InvalidClientResponse),
    }
}

/// The answer to a `TryAgain` prompt, from what the inbound queue yielded (`None`: it closed).
pub fn try_again_reply(r: Option<ClientResponse>) -> (res: Result<bool, Error>)
    ensures
        outcome(res) == try_again_outcome(received(r)),
{
    match r {
        None => Err(Error::ClientDisconnected),
        Some(ClientResponse::ClientError(e)) => Err(Error::ClientError(e)),
        Some(ClientResponse::Again(a)) => Ok(a),
        Some(_) => Err(Error::InvalidClientResponse),
    }
}

/// The answer to a prompt is the response that the user's inbound queue yields
/// next: a dice guess answers `RollDice` with its values, and a coin guess in its
/// place is refused as the wrong kind.
pub proof fn lemma_conduit_correlation(v: Seq<u8>, c: Seq<Coin>)
    ensures
        roll_dice_outcome(Some(ReplyModel::DiceGuess(v))) == Ok::<Seq<u8>, ErrorModel>(v),
        roll_dice_outcome(Some(ReplyModel::CoinGuess(c))) == Err::<Seq<u8>, ErrorModel>(
            ErrorModel::InvalidClientResponse,
        ),
        roll_dice_outcome(None) == Err::<Seq<u8>, ErrorModel>(ErrorModel::ClientDisconnected),
{
}

/// What a client's handler made of a prompt.
pub enum Answer {
    /// A notification was taken; nothing goes back.
    Done,
    /// The text answering a ping.
    Text(String),
    /// A guess of dice values.
    Dice(Vec<u8>),
    /// A guess of coin flips.
    Coins(Vec<Coin>),
    /// A vote on playing again.
    Vote(bool),
}

/// The response that a client sends back for its handler's result, if any: a
/// failure of the handler goes back as `ClientError`, so that the server's
/// awaiting prompt fails instead of waiting forever.
pub fn client_reply(answer: Result<Answer, String>) -> (r: Option<ClientResponse>)
    ensures
        received(r) == match answer {
            Ok(Answer::Done) => None,
            Ok(Answer::Text(t)) => Some(ReplyModel::Pong(t@)),
            Ok(Answer::Dice(d)) => Some(ReplyModel::DiceGuess(d@)),
            Ok(Answer::Coins(c)) => Some(ReplyModel::CoinGuess(c@)),
            Ok(Answer::Vote(b)) => Some(ReplyModel::Again(b)),
            Err(e) => Some(ReplyModel::ClientError(e@)),
        },
{
    match answer {
        Ok(Answer::Done) => None,
        Ok(Answer::Text(t)) => Some(ClientResponse::Pong(Pong::new(t.as_str()))),
        Ok(Answer::Dice(d)) => Some(ClientResponse::DiceGuess(DiceGuess::new(d.as_slice()))),
        Ok(Answer::Coins(c)) => Some(ClientResponse::CoinGuess(CoinGuess::new(c.as_slice()))),
        Ok(Answer::Vote(b)) => Some(ClientResponse::Again(b)),
        Err(e) => Some(ClientResponse::ClientError(e)),
    }
}

} // verus!
