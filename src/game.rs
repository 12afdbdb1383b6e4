//! The game loop of a session, as a state machine.
//!
//! The loop pings every user, draws a round's secret values, polls every user
//! for a guess, announces the winner, and asks every user whether to play again.
//! Sending prompts and awaiting replies is left to the caller: [`GameLoop::action`]
//! says what to do next, and [`GameLoop::step`] takes what came of it.
use vstd::prelude::*;

use crate::error::{Error as ConduitError, ErrorModel};
use crate::event::{
    flip_coin_outcome, flip_coin_reply, ping_outcome, ping_reply, roll_dice_outcome, roll_dice_reply,
    try_again_outcome, try_again_reply,
};
use crate::service_error::{Error, ErrorView};
use crate::service::named_view;
use crate::types::{
    ClientResponse, Coin, FlipCoin, Ping, PromptModel, ReplyModel, RollDice, ServerRequest, SessionType,
    UserID, Winner,
};

verus! {

/// The sides that a round's dice may have.
pub open spec fn allowed_sides(s: u8) -> bool {
    s == 4 || s == 6 || s == 8 || s == 12 || s == 20
}

/// The secret values of one round.
pub enum Truth {
    Dice { sides: u8, rolls: Vec<u8> },
    Coin { flips: Vec<Coin> },
}

pub enum TruthModel {
    Dice { sides: u8, rolls: Seq<u8> },
    Coin { flips: Seq<Coin> },
}

impl View for Truth {
    type V = TruthModel;

    open spec fn view(&self) -> TruthModel {
        match self {
            Truth::Dice { sides, rolls } => TruthModel::Dice { sides: *sides, rolls: rolls@ },
            Truth::Coin { flips } => TruthModel::Coin { flips: flips@ },
        }
    }
}

/// A round's values are well drawn: one to six of them; dice have one of the
/// allowed side counts and each roll lies between 1 and the sides.
pub open spec fn truth_wf(t: TruthModel) -> bool {
    match t {
        TruthModel::Dice { sides, rolls } => {
            &&& allowed_sides(sides)
            &&& 1 <= rolls.len() <= 6
            &&& forall|i: int| 0 <= i < rolls.len() ==> 1 <= #[trigger] rolls[i] <= sides
        },
        TruthModel::Coin { flips } => 1 <= flips.len() <= 6,
    }
}

/// The round's values suit the session's game and are well drawn.
pub open spec fn truth_fits(kind: SessionType, t: TruthModel) -> bool {
    truth_wf(t) && match t {
        TruthModel::Dice { .. } => kind == SessionType::Dice,
        TruthModel::Coin { .. } => kind == SessionType::Coin,
    }
}

/// The score of a dice guess: how many guessed values occur among the rolls.
pub open spec fn dice_score(rolls: Seq<u8>, guess: Seq<u8>) -> nat
    decreases guess.len(),
{
    if guess.len() == 0 {
        0
    } else {
        dice_score(rolls, guess.drop_last()) + if rolls.contains(guess.last()) {
            1nat
        } else {
            0nat
        }
    }
}

/// How many of the first `n` positions hold the same coin in both sequences.
pub open spec fn coin_matches(flips: Seq<Coin>, guess: Seq<Coin>, n: int) -> nat
    decreases n,
{
    if n <= 0 {
        0
    } else {
        coin_matches(flips, guess, n - 1) + if flips[n - 1] == guess[n - 1] {
            1nat
        } else {
            0nat
        }
    }
}

/// The score of a coin guess: the positions, up to the shorter length, where
/// the guess equals the flips.
pub open spec fn coin_score(flips: Seq<Coin>, guess: Seq<Coin>) -> nat {
    coin_matches(
        flips,
        guess,
        if flips.len() < guess.len() {
            flips.len() as int
        } else {
            guess.len() as int
        },
    )
}

/// The prompt of a round's guess: the dice's sides and count, or the coins' count.
pub open spec fn guess_prompt(t: TruthModel) -> PromptModel {
    match t {
        TruthModel::Dice { sides, rolls } => PromptModel::RollDice(sides, rolls.len() as u8),
        TruthModel::Coin { flips } => PromptModel::FlipCoin(flips.len() as u8),
    }
}

/// The score that a reply to a round's guess prompt earns, or the failure.
pub open spec fn guess_outcome(t: TruthModel, r: Option<ReplyModel>) -> Result<nat, ErrorModel> {
    match t {
        TruthModel::Dice { rolls, .. } => match roll_dice_outcome(r) {
            Ok(g) => Ok(dice_score(rolls, g)),
            Err(e) => Err(e),
        },
        TruthModel::Coin { flips } => match flip_coin_outcome(r) {
            Ok(g) => Ok(coin_score(flips, g)),
            Err(e) => Err(e),
        },
    }
}

/// The leader after one more user's score: a score at least the best so far
/// takes the lead.
pub open spec fn lead_after(lead: Option<(int, nat)>, k: int, score: nat) -> Option<(int, nat)> {
    match lead {
        Some((w, b)) => if score >= b {
            Some((k, score))
        } else {
            lead
        },
        None => Some((k, score)),
    }
}

/// The leader after all the scores, polled in order.
pub open spec fn leader(scores: Seq<nat>) -> Option<(int, nat)>
    decreases scores.len(),
{
    if scores.len() == 0 {
        None
    } else {
        lead_after(leader(scores.drop_last()), scores.len() - 1, scores.last())
    }
}

/// The winner of a round is the last user polled among those with the highest score.
pub proof fn lemma_leader_is_last_best(scores: Seq<nat>)
    requires
        scores.len() > 0,
    ensures
        leader(scores) matches Some((w, b)) && 0 <= w < scores.len() && scores[w] == b && (forall|
            j: int,
        | 0 <= j < scores.len() ==> #[trigger] scores[j] <= b) && (forall|j: int|
            w < j < scores.len() ==> #[trigger] scores[j] < b),
    decreases scores.len(),
{
    let prev = scores.drop_last();
    assert(forall|j: int| 0 <= j < prev.len() ==> prev[j] == scores[j]);
    if prev.len() > 0 {
        lemma_leader_is_last_best(prev);
        let b = leader(prev)->Some_0.1;
        assert(forall|j: int| 0 <= j < prev.len() ==> #[trigger] prev[j] <= b);
    }
}

/// What the loop waits for.
pub enum Phase {
    /// The reply to the opening ping of user `next`.
    PingWait { next: usize },
    /// The values of the next round.
    DrawWait,
    /// The guess of user `next`; `winner` leads with `best` so far.
    GuessWait { truth: Truth, next: usize, winner: Option<usize>, best: u64 },
    /// The delivery of the winner's announcement to user `next`.
    WinnerWait { winner: usize, next: usize },
    /// The vote of user `next`; `again` holds while every earlier vote was yes.
    VoteWait { next: usize, again: bool },
    /// The delivery of the failure to user `next`.
    ReportWait { error: Error, next: usize },
    /// The loop is over.
    Ended,
}

pub enum PhaseModel {
    PingWait { next: int },
    DrawWait,
    GuessWait { truth: TruthModel, next: int, lead: Option<(int, nat)> },
    WinnerWait { winner: int, next: int },
    VoteWait { next: int, again: bool },
    ReportWait { error: ErrorView, next: int },
    Ended,
}

impl View for Phase {
    type V = PhaseModel;

    open spec fn view(&self) -> PhaseModel {
        match self {
            Phase::PingWait { next } => PhaseModel::PingWait { next: *next as int },
            Phase::DrawWait => PhaseModel::DrawWait,
            Phase::GuessWait { truth, next, winner, best } => PhaseModel::GuessWait {
                truth: truth@,
                next: *next as int,
                lead: match winner {
                    Some(w) => Some((*w as int, *best as nat)),
                    None => None,
                },
            },
            Phase::WinnerWait { winner, next } => PhaseModel::WinnerWait {
                winner: *winner as int,
                next: *next as int,
            },
            Phase::VoteWait { next, again } => PhaseModel::VoteWait { next: *next as int, again: *again },
            Phase::ReportWait { error, next } => PhaseModel::ReportWait { error: error@, next: *next as int },
            Phase::Ended => PhaseModel::Ended,
        }
    }
}

/// The value of a game loop: its users in polling order, the users it holds a
/// conduit for, its game, and what it waits for.
pub struct GameModel {
    pub users: Seq<(UserID, Seq<char>)>,
    pub reachable: Seq<UserID>,
    pub kind: SessionType,
    pub phase: PhaseModel,
}

/// What the caller does next.
pub enum Action {
    /// Send the prompt to the user and hand back what the user's inbound queue yields.
    Ask(UserID, ServerRequest),
    /// Send the prompt to the user and hand back whether it was delivered.
    Tell(UserID, ServerRequest),
    /// Draw the values of a round of this game and hand them back.
    Draw(SessionType),
    /// Send the failure's text to the user and hand back whether it was delivered.
    Report(UserID, Error),
    /// The loop is over.
    Finish,
}

pub enum ActionModel {
    Ask(UserID, PromptModel),
    Tell(UserID, PromptModel),
    Draw(SessionType),
    Report(UserID, ErrorView),
    Finish,
}

impl View for Action {
    type V = ActionModel;

    open spec fn view(&self) -> ActionModel {
        match self {
            Action::Ask(u, p) => ActionModel::Ask(*u, p@),
            Action::Tell(u, p) => ActionModel::Tell(*u, p@),
            Action::Draw(k) => ActionModel::Draw(*k),
            Action::Report(u, e) => ActionModel::Report(*u, e@),
            Action::Finish => ActionModel::Finish,
        }
    }
}

/// What came of an action.
pub enum Event {
    /// What the user's inbound queue yielded; `None` when it closed.
    Reply(Option<ClientResponse>),
    /// Whether a prompt was delivered.
    Sent(bool),
    /// The values of a round.
    Drawn(Truth),
}

pub enum EventModel {
    Reply(Option<ReplyModel>),
    Sent(bool),
    Drawn(TruthModel),
}

impl View for Event {
    type V = EventModel;

    open spec fn view(&self) -> EventModel {
        match self {
            Event::Reply(r) => EventModel::Reply(
                match r {
                    Some(c) => Some(c@),
                    None => None,
                },
            ),
            Event::Sent(b) => EventModel::Sent(*b),
            Event::Drawn(t) => EventModel::Drawn(t@),
        }
    }
}

/// The loop holds a conduit for the user at position `k`.
pub open spec fn reach(g: GameModel, k: int) -> bool {
    g.reachable.contains(g.users[k].0)
}

/// The first position from `k` on whose user the loop can reach; the number of
/// users if there is none.
pub open spec fn first_reachable(users: Seq<(UserID, Seq<char>)>, reachable: Seq<UserID>, k: int) -> int
    decreases users.len() - k,
{
    if k < 0 || k >= users.len() {
        users.len() as int
    } else if reachable.contains(users[k].0) {
        k
    } else {
        first_reachable(users, reachable, k + 1)
    }
}

/// Reporting a failure to the reachable users from position `k` on.
pub open spec fn report_from(g: GameModel, error: ErrorView, k: int) -> PhaseModel {
    let j = first_reachable(g.users, g.reachable, k);
    if j < g.users.len() {
        PhaseModel::ReportWait { error, next: j }
    } else {
        PhaseModel::Ended
    }
}

/// A failure ends the rounds; it is reported to every reachable user.
pub open spec fn report(g: GameModel, error: ErrorView) -> PhaseModel {
    report_from(g, error, 0)
}

pub open spec fn enter_ping(g: GameModel, k: int) -> PhaseModel {
    if k >= g.users.len() {
        PhaseModel::DrawWait
    } else if !reach(g, k) {
        report(g, ErrorView::ClientUnreachable(g.users[k].0))
    } else {
        PhaseModel::PingWait { next: k }
    }
}

pub open spec fn enter_vote(g: GameModel, k: int, again: bool) -> PhaseModel {
    if k >= g.users.len() {
        if again {
            enter_ping(g, 0)
        } else {
            PhaseModel::Ended
        }
    } else if !reach(g, k) {
        report(g, ErrorView::ClientUnreachable(g.users[k].0))
    } else {
        PhaseModel::VoteWait { next: k, again }
    }
}

pub open spec fn enter_winner(g: GameModel, w: int, k: int) -> PhaseModel {
    if k >= g.users.len() {
        enter_vote(g, 0, true)
    } else if !reach(g, k) {
        report(g, ErrorView::ClientUnreachable(g.users[k].0))
    } else {
        PhaseModel::WinnerWait { winner: w, next: k }
    }
}

pub open spec fn enter_guess(g: GameModel, t: TruthModel, k: int, lead: Option<(int, nat)>) -> PhaseModel {
    if k >= g.users.len() {
        match lead {
            Some((w, _)) => enter_winner(g, w, 0),
            None => report(g, ErrorView::UnknownWinner),
        }
    } else if !reach(g, k) {
        report(g, ErrorView::ClientUnreachable(g.users[k].0))
    } else {
        PhaseModel::GuessWait { truth: t, next: k, lead }
    }
}

/// What the loop waits for after an event; an event of another kind than the
/// one awaited changes nothing.
pub open spec fn step_spec(g: GameModel, e: EventModel) -> PhaseModel {
    match (g.phase, e) {
        (PhaseModel::PingWait { next }, EventModel::Reply(r)) => match ping_outcome(r) {
            Err(x) => report(g, ErrorView::Conduit(x)),
            Ok(_) => enter_ping(g, next + 1),
        },
        (PhaseModel::DrawWait, EventModel::Drawn(t)) => if truth_fits(g.kind, t) {
            enter_guess(g, t, 0, None)
        } else {
            g.phase
        },
        (PhaseModel::GuessWait { truth, next, lead }, EventModel::Reply(r)) => match guess_outcome(
            truth,
            r,
        ) {
            Err(x) => report(g, ErrorView::Conduit(x)),
            Ok(score) => enter_guess(g, truth, next + 1, lead_after(lead, next, score)),
        },
        (PhaseModel::WinnerWait { winner, next }, EventModel::Sent(ok)) => if ok {
            enter_winner(g, winner, next + 1)
        } else {
            report(g, ErrorView::Conduit(ErrorModel::ClientDisconnected))
        },
        (PhaseModel::VoteWait { next, again }, EventModel::Reply(r)) => match try_again_outcome(r) {
            Err(x) => report(g, ErrorView::Conduit(x)),
            Ok(a) => enter_vote(g, next + 1, again && a),
        },
        (PhaseModel::ReportWait { error, next }, EventModel::Sent(_)) => report_from(g, error, next + 1),
        _ => g.phase,
    }
}

/// What the caller is to do in a phase.
pub open spec fn action_spec(g: GameModel) -> ActionModel {
    match g.phase {
        PhaseModel::PingWait { next } => ActionModel::Ask(g.users[next].0, PromptModel::Ping("Game start"@)),
        PhaseModel::DrawWait => ActionModel::Draw(g.kind),
        PhaseModel::GuessWait { truth, next, .. } => ActionModel::Ask(g.users[next].0, guess_prompt(truth)),
        PhaseModel::WinnerWait { winner, next } => ActionModel::Tell(
            g.users[next].0,
            PromptModel::Winner(g.users[winner].0, g.users[winner].1),
        ),
        PhaseModel::VoteWait { next, .. } => ActionModel::Ask(g.users[next].0, PromptModel::TryAgain(true)),
        PhaseModel::ReportWait { error, next } => ActionModel::Report(g.users[next].0, error),
        PhaseModel::Ended => ActionModel::Finish,
    }
}

/// The positions that a phase names are users, reachable ones where the phase
/// talks to them, and a round's values are well drawn.
pub open spec fn phase_wf(g: GameModel) -> bool {
    let n = g.users.len();
    match g.phase {
        PhaseModel::PingWait { next } => 0 <= next < n && reach(g, next),
        PhaseModel::DrawWait => true,
        PhaseModel::GuessWait { truth, next, lead } => {
            &&& 0 <= next < n
            &&& reach(g, next)
            &&& truth_fits(g.kind, truth)
            &&& match lead {
                Some((w, _)) => 0 <= w < next,
                None => next == 0,
            }
        },
        PhaseModel::WinnerWait { winner, next } => 0 <= winner < n && 0 <= next < n && reach(g, next),
        PhaseModel::VoteWait { next, .. } => 0 <= next < n && reach(g, next),
        PhaseModel::ReportWait { next, .. } => 0 <= next < n && reach(g, next),
        PhaseModel::Ended => true,
    }
}

proof fn lemma_first_reachable(users: Seq<(UserID, Seq<char>)>, reachable: Seq<UserID>, k: int)
    requires
        0 <= k,
    ensures
        ({
            let j = first_reachable(users, reachable, k);
            &&& (k <= j < users.len() && reachable.contains(users[j].0)) || j == users.len()
            &&& forall|i: int| k <= i < j ==> !reachable.contains(#[trigger] users[i].0)
        }),
    decreases users.len() - k,
{
    if k < users.len() && !reachable.contains(users[k].0) {
        lemma_first_reachable(users, reachable, k + 1);
    }
}

/// A copy of a conduit failure.
fn copy_conduit_error(e: &ConduitError) -> (r: ConduitError)
    ensures
        r@ == e@,
{
    match e {
        ConduitError::ClientDisconnected => ConduitError::ClientDisconnected,
        ConduitError::ClientError(t) => ConduitError::ClientError(t.clone()),
        ConduitError::InvalidSessionType => ConduitError::InvalidSessionType,
        ConduitError::InvalidCoinValue => ConduitError::InvalidCoinValue,
        ConduitError::InvalidServerRequest => ConduitError::InvalidServerRequest,
        ConduitError::InvalidClientResponse => ConduitError::InvalidClientResponse,
    }
}

/// A copy of a coordinator failure.
fn copy_error(e: &Error) -> (r: Error)
    ensures
        r@ == e@,
{
    match e {
        Error::ClientUnreachable(u) => Error::ClientUnreachable(*u),
        Error::SessionNotFound(s) => Error::SessionNotFound(*s),
        Error::UnknownWinner => Error::UnknownWinner,
        Error::UserAlreadyInSession(u, s) => Error::UserAlreadyInSession(*u, *s),
        Error::UserNotInSession(u, s) => Error::UserNotInSession(*u, *s),
        Error::SessionFull(s) => Error::SessionFull(*s),
        Error::Conduit(c) => Error::Conduit(copy_conduit_error(c)),
    }
}

/// The score of a dice guess against the rolls.
pub fn score_dice(rolls: &[u8], guess: &[u8]) -> (r: u64)
    ensures
        r == dice_score(rolls@, guess@),
{
    let mut score: u64 = 0;
    let mut i: usize = 0;
    while i < guess.len()
        invariant
            i <= guess@.len(),
            score == dice_score(rolls@, guess@.take(i as int)),
            score <= i,
        decreases guess@.len() - i,
    {
        let mut found = false;
        let mut j: usize = 0;
        while j < rolls.len()
            invariant
                j <= rolls@.len(),
                i < guess@.len(),
                found <==> exists|x: int| 0 <= x < j && rolls@[x] == guess@[i as int],
            decreases rolls@.len() - j,
        {
            if rolls[j] == guess[i] {
                found = true;
            }
            j = j + 1;
        }
        assert(guess@.take(i as int + 1).drop_last() =~= guess@.take(i as int));
        assert(found <==> rolls@.contains(guess@[i as int]));
        if found {
            score = score + 1;
        }
        i = i + 1;
    }
    assert(guess@.take(guess@.len() as int) =~= guess@);
    score
}

/// The score of a coin guess against the flips.
pub fn score_coins(flips: &[Coin], guess: &[Coin]) -> (r: u64)
    ensures
        r == coin_score(flips@, guess@),
{
    let n = if flips.len() < guess.len() {
        flips.len()
    } else {
        guess.len()
    };
    let mut score: u64 = 0;
    let mut i: usize = 0;
    while i < n
        invariant
            n <= flips@.len(),
            n <= guess@.len(),
            i <= n,
            score == coin_matches(flips@, guess@, i as int),
            score <= i,
        decreases n - i,
    {
        if flips[i] == guess[i] {
            score = score + 1;
        }
        i = i + 1;
    }
    score
}

/// Whether a round's values suit the game and are well drawn.
pub fn truth_fits_game(kind: SessionType, t: &Truth) -> (r: bool)
    ensures
        r == truth_fits(kind, t@),
{
    match t {
        Truth::Dice { sides, rolls } => {
            if kind != SessionType::Dice {
                return false;
            }
            let s = *sides;
            if !(s == 4 || s == 6 || s == 8 || s == 12 || s == 20) {
                return false;
            }
            if rolls.len() < 1 || rolls.len() > 6 {
                return false;
            }
            let mut i: usize = 0;
            while i < rolls.len()
                invariant
                    i <= rolls@.len(),
                    t@ == (TruthModel::Dice { sides: s, rolls: rolls@ }),
                    kind == SessionType::Dice,
                    allowed_sides(s),
                    1 <= rolls@.len() <= 6,
                    forall|j: int| 0 <= j < i ==> 1 <= #[trigger] rolls@[j] <= s,
                decreases rolls@.len() - i,
            {
                if rolls[i] < 1 || rolls[i] > s {
                    assert(!(1 <= rolls@[i as int] <= s));
                    return false;
                }
                i = i + 1;
            }
            true
        },
        Truth::Coin { flips } => kind == SessionType::Coin && flips.len() >= 1 && flips.len() <= 6,
    }
}

/// The game loop of one session.
pub struct GameLoop {
    users: Vec<(UserID, String)>,
    reachable: Vec<UserID>,
    session_type: SessionType,
    phase: Phase,
}

impl View for GameLoop {
    type V = GameModel;

    closed spec fn view(&self) -> GameModel {
        GameModel {
            users: named_view(self.users@),
            reachable: self.reachable@,
            kind: self.session_type,
            phase: self.phase@,
        }
    }
}

impl GameLoop {
    /// The phase names users that exist, and well drawn values.
    pub open spec fn wf(&self) -> bool {
        phase_wf(self@)
    }

    /// A loop over these users, in this order, holding conduits for `reachable`.
    pub fn new(users: Vec<(UserID, String)>, reachable: Vec<UserID>, session_type: SessionType) -> (r:
        GameLoop)
        ensures
            r.wf(),
            r@.users == named_view(users@),
            r@.reachable == reachable@,
            r@.kind == session_type,
            r@.phase == enter_ping(r@, 0),
    {
        let mut g = GameLoop { users, reachable, session_type, phase: Phase::Ended };
        let p = g.enter_ping(0);
        g.phase = p;
        g
    }

    /// Whether the loop is over.
    pub fn is_finished(&self) -> (r: bool)
        ensures
            r <==> self@.phase is Ended,
    {
        match self.phase {
            Phase::Ended => true,
            _ => false,
        }
    }

    fn is_reachable(&self, k: usize) -> (r: bool)
        requires
            k < self@.users.len(),
        ensures
            r == reach(self@, k as int),
    {
        let uid = self.users[k].0;
        assert(self@.users[k as int].0 == uid);
        let mut i: usize = 0;
        while i < self.reachable.len()
            invariant
                i <= self.reachable@.len(),
                k < self@.users.len(),
                uid == self@.users[k as int].0,
                forall|j: int| 0 <= j < i ==> self.reachable@[j] != uid,
            decreases self.reachable@.len() - i,
        {
            if self.reachable[i] == uid {
                assert(self@.reachable[i as int] == uid);
                return true;
            }
            i = i + 1;
        }
        false
    }

    fn report_phase(&self, error: Error, k: usize) -> (r: Phase)
        requires
            k <= self@.users.len(),
        ensures
            r@ == report_from(self@, error@, k as int),
            phase_wf(GameModel { phase: r@, ..self@ }),
    {
        let ghost users = self@.users;
        let ghost reachable = self@.reachable;
        let n = self.users.len();
        let mut j: usize = k;
        while j < n
            invariant
                n == users.len(),
                k <= j <= n,
                users == self@.users,
                reachable == self@.reachable,
                first_reachable(users, reachable, k as int) == first_reachable(users, reachable, j as int),
            decreases n - j,
        {
            if self.is_reachable(j) {
                return Phase::ReportWait { error, next: j };
            }
            j = j + 1;
        }
        proof {
            lemma_first_reachable(users, reachable, k as int);
        }
        Phase::Ended
    }

    fn enter_ping(&self, k: usize) -> (r: Phase)
        ensures
            r@ == enter_ping(self@, k as int),
            phase_wf(GameModel { phase: r@, ..self@ }),
    {
        if k >= self.users.len() {
            Phase::DrawWait
        } else if !self.is_reachable(k) {
            self.report_phase(Error::ClientUnreachable(self.users[k].0), 0)
        } else {
            Phase::PingWait { next: k }
        }
    }

    fn enter_vote(&self, k: usize, again: bool) -> (r: Phase)
        ensures
            r@ == enter_vote(self@, k as int, again),
            phase_wf(GameModel { phase: r@, ..self@ }),
    {
        if k >= self.users.len() {
            if again {
                self.enter_ping(0)
            } else {
                Phase::Ended
            }
        } else if !self.is_reachable(k) {
            self.report_phase(Error::ClientUnreachable(self.users[k].0), 0)
        } else {
            Phase::VoteWait { next: k, again }
        }
    }

    fn enter_winner(&self, w: usize, k: usize) -> (r: Phase)
        requires
            w < self@.users.len(),
        ensures
            r@ == enter_winner(self@, w as int, k as int),
            phase_wf(GameModel { phase: r@, ..self@ }),
    {
        if k >= self.users.len() {
            self.enter_vote(0, true)
        } else if !self.is_reachable(k) {
            self.report_phase(Error::ClientUnreachable(self.users[k].0), 0)
        } else {
            Phase::WinnerWait { winner: w, next: k }
        }
    }

    fn enter_guess(&self, truth: Truth, k: usize, winner: Option<usize>, best: u64) -> (r: Phase)
        requires
            k <= self@.users.len(),
            truth_fits(self@.kind, truth@),
            match winner {
                Some(w) => w < k,
                None => k == 0,
            },
        ensures
            r@ == enter_guess(
                self@,
                truth@,
                k as int,
                match winner {
                    Some(w) => Some((w as int, best as nat)),
                    None => None,
                },
            ),
            phase_wf(GameModel { phase: r@, ..self@ }),
    {
        if k >= self.users.len() {
            match winner {
                Some(w) => self.enter_winner(w, 0),
                None => self.report_phase(Error::UnknownWinner, 0),
            }
        } else if !self.is_reachable(k) {
            self.report_phase(Error::ClientUnreachable(self.users[k].0), 0)
        } else {
            Phase::GuessWait { truth, next: k, winner, best }
        }
    }

    /// What the caller is to do now.
    pub fn action(&self) -> (r: Action)
        requires
            self.wf(),
        ensures
            r@ == action_spec(self@),
    {
        match &self.phase {
            Phase::PingWait { next } => Action::Ask(self.users[*next].0, ServerRequest::Ping(Ping::new("Game start"))),
            Phase::DrawWait => Action::Draw(self.session_type),
            Phase::GuessWait { truth, next, .. } => {
                let prompt = match truth {
                    Truth::Dice { sides, rolls } => ServerRequest::RollDice(
                        RollDice::new(*sides, rolls.len() as u8),
                    ),
                    Truth::Coin { flips } => ServerRequest::FlipCoin(FlipCoin::new(flips.len() as u8)),
                };
                Action::Ask(self.users[*next].0, prompt)
            },
            Phase::WinnerWait { winner, next } => Action::Tell(
                self.users[*next].0,
                ServerRequest::Winner(Winner::new(self.users[*winner].0, self.users[*winner].1.as_str())),
            ),
            Phase::VoteWait { next, .. } => Action::Ask(self.users[*next].0, ServerRequest::TryAgain(true)),
            Phase::ReportWait { error, next } => Action::Report(self.users[*next].0, copy_error(error)),
            Phase::Ended => Action::Finish,
        }
    }

    /// Takes what came of the last action.
    pub fn step(&mut self, ev: Event)
        requires
            old(self).wf(),
        ensures
            final(self).wf(),
            final(self)@ == (GameModel { phase: step_spec(old(self)@, ev@), ..old(self)@ }),
    {
        let mut phase = Phase::Ended;
        std::mem::swap(&mut phase, &mut self.phase);
        assert(phase@ == old(self)@.phase);
        assert(self@.users == old(self)@.users);
        assert(self@.users.len() == self.users@.len());
        assert(phase_wf(GameModel { phase: phase@, ..self@ }));
        let n = self.users.len();
        assert(n == self@.users.len());
        let next = match phase {
            Phase::PingWait { next } => match ev {
                Event::Reply(r) => match ping_reply(r) {
                    Err(e) => self.report_phase(Error::Conduit(e), 0),
                    Ok(_) => self.enter_ping(next + 1),
                },
                _ => Phase::PingWait { next },
            },
            Phase::DrawWait => match ev {
                Event::Drawn(t) => if truth_fits_game(self.session_type, &t) {
                    self.enter_guess(t, 0, None, 0)
                } else {
                    Phase::DrawWait
                },
                _ => Phase::DrawWait,
            },
            Phase::GuessWait { truth, next, winner, best } => match ev {
                Event::Reply(r) => {
                    let scored = match &truth {
                        Truth::Dice { rolls, .. } => match roll_dice_reply(r) {
                            Ok(g) => Ok(score_dice(rolls.as_slice(), g.as_slice())),
                            Err(e) => Err(e),
                        },
                        Truth::Coin { flips } => match flip_coin_reply(r) {
                            Ok(g) => Ok(score_coins(flips.as_slice(), g.as_slice())),
                            Err(e) => Err(e),
                        },
                    };
                    match scored {
                        Err(e) => self.report_phase(Error::Conduit(e), 0),
                        Ok(score) => {
                            let takes_lead = match winner {
                                Some(_) => score >= best,
                                None => true,
                            };
                            if takes_lead {
                                self.enter_guess(truth, next + 1, Some(next), score)
                            } else {
                                self.enter_guess(truth, next + 1, winner, best)
                            }
                        },
                    }
                },
                _ => Phase::GuessWait { truth, next, winner, best },
            },
            Phase::WinnerWait { winner, next } => match ev {
                Event::Sent(ok) => if ok {
                    self.enter_winner(winner, next + 1)
                } else {
                    self.report_phase(Error::Conduit(ConduitError::ClientDisconnected), 0)
                },
                _ => Phase::WinnerWait { winner, next },
            },
            Phase::VoteWait { next, again } => match ev {
                Event::Reply(r) => match try_again_reply(r) {
                    Err(e) => self.report_phase(Error::Conduit(e), 0),
                    Ok(a) => self.enter_vote(next + 1, again && a),
                },
                _ => Phase::VoteWait { next, again },
            },
            Phase::ReportWait { error, next } => match ev {
                Event::Sent(_) => self.report_phase(error, next + 1),
                _ => Phase::ReportWait { error, next },
            },
            Phase::Ended => Phase::Ended,
        };
        self.phase = next;
    }
}

/// Relies on `rand::Rng::gen_range` over `rand::thread_rng()`: a value between
/// `lo` and `hi`, both included (the call panics on an empty range).
#[verifier::external_body]
fn random_between(lo: u8, hi: u8) -> (r: u8)
    requires
        lo <= hi,
    ensures
        lo <= r <= hi,
{
    rand::Rng::gen_range(&mut rand::thread_rng(), lo..=hi)
}

/// Draws the values of a round: for dice, sides out of 4, 6, 8, 12 and 20, one
/// to six dice, each rolled between 1 and the sides; for coins, one to six flips.
pub fn draw_truth(kind: SessionType) -> (r: Truth)
    ensures
        truth_fits(kind, r@),
{
    match kind {
        SessionType::Dice => {
            let sides_array: Vec<u8> = vec![4, 6, 8, 12, 20];
            let sides = sides_array[random_between(0, 4) as usize];
            let count = random_between(1, 6);
            let mut rolls: Vec<u8> = Vec::new();
            let mut i: u8 = 0;
            while i < count
                invariant
                    i <= count <= 6,
                    allowed_sides(sides),
                    rolls@.len() == i,
                    forall|j: int| 0 <= j < i ==> 1 <= #[trigger] rolls@[j] <= sides,
                decreases count - i,
            {
                rolls.push(random_between(1, sides));
                i = i + 1;
            }
            Truth::Dice { sides, rolls }
        },
        SessionType::Coin => {
            let count = random_between(1, 6);
            let mut flips: Vec<Coin> = Vec::new();
            let mut i: u8 = 0;
            while i < count
                invariant
                    i <= count <= 6,
                    flips@.len() == i,
                decreases count - i,
            {
                if random_between(0, 1) == 0 {
                    flips.push(Coin::Heads);
                } else {
                    flips.push(Coin::Tails);
                }
                i = i + 1;
            }
            Truth::Coin { flips }
        },
    }
}

/// A round's values are fixed before any user is polled: they are those handed
/// over when the round starts, and no reply during the round changes them, so no
/// user's guess bears on what the later users are scored against.
pub proof fn lemma_round_values_fixed(g: GameModel, e: EventModel)
    requires
        g.phase is DrawWait || g.phase is GuessWait,
    ensures
        g.phase is DrawWait && e is Drawn && step_spec(g, e) is GuessWait ==> step_spec(
            g,
            e,
        )->GuessWait_truth == e->Drawn_0,
        g.phase is DrawWait && !(e is Drawn) ==> step_spec(g, e) == g.phase,
        g.phase is GuessWait && step_spec(g, e) is GuessWait ==> step_spec(g, e)->GuessWait_truth
            == g.phase->GuessWait_truth,
{
}

/// A closed inbound queue, while the loop awaits a user's reply, ends the
/// rounds: `ClientDisconnected` goes to the first reachable user.
pub proof fn lemma_disconnect_reported(g: GameModel)
    requires
        phase_wf(g),
        g.phase is PingWait || g.phase is GuessWait || g.phase is VoteWait,
    ensures
        step_spec(g, EventModel::Reply(None)) matches PhaseModel::ReportWait { error, next } && error
            == ErrorView::Conduit(ErrorModel::ClientDisconnected) && 0 <= next < g.users.len() && reach(
            g,
            next,
        ) && forall|i: int| 0 <= i < next ==> !reach(g, i),
{
    lemma_first_reachable(g.users, g.reachable, 0);
    let k = match g.phase {
        PhaseModel::PingWait { next } => next,
        PhaseModel::GuessWait { next, .. } => next,
        PhaseModel::VoteWait { next, .. } => next,
        _ => 0,
    };
    assert(reach(g, k));
}

/// Reporting a failure visits the reachable users in order, each once, and then
/// ends the loop.
pub proof fn lemma_report_advances(g: GameModel, e: EventModel)
    requires
        phase_wf(g),
        g.phase is ReportWait,
        e is Sent,
    ensures
        step_spec(g, e) is Ended || (step_spec(g, e) matches PhaseModel::ReportWait { error, next }
            && error == g.phase->ReportWait_error && g.phase->ReportWait_next < next < g.users.len()
            && reach(g, next) && forall|i: int| g.phase->ReportWait_next < i < next ==> !reach(g, i)),
        step_spec(g, e) is Ended ==> forall|i: int|
            g.phase->ReportWait_next < i < g.users.len() ==> !reach(g, i),
{
    lemma_first_reachable(g.users, g.reachable, g.phase->ReportWait_next + 1);
}

} // verus!
