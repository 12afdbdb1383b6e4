//! The session registry: hosting, listing and joining sessions, and the
//! conduits of the joined users.
use vstd::prelude::*;

use crate::service_error::Error;
use crate::types::{SessionData, SessionDataView, SessionID, SessionType, UserID};

verus! {

/// What the server keeps of a joined user.
pub struct UserData {
    pub name: String,
}

/// One session: its declared size, its game, its users in order of joining,
/// and the conduits that users have opened (of type `C`).
pub struct SessionState<C> {
    pub player_count: u8,
    pub users: Vec<(UserID, UserData)>,
    pub session_type: SessionType,
    pub server_event_senders: Vec<(UserID, C)>,
}

/// The value of a session: the users with their names, and the users whose
/// conduit the session holds.
pub struct SessionView<C> {
    pub player_count: u8,
    pub session_type: SessionType,
    pub users: Seq<(UserID, Seq<char>)>,
    pub linked: Seq<(UserID, C)>,
}

pub open spec fn user_ids(u: Seq<(UserID, Seq<char>)>) -> Seq<UserID> {
    u.map_values(|p: (UserID, Seq<char>)| p.0)
}

pub open spec fn user_names(u: Seq<(UserID, Seq<char>)>) -> Seq<Seq<char>> {
    u.map_values(|p: (UserID, Seq<char>)| p.1)
}

pub open spec fn users_view(u: Seq<(UserID, UserData)>) -> Seq<(UserID, Seq<char>)> {
    u.map_values(|p: (UserID, UserData)| (p.0, p.1.name@))
}

pub open spec fn conduit_ids<C>(c: Seq<(UserID, C)>) -> Seq<UserID> {
    c.map_values(|p: (UserID, C)| p.0)
}

impl<C> View for SessionState<C> {
    type V = SessionView<C>;

    open spec fn view(&self) -> SessionView<C> {
        SessionView {
            player_count: self.player_count,
            session_type: self.session_type,
            users: users_view(self.users@),
            linked: self.server_event_senders@,
        }
    }
}

/// A session never holds more users than its player count, a user at most
/// once, and conduits only of its users, one each.
pub open spec fn session_wf<C>(s: SessionView<C>) -> bool {
    &&& s.users.len() <= s.player_count
    &&& user_ids(s.users).no_duplicates()
    &&& conduit_ids(s.linked).no_duplicates()
    &&& forall|u: UserID| conduit_ids(s.linked).contains(u) ==> user_ids(s.users).contains(u)
}

/// The session with this id, if it exists; ids count from 1 in order of hosting.
pub open spec fn session_of<C>(m: Seq<Option<SessionView<C>>>, sid: SessionID) -> Option<SessionView<C>> {
    if 1 <= sid.0 <= m.len() {
        m[sid.0 - 1]
    } else {
        None
    }
}

/// A session is full when its users reach its player count.
pub open spec fn is_full<C>(s: SessionView<C>) -> bool {
    s.users.len() == s.player_count
}

/// How a join request is answered.
pub enum JoinOutcome {
    NotFound,
    AlreadyIn,
    Full,
    /// The user is admitted; the session is not full yet.
    Admitted,
    /// The user is admitted and completes the quorum: the game starts.
    Starts,
}

pub open spec fn join_outcome<C>(
    m: Seq<Option<SessionView<C>>>,
    sid: SessionID,
    uid: UserID,
) -> JoinOutcome {
    match session_of(m, sid) {
        None => JoinOutcome::NotFound,
        Some(s) => if user_ids(s.users).contains(uid) {
            JoinOutcome::AlreadyIn
        } else if is_full(s) {
            JoinOutcome::Full
        } else if s.users.len() + 1 == s.player_count {
            JoinOutcome::Starts
        } else {
            JoinOutcome::Admitted
        },
    }
}

/// The registry after a join request: an admitted user is appended.
pub open spec fn join_next<C>(
    m: Seq<Option<SessionView<C>>>,
    sid: SessionID,
    uid: UserID,
    name: Seq<char>,
) -> Seq<Option<SessionView<C>>> {
    let s = session_of(m, sid)->Some_0;
    match join_outcome(m, sid, uid) {
        JoinOutcome::Admitted | JoinOutcome::Starts => m.update(
            sid.0 - 1,
            Some(SessionView { users: s.users.push((uid, name)), ..s }),
        ),
        _ => m,
    }
}

/// The error that a refused join request gets.
pub open spec fn join_error(outcome: JoinOutcome, sid: SessionID, uid: UserID) -> Error {
    match outcome {
        JoinOutcome::AlreadyIn => Error::UserAlreadyInSession(uid, sid),
        JoinOutcome::Full => Error::SessionFull(sid),
        _ => Error::SessionNotFound(sid),
    }
}

/// What a starting game takes from its session: the users in order of joining
/// and the game. It takes the conduits when it begins to run.
pub struct GameStart {
    pub users: Vec<(UserID, String)>,
    pub session_type: SessionType,
}

pub open spec fn named_view(u: Seq<(UserID, String)>) -> Seq<(UserID, Seq<char>)> {
    u.map_values(|p: (UserID, String)| (p.0, p.1@))
}

/// The listing of a registry: each existing session, in order of id.
pub open spec fn listing<C>(m: Seq<Option<SessionView<C>>>) -> Seq<SessionDataView>
    decreases m.len(),
{
    if m.len() == 0 {
        Seq::empty()
    } else {
        let prev = listing(m.drop_last());
        match m.last() {
            Some(s) => prev.push((SessionID(m.len() as u64), s.session_type, user_names(s.users))),
            None => prev,
        }
    }
}

/// The session registry; a session's id is its position, counted from 1.
pub struct CleanService<C> {
    sessions: Vec<Option<SessionState<C>>>,
}

pub open spec fn slot_view<C>(s: Option<SessionState<C>>) -> Option<SessionView<C>> {
    match s {
        Some(x) => Some(x@),
        None => None,
    }
}

impl<C> View for CleanService<C> {
    type V = Seq<Option<SessionView<C>>>;

    closed spec fn view(&self) -> Seq<Option<SessionView<C>>> {
        self.sessions@.map_values(|s: Option<SessionState<C>>| slot_view(s))
    }
}

/// Position of a user in a list of pairs keyed by user.
fn position_of<T>(v: &Vec<(UserID, T)>, uid: UserID) -> (r: Option<usize>)
    ensures
        match r {
            Some(i) => i < v@.len() && v@[i as int].0 == uid && forall|j: int|
                0 <= j < i ==> v@[j].0 != uid,
            None => forall|j: int| 0 <= j < v@.len() ==> v@[j].0 != uid,
        },
{
    let mut i: usize = 0;
    while i < v.len()
        invariant
            i <= v@.len(),
            forall|j: int| 0 <= j < i ==> v@[j].0 != uid,
        decreases v@.len() - i,
    {
        if v[i].0 == uid {
            return Some(i);
        }
        i = i + 1;
    }
    None
}

impl<C> CleanService<C> {
    /// Every session is well formed.
    pub open spec fn wf(&self) -> bool {
        forall|i: int| 0 <= i < self@.len() && (#[trigger] self@[i]) is Some ==> session_wf(self@[i]->Some_0)
    }

    pub fn new() -> (r: Self)
        ensures
            r.wf(),
            r@ == Seq::<Option<SessionView<C>>>::empty(),
    {
        let r = CleanService { sessions: Vec::new() };
        assert(r@ =~= Seq::<Option<SessionView<C>>>::empty());
        r
    }

    /// The number of session ids handed out so far.
    pub fn session_count(&self) -> (r: usize)
        ensures
            r == self@.len(),
    {
        self.sessions.len()
    }

    /// The slot of a session id, if a session has it.
    fn slot_of(&self, sid: SessionID) -> (r: Option<usize>)
        ensures
            match r {
                Some(i) => i == sid.0 - 1 && session_of(self@, sid) is Some,
                None => session_of(self@, sid) is None,
            },
    {
        if sid.0 == 0 || sid.0 > self.sessions.len() as u64 {
            return None;
        }
        let i = (sid.0 - 1) as usize;
        match &self.sessions[i] {
            Some(_) => Some(i),
            None => None,
        }
    }

    /// Takes the session out of a slot, leaving the slot empty.
    fn take_slot(&mut self, i: usize) -> (r: Option<SessionState<C>>)
        requires
            i < old(self)@.len(),
        ensures
            slot_view(r) == old(self)@[i as int],
            final(self)@ == old(self)@.update(i as int, None),
    {
        self.sessions.push(None);
        let s = self.sessions.swap_remove(i);
        assert(self@ =~= old(self)@.update(i as int, None));
        s
    }

    /// Puts a session into a slot.
    fn put_slot(&mut self, i: usize, s: SessionState<C>)
        requires
            i < old(self)@.len(),
        ensures
            final(self)@ == old(self)@.update(i as int, Some(s@)),
    {
        self.sessions.push(Some(s));
        let _ = self.sessions.swap_remove(i);
        assert(self@ =~= old(self)@.update(i as int, Some(s@)));
    }

    /// Hosts a new session with the next id and no users.
    pub fn host_session(&mut self, typ: SessionType, player_count: u8) -> (r: SessionData)
        requires
            old(self).wf(),
            old(self)@.len() < 0xffff_ffff_ffff_ffffu64,
        ensures
            final(self).wf(),
            final(self)@ == old(self)@.push(
                Some(
                    SessionView {
                        player_count,
                        session_type: typ,
                        users: Seq::empty(),
                        linked: Seq::empty(),
                    },
                ),
            ),
            r@ == (next_session_id(old(self)@), typ, Seq::<Seq<char>>::empty()),
    {
        let sid = SessionID(self.sessions.len() as u64 + 1);
        let state = SessionState {
            player_count,
            users: Vec::new(),
            session_type: typ,
            server_event_senders: Vec::new(),
        };
        let ghost sv = state@;
        assert(sv.users =~= Seq::empty());
        assert(sv.linked =~= Seq::empty());
        self.sessions.push(Some(state));
        assert(self@ =~= old(self)@.push(Some(sv)));
        let empty: Vec<String> = Vec::new();
        assert(crate::clean::names_of(empty@) =~= Seq::<Seq<char>>::empty());
        SessionData::new(sid, typ, empty.as_slice())
    }

    /// Lists every session, in order of id, with the names of its users.
    pub fn list_sessions(&self) -> (r: Vec<SessionData>)
        ensures
            crate::types::views_of(r@) == listing(self@),
    {
        let mut r: Vec<SessionData> = Vec::new();
        let mut i: usize = 0;
        while i < self.sessions.len()
            invariant
                i <= self@.len(),
                self@.len() == self.sessions@.len(),
                crate::types::views_of(r@) == listing(self@.take(i as int)),
            decreases self@.len() - i,
        {
            assert(self@.take(i as int + 1).drop_last() =~= self@.take(i as int));
            match &self.sessions[i] {
                Some(s) => {
                    let names = names_of_users(&s.users);
                    let d = SessionData::new(SessionID(i as u64 + 1), s.session_type, names.as_slice());
                    let ghost prev = r@;
                    r.push(d);
                    proof {
                        prev.lemma_push_map_commute(|x: SessionData| x@, r@[r@.len() - 1]);
                    }
                },
                None => {},
            }
            i = i + 1;
        }
        assert(self@.take(self@.len() as int) =~= self@);
        r
    }

    /// Admits a user into a session; returns what the game takes when this join
    /// completes the quorum.
    pub fn join_session(&mut self, sid: SessionID, uid: UserID, user_name: &str) -> (r: Result<
        Option<GameStart>,
        Error,
    >)
        requires
            old(self).wf(),
        ensures
            final(self).wf(),
            final(self)@ == join_next(old(self)@, sid, uid, user_name@),
            match join_outcome(old(self)@, sid, uid) {
                JoinOutcome::Admitted => r matches Ok(None),
                JoinOutcome::Starts => r matches Ok(Some(g)) && named_view(g.users@) == session_of(
                    final(self)@,
                    sid,
                )->Some_0.users && g.session_type == session_of(old(self)@, sid)->Some_0.session_type,
                o => r == Err::<Option<GameStart>, Error>(join_error(o, sid, uid)),
            },
    {
        let i = match self.slot_of(sid) {
            None => {
                return Err(Error::SessionNotFound(sid));
            },
            Some(i) => i,
        };
        let (pos, full) = match &self.sessions[i] {
            Some(s) => (position_of(&s.users, uid), s.users.len() == s.player_count as usize),
            None => {
                return Err(Error::SessionNotFound(sid));
            },
        };
        proof {
            let sv = session_of(self@, sid)->Some_0;
            assert(self@[i as int] == slot_view(self.sessions@[i as int]));
            match pos {
                Some(k) => {
                    assert(user_ids(sv.users)[k as int] == uid);
                },
                None => {
                    assert forall|j: int| 0 <= j < user_ids(sv.users).len() implies user_ids(
                        sv.users,
                    )[j] != uid by {}
                },
            }
        }
        if pos.is_some() {
            return Err(Error::UserAlreadyInSession(uid, sid));
        }
        if full {
            return Err(Error::SessionFull(sid));
        }
        let mut s = match self.take_slot(i) {
            Some(s) => s,
            None => {
                return Err(Error::SessionNotFound(sid));
            },
        };
        let ghost before = s@;
        s.users.push((uid, UserData { name: user_name.to_owned() }));
        proof {
            before.users.lemma_push_map_commute(|p: (UserID, Seq<char>)| p.0, (uid, user_name@));
            assert(users_view(s.users@) =~= before.users.push((uid, user_name@)));
            lemma_push_fresh_unique(user_ids(before.users), uid);
            assert(user_ids(s@.users) =~= user_ids(before.users).push(uid));
            assert forall|u: UserID| conduit_ids(s@.linked).contains(u) implies user_ids(
                s@.users,
            ).contains(u) by {
                assert(user_ids(before.users).contains(u));
                let k = user_ids(before.users).index_of(u);
                assert(user_ids(s@.users)[k] == u);
            }
        }
        if s.users.len() == s.player_count as usize {
            let users = named_users(&s.users);
            let typ = s.session_type;
            self.put_slot(i, s);
            Ok(Some(GameStart { users, session_type: typ }))
        } else {
            self.put_slot(i, s);
            Ok(None)
        }
    }
}

impl<C> CleanService<C> {
    /// Stores the conduit of a joined user, replacing the one it had.
    pub fn register_server_event_sender(&mut self, sid: SessionID, uid: UserID, conduit: C) -> (r:
        Result<(), Error>)
        requires
            old(self).wf(),
        ensures
            final(self).wf(),
            match session_of(old(self)@, sid) {
                None => r == Err::<(), Error>(Error::SessionNotFound(sid)) && final(self)@ == old(
                    self,
                )@,
                Some(x) => if user_ids(x.users).contains(uid) {
                    r is Ok && final(self)@ == old(self)@.update(
                        sid.0 - 1,
                        Some(SessionView { linked: relink(x.linked, uid, conduit), ..x }),
                    )
                } else {
                    r == Err::<(), Error>(Error::UserNotInSession(uid, sid)) && final(self)@ == old(
                        self,
                    )@
                },
            },
    {
        let i = match self.slot_of(sid) {
            None => {
                return Err(Error::SessionNotFound(sid));
            },
            Some(i) => i,
        };
        let pos = match &self.sessions[i] {
            Some(s) => position_of(&s.users, uid),
            None => {
                return Err(Error::SessionNotFound(sid));
            },
        };
        proof {
            let sv = session_of(self@, sid)->Some_0;
            assert(self@[i as int] == slot_view(self.sessions@[i as int]));
            match pos {
                Some(k) => {
                    assert(user_ids(sv.users)[k as int] == uid);
                },
                None => {
                    assert forall|j: int| 0 <= j < user_ids(sv.users).len() implies user_ids(
                        sv.users,
                    )[j] != uid by {}
                },
            }
        }
        if pos.is_none() {
            return Err(Error::UserNotInSession(uid, sid));
        }
        let mut s = match self.take_slot(i) {
            Some(s) => s,
            None => {
                return Err(Error::SessionNotFound(sid));
            },
        };
        let ghost before = s@;
        let ghost ids = conduit_ids(before.linked);
        match position_of(&s.server_event_senders, uid) {
            Some(k) => {
                let _ = s.server_event_senders.remove(k);
                s.server_event_senders.insert(k, (uid, conduit));
                proof {
                    assert(ids[k as int] == uid);
                    assert(ids.contains(uid));
                    let c = ids.index_of(uid);
                    assert(ids[c] == uid);
                    assert(c == k);
                    assert(s@.linked =~= before.linked.update(k as int, (uid, conduit)));
                    assert(conduit_ids(s@.linked) =~= ids);
                }
            },
            None => {
                s.server_event_senders.push((uid, conduit));
                proof {
                    assert(!ids.contains(uid));
                    before.linked.lemma_push_map_commute(|p: (UserID, C)| p.0, (uid, conduit));
                    lemma_push_fresh_unique(ids, uid);
                    assert(conduit_ids(s@.linked) =~= ids.push(uid));
                }
            },
        }
        assert(s@ == SessionView { linked: relink(before.linked, uid, conduit), ..before });
        self.put_slot(i, s);
        Ok(())
    }

    /// Moves the conduits out of a session, for its game to use.
    pub fn take_conduits(&mut self, sid: SessionID) -> (r: Result<Vec<(UserID, C)>, Error>)
        requires
            old(self).wf(),
        ensures
            final(self).wf(),
            match session_of(old(self)@, sid) {
                None => r matches Err(e) && e == Error::SessionNotFound(sid) && final(self)@ == old(
                    self,
                )@,
                Some(x) => r matches Ok(v) && v@ == x.linked && final(self)@ == old(self)@.update(
                    sid.0 - 1,
                    Some(SessionView { linked: Seq::empty(), ..x }),
                ),
            },
    {
        let i = match self.slot_of(sid) {
            None => {
                return Err(Error::SessionNotFound(sid));
            },
            Some(i) => i,
        };
        let mut s = match self.take_slot(i) {
            Some(s) => s,
            None => {
                return Err(Error::SessionNotFound(sid));
            },
        };
        let mut conduits: Vec<(UserID, C)> = Vec::new();
        std::mem::swap(&mut conduits, &mut s.server_event_senders);
        proof {
            assert(s@.linked =~= Seq::empty());
            assert(conduit_ids(s@.linked) =~= Seq::empty());
        }
        self.put_slot(i, s);
        Ok(conduits)
    }

    /// Whether the session exists and holds a conduit for each of its users.
    pub fn all_linked(&self, sid: SessionID) -> (r: bool)
        ensures
            r == (session_of(self@, sid) is Some && forall|u: UserID|
                user_ids(session_of(self@, sid)->Some_0.users).contains(u) ==> conduit_ids(
                    session_of(self@, sid)->Some_0.linked,
                ).contains(u)),
    {
        let i = match self.slot_of(sid) {
            None => {
                return false;
            },
            Some(i) => i,
        };
        match &self.sessions[i] {
            None => false,
            Some(s) => {
                assert(self@[i as int] == slot_view(self.sessions@[i as int]));
                let ghost sv = s@;
                assert(session_of(self@, sid) == Some(sv));
                let mut k: usize = 0;
                while k < s.users.len()
                    invariant
                        k <= s.users@.len(),
                        sv == s@,
                        session_of(self@, sid) == Some(sv),
                        forall|j: int|
                            0 <= j < k ==> conduit_ids(sv.linked).contains(
                                #[trigger] user_ids(sv.users)[j],
                            ),
                    decreases s.users@.len() - k,
                {
                    match position_of(&s.server_event_senders, s.users[k].0) {
                        Some(p) => {
                            assert(conduit_ids(sv.linked)[p as int] == user_ids(sv.users)[k as int]);
                        },
                        None => {
                            proof {
                                let u = user_ids(sv.users)[k as int];
                                assert(user_ids(sv.users).contains(u));
                                if conduit_ids(sv.linked).contains(u) {
                                    let q = conduit_ids(sv.linked).index_of(u);
                                    assert(sv.linked[q].0 == u);
                                }
                            }
                            return false;
                        },
                    }
                    k = k + 1;
                }
                proof {
                    assert forall|u: UserID| user_ids(sv.users).contains(u) implies conduit_ids(
                        sv.linked,
                    ).contains(u) by {
                        let j = user_ids(sv.users).index_of(u);
                        assert(conduit_ids(sv.linked).contains(user_ids(sv.users)[j]));
                    }
                }
                true
            },
        }
    }

    /// Asks for a session to start; the game starts on quorum, so this only
    /// checks that the session exists.
    pub fn start_session(&self, sid: SessionID) -> (r: Result<(), Error>)
        ensures
            r is Ok <==> session_of(self@, sid) is Some,
            r is Err ==> r == Err::<(), Error>(Error::SessionNotFound(sid)),
    {
        match self.slot_of(sid) {
            Some(_) => Ok(()),
            None => Err(Error::SessionNotFound(sid)),
        }
    }

    /// Removes a session once its game is over; its id is not handed out again.
    pub fn end_session(&mut self, sid: SessionID) -> (r: Result<(), Error>)
        requires
            old(self).wf(),
        ensures
            final(self).wf(),
            match session_of(old(self)@, sid) {
                None => r == Err::<(), Error>(Error::SessionNotFound(sid)) && final(self)@ == old(
                    self,
                )@,
                Some(_) => r is Ok && final(self)@ == old(self)@.update(sid.0 - 1, None),
            },
    {
        match self.slot_of(sid) {
            Some(i) => {
                let _ = self.take_slot(i);
                Ok(())
            },
            None => Err(Error::SessionNotFound(sid)),
        }
    }
}

/// The conduits of a session after `c` is stored for `uid`: it replaces the
/// user's earlier conduit in place, or is appended.
pub open spec fn relink<C>(l: Seq<(UserID, C)>, uid: UserID, c: C) -> Seq<(UserID, C)> {
    if conduit_ids(l).contains(uid) {
        l.update(conduit_ids(l).index_of(uid), (uid, c))
    } else {
        l.push((uid, c))
    }
}

/// Session ids increase: a host returns one more than the number of ids handed
/// out before it, and no operation lowers that number, so of two hosts the later
/// one returns the larger id.
pub proof fn lemma_session_ids_increase<C>(states: Seq<Seq<Option<SessionView<C>>>>, i: int, j: int)
    requires
        0 <= i < j < states.len(),
        forall|k: int| 0 <= k < states.len() - 1 ==> (#[trigger] states[k + 1]).len() >= states[k].len(),
        states[i + 1].len() == states[i].len() + 1,
        forall|k: int| 0 <= k < states.len() ==> (#[trigger] states[k]).len() < 0xffff_ffff_ffff_ffffu64,
    ensures
        next_session_id(states[i]).0 < next_session_id(states[j]).0,
    decreases j - i,
{
    if j > i + 1 {
        lemma_session_ids_increase_from(states, i + 1, j);
    }
}

proof fn lemma_session_ids_increase_from<C>(states: Seq<Seq<Option<SessionView<C>>>>, i: int, j: int)
    requires
        0 <= i <= j < states.len(),
        forall|k: int| 0 <= k < states.len() - 1 ==> (#[trigger] states[k + 1]).len() >= states[k].len(),
    ensures
        states[i].len() <= states[j].len(),
    decreases j - i,
{
    if j > i {
        lemma_session_ids_increase_from(states, i, j - 1);
        assert(states[j - 1 + 1].len() >= states[j - 1].len());
    }
}

/// Once a user has joined a session, joining it again is refused with
/// `UserAlreadyInSession`.
pub proof fn lemma_join_once<C>(
    m: Seq<Option<SessionView<C>>>,
    sid: SessionID,
    uid: UserID,
    name: Seq<char>,
    again: Seq<char>,
)
    requires
        join_outcome(m, sid, uid) is Admitted || join_outcome(m, sid, uid) is Starts,
    ensures
        join_outcome(join_next(m, sid, uid, name), sid, uid) is AlreadyIn,
        join_next(join_next(m, sid, uid, name), sid, uid, again) == join_next(m, sid, uid, name),
{
    let s = session_of(m, sid)->Some_0;
    let n = join_next(m, sid, uid, name);
    let t = session_of(n, sid)->Some_0;
    assert(t.users == s.users.push((uid, name)));
    assert(user_ids(t.users)[s.users.len() as int] == uid);
}

/// The game starts on the join whose insertion brings the users to the player
/// count, and on no other: after it every join is refused.
pub proof fn lemma_quorum_starts_once<C>(
    m: Seq<Option<SessionView<C>>>,
    sid: SessionID,
    uid: UserID,
    name: Seq<char>,
    other: UserID,
)
    requires
        join_outcome(m, sid, uid) is Admitted || join_outcome(m, sid, uid) is Starts,
    ensures
        join_outcome(m, sid, uid) is Starts <==> session_of(join_next(m, sid, uid, name), sid)->Some_0.users.len()
            == session_of(m, sid)->Some_0.player_count,
        join_outcome(m, sid, uid) is Starts ==> {
            let o = join_outcome(join_next(m, sid, uid, name), sid, other);
            o is AlreadyIn || o is Full
        },
{
}

/// The id that the next hosted session gets.
pub open spec fn next_session_id<C>(m: Seq<Option<SessionView<C>>>) -> SessionID {
    SessionID((m.len() + 1) as u64)
}

proof fn lemma_push_fresh_unique(s: Seq<UserID>, u: UserID)
    requires
        s.no_duplicates(),
        !s.contains(u),
    ensures
        s.push(u).no_duplicates(),
{
    assert forall|i: int, j: int| 0 <= i < s.push(u).len() && 0 <= j < s.push(u).len() && i != j implies s.push(u)[i] != s.push(u)[j] by {
        if i == s.len() {
            assert(s.contains(s[j]));
        } else if j == s.len() {
            assert(s.contains(s[i]));
        }
    }
}

/// The names of a session's users, in order.
fn names_of_users(users: &Vec<(UserID, UserData)>) -> (r: Vec<String>)
    ensures
        crate::clean::names_of(r@) == user_names(users_view(users@)),
{
    let mut r: Vec<String> = Vec::new();
    let mut i: usize = 0;
    while i < users.len()
        invariant
            i <= users@.len(),
            crate::clean::names_of(r@) =~= user_names(users_view(users@.take(i as int))),
        decreases users@.len() - i,
    {
        let ghost prev = r@;
        r.push(users[i].1.name.clone());
        proof {
            prev.lemma_push_map_commute(|s: String| s@, r@[i as int]);
            users@.lemma_map_take_succ(|p: (UserID, UserData)| (p.0, p.1.name@), i as int);
            users_view(users@.take(i as int)).lemma_push_map_commute(
                |p: (UserID, Seq<char>)| p.1,
                (users@[i as int].0, users@[i as int].1.name@),
            );
        }
        i = i + 1;
    }
    assert(users@.take(users@.len() as int) =~= users@);
    r
}

/// The users of a session with their names, in order.
fn named_users(users: &Vec<(UserID, UserData)>) -> (r: Vec<(UserID, String)>)
    ensures
        named_view(r@) == users_view(users@),
{
    let mut r: Vec<(UserID, String)> = Vec::new();
    let mut i: usize = 0;
    while i < users.len()
        invariant
            i <= users@.len(),
            named_view(r@) =~= users_view(users@.take(i as int)),
        decreases users@.len() - i,
    {
        let ghost prev = r@;
        r.push((users[i].0, users[i].1.name.clone()));
        proof {
            prev.lemma_push_map_commute(|p: (UserID, String)| (p.0, p.1@), r@[i as int]);
            users@.lemma_map_take_succ(|p: (UserID, UserData)| (p.0, p.1.name@), i as int);
        }
        i = i + 1;
    }
    assert(users@.take(users@.len() as int) =~= users@);
    r
}

/// The conduits of a running game, by user.
pub struct Callback<C> {
    senders: Vec<(UserID, C)>,
}

impl<C> View for Callback<C> {
    type V = Seq<(UserID, C)>;

    closed spec fn view(&self) -> Seq<(UserID, C)> {
        self.senders@
    }
}

impl<C> Callback<C> {
    pub fn new() -> (r: Self)
        ensures
            r@ == Seq::<(UserID, C)>::empty(),
    {
        Callback { senders: Vec::new() }
    }

    /// The conduits that a starting game took from its session.
    pub fn from_conduits(conduits: Vec<(UserID, C)>) -> (r: Self)
        ensures
            r@ == conduits@,
    {
        Callback { senders: conduits }
    }

    /// Adds the conduit of a user; an earlier one of the same user keeps priority.
    pub fn attach(&mut self, uid: UserID, s: C)
        ensures
            final(self)@ == old(self)@.push((uid, s)),
    {
        self.senders.push((uid, s));
    }

    /// The users that have a conduit, in order.
    pub fn user_ids(&self) -> (r: Vec<UserID>)
        ensures
            r@ == conduit_ids(self@),
    {
        let mut r: Vec<UserID> = Vec::new();
        let mut i: usize = 0;
        while i < self.senders.len()
            invariant
                i <= self.senders@.len(),
                r@ =~= conduit_ids(self.senders@.take(i as int)),
            decreases self.senders@.len() - i,
        {
            r.push(self.senders[i].0);
            proof {
                self.senders@.lemma_map_take_succ(|p: (UserID, C)| p.0, i as int);
            }
            i = i + 1;
        }
        assert(self.senders@.take(self.senders@.len() as int) =~= self.senders@);
        r
    }

    /// The conduit of a user: the first one attached for it.
    pub fn route(&self, uid: UserID) -> (r: Result<&C, Error>)
        ensures
            match r {
                Ok(c) => exists|i: int|
                    0 <= i < self@.len() && self@[i] == (uid, *c) && forall|j: int|
                        0 <= j < i ==> (#[trigger] self@[j]).0 != uid,
                Err(e) => e == Error::ClientUnreachable(uid) && !conduit_ids(self@).contains(uid),
            },
    {
        match position_of(&self.senders, uid) {
            Some(i) => {
                assert(self@[i as int] == (uid, self.senders@[i as int].1));
                Ok(&self.senders[i].1)
            },
            None => {
                proof {
                    if conduit_ids(self@).contains(uid) {
                        let k = conduit_ids(self@).index_of(uid);
                        assert(self@[k].0 == uid);
                    }
                }
                Err(Error::ClientUnreachable(uid))
            },
        }
    }
}

} // verus!
