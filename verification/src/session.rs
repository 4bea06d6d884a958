//! Sessions and the in-memory store that keeps them, keyed by session token.
use vstd::prelude::*;
use crate::comm::{ostr, clone_opt, SessionSummary, SessionSummaryView};
use crate::oid::Oid;
use crate::text::str_eq;

verus! {

/// A client session.
pub struct WmtpSession {
    pub token: String,
    pub email: Option<String>,
    pub authenticated: bool,
    pub suspended: bool,
    pub user_id: Option<Oid>,
}

/// Model of a session.
pub struct SessionView {
    pub token: Seq<char>,
    pub email: Option<Seq<char>>,
    pub authenticated: bool,
    pub suspended: bool,
    pub user_id: Option<Seq<u8>>,
}

/// The bytes of an optional identifier.
pub open spec fn oid_bytes(o: Option<Oid>) -> Option<Seq<u8>> {
    match o {
        Some(id) => Some(id.bytes@),
        None => None,
    }
}

impl View for WmtpSession {
    type V = SessionView;

    open spec fn view(&self) -> SessionView {
        SessionView {
            token: self.token@,
            email: ostr(self.email),
            authenticated: self.authenticated,
            suspended: self.suspended,
            user_id: oid_bytes(self.user_id),
        }
    }
}

/// A fresh, unauthenticated session.
pub open spec fn ephemeral_view(token: Seq<char>) -> SessionView {
    SessionView { token, email: None, authenticated: false, suspended: false, user_id: None }
}

/// A fresh session authenticated as `email`.
pub open spec fn authenticated_view(token: Seq<char>, email: Seq<char>) -> SessionView {
    SessionView { token, email: Some(email), authenticated: true, suspended: false, user_id: None }
}

/// How a session is listed.
pub open spec fn summary_of(s: SessionView) -> SessionSummaryView {
    SessionSummaryView { session_token: s.token, auth: s.authenticated, email: s.email }
}

impl WmtpSession {
    pub fn new_ephemeral(token: String) -> (r: Self)
        ensures
            r@ == ephemeral_view(token@),
    {
        WmtpSession { token, email: None, authenticated: false, suspended: false, user_id: None }
    }

    pub fn new_authenticated(token: String, email: String) -> (r: Self)
        ensures
            r@ == authenticated_view(token@, email@),
    {
        WmtpSession { token, email: Some(email), authenticated: true, suspended: false, user_id: None }
    }

    /// A copy of the session.
    pub fn duplicate(&self) -> (r: Self)
        ensures
            r@ == self@,
    {
        WmtpSession {
            token: self.token.clone(),
            email: clone_opt(&self.email),
            authenticated: self.authenticated,
            suspended: self.suspended,
            user_id: self.user_id,
        }
    }
}

/// Whether some session in `s` has token `k`.
pub open spec fn has_token(s: Seq<SessionView>, k: Seq<char>) -> bool {
    exists|i: int| 0 <= i < s.len() && (#[trigger] s[i]).token == k
}

/// Whether the tokens in `s` are pairwise distinct.
pub open spec fn tokens_distinct(s: Seq<SessionView>) -> bool {
    forall|i: int, j: int| 0 <= i < s.len() && 0 <= j < s.len() && i != j ==> (#[trigger] s[i]).token != (#[trigger] s[j]).token
}

/// The session of `s` with token `k`.
pub open spec fn with_token(s: Seq<SessionView>, k: Seq<char>) -> SessionView {
    s[choose|i: int| 0 <= i < s.len() && (#[trigger] s[i]).token == k]
}

/// The sessions of `s`, keyed by token.
pub open spec fn keyed(s: Seq<SessionView>) -> Map<Seq<char>, SessionView> {
    Map::new(|k: Seq<char>| has_token(s, k), |k: Seq<char>| with_token(s, k))
}

/// The sessions of a server, keyed by token; no token occurs twice.
pub struct SessionStore {
    sessions: Vec<WmtpSession>,
}

impl SessionStore {
    /// The sessions in the order the store keeps them.
    pub closed spec fn entries(&self) -> Seq<SessionView> {
        self.sessions@.map_values(|s: WmtpSession| s@)
    }

    #[verifier::type_invariant]
    closed spec fn distinct(&self) -> bool {
        tokens_distinct(self.entries())
    }
}

impl View for SessionStore {
    type V = Map<Seq<char>, SessionView>;

    closed spec fn view(&self) -> Map<Seq<char>, SessionView> {
        keyed(self.entries())
    }
}

/// In a sequence with distinct tokens, the session found for a token is the one at its index.
proof fn lemma_with_token(s: Seq<SessionView>, j: int)
    requires
        tokens_distinct(s),
        0 <= j < s.len(),
    ensures
        has_token(s, s[j].token),
        with_token(s, s[j].token) == s[j],
{
    let k = s[j].token;
    assert(s[j].token == k);
    let i = choose|i: int| 0 <= i < s.len() && (#[trigger] s[i]).token == k;
    if i != j {
        assert(s[i].token != s[j].token);
    }
}

/// An empty store of sessions.
pub fn create_session_store() -> (r: SessionStore)
    ensures
        r@ == Map::<Seq<char>, SessionView>::empty(),
{
    let r = SessionStore { sessions: Vec::new() };
    assert(r.entries() =~= Seq::<SessionView>::empty());
    assert(r@ =~= Map::<Seq<char>, SessionView>::empty());
    r
}

impl SessionStore {
    /// The index of the session with token `k`, if there is one.
    fn index_of(&self, k: &str) -> (r: Option<usize>)
        ensures
            match r {
                Some(i) => i < self.entries().len() && self.entries()[i as int].token == k@,
                None => !has_token(self.entries(), k@),
            },
    {
        let mut i: usize = 0;
        while i < self.sessions.len()
            invariant
                i <= self.sessions.len(),
                forall|j: int| 0 <= j < i ==> self.entries()[j].token != k@,
            decreases self.sessions.len() - i,
        {
            if str_eq(self.sessions[i].token.as_str(), k) {
                return Some(i);
            }
            i += 1;
        }
        None
    }

    /// The session with token `k`.
    pub fn get(&self, k: &str) -> (r: Option<&WmtpSession>)
        ensures
            match r {
                Some(s) => self@.contains_key(k@) && self@[k@] == s@ && s@.token == k@,
                None => !self@.contains_key(k@),
            },
    {
        proof { use_type_invariant(self); }
        match self.index_of(k) {
            Some(i) => {
                proof { lemma_with_token(self.entries(), i as int); }
                Some(&self.sessions[i])
            },
            None => None,
        }
    }

    /// Stores `s` under its token, replacing any session with that token.
    pub fn insert(&mut self, s: WmtpSession)
        ensures
            final(self)@ == old(self)@.insert(s@.token, s@),
    {
        proof { use_type_invariant(&*self); }
        let ghost old_e = self.entries();
        let ghost v = s@;
        let idx = self.index_of(s.token.as_str());
        let mut sessions: Vec<WmtpSession> = Vec::new();
        std::mem::swap(&mut sessions, &mut self.sessions);
        match idx {
            Some(i) => {
                sessions.set(i, s);
            },
            None => {
                sessions.push(s);
            },
        }
        let ghost new_e = sessions@.map_values(|x: WmtpSession| x@);
        match idx {
            Some(i) => { assert(new_e =~= old_e.update(i as int, v)); },
            None => { assert(new_e =~= old_e.push(v)); },
        }
        assert(tokens_distinct(new_e)) by {
            assert forall|a: int, b: int| 0 <= a < new_e.len() && 0 <= b < new_e.len() && a != b implies (#[trigger] new_e[a]).token != (#[trigger] new_e[b]).token by {
                match idx {
                    Some(i) => {
                        if a != i && b != i { assert(new_e[a] == old_e[a] && new_e[b] == old_e[b]); }
                        else if a == i { assert(new_e[b] == old_e[b]); assert(old_e[i as int].token == v.token); }
                        else { assert(new_e[a] == old_e[a]); assert(old_e[i as int].token == v.token); }
                    },
                    None => {
                        if a < old_e.len() && b < old_e.len() { assert(new_e[a] == old_e[a] && new_e[b] == old_e[b]); }
                        else if a < old_e.len() { assert(new_e[a] == old_e[a]); assert(old_e[a].token != v.token); }
                        else { assert(new_e[b] == old_e[b]); assert(old_e[b].token != v.token); }
                    },
                }
            }
        }
        assert forall|k: Seq<char>| #![auto] keyed(new_e).contains_key(k) == keyed(old_e).insert(v.token, v).contains_key(k) by {
            if k != v.token && has_token(old_e, k) {
                let j = choose|j: int| 0 <= j < old_e.len() && (#[trigger] old_e[j]).token == k;
                assert(new_e[j] == old_e[j]);
            }
            if has_token(new_e, k) && k != v.token {
                let j = choose|j: int| 0 <= j < new_e.len() && (#[trigger] new_e[j]).token == k;
                assert(old_e[j] == new_e[j]);
            }
            if k == v.token {
                match idx {
                    Some(i) => { assert(new_e[i as int].token == k); },
                    None => { assert(new_e[old_e.len() as int].token == k); },
                }
            }
        }
        assert forall|k: Seq<char>| #![auto] keyed(new_e).contains_key(k) implies keyed(new_e)[k] == keyed(old_e).insert(v.token, v)[k] by {
            let j = choose|j: int| 0 <= j < new_e.len() && (#[trigger] new_e[j]).token == k;
            lemma_with_token(new_e, j);
            if k != v.token {
                assert(old_e[j] == new_e[j]);
                lemma_with_token(old_e, j);
            } else {
                match idx {
                    Some(i) => { assert(j == i); },
                    None => {
                        if j < old_e.len() { assert(old_e[j] == new_e[j]); }
                    },
                }
            }
        }
        self.sessions = sessions;
        assert(self@ =~= keyed(old_e).insert(v.token, v));
    }

    /// Removes the session with token `k`, returning it.
    pub fn remove(&mut self, k: &str) -> (r: Option<WmtpSession>)
        ensures
            final(self)@ == old(self)@.remove(k@),
            match r {
                Some(s) => old(self)@.contains_key(k@) && old(self)@[k@] == s@,
                None => !old(self)@.contains_key(k@),
            },
    {
        proof { use_type_invariant(&*self); }
        let ghost old_e = self.entries();
        match self.index_of(k) {
            None => {
                assert(self@ =~= keyed(old_e).remove(k@));
                None
            },
            Some(i) => {
                proof { lemma_with_token(old_e, i as int); }
                let mut sessions: Vec<WmtpSession> = Vec::new();
        std::mem::swap(&mut sessions, &mut self.sessions);
                let removed = sessions.remove(i);
                let ghost new_e = sessions@.map_values(|x: WmtpSession| x@);
                assert(new_e =~= old_e.remove(i as int));
                assert(tokens_distinct(new_e));
                assert forall|key: Seq<char>| #![auto] keyed(new_e).contains_key(key) == keyed(old_e).remove(k@).contains_key(key) by {
                    if has_token(new_e, key) {
                        let j = choose|j: int| 0 <= j < new_e.len() && (#[trigger] new_e[j]).token == key;
                        if j < i { assert(old_e[j] == new_e[j]); } else { assert(old_e[j + 1] == new_e[j]); }
                    }
                    if key != k@ && has_token(old_e, key) {
                        let j = choose|j: int| 0 <= j < old_e.len() && (#[trigger] old_e[j]).token == key;
                        if j < i { assert(new_e[j] == old_e[j]); } else { assert(new_e[j - 1] == old_e[j]); }
                    }
                }
                assert forall|key: Seq<char>| #![auto] keyed(new_e).contains_key(key) implies keyed(new_e)[key] == keyed(old_e).remove(k@)[key] by {
                    let j = choose|j: int| 0 <= j < new_e.len() && (#[trigger] new_e[j]).token == key;
                    lemma_with_token(new_e, j);
                    if j < i {
                        assert(old_e[j] == new_e[j]);
                        lemma_with_token(old_e, j);
                    } else {
                        assert(old_e[j + 1] == new_e[j]);
                        lemma_with_token(old_e, j + 1);
                    }
                }
                self.sessions = sessions;
                assert(self@ =~= keyed(old_e).remove(k@));
                Some(removed)
            },
        }
    }

    /// Every session of the store, summarized, each once, in the order the store keeps them.
    pub fn summaries(&self) -> (r: Vec<SessionSummary>)
        ensures
            r@.len() == self@.len(),
            forall|i: int| 0 <= i < r@.len() ==> self@.contains_key((#[trigger] r@[i])@.session_token),
            forall|i: int| 0 <= i < r@.len() ==> (#[trigger] r@[i])@ == summary_of(self@[r@[i]@.session_token]),
            forall|k: Seq<char>| #[trigger] self@.contains_key(k) ==> exists|i: int| 0 <= i < r@.len() && (#[trigger] r@[i])@.session_token == k,
            forall|i: int, j: int| 0 <= i < r@.len() && 0 <= j < r@.len() && i != j ==> (#[trigger] r@[i])@.session_token != (#[trigger] r@[j])@.session_token,
    {
        proof { use_type_invariant(self); }
        let ghost e = self.entries();
        let mut out: Vec<SessionSummary> = Vec::new();
        let mut i: usize = 0;
        while i < self.sessions.len()
            invariant
                i <= self.sessions.len(),
                e == self.entries(),
                out@.len() == i,
                forall|j: int| 0 <= j < i ==> (#[trigger] out@[j])@ == summary_of(e[j]),
            decreases self.sessions.len() - i,
        {
            let s = &self.sessions[i];
            out.push(SessionSummary { session_token: s.token.clone(), auth: s.authenticated, email: clone_opt(&s.email) });
            i += 1;
        }
        proof {
            assert forall|j: int| 0 <= j < out@.len() implies self@.contains_key((#[trigger] out@[j])@.session_token)
                && out@[j]@ == summary_of(self@[out@[j]@.session_token]) by {
                lemma_with_token(e, j);
            }
            assert forall|k: Seq<char>| #[trigger] self@.contains_key(k) implies exists|i: int| 0 <= i < out@.len() && (#[trigger] out@[i])@.session_token == k by {
                let j = choose|j: int| 0 <= j < e.len() && (#[trigger] e[j]).token == k;
                assert(out@[j]@.session_token == k);
            }
            lemma_distinct_len(e);
        }
        out
    }
}

/// A sequence with distinct tokens has as many keys as entries.
proof fn lemma_distinct_len(s: Seq<SessionView>)
    requires
        tokens_distinct(s),
    ensures
        keyed(s).len() == s.len(),
    decreases s.len(),
{
    if s.len() == 0 {
        assert(keyed(s).dom() =~= Set::<Seq<char>>::empty());
    } else {
        let t = s.drop_last();
        assert(tokens_distinct(t));
        lemma_distinct_len(t);
        let last = s[s.len() - 1];
        assert(keyed(s).dom() =~= keyed(t).dom().insert(last.token)) by {
            assert forall|k: Seq<char>| keyed(s).dom().contains(k) implies keyed(t).dom().insert(last.token).contains(k) by {
                let j = choose|j: int| 0 <= j < s.len() && (#[trigger] s[j]).token == k;
                if j < s.len() - 1 { assert(t[j] == s[j]); }
            }
            assert forall|k: Seq<char>| keyed(t).dom().insert(last.token).contains(k) implies keyed(s).dom().contains(k) by {
                if k == last.token {
                    assert(s[s.len() - 1].token == k);
                } else {
                    let j = choose|j: int| 0 <= j < t.len() && (#[trigger] t[j]).token == k;
                    assert(s[j] == t[j]);
                }
            }
        }
        assert(!keyed(t).dom().contains(last.token)) by {
            if keyed(t).dom().contains(last.token) {
                let j = choose|j: int| 0 <= j < t.len() && (#[trigger] t[j]).token == last.token;
                assert(s[j] == t[j]);
                assert(s[j].token == s[s.len() - 1].token);
            }
        }
        lemma_keyed_finite(t);
    }
}

/// The keys of a sequence of sessions form a finite set.
proof fn lemma_keyed_finite(s: Seq<SessionView>)
    ensures
        keyed(s).dom().finite(),
    decreases s.len(),
{
    if s.len() == 0 {
        assert(keyed(s).dom() =~= Set::<Seq<char>>::empty());
    } else {
        let t = s.drop_last();
        lemma_keyed_finite(t);
        let last = s[s.len() - 1];
        assert(keyed(s).dom() =~= keyed(t).dom().insert(last.token)) by {
            assert forall|k: Seq<char>| keyed(s).dom().contains(k) implies keyed(t).dom().insert(last.token).contains(k) by {
                let j = choose|j: int| 0 <= j < s.len() && (#[trigger] s[j]).token == k;
                if j < s.len() - 1 { assert(t[j] == s[j]); }
            }
            assert forall|k: Seq<char>| keyed(t).dom().insert(last.token).contains(k) implies keyed(s).dom().contains(k) by {
                if k == last.token {
                    assert(s[s.len() - 1].token == k);
                } else {
                    let j = choose|j: int| 0 <= j < t.len() && (#[trigger] t[j]).token == k;
                    assert(s[j] == t[j]);
                }
            }
        }
    }
}

} // verus!
