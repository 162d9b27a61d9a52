//! The session coordinator: the single authority over the map of live
//! sessions. It enforces one live session per user (evicting the prior one),
//! assigns fresh session ids, accounts a connection's duration exactly once
//! when it ends, and validates that a data fetch comes from a live session.
//!
//! The coordinator is a plain state machine: the caller owns the message
//! loop, delivers one request at a time, and performs the sends and store
//! calls that the returned values ask for. That keeps every operation atomic
//! with respect to the others.

use vstd::prelude::*;
use vstd::set_lib::set_int_range;
use vstd::set_lib::lemma_int_range;
use vstd::set_lib::lemma_len_subset;

use crate::models;
use crate::pb;

verus! {

/// Close code of an eviction notice: the policy-violation code of the
/// transport's close frame.
pub const CLOSE_CODE_POLICY: u16 = 1008;

/// A close instruction pushed to a handler: a machine code and an optional
/// human-readable description.
pub struct CloseReason {
    pub code: u16,
    pub description: Option<String>,
}

/// A message the coordinator pushes to a connection handler.
pub enum ServerMessage {
    Close(Option<CloseReason>),
}

/// A registration request: a freshly authenticated connection asks for a
/// session. `addr` is the opaque handle of the handler's reply channel; the
/// coordinator owns it for the session's lifetime.
pub struct Connect {
    pub ws_session_id: u64,
    pub user_id: String,
    pub addr: u64,
}

/// A disconnect report: the handler passes back the connect-time stamp it
/// captured, so the coordinator can account the connection's duration.
pub struct Disconnect {
    pub id: u64,
    pub start_at: i64,
}

/// A data request made on behalf of a live session.
pub struct GetArticleDetail {
    pub article_id: String,
    pub session_id: u64,
    pub user_id: String,
}

/// One live session: its id, its owning user, and the reply-channel handle.
pub struct Session {
    pub id: u64,
    pub user_id: String,
    pub addr: u64,
}

/// A push the caller must deliver to one handler's reply channel.
pub struct Notice {
    pub addr: u64,
    pub message: ServerMessage,
}

/// Why a fetch on behalf of a session failed.
#[derive(Debug)]
pub enum FetchError {
    /// The session id is not live: evicted, closed, or never issued.
    InvalidSession,
    /// The data source has no record under the requested id.
    NotFound,
    /// The data source failed to resolve the request.
    DataSourceUnavailable,
}

/// What the data source returned for an article request: the record with its
/// hierarchy and the requesting user's progress rows, or a failure.
pub enum SourceOutcome {
    Found {
        article: models::Article,
        content: String,
        section: models::Section,
        course: models::Course,
        progress: Option<Vec<models::UserStudyInfo>>,
    },
    NotFound,
    Unavailable,
}

/// Whether some live session carries this id.
pub open spec fn contains_id(s: Seq<Session>, id: u64) -> bool {
    exists|i: int| 0 <= i < s.len() && s[i].id == id
}

/// Whether some live session belongs to this user.
pub open spec fn contains_user(s: Seq<Session>, u: Seq<char>) -> bool {
    exists|i: int| 0 <= i < s.len() && s[i].user_id@ == u
}

/// The predicate a registration filters the map with: keep every session
/// that does not belong to the registering user.
pub open spec fn keeps_user(u: Seq<char>) -> spec_fn(Session) -> bool {
    |x: Session| x.user_id@ != u
}

/// The predicate a disconnect filters the map with: keep every session whose
/// id differs from the disconnected one.
pub open spec fn keeps_id(id: u64) -> spec_fn(Session) -> bool {
    |x: Session| x.id != id
}

/// The map after every session of `u` is evicted.
pub open spec fn evict_user(s: Seq<Session>, u: Seq<char>) -> Seq<Session> {
    s.filter(keeps_user(u))
}

/// The map after a registration: the new user's prior sessions evicted, the
/// new session appended.
pub open spec fn connect_t(s: Seq<Session>, ns: Session) -> Seq<Session> {
    evict_user(s, ns.user_id@).push(ns)
}

/// The map after a disconnect: the session of that id removed, if present.
pub open spec fn disconnect_t(s: Seq<Session>, id: u64) -> Seq<Session> {
    s.filter(keeps_id(id))
}

/// What an eviction notice for session `target` must be: addressed to that
/// session's reply channel, a close instruction with the policy code and the
/// fixed human-readable reason.
pub open spec fn is_eviction_notice(n: Notice, target: Session) -> bool {
    &&& n.addr == target.addr
    &&& match n.message {
        ServerMessage::Close(r) => {
            &&& r matches Some(cr)
            &&& cr.code == CLOSE_CODE_POLICY
            &&& cr.description matches Some(d) && d@ == "you have logged in elsewhere"@
        },
    }
}

/// The coordinator. Its one piece of state is the map of live sessions,
/// held as a sequence in registration order.
pub struct WsServer {
    pub sessions: Vec<Session>,
}

/// Well-formedness of the session map: session ids are pairwise distinct
/// (an id is never reused while live) and users are pairwise distinct (at
/// most one live session per user).
pub open spec fn wf_sessions(s: Seq<Session>) -> bool {
    forall|i: int, j: int| 0 <= i < j < s.len() ==> ((#[trigger] s[i]).id != (#[trigger] s[j]).id
        && s[i].user_id@ != s[j].user_id@)
}

impl View for WsServer {
    type V = Seq<Session>;

    open spec fn view(&self) -> Seq<Session> {
        self.sessions@
    }
}

/// Relies on rand::random (rand crate): one draw from the thread-local
/// generator. Nothing is promised of the value: freshness of session ids is
/// enforced by the caller's own check, never assumed of the generator.
#[verifier::external_body]
fn random_u64() -> u64 {
    rand::random::<u64>()
}

/// Relies on chrono::Utc::now and DateTime::timestamp: the current wall
/// clock as whole seconds since the epoch. Nothing is promised of the value;
/// callers state what holds whatever the clock read.
#[verifier::external_body]
fn now_timestamp() -> i64 {
    chrono::Utc::now().timestamp()
}

/// If the ids of `s` are pairwise distinct and every id in `0 .. s.len()`
/// is taken, then `s.len()` itself is free: `s` has only `s.len()` ids.
proof fn lemma_next_id_free(s: Seq<Session>)
    requires
        wf_sessions(s),
        s.len() <= u64::MAX,
        forall|k: int| 0 <= k < s.len() ==> #[trigger] contains_id(s, k as u64),
    ensures
        !contains_id(s, s.len() as u64),
{
    let ids = Seq::new(s.len(), |i: int| s[i].id as int);
    assert(ids.no_duplicates()) by {
        assert forall|i: int, j: int| 0 <= i < j < ids.len() implies ids[i] != ids[j] by {
            assert(s[i].id != s[j].id);
        }
    }
    ids.unique_seq_to_set();
    let taken = ids.to_set();
    vstd::seq_lib::seq_to_set_is_finite(ids);
    let n = s.len() as int;
    assert(set_int_range(0, n + 1).subset_of(taken) ==> false) by {
        if set_int_range(0, n + 1).subset_of(taken) {
            lemma_int_range(0, n + 1);
            lemma_len_subset(set_int_range(0, n + 1), taken);
        }
    }
    if contains_id(s, s.len() as u64) {
        assert forall|k: int| 0 <= k < n + 1 implies taken.contains(k) by {
            let id: u64 = if k < n { k as u64 } else { s.len() as u64 };
            assert(contains_id(s, id));
            let i = choose|i: int| 0 <= i < s.len() && s[i].id == id;
            assert(ids[i] == k);
            assert(taken.contains(ids[i]));
        }
        assert(set_int_range(0, n + 1).subset_of(taken));
    }
}

/// Appending one session to a prefix commutes with eviction: the session is
/// kept exactly when it does not belong to the evicted user.
proof fn lemma_evict_extend(s: Seq<Session>, k: int, u: Seq<char>)
    requires
        0 <= k < s.len(),
    ensures
        evict_user(s.subrange(0, k + 1), u) == if s[k].user_id@ != u {
            evict_user(s.subrange(0, k), u).push(s[k])
        } else {
            evict_user(s.subrange(0, k), u)
        },
{
    reveal(Seq::filter);
    assert(s.subrange(0, k + 1).drop_last() =~= s.subrange(0, k));
    assert(s.subrange(0, k + 1).last() == s[k]);
}

/// Appending one session to a prefix commutes with removal by id: the
/// session is kept exactly when its id differs.
proof fn lemma_disconnect_extend(s: Seq<Session>, k: int, id: u64)
    requires
        0 <= k < s.len(),
    ensures
        disconnect_t(s.subrange(0, k + 1), id) == if s[k].id != id {
            disconnect_t(s.subrange(0, k), id).push(s[k])
        } else {
            disconnect_t(s.subrange(0, k), id)
        },
{
    reveal(Seq::filter);
    assert(s.subrange(0, k + 1).drop_last() =~= s.subrange(0, k));
    assert(s.subrange(0, k + 1).last() == s[k]);
}

impl WsServer {
    /// Whether the coordinator's state is well formed; established at
    /// construction and preserved by every operation.
    pub open spec fn wf(&self) -> bool {
        wf_sessions(self@)
    }

    /// A coordinator with no live sessions.
    pub fn new() -> (r: WsServer)
        ensures
            r.wf(),
            r@.len() == 0,
    {
        WsServer { sessions: Vec::new() }
    }

    /// Whether `id` is a live session id.
    pub fn session_live(&self, id: u64) -> (r: bool)
        ensures
            r == contains_id(self@, id),
    {
        let mut i: usize = 0;
        while i < self.sessions.len()
            invariant
                0 <= i <= self.sessions.len(),
                forall|k: int| 0 <= k < i ==> self@[k].id != id,
            decreases self.sessions.len() - i,
        {
            if self.sessions[i].id == id {
                return true;
            }
            i = i + 1;
        }
        false
    }

    /// A session id not carried by any live session. The id is drawn from
    /// the random generator; in the (negligible) event that the draw
    /// collides with a live id, the smallest free small id is taken instead,
    /// so freshness holds unconditionally.
    fn fresh_id(&self) -> (r: u64)
        requires
            self.wf(),
        ensures
            !contains_id(self@, r),
    {
        let r = random_u64();
        if !self.session_live(r) {
            return r;
        }
        let n = self.sessions.len();
        let mut c: usize = 0;
        while c < n
            invariant
                0 <= c <= n,
                n == self@.len(),
                self.wf(),
                forall|k: int| 0 <= k < c ==> #[trigger] contains_id(self@, k as u64),
            decreases n - c,
        {
            if !self.session_live(c as u64) {
                return c as u64;
            }
            c = c + 1;
        }
        proof {
            assert(self@.len() <= u64::MAX);
            lemma_next_id_free(self@);
        }
        n as u64
    }

    /// Register a freshly authenticated connection. Every live session of
    /// the same user — at most one, by well-formedness — is evicted: removed
    /// from the map, with one close notice for the caller to deliver to the
    /// evicted handler's reply channel. A fresh session id, distinct from
    /// every id live at the start of the call (the evicted one included), is
    /// assigned to the new session and returned; the insert happens whether
    /// or not the caller manages to deliver the returned id.
    pub fn handle_connect(&mut self, msg: Connect) -> (r: (u64, Vec<Notice>))
        requires
            old(self).wf(),
        ensures
            final(self).wf(),
            !contains_id(old(self)@, r.0),
            final(self)@ == connect_t(old(self)@, (Session { id: r.0, user_id: msg.user_id, addr: msg.addr })),
            r.1@.len() <= 1,
            (r.1@.len() == 1) == contains_user(old(self)@, msg.user_id@),
            r.1@.len() == 1 ==> exists|i: int| 0 <= i < old(self)@.len()
                && (#[trigger] old(self)@[i]).user_id@ == msg.user_id@
                && is_eviction_notice(r.1@[0], old(self)@[i]),
    {
        let nid = self.fresh_id();
        let ghost orig = self@;
        let ghost u = msg.user_id@;
        let mut kept: Vec<Session> = Vec::new();
        let mut notices: Vec<Notice> = Vec::new();
        let ghost mut k: int = 0;
        while self.sessions.len() > 0
            invariant
                u == msg.user_id@,
                wf_sessions(orig),
                0 <= k <= orig.len(),
                k == orig.len() - self.sessions@.len(),
                self.sessions@ =~= orig.subrange(k, orig.len() as int),
                kept@ == evict_user(orig.subrange(0, k), u),
                wf_sessions(kept@),
                forall|j: int| 0 <= j < kept@.len() ==> (#[trigger] kept@[j]).user_id@ != u,
                forall|j: int| 0 <= j < kept@.len() ==> exists|i: int| 0 <= i < k
                    && orig[i] == #[trigger] kept@[j],
                notices@.len() <= 1,
                (notices@.len() == 1) == contains_user(orig.subrange(0, k), u),
                notices@.len() == 1 ==> exists|i: int| 0 <= i < k
                    && (#[trigger] orig[i]).user_id@ == u
                    && is_eviction_notice(notices@[0], orig[i]),
            decreases self.sessions.len(),
        {
            let ghost pre = self.sessions@;
            let s = self.sessions.remove(0);
            proof {
                assert(pre[0] == orig[k]);
                assert(self.sessions@ =~= orig.subrange(k + 1, orig.len() as int));
                lemma_evict_extend(orig, k, u);
                assert(orig.subrange(0, k + 1).drop_last() =~= orig.subrange(0, k));
            }
            let should_disconnect = s.user_id.eq(&msg.user_id);
            proof {
                assert(s == orig[k]);
                assert(should_disconnect == (s.user_id@ == u));
            }
            if should_disconnect {
                let reason = CloseReason {
                    code: CLOSE_CODE_POLICY,
                    description: Some(String::from_str("you have logged in elsewhere")),
                };
                let notice = Notice { addr: s.addr, message: ServerMessage::Close(Some(reason)) };
                proof {
                    if notices@.len() == 1 {
                        let i0 = choose|i: int| 0 <= i < k && (#[trigger] orig[i]).user_id@ == u
                            && is_eviction_notice(notices@[0], orig[i]);
                        assert(orig[i0].user_id@ == orig[k].user_id@);
                        assert(false);
                    }
                    assert(contains_user(orig.subrange(0, k + 1), u)) by {
                        assert(orig.subrange(0, k + 1)[k] == orig[k]);
                    }
                }
                notices.push(notice);
            } else {
                proof {
                    assert forall|j: int| 0 <= j < kept@.len() implies (#[trigger] kept@[j]).id
                        != s.id && kept@[j].user_id@ != s.user_id@ by {
                        let i = choose|i: int| 0 <= i < k && orig[i] == kept@[j];
                        assert(orig[i].id != orig[k].id && orig[i].user_id@ != orig[k].user_id@);
                    }
                    assert forall|i: int| 0 <= i < k + 1 implies orig.subrange(0, k + 1)[i]
                        == orig[i] by {}
                    if contains_user(orig.subrange(0, k + 1), u)
                        && !contains_user(orig.subrange(0, k), u) {
                        let i0 = choose|i: int| 0 <= i < k + 1
                            && #[trigger] orig.subrange(0, k + 1)[i].user_id@ == u;
                        assert(orig.subrange(0, k)[i0] == orig[i0]) by {
                            assert(i0 == k || contains_user(orig.subrange(0, k), u));
                        }
                        assert(false);
                    }
                }
                kept.push(s);
            }
            proof {
                k = k + 1;
            }
        }
        proof {
            assert(orig.subrange(0, k) =~= orig);
        }
        self.sessions = kept;
        let ns = Session { id: nid, user_id: msg.user_id, addr: msg.addr };
        proof {
            assert forall|j: int| 0 <= j < self.sessions@.len() implies (#[trigger] self
                .sessions@[j]).id != nid by {
                let i = choose|i: int| 0 <= i < orig.len() && orig[i] == self.sessions@[j];
                assert(contains_id(orig, orig[i].id));
            }
        }
        self.sessions.push(ns);
        (nid, notices)
    }

    /// Remove the session of `id`, if present, and hand back the one
    /// duration-accounting row the caller must persist (best effort): the
    /// session's user, the connect-time stamp passed back by the handler,
    /// and `now` as the end. Removing an id that is not live changes nothing
    /// and yields no row, so a repeated disconnect is a no-op.
    pub fn handle_disconnect(&mut self, msg: Disconnect, now: i64) -> (r: Option<
        models::WsConnectInfo,
    >)
        requires
            old(self).wf(),
        ensures
            final(self).wf(),
            final(self)@ == disconnect_t(old(self)@, msg.id),
            (r is Some) == contains_id(old(self)@, msg.id),
            r matches Some(e) ==> e.id == 0 && e.start_at == msg.start_at && e.end_at == now
                && exists|i: int| 0 <= i < old(self)@.len()
                    && (#[trigger] old(self)@[i]).id == msg.id
                    && e.user_id == old(self)@[i].user_id,
    {
        let ghost orig = self@;
        let mut kept: Vec<Session> = Vec::new();
        let mut removed: Option<Session> = None;
        let ghost mut k: int = 0;
        while self.sessions.len() > 0
            invariant
                wf_sessions(orig),
                0 <= k <= orig.len(),
                k == orig.len() - self.sessions@.len(),
                self.sessions@ =~= orig.subrange(k, orig.len() as int),
                kept@ == disconnect_t(orig.subrange(0, k), msg.id),
                wf_sessions(kept@),
                forall|j: int| 0 <= j < kept@.len() ==> exists|i: int| 0 <= i < k
                    && orig[i] == #[trigger] kept@[j],
                (removed is Some) == contains_id(orig.subrange(0, k), msg.id),
                removed matches Some(s) ==> exists|i: int| 0 <= i < k
                    && (#[trigger] orig[i]).id == msg.id && s == orig[i],
            decreases self.sessions.len(),
        {
            let ghost pre = self.sessions@;
            let s = self.sessions.remove(0);
            proof {
                assert(pre[0] == orig[k]);
                assert(self.sessions@ =~= orig.subrange(k + 1, orig.len() as int));
                lemma_disconnect_extend(orig, k, msg.id);
            }
            if s.id == msg.id {
                proof {
                    assert(contains_id(orig.subrange(0, k + 1), msg.id)) by {
                        assert(orig.subrange(0, k + 1)[k] == orig[k]);
                    }
                }
                removed = Some(s);
            } else {
                proof {
                    assert forall|j: int| 0 <= j < kept@.len() implies (#[trigger] kept@[j]).id
                        != s.id && kept@[j].user_id@ != s.user_id@ by {
                        let i = choose|i: int| 0 <= i < k && orig[i] == kept@[j];
                        assert(orig[i].id != orig[k].id && orig[i].user_id@ != orig[k].user_id@);
                    }
                    if contains_id(orig.subrange(0, k + 1), msg.id)
                        && !contains_id(orig.subrange(0, k), msg.id) {
                        let i0 = choose|i: int| 0 <= i < k + 1
                            && #[trigger] orig.subrange(0, k + 1)[i].id == msg.id;
                        assert(i0 == k);
                        assert(false);
                    }
                }
                kept.push(s);
            }
            proof {
                k = k + 1;
            }
        }
        proof {
            assert(orig.subrange(0, k) =~= orig);
        }
        self.sessions = kept;
        match removed {
            Some(s) => Some(
                models::WsConnectInfo {
                    id: 0,
                    user_id: s.user_id,
                    start_at: msg.start_at,
                    end_at: now,
                },
            ),
            None => None,
        }
    }

    /// As `handle_disconnect`, with the end of the connection read from the
    /// wall clock. Nothing is promised of the clock value itself; everything
    /// else of `handle_disconnect`'s contract holds.
    pub fn handle_disconnect_now(&mut self, msg: Disconnect) -> (r: Option<models::WsConnectInfo>)
        requires
            old(self).wf(),
        ensures
            final(self).wf(),
            final(self)@ == disconnect_t(old(self)@, msg.id),
            (r is Some) == contains_id(old(self)@, msg.id),
            r matches Some(e) ==> e.id == 0 && e.start_at == msg.start_at
                && exists|i: int| 0 <= i < old(self)@.len()
                    && (#[trigger] old(self)@[i]).id == msg.id
                    && e.user_id == old(self)@[i].user_id,
    {
        let now = now_timestamp();
        self.handle_disconnect(msg, now)
    }

    /// Service a data request made on behalf of a session. A request under
    /// an id that is not live — evicted, closed, or never issued — fails
    /// with `InvalidSession`, whatever the data source said: eviction is
    /// effective immediately. Under a live id, the outcome the data source
    /// returned decides: a found record is assembled into the full article
    /// detail, a missing record or a source failure becomes the matching
    /// error. Nothing else is read or changed; no other session is touched.
    pub fn handle_get_article_detail(&self, msg: &GetArticleDetail, outcome: SourceOutcome) -> (r:
        Result<pb::Article, FetchError>)
        ensures
            (r matches Err(e) && e is InvalidSession) <==> !contains_id(self@, msg.session_id),
            contains_id(self@, msg.session_id) ==> match outcome {
                SourceOutcome::Found { article, content, section, course, progress } => r matches
                    Ok(a) && is_article_detail(a, article, content, section, course, progress),
                SourceOutcome::NotFound => r matches Err(e) && e is NotFound,
                SourceOutcome::Unavailable => r matches Err(e) && e is DataSourceUnavailable,
            },
    {
        if !self.session_live(msg.session_id) {
            return Err(FetchError::InvalidSession);
        }
        match outcome {
            SourceOutcome::Found { article, content, section, course, progress } => {
                let mut res = pb::Article::from(article);
                res.content = content;
                res.section = Some(pb::Section::from(section));
                res.course = Some(pb::Course::from(course));
                res.study_info = match &progress {
                    Some(v) => {
                        if v.len() > 0 {
                            Some(
                                pb::StudyInfo {
                                    percent: v[0].study_percent,
                                    last_study_at: #[verifier::truncate] (v[0].last_study_at
                                        as u64),
                                },
                            )
                        } else {
                            None
                        }
                    },
                    None => None,
                };
                Ok(res)
            },
            SourceOutcome::NotFound => Err(FetchError::NotFound),
            SourceOutcome::Unavailable => Err(FetchError::DataSourceUnavailable),
        }
    }
}

/// The study-progress attachment of an article detail: the first row the
/// source returned, if the lookup succeeded and returned any; a failed or
/// empty lookup attaches nothing and is not an error.
pub open spec fn study_attachment(progress: Option<Vec<models::UserStudyInfo>>) -> Option<
    pb::StudyInfo,
> {
    match progress {
        Some(v) => if v@.len() > 0 {
            Some(
                (pb::StudyInfo {
                    percent: v@[0].study_percent,
                    last_study_at: v@[0].last_study_at as u64,
                }),
            )
        } else {
            None
        },
        None => None,
    }
}

/// The assembled article detail: the article row with its content, its
/// owning section and course (bare, nothing nested further), and the
/// requesting user's progress attachment.
pub open spec fn is_article_detail(
    a: pb::Article,
    article: models::Article,
    content: String,
    section: models::Section,
    course: models::Course,
    progress: Option<Vec<models::UserStudyInfo>>,
) -> bool {
    &&& pb::matches_article_row(a, article)
    &&& a.content == content
    &&& a.section matches Some(s) && pb::matches_section_row(s, section) && s.articles@.len() == 0
    &&& a.course matches Some(c) && pb::matches_course_row(c, course) && c.sections@.len() == 0
        && c.description@.len() == 0 && c.study_info is None
    &&& a.study_info == study_attachment(progress)
}

/// Every element a filter keeps was an element of the sequence it filtered.
proof fn lemma_filter_elems_from(s: Seq<Session>, pred: spec_fn(Session) -> bool)
    ensures
        forall|m: int| 0 <= m < s.filter(pred).len() ==> s.contains(#[trigger] s.filter(pred)[m]),
    decreases s.len(),
{
    reveal(Seq::filter);
    if s.len() > 0 {
        let d = s.drop_last();
        lemma_filter_elems_from(d, pred);
        assert forall|m: int| 0 <= m < s.filter(pred).len() implies s.contains(
            #[trigger] s.filter(pred)[m],
        ) by {
            if m < d.filter(pred).len() {
                assert(d.contains(d.filter(pred)[m]));
                let i = choose|i: int| 0 <= i < d.len() && d[i] == d.filter(pred)[m];
                assert(s[i] == s.filter(pred)[m]);
            } else {
                assert(s.filter(pred)[m] == s.last());
                assert(s[s.len() - 1] == s.last());
            }
        }
    }
}

/// A filter that keeps every element changes nothing.
proof fn lemma_filter_all_kept(s: Seq<Session>, pred: spec_fn(Session) -> bool)
    requires
        forall|i: int| 0 <= i < s.len() ==> pred(#[trigger] s[i]),
    ensures
        s.filter(pred) == s,
    decreases s.len(),
{
    reveal(Seq::filter);
    if s.len() == 0 {
        assert(s.filter(pred) =~= s);
    } else {
        let d = s.drop_last();
        lemma_filter_all_kept(d, pred);
        assert(pred(s.last())) by {
            assert(s[s.len() - 1] == s.last());
        }
        assert(s.filter(pred) =~= s);
    }
}

/// One user, one session: in a well-formed map — and every map this
/// coordinator produces is well-formed — two live sessions of the same user
/// are the same session.
pub proof fn lemma_single_session_per_user(s: Seq<Session>, u: Seq<char>, i: int, j: int)
    requires
        wf_sessions(s),
        0 <= i < s.len(),
        0 <= j < s.len(),
        s[i].user_id@ == u,
        s[j].user_id@ == u,
    ensures
        i == j,
{
}

/// Eviction preserves the session-map invariant: filtering a well-formed
/// map leaves its sessions pairwise distinct in id and user.
proof fn lemma_evict_preserves_wf(s: Seq<Session>, u: Seq<char>)
    requires
        wf_sessions(s),
    ensures
        wf_sessions(evict_user(s, u)),
    decreases s.len(),
{
    reveal(Seq::filter);
    if s.len() == 0 {
        assert(evict_user(s, u) =~= s);
    } else {
        let d = s.drop_last();
        assert(wf_sessions(d)) by {
            assert forall|i: int, j: int| 0 <= i < j < d.len() implies ((#[trigger] d[i]).id != (
            #[trigger] d[j]).id && d[i].user_id@ != d[j].user_id@) by {
                assert(d[i] == s[i] && d[j] == s[j]);
            }
        }
        lemma_evict_preserves_wf(d, u);
        let kept = evict_user(d, u);
        if keeps_user(u)(s.last()) {
            assert(evict_user(s, u) == kept.push(s.last()));
            lemma_filter_elems_from(d, keeps_user(u));
            assert forall|m: int| 0 <= m < kept.len() implies (#[trigger] kept[m]).id
                != s.last().id && kept[m].user_id@ != s.last().user_id@ by {
                assert(d.contains(kept[m]));
                let i = choose|i: int| 0 <= i < d.len() && d[i] == kept[m];
                assert(s[i] == d[i] && s[s.len() - 1] == s.last());
                assert(s[i].id != s[s.len() - 1].id && s[i].user_id@ != s[s.len() - 1].user_id@);
            }
            assert forall|i: int, j: int| 0 <= i < j < kept.push(s.last()).len() implies ((
            #[trigger] kept.push(s.last())[i]).id != (#[trigger] kept.push(s.last())[j]).id
                && kept.push(s.last())[i].user_id@ != kept.push(s.last())[j].user_id@) by {
                if j < kept.len() {
                    assert(kept.push(s.last())[i] == kept[i] && kept.push(s.last())[j] == kept[j]);
                } else {
                    assert(kept.push(s.last())[i] == kept[i] && kept.push(s.last())[j] == s.last());
                }
            }
        } else {
            assert(evict_user(s, u) == kept);
        }
    }
}

/// Registration preserves the session-map invariant: from a well-formed map,
/// evicting the registering user and inserting the new session under an id
/// fresh for the whole old map yields a well-formed map again. Chained over
/// any number of successive registrations, this keeps every pair of
/// simultaneously live sessions distinct in id and in user, however long the
/// sequence runs.
pub proof fn lemma_register_preserves_wf(s: Seq<Session>, ns: Session)
    requires
        wf_sessions(s),
        !contains_id(s, ns.id),
    ensures
        wf_sessions(connect_t(s, ns)),
{
    let u = ns.user_id@;
    lemma_evict_preserves_wf(s, u);
    let kept = evict_user(s, u);
    lemma_filter_elems_from(s, keeps_user(u));
    assert forall|m: int| 0 <= m < kept.len() implies (#[trigger] kept[m]).id != ns.id
        && kept[m].user_id@ != u by {
        assert(s.contains(kept[m]));
        let i = choose|i: int| 0 <= i < s.len() && s[i] == kept[m];
        assert(contains_id(s, s[i].id));
        s.lemma_filter_pred(keeps_user(u), m);
        assert((keeps_user(u))(kept[m]));
    }
    let t = connect_t(s, ns);
    assert forall|i: int, j: int| 0 <= i < j < t.len() implies ((#[trigger] t[i]).id != (
    #[trigger] t[j]).id && t[i].user_id@ != t[j].user_id@) by {
        if j < kept.len() {
            assert(t[i] == kept[i] && t[j] == kept[j]);
        } else {
            assert(t[i] == kept[i] && t[j] == ns);
        }
    }
}

/// Live session ids never collide: in a well-formed map, two distinct live
/// sessions carry distinct ids.
pub proof fn lemma_live_ids_distinct(s: Seq<Session>, i: int, j: int)
    requires
        wf_sessions(s),
        0 <= i < s.len(),
        0 <= j < s.len(),
        i != j,
    ensures
        s[i].id != s[j].id,
{
}

/// A fetch is rejected the moment its session is evicted: when a new
/// session of the same user, under a fresh id, displaces a live session,
/// the displaced session's id is no longer in the map — so a fetch under it
/// fails with `InvalidSession`, by the fetch operation's contract.
pub proof fn lemma_fetch_rejected_after_eviction(s: Seq<Session>, old_id: u64, ns: Session)
    requires
        wf_sessions(s),
        !contains_id(s, ns.id),
        exists|i: int| 0 <= i < s.len() && (#[trigger] s[i]).id == old_id && s[i].user_id@
            == ns.user_id@,
    ensures
        !contains_id(connect_t(s, ns), old_id),
{
    let u = ns.user_id@;
    let iw = choose|i: int| 0 <= i < s.len() && (#[trigger] s[i]).id == old_id && s[i].user_id@
        == u;
    let kept = evict_user(s, u);
    let t = connect_t(s, ns);
    assert(ns.id != old_id) by {
        assert(contains_id(s, s[iw].id));
    }
    lemma_filter_elems_from(s, keeps_user(u));
    if contains_id(t, old_id) {
        let m = choose|m: int| 0 <= m < t.len() && t[m].id == old_id;
        assert(m < kept.len());
        assert((keeps_user(u))(kept[m]) && kept[m].user_id@ != u) by {
            s.lemma_filter_pred(keeps_user(u), m);
            assert(keeps_user(u)(kept[m]));
        }
        assert(s.contains(kept[m]));
        let i2 = choose|i: int| 0 <= i < s.len() && s[i] == kept[m];
        assert(s[i2].id == s[iw].id);
        assert(i2 == iw);
        assert(false);
    }
}

/// Unregistering is idempotent: removing an id leaves a map in which that
/// id is no longer live, and removing it again changes nothing — so a
/// second disconnect yields no second duration-accounting row, by the
/// disconnect operation's contract.
pub proof fn lemma_unregister_idempotent(s: Seq<Session>, id: u64)
    ensures
        !contains_id(disconnect_t(s, id), id),
        disconnect_t(disconnect_t(s, id), id) == disconnect_t(s, id),
{
    let pred = keeps_id(id);
    let once = disconnect_t(s, id);
    assert forall|i: int| 0 <= i < once.len() implies pred(#[trigger] once[i]) by {
        s.lemma_filter_pred(pred, i);
    }
    lemma_filter_all_kept(once, pred);
}

} // verus!
