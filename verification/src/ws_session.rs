//! The connection handler's state machine: one instance per live transport
//! connection. It watches liveness through periodic ping/pong, parses the
//! line-oriented text command protocol, and turns every inbound event into
//! the actions the transport loop must perform — send a frame, forward a
//! request to the coordinator, close, stop. The transport itself (socket,
//! timers, actor plumbing) stays outside; it feeds events in and carries the
//! returned actions out.

use vstd::prelude::*;

use crate::pb;
use crate::ws_server::CloseReason;
use crate::ws_server::Connect;
use crate::ws_server::Disconnect;
use crate::ws_server::FetchError;
use crate::ws_server::GetArticleDetail;
use crate::ws_server::ServerMessage;

verus! {

/// How often, in milliseconds, the liveness timer fires and a ping is sent.
pub const HEARTBEAT_INTERVAL_MS: u64 = 5000;

/// How long, in milliseconds, the peer may stay silent before the handler
/// closes the connection on its own, without consulting the coordinator.
pub const CLIENT_TIMEOUT_MS: u64 = 10000;

/// A transport-level read error or an unreadable frame: fatal for this
/// connection only.
pub struct TransportFault;

/// One inbound transport frame, as the handler sees it.
pub enum Frame {
    Ping(Vec<u8>),
    Pong(Vec<u8>),
    Text(String),
    Binary(Vec<u8>),
    Close(Option<CloseReason>),
    Continuation,
    Nop,
}

/// One thing the transport loop must do on the handler's behalf.
pub enum Action {
    /// Answer a ping with this payload.
    Pong(Vec<u8>),
    /// Send a liveness ping with this payload.
    Ping(Vec<u8>),
    /// Send one text line to the peer.
    ReplyText(String),
    /// Forward this data request to the coordinator and feed the answer
    /// back through `on_fetch_result`.
    FetchArticle(GetArticleDetail),
    /// Send this record to the peer, binary-encoded.
    ReplyArticle(pb::Article),
    /// Report this disconnect to the coordinator.
    NotifyDisconnect(Disconnect),
    /// Send a close frame with this reason.
    Close(Option<CloseReason>),
    /// Stop the handler; the transport is finished.
    Stop,
}

/// The handler's own state: its session id (assigned at registration), the
/// last instant the peer was seen alive, the owning user, and the
/// connect-time stamp it passes back at disconnect.
pub struct WsSession {
    pub id: u64,
    pub hb: u64,
    pub user_id: String,
    pub start_at: i64,
}

/// Whether a character counts as line whitespace for the command protocol.
pub open spec fn is_ws_char(c: char) -> bool {
    c == ' ' || c == '\t' || c == '\n' || c == '\r'
}

/// The sequence with its leading whitespace removed.
pub open spec fn ltrim(s: Seq<char>) -> Seq<char>
    decreases s.len(),
{
    if s.len() > 0 && is_ws_char(s[0]) {
        ltrim(s.drop_first())
    } else {
        s
    }
}

/// The sequence with its trailing whitespace removed.
pub open spec fn rtrim(s: Seq<char>) -> Seq<char>
    decreases s.len(),
{
    if s.len() > 0 && is_ws_char(s.last()) {
        rtrim(s.drop_last())
    } else {
        s
    }
}

/// The sequence with whitespace removed from both ends.
pub open spec fn trimmed(s: Seq<char>) -> Seq<char> {
    rtrim(ltrim(s))
}

/// Whether the line holds a space anywhere.
pub open spec fn has_space(s: Seq<char>) -> bool {
    exists|i: int| 0 <= i < s.len() && s[i] == ' '
}

/// Whether `k` is the first space of the line.
pub open spec fn space_at(s: Seq<char>, k: int) -> bool {
    &&& 0 <= k < s.len()
    &&& s[k] == ' '
    &&& forall|j: int| 0 <= j < k ==> s[j] != ' '
}

fn is_ws_exec(c: char) -> (r: bool)
    ensures
        r == is_ws_char(c),
{
    c == ' ' || c == '\t' || c == '\n' || c == '\r'
}

/// The line with whitespace removed from both ends.
fn trim_line(s: &str) -> (r: &str)
    ensures
        r@ == trimmed(s@),
{
    let n = s.unicode_len();
    proof {
        assert(s@.subrange(0, n as int) =~= s@);
    }
    let mut i: usize = 0;
    while i < n && is_ws_exec(s.get_char(i))
        invariant
            0 <= i <= n,
            n == s@.len(),
            ltrim(s@) == ltrim(s@.subrange(i as int, n as int)),
        decreases n - i,
    {
        proof {
            assert(s@.subrange(i as int, n as int).drop_first() =~= s@.subrange(
                i + 1,
                n as int,
            ));
        }
        i = i + 1;
    }
    proof {
        assert(ltrim(s@) == s@.subrange(i as int, n as int));
    }
    let mut j: usize = n;
    while j > i && is_ws_exec(s.get_char(j - 1))
        invariant
            i <= j <= n,
            n == s@.len(),
            ltrim(s@) == s@.subrange(i as int, n as int),
            rtrim(s@.subrange(i as int, n as int)) == rtrim(s@.subrange(i as int, j as int)),
        decreases j,
    {
        proof {
            assert(s@.subrange(i as int, j as int).drop_last() =~= s@.subrange(
                i as int,
                j - 1,
            ));
        }
        j = j - 1;
    }
    proof {
        assert(rtrim(s@.subrange(i as int, j as int)) == s@.subrange(i as int, j as int));
    }
    s.substring_char(i, j)
}

/// The index of the first space of the line, if any.
fn find_space(s: &str) -> (r: Option<usize>)
    ensures
        r matches Some(k) ==> space_at(s@, k as int),
        r is None ==> !has_space(s@),
{
    let n = s.unicode_len();
    let mut k: usize = 0;
    while k < n
        invariant
            0 <= k <= n,
            n == s@.len(),
            forall|j: int| 0 <= j < k ==> s@[j] != ' ',
        decreases n - k,
    {
        if s.get_char(k) == ' ' {
            return Some(k);
        }
        k = k + 1;
    }
    None
}

/// Whether two lines hold the same characters.
fn str_eq(a: &str, b: &str) -> (r: bool)
    ensures
        r == (a@ == b@),
{
    let na = a.unicode_len();
    let nb = b.unicode_len();
    if na != nb {
        return false;
    }
    let mut i: usize = 0;
    while i < na
        invariant
            0 <= i <= na,
            na == a@.len(),
            na == b@.len(),
            forall|j: int| 0 <= j < i ==> a@[j] == b@[j],
        decreases na - i,
    {
        if a.get_char(i) != b.get_char(i) {
            return false;
        }
        i = i + 1;
    }
    proof {
        assert(a@ =~= b@);
    }
    true
}

/// What one inbound text line asks for.
pub enum Command {
    /// A well-formed article request: fetch this id.
    FetchArticle(String),
    /// The article verb without its required argument.
    MissingArticleId,
    /// A marker-prefixed line with an unrecognized verb.
    Unknown(String),
    /// Not a command: the line is echoed back unchanged.
    Echo,
}

/// What `parse_command` must decide for a line, given its trimmed form `t`:
/// a line that does not start with the marker is echoed; a marker line is
/// split at its first space into verb and argument; the one known verb with
/// an argument is a fetch, without one a missing-argument error; any other
/// verb is unknown.
pub open spec fn command_ok(t: Seq<char>, c: Command) -> bool {
    if t.len() == 0 || t[0] != '/' {
        c is Echo
    } else if !has_space(t) {
        if t == "/article_detail"@ {
            c is MissingArticleId
        } else {
            c matches Command::Unknown(v) && v@ == t
        }
    } else {
        forall|k: int| space_at(t, k) ==> {
            let verb = t.subrange(0, k);
            let arg = t.subrange(k + 1, t.len() as int);
            if verb == "/article_detail"@ {
                c matches Command::FetchArticle(a) && a@ == arg
            } else {
                c matches Command::Unknown(v) && v@ == verb
            }
        }
    }
}

/// The milliseconds elapsed since the peer was last seen, under a monotonic
/// reading: a clock that has not advanced counts as no time passed.
pub open spec fn elapsed_ms(last: u64, now: u64) -> int {
    if now >= last {
        now - last
    } else {
        0
    }
}

/// The handler state after a liveness refresh: the last-seen instant is
/// `now_ms`, everything else as before.
pub open spec fn refreshed(pre: WsSession, post: WsSession, now_ms: u64) -> bool {
    &&& post.hb == now_ms
    &&& post.id == pre.id
    &&& post.user_id == pre.user_id
    &&& post.start_at == pre.start_at
}

/// What the actions for one inbound text line must be, for a handler in
/// state `s`: a non-command line is echoed back unchanged; the known verb
/// with an argument becomes a data request tagged with this session's id and
/// user, and nothing is sent to the coordinator in any other case; the known
/// verb without its argument and an unknown verb each draw the fixed inline
/// error line.
pub open spec fn text_actions_ok(s: WsSession, text: Seq<char>, acts: Seq<Action>) -> bool {
    let t = trimmed(text);
    &&& acts.len() == 1
    &&& if t.len() == 0 || t[0] != '/' {
        acts[0] matches Action::ReplyText(r) && r@ == text
    } else if !has_space(t) {
        if t == "/article_detail"@ {
            acts[0] matches Action::ReplyText(r) && r@ == "!!! article id is required"@
        } else {
            acts[0] matches Action::ReplyText(r) && r@ == "!!! unknown command: "@ + t
        }
    } else {
        forall|k: int| #[trigger] space_at(t, k) ==> {
            let verb = t.subrange(0, k);
            let arg = t.subrange(k + 1, t.len() as int);
            if verb == "/article_detail"@ {
                acts[0] matches Action::FetchArticle(req) && req.article_id@ == arg
                    && req.session_id == s.id && req.user_id@ == s.user_id@
            } else {
                acts[0] matches Action::ReplyText(r) && r@ == "!!! unknown command: "@ + verb
            }
        }
    }
}

/// Parse one inbound text line of the command protocol.
pub fn parse_command(line: &str) -> (c: Command)
    ensures
        command_ok(trimmed(line@), c),
{
    let m = trim_line(line);
    let n = m.unicode_len();
    if n == 0 {
        return Command::Echo;
    }
    if m.get_char(0) != '/' {
        return Command::Echo;
    }
    match find_space(m) {
        Some(k) => {
            let verb = m.substring_char(0, k);
            let arg = m.substring_char(k + 1, n);
            proof {
                assert forall|k2: int| space_at(m@, k2) implies k2 == k as int by {
                    if k2 < k as int {
                        assert(m@[k2] != ' ');
                    }
                    if k2 > k as int {
                        assert(m@[k as int] != ' ');
                    }
                }
            }
            if str_eq(verb, "/article_detail") {
                Command::FetchArticle(String::from_str(arg))
            } else {
                Command::Unknown(String::from_str(verb))
            }
        },
        None => {
            if str_eq(m, "/article_detail") {
                Command::MissingArticleId
            } else {
                Command::Unknown(String::from_str(m))
            }
        },
    }
}

impl WsSession {
    /// The actions for one inbound text line: parse it and either echo,
    /// reply inline, or raise a data request on behalf of this session.
    pub fn handle_text(&self, text: String) -> (acts: Vec<Action>)
        ensures
            text_actions_ok(*self, text@, acts@),
    {
        let mut acts: Vec<Action> = Vec::new();
        match parse_command(text.as_str()) {
            Command::FetchArticle(article_id) => {
                acts.push(
                    Action::FetchArticle(
                        GetArticleDetail {
                            article_id,
                            session_id: self.id,
                            user_id: self.user_id.clone(),
                        },
                    ),
                );
            },
            Command::MissingArticleId => {
                acts.push(Action::ReplyText(String::from_str("!!! article id is required")));
            },
            Command::Unknown(verb) => {
                acts.push(
                    Action::ReplyText(
                        String::from_str("!!! unknown command: ").concat(verb.as_str()),
                    ),
                );
            },
            Command::Echo => {
                acts.push(Action::ReplyText(text));
            },
        }
        acts
    }

    /// One inbound transport event. A read error, a frame of an unsupported
    /// kind — binary or continuation, which have no role in the inbound
    /// protocol — or a peer close ends the handler; ping and pong refresh
    /// the last-seen instant; a text line goes through the command protocol.
    pub fn handle_frame(&mut self, msg: Result<Frame, TransportFault>, now_ms: u64) -> (acts: Vec<
        Action,
    >)
        ensures
            match msg {
                Err(_) => *final(self) == *old(self) && acts@.len() == 1 && acts@[0] is Stop,
                Ok(f) => match f {
                    Frame::Ping(p) => refreshed(*old(self), *final(self), now_ms) && acts@.len()
                        == 1 && (acts@[0] matches Action::Pong(q) && q == p),
                    Frame::Pong(_) => refreshed(*old(self), *final(self), now_ms) && acts@.len()
                        == 0,
                    Frame::Text(t) => *final(self) == *old(self) && text_actions_ok(
                        *old(self),
                        t@,
                        acts@,
                    ),
                    Frame::Binary(_) => *final(self) == *old(self) && acts@.len() == 1
                        && acts@[0] is Stop,
                    Frame::Close(reason) => *final(self) == *old(self) && acts@.len() == 2 && (
                    acts@[0] matches Action::Close(r2) && r2 == reason) && acts@[1] is Stop,
                    Frame::Continuation => *final(self) == *old(self) && acts@.len() == 1
                        && acts@[0] is Stop,
                    Frame::Nop => *final(self) == *old(self) && acts@.len() == 0,
                },
            },
    {
        let mut acts: Vec<Action> = Vec::new();
        match msg {
            Err(_) => {
                acts.push(Action::Stop);
            },
            Ok(f) => match f {
                Frame::Ping(p) => {
                    self.hb = now_ms;
                    acts.push(Action::Pong(p));
                },
                Frame::Pong(_) => {
                    self.hb = now_ms;
                },
                Frame::Text(t) => {
                    return self.handle_text(t);
                },
                Frame::Binary(_) => {
                    acts.push(Action::Stop);
                },
                Frame::Close(reason) => {
                    acts.push(Action::Close(reason));
                    acts.push(Action::Stop);
                },
                Frame::Continuation => {
                    acts.push(Action::Stop);
                },
                Frame::Nop => {},
            },
        }
        acts
    }

    /// One liveness-timer tick. If the peer has been silent for longer than
    /// the timeout, the handler closes on its own — it reports the
    /// disconnect to the coordinator and stops, without consulting it first
    /// and without sending another ping; otherwise it pings. So a dead peer
    /// is detected within one tick interval past the timeout, whatever the
    /// coordinator is doing.
    pub fn hb_tick(&self, now_ms: u64) -> (acts: Vec<Action>)
        ensures
            elapsed_ms(self.hb, now_ms) > CLIENT_TIMEOUT_MS ==> acts@.len() == 2 && (
            acts@[0] matches Action::NotifyDisconnect(d) && d.id == self.id && d.start_at
                == self.start_at) && acts@[1] is Stop,
            elapsed_ms(self.hb, now_ms) <= CLIENT_TIMEOUT_MS ==> acts@.len() == 1 && (
            acts@[0] matches Action::Ping(p) && p@.len() == 0),
    {
        let elapsed = if now_ms >= self.hb {
            now_ms - self.hb
        } else {
            0
        };
        let mut acts: Vec<Action> = Vec::new();
        if elapsed > CLIENT_TIMEOUT_MS {
            acts.push(
                Action::NotifyDisconnect(Disconnect { id: self.id, start_at: self.start_at }),
            );
            acts.push(Action::Stop);
        } else {
            acts.push(Action::Ping(Vec::new()));
        }
        acts
    }

    /// A push from the coordinator. A close instruction with a non-empty
    /// human-readable description sends that description as one text line
    /// first — for peers that cannot read close-frame metadata — then the
    /// close frame itself.
    pub fn on_server_message(msg: ServerMessage) -> (acts: Vec<Action>)
        ensures
            match msg {
                ServerMessage::Close(reason) => {
                    if reason matches Some(cr) && cr.description matches Some(d) && d@.len() > 0 {
                        acts@.len() == 2 && (acts@[0] matches Action::ReplyText(t)
                            && reason matches Some(cr) && cr.description matches Some(d) && t@
                            == d@) && (acts@[1] matches Action::Close(r2) && r2 == reason)
                    } else {
                        acts@.len() == 1 && (acts@[0] matches Action::Close(r2) && r2 == reason)
                    }
                },
            },
    {
        let mut acts: Vec<Action> = Vec::new();
        match msg {
            ServerMessage::Close(reason) => {
                match &reason {
                    Some(cr) => match &cr.description {
                        Some(d) => {
                            if !d.as_str().is_empty() {
                                acts.push(Action::ReplyText(d.clone()));
                            }
                        },
                        None => {},
                    },
                    None => {},
                }
                acts.push(Action::Close(reason));
            },
        }
        acts
    }

    /// The coordinator's answer to a forwarded data request: a found record
    /// is sent to the peer; a failed fetch — or an answer that never came
    /// back — is fatal for this connection, which must not retry.
    pub fn on_fetch_result(res: Option<Result<pb::Article, FetchError>>) -> (acts: Vec<Action>)
        ensures
            res matches Some(Ok(a)) ==> acts@.len() == 1 && (acts@[0] matches Action::ReplyArticle(
                b,
            ) && b == a),
            !(res matches Some(Ok(_))) ==> acts@.len() == 1 && acts@[0] is Stop,
    {
        let mut acts: Vec<Action> = Vec::new();
        match res {
            Some(Ok(a)) => {
                acts.push(Action::ReplyArticle(a));
            },
            _ => {
                acts.push(Action::Stop);
            },
        }
        acts
    }

    /// The registration the handler sends on start, tagged with its user and
    /// the reply-channel handle the transport assigned it.
    pub fn connect_message(&self, addr: u64) -> (c: Connect)
        ensures
            c.ws_session_id == self.id,
            c.user_id == self.user_id,
            c.addr == addr,
    {
        Connect { ws_session_id: self.id, user_id: self.user_id.clone(), addr }
    }

    /// The coordinator's acknowledgment of registration. The assigned id
    /// tags this handler; an acknowledgment that never arrived means the
    /// registration may still be live on the coordinator's side, so the
    /// handler must stop itself rather than linger unregistered.
    pub fn on_register_ack(&mut self, res: Option<u64>) -> (stop: bool)
        ensures
            res matches Some(sid) ==> !stop && final(self).id == sid && final(self).hb == old(
                self,
            ).hb && final(self).user_id == old(self).user_id && final(self).start_at == old(
                self,
            ).start_at,
            res is None ==> stop && *final(self) == *old(self),
    {
        match res {
            Some(sid) => {
                self.id = sid;
                false
            },
            None => true,
        }
    }

    /// The disconnect report this handler owes the coordinator exactly once
    /// when it stops, voluntarily or not.
    pub fn disconnect_message(&self) -> (d: Disconnect)
        ensures
            d.id == self.id,
            d.start_at == self.start_at,
    {
        Disconnect { id: self.id, start_at: self.start_at }
    }
}

} // verus!
