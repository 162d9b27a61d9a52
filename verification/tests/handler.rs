use course_server::pb;
use course_server::ws_server::{CloseReason, FetchError, ServerMessage};
use course_server::ws_session::{
    Action, Frame, TransportFault, WsSession, CLIENT_TIMEOUT_MS, HEARTBEAT_INTERVAL_MS,
};

fn session() -> WsSession {
    WsSession { id: 7, hb: 1000, user_id: String::from("u1"), start_at: 1_700_000_000 }
}

fn empty_article() -> pb::Article {
    pb::Article {
        id: String::from("a"),
        title: String::new(),
        publish_date: String::new(),
        done: false,
        content: String::new(),
        course: None,
        section: None,
        study_info: None,
    }
}

#[test]
fn command_with_argument_raises_a_fetch() {
    let s = session();
    let acts = s.handle_text(String::from("/article_detail art-42"));
    assert_eq!(acts.len(), 1);
    match &acts[0] {
        Action::FetchArticle(req) => {
            assert_eq!(req.article_id, "art-42");
            assert_eq!(req.session_id, 7);
            assert_eq!(req.user_id, "u1");
        }
        _ => panic!("expected a fetch"),
    }
}

#[test]
fn command_argument_keeps_everything_after_first_space() {
    let s = session();
    let acts = s.handle_text(String::from("  /article_detail a b  "));
    match &acts[0] {
        Action::FetchArticle(req) => assert_eq!(req.article_id, "a b"),
        _ => panic!("expected a fetch"),
    }
}

#[test]
fn missing_argument_replies_inline() {
    let s = session();
    let acts = s.handle_text(String::from("/article_detail"));
    assert_eq!(acts.len(), 1);
    match &acts[0] {
        Action::ReplyText(t) => assert_eq!(t.as_str(), "!!! article id is required"),
        _ => panic!("expected an inline reply, no coordinator call"),
    }
}

#[test]
fn unknown_verb_replies_inline() {
    let s = session();
    let acts = s.handle_text(String::from("/frobnicate now"));
    assert_eq!(acts.len(), 1);
    match &acts[0] {
        Action::ReplyText(t) => assert_eq!(t.as_str(), "!!! unknown command: /frobnicate"),
        _ => panic!("expected an inline reply"),
    }
}

#[test]
fn unknown_verb_without_argument_replies_inline() {
    let s = session();
    let acts = s.handle_text(String::from("/ping"));
    match &acts[0] {
        Action::ReplyText(t) => assert_eq!(t.as_str(), "!!! unknown command: /ping"),
        _ => panic!("expected an inline reply"),
    }
}

#[test]
fn plain_text_is_echoed_unchanged() {
    let s = session();
    let acts = s.handle_text(String::from("  hello there  "));
    assert_eq!(acts.len(), 1);
    match &acts[0] {
        Action::ReplyText(t) => assert_eq!(t.as_str(), "  hello there  "),
        _ => panic!("expected an echo"),
    }
}

#[test]
fn empty_line_is_echoed() {
    let s = session();
    let acts = s.handle_text(String::from("   "));
    match &acts[0] {
        Action::ReplyText(t) => assert_eq!(t.as_str(), "   "),
        _ => panic!("expected an echo"),
    }
}

#[test]
fn ping_refreshes_liveness_and_pongs() {
    let mut s = session();
    let acts = s.handle_frame(Ok(Frame::Ping(vec![1, 2])), 9999);
    assert_eq!(s.hb, 9999);
    assert_eq!(acts.len(), 1);
    match &acts[0] {
        Action::Pong(p) => assert_eq!(p, &vec![1, 2]),
        _ => panic!("expected a pong"),
    }
}

#[test]
fn pong_refreshes_liveness_silently() {
    let mut s = session();
    let acts = s.handle_frame(Ok(Frame::Pong(Vec::new())), 4321);
    assert_eq!(s.hb, 4321);
    assert!(acts.is_empty());
}

#[test]
fn read_error_stops_the_handler() {
    let mut s = session();
    let acts = s.handle_frame(Err(TransportFault), 0);
    assert_eq!(acts.len(), 1);
    assert!(matches!(acts[0], Action::Stop));
}

#[test]
fn continuation_frame_stops_the_handler() {
    let mut s = session();
    let acts = s.handle_frame(Ok(Frame::Continuation), 0);
    assert_eq!(acts.len(), 1);
    assert!(matches!(acts[0], Action::Stop));
}

#[test]
fn peer_close_is_answered_and_stops() {
    let mut s = session();
    let reason = Some(CloseReason { code: 1000, description: None });
    let acts = s.handle_frame(Ok(Frame::Close(reason)), 0);
    assert_eq!(acts.len(), 2);
    match &acts[0] {
        Action::Close(Some(r)) => assert_eq!(r.code, 1000),
        _ => panic!("expected the close to pass through"),
    }
    assert!(matches!(acts[1], Action::Stop));
}

#[test]
fn binary_frame_is_fatal() {
    let mut s = session();
    let acts = s.handle_frame(Ok(Frame::Binary(vec![9])), 0);
    assert_eq!(acts.len(), 1);
    assert!(matches!(acts[0], Action::Stop));
    assert_eq!(s.hb, 1000);
}

#[test]
fn nop_frame_does_nothing() {
    let mut s = session();
    assert!(s.handle_frame(Ok(Frame::Nop), 0).is_empty());
    assert_eq!(s.hb, 1000);
}

#[test]
fn silent_peer_is_dropped_after_timeout() {
    let s = session();
    let acts = s.hb_tick(1000 + CLIENT_TIMEOUT_MS + 1);
    assert_eq!(acts.len(), 2);
    match &acts[0] {
        Action::NotifyDisconnect(d) => {
            assert_eq!(d.id, 7);
            assert_eq!(d.start_at, 1_700_000_000);
        }
        _ => panic!("expected a disconnect report"),
    }
    assert!(matches!(acts[1], Action::Stop));
}

#[test]
fn live_peer_keeps_getting_pings() {
    let s = session();
    let acts = s.hb_tick(1000 + CLIENT_TIMEOUT_MS);
    assert_eq!(acts.len(), 1);
    match &acts[0] {
        Action::Ping(p) => assert!(p.is_empty()),
        _ => panic!("expected a ping"),
    }
    let earlier = s.hb_tick(500);
    assert!(matches!(earlier[0], Action::Ping(_)));
}

#[test]
fn heartbeat_interval_is_shorter_than_the_timeout() {
    assert!(HEARTBEAT_INTERVAL_MS < CLIENT_TIMEOUT_MS);
}

#[test]
fn eviction_notice_sends_description_then_close() {
    let reason = Some(CloseReason {
        code: 1008,
        description: Some(String::from("you have logged in elsewhere")),
    });
    let acts = WsSession::on_server_message(ServerMessage::Close(reason));
    assert_eq!(acts.len(), 2);
    match &acts[0] {
        Action::ReplyText(t) => assert_eq!(t.as_str(), "you have logged in elsewhere"),
        _ => panic!("expected the description as a text line first"),
    }
    match &acts[1] {
        Action::Close(Some(r)) => {
            assert_eq!(r.code, 1008);
            assert_eq!(r.description.as_deref(), Some("you have logged in elsewhere"));
        }
        _ => panic!("expected the close frame"),
    }
}

#[test]
fn close_with_empty_description_sends_no_text() {
    let reason = Some(CloseReason { code: 1008, description: Some(String::new()) });
    let acts = WsSession::on_server_message(ServerMessage::Close(reason));
    assert_eq!(acts.len(), 1);
    assert!(matches!(acts[0], Action::Close(_)));
}

#[test]
fn close_without_reason_sends_only_the_close() {
    let acts = WsSession::on_server_message(ServerMessage::Close(None));
    assert_eq!(acts.len(), 1);
    assert!(matches!(acts[0], Action::Close(None)));
}

#[test]
fn fetch_answer_is_sent_to_the_peer() {
    let acts = WsSession::on_fetch_result(Some(Ok(empty_article())));
    assert_eq!(acts.len(), 1);
    match &acts[0] {
        Action::ReplyArticle(a) => assert_eq!(a.id, "a"),
        _ => panic!("expected the record"),
    }
}

#[test]
fn failed_fetch_stops_the_handler() {
    let acts = WsSession::on_fetch_result(Some(Err(FetchError::NotFound)));
    assert_eq!(acts.len(), 1);
    assert!(matches!(acts[0], Action::Stop));
    let acts = WsSession::on_fetch_result(None);
    assert!(matches!(acts[0], Action::Stop));
}

#[test]
fn registration_ack_tags_the_handler() {
    let mut s = session();
    let stop = s.on_register_ack(Some(99));
    assert!(!stop);
    assert_eq!(s.id, 99);
}

#[test]
fn lost_registration_ack_stops_the_handler() {
    let mut s = session();
    let stop = s.on_register_ack(None);
    assert!(stop);
    assert_eq!(s.id, 7);
}

#[test]
fn connect_and_disconnect_messages_carry_the_session_state() {
    let s = session();
    let c = s.connect_message(31);
    assert_eq!(c.user_id, "u1");
    assert_eq!(c.addr, 31);
    let d = s.disconnect_message();
    assert_eq!(d.id, 7);
    assert_eq!(d.start_at, 1_700_000_000);
}

#[test]
fn surrounding_tabs_and_newlines_are_trimmed_before_parsing() {
    let s = session();
    let acts = s.handle_text(String::from("\t/article_detail art-9\r\n"));
    match &acts[0] {
        Action::FetchArticle(req) => assert_eq!(req.article_id, "art-9"),
        _ => panic!("expected a fetch"),
    }
}

#[test]
fn double_space_keeps_the_rest_as_the_argument() {
    let s = session();
    let acts = s.handle_text(String::from("/article_detail  padded"));
    match &acts[0] {
        Action::FetchArticle(req) => assert_eq!(req.article_id, " padded"),
        _ => panic!("expected a fetch"),
    }
}
