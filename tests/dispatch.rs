use std::sync::Mutex;

use qevent::{
    FriendMessageRecallEvent, FriendRequestEvent, GroupMessageEvent, GroupMuteEvent,
    GroupRequestEvent, Handler, HandlerCall, NewFriendEvent, NewMemberEvent, PrivateMessageEvent,
    QEvent,
};

fn group_message(group_code: i64, elements: &str) -> GroupMessageEvent {
    GroupMessageEvent { group_code, from_uin: 42, elements: elements.to_string() }
}

fn private_message() -> PrivateMessageEvent {
    PrivateMessageEvent { from_uin: 7, target: 8, elements: "hello".to_string() }
}

fn every_event() -> Vec<QEvent> {
    vec![
        QEvent::TcpConnect,
        QEvent::TcpDisconnect,
        QEvent::LoginEvent(100),
        QEvent::GroupMessage(group_message(1, "a")),
        QEvent::SelfGroupMessage(group_message(2, "b")),
        QEvent::PrivateMessage(private_message()),
        QEvent::GroupRequest(GroupRequestEvent {
            group_code: 3,
            req_uin: 4,
            message: "let me in".to_string(),
        }),
        QEvent::FriendRequest(FriendRequestEvent { req_uin: 5, message: "hi".to_string() }),
        QEvent::NewMember(NewMemberEvent { group_code: 6, member_uin: 7 }),
        QEvent::GroupMute(GroupMuteEvent {
            group_code: 8,
            operator_uin: 9,
            target_uin: 10,
            duration: 60,
        }),
        QEvent::FriendMessageRecall(FriendMessageRecallEvent {
            friend_uin: 11,
            msg_seq: 12,
            time: 13,
        }),
        QEvent::NewFriend(NewFriendEvent { uin: 14, nick: "n".to_string() }),
    ]
}

/// Records the name of every per-kind method called on it.
struct Recorder {
    calls: Mutex<Vec<String>>,
}

impl Recorder {
    fn new() -> Recorder {
        Recorder { calls: Mutex::new(Vec::new()) }
    }

    fn note(&self, name: &str) {
        self.calls.lock().unwrap().push(name.to_string());
    }

    fn taken(&self) -> Vec<String> {
        std::mem::take(&mut *self.calls.lock().unwrap())
    }
}

impl Handler for Recorder {
    fn handle_login_event(&self, uin: i64) {
        self.note(&format!("login {}", uin));
    }
    fn handle_tcp_connect_event(&self) {
        self.note("tcp_connect");
    }
    fn handle_tcp_disconnect_event(&self) {
        self.note("tcp_disconnect");
    }
    fn handle_group_message(&self, m: GroupMessageEvent) {
        self.note(&format!("group_message {}", m.group_code));
    }
    fn handle_self_group_message(&self, m: GroupMessageEvent) {
        self.note(&format!("self_group_message {}", m.group_code));
    }
    fn handle_private_message(&self, m: PrivateMessageEvent) {
        self.note(&format!("private_message {}", m.from_uin));
    }
    fn handle_group_request(&self, m: GroupRequestEvent) {
        self.note(&format!("group_request {}", m.req_uin));
    }
    fn handle_friend_request(&self, m: FriendRequestEvent) {
        self.note(&format!("friend_request {}", m.req_uin));
    }
    fn handle_new_member(&self, m: NewMemberEvent) {
        self.note(&format!("new_member {}", m.member_uin));
    }
    fn handle_group_mute(&self, m: GroupMuteEvent) {
        self.note(&format!("group_mute {}", m.target_uin));
    }
    fn handle_friend_message_recall(&self, m: FriendMessageRecallEvent) {
        self.note(&format!("friend_message_recall {}", m.friend_uin));
    }
    fn handle_new_friend(&self, m: NewFriendEvent) {
        self.note(&format!("new_friend {}", m.uin));
    }
}

#[test]
fn default_dispatch_calls_exactly_the_matching_method() {
    let expected = [
        "tcp_connect",
        // Known discrepancy: a disconnect is routed to the connect method.
        "tcp_connect",
        "login 100",
        "group_message 1",
        "self_group_message 2",
        "private_message 7",
        "group_request 4",
        "friend_request 5",
        "new_member 7",
        "group_mute 10",
        "friend_message_recall 11",
        "new_friend 14",
    ];
    let recorder = Recorder::new();
    for (event, want) in every_event().into_iter().zip(expected.iter()) {
        assert!(recorder.handle(event).is_ok());
        assert_eq!(recorder.taken(), vec![want.to_string()]);
    }
}

#[test]
fn tcp_disconnect_reaches_the_connect_method() {
    let recorder = Recorder::new();
    assert!(recorder.handle(QEvent::TcpDisconnect).is_ok());
    assert_eq!(recorder.taken(), vec!["tcp_connect".to_string()]);
}

#[test]
fn into_handler_call_keeps_the_payload() {
    assert!(matches!(QEvent::LoginEvent(100).into_handler_call(), HandlerCall::LoginEvent(100)));
    assert!(matches!(QEvent::TcpConnect.into_handler_call(), HandlerCall::TcpConnectEvent));
    assert!(matches!(QEvent::TcpDisconnect.into_handler_call(), HandlerCall::TcpConnectEvent));
    match QEvent::SelfGroupMessage(group_message(5, "x")).into_handler_call() {
        HandlerCall::SelfGroupMessage(m) => {
            assert_eq!(m.group_code, 5);
            assert_eq!(m.elements, "x");
        }
        other => panic!("unexpected call {:?}", other),
    }
    match QEvent::PrivateMessage(private_message()).into_handler_call() {
        HandlerCall::PrivateMessage(m) => assert_eq!(m.elements, "hello"),
        other => panic!("unexpected call {:?}", other),
    }
}

/// Overrides only the group-message method.
struct GroupOnly {
    seen: Mutex<Vec<i64>>,
}

impl Handler for GroupOnly {
    fn handle_group_message(&self, m: GroupMessageEvent) {
        self.seen.lock().unwrap().push(m.group_code);
    }
}

#[test]
fn private_message_skips_a_group_message_override() {
    let handler = GroupOnly { seen: Mutex::new(Vec::new()) };
    assert!(handler.handle(QEvent::PrivateMessage(private_message())).is_ok());
    assert!(handler.seen.lock().unwrap().is_empty());
    assert!(handler.handle(QEvent::GroupMessage(group_message(9, "g"))).is_ok());
    assert_eq!(*handler.seen.lock().unwrap(), vec![9]);
}

struct NoOverrides;

impl Handler for NoOverrides {}

#[test]
fn default_handle_never_fails() {
    for event in every_event() {
        assert!(NoOverrides.handle(event).is_ok());
    }
}
