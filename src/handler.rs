use vstd::prelude::*;
use crate::event::{
    FriendMessageRecallEvent, FriendRequestEvent, GroupMessageEvent, GroupMuteEvent,
    GroupRequestEvent, NewFriendEvent, NewMemberEvent, PrivateMessageEvent, QEvent,
};

verus! {

/// A call of one per-kind method of [`Handler`], with the argument it takes.
/// Each variant is named after the method it stands for.
#[derive(Clone, Debug)]
pub enum HandlerCall {
    LoginEvent(i64),
    TcpConnectEvent,
    TcpDisconnectEvent,
    GroupMessage(GroupMessageEvent),
    SelfGroupMessage(GroupMessageEvent),
    PrivateMessage(PrivateMessageEvent),
    GroupRequest(GroupRequestEvent),
    FriendRequest(FriendRequestEvent),
    NewMember(NewMemberEvent),
    GroupMute(GroupMuteEvent),
    FriendMessageRecall(FriendMessageRecallEvent),
    NewFriend(NewFriendEvent),
}

/// The per-kind call that default dispatch makes for an event: the method
/// named after the event's kind, with the event's payload untouched.
/// `TcpDisconnect` is routed to the connect method as well, so default
/// dispatch never reaches `handle_tcp_disconnect_event`.
pub open spec fn default_call(e: QEvent) -> HandlerCall {
    match e {
        QEvent::TcpConnect => HandlerCall::TcpConnectEvent,
        QEvent::TcpDisconnect => HandlerCall::TcpConnectEvent,
        QEvent::LoginEvent(uin) => HandlerCall::LoginEvent(uin),
        QEvent::GroupMessage(m) => HandlerCall::GroupMessage(m),
        QEvent::SelfGroupMessage(m) => HandlerCall::SelfGroupMessage(m),
        QEvent::PrivateMessage(m) => HandlerCall::PrivateMessage(m),
        QEvent::GroupRequest(m) => HandlerCall::GroupRequest(m),
        QEvent::FriendRequest(m) => HandlerCall::FriendRequest(m),
        QEvent::NewMember(m) => HandlerCall::NewMember(m),
        QEvent::GroupMute(m) => HandlerCall::GroupMute(m),
        QEvent::FriendMessageRecall(m) => HandlerCall::FriendMessageRecall(m),
        QEvent::NewFriend(m) => HandlerCall::NewFriend(m),
    }
}

/// Default dispatch reaches `handle_group_message` for a `GroupMessage`
/// event and for no other: a handler that overrides that method alone does
/// nothing for every other event, a `PrivateMessage` among them.
pub proof fn lemma_group_message_override_sees_only_group_messages(e: QEvent)
    ensures
        default_call(e) is GroupMessage <==> e is GroupMessage,
        default_call(e) matches HandlerCall::GroupMessage(m) ==> e == QEvent::GroupMessage(m),
{
}

impl QEvent {
    /// The per-kind call that default dispatch makes for this event.
    pub fn into_handler_call(self) -> (r: HandlerCall)
        ensures
            r == default_call(self),
    {
        match self {
            QEvent::TcpConnect => HandlerCall::TcpConnectEvent,
            QEvent::TcpDisconnect => HandlerCall::TcpConnectEvent,
            QEvent::LoginEvent(uin) => HandlerCall::LoginEvent(uin),
            QEvent::GroupMessage(m) => HandlerCall::GroupMessage(m),
            QEvent::SelfGroupMessage(m) => HandlerCall::SelfGroupMessage(m),
            QEvent::PrivateMessage(m) => HandlerCall::PrivateMessage(m),
            QEvent::GroupRequest(m) => HandlerCall::GroupRequest(m),
            QEvent::FriendRequest(m) => HandlerCall::FriendRequest(m),
            QEvent::NewMember(m) => HandlerCall::NewMember(m),
            QEvent::GroupMute(m) => HandlerCall::GroupMute(m),
            QEvent::FriendMessageRecall(m) => HandlerCall::FriendMessageRecall(m),
            QEvent::NewFriend(m) => HandlerCall::NewFriend(m),
        }
    }
}

/// The sink that a handler forwards to has no receiver left; the event that
/// could not be delivered is handed back.
#[derive(Clone, Debug)]
pub struct SinkClosed {
    pub event: QEvent,
}

/// What receives the events that the client hands out.
///
/// `handle` is the one entry point. By default it makes the per-kind call
/// that `QEvent::into_handler_call` names, and each per-kind method does
/// nothing by default, so an implementer overrides only the kinds it cares
/// for; or it overrides `handle` to take every event whole.
pub trait Handler: Sync {
    /// Takes one event. On failure the event comes back unchanged.
    fn handle(&self, msg: QEvent) -> (r: Result<(), SinkClosed>)
        ensures
            r matches Err(c) ==> c.event == msg,
        default_ensures
            r is Ok,
    {
        match msg.into_handler_call() {
            HandlerCall::LoginEvent(uin) => self.handle_login_event(uin),
            HandlerCall::TcpConnectEvent => self.handle_tcp_connect_event(),
            HandlerCall::TcpDisconnectEvent => self.handle_tcp_disconnect_event(),
            HandlerCall::GroupMessage(m) => self.handle_group_message(m),
            HandlerCall::SelfGroupMessage(m) => self.handle_self_group_message(m),
            HandlerCall::PrivateMessage(m) => self.handle_private_message(m),
            HandlerCall::GroupRequest(m) => self.handle_group_request(m),
            HandlerCall::FriendRequest(m) => self.handle_friend_request(m),
            HandlerCall::NewMember(m) => self.handle_new_member(m),
            HandlerCall::GroupMute(m) => self.handle_group_mute(m),
            HandlerCall::FriendMessageRecall(m) => self.handle_friend_message_recall(m),
            HandlerCall::NewFriend(m) => self.handle_new_friend(m),
        }
        Ok(())
    }

    fn handle_login_event(&self, _uin: i64) {
    }

    fn handle_tcp_connect_event(&self) {
    }

    fn handle_tcp_disconnect_event(&self) {
    }

    fn handle_group_message(&self, _group_message: GroupMessageEvent) {
    }

    fn handle_self_group_message(&self, _group_message: GroupMessageEvent) {
    }

    fn handle_private_message(&self, _private_message: PrivateMessageEvent) {
    }

    fn handle_group_request(&self, _group_request: GroupRequestEvent) {
    }

    fn handle_friend_request(&self, _friend_request: FriendRequestEvent) {
    }

    fn handle_new_member(&self, _new_member: NewMemberEvent) {
    }

    fn handle_group_mute(&self, _group_mute: GroupMuteEvent) {
    }

    fn handle_friend_message_recall(&self, _friend_message_recall: FriendMessageRecallEvent) {
    }

    fn handle_new_friend(&self, _new_friend: NewFriendEvent) {
    }
}

} // verus!
