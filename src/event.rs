use vstd::prelude::*;

verus! {

/// A message posted in a group.
#[derive(Clone, Debug)]
pub struct GroupMessageEvent {
    pub group_code: i64,
    pub from_uin: i64,
    pub elements: String,
}

/// A message from a friend.
#[derive(Clone, Debug)]
pub struct PrivateMessageEvent {
    pub from_uin: i64,
    pub target: i64,
    pub elements: String,
}

/// A request to join a group.
#[derive(Clone, Debug)]
pub struct GroupRequestEvent {
    pub group_code: i64,
    pub req_uin: i64,
    pub message: String,
}

/// A request to become friends.
#[derive(Clone, Debug)]
pub struct FriendRequestEvent {
    pub req_uin: i64,
    pub message: String,
}

/// A member who joined a group.
#[derive(Clone, Debug)]
pub struct NewMemberEvent {
    pub group_code: i64,
    pub member_uin: i64,
}

/// A member muted in a group, for `duration` seconds (0 lifts the mute).
#[derive(Clone, Debug)]
pub struct GroupMuteEvent {
    pub group_code: i64,
    pub operator_uin: i64,
    pub target_uin: i64,
    pub duration: i64,
}

/// A friend's message that was recalled.
#[derive(Clone, Debug)]
pub struct FriendMessageRecallEvent {
    pub friend_uin: i64,
    pub msg_seq: i32,
    pub time: i64,
}

/// A friend newly added.
#[derive(Clone, Debug)]
pub struct NewFriendEvent {
    pub uin: i64,
    pub nick: String,
}

/// Every event handed out to the application, wrapped in one closed union.
#[derive(Clone, Debug)]
pub enum QEvent {
    TcpConnect,
    TcpDisconnect,
    /// Login succeeded, for this identity.
    LoginEvent(i64),
    /// A group message.
    GroupMessage(GroupMessageEvent),
    /// A group message sent by the logged-in identity itself.
    SelfGroupMessage(GroupMessageEvent),
    /// A private message.
    PrivateMessage(PrivateMessageEvent),
    /// A request to join a group.
    GroupRequest(GroupRequestEvent),
    /// A request to become friends.
    FriendRequest(FriendRequestEvent),
    /// A new member in a group.
    NewMember(NewMemberEvent),
    /// A member muted.
    GroupMute(GroupMuteEvent),
    /// A friend's message recalled.
    FriendMessageRecall(FriendMessageRecallEvent),
    /// A new friend.
    NewFriend(NewFriendEvent),
}

} // verus!
