//! Typed event envelope for an instant-messaging client, the handler
//! capability that routes each envelope to a per-kind method, a console
//! handler, and sink adapters onto tokio channels.

pub mod display;
pub mod event;
pub mod handler;
pub mod sink;

pub use display::{push_decimal, DefaultHandler};
pub use event::{
    FriendMessageRecallEvent, FriendRequestEvent, GroupMessageEvent, GroupMuteEvent,
    GroupRequestEvent, NewFriendEvent, NewMemberEvent, PrivateMessageEvent, QEvent,
};
pub use handler::{Handler, HandlerCall, SinkClosed};
pub use sink::closed_on_refusal;
