//! The event-subscription wire schemas: the message envelope, the welcome
//! frame and the notification payloads, each read from a decoded JSON document.

use vstd::prelude::*;
use vstd::string::StringExecFns;

use crate::json::{
    member, opt_view, optional_text_ok, text_member, int_member, text_list_member, JsonValue,
    get_member, text_field, optional_text_field, int_field, text_list_field,
};

verus! {

/// The `metadata` object of every frame.
pub struct MessageMetadata {
    pub message_id: String,
    pub message_timestamp: String,
    pub message_type: String,
    pub subscription_type: Option<String>,
    pub subscription_version: Option<String>,
}

/// The `session` object of a `session_welcome` payload.
pub struct SessionWelcomeSession {
    pub id: String,
    pub connected_at: String,
    pub status: String,
    pub reconnect_url: Option<String>,
    pub keepalive_timeout_seconds: i64,
}

/// The payload of a `session_welcome` frame.
pub struct SessionWelcome {
    pub session: SessionWelcomeSession,
}

/// The event of a `channel.update` notification.
pub struct ChannelUpdate {
    pub broadcaster_user_id: String,
    pub broadcaster_user_login: String,
    pub broadcaster_user_name: String,
    pub title: String,
    pub language: String,
    pub category_id: String,
    pub category_name: String,
    pub content_classification_labels: Vec<String>,
}

/// The reward named by a redemption.
pub struct CustomRewardRedemptionAddReward {
    pub id: String,
}

/// The event of a `channel.channel_points_custom_reward_redemption.add` notification.
pub struct CustomRewardRedemptionAdd {
    pub id: String,
    pub user_login: String,
    pub user_input: String,
    pub reward: CustomRewardRedemptionAddReward,
}

/// The event of a `stream.online` notification.
pub struct StreamOnline {
    pub id: String,
    pub broadcaster_user_id: String,
    pub broadcaster_user_login: String,
    pub broadcaster_user_name: String,
    /// The wire member `type`.
    pub kind: String,
    pub started_at: String,
}

/// The event of a `stream.offline` notification.
pub struct StreamOffline {
    pub broadcaster_user_id: String,
    pub broadcaster_user_login: String,
    pub broadcaster_user_name: String,
}

/// A typed notification, by subscription type.
pub enum NotificationType {
    ChannelUpdate(ChannelUpdate),
    CustomRewardRedemptionAdd(CustomRewardRedemptionAdd),
    StreamOnline(StreamOnline),
    StreamOffline(StreamOffline),
}

pub open spec fn metadata_decodes(v: JsonValue) -> bool {
    &&& text_member(v, "message_id"@) is Some
    &&& text_member(v, "message_timestamp"@) is Some
    &&& text_member(v, "message_type"@) is Some
    &&& optional_text_ok(v, "subscription_type"@)
    &&& optional_text_ok(v, "subscription_version"@)
}

impl MessageMetadata {
    /// `self` holds what `v` says.
    pub open spec fn read_from(self, v: JsonValue) -> bool {
        &&& text_member(v, "message_id"@) == Some(self.message_id@)
        &&& text_member(v, "message_timestamp"@) == Some(self.message_timestamp@)
        &&& text_member(v, "message_type"@) == Some(self.message_type@)
        &&& text_member(v, "subscription_type"@) == opt_view(self.subscription_type)
        &&& text_member(v, "subscription_version"@) == opt_view(self.subscription_version)
    }

    pub fn from_json(v: &JsonValue) -> (r: Option<MessageMetadata>)
        ensures
            r is Some <==> metadata_decodes(*v),
            r matches Some(m) ==> m.read_from(*v),
    {
        let message_id = match text_field(v, "message_id") {
            Some(s) => s,
            None => return None,
        };
        let message_timestamp = match text_field(v, "message_timestamp") {
            Some(s) => s,
            None => return None,
        };
        let message_type = match text_field(v, "message_type") {
            Some(s) => s,
            None => return None,
        };
        let subscription_type = match optional_text_field(v, "subscription_type") {
            Ok(s) => s,
            Err(()) => return None,
        };
        let subscription_version = match optional_text_field(v, "subscription_version") {
            Ok(s) => s,
            Err(()) => return None,
        };
        Some(MessageMetadata {
            message_id,
            message_timestamp,
            message_type,
            subscription_type,
            subscription_version,
        })
    }
}

pub open spec fn welcome_session_decodes(v: JsonValue) -> bool {
    &&& text_member(v, "id"@) is Some
    &&& text_member(v, "connected_at"@) is Some
    &&& text_member(v, "status"@) is Some
    &&& optional_text_ok(v, "reconnect_url"@)
    &&& int_member(v, "keepalive_timeout_seconds"@) is Some
}

/// A `session_welcome` payload names a well-formed session.
pub open spec fn welcome_decodes(payload: JsonValue) -> bool {
    match member(payload, "session"@) {
        Some(s) => welcome_session_decodes(s),
        None => false,
    }
}

impl SessionWelcomeSession {
    pub open spec fn read_from(self, v: JsonValue) -> bool {
        &&& text_member(v, "id"@) == Some(self.id@)
        &&& text_member(v, "connected_at"@) == Some(self.connected_at@)
        &&& text_member(v, "status"@) == Some(self.status@)
        &&& text_member(v, "reconnect_url"@) == opt_view(self.reconnect_url)
        &&& int_member(v, "keepalive_timeout_seconds"@) == Some(self.keepalive_timeout_seconds)
    }

    pub fn from_json(v: &JsonValue) -> (r: Option<SessionWelcomeSession>)
        ensures
            r is Some <==> welcome_session_decodes(*v),
            r matches Some(s) ==> s.read_from(*v),
    {
        let id = match text_field(v, "id") {
            Some(s) => s,
            None => return None,
        };
        let connected_at = match text_field(v, "connected_at") {
            Some(s) => s,
            None => return None,
        };
        let status = match text_field(v, "status") {
            Some(s) => s,
            None => return None,
        };
        let reconnect_url = match optional_text_field(v, "reconnect_url") {
            Ok(s) => s,
            Err(()) => return None,
        };
        let keepalive_timeout_seconds = match int_field(v, "keepalive_timeout_seconds") {
            Some(n) => n,
            None => return None,
        };
        Some(SessionWelcomeSession { id, connected_at, status, reconnect_url, keepalive_timeout_seconds })
    }
}

impl SessionWelcome {
    pub open spec fn read_from(self, payload: JsonValue) -> bool {
        match member(payload, "session"@) {
            Some(s) => self.session.read_from(s),
            None => false,
        }
    }

    pub fn from_json(payload: &JsonValue) -> (r: Option<SessionWelcome>)
        ensures
            r is Some <==> welcome_decodes(*payload),
            r matches Some(w) ==> w.read_from(*payload),
    {
        match get_member(payload, "session") {
            Some(s) => match SessionWelcomeSession::from_json(s) {
                Some(session) => Some(SessionWelcome { session }),
                None => None,
            },
            None => None,
        }
    }
}

pub open spec fn channel_update_decodes(v: JsonValue) -> bool {
    &&& text_member(v, "broadcaster_user_id"@) is Some
    &&& text_member(v, "broadcaster_user_login"@) is Some
    &&& text_member(v, "broadcaster_user_name"@) is Some
    &&& text_member(v, "title"@) is Some
    &&& text_member(v, "language"@) is Some
    &&& text_member(v, "category_id"@) is Some
    &&& text_member(v, "category_name"@) is Some
    &&& text_list_member(v, "content_classification_labels"@) is Some
}

impl ChannelUpdate {
    pub open spec fn read_from(self, v: JsonValue) -> bool {
        &&& text_member(v, "broadcaster_user_id"@) == Some(self.broadcaster_user_id@)
        &&& text_member(v, "broadcaster_user_login"@) == Some(self.broadcaster_user_login@)
        &&& text_member(v, "broadcaster_user_name"@) == Some(self.broadcaster_user_name@)
        &&& text_member(v, "title"@) == Some(self.title@)
        &&& text_member(v, "language"@) == Some(self.language@)
        &&& text_member(v, "category_id"@) == Some(self.category_id@)
        &&& text_member(v, "category_name"@) == Some(self.category_name@)
        &&& text_list_member(v, "content_classification_labels"@) == Some(
            self.content_classification_labels@.map_values(|s: String| s@),
        )
    }

    pub fn from_json(v: &JsonValue) -> (r: Option<ChannelUpdate>)
        ensures
            r is Some <==> channel_update_decodes(*v),
            r matches Some(c) ==> c.read_from(*v),
    {
        let broadcaster_user_id = match text_field(v, "broadcaster_user_id") {
            Some(s) => s,
            None => return None,
        };
        let broadcaster_user_login = match text_field(v, "broadcaster_user_login") {
            Some(s) => s,
            None => return None,
        };
        let broadcaster_user_name = match text_field(v, "broadcaster_user_name") {
            Some(s) => s,
            None => return None,
        };
        let title = match text_field(v, "title") {
            Some(s) => s,
            None => return None,
        };
        let language = match text_field(v, "language") {
            Some(s) => s,
            None => return None,
        };
        let category_id = match text_field(v, "category_id") {
            Some(s) => s,
            None => return None,
        };
        let category_name = match text_field(v, "category_name") {
            Some(s) => s,
            None => return None,
        };
        let content_classification_labels = match text_list_field(v, "content_classification_labels") {
            Some(l) => l,
            None => return None,
        };
        Some(ChannelUpdate {
            broadcaster_user_id,
            broadcaster_user_login,
            broadcaster_user_name,
            title,
            language,
            category_id,
            category_name,
            content_classification_labels,
        })
    }
}

pub open spec fn redemption_decodes(v: JsonValue) -> bool {
    &&& text_member(v, "id"@) is Some
    &&& text_member(v, "user_login"@) is Some
    &&& text_member(v, "user_input"@) is Some
    &&& match member(v, "reward"@) {
        Some(r) => text_member(r, "id"@) is Some,
        None => false,
    }
}

impl CustomRewardRedemptionAdd {
    pub open spec fn read_from(self, v: JsonValue) -> bool {
        &&& text_member(v, "id"@) == Some(self.id@)
        &&& text_member(v, "user_login"@) == Some(self.user_login@)
        &&& text_member(v, "user_input"@) == Some(self.user_input@)
        &&& match member(v, "reward"@) {
            Some(r) => text_member(r, "id"@) == Some(self.reward.id@),
            None => false,
        }
    }

    pub fn from_json(v: &JsonValue) -> (r: Option<CustomRewardRedemptionAdd>)
        ensures
            r is Some <==> redemption_decodes(*v),
            r matches Some(c) ==> c.read_from(*v),
    {
        let id = match text_field(v, "id") {
            Some(s) => s,
            None => return None,
        };
        let user_login = match text_field(v, "user_login") {
            Some(s) => s,
            None => return None,
        };
        let user_input = match text_field(v, "user_input") {
            Some(s) => s,
            None => return None,
        };
        let reward_id = match get_member(v, "reward") {
            Some(rv) => match text_field(rv, "id") {
                Some(s) => s,
                None => return None,
            },
            None => return None,
        };
        Some(CustomRewardRedemptionAdd {
            id,
            user_login,
            user_input,
            reward: CustomRewardRedemptionAddReward { id: reward_id },
        })
    }
}

pub open spec fn stream_online_decodes(v: JsonValue) -> bool {
    &&& text_member(v, "id"@) is Some
    &&& text_member(v, "broadcaster_user_id"@) is Some
    &&& text_member(v, "broadcaster_user_login"@) is Some
    &&& text_member(v, "broadcaster_user_name"@) is Some
    &&& text_member(v, "type"@) is Some
    &&& text_member(v, "started_at"@) is Some
}

impl StreamOnline {
    pub open spec fn read_from(self, v: JsonValue) -> bool {
        &&& text_member(v, "id"@) == Some(self.id@)
        &&& text_member(v, "broadcaster_user_id"@) == Some(self.broadcaster_user_id@)
        &&& text_member(v, "broadcaster_user_login"@) == Some(self.broadcaster_user_login@)
        &&& text_member(v, "broadcaster_user_name"@) == Some(self.broadcaster_user_name@)
        &&& text_member(v, "type"@) == Some(self.kind@)
        &&& text_member(v, "started_at"@) == Some(self.started_at@)
    }

    pub fn from_json(v: &JsonValue) -> (r: Option<StreamOnline>)
        ensures
            r is Some <==> stream_online_decodes(*v),
            r matches Some(c) ==> c.read_from(*v),
    {
        let id = match text_field(v, "id") {
            Some(s) => s,
            None => return None,
        };
        let broadcaster_user_id = match text_field(v, "broadcaster_user_id") {
            Some(s) => s,
            None => return None,
        };
        let broadcaster_user_login = match text_field(v, "broadcaster_user_login") {
            Some(s) => s,
            None => return None,
        };
        let broadcaster_user_name = match text_field(v, "broadcaster_user_name") {
            Some(s) => s,
            None => return None,
        };
        let kind = match text_field(v, "type") {
            Some(s) => s,
            None => return None,
        };
        let started_at = match text_field(v, "started_at") {
            Some(s) => s,
            None => return None,
        };
        Some(StreamOnline {
            id,
            broadcaster_user_id,
            broadcaster_user_login,
            broadcaster_user_name,
            kind,
            started_at,
        })
    }
}

pub open spec fn stream_offline_decodes(v: JsonValue) -> bool {
    &&& text_member(v, "broadcaster_user_id"@) is Some
    &&& text_member(v, "broadcaster_user_login"@) is Some
    &&& text_member(v, "broadcaster_user_name"@) is Some
}

impl StreamOffline {
    pub open spec fn read_from(self, v: JsonValue) -> bool {
        &&& text_member(v, "broadcaster_user_id"@) == Some(self.broadcaster_user_id@)
        &&& text_member(v, "broadcaster_user_login"@) == Some(self.broadcaster_user_login@)
        &&& text_member(v, "broadcaster_user_name"@) == Some(self.broadcaster_user_name@)
    }

    pub fn from_json(v: &JsonValue) -> (r: Option<StreamOffline>)
        ensures
            r is Some <==> stream_offline_decodes(*v),
            r matches Some(c) ==> c.read_from(*v),
    {
        let broadcaster_user_id = match text_field(v, "broadcaster_user_id") {
            Some(s) => s,
            None => return None,
        };
        let broadcaster_user_login = match text_field(v, "broadcaster_user_login") {
            Some(s) => s,
            None => return None,
        };
        let broadcaster_user_name = match text_field(v, "broadcaster_user_name") {
            Some(s) => s,
            None => return None,
        };
        Some(StreamOffline { broadcaster_user_id, broadcaster_user_login, broadcaster_user_name })
    }
}


/// What a text frame amounts to.
#[derive(PartialEq, Eq, Structural, Clone, Copy, Debug)]
pub enum FrameKind {
    /// It does not follow the envelope or the schema its type names.
    Malformed,
    /// A well-formed frame that carries no notification.
    Ignored,
    /// A notification of a recognized subscription type.
    Notification,
}

/// The subscription types that carry a notification the library reads.
pub open spec fn known_subscription(subtype: Seq<char>) -> bool {
    ||| subtype == "channel.update"@
    ||| subtype == "stream.online"@
    ||| subtype == "stream.offline"@
    ||| subtype == "channel.channel_points_custom_reward_redemption.add"@
}

/// The event of a notification of type `subtype` follows that type's schema.
pub open spec fn event_decodes(subtype: Seq<char>, event: JsonValue) -> bool {
    if subtype == "channel.update"@ {
        channel_update_decodes(event)
    } else if subtype == "stream.online"@ {
        stream_online_decodes(event)
    } else if subtype == "stream.offline"@ {
        stream_offline_decodes(event)
    } else {
        redemption_decodes(event)
    }
}

/// `n` is the notification that `event` of type `subtype` describes.
pub open spec fn notification_read_from(n: NotificationType, subtype: Seq<char>, event: JsonValue) -> bool {
    match n {
        NotificationType::ChannelUpdate(c) => subtype == "channel.update"@ && c.read_from(event),
        NotificationType::StreamOnline(c) => subtype == "stream.online"@ && c.read_from(event),
        NotificationType::StreamOffline(c) => subtype == "stream.offline"@ && c.read_from(event),
        NotificationType::CustomRewardRedemptionAdd(c) => {
            subtype == "channel.channel_points_custom_reward_redemption.add"@ && c.read_from(event)
        },
    }
}

/// The `subscription_type` of a frame whose metadata decodes.
pub open spec fn frame_subtype(v: JsonValue) -> Option<Seq<char>> {
    match member(v, "metadata"@) {
        Some(m) => text_member(m, "subscription_type"@),
        None => None,
    }
}

/// The `event` of a frame's payload.
pub open spec fn frame_event(v: JsonValue) -> Option<JsonValue> {
    match member(v, "payload"@) {
        Some(p) => member(p, "event"@),
        None => None,
    }
}

/// Classifies a text frame: the envelope needs `metadata` and `payload`;
/// only `notification` frames carry a notification, which needs a
/// subscription type and a payload with `subscription` and `event`; the event
/// of a recognized type must follow that type's schema. Other message types,
/// `session_keepalive` and `session_reconnect` among them, are ignored: a
/// session is never migrated to a reconnect URL, it closes and a new one is
/// opened.
pub open spec fn frame_kind(v: JsonValue) -> FrameKind {
    match (member(v, "metadata"@), member(v, "payload"@)) {
        (Some(m), Some(p)) => {
            if !metadata_decodes(m) {
                FrameKind::Malformed
            } else if text_member(m, "message_type"@) != Some("notification"@) {
                FrameKind::Ignored
            } else {
                match (text_member(m, "subscription_type"@), member(p, "subscription"@), member(p, "event"@)) {
                    (Some(st), Some(_), Some(e)) => {
                        if !known_subscription(st) {
                            FrameKind::Ignored
                        } else if event_decodes(st, e) {
                            FrameKind::Notification
                        } else {
                            FrameKind::Malformed
                        }
                    },
                    _ => FrameKind::Malformed,
                }
            }
        },
        _ => FrameKind::Malformed,
    }
}

/// A text frame, decoded.
pub enum DecodedFrame {
    Malformed,
    Ignored,
    Notification(NotificationType),
}

/// Whether `s` reads `lit`.
pub fn text_is(s: &String, lit: &str) -> (r: bool)
    ensures
        r == (s@ == lit@),
{
    let l = String::from_str(lit);
    *s == l
}

/// Decodes a text frame: routes a notification by its subscription type into
/// that type's schema.
pub fn decode_frame(v: &JsonValue) -> (r: DecodedFrame)
    ensures
        r is Malformed <==> frame_kind(*v) == FrameKind::Malformed,
        r is Ignored <==> frame_kind(*v) == FrameKind::Ignored,
        r is Notification <==> frame_kind(*v) == FrameKind::Notification,
        r matches DecodedFrame::Notification(n) ==> frame_subtype(*v) matches Some(st) && frame_event(*v) matches Some(e)
            && notification_read_from(n, st, e),
{
    let (m, p) = match (get_member(v, "metadata"), get_member(v, "payload")) {
        (Some(m), Some(p)) => (m, p),
        _ => return DecodedFrame::Malformed,
    };
    let meta = match MessageMetadata::from_json(m) {
        Some(meta) => meta,
        None => return DecodedFrame::Malformed,
    };
    if !text_is(&meta.message_type, "notification") {
        return DecodedFrame::Ignored;
    }
    let st = match &meta.subscription_type {
        Some(st) => st,
        None => return DecodedFrame::Malformed,
    };
    let event = match (get_member(p, "subscription"), get_member(p, "event")) {
        (Some(_), Some(e)) => e,
        _ => return DecodedFrame::Malformed,
    };
    if text_is(st, "channel.update") {
        match ChannelUpdate::from_json(event) {
            Some(c) => DecodedFrame::Notification(NotificationType::ChannelUpdate(c)),
            None => DecodedFrame::Malformed,
        }
    } else if text_is(st, "stream.online") {
        match StreamOnline::from_json(event) {
            Some(c) => DecodedFrame::Notification(NotificationType::StreamOnline(c)),
            None => DecodedFrame::Malformed,
        }
    } else if text_is(st, "stream.offline") {
        match StreamOffline::from_json(event) {
            Some(c) => DecodedFrame::Notification(NotificationType::StreamOffline(c)),
            None => DecodedFrame::Malformed,
        }
    } else if text_is(st, "channel.channel_points_custom_reward_redemption.add") {
        match CustomRewardRedemptionAdd::from_json(event) {
            Some(c) => DecodedFrame::Notification(NotificationType::CustomRewardRedemptionAdd(c)),
            None => DecodedFrame::Malformed,
        }
    } else {
        DecodedFrame::Ignored
    }
}

} // verus!
