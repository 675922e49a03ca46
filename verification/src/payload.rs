//! The typed payloads a server pushes over the shared channel, and their
//! decoders from the parsed JSON model.
//!
//! Every payload decoder is exact: its contract says, for each parsed
//! document, either the payload value produced or the error, field by
//! field.

use vstd::prelude::*;

use crate::SessionError;
use crate::json::{JsonValue, JsonView, json_of, lookup, lookup_spec, model_members, str_eq};

verus! {

/// The kind of a presence event.
#[derive(Clone, Copy, Debug, PartialEq, Eq, Structural)]
pub enum PresenceType {
    PresenceChanged,
}

/// The kind of a communication-channel event.
#[derive(Clone, Copy, Debug, PartialEq, Eq, Structural)]
pub enum CommunicationChannelsType {
    MessageCreated,
    ParticipantTyping,
    ChannelMetadataUpdated,
}

/// The kind of channel a communication event belongs to.
#[derive(Clone, Copy, Debug, PartialEq, Eq, Structural)]
pub enum ChannelType {
    PlatformChatGroup,
}

/// A bulk presence notification record.
#[derive(Clone, Copy, Debug, PartialEq, Eq, Structural)]
pub struct PresenceBulkNotifications {
    pub user_id: u64,
    pub kind: PresenceType,
    pub sequence_number: u64,
    pub realtime_message_identifier: u64,
    pub should_send_to_event_stream: bool,
}

/// The actor of a communication-channel event.
#[derive(Clone, Debug, PartialEq, Eq)]
pub struct CommunicationChannelsActor {
    pub id: u64,
    pub kind: String,
}

/// The notification tags of a communication-channel event.
#[derive(Clone, Debug, PartialEq, Eq)]
pub struct CommunicationChannelsNotificationTags {
    pub kind: String,
}

/// One communication-channel event record.
#[derive(Clone, Debug, PartialEq, Eq)]
pub struct CommunicationChannels {
    pub is_typing: Option<bool>,
    pub kind: CommunicationChannelsType,
    pub actor: CommunicationChannelsActor,
    pub channel_id: String,
    pub channel_type: ChannelType,
    pub channel_vertical: String,
    pub notification_tags: CommunicationChannelsNotificationTags,
    pub sequence_number: u64,
    pub realtime_message_identifier: u64,
    pub is_live_channel: bool,
    pub should_send_to_event_stream: bool,
}

/// Per-namespace sequence numbers; absence means no sequence number has
/// been reported for that namespace yet.
#[derive(Clone, Copy, Debug, PartialEq, Eq, Structural)]
pub struct SubscriptionStatusNamespaceSequenceNumbers {
    pub chat_notifications: Option<u64>,
    pub voice_notifications: Option<u64>,
    pub game_close_notifications: Option<u64>,
    pub friendship_notifications: Option<u64>,
    pub display_name_notifications: Option<u64>,
    pub user_profile_notifications: Option<u64>,
    pub presence_bulk_notifications: Option<u64>,
    pub game_favorite_notifications: Option<u64>,
    pub authentication_notifications: Option<u64>,
    pub cloud_edit_chat_notifications: Option<u64>,
    pub avatar_asset_ownership_notifications: Option<u64>,
    pub avatar_outfit_ownership_notifications: Option<u64>,
    pub toast_in_experience_notifications: Option<u64>,
    pub toast_in_app_and_experience_notifications: Option<u64>,
    pub call_notification: Option<u64>,
    pub message_notification: Option<u64>,
    pub user_tag_change_notification: Option<u64>,
    pub user_theme_type_change_notification: Option<u64>,
    pub revenue_reports: Option<u64>,
    pub notification_stream: Option<u64>,
    pub communication_channels: Option<u64>,
    pub activity_history_event: Option<u64>,
    pub eligibility_status_changed: Option<u64>,
    pub chat_moderation_type_eligibility: Option<u64>,
}

/// The subscription status pushed after the handshake.
#[derive(Clone, Debug, PartialEq, Eq)]
pub struct SubscriptionStatus {
    pub connection_id: String,
    pub sequence_number: u64,
    pub milliseconds_before_handling_reconnect: u64,
    pub namespace_sequence_numbers: SubscriptionStatusNamespaceSequenceNumbers,
}

/// The mathematical shape of an actor.
pub struct ActorView {
    pub id: u64,
    pub kind: Seq<char>,
}

impl View for CommunicationChannelsActor {
    type V = ActorView;

    open spec fn view(&self) -> ActorView {
        ActorView { id: self.id, kind: self.kind@ }
    }
}

/// The mathematical shape of the notification tags.
pub struct TagsView {
    pub kind: Seq<char>,
}

impl View for CommunicationChannelsNotificationTags {
    type V = TagsView;

    open spec fn view(&self) -> TagsView {
        TagsView { kind: self.kind@ }
    }
}

/// The mathematical shape of a communication-channel event.
pub struct CommunicationChannelsView {
    pub is_typing: Option<bool>,
    pub kind: CommunicationChannelsType,
    pub actor: ActorView,
    pub channel_id: Seq<char>,
    pub channel_type: ChannelType,
    pub channel_vertical: Seq<char>,
    pub notification_tags: TagsView,
    pub sequence_number: u64,
    pub realtime_message_identifier: u64,
    pub is_live_channel: bool,
    pub should_send_to_event_stream: bool,
}

impl View for CommunicationChannels {
    type V = CommunicationChannelsView;

    open spec fn view(&self) -> CommunicationChannelsView {
        CommunicationChannelsView {
            is_typing: self.is_typing,
            kind: self.kind,
            actor: self.actor@,
            channel_id: self.channel_id@,
            channel_type: self.channel_type,
            channel_vertical: self.channel_vertical@,
            notification_tags: self.notification_tags@,
            sequence_number: self.sequence_number,
            realtime_message_identifier: self.realtime_message_identifier,
            is_live_channel: self.is_live_channel,
            should_send_to_event_stream: self.should_send_to_event_stream,
        }
    }
}

/// The mathematical shape of a subscription status.
pub struct SubscriptionStatusView {
    pub connection_id: Seq<char>,
    pub sequence_number: u64,
    pub milliseconds_before_handling_reconnect: u64,
    pub namespace_sequence_numbers: SubscriptionStatusNamespaceSequenceNumbers,
}

impl View for SubscriptionStatus {
    type V = SubscriptionStatusView;

    open spec fn view(&self) -> SubscriptionStatusView {
        SubscriptionStatusView {
            connection_id: self.connection_id@,
            sequence_number: self.sequence_number,
            milliseconds_before_handling_reconnect: self.milliseconds_before_handling_reconnect,
            namespace_sequence_numbers: self.namespace_sequence_numbers,
        }
    }
}

// ------------------------------------------------------------------
// Field extraction, spec side.
// ------------------------------------------------------------------

/// A required unsigned-integer binding.
pub open spec fn spec_field_u64(fields: Seq<(Seq<char>, JsonView)>, key: Seq<char>) -> Result<
    u64,
    SessionError,
> {
    match lookup_spec(fields, key) {
        Some(JsonView::UInt(u)) => Ok(u),
        _ => Err(SessionError::Decode),
    }
}

/// A required string binding.
pub open spec fn spec_field_str(fields: Seq<(Seq<char>, JsonView)>, key: Seq<char>) -> Result<
    Seq<char>,
    SessionError,
> {
    match lookup_spec(fields, key) {
        Some(JsonView::Str(s)) => Ok(s),
        _ => Err(SessionError::Decode),
    }
}

/// A required boolean binding.
pub open spec fn spec_field_bool(fields: Seq<(Seq<char>, JsonView)>, key: Seq<char>) -> Result<
    bool,
    SessionError,
> {
    match lookup_spec(fields, key) {
        Some(JsonView::Bool(b)) => Ok(b),
        _ => Err(SessionError::Decode),
    }
}

/// An optional unsigned-integer binding: absent or null means none.
pub open spec fn spec_field_opt_u64(fields: Seq<(Seq<char>, JsonView)>, key: Seq<char>) -> Result<
    Option<u64>,
    SessionError,
> {
    match lookup_spec(fields, key) {
        None => Ok(None),
        Some(JsonView::Null) => Ok(None),
        Some(JsonView::UInt(u)) => Ok(Some(u)),
        Some(_) => Err(SessionError::Decode),
    }
}

/// An optional boolean binding: absent or null means none.
pub open spec fn spec_field_opt_bool(fields: Seq<(Seq<char>, JsonView)>, key: Seq<char>) -> Result<
    Option<bool>,
    SessionError,
> {
    match lookup_spec(fields, key) {
        None => Ok(None),
        Some(JsonView::Null) => Ok(None),
        Some(JsonView::Bool(b)) => Ok(Some(b)),
        Some(_) => Err(SessionError::Decode),
    }
}

/// A required object binding, as its own binding sequence.
pub open spec fn spec_field_obj(fields: Seq<(Seq<char>, JsonView)>, key: Seq<char>) -> Result<
    Seq<(Seq<char>, JsonView)>,
    SessionError,
> {
    match lookup_spec(fields, key) {
        Some(JsonView::Obj(inner)) => Ok(inner),
        _ => Err(SessionError::Decode),
    }
}

// ------------------------------------------------------------------
// Field extraction, exec side.
// ------------------------------------------------------------------

pub(crate) fn field_u64(fields: &Vec<(String, JsonValue)>, key: &str) -> (r: Result<u64, SessionError>)
    ensures
        r == spec_field_u64(model_members(fields@), key@),
{
    match lookup(fields, key) {
        Some(JsonValue::UInt(u)) => Ok(*u),
        _ => Err(SessionError::Decode),
    }
}

pub(crate) fn field_string(fields: &Vec<(String, JsonValue)>, key: &str) -> (r: Result<String, SessionError>)
    ensures
        match r {
            Ok(s) => spec_field_str(model_members(fields@), key@) == Ok::<_, SessionError>(s@),
            Err(e) => spec_field_str(model_members(fields@), key@) == Err::<Seq<char>, _>(e),
        },
{
    match lookup(fields, key) {
        Some(JsonValue::Str(s)) => Ok(s.clone()),
        _ => Err(SessionError::Decode),
    }
}

pub(crate) fn field_bool(fields: &Vec<(String, JsonValue)>, key: &str) -> (r: Result<bool, SessionError>)
    ensures
        r == spec_field_bool(model_members(fields@), key@),
{
    match lookup(fields, key) {
        Some(JsonValue::Bool(b)) => Ok(*b),
        _ => Err(SessionError::Decode),
    }
}

pub(crate) fn field_opt_u64(fields: &Vec<(String, JsonValue)>, key: &str) -> (r: Result<
    Option<u64>,
    SessionError,
>)
    ensures
        r == spec_field_opt_u64(model_members(fields@), key@),
{
    match lookup(fields, key) {
        None => Ok(None),
        Some(JsonValue::Null) => Ok(None),
        Some(JsonValue::UInt(u)) => Ok(Some(*u)),
        Some(_) => Err(SessionError::Decode),
    }
}

pub(crate) fn field_opt_bool(fields: &Vec<(String, JsonValue)>, key: &str) -> (r: Result<
    Option<bool>,
    SessionError,
>)
    ensures
        r == spec_field_opt_bool(model_members(fields@), key@),
{
    match lookup(fields, key) {
        None => Ok(None),
        Some(JsonValue::Null) => Ok(None),
        Some(JsonValue::Bool(b)) => Ok(Some(*b)),
        Some(_) => Err(SessionError::Decode),
    }
}

pub(crate) fn field_obj<'a>(fields: &'a Vec<(String, JsonValue)>, key: &str) -> (r: Result<
    &'a Vec<(String, JsonValue)>,
    SessionError,
>)
    ensures
        match r {
            Ok(inner) => spec_field_obj(model_members(fields@), key@) == Ok::<_, SessionError>(
                model_members(inner@),
            ),
            Err(e) => spec_field_obj(model_members(fields@), key@) == Err::<
                Seq<(Seq<char>, JsonView)>,
                _,
            >(e),
        },
{
    match lookup(fields, key) {
        Some(JsonValue::Obj(inner)) => Ok(inner),
        _ => Err(SessionError::Decode),
    }
}

// ------------------------------------------------------------------
// The namespace map.
// ------------------------------------------------------------------

/// Every namespace binding is absent, null or an unsigned integer.
pub open spec fn namespace_ok(fields: Seq<(Seq<char>, JsonView)>) -> bool {
    &&& spec_field_opt_u64(fields, "ChatNotifications"@) is Ok
    &&& spec_field_opt_u64(fields, "VoiceNotifications"@) is Ok
    &&& spec_field_opt_u64(fields, "GameCloseNotifications"@) is Ok
    &&& spec_field_opt_u64(fields, "FriendshipNotifications"@) is Ok
    &&& spec_field_opt_u64(fields, "DisplayNameNotifications"@) is Ok
    &&& spec_field_opt_u64(fields, "UserProfileNotifications"@) is Ok
    &&& spec_field_opt_u64(fields, "PresenceBulkNotifications"@) is Ok
    &&& spec_field_opt_u64(fields, "GameFavoriteNotifications"@) is Ok
    &&& spec_field_opt_u64(fields, "AuthenticationNotifications"@) is Ok
    &&& spec_field_opt_u64(fields, "CloudEditChatNotifications"@) is Ok
    &&& spec_field_opt_u64(fields, "AvatarAssetOwnershipNotifications"@) is Ok
    &&& spec_field_opt_u64(fields, "AvatarOutfitOwnershipNotifications"@) is Ok
    &&& spec_field_opt_u64(fields, "toast-in-experience-notifications"@) is Ok
    &&& spec_field_opt_u64(fields, "toast-in-app-and-experience-notifications"@) is Ok
    &&& spec_field_opt_u64(fields, "CallNotification"@) is Ok
    &&& spec_field_opt_u64(fields, "MessageNotification"@) is Ok
    &&& spec_field_opt_u64(fields, "UserTagChangeNotification"@) is Ok
    &&& spec_field_opt_u64(fields, "UserThemeTypeChangeNotification"@) is Ok
    &&& spec_field_opt_u64(fields, "RevenueReports"@) is Ok
    &&& spec_field_opt_u64(fields, "NotificationStream"@) is Ok
    &&& spec_field_opt_u64(fields, "CommunicationChannels"@) is Ok
    &&& spec_field_opt_u64(fields, "ActivityHistoryEvent"@) is Ok
    &&& spec_field_opt_u64(fields, "EligibilityStatusChanged"@) is Ok
    &&& spec_field_opt_u64(fields, "ChatModerationTypeEligibility"@) is Ok
}

/// The namespace map a well-formed binding sequence stands for.
pub open spec fn namespace_val(fields: Seq<(Seq<char>, JsonView)>)
    -> SubscriptionStatusNamespaceSequenceNumbers {
    SubscriptionStatusNamespaceSequenceNumbers {
        chat_notifications: spec_field_opt_u64(fields, "ChatNotifications"@)->Ok_0,
        voice_notifications: spec_field_opt_u64(fields, "VoiceNotifications"@)->Ok_0,
        game_close_notifications: spec_field_opt_u64(fields, "GameCloseNotifications"@)->Ok_0,
        friendship_notifications: spec_field_opt_u64(fields, "FriendshipNotifications"@)->Ok_0,
        display_name_notifications: spec_field_opt_u64(fields, "DisplayNameNotifications"@)->Ok_0,
        user_profile_notifications: spec_field_opt_u64(fields, "UserProfileNotifications"@)->Ok_0,
        presence_bulk_notifications: spec_field_opt_u64(
            fields,
            "PresenceBulkNotifications"@,
        )->Ok_0,
        game_favorite_notifications: spec_field_opt_u64(
            fields,
            "GameFavoriteNotifications"@,
        )->Ok_0,
        authentication_notifications: spec_field_opt_u64(
            fields,
            "AuthenticationNotifications"@,
        )->Ok_0,
        cloud_edit_chat_notifications: spec_field_opt_u64(
            fields,
            "CloudEditChatNotifications"@,
        )->Ok_0,
        avatar_asset_ownership_notifications: spec_field_opt_u64(
            fields,
            "AvatarAssetOwnershipNotifications"@,
        )->Ok_0,
        avatar_outfit_ownership_notifications: spec_field_opt_u64(
            fields,
            "AvatarOutfitOwnershipNotifications"@,
        )->Ok_0,
        toast_in_experience_notifications: spec_field_opt_u64(
            fields,
            "toast-in-experience-notifications"@,
        )->Ok_0,
        toast_in_app_and_experience_notifications: spec_field_opt_u64(
            fields,
            "toast-in-app-and-experience-notifications"@,
        )->Ok_0,
        call_notification: spec_field_opt_u64(fields, "CallNotification"@)->Ok_0,
        message_notification: spec_field_opt_u64(fields, "MessageNotification"@)->Ok_0,
        user_tag_change_notification: spec_field_opt_u64(
            fields,
            "UserTagChangeNotification"@,
        )->Ok_0,
        user_theme_type_change_notification: spec_field_opt_u64(
            fields,
            "UserThemeTypeChangeNotification"@,
        )->Ok_0,
        revenue_reports: spec_field_opt_u64(fields, "RevenueReports"@)->Ok_0,
        notification_stream: spec_field_opt_u64(fields, "NotificationStream"@)->Ok_0,
        communication_channels: spec_field_opt_u64(fields, "CommunicationChannels"@)->Ok_0,
        activity_history_event: spec_field_opt_u64(fields, "ActivityHistoryEvent"@)->Ok_0,
        eligibility_status_changed: spec_field_opt_u64(fields, "EligibilityStatusChanged"@)->Ok_0,
        chat_moderation_type_eligibility: spec_field_opt_u64(
            fields,
            "ChatModerationTypeEligibility"@,
        )->Ok_0,
    }
}

/// The namespace map of a binding sequence, or the decode failure.
pub open spec fn namespace_of_obj(fields: Seq<(Seq<char>, JsonView)>) -> Result<
    SubscriptionStatusNamespaceSequenceNumbers,
    SessionError,
> {
    if namespace_ok(fields) {
        Ok(namespace_val(fields))
    } else {
        Err(SessionError::Decode)
    }
}

fn namespace_from_obj(fields: &Vec<(String, JsonValue)>) -> (r: Result<
    SubscriptionStatusNamespaceSequenceNumbers,
    SessionError,
>)
    ensures
        r == namespace_of_obj(model_members(fields@)),
{
    let chat_notifications = match field_opt_u64(fields, "ChatNotifications") {
        Ok(v) => v,
        Err(e) => return Err(e),
    };
    let voice_notifications = match field_opt_u64(fields, "VoiceNotifications") {
        Ok(v) => v,
        Err(e) => return Err(e),
    };
    let game_close_notifications = match field_opt_u64(fields, "GameCloseNotifications") {
        Ok(v) => v,
        Err(e) => return Err(e),
    };
    let friendship_notifications = match field_opt_u64(fields, "FriendshipNotifications") {
        Ok(v) => v,
        Err(e) => return Err(e),
    };
    let display_name_notifications = match field_opt_u64(fields, "DisplayNameNotifications") {
        Ok(v) => v,
        Err(e) => return Err(e),
    };
    let user_profile_notifications = match field_opt_u64(fields, "UserProfileNotifications") {
        Ok(v) => v,
        Err(e) => return Err(e),
    };
    let presence_bulk_notifications = match field_opt_u64(fields, "PresenceBulkNotifications") {
        Ok(v) => v,
        Err(e) => return Err(e),
    };
    let game_favorite_notifications = match field_opt_u64(fields, "GameFavoriteNotifications") {
        Ok(v) => v,
        Err(e) => return Err(e),
    };
    let authentication_notifications = match field_opt_u64(fields, "AuthenticationNotifications") {
        Ok(v) => v,
        Err(e) => return Err(e),
    };
    let cloud_edit_chat_notifications = match field_opt_u64(fields, "CloudEditChatNotifications") {
        Ok(v) => v,
        Err(e) => return Err(e),
    };
    let avatar_asset_ownership_notifications = match field_opt_u64(
        fields,
        "AvatarAssetOwnershipNotifications",
    ) {
        Ok(v) => v,
        Err(e) => return Err(e),
    };
    let avatar_outfit_ownership_notifications = match field_opt_u64(
        fields,
        "AvatarOutfitOwnershipNotifications",
    ) {
        Ok(v) => v,
        Err(e) => return Err(e),
    };
    let toast_in_experience_notifications = match field_opt_u64(
        fields,
        "toast-in-experience-notifications",
    ) {
        Ok(v) => v,
        Err(e) => return Err(e),
    };
    let toast_in_app_and_experience_notifications = match field_opt_u64(
        fields,
        "toast-in-app-and-experience-notifications",
    ) {
        Ok(v) => v,
        Err(e) => return Err(e),
    };
    let call_notification = match field_opt_u64(fields, "CallNotification") {
        Ok(v) => v,
        Err(e) => return Err(e),
    };
    let message_notification = match field_opt_u64(fields, "MessageNotification") {
        Ok(v) => v,
        Err(e) => return Err(e),
    };
    let user_tag_change_notification = match field_opt_u64(fields, "UserTagChangeNotification") {
        Ok(v) => v,
        Err(e) => return Err(e),
    };
    let user_theme_type_change_notification = match field_opt_u64(
        fields,
        "UserThemeTypeChangeNotification",
    ) {
        Ok(v) => v,
        Err(e) => return Err(e),
    };
    let revenue_reports = match field_opt_u64(fields, "RevenueReports") {
        Ok(v) => v,
        Err(e) => return Err(e),
    };
    let notification_stream = match field_opt_u64(fields, "NotificationStream") {
        Ok(v) => v,
        Err(e) => return Err(e),
    };
    let communication_channels = match field_opt_u64(fields, "CommunicationChannels") {
        Ok(v) => v,
        Err(e) => return Err(e),
    };
    let activity_history_event = match field_opt_u64(fields, "ActivityHistoryEvent") {
        Ok(v) => v,
        Err(e) => return Err(e),
    };
    let eligibility_status_changed = match field_opt_u64(fields, "EligibilityStatusChanged") {
        Ok(v) => v,
        Err(e) => return Err(e),
    };
    let chat_moderation_type_eligibility = match field_opt_u64(
        fields,
        "ChatModerationTypeEligibility",
    ) {
        Ok(v) => v,
        Err(e) => return Err(e),
    };
    Ok(
        SubscriptionStatusNamespaceSequenceNumbers {
            chat_notifications,
            voice_notifications,
            game_close_notifications,
            friendship_notifications,
            display_name_notifications,
            user_profile_notifications,
            presence_bulk_notifications,
            game_favorite_notifications,
            authentication_notifications,
            cloud_edit_chat_notifications,
            avatar_asset_ownership_notifications,
            avatar_outfit_ownership_notifications,
            toast_in_experience_notifications,
            toast_in_app_and_experience_notifications,
            call_notification,
            message_notification,
            user_tag_change_notification,
            user_theme_type_change_notification,
            revenue_reports,
            notification_stream,
            communication_channels,
            activity_history_event,
            eligibility_status_changed,
            chat_moderation_type_eligibility,
        },
    )
}

// ------------------------------------------------------------------
// Subscription status.
// ------------------------------------------------------------------

/// The subscription status a binding sequence stands for, or the first
/// failing field's error.
pub open spec fn subscription_status_of_obj(fields: Seq<(Seq<char>, JsonView)>) -> Result<
    SubscriptionStatusView,
    SessionError,
> {
    match spec_field_str(fields, "ConnectionId"@) {
        Err(e) => Err(e),
        Ok(connection_id) => match spec_field_u64(fields, "SequenceNumber"@) {
            Err(e) => Err(e),
            Ok(sequence_number) => match spec_field_u64(
                fields,
                "MillisecondsBeforeHandlingReconnect"@,
            ) {
                Err(e) => Err(e),
                Ok(ms) => match spec_field_obj(fields, "NamespaceSequenceNumbers"@) {
                    Err(e) => Err(e),
                    Ok(nsf) => match namespace_of_obj(nsf) {
                        Err(e) => Err(e),
                        Ok(ns) => Ok(
                            SubscriptionStatusView {
                                connection_id,
                                sequence_number,
                                milliseconds_before_handling_reconnect: ms,
                                namespace_sequence_numbers: ns,
                            },
                        ),
                    },
                },
            },
        },
    }
}

/// The subscription status a parsed document stands for: the document
/// must be an object of the expected shape.
pub open spec fn subscription_status_of_json(v: JsonView) -> Result<
    SubscriptionStatusView,
    SessionError,
> {
    match v {
        JsonView::Obj(fields) => subscription_status_of_obj(fields),
        _ => Err(SessionError::Decode),
    }
}

/// The subscription status a payload text stands for: the text must be
/// one well-formed JSON document of the expected shape.
pub open spec fn subscription_status_of_text(s: Seq<char>) -> Result<
    SubscriptionStatusView,
    SessionError,
> {
    match json_of(s) {
        Some(v) => subscription_status_of_json(v),
        None => Err(SessionError::Parse),
    }
}

/// Decodes a parsed document into a subscription status, as
/// [`subscription_status_of_json`] says.
pub fn subscription_status_from_json(v: &JsonValue) -> (r: Result<
    SubscriptionStatus,
    SessionError,
>)
    ensures
        match r {
            Ok(p) => subscription_status_of_json(v@) == Ok::<_, SessionError>(p@),
            Err(e) => subscription_status_of_json(v@) == Err::<SubscriptionStatusView, _>(e),
        },
{
    match v {
        JsonValue::Obj(fields) => {
            let connection_id = match field_string(fields, "ConnectionId") {
                Ok(v) => v,
                Err(e) => return Err(e),
            };
            let sequence_number = match field_u64(fields, "SequenceNumber") {
                Ok(v) => v,
                Err(e) => return Err(e),
            };
            let milliseconds_before_handling_reconnect = match field_u64(
                fields,
                "MillisecondsBeforeHandlingReconnect",
            ) {
                Ok(v) => v,
                Err(e) => return Err(e),
            };
            let nsf = match field_obj(fields, "NamespaceSequenceNumbers") {
                Ok(v) => v,
                Err(e) => return Err(e),
            };
            let namespace_sequence_numbers = match namespace_from_obj(nsf) {
                Ok(v) => v,
                Err(e) => return Err(e),
            };
            Ok(
                SubscriptionStatus {
                    connection_id,
                    sequence_number,
                    milliseconds_before_handling_reconnect,
                    namespace_sequence_numbers,
                },
            )
        },
        _ => Err(SessionError::Decode),
    }
}

// ------------------------------------------------------------------
// Communication channels.
// ------------------------------------------------------------------

/// The communication-channel event kind a wire name stands for, if any.
pub open spec fn cc_type_of_name(s: Seq<char>) -> Option<CommunicationChannelsType> {
    if s == "MessageCreated"@ {
        Some(CommunicationChannelsType::MessageCreated)
    } else if s == "ParticipantTyping"@ {
        Some(CommunicationChannelsType::ParticipantTyping)
    } else if s == "ChannelMetadataUpdated"@ {
        Some(CommunicationChannelsType::ChannelMetadataUpdated)
    } else {
        None
    }
}

/// The channel type a wire name stands for, if any.
pub open spec fn channel_type_of_name(s: Seq<char>) -> Option<ChannelType> {
    if s == "PlatformChatGroup"@ {
        Some(ChannelType::PlatformChatGroup)
    } else {
        None
    }
}

/// The actor record a binding sequence stands for.
pub open spec fn actor_of_obj(fields: Seq<(Seq<char>, JsonView)>) -> Result<
    ActorView,
    SessionError,
> {
    match spec_field_u64(fields, "Id"@) {
        Err(e) => Err(e),
        Ok(id) => match spec_field_str(fields, "Type"@) {
            Err(e) => Err(e),
            Ok(kind) => Ok(ActorView { id, kind }),
        },
    }
}

/// The notification tags a binding sequence stands for.
pub open spec fn tags_of_obj(fields: Seq<(Seq<char>, JsonView)>) -> Result<
    TagsView,
    SessionError,
> {
    match spec_field_str(fields, "type"@) {
        Err(e) => Err(e),
        Ok(kind) => Ok(TagsView { kind }),
    }
}

/// The communication-channel event a binding sequence stands for, or
/// the first failing field's error.
pub open spec fn communication_channels_of_obj(fields: Seq<(Seq<char>, JsonView)>) -> Result<
    CommunicationChannelsView,
    SessionError,
> {
    match spec_field_opt_bool(fields, "IsTyping"@) {
        Err(e) => Err(e),
        Ok(is_typing) => match spec_field_str(fields, "Type"@) {
            Err(e) => Err(e),
            Ok(kind_name) => match cc_type_of_name(kind_name) {
                None => Err(SessionError::Decode),
                Some(kind) => match spec_field_obj(fields, "Actor"@) {
                    Err(e) => Err(e),
                    Ok(af) => match actor_of_obj(af) {
                        Err(e) => Err(e),
                        Ok(actor) => match spec_field_str(fields, "ChannelId"@) {
                            Err(e) => Err(e),
                            Ok(channel_id) => match spec_field_str(fields, "ChannelType"@) {
                                Err(e) => Err(e),
                                Ok(ct_name) => match channel_type_of_name(ct_name) {
                                    None => Err(SessionError::Decode),
                                    Some(channel_type) => match spec_field_str(
                                        fields,
                                        "ChannelVertical"@,
                                    ) {
                                        Err(e) => Err(e),
                                        Ok(channel_vertical) => match spec_field_obj(
                                            fields,
                                            "NotificationTags"@,
                                        ) {
                                            Err(e) => Err(e),
                                            Ok(tf) => match tags_of_obj(tf) {
                                                Err(e) => Err(e),
                                                Ok(notification_tags) => match spec_field_u64(
                                                    fields,
                                                    "SequenceNumber"@,
                                                ) {
                                                    Err(e) => Err(e),
                                                    Ok(sequence_number) => match spec_field_u64(
                                                        fields,
                                                        "RealtimeMessageIdentifier"@,
                                                    ) {
                                                        Err(e) => Err(e),
                                                        Ok(rmi) => match spec_field_bool(
                                                            fields,
                                                            "IsLiveChannel"@,
                                                        ) {
                                                            Err(e) => Err(e),
                                                            Ok(is_live_channel) => match
                                                                spec_field_bool(
                                                                fields,
                                                                "ShouldSendToEventStream"@,
                                                            ) {
                                                                Err(e) => Err(e),
                                                                Ok(sstes) => Ok(
                                                                    CommunicationChannelsView {
                                                                        is_typing,
                                                                        kind,
                                                                        actor,
                                                                        channel_id,
                                                                        channel_type,
                                                                        channel_vertical,
                                                                        notification_tags,
                                                                        sequence_number,
                                                                        realtime_message_identifier:
                                                                            rmi,
                                                                        is_live_channel,
                                                                        should_send_to_event_stream:
                                                                            sstes,
                                                                    },
                                                                ),
                                                            },
                                                        },
                                                    },
                                                },
                                            },
                                        },
                                    },
                                },
                            },
                        },
                    },
                },
            },
        },
    }
}

/// The communication-channel event a parsed document stands for.
pub open spec fn communication_channels_of_json(v: JsonView) -> Result<
    CommunicationChannelsView,
    SessionError,
> {
    match v {
        JsonView::Obj(fields) => communication_channels_of_obj(fields),
        _ => Err(SessionError::Decode),
    }
}

/// The communication-channel event a payload text stands for.
pub open spec fn communication_channels_of_text(s: Seq<char>) -> Result<
    CommunicationChannelsView,
    SessionError,
> {
    match json_of(s) {
        Some(v) => communication_channels_of_json(v),
        None => Err(SessionError::Parse),
    }
}

fn actor_from_obj(fields: &Vec<(String, JsonValue)>) -> (r: Result<
    CommunicationChannelsActor,
    SessionError,
>)
    ensures
        match r {
            Ok(a) => actor_of_obj(model_members(fields@)) == Ok::<_, SessionError>(a@),
            Err(e) => actor_of_obj(model_members(fields@)) == Err::<ActorView, _>(e),
        },
{
    let id = match field_u64(fields, "Id") {
        Ok(v) => v,
        Err(e) => return Err(e),
    };
    let kind = match field_string(fields, "Type") {
        Ok(v) => v,
        Err(e) => return Err(e),
    };
    Ok(CommunicationChannelsActor { id, kind })
}

fn tags_from_obj(fields: &Vec<(String, JsonValue)>) -> (r: Result<
    CommunicationChannelsNotificationTags,
    SessionError,
>)
    ensures
        match r {
            Ok(t) => tags_of_obj(model_members(fields@)) == Ok::<_, SessionError>(t@),
            Err(e) => tags_of_obj(model_members(fields@)) == Err::<TagsView, _>(e),
        },
{
    let kind = match field_string(fields, "type") {
        Ok(v) => v,
        Err(e) => return Err(e),
    };
    Ok(CommunicationChannelsNotificationTags { kind })
}

/// Decodes a parsed document into a communication-channel event, as
/// [`communication_channels_of_json`] says.
pub fn communication_channels_from_json(v: &JsonValue) -> (r: Result<
    CommunicationChannels,
    SessionError,
>)
    ensures
        match r {
            Ok(p) => communication_channels_of_json(v@) == Ok::<_, SessionError>(p@),
            Err(e) => communication_channels_of_json(v@) == Err::<CommunicationChannelsView, _>(e),
        },
{
    match v {
        JsonValue::Obj(fields) => {
            let is_typing = match field_opt_bool(fields, "IsTyping") {
                Ok(v) => v,
                Err(e) => return Err(e),
            };
            let kind_name = match field_string(fields, "Type") {
                Ok(v) => v,
                Err(e) => return Err(e),
            };
            let kind = if str_eq(kind_name.as_str(), "MessageCreated") {
                CommunicationChannelsType::MessageCreated
            } else if str_eq(kind_name.as_str(), "ParticipantTyping") {
                CommunicationChannelsType::ParticipantTyping
            } else if str_eq(kind_name.as_str(), "ChannelMetadataUpdated") {
                CommunicationChannelsType::ChannelMetadataUpdated
            } else {
                return Err(SessionError::Decode);
            };
            let af = match field_obj(fields, "Actor") {
                Ok(v) => v,
                Err(e) => return Err(e),
            };
            let actor = match actor_from_obj(af) {
                Ok(v) => v,
                Err(e) => return Err(e),
            };
            let channel_id = match field_string(fields, "ChannelId") {
                Ok(v) => v,
                Err(e) => return Err(e),
            };
            let ct_name = match field_string(fields, "ChannelType") {
                Ok(v) => v,
                Err(e) => return Err(e),
            };
            let channel_type = if str_eq(ct_name.as_str(), "PlatformChatGroup") {
                ChannelType::PlatformChatGroup
            } else {
                return Err(SessionError::Decode);
            };
            let channel_vertical = match field_string(fields, "ChannelVertical") {
                Ok(v) => v,
                Err(e) => return Err(e),
            };
            let tf = match field_obj(fields, "NotificationTags") {
                Ok(v) => v,
                Err(e) => return Err(e),
            };
            let notification_tags = match tags_from_obj(tf) {
                Ok(v) => v,
                Err(e) => return Err(e),
            };
            let sequence_number = match field_u64(fields, "SequenceNumber") {
                Ok(v) => v,
                Err(e) => return Err(e),
            };
            let realtime_message_identifier = match field_u64(fields, "RealtimeMessageIdentifier") {
                Ok(v) => v,
                Err(e) => return Err(e),
            };
            let is_live_channel = match field_bool(fields, "IsLiveChannel") {
                Ok(v) => v,
                Err(e) => return Err(e),
            };
            let should_send_to_event_stream = match field_bool(fields, "ShouldSendToEventStream") {
                Ok(v) => v,
                Err(e) => return Err(e),
            };
            Ok(
                CommunicationChannels {
                    is_typing,
                    kind,
                    actor,
                    channel_id,
                    channel_type,
                    channel_vertical,
                    notification_tags,
                    sequence_number,
                    realtime_message_identifier,
                    is_live_channel,
                    should_send_to_event_stream,
                },
            )
        },
        _ => Err(SessionError::Decode),
    }
}

} // verus!
