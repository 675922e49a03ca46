//! Checks of the payload decoders and the client-settings records.

use userhub::SessionError;
use userhub::clientsettings::{
    SettingsError, client_version_from_json, client_version_url, installer_cdn_from_json,
    installer_cdns_url, user_channel_from_json, user_channel_url,
};
use userhub::json::parse_json;
use userhub::payload::{
    ChannelType, CommunicationChannelsType, communication_channels_from_json,
    subscription_status_from_json,
};

#[test]
fn subscription_status_full_record() {
    let text = "{\"ConnectionId\":\"abc\",\"SequenceNumber\":1,\"MillisecondsBeforeHandlingReconnect\":2500,\"NamespaceSequenceNumbers\":{\"ChatNotifications\":3,\"toast-in-experience-notifications\":9,\"CommunicationChannels\":null}}";
    let doc = parse_json(text).unwrap();
    let p = subscription_status_from_json(&doc).unwrap();
    assert_eq!(p.connection_id, "abc");
    assert_eq!(p.sequence_number, 1);
    assert_eq!(p.milliseconds_before_handling_reconnect, 2500);
    assert_eq!(p.namespace_sequence_numbers.chat_notifications, Some(3));
    assert_eq!(p.namespace_sequence_numbers.toast_in_experience_notifications, Some(9));
    assert_eq!(p.namespace_sequence_numbers.communication_channels, None);
    assert_eq!(p.namespace_sequence_numbers.revenue_reports, None);
}

#[test]
fn subscription_status_missing_required_field() {
    let doc = parse_json("{\"SequenceNumber\":1}").unwrap();
    assert_eq!(subscription_status_from_json(&doc), Err(SessionError::Decode));
}

#[test]
fn communication_channels_record() {
    let text = "{\"IsTyping\":true,\"Type\":\"ParticipantTyping\",\"Actor\":{\"Id\":42,\"Type\":\"User\"},\"ChannelId\":\"chan-9\",\"ChannelType\":\"PlatformChatGroup\",\"ChannelVertical\":\"chat\",\"NotificationTags\":{\"type\":\"group\"},\"SequenceNumber\":11,\"RealtimeMessageIdentifier\":12,\"IsLiveChannel\":false,\"ShouldSendToEventStream\":true}";
    let doc = parse_json(text).unwrap();
    let p = communication_channels_from_json(&doc).unwrap();
    assert_eq!(p.is_typing, Some(true));
    assert_eq!(p.kind, CommunicationChannelsType::ParticipantTyping);
    assert_eq!(p.actor.id, 42);
    assert_eq!(p.actor.kind, "User");
    assert_eq!(p.channel_id, "chan-9");
    assert_eq!(p.channel_type, ChannelType::PlatformChatGroup);
    assert_eq!(p.channel_vertical, "chat");
    assert_eq!(p.notification_tags.kind, "group");
    assert_eq!(p.sequence_number, 11);
    assert_eq!(p.realtime_message_identifier, 12);
    assert!(!p.is_live_channel);
    assert!(p.should_send_to_event_stream);
}

#[test]
fn communication_channels_unknown_kind_fails() {
    let text = "{\"Type\":\"SomethingElse\",\"Actor\":{\"Id\":1,\"Type\":\"User\"},\"ChannelId\":\"c\",\"ChannelType\":\"PlatformChatGroup\",\"ChannelVertical\":\"v\",\"NotificationTags\":{\"type\":\"group\"},\"SequenceNumber\":1,\"RealtimeMessageIdentifier\":1,\"IsLiveChannel\":true,\"ShouldSendToEventStream\":true}";
    let doc = parse_json(text).unwrap();
    assert_eq!(communication_channels_from_json(&doc), Err(SessionError::Decode));
}

#[test]
fn client_version_record() {
    let doc = parse_json("{\"version\":\"0.626.1.1\",\"clientVersionUpload\":\"version-abc\"}")
        .unwrap();
    let v = client_version_from_json(&doc).unwrap();
    assert_eq!(v.version, "0.626.1.1");
    assert_eq!(v.upload, "version-abc");

    let bad = parse_json("{\"version\":\"0.1\"}").unwrap();
    assert_eq!(client_version_from_json(&bad), Err(SettingsError::Parse));
}

#[test]
fn user_channel_record() {
    let doc = parse_json("{\"channelName\":\"live\",\"token\":\"tok\"}").unwrap();
    let c = user_channel_from_json(&doc).unwrap();
    assert_eq!(c.name, "live");
    assert_eq!(c.token, Some("tok".to_string()));

    let doc = parse_json("{\"channelName\":\"live\",\"token\":null}").unwrap();
    let c = user_channel_from_json(&doc).unwrap();
    assert_eq!(c.token, None);

    let doc = parse_json("{\"channelName\":\"live\"}").unwrap();
    let c = user_channel_from_json(&doc).unwrap();
    assert_eq!(c.token, None);
}

#[test]
fn installer_cdn_pick() {
    // Keys arrive in the parser's order; the first fully available host
    // in that order wins.
    let doc = parse_json("{\"a.example\":50,\"b.example\":100,\"c.example\":100}").unwrap();
    assert_eq!(installer_cdn_from_json(&doc), Ok("b.example".to_string()));

    let doc = parse_json("{\"a.example\":50}").unwrap();
    assert_eq!(installer_cdn_from_json(&doc), Err(SettingsError::NoPrimaryCdn));

    let doc = parse_json("{\"a.example\":\"full\"}").unwrap();
    assert_eq!(installer_cdn_from_json(&doc), Err(SettingsError::Parse));
}

#[test]
fn request_urls() {
    assert_eq!(
        client_version_url("WindowsPlayer", None),
        "https://clientsettings.roblox.com/v2/client-version/WindowsPlayer"
    );
    assert_eq!(
        client_version_url("WindowsPlayer", Some("zcanary")),
        "https://clientsettings.roblox.com/v2/client-version/WindowsPlayer/channel/zcanary"
    );
    assert_eq!(
        user_channel_url(None),
        "https://clientsettings.roblox.com/v2/client-version"
    );
    assert_eq!(
        user_channel_url(Some("MacPlayer")),
        "https://clientsettings.roblox.com/v2/client-version?binaryType=MacPlayer"
    );
    assert_eq!(
        installer_cdns_url(),
        "https://clientsettings.roblox.com/v1/installer-cdns"
    );
}
