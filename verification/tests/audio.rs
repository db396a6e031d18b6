use re_set_lib::audio::audio_structures::{
    channel_volumes, given_or, Card, CardProfile, DeviceState, InputStream, OutputStream, Sink,
    Source, Volume,
};
use re_set_lib::network::connection::Enum;

#[test]
fn audio_structures_volume_test() {
    let failvolume = Volume::from_i32(101);
    assert!(failvolume.is_none());
    let failvolume = Volume::from_i32(-1);
    assert!(failvolume.is_none());
    let volume = Volume::from_i32(78);
    assert!(volume.is_some());
    let mut volume = volume.unwrap();
    volume.add(200);
    assert_eq!(Volume::from_i32(100).unwrap(), volume);
}

#[test]
fn audio_volume_test() {
    let failvolume = Volume::from_i32(101);
    assert!(failvolume.is_none());
    let failvolume = Volume::from_i32(-1);
    assert!(failvolume.is_none());
    let volume = Volume::from_i32(78);
    assert!(volume.is_some());
    let mut volume = volume.unwrap();
    volume.add(200);
    assert_eq!(Volume::from_i32(100).unwrap(), volume);
}

#[test]
fn volume_stops_at_both_ends() {
    let mut volume = Volume::from_i32(0).unwrap();
    volume.add(i32::MIN);
    assert_eq!(volume.value(), 0);
    volume.add(i32::MAX);
    assert_eq!(volume.value(), 100);
    volume.add(-27);
    assert_eq!(volume.value(), 73);
    volume.add(5);
    assert_eq!(volume.value(), 78);
    assert_eq!(Volume::from_i32(100).unwrap().value(), 100);
}

#[test]
fn device_state_numbers() {
    assert_eq!(DeviceState::from_i32(0), DeviceState::Idle);
    assert_eq!(DeviceState::from_i32(1), DeviceState::Invalid);
    assert_eq!(DeviceState::from_i32(2), DeviceState::Suspended);
    assert_eq!(DeviceState::from_i32(3), DeviceState::Running);
    assert_eq!(DeviceState::from_i32(-7), DeviceState::Running);
    assert_eq!(DeviceState::Suspended.to_i32(), 2);
    assert_eq!(DeviceState::Running.to_i32(), 3);
}

#[test]
fn devices_from_what_the_server_reports() {
    let volumes = vec![65536, 32768, 0, 0];
    let sink = Sink::from_info(
        3,
        Some("alsa_output".to_string()),
        None,
        2,
        &volumes,
        true,
        1,
    );
    assert_eq!(sink.index, 3);
    assert_eq!(sink.name, "alsa_output");
    assert_eq!(sink.alias, "");
    assert_eq!(sink.channels, 2);
    assert_eq!(sink.volume, vec![65536, 32768]);
    assert!(sink.muted);
    assert_eq!(sink.active, 1);
    let source = Source::from_info(4, None, Some("Microphone".to_string()), 0, &volumes, false, -1);
    assert_eq!(source.name, "");
    assert_eq!(source.alias, "Microphone");
    assert_eq!(source.channels, 0);
    assert!(source.volume.is_empty());
    assert_eq!(source.active, -1);
}

#[test]
fn streams_from_what_the_server_reports() {
    let volumes = vec![1, 2, 3];
    let input = InputStream::from_info(
        7,
        Some("song".to_string()),
        Some("player".to_string()),
        3,
        3,
        &volumes,
        false,
        true,
    );
    assert_eq!(input.index, 7);
    assert_eq!(input.name, "song");
    assert_eq!(input.application_name, "player");
    assert_eq!(input.sink_index, 3);
    assert_eq!(input.volume, vec![1, 2, 3]);
    assert!(input.corked && !input.muted);
    let output = OutputStream::from_info(8, None, None, 9, 1, &volumes, true, false);
    assert_eq!(output.name, "");
    assert_eq!(output.application_name, "");
    assert_eq!(output.source_index, 9);
    assert_eq!(output.volume, vec![1]);
    assert!(output.muted && !output.corked);
}

#[test]
fn cards_from_what_the_server_reports() {
    let profile = CardProfile::from_info(Some("hifi".to_string()), None, true);
    assert_eq!(profile.name, "hifi");
    assert_eq!(profile.description, "");
    assert!(profile.available);
    let card = Card::from_info(1, None, vec![profile], None);
    assert_eq!(card.name, "Unnamed");
    assert_eq!(card.active_profile, "Off");
    assert_eq!(card.profiles.len(), 1);
    let card = Card::from_info(2, Some("USB".to_string()), Vec::new(), Some("hifi".to_string()));
    assert_eq!(card.name, "USB");
    assert_eq!(card.active_profile, "hifi");
}

#[test]
fn helpers_for_what_the_server_leaves_out() {
    assert_eq!(given_or(None, "Off"), "Off");
    assert_eq!(given_or(Some("on".to_string()), "Off"), "on");
    assert_eq!(channel_volumes(0, &vec![5, 6]), Vec::<u32>::new());
    assert_eq!(channel_volumes(2, &vec![5, 6]), vec![5, 6]);
    assert_eq!(channel_volumes(1, &vec![5, 6]), vec![5]);
}
