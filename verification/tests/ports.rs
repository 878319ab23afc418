use wrac_gain_plugin::errors::PluginError;
use wrac_gain_plugin::ports::{
    audio_port_type, is_supported_audio_port_request, resolve_audio_channel_count,
    AudioPortConfigurationRequest, AudioPortType, GainAudioPorts,
};

fn request(is_input: bool, channel_count: u32, port_type: AudioPortType) -> AudioPortConfigurationRequest {
    AudioPortConfigurationRequest { is_input, port_index: 0, channel_count, port_type }
}

#[test]
fn accepts_matching_mono_configuration() {
    let requests = [
        AudioPortConfigurationRequest {
            is_input: true,
            port_index: 0,
            channel_count: 1,
            port_type: AudioPortType::Mono,
        },
        AudioPortConfigurationRequest {
            is_input: false,
            port_index: 0,
            channel_count: 1,
            port_type: AudioPortType::Mono,
        },
    ];

    assert_eq!(resolve_audio_channel_count(2, &requests), Some(1));
}

#[test]
fn rejects_mismatched_input_output_configuration() {
    let requests = [
        AudioPortConfigurationRequest {
            is_input: true,
            port_index: 0,
            channel_count: 1,
            port_type: AudioPortType::Mono,
        },
        AudioPortConfigurationRequest {
            is_input: false,
            port_index: 0,
            channel_count: 2,
            port_type: AudioPortType::Stereo,
        },
    ];

    assert_eq!(resolve_audio_channel_count(2, &requests), None);
}

#[test]
fn port_type_follows_channel_count() {
    assert_eq!(audio_port_type(1), AudioPortType::Mono);
    assert_eq!(audio_port_type(2), AudioPortType::Stereo);
    assert_eq!(audio_port_type(0), AudioPortType::Unspecified);
    assert_eq!(audio_port_type(6), AudioPortType::Unspecified);
}

#[test]
fn supported_requests_are_mono_or_stereo() {
    assert!(is_supported_audio_port_request(&request(true, 1, AudioPortType::Mono)));
    assert!(is_supported_audio_port_request(&request(true, 1, AudioPortType::Unspecified)));
    assert!(is_supported_audio_port_request(&request(false, 2, AudioPortType::Stereo)));
    assert!(is_supported_audio_port_request(&request(false, 2, AudioPortType::Unspecified)));
    assert!(!is_supported_audio_port_request(&request(true, 1, AudioPortType::Stereo)));
    assert!(!is_supported_audio_port_request(&request(true, 2, AudioPortType::Mono)));
    assert!(!is_supported_audio_port_request(&request(true, 4, AudioPortType::Unspecified)));
    assert!(!is_supported_audio_port_request(&request(true, 0, AudioPortType::Unspecified)));
}

#[test]
fn empty_proposal_keeps_current_count() {
    assert_eq!(resolve_audio_channel_count(2, &[]), Some(2));
    assert_eq!(resolve_audio_channel_count(1, &[]), Some(1));
}

#[test]
fn one_sided_proposal_must_match_other_side() {
    let mono_in = [request(true, 1, AudioPortType::Mono)];
    assert_eq!(resolve_audio_channel_count(2, &mono_in), None);
    assert_eq!(resolve_audio_channel_count(1, &mono_in), Some(1));
}

#[test]
fn last_request_for_a_side_wins() {
    let requests = [
        request(true, 1, AudioPortType::Mono),
        request(false, 2, AudioPortType::Stereo),
        request(true, 2, AudioPortType::Unspecified),
    ];
    assert_eq!(resolve_audio_channel_count(1, &requests), Some(2));
}

#[test]
fn rejects_non_main_port() {
    let mut sidechain = request(true, 2, AudioPortType::Stereo);
    sidechain.port_index = 1;
    let requests = [sidechain, request(false, 2, AudioPortType::Stereo)];
    assert_eq!(resolve_audio_channel_count(2, &requests), None);
}

#[test]
fn rejects_unsupported_request_anywhere() {
    let requests = [
        request(true, 2, AudioPortType::Stereo),
        request(false, 2, AudioPortType::Stereo),
        request(true, 2, AudioPortType::Mono),
    ];
    assert_eq!(resolve_audio_channel_count(2, &requests), None);
}

#[test]
fn negotiation_is_idempotent() {
    let requests = [request(true, 1, AudioPortType::Mono), request(false, 1, AudioPortType::Unspecified)];
    let once = resolve_audio_channel_count(2, &requests).unwrap();
    assert_eq!(resolve_audio_channel_count(once, &requests), Some(once));
}

#[test]
fn complete_proposal_ignores_current_layout() {
    let requests = [request(false, 2, AudioPortType::Stereo), request(true, 2, AudioPortType::Stereo)];
    assert_eq!(resolve_audio_channel_count(1, &requests), resolve_audio_channel_count(2, &requests));
    assert_eq!(resolve_audio_channel_count(7, &requests), Some(2));
}

#[test]
fn ports_start_stereo() {
    let ports = GainAudioPorts::new();
    assert_eq!(ports.channel_count(), 2);
    assert_eq!(ports.audio_port_count(true), 1);
    assert_eq!(ports.audio_port_count(false), 1);
    let input = ports.audio_port_info(0, true).unwrap();
    assert_eq!(input.id, 1);
    assert_eq!(input.name, "Main In");
    assert!(input.flags.is_main);
    assert_eq!(input.channel_count, 2);
    assert_eq!(input.port_type, AudioPortType::Stereo);
    assert_eq!(input.in_place_pair, None);
    let output = ports.audio_port_info(0, false).unwrap();
    assert_eq!(output.id, 2);
    assert_eq!(output.name, "Main Out");
    assert_eq!(output.channel_count, 2);
    assert!(ports.audio_port_info(1, true).is_none());
    assert!(ports.audio_port_info(1, false).is_none());
}

#[test]
fn apply_accepted_configuration_updates_both_ports() {
    let mut ports = GainAudioPorts::new();
    let requests = [request(true, 1, AudioPortType::Mono), request(false, 1, AudioPortType::Mono)];
    assert!(ports.can_apply_audio_port_configuration(&requests));
    assert_eq!(ports.apply_audio_port_configuration(&requests), Ok(()));
    assert_eq!(ports.channel_count(), 1);
    assert_eq!(ports.audio_port_info(0, true).unwrap().port_type, AudioPortType::Mono);
    assert_eq!(ports.audio_port_info(0, false).unwrap().channel_count, 1);
}

#[test]
fn apply_rejected_configuration_leaves_ports_unchanged() {
    let mut ports = GainAudioPorts::new();
    let requests = [request(true, 1, AudioPortType::Mono), request(false, 2, AudioPortType::Stereo)];
    assert!(!ports.can_apply_audio_port_configuration(&requests));
    assert_eq!(ports.apply_audio_port_configuration(&requests), Err(PluginError::InvalidState));
    assert_eq!(ports.channel_count(), 2);
}

#[test]
fn restating_current_layout_changes_nothing() {
    let mut ports = GainAudioPorts::new();
    let input = ports.audio_port_info(0, true).unwrap();
    let output = ports.audio_port_info(0, false).unwrap();
    let requests = [
        request(true, input.channel_count, input.port_type),
        request(false, output.channel_count, output.port_type),
    ];
    assert_eq!(ports.apply_audio_port_configuration(&requests), Ok(()));
    assert_eq!(ports.channel_count(), 2);
}
