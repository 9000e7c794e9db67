//! Link-session and command-layer tests over the in-memory transports: the
//! loopback echo, the handshake retry bound, and the atomicity of the
//! settings pull and push under the retry policy.

use mu_protocol::client::{send_proto_message, recv_proto_message, HostClient};
use mu_protocol::config_client::{
    pull_command_handler, push_command_handler, MUClient, StreamingMode,
};
use mu_protocol::device_config::DeviceConfig;
use mu_protocol::error::{CommandError, DeviceConnectError, FrameDecodeError, RequestError, TransportError};
use mu_protocol::mu_frame::MUFrame;
use mu_protocol::transport::{LoopbackTransport, ScriptedTransport};

fn frame_of(payload: &[u8]) -> Vec<u8> {
    let mut frame = MUFrame::new();
    frame.set_data(payload.to_vec()).unwrap();
    frame.serialize()
}

#[test]
fn test_send_and_recv() {
    let mut frame_to_send = MUFrame::new();
    frame_to_send
        .set_data(b"get server_info\n".to_vec())
        .unwrap();

    let mut buf = LoopbackTransport::new();

    send_proto_message(&frame_to_send, &mut buf).unwrap();

    let received_frame = recv_proto_message(&mut buf).unwrap();
    assert_eq!(received_frame.get_data(), frame_to_send.get_data());
    assert_eq!(received_frame, frame_to_send);
}

#[test]
fn handshake_succeeds_on_first_greeting() {
    let transport = ScriptedTransport::new(vec![frame_of(b"Hi!\r\n")]);
    assert!(HostClient::connect(transport).is_ok());
}

#[test]
fn handshake_succeeds_on_third_attempt() {
    let transport = ScriptedTransport::new(vec![
        frame_of(b"No!\r\n"),
        frame_of(b"???\r\n"),
        frame_of(b"Hi!\r\n"),
    ]);
    assert!(HostClient::connect(transport).is_ok());
}

#[test]
fn handshake_fails_after_exactly_three_attempts() {
    // a device that always answers with a valid frame whose payload is not
    // the expected greeting
    let transport = ScriptedTransport::new(vec![
        frame_of(b"No!\r\n"),
        frame_of(b"No!\r\n"),
        frame_of(b"No!\r\n"),
        frame_of(b"No!\r\n"),
        frame_of(b"No!\r\n"),
    ]);
    let r = HostClient::connect(transport);
    match r {
        Err(e) => assert_eq!(e, DeviceConnectError::HandshakeFailed { attempts: 3 }),
        Ok(_) => panic!("handshake accepted a non-matching greeting"),
    }
}

#[test]
fn handshake_counts_transport_failures() {
    // no responses at all: every read times out, still exactly 3 attempts
    let transport = ScriptedTransport::new(Vec::new());
    let r = HostClient::connect(transport);
    match r {
        Err(e) => assert_eq!(e, DeviceConnectError::HandshakeFailed { attempts: 3 }),
        Ok(_) => panic!("handshake accepted a dead transport"),
    }
}

#[test]
fn send_request_round_trips_text() {
    let transport = ScriptedTransport::new(vec![frame_of(b"Hi!\r\n"), frame_of(b"pong\n")]);
    let mut client = HostClient::connect(transport).unwrap();
    let reply = client.send_request("ping").unwrap();
    assert_eq!(reply, "pong\n");
}

#[test]
fn pull_retries_whole_sequence_and_commits_once() {
    // handshake, then attempt one: group and music answer, the third fetch
    // gets a malformed frame; attempt two: all four answer, with values that
    // differ from attempt one
    let responses = vec![
        frame_of(b"Hi!\r\n"),
        frame_of(b"groupnumber: 5"),
        frame_of(b"musicvolume: 2"),
        vec![0x00, 0x01, 0x02],
        frame_of(b"groupnumber: 7"),
        frame_of(b"musicvolume: 1"),
        frame_of(b"soundvolume: 3"),
        frame_of(b"loadcapacity: 9"),
    ];
    let transport = ScriptedTransport::new(responses);
    let mut client = MUClient::new(transport).unwrap();
    let mut config = DeviceConfig::new("default");

    pull_command_handler(&mut config, &mut client).unwrap();

    // nothing of the failed first attempt survives
    assert_eq!(config.group_number.0, 7);
    assert_eq!(config.music_volume_idx.0, 1);
    assert_eq!(config.sound_volume_idx.0, 3);
    assert_eq!(config.load_capacity_idx.0, 9);
    assert_eq!(config.get_config_name(), "default");

    // the second attempt restarted from the first query
    let expected = vec![
        frame_of(b"hello\n"),
        frame_of(b"get groupnumber\n"),
        frame_of(b"get musicvolume\n"),
        frame_of(b"get soundvolume\n"),
        frame_of(b"get groupnumber\n"),
        frame_of(b"get musicvolume\n"),
        frame_of(b"get soundvolume\n"),
        frame_of(b"get loadcapacity\n"),
    ];
    assert_eq!(client.transport().writes(), expected.len());
    for (i, want) in expected.iter().enumerate() {
        assert_eq!(client.transport().written_at(i).unwrap(), want);
    }
}

#[test]
fn pull_failure_leaves_config_untouched() {
    // every fetch after the handshake times out
    let transport = ScriptedTransport::new(vec![frame_of(b"Hi!\r\n")]);
    let mut client = MUClient::new(transport).unwrap();
    let mut config = DeviceConfig::new("default");
    config.set_group_number(mu_protocol::device_config::GroupNumber(3)).unwrap();

    let r = pull_command_handler(&mut config, &mut client);
    assert_eq!(r, Err(CommandError::PullRequestFailed { attempts: 3 }));
    assert_eq!(config.group_number.0, 3);
    assert_eq!(config.music_volume_idx.0, 0);
    assert_eq!(config.sound_volume_idx.0, 2);
    assert_eq!(config.load_capacity_idx.0, 0);
    assert_eq!(config.get_config_name(), "default");
}

#[test]
fn pull_rejects_out_of_range_value_atomically() {
    // the device reports a group number beyond its bound on every attempt
    let responses = vec![
        frame_of(b"Hi!\r\n"),
        frame_of(b"groupnumber: 16"),
        frame_of(b"musicvolume: 1"),
        frame_of(b"soundvolume: 1"),
        frame_of(b"loadcapacity: 1"),
        frame_of(b"groupnumber: 16"),
        frame_of(b"musicvolume: 1"),
        frame_of(b"soundvolume: 1"),
        frame_of(b"loadcapacity: 1"),
        frame_of(b"groupnumber: 16"),
        frame_of(b"musicvolume: 1"),
        frame_of(b"soundvolume: 1"),
        frame_of(b"loadcapacity: 1"),
    ];
    let transport = ScriptedTransport::new(responses);
    let mut client = MUClient::new(transport).unwrap();
    let mut config = DeviceConfig::new("default");

    let r = pull_command_handler(&mut config, &mut client);
    assert_eq!(r, Err(CommandError::PullRequestFailed { attempts: 3 }));
    assert_eq!(config.group_number.0, 0);
    assert_eq!(config.music_volume_idx.0, 0);
}

#[test]
fn push_sends_all_settings_then_streaming() {
    let responses = vec![
        frame_of(b"Hi!\r\n"),
        frame_of(b"ok\n"),
        frame_of(b"ok\n"),
        frame_of(b"ok\n"),
        frame_of(b"ok\n"),
        frame_of(b"ok\n"),
    ];
    let transport = ScriptedTransport::new(responses);
    let mut client = MUClient::new(transport).unwrap();
    let mut config = DeviceConfig::new("default");
    config.set_group_number(mu_protocol::device_config::GroupNumber(7)).unwrap();
    config.set_music_volume_idx(mu_protocol::device_config::MusicVolumeIdx(1)).unwrap();
    config.set_sound_volume_idx(mu_protocol::device_config::SoundVolumeIdx(3)).unwrap();
    config.set_load_capacity_idx(mu_protocol::device_config::LoadCapacityIdx(9)).unwrap();

    push_command_handler(&config, &mut client).unwrap();
}

#[test]
fn push_failure_reported_after_three_attempts() {
    // the handshake succeeds, every later read times out
    let transport = ScriptedTransport::new(vec![frame_of(b"Hi!\r\n")]);
    let mut client = MUClient::new(transport).unwrap();
    let config = DeviceConfig::new("default");

    let r = push_command_handler(&config, &mut client);
    assert_eq!(r, Err(CommandError::PushRequestFailed { attempts: 3 }));
}

#[test]
fn request_errors_tell_transport_and_decode_apart() {
    // a malformed response frame
    let transport = ScriptedTransport::new(vec![frame_of(b"Hi!\r\n"), vec![0x00, 0x01, 0x02]]);
    let mut client = HostClient::connect(transport).unwrap();
    assert_eq!(
        client.send_request("ping"),
        Err(RequestError::RequestDecodeError(FrameDecodeError::BadDataSize))
    );

    // no response at all
    let transport = ScriptedTransport::new(vec![frame_of(b"Hi!\r\n")]);
    let mut client = HostClient::connect(transport).unwrap();
    assert_eq!(
        client.send_request("ping"),
        Err(RequestError::RequestIoError(TransportError::Timeout))
    );
}

#[test]
fn streaming_failure_reported_after_three_attempts() {
    // the push succeeds, the streaming request never gets an answer
    let responses = vec![
        frame_of(b"Hi!\r\n"),
        frame_of(b"ok\n"),
        frame_of(b"ok\n"),
        frame_of(b"ok\n"),
        frame_of(b"ok\n"),
    ];
    let transport = ScriptedTransport::new(responses);
    let mut client = MUClient::new(transport).unwrap();
    let config = DeviceConfig::new("default");

    let r = push_command_handler(&config, &mut client);
    assert_eq!(r, Err(CommandError::StreamingRequestFailed { attempts: 3 }));
}

#[test]
fn streaming_mode_codes() {
    assert_eq!(StreamingMode::SilentMode.code(), 0);
    assert_eq!(StreamingMode::OnChangeMode.code(), 1);
    assert_eq!(StreamingMode::PeriodicMode.code(), 2);
    assert_eq!(StreamingMode::OnDemandMode.code(), 3);
}

#[test]
fn wire_traffic_of_one_pull() {
    // what exactly crosses the wire: the handshake frame, then the four
    // queries, each a complete frame with its newline-terminated payload
    let responses = vec![
        frame_of(b"Hi!\r\n"),
        frame_of(b"groupnumber: 1"),
        frame_of(b"musicvolume: 1"),
        frame_of(b"soundvolume: 1"),
        frame_of(b"loadcapacity: 1"),
    ];
    let transport = ScriptedTransport::new(responses);
    let mut client = MUClient::new(transport).unwrap();
    let mut config = DeviceConfig::new("default");
    client.get_settings_from_device(&mut config).unwrap();
    let expected = vec![
        frame_of(b"hello\n"),
        frame_of(b"get groupnumber\n"),
        frame_of(b"get musicvolume\n"),
        frame_of(b"get soundvolume\n"),
        frame_of(b"get loadcapacity\n"),
    ];
    assert_eq!(client.transport().writes(), expected.len());
    for (i, want) in expected.iter().enumerate() {
        assert_eq!(client.transport().written_at(i).unwrap(), want);
    }
}
