//! Tests of the settings line codec, the decimal helpers, the bounded
//! device configuration, the port configuration and the menu states.

use mu_protocol::device_config::{
    is_valid_config_name, parse_setting, DeviceConfig, GroupNumber, LoadCapacityIdx,
    MusicVolumeIdx, SoundVolumeIdx,
};
use mu_protocol::error::SettingsParseError;
use mu_protocol::main_menu::{state_for_selection, MainMenuStates};
use mu_protocol::serial_config::PortConfig;
use mu_protocol::text::{parse_trimmed_u8, render_u8};

#[test]
fn parse_setting_exact_values() {
    assert_eq!(parse_setting("groupnumber", b"groupnumber: 5"), Ok(5));
    assert_eq!(parse_setting("groupnumber", b"groupnumber:5"), Ok(5));
    assert_eq!(parse_setting("groupnumber", b"groupnumber: 15\r\n"), Ok(15));
    assert_eq!(parse_setting("groupnumber", b"groupnumber: 255"), Ok(255));
    assert_eq!(parse_setting("groupnumber", b"groupnumber:\t0 "), Ok(0));
}

#[test]
fn parse_setting_bad_shape() {
    let bad = Err(SettingsParseError::BadShape);
    assert_eq!(parse_setting("groupnumber", b"groupnumber 5"), bad);
    assert_eq!(parse_setting("groupnumber", b"soundvolume: 5"), bad);
    assert_eq!(parse_setting("groupnumber", b"groupnumber: 5: 6"), bad);
    assert_eq!(parse_setting("groupnumber", b""), bad);
    assert_eq!(parse_setting("groupnumber", b"xgroupnumber: 5"), bad);
}

#[test]
fn parse_setting_bad_value() {
    let bad = Err(SettingsParseError::BadValue);
    assert_eq!(parse_setting("groupnumber", b"groupnumber: 256"), bad);
    assert_eq!(parse_setting("groupnumber", b"groupnumber: 12a"), bad);
    assert_eq!(parse_setting("groupnumber", b"groupnumber: "), bad);
    assert_eq!(parse_setting("groupnumber", b"groupnumber: -1"), bad);
    assert_eq!(parse_setting("groupnumber", b"groupnumber: 1 2"), bad);
}

#[test]
fn newtype_responses_and_commands() {
    assert_eq!(
        GroupNumber::from_response(b"groupnumber: 7").unwrap().0,
        7
    );
    assert_eq!(
        MusicVolumeIdx::from_response(b"musicvolume: 4").unwrap().0,
        4
    );
    assert_eq!(
        SoundVolumeIdx::from_response(b"soundvolume: 0").unwrap().0,
        0
    );
    assert_eq!(
        LoadCapacityIdx::from_response(b"loadcapacity: 15").unwrap().0,
        15
    );
    assert!(GroupNumber::from_response(b"musicvolume: 7").is_err());

    assert_eq!(GroupNumber(5).to_command(), b"groupnumber 5");
    assert_eq!(MusicVolumeIdx(0).to_command(), b"musicvolume 0");
    assert_eq!(SoundVolumeIdx(4).to_command(), b"soundvolume 4");
    assert_eq!(LoadCapacityIdx(15).to_command(), b"loadcapacity 15");
}

#[test]
fn decimal_helpers_exact() {
    assert_eq!(render_u8(0), b"0");
    assert_eq!(render_u8(9), b"9");
    assert_eq!(render_u8(10), b"10");
    assert_eq!(render_u8(99), b"99");
    assert_eq!(render_u8(100), b"100");
    assert_eq!(render_u8(255), b"255");

    for n in 0..=255u8 {
        let digits = render_u8(n);
        assert_eq!(parse_trimmed_u8(&digits), Some(n));
    }
    assert_eq!(parse_trimmed_u8(b"  42\r\n"), Some(42));
    assert_eq!(parse_trimmed_u8(b"256"), None);
    assert_eq!(parse_trimmed_u8(b""), None);
    assert_eq!(parse_trimmed_u8(b"  "), None);
    assert_eq!(parse_trimmed_u8(b"4 2"), None);
    assert_eq!(parse_trimmed_u8(b"007"), Some(7));
}

#[test]
fn device_config_bounds() {
    let mut config = DeviceConfig::new("default");
    assert_eq!(config.get_group_number().0, 0);
    assert_eq!(config.get_music_volume_idx().0, 0);
    assert_eq!(config.get_sound_volume_idx().0, 2);
    assert_eq!(config.get_load_capacity_idx().0, 0);

    assert!(config.set_group_number(GroupNumber(15)).is_ok());
    assert!(config.set_group_number(GroupNumber(16)).is_err());
    assert_eq!(config.get_group_number().0, 15);

    assert!(config.set_music_volume_idx(MusicVolumeIdx(4)).is_ok());
    assert!(config.set_music_volume_idx(MusicVolumeIdx(5)).is_err());
    assert_eq!(config.get_music_volume_idx().0, 4);

    assert!(config.set_sound_volume_idx(SoundVolumeIdx(4)).is_ok());
    assert!(config.set_sound_volume_idx(SoundVolumeIdx(5)).is_err());
    assert_eq!(config.get_sound_volume_idx().0, 4);

    assert!(config.set_load_capacity_idx(LoadCapacityIdx(15)).is_ok());
    assert!(config.set_load_capacity_idx(LoadCapacityIdx(16)).is_err());
    assert_eq!(config.get_load_capacity_idx().0, 15);
}

#[test]
fn config_name_rules() {
    assert!(is_valid_config_name("pizero"));
    assert!(is_valid_config_name("Lift42"));
    assert!(!is_valid_config_name(""));
    assert!(!is_valid_config_name("has space"));
    assert!(!is_valid_config_name("dot.ini"));

    let mut config = DeviceConfig::new("default");
    assert!(config.change_config_name("lift7").is_ok());
    assert_eq!(config.get_config_name(), "lift7");
    assert!(config.change_config_name("").is_err());
    assert!(config.change_config_name("a b").is_err());
    assert_eq!(config.get_config_name(), "lift7");
}

#[test]
fn port_config_accessors() {
    let mut config = PortConfig::new("default");
    assert_eq!(config.get_config_name(), "default");
    assert_eq!(config.get_port_name(), "/dev/ttyAMA0");
    assert_eq!(config.get_baud_rate(), 9600);

    config.set_port_name("/dev/ttyUSB0".to_string());
    config.set_baud_rate(115200);
    assert_eq!(config.get_port_name(), "/dev/ttyUSB0");
    assert_eq!(config.get_baud_rate(), 115200);
    assert_eq!(config.get_config_name(), "default");
}

#[test]
fn main_menu_selection_states() {
    assert_eq!(
        state_for_selection(0),
        MainMenuStates::ConnectionRequestState
    );
    assert_eq!(state_for_selection(1), MainMenuStates::ConfigurationState);
    assert_eq!(state_for_selection(2), MainMenuStates::ConfigurationState);
    assert_eq!(state_for_selection(3), MainMenuStates::ExitState);
}
