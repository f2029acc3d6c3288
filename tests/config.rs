use slidershim::config::{
    Config, DeviceMode, GamepadLayout, KeyboardLayout, LedMode, OutputMode, OutputPolling,
    ReactiveLayout, DEFAULT_CONFIG_JSON,
};
use slidershim::controller_state::{ControllerState, LedState};
use slidershim::pairing::brokenithm_link;
use slidershim::protocol::HardwareSpec;

#[test]
fn polling_names_and_intervals() {
    let cases = [
        ("60", 16666u64),
        ("100", 10000),
        ("250", 4000),
        ("500", 2000),
        ("1000", 1000),
    ];
    for (name, t) in cases {
        assert_eq!(OutputPolling::from_str(name).unwrap().to_t_u64(), t);
    }
    assert!(OutputPolling::from_str("120").is_none());
    assert!(OutputPolling::from_str("").is_none());
}

#[test]
fn default_text_parses_to_default() {
    let c = Config::from_str(DEFAULT_CONFIG_JSON).unwrap();
    assert_eq!(c.device_mode, DeviceMode::Disabled);
    assert!(matches!(c.output_mode, OutputMode::Disabled));
    assert!(matches!(c.led_mode, LedMode::Disabled));
    assert_eq!(c.raw, DEFAULT_CONFIG_JSON);
    let d = Config::default();
    assert_eq!(d.raw, DEFAULT_CONFIG_JSON);
    assert_eq!(d.device_mode, DeviceMode::Disabled);
}

#[test]
fn full_settings_parse() {
    let text = r#"{"deviceMode": "brokenithm-ground-led", "outputMode": "gamepad-neardayo",
        "ledMode": "reactive-8", "keyboardSensitivity": 33, "outputPolling": "500",
        "ledSensitivity": 7}"#;
    let c = Config::from_str(text).unwrap();
    assert_eq!(c.device_mode, DeviceMode::Brokenithm { ground_only: true, led_enabled: true });
    match c.output_mode {
        OutputMode::Gamepad { layout, polling, sensitivity } => {
            assert_eq!(layout, GamepadLayout::Neardayo);
            assert_eq!(polling, OutputPolling::FiveHundred);
            assert_eq!(sensitivity, 33);
        }
        other => panic!("{:?}", other),
    }
    match c.led_mode {
        LedMode::Reactive { layout, sensitivity } => {
            assert_eq!(layout, ReactiveLayout::Even { splits: 8 });
            assert_eq!(sensitivity, 7);
        }
        other => panic!("{:?}", other),
    }
}

#[test]
fn websocket_and_serial_modes() {
    let text = r#"{"deviceMode": "tasoller-two", "outputMode": "websocket", "outputPolling": "60",
        "outputWebsocketUrl": "localhost:3000", "ledMode": "serial", "ledSerialPort": "COM5"}"#;
    let c = Config::from_str(text).unwrap();
    assert_eq!(c.device_mode.hardware_spec(), Some(HardwareSpec::TasollerTwo));
    match c.output_mode {
        OutputMode::Websocket { url, polling } => {
            assert_eq!(url, "localhost:3000");
            assert_eq!(polling, OutputPolling::Sixty);
        }
        other => panic!("{:?}", other),
    }
    match c.led_mode {
        LedMode::Serial { port } => assert_eq!(port, "COM5"),
        other => panic!("{:?}", other),
    }
    let kb = r#"{"deviceMode": "yuancon", "outputMode": "kb-voltex", "outputPolling": "1000",
        "keyboardSensitivity": 20, "ledMode": "websocket", "ledWebsocketUrl": "h:1"}"#;
    let c = Config::from_str(kb).unwrap();
    assert!(matches!(
        c.output_mode,
        OutputMode::Keyboard { layout: KeyboardLayout::Voltex, polling: OutputPolling::Thousand, sensitivity: 20 }
    ));
    assert!(matches!(c.led_mode, LedMode::Websocket { .. }));
}

#[test]
fn rejected_settings() {
    assert!(Config::from_str("not json").is_none());
    assert!(Config::from_str(r#"{"outputMode": "none", "ledMode": "none"}"#).is_none());
    assert!(Config::from_str(r#"{"deviceMode": "x", "outputMode": "none", "ledMode": "none"}"#).is_none());
    // sensitivity out of a byte's range
    assert!(Config::from_str(
        r#"{"deviceMode": "none", "outputMode": "kb-8-deemo", "outputPolling": "60",
            "keyboardSensitivity": 300, "ledMode": "none"}"#
    )
    .is_none());
    // unknown polling rate
    assert!(Config::from_str(
        r#"{"deviceMode": "none", "outputMode": "kb-8-deemo", "outputPolling": "61",
            "keyboardSensitivity": 3, "ledMode": "none"}"#
    )
    .is_none());
    assert!(Config::from_str(
        r#"{"deviceMode": "none", "outputMode": "none", "ledMode": "reactive-4"}"#
    )
    .is_none());
}

#[test]
fn load_falls_back_to_default() {
    assert_eq!(Config::load(None).raw, DEFAULT_CONFIG_JSON);
    assert_eq!(Config::load(Some("{")).device_mode, DeviceMode::Disabled);
    let saved = r#"{"deviceMode": "yuancon", "outputMode": "none", "ledMode": "attract"}"#;
    let c = Config::load(Some(saved));
    assert_eq!(c.device_mode, DeviceMode::Yuancon);
    assert_eq!(c.raw, saved);
    assert!(matches!(c.led_mode, LedMode::Attract));
}

#[test]
fn device_modes_select_hardware() {
    assert_eq!(DeviceMode::TasollerOne.hardware_spec(), Some(HardwareSpec::TasollerOne));
    assert_eq!(DeviceMode::Yuancon.hardware_spec(), Some(HardwareSpec::Yuancon));
    assert_eq!(DeviceMode::Disabled.hardware_spec(), None);
    assert_eq!(
        DeviceMode::Brokenithm { ground_only: false, led_enabled: true }.hardware_spec(),
        None
    );
}

#[test]
fn pairing_link_keeps_dotted_quads() {
    let ips = vec![
        "192.168.1.5".to_string(),
        "fe80::1".to_string(),
        "10.0.0.2".to_string(),
    ];
    assert_eq!(
        brokenithm_link(&ips),
        "http://imp.ress.me/t/sshelper?d=MTkyLjE2OC4xLjU;MTAuMC4wLjI"
    );
    assert_eq!(brokenithm_link(&vec![]), "http://imp.ress.me/t/sshelper?d=");
}

#[test]
fn fresh_states_are_zero() {
    let c = ControllerState::new();
    assert_eq!(c.ground_state, [0u8; 32]);
    assert_eq!(c.air_state, [0u8; 6]);
    assert_eq!(c.extra_state, [0u8; 3]);
    let l = LedState::new();
    assert!(!l.dirty);
    assert!(l.led_state.iter().all(|&b| b == 0));
}
