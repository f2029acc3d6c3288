use crate::protocol::HardwareSpec;
use vstd::prelude::*;

verus! {

/// What serde_json finds as a string under `key` when it reads `text` as a JSON value.
pub uninterp spec fn json_string_at(text: Seq<char>, key: Seq<char>) -> Option<Seq<char>>;

/// What serde_json finds as an `i64` under `key` when it reads `text` as a JSON value.
pub uninterp spec fn json_integer_at(text: Seq<char>, key: Seq<char>) -> Option<i64>;

/// Relies on `serde_json::from_str` into a `Value`, indexing it by `key`, and
/// `Value::as_str`: the string under `key`, or `None` when `text` is not JSON or
/// holds no string there. The answer depends on the two texts alone.
#[verifier::external_body]
fn json_str_field(text: &str, key: &str) -> (r: Option<String>)
    ensures
        match r {
            Some(s) => json_string_at(text@, key@) == Some(s@),
            None => json_string_at(text@, key@) is None,
        },
{
    let v: serde_json::Value = serde_json::from_str(text).ok()?;
    v[key].as_str().map(|s| s.to_string())
}

/// Relies on `serde_json::from_str` into a `Value`, indexing it by `key`, and
/// `Value::as_i64`: the integer under `key`, or `None` when `text` is not JSON or
/// holds no integer in `i64` range there. The answer depends on the two texts alone.
#[verifier::external_body]
fn json_i64_field(text: &str, key: &str) -> (r: Option<i64>)
    ensures
        r == json_integer_at(text@, key@),
{
    let v: serde_json::Value = serde_json::from_str(text).ok()?;
    v[key].as_i64()
}

/// Whether two texts are equal.
fn str_is(s: &str, lit: &str) -> (r: bool)
    ensures
        r == (s@ == lit@),
{
    s.to_owned() == lit.to_owned()
}

/// Which controller is attached, and how.
#[derive(Clone, Copy, PartialEq, Eq, Structural, Debug)]
pub enum DeviceMode {
    Disabled,
    TasollerOne,
    TasollerTwo,
    Yuancon,
    Brokenithm { ground_only: bool, led_enabled: bool },
}

impl DeviceMode {
    pub open spec fn spec_hardware_spec(self) -> Option<HardwareSpec> {
        match self {
            DeviceMode::TasollerOne => Some(HardwareSpec::TasollerOne),
            DeviceMode::TasollerTwo => Some(HardwareSpec::TasollerTwo),
            DeviceMode::Yuancon => Some(HardwareSpec::Yuancon),
            _ => None,
        }
    }

    /// The USB protocol that this mode drives, if it drives one.
    pub fn hardware_spec(&self) -> (r: Option<HardwareSpec>)
        ensures
            r == self.spec_hardware_spec(),
    {
        match self {
            DeviceMode::TasollerOne => Some(HardwareSpec::TasollerOne),
            DeviceMode::TasollerTwo => Some(HardwareSpec::TasollerTwo),
            DeviceMode::Yuancon => Some(HardwareSpec::Yuancon),
            _ => None,
        }
    }
}

/// The device mode that a settings name selects.
pub open spec fn device_mode_named(name: Seq<char>) -> Option<DeviceMode> {
    if name == "none"@ {
        Some(DeviceMode::Disabled)
    } else if name == "tasoller-one"@ {
        Some(DeviceMode::TasollerOne)
    } else if name == "tasoller-two"@ {
        Some(DeviceMode::TasollerTwo)
    } else if name == "yuancon"@ {
        Some(DeviceMode::Yuancon)
    } else if name == "brokenithm"@ {
        Some(DeviceMode::Brokenithm { ground_only: false, led_enabled: false })
    } else if name == "brokenithm-led"@ {
        Some(DeviceMode::Brokenithm { ground_only: false, led_enabled: true })
    } else if name == "brokenithm-ground"@ {
        Some(DeviceMode::Brokenithm { ground_only: true, led_enabled: false })
    } else if name == "brokenithm-ground-led"@ {
        Some(DeviceMode::Brokenithm { ground_only: true, led_enabled: true })
    } else {
        None
    }
}

fn device_mode_from_name(name: &str) -> (r: Option<DeviceMode>)
    ensures
        r == device_mode_named(name@),
{
    if str_is(name, "none") {
        Some(DeviceMode::Disabled)
    } else if str_is(name, "tasoller-one") {
        Some(DeviceMode::TasollerOne)
    } else if str_is(name, "tasoller-two") {
        Some(DeviceMode::TasollerTwo)
    } else if str_is(name, "yuancon") {
        Some(DeviceMode::Yuancon)
    } else if str_is(name, "brokenithm") {
        Some(DeviceMode::Brokenithm { ground_only: false, led_enabled: false })
    } else if str_is(name, "brokenithm-led") {
        Some(DeviceMode::Brokenithm { ground_only: false, led_enabled: true })
    } else if str_is(name, "brokenithm-ground") {
        Some(DeviceMode::Brokenithm { ground_only: true, led_enabled: false })
    } else if str_is(name, "brokenithm-ground-led") {
        Some(DeviceMode::Brokenithm { ground_only: true, led_enabled: true })
    } else {
        None
    }
}

/// How often emulated outputs are refreshed.
#[derive(Clone, Copy, PartialEq, Eq, Structural, Debug)]
pub enum OutputPolling {
    Sixty,
    Hundred,
    TwoHundredFifty,
    FiveHundred,
    Thousand,
}

/// The polling rate that a settings name selects.
pub open spec fn polling_named(s: Seq<char>) -> Option<OutputPolling> {
    if s == "60"@ {
        Some(OutputPolling::Sixty)
    } else if s == "100"@ {
        Some(OutputPolling::Hundred)
    } else if s == "250"@ {
        Some(OutputPolling::TwoHundredFifty)
    } else if s == "500"@ {
        Some(OutputPolling::FiveHundred)
    } else if s == "1000"@ {
        Some(OutputPolling::Thousand)
    } else {
        None
    }
}

impl OutputPolling {
    /// Tick interval in microseconds.
    pub open spec fn interval(self) -> u64 {
        match self {
            OutputPolling::Sixty => 16666,
            OutputPolling::Hundred => 10000,
            OutputPolling::TwoHundredFifty => 4000,
            OutputPolling::FiveHundred => 2000,
            OutputPolling::Thousand => 1000,
        }
    }

    pub fn from_str(s: &str) -> (r: Option<Self>)
        ensures
            r == polling_named(s@),
    {
        if str_is(s, "60") {
            Some(OutputPolling::Sixty)
        } else if str_is(s, "100") {
            Some(OutputPolling::Hundred)
        } else if str_is(s, "250") {
            Some(OutputPolling::TwoHundredFifty)
        } else if str_is(s, "500") {
            Some(OutputPolling::FiveHundred)
        } else if str_is(s, "1000") {
            Some(OutputPolling::Thousand)
        } else {
            None
        }
    }

    /// The tick interval in microseconds.
    pub fn to_t_u64(&self) -> (r: u64)
        ensures
            r == self.interval(),
    {
        match self {
            OutputPolling::Sixty => 16666,
            OutputPolling::Hundred => 10000,
            OutputPolling::TwoHundredFifty => 4000,
            OutputPolling::FiveHundred => 2000,
            OutputPolling::Thousand => 1000,
        }
    }
}

#[derive(Clone, Copy, PartialEq, Eq, Structural, Debug)]
pub enum KeyboardLayout {
    Tasoller,
    Yuancon,
    Deemo,
    Voltex,
}

#[derive(Clone, Copy, PartialEq, Eq, Structural, Debug)]
pub enum GamepadLayout {
    Voltex,
    Neardayo,
}

/// Where the controller state is sent.
#[derive(Clone, Debug)]
#[allow(inconsistent_fields)]
pub enum OutputMode {
    Disabled,
    Keyboard { layout: KeyboardLayout, polling: OutputPolling, sensitivity: u8 },
    Gamepad { layout: GamepadLayout, polling: OutputPolling, sensitivity: u8 },
    Websocket { url: String, polling: OutputPolling },
}

/// An output mode with its text as characters.
#[allow(inconsistent_fields)]
pub enum OutputModeView {
    Disabled,
    Keyboard { layout: KeyboardLayout, polling: OutputPolling, sensitivity: u8 },
    Gamepad { layout: GamepadLayout, polling: OutputPolling, sensitivity: u8 },
    Websocket { url: Seq<char>, polling: OutputPolling },
}

impl View for OutputMode {
    type V = OutputModeView;

    open spec fn view(&self) -> OutputModeView {
        match self {
            OutputMode::Disabled => OutputModeView::Disabled,
            OutputMode::Keyboard { layout, polling, sensitivity } => OutputModeView::Keyboard {
                layout: *layout,
                polling: *polling,
                sensitivity: *sensitivity,
            },
            OutputMode::Gamepad { layout, polling, sensitivity } => OutputModeView::Gamepad {
                layout: *layout,
                polling: *polling,
                sensitivity: *sensitivity,
            },
            OutputMode::Websocket { url, polling } => OutputModeView::Websocket {
                url: url@,
                polling: *polling,
            },
        }
    }
}

#[derive(Clone, Copy, PartialEq, Eq, Structural, Debug)]
pub enum ReactiveLayout {
    Even { splits: usize },
    Voltex,
}

/// What drives the controller's LEDs.
#[derive(Clone, Debug)]
pub enum LedMode {
    Disabled,
    Reactive { layout: ReactiveLayout, sensitivity: u8 },
    Attract,
    Test,
    Websocket { url: String },
    Serial { port: String },
}

/// An LED mode with its text as characters.
pub enum LedModeView {
    Disabled,
    Reactive { layout: ReactiveLayout, sensitivity: u8 },
    Attract,
    Test,
    Websocket { url: Seq<char> },
    Serial { port: Seq<char> },
}

impl View for LedMode {
    type V = LedModeView;

    open spec fn view(&self) -> LedModeView {
        match self {
            LedMode::Disabled => LedModeView::Disabled,
            LedMode::Reactive { layout, sensitivity } => LedModeView::Reactive {
                layout: *layout,
                sensitivity: *sensitivity,
            },
            LedMode::Attract => LedModeView::Attract,
            LedMode::Test => LedModeView::Test,
            LedMode::Websocket { url } => LedModeView::Websocket { url: url@ },
            LedMode::Serial { port } => LedModeView::Serial { port: port@ },
        }
    }
}

/// The settings, with the text they were read from.
#[derive(Clone, Debug)]
pub struct Config {
    pub raw: String,
    pub device_mode: DeviceMode,
    pub output_mode: OutputMode,
    pub led_mode: LedMode,
}

pub struct ConfigView {
    pub raw: Seq<char>,
    pub device_mode: DeviceMode,
    pub output_mode: OutputModeView,
    pub led_mode: LedModeView,
}

impl View for Config {
    type V = ConfigView;

    open spec fn view(&self) -> ConfigView {
        ConfigView {
            raw: self.raw@,
            device_mode: self.device_mode,
            output_mode: self.output_mode@,
            led_mode: self.led_mode@,
        }
    }
}

/// A sensitivity: an integer that fits in a byte.
pub open spec fn sensitivity_from(v: Option<i64>) -> Option<u8> {
    match v {
        Some(n) => if 0 <= n <= 255 {
            Some(n as u8)
        } else {
            None
        },
        None => None,
    }
}

/// The polling rate named under "outputPolling".
pub open spec fn polling_in(text: Seq<char>) -> Option<OutputPolling> {
    match json_string_at(text, "outputPolling"@) {
        Some(name) => polling_named(name),
        None => None,
    }
}

pub open spec fn keyboard_layout_named(name: Seq<char>) -> Option<KeyboardLayout> {
    if name == "kb-32-tasoller"@ {
        Some(KeyboardLayout::Tasoller)
    } else if name == "kb-32-yuancon"@ {
        Some(KeyboardLayout::Yuancon)
    } else if name == "kb-8-deemo"@ {
        Some(KeyboardLayout::Deemo)
    } else if name == "kb-voltex"@ {
        Some(KeyboardLayout::Voltex)
    } else {
        None
    }
}

pub open spec fn gamepad_layout_named(name: Seq<char>) -> Option<GamepadLayout> {
    if name == "gamepad-voltex"@ {
        Some(GamepadLayout::Voltex)
    } else if name == "gamepad-neardayo"@ {
        Some(GamepadLayout::Neardayo)
    } else {
        None
    }
}

/// The output mode that settings text selects.
pub open spec fn output_mode_in(text: Seq<char>) -> Option<OutputModeView> {
    match json_string_at(text, "outputMode"@) {
        None => None,
        Some(name) => if name == "none"@ {
            Some(OutputModeView::Disabled)
        } else if name == "websocket"@ {
            match (json_string_at(text, "outputWebsocketUrl"@), polling_in(text)) {
                (Some(url), Some(polling)) => Some(OutputModeView::Websocket { url, polling }),
                _ => None,
            }
        } else {
            match (
                polling_in(text),
                sensitivity_from(json_integer_at(text, "keyboardSensitivity"@)),
            ) {
                (Some(polling), Some(sensitivity)) => match keyboard_layout_named(name) {
                    Some(layout) => Some(OutputModeView::Keyboard { layout, polling, sensitivity }),
                    None => match gamepad_layout_named(name) {
                        Some(layout) => Some(
                            OutputModeView::Gamepad { layout, polling, sensitivity },
                        ),
                        None => None,
                    },
                },
                _ => None,
            }
        },
    }
}

pub open spec fn reactive_layout_named(name: Seq<char>) -> Option<ReactiveLayout> {
    if name == "reactive-4"@ {
        Some(ReactiveLayout::Even { splits: 4 })
    } else if name == "reactive-8"@ {
        Some(ReactiveLayout::Even { splits: 8 })
    } else if name == "reactive-16"@ {
        Some(ReactiveLayout::Even { splits: 16 })
    } else if name == "reactive-voltex"@ {
        Some(ReactiveLayout::Voltex)
    } else {
        None
    }
}

/// The LED mode that settings text selects.
pub open spec fn led_mode_in(text: Seq<char>) -> Option<LedModeView> {
    match json_string_at(text, "ledMode"@) {
        None => None,
        Some(name) => if name == "none"@ {
            Some(LedModeView::Disabled)
        } else if name == "attract"@ {
            Some(LedModeView::Attract)
        } else if name == "test"@ {
            Some(LedModeView::Test)
        } else if name == "websocket"@ {
            match json_string_at(text, "ledWebsocketUrl"@) {
                Some(url) => Some(LedModeView::Websocket { url }),
                None => None,
            }
        } else if name == "serial"@ {
            match json_string_at(text, "ledSerialPort"@) {
                Some(port) => Some(LedModeView::Serial { port }),
                None => None,
            }
        } else {
            match (
                reactive_layout_named(name),
                sensitivity_from(json_integer_at(text, "ledSensitivity"@)),
            ) {
                (Some(layout), Some(sensitivity)) => Some(
                    LedModeView::Reactive { layout, sensitivity },
                ),
                _ => None,
            }
        },
    }
}

/// The settings that `text` holds: every mode must be present and known, and
/// every field that the chosen modes read must be present and in range.
pub open spec fn config_in(text: Seq<char>) -> Option<ConfigView> {
    match json_string_at(text, "deviceMode"@) {
        None => None,
        Some(name) => match (device_mode_named(name), output_mode_in(text), led_mode_in(text)) {
            (Some(device_mode), Some(output_mode), Some(led_mode)) => Some(
                ConfigView { raw: text, device_mode, output_mode, led_mode },
            ),
            _ => None,
        },
    }
}

fn polling_field(text: &str) -> (r: Option<OutputPolling>)
    ensures
        r == polling_in(text@),
{
    match json_str_field(text, "outputPolling") {
        Some(name) => OutputPolling::from_str(name.as_str()),
        None => None,
    }
}

fn sensitivity_field(text: &str, key: &str) -> (r: Option<u8>)
    ensures
        r == sensitivity_from(json_integer_at(text@, key@)),
{
    match json_i64_field(text, key) {
        Some(n) => if 0 <= n && n <= 255 {
            Some(n as u8)
        } else {
            None
        },
        None => None,
    }
}

fn output_mode_from(text: &str) -> (r: Option<OutputMode>)
    ensures
        match r {
            Some(m) => output_mode_in(text@) == Some(m@),
            None => output_mode_in(text@) is None,
        },
{
    let name = match json_str_field(text, "outputMode") {
        Some(name) => name,
        None => return None,
    };
    let name = name.as_str();
    if str_is(name, "none") {
        return Some(OutputMode::Disabled);
    }
    if str_is(name, "websocket") {
        let url = json_str_field(text, "outputWebsocketUrl");
        let polling = polling_field(text);
        return match (url, polling) {
            (Some(url), Some(polling)) => Some(OutputMode::Websocket { url, polling }),
            _ => None,
        };
    }
    let polling = match polling_field(text) {
        Some(p) => p,
        None => return None,
    };
    let sensitivity = match sensitivity_field(text, "keyboardSensitivity") {
        Some(s) => s,
        None => return None,
    };
    if str_is(name, "kb-32-tasoller") {
        Some(OutputMode::Keyboard { layout: KeyboardLayout::Tasoller, polling, sensitivity })
    } else if str_is(name, "kb-32-yuancon") {
        Some(OutputMode::Keyboard { layout: KeyboardLayout::Yuancon, polling, sensitivity })
    } else if str_is(name, "kb-8-deemo") {
        Some(OutputMode::Keyboard { layout: KeyboardLayout::Deemo, polling, sensitivity })
    } else if str_is(name, "kb-voltex") {
        Some(OutputMode::Keyboard { layout: KeyboardLayout::Voltex, polling, sensitivity })
    } else if str_is(name, "gamepad-voltex") {
        Some(OutputMode::Gamepad { layout: GamepadLayout::Voltex, polling, sensitivity })
    } else if str_is(name, "gamepad-neardayo") {
        Some(OutputMode::Gamepad { layout: GamepadLayout::Neardayo, polling, sensitivity })
    } else {
        None
    }
}

fn led_mode_from(text: &str) -> (r: Option<LedMode>)
    ensures
        match r {
            Some(m) => led_mode_in(text@) == Some(m@),
            None => led_mode_in(text@) is None,
        },
{
    let name = match json_str_field(text, "ledMode") {
        Some(name) => name,
        None => return None,
    };
    let name = name.as_str();
    if str_is(name, "none") {
        Some(LedMode::Disabled)
    } else if str_is(name, "attract") {
        Some(LedMode::Attract)
    } else if str_is(name, "test") {
        Some(LedMode::Test)
    } else if str_is(name, "websocket") {
        match json_str_field(text, "ledWebsocketUrl") {
            Some(url) => Some(LedMode::Websocket { url }),
            None => None,
        }
    } else if str_is(name, "serial") {
        match json_str_field(text, "ledSerialPort") {
            Some(port) => Some(LedMode::Serial { port }),
            None => None,
        }
    } else {
        let layout = if str_is(name, "reactive-4") {
            Some(ReactiveLayout::Even { splits: 4 })
        } else if str_is(name, "reactive-8") {
            Some(ReactiveLayout::Even { splits: 8 })
        } else if str_is(name, "reactive-16") {
            Some(ReactiveLayout::Even { splits: 16 })
        } else if str_is(name, "reactive-voltex") {
            Some(ReactiveLayout::Voltex)
        } else {
            None
        };
        match (layout, sensitivity_field(text, "ledSensitivity")) {
            (Some(layout), Some(sensitivity)) => Some(LedMode::Reactive { layout, sensitivity }),
            _ => None,
        }
    }
}

/// Settings used when none are saved.
pub const DEFAULT_CONFIG_JSON: &'static str = "{\"deviceMode\": \"none\", \"outputMode\": \"none\", \"ledMode\": \"none\", \"keyboardSensitivity\": 20, \"outputWebsocketUrl\": \"localhost:3000\", \"outputPolling\": \"60\", \"ledSensitivity\": 20, \"ledWebsocketUrl\": \"localhost:3001\", \"ledSerialPort\": \"COM5\"}";

/// The default settings: every mode off.
pub open spec fn default_config_view() -> ConfigView {
    ConfigView {
        raw: DEFAULT_CONFIG_JSON@,
        device_mode: DeviceMode::Disabled,
        output_mode: OutputModeView::Disabled,
        led_mode: LedModeView::Disabled,
    }
}

impl Config {
    /// Reads settings from JSON text; `None` when the text is not JSON, a mode
    /// is missing or unknown, or a field that the chosen mode reads is missing
    /// or out of range.
    pub fn from_str(s: &str) -> (r: Option<Config>)
        ensures
            match r {
                Some(c) => config_in(s@) == Some(c@),
                None => config_in(s@) is None,
            },
    {
        let name = match json_str_field(s, "deviceMode") {
            Some(name) => name,
            None => return None,
        };
        let device_mode = match device_mode_from_name(name.as_str()) {
            Some(d) => d,
            None => return None,
        };
        let output_mode = match output_mode_from(s) {
            Some(m) => m,
            None => return None,
        };
        let led_mode = match led_mode_from(s) {
            Some(m) => m,
            None => return None,
        };
        Some(Config { raw: s.to_owned(), device_mode, output_mode, led_mode })
    }

    /// Every mode off, with the default field values as its text.
    pub fn default() -> (r: Self)
        ensures
            r@ == default_config_view(),
    {
        Config {
            raw: DEFAULT_CONFIG_JSON.to_owned(),
            device_mode: DeviceMode::Disabled,
            output_mode: OutputMode::Disabled,
            led_mode: LedMode::Disabled,
        }
    }

    /// The settings read from `saved`, the text of a saved settings file if
    /// there is one; the defaults when there is none or it cannot be read.
    pub fn load(saved: Option<&str>) -> (r: Self)
        ensures
            r@ == match saved {
                Some(text) => match config_in(text@) {
                    Some(c) => c,
                    None => default_config_view(),
                },
                None => default_config_view(),
            },
    {
        match saved {
            Some(text) => match Self::from_str(text) {
                Some(c) => c,
                None => Self::default(),
            },
            None => Self::default(),
        }
    }
}

} // verus!
