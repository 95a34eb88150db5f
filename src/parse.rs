//! Turning a device's reply into a [`GoveeDevice`].
//!
//! A reply is `{"msg": {"cmd": <string>, "data": {...}}}`. Two kinds are
//! understood: `"scan"`, a short advertisement, and `"devStatus"`, a full
//! status report. Anything else, or a reply without those members, yields
//! no device.

use vstd::prelude::*;
use crate::device::{
    all_capabilities, white, DeviceCapabilities, DeviceState, DeviceStateView, GoveeDevice,
    GoveeDeviceView, RGBColor,
};
use crate::json::{
    as_bool, as_i64, as_str, as_u64, bool_spec, deref_opt, field, field_of, get_spec, i64_spec,
    str_spec, u64_spec, JsonNumber, JsonValue,
};

verus! {

/// `v` when present, `default` otherwise.
pub open spec fn text_or(v: Option<Seq<char>>, default: Seq<char>) -> Seq<char> {
    match v {
        Some(t) => t,
        None => default,
    }
}

/// One colour channel: the integer's lowest eight bits, 255 when absent.
pub open spec fn channel_spec(color: Option<JsonValue>, key: Seq<char>) -> u8 {
    match u64_spec(field(color, key)) {
        Some(n) => (n % 256) as u8,
        None => 255,
    }
}

/// The colour held by `color`: each channel read from `r`, `g` and `b`.
pub open spec fn color_spec(color: Option<JsonValue>) -> RGBColor {
    match color {
        Some(_) => RGBColor {
            r: channel_spec(color, "r"@),
            g: channel_spec(color, "g"@),
            b: channel_spec(color, "b"@),
        },
        None => white(),
    }
}

/// The device a `"scan"` advertisement with payload `data` describes.
pub open spec fn scan_spec(data: JsonValue, src_ip: Seq<char>) -> Option<GoveeDeviceView> {
    let d = Some(data);
    match str_spec(field(d, "device"@)) {
        None => None,
        Some(id) => Some(
            GoveeDeviceView {
                id,
                name: text_or(
                    str_spec(field(d, "deviceName"@)),
                    text_or(str_spec(field(d, "sku"@)), "Govee Device"@),
                ),
                model: text_or(str_spec(field(d, "sku"@)), "Unknown"@),
                ip: text_or(str_spec(field(d, "ip"@)), src_ip),
                lan_api_enabled: true,
                online: true,
                state: DeviceStateView {
                    on: false,
                    brightness: 50,
                    color: white(),
                    color_temperature: 5000,
                    mode: "normal"@,
                },
                capabilities: all_capabilities(),
            },
        ),
    }
}

/// The device a `"devStatus"` report with payload `data` describes.
pub open spec fn status_spec(data: JsonValue, src_ip: Seq<char>) -> Option<GoveeDeviceView> {
    let d = Some(data);
    match str_spec(field(d, "device"@)) {
        None => None,
        Some(id) => Some(
            GoveeDeviceView {
                id,
                name: text_or(str_spec(field(d, "deviceName"@)), "Unknown Device"@),
                model: text_or(str_spec(field(d, "sku"@)), "Unknown"@),
                ip: src_ip,
                lan_api_enabled: true,
                online: field(d, "onOff"@) is Some,
                state: DeviceStateView {
                    on: i64_spec(field(d, "onOff"@)) == Some(1i64),
                    brightness: match u64_spec(field(d, "brightness"@)) {
                        Some(n) => (n % 256) as u8,
                        None => 0,
                    },
                    color: color_spec(field(d, "color"@)),
                    color_temperature: match u64_spec(field(d, "colorTemInKelvin"@)) {
                        Some(n) => (n % 65536) as u16,
                        None => 5000,
                    },
                    mode: text_or(str_spec(field(d, "mode"@)), "normal"@),
                },
                capabilities: DeviceCapabilities {
                    power_control: true,
                    brightness_control: true,
                    color_control: true,
                    color_temperature_control: field(d, "colorTemInKelvin"@) is Some,
                    music_mode: match bool_spec(field(d, "musicMode"@)) {
                        Some(b) => b,
                        None => false,
                    },
                },
            },
        ),
    }
}

/// The `cmd` text of a reply.
pub open spec fn cmd_of(response: JsonValue) -> Option<Seq<char>> {
    str_spec(field(get_spec(response, "msg"@), "cmd"@))
}

/// The `data` member of a reply.
pub open spec fn data_of(response: JsonValue) -> Option<JsonValue> {
    field(get_spec(response, "msg"@), "data"@)
}

/// The device a reply from `src_ip` describes, if it describes one.
pub open spec fn response_spec(response: JsonValue, src_ip: Seq<char>) -> Option<GoveeDeviceView> {
    match (cmd_of(response), data_of(response)) {
        (Some(cmd), Some(data)) => if cmd == "scan"@ {
            scan_spec(data, src_ip)
        } else if cmd == "devStatus"@ {
            status_spec(data, src_ip)
        } else {
            None
        },
        _ => None,
    }
}

/// The view of an optional device.
pub open spec fn view_opt(d: Option<GoveeDevice>) -> Option<GoveeDeviceView> {
    match d {
        Some(x) => Some(x@),
        None => None,
    }
}

/// The text of an optional string value, or a copy of `default`.
fn text_or_default(v: Option<&String>, default: &str) -> (r: String)
    ensures
        r@ == text_or(
            match v {
                Some(s) => Some(s@),
                None => None,
            },
            default@,
        ),
{
    match v {
        Some(s) => s.clone(),
        None => default.to_owned(),
    }
}

/// One colour channel of `color`.
fn parse_channel(color: Option<&JsonValue>, key: &str) -> (r: u8)
    ensures
        r == channel_spec(deref_opt(color), key@),
{
    match as_u64(field_of(color, key)) {
        Some(n) => (n % 256) as u8,
        None => 255,
    }
}

/// Reads a colour from a `{"r", "g", "b"}` object. A missing channel reads
/// as 255, and a missing colour as white.
pub fn parse_color(color_value: Option<&JsonValue>) -> (r: RGBColor)
    ensures
        r == color_spec(deref_opt(color_value)),
        color_value is None ==> r == white(),
{
    match color_value {
        Some(_) => RGBColor {
            r: parse_channel(color_value, "r"),
            g: parse_channel(color_value, "g"),
            b: parse_channel(color_value, "b"),
        },
        None => RGBColor { r: 255, g: 255, b: 255 },
    }
}

/// Reads a `"scan"` advertisement's payload.
fn parse_scan(data: &JsonValue, src_ip: &str) -> (r: Option<GoveeDevice>)
    ensures
        view_opt(r) == scan_spec(*data, src_ip@),
{
    let d = Some(data);
    let id = match as_str(field_of(d, "device")) {
        Some(s) => s.clone(),
        None => {
            return None;
        },
    };
    let sku = as_str(field_of(d, "sku"));
    let fallback_name = text_or_default(sku, "Govee Device");
    let name = text_or_default(as_str(field_of(d, "deviceName")), fallback_name.as_str());
    let model = text_or_default(sku, "Unknown");
    let ip = text_or_default(as_str(field_of(d, "ip")), src_ip);
    Some(
        GoveeDevice {
            id,
            name,
            model,
            ip,
            lan_api_enabled: true,
            online: true,
            state: DeviceState {
                on: false,
                brightness: 50,
                color: RGBColor { r: 255, g: 255, b: 255 },
                color_temperature: 5000,
                mode: "normal".to_owned(),
            },
            capabilities: DeviceCapabilities {
                power_control: true,
                brightness_control: true,
                color_control: true,
                color_temperature_control: true,
                music_mode: true,
            },
        },
    )
}

/// Reads a `"devStatus"` report's payload.
fn parse_status(data: &JsonValue, src_ip: &str) -> (r: Option<GoveeDevice>)
    ensures
        view_opt(r) == status_spec(*data, src_ip@),
{
    let d = Some(data);
    let id = match as_str(field_of(d, "device")) {
        Some(s) => s.clone(),
        None => {
            return None;
        },
    };
    let on_off = field_of(d, "onOff");
    let on = match as_i64(on_off) {
        Some(n) => n == 1,
        None => false,
    };
    let brightness: u8 = match as_u64(field_of(d, "brightness")) {
        Some(n) => (n % 256) as u8,
        None => 0,
    };
    let kelvin = field_of(d, "colorTemInKelvin");
    let color_temperature: u16 = match as_u64(kelvin) {
        Some(n) => (n % 65536) as u16,
        None => 5000,
    };
    let music_mode = match as_bool(field_of(d, "musicMode")) {
        Some(b) => b,
        None => false,
    };
    Some(
        GoveeDevice {
            id,
            name: text_or_default(as_str(field_of(d, "deviceName")), "Unknown Device"),
            model: text_or_default(as_str(field_of(d, "sku")), "Unknown"),
            ip: src_ip.to_owned(),
            lan_api_enabled: true,
            online: on_off.is_some(),
            state: DeviceState {
                on,
                brightness,
                color: parse_color(field_of(d, "color")),
                color_temperature,
                mode: text_or_default(as_str(field_of(d, "mode")), "normal"),
            },
            capabilities: DeviceCapabilities {
                power_control: true,
                brightness_control: true,
                color_control: true,
                color_temperature_control: kelvin.is_some(),
                music_mode,
            },
        },
    )
}

/// Turns a reply received from `src_ip` into a device. A reply that is not
/// an understood advertisement or status report yields `None`.
pub fn parse_device_response(response: &JsonValue, src_ip: &str) -> (r: Option<GoveeDevice>)
    ensures
        view_opt(r) == response_spec(*response, src_ip@),
{
    let msg = response.get("msg");
    let cmd = match as_str(field_of(msg, "cmd")) {
        Some(c) => c,
        None => {
            return None;
        },
    };
    let data = match field_of(msg, "data") {
        Some(v) => v,
        None => {
            return None;
        },
    };
    if *cmd == "scan".to_owned() {
        parse_scan(data, src_ip)
    } else if *cmd == "devStatus".to_owned() {
        parse_status(data, src_ip)
    } else {
        None
    }
}

/// The integer a JSON number denotes, if it denotes one.
pub open spec fn integer_of(v: Option<JsonValue>) -> Option<int> {
    match v {
        Some(JsonValue::Number(JsonNumber::PosInt(n))) => Some(n as int),
        Some(JsonValue::Number(JsonNumber::NegInt(n))) => Some(n as int),
        _ => None,
    }
}

/// An advertisement that names its device yields a device with that id and
/// every capability.
pub proof fn lemma_scan_keeps_id(response: JsonValue, src_ip: Seq<char>)
    requires
        cmd_of(response) == Some("scan"@),
        data_of(response) is Some,
        str_spec(field(data_of(response), "device"@)) is Some,
    ensures
        response_spec(response, src_ip) is Some,
        response_spec(response, src_ip).unwrap().id == str_spec(
            field(data_of(response), "device"@),
        ).unwrap(),
        response_spec(response, src_ip).unwrap().capabilities == all_capabilities(),
{
}

/// In a status report the light is on exactly when `onOff` is the integer 1.
pub proof fn lemma_status_on_iff_one(response: JsonValue, src_ip: Seq<char>)
    requires
        cmd_of(response) == Some("devStatus"@),
        data_of(response) is Some,
        str_spec(field(data_of(response), "device"@)) is Some,
    ensures
        response_spec(response, src_ip) is Some,
        response_spec(response, src_ip).unwrap().state.on <==> integer_of(
            field(data_of(response), "onOff"@),
        ) == Some(1int),
{
    reveal_strlit("scan");
    reveal_strlit("devStatus");
    assert("scan"@.len() != "devStatus"@.len());
    let v = field(data_of(response), "onOff"@);
    match v {
        Some(JsonValue::Number(JsonNumber::PosInt(n))) => {
            if n <= i64::MAX as u64 {
                assert((n as i64) as int == n as int);
            }
        },
        _ => {},
    }
}

/// A reply without `msg.cmd` or `msg.data`, or with a kind other than the
/// two understood, yields no device.
pub proof fn lemma_unknown_yields_nothing(response: JsonValue, src_ip: Seq<char>)
    requires
        cmd_of(response) is None || data_of(response) is None || (cmd_of(response).unwrap()
            != "scan"@ && cmd_of(response).unwrap() != "devStatus"@),
    ensures
        response_spec(response, src_ip) is None,
{
}

} // verus!
