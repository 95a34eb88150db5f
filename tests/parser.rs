use govee_lan::json::{JsonNumber, JsonValue};
use govee_lan::parse::{parse_color, parse_device_response};

fn s(t: &str) -> JsonValue {
    JsonValue::String(t.to_string())
}

fn n(v: u64) -> JsonValue {
    JsonValue::Number(JsonNumber::PosInt(v))
}

fn obj(members: Vec<(&str, JsonValue)>) -> JsonValue {
    JsonValue::Object(members.into_iter().map(|(k, v)| (k.to_string(), v)).collect())
}

fn reply(cmd: &str, data: JsonValue) -> JsonValue {
    obj(vec![("msg", obj(vec![("cmd", s(cmd)), ("data", data)]))])
}

#[test]
fn scan_reply_keeps_id_and_all_capabilities() {
    let r = reply("scan", obj(vec![("device", s("AA:BB")), ("sku", s("H6159"))]));
    let d = parse_device_response(&r, "10.0.0.7").unwrap();
    assert_eq!(d.id, "AA:BB");
    assert_eq!(d.name, "H6159");
    assert_eq!(d.model, "H6159");
    assert_eq!(d.ip, "10.0.0.7");
    assert!(d.lan_api_enabled);
    assert!(d.online);
    let c = d.capabilities;
    assert!(c.power_control && c.brightness_control && c.color_control);
    assert!(c.color_temperature_control && c.music_mode);
}

#[test]
fn scan_reply_state_defaults() {
    let r = reply("scan", obj(vec![("device", s("X"))]));
    let d = parse_device_response(&r, "10.0.0.8").unwrap();
    assert_eq!(d.name, "Govee Device");
    assert_eq!(d.model, "Unknown");
    assert!(!d.state.on);
    assert_eq!(d.state.brightness, 50);
    assert_eq!((d.state.color.r, d.state.color.g, d.state.color.b), (255, 255, 255));
    assert_eq!(d.state.color_temperature, 5000);
    assert_eq!(d.state.mode, "normal");
}

#[test]
fn scan_reply_prefers_its_own_name_and_ip() {
    let data = obj(vec![
        ("device", s("X")),
        ("deviceName", s("Desk")),
        ("sku", s("H6001")),
        ("ip", s("192.168.0.9")),
    ]);
    let d = parse_device_response(&reply("scan", data), "10.0.0.8").unwrap();
    assert_eq!(d.name, "Desk");
    assert_eq!(d.model, "H6001");
    assert_eq!(d.ip, "192.168.0.9");
}

#[test]
fn scan_reply_without_device_yields_nothing() {
    let r = reply("scan", obj(vec![("sku", s("H6159"))]));
    assert!(parse_device_response(&r, "10.0.0.7").is_none());
    let r = reply("scan", obj(vec![("device", n(5))]));
    assert!(parse_device_response(&r, "10.0.0.7").is_none());
}

#[test]
fn status_reply_reads_every_field() {
    let data = obj(vec![
        ("device", s("D1")),
        ("deviceName", s("Shelf")),
        ("sku", s("H619A")),
        ("onOff", n(1)),
        ("brightness", n(80)),
        ("color", obj(vec![("r", n(1)), ("g", n(2)), ("b", n(3))])),
        ("colorTemInKelvin", n(2700)),
        ("mode", s("music")),
        ("musicMode", JsonValue::Bool(true)),
    ]);
    let d = parse_device_response(&reply("devStatus", data), "10.1.1.1").unwrap();
    assert_eq!(d.id, "D1");
    assert_eq!(d.name, "Shelf");
    assert_eq!(d.model, "H619A");
    assert_eq!(d.ip, "10.1.1.1");
    assert!(d.online);
    assert!(d.state.on);
    assert_eq!(d.state.brightness, 80);
    assert_eq!((d.state.color.r, d.state.color.g, d.state.color.b), (1, 2, 3));
    assert_eq!(d.state.color_temperature, 2700);
    assert_eq!(d.state.mode, "music");
    assert!(d.capabilities.color_temperature_control);
    assert!(d.capabilities.music_mode);
}

#[test]
fn status_reply_defaults() {
    let d = parse_device_response(&reply("devStatus", obj(vec![("device", s("D2"))])), "h").unwrap();
    assert_eq!(d.name, "Unknown Device");
    assert_eq!(d.model, "Unknown");
    assert!(!d.online);
    assert!(!d.state.on);
    assert_eq!(d.state.brightness, 0);
    assert_eq!((d.state.color.r, d.state.color.g, d.state.color.b), (255, 255, 255));
    assert_eq!(d.state.color_temperature, 5000);
    assert_eq!(d.state.mode, "normal");
    assert!(!d.capabilities.color_temperature_control);
    assert!(!d.capabilities.music_mode);
    assert!(d.capabilities.power_control);
}

#[test]
fn status_on_only_for_integer_one() {
    let on = |v: JsonValue| {
        let data = obj(vec![("device", s("D")), ("onOff", v)]);
        let d = parse_device_response(&reply("devStatus", data), "h").unwrap();
        assert!(d.online);
        d.state.on
    };
    assert!(on(n(1)));
    assert!(!on(n(0)));
    assert!(!on(n(2)));
    assert!(!on(JsonValue::Number(JsonNumber::NegInt(-1))));
    assert!(!on(JsonValue::Number(JsonNumber::Float)));
    assert!(!on(s("1")));
    assert!(!on(JsonValue::Bool(true)));
}

#[test]
fn status_numbers_are_truncated() {
    let data = obj(vec![("device", s("D")), ("brightness", n(300)), ("colorTemInKelvin", n(70000))]);
    let d = parse_device_response(&reply("devStatus", data), "h").unwrap();
    assert_eq!(d.state.brightness, 44);
    assert_eq!(d.state.color_temperature, 4464);
}

#[test]
fn missing_cmd_or_data_or_unknown_cmd_yields_nothing() {
    let data = obj(vec![("device", s("D"))]);
    let no_cmd = obj(vec![("msg", obj(vec![("data", obj(vec![("device", s("D"))]))]))]);
    let no_data = obj(vec![("msg", obj(vec![("cmd", s("scan"))]))]);
    let no_msg = obj(vec![("cmd", s("scan")), ("data", obj(vec![("device", s("D"))]))]);
    assert!(parse_device_response(&no_cmd, "h").is_none());
    assert!(parse_device_response(&no_data, "h").is_none());
    assert!(parse_device_response(&no_msg, "h").is_none());
    assert!(parse_device_response(&reply("turn", data), "h").is_none());
    assert!(parse_device_response(&JsonValue::Null, "h").is_none());
    assert!(parse_device_response(&JsonValue::Array(vec![]), "h").is_none());
}

#[test]
fn color_parses_exact_channels() {
    let c = obj(vec![("r", n(10)), ("g", n(20)), ("b", n(30))]);
    let rgb = parse_color(Some(&c));
    assert_eq!((rgb.r, rgb.g, rgb.b), (10, 20, 30));
    let d = parse_device_response(&reply("devStatus", obj(vec![("device", s("D")), ("color", c)])), "h")
        .unwrap();
    assert_eq!((d.state.color.r, d.state.color.g, d.state.color.b), (10, 20, 30));
}

#[test]
fn color_missing_is_white() {
    let rgb = parse_color(None);
    assert_eq!((rgb.r, rgb.g, rgb.b), (255, 255, 255));
    let partial = obj(vec![("g", n(7))]);
    let rgb = parse_color(Some(&partial));
    assert_eq!((rgb.r, rgb.g, rgb.b), (255, 7, 255));
    let rgb = parse_color(Some(&obj(vec![("r", n(511))])));
    assert_eq!(rgb.r, 255);
    let rgb = parse_color(Some(&obj(vec![("r", n(256))])));
    assert_eq!(rgb.r, 0);
}

#[test]
fn object_lookup_takes_first_member() {
    let v = obj(vec![("a", n(1)), ("b", n(2)), ("a", n(3))]);
    match v.get("a") {
        Some(JsonValue::Number(JsonNumber::PosInt(x))) => assert_eq!(*x, 1),
        _ => panic!("member a missing"),
    }
    assert!(v.get("c").is_none());
    assert!(s("a").get("a").is_none());
}
