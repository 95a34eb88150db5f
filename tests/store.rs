use govee_lan::device::{DeviceCapabilities, DeviceState, GoveeDevice, RGBColor};
use govee_lan::registry::GoveeState;

fn device(id: &str, name: &str) -> GoveeDevice {
    GoveeDevice {
        id: id.to_string(),
        name: name.to_string(),
        model: "H6159".to_string(),
        ip: "192.168.1.2".to_string(),
        lan_api_enabled: true,
        online: true,
        state: DeviceState {
            on: false,
            brightness: 50,
            color: RGBColor { r: 255, g: 255, b: 255 },
            color_temperature: 5000,
            mode: "normal".to_string(),
        },
        capabilities: DeviceCapabilities {
            power_control: true,
            brightness_control: true,
            color_control: true,
            color_temperature_control: true,
            music_mode: true,
        },
    }
}

#[test]
fn inserting_twice_keeps_one_entry() {
    let mut reg = GoveeState::new();
    reg.insert(device("A", "one"));
    reg.insert(device("A", "one"));
    let all = reg.get_all();
    assert_eq!(all.iter().filter(|d| d.id == "A").count(), 1);
    assert_eq!(all.len(), 1);
}

#[test]
fn later_insert_replaces_whole_entry() {
    let mut reg = GoveeState::default();
    reg.insert(device("A", "old"));
    reg.insert(device("B", "other"));
    reg.insert(device("A", "new"));
    assert_eq!(reg.get(&"A".to_string()).unwrap().name, "new");
    assert_eq!(reg.get(&"B".to_string()).unwrap().name, "other");
    assert!(reg.get(&"C".to_string()).is_none());
    let mut ids: Vec<String> = reg.get_all().into_iter().map(|d| d.id).collect();
    ids.sort();
    assert_eq!(ids, vec!["A".to_string(), "B".to_string()]);
}

#[test]
fn clear_then_get_all_is_empty() {
    let mut reg = GoveeState::new();
    reg.insert(device("A", "a"));
    reg.insert(device("B", "b"));
    reg.clear();
    assert!(reg.get_all().is_empty());
    assert!(reg.get(&"A".to_string()).is_none());
    let mut empty = GoveeState::new();
    empty.clear();
    assert!(empty.get_all().is_empty());
}
