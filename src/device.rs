//! The canonical description of a discovered light.

use vstd::prelude::*;

verus! {

/// A colour as red, green and blue channels.
#[derive(Debug, Clone, Copy, PartialEq, Eq, Structural)]
pub struct RGBColor {
    pub r: u8,
    pub g: u8,
    pub b: u8,
}

/// What a light can be asked to do.
#[derive(Debug, Clone, Copy, PartialEq, Eq, Structural)]
pub struct DeviceCapabilities {
    pub power_control: bool,
    pub brightness_control: bool,
    pub color_control: bool,
    pub color_temperature_control: bool,
    pub music_mode: bool,
}

/// The operating state of a light.
#[derive(Debug)]
pub struct DeviceState {
    pub on: bool,
    pub brightness: u8,
    pub color: RGBColor,
    pub color_temperature: u16,
    pub mode: String,
}

/// A light found on the local network.
#[derive(Debug)]
pub struct GoveeDevice {
    pub id: String,
    pub name: String,
    pub model: String,
    pub ip: String,
    pub lan_api_enabled: bool,
    pub online: bool,
    pub state: DeviceState,
    pub capabilities: DeviceCapabilities,
}

/// The state of a light, with its text as a sequence of characters.
pub struct DeviceStateView {
    pub on: bool,
    pub brightness: u8,
    pub color: RGBColor,
    pub color_temperature: u16,
    pub mode: Seq<char>,
}

/// A light, with its text as sequences of characters.
pub struct GoveeDeviceView {
    pub id: Seq<char>,
    pub name: Seq<char>,
    pub model: Seq<char>,
    pub ip: Seq<char>,
    pub lan_api_enabled: bool,
    pub online: bool,
    pub state: DeviceStateView,
    pub capabilities: DeviceCapabilities,
}

impl View for DeviceState {
    type V = DeviceStateView;

    open spec fn view(&self) -> DeviceStateView {
        DeviceStateView {
            on: self.on,
            brightness: self.brightness,
            color: self.color,
            color_temperature: self.color_temperature,
            mode: self.mode@,
        }
    }
}

impl View for GoveeDevice {
    type V = GoveeDeviceView;

    open spec fn view(&self) -> GoveeDeviceView {
        GoveeDeviceView {
            id: self.id@,
            name: self.name@,
            model: self.model@,
            ip: self.ip@,
            lan_api_enabled: self.lan_api_enabled,
            online: self.online,
            state: self.state@,
            capabilities: self.capabilities,
        }
    }
}

impl Clone for DeviceState {
    fn clone(&self) -> (r: Self)
        ensures
            r == *self,
    {
        DeviceState {
            on: self.on,
            brightness: self.brightness,
            color: self.color,
            color_temperature: self.color_temperature,
            mode: self.mode.clone(),
        }
    }
}

impl Clone for GoveeDevice {
    fn clone(&self) -> (r: Self)
        ensures
            r == *self,
    {
        GoveeDevice {
            id: self.id.clone(),
            name: self.name.clone(),
            model: self.model.clone(),
            ip: self.ip.clone(),
            lan_api_enabled: self.lan_api_enabled,
            online: self.online,
            state: self.state.clone(),
            capabilities: self.capabilities,
        }
    }
}

/// Full white, the colour a light reports when it reports none.
pub open spec fn white() -> RGBColor {
    RGBColor { r: 255, g: 255, b: 255 }
}

/// Every capability present.
pub open spec fn all_capabilities() -> DeviceCapabilities {
    DeviceCapabilities {
        power_control: true,
        brightness_control: true,
        color_control: true,
        color_temperature_control: true,
        music_mode: true,
    }
}

} // verus!
