//! Build-time settings of the surrounding program.

use vstd::prelude::*;

verus! {

/// The settings that the network collaborators are started with. The core
/// carries them through and reads none of them.
#[derive(Clone, Copy, Debug, PartialEq, Eq)]
pub struct AppConfig {
    pub wifi_ssid: &'static str,
    pub wifi_psk: &'static str,
    pub mqtt_url: &'static str,
    pub mqtt_user: &'static str,
    pub mqtt_password: &'static str,
    pub mqtt_room_topic: &'static str,
    pub mqtt_command_topic: &'static str,
}

impl AppConfig {
    /// The settings that hold where the build sets nothing: everything is
    /// empty but the name of the network.
    pub open spec fn is_default(&self) -> bool {
        &&& self.wifi_ssid@ == "PhuNetwork"@
        &&& self.wifi_psk@ == ""@
        &&& self.mqtt_url@ == ""@
        &&& self.mqtt_user@ == ""@
        &&& self.mqtt_password@ == ""@
        &&& self.mqtt_room_topic@ == ""@
        &&& self.mqtt_command_topic@ == ""@
    }
}

impl Default for AppConfig {
    fn default() -> (config: AppConfig)
        ensures
            config.is_default(),
    {
        AppConfig {
            wifi_ssid: "PhuNetwork",
            wifi_psk: "",
            mqtt_url: "",
            mqtt_user: "",
            mqtt_password: "",
            mqtt_room_topic: "",
            mqtt_command_topic: "",
        }
    }
}

} // verus!
