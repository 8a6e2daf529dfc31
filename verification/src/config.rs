//! The configuration the node starts from.

use vstd::prelude::*;
use vstd::string::*;

verus! {

/// Everything the node is told at startup.
#[derive(Debug, PartialEq, Eq)]
pub struct AppConfig {
    pub wifi: WifiConfig,
    pub home_assistant: HomeAssistantConfig,
    pub plant_display: PlantDisplayConfig,
}

/// The network to join.
#[derive(Debug, PartialEq, Eq)]
pub struct WifiConfig {
    pub ssid: String,
    pub password: String,
}

/// The broker that takes the readings.
#[derive(Debug, PartialEq, Eq)]
pub struct HomeAssistantConfig {
    pub url: String,
}

/// What the panel shows besides the readings.
#[derive(Debug, PartialEq, Eq)]
pub struct PlantDisplayConfig {
    pub plant_name: String,
}

/// The built-in configuration. It always loads. The password is left empty:
/// it is set per device and kept out of the sources.
pub fn load_config() -> (loaded: Result<AppConfig, String>)
    ensures
        loaded matches Ok(config) && {
            &&& config.wifi.ssid@ == "Vodafone-94BC"@
            &&& config.wifi.password@ == Seq::<char>::empty()
            &&& config.home_assistant.url@ == "mqtt://192.168.0.83:1883"@
            &&& config.plant_display.plant_name@ == "Vilem zahradni"@
        },
{
    Ok(
        AppConfig {
            wifi: WifiConfig {
                ssid: String::from_str("Vodafone-94BC"),
                password: String::new(),
            },
            home_assistant: HomeAssistantConfig {
                url: String::from_str("mqtt://192.168.0.83:1883"),
            },
            plant_display: PlantDisplayConfig { plant_name: String::from_str("Vilem zahradni") },
        },
    )
}

} // verus!
