//! Process settings: broker address and credentials, listening port.

use vstd::prelude::*;
use vstd::string::StringExecFns;
use crate::homeassistant::opt_text;

verus! {

/// Settings read from the environment at start-up.
#[derive(Debug, Clone)]
pub struct Config {
    pub mqtt_host: String,
    pub mqtt_port: u16,
    pub mqtt_user: Option<String>,
    pub mqtt_password: Option<String>,
    pub tcp_port: u16,
}

/// The port that loggers connect to when none is configured.
pub fn default_tcp_port() -> (r: u16)
    ensures
        r == 8080,
{
    8080
}

/// The broker host when none is configured.
pub fn default_mqtt_host() -> (r: String)
    ensures
        r@ == "localhost"@,
{
    String::from_str("localhost")
}

/// The broker port when none is configured.
pub fn default_mqtt_port() -> (r: u16)
    ensures
        r == 1883,
{
    1883
}

impl Config {
    /// User name and password for the broker, used only when both are set.
    pub fn credentials(&self) -> (r: Option<(String, String)>)
        ensures
            r is Some <==> (self.mqtt_user is Some && self.mqtt_password is Some),
            r matches Some((u, p)) ==> (Some(u@) == opt_text(self.mqtt_user) && Some(p@)
                == opt_text(self.mqtt_password)),
    {
        match (&self.mqtt_user, &self.mqtt_password) {
            (Some(u), Some(p)) => Some((u.clone(), p.clone())),
            _ => None,
        }
    }
}

} // verus!
