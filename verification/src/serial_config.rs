//! The serial-port parameters a session is opened with, kept under a
//! configuration name that the persistence layer uses to locate the file.

use vstd::prelude::*;

verus! {

/// Name and speed of the serial endpoint to open, under a configuration
/// name.
#[derive(Debug, Clone)]
pub struct PortConfig {
    /// Name of the configuration file the parameters are kept under.
    pub config_name: String,
    /// The serial device to open.
    pub port_name: String,
    /// The line speed, in baud.
    pub baud_rate: u32,
}

impl PortConfig {
    /// A configuration with the default port parameters under the given
    /// name.
    pub fn new(name: &str) -> (r: Self)
        ensures
            r.config_name@ == name@,
            r.port_name@ == "/dev/ttyAMA0"@,
            r.baud_rate == 9600,
    {
        Self {
            config_name: name.to_owned(),
            port_name: "/dev/ttyAMA0".to_owned(),
            baud_rate: 9600,
        }
    }

    /// The name of the configuration file.
    pub fn get_config_name(&self) -> (r: String)
        ensures
            r@ == self.config_name@,
    {
        self.config_name.clone()
    }

    /// The serial device to open.
    pub fn get_port_name(&self) -> (r: String)
        ensures
            r@ == self.port_name@,
    {
        self.port_name.clone()
    }

    /// The line speed, in baud.
    pub fn get_baud_rate(&self) -> (r: u32)
        ensures
            r == self.baud_rate,
    {
        self.baud_rate
    }

    /// Replaces the serial device name.
    pub fn set_port_name(&mut self, port_name: String)
        ensures
            final(self).port_name@ == port_name@,
            final(self).config_name@ == old(self).config_name@,
            final(self).baud_rate == old(self).baud_rate,
    {
        self.port_name = port_name;
    }

    /// Replaces the line speed.
    pub fn set_baud_rate(&mut self, baud_rate: u32)
        ensures
            final(self).baud_rate == baud_rate,
            final(self).config_name@ == old(self).config_name@,
            final(self).port_name@ == old(self).port_name@,
    {
        self.baud_rate = baud_rate;
    }
}

} // verus!
