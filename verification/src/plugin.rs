//! The capability plugins of the application.

use vstd::prelude::*;

verus! {

/// A capability that the application is granted by registering the plugin
/// that provides it.
#[derive(Clone, Copy, Debug, PartialEq, Eq, Hash, Structural)]
pub enum Plugin {
    /// Network access through the HTTP client.
    Http,
    /// Access to the device's location.
    Geolocation,
    /// Invocation of shell commands and child processes.
    Shell,
}

/// The plugins that the application registers, in the order of registration.
pub open spec fn required_plugins() -> Seq<Plugin> {
    seq![Plugin::Http, Plugin::Geolocation, Plugin::Shell]
}

/// Hands out the plugins to register, in the order of registration.
pub fn plugins() -> (list: Vec<Plugin>)
    ensures
        list@ == required_plugins(),
{
    let mut list: Vec<Plugin> = Vec::new();
    list.push(Plugin::Http);
    list.push(Plugin::Geolocation);
    list.push(Plugin::Shell);
    list
}

} // verus!
