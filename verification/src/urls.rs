//! The routes of the web interface, shared by the server and its clients.

use vstd::prelude::*;

verus! {

/// The route of one beacon.
pub fn beacon_url(id: &str) -> (s: String)
    ensures
        s@ == "/beacon/"@ + id@,
{
    let mut s = String::from_str("/beacon/");
    s.append(id);
    s
}

/// The route of the beacons placed on one map.
pub fn beacons_for_map_url(id: &str) -> (s: String)
    ensures
        s@ == "/map/"@ + id@ + "/beacons"@,
{
    let mut s = String::from_str("/map/");
    s.append(id);
    s.append("/beacons");
    s
}

/// The route of one user.
pub fn user_url(id: &str) -> (s: String)
    ensures
        s@ == "/user/"@ + id@,
{
    let mut s = String::from_str("/user/");
    s.append(id);
    s
}

/// The route of one map.
pub fn map_url(id: &str) -> (s: String)
    ensures
        s@ == "/map/"@ + id@,
{
    let mut s = String::from_str("/map/");
    s.append(id);
    s
}

/// The route of one network interface.
pub fn network_url(id: &str) -> (s: String)
    ensures
        s@ == "/network/"@ + id@,
{
    let mut s = String::from_str("/network/");
    s.append(id);
    s
}

/// The route that sends a command to the beacons.
pub fn beacon_command_url() -> (s: String)
    ensures
        s@ == "/beacons/command"@,
{
    String::from_str("/beacons/command")
}

/// The route of the beacon list.
pub fn beacons_url() -> (s: String)
    ensures
        s@ == "/beacons"@,
{
    String::from_str("/beacons")
}

/// The route of the beacons' run-time status.
pub fn beacons_status_url() -> (s: String)
    ensures
        s@ == "/beacons/status"@,
{
    String::from_str("/beacons/status")
}

/// The route of the user list.
pub fn users_url() -> (s: String)
    ensures
        s@ == "/users"@,
{
    String::from_str("/users")
}

/// The route of the users' run-time status.
pub fn users_status_url() -> (s: String)
    ensures
        s@ == "/users/status"@,
{
    String::from_str("/users/status")
}

/// The route of the map list.
pub fn maps_url() -> (s: String)
    ensures
        s@ == "/maps"@,
{
    String::from_str("/maps")
}

/// The route of the network interface list.
pub fn networks_url() -> (s: String)
    ensures
        s@ == "/networks"@,
{
    String::from_str("/networks")
}

/// The route that reads and sets the emergency state.
pub fn system_emergency_url() -> (s: String)
    ensures
        s@ == "/system/emergency"@,
{
    String::from_str("/system/emergency")
}

/// The route of the raw measurements.
pub fn system_diagnostics_url() -> (s: String)
    ensures
        s@ == "/system/diagnostics"@,
{
    String::from_str("/system/diagnostics")
}

/// The route that logs a user in.
pub fn session_login_url() -> (s: String)
    ensures
        s@ == "/session/login"@,
{
    String::from_str("/session/login")
}

/// The route that logs a user out.
pub fn session_logout_url() -> (s: String)
    ensures
        s@ == "/session/logout"@,
{
    String::from_str("/session/logout")
}

/// The route that tells whether a session is logged in.
pub fn session_check_url() -> (s: String)
    ensures
        s@ == "/session/check"@,
{
    String::from_str("/session/check")
}

} // verus!
