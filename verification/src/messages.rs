//! The text protocol spoken with the beacons: reading their replies and
//! writing the commands sent to them.

use vstd::prelude::*;
use crate::address::{MacAddress8, ShortAddress, parse_address};
use crate::error::MessageError;
use crate::manager::{BMResponse, BeaconCommand};
use crate::model::TagData;
use crate::network::{IpAddress, Ipv4Network, host_mask};
use crate::text::{decimal_u8, first_index, utf8_len, find_char, push_decimal_u8, split_on, split_char, str_equal};

verus! {

/// Whether the `regex` crate accepts the pattern (`regex::Regex::new`
/// returns `Ok`).
pub uninterp spec fn regex_compiles(pattern: Seq<char>) -> bool;

/// The text that `regex::Regex::replace_all` makes of `haystack` when every
/// match of `pattern` is replaced by `replacement`.
pub uninterp spec fn regex_replace_all_result(pattern: Seq<char>, haystack: Seq<char>, replacement: Seq<char>) -> Seq<char>;

/// Compiles `pattern` with `regex::Regex::new` and, where it compiles,
/// replaces every non-overlapping match in `haystack` with `replacement`
/// by `regex::Regex::replace_all`. The contract claims only that the result
/// is present exactly when the pattern compiles, and that it is the named
/// result of the replacement, a function of the three texts.
#[verifier::external_body]
fn replace_all_matches(pattern: &str, haystack: &str, replacement: &str) -> (r: Option<String>)
    ensures
        r is Some <==> regex_compiles(pattern@),
        r matches Some(s) ==> s@ == regex_replace_all_result(pattern@, haystack@, replacement@),
{
    match regex::Regex::new(pattern) {
        Ok(re) => Some(re.replace_all(haystack, replacement).into_owned()),
        Err(_) => None,
    }
}

/// The pattern of the noise that the beacon firmware may wrap around a
/// distance: a run of characters other than digits and `$` between two
/// slashes.
pub open spec fn noise_pattern() -> Seq<char> {
    "/[^$0-9]+/"@
}

/// The text between the first `[` and the first `]` of a message, where it
/// has both.
pub open spec fn message_body(m: Seq<char>) -> Option<Seq<char>> {
    match first_index(m, '[') {
        Some(s) => match first_index(m, ']') {
            Some(e) => Some(m.subrange(s + 1, e)),
            None => None,
        },
        None => None,
    }
}

/// The `|`-separated fields of a message's body.
pub open spec fn message_fields(m: Seq<char>) -> Option<Seq<Seq<char>>> {
    match message_body(m) {
        Some(body) => Some(split_on(body, '|')),
        None => None,
    }
}

/// A range report whose beacon and tag addresses are valid, so that the
/// parser goes on to read its distance.
pub open spec fn reads_distance(f: Seq<Seq<char>>) -> bool {
    &&& f.len() >= 3
    &&& parse_address(8, f[0], utf8_len(f[0])) is Ok
    &&& f[1] == "range_ack"@
    &&& parse_address(2, f[2], utf8_len(f[2])) is Ok
}

/// The messages that the parser reads without indexing out of bounds: the
/// first `]`, if any, does not come before the first `[`, and a range
/// report that gets as far as its distance has a distance field.
pub open spec fn message_in_bounds(m: Seq<char>) -> bool {
    &&& match (first_index(m, '['), first_index(m, ']')) {
        (Some(s), Some(e)) => s < e,
        _ => true,
    }
    &&& match message_fields(m) {
        Some(f) => (f.len() >= 2 && parse_address(8, f[0], utf8_len(f[0])) is Ok
            && f[1] == "range_ack"@) ==> f.len() >= 4 || (f.len() == 3 && parse_address(
            2,
            f[2],
            utf8_len(f[2]),
        ) is Err),
        None => true,
    }
}

/// The distance text with its noise removed.
pub open spec fn stripped_distance(field: Seq<char>) -> Seq<char> {
    regex_replace_all_result(noise_pattern(), field, Seq::empty())
}

/// A stripped distance whose last character can be cut off: it is empty or
/// ends in a one-byte character.
pub open spec fn ends_in_ascii(s: Seq<char>) -> bool {
    s.len() == 0 || (s.last() as u32) < 128
}

/// The messages on which reading the distance succeeds: the noise pattern
/// compiles, and the stripped distance ends in a one-byte character (the
/// parser cuts off the last byte).
pub open spec fn distance_readable(m: Seq<char>) -> bool {
    match message_fields(m) {
        Some(f) => reads_distance(f) && f.len() >= 4 ==> regex_compiles(noise_pattern())
            && ends_in_ascii(stripped_distance(f[3])),
        None => true,
    }
}

/// Whether `r` is what the parser makes of message `m`, received from
/// `source` at time `now`. A message is read between its first `[` and its
/// first `]`, as `|`-separated fields: the beacon's address, the kind of
/// reply and, for a range report, the tag's short address and the
/// distance. The distance is kept as text, stripped of noise and of its
/// last character (a line end that the firmware sends).
pub open spec fn parsed_as(r: Result<BMResponse<String>, MessageError>, m: Seq<char>, source: IpAddress, now: i64) -> bool {
    match message_fields(m) {
        None => r == Err::<BMResponse<String>, MessageError>(MessageError::ParseFormat),
        Some(f) => if f.len() < 2 {
            r == Err::<BMResponse<String>, MessageError>(MessageError::ParseFormat)
        } else {
            match parse_address(8, f[0], utf8_len(f[0])) {
                Err(_) => r == Err::<BMResponse<String>, MessageError>(MessageError::ParseMac),
                Ok(mac) => if f[1] == "start_ack"@ {
                    r matches Ok(BMResponse::Start(ip, b)) && ip == source && b.eui@ == mac
                } else if f[1] == "end_ack"@ {
                    r matches Ok(BMResponse::End(ip, b)) && ip == source && b.eui@ == mac
                } else if f[1] == "ping_ack"@ {
                    r matches Ok(BMResponse::Ping(ip, b)) && ip == source && b.eui@ == mac
                } else if f[1] == "reboot_ack"@ {
                    r matches Ok(BMResponse::Reboot(ip, b)) && ip == source && b.eui@ == mac
                } else if f[1] == "range_ack"@ {
                    match parse_address(2, f[2], utf8_len(f[2])) {
                        Err(_) => r == Err::<BMResponse<String>, MessageError>(MessageError::ParseMac),
                        Ok(tag) => {
                            let stripped = stripped_distance(f[3]);
                            if stripped.len() == 0 {
                                r == Err::<BMResponse<String>, MessageError>(MessageError::ParseFormat)
                            } else {
                                &&& r matches Ok(BMResponse::TagData(ip, t))
                                &&& ip == source
                                &&& t.beacon_mac.eui@ == mac
                                &&& t.tag_mac.addr@ == tag
                                &&& t.tag_distance@ == stripped.drop_last()
                                &&& t.timestamp == now
                            }
                        },
                    }
                } else {
                    r == Err::<BMResponse<String>, MessageError>(MessageError::ParseFormat)
                },
            }
        },
    }
}

/// Cuts the fields out of a message.
fn read_fields<'a>(message: &'a str) -> (r: Option<Vec<&'a str>>)
    requires
        message_in_bounds(message@),
    ensures
        match message_fields(message@) {
            Some(f) => r matches Some(v) && v@.map_values(|p: &str| p@) == f,
            None => r is None,
        },
{
    let start = find_char(message, '[');
    let end = find_char(message, ']');
    match (start, end) {
        (Some(s), Some(e)) => {
            assert(first_index(message@, '[') == Some(s as int));
            assert(first_index(message@, ']') == Some(e as int));
            let body = message.substring_char(s + 1, e);
            Some(split_char(body, '|'))
        },
        _ => None,
    }
}

/// Tells whether a message can be read without indexing out of bounds
/// (see `message_in_bounds`).
pub fn message_readable(message: &str) -> (b: bool)
    ensures
        b == message_in_bounds(message@),
{
    let start = find_char(message, '[');
    let end = find_char(message, ']');
    match (start, end) {
        (Some(s), Some(e)) => {
            if e <= s {
                return false;
            }
            let body = message.substring_char(s + 1, e);
            let f = split_char(body, '|');
            let ghost fs = f@.map_values(|p: &str| p@);
            assert(fs == message_fields(message@)->Some_0);
            if f.len() < 2 {
                return true;
            }
            assert(f[0]@ == fs[0] && f[1]@ == fs[1]);
            if MacAddress8::parse_str(f[0]).is_err() || !str_equal(f[1], "range_ack") {
                return true;
            }
            if f.len() >= 4 {
                return true;
            }
            if f.len() < 3 {
                return false;
            }
            assert(f[2]@ == fs[2]);
            ShortAddress::parse_str(f[2]).is_err()
        },
        _ => true,
    }
}

/// Cuts the last character off a stripped distance, which the firmware
/// ends with a line end; an empty text is refused.
pub fn distance_text(stripped: &str) -> (r: Result<String, MessageError>)
    requires
        ends_in_ascii(stripped@),
    ensures
        stripped@.len() == 0 ==> r == Err::<String, MessageError>(MessageError::ParseFormat),
        stripped@.len() > 0 ==> (r matches Ok(t) && t@ == stripped@.drop_last()),
{
    let n = stripped.unicode_len();
    if n == 0 {
        return Err(MessageError::ParseFormat);
    }
    let t = stripped.substring_char(0, n - 1);
    Ok(String::from_str(t))
}

/// Reads a message from a beacon, received from `source` at time `now`
/// (nanoseconds since the Unix epoch).
pub fn parse_message_at(message: &str, source: IpAddress, now: i64) -> (r: Result<BMResponse<String>, MessageError>)
    requires
        message_in_bounds(message@),
        distance_readable(message@),
    ensures
        parsed_as(r, message@, source, now),
{
    let fields = match read_fields(message) {
        Some(f) => f,
        None => {
            return Err(MessageError::ParseFormat);
        },
    };
    let ghost f = fields@.map_values(|p: &str| p@);
    if fields.len() < 2 {
        return Err(MessageError::ParseFormat);
    }
    assert(fields[0]@ == f[0] && fields[1]@ == f[1]);
    let mac = match MacAddress8::parse_str(fields[0]) {
        Ok(m) => m,
        Err(_) => {
            return Err(MessageError::ParseMac);
        },
    };
    let kind = fields[1];
    if str_equal(kind, "start_ack") {
        Ok(BMResponse::Start(source, mac))
    } else if str_equal(kind, "end_ack") {
        Ok(BMResponse::End(source, mac))
    } else if str_equal(kind, "ping_ack") {
        Ok(BMResponse::Ping(source, mac))
    } else if str_equal(kind, "reboot_ack") {
        Ok(BMResponse::Reboot(source, mac))
    } else if str_equal(kind, "range_ack") {
        assert(fields[2]@ == f[2]);
        let tag = match ShortAddress::parse_str(fields[2]) {
            Ok(t) => t,
            Err(_) => {
                return Err(MessageError::ParseMac);
            },
        };
        assert(fields[3]@ == f[3]);
        let empty = "";
        proof {
            reveal_strlit("");
        }
        let pattern = "/[^$0-9]+/";
        assert(empty@ =~= Seq::<char>::empty());
        assert(pattern@ == noise_pattern());
        let stripped = replace_all_matches(pattern, fields[3], empty).unwrap();
        let text = match distance_text(stripped.as_str()) {
            Ok(t) => t,
            Err(e) => {
                return Err(e);
            },
        };
        Ok(BMResponse::TagData(source, TagData { beacon_mac: mac, tag_distance: text, tag_mac: tag, timestamp: now }))
    } else {
        Err(MessageError::ParseFormat)
    }
}

/// Tells whether reading the distance of a message succeeds.
fn check_distance_readable(message: &str) -> (b: bool)
    requires
        message_in_bounds(message@),
    ensures
        b == distance_readable(message@),
{
    let fields = match read_fields(message) {
        Some(f) => f,
        None => {
            return true;
        },
    };
    let ghost f = fields@.map_values(|p: &str| p@);
    if fields.len() < 4 {
        return true;
    }
    assert(fields[0]@ == f[0] && fields[1]@ == f[1] && fields[2]@ == f[2] && fields[3]@ == f[3]);
    if MacAddress8::parse_str(fields[0]).is_err() || !str_equal(fields[1], "range_ack")
        || ShortAddress::parse_str(fields[2]).is_err() {
        return true;
    }
    let empty = "";
    proof {
        reveal_strlit("");
    }
    let pattern = "/[^$0-9]+/";
    assert(empty@ =~= Seq::<char>::empty());
    assert(pattern@ == noise_pattern());
    match replace_all_matches(pattern, fields[3], empty) {
        None => false,
        Some(s) => {
            let n = s.as_str().unicode_len();
            n == 0 || (s.as_str().get_char(n - 1) as u32) < 128
        },
    }
}

/// Reads a message from a beacon received from `source` at time `now`
/// (nanoseconds since the Unix epoch, read by the caller), which stamps a
/// range report. Gives `None` for a range report whose stripped distance
/// cannot be cut (see `distance_readable`).
pub fn parse_message(message: &str, source: IpAddress, now: i64) -> (r: Option<Result<BMResponse<String>, MessageError>>)
    requires
        message_in_bounds(message@),
    ensures
        r is None <==> !distance_readable(message@),
        r matches Some(res) ==> parsed_as(res, message@, source, now),
{
    if !check_distance_readable(message) {
        return None;
    }
    Some(parse_message_at(message, source, now))
}

/// The dotted decimal text of an IPv4 address, most significant byte
/// first.
pub open spec fn ipv4_text(a: u32) -> Seq<char> {
    decimal_u8((a / 0x100_0000) as u8) + seq!['.'] + decimal_u8(((a / 0x1_0000) % 256) as u8)
        + seq!['.'] + decimal_u8(((a / 256) % 256) as u8) + seq!['.'] + decimal_u8((a % 256) as u8)
}

/// The text sent to the beacons for a command.
pub open spec fn command_text(c: BeaconCommand) -> Seq<char> {
    match c {
        BeaconCommand::StartEmergency(_) => "[start]"@,
        BeaconCommand::EndEmergency(_) => "[end]"@,
        BeaconCommand::Ping(_) => "[ping]"@,
        BeaconCommand::Reboot(_) => "[reboot]"@,
        BeaconCommand::SetIp(a) => "[setip|"@ + ipv4_text(a) + "]"@,
    }
}

/// The beacon a command is addressed to; `None` for all beacons. A new
/// server address is announced to all.
pub open spec fn command_target(c: BeaconCommand) -> Option<IpAddress> {
    match c {
        BeaconCommand::StartEmergency(t) => t,
        BeaconCommand::EndEmergency(t) => t,
        BeaconCommand::Ping(t) => t,
        BeaconCommand::Reboot(t) => t,
        BeaconCommand::SetIp(_) => None,
    }
}

/// Writes the text of a command and says where it goes.
pub fn encode_command(c: BeaconCommand) -> (r: (String, Option<IpAddress>))
    ensures
        r.0@ == command_text(c),
        r.1 == command_target(c),
{
    match c {
        BeaconCommand::StartEmergency(t) => (String::from_str("[start]"), t),
        BeaconCommand::EndEmergency(t) => (String::from_str("[end]"), t),
        BeaconCommand::Ping(t) => (String::from_str("[ping]"), t),
        BeaconCommand::Reboot(t) => (String::from_str("[reboot]"), t),
        BeaconCommand::SetIp(a) => {
            let mut s = String::from_str("[setip|");
            let ghost start = s@;
            push_decimal_u8(&mut s, (a / 0x100_0000) as u8);
            s.append(".");
            push_decimal_u8(&mut s, ((a / 0x1_0000) % 256) as u8);
            s.append(".");
            push_decimal_u8(&mut s, ((a / 256) % 256) as u8);
            s.append(".");
            push_decimal_u8(&mut s, (a % 256) as u8);
            s.append("]");
            proof {
                reveal_strlit(".");
            }
            assert(s@ =~= start + ipv4_text(a) + "]"@);
            (s, None)
        },
    }
}

/// The address and port a command goes to over a connection bound to the
/// network `bound` and to `port`: the beacon's address where one is given,
/// the network's broadcast address otherwise.
pub fn request_destination(target: Option<IpAddress>, bound: &Ipv4Network, port: u16) -> (r: (IpAddress, u16))
    ensures
        r.1 == port,
        match target {
            Some(ip) => r.0 == ip,
            None => r.0 == IpAddress::V4(bound.spec_addr() | host_mask(bound.spec_prefix_len())),
        },
{
    match target {
        Some(ip) => (ip, port),
        None => (IpAddress::V4(bound.broadcast()), port),
    }
}

} // verus!
