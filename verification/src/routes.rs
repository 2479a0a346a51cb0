//! The decisions of the web request handlers that do not need the
//! database: reading record keys from paths, and turning requests into
//! commands for the beacon manager.

use vstd::prelude::*;
use crate::manager::BMCommand;
use crate::model::{BeaconRequest, LoginInfo};
use crate::text::str_equal;

verus! {

/// Whether a character is an ASCII decimal digit.
pub open spec fn is_digit(c: char) -> bool {
    '0' <= c && c <= '9'
}

/// Why a text is not a 32-bit integer, as `std::num::IntErrorKind` tells.
#[derive(Copy, Clone, Debug, PartialEq, Eq, Structural)]
pub enum IntError {
    Empty,
    InvalidDigit,
    PosOverflow,
    NegOverflow,
}

impl IntError {
    /// The description of the error.
    pub fn to_string(&self) -> (s: String)
        ensures
            s@ == match *self {
                IntError::Empty => "cannot parse integer from empty string"@,
                IntError::InvalidDigit => "invalid digit found in string"@,
                IntError::PosOverflow => "number too large to fit in target type"@,
                IntError::NegOverflow => "number too small to fit in target type"@,
            },
    {
        match self {
            IntError::Empty => String::from_str("cannot parse integer from empty string"),
            IntError::InvalidDigit => String::from_str("invalid digit found in string"),
            IntError::PosOverflow => String::from_str("number too large to fit in target type"),
            IntError::NegOverflow => String::from_str("number too small to fit in target type"),
        }
    }
}

/// Reads the digits `d` left to right onto the value `acc` read so far,
/// away from zero in the direction of the sign: the first character that is
/// no digit, or the first digit that takes the value out of the 32-bit
/// range, ends the reading with an error.
pub open spec fn scan_digits(d: Seq<char>, acc: int, negative: bool) -> Result<int, IntError>
    decreases d.len(),
{
    if d.len() == 0 {
        Ok(acc)
    } else if !is_digit(d[0]) {
        Err(IntError::InvalidDigit)
    } else {
        let next = if negative {
            acc * 10 - (d[0] as int - '0' as int)
        } else {
            acc * 10 + (d[0] as int - '0' as int)
        };
        if next > i32::MAX {
            Err(IntError::PosOverflow)
        } else if next < i32::MIN {
            Err(IntError::NegOverflow)
        } else {
            scan_digits(d.drop_first(), next, negative)
        }
    }
}

/// Whether a text starts with a sign.
pub open spec fn has_sign(s: Seq<char>) -> bool {
    s.len() > 0 && (s[0] == '+' || s[0] == '-')
}

/// What `str::parse::<i32>` makes of a text: an optional sign, then at
/// least one decimal digit and nothing else, for a value in range.
pub open spec fn int_parse(s: Seq<char>) -> Result<i32, IntError> {
    if s.len() == 0 {
        Err(IntError::Empty)
    } else if has_sign(s) && s.len() == 1 {
        Err(IntError::InvalidDigit)
    } else {
        let digits = if has_sign(s) {
            s.drop_first()
        } else {
            s
        };
        match scan_digits(digits, 0, s[0] == '-') {
            Ok(v) => Ok(v as i32),
            Err(e) => Err(e),
        }
    }
}

proof fn lemma_scan_digits_in_range(d: Seq<char>, acc: int, negative: bool)
    requires
        i32::MIN <= acc <= i32::MAX,
    ensures
        scan_digits(d, acc, negative) matches Ok(v) ==> i32::MIN <= v <= i32::MAX,
    decreases d.len(),
{
    if d.len() > 0 && is_digit(d[0]) {
        let next = if negative {
            acc * 10 - (d[0] as int - '0' as int)
        } else {
            acc * 10 + (d[0] as int - '0' as int)
        };
        if i32::MIN <= next <= i32::MAX {
            lemma_scan_digits_in_range(d.drop_first(), next, negative);
        }
    }
}

/// Reads a decimal 32-bit integer as `str::parse::<i32>` does.
pub fn parse_i32(s: &str) -> (r: Result<i32, IntError>)
    ensures
        r == int_parse(s@),
{
    let n = s.unicode_len();
    if n == 0 {
        return Err(IntError::Empty);
    }
    let first = s.get_char(0);
    let signed = first == '+' || first == '-';
    let negative = first == '-';
    if signed && n == 1 {
        return Err(IntError::InvalidDigit);
    }
    let start: usize = if signed {
        1
    } else {
        0
    };
    let ghost digits = if signed {
        s@.drop_first()
    } else {
        s@
    };
    assert(digits =~= s@.subrange(start as int, n as int));
    let mut acc: i64 = 0;
    let mut i: usize = start;
    assert(int_parse(s@) == match scan_digits(digits, 0, negative) {
        Ok(v) => Ok::<i32, IntError>(v as i32),
        Err(e) => Err(e),
    });
    while i < n
        invariant
            n == s@.len(),
            int_parse(s@) == match scan_digits(digits, 0, negative) {
                Ok(v) => Ok::<i32, IntError>(v as i32),
                Err(e) => Err(e),
            },
            start <= i <= n,
            digits == s@.subrange(start as int, n as int),
            -2147483648 <= acc <= 2147483647,
            scan_digits(digits, 0, negative) == scan_digits(s@.subrange(i as int, n as int), acc as int, negative),
        decreases n - i,
    {
        let c = s.get_char(i);
        let ghost rest = s@.subrange(i as int, n as int);
        assert(rest[0] == c);
        assert(rest.drop_first() =~= s@.subrange(i as int + 1, n as int));
        if c < '0' || c > '9' {
            return Err(IntError::InvalidDigit);
        }
        let d = ((c as u32) - ('0' as u32)) as i64;
        let next = if negative {
            acc * 10 - d
        } else {
            acc * 10 + d
        };
        if next > 2147483647 {
            return Err(IntError::PosOverflow);
        }
        if next < -2147483648 {
            return Err(IntError::NegOverflow);
        }
        acc = next;
        i = i + 1;
    }
    assert(s@.subrange(n as int, n as int) =~= Seq::<char>::empty());
    proof {
        lemma_scan_digits_in_range(digits, 0, negative);
    }
    Ok(acc as i32)
}

/// The record key in a request path, where the path has one: a number
/// other than `-1` (which a missing key is read as).
pub open spec fn path_key(segment: Option<Seq<char>>) -> Option<i32> {
    match segment {
        Some(s) => match int_parse(s) {
            Ok(v) => if v != -1 {
                Some(v)
            } else {
                None
            },
            Err(_) => None,
        },
        None => None,
    }
}

/// Reads the record key of a request path; requests without a valid key
/// are answered as not found.
pub fn path_id(segment: Option<&str>) -> (r: Option<i32>)
    ensures
        r == path_key(
            match segment {
                Some(s) => Some(s@),
                None => None,
            },
        ),
{
    match segment {
        Some(s) => match parse_i32(s) {
            Ok(v) => if v != -1 {
                Some(v)
            } else {
                None
            },
            Err(_) => None,
        },
        None => None,
    }
}

/// Reads an optional record key: the number in the path segment, if it
/// reads as one.
pub fn optional_path_id(segment: Option<&str>) -> (r: Option<i32>)
    ensures
        r == match segment {
            Some(s) => match int_parse(s@) {
                Ok(v) => Some(v),
                Err(_) => None,
            },
            None => None,
        },
{
    match segment {
        Some(s) => match parse_i32(s) {
            Ok(v) => Some(v),
            Err(_) => None,
        },
        None => None,
    }
}

/// The beacon manager's command for a request of the user interface.
pub fn command_for_request(req: BeaconRequest) -> (c: BMCommand)
    ensures
        c == match req {
            BeaconRequest::StartEmergency(mac) => BMCommand::StartEmergency(mac),
            BeaconRequest::EndEmergency(mac) => BMCommand::EndEmergency(mac),
            BeaconRequest::Ping(mac) => BMCommand::Ping(mac),
            BeaconRequest::Reboot(mac) => BMCommand::Reboot(mac),
        },
{
    match req {
        BeaconRequest::StartEmergency(mac) => BMCommand::StartEmergency(mac),
        BeaconRequest::EndEmergency(mac) => BMCommand::EndEmergency(mac),
        BeaconRequest::Ping(mac) => BMCommand::Ping(mac),
        BeaconRequest::Reboot(mac) => BMCommand::Reboot(mac),
    }
}

/// The command that starts (for `true`) or ends an emergency on every
/// beacon.
pub fn emergency_command(emergency: bool) -> (c: BMCommand)
    ensures
        c == if emergency {
            BMCommand::StartEmergency(None)
        } else {
            BMCommand::EndEmergency(None)
        },
{
    if emergency {
        BMCommand::StartEmergency(None)
    } else {
        BMCommand::EndEmergency(None)
    }
}

/// Whether a login is the responder's, which needs no database account.
pub fn is_responder(name: &str) -> (r: bool)
    ensures
        r == (name@ == "responder"@),
{
    str_equal(name, "responder")
}

/// The session kept for the responder: the name, also as the password.
pub fn responder_session(name: &str) -> (info: LoginInfo)
    ensures
        info.name@ == name@,
        info.pw@ == name@,
{
    let mut info = LoginInfo::new();
    info.name = String::from_str(name);
    info.pw = String::from_str(name);
    info
}

/// Whether the session may restart the system: only the administrator may.
pub fn restart_allowed(identity: Option<&str>) -> (r: bool)
    ensures
        r == match identity {
            Some(name) => name@ == "admin"@,
            None => false,
        },
{
    match identity {
        Some(name) => str_equal(name, "admin"),
        None => false,
    }
}

} // verus!
