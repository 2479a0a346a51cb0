//! The state of the web interface's forms and what they decide: which
//! fields an input changes, whether a form is valid, whether submitting it
//! adds a record or updates one, and the messages shown to the user.
//! Drawing the forms and talking to the server are the caller's.

use vstd::prelude::*;
use crate::address::{MacAddress8, ShortAddress, address_error_text, address_text, parse_address, ParseError};
use crate::model::{Beacon, FloorPlan, LoginInfo, TrackedUser, UserType, WebUserType, fresh_user};
use crate::root::{Page, PageState};
use crate::user_message::{UserMessage, failure_text};
use crate::routes::{IntError, int_parse, parse_i32};
use crate::text::{contains_str, i32_text, int_text, occurs_in, utf8_len};

verus! {

/// The free-text fields of a user form.
#[derive(Copy, Clone, Debug, PartialEq, Eq, Structural)]
pub enum UserField {
    Name,
    EmployeeId,
    WorkPhone,
    MobilePhone,
    Note,
}

/// What submitting a valid form asks of the server.
#[derive(Copy, Clone, Debug, PartialEq, Eq, Structural)]
pub enum FormRequest {
    /// Store a new record.
    Add,
    /// Update the stored record with this key.
    Update(i32),
}

/// `after` is `before` with `field` set to `value`.
pub open spec fn field_set<P>(before: TrackedUser<P>, after: TrackedUser<P>, field: UserField, value: String) -> bool {
    match field {
        UserField::Name => after == (TrackedUser { name: value, ..before }),
        UserField::EmployeeId => after == (TrackedUser { employee_id: Some(value), ..before }),
        UserField::WorkPhone => after == (TrackedUser { work_phone: Some(value), ..before }),
        UserField::MobilePhone => after == (TrackedUser { mobile_phone: Some(value), ..before }),
        UserField::Note => after == (TrackedUser { note: Some(value), ..before }),
    }
}

fn set_field<P>(user: &mut TrackedUser<P>, field: UserField, value: String)
    ensures
        field_set(*old(user), *final(user), field, value),
{
    match field {
        UserField::Name => user.name = value,
        UserField::EmployeeId => user.employee_id = Some(value),
        UserField::WorkPhone => user.work_phone = Some(value),
        UserField::MobilePhone => user.mobile_phone = Some(value),
        UserField::Note => user.note = Some(value),
    }
}

/// The message for an address of `n` bytes that does not read.
pub open spec fn bad_address_message(n: nat, e: ParseError) -> Seq<char> {
    "failed to parse mac address: "@ + address_error_text(n, e)
}

fn bad_address(n: usize, e: ParseError) -> (s: String)
    requires
        1 <= n <= 8,
    ensures
        s@ == bad_address_message(n as nat, e),
{
    let mut s = String::from_str("failed to parse mac address: ");
    let t = e.describe(n);
    s.append(t.as_str());
    s
}

/// A form to add a user or update one, with an optional emergency
/// contact. The tag address is kept as typed until the form is submitted.
pub struct UserForm<P> {
    pub user: TrackedUser<P>,
    pub emergency_user: Option<TrackedUser<P>>,
    /// The key of the user being updated; `None` while adding one.
    pub id: Option<i32>,
    pub raw_mac: String,
    pub user_msg: UserMessage,
}

/// `after` is the form `before` after taking `value` typed in `field` for
/// `who`; a name typed for a contact who does not exist yet creates the
/// contact at position `origin`, and other contact fields are then
/// ignored.
pub open spec fn input_done<P>(
    before: UserForm<P>,
    after: UserForm<P>,
    field: UserField,
    value: String,
    who: UserType,
    origin: P,
) -> bool {
    &&& after.id == before.id
    &&& after.raw_mac == before.raw_mac
    &&& after.user_msg == before.user_msg
    &&& match who {
        UserType::Normal => {
            &&& field_set(before.user, after.user, field, value)
            &&& after.emergency_user == before.emergency_user
        },
        UserType::Contact => {
            &&& after.user == before.user
            &&& match before.emergency_user {
                Some(c) => after.emergency_user matches Some(d) && field_set(c, d, field, value),
                None => if field == UserField::Name {
                    after.emergency_user matches Some(d) && fresh_user(d, origin) && d.name == value
                } else {
                    after.emergency_user is None
                },
            }
        },
    }
}

/// Field by field: `after` holds `value` in the one field `field` names
/// (the name as typed, the others as `Some(value)`) and agrees with
/// `before` in every other field.
pub open spec fn typed_into<P>(before: TrackedUser<P>, after: TrackedUser<P>, field: UserField, value: String) -> bool {
    &&& after.name == (if field == UserField::Name { value } else { before.name })
    &&& after.employee_id == (if field == UserField::EmployeeId { Some(value) } else { before.employee_id })
    &&& after.work_phone == (if field == UserField::WorkPhone { Some(value) } else { before.work_phone })
    &&& after.mobile_phone == (if field == UserField::MobilePhone { Some(value) } else { before.mobile_phone })
    &&& after.note == (if field == UserField::Note { Some(value) } else { before.note })
    &&& after.id == before.id
    &&& after.coordinates == before.coordinates
    &&& after.attached_user == before.attached_user
    &&& after.last_active == before.last_active
    &&& after.mac_address == before.mac_address
    &&& after.map_id == before.map_id
}

/// Typing a value into a field of the user sets exactly that field of the
/// user (typing an employee id sets `employee_id` to it, typing a note sets
/// `note`, and so on) and leaves every other field of the user, the
/// contact and the form as they were. Typed for an existing contact, it
/// does the same to the contact and leaves the user alone.
pub proof fn lemma_input_sets_only_its_field<P>(
    before: UserForm<P>,
    after: UserForm<P>,
    field: UserField,
    value: String,
    who: UserType,
    origin: P,
)
    requires
        input_done(before, after, field, value, who, origin),
        who == UserType::Contact ==> before.emergency_user is Some,
    ensures
        after.id == before.id,
        after.raw_mac == before.raw_mac,
        after.user_msg == before.user_msg,
        who == UserType::Normal ==> {
            &&& typed_into(before.user, after.user, field, value)
            &&& after.emergency_user == before.emergency_user
        },
        who == UserType::Contact ==> {
            &&& after.user == before.user
            &&& after.emergency_user is Some
            &&& typed_into(before.emergency_user->0, after.emergency_user->0, field, value)
        },
{
}

impl<P> UserForm<P> {
    /// An empty form for a new user at position `origin`, with no contact
    /// and the all-zero tag address.
    pub fn new(origin: P) -> (f: UserForm<P>)
        ensures
            fresh_user(f.user, origin),
            f.user.name@ == Seq::<char>::empty(),
            f.emergency_user is None,
            f.id is None,
            f.raw_mac@ == "00:00"@,
            f.user_msg.is_clear(),
    {
        let nil = ShortAddress::nil();
        let raw = nil.to_string();
        proof {
            reveal_strlit("00:00");
            reveal_with_fuel(address_text, 3);
        }
        assert(raw@ =~= "00:00"@);
        UserForm { user: TrackedUser::new(origin), emergency_user: None, id: None, raw_mac: raw, user_msg: UserMessage::new() }
    }

    /// Takes the text typed in a field, for the user or for the contact. A
    /// name typed for a contact who does not exist yet creates the contact,
    /// at position `origin`; other contact fields are then ignored.
    pub fn input(&mut self, field: UserField, value: String, who: UserType, origin: P)
        ensures
            input_done(*old(self), *final(self), field, value, who, origin),
    {
        match who {
            UserType::Normal => set_field(&mut self.user, field, value),
            UserType::Contact => {
                let contact = self.emergency_user.take();
                match contact {
                    Some(mut c) => {
                        set_field(&mut c, field, value);
                        self.emergency_user = Some(c);
                    },
                    None => {
                        match field {
                            UserField::Name => {
                                let mut c = TrackedUser::new(origin);
                                c.name = value;
                                self.emergency_user = Some(c);
                            },
                            _ => {},
                        }
                    },
                }
            },
        }
    }

    /// Takes the tag address as typed.
    pub fn input_mac(&mut self, raw: String)
        ensures
            *final(self) == (UserForm { raw_mac: raw, ..*old(self) }),
    {
        self.raw_mac = raw;
    }

    /// Reads the typed tag address into the user, or says why it does not
    /// read.
    pub fn validate(&mut self) -> (r: Result<(), String>)
        ensures
            match parse_address(2, old(self).raw_mac@, utf8_len(old(self).raw_mac@)) {
                Ok(b) => {
                    &&& r is Ok
                    &&& final(self).user.mac_address matches Some(a) && a.addr@ == b
                    &&& final(self).user == (TrackedUser { mac_address: final(self).user.mac_address, ..old(self).user })
                },
                Err(e) => {
                    &&& r matches Err(m) && m@ == bad_address_message(2, e)
                    &&& final(self).user == old(self).user
                },
            },
            final(self).emergency_user == old(self).emergency_user,
            final(self).id == old(self).id,
            final(self).raw_mac == old(self).raw_mac,
            final(self).user_msg == old(self).user_msg,
    {
        match ShortAddress::parse_str(self.raw_mac.as_str()) {
            Ok(m) => {
                self.user.mac_address = Some(m);
                Ok(())
            },
            Err(e) => Err(bad_address(2, e)),
        }
    }
}

/// The text a form shows for an optional tag address: its canonical text,
/// or nothing.
pub open spec fn optional_address_text(a: Option<ShortAddress>) -> Seq<char> {
    match a {
        Some(m) => address_text(m.addr@),
        None => Seq::empty(),
    }
}

fn optional_address_string(a: Option<ShortAddress>) -> (s: String)
    ensures
        s@ == optional_address_text(a),
{
    match a {
        Some(m) => m.to_string(),
        None => String::new(),
    }
}

/// The user requests whose failure a user form reports.
#[derive(Copy, Clone, Debug, PartialEq, Eq, Structural)]
pub enum UserFormOp {
    Find,
    Add,
    Update,
}

/// The message for a failed user request.
pub open spec fn user_failure_message(op: UserFormOp, reason: Seq<char>) -> Seq<char> {
    match op {
        UserFormOp::Find => "failed to find user, reason: "@ + reason,
        UserFormOp::Add => "failed to add user, reason: "@ + reason,
        UserFormOp::Update => "failed to update user, reason: "@ + reason,
    }
}

/// What submitting a user form asks: to update the user being edited or
/// to add one where the tag address reads, otherwise nothing, with the
/// reason.
pub open spec fn submit_answer<P>(f: UserForm<P>) -> Result<FormRequest, Seq<char>> {
    match parse_address(2, f.raw_mac@, utf8_len(f.raw_mac@)) {
        Err(e) => Err(bad_address_message(2, e)),
        Ok(_) => match f.id {
            Some(id) => Ok(FormRequest::Update(id)),
            None => Ok(FormRequest::Add),
        },
    }
}

impl<P> UserForm<P> {
    /// The fields of this form are those of `old` after submitting it: where
    /// the tag address reads the user takes it, and a user being updated
    /// (and the contact) carries its key; otherwise nothing changes.
    pub open spec fn submitted(self, old: Self) -> bool {
        &&& self.raw_mac == old.raw_mac
        &&& self.id == old.id
        &&& match parse_address(2, old.raw_mac@, utf8_len(old.raw_mac@)) {
            Err(e) => self.user == old.user && self.emergency_user == old.emergency_user,
            Ok(b) => {
                &&& self.user.mac_address matches Some(a) && a.addr@ == b
                &&& match old.id {
                    Some(id) => {
                        &&& self.user == (TrackedUser { mac_address: self.user.mac_address, id, ..old.user })
                        &&& self.emergency_user == match old.emergency_user {
                            Some(c) => Some(TrackedUser { attached_user: Some(id), ..c }),
                            None => None,
                        }
                    },
                    None => {
                        &&& self.user == (TrackedUser { mac_address: self.user.mac_address, ..old.user })
                        &&& self.emergency_user == old.emergency_user
                    },
                }
            },
        }
    }
}

impl<P> UserForm<P> {
    /// Submits the form. Where the tag address reads, the user takes it
    /// and the form asks to update the user being edited (who, and the
    /// contact, then carry its key) or to add the user; otherwise it gives
    /// the reason and asks for nothing.
    pub fn submit(&mut self) -> (r: Result<FormRequest, String>)
        ensures
            final(self).submitted(*old(self)),
            final(self).user_msg == old(self).user_msg,
            match r {
                Ok(q) => submit_answer(*old(self)) == Ok::<FormRequest, Seq<char>>(q),
                Err(m) => submit_answer(*old(self)) == Err::<FormRequest, Seq<char>>(m@),
            },
    {
        match self.validate() {
            Err(m) => Err(m),
            Ok(()) => match self.id {
                Some(id) => {
                    self.user.id = id;
                    let contact = self.emergency_user.take();
                    match contact {
                        Some(mut c) => {
                            c.attached_user = Some(id);
                            self.emergency_user = Some(c);
                        },
                        None => {},
                    }
                    Ok(FormRequest::Update(id))
                },
                None => Ok(FormRequest::Add),
            },
        }
    }

    /// Shows a user read from the server, with their contact.
    pub fn loaded(&mut self, user: TrackedUser<P>, contact: Option<TrackedUser<P>>)
        ensures
            final(self).raw_mac@ == optional_address_text(user.mac_address),
            final(self).user == user,
            final(self).emergency_user == contact,
            final(self).id == old(self).id,
            final(self).user_msg == old(self).user_msg,
    {
        self.raw_mac = optional_address_string(user.mac_address);
        self.user = user;
        self.emergency_user = contact;
    }

    /// Shows a user just added, whose key the form now edits; returns the
    /// message for the user.
    pub fn added(&mut self, user: TrackedUser<P>, contact: Option<TrackedUser<P>>) -> (m: String)
        ensures
            m@ == "successfully added user"@,
            final(self).raw_mac@ == optional_address_text(user.mac_address),
            final(self).id == Some(user.id),
            final(self).user == user,
            final(self).emergency_user == contact,
            final(self).user_msg == old(self).user_msg,
    {
        self.id = Some(user.id);
        self.raw_mac = optional_address_string(user.mac_address);
        self.user = user;
        self.emergency_user = contact;
        String::from_str("successfully added user")
    }

    /// Shows a user just updated; returns the message for the user.
    pub fn updated(&mut self, user: TrackedUser<P>, contact: Option<TrackedUser<P>>) -> (m: String)
        ensures
            m@ == "successfully updated user"@,
            final(self).raw_mac == old(self).raw_mac,
            final(self).id == old(self).id,
            final(self).user == user,
            final(self).emergency_user == contact,
            final(self).user_msg == old(self).user_msg,
    {
        self.user = user;
        self.emergency_user = contact;
        String::from_str("successfully updated user")
    }

    /// The message for a failed request.
    pub fn failure(op: UserFormOp, reason: &str) -> (m: String)
        ensures
            m@ == user_failure_message(op, reason@),
    {
        let mut m = match op {
            UserFormOp::Find => String::from_str("failed to find user, reason: "),
            UserFormOp::Add => String::from_str("failed to add user, reason: "),
            UserFormOp::Update => String::from_str("failed to update user, reason: "),
        };
        m.append(reason);
        m
    }
}

/// A form to add a beacon or update one; `C` is the type of a position
/// and `M` that of a map offered to place the beacon on. The address and
/// the two coordinates are kept as typed until the form is submitted.
pub struct BeaconForm<C, M> {
    pub beacon: Beacon<C>,
    pub avail_floors: Vec<M>,
    /// The key of the beacon being updated; `None` while adding one.
    pub id: Option<i32>,
    pub raw_coord0: String,
    pub raw_coord1: String,
    pub raw_mac: String,
    pub user_msg: UserMessage,
}

/// The beacon requests whose failure a beacon form reports.
#[derive(Copy, Clone, Debug, PartialEq, Eq, Structural)]
pub enum BeaconFormOp {
    Floors,
    Find,
    Add,
    Update,
}

/// The message for a failed beacon request.
pub open spec fn beacon_failure_message(op: BeaconFormOp, reason: Seq<char>) -> Seq<char> {
    match op {
        BeaconFormOp::Floors => "failed to obtain available floors list, reason: "@ + reason,
        BeaconFormOp::Find => "failed to find beacon, reason: "@ + reason,
        BeaconFormOp::Add => "failed to add beacon, reason: "@ + reason,
        BeaconFormOp::Update => "failed to update beacon, reason: "@ + reason,
    }
}

impl<C, M> BeaconForm<C, M> {
    /// An empty form for a new beacon at position `origin`: no map offered,
    /// both coordinates `0`, the all-zero address.
    pub fn new(origin: C) -> (f: BeaconForm<C, M>)
        ensures
            f.beacon.coordinates == origin,
            f.beacon.id == -1,
            f.beacon.map_id is None,
            f.beacon.name@ == Seq::<char>::empty(),
            f.beacon.note is None,
            f.avail_floors@ == Seq::<M>::empty(),
            f.id is None,
            f.raw_coord0@ == "0"@,
            f.raw_coord1@ == "0"@,
            f.raw_mac@ == address_text(seq![0u8, 0u8, 0u8, 0u8, 0u8, 0u8, 0u8, 0u8]),
            f.user_msg.is_clear(),
    {
        let nil = MacAddress8::nil();
        assert(nil.eui@ =~= seq![0u8, 0u8, 0u8, 0u8, 0u8, 0u8, 0u8, 0u8]);
        BeaconForm {
            beacon: Beacon::new(origin),
            avail_floors: Vec::new(),
            id: None,
            raw_coord0: String::from_str("0"),
            raw_coord1: String::from_str("0"),
            raw_mac: nil.to_hex_string(),
            user_msg: UserMessage::new(),
        }
    }

    pub fn input_name(&mut self, name: String)
        ensures
            *final(self) == (BeaconForm { beacon: Beacon { name, ..old(self).beacon }, ..*old(self) }),
    {
        self.beacon.name = name;
    }

    pub fn input_floor(&mut self, map_id: Option<i32>)
        ensures
            *final(self) == (BeaconForm { beacon: Beacon { map_id, ..old(self).beacon }, ..*old(self) }),
    {
        self.beacon.map_id = map_id;
    }

    pub fn input_note(&mut self, note: String)
        ensures
            *final(self) == (BeaconForm { beacon: Beacon { note: Some(note), ..old(self).beacon }, ..*old(self) }),
    {
        self.beacon.note = Some(note);
    }

    pub fn input_mac(&mut self, raw: String)
        ensures
            *final(self) == (BeaconForm { raw_mac: raw, ..*old(self) }),
    {
        self.raw_mac = raw;
    }

    /// Takes a coordinate as typed: the first (`0`) or the second (`1`).
    pub fn input_coordinate(&mut self, index: usize, value: String)
        requires
            index < 2,
        ensures
            *final(self) == if index == 0 {
                BeaconForm { raw_coord0: value, ..*old(self) }
            } else {
                BeaconForm { raw_coord1: value, ..*old(self) }
            },
    {
        if index == 0 {
            self.raw_coord0 = value;
        } else {
            self.raw_coord1 = value;
        }
    }

    /// Reads the typed address into the beacon, or says why it does not
    /// read. The coordinates are read by the caller, after the address.
    pub fn validate_mac(&mut self) -> (r: Result<(), String>)
        ensures
            match parse_address(8, old(self).raw_mac@, utf8_len(old(self).raw_mac@)) {
                Ok(b) => {
                    &&& r is Ok
                    &&& final(self).beacon.mac_address.eui@ == b
                    &&& *final(self) == (BeaconForm {
                        beacon: Beacon { mac_address: final(self).beacon.mac_address, ..old(self).beacon },
                        ..*old(self)
                    })
                },
                Err(e) => {
                    &&& r matches Err(m) && m@ == bad_address_message(8, e)
                    &&& *final(self) == *old(self)
                },
            },
    {
        match MacAddress8::parse_str(self.raw_mac.as_str()) {
            Ok(m) => {
                self.beacon.mac_address = m;
                Ok(())
            },
            Err(e) => Err(bad_address(8, e)),
        }
    }

    /// What submitting the form asks, given whether all its fields read:
    /// an update of the beacon being edited (which then carries its key),
    /// an addition, or nothing for a form that does not read.
    pub fn request(&mut self, valid: bool) -> (r: Option<FormRequest>)
        ensures
            match (valid, old(self).id) {
                (true, Some(id)) => {
                    &&& r == Some(FormRequest::Update(id))
                    &&& *final(self) == (BeaconForm { beacon: Beacon { id, ..old(self).beacon }, ..*old(self) })
                },
                (true, None) => r == Some(FormRequest::Add) && *final(self) == *old(self),
                (false, _) => r is None && *final(self) == *old(self),
            },
    {
        if !valid {
            return None;
        }
        match self.id {
            Some(id) => {
                self.beacon.id = id;
                Some(FormRequest::Update(id))
            },
            None => Some(FormRequest::Add),
        }
    }

    /// Offers the maps read from the server.
    pub fn floors_loaded(&mut self, maps: Vec<M>)
        ensures
            *final(self) == (BeaconForm { avail_floors: maps, ..*old(self) }),
    {
        self.avail_floors = maps;
    }

    /// Shows a beacon read from the server; the caller writes its
    /// coordinates into the coordinate fields.
    pub fn loaded(&mut self, beacon: Beacon<C>)
        ensures
            final(self).raw_mac@ == address_text(beacon.mac_address.eui@),
            final(self).beacon == beacon,
            final(self).id == old(self).id,
            final(self).avail_floors == old(self).avail_floors,
            final(self).raw_coord0 == old(self).raw_coord0,
            final(self).raw_coord1 == old(self).raw_coord1,
            final(self).user_msg == old(self).user_msg,
    {
        self.raw_mac = beacon.mac_address.to_hex_string();
        self.beacon = beacon;
    }

    /// Shows a beacon just added, whose key the form now edits; returns
    /// the message for the user.
    pub fn added(&mut self, beacon: Beacon<C>) -> (m: String)
        ensures
            m@ == "successfully added beacon"@,
            final(self).raw_mac@ == address_text(beacon.mac_address.eui@),
            final(self).id == Some(beacon.id),
            final(self).beacon == beacon,
            final(self).avail_floors == old(self).avail_floors,
            final(self).raw_coord0 == old(self).raw_coord0,
            final(self).raw_coord1 == old(self).raw_coord1,
            final(self).user_msg == old(self).user_msg,
    {
        self.id = Some(beacon.id);
        self.raw_mac = beacon.mac_address.to_hex_string();
        self.beacon = beacon;
        String::from_str("successfully added beacon")
    }

    /// Shows a beacon just updated; returns the message for the user.
    pub fn updated(&mut self, beacon: Beacon<C>) -> (m: String)
        ensures
            m@ == "successfully updated beacon"@,
            *final(self) == (BeaconForm { beacon, ..*old(self) }),
    {
        self.beacon = beacon;
        String::from_str("successfully updated beacon")
    }

    /// The message for a failed request.
    pub fn failure(op: BeaconFormOp, reason: &str) -> (m: String)
        ensures
            m@ == beacon_failure_message(op, reason@),
    {
        let mut m = match op {
            BeaconFormOp::Floors => String::from_str("failed to obtain available floors list, reason: "),
            BeaconFormOp::Find => String::from_str("failed to find beacon, reason: "),
            BeaconFormOp::Add => String::from_str("failed to add beacon, reason: "),
            BeaconFormOp::Update => String::from_str("failed to update beacon, reason: "),
        };
        m.append(reason);
        m
    }
}

/// What the answer to a login request means for the user.
#[derive(Copy, Clone, Debug, PartialEq, Eq, Structural)]
pub enum LoginReply {
    /// Logged in: the map view is shown next.
    LoggedIn,
    BadCredentials,
    Failed,
}

impl LoginReply {
    /// Reads the status code of the answer.
    pub fn from_status(status: u16) -> (r: LoginReply)
        ensures
            r == if status == 200 {
                LoginReply::LoggedIn
            } else if status == 401 {
                LoginReply::BadCredentials
            } else {
                LoginReply::Failed
            },
    {
        if status == 200 {
            LoginReply::LoggedIn
        } else if status == 401 {
            LoginReply::BadCredentials
        } else {
            LoginReply::Failed
        }
    }

    /// The message shown to the user.
    pub fn message(&self) -> (m: String)
        ensures
            m@ == match *self {
                LoginReply::LoggedIn => "Successfully logged in."@,
                LoginReply::BadCredentials => "Failed to login, username or password is incorrect."@,
                LoginReply::Failed => "Failed to login, internal error"@,
            },
    {
        match self {
            LoginReply::LoggedIn => String::from_str("Successfully logged in."),
            LoginReply::BadCredentials => String::from_str("Failed to login, username or password is incorrect."),
            LoginReply::Failed => String::from_str("Failed to login, internal error"),
        }
    }
}

/// What the answer to a logout request means: logged out (also when the
/// session had already ended) or failed, with the message shown.
pub fn logout_reply(status: u16) -> (r: Result<String, String>)
    ensures
        (status == 200 || status == 401) ==> (r matches Ok(m) && m@ == "Successfully logged out."@),
        !(status == 200 || status == 401) ==> (r matches Err(m) && m@ == "Failed to logout."@),
{
    if status == 200 || status == 401 {
        Ok(String::from_str("Successfully logged out."))
    } else {
        Err(String::from_str("Failed to logout."))
    }
}

/// Whether a key press submits the login form: its code names an Enter
/// key.
pub fn is_enter_key(code: &str) -> (r: bool)
    ensures
        r == occurs_in(code@, "Enter"@),
{
    contains_str(code, "Enter")
}

/// The login of the responder, who needs no password.
pub fn responder_login() -> (info: LoginInfo)
    ensures
        info.name@ == "responder"@,
        info.pw@ == Seq::<char>::empty(),
{
    let mut info = LoginInfo::new();
    info.name = String::from_str("responder");
    info
}

/// A form to add a floor plan or update one, and to place the beacons on
/// it; `S` is the type of a scale and `C` that of a position. The size and
/// the scale are kept as typed until the form is submitted.
pub struct MapForm<S, C> {
    pub map: FloorPlan<S>,
    pub attached_beacons: Vec<Beacon<C>>,
    /// The key of the plan being updated; `None` while adding one.
    pub opt_id: Option<i32>,
    pub raw_width: String,
    pub raw_height: String,
    pub raw_scale: String,
    /// The key of the beacon being placed, if any.
    pub current_beacon: Option<i32>,
    pub user_msg: UserMessage,
}

/// The position of the first beacon with key `id`.
pub open spec fn index_of_beacon<C>(bs: Seq<Beacon<C>>, id: i32) -> Option<int>
    decreases bs.len(),
{
    if bs.len() == 0 {
        None
    } else if bs[0].id == id {
        Some(0)
    } else {
        match index_of_beacon(bs.drop_first(), id) {
            Some(i) => Some(i + 1),
            None => None,
        }
    }
}

proof fn lemma_index_of_beacon_step<C>(bs: Seq<Beacon<C>>, id: i32, i: int)
    requires
        0 <= i < bs.len(),
        forall|j: int| 0 <= j < i ==> (#[trigger] bs[j]).id != id,
    ensures
        bs[i].id == id ==> index_of_beacon(bs, id) == Some(i),
    decreases i,
{
    if i > 0 {
        assert forall|j: int| 0 <= j < i - 1 implies (#[trigger] bs.drop_first()[j]).id != id by {
            assert(bs.drop_first()[j] == bs[j + 1]);
        }
        lemma_index_of_beacon_step(bs.drop_first(), id, i - 1);
    }
}

proof fn lemma_index_of_beacon_none<C>(bs: Seq<Beacon<C>>, id: i32)
    requires
        forall|j: int| 0 <= j < bs.len() ==> (#[trigger] bs[j]).id != id,
    ensures
        index_of_beacon(bs, id) is None,
    decreases bs.len(),
{
    if bs.len() > 0 {
        assert forall|j: int| 0 <= j < bs.len() - 1 implies (#[trigger] bs.drop_first()[j]).id != id by {
            assert(bs.drop_first()[j] == bs[j + 1]);
        }
        lemma_index_of_beacon_none(bs.drop_first(), id);
    }
}

/// Finds the first beacon with a key.
fn find_beacon<C>(bs: &Vec<Beacon<C>>, id: i32) -> (r: Option<usize>)
    ensures
        match r {
            Some(i) => index_of_beacon(bs@, id) == Some(i as int) && i < bs@.len(),
            None => index_of_beacon(bs@, id) is None,
        },
{
    let mut i: usize = 0;
    while i < bs.len()
        invariant
            i <= bs@.len(),
            forall|j: int| 0 <= j < i ==> (#[trigger] bs@[j]).id != id,
        decreases bs.len() - i,
    {
        proof {
            lemma_index_of_beacon_step(bs@, id, i as int);
        }
        if bs[i].id == id {
            return Some(i);
        }
        i = i + 1;
    }
    proof {
        lemma_index_of_beacon_none(bs@, id);
    }
    None
}

/// Puts a beacon in place of the `i`-th.
fn replace_beacon<C>(bs: &mut Vec<Beacon<C>>, i: usize, b: Beacon<C>)
    requires
        i < old(bs)@.len(),
    ensures
        final(bs)@ == old(bs)@.update(i as int, b),
{
    bs.remove(i);
    bs.insert(i, b);
    assert(bs@ =~= old(bs)@.update(i as int, b));
}

/// The message for a size that does not read.
pub open spec fn bad_size_message(axis: char, e: IntError) -> Seq<char> {
    "failed to parse "@ + seq![axis] + " coordinate: "@ + int_error_text(e)
}

/// The description of an integer error.
pub open spec fn int_error_text(e: IntError) -> Seq<char> {
    match e {
        IntError::Empty => "cannot parse integer from empty string"@,
        IntError::InvalidDigit => "invalid digit found in string"@,
        IntError::PosOverflow => "number too large to fit in target type"@,
        IntError::NegOverflow => "number too small to fit in target type"@,
    }
}

fn bad_size(x_axis: bool, e: IntError) -> (s: String)
    ensures
        s@ == bad_size_message(if x_axis { 'x' } else { 'y' }, e),
{
    let mut s = if x_axis {
        String::from_str("failed to parse x coordinate: ")
    } else {
        String::from_str("failed to parse y coordinate: ")
    };
    proof {
        reveal_strlit("failed to parse x coordinate: ");
        reveal_strlit("failed to parse y coordinate: ");
        reveal_strlit("failed to parse ");
        reveal_strlit(" coordinate: ");
    }
    let t = e.to_string();
    s.append(t.as_str());
    assert(s@ =~= bad_size_message(if x_axis { 'x' } else { 'y' }, e));
    s
}

/// The floor plan requests whose failure a map form reports.
#[derive(Copy, Clone, Debug, PartialEq, Eq, Structural)]
pub enum MapFormOp {
    SaveBeacon,
    Beacons,
    Find,
    Add,
    Update,
}

/// The message for a failed floor plan request: with the reason the
/// answer gave, or without one where the server refused the request.
pub open spec fn map_failure_message(op: MapFormOp, reason: Option<Seq<char>>) -> Seq<char> {
    match (op, reason) {
        (MapFormOp::SaveBeacon, Some(r)) => "failed to update attached beacon, reason: "@ + r,
        (MapFormOp::SaveBeacon, None) => "failed to updated attached beacon"@,
        (MapFormOp::Beacons, Some(r)) => "failed to obtain available floors list, reason: "@ + r,
        (MapFormOp::Beacons, None) => "failed to obtain available floors list"@,
        (MapFormOp::Find, Some(r)) => "failed to find map, reason: "@ + r,
        (MapFormOp::Find, None) => "failed to find map"@,
        (MapFormOp::Add, Some(r)) => "failed to add map, reason: "@ + r,
        (MapFormOp::Add, None) => "failed to add map"@,
        (MapFormOp::Update, Some(r)) => "failed to update map, reason: "@ + r,
        (MapFormOp::Update, None) => "failed to update map"@,
    }
}

impl<S, C> MapForm<S, C> {
    /// An empty form for a new plan of scale `unit_scale`: no beacon, size
    /// `0` by `0`, scale `1`, no beacon being placed.
    pub fn new(unit_scale: S) -> (f: MapForm<S, C>)
        ensures
            f.map.id == -1,
            f.map.blueprint@ == Seq::<u8>::empty(),
            f.map.bounds@ == seq![0i32, 0i32],
            f.map.name@ == Seq::<char>::empty(),
            f.map.note is None,
            f.map.scale == unit_scale,
            f.attached_beacons@ == Seq::<Beacon<C>>::empty(),
            f.opt_id is None,
            f.raw_width@ == "0"@,
            f.raw_height@ == "0"@,
            f.raw_scale@ == "1"@,
            f.current_beacon is None,
            f.user_msg.is_clear(),
    {
        MapForm {
            map: FloorPlan::new(unit_scale),
            attached_beacons: Vec::new(),
            opt_id: None,
            raw_width: String::from_str("0"),
            raw_height: String::from_str("0"),
            raw_scale: String::from_str("1"),
            current_beacon: None,
            user_msg: UserMessage::new(),
        }
    }

    pub fn input_name(&mut self, name: String)
        ensures
            *final(self) == (MapForm { map: FloorPlan { name, ..old(self).map }, ..*old(self) }),
    {
        self.map.name = name;
    }

    pub fn input_note(&mut self, note: String)
        ensures
            *final(self) == (MapForm { map: FloorPlan { note: Some(note), ..old(self).map }, ..*old(self) }),
    {
        self.map.note = Some(note);
    }

    /// Takes a size as typed: the width (`0`) or the height (`1`).
    pub fn input_bound(&mut self, index: usize, value: String)
        requires
            index < 2,
        ensures
            *final(self) == if index == 0 {
                MapForm { raw_width: value, ..*old(self) }
            } else {
                MapForm { raw_height: value, ..*old(self) }
            },
    {
        if index == 0 {
            self.raw_width = value;
        } else {
            self.raw_height = value;
        }
    }

    pub fn input_scale(&mut self, value: String)
        ensures
            *final(self) == (MapForm { raw_scale: value, ..*old(self) }),
    {
        self.raw_scale = value;
    }

    /// Selects a beacon to place, or, selected already, lets it go.
    pub fn toggle_beacon(&mut self, beacon_id: i32)
        ensures
            *final(self) == (MapForm {
                current_beacon: if old(self).current_beacon == Some(beacon_id) {
                    None
                } else {
                    Some(beacon_id)
                },
                ..*old(self)
            }),
    {
        if self.current_beacon == Some(beacon_id) {
            self.current_beacon = None;
        } else {
            self.current_beacon = Some(beacon_id);
        }
    }

    /// The attached beacon with a key, if any.
    pub fn beacon_index(&self, id: i32) -> (r: Option<usize>)
        ensures
            match r {
                Some(i) => index_of_beacon(self.attached_beacons@, id) == Some(i as int) && i < self.attached_beacons@.len(),
                None => index_of_beacon(self.attached_beacons@, id) is None,
            },
    {
        find_beacon(&self.attached_beacons, id)
    }

    /// Places the selected beacon at `coords` (a click on the plan, which
    /// the caller converts); says whether a beacon was selected and found.
    pub fn place_selected(&mut self, coords: C) -> (placed: bool)
        ensures
            match old(self).current_beacon {
                Some(id) => match index_of_beacon(old(self).attached_beacons@, id) {
                    Some(i) => {
                        &&& placed
                        &&& *final(self) == (MapForm {
                            attached_beacons: final(self).attached_beacons,
                            ..*old(self)
                        })
                        &&& final(self).attached_beacons@ == old(self).attached_beacons@.update(
                            i,
                            Beacon { coordinates: coords, ..old(self).attached_beacons@[i] },
                        )
                    },
                    None => !placed && *final(self) == *old(self),
                },
                None => !placed && *final(self) == *old(self),
            },
    {
        match self.current_beacon {
            Some(id) => match find_beacon(&self.attached_beacons, id) {
                Some(i) => {
                    let mut b = self.attached_beacons.remove(i);
                    b.coordinates = coords;
                    self.attached_beacons.insert(i, b);
                    assert(self.attached_beacons@ =~= old(self).attached_beacons@.update(
                        i as int,
                        Beacon { coordinates: coords, ..old(self).attached_beacons@[i as int] },
                    ));
                    true
                },
                None => false,
            },
            None => false,
        }
    }

    /// Reads the typed size into the plan, width first, or says why it
    /// does not read; the height is not read when the width does not. The
    /// scale is read by the caller, after the size.
    pub fn validate_bounds(&mut self) -> (r: Result<(), String>)
        ensures
            match (int_parse(old(self).raw_width@), int_parse(old(self).raw_height@)) {
                (Err(e), _) => {
                    &&& r matches Err(m) && m@ == bad_size_message('x', e)
                    &&& *final(self) == *old(self)
                },
                (Ok(w), Err(e)) => {
                    &&& r matches Err(m) && m@ == bad_size_message('y', e)
                    &&& final(self).map.bounds@ == old(self).map.bounds@.update(0, w)
                    &&& *final(self) == (MapForm { map: FloorPlan { bounds: final(self).map.bounds, ..old(self).map }, ..*old(self) })
                },
                (Ok(w), Ok(h)) => {
                    &&& r is Ok
                    &&& final(self).map.bounds@ == seq![w, h]
                    &&& *final(self) == (MapForm { map: FloorPlan { bounds: final(self).map.bounds, ..old(self).map }, ..*old(self) })
                },
            },
    {
        let w = match parse_i32(self.raw_width.as_str()) {
            Ok(v) => v,
            Err(e) => {
                return Err(bad_size(true, e));
            },
        };
        self.map.bounds = [w, self.map.bounds[1]];
        assert(self.map.bounds@ =~= old(self).map.bounds@.update(0, w));
        let h = match parse_i32(self.raw_height.as_str()) {
            Ok(v) => v,
            Err(e) => {
                return Err(bad_size(false, e));
            },
        };
        self.map.bounds = [w, h];
        assert(self.map.bounds@ =~= seq![w, h]);
        Ok(())
    }

    /// What submitting the form asks, given whether all its fields read:
    /// an update of the plan being edited (which then carries its key), an
    /// addition, or nothing for a form that does not read.
    pub fn request(&mut self, valid: bool) -> (r: Option<FormRequest>)
        ensures
            match (valid, old(self).opt_id) {
                (true, Some(id)) => {
                    &&& r == Some(FormRequest::Update(id))
                    &&& *final(self) == (MapForm { map: FloorPlan { id, ..old(self).map }, ..*old(self) })
                },
                (true, None) => r == Some(FormRequest::Add) && *final(self) == *old(self),
                (false, _) => r is None && *final(self) == *old(self),
            },
    {
        if !valid {
            return None;
        }
        match self.opt_id {
            Some(id) => {
                self.map.id = id;
                Some(FormRequest::Update(id))
            },
            None => Some(FormRequest::Add),
        }
    }

    /// Takes in a beacon saved by the server: it replaces the attached
    /// beacon with its key, if still there, and the message for the user
    /// is returned; otherwise nothing changes.
    pub fn beacon_saved(&mut self, saved: Option<Beacon<C>>) -> (m: Option<String>)
        ensures
            match saved {
                Some(b) => match index_of_beacon(old(self).attached_beacons@, b.id) {
                    Some(i) => {
                        &&& m matches Some(t) && t@ == "successfully updated attached beacon"@
                        &&& *final(self) == (MapForm { attached_beacons: final(self).attached_beacons, ..*old(self) })
                        &&& final(self).attached_beacons@ == old(self).attached_beacons@.update(i, b)
                    },
                    None => m is None && *final(self) == *old(self),
                },
                None => m is None && *final(self) == *old(self),
            },
    {
        match saved {
            Some(b) => match find_beacon(&self.attached_beacons, b.id) {
                Some(i) => {
                    replace_beacon(&mut self.attached_beacons, i, b);
                    Some(String::from_str("successfully updated attached beacon"))
                },
                None => None,
            },
            None => None,
        }
    }

    /// Takes in the beacons placed on the plan.
    pub fn beacons_loaded(&mut self, beacons: Vec<Beacon<C>>)
        ensures
            *final(self) == (MapForm { attached_beacons: beacons, ..*old(self) }),
    {
        self.attached_beacons = beacons;
    }

    /// Shows a plan read from the server, or an empty one of scale
    /// `unit_scale` where there is none; the caller writes the scale into
    /// the scale field.
    pub fn map_loaded(&mut self, found: Option<FloorPlan<S>>, unit_scale: S)
        ensures
            match found {
                Some(p) => final(self).map == p,
                None => {
                    &&& final(self).map.id == -1
                    &&& final(self).map.blueprint@ == Seq::<u8>::empty()
                    &&& final(self).map.bounds@ == seq![0i32, 0i32]
                    &&& final(self).map.name@ == Seq::<char>::empty()
                    &&& final(self).map.note is None
                    &&& final(self).map.scale == unit_scale
                },
            },
            final(self).raw_width@ == int_text(final(self).map.bounds@[0] as int),
            final(self).raw_height@ == int_text(final(self).map.bounds@[1] as int),
            final(self).attached_beacons == old(self).attached_beacons,
            final(self).opt_id == old(self).opt_id,
            final(self).raw_scale == old(self).raw_scale,
            final(self).current_beacon == old(self).current_beacon,
            final(self).user_msg == old(self).user_msg,
    {
        let p = match found {
            Some(p) => p,
            None => FloorPlan::new(unit_scale),
        };
        self.raw_width = i32_text(p.bounds[0]);
        self.raw_height = i32_text(p.bounds[1]);
        self.map = p;
    }

    /// Shows a plan just added, whose key the form now edits; returns the
    /// message for the user.
    pub fn map_added(&mut self, map: FloorPlan<S>) -> (m: String)
        ensures
            m@ == "successfully added map"@,
            *final(self) == (MapForm { opt_id: Some(map.id), map, ..*old(self) }),
    {
        self.opt_id = Some(map.id);
        self.map = map;
        String::from_str("successfully added map")
    }

    /// Shows a plan just updated; returns the message for the user.
    pub fn map_updated(&mut self, map: FloorPlan<S>) -> (m: String)
        ensures
            m@ == "successfully updated map"@,
            *final(self) == (MapForm { map, ..*old(self) }),
    {
        self.map = map;
        String::from_str("successfully updated map")
    }

    /// The message for a failed request.
    pub fn failure(op: MapFormOp, reason: Option<&str>) -> (m: String)
        ensures
            m@ == map_failure_message(op, match reason {
                Some(r) => Some(r@),
                None => None,
            }),
    {
        match reason {
            Some(r) => {
                let mut m = match op {
                    MapFormOp::SaveBeacon => String::from_str("failed to update attached beacon, reason: "),
                    MapFormOp::Beacons => String::from_str("failed to obtain available floors list, reason: "),
                    MapFormOp::Find => String::from_str("failed to find map, reason: "),
                    MapFormOp::Add => String::from_str("failed to add map, reason: "),
                    MapFormOp::Update => String::from_str("failed to update map, reason: "),
                };
                m.append(r);
                m
            },
            None => match op {
                MapFormOp::SaveBeacon => String::from_str("failed to updated attached beacon"),
                MapFormOp::Beacons => String::from_str("failed to obtain available floors list"),
                MapFormOp::Find => String::from_str("failed to find map"),
                MapFormOp::Add => String::from_str("failed to add map"),
                MapFormOp::Update => String::from_str("failed to update map"),
            },
        }
    }
}

} // verus!

verus! {

/// The heading and buttons of a form: the heading, the submit button's
/// text (only an administrator may submit), whether a button starts
/// another record, and the page that cancelling returns to, if any.
pub struct FormButtons {
    pub title: String,
    pub submit: Option<String>,
    pub add_another: bool,
    pub cancel: Option<Page>,
}

impl FormButtons {
    /// The buttons read `title`, submit with `submit` for an administrator,
    /// offer another record to an administrator who is editing one, and
    /// cancel to `cancel`.
    pub open spec fn shows(
        self,
        title: Seq<char>,
        submit: Seq<char>,
        editing: bool,
        user_type: WebUserType,
        cancel: Option<Page>,
    ) -> bool {
        &&& self.title@ == title
        &&& user_type == WebUserType::Admin ==> (self.submit matches Some(s) && s@ == submit)
        &&& user_type == WebUserType::Responder ==> self.submit is None
        &&& self.add_another == (editing && user_type == WebUserType::Admin)
        &&& self.cancel == cancel
    }
}

fn form_buttons(title: &str, submit: &str, editing: bool, user_type: WebUserType, cancel: Option<Page>) -> (b: FormButtons)
    ensures
        b.shows(title@, submit@, editing, user_type, cancel),
{
    let admin = match user_type {
        WebUserType::Admin => true,
        WebUserType::Responder => false,
    };
    FormButtons {
        title: String::from_str(title),
        submit: if admin {
            Some(String::from_str(submit))
        } else {
            None
        },
        add_another: editing && admin,
        cancel,
    }
}

impl<P> UserForm<P> {
    /// The form's heading and buttons; cancelling returns to the user list,
    /// or to the user status for a first responder.
    pub fn buttons(&self, user_type: WebUserType) -> (b: FormButtons)
        ensures
            b.shows(
                if self.id is Some { "Update User"@ } else { "Add User"@ },
                if self.id is Some { "Update User"@ } else { "Add User"@ },
                self.id is Some,
                user_type,
                Some(if user_type == WebUserType::Admin { Page::UserList } else { Page::Status(PageState::UserStatus) }),
            ),
    {
        let cancel = match user_type {
            WebUserType::Admin => Page::UserList,
            WebUserType::Responder => Page::Status(PageState::UserStatus),
        };
        let title = if self.id.is_some() { "Update User" } else { "Add User" };
        form_buttons(title, title, self.id.is_some(), user_type, Some(cancel))
    }
}

impl<C, M> BeaconForm<C, M> {
    /// The form's heading and buttons; cancelling returns to the beacon
    /// list, or to the beacon status for a first responder.
    pub fn buttons(&self, user_type: WebUserType) -> (b: FormButtons)
        ensures
            b.shows(
                if self.id is Some { "Update Beacon"@ } else { "Add Beacon"@ },
                if self.id is Some { "Update Beacon"@ } else { "Add Beacon"@ },
                self.id is Some,
                user_type,
                Some(if user_type == WebUserType::Admin { Page::BeaconList } else { Page::Status(PageState::BeaconStatus) }),
            ),
    {
        let cancel = match user_type {
            WebUserType::Admin => Page::BeaconList,
            WebUserType::Responder => Page::Status(PageState::BeaconStatus),
        };
        let title = if self.id.is_some() { "Update Beacon" } else { "Add Beacon" };
        form_buttons(title, title, self.id.is_some(), user_type, Some(cancel))
    }
}

impl<S, C> MapForm<S, C> {
    /// The form's heading and buttons; it has no cancel button.
    pub fn buttons(&self, user_type: WebUserType) -> (b: FormButtons)
        ensures
            b.shows(
                if self.opt_id is Some { "Map Update"@ } else { "Map Add"@ },
                if self.opt_id is Some { "Update Map"@ } else { "Add Map"@ },
                self.opt_id is Some,
                user_type,
                None,
            ),
    {
        let editing = self.opt_id.is_some();
        let title = if editing { "Map Update" } else { "Map Add" };
        let submit = if editing { "Update Map" } else { "Add Map" };
        form_buttons(title, submit, editing, user_type, None)
    }
}

/// What the beacon placement part of a map form shows.
#[derive(Copy, Clone, Debug, PartialEq, Eq, Structural)]
pub enum PlacementView {
    /// Nothing: the plan is being added.
    Hidden,
    /// A notice that no beacon is on the plan.
    NoBeacons,
    /// A row for each beacon on the plan, and the plan to place them on.
    Rows,
}

impl<S, C> MapForm<S, C> {
    /// What the placement part shows: beacons are placed on a stored plan.
    pub fn placement_view(&self) -> (v: PlacementView)
        ensures
            v == if self.opt_id is None {
                PlacementView::Hidden
            } else if self.attached_beacons@.len() == 0 {
                PlacementView::NoBeacons
            } else {
                PlacementView::Rows
            },
    {
        if self.opt_id.is_none() {
            PlacementView::Hidden
        } else if self.attached_beacons.len() == 0 {
            PlacementView::NoBeacons
        } else {
            PlacementView::Rows
        }
    }

    /// Whether the row of beacon `id` is marked as the one being placed.
    pub fn is_placing(&self, id: i32) -> (r: bool)
        ensures
            r == (self.current_beacon == Some(id)),
    {
        match self.current_beacon {
            Some(c) => c == id,
            None => false,
        }
    }
}

} // verus!

verus! {

/// What a user form is told: an input, a page to show, a request to make,
/// or the server's answer (a user with their contact; an error is the
/// reason given).
pub enum UserMsg<P> {
    AddAnotherUser,
    ChangeRootPage(Page),
    InputMacAddress(String),
    Input(UserField, String, UserType),
    RequestAddUpdateUser,
    RequestGetUser(i32),
    ResponseAddUser(Result<(TrackedUser<P>, Option<TrackedUser<P>>), String>),
    ResponseGetUser(Result<(TrackedUser<P>, Option<TrackedUser<P>>), String>),
    ResponseUpdateUser(Result<(TrackedUser<P>, Option<TrackedUser<P>>), String>),
}

/// What a user form asks of its surroundings.
#[derive(Copy, Clone, Debug, PartialEq, Eq, Structural)]
pub enum UserAction {
    ShowPage(Page),
    /// Get the user with this key, with their contact.
    FetchUser(i32),
    /// Send the form's user and contact: an addition or an update.
    Submit(FormRequest),
}

impl<P> UserForm<P> {
    /// The form is `old` with only its messages changed.
    pub open spec fn same_but_messages(self, old: Self) -> bool {
        self == (UserForm { user_msg: self.user_msg, ..old })
    }

    /// This form is `old` after taking in `msg` (with `origin` the
    /// position of a new user) and asking for `actions`.
    pub open spec fn stepped(self, old: Self, msg: UserMsg<P>, origin: P, actions: Seq<UserAction>) -> bool {
        match msg {
            UserMsg::AddAnotherUser => {
                &&& fresh_user(self.user, origin) && self.user.name@.len() == 0
                &&& self.emergency_user is None && self.id is None && self.raw_mac@ == "00:00"@
                &&& self.user_msg == old.user_msg
                &&& actions.len() == 0
            },
            UserMsg::ChangeRootPage(p) => self == old && actions =~= seq![UserAction::ShowPage(p)],
            UserMsg::InputMacAddress(raw) => self == (UserForm { raw_mac: raw, ..old }) && actions.len() == 0,
            UserMsg::Input(field, value, who) => input_done(old, self, field, value, who, origin) && actions.len() == 0,
            UserMsg::RequestGetUser(id) => self == old && actions =~= seq![UserAction::FetchUser(id)],
            UserMsg::RequestAddUpdateUser => {
                &&& self.submitted(old)
                &&& match submit_answer(old) {
                    Ok(q) => self.user_msg.is_clear() && actions =~= seq![UserAction::Submit(q)],
                    Err(m) => self.user_msg.only_error(m) && actions.len() == 0,
                }
            },
            UserMsg::ResponseGetUser(Ok((u, c))) => {
                &&& self == (UserForm { user: u, emergency_user: c, raw_mac: self.raw_mac, ..old })
                &&& self.raw_mac@ == optional_address_text(u.mac_address)
                &&& actions.len() == 0
            },
            UserMsg::ResponseAddUser(Ok((u, c))) => {
                &&& self == (UserForm {
                    user: u,
                    emergency_user: c,
                    id: Some(u.id),
                    raw_mac: self.raw_mac,
                    user_msg: self.user_msg,
                    ..old
                })
                &&& self.raw_mac@ == optional_address_text(u.mac_address)
                &&& self.user_msg.succeeded(old.user_msg, "successfully added user"@)
                &&& actions.len() == 0
            },
            UserMsg::ResponseUpdateUser(Ok((u, c))) => {
                &&& self == (UserForm { user: u, emergency_user: c, user_msg: self.user_msg, ..old })
                &&& self.user_msg.succeeded(old.user_msg, "successfully updated user"@)
                &&& actions.len() == 0
            },
            UserMsg::ResponseGetUser(Err(e)) => {
                &&& self.same_but_messages(old)
                &&& self.user_msg.erred(old.user_msg, user_failure_message(UserFormOp::Find, e@))
                &&& actions.len() == 0
            },
            UserMsg::ResponseAddUser(Err(e)) => {
                &&& self.same_but_messages(old)
                &&& self.user_msg.erred(old.user_msg, user_failure_message(UserFormOp::Add, e@))
                &&& actions.len() == 0
            },
            UserMsg::ResponseUpdateUser(Err(e)) => {
                &&& self.same_but_messages(old)
                &&& self.user_msg.erred(old.user_msg, user_failure_message(UserFormOp::Update, e@))
                &&& actions.len() == 0
            },
        }
    }

    /// A form for the user with key `id`, which asks for that user at once,
    /// or for a new user at position `origin`.
    pub fn create(id: Option<i32>, origin: P) -> (r: (UserForm<P>, Vec<UserAction>))
        ensures
            fresh_user(r.0.user, origin),
            r.0.user.name@.len() == 0,
            r.0.emergency_user is None,
            r.0.id == id,
            r.0.raw_mac@ == "00:00"@,
            r.0.user_msg.is_clear(),
            r.1@ == match id {
                Some(k) => seq![UserAction::FetchUser(k)],
                None => Seq::<UserAction>::empty(),
            },
    {
        let mut f = UserForm::new(origin);
        f.id = id;
        let actions = match id {
            Some(k) => vec![UserAction::FetchUser(k)],
            None => Vec::new(),
        };
        (f, actions)
    }

    /// The page is shown again, for the user with key `id` or a new one.
    pub fn change(&mut self, id: Option<i32>)
        ensures
            *final(self) == (UserForm { id, ..*old(self) }),
    {
        self.id = id;
    }

    /// Takes in a message; `origin` is the position of a new user. Submitting
    /// clears the messages first, and a tag address that does not read
    /// leaves exactly one error and asks for nothing.
    pub fn update(&mut self, msg: UserMsg<P>, origin: P) -> (actions: Vec<UserAction>)
        ensures
            final(self).stepped(*old(self), msg, origin, actions@),
    {
        match msg {
            UserMsg::AddAnotherUser => {
                let mut fresh = UserForm::new(origin);
                std::mem::swap(&mut fresh.user_msg, &mut self.user_msg);
                *self = fresh;
                Vec::new()
            },
            UserMsg::ChangeRootPage(p) => vec![UserAction::ShowPage(p)],
            UserMsg::InputMacAddress(raw) => {
                self.input_mac(raw);
                Vec::new()
            },
            UserMsg::Input(field, value, who) => {
                self.input(field, value, who, origin);
                Vec::new()
            },
            UserMsg::RequestGetUser(id) => vec![UserAction::FetchUser(id)],
            UserMsg::RequestAddUpdateUser => {
                self.user_msg.reset();
                match self.submit() {
                    Ok(q) => vec![UserAction::Submit(q)],
                    Err(m) => {
                        self.user_msg.push_error(m);
                        Vec::new()
                    },
                }
            },
            UserMsg::ResponseGetUser(Ok((u, c))) => {
                self.loaded(u, c);
                Vec::new()
            },
            UserMsg::ResponseAddUser(Ok((u, c))) => {
                let m = self.added(u, c);
                self.user_msg.succeed(m);
                Vec::new()
            },
            UserMsg::ResponseUpdateUser(Ok((u, c))) => {
                let m = self.updated(u, c);
                self.user_msg.succeed(m);
                Vec::new()
            },
            UserMsg::ResponseGetUser(Err(e)) => {
                self.user_msg.push_error(UserForm::<P>::failure(UserFormOp::Find, e.as_str()));
                Vec::new()
            },
            UserMsg::ResponseAddUser(Err(e)) => {
                self.user_msg.push_error(UserForm::<P>::failure(UserFormOp::Add, e.as_str()));
                Vec::new()
            },
            UserMsg::ResponseUpdateUser(Err(e)) => {
                self.user_msg.push_error(UserForm::<P>::failure(UserFormOp::Update, e.as_str()));
                Vec::new()
            },
        }
    }
}

} // verus!

verus! {

/// The coordinates typed in a beacon form as the caller read them, the
/// first before the second: both read (the position they give), the first
/// does not read (the reason), or the second does not (the position with
/// the first written, and the reason).
pub enum CoordReading<C> {
    Both(C),
    BadX(String),
    BadY(C, String),
}

/// What a beacon form is told: an input, a page to show, a request to make
/// (submitting comes with the coordinates as read), or the server's
/// answer (a beacon read comes with the texts of its two coordinates; an
/// error is the reason given).
pub enum BeaconMsg<C, M> {
    ChangeRootPage(Page),
    AddAnotherBeacon,
    InputName(String),
    InputFloorName(Option<i32>),
    InputNote(String),
    InputMacAddress(String),
    InputCoordinate(usize, String),
    RequestGetAvailMaps,
    RequestGetBeacon(i32),
    RequestAddUpdateBeacon(CoordReading<C>),
    ResponseGetAvailMaps(Result<Vec<M>, String>),
    ResponseUpdateBeacon(Result<Beacon<C>, String>),
    ResponseGetBeacon(Result<(Beacon<C>, String, String), String>),
    ResponseAddBeacon(Result<Beacon<C>, String>),
}

/// What a beacon form asks of its surroundings.
#[derive(Copy, Clone, Debug, PartialEq, Eq, Structural)]
pub enum BeaconAction {
    ShowPage(Page),
    /// Get the maps a beacon can be placed on.
    FetchFloors,
    /// Get the beacon with this key.
    FetchBeacon(i32),
    /// Send the form's beacon: an addition or an update.
    Submit(FormRequest),
}

impl<C, M> BeaconForm<C, M> {
    /// Whether the option for plan `map_id` (`None` for the option of no
    /// plan) is the one selected: the beacon's own plan.
    pub fn floor_selected(&self, map_id: Option<i32>) -> (r: bool)
        ensures
            r == (self.beacon.map_id == map_id),
    {
        match (self.beacon.map_id, map_id) {
            (Some(a), Some(b)) => a == b,
            (None, None) => true,
            _ => false,
        }
    }

    /// The form is `old` with only its messages changed.
    pub open spec fn same_but_messages(self, old: Self) -> bool {
        self == (BeaconForm { user_msg: self.user_msg, ..old })
    }

    /// This form is `old` after submitting it with the coordinates read as
    /// `reading`: the address is read first, then the coordinates; the
    /// first field that does not read leaves exactly one error and no
    /// request, and a form that reads asks to update the beacon being
    /// edited (which then carries its key) or to add it.
    pub open spec fn submitted(self, old: Self, reading: CoordReading<C>, actions: Seq<BeaconAction>) -> bool {
        match parse_address(8, old.raw_mac@, utf8_len(old.raw_mac@)) {
            Err(e) => self.same_but_messages(old) && self.user_msg.only_error(bad_address_message(8, e))
                && actions.len() == 0,
            Ok(b) => {
                let mac = self.beacon.mac_address;
                &&& mac.eui@ == b
                &&& match reading {
                    CoordReading::BadX(r) => {
                        &&& self == (BeaconForm {
                            beacon: Beacon { mac_address: mac, ..old.beacon },
                            user_msg: self.user_msg,
                            ..old
                        })
                        &&& self.user_msg.only_error("failed to parse x coordinate: "@ + r@)
                        &&& actions.len() == 0
                    },
                    CoordReading::BadY(c, r) => {
                        &&& self == (BeaconForm {
                            beacon: Beacon { mac_address: mac, coordinates: c, ..old.beacon },
                            user_msg: self.user_msg,
                            ..old
                        })
                        &&& self.user_msg.only_error("failed to parse y coordinate: "@ + r@)
                        &&& actions.len() == 0
                    },
                    CoordReading::Both(c) => {
                        &&& self.user_msg.is_clear()
                        &&& match old.id {
                            Some(id) => {
                                &&& self == (BeaconForm {
                                    beacon: Beacon { mac_address: mac, coordinates: c, id, ..old.beacon },
                                    user_msg: self.user_msg,
                                    ..old
                                })
                                &&& actions =~= seq![BeaconAction::Submit(FormRequest::Update(id))]
                            },
                            None => {
                                &&& self == (BeaconForm {
                                    beacon: Beacon { mac_address: mac, coordinates: c, ..old.beacon },
                                    user_msg: self.user_msg,
                                    ..old
                                })
                                &&& actions =~= seq![BeaconAction::Submit(FormRequest::Add)]
                            },
                        }
                    },
                }
            },
        }
    }

    /// This form is `old` after taking in `msg` (with `origin` the
    /// position of a new beacon) and asking for `actions`.
    pub open spec fn stepped(self, old: Self, msg: BeaconMsg<C, M>, origin: C, actions: Seq<BeaconAction>) -> bool {
        match msg {
            BeaconMsg::ChangeRootPage(p) => self == old && actions =~= seq![BeaconAction::ShowPage(p)],
            BeaconMsg::AddAnotherBeacon => {
                &&& self.beacon.coordinates == origin && self.beacon.id == -1 && self.beacon.map_id is None
                &&& self.beacon.name@.len() == 0 && self.beacon.note is None && self.avail_floors@.len() == 0
                &&& self.id is None && self.raw_coord0@ == "0"@ && self.raw_coord1@ == "0"@
                &&& self.raw_mac@ == address_text(seq![0u8, 0u8, 0u8, 0u8, 0u8, 0u8, 0u8, 0u8])
                &&& self.user_msg == old.user_msg
                &&& actions =~= seq![BeaconAction::FetchFloors]
            },
            BeaconMsg::InputName(name) => self == (BeaconForm { beacon: Beacon { name, ..old.beacon }, ..old })
                && actions.len() == 0,
            BeaconMsg::InputFloorName(map_id) => self == (BeaconForm { beacon: Beacon { map_id, ..old.beacon }, ..old })
                && actions.len() == 0,
            BeaconMsg::InputNote(note) => self == (BeaconForm { beacon: Beacon { note: Some(note), ..old.beacon }, ..old })
                && actions.len() == 0,
            BeaconMsg::InputMacAddress(raw) => self == (BeaconForm { raw_mac: raw, ..old }) && actions.len() == 0,
            BeaconMsg::InputCoordinate(i, value) => {
                &&& self == if i == 0 {
                    BeaconForm { raw_coord0: value, ..old }
                } else {
                    BeaconForm { raw_coord1: value, ..old }
                }
                &&& actions.len() == 0
            },
            BeaconMsg::RequestGetAvailMaps => self == old && actions =~= seq![BeaconAction::FetchFloors],
            BeaconMsg::RequestGetBeacon(id) => self == old && actions =~= seq![BeaconAction::FetchBeacon(id)],
            BeaconMsg::RequestAddUpdateBeacon(reading) => self.submitted(old, reading, actions),
            BeaconMsg::ResponseGetAvailMaps(Ok(v)) => self == (BeaconForm { avail_floors: v, ..old }) && actions.len() == 0,
            BeaconMsg::ResponseGetBeacon(Ok((b, x, y))) => {
                &&& self == (BeaconForm { beacon: b, raw_mac: self.raw_mac, raw_coord0: x, raw_coord1: y, ..old })
                &&& self.raw_mac@ == address_text(b.mac_address.eui@)
                &&& actions.len() == 0
            },
            BeaconMsg::ResponseAddBeacon(Ok(b)) => {
                &&& self == (BeaconForm {
                    beacon: b,
                    id: Some(b.id),
                    raw_mac: self.raw_mac,
                    user_msg: self.user_msg,
                    ..old
                })
                &&& self.raw_mac@ == address_text(b.mac_address.eui@)
                &&& self.user_msg.succeeded(old.user_msg, "successfully added beacon"@)
                &&& actions.len() == 0
            },
            BeaconMsg::ResponseUpdateBeacon(Ok(b)) => {
                &&& self == (BeaconForm { beacon: b, user_msg: self.user_msg, ..old })
                &&& self.user_msg.succeeded(old.user_msg, "successfully updated beacon"@)
                &&& actions.len() == 0
            },
            BeaconMsg::ResponseGetAvailMaps(Err(e)) => self.same_but_messages(old) && self.user_msg.erred(
                old.user_msg,
                beacon_failure_message(BeaconFormOp::Floors, e@),
            ) && actions.len() == 0,
            BeaconMsg::ResponseGetBeacon(Err(e)) => self.same_but_messages(old) && self.user_msg.erred(
                old.user_msg,
                beacon_failure_message(BeaconFormOp::Find, e@),
            ) && actions.len() == 0,
            BeaconMsg::ResponseAddBeacon(Err(e)) => self.same_but_messages(old) && self.user_msg.erred(
                old.user_msg,
                beacon_failure_message(BeaconFormOp::Add, e@),
            ) && actions.len() == 0,
            BeaconMsg::ResponseUpdateBeacon(Err(e)) => self.same_but_messages(old) && self.user_msg.erred(
                old.user_msg,
                beacon_failure_message(BeaconFormOp::Update, e@),
            ) && actions.len() == 0,
        }
    }

    /// A form for the beacon with key `id`, or for a new beacon at position
    /// `origin`; it asks for the maps at once, and for the beacon.
    pub fn create(id: Option<i32>, origin: C) -> (r: (BeaconForm<C, M>, Vec<BeaconAction>))
        ensures
            r.0.beacon.coordinates == origin,
            r.0.beacon.id == -1,
            r.0.beacon.map_id is None,
            r.0.avail_floors@.len() == 0,
            r.0.id == id,
            r.0.user_msg.is_clear(),
            r.1@ == seq![BeaconAction::FetchFloors] + match id {
                Some(k) => seq![BeaconAction::FetchBeacon(k)],
                None => Seq::<BeaconAction>::empty(),
            },
    {
        let mut f = BeaconForm::new(origin);
        f.id = id;
        let mut actions = vec![BeaconAction::FetchFloors];
        if let Some(k) = id {
            actions.push(BeaconAction::FetchBeacon(k));
        }
        (f, actions)
    }

    /// The page is shown again, for the beacon with key `id` or a new one.
    pub fn change(&mut self, id: Option<i32>)
        ensures
            *final(self) == (BeaconForm { id, ..*old(self) }),
    {
        self.id = id;
    }

    /// Takes in a message; `origin` is the position of a new beacon.
    /// Submitting clears the messages first; the first field that does not
    /// read leaves exactly one error and asks for nothing.
    pub fn update(&mut self, msg: BeaconMsg<C, M>, origin: C) -> (actions: Vec<BeaconAction>)
        requires
            msg matches BeaconMsg::InputCoordinate(i, _) ==> i < 2,
        ensures
            final(self).stepped(*old(self), msg, origin, actions@),
    {
        match msg {
            BeaconMsg::ChangeRootPage(p) => vec![BeaconAction::ShowPage(p)],
            BeaconMsg::AddAnotherBeacon => {
                let mut fresh = BeaconForm::new(origin);
                std::mem::swap(&mut fresh.user_msg, &mut self.user_msg);
                *self = fresh;
                vec![BeaconAction::FetchFloors]
            },
            BeaconMsg::InputName(name) => {
                self.input_name(name);
                Vec::new()
            },
            BeaconMsg::InputFloorName(map_id) => {
                self.input_floor(map_id);
                Vec::new()
            },
            BeaconMsg::InputNote(note) => {
                self.input_note(note);
                Vec::new()
            },
            BeaconMsg::InputMacAddress(raw) => {
                self.input_mac(raw);
                Vec::new()
            },
            BeaconMsg::InputCoordinate(i, value) => {
                self.input_coordinate(i, value);
                Vec::new()
            },
            BeaconMsg::RequestGetAvailMaps => vec![BeaconAction::FetchFloors],
            BeaconMsg::RequestGetBeacon(id) => vec![BeaconAction::FetchBeacon(id)],
            BeaconMsg::RequestAddUpdateBeacon(reading) => {
                self.user_msg.reset();
                match self.validate_mac() {
                    Err(m) => {
                        self.user_msg.push_error(m);
                        Vec::new()
                    },
                    Ok(()) => match reading {
                        CoordReading::BadX(r) => {
                            self.user_msg.push_error(failure_text("failed to parse x coordinate: ", r.as_str()));
                            Vec::new()
                        },
                        CoordReading::BadY(c, r) => {
                            self.beacon.coordinates = c;
                            self.user_msg.push_error(failure_text("failed to parse y coordinate: ", r.as_str()));
                            Vec::new()
                        },
                        CoordReading::Both(c) => {
                            self.beacon.coordinates = c;
                            match self.request(true) {
                                Some(q) => vec![BeaconAction::Submit(q)],
                                None => Vec::new(),
                            }
                        },
                    },
                }
            },
            BeaconMsg::ResponseGetAvailMaps(Ok(v)) => {
                self.floors_loaded(v);
                Vec::new()
            },
            BeaconMsg::ResponseGetBeacon(Ok((b, x, y))) => {
                self.loaded(b);
                self.raw_coord0 = x;
                self.raw_coord1 = y;
                Vec::new()
            },
            BeaconMsg::ResponseAddBeacon(Ok(b)) => {
                let m = self.added(b);
                self.user_msg.succeed(m);
                Vec::new()
            },
            BeaconMsg::ResponseUpdateBeacon(Ok(b)) => {
                let m = self.updated(b);
                self.user_msg.succeed(m);
                Vec::new()
            },
            BeaconMsg::ResponseGetAvailMaps(Err(e)) => {
                self.user_msg.push_error(BeaconForm::<C, M>::failure(BeaconFormOp::Floors, e.as_str()));
                Vec::new()
            },
            BeaconMsg::ResponseGetBeacon(Err(e)) => {
                self.user_msg.push_error(BeaconForm::<C, M>::failure(BeaconFormOp::Find, e.as_str()));
                Vec::new()
            },
            BeaconMsg::ResponseAddBeacon(Err(e)) => {
                self.user_msg.push_error(BeaconForm::<C, M>::failure(BeaconFormOp::Add, e.as_str()));
                Vec::new()
            },
            BeaconMsg::ResponseUpdateBeacon(Err(e)) => {
                self.user_msg.push_error(BeaconForm::<C, M>::failure(BeaconFormOp::Update, e.as_str()));
                Vec::new()
            },
        }
    }
}

} // verus!

verus! {

/// What a map form is told: an input (a click on the plan comes as the
/// position it points to, which the caller works out), a page request, a
/// request to make (submitting comes with the scale as the caller read it,
/// or the reason it does not read), or the server's answer. An error is
/// the reason given, or nothing where the server refused the request; a
/// plan read comes with the text of its scale.
pub enum MapMsg<S, C> {
    Ignore,
    AddAnotherMap,
    InputName(String),
    InputNote(String),
    InputBound(usize, String),
    InputScale(String),
    ToggleBeaconPlacement(i32),
    CanvasClick(C),
    RequestPutBeacon(i32),
    RequestGetBeaconsForMap(i32),
    RequestGetMap(i32),
    RequestAddUpdateMap(Result<S, String>),
    ResponsePutBeacon(Result<Option<Beacon<C>>, Option<String>>),
    ResponseGetBeaconsForMap(Result<Vec<Beacon<C>>, Option<String>>),
    ResponseUpdateMap(Result<FloorPlan<S>, Option<String>>),
    ResponseGetMap(Result<(Option<FloorPlan<S>>, String), Option<String>>),
    ResponseAddMap(Result<FloorPlan<S>, Option<String>>),
}

/// What a map form asks of its surroundings.
#[derive(Copy, Clone, Debug, PartialEq, Eq, Structural)]
pub enum MapAction {
    /// Save the attached beacon at this position of the list.
    SaveBeacon(usize),
    /// Get the beacons placed on the plan with this key.
    FetchBeacons(i32),
    /// Get the plan with this key.
    FetchMap(i32),
    /// Send the form's plan: an addition or an update.
    Submit(FormRequest),
}

/// The reason a failed answer gives, as text.
pub open spec fn reason_text(r: Option<String>) -> Option<Seq<char>> {
    match r {
        Some(t) => Some(t@),
        None => None,
    }
}

fn report_failure<S, C>(f: &mut MapForm<S, C>, op: MapFormOp, reason: Option<String>)
    ensures
        final(f).same_but_messages(*old(f)),
        final(f).user_msg.erred(old(f).user_msg, map_failure_message(op, reason_text(reason))),
{
    let m = match &reason {
        Some(r) => MapForm::<S, C>::failure(op, Some(r.as_str())),
        None => MapForm::<S, C>::failure(op, None),
    };
    f.user_msg.push_error(m);
}

impl<S, C> MapForm<S, C> {
    /// The form is `old` with only its messages changed.
    pub open spec fn same_but_messages(self, old: Self) -> bool {
        self == (MapForm { user_msg: self.user_msg, ..old })
    }

    /// The lines the form shows for its messages: the success, then
    /// `Failure: ` and every error in order.
    pub fn message_lines(&self) -> (r: Vec<String>)
        ensures
            r@.map_values(|l: String| l@) == self.user_msg.shown_lines(),
    {
        self.user_msg.lines()
    }

    /// This form is `old` after submitting it with the scale read as
    /// `scale`: the width, the height and the scale are read in turn; the
    /// first that does not read leaves exactly one error and no request,
    /// and a form that reads asks to update the plan being edited (which
    /// then carries its key) or to add it.
    pub open spec fn submitted(self, old: Self, scale: Result<S, String>, actions: Seq<MapAction>) -> bool {
        match (int_parse(old.raw_width@), int_parse(old.raw_height@)) {
            (Err(e), _) => self.same_but_messages(old) && self.user_msg.only_error(bad_size_message('x', e))
                && actions.len() == 0,
            (Ok(w), Err(e)) => {
                &&& self.map.bounds@ == old.map.bounds@.update(0, w)
                &&& self == (MapForm {
                    map: FloorPlan { bounds: self.map.bounds, ..old.map },
                    user_msg: self.user_msg,
                    ..old
                })
                &&& self.user_msg.only_error(bad_size_message('y', e))
                &&& actions.len() == 0
            },
            (Ok(w), Ok(h)) => {
                &&& self.map.bounds@ == seq![w, h]
                &&& match scale {
                    Err(r) => {
                        &&& self == (MapForm {
                            map: FloorPlan { bounds: self.map.bounds, ..old.map },
                            user_msg: self.user_msg,
                            ..old
                        })
                        &&& self.user_msg.only_error("failed to parse scale: "@ + r@)
                        &&& actions.len() == 0
                    },
                    Ok(sc) => {
                        &&& self.user_msg.is_clear()
                        &&& match old.opt_id {
                            Some(id) => {
                                &&& self == (MapForm {
                                    map: FloorPlan { bounds: self.map.bounds, scale: sc, id, ..old.map },
                                    user_msg: self.user_msg,
                                    ..old
                                })
                                &&& actions =~= seq![MapAction::Submit(FormRequest::Update(id))]
                            },
                            None => {
                                &&& self == (MapForm {
                                    map: FloorPlan { bounds: self.map.bounds, scale: sc, ..old.map },
                                    user_msg: self.user_msg,
                                    ..old
                                })
                                &&& actions =~= seq![MapAction::Submit(FormRequest::Add)]
                            },
                        }
                    },
                }
            },
        }
    }

    /// This form is `old` after taking in `msg` (with `unit_scale` the
    /// scale of a new plan) and asking for `actions`.
    pub open spec fn stepped(self, old: Self, msg: MapMsg<S, C>, unit_scale: S, actions: Seq<MapAction>) -> bool {
        match msg {
            MapMsg::Ignore => self == old && actions.len() == 0,
            MapMsg::AddAnotherMap => {
                &&& self.map.id == -1 && self.map.blueprint@.len() == 0 && self.map.bounds@ == seq![0i32, 0i32]
                &&& self.map.name@.len() == 0 && self.map.note is None && self.map.scale == unit_scale
                &&& self.attached_beacons@.len() == 0 && self.opt_id is None && self.current_beacon is None
                &&& self.raw_width@ == "0"@ && self.raw_height@ == "0"@ && self.raw_scale@ == "1"@
                &&& self.user_msg.is_clear()
                &&& actions.len() == 0
            },
            MapMsg::InputName(name) => self == (MapForm { map: FloorPlan { name, ..old.map }, ..old })
                && actions.len() == 0,
            MapMsg::InputNote(note) => self == (MapForm { map: FloorPlan { note: Some(note), ..old.map }, ..old })
                && actions.len() == 0,
            MapMsg::InputBound(i, value) => {
                &&& self == if i == 0 {
                    MapForm { raw_width: value, ..old }
                } else {
                    MapForm { raw_height: value, ..old }
                }
                &&& actions.len() == 0
            },
            MapMsg::InputScale(value) => self == (MapForm { raw_scale: value, ..old }) && actions.len() == 0,
            MapMsg::ToggleBeaconPlacement(id) => {
                &&& self == (MapForm {
                    current_beacon: if old.current_beacon == Some(id) {
                        None
                    } else {
                        Some(id)
                    },
                    ..old
                })
                &&& actions.len() == 0
            },
            MapMsg::CanvasClick(coords) => {
                &&& match old.current_beacon {
                    Some(id) => match index_of_beacon(old.attached_beacons@, id) {
                        Some(i) => {
                            &&& self == (MapForm { attached_beacons: self.attached_beacons, ..old })
                            &&& self.attached_beacons@ == old.attached_beacons@.update(
                                i,
                                Beacon { coordinates: coords, ..old.attached_beacons@[i] },
                            )
                        },
                        None => self == old,
                    },
                    None => self == old,
                }
                &&& actions.len() == 0
            },
            MapMsg::RequestPutBeacon(id) => {
                &&& self == old
                &&& actions =~= match index_of_beacon(old.attached_beacons@, id) {
                    Some(i) => seq![MapAction::SaveBeacon(i as usize)],
                    None => Seq::<MapAction>::empty(),
                }
            },
            MapMsg::RequestGetBeaconsForMap(id) => self == old && actions =~= seq![MapAction::FetchBeacons(id)],
            MapMsg::RequestGetMap(id) => self == old && actions =~= seq![MapAction::FetchMap(id)],
            MapMsg::RequestAddUpdateMap(scale) => self.submitted(old, scale, actions),
            MapMsg::ResponsePutBeacon(Ok(saved)) => {
                &&& actions.len() == 0
                &&& match saved {
                    Some(b) => match index_of_beacon(old.attached_beacons@, b.id) {
                        Some(i) => {
                            &&& self == (MapForm { attached_beacons: self.attached_beacons, user_msg: self.user_msg, ..old })
                            &&& self.attached_beacons@ == old.attached_beacons@.update(i, b)
                            &&& self.user_msg.succeeded(old.user_msg, "successfully updated attached beacon"@)
                        },
                        None => self == old,
                    },
                    None => self == old,
                }
            },
            MapMsg::ResponseGetBeaconsForMap(Ok(v)) => self == (MapForm { attached_beacons: v, ..old })
                && actions.len() == 0,
            MapMsg::ResponseUpdateMap(Ok(m)) => {
                &&& self == (MapForm { map: m, user_msg: self.user_msg, ..old })
                &&& self.user_msg.succeeded(old.user_msg, "successfully updated map"@)
                &&& actions.len() == 0
            },
            MapMsg::ResponseAddMap(Ok(m)) => {
                &&& self == (MapForm { opt_id: Some(m.id), map: m, user_msg: self.user_msg, ..old })
                &&& self.user_msg.succeeded(old.user_msg, "successfully added map"@)
                &&& actions.len() == 0
            },
            MapMsg::ResponseGetMap(Ok((found, scale_text))) => {
                &&& match found {
                    Some(p) => self.map == p,
                    None => {
                        &&& self.map.id == -1 && self.map.blueprint@.len() == 0
                        &&& self.map.bounds@ == seq![0i32, 0i32] && self.map.name@.len() == 0
                        &&& self.map.note is None && self.map.scale == unit_scale
                    },
                }
                &&& self == (MapForm {
                    map: self.map,
                    raw_width: self.raw_width,
                    raw_height: self.raw_height,
                    raw_scale: scale_text,
                    ..old
                })
                &&& self.raw_width@ == int_text(self.map.bounds@[0] as int)
                &&& self.raw_height@ == int_text(self.map.bounds@[1] as int)
                &&& actions.len() == 0
            },
            MapMsg::ResponsePutBeacon(Err(r)) => self.same_but_messages(old) && self.user_msg.erred(
                old.user_msg,
                map_failure_message(MapFormOp::SaveBeacon, reason_text(r)),
            ) && actions.len() == 0,
            MapMsg::ResponseGetBeaconsForMap(Err(r)) => self.same_but_messages(old) && self.user_msg.erred(
                old.user_msg,
                map_failure_message(MapFormOp::Beacons, reason_text(r)),
            ) && actions.len() == 0,
            MapMsg::ResponseUpdateMap(Err(r)) => self.same_but_messages(old) && self.user_msg.erred(
                old.user_msg,
                map_failure_message(MapFormOp::Update, reason_text(r)),
            ) && actions.len() == 0,
            MapMsg::ResponseGetMap(Err(r)) => self.same_but_messages(old) && self.user_msg.erred(
                old.user_msg,
                map_failure_message(MapFormOp::Find, reason_text(r)),
            ) && actions.len() == 0,
            MapMsg::ResponseAddMap(Err(r)) => self.same_but_messages(old) && self.user_msg.erred(
                old.user_msg,
                map_failure_message(MapFormOp::Add, reason_text(r)),
            ) && actions.len() == 0,
        }
    }

    /// A form for the plan with key `id`, which asks for the plan and its
    /// beacons at once, or for a new plan of scale `unit_scale`.
    pub fn create(id: Option<i32>, unit_scale: S) -> (r: (MapForm<S, C>, Vec<MapAction>))
        ensures
            r.0.map.id == -1,
            r.0.map.scale == unit_scale,
            r.0.attached_beacons@.len() == 0,
            r.0.opt_id == id,
            r.0.current_beacon is None,
            r.0.user_msg.is_clear(),
            r.1@ == match id {
                Some(k) => seq![MapAction::FetchMap(k), MapAction::FetchBeacons(k)],
                None => Seq::<MapAction>::empty(),
            },
    {
        let mut f = MapForm::new(unit_scale);
        f.opt_id = id;
        let actions = match id {
            Some(k) => vec![MapAction::FetchMap(k), MapAction::FetchBeacons(k)],
            None => Vec::new(),
        };
        (f, actions)
    }

    /// The page is shown again, for the plan with key `id` or a new one: a
    /// plan to edit is asked for again, with its beacons.
    pub fn change(&mut self, id: Option<i32>) -> (actions: Vec<MapAction>)
        ensures
            *final(self) == (MapForm { opt_id: id, ..*old(self) }),
            actions@ == match id {
                Some(k) => seq![MapAction::FetchMap(k), MapAction::FetchBeacons(k)],
                None => Seq::<MapAction>::empty(),
            },
    {
        self.opt_id = id;
        match id {
            Some(k) => vec![MapAction::FetchMap(k), MapAction::FetchBeacons(k)],
            None => Vec::new(),
        }
    }

    /// Takes in a message; `unit_scale` is the scale of a new plan.
    /// Submitting clears the messages first; the first field that does not
    /// read leaves exactly one error and asks for nothing.
    pub fn update(&mut self, msg: MapMsg<S, C>, unit_scale: S) -> (actions: Vec<MapAction>)
        requires
            msg matches MapMsg::InputBound(i, _) ==> i < 2,
        ensures
            final(self).stepped(*old(self), msg, unit_scale, actions@),
    {
        match msg {
            MapMsg::Ignore => Vec::new(),
            MapMsg::AddAnotherMap => {
                *self = MapForm::new(unit_scale);
                Vec::new()
            },
            MapMsg::InputName(name) => {
                self.input_name(name);
                Vec::new()
            },
            MapMsg::InputNote(note) => {
                self.input_note(note);
                Vec::new()
            },
            MapMsg::InputBound(i, value) => {
                self.input_bound(i, value);
                Vec::new()
            },
            MapMsg::InputScale(value) => {
                self.input_scale(value);
                Vec::new()
            },
            MapMsg::ToggleBeaconPlacement(id) => {
                self.toggle_beacon(id);
                Vec::new()
            },
            MapMsg::CanvasClick(coords) => {
                let _placed = self.place_selected(coords);
                Vec::new()
            },
            MapMsg::RequestPutBeacon(id) => match self.beacon_index(id) {
                Some(i) => vec![MapAction::SaveBeacon(i)],
                None => Vec::new(),
            },
            MapMsg::RequestGetBeaconsForMap(id) => vec![MapAction::FetchBeacons(id)],
            MapMsg::RequestGetMap(id) => vec![MapAction::FetchMap(id)],
            MapMsg::RequestAddUpdateMap(scale) => {
                self.user_msg.reset();
                match self.validate_bounds() {
                    Err(m) => {
                        self.user_msg.push_error(m);
                        Vec::new()
                    },
                    Ok(()) => match scale {
                        Err(r) => {
                            self.user_msg.push_error(failure_text("failed to parse scale: ", r.as_str()));
                            Vec::new()
                        },
                        Ok(sc) => {
                            self.map.scale = sc;
                            match self.request(true) {
                                Some(q) => vec![MapAction::Submit(q)],
                                None => Vec::new(),
                            }
                        },
                    },
                }
            },
            MapMsg::ResponsePutBeacon(Ok(saved)) => {
                match self.beacon_saved(saved) {
                    Some(m) => self.user_msg.succeed(m),
                    None => {},
                }
                Vec::new()
            },
            MapMsg::ResponseGetBeaconsForMap(Ok(v)) => {
                self.beacons_loaded(v);
                Vec::new()
            },
            MapMsg::ResponseUpdateMap(Ok(m)) => {
                let t = self.map_updated(m);
                self.user_msg.succeed(t);
                Vec::new()
            },
            MapMsg::ResponseAddMap(Ok(m)) => {
                let t = self.map_added(m);
                self.user_msg.succeed(t);
                Vec::new()
            },
            MapMsg::ResponseGetMap(Ok((found, scale_text))) => {
                self.map_loaded(found, unit_scale);
                self.raw_scale = scale_text;
                Vec::new()
            },
            MapMsg::ResponsePutBeacon(Err(r)) => {
                report_failure(self, MapFormOp::SaveBeacon, r);
                Vec::new()
            },
            MapMsg::ResponseGetBeaconsForMap(Err(r)) => {
                report_failure(self, MapFormOp::Beacons, r);
                Vec::new()
            },
            MapMsg::ResponseUpdateMap(Err(r)) => {
                report_failure(self, MapFormOp::Update, r);
                Vec::new()
            },
            MapMsg::ResponseGetMap(Err(r)) => {
                report_failure(self, MapFormOp::Find, r);
                Vec::new()
            },
            MapMsg::ResponseAddMap(Err(r)) => {
                report_failure(self, MapFormOp::Add, r);
                Vec::new()
            },
        }
    }
}

} // verus!
