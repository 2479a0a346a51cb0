//! The page that lists the beacons with their floor plans, sorted by name,
//! and lets an administrator command or delete one.

use vstd::prelude::*;
use crate::lists::{sort_by_name, sorted_by_name};
use crate::model::{Beacon, BeaconRequest, FloorPlan};
use crate::root::Page;
use crate::user_message::{UserMessage, failure_text};

verus! {

/// The list page's state: the beacons shown, each with the floor plan it
/// is on, and the messages.
pub struct BeaconList<C, S> {
    pub list: Vec<(Beacon<C>, Option<FloorPlan<S>>)>,
    pub user_msg: UserMessage,
}

/// What the list page is told; an error is the reason given.
pub enum Msg<C, S> {
    ChangeRootPage(Page),
    RequestDeleteBeacon(i32),
    RequestGetBeacons,
    RequestCommandBeacon(BeaconRequest),
    ResponseGetBeacons(Result<Vec<(Beacon<C>, Option<FloorPlan<S>>)>, String>),
    ResponseDeleteBeacon(Result<(), String>),
    ResponseCommandBeacon(Result<(), String>),
}

/// What the list page asks of its surroundings.
pub enum Action {
    ShowPage(Page),
    /// Get the beacons with their floor plans.
    FetchBeacons,
    /// Delete the beacon with this key.
    Delete(i32),
    /// Send this command to the beacons.
    Command(BeaconRequest),
}

impl<C, S> BeaconList<C, S> {
    /// An empty list, which asks for the beacons at once.
    pub fn create() -> (r: (BeaconList<C, S>, Vec<Action>))
        ensures
            r.0.list@.len() == 0,
            r.0.user_msg.is_clear(),
            r.1@.len() == 1 && r.1@[0] is FetchBeacons,
    {
        (BeaconList { list: Vec::new(), user_msg: UserMessage::new() }, vec![Action::FetchBeacons])
    }

    /// The page is shown again: it asks for the beacons again.
    pub fn change(&self) -> (actions: Vec<Action>)
        ensures
            actions@.len() == 1 && actions@[0] is FetchBeacons,
    {
        vec![Action::FetchBeacons]
    }

    /// Takes in a message. The list received is shown sorted by the
    /// beacons' names; after a deletion the list is fetched again.
    pub fn update(&mut self, msg: Msg<C, S>) -> (actions: Vec<Action>)
        ensures
            match msg {
                Msg::ChangeRootPage(p) => *final(self) == *old(self) && actions@.len() == 1 && actions@[0] == Action::ShowPage(p),
                Msg::RequestDeleteBeacon(id) => *final(self) == *old(self) && actions@.len() == 1 && actions@[0] == Action::Delete(id),
                Msg::RequestGetBeacons => *final(self) == *old(self) && actions@.len() == 1 && actions@[0] == Action::FetchBeacons,
                Msg::RequestCommandBeacon(c) => *final(self) == *old(self) && actions@.len() == 1 && actions@[0] == Action::Command(c),
                Msg::ResponseGetBeacons(Ok(v)) => {
                    &&& final(self).list@.to_multiset() == v@.to_multiset()
                    &&& sorted_by_name(final(self).list@)
                    &&& final(self).user_msg == old(self).user_msg
                    &&& actions@.len() == 0
                },
                Msg::ResponseGetBeacons(Err(e)) => {
                    &&& final(self).list == old(self).list
                    &&& final(self).user_msg.erred(old(self).user_msg, "failed to obtain beacon list, reason: "@ + e@)
                    &&& actions@.len() == 0
                },
                Msg::ResponseCommandBeacon(r) => {
                    &&& final(self).list == old(self).list
                    &&& match r {
                        Ok(_) => final(self).user_msg.succeeded(old(self).user_msg, "Successfully sent command"@),
                        Err(e) => final(self).user_msg.erred(old(self).user_msg, "failed to command beacon, reason: "@ + e@),
                    }
                    &&& actions@.len() == 0
                },
                Msg::ResponseDeleteBeacon(r) => {
                    &&& final(self).list == old(self).list
                    &&& match r {
                        Ok(_) => final(self).user_msg.succeeded(old(self).user_msg, "Successfully deleted beacon"@),
                        Err(e) => final(self).user_msg.erred(old(self).user_msg, "failed to delete beacon, reason: "@ + e@),
                    }
                    &&& actions@.len() == 1 && actions@[0] is FetchBeacons
                },
            },
    {
        match msg {
            Msg::ChangeRootPage(p) => vec![Action::ShowPage(p)],
            Msg::RequestDeleteBeacon(id) => vec![Action::Delete(id)],
            Msg::RequestGetBeacons => vec![Action::FetchBeacons],
            Msg::RequestCommandBeacon(c) => vec![Action::Command(c)],
            Msg::ResponseGetBeacons(Ok(v)) => {
                self.list = sort_by_name(v);
                Vec::new()
            },
            Msg::ResponseGetBeacons(Err(e)) => {
                self.user_msg.push_error(failure_text("failed to obtain beacon list, reason: ", e.as_str()));
                Vec::new()
            },
            Msg::ResponseCommandBeacon(r) => {
                match r {
                    Ok(_) => self.user_msg.succeed(String::from_str("Successfully sent command")),
                    Err(e) => self.user_msg.push_error(failure_text("failed to command beacon, reason: ", e.as_str())),
                }
                Vec::new()
            },
            Msg::ResponseDeleteBeacon(r) => {
                match r {
                    Ok(_) => self.user_msg.succeed(String::from_str("Successfully deleted beacon")),
                    Err(e) => self.user_msg.push_error(failure_text("failed to delete beacon, reason: ", e.as_str())),
                }
                vec![Action::FetchBeacons]
            },
        }
    }
}

} // verus!
