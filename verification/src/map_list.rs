//! The page that lists the floor plans, sorted by name, and lets an
//! administrator delete one.

use vstd::prelude::*;
use crate::lists::{sort_by_name, sorted_by_name};
use crate::model::FloorPlan;
use crate::root::Page;
use crate::user_message::{UserMessage, failure_text};

verus! {

/// The list page's state: the floor plans shown and the messages.
pub struct MapList<S> {
    pub list: Vec<FloorPlan<S>>,
    pub user_msg: UserMessage,
}

/// What the list page is told; an error is the reason given.
pub enum Msg<S> {
    ChangeRootPage(Page),
    RequestDeleteMap(i32),
    RequestGetMaps,
    ResponseGetMaps(Result<Vec<FloorPlan<S>>, String>),
    ResponseDeleteMap(Result<(), String>),
}

/// What the list page asks of its surroundings.
#[derive(Copy, Clone, Debug, PartialEq, Eq, Structural)]
pub enum Action {
    ShowPage(Page),
    /// Get the floor plans.
    FetchMaps,
    /// Delete the floor plan with this key.
    Delete(i32),
}

impl<S> MapList<S> {
    /// An empty list, which asks for the floor plans at once.
    pub fn create() -> (r: (MapList<S>, Vec<Action>))
        ensures
            r.0.list@.len() == 0,
            r.0.user_msg.is_clear(),
            r.1@ == seq![Action::FetchMaps],
    {
        (MapList { list: Vec::new(), user_msg: UserMessage::new() }, vec![Action::FetchMaps])
    }

    /// The page is shown again: it asks for the floor plans again.
    pub fn change(&self) -> (actions: Vec<Action>)
        ensures
            actions@ == seq![Action::FetchMaps],
    {
        vec![Action::FetchMaps]
    }

    /// Takes in a message. The list received is shown sorted by name;
    /// after a deletion the list is fetched again.
    pub fn update(&mut self, msg: Msg<S>) -> (actions: Vec<Action>)
        ensures
            match msg {
                Msg::ChangeRootPage(p) => *final(self) == *old(self) && actions@ == seq![Action::ShowPage(p)],
                Msg::RequestDeleteMap(id) => *final(self) == *old(self) && actions@ == seq![Action::Delete(id)],
                Msg::RequestGetMaps => *final(self) == *old(self) && actions@ == seq![Action::FetchMaps],
                Msg::ResponseGetMaps(Ok(v)) => {
                    &&& final(self).list@.to_multiset() == v@.to_multiset()
                    &&& sorted_by_name(final(self).list@)
                    &&& final(self).user_msg == old(self).user_msg
                    &&& actions@.len() == 0
                },
                Msg::ResponseGetMaps(Err(e)) => {
                    &&& final(self).list == old(self).list
                    &&& final(self).user_msg.erred(old(self).user_msg, "failed to obtain map list, reason: "@ + e@)
                    &&& actions@.len() == 0
                },
                Msg::ResponseDeleteMap(r) => {
                    &&& final(self).list == old(self).list
                    &&& match r {
                        Ok(_) => final(self).user_msg.succeeded(old(self).user_msg, "successfully deleted map"@),
                        Err(e) => final(self).user_msg.erred(old(self).user_msg, "failed to delete map, reason: "@ + e@),
                    }
                    &&& actions@ == seq![Action::FetchMaps]
                },
            },
    {
        match msg {
            Msg::ChangeRootPage(p) => vec![Action::ShowPage(p)],
            Msg::RequestDeleteMap(id) => vec![Action::Delete(id)],
            Msg::RequestGetMaps => vec![Action::FetchMaps],
            Msg::ResponseGetMaps(Ok(v)) => {
                self.list = sort_by_name(v);
                Vec::new()
            },
            Msg::ResponseGetMaps(Err(e)) => {
                self.user_msg.push_error(failure_text("failed to obtain map list, reason: ", e.as_str()));
                Vec::new()
            },
            Msg::ResponseDeleteMap(r) => {
                match r {
                    Ok(_) => self.user_msg.succeed(String::from_str("successfully deleted map")),
                    Err(e) => self.user_msg.push_error(failure_text("failed to delete map, reason: ", e.as_str())),
                }
                vec![Action::FetchMaps]
            },
        }
    }
}

} // verus!
