//! The page that lists the tracked users and lets an administrator delete
//! one.

use vstd::prelude::*;
use crate::model::TrackedUser;
use crate::root::Page;

verus! {

/// The list page's state: the users shown, in the order received.
pub struct UserList<P> {
    pub list: Vec<TrackedUser<P>>,
}

/// What the list page is told; an error is the reason given.
pub enum Msg<P> {
    ChangeRootPage(Page),
    RequestDeleteUser(i32),
    RequestGetUsers,
    ResponseGetUsers(Result<Vec<TrackedUser<P>>, String>),
    ResponseDeleteUser(Result<(), String>),
}

/// What the list page asks of its surroundings.
#[derive(Copy, Clone, Debug, PartialEq, Eq, Structural)]
pub enum Action {
    ShowPage(Page),
    /// Get the users, without their emergency contacts.
    FetchUsers,
    /// Delete the user with this key.
    Delete(i32),
}

impl<P> UserList<P> {
    /// An empty list, which asks for the users at once.
    pub fn create() -> (r: (UserList<P>, Vec<Action>))
        ensures
            r.0.list@.len() == 0,
            r.1@ == seq![Action::FetchUsers],
    {
        (UserList { list: Vec::new() }, vec![Action::FetchUsers])
    }

    /// The page is shown again: it asks for the users again.
    pub fn change(&self) -> (actions: Vec<Action>)
        ensures
            actions@ == seq![Action::FetchUsers],
    {
        vec![Action::FetchUsers]
    }

    /// Takes in a message. A list received replaces the one shown; a failed
    /// request leaves it; after a deletion, done or not, the list is
    /// fetched again.
    pub fn update(&mut self, msg: Msg<P>) -> (actions: Vec<Action>)
        ensures
            match msg {
                Msg::ChangeRootPage(p) => *final(self) == *old(self) && actions@ == seq![Action::ShowPage(p)],
                Msg::RequestDeleteUser(id) => *final(self) == *old(self) && actions@ == seq![Action::Delete(id)],
                Msg::RequestGetUsers => *final(self) == *old(self) && actions@ == seq![Action::FetchUsers],
                Msg::ResponseGetUsers(Ok(v)) => final(self).list == v && actions@.len() == 0,
                Msg::ResponseGetUsers(Err(_)) => *final(self) == *old(self) && actions@.len() == 0,
                Msg::ResponseDeleteUser(_) => *final(self) == *old(self) && actions@ == seq![Action::FetchUsers],
            },
    {
        match msg {
            Msg::ChangeRootPage(p) => vec![Action::ShowPage(p)],
            Msg::RequestDeleteUser(id) => vec![Action::Delete(id)],
            Msg::RequestGetUsers => vec![Action::FetchUsers],
            Msg::ResponseGetUsers(Ok(v)) => {
                self.list = v;
                Vec::new()
            },
            Msg::ResponseGetUsers(Err(_)) => Vec::new(),
            Msg::ResponseDeleteUser(_) => vec![Action::FetchUsers],
        }
    }
}

} // verus!
