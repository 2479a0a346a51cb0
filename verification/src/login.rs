//! The login page: what it sends to the server, which kind of account it
//! switches to, and what it shows of the answers.

use vstd::prelude::*;
use crate::forms::{LoginReply, is_enter_key, logout_reply, responder_login};
use crate::model::{LoginInfo, WebUserType};
use crate::root::{AutoAction, Page};
use crate::text::occurs_in;
use crate::user_message::UserMessage;

verus! {

/// The login page's state: the name and password typed, what it does by
/// itself, and the messages shown.
pub struct Login {
    pub login: LoginInfo,
    pub auto_action: AutoAction,
    pub user_msg: UserMessage,
}

/// The requests of the login page.
#[derive(Copy, Clone, Debug, PartialEq, Eq, Structural)]
pub enum Request {
    /// Log in with the name and password typed.
    Login,
    /// Log in as a first responder, who needs no password.
    LoginAnon,
    Logout,
}

/// What the login page is told: a key pressed (by its code), a page to
/// show, an input, a request to make, or the status code of the server's
/// answer.
pub enum Msg {
    KeyDown(String),
    ChangeRootPage(Page),
    InputName(String),
    InputPassword(String),
    Request(Request),
    ResponseLogin(u16),
    ResponseLogout(u16),
}

/// What the login page asks of its surroundings.
pub enum Action {
    /// Post these credentials to the login address.
    PostLogin(LoginInfo),
    /// Post to the logout address.
    PostLogout,
    /// The interface now acts for this kind of account.
    SetUserType(WebUserType),
    /// Switch to a page.
    ShowPage(Page),
    /// Make this request next: handed back as `Msg::Request`.
    Send(Request),
}

/// The request that a login page's own action makes, if any.
pub open spec fn auto_request(a: AutoAction) -> Option<Request> {
    match a {
        AutoAction::Nothing => None,
        AutoAction::Login => Some(Request::LoginAnon),
        AutoAction::Logout => Some(Request::Logout),
    }
}

/// The actions for the request a page's own action makes.
pub open spec fn auto_actions(a: AutoAction, actions: Seq<Action>) -> bool {
    match auto_request(a) {
        None => actions.len() == 0,
        Some(r) => actions.len() == 1 && (actions[0] matches Action::Send(q) && q == r),
    }
}

fn request_for(a: AutoAction) -> (actions: Vec<Action>)
    ensures
        auto_actions(a, actions@),
{
    match a {
        AutoAction::Nothing => Vec::new(),
        AutoAction::Login => vec![Action::Send(Request::LoginAnon)],
        AutoAction::Logout => vec![Action::Send(Request::Logout)],
    }
}

impl Login {
    /// A login page with nothing typed; it makes the request of its own
    /// action at once.
    pub fn create(auto_action: AutoAction) -> (r: (Login, Vec<Action>))
        ensures
            r.0.login.name@ == Seq::<char>::empty(),
            r.0.login.pw@ == Seq::<char>::empty(),
            r.0.auto_action == auto_action,
            r.0.user_msg.error_messages@.len() == 0,
            r.0.user_msg.success_message is None,
            auto_actions(auto_action, r.1@),
    {
        let page = Login { login: LoginInfo::new(), auto_action, user_msg: UserMessage::new() };
        (page, request_for(auto_action))
    }

    /// The page is shown again, perhaps with another action of its own: a
    /// new one makes its request.
    pub fn change(&mut self, auto_action: AutoAction) -> (actions: Vec<Action>)
        ensures
            final(self).auto_action == auto_action,
            final(self).login == old(self).login,
            final(self).user_msg == old(self).user_msg,
            auto_action == old(self).auto_action ==> actions@.len() == 0,
            auto_action != old(self).auto_action ==> auto_actions(auto_action, actions@),
    {
        let actions = if auto_action != self.auto_action {
            request_for(auto_action)
        } else {
            Vec::new()
        };
        self.auto_action = auto_action;
        actions
    }

    /// Takes in a message. A login forgets the password as soon as it is
    /// sent; a login with a password is an administrator's, one without is
    /// a first responder's.
    pub fn update(&mut self, msg: Msg) -> (actions: Vec<Action>)
        ensures
            match msg {
                Msg::KeyDown(code) => {
                    &&& *final(self) == *old(self)
                    &&& occurs_in(code@, "Enter"@) ==> (actions@.len() == 1 && actions@[0] matches Action::Send(
                        Request::Login,
                    ))
                    &&& !occurs_in(code@, "Enter"@) ==> actions@.len() == 0
                },
                Msg::ChangeRootPage(page) => {
                    &&& *final(self) == *old(self)
                    &&& actions@.len() == 1
                    &&& actions@[0] matches Action::ShowPage(p) && p == page
                },
                Msg::InputName(name) => {
                    &&& final(self).login.name == name
                    &&& final(self).login.pw == old(self).login.pw
                    &&& final(self).auto_action == old(self).auto_action
                    &&& final(self).user_msg == old(self).user_msg
                    &&& actions@.len() == 0
                },
                Msg::InputPassword(pw) => {
                    &&& final(self).login.pw == pw
                    &&& final(self).login.name == old(self).login.name
                    &&& final(self).auto_action == old(self).auto_action
                    &&& final(self).user_msg == old(self).user_msg
                    &&& actions@.len() == 0
                },
                Msg::Request(Request::LoginAnon) => {
                    &&& final(self).login == old(self).login
                    &&& final(self).auto_action == old(self).auto_action
                    &&& final(self).user_msg.error_messages@.len() == 0
                    &&& final(self).user_msg.success_message is None
                    &&& actions@.len() == 2
                    &&& actions@[0] matches Action::PostLogin(info) && info.name@ == "responder"@
                        && info.pw@.len() == 0
                    &&& actions@[1] matches Action::SetUserType(t) && t == WebUserType::Responder
                },
                Msg::Request(Request::Login) => {
                    &&& final(self).login.name == old(self).login.name
                    &&& final(self).login.pw@.len() == 0
                    &&& final(self).auto_action == old(self).auto_action
                    &&& final(self).user_msg.error_messages@.len() == 0
                    &&& final(self).user_msg.success_message is None
                    &&& actions@.len() == 2
                    &&& actions@[0] matches Action::PostLogin(info) && info.name == old(self).login.name
                        && info.pw == old(self).login.pw
                    &&& actions@[1] matches Action::SetUserType(t) && t == WebUserType::Admin
                },
                Msg::Request(Request::Logout) => {
                    &&& final(self).login.name == old(self).login.name
                    &&& final(self).login.pw@.len() == 0
                    &&& final(self).auto_action == old(self).auto_action
                    &&& final(self).user_msg.error_messages@.len() == 0
                    &&& final(self).user_msg.success_message is None
                    &&& actions@.len() == 1 && actions@[0] is PostLogout
                },
                Msg::ResponseLogin(status) => {
                    let reply = if status == 200 {
                        LoginReply::LoggedIn
                    } else if status == 401 {
                        LoginReply::BadCredentials
                    } else {
                        LoginReply::Failed
                    };
                    &&& final(self).login == old(self).login
                    &&& final(self).auto_action == AutoAction::Nothing
                    &&& reply == LoginReply::LoggedIn ==> {
                        &&& final(self).user_msg.error_messages == old(self).user_msg.error_messages
                        &&& final(self).user_msg.success_message matches Some(m) && m@
                            == "Successfully logged in."@
                        &&& actions@.len() == 1
                        &&& actions@[0] matches Action::ShowPage(p) && p == Page::MapView(None)
                    }
                    &&& reply == LoginReply::BadCredentials ==> {
                        &&& final(self).user_msg.success_message == old(self).user_msg.success_message
                        &&& final(self).user_msg.error_messages@.drop_last()
                            == old(self).user_msg.error_messages@
                        &&& final(self).user_msg.error_messages@.last()@
                            == "Failed to login, username or password is incorrect."@
                        &&& actions@.len() == 0
                    }
                    &&& reply == LoginReply::Failed ==> {
                        &&& final(self).user_msg.success_message == old(self).user_msg.success_message
                        &&& final(self).user_msg.error_messages@.drop_last()
                            == old(self).user_msg.error_messages@
                        &&& final(self).user_msg.error_messages@.last()@
                            == "Failed to login, internal error"@
                        &&& actions@.len() == 0
                    }
                },
                Msg::ResponseLogout(status) => {
                    &&& final(self).login == old(self).login
                    &&& final(self).auto_action == old(self).auto_action
                    &&& actions@.len() == 0
                    &&& (status == 200 || status == 401) ==> {
                        &&& final(self).user_msg.error_messages == old(self).user_msg.error_messages
                        &&& final(self).user_msg.success_message matches Some(m) && m@
                            == "Successfully logged out."@
                    }
                    &&& !(status == 200 || status == 401) ==> {
                        &&& final(self).user_msg.success_message == old(self).user_msg.success_message
                        &&& final(self).user_msg.error_messages@.drop_last()
                            == old(self).user_msg.error_messages@
                        &&& final(self).user_msg.error_messages@.last()@ == "Failed to logout."@
                    }
                },
            },
    {
        match msg {
            Msg::KeyDown(code) => {
                if is_enter_key(code.as_str()) {
                    vec![Action::Send(Request::Login)]
                } else {
                    Vec::new()
                }
            },
            Msg::ChangeRootPage(page) => vec![Action::ShowPage(page)],
            Msg::InputName(name) => {
                self.login.name = name;
                Vec::new()
            },
            Msg::InputPassword(pw) => {
                self.login.pw = pw;
                Vec::new()
            },
            Msg::Request(Request::LoginAnon) => {
                self.user_msg.reset();
                let info = responder_login();
                vec![Action::PostLogin(info), Action::SetUserType(WebUserType::Responder)]
            },
            Msg::Request(Request::Login) => {
                self.user_msg.reset();
                let info = LoginInfo { name: self.login.name.clone(), pw: self.login.pw.clone() };
                self.login.reset_pw();
                vec![Action::PostLogin(info), Action::SetUserType(WebUserType::Admin)]
            },
            Msg::Request(Request::Logout) => {
                self.user_msg.reset();
                self.login.reset_pw();
                vec![Action::PostLogout]
            },
            Msg::ResponseLogin(status) => {
                let reply = LoginReply::from_status(status);
                let text = reply.message();
                self.auto_action = AutoAction::Nothing;
                match reply {
                    LoginReply::LoggedIn => {
                        self.user_msg.success_message = Some(text);
                        vec![Action::ShowPage(Page::MapView(None))]
                    },
                    _ => {
                        self.user_msg.error_messages.push(text);
                        Vec::new()
                    },
                }
            },
            Msg::ResponseLogout(status) => {
                match logout_reply(status) {
                    Ok(m) => self.user_msg.success_message = Some(m),
                    Err(m) => self.user_msg.error_messages.push(m),
                }
                Vec::new()
            },
        }
    }
}

} // verus!
