//! Core logic of an indoor emergency-location system: beacon and tag
//! addresses, the beacon wire protocol, the beacon manager's state machine,
//! location history bookkeeping, request routing decisions and the web
//! front end's forms and status board.

pub mod address;
pub mod beacon_list;
pub mod beacon_query;
pub mod diagnostics;
pub mod error;
pub mod forms;
pub mod history;
pub mod lists;
pub mod login;
pub mod manager;
pub mod map_list;
pub mod map_view;
mod maps;
pub mod messages;
pub mod model;
pub mod network;
pub mod root;
pub mod routes;
pub mod simulator;
pub mod state;
pub mod status;
pub mod text;
pub mod urls;
pub mod usb;
pub mod user_list;
pub mod user_message;
pub mod user_query;
