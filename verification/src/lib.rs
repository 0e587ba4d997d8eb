//! crossbridge: questions and answers between repositories on one machine.
//!
//! Every repository keeps its issues in a database of its own. A *client* submits
//! an issue of its repository to the *server* of another one, where it becomes an
//! inbound issue; when that is answered, the result comments travel back and the
//! request is resolved. A *supervisor* tells the servers of a group of each other.
//! A *polling bridge* does the same work for repositories whose databases it can
//! open itself.
//!
//! Nothing here touches a database, a socket, a file or a clock. What needs them is
//! written as a *task*: a value that says what to do next (`current`) and goes on
//! with what came of it (`resume`, or `resumed` where the task is handed over). The
//! contract of a task is exact: its next state and its next action are functions of
//! its state and of the reply. What a whole run of tasks leaves behind is stated in
//! the modules whose names end in `_laws`, over the [`model`] of a database; there too
//! stands what the single functions and steps give, in terms of what goes in.
//!
//! - Messages and frames: [`codec`], [`messages`], [`framing`].
//! - Paths, slugs and labels: [`pathname`], [`paths`], [`slug`], [`labels`],
//!   [`peers`].
//! - The supervisor: [`supervisor`], [`registry`].
//! - The server: [`run`], [`uplink`], [`listeners`], [`handler`], [`attachment`].
//! - The client: [`client`].
//! - The polling bridge: [`config`], [`route`], [`outbound`], [`collect`].
//! - Databases: [`store`] names the operations, [`model`] says what they do.
//! - Helpers: [`text`], [`compose`], [`order`], [`encoding`].

pub mod api_laws;
pub mod attachment;
pub mod attachment_laws;
pub mod client;
pub mod client_laws;
pub mod codec;
pub mod collect;
pub mod compose;
pub mod config;
pub mod encoding;
pub mod failure_laws;
pub mod framing;
pub mod handler;
pub mod handler_laws;
pub mod labels;
pub mod listeners;
pub mod messages;
pub mod model;
pub mod order;
pub mod outbound;
pub mod pathname;
pub mod paths;
pub mod peers;
pub mod polling_laws;
pub mod registry;
pub mod registry_laws;
pub mod route;
pub mod route_laws;
pub mod run;
pub mod run_laws;
pub mod session_laws;
pub mod slug;
pub mod slug_laws;
pub mod step_laws;
pub mod store;
pub mod supervisor;
pub mod task_laws;
pub mod text;
pub mod text_laws;
pub mod uplink;
pub mod wire_laws;
