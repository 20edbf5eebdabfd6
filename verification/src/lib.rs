//! The orchestration core of a SOCKS5 proxy service.
//!
//! The crate holds the decisions of the service and none of its input or
//! output: which configuration is acceptable, which scopes a cancellation
//! reaches, what the accept loop does with each wake-up, how a connection
//! ends, and which service-manager call follows which answer. A driver
//! performs the calls and reports back what came of them.
//!
//! Whatever takes several calls is written as one function from the call that
//! is pending and the answer it got to the call to make next. A driver starts
//! with no call pending, makes each call it is handed, hands the call back
//! with its answer, and stops at the call that ends the run:
//! [`service::install`] and its neighbours for the service manager,
//! [`service::run_service`] and [`service::server_foreground`] for a run of
//! the server, [`server::spawn_socks5_server`] for the accept loop,
//! [`connection::serve_socks5`] for one connection, [`config::Config::get`]
//! and [`config::Config::save`] for the sidecar file, and
//! [`cli::run_command`] for the process as a whole.
//!
//! What holds of every run is stated beside the functions, as proof functions
//! over the views of the values: that a cancellation is permanent and reaches
//! down and nowhere else, that nothing is dispatched once the server is
//! cancelled, that a failed call ends its run with the failure as it came.

pub mod cli;
pub mod config;
pub mod connection;
pub mod error;
pub mod scope;
pub mod server;
pub mod service;
