//! A typed client for the Searpc JSON-array RPC protocol.
//!
//! A request is the JSON array `["function_name", arg0, arg1, ...]`; a reply is
//! the JSON object `{"ret": value}` or `{"err_code": code, "err_msg": text}`.
//! Two framings carry them: a 16-bit big-endian length before the JSON, or a
//! 32-bit host-order length before a service envelope.

pub mod error;
pub mod json;
pub mod text;
pub mod lines;
pub mod types;
pub mod protocol;
pub mod frame;
pub mod transport;
pub mod dispatch;
pub mod client;
pub mod async_transport;
pub mod async_client;
pub mod shape;
pub mod binding;
pub mod document;
pub mod typed;
pub mod seafile;
pub mod server;
pub mod config;

pub use async_client::AsyncSearpcClient;
pub use async_transport::AsyncTransport;
pub use client::SearpcClient;
pub use error::SearpcError;
pub use json::{JsonValue, Member};
pub use protocol::{RpcRequest, RpcResponse};
pub use transport::Transport;
pub use types::{Arg, IntoArg};
pub use seafile::{CloneTask, Repo, SeafileRpc, SyncTask, TransferTask};
pub use server::{RepoDownloadInfo, RepoInfo};
