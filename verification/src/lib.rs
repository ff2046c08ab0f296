//! A small JSON-RPC 2.0 server library.
//!
//! Requests are [`RequestObject`]s, built in memory or read from bytes. A [`Server`] finds the
//! handler for the method of each request and says with a [`Step`] which handlers are to be run.
//! What the handlers return is put together into [`ResponseObjects`], which are written as JSON.
//!
//! The handlers themselves are run outside of this library, as they may have to wait for something.
//! What they send back is of any type, until it is written.

pub mod argument_laws;
pub mod data;
pub mod error;
pub mod handler;
pub mod http;
pub mod id;
pub mod json;
pub mod laws;
pub mod method;
pub mod object;
pub mod reading_laws;
pub mod request;
pub mod response;
pub mod router;
pub mod server;
pub mod source;
pub mod source_laws;
pub mod wire;
pub mod writing_laws;

pub use crate::data::{Data, HttpRequestLocalData, Params, ParamsSource, RequestObjectWithData};
pub use crate::error::{Error, ErrorData, ErrorLike};
pub use crate::handler::{Handler, HandlerStep};
pub use crate::http::HttpReply;
pub use crate::id::{Id, Method, V2};
pub use crate::json::JsonError;
pub use crate::request::{NotificationBuilder, RequestBuilder, RequestKind, RequestObject};
pub use crate::response::{JsonText, ResponseObject, ResponseObjects};
pub use crate::router::{MapRouter, Router};
pub use crate::server::{Call, Dispatch, Server, ServerBuilder, Step};
pub use crate::wire::BytesRequestObject;
