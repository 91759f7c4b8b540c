pub mod call;
pub mod envelope;
pub mod error;
pub mod json;
pub mod laws;
pub mod options;
pub mod response;
pub mod text;
pub mod wire;

pub use call::{classify_reply, Built, Classified, Payload, Reply, Sent};
pub use error::{DropboxError, DropboxResult, ErrorKind};
pub use options::{
    MoveCopyOption, MoveCopyOptionBuilder, UploadMode, UploadOption, UploadOptionBuilder,
};
pub use response::{classify, Response};
pub use wire::{Body, Credential, Header, Method, Operation, Request, RequestError};
