//! Direction-parameterised framing and lossless message decoding.

pub mod backend;
pub mod copies;
pub mod diagnostic;
pub mod frame;
pub mod frontend;
pub mod layout;
pub mod tags;

pub use backend::{
    Authentication, Backend, BackendMessage, CopyResponse, DataRow, FieldDescription,
    NegotiateProtocolVersion, RowDescription, TransactionStatus,
};
pub use diagnostic::{DiagnosticField, DiagnosticResponse};
pub use frame::{CodecError, Direction, Frame, PgCodec};
pub use frontend::{
    Bind, Close, Describe, DescribeTarget, Execute, Frontend, FrontendMessage, FunctionCall, Parse,
};
