//! Errors reported by the protocol codecs.

use vstd::prelude::*;

verus! {

/// Broad class of a protocol error.
#[derive(Clone, Copy, Debug, PartialEq, Eq, Structural)]
pub enum ErrorKind {
    /// Received octets do not form a legal protocol value.
    InvalidData,
    /// A locally built value cannot be represented on the wire, or a peer
    /// supplied an unacceptable parameter.
    InvalidInput,
    /// The peer refused what local policy requires.
    PermissionDenied,
    /// The peer ended the exchange.
    ConnectionAborted,
    /// None of the other classes.
    Other,
}

/// Side of the connection whose tag alphabet a frame is read with.
#[derive(Clone, Copy, Debug, PartialEq, Eq, Structural)]
pub enum Side {
    Frontend,
    Backend,
}

/// Reason why a message could not be decoded or reconstructed.
#[derive(Clone, Copy, Debug, PartialEq, Eq, Structural)]
pub enum ProtocolError {
    /// The declared message length is smaller than its own length field.
    LengthTooSmall,
    /// The declared message length does not fit the address space.
    LengthOverflow,
    /// A frame is too large for its 32-bit length field.
    FrameTooLarge,
    /// A string has no terminating NUL octet.
    UnterminatedString,
    /// The body ends before a required field.
    TruncatedBody,
    /// The body continues after its last field.
    TrailingBytes,
    /// The authentication request code is not assigned.
    UnknownAuthentication,
    /// A received cancellation key is shorter than 4 or longer than 256 octets.
    KeyLength,
    /// The transaction status octet is not assigned.
    UnknownTransactionStatus,
    /// A parameter length is negative but not the NULL marker.
    NegativeParameterLength,
    /// A Describe or Close target octet is not assigned.
    InvalidTarget,
    /// A startup packet's length field differs from its length.
    StartupLength,
    /// A pre-startup packet limit is below 8 or above the signed 32-bit range.
    PreStartupLimit,
    /// A pre-startup packet is shorter than 8 octets.
    PreStartupTooShort,
    /// A pre-startup packet length exceeds the signed 32-bit range.
    PreStartupLength,
    /// A pre-startup packet exceeds the configured limit.
    PreStartupTooLarge,
    /// A cancellation request is shorter than 16 or longer than 268 octets.
    CancelLength,
    /// The tag is not assigned in this direction.
    UnknownTag { side: Side, tag: u8 },
    /// A string to be sent contains a NUL octet.
    NulInString,
    /// More items than a 16-bit count can express.
    CountExceedsU16,
    /// A value to be sent is too large for its 32-bit signed length.
    ParameterTooLarge,
    /// More unsupported options than a 32-bit count can express.
    OptionCountExceedsU32,
    /// A startup parameter to be sent has no name.
    EmptyParameterName,
    /// A diagnostic field to be sent has the code that ends the field list.
    NulFieldCode,
    /// A cancellation key to be sent is shorter than 4 or longer than 256 octets.
    UnencodableKeyLength,
}

impl ProtocolError {
    /// Description of this error.
    pub open spec fn text(self) -> Seq<char> {
        match self {
            ProtocolError::LengthTooSmall => "message length is smaller than its length field"@,
            ProtocolError::LengthOverflow => "message length overflow"@,
            ProtocolError::FrameTooLarge => "frame too large"@,
            ProtocolError::UnterminatedString => "unterminated string"@,
            ProtocolError::TruncatedBody => "truncated message body"@,
            ProtocolError::TrailingBytes => "trailing message bytes"@,
            ProtocolError::UnknownAuthentication => "unknown authentication request"@,
            ProtocolError::KeyLength => "cancellation key length is outside 4..=256"@,
            ProtocolError::UnknownTransactionStatus => "unknown transaction status"@,
            ProtocolError::NegativeParameterLength => "negative parameter length"@,
            ProtocolError::InvalidTarget => "invalid Describe target"@,
            ProtocolError::StartupLength => "invalid startup packet length"@,
            ProtocolError::PreStartupLimit => "pre-startup packet limit must be between 8 and i32::MAX bytes"@,
            ProtocolError::PreStartupTooShort => "pre-startup packet is shorter than 8 bytes"@,
            ProtocolError::PreStartupLength => "pre-startup packet length exceeds i32::MAX"@,
            ProtocolError::PreStartupTooLarge => "pre-startup packet exceeds configured limit"@,
            ProtocolError::CancelLength => "invalid CancelRequest length"@,
            ProtocolError::UnknownTag { side: Side::Frontend, .. } => "unknown frontend message tag"@,
            ProtocolError::UnknownTag { side: Side::Backend, .. } => "unknown backend message tag"@,
            ProtocolError::NulInString => "message string contains a NUL byte"@,
            ProtocolError::CountExceedsU16 => "message item count exceeds u16"@,
            ProtocolError::ParameterTooLarge => "Bind parameter is too large"@,
            ProtocolError::OptionCountExceedsU32 => "unsupported option count exceeds u32"@,
            ProtocolError::EmptyParameterName => "startup parameter name is empty"@,
            ProtocolError::NulFieldCode => "diagnostic field code is NUL"@,
            ProtocolError::UnencodableKeyLength => "cancellation key length is outside 4..=256"@,
        }
    }

    /// Description of this error.
    pub fn message(&self) -> (message: &'static str)
        ensures
            message@ == self.text(),
    {
        match *self {
            ProtocolError::LengthTooSmall => "message length is smaller than its length field",
            ProtocolError::LengthOverflow => "message length overflow",
            ProtocolError::FrameTooLarge => "frame too large",
            ProtocolError::UnterminatedString => "unterminated string",
            ProtocolError::TruncatedBody => "truncated message body",
            ProtocolError::TrailingBytes => "trailing message bytes",
            ProtocolError::UnknownAuthentication => "unknown authentication request",
            ProtocolError::KeyLength => "cancellation key length is outside 4..=256",
            ProtocolError::UnknownTransactionStatus => "unknown transaction status",
            ProtocolError::NegativeParameterLength => "negative parameter length",
            ProtocolError::InvalidTarget => "invalid Describe target",
            ProtocolError::StartupLength => "invalid startup packet length",
            ProtocolError::PreStartupLimit => "pre-startup packet limit must be between 8 and i32::MAX bytes",
            ProtocolError::PreStartupTooShort => "pre-startup packet is shorter than 8 bytes",
            ProtocolError::PreStartupLength => "pre-startup packet length exceeds i32::MAX",
            ProtocolError::PreStartupTooLarge => "pre-startup packet exceeds configured limit",
            ProtocolError::CancelLength => "invalid CancelRequest length",
            ProtocolError::UnknownTag { side: Side::Frontend, .. } => "unknown frontend message tag",
            ProtocolError::UnknownTag { side: Side::Backend, .. } => "unknown backend message tag",
            ProtocolError::NulInString => "message string contains a NUL byte",
            ProtocolError::CountExceedsU16 => "message item count exceeds u16",
            ProtocolError::ParameterTooLarge => "Bind parameter is too large",
            ProtocolError::OptionCountExceedsU32 => "unsupported option count exceeds u32",
            ProtocolError::EmptyParameterName => "startup parameter name is empty",
            ProtocolError::NulFieldCode => "diagnostic field code is NUL",
            ProtocolError::UnencodableKeyLength => "cancellation key length is outside 4..=256",
        }
    }

    pub open spec fn kind_spec(self) -> ErrorKind {
        match self {
            ProtocolError::FrameTooLarge
            | ProtocolError::NulInString
            | ProtocolError::CountExceedsU16
            | ProtocolError::ParameterTooLarge
            | ProtocolError::OptionCountExceedsU32
            | ProtocolError::EmptyParameterName
            | ProtocolError::NulFieldCode
            | ProtocolError::UnencodableKeyLength => ErrorKind::InvalidInput,
            _ => ErrorKind::InvalidData,
        }
    }

    /// Class of this error.
    pub fn kind(&self) -> (kind: ErrorKind)
        ensures
            kind == self.kind_spec(),
    {
        match *self {
            ProtocolError::FrameTooLarge
            | ProtocolError::NulInString
            | ProtocolError::CountExceedsU16
            | ProtocolError::ParameterTooLarge
            | ProtocolError::OptionCountExceedsU32
            | ProtocolError::EmptyParameterName
            | ProtocolError::NulFieldCode
            | ProtocolError::UnencodableKeyLength => ErrorKind::InvalidInput,
            _ => ErrorKind::InvalidData,
        }
    }
}

/// What cannot be sent is invalid input; what was received and cannot be read is invalid
/// data.
pub proof fn law_error_kinds(error: ProtocolError)
    ensures
        error.kind_spec() == ErrorKind::InvalidInput <==> error == ProtocolError::FrameTooLarge
            || error == ProtocolError::NulInString || error == ProtocolError::CountExceedsU16
            || error == ProtocolError::ParameterTooLarge || error
            == ProtocolError::OptionCountExceedsU32 || error == ProtocolError::EmptyParameterName
            || error == ProtocolError::NulFieldCode || error
            == ProtocolError::UnencodableKeyLength,
        error.kind_spec() == ErrorKind::InvalidInput || error.kind_spec() == ErrorKind::InvalidData,
{
}

} // verus!
