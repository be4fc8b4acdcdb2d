//! Boundary decisions on messages, and the bounded hold for backend messages.

use vstd::prelude::*;

use crate::backend_hold::{retained_total, BackendHold};
use crate::codec::{BackendMessage, FrontendMessage};

verus! {

/// Result of intercepting a client-originated message.
#[derive(Debug)]
pub enum FrontendMiddlewareOutput {
    /// Forward this owned message to PostgreSQL.
    Forward(FrontendMessage),
    /// Consume the message without forwarding it or registering a response.
    Suppress(FrontendMessage),
    /// Handle the request locally and emit these responses in protocol order.
    Respond {
        /// Consumed client request.
        request: FrontendMessage,
        /// Responses generated for this request, in emission order.
        responses: Vec<BackendMessage>,
    },
}

/// Result of intercepting a PostgreSQL-originated message.
#[derive(Debug)]
pub enum BackendMiddlewareOutput {
    /// Forward this owned message to the client.
    Forward(BackendMessage),
    /// Replace one PostgreSQL response with one or more ordered client responses.
    Expand(Vec<BackendMessage>),
    /// Consume the response after advancing protocol and pipeline state.
    Suppress(BackendMessage),
    /// Retain the unchanged current source without projection or output.
    Hold,
}

/// Ordered result of applying batch policy to retained backend messages.
#[derive(Debug)]
pub enum BackendBatchOutput {
    /// Leave the authoritative input span retained by the connection.
    KeepHolding,
    /// Replace every held input with one output at the same ordered position.
    ReplaceOneToOne(Vec<BackendMessage>),
}

/// Reason retained backend messages are offered to batch policy.
#[derive(Clone, Copy, Debug, PartialEq, Eq, Structural)]
pub enum BackendFlushReason {
    /// A configured message or byte limit was reached.
    Capacity,
    /// A protocol boundary must follow the held span.
    ProtocolBarrier,
    /// The application requested a latency or batch boundary.
    Explicit,
    /// The connection is being deliberately torn down.
    Teardown,
}

/// Non-zero bounds for connection-owned backend messages.
#[derive(Clone, Copy, Debug, PartialEq, Eq, Structural)]
pub struct BackendHoldLimits {
    max_messages: usize,
    max_bytes: usize,
}

/// A zero backend hold bound is invalid.
#[derive(Clone, Copy, Debug, PartialEq, Eq, Structural)]
pub struct BackendHoldConfigError;

impl BackendHoldConfigError {
    /// Description of the error.
    pub fn message(&self) -> (message: &'static str)
        ensures
            message@ == "backend hold limits must be non-zero"@,
    {
        "backend hold limits must be non-zero"
    }
}

impl BackendHoldLimits {
    /// Bound on the number of messages.
    pub closed spec fn count_limit(self) -> usize {
        self.max_messages
    }

    /// Bound on the size retained.
    pub closed spec fn size_limit(self) -> usize {
        self.max_bytes
    }

    #[verifier::type_invariant]
    spec fn positive(self) -> bool {
        self.max_messages > 0 && self.max_bytes > 0
    }

    /// Creates message-count and retained-byte bounds.
    ///
    /// # Errors
    ///
    /// Returns an error when either bound is zero.
    pub fn new(max_messages: usize, max_bytes: usize) -> (result: Result<
        BackendHoldLimits,
        BackendHoldConfigError,
    >)
        ensures
            result is Ok <==> max_messages > 0 && max_bytes > 0,
            result matches Ok(limits) ==> limits.count_limit() == max_messages
                && limits.size_limit() == max_bytes,
    {
        if max_messages == 0 || max_bytes == 0 {
            Err(BackendHoldConfigError)
        } else {
            Ok(BackendHoldLimits { max_messages, max_bytes })
        }
    }

    /// Maximum retained message count.
    pub fn max_messages(self) -> (limit: usize)
        ensures
            limit == self.count_limit(),
            limit > 0,
    {
        proof {
            use_type_invariant(self);
        }
        self.max_messages
    }

    /// Maximum estimated retained wire bytes.
    pub fn max_bytes(self) -> (limit: usize)
        ensures
            limit == self.size_limit(),
            limit > 0,
    {
        proof {
            use_type_invariant(self);
        }
        self.max_bytes
    }
}

/// Opaque ordered view of connection-owned backend messages.
#[derive(Clone, Copy, Debug)]
pub struct HeldBackendMessages<'a> {
    messages: &'a [BackendMessage],
    bytes: usize,
}

impl<'a> HeldBackendMessages<'a> {
    /// The held messages, in receipt order.
    pub closed spec fn held(self) -> Seq<BackendMessage> {
        self.messages@
    }

    #[verifier::type_invariant]
    spec fn accounted(self) -> bool {
        self.bytes == retained_total(self.messages@)
    }

    /// Views the messages of a hold.
    pub fn of(hold: &'a BackendHold) -> (view: Self)
        ensures
            view.held() == hold.kept(),
    {
        HeldBackendMessages { messages: hold.messages(), bytes: hold.bytes() }
    }

    /// Number of held messages.
    pub fn len(self) -> (length: usize)
        ensures
            length == self.held().len(),
    {
        self.messages.len()
    }

    /// Whether the view is empty.
    pub fn is_empty(self) -> (empty: bool)
        ensures
            empty == (self.held().len() == 0),
    {
        self.messages.len() == 0
    }

    /// Estimated retained wire bytes.
    pub fn bytes(self) -> (bytes: usize)
        ensures
            bytes == retained_total(self.held()),
    {
        proof {
            use_type_invariant(self);
        }
        self.bytes
    }

    /// Iterates over messages in receipt order.
    pub fn iter(self) -> (items: std::slice::Iter<'a, BackendMessage>)
        ensures
            vstd::std_specs::iter::IteratorSpec::remaining(&items) == self.held().as_ref(),
    {
        self.messages.iter()
    }
}

} // verus!
