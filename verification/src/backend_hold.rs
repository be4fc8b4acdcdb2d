//! Backend messages held back by a proxy, with their retained size.

use vstd::prelude::*;

use crate::codec::backend::{backend_frame, BackendView};
use crate::codec::BackendMessage;
use crate::octets::as_slice;

verus! {

/// Octets of a tag and a length field.
pub const FRAME_OVERHEAD: usize = 5;

/// At most one pending backend message, and the messages held before it.
pub struct BackendHold {
    pending: Option<BackendMessage>,
    held: Vec<BackendMessage>,
    held_bytes: usize,
}

pub open spec fn saturating(total: nat) -> usize {
    if total > usize::MAX {
        usize::MAX
    } else {
        total as usize
    }
}

/// Size that a message retains: that of its frame, or nothing if it has none.
#[verifier::opaque]
pub open spec fn retained(message: BackendView) -> usize {
    match backend_frame(message) {
        Ok(frame) => saturating(frame.body.len() + FRAME_OVERHEAD as nat),
        Err(_) => 0,
    }
}

/// Size that messages retain together.
pub open spec fn retained_total(messages: Seq<BackendMessage>) -> usize
    decreases messages.len(),
{
    if messages.len() == 0 {
        0
    } else {
        saturating(
            retained_total(messages.drop_last()) as nat + retained(messages.last()@) as nat,
        )
    }
}

impl BackendHold {
    /// The pending message.
    pub closed spec fn waiting(self) -> Option<BackendMessage> {
        self.pending
    }

    /// The held messages in order.
    pub closed spec fn kept(self) -> Seq<BackendMessage> {
        self.held@
    }

    #[verifier::type_invariant]
    spec fn accounted(&self) -> bool {
        self.held_bytes == retained_total(self.held@)
    }

    pub fn new() -> (hold: Self)
        ensures
            hold.waiting() is None,
            hold.kept() == Seq::<BackendMessage>::empty(),
    {
        let hold = BackendHold { pending: None, held: Vec::new(), held_bytes: 0 };
        assert(hold.held@ =~= Seq::<BackendMessage>::empty());
        hold
    }

    /// Makes a message pending. Only one backend source may be pending.
    pub fn set_pending(&mut self, message: BackendMessage)
        requires
            old(self).waiting() is None,
        ensures
            final(self).waiting() == Some(message),
            final(self).kept() == old(self).kept(),
    {
        proof {
            use_type_invariant(&*self);
        }
        self.pending = Some(message);
    }

    pub fn pending(&self) -> (message: Option<&BackendMessage>)
        ensures
            match message {
                Some(message) => self.waiting() == Some(*message),
                None => self.waiting() is None,
            },
    {
        match &self.pending {
            Some(message) => Some(message),
            None => None,
        }
    }

    pub fn take_pending(&mut self) -> (message: Option<BackendMessage>)
        ensures
            message == old(self).waiting(),
            final(self).waiting() is None,
            final(self).kept() == old(self).kept(),
    {
        proof {
            use_type_invariant(&*self);
        }
        let mut message: Option<BackendMessage> = None;
        std::mem::swap(&mut message, &mut self.pending);
        message
    }

    /// Moves the pending message to the end of the held ones.
    pub fn hold_pending(&mut self)
        requires
            old(self).waiting() is Some,
        ensures
            final(self).waiting() is None,
            final(self).kept() == old(self).kept().push(old(self).waiting()->0),
    {
        proof {
            use_type_invariant(&*self);
        }
        let ghost before = self.held@;
        match self.take_pending() {
            Some(message) => {
                let bytes: usize = retained_bytes(&message);
                let mut held: Vec<BackendMessage> = Vec::new();
                let held_bytes: usize = self.take_held(&mut held).saturating_add(bytes);
                held.push(message);
                proof {
                    assert(held@.drop_last() =~= before);
                }
                *self = BackendHold { pending: None, held, held_bytes };
            },
            None => {},
        }
    }

    fn take_held(&mut self, held: &mut Vec<BackendMessage>) -> (bytes: usize)
        requires
            old(held)@.len() == 0,
        ensures
            final(held)@ == old(self).kept(),
            final(self).kept() == Seq::<BackendMessage>::empty(),
            final(self).waiting() == old(self).waiting(),
            bytes == retained_total(old(self).kept()),
    {
        proof {
            use_type_invariant(&*self);
        }
        let bytes: usize = self.held_bytes;
        let pending = self.take_pending();
        let mut empty = BackendHold::new();
        std::mem::swap(&mut empty, self);
        let BackendHold { held: all, .. } = empty;
        *held = all;
        let none: Vec<BackendMessage> = Vec::new();
        assert(none@ =~= Seq::<BackendMessage>::empty());
        *self = BackendHold { pending, held: none, held_bytes: 0 };
        bytes
    }

    pub fn messages(&self) -> (messages: &[BackendMessage])
        ensures
            messages@ == self.kept(),
    {
        self.held.as_slice()
    }

    pub fn len(&self) -> (length: usize)
        ensures
            length == self.kept().len(),
    {
        self.held.len()
    }

    /// Size retained by the held messages.
    pub fn bytes(&self) -> (bytes: usize)
        ensures
            bytes == retained_total(self.kept()),
    {
        proof {
            use_type_invariant(self);
        }
        self.held_bytes
    }

    pub fn is_empty(&self) -> (empty: bool)
        ensures
            empty == (self.kept().len() == 0),
    {
        self.held.len() == 0
    }

    /// Gives the held messages out and holds none.
    pub fn clear(&mut self) -> (messages: Vec<BackendMessage>)
        ensures
            messages@ == old(self).kept(),
            final(self).kept() == Seq::<BackendMessage>::empty(),
            final(self).waiting() == old(self).waiting(),
    {
        let mut messages: Vec<BackendMessage> = Vec::new();
        let _ = self.take_held(&mut messages);
        messages
    }
}

impl Default for BackendHold {
    fn default() -> (hold: Self)
        ensures
            hold.waiting() is None,
            hold.kept() == Seq::<BackendMessage>::empty(),
    {
        BackendHold::new()
    }
}

/// Size that a message retains.
pub(crate) fn retained_bytes(message: &BackendMessage) -> (bytes: usize)
    ensures
        bytes == retained(message@),
{
    proof {
        reveal(retained);
    }
    match message.to_frame() {
        Ok(frame) => as_slice(&frame.body).len().saturating_add(FRAME_OVERHEAD),
        Err(_) => 0,
    }
}

/// A held message counts for the octets of its frame, with its tag and its length; one
/// that cannot be framed counts for none.
pub proof fn law_retained_octets(message: BackendView)
    ensures
        backend_frame(message) matches Ok(frame) ==> {
            let size = crate::codec::frame::frame_octets(frame).len();
            retained(message) == if size <= usize::MAX {
                size as usize
            } else {
                usize::MAX
            }
        },
        backend_frame(message) is Err ==> retained(message) == 0,
{
    reveal(retained);
}

/// Held messages count together: each adds its own octets, as far as a `usize` goes.
pub proof fn law_retained_octets_add_up(messages: Seq<BackendMessage>, message: BackendMessage)
    ensures
        retained_total(Seq::empty()) == 0,
        retained_total(messages) + retained(message@) <= usize::MAX ==> retained_total(
            messages.push(message),
        ) == retained_total(messages) + retained(message@),
        retained_total(messages) + retained(message@) > usize::MAX ==> retained_total(
            messages.push(message),
        ) == usize::MAX,
        retained_total(messages.push(message)) >= retained_total(messages),
{
    assert(messages.push(message).drop_last() =~= messages);
}

} // verus!
