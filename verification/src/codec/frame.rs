//! Tagged frames and the streaming codec.

use bytes::{Bytes, BytesMut};
use std::marker::PhantomData;
use vstd::prelude::*;

use crate::codec::layout::{law_network_order, number};
use crate::error::ProtocolError;
use crate::octets::{
    advance, as_slice, buffer_slice, buffer_split_to, buffered, extend, freeze, octets,
};
use crate::wire::{be32, lemma_be32, lemma_of32, of32, u32_at, write_u32};

verus! {

/// A validated `PostgreSQL` tagged frame, including its tag but not its length.
#[derive(Clone, Debug, PartialEq, Eq)]
pub struct Frame {
    pub tag: u8,
    pub body: Bytes,
}

/// What a frame holds.
#[verifier::ext_equal]
pub struct FrameView {
    pub tag: u8,
    pub body: Seq<u8>,
}

impl View for Frame {
    type V = FrameView;

    open spec fn view(&self) -> FrameView {
        FrameView { tag: self.tag, body: octets(self.body) }
    }
}

/// A result carries what was expected of it.
pub open spec fn agrees<T: View, E>(result: Result<T, E>, expected: Result<T::V, E>) -> bool {
    match result {
        Ok(value) => expected == Ok::<T::V, E>(value@),
        Err(error) => expected == Err::<T::V, E>(error),
    }
}

/// Decoder direction. The same byte tag has different meanings in each direction.
pub trait Direction: Sized {
    type Message: View;

    /// What a frame means in this direction.
    spec fn decoded(frame: FrameView) -> Result<<Self::Message as View>::V, ProtocolError>;

    /// Decodes one frame.
    ///
    /// # Errors
    ///
    /// Returns an error when the tag is unknown or its body is malformed.
    fn decode(frame: Frame) -> (result: Result<Self::Message, ProtocolError>)
        ensures
            agrees(result, Self::decoded(frame@)),
    ;
}

/// Failure of the streaming codec. The tag is known once a whole frame arrived.
#[derive(Clone, Copy, Debug, PartialEq, Eq, Structural)]
pub struct CodecError {
    pub tag: Option<u8>,
    pub error: ProtocolError,
}

/// A `PostgreSQL` codec which cannot confuse frontend and backend tag alphabets.
#[derive(Debug)]
pub struct PgCodec<D> {
    _direction: PhantomData<D>,
}

impl<D> Default for PgCodec<D> {
    fn default() -> Self {
        PgCodec { _direction: PhantomData }
    }
}

/// Octets of a frame on the wire: tag, length including itself, body.
pub open spec fn frame_octets(frame: FrameView) -> Seq<u8> {
    seq![frame.tag] + be32((frame.body.len() + 4) as u32) + frame.body
}

/// A frame's length field can express its body.
pub open spec fn frame_fits(frame: FrameView) -> bool {
    frame.body.len() + 4 <= u32::MAX
}

/// The first whole frame and the octets after it, or nothing while the frame is
/// still incomplete.
pub open spec fn first_frame(source: Seq<u8>) -> Result<
    Option<(FrameView, Seq<u8>)>,
    ProtocolError,
> {
    if source.len() < 5 {
        Ok(None)
    } else {
        let length = of32(source.skip(1));
        if length < 4 {
            Err(ProtocolError::LengthTooSmall)
        } else if length + 1 > usize::MAX {
            Err(ProtocolError::LengthOverflow)
        } else if source.len() < length + 1 {
            Ok(None)
        } else {
            Ok(
                Some(
                    (
                        FrameView { tag: source[0], body: source.subrange(5, length + 1) },
                        source.skip(length + 1),
                    ),
                ),
            )
        }
    }
}

/// An encoded frame is read back, and exactly its octets are consumed.
pub proof fn law_frame_round_trip(frame: FrameView, rest: Seq<u8>)
    requires
        frame_fits(frame),
        frame.body.len() + 5 <= usize::MAX,
    ensures
        first_frame(frame_octets(frame) + rest) == Ok::<_, ProtocolError>(Some((frame, rest))),
{
    let source = frame_octets(frame) + rest;
    let length = (frame.body.len() + 4) as u32;
    lemma_be32(length, frame.body + rest);
    assert(source.skip(1) =~= be32(length) + (frame.body + rest));
    assert(source.subrange(5, length + 1) =~= frame.body);
    assert(source.skip(length + 1) =~= rest);
}

/// A decoded frame is encoded as the very octets that were consumed.
pub proof fn law_frame_lossless(source: Seq<u8>)
    ensures
        first_frame(source) matches Ok(Some((frame, rest))) ==> frame_fits(frame) && frame_octets(
            frame,
        ) + rest == source,
{
    if let Ok(Some((frame, rest))) = first_frame(source) {
        lemma_of32(source.skip(1));
        assert(source.skip(1).skip(4) =~= source.skip(5));
        assert(frame.body + rest =~= source.skip(5));
        assert(seq![source[0]] + source.skip(1) =~= source);
        assert(frame_octets(frame) + rest =~= seq![source[0]] + (be32(of32(source.skip(1))) + (
        frame.body + rest)));
    }
}

/// While any octet of a frame is missing, nothing is decoded or rejected.
pub proof fn law_incomplete_frame_waits(frame: FrameView, received: int)
    requires
        frame_fits(frame),
        frame.body.len() + 5 <= usize::MAX,
        0 <= received < frame_octets(frame).len(),
    ensures
        first_frame(frame_octets(frame).take(received)) == Ok::<
            Option<(FrameView, Seq<u8>)>,
            ProtocolError,
        >(None),
{
    let source = frame_octets(frame).take(received);
    if received >= 5 {
        let length = (frame.body.len() + 4) as u32;
        let body = frame.body.take(received - 5);
        lemma_be32(length, body);
        assert(source.skip(1) =~= be32(length) + body);
    }
}

impl Frame {
    /// Another handle on the same frame.
    pub(crate) fn duplicate(&self) -> (copy: Frame)
        ensures
            copy@ == self@,
    {
        Frame { tag: self.tag, body: self.body.clone() }
    }
}

/// Whether the frame at the front of a buffer declares more octets, tag included,
/// than a limit allows. It can be told before the body arrives.
pub fn exceeds_limit(source: &[u8], limit: usize) -> (result: bool)
    ensures
        result == (source@.len() >= 5 && of32(source@.skip(1)) + 1 > limit),
{
    source.len() >= 5 && u32_at(source, 1) as u64 + 1 > limit as u64
}

/// Splits the first whole frame off the buffer.
pub fn decode_frame(source: &mut BytesMut) -> (result: Result<Option<Frame>, ProtocolError>)
    ensures
        match first_frame(buffered(*old(source))) {
            Ok(Some((frame, rest))) => result matches Ok(Some(decoded)) && decoded@ == frame
                && buffered(*final(source)) == rest,
            Ok(None) => result == Ok::<Option<Frame>, ProtocolError>(None) && buffered(
                *final(source),
            ) == buffered(*old(source)),
            Err(error) => result == Err::<Option<Frame>, _>(error) && buffered(*final(source))
                == buffered(*old(source)),
        },
{
    let ghost before = buffered(*source);
    let slice = buffer_slice(source);
    if slice.len() < 5 {
        return Ok(None);
    }
    let length: u32 = u32_at(slice, 1);
    if length < 4 {
        return Err(ProtocolError::LengthTooSmall);
    }
    if length as u64 + 1 > usize::MAX as u64 {
        return Err(ProtocolError::LengthOverflow);
    }
    let frame_length: usize = length as usize + 1;
    if slice.len() < frame_length {
        return Ok(None);
    }
    let tag: u8 = slice[0];
    let mut body = freeze(buffer_split_to(source, frame_length));
    advance(&mut body, 5);
    assert(octets(body) =~= before.subrange(5, frame_length as int));
    Ok(Some(Frame { tag, body }))
}

impl<D: Direction> PgCodec<D> {
    /// Decodes the next message, or waits for more octets.
    ///
    /// # Errors
    ///
    /// Returns an error for a malformed frame or message. A malformed message is
    /// reported with its tag, and its frame is consumed.
    pub fn decode(&mut self, source: &mut BytesMut) -> (result: Result<
        Option<D::Message>,
        CodecError,
    >)
        ensures
            match first_frame(buffered(*old(source))) {
                Ok(None) => result == Ok::<Option<D::Message>, CodecError>(None) && buffered(
                    *final(source),
                ) == buffered(*old(source)),
                Err(error) => result == Err::<Option<D::Message>, _>(
                    (CodecError { tag: None, error }),
                ) && buffered(*final(source)) == buffered(*old(source)),
                Ok(Some((frame, rest))) => buffered(*final(source)) == rest && match D::decoded(
                    frame,
                ) {
                    Ok(message) => result matches Ok(Some(decoded)) && decoded@ == message,
                    Err(error) => result == Err::<Option<D::Message>, _>(
                        (CodecError { tag: Some(frame.tag), error }),
                    ),
                },
            },
    {
        match decode_frame(source) {
            Err(error) => Err(CodecError { tag: None, error }),
            Ok(None) => Ok(None),
            Ok(Some(frame)) => {
                let tag: u8 = frame.tag;
                match D::decode(frame) {
                    Ok(message) => Ok(Some(message)),
                    Err(error) => Err(CodecError { tag: Some(tag), error }),
                }
            },
        }
    }
}

impl<D> PgCodec<D> {
    /// Appends one frame.
    ///
    /// # Errors
    ///
    /// Returns an error when the body does not fit a 32-bit length.
    pub fn encode(&mut self, item: Frame, destination: &mut BytesMut) -> (result: Result<
        (),
        ProtocolError,
    >)
        requires
            buffered(*old(destination)).len() + octets(item.body).len() + 5 <= isize::MAX,
        ensures
            frame_fits(item@) ==> result == Ok::<(), ProtocolError>(()) && buffered(
                *final(destination),
            ) == buffered(*old(destination)) + frame_octets(item@),
            !frame_fits(item@) ==> result == Err::<(), _>(ProtocolError::FrameTooLarge)
                && buffered(*final(destination)) == buffered(*old(destination)),
    {
        let body = as_slice(&item.body);
        if body.len() as u64 > u32::MAX as u64 - 4 {
            return Err(ProtocolError::FrameTooLarge);
        }
        let mut header: Vec<u8> = Vec::new();
        header.push(item.tag);
        write_u32(&mut header, body.len() as u32 + 4);
        assert(header@ =~= seq![item.tag] + be32((body@.len() + 4) as u32));
        extend(destination, header.as_slice());
        extend(destination, body);
        assert(buffered(*destination) =~= buffered(*old(destination)) + frame_octets(item@));
        Ok(())
    }
}

/// What the front of a buffer holds: nothing yet with fewer than five octets, no frame if
/// the length is less than its own four octets, nothing yet until as many octets as it
/// says are there, and then the tag, the body and what follows.
pub proof fn law_first_frame(source: Seq<u8>)
    ensures
        source.len() < 5 ==> first_frame(source) == Ok::<
            Option<(FrameView, Seq<u8>)>,
            ProtocolError,
        >(None),
        source.len() >= 5 ==> {
            let length = number(source.subrange(1, 5)) as int;
            &&& length < 4 <==> first_frame(source) == Err::<Option<(FrameView, Seq<u8>)>, _>(
                ProtocolError::LengthTooSmall,
            )
            &&& 4 <= length < usize::MAX && source.len() < length + 1 ==> first_frame(source)
                == Ok::<Option<(FrameView, Seq<u8>)>, ProtocolError>(None)
            &&& 4 <= length < usize::MAX && source.len() >= length + 1 ==> first_frame(source)
                == Ok::<_, ProtocolError>(
                Some(
                    (
                        FrameView { tag: source[0], body: source.subrange(5, length + 1) },
                        source.skip(length + 1),
                    ),
                ),
            )
            &&& length >= usize::MAX ==> first_frame(source) == Err::<
                Option<(FrameView, Seq<u8>)>,
                _,
            >(ProtocolError::LengthOverflow)
        },
{
    if source.len() >= 5 {
        law_network_order(0, 0, 0, source.skip(1));
        assert(source.skip(1).take(4) =~= source.subrange(1, 5));
    }
}

/// A frame fits if its length, with its own four octets, fits in four octets.
pub proof fn law_fitting_frames(frame: FrameView)
    ensures
        frame_fits(frame) <==> frame.body.len() + 4 <= 0xffff_ffff,
{
}

/// A frame that was written behind what a buffer held is read again once all of that was
/// read.
pub proof fn law_written_frames_are_read<D>(
    codec: &mut PgCodec<D>,
    frame: Frame,
    destination: &mut BytesMut,
    written: Result<(), ProtocolError>,
    source: &mut BytesMut,
    read: Result<Option<Frame>, ProtocolError>,
)
    requires
        call_ensures(PgCodec::<D>::encode, (codec, frame, destination), written),
        written is Ok,
        buffered(*source) == buffered(*final(destination)).skip(
            buffered(*destination).len() as int,
        ),
        octets(frame.body).len() + 5 <= usize::MAX,
        call_ensures(decode_frame, (source,), read),
    ensures
        read matches Ok(Some(again)) && again@ == frame@,
        buffered(*final(source)).len() == 0,
{
    let before = buffered(*destination);
    assert((before + frame_octets(frame@)).skip(before.len() as int) =~= frame_octets(frame@));
    assert(frame_octets(frame@) + Seq::<u8>::empty() =~= frame_octets(frame@));
    law_frame_round_trip(frame@, Seq::empty());
}

} // verus!
