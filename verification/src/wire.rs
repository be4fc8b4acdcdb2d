//! Field-level encoding shared by every message: network-order integers,
//! NUL-terminated strings, nullable values, and counted lists.
//!
//! Each field has a specification of how it is written (`put_*`) and of how it
//! is read from the front of a body (`take_*`). Reading returns the value with
//! the octets that follow it.

use bytes::Bytes;
use vstd::prelude::*;

use crate::error::ProtocolError;
use crate::octets::{advance, as_slice, octets, split_to};

verus! {

/// Outcome of reading one field: its value and the octets after it.
pub type Taken<T> = Result<(T, Seq<u8>), ProtocolError>;

/// Outcome of writing one field: its octets.
pub type Put = Result<Seq<u8>, ProtocolError>;

/// The NULL marker in a nullable value's length field.
pub const NULL_LENGTH: u32 = 0xffff_ffff;

/// Largest length that a nullable value's length field can express.
pub const MAX_VALUE_LENGTH: u32 = 0x7fff_ffff;

pub open spec fn be16(value: u16) -> Seq<u8> {
    seq![(value / 256) as u8, (value % 256) as u8]
}

pub open spec fn be32(value: u32) -> Seq<u8> {
    be16((value / 65536) as u16) + be16((value % 65536) as u16)
}

pub open spec fn be64(value: u64) -> Seq<u8> {
    be32((value / 0x1_0000_0000) as u32) + be32((value % 0x1_0000_0000) as u32)
}

/// The network-order 16-bit integer in the first two octets.
pub open spec fn of16(octets: Seq<u8>) -> u16 {
    (octets[0] * 256 + octets[1]) as u16
}

/// The network-order 32-bit integer in the first four octets.
pub open spec fn of32(octets: Seq<u8>) -> u32 {
    (of16(octets) * 65536 + of16(octets.skip(2))) as u32
}

/// The network-order 64-bit integer in the first eight octets.
pub open spec fn of64(octets: Seq<u8>) -> u64 {
    (of32(octets) * 0x1_0000_0000 + of32(octets.skip(4))) as u64
}

pub open spec fn take_octets(source: Seq<u8>, count: nat) -> Taken<Seq<u8>> {
    if source.len() < count {
        Err(ProtocolError::TruncatedBody)
    } else {
        Ok((source.take(count as int), source.skip(count as int)))
    }
}

pub open spec fn take_u8(source: Seq<u8>) -> Taken<u8> {
    if source.len() < 1 {
        Err(ProtocolError::TruncatedBody)
    } else {
        Ok((source[0], source.skip(1)))
    }
}

pub open spec fn take_u16(source: Seq<u8>) -> Taken<u16> {
    if source.len() < 2 {
        Err(ProtocolError::TruncatedBody)
    } else {
        Ok((of16(source), source.skip(2)))
    }
}

pub open spec fn take_u32(source: Seq<u8>) -> Taken<u32> {
    if source.len() < 4 {
        Err(ProtocolError::TruncatedBody)
    } else {
        Ok((of32(source), source.skip(4)))
    }
}

pub open spec fn take_i16(source: Seq<u8>) -> Taken<i16> {
    match take_u16(source) {
        Ok((value, rest)) => Ok((value as i16, rest)),
        Err(error) => Err(error),
    }
}

pub open spec fn take_i32(source: Seq<u8>) -> Taken<i32> {
    match take_u32(source) {
        Ok((value, rest)) => Ok((value as i32, rest)),
        Err(error) => Err(error),
    }
}

/// A string runs up to its first NUL octet, which is consumed with it.
pub open spec fn take_cstr(source: Seq<u8>) -> Taken<Seq<u8>> {
    match source.index_of_first(0u8) {
        Some(end) => Ok((source.take(end), source.skip(end + 1))),
        None => Err(ProtocolError::UnterminatedString),
    }
}

pub open spec fn take_nullable(source: Seq<u8>) -> Taken<Option<Seq<u8>>> {
    match take_u32(source) {
        Err(error) => Err(error),
        Ok((length, rest)) => if length == NULL_LENGTH {
            Ok((None, rest))
        } else if length > MAX_VALUE_LENGTH {
            Err(ProtocolError::NegativeParameterLength)
        } else {
            match take_octets(rest, length as nat) {
                Ok((value, rest)) => Ok((Some(value), rest)),
                Err(error) => Err(error),
            }
        },
    }
}

/// `first` with `more` after it, where both were read.
pub open spec fn followed<T>(first: Seq<T>, more: Taken<Seq<T>>) -> Taken<Seq<T>> {
    match more {
        Ok((items, rest)) => Ok((first + items, rest)),
        Err(error) => Err(error),
    }
}

/// Reads `count` items one after the other.
pub open spec fn take_many<T>(
    item: spec_fn(Seq<u8>) -> Taken<T>,
    count: nat,
    source: Seq<u8>,
) -> Taken<Seq<T>>
    decreases count,
{
    if count == 0 {
        Ok((Seq::empty(), source))
    } else {
        match item(source) {
            Ok((value, rest)) => followed(seq![value], take_many(item, (count - 1) as nat, rest)),
            Err(error) => Err(error),
        }
    }
}

/// Reads a 16-bit count and then as many items.
pub open spec fn take_counted<T>(item: spec_fn(Seq<u8>) -> Taken<T>, source: Seq<u8>) -> Taken<
    Seq<T>,
> {
    match take_u16(source) {
        Ok((count, rest)) => take_many(item, count as nat, rest),
        Err(error) => Err(error),
    }
}

/// `value` alone, with nothing left to read after it.
pub open spec fn whole<T>(taken: Taken<T>) -> Result<T, ProtocolError> {
    match taken {
        Ok((value, rest)) => if rest.len() == 0 {
            Ok(value)
        } else {
            Err(ProtocolError::TrailingBytes)
        },
        Err(error) => Err(error),
    }
}

/// One field after another; the first failure wins.
pub open spec fn joined(first: Put, second: Put) -> Put {
    match first {
        Err(error) => Err(error),
        Ok(front) => match second {
            Err(error) => Err(error),
            Ok(back) => Ok(front + back),
        },
    }
}

pub open spec fn put_cstr(value: Seq<u8>) -> Put {
    if value.contains(0u8) {
        Err(ProtocolError::NulInString)
    } else {
        Ok(value.push(0u8))
    }
}

pub open spec fn put_count(count: nat) -> Put {
    if count > u16::MAX {
        Err(ProtocolError::CountExceedsU16)
    } else {
        Ok(be16(count as u16))
    }
}

pub open spec fn put_nullable(value: Option<Seq<u8>>) -> Put {
    match value {
        None => Ok(be32(NULL_LENGTH)),
        Some(octets) => if octets.len() > MAX_VALUE_LENGTH {
            Err(ProtocolError::ParameterTooLarge)
        } else {
            Ok(be32(octets.len() as u32) + octets)
        },
    }
}

/// Writes the items one after the other.
pub open spec fn put_all<T>(item: spec_fn(T) -> Put, items: Seq<T>) -> Put
    decreases items.len(),
{
    if items.len() == 0 {
        Ok(Seq::empty())
    } else {
        joined(put_all(item, items.drop_last()), item(items.last()))
    }
}

/// Writes a 16-bit count and then the items.
pub open spec fn put_counted<T>(item: spec_fn(T) -> Put, items: Seq<T>) -> Put {
    joined(put_count(items.len()), put_all(item, items))
}

pub open spec fn u32_field() -> spec_fn(Seq<u8>) -> Taken<u32> {
    |source: Seq<u8>| take_u32(source)
}

pub open spec fn i16_field() -> spec_fn(Seq<u8>) -> Taken<i16> {
    |source: Seq<u8>| take_i16(source)
}

pub open spec fn cstr_field() -> spec_fn(Seq<u8>) -> Taken<Seq<u8>> {
    |source: Seq<u8>| take_cstr(source)
}

pub open spec fn nullable_field() -> spec_fn(Seq<u8>) -> Taken<Option<Seq<u8>>> {
    |source: Seq<u8>| take_nullable(source)
}

pub open spec fn u32_octets() -> spec_fn(u32) -> Put {
    |value: u32| Ok(be32(value))
}

pub open spec fn i16_octets() -> spec_fn(i16) -> Put {
    |value: i16| Ok(be16(value as u16))
}

pub open spec fn cstr_octets() -> spec_fn(Seq<u8>) -> Put {
    |value: Seq<u8>| put_cstr(value)
}

pub open spec fn nullable_octets() -> spec_fn(Option<Seq<u8>>) -> Put {
    |value: Option<Seq<u8>>| put_nullable(value)
}

/// Every item that can be written is read back, whatever follows it.
pub open spec fn reads_back<T>(
    put: spec_fn(T) -> Put,
    take: spec_fn(Seq<u8>) -> Taken<T>,
) -> bool {
    forall|value: T, rest: Seq<u8>|
        put(value) is Ok ==> #[trigger] take(put(value)->Ok_0 + rest) == Ok::<_, ProtocolError>(
            (value, rest),
        )
}

/// The value is written as the octets of `source` up to what follows it there.
pub open spec fn written_as<T>(put: spec_fn(T) -> Put, read: (T, Seq<u8>), source: Seq<u8>) -> bool {
    put(read.0) is Ok && put(read.0)->Ok_0 + read.1 == source
}

/// Every item that can be read is written as the octets that were consumed.
pub open spec fn writes_back<T>(
    put: spec_fn(T) -> Put,
    take: spec_fn(Seq<u8>) -> Taken<T>,
) -> bool {
    forall|source: Seq<u8>|
        (#[trigger] take(source)) is Ok ==> written_as(put, take(source)->Ok_0, source)
}

pub proof fn lemma_be16(value: u16, rest: Seq<u8>)
    ensures
        be16(value).len() == 2,
        take_u16(be16(value) + rest) == Ok::<_, ProtocolError>((value, rest)),
{
    assert((be16(value) + rest).skip(2) =~= rest);
}

pub proof fn lemma_of16(source: Seq<u8>)
    requires
        source.len() >= 2,
    ensures
        be16(of16(source)) + source.skip(2) == source,
{
    let value = of16(source);
    assert(value == source[0] * 256 + source[1]);
    assert(value / 256 == source[0]);
    assert(value % 256 == source[1]);
    assert(be16(value) + source.skip(2) =~= source);
}

pub proof fn lemma_be32(value: u32, rest: Seq<u8>)
    ensures
        be32(value).len() == 4,
        take_u32(be32(value) + rest) == Ok::<_, ProtocolError>((value, rest)),
{
    let high = (value / 65536) as u16;
    let low = (value % 65536) as u16;
    let source = be32(value) + rest;
    assert(source =~= be16(high) + (be16(low) + rest));
    lemma_be16(high, be16(low) + rest);
    lemma_be16(low, rest);
    assert(source.skip(2) =~= be16(low) + rest);
    assert(source.skip(4) =~= rest);
}

pub proof fn lemma_of32(source: Seq<u8>)
    requires
        source.len() >= 4,
    ensures
        be32(of32(source)) + source.skip(4) == source,
{
    let high = of16(source);
    let low = of16(source.skip(2));
    lemma_of16(source);
    lemma_of16(source.skip(2));
    let value = of32(source);
    assert(value == high * 65536 + low);
    assert(value / 65536 == high);
    assert(value % 65536 == low);
    assert(source.skip(2).skip(2) =~= source.skip(4));
    assert(be32(value) + source.skip(4) =~= be16(high) + (be16(low) + source.skip(4)));
}

pub proof fn lemma_be64(value: u64, rest: Seq<u8>)
    ensures
        be64(value).len() == 8,
        of64(be64(value) + rest) == value,
        (be64(value) + rest).skip(8) == rest,
{
    let high = (value / 0x1_0000_0000) as u32;
    let low = (value % 0x1_0000_0000) as u32;
    let source = be64(value) + rest;
    lemma_be32(high, be32(low) + rest);
    lemma_be32(low, rest);
    assert(source =~= be32(high) + (be32(low) + rest));
    assert(source.skip(4) =~= be32(low) + rest);
    assert(source.skip(8) =~= rest);
}

pub proof fn lemma_of64(source: Seq<u8>)
    requires
        source.len() >= 8,
    ensures
        be64(of64(source)) + source.skip(8) == source,
{
    let high = of32(source);
    let low = of32(source.skip(4));
    lemma_of32(source);
    lemma_of32(source.skip(4));
    let value = of64(source);
    assert(value == high * 0x1_0000_0000 + low);
    assert(value / 0x1_0000_0000 == high);
    assert(value % 0x1_0000_0000 == low);
    assert(source.skip(4).skip(4) =~= source.skip(8));
    assert(be64(value) + source.skip(8) =~= be32(high) + (be32(low) + source.skip(8)));
}

pub proof fn lemma_signed()
    ensures
        forall|value: i16| (#[trigger] (value as u16)) as i16 == value,
        forall|value: u16| (#[trigger] (value as i16)) as u16 == value,
        forall|value: i32| (#[trigger] (value as u32)) as i32 == value,
        forall|value: u32| (#[trigger] (value as i32)) as u32 == value,
        forall|value: i64| (#[trigger] (value as u64)) as i64 == value,
        forall|value: u64| (#[trigger] (value as i64)) as u64 == value,
{
    assert(forall|value: i16| (#[trigger] (value as u16)) as i16 == value) by (bit_vector);
    assert(forall|value: u16| (#[trigger] (value as i16)) as u16 == value) by (bit_vector);
    assert(forall|value: i32| (#[trigger] (value as u32)) as i32 == value) by (bit_vector);
    assert(forall|value: u32| (#[trigger] (value as i32)) as u32 == value) by (bit_vector);
    assert(forall|value: i64| (#[trigger] (value as u64)) as i64 == value) by (bit_vector);
    assert(forall|value: u64| (#[trigger] (value as i64)) as u64 == value) by (bit_vector);
}

pub proof fn lemma_cstr(value: Seq<u8>, rest: Seq<u8>)
    requires
        !value.contains(0u8),
    ensures
        take_cstr(value.push(0u8) + rest) == Ok::<_, ProtocolError>((value, rest)),
{
    let source = value.push(0u8) + rest;
    source.index_of_first_ensures(0u8);
    assert(source[value.len() as int] == 0u8);
    let end = source.index_of_first(0u8)->Some_0;
    if end < value.len() {
        assert(value[end] == 0u8);
    }
    assert(end == value.len());
    assert(source.take(end) =~= value);
    assert(source.skip(end + 1) =~= rest);
}

pub proof fn lemma_taken_cstr(source: Seq<u8>)
    ensures
        take_cstr(source) matches Ok((value, rest)) ==> {
            &&& !value.contains(0u8)
            &&& value.push(0u8) + rest == source
            &&& value.len() + 1 + rest.len() == source.len()
        },
{
    source.index_of_first_ensures(0u8);
    if let Ok((value, rest)) = take_cstr(source) {
        assert(value.push(0u8) + rest =~= source);
    }
}

pub proof fn lemma_nullable(value: Option<Seq<u8>>, rest: Seq<u8>)
    requires
        put_nullable(value) is Ok,
    ensures
        take_nullable(put_nullable(value)->Ok_0 + rest) == Ok::<_, ProtocolError>((value, rest)),
{
    match value {
        None => lemma_be32(NULL_LENGTH, rest),
        Some(octets) => {
            lemma_be32(octets.len() as u32, octets + rest);
            assert(be32(octets.len() as u32) + octets + rest =~= be32(octets.len() as u32) + (
            octets + rest));
            assert((octets + rest).take(octets.len() as int) =~= octets);
            assert((octets + rest).skip(octets.len() as int) =~= rest);
        },
    }
}

pub proof fn lemma_taken_nullable(source: Seq<u8>)
    ensures
        take_nullable(source) matches Ok((value, rest)) ==> put_nullable(value) is Ok
            && put_nullable(value)->Ok_0 + rest == source,
{
    if let Ok((value, rest)) = take_nullable(source) {
        lemma_of32(source);
        if let Some(octets) = value {
            assert(octets + rest =~= source.skip(4));
            assert(be32(octets.len() as u32) + octets + rest =~= be32(octets.len() as u32) + (
            octets + rest));
        }
    }
}

/// Each kind of list item is read back as written and written as read.
pub proof fn lemma_fields()
    ensures
        reads_back(u32_octets(), u32_field()),
        writes_back(u32_octets(), u32_field()),
        reads_back(i16_octets(), i16_field()),
        writes_back(i16_octets(), i16_field()),
        reads_back(cstr_octets(), cstr_field()),
        writes_back(cstr_octets(), cstr_field()),
        reads_back(nullable_octets(), nullable_field()),
        writes_back(nullable_octets(), nullable_field()),
{
    lemma_signed();
    assert forall|value: u32, rest: Seq<u8>| u32_octets()(value) is Ok implies #[trigger]
        u32_field()(u32_octets()(value)->Ok_0 + rest) == Ok::<_, ProtocolError>((value, rest)) by {
        lemma_be32(value, rest);
    }
    assert forall|source: Seq<u8>| (#[trigger] u32_field()(source)) is Ok implies written_as(
        u32_octets(),
        u32_field()(source)->Ok_0,
        source,
    ) by {
        lemma_of32(source);
    }
    assert forall|value: i16, rest: Seq<u8>| i16_octets()(value) is Ok implies #[trigger]
        i16_field()(i16_octets()(value)->Ok_0 + rest) == Ok::<_, ProtocolError>((value, rest)) by {
        lemma_be16(value as u16, rest);
    }
    assert forall|source: Seq<u8>| (#[trigger] i16_field()(source)) is Ok implies written_as(
        i16_octets(),
        i16_field()(source)->Ok_0,
        source,
    ) by {
        lemma_of16(source);
    }
    assert forall|value: Seq<u8>, rest: Seq<u8>| cstr_octets()(value) is Ok implies #[trigger]
        cstr_field()(cstr_octets()(value)->Ok_0 + rest) == Ok::<_, ProtocolError>((value, rest)) by {
        lemma_cstr(value, rest);
    }
    assert forall|source: Seq<u8>| (#[trigger] cstr_field()(source)) is Ok implies written_as(
        cstr_octets(),
        cstr_field()(source)->Ok_0,
        source,
    ) by {
        lemma_taken_cstr(source);
    }
    assert forall|value: Option<Seq<u8>>, rest: Seq<u8>|
        nullable_octets()(value) is Ok implies #[trigger] nullable_field()(
        nullable_octets()(value)->Ok_0 + rest,
    ) == Ok::<_, ProtocolError>((value, rest)) by {
        lemma_nullable(value, rest);
    }
    assert forall|source: Seq<u8>| (#[trigger] nullable_field()(source)) is Ok implies written_as(
        nullable_octets(),
        nullable_field()(source)->Ok_0,
        source,
    ) by {
        lemma_taken_nullable(source);
    }
}

/// A list is also its first item followed by the others.
pub proof fn lemma_put_all_head<T>(item: spec_fn(T) -> Put, items: Seq<T>)
    requires
        items.len() > 0,
        put_all(item, items) is Ok,
    ensures
        item(items[0]) is Ok,
        put_all(item, items.skip(1)) is Ok,
        put_all(item, items)->Ok_0 == item(items[0])->Ok_0 + put_all(item, items.skip(1))->Ok_0,
    decreases items.len(),
{
    if items.len() == 1 {
        assert(items.drop_last() =~= Seq::empty());
        assert(items.skip(1) =~= Seq::empty());
        assert(put_all(item, items.drop_last()) == Ok::<Seq<u8>, ProtocolError>(Seq::empty()));
        assert(put_all(item, items)->Ok_0 =~= item(items[0])->Ok_0 + Seq::empty());
    } else {
        let front = items.drop_last();
        lemma_put_all_head(item, front);
        assert(items.skip(1).drop_last() =~= front.skip(1));
        assert(items.skip(1).last() == items.last());
        assert(put_all(item, items)->Ok_0 =~= item(items[0])->Ok_0 + (put_all(
            item,
            front.skip(1),
        )->Ok_0 + item(items.last())->Ok_0));
    }
}

/// A list with a first item is that item followed by the others.
pub proof fn lemma_put_all_cons<T>(item: spec_fn(T) -> Put, first: T, others: Seq<T>)
    requires
        item(first) is Ok,
        put_all(item, others) is Ok,
    ensures
        put_all(item, seq![first] + others) is Ok,
        put_all(item, seq![first] + others)->Ok_0 == item(first)->Ok_0 + put_all(
            item,
            others,
        )->Ok_0,
    decreases others.len(),
{
    let items = seq![first] + others;
    if others.len() == 0 {
        assert(items.drop_last() =~= Seq::empty());
        assert(put_all(item, items.drop_last()) == Ok::<Seq<u8>, ProtocolError>(Seq::empty()));
        assert(put_all(item, items)->Ok_0 =~= item(first)->Ok_0 + Seq::empty());
    } else {
        lemma_put_all_cons(item, first, others.drop_last());
        assert(items.drop_last() =~= seq![first] + others.drop_last());
        assert(put_all(item, items)->Ok_0 =~= item(first)->Ok_0 + (put_all(
            item,
            others.drop_last(),
        )->Ok_0 + item(others.last())->Ok_0));
    }
}

/// A list that can be written is read back, whatever follows it.
pub proof fn lemma_many_reads_back<T>(
    put: spec_fn(T) -> Put,
    take: spec_fn(Seq<u8>) -> Taken<T>,
    items: Seq<T>,
    rest: Seq<u8>,
)
    requires
        reads_back(put, take),
        put_all(put, items) is Ok,
    ensures
        take_many(take, items.len(), put_all(put, items)->Ok_0 + rest) == Ok::<_, ProtocolError>(
            (items, rest),
        ),
    decreases items.len(),
{
    let source = put_all(put, items)->Ok_0 + rest;
    if items.len() == 0 {
        assert(source =~= rest);
        assert(items =~= Seq::empty());
    } else {
        lemma_put_all_head(put, items);
        let others = items.skip(1);
        let tail = put_all(put, others)->Ok_0 + rest;
        assert(source =~= put(items[0])->Ok_0 + tail);
        lemma_many_reads_back(put, take, others, rest);
        assert(seq![items[0]] + others =~= items);
    }
}

/// A list that can be read is written as the octets that were consumed.
pub proof fn lemma_many_writes_back<T>(
    put: spec_fn(T) -> Put,
    take: spec_fn(Seq<u8>) -> Taken<T>,
    count: nat,
    source: Seq<u8>,
)
    requires
        writes_back(put, take),
    ensures
        take_many(take, count, source) matches Ok((items, rest)) ==> {
            &&& items.len() == count
            &&& put_all(put, items) is Ok
            &&& put_all(put, items)->Ok_0 + rest == source
        },
    decreases count,
{
    if count == 0 {
        assert(Seq::<u8>::empty() + source =~= source);
    } else if let Ok((value, rest)) = take(source) {
        lemma_many_writes_back(put, take, (count - 1) as nat, rest);
        if let Ok((others, end)) = take_many(take, (count - 1) as nat, rest) {
            lemma_put_all_cons(put, value, others);
            assert(put(value)->Ok_0 + put_all(put, others)->Ok_0 + end =~= put(value)->Ok_0 + (
            put_all(put, others)->Ok_0 + end));
        }
    }
}

/// A counted list that can be written is read back, whatever follows it.
pub proof fn lemma_counted_reads_back<T>(
    put: spec_fn(T) -> Put,
    take: spec_fn(Seq<u8>) -> Taken<T>,
    items: Seq<T>,
    rest: Seq<u8>,
)
    requires
        reads_back(put, take),
        put_counted(put, items) is Ok,
    ensures
        take_counted(take, put_counted(put, items)->Ok_0 + rest) == Ok::<_, ProtocolError>(
            (items, rest),
        ),
{
    let list = put_all(put, items)->Ok_0;
    lemma_be16(items.len() as u16, list + rest);
    assert(be16(items.len() as u16) + list + rest =~= be16(items.len() as u16) + (list + rest));
    lemma_many_reads_back(put, take, items, rest);
}

/// Concatenation can be regrouped.
pub proof fn lemma_regroup(first: Seq<u8>, second: Seq<u8>, third: Seq<u8>)
    ensures
        (first + second) + third == first + (second + third),
{
    assert((first + second) + third =~= first + (second + third));
}

/// A counted list that can be read is written as the octets that were consumed.
pub proof fn lemma_counted_writes_back<T>(
    put: spec_fn(T) -> Put,
    take: spec_fn(Seq<u8>) -> Taken<T>,
    source: Seq<u8>,
)
    requires
        writes_back(put, take),
    ensures
        take_counted(take, source) matches Ok((items, rest)) ==> {
            &&& put_counted(put, items) is Ok
            &&& put_counted(put, items)->Ok_0 + rest == source
        },
{
    if let Ok((count, list)) = take_u16(source) {
        lemma_of16(source);
        lemma_many_writes_back(put, take, count as nat, list);
        let header = be16(count);
        assert(header + list == source);
        if let Ok((items, rest)) = take_many(take, count as nat, list) {
            let written = put_all(put, items)->Ok_0;
            lemma_regroup(header, written, rest);
        }
    }
}

/// A failed prefix fails the whole list in the same way.
pub proof fn lemma_put_all_error<T>(item: spec_fn(T) -> Put, items: Seq<T>, count: int)
    requires
        0 <= count <= items.len(),
        put_all(item, items.take(count)) is Err,
    ensures
        put_all(item, items) == put_all(item, items.take(count)),
    decreases items.len() - count,
{
    if count == items.len() {
        assert(items.take(count) =~= items);
    } else {
        assert(items.take(count + 1).drop_last() =~= items.take(count));
        lemma_put_all_error(item, items, count + 1);
    }
}

/// One more item extends what was written of a list.
pub proof fn lemma_put_all_step<T>(item: spec_fn(T) -> Put, items: Seq<T>, count: int)
    requires
        0 <= count < items.len(),
    ensures
        put_all(item, items.take(count + 1)) == joined(
            put_all(item, items.take(count)),
            item(items[count]),
        ),
{
    assert(items.take(count + 1).drop_last() =~= items.take(count));
}

/// Reads one octet.
pub(crate) fn read_u8(body: &mut Bytes) -> (result: Result<u8, ProtocolError>)
    ensures
        match result {
            Ok(value) => take_u8(octets(*old(body))) == Ok::<_, ProtocolError>(
                (value, octets(*final(body))),
            ),
            Err(error) => take_u8(octets(*old(body))) == Err::<(u8, Seq<u8>), _>(error),
        },
{
    let slice = as_slice(body);
    if slice.len() < 1 {
        return Err(ProtocolError::TruncatedBody);
    }
    let value: u8 = slice[0];
    advance(body, 1);
    Ok(value)
}

/// The network-order 16-bit integer at `at`.
pub(crate) fn u16_at(slice: &[u8], at: usize) -> (value: u16)
    requires
        at + 2 <= slice@.len(),
    ensures
        value == of16(slice@.skip(at as int)),
{
    slice[at] as u16 * 256 + slice[at + 1] as u16
}

/// The network-order 32-bit integer at `at`.
pub(crate) fn u32_at(slice: &[u8], at: usize) -> (value: u32)
    requires
        at + 4 <= slice@.len(),
    ensures
        value == of32(slice@.skip(at as int)),
{
    proof {
        assert(slice.len() == slice@.len());
        assert(slice@.skip(at as int).skip(2) =~= slice@.skip(at as int + 2));
    }
    u16_at(slice, at) as u32 * 65536 + u16_at(slice, at + 2) as u32
}

/// The network-order 64-bit integer at `at`.
pub(crate) fn u64_at(slice: &[u8], at: usize) -> (value: u64)
    requires
        at + 8 <= slice@.len(),
    ensures
        value == of64(slice@.skip(at as int)),
{
    proof {
        assert(slice.len() == slice@.len());
        assert(slice@.skip(at as int).skip(4) =~= slice@.skip(at as int + 4));
    }
    u32_at(slice, at) as u64 * 0x1_0000_0000 + u32_at(slice, at + 4) as u64
}

/// Reads a 16-bit unsigned integer.
pub(crate) fn read_u16(body: &mut Bytes) -> (result: Result<u16, ProtocolError>)
    ensures
        match result {
            Ok(value) => take_u16(octets(*old(body))) == Ok::<_, ProtocolError>(
                (value, octets(*final(body))),
            ),
            Err(error) => take_u16(octets(*old(body))) == Err::<(u16, Seq<u8>), _>(error),
        },
{
    let slice = as_slice(body);
    if slice.len() < 2 {
        return Err(ProtocolError::TruncatedBody);
    }
    let value: u16 = u16_at(slice, 0);
    assert(slice@.skip(0) =~= slice@);
    advance(body, 2);
    Ok(value)
}

/// Reads a 16-bit signed integer.
pub(crate) fn read_i16(body: &mut Bytes) -> (result: Result<i16, ProtocolError>)
    ensures
        match result {
            Ok(value) => take_i16(octets(*old(body))) == Ok::<_, ProtocolError>(
                (value, octets(*final(body))),
            ),
            Err(error) => take_i16(octets(*old(body))) == Err::<(i16, Seq<u8>), _>(error),
        },
{
    let value: u16 = match read_u16(body) {
        Ok(value) => value,
        Err(error) => return Err(error),
    };
    Ok(value as i16)
}

/// Reads a 32-bit unsigned integer.
pub(crate) fn read_u32(body: &mut Bytes) -> (result: Result<u32, ProtocolError>)
    ensures
        match result {
            Ok(value) => take_u32(octets(*old(body))) == Ok::<_, ProtocolError>(
                (value, octets(*final(body))),
            ),
            Err(error) => take_u32(octets(*old(body))) == Err::<(u32, Seq<u8>), _>(error),
        },
{
    let slice = as_slice(body);
    if slice.len() < 4 {
        return Err(ProtocolError::TruncatedBody);
    }
    let value: u32 = u32_at(slice, 0);
    assert(slice@.skip(0) =~= slice@);
    advance(body, 4);
    Ok(value)
}

/// Reads a 32-bit signed integer.
pub(crate) fn read_i32(body: &mut Bytes) -> (result: Result<i32, ProtocolError>)
    ensures
        match result {
            Ok(value) => take_i32(octets(*old(body))) == Ok::<_, ProtocolError>(
                (value, octets(*final(body))),
            ),
            Err(error) => take_i32(octets(*old(body))) == Err::<(i32, Seq<u8>), _>(error),
        },
{
    let value: u32 = match read_u32(body) {
        Ok(value) => value,
        Err(error) => return Err(error),
    };
    Ok(value as i32)
}

/// Position of the first NUL octet.
pub(crate) fn find_octet(slice: &[u8], wanted: u8) -> (position: Option<usize>)
    ensures
        match position {
            Some(at) => slice@.index_of_first(wanted) == Some(at as int) && at < slice@.len()
                && slice@[at as int] == wanted,
            None => slice@.index_of_first(wanted) is None && !slice@.contains(wanted),
        },
{
    let mut at: usize = 0;
    while at < slice.len()
        invariant
            at <= slice@.len(),
            forall|i: int| 0 <= i < at ==> slice@[i] != wanted,
        decreases slice@.len() - at,
    {
        if slice[at] == wanted {
            proof {
                slice@.index_of_first_ensures(wanted);
                assert(slice@[at as int] == wanted);
                assert(slice@.contains(wanted));
            }
            return Some(at);
        }
        at = at + 1;
    }
    proof {
        slice@.index_of_first_ensures(wanted);
    }
    None
}

/// Reads a NUL-terminated string.
pub(crate) fn read_cstr(body: &mut Bytes) -> (result: Result<Bytes, ProtocolError>)
    ensures
        match result {
            Ok(value) => take_cstr(octets(*old(body))) == Ok::<_, ProtocolError>(
                (octets(value), octets(*final(body))),
            ),
            Err(error) => take_cstr(octets(*old(body))) == Err::<(Seq<u8>, Seq<u8>), _>(error),
        },
{
    let ghost source = octets(*body);
    let end: usize = match find_octet(as_slice(body), 0) {
        Some(end) => end,
        None => return Err(ProtocolError::UnterminatedString),
    };
    let value = split_to(body, end);
    advance(body, 1);
    assert(source.skip(end as int).skip(1) =~= source.skip(end as int + 1));
    Ok(value)
}

/// Contents of a nullable value.
pub open spec fn nullable(value: Option<Bytes>) -> Option<Seq<u8>> {
    match value {
        Some(bytes) => Some(octets(bytes)),
        None => None,
    }
}

/// Reads a nullable value.
pub(crate) fn read_nullable(body: &mut Bytes) -> (result: Result<Option<Bytes>, ProtocolError>)
    ensures
        match result {
            Ok(value) => take_nullable(octets(*old(body))) == Ok::<_, ProtocolError>(
                (nullable(value), octets(*final(body))),
            ),
            Err(error) => take_nullable(octets(*old(body))) == Err::<
                (Option<Seq<u8>>, Seq<u8>),
                _,
            >(error),
        },
{
    let length: u32 = match read_u32(body) {
        Ok(length) => length,
        Err(error) => return Err(error),
    };
    if length == NULL_LENGTH {
        return Ok(None);
    }
    if length > MAX_VALUE_LENGTH {
        return Err(ProtocolError::NegativeParameterLength);
    }
    let length: usize = length as usize;
    if as_slice(body).len() < length {
        return Err(ProtocolError::TruncatedBody);
    }
    Ok(Some(split_to(body, length)))
}

/// Succeeds when nothing is left to read.
pub(crate) fn read_end(body: &Bytes) -> (result: Result<(), ProtocolError>)
    ensures
        match result {
            Ok(_) => octets(*body).len() == 0,
            Err(error) => octets(*body).len() > 0 && error == ProtocolError::TrailingBytes,
        },
{
    if as_slice(body).len() == 0 {
        Ok(())
    } else {
        Err(ProtocolError::TrailingBytes)
    }
}

/// Appends a slice.
pub(crate) fn append(body: &mut Vec<u8>, slice: &[u8])
    ensures
        final(body)@ == old(body)@ + slice@,
{
    body.extend_from_slice(slice);
    assert(body@ =~= old(body)@ + slice@);
}

/// Appends a 16-bit integer.
pub(crate) fn write_u16(body: &mut Vec<u8>, value: u16)
    ensures
        final(body)@ == old(body)@ + be16(value),
{
    body.push((value / 256) as u8);
    body.push((value % 256) as u8);
    assert(body@ =~= old(body)@ + be16(value));
}

/// Appends a 32-bit integer.
pub(crate) fn write_u32(body: &mut Vec<u8>, value: u32)
    ensures
        final(body)@ == old(body)@ + be32(value),
{
    write_u16(body, (value / 65536) as u16);
    write_u16(body, (value % 65536) as u16);
    assert(body@ =~= old(body)@ + be32(value));
}

/// Appends a 64-bit integer.
pub(crate) fn write_u64(body: &mut Vec<u8>, value: u64)
    ensures
        final(body)@ == old(body)@ + be64(value),
{
    write_u32(body, (value / 0x1_0000_0000) as u32);
    write_u32(body, (value % 0x1_0000_0000) as u32);
    assert(body@ =~= old(body)@ + be64(value));
}

/// Appends a NUL-terminated string.
pub(crate) fn write_cstr(body: &mut Vec<u8>, value: &[u8]) -> (result: Result<(), ProtocolError>)
    ensures
        match result {
            Ok(_) => joined(Ok(old(body)@), put_cstr(value@)) == Ok::<_, ProtocolError>(
                final(body)@,
            ),
            Err(error) => put_cstr(value@) == Err::<Seq<u8>, _>(error),
        },
{
    if find_octet(value, 0).is_some() {
        proof {
            value@.index_of_first_ensures(0u8);
        }
        return Err(ProtocolError::NulInString);
    }
    append(body, value);
    body.push(0);
    assert(body@ =~= old(body)@ + value@.push(0u8));
    Ok(())
}

/// Appends a 16-bit count.
pub(crate) fn write_count(body: &mut Vec<u8>, count: usize) -> (result: Result<(), ProtocolError>)
    ensures
        match result {
            Ok(_) => joined(Ok(old(body)@), put_count(count as nat)) == Ok::<_, ProtocolError>(
                final(body)@,
            ),
            Err(error) => put_count(count as nat) == Err::<Seq<u8>, _>(error),
        },
{
    if count > 65535 {
        return Err(ProtocolError::CountExceedsU16);
    }
    write_u16(body, count as u16);
    Ok(())
}

/// Appends a nullable value.
pub(crate) fn write_nullable(body: &mut Vec<u8>, value: &Option<Bytes>) -> (result: Result<
    (),
    ProtocolError,
>)
    ensures
        match result {
            Ok(_) => joined(Ok(old(body)@), put_nullable(nullable(*value))) == Ok::<
                _,
                ProtocolError,
            >(final(body)@),
            Err(error) => put_nullable(nullable(*value)) == Err::<Seq<u8>, _>(error),
        },
{
    match value {
        None => {
            write_u32(body, NULL_LENGTH);
            Ok(())
        },
        Some(bytes) => {
            let slice = as_slice(bytes);
            if slice.len() > MAX_VALUE_LENGTH as usize {
                return Err(ProtocolError::ParameterTooLarge);
            }
            write_u32(body, slice.len() as u32);
            append(body, slice);
            assert(body@ =~= old(body)@ + (be32(slice@.len() as u32) + slice@));
            Ok(())
        },
    }
}

} // verus!
