//! Where each part of a message stands on the wire.

use bytes::Bytes;
use vstd::prelude::*;

use crate::codec::backend::{
    backend_decoded, backend_frame, backend_message, law_backend_lossless, put_row_field,
    row_octets, status_of, take_row_field, AuthenticationView, BackendView, CopyResponseView,
    FieldDescriptionView, NegotiateView, TransactionStatus,
};
use crate::codec::diagnostic::{diagnostic_octets, DiagnosticFieldView};
use crate::codec::frame::{frame_octets, Direction, FrameView};
use crate::codec::frontend::{
    frontend_decoded, frontend_frame, frontend_message, law_frontend_lossless, target_octet, target_of, BindView,
    DescribeTarget, ExecuteView, FrontendView, FunctionCallView, NamedView, ParseView,
};
use crate::codec::{Authentication, Backend, BackendMessage, Frame, Frontend, FrontendMessage};
use crate::error::{ProtocolError, Side};
use crate::lists::{nullables, texts};
use crate::octets::octets;
use crate::wire::{
    be16, be32, be64, cstr_octets, i16_octets, joined, lemma_signed,
    nullable_octets, of16, of32, of64, put_all, put_counted, put_cstr, put_nullable, take_counted,
    take_cstr, take_many, take_nullable, take_octets, take_u16, take_u32,
    take_u8, u32_octets, whole, Put, Taken,
};

verus! {

/// The number that octets stand for, the most significant first.
pub open spec fn number(octets: Seq<u8>) -> nat
    decreases octets.len(),
{
    if octets.len() == 0 {
        0
    } else {
        number(octets.drop_last()) * 256 + octets.last() as nat
    }
}

/// A signed number in two's complement of 16 bits.
pub open spec fn unsigned16(value: i16) -> int {
    if value < 0 {
        value + 0x1_0000
    } else {
        value as int
    }
}

/// A signed number in two's complement of 32 bits.
pub open spec fn unsigned32(value: i32) -> int {
    if value < 0 {
        value + 0x1_0000_0000
    } else {
        value as int
    }
}

proof fn lemma_unsigned(short: i16, long: i32)
    ensures
        short as u16 == unsigned16(short),
        long as u32 == unsigned32(long),
{
    assert(short < 0 ==> short as u16 == short + 0x1_0000) by (bit_vector);
    assert(short >= 0 ==> short as u16 == short) by (bit_vector);
    assert(long < 0 ==> long as u32 == long + 0x1_0000_0000) by (bit_vector);
    assert(long >= 0 ==> long as u32 == long) by (bit_vector);
}

proof fn lemma_number_of_two(octets: Seq<u8>)
    requires
        octets.len() == 2,
    ensures
        number(octets) == octets[0] * 256 + octets[1],
{
    reveal_with_fuel(number, 3);
}

proof fn lemma_number_of_four(octets: Seq<u8>)
    requires
        octets.len() == 4,
    ensures
        number(octets) == ((octets[0] * 256 + octets[1]) * 256 + octets[2]) * 256 + octets[3],
{
    reveal_with_fuel(number, 5);
}

/// Numbers are written most significant octet first, in two, four or eight octets,
/// and read alike.
pub proof fn law_network_order(short: u16, long: u32, wide: u64, source: Seq<u8>)
    ensures
        be16(short).len() == 2,
        number(be16(short)) == short,
        be32(long).len() == 4,
        number(be32(long)) == long,
        be64(wide).len() == 8,
        number(be64(wide)) == wide,
        source.len() >= 2 ==> of16(source) == number(source.take(2)),
        source.len() >= 4 ==> of32(source) == number(source.take(4)),
        source.len() >= 8 ==> of64(source) == number(source.take(8)),
{
    lemma_number_of_two(be16(short));
    lemma_be32_value(long);
    let high = (wide / 0x1_0000_0000) as u32;
    let low = (wide % 0x1_0000_0000) as u32;
    lemma_be32_value(high);
    lemma_be32_value(low);
    lemma_be64_value(be32(high), be32(low));
    if source.len() >= 2 {
        lemma_number_of_two(source.take(2));
    }
    if source.len() >= 4 {
        lemma_of32_value(source);
    }
    if source.len() >= 8 {
        lemma_of32_value(source);
        lemma_of32_value(source.skip(4));
        lemma_be64_value(source.take(4), source.skip(4).take(4));
        assert(source.take(4) + source.skip(4).take(4) =~= source.take(8));
    }
}

proof fn lemma_be32_value(value: u32)
    ensures
        be32(value).len() == 4,
        number(be32(value)) == value,
{
    lemma_number_of_four(be32(value));
}

proof fn lemma_of32_value(source: Seq<u8>)
    requires
        source.len() >= 4,
    ensures
        of32(source) == number(source.take(4)),
{
    lemma_number_of_four(source.take(4));
}

proof fn lemma_be64_value(high: Seq<u8>, low: Seq<u8>)
    requires
        high.len() == 4,
        low.len() == 4,
    ensures
        number(high + low) == number(high) * 0x1_0000_0000 + number(low),
{
    let all = high + low;
    lemma_number_of_four(low);
    assert(all.drop_last() =~= high + low.drop_last());
    assert((high + low.drop_last()).drop_last() =~= high + low.take(2));
    assert((high + low.take(2)).drop_last() =~= high + low.take(1));
    assert((high + low.take(1)).drop_last() =~= high);
    assert(number(high + low.take(1)) == number(high) * 256 + low[0]);
    assert(number(high + low.take(2)) == number(high + low.take(1)) * 256 + low[1]);
    assert(number(high + low.drop_last()) == number(high + low.take(2)) * 256 + low[2]);
}

/// A column's metadata stands in a row description as its name with a NUL octet, then
/// the table in four octets, the column in two, the type in four, its size in two, its
/// modifier in four and the format in two.
pub proof fn law_row_field_is_written(field: FieldDescriptionView)
    ensures
        put_row_field(field) is Ok <==> !field.name.contains(0u8),
        put_row_field(field) matches Ok(octets) ==> {
            let at = field.name.len() as int + 1;
            &&& octets.len() == at + 18
            &&& octets.take(at - 1) == field.name
            &&& octets[at - 1] == 0
            &&& number(octets.subrange(at, at + 4)) == field.table_oid
            &&& number(octets.subrange(at + 4, at + 6)) == unsigned16(field.column)
            &&& number(octets.subrange(at + 6, at + 10)) == field.type_oid
            &&& number(octets.subrange(at + 10, at + 12)) == unsigned16(field.type_size)
            &&& number(octets.subrange(at + 12, at + 16)) == unsigned32(field.type_modifier)
            &&& number(octets.subrange(at + 16, at + 18)) == unsigned16(field.format)
        },
{
    if let Ok(octets) = put_row_field(field) {
        let at = field.name.len() as int + 1;
        lemma_unsigned(field.column, field.type_modifier);
        lemma_unsigned(field.type_size, field.type_modifier);
        lemma_unsigned(field.format, field.type_modifier);
        let none = Seq::<u8>::empty();
        law_network_order(field.column as u16, field.table_oid, 0, none);
        law_network_order(field.type_size as u16, field.type_oid, 0, none);
        law_network_order(field.format as u16, field.type_modifier as u32, 0, none);
        assert(octets.take(at - 1) =~= field.name);
        assert(octets.subrange(at, at + 4) =~= be32(field.table_oid));
        assert(octets.subrange(at + 4, at + 6) =~= be16(field.column as u16));
        assert(octets.subrange(at + 6, at + 10) =~= be32(field.type_oid));
        assert(octets.subrange(at + 10, at + 12) =~= be16(field.type_size as u16));
        assert(octets.subrange(at + 12, at + 16) =~= be32(field.type_modifier as u32));
        assert(octets.subrange(at + 16, at + 18) =~= be16(field.format as u16));
    }
}

/// A column's metadata is read from where it is written: the name up to the first NUL
/// octet, and each number at its place behind it.
pub proof fn law_row_field_is_read(source: Seq<u8>)
    ensures
        take_row_field(source) is Ok <==> (source.index_of_first(0u8) matches Some(end)
            && source.len() >= end + 19),
        take_row_field(source) matches Ok((field, rest)) ==> {
            let at = field.name.len() as int + 1;
            &&& source.len() >= at + 18
            &&& !field.name.contains(0u8)
            &&& source.take(at - 1) == field.name
            &&& source[at - 1] == 0
            &&& number(source.subrange(at, at + 4)) == field.table_oid
            &&& number(source.subrange(at + 4, at + 6)) == unsigned16(field.column)
            &&& number(source.subrange(at + 6, at + 10)) == field.type_oid
            &&& number(source.subrange(at + 10, at + 12)) == unsigned16(field.type_size)
            &&& number(source.subrange(at + 12, at + 16)) == unsigned32(field.type_modifier)
            &&& number(source.subrange(at + 16, at + 18)) == unsigned16(field.format)
            &&& rest == source.skip(at + 18)
        },
{
    source.index_of_first_ensures(0u8);
    if let Some(end) = source.index_of_first(0u8) {
        let at = end + 1;
        let tail = source.skip(at);
        if tail.len() >= 6 {
            assert(tail.skip(4).skip(2) =~= tail.skip(6));
        }
        if tail.len() >= 10 {
            assert(tail.skip(6).skip(4) =~= tail.skip(10));
        }
        if tail.len() >= 12 {
            assert(tail.skip(10).skip(2) =~= tail.skip(12));
        }
        if tail.len() >= 16 {
            assert(tail.skip(12).skip(4) =~= tail.skip(16));
        }
        if tail.len() >= 18 {
            assert(tail.skip(16).skip(2) =~= tail.skip(18));
        }
        if tail.len() >= 18 {
            assert(tail.skip(18) =~= source.skip(at + 18));
            lemma_read_at(source, at, 0);
            lemma_read_at(source, at, 4);
            lemma_read_at(source, at, 6);
            lemma_read_at(source, at, 10);
            lemma_read_at(source, at, 12);
            lemma_read_at(source, at, 16);
            assert(tail.skip(0) =~= tail);
        }
    }
}

proof fn lemma_read_at(source: Seq<u8>, at: int, place: int)
    requires
        0 <= at <= source.len(),
        0 <= place,
    ensures
        source.len() >= at + place + 2 ==> {
            let value = of16(source.skip(at).skip(place));
            number(source.subrange(at + place, at + place + 2)) == value && unsigned16(value as i16)
                == value
        },
        source.len() >= at + place + 4 ==> {
            let value = of32(source.skip(at).skip(place));
            number(source.subrange(at + place, at + place + 4)) == value && unsigned32(value as i32)
                == value
        },
{
    if source.len() >= at + place + 2 {
        let tail = source.skip(at).skip(place);
        law_network_order(0, 0, 0, tail);
        assert(tail.take(2) =~= source.subrange(at + place, at + place + 2));
        lemma_signed();
        lemma_unsigned(of16(tail) as i16, 0);
        if source.len() >= at + place + 4 {
            assert(tail.take(4) =~= source.subrange(at + place, at + place + 4));
            lemma_unsigned(0, of32(tail) as i32);
        }
    }
}

/// A text with its NUL octet.
pub open spec fn text(value: Seq<u8>) -> Seq<u8> {
    value + seq![0u8]
}

/// The number of items of a list, in two octets.
pub open spec fn count(items: nat) -> Seq<u8> {
    be16(items as u16)
}

/// A value behind its length in four octets; a null is the length of all ones, alone.
pub open spec fn sized(value: Option<Seq<u8>>) -> Seq<u8> {
    match value {
        None => seq![0xffu8, 0xffu8, 0xffu8, 0xffu8],
        Some(octets) => be32(octets.len() as u32) + octets,
    }
}

/// Texts, one after the other.
pub open spec fn all_texts(values: Seq<Seq<u8>>) -> Seq<u8> {
    values.flat_map(|value: Seq<u8>| text(value))
}

/// Values, one after the other.
pub open spec fn all_sized(values: Seq<Option<Seq<u8>>>) -> Seq<u8> {
    values.flat_map(|value: Option<Seq<u8>>| sized(value))
}

/// Numbers in two octets, one after the other.
pub open spec fn all_short(values: Seq<i16>) -> Seq<u8> {
    values.flat_map(|value: i16| be16(value as u16))
}

/// Numbers in four octets, one after the other.
pub open spec fn all_long(values: Seq<u32>) -> Seq<u8> {
    values.flat_map(|value: u32| be32(value))
}

/// Metadata of columns, one after the other.
pub open spec fn all_rows(fields: Seq<FieldDescriptionView>) -> Seq<u8> {
    fields.flat_map(
        |field: FieldDescriptionView|
            text(field.name) + be32(field.table_oid) + be16(field.column as u16) + be32(
                field.type_oid,
            ) + be16(field.type_size as u16) + be32(field.type_modifier as u32) + be16(
                field.format as u16,
            ),
    )
}

/// Diagnostic fields, one after the other: a code octet and a text each.
pub open spec fn all_diagnostics(fields: Seq<DiagnosticFieldView>) -> Seq<u8> {
    fields.flat_map(|field: DiagnosticFieldView| seq![field.code] + text(field.value))
}

pub open spec fn no_nul(value: Seq<u8>) -> bool {
    !value.contains(0u8)
}

pub open spec fn no_nuls(values: Seq<Seq<u8>>) -> bool {
    forall|i: int| 0 <= i < values.len() ==> no_nul(#[trigger] values[i])
}

pub open spec fn short_enough(values: Seq<Option<Seq<u8>>>) -> bool {
    forall|i: int|
        0 <= i < values.len() ==> ((#[trigger] values[i]) matches Some(value) ==> value.len()
            <= 0x7fff_ffff)
}

/// A list is written item by item, in order, and only if each item can be.
pub proof fn lemma_put_all_flattens<T>(item: spec_fn(T) -> Put, items: Seq<T>, form: spec_fn(T) -> Seq<u8>)
    requires
        forall|value: T| (#[trigger] item(value)) matches Ok(octets) ==> octets == form(value),
    ensures
        put_all(item, items) is Ok <==> forall|i: int|
            0 <= i < items.len() ==> item(#[trigger] items[i]) is Ok,
        put_all(item, items) matches Ok(octets) ==> octets == items.flat_map(form),
    decreases items.len(),
{
    if items.len() == 0 {
        assert(items.map_values(form) =~= Seq::empty());
    } else {
        let front = items.drop_last();
        lemma_put_all_flattens(item, front, form);
        front.lemma_flat_map_push(form, items.last());
        assert(front.push(items.last()) =~= items);
        assert(items.last() == items[items.len() - 1]);
        if forall|i: int| 0 <= i < items.len() ==> item(#[trigger] items[i]) is Ok {
            assert forall|i: int| 0 <= i < front.len() implies item(#[trigger] front[i]) is Ok by {
                assert(front[i] == items[i]);
            }
        }
        if put_all(item, items) is Ok {
            assert forall|i: int| 0 <= i < items.len() implies item(#[trigger] items[i]) is Ok by {
                if i < front.len() {
                    assert(front[i] == items[i]);
                }
            }
        }
    }
}

proof fn lemma_texts(values: Seq<Seq<u8>>)
    ensures
        put_all(cstr_octets(), values) is Ok <==> no_nuls(values),
        put_all(cstr_octets(), values) matches Ok(octets) ==> octets == all_texts(values),
{
    let form = |value: Seq<u8>| text(value);
    assert forall|value: Seq<u8>| (#[trigger] cstr_octets()(value)) is Ok implies cstr_octets()(
        value,
    )->Ok_0 == form(value) by {
        assert(value.push(0u8) =~= text(value));
    }
    lemma_put_all_flattens(cstr_octets(), values, form);
    assert forall|i: int| 0 <= i < values.len() implies (cstr_octets()(#[trigger] values[i]) is Ok
        <==> no_nul(values[i])) by {}
}

proof fn lemma_all_sized(values: Seq<Option<Seq<u8>>>)
    ensures
        put_all(nullable_octets(), values) is Ok <==> short_enough(values),
        put_all(nullable_octets(), values) matches Ok(octets) ==> octets == all_sized(values),
{
    let form = |value: Option<Seq<u8>>| sized(value);
    assert(be32(0xffff_ffff) =~= seq![0xffu8, 0xffu8, 0xffu8, 0xffu8]);
    lemma_put_all_flattens(nullable_octets(), values, form);
}

proof fn lemma_all_short(values: Seq<i16>)
    ensures
        put_all(i16_octets(), values) == Ok::<_, ProtocolError>(all_short(values)),
{
    let form = |value: i16| be16(value as u16);
    lemma_put_all_flattens(i16_octets(), values, form);
}

proof fn lemma_all_long(values: Seq<u32>)
    ensures
        put_all(u32_octets(), values) == Ok::<_, ProtocolError>(all_long(values)),
{
    let form = |value: u32| be32(value);
    lemma_put_all_flattens(u32_octets(), values, form);
}

/// What each frontend message looks like on the wire: its tag and its body. A text
/// that holds a NUL octet, a list of more than 65535 items and a value of more than
/// 2147483647 octets cannot be written.
#[verifier::rlimit(60)]
pub proof fn law_frontend_layout(message: FrontendView)
    ensures
        match message {
            FrontendView::Parse(ParseView { statement, query, parameter_types }) => {
                &&& frontend_frame(message) is Ok <==> no_nul(statement) && no_nul(query)
                    && parameter_types.len() <= 65535
                &&& frontend_frame(message) matches Ok(frame) ==> frame.tag == 0x50 && frame.body
                    == text(statement) + text(query) + count(parameter_types.len()) + all_long(
                    parameter_types,
                )
            },
            FrontendView::Bind(
                BindView { portal, statement, parameter_formats, parameters, result_formats },
            ) => {
                &&& frontend_frame(message) is Ok <==> no_nul(portal) && no_nul(statement)
                    && parameter_formats.len() <= 65535 && parameters.len() <= 65535
                    && result_formats.len() <= 65535 && short_enough(parameters)
                &&& frontend_frame(message) matches Ok(frame) ==> frame.tag == 0x42 && frame.body
                    == text(portal) + text(statement) + count(parameter_formats.len()) + all_short(
                    parameter_formats,
                ) + count(parameters.len()) + all_sized(parameters) + count(result_formats.len())
                    + all_short(result_formats)
            },
            FrontendView::Describe(NamedView { target, name }) => {
                &&& frontend_frame(message) is Ok <==> no_nul(name)
                &&& frontend_frame(message) matches Ok(frame) ==> frame.tag == 0x44 && frame.body
                    == seq![
                    if target == DescribeTarget::Statement {
                        0x53u8
                    } else {
                        0x50u8
                    },
                ] + text(name)
            },
            FrontendView::Close(NamedView { target, name }) => {
                &&& frontend_frame(message) is Ok <==> no_nul(name)
                &&& frontend_frame(message) matches Ok(frame) ==> frame.tag == 0x43 && frame.body
                    == seq![
                    if target == DescribeTarget::Statement {
                        0x53u8
                    } else {
                        0x50u8
                    },
                ] + text(name)
            },
            FrontendView::Execute(ExecuteView { portal, max_rows }) => {
                &&& frontend_frame(message) is Ok <==> no_nul(portal)
                &&& frontend_frame(message) matches Ok(frame) ==> frame.tag == 0x45 && frame.body
                    == text(portal) + be32(max_rows as u32)
            },
            FrontendView::FunctionCall(
                FunctionCallView { function, argument_formats, arguments, result_format },
            ) => {
                &&& frontend_frame(message) is Ok <==> argument_formats.len() <= 65535
                    && arguments.len() <= 65535 && short_enough(arguments)
                &&& frontend_frame(message) matches Ok(frame) ==> frame.tag == 0x46 && frame.body
                    == be32(function) + count(argument_formats.len()) + all_short(argument_formats)
                    + count(arguments.len()) + all_sized(arguments) + be16(result_format as u16)
            },
            FrontendView::Query(query) => {
                &&& frontend_frame(message) is Ok <==> no_nul(query)
                &&& frontend_frame(message) matches Ok(frame) ==> frame.tag == 0x51 && frame.body
                    == text(query)
            },
            FrontendView::CopyFail(reason) => {
                &&& frontend_frame(message) is Ok <==> no_nul(reason)
                &&& frontend_frame(message) matches Ok(frame) ==> frame.tag == 0x66 && frame.body
                    == text(reason)
            },
            FrontendView::CopyData(data) => frontend_frame(message) == Ok::<_, ProtocolError>(
                FrameView { tag: 0x64, body: data },
            ),
            FrontendView::PasswordResponse(data) => frontend_frame(message) == Ok::<
                _,
                ProtocolError,
            >(FrameView { tag: 0x70, body: data }),
            FrontendView::CopyDone => frontend_frame(message) == Ok::<_, ProtocolError>(
                FrameView { tag: 0x63, body: seq![] },
            ),
            FrontendView::Flush => frontend_frame(message) == Ok::<_, ProtocolError>(
                FrameView { tag: 0x48, body: seq![] },
            ),
            FrontendView::Sync => frontend_frame(message) == Ok::<_, ProtocolError>(
                FrameView { tag: 0x53, body: seq![] },
            ),
            FrontendView::Terminate => frontend_frame(message) == Ok::<_, ProtocolError>(
                FrameView { tag: 0x58, body: seq![] },
            ),
            FrontendView::Recognised(frame) => frontend_frame(message) == Ok::<_, ProtocolError>(
                frame,
            ),
        },
{
    match message {
        FrontendView::Parse(parse) => {
            lemma_all_long(parse.parameter_types);
            if let Ok(frame) = frontend_frame(message) {
                assert(frame.body =~= text(parse.statement) + text(parse.query) + count(
                    parse.parameter_types.len(),
                ) + all_long(parse.parameter_types));
            }
        },
        FrontendView::Bind(bind) => {
            lemma_all_short(bind.parameter_formats);
            lemma_all_sized(bind.parameters);
            lemma_all_short(bind.result_formats);
            if let Ok(frame) = frontend_frame(message) {
                assert(frame.body =~= text(bind.portal) + text(bind.statement) + count(
                    bind.parameter_formats.len(),
                ) + all_short(bind.parameter_formats) + count(bind.parameters.len()) + all_sized(
                    bind.parameters,
                ) + count(bind.result_formats.len()) + all_short(bind.result_formats));
            }
        },
        FrontendView::Describe(named) | FrontendView::Close(named) => {
            if let Ok(frame) = frontend_frame(message) {
                assert(frame.body =~= seq![target_octet(named.target)] + text(named.name));
            }
        },
        FrontendView::Execute(execute) => {
            if let Ok(frame) = frontend_frame(message) {
                assert(frame.body =~= text(execute.portal) + be32(execute.max_rows as u32));
            }
        },
        FrontendView::FunctionCall(call) => {
            lemma_all_short(call.argument_formats);
            lemma_all_sized(call.arguments);
            if let Ok(frame) = frontend_frame(message) {
                assert(frame.body =~= be32(call.function) + count(call.argument_formats.len())
                    + all_short(call.argument_formats) + count(call.arguments.len()) + all_sized(
                    call.arguments,
                ) + be16(call.result_format as u16));
            }
        },
        FrontendView::Query(words) | FrontendView::CopyFail(words) => {
            if let Ok(frame) = frontend_frame(message) {
                assert(frame.body =~= text(words));
            }
        },
        _ => {},
    }
}

/// Diagnostic fields that can be written: none has the code that ends the list.
pub open spec fn writable_diagnostics(fields: Seq<DiagnosticFieldView>) -> bool {
    forall|i: int|
        0 <= i < fields.len() ==> (#[trigger] fields[i]).code != 0 && no_nul(fields[i].value)
}

/// Column metadata that can be written.
pub open spec fn writable_rows(fields: Seq<FieldDescriptionView>) -> bool {
    forall|i: int| 0 <= i < fields.len() ==> no_nul((#[trigger] fields[i]).name)
}

proof fn lemma_all_diagnostics(fields: Seq<DiagnosticFieldView>)
    ensures
        put_all(diagnostic_octets(), fields) is Ok <==> writable_diagnostics(fields),
        put_all(diagnostic_octets(), fields) matches Ok(octets) ==> octets == all_diagnostics(fields),
{
    let form = |field: DiagnosticFieldView| seq![field.code] + text(field.value);
    assert forall|field: DiagnosticFieldView|
        (#[trigger] diagnostic_octets()(field)) is Ok implies diagnostic_octets()(field)->Ok_0
        == form(field) by {
        assert(seq![field.code] + field.value.push(0u8) =~= seq![field.code] + text(field.value));
    }
    lemma_put_all_flattens(diagnostic_octets(), fields, form);
}

proof fn lemma_all_rows(fields: Seq<FieldDescriptionView>)
    ensures
        put_all(row_octets(), fields) is Ok <==> writable_rows(fields),
        put_all(row_octets(), fields) matches Ok(octets) ==> octets == all_rows(fields),
{
    let form = |field: FieldDescriptionView|
        text(field.name) + be32(field.table_oid) + be16(field.column as u16) + be32(field.type_oid)
            + be16(field.type_size as u16) + be32(field.type_modifier as u32) + be16(
            field.format as u16,
        );
    assert forall|field: FieldDescriptionView| (#[trigger] row_octets()(field)) is Ok implies row_octets()(
        field,
    )->Ok_0 == form(field) by {
        assert(row_octets()(field)->Ok_0 =~= form(field));
    }
    lemma_put_all_flattens(row_octets(), fields, form);
}

/// The number of an authentication request, and what follows it.
pub open spec fn request_parts(message: AuthenticationView) -> (u32, Seq<u8>) {
    match message {
        AuthenticationView::Accepted => (0, seq![]),
        AuthenticationView::KerberosV5 => (2, seq![]),
        AuthenticationView::CleartextPassword => (3, seq![]),
        AuthenticationView::Md5Password { salt } => (5, salt),
        AuthenticationView::Gss => (7, seq![]),
        AuthenticationView::GssContinue(data) => (8, data),
        AuthenticationView::Sspi => (9, seq![]),
        AuthenticationView::Sasl { mechanisms } => (10, all_texts(mechanisms) + seq![0u8]),
        AuthenticationView::SaslContinue(data) => (11, data),
        AuthenticationView::SaslFinal(data) => (12, data),
    }
}

/// What each backend message looks like on the wire: its tag and its body. A text that
/// holds a NUL octet, a list of more than 65535 items, a value of more than 2147483647
/// octets and a key of fewer than 4 or more than 256 cannot be written.
#[verifier::rlimit(80)]
pub proof fn law_backend_layout(message: BackendView)
    ensures
        match message {
            BackendView::RowDescription(fields) => {
                &&& backend_frame(message) is Ok <==> fields.len() <= 65535 && writable_rows(fields)
                &&& backend_frame(message) matches Ok(frame) ==> frame.tag == 0x54 && frame.body
                    == count(fields.len()) + all_rows(fields)
            },
            BackendView::Authentication(request) => {
                &&& backend_frame(message) is Ok <==> (request matches AuthenticationView::Sasl {
                    mechanisms,
                } ==> no_nuls(mechanisms))
                &&& backend_frame(message) matches Ok(frame) ==> frame.tag == 0x52 && frame.body
                    == be32(request_parts(request).0) + request_parts(request).1
            },
            BackendView::ParameterStatus { name, value } => {
                &&& backend_frame(message) is Ok <==> no_nul(name) && no_nul(value)
                &&& backend_frame(message) matches Ok(frame) ==> frame.tag == 0x53 && frame.body
                    == text(name) + text(value)
            },
            BackendView::NoticeResponse(fields) => {
                &&& backend_frame(message) is Ok <==> writable_diagnostics(fields)
                &&& backend_frame(message) matches Ok(frame) ==> frame.tag == 0x4e && frame.body
                    == all_diagnostics(fields) + seq![0u8]
            },
            BackendView::ErrorResponse(fields) => {
                &&& backend_frame(message) is Ok <==> writable_diagnostics(fields)
                &&& backend_frame(message) matches Ok(frame) ==> frame.tag == 0x45 && frame.body
                    == all_diagnostics(fields) + seq![0u8]
            },
            BackendView::OpaqueNotice(body) => backend_frame(message) == Ok::<_, ProtocolError>(
                FrameView { tag: 0x4e, body },
            ),
            BackendView::NotificationResponse { process_id, channel, payload } => {
                &&& backend_frame(message) is Ok <==> no_nul(channel) && no_nul(payload)
                &&& backend_frame(message) matches Ok(frame) ==> frame.tag == 0x41 && frame.body
                    == be32(process_id) + text(channel) + text(payload)
            },
            BackendView::BackendKeyData { process_id, secret_key } => {
                &&& backend_frame(message) is Ok <==> 4 <= secret_key.len() <= 256
                &&& backend_frame(message) matches Ok(frame) ==> frame.tag == 0x4b && frame.body
                    == be32(process_id) + secret_key
            },
            BackendView::ReadyForQuery(status) => backend_frame(message) == Ok::<_, ProtocolError>(
                FrameView {
                    tag: 0x5a,
                    body: seq![
                        match status {
                            TransactionStatus::Idle => 0x49u8,
                            TransactionStatus::InTransaction => 0x54u8,
                            TransactionStatus::FailedTransaction => 0x45u8,
                        },
                    ],
                },
            ),
            BackendView::NegotiateProtocolVersion(NegotiateView { newest, unsupported_options }) => {
                &&& backend_frame(message) is Ok <==> unsupported_options.len() <= 0xffff_ffff
                    && no_nuls(unsupported_options)
                &&& backend_frame(message) matches Ok(frame) ==> frame.tag == 0x76 && frame.body
                    == be16(newest.major) + be16(newest.minor) + be32(
                    unsupported_options.len() as u32,
                ) + all_texts(unsupported_options)
            },
            BackendView::CommandComplete(tag) => {
                &&& backend_frame(message) is Ok <==> no_nul(tag)
                &&& backend_frame(message) matches Ok(frame) ==> frame.tag == 0x43 && frame.body
                    == text(tag)
            },
            BackendView::DataRow(columns) => {
                &&& backend_frame(message) is Ok <==> columns.len() <= 65535 && short_enough(columns)
                &&& backend_frame(message) matches Ok(frame) ==> frame.tag == 0x44 && frame.body
                    == count(columns.len()) + all_sized(columns)
            },
            BackendView::ParameterDescription(types) => {
                &&& backend_frame(message) is Ok <==> types.len() <= 65535
                &&& backend_frame(message) matches Ok(frame) ==> frame.tag == 0x74 && frame.body
                    == count(types.len()) + all_long(types)
            },
            BackendView::FunctionCallResponse(data) => backend_frame(message) == Ok::<
                _,
                ProtocolError,
            >(FrameView { tag: 0x56, body: data }),
            BackendView::CopyInResponse(CopyResponseView { overall_format, column_formats }) => {
                &&& backend_frame(message) is Ok <==> column_formats.len() <= 65535
                &&& backend_frame(message) matches Ok(frame) ==> frame.tag == 0x47 && frame.body
                    == seq![overall_format] + count(column_formats.len()) + all_short(
                    column_formats,
                )
            },
            BackendView::CopyOutResponse(CopyResponseView { overall_format, column_formats }) => {
                &&& backend_frame(message) is Ok <==> column_formats.len() <= 65535
                &&& backend_frame(message) matches Ok(frame) ==> frame.tag == 0x48 && frame.body
                    == seq![overall_format] + count(column_formats.len()) + all_short(
                    column_formats,
                )
            },
            BackendView::CopyBothResponse(CopyResponseView { overall_format, column_formats }) => {
                &&& backend_frame(message) is Ok <==> column_formats.len() <= 65535
                &&& backend_frame(message) matches Ok(frame) ==> frame.tag == 0x57 && frame.body
                    == seq![overall_format] + count(column_formats.len()) + all_short(
                    column_formats,
                )
            },
            BackendView::CopyData(data) => backend_frame(message) == Ok::<_, ProtocolError>(
                FrameView { tag: 0x64, body: data },
            ),
            BackendView::ParseComplete => backend_frame(message) == Ok::<_, ProtocolError>(
                FrameView { tag: 0x31, body: seq![] },
            ),
            BackendView::BindComplete => backend_frame(message) == Ok::<_, ProtocolError>(
                FrameView { tag: 0x32, body: seq![] },
            ),
            BackendView::CloseComplete => backend_frame(message) == Ok::<_, ProtocolError>(
                FrameView { tag: 0x33, body: seq![] },
            ),
            BackendView::NoData => backend_frame(message) == Ok::<_, ProtocolError>(
                FrameView { tag: 0x6e, body: seq![] },
            ),
            BackendView::PortalSuspended => backend_frame(message) == Ok::<_, ProtocolError>(
                FrameView { tag: 0x73, body: seq![] },
            ),
            BackendView::EmptyQueryResponse => backend_frame(message) == Ok::<_, ProtocolError>(
                FrameView { tag: 0x49, body: seq![] },
            ),
            BackendView::CopyDone => backend_frame(message) == Ok::<_, ProtocolError>(
                FrameView { tag: 0x63, body: seq![] },
            ),
            BackendView::Recognised(frame) => backend_frame(message) == Ok::<_, ProtocolError>(
                frame,
            ),
        },
{
    match message {
        BackendView::RowDescription(fields) => {
            lemma_all_rows(fields);
        },
        BackendView::Authentication(request) => {
            if let AuthenticationView::Sasl { mechanisms } = request {
                lemma_texts(mechanisms);
            }
            if let Ok(frame) = backend_frame(message) {
                assert(frame.body =~= be32(request_parts(request).0) + request_parts(request).1);
            }
        },
        BackendView::ParameterStatus { name, value } => {
            if let Ok(frame) = backend_frame(message) {
                assert(frame.body =~= text(name) + text(value));
            }
        },
        BackendView::NoticeResponse(fields) | BackendView::ErrorResponse(fields) => {
            lemma_all_diagnostics(fields);
        },
        BackendView::NotificationResponse { process_id, channel, payload } => {
            if let Ok(frame) = backend_frame(message) {
                assert(frame.body =~= be32(process_id) + text(channel) + text(payload));
            }
        },
        BackendView::NegotiateProtocolVersion(negotiate) => {
            lemma_texts(negotiate.unsupported_options);
            let code = negotiate.newest.code_spec();
            assert(code / 65536 == negotiate.newest.major && code % 65536 == negotiate.newest.minor);
            if let Ok(frame) = backend_frame(message) {
                assert(frame.body =~= be16(negotiate.newest.major) + be16(negotiate.newest.minor)
                    + be32(negotiate.unsupported_options.len() as u32) + all_texts(
                    negotiate.unsupported_options,
                ));
            }
        },
        BackendView::CommandComplete(tag) => {
            assert(tag.push(0u8) =~= text(tag));
        },
        BackendView::DataRow(columns) => {
            lemma_all_sized(columns);
        },
        BackendView::ParameterDescription(types) => {
            lemma_all_long(types);
        },
        BackendView::CopyInResponse(copy)
        | BackendView::CopyOutResponse(copy)
        | BackendView::CopyBothResponse(copy) => {
            lemma_all_short(copy.column_formats);
            if let Ok(frame) = backend_frame(message) {
                assert(frame.body =~= seq![copy.overall_format] + count(copy.column_formats.len())
                    + all_short(copy.column_formats));
            }
        },
        _ => {},
    }
}

/// A frame is its tag, its length with the length's own four octets, and its body.
pub proof fn law_frame_layout(frame: FrameView)
    requires
        frame.body.len() + 4 <= 0xffff_ffff,
    ensures
        frame_octets(frame).len() == frame.body.len() + 5,
        frame_octets(frame)[0] == frame.tag,
        number(frame_octets(frame).subrange(1, 5)) == frame.body.len() + 4,
        frame_octets(frame).skip(5) == frame.body,
{
    let length = (frame.body.len() + 4) as u32;
    law_network_order(0, length, 0, seq![]);
    assert(frame_octets(frame).subrange(1, 5) =~= be32(length));
    assert(frame_octets(frame).skip(5) =~= frame.body);
}

/// Why something cannot be written: a text that holds a NUL octet, a list that is too
/// long for its count, a value that is too long for its length. Of two parts the first
/// that cannot be written tells why.
pub proof fn law_encoding_errors(value: Seq<u8>, items: Seq<u32>, first: Put, second: Put)
    ensures
        value.contains(0u8) <==> put_cstr(value) == Err::<Seq<u8>, _>(ProtocolError::NulInString),
        items.len() > 65535 <==> put_counted(u32_octets(), items) == Err::<Seq<u8>, _>(
            ProtocolError::CountExceedsU16,
        ),
        value.len() > 0x7fff_ffff <==> put_nullable(Some(value)) == Err::<Seq<u8>, _>(
            ProtocolError::ParameterTooLarge,
        ),
        put_nullable(None) is Ok,
        first is Err ==> joined(first, second) == first,
        first is Ok && second is Err ==> joined(first, second) == second,
        first is Ok && second is Ok ==> joined(first, second) == Ok::<_, ProtocolError>(
            first->Ok_0 + second->Ok_0,
        ),
{
    lemma_all_long(items);
}

/// Why something cannot be read: too few octets are left, a text has no NUL octet, a
/// length is negative but not that of a null, or something is left over.
pub proof fn law_decoding_errors<T>(source: Seq<u8>, wanted: nat, value: T)
    ensures
        source.len() < 1 <==> take_u8(source) == Err::<(u8, Seq<u8>), _>(
            ProtocolError::TruncatedBody,
        ),
        source.len() < 2 <==> take_u16(source) == Err::<(u16, Seq<u8>), _>(
            ProtocolError::TruncatedBody,
        ),
        source.len() < 4 <==> take_u32(source) == Err::<(u32, Seq<u8>), _>(
            ProtocolError::TruncatedBody,
        ),
        source.len() < wanted <==> take_octets(source, wanted) == Err::<(Seq<u8>, Seq<u8>), _>(
            ProtocolError::TruncatedBody,
        ),
        !source.contains(0u8) <==> take_cstr(source) == Err::<(Seq<u8>, Seq<u8>), _>(
            ProtocolError::UnterminatedString,
        ),
        source.len() >= 4 ==> {
            let length = number(source.take(4)) as int;
            &&& length == 0xffff_ffff <==> take_nullable(source) == Ok::<_, ProtocolError>(
                (None::<Seq<u8>>, source.skip(4)),
            )
            &&& 0x7fff_ffff < length < 0xffff_ffff <==> take_nullable(source) == Err::<
                (Option<Seq<u8>>, Seq<u8>),
                _,
            >(ProtocolError::NegativeParameterLength)
            &&& length <= 0x7fff_ffff && source.len() < length + 4 <==> take_nullable(source)
                == Err::<(Option<Seq<u8>>, Seq<u8>), _>(ProtocolError::TruncatedBody)
            &&& length <= 0x7fff_ffff && source.len() >= length + 4 ==> take_nullable(source)
                == Ok::<_, ProtocolError>(
                (Some(source.subrange(4, length + 4)), source.skip(length + 4)),
            )
        },
        source.len() > 0 ==> whole(Ok::<_, ProtocolError>((value, source))) == Err::<T, _>(
            ProtocolError::TrailingBytes,
        ),
        source.len() == 0 ==> whole(Ok::<_, ProtocolError>((value, source))) == Ok::<
            _,
            ProtocolError,
        >(value),
{
    source.index_of_first_ensures(0u8);
    law_network_order(0, 0, 0, source);
    if source.len() >= 4 {
        let length = number(source.take(4)) as int;
        let rest = source.skip(4);
        if length <= 0x7fff_ffff && source.len() >= length + 4 {
            assert(rest.take(length) =~= source.subrange(4, length + 4));
            assert(rest.skip(length) =~= source.skip(length + 4));
        }
    }
}

/// A count says how many items follow; each is read where the one before it ends.
pub proof fn law_lists_are_read_in_order<T>(item: spec_fn(Seq<u8>) -> Taken<T>, source: Seq<u8>, items: nat)
    ensures
        take_counted(item, source) == if source.len() < 2 {
            Err(ProtocolError::TruncatedBody)
        } else {
            take_many(item, number(source.take(2)), source.skip(2))
        },
        take_many(item, 0, source) == Ok::<_, ProtocolError>((Seq::<T>::empty(), source)),
        items > 0 && item(source) is Err ==> take_many(item, items, source) is Err,
        items > 0 && item(source) is Ok ==> {
            let (first, rest) = item(source)->Ok_0;
            let others = take_many(item, (items - 1) as nat, rest);
            &&& others is Err ==> take_many(item, items, source) == others
            &&& others is Ok ==> take_many(item, items, source) == Ok::<_, ProtocolError>(
                (seq![first] + others->Ok_0.0, others->Ok_0.1),
            )
        },
{
    law_network_order(0, 0, 0, source);
}

/// The octets that tell what is described, and how a transaction stands.
pub proof fn law_octets_of_choices(octet: u8)
    ensures
        target_of(octet) == Some(DescribeTarget::Statement) <==> octet == 0x53,
        target_of(octet) == Some(DescribeTarget::Portal) <==> octet == 0x50,
        status_of(octet) == Some(TransactionStatus::Idle) <==> octet == 0x49,
        status_of(octet) == Some(TransactionStatus::InTransaction) <==> octet == 0x54,
        status_of(octet) == Some(TransactionStatus::FailedTransaction) <==> octet == 0x45,
{
}

/// Which tags a frontend may send, and which frames are kept as they are until their
/// phase is known. Any other tag is refused.
pub proof fn law_frontend_tags(frame: FrameView)
    ensures
        frontend_decoded(frame) matches Ok(FrontendView::Recognised(kept)) ==> kept == frame,
        ({
            let tag = frame.tag;
            let kept = tag == 0x43 || tag == 0x45 || tag == 0x46 || tag == 0x48 || tag == 0x51 || tag
                == 0x53 || tag == 0x58 || tag == 0x63 || tag == 0x64 || tag == 0x66 || tag == 0x70;
            let known = kept || tag == 0x50 || tag == 0x42 || tag == 0x44;
            &&& kept <==> frontend_decoded(frame) is Ok && frontend_decoded(frame)->Ok_0 is Recognised
            &&& !known ==> frontend_decoded(frame) == Err::<FrontendView, _>(
                ProtocolError::UnknownTag { side: Side::Frontend, tag },
            )
            &&& !known ==> frontend_message(frame) == Err::<FrontendView, _>(
                ProtocolError::UnknownTag { side: Side::Frontend, tag },
            )
        }),
{
}

/// Which tags a backend may send, and which frames are kept as they are until their
/// phase is known. Any other tag is refused.
pub proof fn law_backend_tags(frame: FrameView)
    ensures
        backend_decoded(frame) matches Ok(BackendView::Recognised(kept)) ==> kept == frame,
        ({
            let tag = frame.tag;
            let kept = tag == 0x31 || tag == 0x32 || tag == 0x33 || tag == 0x63 || tag == 0x43 || tag
                == 0x64 || tag == 0x44 || tag == 0x45 || tag == 0x47 || tag == 0x48 || tag == 0x49
                || tag == 0x6e || tag == 0x73 || tag == 0x74 || tag == 0x56 || tag == 0x57;
            let known = kept || tag == 0x54 || tag == 0x52 || tag == 0x53 || tag == 0x4e || tag
                == 0x41 || tag == 0x4b || tag == 0x5a || tag == 0x76;
            &&& kept <==> backend_decoded(frame) is Ok && backend_decoded(frame)->Ok_0 is Recognised
            &&& !known ==> backend_decoded(frame) == Err::<BackendView, _>(
                ProtocolError::UnknownTag { side: Side::Backend, tag },
            )
            &&& !known ==> backend_message(frame) == Err::<BackendView, _>(
                ProtocolError::UnknownTag { side: Side::Backend, tag },
            )
        }),
{
}

/// What a frontend message says is what its fields hold, field by field.
pub proof fn law_frontend_messages_say_their_fields(message: FrontendMessage)
    ensures
        match message {
            FrontendMessage::Parse(parse) => message@ == FrontendView::Parse(
                ParseView {
                    statement: octets(parse.statement),
                    query: octets(parse.query),
                    parameter_types: parse.parameter_types@,
                },
            ),
            FrontendMessage::Bind(bind) => message@ == FrontendView::Bind(
                BindView {
                    portal: octets(bind.portal),
                    statement: octets(bind.statement),
                    parameter_formats: bind.parameter_formats@,
                    parameters: nullables(bind.parameters@),
                    result_formats: bind.result_formats@,
                },
            ),
            FrontendMessage::Describe(describe) => message@ == FrontendView::Describe(
                NamedView { target: describe.target, name: octets(describe.name) },
            ),
            FrontendMessage::Close(close) => message@ == FrontendView::Close(
                NamedView { target: close.target, name: octets(close.name) },
            ),
            FrontendMessage::Execute(execute) => message@ == FrontendView::Execute(
                ExecuteView { portal: octets(execute.portal), max_rows: execute.max_rows },
            ),
            FrontendMessage::FunctionCall(call) => message@ == FrontendView::FunctionCall(
                FunctionCallView {
                    function: call.function,
                    argument_formats: call.argument_formats@,
                    arguments: nullables(call.arguments@),
                    result_format: call.result_format,
                },
            ),
            FrontendMessage::Query(query) => message@ == FrontendView::Query(octets(query)),
            FrontendMessage::CopyData(data) => message@ == FrontendView::CopyData(octets(data)),
            FrontendMessage::CopyFail(reason) => message@ == FrontendView::CopyFail(
                octets(reason),
            ),
            FrontendMessage::PasswordResponse(data) => message@ == FrontendView::PasswordResponse(
                octets(data),
            ),
            FrontendMessage::CopyDone => message@ == FrontendView::CopyDone,
            FrontendMessage::Flush => message@ == FrontendView::Flush,
            FrontendMessage::Sync => message@ == FrontendView::Sync,
            FrontendMessage::Terminate => message@ == FrontendView::Terminate,
            FrontendMessage::Recognised(frame) => message@ == FrontendView::Recognised(
                FrameView { tag: frame.tag, body: octets(frame.body) },
            ),
        },
{
}

/// What a backend message says is what its fields hold, field by field.
pub proof fn law_backend_messages_say_their_fields(message: BackendMessage, at: int)
    ensures
        match message {
            BackendMessage::RowDescription(row) => message@ matches BackendView::RowDescription(
                fields,
            ) && fields.len() == row.fields@.len() && (0 <= at < fields.len() ==> fields[at] == (
            FieldDescriptionView {
                name: octets(row.fields@[at].name),
                table_oid: row.fields@[at].table_oid,
                column: row.fields@[at].column,
                type_oid: row.fields@[at].type_oid,
                type_size: row.fields@[at].type_size,
                type_modifier: row.fields@[at].type_modifier,
                format: row.fields@[at].format,
            })),
            BackendMessage::NoticeResponse(notice) => message@ matches BackendView::NoticeResponse(
                fields,
            ) && fields.len() == notice.fields@.len() && (0 <= at < fields.len() ==> fields[at]
                == (DiagnosticFieldView {
                code: notice.fields@[at].code,
                value: octets(notice.fields@[at].value),
            })),
            BackendMessage::ErrorResponse(error) => message@ matches BackendView::ErrorResponse(
                fields,
            ) && fields.len() == error.fields@.len() && (0 <= at < fields.len() ==> fields[at] == (
            DiagnosticFieldView {
                code: error.fields@[at].code,
                value: octets(error.fields@[at].value),
            })),
            BackendMessage::ParameterStatus { name, value } => message@ == (
            BackendView::ParameterStatus { name: octets(name), value: octets(value) }),
            BackendMessage::NotificationResponse { process_id, channel, payload } => message@ == (
            BackendView::NotificationResponse {
                process_id,
                channel: octets(channel),
                payload: octets(payload),
            }),
            BackendMessage::BackendKeyData { process_id, secret_key } => message@ == (
            BackendView::BackendKeyData { process_id, secret_key: octets(secret_key) }),
            BackendMessage::ReadyForQuery(status) => message@ == BackendView::ReadyForQuery(status),
            BackendMessage::NegotiateProtocolVersion(negotiate) => message@
                == BackendView::NegotiateProtocolVersion(
                NegotiateView {
                    newest: negotiate.newest,
                    unsupported_options: texts(negotiate.unsupported_options@),
                },
            ),
            BackendMessage::CommandComplete(tag) => message@ == BackendView::CommandComplete(
                octets(tag),
            ),
            BackendMessage::DataRow(row) => message@ == BackendView::DataRow(
                nullables(row.columns@),
            ),
            BackendMessage::ParameterDescription(types) => message@
                == BackendView::ParameterDescription(types@),
            BackendMessage::FunctionCallResponse(data) => message@
                == BackendView::FunctionCallResponse(octets(data)),
            BackendMessage::CopyInResponse(copy) => message@ == BackendView::CopyInResponse(
                CopyResponseView {
                    overall_format: copy.overall_format,
                    column_formats: copy.column_formats@,
                },
            ),
            BackendMessage::CopyOutResponse(copy) => message@ == BackendView::CopyOutResponse(
                CopyResponseView {
                    overall_format: copy.overall_format,
                    column_formats: copy.column_formats@,
                },
            ),
            BackendMessage::CopyBothResponse(copy) => message@ == BackendView::CopyBothResponse(
                CopyResponseView {
                    overall_format: copy.overall_format,
                    column_formats: copy.column_formats@,
                },
            ),
            BackendMessage::CopyData(data) => message@ == BackendView::CopyData(octets(data)),
            BackendMessage::OpaqueNotice(body) => message@ == BackendView::OpaqueNotice(
                octets(body),
            ),
            BackendMessage::ParseComplete => message@ == BackendView::ParseComplete,
            BackendMessage::BindComplete => message@ == BackendView::BindComplete,
            BackendMessage::CloseComplete => message@ == BackendView::CloseComplete,
            BackendMessage::NoData => message@ == BackendView::NoData,
            BackendMessage::PortalSuspended => message@ == BackendView::PortalSuspended,
            BackendMessage::EmptyQueryResponse => message@ == BackendView::EmptyQueryResponse,
            BackendMessage::CopyDone => message@ == BackendView::CopyDone,
            BackendMessage::Recognised(frame) => message@ == BackendView::Recognised(
                FrameView { tag: frame.tag, body: octets(frame.body) },
            ),
            BackendMessage::Authentication(request) => message@ == BackendView::Authentication(
                match request {
                    Authentication::Accepted => AuthenticationView::Accepted,
                    Authentication::KerberosV5 => AuthenticationView::KerberosV5,
                    Authentication::CleartextPassword => AuthenticationView::CleartextPassword,
                    Authentication::Md5Password { salt } => AuthenticationView::Md5Password {
                        salt: salt@,
                    },
                    Authentication::Gss => AuthenticationView::Gss,
                    Authentication::GssContinue(data) => AuthenticationView::GssContinue(
                        octets(data),
                    ),
                    Authentication::Sspi => AuthenticationView::Sspi,
                    Authentication::Sasl { mechanisms } => AuthenticationView::Sasl {
                        mechanisms: texts(mechanisms@),
                    },
                    Authentication::SaslContinue(data) => AuthenticationView::SaslContinue(
                        octets(data),
                    ),
                    Authentication::SaslFinal(data) => AuthenticationView::SaslFinal(octets(data)),
                },
            ),
        },
{
}

/// Lists of texts and of values say what their items hold, in order.
pub proof fn law_lists_say_their_items(items: Seq<Bytes>, values: Seq<Option<Bytes>>, at: int)
    ensures
        texts(items).len() == items.len(),
        0 <= at < items.len() ==> texts(items)[at] == octets(items[at]),
        nullables(values).len() == values.len(),
        0 <= at < values.len() ==> nullables(values)[at] == match values[at] {
            Some(value) => Some(octets(value)),
            None => None,
        },
{
}

/// A frame that a client decodes is written again octet for octet, and so is one that a
/// server decodes, both as decoded and as understood.
pub proof fn law_decoded_frames_are_written_again(
    frame: Frame,
    received: (BackendMessage, Result<BackendMessage, ProtocolError>, Result<Frame, ProtocolError>),
    requested: (
        FrontendMessage,
        Result<FrontendMessage, ProtocolError>,
        Result<Frame, ProtocolError>,
    ),
)
    requires
        call_ensures(
            Backend::decode,
            (frame,),
            Ok::<BackendMessage, ProtocolError>(received.0),
        ),
        call_ensures(BackendMessage::lift, (received.0,), received.1),
        received.1 matches Ok(lifted) ==> call_ensures(
            BackendMessage::to_frame,
            (&lifted,),
            received.2,
        ),
        call_ensures(
            Frontend::decode,
            (frame,),
            Ok::<FrontendMessage, ProtocolError>(requested.0),
        ),
        call_ensures(FrontendMessage::lift, (requested.0,), requested.1),
        requested.1 matches Ok(lifted) ==> call_ensures(
            FrontendMessage::to_frame,
            (&lifted,),
            requested.2,
        ),
    ensures
        received.1 is Ok ==> (received.2 matches Ok(again) && again@ == frame@),
        requested.1 is Ok ==> (requested.2 matches Ok(again) && again@ == frame@),
{
    law_backend_lossless(frame@);
    law_frontend_lossless(frame@);
}

} // verus!
