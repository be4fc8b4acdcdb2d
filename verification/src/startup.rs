//! Startup packets.

use bytes::Bytes;
use vstd::prelude::*;

use crate::codec::backend::{pair_body, take_pair};
use crate::codec::layout::{law_network_order, lemma_put_all_flattens, no_nul, number, text};
use crate::error::ProtocolError;
use crate::lists::{
    lemma_followed, lemma_until_nul_reads_back, put_until_nul, starts_non_nul, take_until_nul,
};
use crate::octet_map::{text_list, text_map, OctetMap};
use crate::octets::{advance, as_slice, from_vec, octets};
use crate::wire::{
    append, be16, be32, followed, lemma_be32, lemma_cstr, lemma_put_all_error, lemma_put_all_step,
    lemma_regroup, lemma_taken_cstr, of32, put_all, read_cstr, read_end, u32_at, whole, write_cstr,
    write_u32, Put, Taken,
};

verus! {

/// A protocol version as negotiated at startup.
#[derive(Clone, Copy, Debug, PartialEq, Eq, Structural)]
pub struct ProtocolVersion {
    pub major: u16,
    pub minor: u16,
}

impl ProtocolVersion {
    /// Version 3.0, spoken by every supported server.
    pub fn v3_0() -> (version: ProtocolVersion)
        ensures
            version.major == 3,
            version.minor == 0,
    {
        ProtocolVersion { major: 3, minor: 0 }
    }

    /// Version 3.2, with variable-length cancellation keys.
    pub fn v3_2() -> (version: ProtocolVersion)
        ensures
            version.major == 3,
            version.minor == 2,
    {
        ProtocolVersion { major: 3, minor: 2 }
    }

    /// The 32-bit code that announces this version.
    pub open spec fn code_spec(self) -> u32 {
        (self.major * 65536 + self.minor) as u32
    }

    /// The version that a 32-bit code announces.
    pub open spec fn of_code(code: u32) -> ProtocolVersion {
        ProtocolVersion { major: (code / 65536) as u16, minor: (code % 65536) as u16 }
    }

    /// The 32-bit code that announces this version.
    pub fn code(self) -> (code: u32)
        ensures
            code == self.code_spec(),
    {
        self.major as u32 * 65536 + self.minor as u32
    }

    /// The version that a 32-bit code announces.
    pub fn from_code(code: u32) -> (version: ProtocolVersion)
        ensures
            version == ProtocolVersion::of_code(code),
    {
        ProtocolVersion { major: (code / 65536) as u16, minor: (code % 65536) as u16 }
    }
}

/// A version and its code determine each other.
pub proof fn law_version_code(version: ProtocolVersion, code: u32)
    ensures
        ProtocolVersion::of_code(version.code_spec()) == version,
        ProtocolVersion::of_code(code).code_spec() == code,
{
}

/// Startup version and parameters.
#[derive(Clone, Debug, PartialEq, Eq)]
pub struct StartupMessage {
    pub version: ProtocolVersion,
    pub parameters: OctetMap<Bytes>,
}

/// What a startup message says.
#[verifier::ext_equal]
pub struct StartupView {
    pub version: ProtocolVersion,
    pub parameters: Map<Seq<u8>, Seq<u8>>,
}

impl View for StartupMessage {
    type V = StartupView;

    open spec fn view(&self) -> StartupView {
        StartupView { version: self.version, parameters: text_map(self.parameters@) }
    }
}

/// A parameter as written: its name, which is not empty, and its value.
pub open spec fn put_parameter(parameter: (Seq<u8>, Seq<u8>)) -> Put {
    if parameter.0.len() == 0 {
        Err(ProtocolError::EmptyParameterName)
    } else {
        pair_body(parameter.0, parameter.1)
    }
}

pub open spec fn parameter_octets() -> spec_fn((Seq<u8>, Seq<u8>)) -> Put {
    |parameter: (Seq<u8>, Seq<u8>)| put_parameter(parameter)
}

pub open spec fn parameter_field() -> spec_fn(Seq<u8>) -> Taken<(Seq<u8>, Seq<u8>)> {
    |source: Seq<u8>| take_pair(source)
}

/// The packet that announces a version and parameters: its length, the version
/// code, and the parameters up to a NUL octet.
pub open spec fn startup_packet(
    version: ProtocolVersion,
    parameters: Seq<(Seq<u8>, Seq<u8>)>,
) -> Put {
    match put_until_nul(parameter_octets(), parameters) {
        Err(error) => Err(error),
        Ok(list) => if list.len() + 8 > i32::MAX {
            Err(ProtocolError::FrameTooLarge)
        } else {
            Ok(be32((list.len() + 8) as u32) + be32(version.code_spec()) + list)
        },
    }
}

/// The version and the parameters, in wire order, of a packet.
pub open spec fn startup_of(packet: Seq<u8>) -> Result<
    (ProtocolVersion, Seq<(Seq<u8>, Seq<u8>)>),
    ProtocolError,
> {
    if packet.len() < 8 {
        Err(ProtocolError::TruncatedBody)
    } else if of32(packet) != packet.len() {
        Err(ProtocolError::StartupLength)
    } else {
        match whole(take_until_nul(parameter_field(), packet.skip(8))) {
            Ok(parameters) => Ok((ProtocolVersion::of_code(of32(packet.skip(4))), parameters)),
            Err(error) => Err(error),
        }
    }
}

/// The parameters as a map. Of parameters with one name, the last counts.
pub open spec fn collected(parameters: Seq<(Seq<u8>, Seq<u8>)>) -> Map<Seq<u8>, Seq<u8>>
    decreases parameters.len(),
{
    if parameters.len() == 0 {
        Map::empty()
    } else {
        collected(parameters.drop_last()).insert(parameters.last().0, parameters.last().1)
    }
}

/// A startup packet is read back as the version and parameters it announces.
pub proof fn law_startup_round_trip(
    version: ProtocolVersion,
    parameters: Seq<(Seq<u8>, Seq<u8>)>,
)
    requires
        startup_packet(version, parameters) is Ok,
    ensures
        startup_of(startup_packet(version, parameters)->Ok_0) == Ok::<_, ProtocolError>(
            (version, parameters),
        ),
{
    let put = parameter_octets();
    let take = parameter_field();
    let none = Seq::<u8>::empty();
    let list = put_until_nul(put, parameters)->Ok_0;
    let packet = startup_packet(version, parameters)->Ok_0;
    let length = be32((list.len() + 8) as u32);
    let code = be32(version.code_spec());
    assert forall|i: int, more: Seq<u8>|
        0 <= i < parameters.len() && put(parameters[i]) is Ok implies #[trigger] take(
        put(parameters[i])->Ok_0 + more,
    ) == Ok::<_, ProtocolError>((parameters[i], more)) by {
        let (name, value) = parameters[i];
        lemma_cstr(name, value.push(0u8) + more);
        lemma_cstr(value, more);
        lemma_regroup(name.push(0u8), value.push(0u8), more);
    }
    assert forall|i: int| 0 <= i < parameters.len() implies starts_non_nul(
        #[trigger] put(parameters[i]),
    ) by {
        let name = parameters[i].0;
        if put(parameters[i]) is Ok {
            assert(name.contains(name[0]));
        }
    }
    lemma_until_nul_reads_back(put, take, parameters, none);
    assert(list + none =~= list);
    lemma_be32((list.len() + 8) as u32, code + list);
    lemma_be32(version.code_spec(), list);
    lemma_regroup(length, code, list);
    assert(packet.skip(4) =~= code + list);
    assert(packet.skip(8) =~= list);
    law_version_code(version, 0);
}

/// Parameters with distinct names are collected as they are listed.
pub proof fn law_collected_parameters(parameters: Seq<(Seq<u8>, Seq<u8>)>)
    requires
        forall|i: int, j: int|
            0 <= i < j < parameters.len() ==> (#[trigger] parameters[i]).0 != (
            #[trigger] parameters[j]).0,
    ensures
        forall|i: int|
            0 <= i < parameters.len() ==> collected(parameters).dom().contains(
                (#[trigger] parameters[i]).0,
            ) && collected(parameters)[parameters[i].0] == parameters[i].1,
        forall|name: Seq<u8>| #[trigger]
            collected(parameters).dom().contains(name) ==> exists|i: int|
                0 <= i < parameters.len() && (#[trigger] parameters[i]).0 == name,
    decreases parameters.len(),
{
    if parameters.len() > 0 {
        let front = parameters.drop_last();
        law_collected_parameters(front);
        assert forall|i: int| 0 <= i < parameters.len() implies collected(
            parameters,
        ).dom().contains((#[trigger] parameters[i]).0) && collected(parameters)[parameters[i].0]
            == parameters[i].1 by {
            if i < front.len() {
                assert(front[i] == parameters[i]);
                assert(parameters[i].0 != parameters[parameters.len() - 1].0);
            }
        }
        assert forall|name: Seq<u8>| #[trigger]
            collected(parameters).dom().contains(name) implies exists|i: int|
            0 <= i < parameters.len() && (#[trigger] parameters[i]).0 == name by {
            if name == parameters.last().0 {
                assert(parameters[parameters.len() - 1].0 == name);
            } else {
                assert(collected(front).dom().contains(name));
                let i = choose|i: int| 0 <= i < front.len() && (#[trigger] front[i]).0 == name;
                assert(parameters[i].0 == name);
            }
        }
    }
}

impl StartupMessage {
    /// Encodes the complete packet.
    ///
    /// # Errors
    ///
    /// Returns an error for an empty name, a NUL-containing string, or a packet
    /// whose length exceeds the signed 32-bit range.
    #[verifier::loop_isolation(false)]
    pub fn encode(&self) -> (result: Result<Bytes, ProtocolError>)
        ensures
            match result {
                Ok(packet) => startup_packet(
                    self.version,
                    text_list(self.parameters.listed()),
                ) == Ok::<_, ProtocolError>(octets(packet)),
                Err(error) => startup_packet(
                    self.version,
                    text_list(self.parameters.listed()),
                ) == Err::<Seq<u8>, _>(error),
            },
    {
        let ghost all = text_list(self.parameters.listed());
        let mut list: Vec<u8> = Vec::new();
        let count: usize = self.parameters.len();
        let mut done: usize = 0;
        assert(all.take(0) =~= Seq::empty());
        assert(list@ =~= Seq::empty());
        while done < count
            invariant
                done <= count,
                put_all(parameter_octets(), all.take(done as int)) == Ok::<_, ProtocolError>(
                    list@,
                ),
            decreases count - done,
        {
            let ghost written = list@;
            proof {
                lemma_put_all_step(parameter_octets(), all, done as int);
                if put_parameter(all[done as int]) is Err {
                    lemma_put_all_error(parameter_octets(), all, done as int + 1);
                }
            }
            let name = as_slice(self.parameters.key_at(done));
            let value = as_slice(self.parameters.value_at(done));
            if name.len() == 0 {
                return Err(ProtocolError::EmptyParameterName);
            }
            write_cstr(&mut list, name)?;
            write_cstr(&mut list, value)?;
            assert(list@ =~= written + put_parameter(all[done as int])->Ok_0);
            done = done + 1;
        }
        assert(all.take(all.len() as int) =~= all);
        list.push(0);
        assert(list@ =~= put_all(parameter_octets(), all)->Ok_0 + seq![0u8]);
        if list.len() as u64 > i32::MAX as u64 - 8 {
            return Err(ProtocolError::FrameTooLarge);
        }
        let mut packet: Vec<u8> = Vec::new();
        write_u32(&mut packet, list.len() as u32 + 8);
        write_u32(&mut packet, self.version.code());
        append(&mut packet, list.as_slice());
        assert(packet@ =~= be32((list@.len() + 8) as u32) + be32(self.version.code_spec()) + list@);
        Ok(from_vec(packet))
    }

    /// Decodes a complete packet, including its length.
    ///
    /// # Errors
    ///
    /// Returns an error for a wrong length or a malformed parameter list.
    #[verifier::loop_isolation(false)]
    pub fn decode(packet: Bytes) -> (result: Result<StartupMessage, ProtocolError>)
        ensures
            match result {
                Ok(message) => startup_of(octets(packet)) matches Ok((version, parameters))
                    && message@ == (StartupView { version, parameters: collected(parameters) }),
                Err(error) => startup_of(octets(packet)) == Err::<
                    (ProtocolVersion, Seq<(Seq<u8>, Seq<u8>)>),
                    _,
                >(error),
            },
    {
        let slice = as_slice(&packet);
        if slice.len() < 8 {
            return Err(ProtocolError::TruncatedBody);
        }
        let length: u32 = u32_at(slice, 0);
        assert(slice@.skip(0) =~= slice@);
        if length as u64 != slice.len() as u64 {
            return Err(ProtocolError::StartupLength);
        }
        let code: u32 = u32_at(slice, 4);
        let mut body = packet;
        advance(&mut body, 8);
        let ghost source = octets(body);
        let ghost mut pairs: Seq<(Seq<u8>, Seq<u8>)> = Seq::empty();
        let mut parameters: OctetMap<Bytes> = OctetMap::new();
        assert(text_map(parameters@) =~= Map::empty());
        proof {
            if let Ok((all, rest)) = take_until_nul(parameter_field(), source) {
                assert(Seq::<(Seq<u8>, Seq<u8>)>::empty() + all =~= all);
            }
        }
        while as_slice(&body).len() > 0 && as_slice(&body)[0] != 0
            invariant
                text_map(parameters@) == collected(pairs),
                take_until_nul(parameter_field(), source) == followed(
                    pairs,
                    take_until_nul(parameter_field(), octets(body)),
                ),
            decreases octets(body).len(),
        {
            let ghost before = octets(body);
            proof {
                lemma_taken_cstr(octets(body));
            }
            let name = read_cstr(&mut body)?;
            proof {
                lemma_taken_cstr(octets(body));
            }
            let value = read_cstr(&mut body)?;
            let ghost pair = (octets(name), octets(value));
            let ghost held = parameters@;
            parameters.insert(name, value);
            proof {
                lemma_followed(pairs, pair, take_until_nul(parameter_field(), octets(body)));
                assert(pairs.push(pair).drop_last() =~= pairs);
                pairs = pairs.push(pair);
                assert(text_map(parameters@) =~= collected(pairs));
            }
        }
        if as_slice(&body).len() == 0 {
            return Err(ProtocolError::TruncatedBody);
        }
        advance(&mut body, 1);
        assert(pairs + Seq::empty() =~= pairs);
        read_end(&body)?;
        Ok(StartupMessage { version: ProtocolVersion::from_code(code), parameters })
    }
}

/// Parameters, one after the other: a name and a value each, with a NUL octet behind
/// either.
pub open spec fn all_parameters(parameters: Seq<(Seq<u8>, Seq<u8>)>) -> Seq<u8> {
    parameters.flat_map(
        |parameter: (Seq<u8>, Seq<u8>)| text(parameter.0) + text(parameter.1),
    )
}

/// A startup packet is its own length in four octets, the major and the minor version
/// in two each, the parameters, and a NUL octet. A name may not be empty, and neither a
/// name nor a value may hold a NUL octet.
pub proof fn law_startup_layout(version: ProtocolVersion, parameters: Seq<(Seq<u8>, Seq<u8>)>)
    ensures
        startup_packet(version, parameters) is Ok <==> (forall|i: int|
            0 <= i < parameters.len() ==> (#[trigger] parameters[i]).0.len() > 0 && no_nul(
                parameters[i].0,
            ) && no_nul(parameters[i].1)) && all_parameters(parameters).len() + 9 <= 0x7fff_ffff,
        startup_packet(version, parameters) matches Ok(packet) ==> {
            &&& number(packet.take(4)) == packet.len()
            &&& number(packet.subrange(4, 6)) == version.major
            &&& number(packet.subrange(6, 8)) == version.minor
            &&& packet.skip(8) == all_parameters(parameters) + seq![0u8]
        },
{
    let form = |parameter: (Seq<u8>, Seq<u8>)| text(parameter.0) + text(parameter.1);
    assert forall|parameter: (Seq<u8>, Seq<u8>)|
        (#[trigger] parameter_octets()(parameter)) is Ok implies parameter_octets()(
        parameter,
    )->Ok_0 == form(parameter) by {
        assert(parameter.0.push(0u8) + parameter.1.push(0u8) =~= form(parameter));
    }
    lemma_put_all_flattens(parameter_octets(), parameters, form);
    let code = version.code_spec();
    assert(code / 65536 == version.major && code % 65536 == version.minor);
    if let Ok(packet) = startup_packet(version, parameters) {
        let list = all_parameters(parameters) + seq![0u8];
        let none = Seq::<u8>::empty();
        law_network_order(version.major, (list.len() + 8) as u32, 0, none);
        law_network_order(version.minor, 0, 0, none);
        assert(packet.take(4) =~= be32((list.len() + 8) as u32));
        assert(packet.subrange(4, 6) =~= be16(version.major));
        assert(packet.subrange(6, 8) =~= be16(version.minor));
        assert(packet.skip(8) =~= list);
    }
}

/// A startup packet is read from where it is written, and only if its length is right
/// and nothing stands behind the NUL octet that ends the parameters.
pub proof fn law_startup_is_read(packet: Seq<u8>)
    ensures
        packet.len() < 8 ==> startup_of(packet) is Err,
        packet.len() >= 8 && number(packet.take(4)) != packet.len() ==> startup_of(packet)
            == Err::<(ProtocolVersion, Seq<(Seq<u8>, Seq<u8>)>), _>(ProtocolError::StartupLength),
        startup_of(packet) matches Ok((version, parameters)) ==> {
            &&& number(packet.take(4)) == packet.len()
            &&& number(packet.subrange(4, 6)) == version.major
            &&& number(packet.subrange(6, 8)) == version.minor
            &&& packet.skip(8) == all_parameters(parameters) + seq![0u8]
            &&& forall|i: int| 0 <= i < parameters.len() ==> (#[trigger] parameters[i]).0.len() > 0
        },
{
    if packet.len() >= 8 {
        law_network_order(0, 0, 0, packet);
        law_network_order(0, 0, 0, packet.skip(4));
        law_network_order(0, 0, 0, packet.skip(4).skip(2));
        assert(packet.skip(4).take(2) =~= packet.subrange(4, 6));
        assert(packet.skip(4).skip(2).take(2) =~= packet.subrange(6, 8));
        lemma_parameters_are_read(packet.skip(8));
        if let Ok((version, parameters)) = startup_of(packet) {
            assert(all_parameters(parameters) + seq![0u8] + Seq::empty() =~= all_parameters(
                parameters,
            ) + seq![0u8]);
            let (items, rest) = take_until_nul(parameter_field(), packet.skip(8))->Ok_0;
            assert(rest =~= Seq::empty());
        }
    }
}

proof fn lemma_parameters_are_read(source: Seq<u8>)
    ensures
        take_until_nul(parameter_field(), source) matches Ok((parameters, rest)) ==> {
            &&& all_parameters(parameters) + seq![0u8] + rest == source
            &&& forall|i: int| 0 <= i < parameters.len() ==> (#[trigger] parameters[i]).0.len() > 0
        },
    decreases source.len(),
{
    let form = |parameter: (Seq<u8>, Seq<u8>)| text(parameter.0) + text(parameter.1);
    if source.len() == 0 {
    } else if source[0] == 0 {
        assert(Seq::<(Seq<u8>, Seq<u8>)>::empty().map_values(form) =~= Seq::empty());
        assert(all_parameters(Seq::empty()) =~= Seq::empty());
        assert(all_parameters(Seq::empty()) + seq![0u8] + source.skip(1) =~= source);
    } else if let Ok((first, after)) = parameter_field()(source) {
        lemma_taken_cstr(source);
        let (name, more) = crate::wire::take_cstr(source)->Ok_0;
        lemma_taken_cstr(more);
        if name.len() == 0 {
            assert((name.push(0u8) + more)[0] == 0);
        }
        lemma_parameters_are_read(after);
        if let Ok((others, rest)) = take_until_nul(parameter_field(), after) {
            let all = seq![first] + others;
            assert(all.map_values(form).first() =~= form(first));
            assert(all.map_values(form).drop_first() =~= others.map_values(form));
            assert(all_parameters(all) == form(first) + all_parameters(others));
            assert(form(first) + all_parameters(others) + seq![0u8] + rest =~= text(first.0) + (
            text(first.1) + (all_parameters(others) + seq![0u8] + rest)));
            assert(text(first.0) =~= name.push(0u8));
            assert(text(first.1) =~= first.1.push(0u8));
        }
    }
}

/// What a startup packet says of a parameter last is what counts.
pub proof fn law_last_parameter_counts(
    parameters: Seq<(Seq<u8>, Seq<u8>)>,
    name: Seq<u8>,
    value: Seq<u8>,
    later: Seq<(Seq<u8>, Seq<u8>)>,
)
    requires
        forall|i: int| 0 <= i < later.len() ==> (#[trigger] later[i]).0 != name,
    ensures
        collected(parameters.push((name, value)) + later).dom().contains(name),
        collected(parameters.push((name, value)) + later)[name] == value,
    decreases later.len(),
{
    let told = parameters.push((name, value));
    if later.len() == 0 {
        assert(told + later =~= told);
        assert(told.drop_last() =~= parameters);
    } else {
        let front = later.drop_last();
        assert forall|i: int| 0 <= i < front.len() implies (#[trigger] front[i]).0 != name by {
            assert(front[i] == later[i]);
        }
        law_last_parameter_counts(parameters, name, value, front);
        assert((told + later).drop_last() =~= told + front);
        assert((told + later).last() == later[later.len() - 1]);
    }
}

/// The code of a version has the major version in its high half and the minor version
/// in its low half.
pub proof fn law_version_halves(version: ProtocolVersion)
    ensures
        version.code_spec() == version.major * 0x1_0000 + version.minor,
{
}

/// What one side writes at startup the other side reads: the version, and of every
/// parameter the value that was written for it.
pub proof fn law_startup_is_understood(
    message: &StartupMessage,
    packet: Bytes,
    result: Result<StartupMessage, ProtocolError>,
)
    requires
        call_ensures(
            StartupMessage::encode,
            (message,),
            Ok::<Bytes, ProtocolError>(packet),
        ),
        call_ensures(StartupMessage::decode, (packet,), result),
    ensures
        result matches Ok(again) && again@.version == message.version && again@.parameters
            == collected(text_list(message.parameters.listed())),
{
    law_startup_round_trip(message.version, text_list(message.parameters.listed()));
}

} // verus!
