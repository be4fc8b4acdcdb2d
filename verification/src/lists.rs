//! Lists of fields: counted, of known length, and ended by a NUL octet.

use bytes::Bytes;
use vstd::prelude::*;

use crate::error::ProtocolError;
use crate::octets::{as_slice, octets};
use crate::wire::{
    be16, be32, followed, i16_field, i16_octets, joined, lemma_put_all_error, lemma_put_all_step,
    nullable, nullable_field, nullable_octets, put_all, put_counted, read_cstr, read_i16,
    read_nullable, read_u16, read_u32, take_counted, take_many, u32_field, u32_octets, write_count,
    write_cstr, write_nullable, write_u16, write_u32, cstr_field, cstr_octets, Put, Taken,
    lemma_put_all_cons, lemma_put_all_head,
};

verus! {

/// The octets of each element.
pub open spec fn texts(items: Seq<Bytes>) -> Seq<Seq<u8>> {
    Seq::new(items.len(), |i: int| octets(items[i]))
}

/// The octets of each element that is present.
pub open spec fn nullables(items: Seq<Option<Bytes>>) -> Seq<Option<Seq<u8>>> {
    Seq::new(items.len(), |i: int| nullable(items[i]))
}

/// Reads items up to and including a NUL octet in place of an item. An item
/// takes at least one octet.
pub open spec fn take_until_nul<T>(
    item: spec_fn(Seq<u8>) -> Taken<T>,
    source: Seq<u8>,
) -> Taken<Seq<T>>
    decreases source.len(),
{
    if source.len() == 0 {
        Err(ProtocolError::TruncatedBody)
    } else if source[0] == 0 {
        Ok((Seq::empty(), source.skip(1)))
    } else {
        match item(source) {
            Err(error) => Err(error),
            Ok((value, rest)) => if rest.len() < source.len() {
                followed(seq![value], take_until_nul(item, rest))
            } else {
                Err(ProtocolError::TruncatedBody)
            },
        }
    }
}

/// Writes the items and a NUL octet after them.
pub open spec fn put_until_nul<T>(item: spec_fn(T) -> Put, items: Seq<T>) -> Put {
    joined(put_all(item, items), Ok(seq![0u8]))
}

/// The octets that an item is written as do not begin with NUL.
pub open spec fn starts_non_nul(put: Put) -> bool {
    put matches Ok(written) ==> written.len() > 0 && written[0] != 0
}

/// A NUL-ended list of items none of which starts with NUL is read back as
/// written.
pub proof fn lemma_until_nul_reads_back<T>(
    put: spec_fn(T) -> Put,
    take: spec_fn(Seq<u8>) -> Taken<T>,
    items: Seq<T>,
    rest: Seq<u8>,
)
    requires
        put_until_nul(put, items) is Ok,
        forall|i: int| 0 <= i < items.len() ==> starts_non_nul(#[trigger] put(items[i])),
        forall|i: int, more: Seq<u8>|
            0 <= i < items.len() && put(items[i]) is Ok ==> #[trigger] take(
                put(items[i])->Ok_0 + more,
            ) == Ok::<_, ProtocolError>((items[i], more)),
    ensures
        take_until_nul(take, put_until_nul(put, items)->Ok_0 + rest) == Ok::<_, ProtocolError>(
            (items, rest),
        ),
    decreases items.len(),
{
    let source = put_until_nul(put, items)->Ok_0 + rest;
    if items.len() == 0 {
        assert(source =~= seq![0u8] + rest);
        assert(source.skip(1) =~= rest);
        assert(items =~= Seq::empty());
    } else {
        lemma_put_all_head(put, items);
        let others = items.skip(1);
        let tail = put_until_nul(put, others)->Ok_0 + rest;
        let head = put(items[0])->Ok_0;
        assert(source =~= head + tail);
        assert(starts_non_nul(put(items[0])));
        assert(source[0] == head[0]);
        assert forall|i: int| 0 <= i < others.len() implies starts_non_nul(
            #[trigger] put(others[i]),
        ) by {
            assert(starts_non_nul(put(items[i + 1])));
        }
        assert forall|i: int, more: Seq<u8>|
            0 <= i < others.len() && put(others[i]) is Ok implies #[trigger] take(
            put(others[i])->Ok_0 + more,
        ) == Ok::<_, ProtocolError>((others[i], more)) by {
            assert(others[i] == items[i + 1]);
            assert(take(put(items[i + 1])->Ok_0 + more) == Ok::<_, ProtocolError>(
                (items[i + 1], more),
            ));
        }
        lemma_until_nul_reads_back(put, take, others, rest);
        assert(take(head + tail) == Ok::<_, ProtocolError>((items[0], tail)));
        assert(seq![items[0]] + others =~= items);
    }
}

/// A NUL-ended list that was read is written as the octets that were consumed.
pub proof fn lemma_until_nul_writes_back<T>(
    put: spec_fn(T) -> Put,
    take: spec_fn(Seq<u8>) -> Taken<T>,
    source: Seq<u8>,
)
    requires
        crate::wire::writes_back(put, take),
    ensures
        take_until_nul(take, source) matches Ok((items, rest)) ==> {
            &&& put_until_nul(put, items) is Ok
            &&& put_until_nul(put, items)->Ok_0 + rest == source
        },
    decreases source.len(),
{
    if source.len() == 0 {
    } else if source[0] == 0 {
        assert(Seq::<u8>::empty() + seq![0u8] + source.skip(1) =~= source);
    } else if let Ok((value, rest)) = take(source) {
        if rest.len() < source.len() {
            lemma_until_nul_writes_back(put, take, rest);
            assert(crate::wire::written_as(put, take(source)->Ok_0, source));
            if let Ok((others, end)) = take_until_nul(take, rest) {
                lemma_put_all_cons(put, value, others);
                let list = put_all(put, others)->Ok_0;
                assert(put(value)->Ok_0 + list + seq![0u8] + end =~= put(value)->Ok_0 + (list
                    + seq![0u8] + end));
            }
        }
    }
}

/// Appending to what was read already can be regrouped.
pub proof fn lemma_followed<T>(first: Seq<T>, value: T, more: Taken<Seq<T>>)
    ensures
        followed(first, followed(seq![value], more)) == followed(first.push(value), more),
{
    if let Ok((items, rest)) = more {
        assert(first + (seq![value] + items) =~= first.push(value) + items);
    }
}

/// Reads `count` 32-bit integers.
#[verifier::loop_isolation(false)]
pub(crate) fn read_u32s(body: &mut Bytes, count: u32) -> (result: Result<Vec<u32>, ProtocolError>)
    ensures
        match result {
            Ok(items) => take_many(u32_field(), count as nat, octets(*old(body))) == Ok::<
                _,
                ProtocolError,
            >((items@, octets(*final(body)))),
            Err(error) => take_many(u32_field(), count as nat, octets(*old(body))) == Err::<
                (Seq<u32>, Seq<u8>),
                _,
            >(error),
        },
{
    let ghost source = octets(*body);
    let mut items: Vec<u32> = Vec::new();
    let mut done: u32 = 0;
    while done < count
        invariant
            done <= count,
            take_many(u32_field(), count as nat, source) == followed(
                items@,
                take_many(u32_field(), (count - done) as nat, octets(*body)),
            ),
        decreases count - done,
    {
        let value: u32 = match read_u32(body) {
            Ok(value) => value,
            Err(error) => return Err(error),
        };
        proof {
            lemma_followed(
                items@,
                value,
                take_many(u32_field(), (count - done - 1) as nat, octets(*body)),
            );
        }
        items.push(value);
        done = done + 1;
    }
    assert(items@ + Seq::empty() =~= items@);
    Ok(items)
}

/// Reads a counted list of 16-bit signed integers.
#[verifier::loop_isolation(false)]
pub(crate) fn read_i16s(body: &mut Bytes) -> (result: Result<Vec<i16>, ProtocolError>)
    ensures
        match result {
            Ok(items) => take_counted(i16_field(), octets(*old(body))) == Ok::<_, ProtocolError>(
                (items@, octets(*final(body))),
            ),
            Err(error) => take_counted(i16_field(), octets(*old(body))) == Err::<
                (Seq<i16>, Seq<u8>),
                _,
            >(error),
        },
{
    let count: u16 = match read_u16(body) {
        Ok(count) => count,
        Err(error) => return Err(error),
    };
    let ghost source = octets(*body);
    let mut items: Vec<i16> = Vec::new();
    let mut done: u16 = 0;
    while done < count
        invariant
            done <= count,
            take_many(i16_field(), count as nat, source) == followed(
                items@,
                take_many(i16_field(), (count - done) as nat, octets(*body)),
            ),
        decreases count - done,
    {
        let value: i16 = match read_i16(body) {
            Ok(value) => value,
            Err(error) => return Err(error),
        };
        proof {
            lemma_followed(
                items@,
                value,
                take_many(i16_field(), (count - done - 1) as nat, octets(*body)),
            );
        }
        items.push(value);
        done = done + 1;
    }
    assert(items@ + Seq::empty() =~= items@);
    Ok(items)
}

/// Reads a counted list of nullable values.
#[verifier::loop_isolation(false)]
pub(crate) fn read_nullables(body: &mut Bytes) -> (result: Result<
    Vec<Option<Bytes>>,
    ProtocolError,
>)
    ensures
        match result {
            Ok(items) => take_counted(nullable_field(), octets(*old(body))) == Ok::<
                _,
                ProtocolError,
            >((nullables(items@), octets(*final(body)))),
            Err(error) => take_counted(nullable_field(), octets(*old(body))) == Err::<
                (Seq<Option<Seq<u8>>>, Seq<u8>),
                _,
            >(error),
        },
{
    let count: u16 = match read_u16(body) {
        Ok(count) => count,
        Err(error) => return Err(error),
    };
    let ghost source = octets(*body);
    let mut items: Vec<Option<Bytes>> = Vec::new();
    let mut done: u16 = 0;
    assert(nullables(items@) =~= Seq::empty());
    while done < count
        invariant
            done <= count,
            take_many(nullable_field(), count as nat, source) == followed(
                nullables(items@),
                take_many(nullable_field(), (count - done) as nat, octets(*body)),
            ),
        decreases count - done,
    {
        let value = match read_nullable(body) {
            Ok(value) => value,
            Err(error) => return Err(error),
        };
        proof {
            lemma_followed(
                nullables(items@),
                nullable(value),
                take_many(nullable_field(), (count - done - 1) as nat, octets(*body)),
            );
            assert(nullables(items@.push(value)) =~= nullables(items@).push(nullable(value)));
        }
        items.push(value);
        done = done + 1;
    }
    assert(nullables(items@) + Seq::empty() =~= nullables(items@));
    Ok(items)
}

/// Reads `count` strings.
#[verifier::loop_isolation(false)]
pub(crate) fn read_cstrs(body: &mut Bytes, count: u32) -> (result: Result<
    Vec<Bytes>,
    ProtocolError,
>)
    ensures
        match result {
            Ok(items) => take_many(cstr_field(), count as nat, octets(*old(body))) == Ok::<
                _,
                ProtocolError,
            >((texts(items@), octets(*final(body)))),
            Err(error) => take_many(cstr_field(), count as nat, octets(*old(body))) == Err::<
                (Seq<Seq<u8>>, Seq<u8>),
                _,
            >(error),
        },
{
    let ghost source = octets(*body);
    let mut items: Vec<Bytes> = Vec::new();
    let mut done: u32 = 0;
    assert(texts(items@) =~= Seq::empty());
    while done < count
        invariant
            done <= count,
            take_many(cstr_field(), count as nat, source) == followed(
                texts(items@),
                take_many(cstr_field(), (count - done) as nat, octets(*body)),
            ),
        decreases count - done,
    {
        let value = match read_cstr(body) {
            Ok(value) => value,
            Err(error) => return Err(error),
        };
        proof {
            lemma_followed(
                texts(items@),
                octets(value),
                take_many(cstr_field(), (count - done - 1) as nat, octets(*body)),
            );
            assert(texts(items@.push(value)) =~= texts(items@).push(octets(value)));
        }
        items.push(value);
        done = done + 1;
    }
    assert(texts(items@) + Seq::empty() =~= texts(items@));
    Ok(items)
}

/// Appends 32-bit integers.
pub(crate) fn write_u32s(body: &mut Vec<u8>, items: &Vec<u32>)
    ensures
        joined(Ok(old(body)@), put_all(u32_octets(), items@)) == Ok::<_, ProtocolError>(
            final(body)@,
        ),
{
    let ghost before = body@;
    let mut done: usize = 0;
    assert(items@.take(0) =~= Seq::empty());
    assert(before + Seq::empty() =~= before);
    while done < items.len()
        invariant
            done <= items@.len(),
            joined(Ok(before), put_all(u32_octets(), items@.take(done as int))) == Ok::<
                _,
                ProtocolError,
            >(body@),
        decreases items@.len() - done,
    {
        let ghost written = put_all(u32_octets(), items@.take(done as int))->Ok_0;
        write_u32(body, items[done]);
        proof {
            lemma_put_all_step(u32_octets(), items@, done as int);
            let last = be32(items@[done as int]);
            assert(before + written + last =~= before + (written + last));
        }
        done = done + 1;
    }
    assert(items@.take(items@.len() as int) =~= items@);
}

/// Appends a counted list of 16-bit signed integers.
pub(crate) fn write_i16s(body: &mut Vec<u8>, items: &Vec<i16>) -> (result: Result<
    (),
    ProtocolError,
>)
    ensures
        match result {
            Ok(_) => joined(Ok(old(body)@), put_counted(i16_octets(), items@)) == Ok::<
                _,
                ProtocolError,
            >(final(body)@),
            Err(error) => put_counted(i16_octets(), items@) == Err::<Seq<u8>, _>(error),
        },
{
    let ghost start = body@;
    match write_count(body, items.len()) {
        Ok(_) => {},
        Err(error) => return Err(error),
    }
    let ghost before = body@;
    let mut done: usize = 0;
    assert(items@.take(0) =~= Seq::empty());
    assert(before + Seq::empty() =~= before);
    while done < items.len()
        invariant
            done <= items@.len(),
            joined(Ok(before), put_all(i16_octets(), items@.take(done as int))) == Ok::<
                _,
                ProtocolError,
            >(body@),
        decreases items@.len() - done,
    {
        let ghost written = put_all(i16_octets(), items@.take(done as int))->Ok_0;
        write_u16(body, items[done] as u16);
        proof {
            lemma_put_all_step(i16_octets(), items@, done as int);
            let last = be16(items@[done as int] as u16);
            assert(before + written + last =~= before + (written + last));
        }
        done = done + 1;
    }
    proof {
        assert(items@.take(items@.len() as int) =~= items@);
        let count = be16(items@.len() as u16);
        let list = put_all(i16_octets(), items@)->Ok_0;
        assert(start + count + list =~= start + (count + list));
    }
    Ok(())
}

/// Appends a counted list of nullable values.
pub(crate) fn write_nullables(body: &mut Vec<u8>, items: &Vec<Option<Bytes>>) -> (result: Result<
    (),
    ProtocolError,
>)
    ensures
        match result {
            Ok(_) => joined(
                Ok(old(body)@),
                put_counted(nullable_octets(), nullables(items@)),
            ) == Ok::<_, ProtocolError>(final(body)@),
            Err(error) => put_counted(nullable_octets(), nullables(items@)) == Err::<
                Seq<u8>,
                _,
            >(error),
        },
{
    let ghost start = body@;
    let ghost all = nullables(items@);
    match write_count(body, items.len()) {
        Ok(_) => {},
        Err(error) => return Err(error),
    }
    let ghost before = body@;
    let mut done: usize = 0;
    assert(all.take(0) =~= Seq::empty());
    assert(before + Seq::empty() =~= before);
    while done < items.len()
        invariant
            done <= items@.len(),
            items@.len() <= u16::MAX,
            all == nullables(items@),
            joined(Ok(before), put_all(nullable_octets(), all.take(done as int))) == Ok::<
                _,
                ProtocolError,
            >(body@),
        decreases items@.len() - done,
    {
        let ghost written = put_all(nullable_octets(), all.take(done as int))->Ok_0;
        proof {
            lemma_put_all_step(nullable_octets(), all, done as int);
        }
        match write_nullable(body, &items[done]) {
            Ok(_) => {
                proof {
                    let last = nullable_octets()(all[done as int])->Ok_0;
                    assert(before + written + last =~= before + (written + last));
                }
            },
            Err(error) => {
                proof {
                    lemma_put_all_error(nullable_octets(), all, done as int + 1);
                }
                return Err(error);
            },
        }
        done = done + 1;
    }
    proof {
        assert(all.take(all.len() as int) =~= all);
        let count = be16(items@.len() as u16);
        let list = put_all(nullable_octets(), all)->Ok_0;
        assert(start + count + list =~= start + (count + list));
    }
    Ok(())
}

/// Appends strings.
pub(crate) fn write_cstrs(body: &mut Vec<u8>, items: &Vec<Bytes>) -> (result: Result<
    (),
    ProtocolError,
>)
    ensures
        match result {
            Ok(_) => joined(Ok(old(body)@), put_all(cstr_octets(), texts(items@))) == Ok::<
                _,
                ProtocolError,
            >(final(body)@),
            Err(error) => put_all(cstr_octets(), texts(items@)) == Err::<Seq<u8>, _>(error),
        },
{
    let ghost all = texts(items@);
    let ghost before = body@;
    let mut done: usize = 0;
    assert(all.take(0) =~= Seq::empty());
    assert(before + Seq::empty() =~= before);
    while done < items.len()
        invariant
            done <= items@.len(),
            all == texts(items@),
            joined(Ok(before), put_all(cstr_octets(), all.take(done as int))) == Ok::<
                _,
                ProtocolError,
            >(body@),
        decreases items@.len() - done,
    {
        let ghost written = put_all(cstr_octets(), all.take(done as int))->Ok_0;
        proof {
            lemma_put_all_step(cstr_octets(), all, done as int);
        }
        match write_cstr(body, as_slice(&items[done])) {
            Ok(_) => {
                proof {
                    let last = cstr_octets()(all[done as int])->Ok_0;
                    assert(before + written + last =~= before + (written + last));
                }
            },
            Err(error) => {
                proof {
                    lemma_put_all_error(cstr_octets(), all, done as int + 1);
                }
                return Err(error);
            },
        }
        done = done + 1;
    }
    assert(all.take(all.len() as int) =~= all);
    Ok(())
}

} // verus!
