//! Field lists of error and notice messages.

use bytes::Bytes;
use vstd::prelude::*;

use super::frame::agrees;
use crate::error::ProtocolError;
use crate::lists::{
    lemma_followed, lemma_until_nul_reads_back, lemma_until_nul_writes_back, put_until_nul,
    starts_non_nul, take_until_nul,
};
use crate::octets::{advance, as_slice, octets};
use crate::wire::{
    followed, joined, lemma_cstr, lemma_put_all_error, lemma_put_all_step, lemma_regroup,
    lemma_taken_cstr, put_all, put_cstr, read_cstr, read_end, read_u8, take_cstr, take_u8, whole,
    write_cstr, written_as, Put, Taken,
};

verus! {

/// One coded field of a diagnostic.
#[derive(Clone, Debug, PartialEq, Eq)]
pub struct DiagnosticField {
    pub code: u8,
    pub value: Bytes,
}

/// Fields of an error or notice, in wire order.
#[derive(Clone, Debug, PartialEq, Eq)]
pub struct DiagnosticResponse {
    pub fields: Vec<DiagnosticField>,
}

#[verifier::ext_equal]
pub struct DiagnosticFieldView {
    pub code: u8,
    pub value: Seq<u8>,
}

impl View for DiagnosticField {
    type V = DiagnosticFieldView;

    open spec fn view(&self) -> DiagnosticFieldView {
        DiagnosticFieldView { code: self.code, value: octets(self.value) }
    }
}

/// What each field says.
pub open spec fn diagnostic_fields(fields: Seq<DiagnosticField>) -> Seq<DiagnosticFieldView> {
    Seq::new(fields.len(), |i: int| fields[i]@)
}

impl View for DiagnosticResponse {
    type V = Seq<DiagnosticFieldView>;

    open spec fn view(&self) -> Seq<DiagnosticFieldView> {
        diagnostic_fields(self.fields@)
    }
}

pub open spec fn take_diagnostic_field(source: Seq<u8>) -> Taken<DiagnosticFieldView> {
    match take_u8(source) {
        Err(error) => Err(error),
        Ok((code, rest)) => match take_cstr(rest) {
            Err(error) => Err(error),
            Ok((value, rest)) => if code == 0 {
                Err(ProtocolError::TruncatedBody)
            } else {
                Ok((DiagnosticFieldView { code, value }, rest))
            },
        },
    }
}

pub open spec fn put_diagnostic_field(field: DiagnosticFieldView) -> Put {
    if field.code == 0 {
        Err(ProtocolError::NulFieldCode)
    } else {
        joined(Ok(seq![field.code]), put_cstr(field.value))
    }
}

pub open spec fn diagnostic_field() -> spec_fn(Seq<u8>) -> Taken<DiagnosticFieldView> {
    |source: Seq<u8>| take_diagnostic_field(source)
}

pub open spec fn diagnostic_octets() -> spec_fn(DiagnosticFieldView) -> Put {
    |field: DiagnosticFieldView| put_diagnostic_field(field)
}

pub open spec fn take_diagnostic(source: Seq<u8>) -> Taken<Seq<DiagnosticFieldView>> {
    take_until_nul(diagnostic_field(), source)
}

pub open spec fn diagnostic_body(fields: Seq<DiagnosticFieldView>) -> Put {
    put_until_nul(diagnostic_octets(), fields)
}

pub proof fn lemma_diagnostic(fields: Seq<DiagnosticFieldView>)
    requires
        diagnostic_body(fields) is Ok,
    ensures
        whole(take_diagnostic(diagnostic_body(fields)->Ok_0)) == Ok::<_, ProtocolError>(fields),
{
    let put = diagnostic_octets();
    let take = diagnostic_field();
    assert forall|i: int, more: Seq<u8>|
        0 <= i < fields.len() && put(fields[i]) is Ok implies #[trigger] take(
        put(fields[i])->Ok_0 + more,
    ) == Ok::<_, ProtocolError>((fields[i], more)) by {
        let field = fields[i];
        let source = put(field)->Ok_0 + more;
        lemma_cstr(field.value, more);
        assert(source.skip(1) =~= field.value.push(0) + more);
    }
    assert forall|i: int| 0 <= i < fields.len() implies starts_non_nul(
        #[trigger] put(fields[i]),
    ) by {
    }
    lemma_until_nul_reads_back(put, take, fields, Seq::empty());
    assert(diagnostic_body(fields)->Ok_0 + Seq::empty() =~= diagnostic_body(fields)->Ok_0);
}

pub proof fn lemma_taken_diagnostic(body: Seq<u8>)
    ensures
        whole(take_diagnostic(body)) matches Ok(fields) ==> diagnostic_body(fields) == Ok::<
            _,
            ProtocolError,
        >(body),
{
    let put = diagnostic_octets();
    let take = diagnostic_field();
    assert forall|source: Seq<u8>| (#[trigger] take(source)) is Ok implies written_as(
        put,
        take(source)->Ok_0,
        source,
    ) by {
        lemma_taken_cstr(source.skip(1));
        let (field, rest) = take(source)->Ok_0;
        assert(put(field) == put_diagnostic_field(field));
        assert(field.value.push(0u8) + rest == source.skip(1));
        lemma_regroup(seq![field.code], field.value.push(0u8), rest);
        assert(seq![source[0]] + source.skip(1) =~= source);
    }
    lemma_until_nul_writes_back(put, take, body);
    if let Ok(fields) = whole(take_diagnostic(body)) {
        assert(diagnostic_body(fields)->Ok_0 =~= body);
    }
}

fn read_field(body: &mut Bytes) -> (result: Result<DiagnosticField, ProtocolError>)
    requires
        octets(*old(body)).len() > 0,
        octets(*old(body))[0] != 0,
    ensures
        match result {
            Ok(field) => take_diagnostic_field(octets(*old(body))) == Ok::<_, ProtocolError>(
                (field@, octets(*final(body))),
            ) && octets(*final(body)).len() < octets(*old(body)).len(),
            Err(error) => take_diagnostic_field(octets(*old(body))) == Err::<
                (DiagnosticFieldView, Seq<u8>),
                _,
            >(error),
        },
{
    let code: u8 = read_u8(body)?;
    proof {
        lemma_taken_cstr(octets(*body));
    }
    let value = read_cstr(body)?;
    Ok(DiagnosticField { code, value })
}

impl DiagnosticResponse {
    /// Decodes a diagnostic body.
    #[verifier::loop_isolation(false)]
    pub(crate) fn from_body(body: Bytes) -> (result: Result<DiagnosticResponse, ProtocolError>)
        ensures
            agrees(result, whole(take_diagnostic(octets(body)))),
    {
        let ghost source = octets(body);
        let mut body = body;
        let mut fields: Vec<DiagnosticField> = Vec::new();
        assert(diagnostic_fields(fields@) =~= Seq::empty());
        proof {
            let more = take_diagnostic(source);
            if let Ok((items, rest)) = more {
                assert(Seq::<DiagnosticFieldView>::empty() + items =~= items);
            }
        }
        while as_slice(&body).len() > 0 && as_slice(&body)[0] != 0
            invariant
                take_diagnostic(source) == followed(
                    diagnostic_fields(fields@),
                    take_diagnostic(octets(body)),
                ),
            decreases octets(body).len(),
        {
            let field = read_field(&mut body)?;
            proof {
                lemma_followed(
                    diagnostic_fields(fields@),
                    field@,
                    take_diagnostic(octets(body)),
                );
                assert(diagnostic_fields(fields@.push(field)) =~= diagnostic_fields(
                    fields@,
                ).push(field@));
            }
            fields.push(field);
        }
        if as_slice(&body).len() == 0 {
            return Err(ProtocolError::TruncatedBody);
        }
        advance(&mut body, 1);
        assert(diagnostic_fields(fields@) + Seq::empty() =~= diagnostic_fields(fields@));
        read_end(&body)?;
        Ok(DiagnosticResponse { fields })
    }

    /// Encodes a diagnostic body.
    #[verifier::loop_isolation(false)]
    pub(crate) fn to_body(&self) -> (result: Result<Vec<u8>, ProtocolError>)
        ensures
            agrees(result, diagnostic_body(self@)),
    {
        let ghost all = self@;
        let mut body: Vec<u8> = Vec::new();
        let mut done: usize = 0;
        assert(all.take(0) =~= Seq::empty());
        assert(body@ =~= Seq::empty());
        while done < self.fields.len()
            invariant
                done <= self.fields@.len(),
                put_all(diagnostic_octets(), all.take(done as int)) == Ok::<_, ProtocolError>(
                    body@,
                ),
            decreases self.fields@.len() - done,
        {
            let ghost written = body@;
            proof {
                lemma_put_all_step(diagnostic_octets(), all, done as int);
            }
            let field = &self.fields[done];
            if field.code == 0 {
                proof {
                    lemma_put_all_error(diagnostic_octets(), all, done as int + 1);
                }
                return Err(ProtocolError::NulFieldCode);
            }
            body.push(field.code);
            match write_cstr(&mut body, as_slice(&field.value)) {
                Ok(_) => {
                    assert(body@ =~= written + put_diagnostic_field(field@)->Ok_0);
                },
                Err(error) => {
                    proof {
                        lemma_put_all_error(diagnostic_octets(), all, done as int + 1);
                    }
                    return Err(error);
                },
            }
            done = done + 1;
        }
        assert(all.take(all.len() as int) =~= all);
        body.push(0);
        assert(body@ =~= put_all(diagnostic_octets(), all)->Ok_0 + seq![0u8]);
        Ok(body)
    }
}

} // verus!
