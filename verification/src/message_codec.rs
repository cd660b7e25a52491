use crate::catalog::{
    check_header, message_fields_conform, Catalog, SIGNATURE_ACK_FAILURE, SIGNATURE_BEGIN,
    SIGNATURE_COMMIT, SIGNATURE_DISCARD, SIGNATURE_FAILURE, SIGNATURE_GOODBYE, SIGNATURE_HELLO,
    SIGNATURE_IGNORED, SIGNATURE_INIT, SIGNATURE_PULL, SIGNATURE_RECORD, SIGNATURE_RESET,
    SIGNATURE_ROLLBACK, SIGNATURE_RUN, SIGNATURE_SUCCESS,
};
use crate::fields::{into_dictionary, into_list, into_string, take_value};
use crate::decode::decode_values;
use crate::encode::{
    encode_dictionary, encode_str, encode_values, lemma_structure_1, lemma_structure_2,
    lemma_structure_3,
};
use crate::error::Error;
use crate::format::{encodable, encode_term, encode_terms, parse_message};
use crate::message::{
    message_view, Begin, Discard, Failure, Hello, Init, Message, Pull, Record, Run,
    RunWithMetadata, Success,
};
use crate::term::Term;
use crate::value::{values_view, Dictionary, Value};
use crate::wire::{classify_marker, read_size_at, size_header, Kind, Marker};
use vstd::prelude::*;

verus! {

/// Appends a structure without fields.
pub fn encode_bare(signature: u8, out: &mut Vec<u8>)
    ensures
        encodable(Term::Structure(signature, Seq::empty())),
        final(out)@ == old(out)@ + encode_term(Term::Structure(signature, Seq::empty())),
{
    out.push(0xB0);
    out.push(signature);
    proof {
        let fields = Seq::<Term>::empty();
        assert(encode_terms(fields) =~= Seq::<u8>::empty());
        assert(size_header(Kind::Structure, 0) + seq![signature] + encode_terms(fields) =~= seq![
            0xB0u8,
            signature,
        ]);
        assert(out@ =~= old(out)@ + seq![0xB0u8, signature]);
    }
}

/// Appends a structure whose one field is a dictionary.
pub fn encode_with_dictionary(signature: u8, d: &Dictionary, out: &mut Vec<u8>) -> (r: Result<
    (),
    Error,
>)
    ensures
        match r {
            Ok(()) => {
                &&& encodable(Term::Structure(signature, seq![Term::Dictionary(d@)]))
                &&& final(out)@ == old(out)@ + encode_term(
                    Term::Structure(signature, seq![Term::Dictionary(d@)]),
                )
            },
            Err(e) => e == Error::ValueTooLarge && !encodable(
                Term::Structure(signature, seq![Term::Dictionary(d@)]),
            ),
        },
{
    proof {
        lemma_structure_1(signature, Term::Dictionary(d@));
    }
    out.push(0xB1);
    out.push(signature);
    match encode_dictionary(d, out) {
        Err(e) => {
            return Err(e);
        },
        Ok(()) => {},
    }
    assert(out@ =~= old(out)@ + (seq![0xB1u8, signature] + encode_term(Term::Dictionary(d@))));
    Ok(())
}

/// Appends a structure whose fields are a string and a dictionary.
pub fn encode_with_text(signature: u8, text: &str, d: &Dictionary, out: &mut Vec<u8>) -> (r:
    Result<(), Error>)
    ensures
        match r {
            Ok(()) => encodable(
                Term::Structure(signature, seq![Term::String(text@), Term::Dictionary(d@)]),
            ) && final(out)@ == old(out)@ + encode_term(
                Term::Structure(signature, seq![Term::String(text@), Term::Dictionary(d@)]),
            ),
            Err(e) => e == Error::ValueTooLarge && !encodable(
                Term::Structure(signature, seq![Term::String(text@), Term::Dictionary(d@)]),
            ),
        },
{
    proof {
        lemma_structure_2(signature, Term::String(text@), Term::Dictionary(d@));
    }
    out.push(0xB2);
    out.push(signature);
    match encode_str(text, out) {
        Err(e) => {
            return Err(e);
        },
        Ok(()) => {},
    }
    match encode_dictionary(d, out) {
        Err(e) => {
            return Err(e);
        },
        Ok(()) => {},
    }
    assert(out@ =~= old(out)@ + (seq![0xB2u8, signature] + (encode_term(Term::String(text@))
        + encode_term(Term::Dictionary(d@)))));
    Ok(())
}

/// Appends a statement to run with its parameters and metadata.
pub fn encode_run_with_metadata(run: &RunWithMetadata, out: &mut Vec<u8>) -> (r: Result<
    (),
    Error,
>)
    ensures
        match r {
            Ok(()) => encodable(message_view(Message::RunWithMetadata(*run))) && final(out)@
                == old(out)@ + encode_term(message_view(Message::RunWithMetadata(*run))),
            Err(e) => e == Error::ValueTooLarge && !encodable(
                message_view(Message::RunWithMetadata(*run)),
            ),
        },
{
    proof {
        lemma_structure_3(
            SIGNATURE_RUN,
            Term::String(run.statement@),
            Term::Dictionary(run.parameters@),
            Term::Dictionary(run.metadata@),
        );
    }
    out.push(0xB3);
    out.push(SIGNATURE_RUN);
    match encode_str(run.statement.as_str(), out) {
        Err(e) => {
            return Err(e);
        },
        Ok(()) => {},
    }
    match encode_dictionary(&run.parameters, out) {
        Err(e) => {
            return Err(e);
        },
        Ok(()) => {},
    }
    match encode_dictionary(&run.metadata, out) {
        Err(e) => {
            return Err(e);
        },
        Ok(()) => {},
    }
    assert(out@ =~= old(out)@ + (seq![0xB3u8, SIGNATURE_RUN] + (encode_term(
        Term::String(run.statement@),
    ) + encode_term(Term::Dictionary(run.parameters@)) + encode_term(
        Term::Dictionary(run.metadata@),
    ))));
    Ok(())
}

/// Appends a record.
pub fn encode_record(record: &Record, out: &mut Vec<u8>) -> (r: Result<(), Error>)
    ensures
        match r {
            Ok(()) => {
                &&& encodable(message_view(Message::Record(*record)))
                &&& final(out)@ == old(out)@ + encode_term(message_view(Message::Record(*record)))
            },
            Err(e) => e == Error::ValueTooLarge && !encodable(
                message_view(Message::Record(*record)),
            ),
        },
{
    proof {
        lemma_structure_1(SIGNATURE_RECORD, Term::List(values_view(record.fields@)));
    }
    out.push(0xB1);
    out.push(SIGNATURE_RECORD);
    match encode_values(&record.fields, out) {
        Err(e) => {
            return Err(e);
        },
        Ok(()) => {},
    }
    assert(out@ =~= old(out)@ + (seq![0xB1u8, SIGNATURE_RECORD] + encode_term(
        Term::List(values_view(record.fields@)),
    )));
    Ok(())
}

/// Appends a message. Fails where a length in the message exceeds what the
/// format can write; what was appended before the failure was found stays in `out`.
pub fn encode_message(m: &Message, out: &mut Vec<u8>) -> (r: Result<(), Error>)
    ensures
        match r {
            Ok(()) => encodable(m@) && final(out)@ == old(out)@ + encode_term(m@),
            Err(e) => e == Error::ValueTooLarge && !encodable(m@),
        },
{
    match m {
        Message::Init(i) => encode_with_text(
            SIGNATURE_INIT,
            i.client_name.as_str(),
            &i.auth_token,
            out,
        ),
        Message::Hello(h) => encode_with_dictionary(SIGNATURE_HELLO, &h.metadata, out),
        Message::Run(r) => encode_with_text(
            SIGNATURE_RUN,
            r.statement.as_str(),
            &r.parameters,
            out,
        ),
        Message::RunWithMetadata(r) => encode_run_with_metadata(r, out),
        Message::PullAll => {
            encode_bare(SIGNATURE_PULL, out);
            Ok(())
        },
        Message::Pull(p) => encode_with_dictionary(SIGNATURE_PULL, &p.metadata, out),
        Message::DiscardAll => {
            encode_bare(SIGNATURE_DISCARD, out);
            Ok(())
        },
        Message::Discard(d) => encode_with_dictionary(SIGNATURE_DISCARD, &d.metadata, out),
        Message::AckFailure => {
            encode_bare(SIGNATURE_ACK_FAILURE, out);
            Ok(())
        },
        Message::Reset => {
            encode_bare(SIGNATURE_RESET, out);
            Ok(())
        },
        Message::Goodbye => {
            encode_bare(SIGNATURE_GOODBYE, out);
            Ok(())
        },
        Message::Begin(b) => encode_with_dictionary(SIGNATURE_BEGIN, &b.metadata, out),
        Message::Commit => {
            encode_bare(SIGNATURE_COMMIT, out);
            Ok(())
        },
        Message::Rollback => {
            encode_bare(SIGNATURE_ROLLBACK, out);
            Ok(())
        },
        Message::Success(s) => encode_with_dictionary(SIGNATURE_SUCCESS, &s.metadata, out),
        Message::Failure(f) => encode_with_dictionary(SIGNATURE_FAILURE, &f.metadata, out),
        Message::Ignored => {
            encode_bare(SIGNATURE_IGNORED, out);
            Ok(())
        },
        Message::Record(r) => encode_record(r, out),
    }
}

/// The dictionary that is the only field, if the fields are one dictionary.
fn only_dictionary(fields: Vec<Value>) -> (r: Option<Dictionary>)
    ensures
        match r {
            Some(d) => values_view(fields@) == seq![Term::Dictionary(d@)],
            None => !(values_view(fields@).len() == 1 && values_view(fields@)[0] is Dictionary),
        },
{
    let ghost terms = values_view(fields@);
    let mut rest = fields;
    if rest.len() != 1 {
        return None;
    }
    let f0 = take_value(&mut rest, 0);
    assert(f0@ == terms[0]);
    match into_dictionary(f0) {
        Some(d) => {
            assert(seq![Term::Dictionary(d@)] =~= terms);
            Some(d)
        },
        None => None,
    }
}

/// The string and the dictionary that the fields start with, if they do and
/// there are `count` of them.
fn text_and_dictionary(fields: &mut Vec<Value>, count: usize) -> (r: Option<
    (String, Dictionary),
>)
    requires
        count >= 2,
    ensures
        match r {
            Some((text, d)) => {
                &&& old(fields)@.len() == count
                &&& values_view(old(fields)@)[0] == Term::String(text@)
                &&& values_view(old(fields)@)[1] == Term::Dictionary(d@)
                &&& final(fields)@.len() == count
                &&& forall|j: int|
                    2 <= j < count ==> (#[trigger] final(fields)@[j]) == old(fields)@[j]
            },
            None => !(values_view(old(fields)@).len() == count && values_view(old(fields)@)[0]
                is String && values_view(old(fields)@)[1] is Dictionary),
        },
{
    let ghost terms = values_view(fields@);
    if fields.len() != count {
        return None;
    }
    let f0 = take_value(fields, 0);
    let f1 = take_value(fields, 1);
    assert(f0@ == terms[0]);
    assert(f1@ == terms[1]);
    let text: String = match into_string(f0) {
        Some(x) => x,
        None => {
            return None;
        },
    };
    match into_dictionary(f1) {
        Some(d) => Some((text, d)),
        None => None,
    }
}

/// The message that a structure with this signature and these fields is.
/// Refused where the fields are not those that the catalog declares.
pub fn build_message(signature: u8, fields: Vec<Value>) -> (r: Result<Message, Error>)
    ensures
        message_fields_conform(signature, values_view(fields@)) ==> (r matches Ok(m) && m@
            == Term::Structure(signature, values_view(fields@))),
        !message_fields_conform(signature, values_view(fields@)) ==> (r matches Err(e) && e
            == Error::InvalidStructure),
{
    let ghost terms = values_view(fields@);
    let count: usize = fields.len();
    match signature {
        SIGNATURE_INIT => {
            if count == 1 {
                match only_dictionary(fields) {
                    Some(metadata) => Ok(Message::Hello(Hello { metadata })),
                    None => Err(Error::InvalidStructure),
                }
            } else {
                let mut rest = fields;
                match text_and_dictionary(&mut rest, 2) {
                    Some((client_name, auth_token)) => {
                        assert(seq![Term::String(client_name@), Term::Dictionary(auth_token@)]
                            =~= terms);
                        Ok(Message::Init(Init { client_name, auth_token }))
                    },
                    None => Err(Error::InvalidStructure),
                }
            }
        },
        SIGNATURE_RUN => {
            if count == 3 {
                build_run_with_metadata(fields)
            } else {
                let mut rest = fields;
                match text_and_dictionary(&mut rest, 2) {
                    Some((statement, parameters)) => {
                        assert(seq![Term::String(statement@), Term::Dictionary(parameters@)]
                            =~= terms);
                        Ok(Message::Run(Run { statement, parameters }))
                    },
                    None => Err(Error::InvalidStructure),
                }
            }
        },
        SIGNATURE_PULL => {
            if count == 0 {
                assert(terms =~= Seq::empty());
                Ok(Message::PullAll)
            } else {
                match only_dictionary(fields) {
                    Some(metadata) => Ok(Message::Pull(Pull { metadata })),
                    None => Err(Error::InvalidStructure),
                }
            }
        },
        SIGNATURE_DISCARD => {
            if count == 0 {
                assert(terms =~= Seq::empty());
                Ok(Message::DiscardAll)
            } else {
                match only_dictionary(fields) {
                    Some(metadata) => Ok(Message::Discard(Discard { metadata })),
                    None => Err(Error::InvalidStructure),
                }
            }
        },
        SIGNATURE_BEGIN => match only_dictionary(fields) {
            Some(metadata) => Ok(Message::Begin(Begin { metadata })),
            None => Err(Error::InvalidStructure),
        },
        SIGNATURE_SUCCESS => match only_dictionary(fields) {
            Some(metadata) => Ok(Message::Success(Success { metadata })),
            None => Err(Error::InvalidStructure),
        },
        SIGNATURE_FAILURE => match only_dictionary(fields) {
            Some(metadata) => Ok(Message::Failure(Failure { metadata })),
            None => Err(Error::InvalidStructure),
        },
        SIGNATURE_RECORD => build_record(fields),
        _ => build_bare(signature, fields),
    }
}

/// A statement to run with its parameters and metadata, from its three fields.
fn build_run_with_metadata(fields: Vec<Value>) -> (r: Result<Message, Error>)
    requires
        fields@.len() == 3,
    ensures
        message_fields_conform(SIGNATURE_RUN, values_view(fields@)) ==> (r matches Ok(m) && m@
            == Term::Structure(SIGNATURE_RUN, values_view(fields@))),
        !message_fields_conform(SIGNATURE_RUN, values_view(fields@)) ==> (r matches Err(e) && e
            == Error::InvalidStructure),
{
    let ghost terms = values_view(fields@);
    let mut rest = fields;
    match text_and_dictionary(&mut rest, 3) {
        Some((statement, parameters)) => {
            let f2 = take_value(&mut rest, 2);
            assert(f2@ == terms[2]);
            match into_dictionary(f2) {
                Some(metadata) => {
                    assert(seq![
                        Term::String(statement@),
                        Term::Dictionary(parameters@),
                        Term::Dictionary(metadata@),
                    ] =~= terms);
                    let run = RunWithMetadata { statement, parameters, metadata };
                    Ok(Message::RunWithMetadata(run))
                },
                None => Err(Error::InvalidStructure),
            }
        },
        None => Err(Error::InvalidStructure),
    }
}

/// A record from its one field.
fn build_record(fields: Vec<Value>) -> (r: Result<Message, Error>)
    ensures
        message_fields_conform(SIGNATURE_RECORD, values_view(fields@)) ==> (r matches Ok(m) && m@
            == Term::Structure(SIGNATURE_RECORD, values_view(fields@))),
        !message_fields_conform(SIGNATURE_RECORD, values_view(fields@)) ==> (r matches Err(e) && e
            == Error::InvalidStructure),
{
    let ghost terms = values_view(fields@);
    let mut rest = fields;
    if rest.len() != 1 {
        return Err(Error::InvalidStructure);
    }
    let f0 = take_value(&mut rest, 0);
    assert(f0@ == terms[0]);
    match into_list(f0) {
        Some(items) => {
            assert(seq![Term::List(values_view(items@))] =~= terms);
            Ok(Message::Record(Record { fields: items }))
        },
        None => Err(Error::InvalidStructure),
    }
}

/// A message without fields.
fn build_bare(signature: u8, fields: Vec<Value>) -> (r: Result<Message, Error>)
    requires
        signature != SIGNATURE_INIT,
        signature != SIGNATURE_RUN,
        signature != SIGNATURE_PULL,
        signature != SIGNATURE_DISCARD,
        signature != SIGNATURE_BEGIN,
        signature != SIGNATURE_SUCCESS,
        signature != SIGNATURE_FAILURE,
        signature != SIGNATURE_RECORD,
    ensures
        message_fields_conform(signature, values_view(fields@)) ==> (r matches Ok(m) && m@
            == Term::Structure(signature, values_view(fields@))),
        !message_fields_conform(signature, values_view(fields@)) ==> (r matches Err(e) && e
            == Error::InvalidStructure),
{
    if fields.len() != 0 {
        return Err(Error::InvalidStructure);
    }
    assert(values_view(fields@) =~= Seq::empty());
    match signature {
        SIGNATURE_GOODBYE => Ok(Message::Goodbye),
        SIGNATURE_ACK_FAILURE => Ok(Message::AckFailure),
        SIGNATURE_RESET => Ok(Message::Reset),
        SIGNATURE_COMMIT => Ok(Message::Commit),
        SIGNATURE_ROLLBACK => Ok(Message::Rollback),
        SIGNATURE_IGNORED => Ok(Message::Ignored),
        _ => Err(Error::InvalidStructure),
    }
}

/// Reads the message that starts at `pos`, and says where it ends.
pub fn decode_message(s: &[u8], pos: usize) -> (r: Result<(Message, usize), Error>)
    ensures
        match parse_message(s@, pos as int) {
            Ok((t, p)) => r matches Ok((m, q)) && m@ == t && q == p && pos < q <= s@.len(),
            Err(e) => r matches Err(f) && f == e,
        },
{
    if pos >= s.len() {
        return Err(Error::Truncated);
    }
    let marker: u8 = s[pos];
    let (n, p): (usize, usize) = match classify_marker(marker) {
        Marker::Sized(Kind::Structure, width, tiny) => match read_size_at(
            s,
            pos + 1,
            width,
            tiny,
        ) {
            Ok(x) => x,
            Err(e) => {
                return Err(e);
            },
        },
        _ => {
            return Err(Error::InvalidMarker(marker));
        },
    };
    if p >= s.len() {
        return Err(Error::Truncated);
    }
    let signature: u8 = s[p];
    match check_header(Catalog::Messages, signature, n) {
        Err(e) => {
            return Err(e);
        },
        Ok(()) => {},
    }
    let (fields, q): (Vec<Value>, usize) = match decode_values(s, p + 1, n) {
        Ok(x) => x,
        Err(e) => {
            return Err(e);
        },
    };
    match build_message(signature, fields) {
        Ok(m) => Ok((m, q)),
        Err(e) => Err(e),
    }
}

impl Message {
    /// The bytes of the message. Fails exactly where a length in the message
    /// exceeds what the format can write.
    pub fn encode(&self) -> (r: Result<Vec<u8>, Error>)
        ensures
            match r {
                Ok(bytes) => encodable(self@) && bytes@ == encode_term(self@),
                Err(e) => e == Error::ValueTooLarge && !encodable(self@),
            },
    {
        let mut out: Vec<u8> = Vec::new();
        match encode_message(self, &mut out) {
            Ok(()) => {
                assert(out@ =~= encode_term(self@));
                Ok(out)
            },
            Err(e) => Err(e),
        }
    }

    /// The message that stands at the start of `bytes`. What follows it is
    /// not read. The dictionaries of the message have distinct keys.
    pub fn decode(bytes: &[u8]) -> (r: Result<Message, Error>)
        ensures
            match parse_message(bytes@, 0) {
                Ok((t, _)) => r matches Ok(m) && m@ == t && m.wf(),
                Err(e) => r matches Err(f) && f == e,
            },
    {
        proof {
            crate::wellformed::lemma_parse_message_sound(bytes@, 0);
        }
        match decode_message(bytes, 0) {
            Ok((m, _)) => Ok(m),
            Err(e) => Err(e),
        }
    }
}

} // verus!
