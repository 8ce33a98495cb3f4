//! Conversion of text operand bytes into characters.
use crate::operation::{PdfParseError, ParseErrorView};
use crate::value::RawValue;
use vstd::prelude::*;
use vstd::string::*;

verus! {

/// The characters that a byte sequence encodes in UTF-8, or `None` where it is not UTF-8.
pub uninterp spec fn utf8_text(b: Seq<u8>) -> Option<Seq<char>>;

/// Relies on `String::from_utf8`: it returns the decoded text when the bytes are
/// UTF-8, and otherwise an error from which `into_bytes` gives the input back.
/// Bytes below 128 are ASCII, which UTF-8 encodes as themselves.
#[verifier::external_body]
fn string_from_utf8(bytes: Vec<u8>) -> (r: Result<String, Vec<u8>>)
    ensures
        match r {
            Ok(s) => utf8_text(bytes@) == Some(s@),
            Err(back) => utf8_text(bytes@) is None && back@ == bytes@,
        },
        bytes@.len() == 0 ==> (r is Ok && r->Ok_0@.len() == 0),
        (forall|i: int| 0 <= i < bytes@.len() ==> #[trigger] bytes@[i] < 128u8) ==> (r is Ok
            && r->Ok_0@ == bytes@.map_values(|c: u8| c as char)),
{
    String::from_utf8(bytes).map_err(|e| e.into_bytes())
}

/// What decoding text bytes yields: their characters, or a `Utf8` error holding them.
pub open spec fn text_of(b: Seq<u8>) -> Result<Seq<char>, ParseErrorView> {
    match utf8_text(b) {
        Some(t) => Ok(t),
        None => Err(ParseErrorView::Utf8(b)),
    }
}

/// Decodes the bytes of a string operand as UTF-8; invalid input is an error,
/// never a lossy replacement.
pub fn decode_text(bytes: &Vec<u8>) -> (r: Result<String, PdfParseError>)
    ensures
        match (r, text_of(bytes@)) {
            (Ok(s), Ok(t)) => s@ == t,
            (Err(e), Err(ev)) => e@ == ev,
            _ => false,
        },
        (forall|i: int| 0 <= i < bytes@.len() ==> #[trigger] bytes@[i] < 128u8) ==> (r is Ok
            && r->Ok_0@ == bytes@.map_values(|c: u8| c as char)),
{
    let copy = bytes.clone();
    assert(copy@ =~= bytes@);
    match string_from_utf8(copy) {
        Ok(s) => Ok(s),
        Err(back) => Err(PdfParseError::Utf8(back)),
    }
}

/// What one item of a glyph-positioning array contributes: the text of a string,
/// nothing for a number, and an error for anything else.
pub open spec fn piece_of(v: RawValue) -> Result<Seq<char>, ParseErrorView> {
    match v {
        RawValue::StringLiteral(b) => text_of(b@),
        RawValue::Integer(_) => Ok(Seq::empty()),
        RawValue::Real(_) => Ok(Seq::empty()),
        _ => Err(ParseErrorView::OperandType),
    }
}

/// The text of a glyph-positioning array: the pieces in order, joined; the first
/// item that fails decides the error.
pub open spec fn joined_text(items: Seq<RawValue>) -> Result<Seq<char>, ParseErrorView>
    decreases items.len(),
{
    if items.len() == 0 {
        Ok(Seq::empty())
    } else {
        match piece_of(items[0]) {
            Err(e) => Err(e),
            Ok(p) => match joined_text(items.drop_first()) {
                Err(e) => Err(e),
                Ok(rest) => Ok(p + rest),
            },
        }
    }
}

/// `prefix` followed by the text in `r`, or the error in `r`.
pub open spec fn after(prefix: Seq<char>, r: Result<Seq<char>, ParseErrorView>) -> Result<Seq<char>, ParseErrorView> {
    match r {
        Ok(t) => Ok(prefix + t),
        Err(e) => Err(e),
    }
}

/// Joins the text of the items of a glyph-positioning array.
pub fn join_text(items: &Vec<RawValue>) -> (r: Result<String, PdfParseError>)
    ensures
        match (r, joined_text(items@)) {
            (Ok(s), Ok(t)) => s@ == t,
            (Err(e), Err(ev)) => e@ == ev,
            _ => false,
        },
{
    let mut body = String::new();
    let mut i: usize = 0;
    assert(items@.skip(0) =~= items@);
    assert(body@ + Seq::<char>::empty() =~= Seq::<char>::empty());
    while i < items.len()
        invariant
            i <= items.len(),
            joined_text(items@) == after(body@, joined_text(items@.skip(i as int))),
        decreases items.len() - i,
    {
        let ghost rest = items@.skip(i as int);
        assert(rest.drop_first() =~= items@.skip(i + 1));
        assert(rest[0] == items@[i as int]);
        let piece: Result<String, PdfParseError> = match &items[i] {
            RawValue::StringLiteral(b) => decode_text(b),
            RawValue::Integer(_) => Ok(String::new()),
            RawValue::Real(_) => Ok(String::new()),
            _ => Err(PdfParseError::OperandType),
        };
        match piece {
            Ok(p) => {
                let ghost old_body = body@;
                body.append(p.as_str());
                proof {
                    match joined_text(items@.skip(i + 1)) {
                        Ok(t) => {
                            assert(old_body + (p@ + t) =~= body@ + t);
                        },
                        Err(_) => {},
                    }
                }
            },
            Err(e) => {
                return Err(e);
            },
        }
        i = i + 1;
    }
    assert(items@.skip(i as int).len() == 0);
    assert(body@ + Seq::<char>::empty() =~= body@);
    Ok(body)
}

} // verus!
