//! Splitting content-stream bytes into instructions, through lopdf's tokenizer.
use crate::operation::{Operation, OperationView, ParseErrorView, PdfParseError};
use crate::stream::{decode_all, decoded_all, stream_view, Instruction};
use crate::value::RawValue;
use vstd::prelude::*;

verus! {

#[verifier::external_type_specification]
#[verifier::external_body]
pub struct ExObject(lopdf::Object);

/// The instructions that content-stream bytes tokenize into, or `None` where
/// the tokenizer rejects them.
pub uninterp spec fn instructions_of(bytes: Seq<u8>) -> Option<Seq<Instruction>>;

/// Relies on the variants of `lopdf::Object`: copies each value into the
/// library's operand model, a real as its bit pattern, an array item by item.
#[verifier::external_body]
fn raw_value_of(o: &lopdf::Object) -> RawValue {
    match o {
        lopdf::Object::Null => RawValue::Null,
        lopdf::Object::Boolean(b) => RawValue::Boolean(*b),
        lopdf::Object::Integer(i) => RawValue::Integer(*i),
        lopdf::Object::Real(x) => RawValue::Real(x.to_bits()),
        lopdf::Object::Name(n) => RawValue::Name(n.clone()),
        lopdf::Object::String(s, _) => RawValue::StringLiteral(s.clone()),
        lopdf::Object::Array(a) => RawValue::Array(a.iter().map(raw_value_of).collect()),
        lopdf::Object::Dictionary(_) => RawValue::Dictionary,
        lopdf::Object::Stream(_) => RawValue::Stream,
        lopdf::Object::Reference((id, generation)) => RawValue::Reference(*id, *generation),
    }
}

/// Whether the bytes `x`, `y` stand at positions `i` and `i + 1`.
pub open spec fn pair_at(b: Seq<u8>, i: int, x: u8, y: u8) -> bool {
    0 <= i && i + 1 < b.len() && b[i] == x && b[i + 1] == y
}

/// Whether an operation could begin with `BI` at position `i`: the tokenizer
/// starts an operation only at the first byte or after white space, and reads
/// any run of letters as one operator.
pub open spec fn image_start_at(b: Seq<u8>, i: int) -> bool {
    pair_at(b, i, 0x42u8, 0x49u8) && (i == 0 || b[i - 1] == 0x20u8 || b[i - 1] == 0x09u8
        || b[i - 1] == 0x0Du8 || b[i - 1] == 0x0Au8)
}

/// Whether the bytes could hold an inline image: an operation that could begin
/// with `BI`, and an `ID` after it.
pub open spec fn may_hold_inline_image(b: Seq<u8>) -> bool {
    exists|i: int, j: int|
        #![trigger image_start_at(b, i), pair_at(b, j, 0x49u8, 0x44u8)]
        image_start_at(b, i) && i + 2 <= j && pair_at(b, j, 0x49u8, 0x44u8)
}

/// The first position where an operation could begin with `BI`.
fn find_image_start(b: &[u8]) -> (r: Option<usize>)
    ensures
        match r {
            Some(k) => image_start_at(b@, k as int) && forall|j: int| 0 <= j < k ==> !image_start_at(b@, j),
            None => forall|j: int| 0 <= j ==> !image_start_at(b@, j),
        },
{
    let mut k: usize = 0;
    while k < b.len() && k + 1 < b.len()
        invariant
            forall|j: int| 0 <= j < k ==> !image_start_at(b@, j),
        decreases b.len() - k,
    {
        if b[k] == 0x42u8 && b[k + 1] == 0x49u8 {
            if k == 0 || b[k - 1] == 0x20u8 || b[k - 1] == 0x09u8 || b[k - 1] == 0x0Du8 || b[k - 1] == 0x0Au8 {
                return Some(k);
            }
        }
        k = k + 1;
    }
    None
}

/// The first position at or after `from` where `x`, `y` stand.
fn find_pair(b: &[u8], from: usize, x: u8, y: u8) -> (r: Option<usize>)
    ensures
        match r {
            Some(k) => from <= k && pair_at(b@, k as int, x, y)
                && forall|j: int| from <= j < k ==> !pair_at(b@, j, x, y),
            None => forall|j: int| from <= j ==> !pair_at(b@, j, x, y),
        },
{
    let mut k: usize = from;
    while k < b.len() && k + 1 < b.len()
        invariant
            from <= k,
            forall|j: int| from <= j < k ==> !pair_at(b@, j, x, y),
        decreases b.len() - k,
    {
        if b[k] == x && b[k + 1] == y {
            return Some(k);
        }
        k = k + 1;
    }
    None
}

/// Decides whether the bytes could hold an inline image.
pub fn inline_image_possible(b: &[u8]) -> (r: bool)
    ensures
        r == may_hold_inline_image(b@),
{
    match find_image_start(b) {
        None => false,
        Some(i) => {
            // the pair at i ends inside the slice, so i + 2 cannot overflow
            let n = b.len();
            assert(i + 2 <= n);
            let found = find_pair(b, i + 2, 0x49u8, 0x44u8);
            proof {
                if let Some(j) = found {
                    assert(image_start_at(b@, i as int) && pair_at(b@, j as int, 0x49u8, 0x44u8));
                }
                if may_hold_inline_image(b@) {
                    let (i2, j2) = choose|i2: int, j2: int|
                        image_start_at(b@, i2) && i2 + 2 <= j2 && pair_at(b@, j2, 0x49u8, 0x44u8);
                    assert(i <= i2);
                }
            }
            found.is_some()
        },
    }
}

/// Relies on `lopdf::content::Content::decode`: a pure parse of the bytes into
/// operations, each an operator name and its operands in order, or an error.
/// Its inline-image reader multiplies the image's width, height and depth
/// unchecked and can overflow; it is entered only after an operation that
/// begins with `BI` and an `ID` tag, so bytes where that could happen are left out.
#[verifier::external_body]
fn tokenize(bytes: &[u8]) -> (r: Result<Vec<Instruction>, PdfParseError>)
    requires
        !may_hold_inline_image(bytes@),
    ensures
        match r {
            Ok(instrs) => instructions_of(bytes@) == Some(instrs@),
            Err(e) => instructions_of(bytes@) is None && e == PdfParseError::Lopdf,
        },
{
    match lopdf::content::Content::decode(bytes) {
        Ok(content) => Ok(content.operations.iter().map(|op| Instruction {
            operator: op.operator.clone(),
            operands: op.operands.iter().map(raw_value_of).collect(),
        }).collect()),
        Err(_) => Err(PdfParseError::Lopdf),
    }
}

/// The outcome of decoding content-stream bytes. Bytes that could hold an
/// inline image are refused, since no operation of the table stands for one;
/// so are bytes the tokenizer rejects.
pub open spec fn content_decoded(b: Seq<u8>) -> Result<Seq<OperationView>, ParseErrorView> {
    if may_hold_inline_image(b) {
        Err(ParseErrorView::Lopdf)
    } else {
        match instructions_of(b) {
            None => Err(ParseErrorView::Lopdf),
            Some(instrs) => decoded_all(instrs),
        }
    }
}

/// Tokenizes content-stream bytes and decodes every instruction in order.
/// Bytes that could hold an inline image, and bytes the tokenizer rejects, are
/// `Lopdf` errors; otherwise the outcome is that of decoding the instructions
/// one by one.
pub fn decode_content(bytes: &[u8]) -> (r: Result<Vec<Operation>, PdfParseError>)
    ensures
        stream_view(r) == content_decoded(bytes@),
{
    if inline_image_possible(bytes) {
        return Err(PdfParseError::Lopdf);
    }
    match tokenize(bytes) {
        Ok(instrs) => decode_all(&instrs),
        Err(e) => Err(e),
    }
}

} // verus!
