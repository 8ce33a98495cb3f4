//! The operations of one content object of a loaded document.
use crate::content::{content_decoded, decode_content};
use crate::operation::{Operation, OperationView, ParseErrorView, PdfParseError};
use crate::stream::stream_view;
use vstd::prelude::*;

verus! {

#[verifier::external_type_specification]
#[verifier::external_body]
pub struct ExDocument(lopdf::Document);

#[verifier::external_type_specification]
#[verifier::external_body]
pub struct ExStream(lopdf::Stream);

/// The stream stored under an id of a document, or `None` where there is no
/// object or it is not a stream.
pub uninterp spec fn stream_at_of(doc: lopdf::Document, id: (u32, u16)) -> Option<lopdf::Stream>;

/// The integer entries `/Predictor`, `/Columns`, `/Colors` and
/// `/BitsPerComponent` of a stream's `/DecodeParms` dictionary, each `None`
/// where the dictionary or the entry is missing or not an integer.
pub uninterp spec fn decode_params_of(s: lopdf::Stream) -> (Option<i64>, Option<i64>, Option<i64>, Option<i64>);

/// A stream's bytes with its filters undone, or `None` where a filter fails.
pub uninterp spec fn decompressed_of(s: lopdf::Stream) -> Option<Seq<u8>>;

/// Whether decompression would undo a predictor (TIFF 2 or PNG 10 to 15).
pub open spec fn predictor_applied(p: i64) -> bool {
    p == 2 || (10 <= p && p <= 15)
}

/// A row parameter as the predictor reads it: the entry, or `default` where
/// there is none, and never below 1.
pub open spec fn row_param(v: Option<i64>, default: i64) -> int {
    let x = match v {
        Some(x) => x,
        None => default,
    };
    if x < 1 { 1 } else { x as int }
}

/// Whether undoing a predictor with these parameters stays in range: the bits
/// of a row, `Columns * Colors * BitsPerComponent`, fit in `usize`, and a
/// `u16` for each colour fits in one allocation. Parameters that ask for no
/// predictor always do.
pub open spec fn predictor_fits(params: (Option<i64>, Option<i64>, Option<i64>, Option<i64>)) -> bool {
    let predictor = match params.0 {
        Some(x) => x,
        None => 1,
    };
    let columns = row_param(params.1, 1);
    let colors = row_param(params.2, 1);
    let bits = row_param(params.3, 8);
    !predictor_applied(predictor) || (columns * colors * bits <= usize::MAX as int && colors * 2
        <= isize::MAX as int)
}

/// Decides whether undoing a predictor with these parameters stays in range.
fn check_predictor(params: (Option<i64>, Option<i64>, Option<i64>, Option<i64>)) -> (r: bool)
    ensures
        r == predictor_fits(params),
{
    let predictor = match params.0 {
        Some(x) => x,
        None => 1,
    };
    if !(predictor == 2 || (10 <= predictor && predictor <= 15)) {
        return true;
    }
    let columns: u128 = match params.1 {
        Some(x) => if x < 1 { 1 } else { x as u128 },
        None => 1,
    };
    let colors: u128 = match params.2 {
        Some(x) => if x < 1 { 1 } else { x as u128 },
        None => 1,
    };
    let bits: u128 = match params.3 {
        Some(x) => if x < 1 { 1 } else { x as u128 },
        None => 8,
    };
    if colors * 2 > isize::MAX as u128 {
        return false;
    }
    assert(columns * colors <= 0x7fff_ffff_ffff_ffffu128 * 0x7fff_ffff_ffff_ffffu128) by (nonlinear_arith)
        requires 1 <= columns <= 0x7fff_ffff_ffff_ffffu128, 1 <= colors <= 0x7fff_ffff_ffff_ffffu128;
    let per_row = columns * colors;
    if per_row > usize::MAX as u128 {
        assert(per_row * bits > usize::MAX as int) by (nonlinear_arith)
            requires per_row > usize::MAX as int, bits >= 1;
        return false;
    }
    assert(per_row * bits <= 0xffff_ffff_ffff_ffffu128 * 0x7fff_ffff_ffff_ffffu128) by (nonlinear_arith)
        requires per_row <= 0xffff_ffff_ffff_ffffu128, 1 <= bits <= 0x7fff_ffff_ffff_ffffu128;
    per_row * bits <= usize::MAX as u128
}

/// Relies on `lopdf::Document::get_object`, which follows references, and then
/// `lopdf::Object::as_stream`: the stream stored under the id, or an error.
#[verifier::external_body]
fn stream_at<'a>(doc: &'a lopdf::Document, id: (u32, u16)) -> (r: Result<&'a lopdf::Stream, PdfParseError>)
    ensures
        match r {
            Ok(s) => stream_at_of(*doc, id) == Some(*s),
            Err(e) => stream_at_of(*doc, id) is None && e == PdfParseError::Lopdf,
        },
{
    doc.get_object(id).and_then(lopdf::Object::as_stream).map_err(|_| PdfParseError::Lopdf)
}

/// Relies on `lopdf::Dictionary::get`, `lopdf::Object::as_dict` and
/// `lopdf::Object::as_i64`, read as `Stream::decompressed_content` reads them:
/// the integer entries of a `/DecodeParms` dictionary that undoing a predictor uses.
#[verifier::external_body]
fn decode_params(s: &lopdf::Stream) -> (r: (Option<i64>, Option<i64>, Option<i64>, Option<i64>))
    ensures
        r == decode_params_of(*s),
{
    let params = s.dict.get(b"DecodeParms").and_then(lopdf::Object::as_dict).ok();
    let entry = |key: &[u8]| params.and_then(|p| p.get(key).and_then(lopdf::Object::as_i64).ok());
    (entry(b"Predictor"), entry(b"Columns"), entry(b"Colors"), entry(b"BitsPerComponent"))
}

/// Relies on `lopdf::Stream::decompressed_content`: the stream's bytes with
/// its filters undone, or an error where a filter fails. Undoing a predictor
/// multiplies the row parameters unchecked, and the TIFF predictor allocates a
/// `u16` per colour, so parameters for which either can overflow are left out.
#[verifier::external_body]
fn decompressed(s: &lopdf::Stream) -> (r: Result<Vec<u8>, PdfParseError>)
    requires
        predictor_fits(decode_params_of(*s)),
    ensures
        match r {
            Ok(b) => decompressed_of(*s) == Some(b@),
            Err(e) => decompressed_of(*s) is None && e == PdfParseError::Lopdf,
        },
{
    s.decompressed_content().map_err(|_| PdfParseError::Lopdf)
}

/// The outcome of decoding one content object of a document. A missing
/// object, one that is not a stream, a stream whose predictor parameters are
/// out of range and a failed decompression are `Lopdf` errors; otherwise it is the outcome of
/// decoding the stream's bytes.
pub open spec fn object_decoded(doc: lopdf::Document, id: (u32, u16)) -> Result<Seq<OperationView>, ParseErrorView> {
    match stream_at_of(doc, id) {
        None => Err(ParseErrorView::Lopdf),
        Some(s) => if !predictor_fits(decode_params_of(s)) {
            Err(ParseErrorView::Lopdf)
        } else {
            match decompressed_of(s) {
                None => Err(ParseErrorView::Lopdf),
                Some(b) => content_decoded(b),
            }
        },
    }
}

/// Decodes one content object: looks it up, requires a stream, decompresses
/// it, then tokenizes and decodes its instructions in order.
pub fn decode_content_object(doc: &lopdf::Document, id: (u32, u16)) -> (r: Result<Vec<Operation>, PdfParseError>)
    ensures
        stream_view(r) == object_decoded(*doc, id),
{
    let stream = match stream_at(doc, id) {
        Ok(s) => s,
        Err(e) => return Err(e),
    };
    if !check_predictor(decode_params(stream)) {
        return Err(PdfParseError::Lopdf);
    }
    let bytes = match decompressed(stream) {
        Ok(b) => b,
        Err(e) => return Err(e),
    };
    decode_content(bytes.as_slice())
}

/// The ids of a document's pages, in document order.
pub uninterp spec fn pages_of(doc: lopdf::Document) -> Seq<(u32, u16)>;

/// The ids of a page's content objects, in the order the page lists them.
pub uninterp spec fn page_contents_of(doc: lopdf::Document, page: (u32, u16)) -> Seq<(u32, u16)>;

/// Relies on `lopdf::Document::page_iter`: the ids of the pages, walking the
/// page tree in document order.
#[verifier::external_body]
fn page_ids(doc: &lopdf::Document) -> (r: Vec<(u32, u16)>)
    ensures
        r@ == pages_of(*doc),
{
    doc.page_iter().collect()
}

/// Relies on `lopdf::Document::get_page_contents`: the ids of a page's content objects.
#[verifier::external_body]
fn page_content_ids(doc: &lopdf::Document, page: (u32, u16)) -> (r: Vec<(u32, u16)>)
    ensures
        r@ == page_contents_of(*doc, page),
{
    doc.get_page_contents(page)
}

/// The content objects of the given pages: each page's in turn.
pub open spec fn contents_of_pages(doc: lopdf::Document, pages: Seq<(u32, u16)>) -> Seq<(u32, u16)>
    decreases pages.len(),
{
    if pages.len() == 0 {
        Seq::empty()
    } else {
        contents_of_pages(doc, pages.drop_last()) + page_contents_of(doc, pages.last())
    }
}

/// The content objects of a document, page by page in document order.
pub fn content_object_ids(doc: &lopdf::Document) -> (r: Vec<(u32, u16)>)
    ensures
        r@ == contents_of_pages(*doc, pages_of(*doc)),
{
    let pages = page_ids(doc);
    let mut out: Vec<(u32, u16)> = Vec::new();
    let mut i: usize = 0;
    assert(pages@.take(0) =~= Seq::<(u32, u16)>::empty());
    while i < pages.len()
        invariant
            i <= pages@.len(),
            out@ == contents_of_pages(*doc, pages@.take(i as int)),
        decreases pages.len() - i,
    {
        let ids = page_content_ids(doc, pages[i]);
        let ghost before = out@;
        let mut j: usize = 0;
        while j < ids.len()
            invariant
                j <= ids@.len(),
                out@ == before + ids@.take(j as int),
            decreases ids.len() - j,
        {
            out.push(ids[j]);
            assert(before + ids@.take(j + 1) =~= (before + ids@.take(j as int)).push(ids@[j as int]));
            j = j + 1;
        }
        assert(ids@.take(j as int) =~= ids@);
        assert(pages@.take(i + 1).drop_last() =~= pages@.take(i as int));
        i = i + 1;
    }
    assert(pages@.take(i as int) =~= pages@);
    out
}

} // verus!
