//! Decoding a whole content stream, and which operations a reader is shown.
use crate::decode::{decode, decoded};
use crate::operation::{Operation, OperationView, PdfParseError, ParseErrorView};
use crate::value::RawValue;
use vstd::prelude::*;

verus! {

/// One raw instruction: an operator name and its operands, in order.
#[derive(Debug)]
pub struct Instruction {
    pub operator: String,
    pub operands: Vec<RawValue>,
}

/// The operations of a sequence of instructions, decoded in order; the first
/// instruction that fails decides the error.
pub open spec fn decoded_all(instrs: Seq<Instruction>) -> Result<Seq<OperationView>, ParseErrorView>
    decreases instrs.len(),
{
    if instrs.len() == 0 {
        Ok(Seq::empty())
    } else {
        match decoded(instrs[0].operator@, instrs[0].operands@) {
            Err(e) => Err(e),
            Ok(o) => match decoded_all(instrs.drop_first()) {
                Err(e) => Err(e),
                Ok(rest) => Ok(seq![o] + rest),
            },
        }
    }
}

/// The models of a sequence of operations.
pub open spec fn views_of(ops: Seq<Operation>) -> Seq<OperationView> {
    ops.map_values(|o: Operation| o@)
}

/// The model of a stream decode outcome.
pub open spec fn stream_view(r: Result<Vec<Operation>, PdfParseError>) -> Result<Seq<OperationView>, ParseErrorView> {
    match r {
        Ok(ops) => Ok(views_of(ops@)),
        Err(e) => Err(e@),
    }
}

/// `done` followed by the operations in `r`, or the error in `r`.
pub open spec fn continued(done: Seq<OperationView>, r: Result<Seq<OperationView>, ParseErrorView>) -> Result<Seq<OperationView>, ParseErrorView> {
    match r {
        Ok(rest) => Ok(done + rest),
        Err(e) => Err(e),
    }
}

/// Decodes every instruction in order, stopping at the first failure.
pub fn decode_all(instrs: &Vec<Instruction>) -> (r: Result<Vec<Operation>, PdfParseError>)
    ensures
        stream_view(r) == decoded_all(instrs@),
{
    let mut out: Vec<Operation> = Vec::new();
    let mut i: usize = 0;
    assert(instrs@.skip(0) =~= instrs@);
    assert(views_of(out@) + Seq::<OperationView>::empty() =~= Seq::<OperationView>::empty());
    while i < instrs.len()
        invariant
            i <= instrs.len(),
            decoded_all(instrs@) == continued(views_of(out@), decoded_all(instrs@.skip(i as int))),
        decreases instrs.len() - i,
    {
        let ghost rest = instrs@.skip(i as int);
        assert(rest.drop_first() =~= instrs@.skip(i + 1));
        assert(rest[0] == instrs@[i as int]);
        let instr = &instrs[i];
        match decode(instr.operator.as_str(), instr.operands.as_slice()) {
            Ok(o) => {
                let ghost before = views_of(out@);
                out.push(o);
                proof {
                    assert(views_of(out@) =~= before.push(o@));
                    match decoded_all(instrs@.skip(i + 1)) {
                        Ok(t) => {
                            assert(before + (seq![o@] + t) =~= views_of(out@) + t);
                        },
                        Err(_) => {},
                    }
                }
            },
            Err(e) => {
                return Err(e);
            },
        }
        i = i + 1;
    }
    assert(instrs@.skip(i as int).len() == 0);
    assert(views_of(out@) + Seq::<OperationView>::empty() =~= views_of(out@));
    Ok(out)
}

/// Whether an operation is shown to a reader: structural and state operations
/// are passed over; colour settings, plain text and the less common fills are shown.
pub open spec fn reported(v: OperationView) -> bool {
    match v {
        OperationView::SetColorSpaceForStrokingOperations => true,
        OperationView::SetColorSpaceForNonstrokingOperations => true,
        OperationView::SetColorForNonstrokingOperations => true,
        OperationView::ShowText { .. } => true,
        OperationView::FillPathUsingNonzeroWindingNumberRuleObsolete => true,
        OperationView::FillPathUsingEvenOddRule => true,
        _ => false,
    }
}

/// Decides whether an operation is shown to a reader.
pub fn is_reported(op: &Operation) -> (r: bool)
    ensures
        r == reported(op@),
{
    match op {
        Operation::SetColorSpaceForStrokingOperations => true,
        Operation::SetColorSpaceForNonstrokingOperations => true,
        Operation::SetColorForNonstrokingOperations => true,
        Operation::ShowText { .. } => true,
        Operation::FillPathUsingNonzeroWindingNumberRuleObsolete => true,
        Operation::FillPathUsingEvenOddRule => true,
        _ => false,
    }
}

} // verus!
