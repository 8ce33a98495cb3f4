//! The operator table: one instruction in, one typed operation or an error out.
use crate::operation::{Operation, OperationView, PdfParseError, ParseErrorView, result_view};
use crate::text::{decode_text, join_text, joined_text, text_of};
use crate::value::{as_number, number_at, Number, RawValue};
use vstd::prelude::*;
use vstd::string::*;

verus! {

/// The bytes of the name at position `i`, if that operand is a name.
pub open spec fn name_at(args: Seq<RawValue>, i: int) -> Option<Seq<u8>> {
    if 0 <= i < args.len() {
        match args[i] {
            RawValue::Name(n) => Some(n@),
            _ => None,
        }
    } else {
        None
    }
}

/// What a `Tj` operand list decodes to.
pub open spec fn show_text_of(args: Seq<RawValue>) -> Result<OperationView, ParseErrorView> {
    if args.len() > 0 {
        match args[0] {
            RawValue::StringLiteral(b) => match text_of(b@) {
                Ok(t) => Ok(OperationView::ShowText { body: t }),
                Err(e) => Err(e),
            },
            _ => Err(ParseErrorView::OperandType),
        }
    } else {
        Err(ParseErrorView::OperandType)
    }
}

/// What a `TJ` operand list decodes to; no operand at all means empty text.
pub open spec fn show_positioned_text_of(args: Seq<RawValue>) -> Result<OperationView, ParseErrorView> {
    if args.len() == 0 {
        Ok(OperationView::ShowTextAllowingIndividualGlyphPositioning { body: Seq::empty() })
    } else {
        match args[0] {
            RawValue::Array(items) => match joined_text(items@) {
                Ok(t) => Ok(OperationView::ShowTextAllowingIndividualGlyphPositioning { body: t }),
                Err(e) => Err(e),
            },
            _ => Err(ParseErrorView::OperandType),
        }
    }
}

/// The operand-free operators, with the operation each stands for.
pub open spec fn marker_of(op: Seq<char>) -> Option<OperationView> {
    if op == "BDC"@ {
        Some(OperationView::BeginMarkedContentSequenceWithPropertyList)
    } else if op == "EMC"@ {
        Some(OperationView::EndMarkedContentSequence)
    } else if op == "BT"@ {
        Some(OperationView::BeginTextObject)
    } else if op == "ET"@ {
        Some(OperationView::EndTextObject)
    } else if op == "CS"@ {
        Some(OperationView::SetColorSpaceForStrokingOperations)
    } else if op == "cs"@ {
        Some(OperationView::SetColorSpaceForNonstrokingOperations)
    } else if op == "scn"@ {
        Some(OperationView::SetColorForNonstrokingOperations)
    } else if op == "q"@ {
        Some(OperationView::SaveGraphicsState)
    } else if op == "Q"@ {
        Some(OperationView::RestoreGraphicsState)
    } else if op == "T*"@ {
        Some(OperationView::MoveToStartOfNextLine)
    } else if op == "f"@ {
        Some(OperationView::FillPathUsingNonzeroWindingNumberRule)
    } else if op == "F"@ {
        Some(OperationView::FillPathUsingNonzeroWindingNumberRuleObsolete)
    } else if op == "f*"@ {
        Some(OperationView::FillPathUsingEvenOddRule)
    } else if op == "W"@ {
        Some(OperationView::SetClippingPathUsingNonzeroWindingNumberRule)
    } else if op == "n"@ {
        Some(OperationView::EndPathWithoutFillingOrStroking)
    } else {
        None
    }
}

/// The operators whose operands are all numbers, with how many they take.
pub open spec fn numeric_arity(op: Seq<char>) -> Option<nat> {
    if op == "Tc"@ || op == "Tw"@ {
        Some(1)
    } else if op == "Td"@ || op == "TD"@ {
        Some(2)
    } else if op == "re"@ {
        Some(4)
    } else if op == "Tm"@ {
        Some(6)
    } else {
        None
    }
}

/// The operation a numeric operator builds from its numbers, in operand order.
pub open spec fn numeric_operation(op: Seq<char>, n: Seq<Number>) -> OperationView {
    if op == "Tc"@ {
        OperationView::SetCharacterSpacing { spacing: n[0] }
    } else if op == "Tw"@ {
        OperationView::SetWordSpacing { spacing: n[0] }
    } else if op == "Td"@ {
        OperationView::MoveTextPosition { t_x: n[0], t_y: n[1] }
    } else if op == "TD"@ {
        OperationView::MoveTextPositionAndSetLeading { t_x: n[0], t_y: n[1] }
    } else if op == "re"@ {
        OperationView::AppendRectangleToPath { x: n[0], y: n[1], width: n[2], height: n[3] }
    } else {
        OperationView::SetTextMatrixAndTextLineMatrix { a: n[0], b: n[1], c: n[2], d: n[3], e: n[4], f: n[5] }
    }
}

/// Whether the first `k` operands are all numbers.
pub open spec fn numbers_present(args: Seq<RawValue>, k: nat) -> bool {
    forall|i: int| 0 <= i < k ==> #[trigger] number_at(args, i) is Some
}

/// The first `k` operands as numbers.
pub open spec fn numbers_of(args: Seq<RawValue>, k: nat) -> Seq<Number> {
    Seq::new(k, |i: int| number_at(args, i)->Some_0)
}

/// Whether the operator is in the table.
pub open spec fn is_known(op: Seq<char>) -> bool {
    marker_of(op) is Some || numeric_arity(op) is Some || op == "Tf"@ || op == "Tj"@ || op == "TJ"@
}

/// The outcome of decoding one instruction. Operands beyond those an operator
/// reads are ignored.
pub open spec fn decoded(op: Seq<char>, args: Seq<RawValue>) -> Result<OperationView, ParseErrorView> {
    if marker_of(op) is Some {
        Ok(marker_of(op)->Some_0)
    } else if numeric_arity(op) is Some {
        let k = numeric_arity(op)->Some_0;
        if numbers_present(args, k) {
            Ok(numeric_operation(op, numbers_of(args, k)))
        } else {
            Err(ParseErrorView::OperandType)
        }
    } else if op == "Tf"@ {
        match (name_at(args, 0), number_at(args, 1)) {
            (Some(name), Some(size)) => Ok(OperationView::SetTextFontAndSize { name, size }),
            _ => Err(ParseErrorView::OperandType),
        }
    } else if op == "Tj"@ {
        show_text_of(args)
    } else if op == "TJ"@ {
        show_positioned_text_of(args)
    } else {
        Err(ParseErrorView::UnknownOperator(op))
    }
}

/// Whether two strings hold the same characters.
fn same_chars(s: &str, t: &str) -> (r: bool)
    ensures
        r == (s@ == t@),
{
    let n = s.unicode_len();
    if n != t.unicode_len() {
        return false;
    }
    let mut i: usize = 0;
    while i < n
        invariant
            n == s@.len(),
            n == t@.len(),
            i <= n,
            forall|j: int| 0 <= j < i ==> s@[j] == t@[j],
        decreases n - i,
    {
        if s.get_char(i) != t.get_char(i) {
            return false;
        }
        i = i + 1;
    }
    assert(s@ =~= t@);
    true
}

/// The number at position `i`, if that operand is numeric.
fn number_arg(args: &[RawValue], i: usize) -> (r: Option<Number>)
    ensures
        r == number_at(args@, i as int),
{
    if i < args.len() {
        as_number(&args[i])
    } else {
        None
    }
}

/// Decodes the marker operators; `None` for every other operator.
fn decode_marker(op: &str) -> (r: Option<Operation>)
    ensures
        match (r, marker_of(op@)) {
            (Some(o), Some(v)) => o@ == v,
            (None, None) => true,
            _ => false,
        },
{
    if same_chars(op, "BDC") {
        Some(Operation::BeginMarkedContentSequenceWithPropertyList)
    } else if same_chars(op, "EMC") {
        Some(Operation::EndMarkedContentSequence)
    } else if same_chars(op, "BT") {
        Some(Operation::BeginTextObject)
    } else if same_chars(op, "ET") {
        Some(Operation::EndTextObject)
    } else if same_chars(op, "CS") {
        Some(Operation::SetColorSpaceForStrokingOperations)
    } else if same_chars(op, "cs") {
        Some(Operation::SetColorSpaceForNonstrokingOperations)
    } else if same_chars(op, "scn") {
        Some(Operation::SetColorForNonstrokingOperations)
    } else if same_chars(op, "q") {
        Some(Operation::SaveGraphicsState)
    } else if same_chars(op, "Q") {
        Some(Operation::RestoreGraphicsState)
    } else if same_chars(op, "T*") {
        Some(Operation::MoveToStartOfNextLine)
    } else if same_chars(op, "f") {
        Some(Operation::FillPathUsingNonzeroWindingNumberRule)
    } else if same_chars(op, "F") {
        Some(Operation::FillPathUsingNonzeroWindingNumberRuleObsolete)
    } else if same_chars(op, "f*") {
        Some(Operation::FillPathUsingEvenOddRule)
    } else if same_chars(op, "W") {
        Some(Operation::SetClippingPathUsingNonzeroWindingNumberRule)
    } else if same_chars(op, "n") {
        Some(Operation::EndPathWithoutFillingOrStroking)
    } else {
        None
    }
}

/// Decodes the operators whose operands are all numbers.
fn decode_numeric(op: &str, args: &[RawValue]) -> (r: Result<Operation, PdfParseError>)
    requires
        marker_of(op@) is None,
        numeric_arity(op@) is Some,
    ensures
        result_view(r) == decoded(op@, args@),
{
    let k: usize;
    if same_chars(op, "Tc") || same_chars(op, "Tw") {
        k = 1;
    } else if same_chars(op, "Td") || same_chars(op, "TD") {
        k = 2;
    } else if same_chars(op, "re") {
        k = 4;
    } else {
        k = 6;
    }
    let mut n: Vec<Number> = Vec::new();
    let mut i: usize = 0;
    while i < k
        invariant
            marker_of(op@) is None,
            numeric_arity(op@) == Some(k as nat),
            i <= k,
            n@.len() == i,
            forall|j: int| 0 <= j < i ==> number_at(args@, j) == Some(#[trigger] n@[j]),
        decreases k - i,
    {
        match number_arg(args, i) {
            Some(x) => n.push(x),
            None => {
                assert(!numbers_present(args@, k as nat));
                return Err(PdfParseError::OperandType);
            },
        }
        i = i + 1;
    }
    assert(numbers_present(args@, k as nat)) by {
        assert forall|j: int| 0 <= j < k implies #[trigger] number_at(args@, j) is Some by {
            assert(number_at(args@, j) == Some(n@[j]));
        }
    }
    assert(numbers_of(args@, k as nat) =~= n@);
    let o = if same_chars(op, "Tc") {
        Operation::SetCharacterSpacing { spacing: n[0] }
    } else if same_chars(op, "Tw") {
        Operation::SetWordSpacing { spacing: n[0] }
    } else if same_chars(op, "Td") {
        Operation::MoveTextPosition { t_x: n[0], t_y: n[1] }
    } else if same_chars(op, "TD") {
        Operation::MoveTextPositionAndSetLeading { t_x: n[0], t_y: n[1] }
    } else if same_chars(op, "re") {
        Operation::AppendRectangleToPath { x: n[0], y: n[1], width: n[2], height: n[3] }
    } else {
        Operation::SetTextMatrixAndTextLineMatrix { a: n[0], b: n[1], c: n[2], d: n[3], e: n[4], f: n[5] }
    };
    Ok(o)
}

/// Decodes one instruction: the operator name and its operands, in order.
/// Unknown operators, missing or misshaped operands and non-UTF-8 text are
/// errors; no field is ever defaulted.
pub fn decode(operator: &str, operands: &[RawValue]) -> (r: Result<Operation, PdfParseError>)
    ensures
        result_view(r) == decoded(operator@, operands@),
{
    if let Some(o) = decode_marker(operator) {
        return Ok(o);
    }
    if same_chars(operator, "Tc") || same_chars(operator, "Tw") || same_chars(operator, "Td")
        || same_chars(operator, "TD") || same_chars(operator, "re") || same_chars(operator, "Tm") {
        return decode_numeric(operator, operands);
    }
    if same_chars(operator, "Tf") {
        if operands.len() > 0 {
            if let RawValue::Name(name) = &operands[0] {
                if let Some(size) = number_arg(operands, 1) {
                    let name = name.clone();
                    proof {
                        assert(name@ =~= name_at(operands@, 0)->Some_0);
                    }
                    return Ok(Operation::SetTextFontAndSize { name, size });
                }
            }
        }
        return Err(PdfParseError::OperandType);
    }
    if same_chars(operator, "Tj") {
        if operands.len() > 0 {
            if let RawValue::StringLiteral(bytes) = &operands[0] {
                return match decode_text(bytes) {
                    Ok(body) => Ok(Operation::ShowText { body }),
                    Err(e) => Err(e),
                };
            }
        }
        return Err(PdfParseError::OperandType);
    }
    if same_chars(operator, "TJ") {
        if operands.len() == 0 {
            return Ok(Operation::ShowTextAllowingIndividualGlyphPositioning { body: String::new() });
        }
        if let RawValue::Array(items) = &operands[0] {
            return match join_text(items) {
                Ok(body) => Ok(Operation::ShowTextAllowingIndividualGlyphPositioning { body }),
                Err(e) => Err(e),
            };
        }
        return Err(PdfParseError::OperandType);
    }
    Err(PdfParseError::UnknownOperator(operator.to_owned()))
}

} // verus!
