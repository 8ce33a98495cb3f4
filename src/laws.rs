//! Properties of the operator table, stated over the decode model and proved.
use crate::decode::{
    decoded, is_known, marker_of, name_at, numbers_of, numbers_present, numeric_arity, numeric_operation,
};
use crate::operation::{Operation, OperationView, ParseErrorView, PdfParseError, result_view};
use crate::stream::{decoded_all, Instruction};
use crate::text::{joined_text, piece_of, utf8_text};
use crate::value::{number_at, Number, RawValue};
use vstd::prelude::*;

verus! {

/// The numeric fields of an operation, in operand order.
pub open spec fn numbers_in(v: OperationView) -> Seq<Number> {
    match v {
        OperationView::SetTextFontAndSize { size, .. } => seq![size],
        OperationView::SetCharacterSpacing { spacing } => seq![spacing],
        OperationView::SetWordSpacing { spacing } => seq![spacing],
        OperationView::SetTextMatrixAndTextLineMatrix { a, b, c, d, e, f } => seq![a, b, c, d, e, f],
        OperationView::MoveTextPosition { t_x, t_y } => seq![t_x, t_y],
        OperationView::MoveTextPositionAndSetLeading { t_x, t_y } => seq![t_x, t_y],
        OperationView::AppendRectangleToPath { x, y, width, height } => seq![x, y, width, height],
        _ => Seq::empty(),
    }
}

/// The operator names of the table are pairwise distinct.
proof fn lemma_names_distinct()
    ensures
        marker_of("Tc"@) is None,
        marker_of("Tw"@) is None,
        marker_of("Td"@) is None,
        marker_of("TD"@) is None,
        marker_of("re"@) is None,
        marker_of("Tm"@) is None,
        marker_of("Tf"@) is None,
        marker_of("Tj"@) is None,
        marker_of("TJ"@) is None,
        numeric_arity("Tf"@) is None,
        numeric_arity("Tj"@) is None,
        numeric_arity("TJ"@) is None,
        "Tj"@ != "Tf"@,
        "TJ"@ != "Tf"@,
        "TJ"@ != "Tj"@,
{
    reveal_strlit("BDC");
    reveal_strlit("EMC");
    reveal_strlit("BT");
    assert("BT"@[0] == 'B' && "BT"@[1] == 'T');
    reveal_strlit("ET");
    assert("ET"@[0] == 'E' && "ET"@[1] == 'T');
    reveal_strlit("CS");
    assert("CS"@[0] == 'C' && "CS"@[1] == 'S');
    reveal_strlit("cs");
    assert("cs"@[0] == 'c' && "cs"@[1] == 's');
    reveal_strlit("scn");
    reveal_strlit("q");
    reveal_strlit("Q");
    reveal_strlit("T*");
    assert("T*"@[0] == 'T' && "T*"@[1] == '*');
    reveal_strlit("f");
    reveal_strlit("F");
    reveal_strlit("f*");
    assert("f*"@[0] == 'f' && "f*"@[1] == '*');
    reveal_strlit("W");
    reveal_strlit("n");
    reveal_strlit("Tc");
    assert("Tc"@[0] == 'T' && "Tc"@[1] == 'c');
    reveal_strlit("Tw");
    assert("Tw"@[0] == 'T' && "Tw"@[1] == 'w');
    reveal_strlit("Td");
    assert("Td"@[0] == 'T' && "Td"@[1] == 'd');
    reveal_strlit("TD");
    assert("TD"@[0] == 'T' && "TD"@[1] == 'D');
    reveal_strlit("re");
    assert("re"@[0] == 'r' && "re"@[1] == 'e');
    reveal_strlit("Tm");
    assert("Tm"@[0] == 'T' && "Tm"@[1] == 'm');
    reveal_strlit("Tf");
    assert("Tf"@[0] == 'T' && "Tf"@[1] == 'f');
    reveal_strlit("Tj");
    assert("Tj"@[0] == 'T' && "Tj"@[1] == 'j');
    reveal_strlit("TJ");
    assert("TJ"@[0] == 'T' && "TJ"@[1] == 'J');
}

/// An operand-free operator decodes to its own operation whatever operands follow it.
pub proof fn law_marker_ignores_operands(op: Seq<char>, args: Seq<RawValue>)
    requires
        marker_of(op) is Some,
    ensures
        decoded(op, args) == Ok::<OperationView, ParseErrorView>(marker_of(op)->Some_0),
{
}

/// A numeric operator given numbers at each position it reads yields its own
/// operation, whose fields are those numbers in order.
pub proof fn law_numeric_operands_kept(op: Seq<char>, args: Seq<RawValue>)
    requires
        numeric_arity(op) is Some,
        numbers_present(args, numeric_arity(op)->Some_0),
    ensures
        decoded(op, args) == Ok::<OperationView, ParseErrorView>(
            numeric_operation(op, numbers_of(args, numeric_arity(op)->Some_0)),
        ),
        numbers_in(decoded(op, args)->Ok_0) == numbers_of(args, numeric_arity(op)->Some_0),
{
    lemma_names_distinct();
    let k = numeric_arity(op)->Some_0;
    let n = numbers_of(args, k);
    assert(marker_of(op) is None);
    assert(numbers_in(decoded(op, args)->Ok_0) =~= n);
}

/// A numeric operator whose operand at some position it reads is missing or
/// not a number is an `OperandType` error.
pub proof fn law_numeric_misshaped_rejected(op: Seq<char>, args: Seq<RawValue>, i: int)
    requires
        numeric_arity(op) is Some,
        0 <= i < numeric_arity(op)->Some_0,
        number_at(args, i) is None,
    ensures
        decoded(op, args) == Err::<OperationView, ParseErrorView>(ParseErrorView::OperandType),
{
    lemma_names_distinct();
    assert(marker_of(op) is None);
    assert(!numbers_present(args, numeric_arity(op)->Some_0));
}

/// `Tf` with a name and a number yields that name and size unchanged.
pub proof fn law_font_operands_kept(args: Seq<RawValue>)
    requires
        name_at(args, 0) is Some,
        number_at(args, 1) is Some,
    ensures
        decoded("Tf"@, args) == Ok::<OperationView, ParseErrorView>(
            OperationView::SetTextFontAndSize { name: name_at(args, 0)->Some_0, size: number_at(args, 1)->Some_0 },
        ),
{
    lemma_names_distinct();
}

/// `Tf` without a name first or a number second is an `OperandType` error.
pub proof fn law_font_misshaped_rejected(args: Seq<RawValue>)
    requires
        name_at(args, 0) is None || number_at(args, 1) is None,
    ensures
        decoded("Tf"@, args) == Err::<OperationView, ParseErrorView>(ParseErrorView::OperandType),
{
    lemma_names_distinct();
}

/// `Tj` with a UTF-8 string yields exactly its text.
pub proof fn law_text_kept(args: Seq<RawValue>, bytes: Vec<u8>)
    requires
        args.len() > 0,
        args[0] == RawValue::StringLiteral(bytes),
        utf8_text(bytes@) is Some,
    ensures
        decoded("Tj"@, args) == Ok::<OperationView, ParseErrorView>(
            OperationView::ShowText { body: utf8_text(bytes@)->Some_0 },
        ),
{
    lemma_names_distinct();
}

/// `Tj` with bytes that are not UTF-8 is a `Utf8` error holding those bytes.
pub proof fn law_text_not_utf8_rejected(args: Seq<RawValue>, bytes: Vec<u8>)
    requires
        args.len() > 0,
        args[0] == RawValue::StringLiteral(bytes),
        utf8_text(bytes@) is None,
    ensures
        decoded("Tj"@, args) == Err::<OperationView, ParseErrorView>(ParseErrorView::Utf8(bytes@)),
{
    lemma_names_distinct();
}

/// `Tj` with no operand, or with one that is not a string, is an `OperandType` error.
pub proof fn law_text_misshaped_rejected(args: Seq<RawValue>)
    requires
        args.len() == 0 || !(args[0] is StringLiteral),
    ensures
        decoded("Tj"@, args) == Err::<OperationView, ParseErrorView>(ParseErrorView::OperandType),
{
    lemma_names_distinct();
}

/// `TJ` with an array whose items all decode yields their text joined in order.
pub proof fn law_positioned_text_kept(args: Seq<RawValue>, items: Vec<RawValue>)
    requires
        args.len() > 0,
        args[0] == RawValue::Array(items),
        joined_text(items@) is Ok,
    ensures
        decoded("TJ"@, args) == Ok::<OperationView, ParseErrorView>(
            OperationView::ShowTextAllowingIndividualGlyphPositioning { body: joined_text(items@)->Ok_0 },
        ),
{
    lemma_names_distinct();
}

/// In a glyph-positioning array, the first item that fails decides the error.
proof fn lemma_first_failing_piece(items: Seq<RawValue>, i: int)
    requires
        0 <= i < items.len(),
        forall|j: int| 0 <= j < i ==> #[trigger] piece_of(items[j]) is Ok,
        piece_of(items[i]) is Err,
    ensures
        joined_text(items) == piece_of(items[i]),
    decreases i,
{
    if i > 0 {
        let rest = items.drop_first();
        assert forall|j: int| 0 <= j < i - 1 implies #[trigger] piece_of(rest[j]) is Ok by {
            assert(rest[j] == items[j + 1]);
        }
        lemma_first_failing_piece(rest, i - 1);
        assert(piece_of(items[0]) is Ok);
    }
}

/// `TJ` whose array holds, after items that all decode, one that is neither a
/// string nor a number is an `OperandType` error.
pub proof fn law_positioned_text_item_misshaped(args: Seq<RawValue>, items: Vec<RawValue>, i: int)
    requires
        args.len() > 0,
        args[0] == RawValue::Array(items),
        0 <= i < items@.len(),
        forall|j: int| 0 <= j < i ==> #[trigger] piece_of(items@[j]) is Ok,
        !(items@[i] is StringLiteral || items@[i] is Integer || items@[i] is Real),
    ensures
        decoded("TJ"@, args) == Err::<OperationView, ParseErrorView>(ParseErrorView::OperandType),
{
    lemma_names_distinct();
    lemma_first_failing_piece(items@, i);
}

/// `TJ` with a first operand that is not an array is an `OperandType` error.
pub proof fn law_positioned_text_misshaped_rejected(args: Seq<RawValue>)
    requires
        args.len() > 0,
        !(args[0] is Array),
    ensures
        decoded("TJ"@, args) == Err::<OperationView, ParseErrorView>(ParseErrorView::OperandType),
{
    lemma_names_distinct();
}

/// `TJ` with no operand, or with an empty array, yields empty text.
pub proof fn law_positioned_text_empty(args: Seq<RawValue>)
    requires
        args.len() == 0 || (args[0] is Array && args[0]->Array_0@.len() == 0),
    ensures
        decoded("TJ"@, args) == Ok::<OperationView, ParseErrorView>(
            OperationView::ShowTextAllowingIndividualGlyphPositioning { body: Seq::empty() },
        ),
{
    lemma_names_distinct();
}

/// An operator outside the table is an `UnknownOperator` error naming it,
/// whatever the operands, none included.
pub proof fn law_unknown_operator(op: Seq<char>, args: Seq<RawValue>)
    requires
        !is_known(op),
    ensures
        decoded(op, args) == Err::<OperationView, ParseErrorView>(ParseErrorView::UnknownOperator(op)),
{
}

/// When every instruction of a stream decodes, the stream decodes to their
/// operations, one for each, in the same order.
pub proof fn law_stream_keeps_order(instrs: Seq<Instruction>)
    requires
        forall|i: int| 0 <= i < instrs.len() ==> #[trigger] decoded(instrs[i].operator@, instrs[i].operands@) is Ok,
    ensures
        decoded_all(instrs) is Ok,
        decoded_all(instrs)->Ok_0.len() == instrs.len(),
        forall|i: int| 0 <= i < instrs.len() ==>
            #[trigger] decoded_all(instrs)->Ok_0[i] == decoded(instrs[i].operator@, instrs[i].operands@)->Ok_0,
    decreases instrs.len(),
{
    if instrs.len() > 0 {
        let rest = instrs.drop_first();
        assert forall|i: int| 0 <= i < rest.len() implies #[trigger] decoded(rest[i].operator@, rest[i].operands@) is Ok by {
            assert(rest[i] == instrs[i + 1]);
        }
        law_stream_keeps_order(rest);
        assert(decoded(instrs[0].operator@, instrs[0].operands@) is Ok);
        assert forall|i: int| 0 <= i < instrs.len() implies
            #[trigger] decoded_all(instrs)->Ok_0[i] == decoded(instrs[i].operator@, instrs[i].operands@)->Ok_0 by {
            if i > 0 {
                assert(rest[i - 1] == instrs[i]);
            }
        }
    }
}

/// Decoding is a function of the instruction alone: two decodes of the same
/// operator and operands give equal outcomes.
pub proof fn law_decode_is_pure(
    op: Seq<char>,
    args: Seq<RawValue>,
    r1: Result<Operation, PdfParseError>,
    r2: Result<Operation, PdfParseError>,
)
    requires
        result_view(r1) == decoded(op, args),
        result_view(r2) == decoded(op, args),
    ensures
        result_view(r1) == result_view(r2),
{
}

} // verus!
