//! The closed set of typed operations, the decode errors, and their models.
use crate::value::Number;
use vstd::prelude::*;

verus! {

/// One validated page-content operation. Every field is populated.
#[derive(Debug, PartialEq)]
pub enum Operation {
    BeginMarkedContentSequenceWithPropertyList,
    EndMarkedContentSequence,
    BeginTextObject,
    EndTextObject,
    SetColorSpaceForStrokingOperations,
    SetColorSpaceForNonstrokingOperations,
    SetColorForNonstrokingOperations,
    SetTextFontAndSize { name: Vec<u8>, size: Number },
    SetCharacterSpacing { spacing: Number },
    SetWordSpacing { spacing: Number },
    SetTextMatrixAndTextLineMatrix { a: Number, b: Number, c: Number, d: Number, e: Number, f: Number },
    ShowText { body: String },
    ShowTextAllowingIndividualGlyphPositioning { body: String },
    SaveGraphicsState,
    RestoreGraphicsState,
    MoveTextPosition { t_x: Number, t_y: Number },
    MoveTextPositionAndSetLeading { t_x: Number, t_y: Number },
    MoveToStartOfNextLine,
    AppendRectangleToPath { x: Number, y: Number, width: Number, height: Number },
    FillPathUsingNonzeroWindingNumberRule,
    FillPathUsingNonzeroWindingNumberRuleObsolete,
    FillPathUsingEvenOddRule,
    SetClippingPathUsingNonzeroWindingNumberRule,
    EndPathWithoutFillingOrStroking,
}

/// The mathematical value of an `Operation`: bytes and text as sequences.
pub enum OperationView {
    BeginMarkedContentSequenceWithPropertyList,
    EndMarkedContentSequence,
    BeginTextObject,
    EndTextObject,
    SetColorSpaceForStrokingOperations,
    SetColorSpaceForNonstrokingOperations,
    SetColorForNonstrokingOperations,
    SetTextFontAndSize { name: Seq<u8>, size: Number },
    SetCharacterSpacing { spacing: Number },
    SetWordSpacing { spacing: Number },
    SetTextMatrixAndTextLineMatrix { a: Number, b: Number, c: Number, d: Number, e: Number, f: Number },
    ShowText { body: Seq<char> },
    ShowTextAllowingIndividualGlyphPositioning { body: Seq<char> },
    SaveGraphicsState,
    RestoreGraphicsState,
    MoveTextPosition { t_x: Number, t_y: Number },
    MoveTextPositionAndSetLeading { t_x: Number, t_y: Number },
    MoveToStartOfNextLine,
    AppendRectangleToPath { x: Number, y: Number, width: Number, height: Number },
    FillPathUsingNonzeroWindingNumberRule,
    FillPathUsingNonzeroWindingNumberRuleObsolete,
    FillPathUsingEvenOddRule,
    SetClippingPathUsingNonzeroWindingNumberRule,
    EndPathWithoutFillingOrStroking,
}

impl View for Operation {
    type V = OperationView;

    open spec fn view(&self) -> OperationView {
        match self {
            Operation::BeginMarkedContentSequenceWithPropertyList => OperationView::BeginMarkedContentSequenceWithPropertyList,
            Operation::EndMarkedContentSequence => OperationView::EndMarkedContentSequence,
            Operation::BeginTextObject => OperationView::BeginTextObject,
            Operation::EndTextObject => OperationView::EndTextObject,
            Operation::SetColorSpaceForStrokingOperations => OperationView::SetColorSpaceForStrokingOperations,
            Operation::SetColorSpaceForNonstrokingOperations => OperationView::SetColorSpaceForNonstrokingOperations,
            Operation::SetColorForNonstrokingOperations => OperationView::SetColorForNonstrokingOperations,
            Operation::SetTextFontAndSize { name, size } => OperationView::SetTextFontAndSize { name: name@, size: *size },
            Operation::SetCharacterSpacing { spacing } => OperationView::SetCharacterSpacing { spacing: *spacing },
            Operation::SetWordSpacing { spacing } => OperationView::SetWordSpacing { spacing: *spacing },
            Operation::SetTextMatrixAndTextLineMatrix { a, b, c, d, e, f } =>
                OperationView::SetTextMatrixAndTextLineMatrix { a: *a, b: *b, c: *c, d: *d, e: *e, f: *f },
            Operation::ShowText { body } => OperationView::ShowText { body: body@ },
            Operation::ShowTextAllowingIndividualGlyphPositioning { body } =>
                OperationView::ShowTextAllowingIndividualGlyphPositioning { body: body@ },
            Operation::SaveGraphicsState => OperationView::SaveGraphicsState,
            Operation::RestoreGraphicsState => OperationView::RestoreGraphicsState,
            Operation::MoveTextPosition { t_x, t_y } => OperationView::MoveTextPosition { t_x: *t_x, t_y: *t_y },
            Operation::MoveTextPositionAndSetLeading { t_x, t_y } =>
                OperationView::MoveTextPositionAndSetLeading { t_x: *t_x, t_y: *t_y },
            Operation::MoveToStartOfNextLine => OperationView::MoveToStartOfNextLine,
            Operation::AppendRectangleToPath { x, y, width, height } =>
                OperationView::AppendRectangleToPath { x: *x, y: *y, width: *width, height: *height },
            Operation::FillPathUsingNonzeroWindingNumberRule => OperationView::FillPathUsingNonzeroWindingNumberRule,
            Operation::FillPathUsingNonzeroWindingNumberRuleObsolete => OperationView::FillPathUsingNonzeroWindingNumberRuleObsolete,
            Operation::FillPathUsingEvenOddRule => OperationView::FillPathUsingEvenOddRule,
            Operation::SetClippingPathUsingNonzeroWindingNumberRule => OperationView::SetClippingPathUsingNonzeroWindingNumberRule,
            Operation::EndPathWithoutFillingOrStroking => OperationView::EndPathWithoutFillingOrStroking,
        }
    }
}

/// Why an instruction could not be turned into an operation.
#[derive(Debug, PartialEq)]
pub enum PdfParseError {
    /// The operator is not in the table.
    UnknownOperator(String),
    /// Reserved for arity failures that no other kind covers.
    MissingOperands,
    /// An operand is absent or not of the shape the operator requires.
    OperandType,
    /// The document store or the tokenizer failed.
    Lopdf,
    /// Text bytes that are not UTF-8; they are handed back unchanged.
    Utf8(Vec<u8>),
}

/// The mathematical value of a `PdfParseError`.
pub enum ParseErrorView {
    UnknownOperator(Seq<char>),
    MissingOperands,
    OperandType,
    Lopdf,
    Utf8(Seq<u8>),
}

impl View for PdfParseError {
    type V = ParseErrorView;

    open spec fn view(&self) -> ParseErrorView {
        match self {
            PdfParseError::UnknownOperator(name) => ParseErrorView::UnknownOperator(name@),
            PdfParseError::MissingOperands => ParseErrorView::MissingOperands,
            PdfParseError::OperandType => ParseErrorView::OperandType,
            PdfParseError::Lopdf => ParseErrorView::Lopdf,
            PdfParseError::Utf8(bytes) => ParseErrorView::Utf8(bytes@),
        }
    }
}

/// The model of a decode outcome.
pub open spec fn result_view<T: View>(r: Result<T, PdfParseError>) -> Result<T::V, ParseErrorView> {
    match r {
        Ok(v) => Ok(v@),
        Err(e) => Err(e@),
    }
}

} // verus!
