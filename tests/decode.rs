use pdf_ops::decode::decode;
use pdf_ops::operation::{Operation, PdfParseError};
use pdf_ops::value::{as_array, as_name, as_number, as_string, Number, RawValue};

fn integer(i: i64) -> RawValue {
    RawValue::Integer(i)
}

fn real_value(x: f32) -> RawValue {
    RawValue::Real(x.to_bits())
}

fn name(s: &str) -> RawValue {
    RawValue::Name(s.as_bytes().to_vec())
}

fn text(s: &str) -> RawValue {
    RawValue::StringLiteral(s.as_bytes().to_vec())
}

#[test]
fn accessors_narrow_by_shape() {
    assert_eq!(as_number(&integer(7)), Some(Number::Integer(7)));
    assert_eq!(as_number(&real_value(1.5)), Some(Number::Real(1.5f32.to_bits())));
    assert_eq!(as_number(&name("F1")), None);
    assert_eq!(as_name(&name("F1")), Some(&b"F1".to_vec()));
    assert_eq!(as_name(&text("F1")), None);
    assert_eq!(as_string(&text("hi")), Some(&b"hi".to_vec()));
    assert_eq!(as_string(&integer(1)), None);
    assert!(as_array(&RawValue::Array(vec![integer(1)])).is_some());
    assert!(as_array(&RawValue::Null).is_none());
}

#[test]
fn markers_decode_whatever_follows() {
    let cases = [
        ("BDC", Operation::BeginMarkedContentSequenceWithPropertyList),
        ("EMC", Operation::EndMarkedContentSequence),
        ("BT", Operation::BeginTextObject),
        ("ET", Operation::EndTextObject),
        ("CS", Operation::SetColorSpaceForStrokingOperations),
        ("cs", Operation::SetColorSpaceForNonstrokingOperations),
        ("scn", Operation::SetColorForNonstrokingOperations),
        ("q", Operation::SaveGraphicsState),
        ("Q", Operation::RestoreGraphicsState),
        ("T*", Operation::MoveToStartOfNextLine),
        ("f", Operation::FillPathUsingNonzeroWindingNumberRule),
        ("F", Operation::FillPathUsingNonzeroWindingNumberRuleObsolete),
        ("f*", Operation::FillPathUsingEvenOddRule),
        ("W", Operation::SetClippingPathUsingNonzeroWindingNumberRule),
        ("n", Operation::EndPathWithoutFillingOrStroking),
    ];
    for (op, expected) in cases {
        assert_eq!(decode(op, &[]), Ok(expected));
    }
    assert_eq!(decode("BDC", &[name("Span"), RawValue::Dictionary]), Ok(Operation::BeginMarkedContentSequenceWithPropertyList));
    assert_eq!(decode("cs", &[name("DeviceRGB")]), Ok(Operation::SetColorSpaceForNonstrokingOperations));
}

#[test]
fn font_and_size_are_kept() {
    assert_eq!(
        decode("Tf", &[name("F1"), integer(12)]),
        Ok(Operation::SetTextFontAndSize { name: b"F1".to_vec(), size: Number::Integer(12) })
    );
    assert_eq!(
        decode("Tf", &[name("Helv"), real_value(9.5)]),
        Ok(Operation::SetTextFontAndSize { name: b"Helv".to_vec(), size: Number::Real(9.5f32.to_bits()) })
    );
}

#[test]
fn font_operands_misshaped() {
    assert_eq!(decode("Tf", &[name("F1")]), Err(PdfParseError::OperandType));
    assert_eq!(decode("Tf", &[]), Err(PdfParseError::OperandType));
    assert_eq!(decode("Tf", &[text("F1"), integer(12)]), Err(PdfParseError::OperandType));
    assert_eq!(decode("Tf", &[name("F1"), name("F2")]), Err(PdfParseError::OperandType));
}

#[test]
fn numeric_operators_keep_values() {
    assert_eq!(decode("Tc", &[real_value(0.25)]), Ok(Operation::SetCharacterSpacing { spacing: Number::Real(0.25f32.to_bits()) }));
    assert_eq!(decode("Tw", &[integer(-3)]), Ok(Operation::SetWordSpacing { spacing: Number::Integer(-3) }));
    assert_eq!(
        decode("Tm", &[integer(1), integer(0), integer(0), integer(1), real_value(72.5), integer(700)]),
        Ok(Operation::SetTextMatrixAndTextLineMatrix {
            a: Number::Integer(1),
            b: Number::Integer(0),
            c: Number::Integer(0),
            d: Number::Integer(1),
            e: Number::Real(72.5f32.to_bits()),
            f: Number::Integer(700),
        })
    );
    assert_eq!(decode("Td", &[integer(10), integer(-14)]), Ok(Operation::MoveTextPosition { t_x: Number::Integer(10), t_y: Number::Integer(-14) }));
    assert_eq!(
        decode("TD", &[integer(0), real_value(-12.0)]),
        Ok(Operation::MoveTextPositionAndSetLeading { t_x: Number::Integer(0), t_y: Number::Real((-12.0f32).to_bits()) })
    );
    assert_eq!(
        decode("re", &[integer(1), integer(2), integer(3), integer(4)]),
        Ok(Operation::AppendRectangleToPath {
            x: Number::Integer(1),
            y: Number::Integer(2),
            width: Number::Integer(3),
            height: Number::Integer(4),
        })
    );
}

#[test]
fn numeric_operators_one_short_or_misshaped() {
    assert_eq!(decode("Tc", &[]), Err(PdfParseError::OperandType));
    assert_eq!(decode("Tw", &[name("x")]), Err(PdfParseError::OperandType));
    assert_eq!(decode("Tm", &[integer(1), integer(0), integer(0), integer(1), integer(0)]), Err(PdfParseError::OperandType));
    assert_eq!(decode("Tm", &[integer(1), integer(0), text("0"), integer(1), integer(0), integer(0)]), Err(PdfParseError::OperandType));
    assert_eq!(decode("Td", &[integer(1)]), Err(PdfParseError::OperandType));
    assert_eq!(decode("TD", &[RawValue::Null, integer(1)]), Err(PdfParseError::OperandType));
    assert_eq!(decode("re", &[integer(1), integer(2), integer(3)]), Err(PdfParseError::OperandType));
    assert_eq!(decode("re", &[integer(1), integer(2), integer(3), RawValue::Boolean(true)]), Err(PdfParseError::OperandType));
}

#[test]
fn show_text_kept() {
    assert_eq!(decode("Tj", &[text("Hello")]), Ok(Operation::ShowText { body: "Hello".to_string() }));
    assert_eq!(decode("Tj", &[RawValue::StringLiteral(vec![0xC3, 0xA9])]), Ok(Operation::ShowText { body: "\u{e9}".to_string() }));
    assert_eq!(decode("Tj", &[text("")]), Ok(Operation::ShowText { body: String::new() }));
}

#[test]
fn show_text_misshaped() {
    assert_eq!(decode("Tj", &[]), Err(PdfParseError::OperandType));
    assert_eq!(decode("Tj", &[name("Hello")]), Err(PdfParseError::OperandType));
}

#[test]
fn show_text_not_utf8() {
    let bad = vec![0x48, 0xFF, 0x49];
    assert_eq!(decode("Tj", &[RawValue::StringLiteral(bad.clone())]), Err(PdfParseError::Utf8(bad)));
    let truncated = vec![0xE2, 0x82];
    assert_eq!(decode("Tj", &[RawValue::StringLiteral(truncated.clone())]), Err(PdfParseError::Utf8(truncated)));
}

#[test]
fn positioned_text_empty() {
    let empty = Ok(Operation::ShowTextAllowingIndividualGlyphPositioning { body: String::new() });
    assert_eq!(decode("TJ", &[RawValue::Array(vec![])]), empty);
    assert_eq!(decode("TJ", &[]), empty);
}

#[test]
fn positioned_text_skips_numbers() {
    let items = vec![text("A"), integer(5), text("B")];
    assert_eq!(
        decode("TJ", &[RawValue::Array(items)]),
        Ok(Operation::ShowTextAllowingIndividualGlyphPositioning { body: "AB".to_string() })
    );
    let items = vec![real_value(-120.0), text("W"), real_value(3.5), text("or"), integer(-40), text("ld")];
    assert_eq!(
        decode("TJ", &[RawValue::Array(items)]),
        Ok(Operation::ShowTextAllowingIndividualGlyphPositioning { body: "World".to_string() })
    );
}

#[test]
fn positioned_text_errors() {
    assert_eq!(decode("TJ", &[text("A")]), Err(PdfParseError::OperandType));
    assert_eq!(decode("TJ", &[RawValue::Array(vec![text("A"), name("B")])]), Err(PdfParseError::OperandType));
    assert_eq!(
        decode("TJ", &[RawValue::Array(vec![text("A"), RawValue::StringLiteral(vec![0xFF]), name("B")])]),
        Err(PdfParseError::Utf8(vec![0xFF]))
    );
}

#[test]
fn unknown_operators_named() {
    assert_eq!(decode("BI", &[]), Err(PdfParseError::UnknownOperator("BI".to_string())));
    assert_eq!(decode("sh", &[name("Sh1")]), Err(PdfParseError::UnknownOperator("sh".to_string())));
    assert_eq!(decode("", &[]), Err(PdfParseError::UnknownOperator(String::new())));
    assert_eq!(decode("tj", &[text("x")]), Err(PdfParseError::UnknownOperator("tj".to_string())));
}

#[test]
fn decoding_twice_agrees() {
    let operands = [RawValue::Array(vec![text("A"), integer(5), text("B")])];
    assert_eq!(decode("TJ", &operands), decode("TJ", &operands));
    let operands = [name("F1"), real_value(11.0)];
    assert_eq!(decode("Tf", &operands), decode("Tf", &operands));
    assert_eq!(decode("Tj", &[RawValue::StringLiteral(vec![0xFF])]), decode("Tj", &[RawValue::StringLiteral(vec![0xFF])]));
}
