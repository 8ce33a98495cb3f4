use pdf_ops::content::decode_content;
use pdf_ops::operation::{Operation, PdfParseError};
use pdf_ops::stream::{decode_all, is_reported, Instruction};
use pdf_ops::value::{Number, RawValue};

fn instr(op: &str, operands: Vec<RawValue>) -> Instruction {
    Instruction { operator: op.to_string(), operands }
}

#[test]
fn font_then_text_in_order() {
    let instrs = vec![
        instr("Tf", vec![RawValue::Name(b"F1".to_vec()), RawValue::Integer(12)]),
        instr("Tj", vec![RawValue::StringLiteral(b"Hello".to_vec())]),
    ];
    assert_eq!(
        decode_all(&instrs),
        Ok(vec![
            Operation::SetTextFontAndSize { name: b"F1".to_vec(), size: Number::Integer(12) },
            Operation::ShowText { body: "Hello".to_string() },
        ])
    );
}

#[test]
fn first_failure_stops_the_stream() {
    let instrs = vec![
        instr("BT", vec![]),
        instr("Zz", vec![]),
        instr("Tj", vec![]),
    ];
    assert_eq!(decode_all(&instrs), Err(PdfParseError::UnknownOperator("Zz".to_string())));
    assert_eq!(decode_all(&vec![]), Ok(vec![]));
}

#[test]
fn content_bytes_font_then_text() {
    let ops = decode_content(b"BT\n/F1 12 Tf\n(Hello) Tj\nET\n");
    assert_eq!(
        ops,
        Ok(vec![
            Operation::BeginTextObject,
            Operation::SetTextFontAndSize { name: b"F1".to_vec(), size: Number::Integer(12) },
            Operation::ShowText { body: "Hello".to_string() },
            Operation::EndTextObject,
        ])
    );
}

#[test]
fn content_bytes_reals_and_arrays() {
    let ops = decode_content(b"0.5 Tc [(A) 5 (B)] TJ 1 2 3 4 re f*");
    assert_eq!(
        ops,
        Ok(vec![
            Operation::SetCharacterSpacing { spacing: Number::Real(0.5f32.to_bits()) },
            Operation::ShowTextAllowingIndividualGlyphPositioning { body: "AB".to_string() },
            Operation::AppendRectangleToPath {
                x: Number::Integer(1),
                y: Number::Integer(2),
                width: Number::Integer(3),
                height: Number::Integer(4),
            },
            Operation::FillPathUsingEvenOddRule,
        ])
    );
}

#[test]
fn content_bytes_unknown_operator() {
    assert_eq!(decode_content(b"q 1 0 0 1 0 0 cm Q"), Err(PdfParseError::UnknownOperator("cm".to_string())));
}

#[test]
fn reported_operations() {
    assert!(is_reported(&Operation::ShowText { body: "x".to_string() }));
    assert!(is_reported(&Operation::SetColorSpaceForStrokingOperations));
    assert!(is_reported(&Operation::SetColorSpaceForNonstrokingOperations));
    assert!(is_reported(&Operation::SetColorForNonstrokingOperations));
    assert!(is_reported(&Operation::FillPathUsingNonzeroWindingNumberRuleObsolete));
    assert!(is_reported(&Operation::FillPathUsingEvenOddRule));
    assert!(!is_reported(&Operation::BeginTextObject));
    assert!(!is_reported(&Operation::ShowTextAllowingIndividualGlyphPositioning { body: "x".to_string() }));
    assert!(!is_reported(&Operation::SetWordSpacing { spacing: Number::Integer(1) }));
    assert!(!is_reported(&Operation::EndPathWithoutFillingOrStroking));
}

#[test]
fn inline_image_bytes_are_refused() {
    let bytes = b"BI /W -1 /H 1 /BPC 8 /CS /RGB ID \x00\x00\x00 EI";
    assert_eq!(decode_content(bytes), Err(PdfParseError::Lopdf));
    assert_eq!(decode_content(b"q BI /W 1 /H 1 /BPC 8 /CS /G ID \x00 EI Q"), Err(PdfParseError::Lopdf));
}

#[test]
fn text_holding_bi_alone_decodes() {
    assert_eq!(
        decode_content(b"(BIG) Tj"),
        Ok(vec![Operation::ShowText { body: "BIG".to_string() }])
    );
    assert_eq!(
        decode_content(b"(ID) Tj (BI) Tj"),
        Ok(vec![
            Operation::ShowText { body: "ID".to_string() },
            Operation::ShowText { body: "BI".to_string() },
        ])
    );
}

#[test]
fn text_holding_bi_then_id_decodes() {
    assert_eq!(
        decode_content(b"(BIG) Tj (ID) Tj"),
        Ok(vec![
            Operation::ShowText { body: "BIG".to_string() },
            Operation::ShowText { body: "ID".to_string() },
        ])
    );
    assert_eq!(
        decode_content(b"(BILL) Tj (PAID) Tj"),
        Ok(vec![
            Operation::ShowText { body: "BILL".to_string() },
            Operation::ShowText { body: "PAID".to_string() },
        ])
    );
}
