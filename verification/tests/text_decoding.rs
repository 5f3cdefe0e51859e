use vsprintf::driver::SizingStrategy;
use vsprintf::model::FormatterBehavior;
use vsprintf::model::FormatterModel;
use vsprintf::outcome::FormatError;
use vsprintf::outcome::OsErrorCode;
use vsprintf::pipeline::format_text_with_model;
use vsprintf::text::decode_text;

#[test]
fn decode_text_accepts_ascii() {
    let decoded = decode_text(vec![0x34, 0x32]).expect("ascii bytes are valid text");
    assert_eq!(decoded, "42");
}

#[test]
fn decode_text_rejects_invalid_bytes() {
    assert_eq!(decode_text(vec![0xff, 0xfe]), Err(FormatError::Decode));
    assert_eq!(decode_text(vec![0xc3, 0x28]), Err(FormatError::Decode));
}

#[test]
fn formatted_text_matches_decimal_output() {
    let model = FormatterModel { behavior: FormatterBehavior::Produces(vec![0x34, 0x32]) };
    let text = format_text_with_model(&model, SizingStrategy::ProbeFirst)
        .expect("valid text must decode");
    assert_eq!(text, "42");
}

#[test]
fn empty_output_decodes_to_empty_text() {
    let model = FormatterModel { behavior: FormatterBehavior::Produces(vec![]) };
    let text = format_text_with_model(&model, SizingStrategy::GrowthRetry { initial: 16 })
        .expect("empty output must decode");
    assert_eq!(text, "");
}

#[test]
fn multibyte_text_is_byte_exact() {
    let expected = "héllo";
    let model = FormatterModel {
        behavior: FormatterBehavior::Produces(expected.as_bytes().to_vec()),
    };
    let text = format_text_with_model(&model, SizingStrategy::ProbeFirst)
        .expect("well-formed multibyte text must decode");
    assert_eq!(text, expected);
    assert_eq!(text.as_bytes(), expected.as_bytes());
}

#[test]
fn decode_failure_is_distinct_from_formatter_failure() {
    let invalid = FormatterModel { behavior: FormatterBehavior::Produces(vec![0xc3, 0x28]) };
    let decode_err = format_text_with_model(&invalid, SizingStrategy::ProbeFirst)
        .expect_err("invalid bytes must not decode");
    assert_eq!(decode_err, FormatError::Decode);

    let failing = FormatterModel { behavior: FormatterBehavior::Fails(3) };
    let formatter_err = format_text_with_model(&failing, SizingStrategy::ProbeFirst)
        .expect_err("a failing formatter must surface its error");
    assert_eq!(formatter_err, FormatError::Formatter(OsErrorCode::Known(3)));
    assert_ne!(decode_err, formatter_err);
}
