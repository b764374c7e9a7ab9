use simple_text::format::{
    centered_text_format, ParagraphAlignment, TextAlignment, TextFormat, FONT_STRETCH_NORMAL,
    FONT_STYLE_NORMAL, FONT_WEIGHT_REGULAR,
};
use simple_text::wide::to_wide;

#[test]
fn centered_format_queries_centered() {
    let f = centered_text_format();
    assert_eq!(f.get_text_alignment(), TextAlignment::Center);
    assert_eq!(f.get_paragraph_alignment(), ParagraphAlignment::Center);
}

#[test]
fn alignment_set_get_round_trip() {
    let mut f = TextFormat::new("Gabriola", FONT_WEIGHT_REGULAR, FONT_STYLE_NORMAL,
        FONT_STRETCH_NORMAL, 72, "en-us");
    assert_eq!(f.get_text_alignment(), TextAlignment::Leading);
    assert_eq!(f.get_paragraph_alignment(), ParagraphAlignment::Near);
    f.set_text_alignment(TextAlignment::Center);
    f.set_paragraph_alignment(ParagraphAlignment::Center);
    assert_eq!(f.get_text_alignment(), TextAlignment::Center);
    assert_eq!(f.get_paragraph_alignment(), ParagraphAlignment::Center);
}

#[test]
fn centered_format_font_parameters() {
    let f = centered_text_format();
    assert_eq!(f.family, to_wide("Gabriola"));
    assert_eq!(f.locale, to_wide("en-us"));
    assert_eq!(f.weight, 400);
    assert_eq!(f.style, 0);
    assert_eq!(f.stretch, 5);
    assert_eq!(f.size_pt, 72);
}
