use simple_text::messages::{
    classify_end_draw, classify_message, size_from_lparam, PaintOutcome, WindowEvent, HR_OK,
    HR_RECREATE_TARGET, WM_DESTROY, WM_PAINT, WM_SIZE,
};

#[test]
fn classify_known_messages() {
    assert_eq!(classify_message(WM_PAINT), WindowEvent::Paint);
    assert_eq!(classify_message(WM_SIZE), WindowEvent::Resize);
    assert_eq!(classify_message(WM_DESTROY), WindowEvent::Destroy);
}

#[test]
fn classify_unknown_message_is_forwarded() {
    assert_eq!(classify_message(0), WindowEvent::Other);
    assert_eq!(classify_message(1), WindowEvent::Other);
    assert_eq!(classify_message(0x0400), WindowEvent::Other);
}

#[test]
fn size_from_lparam_unpacks_low_and_high_words() {
    let lparam: u64 = (400 << 16) | 600;
    assert_eq!(size_from_lparam(lparam), (600, 400));
    assert_eq!(size_from_lparam(0), (0, 0));
    assert_eq!(size_from_lparam(0xFFFF_FFFF), (0xFFFF, 0xFFFF));
}

#[test]
fn classify_end_draw_cases() {
    assert_eq!(classify_end_draw(HR_OK), PaintOutcome::Completed);
    assert_eq!(classify_end_draw(HR_RECREATE_TARGET), PaintOutcome::TargetLost);
    assert_eq!(classify_end_draw(1), PaintOutcome::Failed { code: 1 });
}
