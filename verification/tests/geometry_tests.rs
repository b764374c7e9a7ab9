use simple_text::geometry::{dpi_divisor, layout_rect, target_size, Rect};

#[test]
fn layout_rect_unit_scale() {
    let client = Rect { left: 0, top: 0, right: 600, bottom: 400 };
    let out = layout_rect(&client, 1, 1);
    assert_eq!(out, Rect { left: 0, top: 0, right: 600, bottom: 400 });
}

#[test]
fn layout_rect_double_scale() {
    let client = Rect { left: 0, top: 0, right: 600, bottom: 400 };
    let out = layout_rect(&client, 2, 2);
    assert_eq!(out, Rect { left: 0, top: 0, right: 300, bottom: 200 });
}

#[test]
fn layout_rect_truncates() {
    let client = Rect { left: 0, top: 0, right: 605, bottom: 403 };
    let out = layout_rect(&client, 2, 2);
    assert_eq!(out, Rect { left: 0, top: 0, right: 302, bottom: 201 });
}

#[test]
fn dpi_divisor_truncates() {
    assert_eq!(dpi_divisor(96), 1);
    assert_eq!(dpi_divisor(144), 1);
    assert_eq!(dpi_divisor(192), 2);
    assert_eq!(dpi_divisor(288), 3);
    assert_eq!(dpi_divisor(95), 0);
}

#[test]
fn target_size_is_client_extent() {
    let client = Rect { left: 0, top: 0, right: 600, bottom: 400 };
    assert_eq!(target_size(&client), (600, 400));
}
