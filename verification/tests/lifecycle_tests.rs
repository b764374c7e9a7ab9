use simple_text::geometry::Rect;
use simple_text::messages::{HR_OK, HR_RECREATE_TARGET};
use simple_text::paint::{Color, DrawCommand};
use simple_text::state::{EnsureAction, Phase, ResizeAction, SimpleText};

fn rendering_state() -> SimpleText {
    let mut st = SimpleText::initialize();
    st.install_factories(Some(1), Some(2));
    st.install_text_format(3);
    st.install_render_target(4, 5);
    st
}

#[test]
fn fresh_state_holds_nothing() {
    let st = SimpleText::initialize();
    assert_eq!(st.phase(), Phase::Uninitialized);
    assert_eq!(st.d2d1_factory, None);
    assert_eq!(st.dwrite_factory, None);
    assert_eq!(st.text_format, None);
    assert_eq!(st.render_target, None);
    assert_eq!(st.brush, None);
    assert!(!st.destroyed);
    assert!(st.wtext.is_empty());
    assert_eq!(st.wtext_length, 0);
}

#[test]
fn install_factories_fixes_text() {
    let mut st = SimpleText::initialize();
    st.install_factories(Some(1), Some(2));
    assert_eq!(st.wtext.len(), 31);
    assert_eq!(st.wtext_length, 30);
    assert_eq!(*st.wtext.last().unwrap(), 0);
}

#[test]
fn resize_before_any_paint_is_a_noop() {
    let mut st = SimpleText::initialize();
    st.install_factories(Some(1), Some(2));
    st.install_text_format(3);
    assert_eq!(st.on_resize(100, 50), ResizeAction::Ignore);
    assert_eq!(st.phase(), Phase::Ready);
    assert_eq!(st.render_target, None);
}

#[test]
fn resize_with_target_resizes_it() {
    let st = rendering_state();
    assert_eq!(
        st.on_resize(600, 400),
        ResizeAction::ResizeTarget { target: 4, width: 600, height: 400 }
    );
}

#[test]
fn ensure_action_cases() {
    let mut st = SimpleText::initialize();
    assert_eq!(st.ensure_render_target_action(), EnsureAction::NothingToRender);
    st.install_factories(Some(1), Some(2));
    assert_eq!(st.ensure_render_target_action(), EnsureAction::CreateTarget);
    st.install_text_format(3);
    st.install_render_target(4, 5);
    assert_eq!(st.ensure_render_target_action(), EnsureAction::AlreadyPresent);
}

#[test]
fn missing_drawing_factory_blocks_render() {
    let mut st = SimpleText::initialize();
    st.install_factories(None, Some(2));
    assert_eq!(st.ensure_render_target_action(), EnsureAction::NothingToRender);
    assert!(!st.can_paint());
}

#[test]
fn target_and_brush_are_paired() {
    let mut st = rendering_state();
    assert_eq!(st.render_target, Some(4));
    assert_eq!(st.brush, Some(5));
    let released = st.safe_release();
    assert_eq!(released, vec![5, 4]);
    assert_eq!(st.render_target, None);
    assert_eq!(st.brush, None);
    let again = st.safe_release();
    assert_eq!(again, Vec::<u64>::new());
}

#[test]
fn invalidation_releases_target_once_and_recovers() {
    let mut st = rendering_state();
    assert_eq!(st.phase(), Phase::Rendering);
    let released = st.finish_paint(HR_RECREATE_TARGET);
    assert_eq!(released, vec![5, 4]);
    assert_eq!(st.phase(), Phase::Ready);
    assert_eq!(st.ensure_render_target_action(), EnsureAction::CreateTarget);
    st.install_render_target(6, 7);
    assert_eq!(st.phase(), Phase::Rendering);
    assert_eq!(st.render_target, Some(6));
    assert_eq!(st.brush, Some(7));
}

#[test]
fn completed_paint_leaves_state_untouched() {
    let mut st = rendering_state();
    let released = st.finish_paint(HR_OK);
    assert_eq!(released, Vec::<u64>::new());
    assert_eq!(st.phase(), Phase::Rendering);
    assert_eq!(st.render_target, Some(4));
    assert_eq!(st.brush, Some(5));
}

#[test]
fn teardown_is_complete_and_idempotent() {
    let mut st = rendering_state();
    let released = st.release_resources();
    assert_eq!(released, vec![5, 4, 3, 2, 1]);
    assert_eq!(st.d2d1_factory, None);
    assert_eq!(st.dwrite_factory, None);
    assert_eq!(st.text_format, None);
    assert_eq!(st.render_target, None);
    assert_eq!(st.brush, None);
    let again = st.release_resources();
    assert_eq!(again, Vec::<u64>::new());
}

#[test]
fn destroy_is_terminal() {
    let mut st = rendering_state();
    let released = st.on_destroy();
    assert_eq!(released, vec![5, 4, 3, 2, 1]);
    assert_eq!(st.phase(), Phase::Destroyed);
    assert_eq!(st.on_resize(10, 10), ResizeAction::Ignore);
    assert_eq!(st.ensure_render_target_action(), EnsureAction::NothingToRender);
    assert!(!st.can_paint());
    let again = st.on_destroy();
    assert_eq!(again, Vec::<u64>::new());
    assert_eq!(st.phase(), Phase::Destroyed);
}

#[test]
fn frame_commands_in_issue_order() {
    let st = rendering_state();
    let client = Rect { left: 0, top: 0, right: 600, bottom: 400 };
    let cmds = st.frame_commands(&client, 2, 2);
    assert_eq!(
        cmds,
        vec![
            DrawCommand::BeginDraw,
            DrawCommand::SetIdentityTransform,
            DrawCommand::Clear { color: Color { red: 255, green: 255, blue: 255 } },
            DrawCommand::DrawText {
                layout: Rect { left: 0, top: 0, right: 300, bottom: 200 },
                brush: Color { red: 0, green: 0, blue: 0 },
            },
            DrawCommand::EndDraw,
        ]
    );
}

#[test]
fn solid_color_keeps_channels() {
    let c = Color::solid_color(1, 2, 3);
    assert_eq!(c, Color { red: 1, green: 2, blue: 3 });
    assert_eq!(Color::black(), Color { red: 0, green: 0, blue: 0 });
    assert_eq!(Color::white(), Color { red: 255, green: 255, blue: 255 });
}

#[test]
fn can_paint_needs_target_and_format() {
    let mut st = SimpleText::initialize();
    assert!(!st.can_paint());
    st.install_factories(Some(1), Some(2));
    assert!(!st.can_paint());
    st.install_text_format(3);
    assert!(!st.can_paint());
    st.install_render_target(4, 5);
    assert!(st.can_paint());
}
