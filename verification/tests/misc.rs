use uzumaki::cursor::UzCursorIcon;
use uzumaki::image_sniff::looks_like_svg;
use uzumaki::input::InputState;
use uzumaki::media::{
    available_backend_names, available_media_backends, clamp_ms, create_backend,
    default_backend_name, get_codec_support, select_backend, supports_audio_codec,
    supports_video_codec, MediaBackendError, MediaLoadOptions, PlaybackState,
};
use uzumaki::modules::{is_runtime_specifier, jsx_development_mode, module_type_for, MediaKind, ModuleKind};
use uzumaki::prop_keys::{ElementProp, StyleProp};
use uzumaki::style::{Color, TextSelectable};
use uzumaki::cursor::resolve_cursor;
use uzumaki::selection::{drag_view_selection, selection_range, unified_selection, DomSelection, SelectionRange};
use uzumaki::interactivity::forget_hovered_node;
use uzumaki::pointer::ClickTracker;

#[test]
fn svg_sniffing() {
    assert!(looks_like_svg(b"<svg xmlns='http://www.w3.org/2000/svg'/>"));
    assert!(looks_like_svg(b" \n\t<?xml version='1.0'?><svg/>"));
    assert!(looks_like_svg(b"<!-- c --><svg/>"));
    assert!(!looks_like_svg(&[0x89, b'P', b'N', b'G', 0x0D, 0x0A]));
    assert!(!looks_like_svg(b""));
    let mut bad = b"<svg ".to_vec();
    bad.push(0xFF);
    assert!(!looks_like_svg(&bad));
    let mut late = vec![b'a'; 600];
    late.extend_from_slice(b"<svg/>");
    assert!(!looks_like_svg(&late));
}

#[test]
fn no_media_backend_in_this_build() {
    assert!(available_backend_names().is_empty());
    assert!(available_media_backends().is_empty());
    assert_eq!(default_backend_name(), None);
    assert!(matches!(create_backend("ffmpeg"), Err(MediaBackendError::NotCompiled)));
    let err = create_backend("vlc").unwrap_err();
    assert_eq!(err.message(), "unknown media backend 'vlc', available: ");
    let err = select_backend(None).unwrap_err();
    assert_eq!(
        err.message(),
        "no media backend available in this build; compile with ffmpeg-backend feature"
    );
    assert_eq!(
        select_backend(Some("ffmpeg")).unwrap_err().message(),
        "ffmpeg backend is not compiled in; enable the ffmpeg-backend feature"
    );
    let support = get_codec_support();
    assert!(support.video.is_empty() && support.audio.is_empty());
    assert!(!supports_video_codec("h264"));
    assert!(!supports_audio_codec("aac"));
}

#[test]
fn playback_state_transitions() {
    let mut p = PlaybackState::new();
    assert_eq!(p.play().unwrap_err().message(), "media source is not loaded; call load() first");
    let opts = MediaLoadOptions { source: "a.mp4".to_string(), enable_video: None, enable_audio: Some(false) };
    p.load(&opts, 5_000_000);
    assert!(p.is_loaded && !p.is_playing);
    assert!(p.enable_video && !p.enable_audio);
    assert_eq!(p.duration_ms, 5000);
    assert!(p.play().is_ok());
    assert!(p.tick_advance(1200));
    p.tick_settle(false);
    assert_eq!(p.current_time_ms, 1200);
    assert!(p.seek(4900).is_ok());
    assert!(p.tick_advance(500));
    p.tick_settle(false);
    assert_eq!(p.current_time_ms, 5000);
    assert!(!p.is_playing);
    assert!(!p.tick_advance(10));
    assert!(p.stop().is_ok());
    assert_eq!(p.current_time_ms, 0);
    assert!(p.play().is_ok());
    assert!(p.tick_advance(1));
    p.tick_settle(true);
    assert!(!p.is_playing);
    assert_eq!(clamp_ms(u64::MAX), u32::MAX);
    assert_eq!(clamp_ms(7), 7);
    p.load(&opts, -3);
    assert_eq!(p.duration_ms, 0);
}

#[test]
fn module_kinds() {
    assert_eq!(module_type_for(MediaKind::Tsx), Some((ModuleKind::JavaScript, true)));
    assert_eq!(module_type_for(MediaKind::Mjs), Some((ModuleKind::JavaScript, false)));
    assert_eq!(module_type_for(MediaKind::Json), Some((ModuleKind::Json, false)));
    assert_eq!(module_type_for(MediaKind::Other), None);
    assert!(is_runtime_specifier("uzumaki"));
    assert!(!is_runtime_specifier("uzumaki-ui"));
}

#[test]
fn cursor_keywords() {
    assert_eq!(UzCursorIcon::parse("  hand "), Some(UzCursorIcon::Pointer));
    assert_eq!(UzCursorIcon::parse("col-resize"), Some(UzCursorIcon::EwResize));
    assert_eq!(UzCursorIcon::parse("i-beam"), Some(UzCursorIcon::Text));
    assert_eq!(UzCursorIcon::parse("nope"), None);
}

#[test]
fn attribute_names() {
    assert_eq!("minW".parse::<StyleProp>(), Ok(StyleProp::MinW));
    assert_eq!("maxLength".parse::<ElementProp>(), Ok(ElementProp::MaxLength));
    assert_eq!("bogus".parse::<ElementProp>(), Err(()));
}

#[test]
fn colors_and_selectability() {
    assert!(Color::rgba(1, 2, 3, 0).is_transparent());
    assert!(!Color::rgb(1, 2, 3).is_transparent());
    assert_eq!(TextSelectable::from_bool(true).as_value(), Some(true));
    assert!(!TextSelectable::default().selectable());
    assert_eq!(TextSelectable::from(false), TextSelectable::False);
    assert!(TextSelectable::from(true).selectable());
}

#[test]
fn cursor_keywords_ignore_unicode_white_space() {
    assert_eq!(UzCursorIcon::parse("\u{3000} pointer \t"), Some(UzCursorIcon::Pointer));
    assert_eq!(UzCursorIcon::parse("\u{a0}text\u{2003}"), Some(UzCursorIcon::Text));
    assert_eq!(UzCursorIcon::parse("po inter"), None);
}

#[test]
fn caret_blinks_only_when_focused() {
    let mut is = InputState::default();
    assert!(!is.blink_visible(true, 0));
    is.focused = true;
    assert!(is.blink_visible(true, 100));
    assert!(!is.blink_visible(true, 600));
    assert!(is.blink_visible(true, 1100));
    assert!(!is.blink_visible(false, 100));
}

#[test]
fn cursor_resolution_order() {
    let t = Some(UzCursorIcon::Text);
    let p = Some(UzCursorIcon::Pointer);
    assert_eq!(resolve_cursor(Some(UzCursorIcon::Wait), p, true, &[]), UzCursorIcon::Wait);
    assert_eq!(resolve_cursor(None, p, true, &[]), UzCursorIcon::Pointer);
    assert_eq!(resolve_cursor(None, None, true, &[p]), UzCursorIcon::Text);
    assert_eq!(resolve_cursor(None, None, false, &[None, p, t]), UzCursorIcon::Pointer);
    assert_eq!(resolve_cursor(None, None, false, &[None, None]), UzCursorIcon::Default);
    assert_eq!(UzCursorIcon::default(), UzCursorIcon::Default);
}

#[test]
fn selections_in_effect() {
    let view = Some(DomSelection::new(9, 5, 2));
    assert_eq!(
        unified_selection(Some((3, SelectionRange::new(1, 4))), view),
        Some(DomSelection::new(3, 1, 4))
    );
    assert_eq!(unified_selection(None, view), view);
    assert_eq!(selection_range(view), Some((2, 5)));
    assert_eq!(selection_range(Some(DomSelection::new(9, 4, 4))), None);
    assert_eq!(selection_range(None), None);
    let mut sel = view;
    drag_view_selection(&mut sel, 9, 7);
    assert_eq!(sel, Some(DomSelection::new(9, 5, 7)));
    drag_view_selection(&mut sel, 8, 1);
    assert_eq!(sel, Some(DomSelection::new(9, 5, 7)));
}

#[test]
fn removed_nodes_are_forgotten() {
    let mut hovered = vec![1, 2, 3, 2];
    let mut top = Some(2);
    let mut active = Some(3);
    forget_hovered_node(&mut hovered, &mut top, &mut active, 2);
    assert_eq!(hovered, vec![1, 3]);
    assert_eq!(top, None);
    assert_eq!(active, Some(3));
    let mut clicks = ClickTracker::new();
    clicks.register_click(4, None);
    clicks.forget_node(5);
    assert_eq!(clicks.last_node, Some(4));
    clicks.forget_node(4);
    assert_eq!((clicks.last_node, clicks.click_count), (None, 0));
}

#[test]
fn jsx_development_unless_production() {
    assert!(jsx_development_mode(None));
    assert!(jsx_development_mode(Some("development")));
    assert!(jsx_development_mode(Some("Production")));
    assert!(!jsx_development_mode(Some("production")));
}
