//! Errors, locale normalization, dialog decisions, cursors, the builder.

use glazier::builder::WindowBuilder;
use glazier::cursor::{
    cursor_icon, icon_name, Cursor, CursorEffect, CursorIcon, CursorState,
};
use glazier::dialog::{dialog_routing, dialog_title, extension_glob, filter_globs, DialogRouting};
use glazier::error::{Error, ErrorString};
use glazier::geometry::{WindowPoint, WindowSize};
use glazier::locale::normalize_locale;
use glazier::placement::{WindowLevel, WindowState};

#[test]
fn error_strings_keep_their_details() {
    let e = ErrorString::from("wrong wire");
    assert_eq!(e.description(), "wrong wire");
    let err = Error::string("no monitor");
    assert_eq!(err.kind_description(), "no monitor");
    let err = Error::global(String::from("compositor"), 4, ErrorString::from("missing"));
    assert_eq!(err.kind_description(), "a required display global was unavailable");
    assert_eq!(Error::InvalidId.kind_description(), "invalid object id");
    assert_eq!(Error::InvalidParent(3).kind_description(), "invalid parent window for popup");
    assert_eq!(
        Error::fatal(ErrorString::from("boom")).kind_description(),
        "an unhandled error occurred"
    );
    assert_eq!(
        Error::bind(String::from("seat"), ErrorString::from("gone")).kind_description(),
        "a display global failed to bind"
    );
    assert_eq!(
        Error::error(ErrorString::from("misc")).kind_description(),
        "an unhandled error occurred"
    );
    assert_eq!(
        Error::Connect(ErrorString::from("refused")).kind_description(),
        "could not connect to the display server"
    );
}

#[test]
fn locale_names_are_cut_at_dot_or_at_sign() {
    assert_eq!(normalize_locale(&b"en_US.UTF-8".to_vec()), b"en_US".to_vec());
    assert_eq!(normalize_locale(&b"sr_RS@latin".to_vec()), b"sr_RS".to_vec());
    assert_eq!(normalize_locale(&b"de_DE".to_vec()), b"de_DE".to_vec());
    assert_eq!(normalize_locale(&b"".to_vec()), b"".to_vec());
    assert_eq!(normalize_locale(&b".odd".to_vec()), b"".to_vec());
}

#[test]
fn dialog_titles() {
    assert_eq!(dialog_title(true, true), "Open Folder");
    assert_eq!(dialog_title(true, false), "Open File");
    assert_eq!(dialog_title(false, false), "Save File");
    assert_eq!(dialog_title(false, true), "Save File");
}

#[test]
fn dialog_result_routing() {
    assert_eq!(dialog_routing(true, true, 5), DialogRouting::OpenMultiple);
    assert_eq!(dialog_routing(false, true, 1), DialogRouting::OpenSingle { warn_extra: false });
    assert_eq!(dialog_routing(false, true, 3), DialogRouting::OpenSingle { warn_extra: true });
    assert_eq!(dialog_routing(false, false, 1), DialogRouting::SaveSingle { warn_extra: false });
    assert_eq!(dialog_routing(true, false, 2), DialogRouting::Unsupported);
}

#[test]
fn filter_extensions_become_globs() {
    assert_eq!(extension_glob(&b"txt".to_vec()), b"*.txt".to_vec());
    let globs = filter_globs(&vec![b"png".to_vec(), b"jpg".to_vec()]);
    assert_eq!(globs, vec![b"*.png".to_vec(), b"*.jpg".to_vec()]);
}

#[test]
fn cursor_mapping_and_names() {
    assert_eq!(cursor_icon(&Cursor::Arrow), CursorIcon::Default);
    assert_eq!(cursor_icon(&Cursor::IBeam), CursorIcon::Text);
    assert_eq!(cursor_icon(&Cursor::Pointer), CursorIcon::PointerHand);
    assert_eq!(cursor_icon(&Cursor::Crosshair), CursorIcon::Crosshair);
    assert_eq!(cursor_icon(&Cursor::NotAllowed), CursorIcon::NotAllowed);
    assert_eq!(cursor_icon(&Cursor::ResizeLeftRight), CursorIcon::ColResize);
    assert_eq!(cursor_icon(&Cursor::ResizeUpDown), CursorIcon::RowResize);
    assert_eq!(cursor_icon(&Cursor::OpenHand), CursorIcon::Default);
    assert_eq!(icon_name(CursorIcon::Default), "default");
    assert_eq!(icon_name(CursorIcon::Text), "text");
    assert_eq!(icon_name(CursorIcon::NotAllowed), "not-allowed");
    assert_eq!(icon_name(CursorIcon::ColResize), "col-resize");
    assert_eq!(icon_name(CursorIcon::RowResize), "row-resize");
}

#[test]
fn hidden_cursor_defers_icon_changes() {
    let mut state = CursorState::new();
    assert_eq!(state.set_icon(CursorIcon::Text), CursorEffect::ApplyIcon(CursorIcon::Text));
    assert_eq!(state.set_visible(false), CursorEffect::Hide);
    assert_eq!(
        state.set_icon(CursorIcon::Crosshair),
        CursorEffect::Deferred,
        "nothing is applied while hidden"
    );
    assert_eq!(
        state.set_visible(true),
        CursorEffect::ApplyIcon(CursorIcon::Crosshair),
        "showing reapplies the icon set meanwhile"
    );
    assert_eq!(state.reload_effect(), CursorEffect::ApplyIcon(CursorIcon::Crosshair));
}

#[test]
fn builder_accumulates_configuration() {
    let b = WindowBuilder::new()
        .title(String::from("demo"))
        .size(WindowSize::new(800, 600))
        .min_size(WindowSize::new(100, 100))
        .position(WindowPoint::new(50, 60))
        .resizable(false)
        .show_titlebar(false)
        .transparent(true)
        .level(WindowLevel::Modal(12))
        .window_state(WindowState::Maximized);
    assert_eq!(b.title, "demo");
    assert_eq!(b.size, WindowSize::new(800, 600));
    assert_eq!(b.min_size, Some(WindowSize::new(100, 100)));
    assert_eq!(b.position, Some(WindowPoint::new(50, 60)));
    assert!(!b.resizable && !b.show_titlebar && b.transparent);
    assert_eq!(b.parent_id(), Some(12));
    let w = b.into_window(77);
    assert_eq!(w.id(), 77);
    assert_eq!(w.get_size(), WindowSize::new(800, 600));
    assert!(!w.is_configured());
}

#[test]
fn builder_defaults() {
    let b = WindowBuilder::new();
    assert_eq!(b.size, WindowSize::new(500, 400));
    assert!(b.resizable && b.show_titlebar && !b.transparent);
    assert_eq!(b.parent_id(), None);
    assert_eq!(b.title, "");
}

#[test]
fn builder_initial_frame_flips_the_default_position() {
    let b = WindowBuilder::new();
    let frame = b.initial_frame(1080);
    assert_eq!((frame.width, frame.height), (500, 400));
    assert_eq!(frame.x, 20);
    assert_eq!(frame.y, 1080 - 20 - 400, "the default spot flips into the native origin");

    let b = WindowBuilder::new().position(WindowPoint::new(100, 50));
    let frame = b.initial_frame(1080);
    assert_eq!((frame.x, frame.y), (100, 1080 - 50 - 400));
}
