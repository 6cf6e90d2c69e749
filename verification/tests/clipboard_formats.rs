//! The clipboard dispatcher and the selection model behind it.

use glazier::clipboard::{Clipboard, ClipboardFormat, ClipboardSelection};

#[test]
fn put_string_round_trips() {
    let mut cb = Clipboard::Wayland(ClipboardSelection::new());
    assert_eq!(cb.get_string(), None);
    cb.put_string("hello clipboard");
    assert_eq!(cb.get_string(), Some(String::from("hello clipboard")));
    let names = cb.available_type_names();
    assert_eq!(names, vec![String::from("text/plain;charset=utf-8")]);
    let text_fmt = String::from("text/plain;charset=utf-8");
    assert_eq!(cb.get_format(&text_fmt), Some(b"hello clipboard".to_vec()));
}

#[test]
fn put_formats_replaces_the_selection() {
    let mut cb = Clipboard::X11(ClipboardSelection::new());
    cb.put_string("old text");
    let formats = vec![
        ClipboardFormat::new("image/png", vec![1, 2, 3]),
        ClipboardFormat::new("text/html", b"<b>hi</b>".to_vec()),
    ];
    cb.put_formats(formats);
    assert_eq!(cb.get_string(), None, "putting formats drops the string");
    assert_eq!(
        cb.available_type_names(),
        vec![String::from("image/png"), String::from("text/html")]
    );
    assert_eq!(cb.get_format(&String::from("image/png")), Some(vec![1, 2, 3]));
    assert_eq!(cb.get_format(&String::from("text/plain;charset=utf-8")), None);
}

#[test]
fn preferred_format_respects_the_callers_preference_order() {
    let mut cb = Clipboard::Wayland(ClipboardSelection::new());
    cb.put_formats(vec![
        ClipboardFormat::new("image/png", vec![0]),
        ClipboardFormat::new("text/html", vec![1]),
    ]);
    // The first requested identifier that is on offer wins, in the
    // caller's order, not the offer order.
    let wanted = vec![
        String::from("text/rtf"),
        String::from("text/html"),
        String::from("image/png"),
    ];
    assert_eq!(cb.preferred_format(&wanted), Some(String::from("text/html")));
    let none_available = vec![String::from("text/rtf"), String::from("audio/ogg")];
    assert_eq!(cb.preferred_format(&none_available), None);
}

#[test]
fn empty_selection_offers_nothing() {
    let cb = Clipboard::X11(ClipboardSelection::new());
    assert_eq!(cb.get_string(), None);
    assert!(cb.available_type_names().is_empty());
    assert_eq!(cb.get_format(&String::from("text/plain;charset=utf-8")), None);
}
