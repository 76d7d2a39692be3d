use cursor_icon::CursorIcon;
use ezwin::cursor::{to_windows_cursor, IDC_ARROW, IDC_HAND, IDC_IBEAM, IDC_SIZEWE};
use ezwin::key::Key;

#[test]
fn virtual_keys_translate() {
    assert_eq!(Key::from(0x41u16), Key::A);
    assert_eq!(Key::from(0x5Au16), Key::Z);
    assert_eq!(Key::from(0x30u16), Key::_0);
    assert_eq!(Key::from(0x1Bu16), Key::Escape);
    assert_eq!(Key::from(0x0Du16), Key::Enter);
    assert_eq!(Key::from(0x70u16), Key::F1);
    assert_eq!(Key::from(0x87u16), Key::F24);
    assert_eq!(Key::from(0x60u16), Key::Num0);
    assert_eq!(Key::from(0xA0u16), Key::LeftShift);
    assert_eq!(Key::from(0xDEu16), Key::Apostrophe);
}

#[test]
fn unmapped_virtual_keys_are_unknown() {
    assert_eq!(Key::from(0u16), Key::Unknown);
    assert_eq!(Key::from(0x07u16), Key::Unknown);
    assert_eq!(Key::from(0xFFFFu16), Key::Unknown);
}

#[test]
fn cursor_icons_translate() {
    assert_eq!(to_windows_cursor(CursorIcon::Default), IDC_ARROW);
    assert_eq!(to_windows_cursor(CursorIcon::Pointer), IDC_HAND);
    assert_eq!(to_windows_cursor(CursorIcon::VerticalText), IDC_IBEAM);
    assert_eq!(to_windows_cursor(CursorIcon::ColResize), IDC_SIZEWE);
    assert_eq!(to_windows_cursor(CursorIcon::ZoomIn), IDC_ARROW);
}
