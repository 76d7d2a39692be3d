use ezwin::cursor::{
    IDC_APPSTARTING, IDC_ARROW, IDC_CROSS, IDC_HAND, IDC_HELP, IDC_IBEAM, IDC_NO, IDC_SIZEALL,
    IDC_SIZENESW, IDC_SIZENS, IDC_SIZENWSE, IDC_SIZEWE, IDC_WAIT,
};
use ezwin::event as ev;
use ezwin::key::Key;
use ezwin::style as st;
use windows::Win32::UI::Input::KeyboardAndMouse as km;
use windows::Win32::UI::WindowsAndMessaging as wm;

#[test]
fn style_bits_match_the_platform() {
    assert_eq!(st::WS_BORDER, wm::WS_BORDER.0);
    assert_eq!(st::WS_CAPTION, wm::WS_CAPTION.0);
    assert_eq!(st::WS_CLIPSIBLINGS, wm::WS_CLIPSIBLINGS.0);
    assert_eq!(st::WS_MAXIMIZEBOX, wm::WS_MAXIMIZEBOX.0);
    assert_eq!(st::WS_MINIMIZEBOX, wm::WS_MINIMIZEBOX.0);
    assert_eq!(st::WS_OVERLAPPEDWINDOW, wm::WS_OVERLAPPEDWINDOW.0);
    assert_eq!(st::WS_POPUP, wm::WS_POPUP.0);
    assert_eq!(st::WS_SIZEBOX, wm::WS_SIZEBOX.0);
    assert_eq!(st::WS_SYSMENU, wm::WS_SYSMENU.0);
    assert_eq!(st::WS_VISIBLE, wm::WS_VISIBLE.0);
    assert_eq!(st::WS_EX_WINDOWEDGE, wm::WS_EX_WINDOWEDGE.0);
    assert_eq!(st::WS_EX_OVERLAPPEDWINDOW, wm::WS_EX_OVERLAPPEDWINDOW.0);
    assert_eq!(st::WS_EX_APPWINDOW, wm::WS_EX_APPWINDOW.0);
    assert_eq!(st::RESIZE_BITS, (wm::WS_SIZEBOX | wm::WS_MAXIMIZEBOX | wm::WS_MINIMIZEBOX).0);
}

#[test]
fn message_numbers_match_the_platform() {
    assert_eq!(ev::WM_CREATE, wm::WM_CREATE);
    assert_eq!(ev::WM_DESTROY, wm::WM_DESTROY);
    assert_eq!(ev::WM_MOVE, wm::WM_MOVE);
    assert_eq!(ev::WM_SIZE, wm::WM_SIZE);
    assert_eq!(ev::WM_SETFOCUS, wm::WM_SETFOCUS);
    assert_eq!(ev::WM_KILLFOCUS, wm::WM_KILLFOCUS);
    assert_eq!(ev::WM_CLOSE, wm::WM_CLOSE);
    assert_eq!(ev::WM_INPUT, wm::WM_INPUT);
    assert_eq!(ev::WM_KEYDOWN, wm::WM_KEYDOWN);
    assert_eq!(ev::WM_KEYUP, wm::WM_KEYUP);
    assert_eq!(ev::WM_SYSKEYDOWN, wm::WM_SYSKEYDOWN);
    assert_eq!(ev::WM_SYSKEYUP, wm::WM_SYSKEYUP);
    assert_eq!(ev::WM_MOUSEMOVE, wm::WM_MOUSEMOVE);
    assert_eq!(ev::WM_LBUTTONDOWN, wm::WM_LBUTTONDOWN);
    assert_eq!(ev::WM_LBUTTONUP, wm::WM_LBUTTONUP);
    assert_eq!(ev::WM_RBUTTONDOWN, wm::WM_RBUTTONDOWN);
    assert_eq!(ev::WM_RBUTTONUP, wm::WM_RBUTTONUP);
    assert_eq!(ev::WM_MBUTTONDOWN, wm::WM_MBUTTONDOWN);
    assert_eq!(ev::WM_MBUTTONUP, wm::WM_MBUTTONUP);
    assert_eq!(ev::WM_MOUSEWHEEL, wm::WM_MOUSEWHEEL);
    assert_eq!(ev::WM_DPICHANGED, wm::WM_DPICHANGED);
}

#[test]
fn cursor_resources_match_the_platform() {
    assert_eq!(IDC_APPSTARTING as usize, wm::IDC_APPSTARTING.0 as usize);
    assert_eq!(IDC_ARROW as usize, wm::IDC_ARROW.0 as usize);
    assert_eq!(IDC_CROSS as usize, wm::IDC_CROSS.0 as usize);
    assert_eq!(IDC_HAND as usize, wm::IDC_HAND.0 as usize);
    assert_eq!(IDC_HELP as usize, wm::IDC_HELP.0 as usize);
    assert_eq!(IDC_IBEAM as usize, wm::IDC_IBEAM.0 as usize);
    assert_eq!(IDC_NO as usize, wm::IDC_NO.0 as usize);
    assert_eq!(IDC_SIZEALL as usize, wm::IDC_SIZEALL.0 as usize);
    assert_eq!(IDC_SIZENESW as usize, wm::IDC_SIZENESW.0 as usize);
    assert_eq!(IDC_SIZENS as usize, wm::IDC_SIZENS.0 as usize);
    assert_eq!(IDC_SIZENWSE as usize, wm::IDC_SIZENWSE.0 as usize);
    assert_eq!(IDC_SIZEWE as usize, wm::IDC_SIZEWE.0 as usize);
    assert_eq!(IDC_WAIT as usize, wm::IDC_WAIT.0 as usize);
}

#[test]
fn every_mapped_virtual_key_translates() {
    assert_eq!(Key::from(km::VK_1.0), Key::_1);
    assert_eq!(Key::from(km::VK_2.0), Key::_2);
    assert_eq!(Key::from(km::VK_3.0), Key::_3);
    assert_eq!(Key::from(km::VK_4.0), Key::_4);
    assert_eq!(Key::from(km::VK_5.0), Key::_5);
    assert_eq!(Key::from(km::VK_6.0), Key::_6);
    assert_eq!(Key::from(km::VK_7.0), Key::_7);
    assert_eq!(Key::from(km::VK_8.0), Key::_8);
    assert_eq!(Key::from(km::VK_9.0), Key::_9);
    assert_eq!(Key::from(km::VK_0.0), Key::_0);
    assert_eq!(Key::from(km::VK_A.0), Key::A);
    assert_eq!(Key::from(km::VK_B.0), Key::B);
    assert_eq!(Key::from(km::VK_C.0), Key::C);
    assert_eq!(Key::from(km::VK_D.0), Key::D);
    assert_eq!(Key::from(km::VK_E.0), Key::E);
    assert_eq!(Key::from(km::VK_F.0), Key::F);
    assert_eq!(Key::from(km::VK_G.0), Key::G);
    assert_eq!(Key::from(km::VK_H.0), Key::H);
    assert_eq!(Key::from(km::VK_I.0), Key::I);
    assert_eq!(Key::from(km::VK_J.0), Key::J);
    assert_eq!(Key::from(km::VK_K.0), Key::K);
    assert_eq!(Key::from(km::VK_L.0), Key::L);
    assert_eq!(Key::from(km::VK_M.0), Key::M);
    assert_eq!(Key::from(km::VK_N.0), Key::N);
    assert_eq!(Key::from(km::VK_O.0), Key::O);
    assert_eq!(Key::from(km::VK_P.0), Key::P);
    assert_eq!(Key::from(km::VK_Q.0), Key::Q);
    assert_eq!(Key::from(km::VK_R.0), Key::R);
    assert_eq!(Key::from(km::VK_S.0), Key::S);
    assert_eq!(Key::from(km::VK_T.0), Key::T);
    assert_eq!(Key::from(km::VK_U.0), Key::U);
    assert_eq!(Key::from(km::VK_V.0), Key::V);
    assert_eq!(Key::from(km::VK_W.0), Key::W);
    assert_eq!(Key::from(km::VK_X.0), Key::X);
    assert_eq!(Key::from(km::VK_Y.0), Key::Y);
    assert_eq!(Key::from(km::VK_Z.0), Key::Z);
    assert_eq!(Key::from(km::VK_ESCAPE.0), Key::Escape);
    assert_eq!(Key::from(km::VK_F1.0), Key::F1);
    assert_eq!(Key::from(km::VK_F2.0), Key::F2);
    assert_eq!(Key::from(km::VK_F3.0), Key::F3);
    assert_eq!(Key::from(km::VK_F4.0), Key::F4);
    assert_eq!(Key::from(km::VK_F5.0), Key::F5);
    assert_eq!(Key::from(km::VK_F6.0), Key::F6);
    assert_eq!(Key::from(km::VK_F7.0), Key::F7);
    assert_eq!(Key::from(km::VK_F8.0), Key::F8);
    assert_eq!(Key::from(km::VK_F9.0), Key::F9);
    assert_eq!(Key::from(km::VK_F10.0), Key::F10);
    assert_eq!(Key::from(km::VK_F11.0), Key::F11);
    assert_eq!(Key::from(km::VK_F12.0), Key::F12);
    assert_eq!(Key::from(km::VK_F13.0), Key::F13);
    assert_eq!(Key::from(km::VK_F14.0), Key::F14);
    assert_eq!(Key::from(km::VK_F15.0), Key::F15);
    assert_eq!(Key::from(km::VK_F16.0), Key::F16);
    assert_eq!(Key::from(km::VK_F17.0), Key::F17);
    assert_eq!(Key::from(km::VK_F18.0), Key::F18);
    assert_eq!(Key::from(km::VK_F19.0), Key::F19);
    assert_eq!(Key::from(km::VK_F20.0), Key::F20);
    assert_eq!(Key::from(km::VK_F21.0), Key::F21);
    assert_eq!(Key::from(km::VK_F22.0), Key::F22);
    assert_eq!(Key::from(km::VK_F23.0), Key::F23);
    assert_eq!(Key::from(km::VK_F24.0), Key::F24);
    assert_eq!(Key::from(km::VK_SNAPSHOT.0), Key::PrintScreen);
    assert_eq!(Key::from(km::VK_SCROLL.0), Key::ScrollLock);
    assert_eq!(Key::from(km::VK_PAUSE.0), Key::Pause);
    assert_eq!(Key::from(km::VK_INSERT.0), Key::Insert);
    assert_eq!(Key::from(km::VK_HOME.0), Key::Home);
    assert_eq!(Key::from(km::VK_DELETE.0), Key::Delete);
    assert_eq!(Key::from(km::VK_END.0), Key::End);
    assert_eq!(Key::from(km::VK_NEXT.0), Key::PageDown);
    assert_eq!(Key::from(km::VK_PRIOR.0), Key::PageUp);
    assert_eq!(Key::from(km::VK_LEFT.0), Key::Left);
    assert_eq!(Key::from(km::VK_UP.0), Key::Up);
    assert_eq!(Key::from(km::VK_RIGHT.0), Key::Right);
    assert_eq!(Key::from(km::VK_DOWN.0), Key::Down);
    assert_eq!(Key::from(km::VK_BACK.0), Key::Backspace);
    assert_eq!(Key::from(km::VK_RETURN.0), Key::Enter);
    assert_eq!(Key::from(km::VK_SPACE.0), Key::Space);
    assert_eq!(Key::from(km::VK_NUMLOCK.0), Key::NumLock);
    assert_eq!(Key::from(km::VK_NUMPAD0.0), Key::Num0);
    assert_eq!(Key::from(km::VK_NUMPAD1.0), Key::Num1);
    assert_eq!(Key::from(km::VK_NUMPAD2.0), Key::Num2);
    assert_eq!(Key::from(km::VK_NUMPAD3.0), Key::Num3);
    assert_eq!(Key::from(km::VK_NUMPAD4.0), Key::Num4);
    assert_eq!(Key::from(km::VK_NUMPAD5.0), Key::Num5);
    assert_eq!(Key::from(km::VK_NUMPAD6.0), Key::Num6);
    assert_eq!(Key::from(km::VK_NUMPAD7.0), Key::Num7);
    assert_eq!(Key::from(km::VK_NUMPAD8.0), Key::Num8);
    assert_eq!(Key::from(km::VK_NUMPAD9.0), Key::Num9);
    assert_eq!(Key::from(km::VK_ADD.0), Key::NumPlus);
    assert_eq!(Key::from(km::VK_SUBTRACT.0), Key::NumMinus);
    assert_eq!(Key::from(km::VK_MULTIPLY.0), Key::NumMultiply);
    assert_eq!(Key::from(km::VK_DIVIDE.0), Key::NumDivide);
    assert_eq!(Key::from(km::VK_DECIMAL.0), Key::NumPeriod);
    assert_eq!(Key::from(km::VK_ABNT_C1.0), Key::AbntC1);
    assert_eq!(Key::from(km::VK_ABNT_C2.0), Key::AbntC2);
    assert_eq!(Key::from(km::VK_OEM_7.0), Key::Apostrophe);
    assert_eq!(Key::from(km::VK_APPS.0), Key::Menu);
    assert_eq!(Key::from(km::VK_OEM_AX.0), Key::Ax);
    assert_eq!(Key::from(km::VK_OEM_5.0), Key::BackSlash);
    assert_eq!(Key::from(km::VK_CAPITAL.0), Key::CapsLock);
    assert_eq!(Key::from(km::VK_OEM_COMMA.0), Key::Comma);
    assert_eq!(Key::from(km::VK_CONVERT.0), Key::Convert);
    assert_eq!(Key::from(km::VK_OEM_PLUS.0), Key::Equals);
    assert_eq!(Key::from(km::VK_OEM_3.0), Key::Accent);
    assert_eq!(Key::from(km::VK_KANA.0), Key::Kana);
    assert_eq!(Key::from(km::VK_KANJI.0), Key::Kanji);
    assert_eq!(Key::from(km::VK_LMENU.0), Key::LeftAlt);
    assert_eq!(Key::from(km::VK_OEM_4.0), Key::LeftBracket);
    assert_eq!(Key::from(km::VK_LCONTROL.0), Key::LeftControl);
    assert_eq!(Key::from(km::VK_LSHIFT.0), Key::LeftShift);
    assert_eq!(Key::from(km::VK_LWIN.0), Key::LeftSuper);
    assert_eq!(Key::from(km::VK_LAUNCH_MAIL.0), Key::Mail);
    assert_eq!(Key::from(km::VK_LAUNCH_MEDIA_SELECT.0), Key::MediaSelect);
    assert_eq!(Key::from(km::VK_MEDIA_STOP.0), Key::MediaStop);
    assert_eq!(Key::from(km::VK_OEM_MINUS.0), Key::Minus);
    assert_eq!(Key::from(km::VK_VOLUME_MUTE.0), Key::VolumeMute);
    assert_eq!(Key::from(km::VK_MEDIA_NEXT_TRACK.0), Key::MediaNextTrack);
    assert_eq!(Key::from(km::VK_NONCONVERT.0), Key::NoConvert);
    assert_eq!(Key::from(km::VK_OEM_102.0), Key::OEM102);
    assert_eq!(Key::from(km::VK_OEM_PERIOD.0), Key::Period);
    assert_eq!(Key::from(km::VK_MEDIA_PLAY_PAUSE.0), Key::MediaPlayPause);
    assert_eq!(Key::from(km::VK_MEDIA_PREV_TRACK.0), Key::MediaPrevTrack);
    assert_eq!(Key::from(km::VK_RMENU.0), Key::RightAlt);
    assert_eq!(Key::from(km::VK_OEM_6.0), Key::RightBracket);
    assert_eq!(Key::from(km::VK_RCONTROL.0), Key::RightControl);
    assert_eq!(Key::from(km::VK_RSHIFT.0), Key::RightShift);
    assert_eq!(Key::from(km::VK_RWIN.0), Key::RightSuper);
    assert_eq!(Key::from(km::VK_OEM_1.0), Key::Semicolon);
    assert_eq!(Key::from(km::VK_OEM_2.0), Key::ForwardSlash);
    assert_eq!(Key::from(km::VK_SLEEP.0), Key::Sleep);
    assert_eq!(Key::from(km::VK_TAB.0), Key::Tab);
    assert_eq!(Key::from(km::VK_NONAME.0), Key::NoName);
    assert_eq!(Key::from(km::VK_VOLUME_DOWN.0), Key::VolumeDown);
    assert_eq!(Key::from(km::VK_VOLUME_UP.0), Key::VolumeUp);
    assert_eq!(Key::from(km::VK_BROWSER_BACK.0), Key::WebBack);
    assert_eq!(Key::from(km::VK_BROWSER_FAVORITES.0), Key::WebFavorites);
    assert_eq!(Key::from(km::VK_BROWSER_FORWARD.0), Key::WebForward);
    assert_eq!(Key::from(km::VK_BROWSER_HOME.0), Key::WebHome);
    assert_eq!(Key::from(km::VK_BROWSER_REFRESH.0), Key::WebRefresh);
    assert_eq!(Key::from(km::VK_BROWSER_SEARCH.0), Key::WebSearch);
    assert_eq!(Key::from(km::VK_BROWSER_STOP.0), Key::WebStop);
    assert_eq!(Key::from(km::VK_OEM_COPY.0), Key::Copy);
}
