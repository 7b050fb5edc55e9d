use ruda::core_lib::{base_register, core_register, window_register};
use ruda::window_events::{event_code, event_input, event_key, event_scan, WinBuilder, WindowEvent};

#[test]
fn event_codes_follow_the_events_enum() {
    let events = [
        WindowEvent::Closed,
        WindowEvent::Resized,
        WindowEvent::LostFocus,
        WindowEvent::GainedFocus,
        WindowEvent::TextEntered { unicode: 'a' },
        WindowEvent::KeyPressed { code: 0, scan: 0 },
        WindowEvent::KeyReleased { code: 0, scan: 0 },
        WindowEvent::MouseWheelScrolled,
        WindowEvent::MouseButtonPressed,
        WindowEvent::MouseButtonReleased,
        WindowEvent::MouseMoved,
        WindowEvent::Other,
    ];
    for (i, e) in events.iter().enumerate() {
        assert_eq!(event_code(e), i);
    }
}

#[test]
fn key_codes() {
    assert_eq!(event_key(&WindowEvent::KeyPressed { code: 25, scan: 3 }), 25);
    assert_eq!(event_key(&WindowEvent::KeyReleased { code: 4, scan: 3 }), 4);
    assert_eq!(event_key(&WindowEvent::KeyPressed { code: -1, scan: 3 }), usize::MAX);
    assert_eq!(event_key(&WindowEvent::Closed), 0);
}

#[test]
fn scan_codes_only_for_presses() {
    assert_eq!(event_scan(&WindowEvent::KeyPressed { code: 1, scan: 57 }), 57);
    assert_eq!(event_scan(&WindowEvent::KeyReleased { code: 1, scan: 57 }), 0);
    assert_eq!(event_scan(&WindowEvent::MouseMoved), 0);
}

#[test]
fn text_input() {
    assert_eq!(event_input(&WindowEvent::TextEntered { unicode: 'ž' }), 'ž');
    assert_eq!(event_input(&WindowEvent::LostFocus), '\0');
}

#[test]
fn window_builder_defaults() {
    let b = WinBuilder::new();
    assert_eq!(b.title, "Window");
    assert_eq!((b.width, b.height), (800, 600));
    assert_eq!(b.name, "WinBuilder");
    assert_eq!((b.id, b.lib_id), (1, 0));
}

#[test]
fn core_declarations() {
    let mut expected = r#"
    fun arrlen(self=reg.g1): uint > 5
    fun arrpush<T>(self=reg.g1, value=reg.g2: T) > 6
    "#
    .to_string();
    for p in ["int", "float", "bool", "null", "char", "uint"] {
        expected.push_str(&format!("fun {}hello(self=reg.g1): {} > 4\n", p, p));
    }
    assert_eq!(core_register(), expected);
}

use ruda::lib_calls::{
    core_call, size_for_height, size_for_width, window_call, ArgKind, CoreCall, CoreCallError, Expected,
    InvalidArg, UserData, WindowCall,
};

#[test]
fn window_new_checks_title_then_settings() {
    assert_eq!(
        window_call(0, ArgKind::StringRef(3), ArgKind::UserDataRef(7, UserData::WinBuilder)),
        Ok(WindowCall::NewWindow { title: 3, settings: 7 })
    );
    assert_eq!(
        window_call(0, ArgKind::Uint(3), ArgKind::Null),
        Err(InvalidArg { arg: 0, expected: Expected::StringRef })
    );
    assert_eq!(
        window_call(0, ArgKind::StringRef(3), ArgKind::StringRef(7)),
        Err(InvalidArg { arg: 1, expected: Expected::UserDataRef })
    );
    assert_eq!(window_call(1, ArgKind::Other, ArgKind::Other), Ok(WindowCall::NewBuilder));
}

#[test]
fn window_setters() {
    assert_eq!(
        window_call(3, ArgKind::UserDataRef(1, UserData::WinBuilder), ArgKind::Uint(1024)),
        Ok(WindowCall::BuilderWidth { builder: 1, width: Some(1024) })
    );
    assert_eq!(
        window_call(4, ArgKind::UserDataRef(1, UserData::WinBuilder), ArgKind::Null),
        Ok(WindowCall::BuilderHeight { builder: 1, height: None })
    );
    // widths are cut to 32 bits
    assert_eq!(
        window_call(8, ArgKind::UserDataRef(2, UserData::Window), ArgKind::Uint((1usize << 32) + 5)),
        Ok(WindowCall::WindowWidth { window: 2, width: Some(5) })
    );
    assert_eq!(
        window_call(2, ArgKind::UserDataRef(1, UserData::WinBuilder), ArgKind::Uint(1)),
        Err(InvalidArg { arg: 1, expected: Expected::StringRef })
    );
    assert_eq!(
        window_call(2, ArgKind::UserDataRef(1, UserData::WinBuilder), ArgKind::StringRef(9)),
        Ok(WindowCall::BuilderTitle { builder: 1, title: Some(9) })
    );
    assert_eq!(
        window_call(9, ArgKind::StringRef(1), ArgKind::Uint(1)),
        Err(InvalidArg { arg: 0, expected: Expected::UserDataRef })
    );
    // the frame rate has no null form
    assert_eq!(
        window_call(13, ArgKind::UserDataRef(1, UserData::Window), ArgKind::Null),
        Err(InvalidArg { arg: 1, expected: Expected::Uint })
    );
    assert_eq!(
        window_call(13, ArgKind::UserDataRef(1, UserData::Window), ArgKind::Uint(60)),
        Ok(WindowCall::Fps { window: 1, fps: 60 })
    );
    assert_eq!(
        window_call(15, ArgKind::UserDataRef(1, UserData::Window), ArgKind::Null),
        Err(InvalidArg { arg: 1, expected: Expected::StringRef })
    );
}

#[test]
fn window_event_calls() {
    assert_eq!(window_call(10, ArgKind::UserDataRef(4, UserData::Window), ArgKind::Other), Ok(WindowCall::PollEvent { window: 4 }));
    assert_eq!(window_call(11, ArgKind::UserDataRef(4, UserData::Event), ArgKind::Other), Ok(WindowCall::EventCode { event: 4 }));
    assert_eq!(window_call(12, ArgKind::UserDataRef(4, UserData::Event), ArgKind::Other), Ok(WindowCall::EventKey { event: 4 }));
    assert_eq!(window_call(14, ArgKind::UserDataRef(4, UserData::Event), ArgKind::Other), Ok(WindowCall::EventInput { event: 4 }));
    assert_eq!(window_call(16, ArgKind::UserDataRef(4, UserData::Event), ArgKind::Other), Ok(WindowCall::EventScan { event: 4 }));
    // function 15 on an event is its scan code, whatever argument 1 holds
    assert_eq!(
        window_call(15, ArgKind::UserDataRef(4, UserData::Event), ArgKind::Null),
        Ok(WindowCall::EventScan { event: 4 })
    );
    assert_eq!(window_call(5, ArgKind::UserDataRef(4, UserData::Window), ArgKind::Other), Ok(WindowCall::Clear { window: 4 }));
    assert_eq!(window_call(6, ArgKind::UserDataRef(4, UserData::Window), ArgKind::Other), Ok(WindowCall::Display { window: 4 }));
    assert_eq!(window_call(7, ArgKind::UserDataRef(4, UserData::Window), ArgKind::Other), Ok(WindowCall::Close { window: 4 }));
}

#[test]
fn window_resizing() {
    assert_eq!(size_for_width((800, 600), 1024), (1024, 600));
    assert_eq!(size_for_width((640, 480), 800), (800, 480));
    assert_eq!(size_for_height((800, 600), 480), (800, 480));
}

#[test]
fn core_calls() {
    assert_eq!(core_call(0, ArgKind::StringRef(2), ArgKind::Other, ArgKind::Other), Ok(CoreCall::StrCopy { s: 2 }));
    assert_eq!(
        core_call(0, ArgKind::Null, ArgKind::Other, ArgKind::Other),
        Err(CoreCallError::InvalidStringPointer)
    );
    assert_eq!(core_call(1, ArgKind::Other, ArgKind::Uint(3), ArgKind::Other), Ok(CoreCall::ToStr));
    assert_eq!(
        core_call(2, ArgKind::StringRef(1), ArgKind::StringRef(2), ArgKind::Other),
        Ok(CoreCall::StrConcat { a: 1, b: 2 })
    );
    assert_eq!(
        core_call(3, ArgKind::StringRef(1), ArgKind::Uint(2), ArgKind::Other),
        Err(CoreCallError::InvalidStringPointer)
    );
    assert_eq!(
        core_call(3, ArgKind::StringRef(1), ArgKind::StringRef(1), ArgKind::Other),
        Ok(CoreCall::StrCmp { a: 1, b: 1 })
    );
    assert_eq!(core_call(4, ArgKind::Other, ArgKind::Other, ArgKind::Uint(1)), Ok(CoreCall::Hello));
    assert_eq!(core_call(5, ArgKind::Other, ArgKind::Other, ArgKind::ObjectRef(8)), Ok(CoreCall::ArrLen { array: 8 }));
    assert_eq!(core_call(6, ArgKind::Other, ArgKind::Other, ArgKind::ObjectRef(8)), Ok(CoreCall::ArrPush { array: 8 }));
    assert_eq!(
        core_call(6, ArgKind::Other, ArgKind::Other, ArgKind::StringRef(8)),
        Err(CoreCallError::InvalidArrayPointer)
    );
    assert_eq!(CoreCallError::InvalidArrayPointer.message(), "Invalid array pointer");
    assert_eq!(CoreCallError::InvalidStringPointer.message(), "Invalid string pointer");
}

#[test]
fn event_wrapper() {
    let e = ruda::window_events::Event::new(WindowEvent::MouseMoved);
    assert_eq!(e.name, "Event");
    assert_eq!((e.id, e.lib_id), (2, 0));
    assert_eq!(e.event, WindowEvent::MouseMoved);
}

#[test]
fn builder_setters_change_only_their_field() {
    let mut b = WinBuilder::new();
    assert_eq!(b.update_title(Some("Game".to_string())), "Game");
    assert_eq!(b.update_title(None), "Game");
    assert_eq!(b.update_width(Some(1024)), 1024);
    assert_eq!(b.update_width(None), 1024);
    assert_eq!(b.update_height(None), 600);
    assert_eq!(b.update_height(Some(768)), 768);
    assert_eq!(b.title, "Game");
    assert_eq!((b.width, b.height), (1024, 768));
    assert_eq!(b.name, "WinBuilder");
    assert_eq!((b.id, b.lib_id), (1, 0));
}

#[test]
fn library_declarations() {
    let w = window_register();
    assert!(w.starts_with("\n    userdata Window > 0i {\n"));
    assert!(w.contains("fun width(self=reg.ptr, width=reg.g1: uint?): uint > 8i"));
    assert!(w.contains("fun height(self=reg.ptr, height=reg.g1: uint?): uint > 9i"));
    assert!(w.contains("userdata WinBuilder > 1i"));
    assert_eq!(base_register(), "\n\n    ");
}

use ruda::core_ops::{arr_len, arr_push, str_concat, str_copy, str_equal};

#[test]
fn core_string_operations() {
    let pool = vec!["ab".to_string(), "".to_string(), "cd".to_string(), "ab".to_string()];
    assert_eq!(str_copy(&pool, 0), "ab");
    assert_eq!(str_copy(&pool, 1), "");
    assert_eq!(str_concat(&pool, 0, 2), "abcd");
    assert_eq!(str_concat(&pool, 2, 1), "cd");
    assert!(str_equal(&pool, 0, 3));
    assert!(!str_equal(&pool, 0, 2));
}

#[test]
fn core_array_operations() {
    let mut heap: Vec<Vec<u8>> = vec![vec![1, 2], vec![]];
    assert_eq!(arr_len(&heap, 0), 2);
    assert_eq!(arr_len(&heap, 1), 0);
    arr_push(&mut heap, 1, 7);
    arr_push(&mut heap, 1, 8);
    assert_eq!(heap, vec![vec![1, 2], vec![7, 8]]);
    assert_eq!(arr_len(&heap, 1), 2);
}
