//! What the window library reports of a window event to a program: the kind
//! of event as a number, the key and scan codes of key events, and the
//! character of text input.
use vstd::prelude::*;

verus! {

/// A window event, as far as the window library reads it. Key codes and scan
/// codes are the discriminants of SFML's `Key` and `Scancode` (`-1` for `Unknown`).
#[derive(Clone, Copy, Debug, PartialEq, Eq, Structural)]
pub enum WindowEvent {
    Closed,
    Resized,
    LostFocus,
    GainedFocus,
    TextEntered { unicode: char },
    KeyPressed { code: i32, scan: i32 },
    KeyReleased { code: i32, scan: i32 },
    MouseWheelScrolled,
    MouseButtonPressed,
    MouseButtonReleased,
    MouseMoved,
    /// Any other event.
    Other,
}

/// The number of an event kind, in the order of the library's `Events` enum:
/// Closed 0, Resized 1, LostFocus 2, GainedFocus 3, Input 4, KeyPressed 5,
/// KeyReleased 6, MouseWheelScrolled 7, MouseButtonPressed 8,
/// MouseButtonReleased 9, MouseMoved 10, Unknown 11.
pub open spec fn spec_event_code(e: WindowEvent) -> usize {
    match e {
        WindowEvent::Closed => 0,
        WindowEvent::Resized => 1,
        WindowEvent::LostFocus => 2,
        WindowEvent::GainedFocus => 3,
        WindowEvent::TextEntered { .. } => 4,
        WindowEvent::KeyPressed { .. } => 5,
        WindowEvent::KeyReleased { .. } => 6,
        WindowEvent::MouseWheelScrolled => 7,
        WindowEvent::MouseButtonPressed => 8,
        WindowEvent::MouseButtonReleased => 9,
        WindowEvent::MouseMoved => 10,
        WindowEvent::Other => 11,
    }
}

/// The number of the event's kind (`Event::code`).
pub fn event_code(e: &WindowEvent) -> (res: usize)
    ensures
        res == spec_event_code(*e),
        res <= 11,
{
    match e {
        WindowEvent::Closed => 0,
        WindowEvent::Resized => 1,
        WindowEvent::LostFocus => 2,
        WindowEvent::GainedFocus => 3,
        WindowEvent::TextEntered { .. } => 4,
        WindowEvent::KeyPressed { .. } => 5,
        WindowEvent::KeyReleased { .. } => 6,
        WindowEvent::MouseWheelScrolled => 7,
        WindowEvent::MouseButtonPressed => 8,
        WindowEvent::MouseButtonReleased => 9,
        WindowEvent::MouseMoved => 10,
        WindowEvent::Other => 11,
    }
}

/// The key code of a key event (`Event::key`): the key's discriminant as a
/// `usize` (so `Unknown` gives `usize::MAX`); 0 for any other event.
pub fn event_key(e: &WindowEvent) -> (res: usize)
    ensures
        res == match *e {
            WindowEvent::KeyPressed { code, .. } => code as usize,
            WindowEvent::KeyReleased { code, .. } => code as usize,
            _ => 0usize,
        },
{
    match e {
        WindowEvent::KeyPressed { code, .. } => *code as usize,
        WindowEvent::KeyReleased { code, .. } => *code as usize,
        _ => 0,
    }
}

/// The scan code of a key press (`Event::scan`): the scancode's discriminant
/// as a `usize`; 0 for any other event, key releases included.
pub fn event_scan(e: &WindowEvent) -> (res: usize)
    ensures
        res == match *e {
            WindowEvent::KeyPressed { scan, .. } => scan as usize,
            _ => 0usize,
        },
{
    match e {
        WindowEvent::KeyPressed { scan, .. } => *scan as usize,
        _ => 0,
    }
}

/// The character of a text-input event (`Event::input`); `'\0'` for any other event.
pub fn event_input(e: &WindowEvent) -> (res: char)
    ensures
        res == match *e {
            WindowEvent::TextEntered { unicode } => unicode,
            _ => '\0',
        },
{
    match e {
        WindowEvent::TextEntered { unicode } => *unicode,
        _ => '\0',
    }
}

/// The settings from which the window library opens a window.
#[derive(Debug)]
pub struct WinBuilder {
    pub title: String,
    pub width: u32,
    pub height: u32,
    pub name: String,
    pub id: usize,
    pub lib_id: usize,
}

impl WinBuilder {
    /// The default settings: an 800 by 600 window titled "Window".
    pub fn new() -> (res: WinBuilder)
        ensures
            res.title@ == "Window"@,
            res.width == 800,
            res.height == 600,
            res.name@ == "WinBuilder"@,
            res.id == 1,
            res.lib_id == 0,
    {
        WinBuilder {
            title: "Window".to_owned(),
            width: 800,
            height: 600,
            name: "WinBuilder".to_owned(),
            id: 1,
            lib_id: 0,
        }
    }

    /// Function 2 (`title`): sets the title unless the argument is null, and
    /// returns the title it then has.
    pub fn update_title(&mut self, title: Option<String>) -> (res: String)
        ensures
            final(self).title@ == match title {
                Some(t) => t@,
                None => old(self).title@,
            },
            res@ == final(self).title@,
            final(self).width == old(self).width,
            final(self).height == old(self).height,
            final(self).name == old(self).name,
            final(self).id == old(self).id,
            final(self).lib_id == old(self).lib_id,
    {
        match title {
            Some(t) => {
                self.title = t;
            },
            None => {},
        }
        self.title.clone()
    }

    /// Function 3 (`width`): sets the width unless the argument is null, and
    /// returns the width it then has.
    pub fn update_width(&mut self, width: Option<u32>) -> (res: usize)
        ensures
            final(self).width == match width {
                Some(w) => w,
                None => old(self).width,
            },
            res == final(self).width as usize,
            final(self).title == old(self).title,
            final(self).height == old(self).height,
            final(self).name == old(self).name,
            final(self).id == old(self).id,
            final(self).lib_id == old(self).lib_id,
    {
        match width {
            Some(w) => {
                self.width = w;
            },
            None => {},
        }
        self.width as usize
    }

    /// Function 4 (`height`): sets the height unless the argument is null, and
    /// returns the height it then has.
    pub fn update_height(&mut self, height: Option<u32>) -> (res: usize)
        ensures
            final(self).height == match height {
                Some(h) => h,
                None => old(self).height,
            },
            res == final(self).height as usize,
            final(self).title == old(self).title,
            final(self).width == old(self).width,
            final(self).name == old(self).name,
            final(self).id == old(self).id,
            final(self).lib_id == old(self).lib_id,
    {
        match height {
            Some(h) => {
                self.height = h;
            },
            None => {},
        }
        self.height as usize
    }
}

/// An event as the window library hands it to a program.
#[derive(Debug)]
pub struct Event {
    pub name: String,
    pub id: usize,
    pub lib_id: usize,
    pub event: WindowEvent,
}

impl Event {
    /// Wraps a window event.
    pub fn new(event: WindowEvent) -> (res: Event)
        ensures
            res.name@ == "Event"@,
            res.id == 2,
            res.lib_id == 0,
            res.event == event,
    {
        Event { name: "Event".to_owned(), id: 2, lib_id: 0, event }
    }
}

} // verus!
