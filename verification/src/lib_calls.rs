//! How the core and window libraries decode a call from a program: which
//! operation a function number stands for, and the checks on the kinds of its
//! arguments. Carrying the operation out on the virtual machine's memory is
//! the caller's part.
use vstd::prelude::*;

verus! {

/// What an argument of a library call holds, as far as the libraries tell values apart.
#[derive(Clone, Copy, Debug, PartialEq, Eq, Structural)]
pub enum ArgKind {
    /// A reference to a string of the string pool.
    StringRef(usize),
    /// A reference to a user-data object, with the kind of object it is.
    UserDataRef(usize, UserData),
    /// A reference to an object of the heap (an array).
    ObjectRef(usize),
    /// An unsigned integer.
    Uint(usize),
    Null,
    /// Any other value.
    Other,
}

/// The kinds of user-data object of the window library.
#[derive(Clone, Copy, Debug, PartialEq, Eq, Structural)]
pub enum UserData {
    Window,
    WinBuilder,
    Event,
}

/// The kind of value that a call expected where it found another.
#[derive(Clone, Copy, Debug, PartialEq, Eq, Structural)]
pub enum Expected {
    StringRef,
    UserDataRef,
    Uint,
}

/// An argument of a window-library call (0 or 1) was not of the kind expected.
#[derive(Clone, Copy, Debug, PartialEq, Eq, Structural)]
pub struct InvalidArg {
    pub arg: usize,
    pub expected: Expected,
}

/// The operations of the window library. `None` for a setter means that the
/// argument was null and the value is only read.
#[derive(Clone, Copy, Debug, PartialEq, Eq, Structural)]
pub enum WindowCall {
    /// 0: open a window with the title string and the settings of the builder.
    NewWindow { title: usize, settings: usize },
    /// 1: a new window builder with the default settings.
    NewBuilder,
    /// 2: set (unless null) and return the builder's title.
    BuilderTitle { builder: usize, title: Option<usize> },
    /// 3: set (unless null) and return the builder's width.
    BuilderWidth { builder: usize, width: Option<u32> },
    /// 4: set (unless null) and return the builder's height.
    BuilderHeight { builder: usize, height: Option<u32> },
    /// 5
    Clear { window: usize },
    /// 6
    Display { window: usize },
    /// 7
    Close { window: usize },
    /// 8: resize (unless null) and return the window's width.
    WindowWidth { window: usize, width: Option<u32> },
    /// 9: resize (unless null) and return the window's height.
    WindowHeight { window: usize, height: Option<u32> },
    /// 10
    PollEvent { window: usize },
    /// 11
    EventCode { event: usize },
    /// 12
    EventKey { event: usize },
    /// 13
    Fps { window: usize, fps: u32 },
    /// 14
    EventInput { event: usize },
    /// 15 on a window: set the title.
    WindowTitle { window: usize, title: usize },
    /// 15 on an event (and 16): the scan code of the key.
    EventScan { event: usize },
}

/// The user-data object that argument 0 refers to.
pub open spec fn spec_user_data(a0: ArgKind) -> Result<usize, InvalidArg> {
    match a0 {
        ArgKind::UserDataRef(p, _) => Ok(p),
        _ => Err(InvalidArg { arg: 0, expected: Expected::UserDataRef }),
    }
}

/// An optional size in argument 1: an unsigned integer (cut to 32 bits) or null.
pub open spec fn spec_opt_size(a1: ArgKind) -> Result<Option<u32>, InvalidArg> {
    match a1 {
        ArgKind::Uint(i) => Ok(Some(i as u32)),
        ArgKind::Null => Ok(None),
        _ => Err(InvalidArg { arg: 1, expected: Expected::Uint }),
    }
}

/// The kind of user-data object that function `id` takes as its argument 0
/// (function 15 is both the title of a window and the scan code of an event).
pub open spec fn owner_fits(id: usize, k: UserData) -> bool {
    if 2 <= id <= 4 {
        k == UserData::WinBuilder
    } else if (5 <= id <= 10) || id == 13 {
        k == UserData::Window
    } else if id == 15 {
        k == UserData::Window || k == UserData::Event
    } else {
        k == UserData::Event
    }
}

/// The user-data objects that a call reads are of the kinds its function
/// works on (the library stops on any other): the settings of function 0 are
/// a window builder, and argument 0 of functions 2 to 16 is the object that
/// the function belongs to.
pub open spec fn user_data_fits(id: usize, a0: ArgKind, a1: ArgKind) -> bool {
    if id == 0 {
        a0 is StringRef ==> (a1 matches ArgKind::UserDataRef(_, k) ==> k == UserData::WinBuilder)
    } else if id == 1 {
        true
    } else {
        a0 matches ArgKind::UserDataRef(_, k) ==> owner_fits(id, k)
    }
}

/// The window-library operation that function `id` stands for, with arguments
/// `a0` and `a1`; the first argument of the wrong kind makes the error.
pub open spec fn spec_window_call(id: usize, a0: ArgKind, a1: ArgKind) -> Result<WindowCall, InvalidArg> {
    if id == 0 {
        match a0 {
            ArgKind::StringRef(t) => match a1 {
                ArgKind::UserDataRef(s, _) => Ok(WindowCall::NewWindow { title: t, settings: s }),
                _ => Err(InvalidArg { arg: 1, expected: Expected::UserDataRef }),
            },
            _ => Err(InvalidArg { arg: 0, expected: Expected::StringRef }),
        }
    } else if id == 1 {
        Ok(WindowCall::NewBuilder)
    } else {
        match spec_user_data(a0) {
            Err(e) => Err(e),
            Ok(u) => if id == 2 {
                match a1 {
                    ArgKind::StringRef(t) => Ok(WindowCall::BuilderTitle { builder: u, title: Some(t) }),
                    ArgKind::Null => Ok(WindowCall::BuilderTitle { builder: u, title: None }),
                    _ => Err(InvalidArg { arg: 1, expected: Expected::StringRef }),
                }
            } else if id == 3 {
                match spec_opt_size(a1) {
                    Ok(w) => Ok(WindowCall::BuilderWidth { builder: u, width: w }),
                    Err(e) => Err(e),
                }
            } else if id == 4 {
                match spec_opt_size(a1) {
                    Ok(h) => Ok(WindowCall::BuilderHeight { builder: u, height: h }),
                    Err(e) => Err(e),
                }
            } else if id == 5 {
                Ok(WindowCall::Clear { window: u })
            } else if id == 6 {
                Ok(WindowCall::Display { window: u })
            } else if id == 7 {
                Ok(WindowCall::Close { window: u })
            } else if id == 8 {
                match spec_opt_size(a1) {
                    Ok(w) => Ok(WindowCall::WindowWidth { window: u, width: w }),
                    Err(e) => Err(e),
                }
            } else if id == 9 {
                match spec_opt_size(a1) {
                    Ok(h) => Ok(WindowCall::WindowHeight { window: u, height: h }),
                    Err(e) => Err(e),
                }
            } else if id == 10 {
                Ok(WindowCall::PollEvent { window: u })
            } else if id == 11 {
                Ok(WindowCall::EventCode { event: u })
            } else if id == 12 {
                Ok(WindowCall::EventKey { event: u })
            } else if id == 13 {
                match a1 {
                    ArgKind::Uint(i) => Ok(WindowCall::Fps { window: u, fps: i as u32 }),
                    _ => Err(InvalidArg { arg: 1, expected: Expected::Uint }),
                }
            } else if id == 14 {
                Ok(WindowCall::EventInput { event: u })
            } else if id == 15 && a0 matches ArgKind::UserDataRef(_, UserData::Event) {
                Ok(WindowCall::EventScan { event: u })
            } else if id == 15 {
                match a1 {
                    ArgKind::StringRef(t) => Ok(WindowCall::WindowTitle { window: u, title: t }),
                    _ => Err(InvalidArg { arg: 1, expected: Expected::StringRef }),
                }
            } else {
                Ok(WindowCall::EventScan { event: u })
            },
        }
    }
}

fn user_data(a0: ArgKind) -> (res: Result<usize, InvalidArg>)
    ensures
        res == spec_user_data(a0),
{
    match a0 {
        ArgKind::UserDataRef(p, _) => Ok(p),
        _ => Err(InvalidArg { arg: 0, expected: Expected::UserDataRef }),
    }
}

fn opt_size(a1: ArgKind) -> (res: Result<Option<u32>, InvalidArg>)
    ensures
        res == spec_opt_size(a1),
{
    match a1 {
        ArgKind::Uint(i) => Ok(Some(i as u32)),
        ArgKind::Null => Ok(None),
        _ => Err(InvalidArg { arg: 1, expected: Expected::Uint }),
    }
}

/// Decodes a call of the window library; the library has the functions 0 to 16.
pub fn window_call(id: usize, a0: ArgKind, a1: ArgKind) -> (res: Result<WindowCall, InvalidArg>)
    requires
        id <= 16,
        user_data_fits(id, a0, a1),
    ensures
        res == spec_window_call(id, a0, a1),
{
    if id == 0 {
        let title = match a0 {
            ArgKind::StringRef(t) => t,
            _ => {
                return Err(InvalidArg { arg: 0, expected: Expected::StringRef });
            },
        };
        let settings = match a1 {
            ArgKind::UserDataRef(s, _) => s,
            _ => {
                return Err(InvalidArg { arg: 1, expected: Expected::UserDataRef });
            },
        };
        return Ok(WindowCall::NewWindow { title, settings });
    }
    if id == 1 {
        return Ok(WindowCall::NewBuilder);
    }
    let u = match user_data(a0) {
        Ok(u) => u,
        Err(e) => {
            return Err(e);
        },
    };
    if id == 2 {
        match a1 {
            ArgKind::StringRef(t) => Ok(WindowCall::BuilderTitle { builder: u, title: Some(t) }),
            ArgKind::Null => Ok(WindowCall::BuilderTitle { builder: u, title: None }),
            _ => Err(InvalidArg { arg: 1, expected: Expected::StringRef }),
        }
    } else if id == 3 {
        match opt_size(a1) {
            Ok(w) => Ok(WindowCall::BuilderWidth { builder: u, width: w }),
            Err(e) => Err(e),
        }
    } else if id == 4 {
        match opt_size(a1) {
            Ok(h) => Ok(WindowCall::BuilderHeight { builder: u, height: h }),
            Err(e) => Err(e),
        }
    } else if id == 5 {
        Ok(WindowCall::Clear { window: u })
    } else if id == 6 {
        Ok(WindowCall::Display { window: u })
    } else if id == 7 {
        Ok(WindowCall::Close { window: u })
    } else if id == 8 {
        match opt_size(a1) {
            Ok(w) => Ok(WindowCall::WindowWidth { window: u, width: w }),
            Err(e) => Err(e),
        }
    } else if id == 9 {
        match opt_size(a1) {
            Ok(h) => Ok(WindowCall::WindowHeight { window: u, height: h }),
            Err(e) => Err(e),
        }
    } else if id == 10 {
        Ok(WindowCall::PollEvent { window: u })
    } else if id == 11 {
        Ok(WindowCall::EventCode { event: u })
    } else if id == 12 {
        Ok(WindowCall::EventKey { event: u })
    } else if id == 13 {
        match a1 {
            ArgKind::Uint(i) => Ok(WindowCall::Fps { window: u, fps: i as u32 }),
            _ => Err(InvalidArg { arg: 1, expected: Expected::Uint }),
        }
    } else if id == 14 {
        Ok(WindowCall::EventInput { event: u })
    } else if id == 15 {
        if let ArgKind::UserDataRef(_, UserData::Event) = a0 {
            return Ok(WindowCall::EventScan { event: u });
        }
        match a1 {
            ArgKind::StringRef(t) => Ok(WindowCall::WindowTitle { window: u, title: t }),
            _ => Err(InvalidArg { arg: 1, expected: Expected::StringRef }),
        }
    } else {
        Ok(WindowCall::EventScan { event: u })
    }
}

/// The object that a decoded window call works on: the builder, window or
/// event of its argument 0 (none for the two constructors).
pub open spec fn call_object(c: WindowCall) -> Option<usize> {
    match c {
        WindowCall::NewWindow { .. } => None,
        WindowCall::NewBuilder => None,
        WindowCall::BuilderTitle { builder, .. } => Some(builder),
        WindowCall::BuilderWidth { builder, .. } => Some(builder),
        WindowCall::BuilderHeight { builder, .. } => Some(builder),
        WindowCall::Clear { window } => Some(window),
        WindowCall::Display { window } => Some(window),
        WindowCall::Close { window } => Some(window),
        WindowCall::WindowWidth { window, .. } => Some(window),
        WindowCall::WindowHeight { window, .. } => Some(window),
        WindowCall::PollEvent { window } => Some(window),
        WindowCall::EventCode { event } => Some(event),
        WindowCall::EventKey { event } => Some(event),
        WindowCall::Fps { window, .. } => Some(window),
        WindowCall::EventInput { event } => Some(event),
        WindowCall::WindowTitle { window, .. } => Some(window),
        WindowCall::EventScan { event } => Some(event),
    }
}

/// Each function number of the window library stands for its declared
/// operation: a successful decode of function `id` is that operation (15 the
/// title of a window or the scan code of an event, as argument 0 is one or
/// the other), and it works on the object that argument 0 refers to.
pub proof fn lemma_window_call_operations(id: usize, a0: ArgKind, a1: ArgKind)
    requires
        id <= 16,
    ensures
        spec_window_call(id, a0, a1) matches Ok(c) ==> {
            &&& id == 0 ==> c is NewWindow
            &&& id == 1 ==> c is NewBuilder
            &&& id == 2 ==> c is BuilderTitle
            &&& id == 3 ==> c is BuilderWidth
            &&& id == 4 ==> c is BuilderHeight
            &&& id == 5 ==> c is Clear
            &&& id == 6 ==> c is Display
            &&& id == 7 ==> c is Close
            &&& id == 8 ==> c is WindowWidth
            &&& id == 9 ==> c is WindowHeight
            &&& id == 10 ==> c is PollEvent
            &&& id == 11 ==> c is EventCode
            &&& id == 12 ==> c is EventKey
            &&& id == 13 ==> c is Fps
            &&& id == 14 ==> c is EventInput
            &&& id == 15 ==> (a0 matches ArgKind::UserDataRef(_, UserData::Event) ==> c is EventScan)
            &&& id == 15 ==> (!(a0 matches ArgKind::UserDataRef(_, UserData::Event))
                ==> c is WindowTitle)
            &&& id == 16 ==> c is EventScan
            &&& id >= 2 ==> (a0 matches ArgKind::UserDataRef(u, _) && call_object(c) == Some(u))
        },
{
}

/// The other arguments reach the operation as given: a new window takes the
/// title string of argument 0 and the builder of argument 1; a builder's
/// title (2) takes the string of argument 1, or reads the title when it is
/// null; the frame rate (13) takes the unsigned integer of argument 1, cut to
/// 32 bits; a window's title (15) takes the string of argument 1.
pub proof fn lemma_window_call_arguments(u: usize, k: UserData, t: usize, s: usize, i: usize)
    ensures
        spec_window_call(0, ArgKind::StringRef(t), ArgKind::UserDataRef(s, k)) == Ok::<
            WindowCall,
            InvalidArg,
        >(WindowCall::NewWindow { title: t, settings: s }),
        spec_window_call(2, ArgKind::UserDataRef(u, k), ArgKind::StringRef(t)) == Ok::<
            WindowCall,
            InvalidArg,
        >(WindowCall::BuilderTitle { builder: u, title: Some(t) }),
        spec_window_call(2, ArgKind::UserDataRef(u, k), ArgKind::Null) == Ok::<
            WindowCall,
            InvalidArg,
        >(WindowCall::BuilderTitle { builder: u, title: None }),
        spec_window_call(13, ArgKind::UserDataRef(u, k), ArgKind::Uint(i)) == Ok::<
            WindowCall,
            InvalidArg,
        >(WindowCall::Fps { window: u, fps: i as u32 }),
        k != UserData::Event ==> spec_window_call(15, ArgKind::UserDataRef(u, k), ArgKind::StringRef(t))
            == Ok::<WindowCall, InvalidArg>(WindowCall::WindowTitle { window: u, title: t }),
        spec_window_call(15, ArgKind::UserDataRef(u, UserData::Event), ArgKind::StringRef(t)) == Ok::<
            WindowCall,
            InvalidArg,
        >(WindowCall::EventScan { event: u }),
{
}

/// The size functions (3 and 4 of a builder, 8 and 9 of a window) take
/// argument 1 as the new size, cut to 32 bits, or read the size when it is
/// null; any other argument 1 is refused.
pub proof fn lemma_window_size_calls(id: usize, u: usize, k: UserData, a1: ArgKind)
    requires
        id == 3 || id == 4 || id == 8 || id == 9,
    ensures
        ({
            let r = spec_window_call(id, ArgKind::UserDataRef(u, k), a1);
            let size: Option<Option<u32>> = match a1 {
                ArgKind::Uint(i) => Some(Some(i as u32)),
                ArgKind::Null => Some(None),
                _ => None,
            };
            match size {
                None => r == Err::<WindowCall, InvalidArg>(
                    InvalidArg { arg: 1, expected: Expected::Uint },
                ),
                Some(v) => r == Ok::<WindowCall, InvalidArg>(
                    if id == 3 {
                        WindowCall::BuilderWidth { builder: u, width: v }
                    } else if id == 4 {
                        WindowCall::BuilderHeight { builder: u, height: v }
                    } else if id == 8 {
                        WindowCall::WindowWidth { window: u, width: v }
                    } else {
                        WindowCall::WindowHeight { window: u, height: v }
                    },
                ),
            }
        }),
{
}

/// Each function number of the core library stands for its declared
/// operation on the registers it reads: `str_cpy` on the first general
/// register, `str_concat` and `str_cmp` on the first and second in that
/// order, `arrlen` and `arrpush` on the array of argument 0; a register of
/// the wrong kind gives the error of that function.
pub proof fn lemma_core_call_operations(id: usize, g1: ArgKind, g2: ArgKind, arg0: ArgKind)
    requires
        id <= 6,
    ensures
        ({
            let r = spec_core_call(id, g1, g2, arg0);
            &&& id == 0 ==> r == match g1 {
                ArgKind::StringRef(s) => Ok::<CoreCall, CoreCallError>(CoreCall::StrCopy { s }),
                _ => Err(CoreCallError::InvalidStringPointer),
            }
            &&& id == 1 ==> r == Ok::<CoreCall, CoreCallError>(CoreCall::ToStr)
            &&& (id == 2 || id == 3) ==> r == match (g1, g2) {
                (ArgKind::StringRef(a), ArgKind::StringRef(b)) => Ok::<CoreCall, CoreCallError>(
                    if id == 2 {
                        CoreCall::StrConcat { a, b }
                    } else {
                        CoreCall::StrCmp { a, b }
                    },
                ),
                _ => Err(CoreCallError::InvalidStringPointer),
            }
            &&& id == 4 ==> r == Ok::<CoreCall, CoreCallError>(CoreCall::Hello)
            &&& (id == 5 || id == 6) ==> r == match arg0 {
                ArgKind::ObjectRef(a) => Ok::<CoreCall, CoreCallError>(
                    if id == 5 {
                        CoreCall::ArrLen { array: a }
                    } else {
                        CoreCall::ArrPush { array: a }
                    },
                ),
                _ => Err(CoreCallError::InvalidArrayPointer),
            }
        }),
{
}

/// The size of a window after it is given the width `w`: the new width and the former height.
pub fn size_for_width(size: (u32, u32), w: u32) -> (res: (u32, u32))
    ensures
        res == (w, size.1),
{
    (w, size.1)
}

/// The size of a window after it is given the height `h`: the former width and the new height.
pub fn size_for_height(size: (u32, u32), h: u32) -> (res: (u32, u32))
    ensures
        res == (size.0, h),
{
    (size.0, h)
}

/// Why a core-library call was refused.
#[derive(Clone, Copy, Debug, PartialEq, Eq, Structural)]
pub enum CoreCallError {
    InvalidStringPointer,
    InvalidArrayPointer,
}

impl CoreCallError {
    /// The message that the library reports.
    pub fn message(&self) -> (res: String)
        ensures
            res@ == match *self {
                CoreCallError::InvalidStringPointer => "Invalid string pointer"@,
                CoreCallError::InvalidArrayPointer => "Invalid array pointer"@,
            },
    {
        match self {
            CoreCallError::InvalidStringPointer => "Invalid string pointer".to_owned(),
            CoreCallError::InvalidArrayPointer => "Invalid array pointer".to_owned(),
        }
    }
}

/// The operations of the core library.
#[derive(Clone, Copy, Debug, PartialEq, Eq, Structural)]
pub enum CoreCall {
    /// 0 (`str_cpy`): a copy of the string.
    StrCopy { s: usize },
    /// 1 (`to_str`): the text of the value in the second general register.
    ToStr,
    /// 2 (`str_concat`): a new string, the first followed by the second.
    StrConcat { a: usize, b: usize },
    /// 3 (`str_cmp`): whether the two strings are equal.
    StrCmp { a: usize, b: usize },
    /// 4 (`*hello`): greet the first argument.
    Hello,
    /// 5 (`arrlen`): the length of the array.
    ArrLen { array: usize },
    /// 6 (`arrpush`): push the second argument onto the array.
    ArrPush { array: usize },
}

/// The core-library operation that function `id` stands for: `g1` and `g2`
/// are the first and second general registers (the string operations read
/// them), `arg0` the first argument (the array operations read it).
pub open spec fn spec_core_call(id: usize, g1: ArgKind, g2: ArgKind, arg0: ArgKind) -> Result<CoreCall, CoreCallError> {
    if id == 0 {
        match g1 {
            ArgKind::StringRef(s) => Ok(CoreCall::StrCopy { s }),
            _ => Err(CoreCallError::InvalidStringPointer),
        }
    } else if id == 1 {
        Ok(CoreCall::ToStr)
    } else if id == 2 || id == 3 {
        match (g1, g2) {
            (ArgKind::StringRef(a), ArgKind::StringRef(b)) => if id == 2 {
                Ok(CoreCall::StrConcat { a, b })
            } else {
                Ok(CoreCall::StrCmp { a, b })
            },
            _ => Err(CoreCallError::InvalidStringPointer),
        }
    } else if id == 4 {
        Ok(CoreCall::Hello)
    } else {
        match arg0 {
            ArgKind::ObjectRef(a) => if id == 5 {
                Ok(CoreCall::ArrLen { array: a })
            } else {
                Ok(CoreCall::ArrPush { array: a })
            },
            _ => Err(CoreCallError::InvalidArrayPointer),
        }
    }
}

/// Decodes a call of the core library; the library has the functions 0 to 6.
pub fn core_call(id: usize, g1: ArgKind, g2: ArgKind, arg0: ArgKind) -> (res: Result<CoreCall, CoreCallError>)
    requires
        id <= 6,
    ensures
        res == spec_core_call(id, g1, g2, arg0),
{
    if id == 0 {
        match g1 {
            ArgKind::StringRef(s) => Ok(CoreCall::StrCopy { s }),
            _ => Err(CoreCallError::InvalidStringPointer),
        }
    } else if id == 1 {
        Ok(CoreCall::ToStr)
    } else if id == 2 || id == 3 {
        let a = match g1 {
            ArgKind::StringRef(a) => a,
            _ => {
                return Err(CoreCallError::InvalidStringPointer);
            },
        };
        let b = match g2 {
            ArgKind::StringRef(b) => b,
            _ => {
                return Err(CoreCallError::InvalidStringPointer);
            },
        };
        if id == 2 {
            Ok(CoreCall::StrConcat { a, b })
        } else {
            Ok(CoreCall::StrCmp { a, b })
        }
    } else if id == 4 {
        Ok(CoreCall::Hello)
    } else {
        match arg0 {
            ArgKind::ObjectRef(a) => if id == 5 {
                Ok(CoreCall::ArrLen { array: a })
            } else {
                Ok(CoreCall::ArrPush { array: a })
            },
            _ => Err(CoreCallError::InvalidArrayPointer),
        }
    }
}

} // verus!
