//! The declarations that the core, base and window libraries register with the compiler.
use vstd::prelude::*;
use vstd::string::StringExecFns;

verus! {

/// The fixed part of the core library's declarations.
pub open spec fn core_fixed_declarations() -> Seq<char> {
    "\n    fun arrlen(self=reg.g1): uint > 5\n    fun arrpush<T>(self=reg.g1, value=reg.g2: T) > 6\n    "@
}

/// The declaration of the `hello` function of one primitive type.
pub open spec fn hello_declaration(p: Seq<char>) -> Seq<char> {
    "fun "@ + p + "hello(self=reg.g1): "@ + p + " > 4\n"@
}

/// The declarations of the `hello` functions of the given primitive types, in order.
pub open spec fn hello_declarations(ps: Seq<Seq<char>>) -> Seq<char>
    decreases ps.len(),
{
    if ps.len() == 0 {
        Seq::empty()
    } else {
        hello_declarations(ps.drop_last()) + hello_declaration(ps.last())
    }
}

/// The primitive types that get a `hello` function.
pub open spec fn core_primitives() -> Seq<Seq<char>> {
    seq!["int"@, "float"@, "bool"@, "null"@, "char"@, "uint"@]
}

/// The declarations that the core library registers: `arrlen` and `arrpush`,
/// then a `hello` function for each primitive type.
pub fn core_register() -> (res: String)
    ensures
        res@ == core_fixed_declarations() + hello_declarations(core_primitives()),
{
    let mut result = "\n    fun arrlen(self=reg.g1): uint > 5\n    fun arrpush<T>(self=reg.g1, value=reg.g2: T) > 6\n    ".to_owned();
    let primitives = ["int", "float", "bool", "null", "char", "uint"];
    let ghost ps = core_primitives();
    assert(primitives@.map_values(|p: &str| p@) =~= ps);
    let mut i: usize = 0;
    assert(ps.take(0) =~= Seq::<Seq<char>>::empty());
    assert(result@ =~= core_fixed_declarations() + hello_declarations(ps.take(0)));
    while i < 6
        invariant
            i <= 6,
            ps == core_primitives(),
            primitives@.map_values(|p: &str| p@) == ps,
            result@ == core_fixed_declarations() + hello_declarations(ps.take(i as int)),
        decreases 6 - i,
    {
        let p = primitives[i];
        assert(p@ == ps[i as int]);
        let ghost before = result@;
        result.append("fun ");
        result.append(p);
        result.append("hello(self=reg.g1): ");
        result.append(p);
        result.append(" > 4\n");
        proof {
            assert(ps.take(i + 1).drop_last() =~= ps.take(i as int));
            assert(ps.take(i + 1).last() == ps[i as int]);
            assert(result@ =~= before + hello_declaration(ps[i as int]));
        }
        i = i + 1;
    }
    assert(ps.take(6) =~= ps);
    result
}

/// The declarations of the window library: the user-data types `Window`,
/// `WinBuilder` and `Event` with their functions, and the enums `Events`,
/// `Keys` and `Scan`.
pub const WINDOW_DECLARATIONS: &'static str = r#"
    userdata Window > 0i {
        new (title=reg.g1: string, settings=reg.ptr: WinBuilder) > 0i
        fun width(self=reg.ptr, width=reg.g1: uint?): uint > 8i
        fun height(self=reg.ptr, height=reg.g1: uint?): uint > 9i
        fun fps(self=reg.ptr, fps=reg.g1: uint) > 13i
        fun title(self=reg.ptr, title=reg.g1: string)> 15i

        fun clear(self=reg.ptr) > 5i
        fun display(self=reg.ptr) > 6i
        fun close(self=reg.ptr) > 7i

        fun poll(self=reg.ptr): Event? > 10i
    }

    userdata WinBuilder > 1i {
        new () > 1i

        fun title(self=reg.ptr, title=reg.g1: string?): string > 2i
        fun width(self=reg.ptr, width=reg.g1: uint?): uint > 3i
        fun height(self=reg.ptr, height=reg.g1: uint?): uint > 4i
    }

    userdata Event > 2i {
        fun code(self=reg.ptr): Events > 11i
        fun key(self=reg.ptr): Keys > 12i
        fun input(self=reg.ptr): char > 14i
        fun scan(self=reg.ptr): Scan > 15i
    }

    enum Events > 0i {
        Closed
        Resized
        LostFocus
        GainedFocus
        Input
        KeyPressed
        KeyReleased
        MouseWheelScrolled
        MouseButtonPressed
        MouseButtonReleased
        MouseMoved

        Unknown
        None
    }

    enum Keys > 1i { 
        A B C D E F G H I J K L M N O P Q R S T U V W X Y Z 
        Num0 Num1 Num2 Num3 Num4 Num5 Num6 Num7 Num8 Num9 
        Escape LControl LShift LAlt LSystem RControl RShift RAlt RSystem Menu LBracket RBracket 
        Semicolon Comma Period Quote Slash Backslash Tilde Equal Hyphen Space 
        Enter Backspace Tab PageUp PageDown End Home Insert Delete 
        Add Subtract Multiply Divide Left Right Up Down 
        Numpad0 Numpad1 Numpad2 Numpad3 Numpad4 Numpad5 Numpad6 Numpad7 Numpad8 Numpad9 
        F1 F2 F3 F4 F5 F6 F7 F8 F9 F10 F11 F12 F13 F14 F15 
        Pause
    }
    enum Scan > 2i { 
        A B C D E F G H I J K L M N O P Q R S T U V W X Y Z 
        Num1 Num2 Num3 Num4 Num5 Num6 Num7 Num8 Num9 Num0 
        Enter Escape Backspace Tab Space Hyphen Equal LBracket RBracke Backslash 
        Semicolon Apostrophe Grave Comma Period Slash 
        F1 F2 F3 F4 F5 F6 F7 F8 F9 F10 F11 F12 F13 F14 F15 F16 F17 F18 F19 F20 F21 F22 F23 F24 
        CapsLock PrintScreen ScrollLock Pause Insert Home PageUp Delete End PageDown 
        Right Left Down Up 
        NumLock NumpadDivide NumpadMultiply NumpadMinus NumpadPlus NumpadEqual NumpadEnter NumpadDecimal 
        Numpad1 Numpad2 Numpad3 Numpad4 Numpad5 Numpad6 Numpad7 Numpad8 Numpad9 Numpad 
        NonUsBackslash Application Execute ModeChange Help Menu 
        Select Redo Undo Cut Copy Paste 
        VolumeMute VolumeUp VolumeDown MediaPlayPause 
        MediaStop MediaNextTrack MediaPreviousTrack 
        LControl LShift LAlt LSystem RControl RShift RAlt RSystem 
        Back Forward Refresh Stop Search Favorites HomePage 
        LaunchApplication1 LaunchApplication2 LaunchMail LaunchMediaSelect 
        ScancodeCount 
    }
    "#;

/// The declarations of the base library (none yet).
pub const BASE_DECLARATIONS: &'static str = r#"

    "#;

/// The declarations that the window library registers.
pub fn window_register() -> (res: String)
    ensures
        res@ == WINDOW_DECLARATIONS@,
{
    WINDOW_DECLARATIONS.to_owned()
}

/// The declarations that the base library registers.
pub fn base_register() -> (res: String)
    ensures
        res@ == BASE_DECLARATIONS@,
{
    BASE_DECLARATIONS.to_owned()
}

} // verus!
