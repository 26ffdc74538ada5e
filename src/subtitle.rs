use vstd::prelude::*;

use crate::bridge::NativeEnum;
use crate::terminated::{c_str_bytes, c_string};

verus! {

pub const SUBTITLE_NONE: i32 = 0;
pub const SUBTITLE_BITMAP: i32 = 1;
pub const SUBTITLE_TEXT: i32 = 2;
pub const SUBTITLE_ASS: i32 = 3;

/// Kind of a subtitle rectangle (native `AVSubtitleType`).
///
/// A native value without a variant reads as `Type::Empty`.
#[derive(PartialEq, Eq, Structural, Clone, Copy, Debug)]
pub enum Type {
    Empty,
    /// A bitmap, with its picture set.
    Bitmap,
    /// Plain text, with its text field set.
    Text,
    /// Formatted text, with its ASS field set.
    Ass,
}

impl NativeEnum for Type {
    open spec fn fallback() -> Type {
        Type::Empty
    }

    open spec fn spec_to_native(self) -> i32 {
        match self {
            Type::Empty => SUBTITLE_NONE,
            Type::Bitmap => SUBTITLE_BITMAP,
            Type::Text => SUBTITLE_TEXT,
            Type::Ass => SUBTITLE_ASS,
        }
    }

    open spec fn is_readable(self) -> bool {
        true
    }

    open spec fn spec_from_native(value: i32) -> Type {
        if exists|v: Type| v.is_readable() && v.spec_to_native() == value {
            choose|v: Type| v.is_readable() && v.spec_to_native() == value
        } else {
            Type::fallback()
        }
    }

    fn from_native(value: i32) -> (r: Type) {
        let r = match value {
            SUBTITLE_BITMAP => Type::Bitmap,
            SUBTITLE_TEXT => Type::Text,
            SUBTITLE_ASS => Type::Ass,
            _ => Type::Empty,
        };
        proof {
            Type::round_trip(r);
        }
        r
    }

    fn to_native(self) -> (r: i32) {
        proof {
            Type::round_trip(self);
        }
        match self {
            Type::Empty => SUBTITLE_NONE,
            Type::Bitmap => SUBTITLE_BITMAP,
            Type::Text => SUBTITLE_TEXT,
            Type::Ass => SUBTITLE_ASS,
        }
    }

    proof fn to_native_injective(a: Type, b: Type) {
    }

    proof fn reads_are_readable(value: i32) {
    }

    proof fn round_trip(v: Type) {
        let w = choose|w: Type| w.is_readable() && w.spec_to_native() == v.spec_to_native();
        Type::to_native_injective(w, v);
    }

    proof fn unknown_values_fall_back(value: i32) {
    }
}

/// The rectangle is forced to be displayed.
pub const AV_SUBTITLE_FLAG_FORCED: i32 = 1;

/// Flags of a subtitle rectangle; only the bits that have a name are kept.
#[derive(PartialEq, Eq, Structural, Clone, Copy, Debug)]
pub struct Flags {
    bits: i32,
}

impl Flags {
    /// The rectangle is forced to be displayed.
    pub fn forced() -> (r: Flags)
        ensures
            r.spec_bits() == AV_SUBTITLE_FLAG_FORCED,
    {
        Flags { bits: AV_SUBTITLE_FLAG_FORCED }
    }

    pub closed spec fn spec_bits(&self) -> i32 {
        self.bits
    }

    /// Keeps the named bits of a native flag word and drops the others.
    pub fn from_bits_truncate(bits: i32) -> (r: Flags)
        ensures
            r.spec_bits() == bits & AV_SUBTITLE_FLAG_FORCED,
    {
        Flags { bits: bits & AV_SUBTITLE_FLAG_FORCED }
    }

    pub fn bits(&self) -> (r: i32)
        ensures
            r == self.spec_bits(),
    {
        self.bits
    }

    pub fn contains(&self, other: Flags) -> (r: bool)
        ensures
            r == (self.spec_bits() & other.spec_bits() == other.spec_bits()),
    {
        self.bits & other.bits == other.bits
    }
}

/// The fields of a native `AVSubtitleRect` as plain values. `text` and `ass`
/// are the buffers that their pointers reach (empty for a null pointer).
pub struct NativeRect {
    pub x: i32,
    pub y: i32,
    pub w: i32,
    pub h: i32,
    pub nb_colors: i32,
    pub kind: i32,
    pub text: Vec<u8>,
    pub ass: Vec<u8>,
    pub flags: i32,
}

/// A subtitle rectangle, as the variant that its kind field selects.
pub enum Rect<'a> {
    /// A rectangle of no known kind.
    Empty(&'a NativeRect),
    Bitmap(Bitmap<'a>),
    /// NUL terminated plain UTF-8 text.
    Text(Text<'a>),
    /// NUL terminated ASS/SSA compatible event line.
    Ass(Ass<'a>),
}

impl<'a> Rect<'a> {
    /// The native rectangle under whichever variant is active.
    pub open spec fn native(&self) -> &'a NativeRect {
        match self {
            Rect::Empty(ptr) => ptr,
            Rect::Bitmap(b) => b.native(),
            Rect::Text(t) => t.native(),
            Rect::Ass(a) => a.native(),
        }
    }

    /// Wraps a native rectangle as the variant that its kind field names.
    pub fn wrap(ptr: &'a NativeRect) -> (r: Rect<'a>)
        ensures
            r.native() == ptr,
            (r is Empty) <==> Type::spec_from_native(ptr.kind) == Type::Empty,
            (r is Bitmap) <==> Type::spec_from_native(ptr.kind) == Type::Bitmap,
            (r is Text) <==> Type::spec_from_native(ptr.kind) == Type::Text,
            (r is Ass) <==> Type::spec_from_native(ptr.kind) == Type::Ass,
    {
        match Type::from_native(ptr.kind) {
            Type::Empty => Rect::Empty(ptr),
            Type::Bitmap => Rect::Bitmap(Bitmap::wrap(ptr)),
            Type::Text => Rect::Text(Text::wrap(ptr)),
            Type::Ass => Rect::Ass(Ass::wrap(ptr)),
        }
    }

    pub fn as_ptr(&self) -> (r: &'a NativeRect)
        ensures
            r == self.native(),
    {
        match self {
            Rect::Empty(ptr) => ptr,
            Rect::Bitmap(b) => b.as_ptr(),
            Rect::Text(t) => t.as_ptr(),
            Rect::Ass(a) => a.as_ptr(),
        }
    }

    /// The flags of the rectangle, whichever variant is active.
    pub fn flags(&self) -> (r: Flags)
        ensures
            r.spec_bits() == self.native().flags & AV_SUBTITLE_FLAG_FORCED,
    {
        Flags::from_bits_truncate(self.as_ptr().flags)
    }
}

/// A bitmap subtitle rectangle.
pub struct Bitmap<'a> {
    ptr: &'a NativeRect,
}

impl<'a> Bitmap<'a> {
    pub closed spec fn native(&self) -> &'a NativeRect {
        self.ptr
    }

    pub fn wrap(ptr: &'a NativeRect) -> (r: Bitmap<'a>)
        ensures
            r.native() == ptr,
    {
        Bitmap { ptr }
    }

    pub fn as_ptr(&self) -> (r: &'a NativeRect)
        ensures
            r == self.native(),
    {
        self.ptr
    }

    /// Left edge of the picture; undefined when the picture is not set.
    pub fn x(&self) -> (r: usize)
        ensures
            r == self.native().x as usize,
    {
        self.ptr.x as usize
    }

    /// Top edge of the picture; undefined when the picture is not set.
    pub fn y(&self) -> (r: usize)
        ensures
            r == self.native().y as usize,
    {
        self.ptr.y as usize
    }

    /// Width of the picture; undefined when the picture is not set.
    pub fn width(&self) -> (r: u32)
        ensures
            r == self.native().w as u32,
    {
        self.ptr.w as u32
    }

    /// Height of the picture; undefined when the picture is not set.
    pub fn height(&self) -> (r: u32)
        ensures
            r == self.native().h as u32,
    {
        self.ptr.h as u32
    }

    /// Number of colors of the picture; undefined when the picture is not set.
    pub fn colors(&self) -> (r: usize)
        ensures
            r == self.native().nb_colors as usize,
    {
        self.ptr.nb_colors as usize
    }
}

/// A plain text subtitle rectangle.
pub struct Text<'a> {
    ptr: &'a NativeRect,
}

impl<'a> Text<'a> {
    pub closed spec fn native(&self) -> &'a NativeRect {
        self.ptr
    }

    pub fn wrap(ptr: &'a NativeRect) -> (r: Text<'a>)
        ensures
            r.native() == ptr,
    {
        Text { ptr }
    }

    pub fn as_ptr(&self) -> (r: &'a NativeRect)
        ensures
            r == self.native(),
    {
        self.ptr
    }

    /// The text, up to its NUL terminator.
    pub fn get(&self) -> (r: &'a [u8])
        ensures
            r@ == c_string(self.native().text@),
    {
        c_str_bytes(self.ptr.text.as_slice())
    }
}

/// An ASS/SSA subtitle rectangle.
pub struct Ass<'a> {
    ptr: &'a NativeRect,
}

impl<'a> Ass<'a> {
    pub closed spec fn native(&self) -> &'a NativeRect {
        self.ptr
    }

    pub fn wrap(ptr: &'a NativeRect) -> (r: Ass<'a>)
        ensures
            r.native() == ptr,
    {
        Ass { ptr }
    }

    pub fn as_ptr(&self) -> (r: &'a NativeRect)
        ensures
            r == self.native(),
    {
        self.ptr
    }

    /// The event line, up to its NUL terminator.
    pub fn get(&self) -> (r: &'a [u8])
        ensures
            r@ == c_string(self.native().ass@),
    {
        c_str_bytes(self.ptr.ass.as_slice())
    }
}

} // verus!
