use vstd::prelude::*;

verus! {

/// A rational number, as the native `AVRational` holds it.
#[derive(PartialEq, Eq, Structural, Clone, Copy, Debug)]
pub struct Rational(pub i32, pub i32);

impl Rational {
    pub fn numerator(&self) -> (r: i32)
        ensures
            r == self.0,
    {
        self.0
    }

    pub fn denominator(&self) -> (r: i32)
        ensures
            r == self.1,
    {
        self.1
    }
}

/// The fields of a native `AVChapter` as plain values.
pub struct NativeChapter {
    pub id: i32,
    pub time_base: Rational,
    pub start: i64,
    pub end: i64,
}

/// A read-only view of one chapter of a format context.
///
/// `index` is the position in the context's chapter array, starting at 0; it
/// need not equal the chapter's id, which may start at 1.
pub struct Chapter<'a> {
    chapters: &'a [NativeChapter],
    index: usize,
}

impl<'a> Chapter<'a> {
    /// The position stays within the chapter array.
    pub closed spec fn wf(&self) -> bool {
        self.index < self.chapters@.len()
    }

    pub closed spec fn spec_index(&self) -> usize {
        self.index
    }

    /// The native chapter at the view's position.
    pub closed spec fn native(&self) -> NativeChapter {
        self.chapters@[self.index as int]
    }

    /// The chapter at `index` of a context's chapter array.
    pub fn wrap(chapters: &'a [NativeChapter], index: usize) -> (r: Chapter<'a>)
        requires
            index < chapters@.len(),
        ensures
            r.wf(),
            r.spec_index() == index,
            r.native() == chapters@[index as int],
    {
        Chapter { chapters, index }
    }

    pub fn as_ptr(&self) -> (r: &'a NativeChapter)
        requires
            self.wf(),
        ensures
            *r == self.native(),
    {
        &self.chapters[self.index]
    }

    pub fn index(&self) -> (r: usize)
        ensures
            r == self.spec_index(),
    {
        self.index
    }

    /// Unique id of the chapter.
    pub fn id(&self) -> (r: i32)
        requires
            self.wf(),
        ensures
            r == self.native().id,
    {
        self.chapters[self.index].id
    }

    /// The time base of `start()` and `end()`.
    pub fn time_base(&self) -> (r: Rational)
        requires
            self.wf(),
        ensures
            r == self.native().time_base,
    {
        self.chapters[self.index].time_base
    }

    /// Start of the chapter in `time_base()` units.
    pub fn start(&self) -> (r: i64)
        requires
            self.wf(),
        ensures
            r == self.native().start,
    {
        self.chapters[self.index].start
    }

    /// End of the chapter in `time_base()` units.
    pub fn end(&self) -> (r: i64)
        requires
            self.wf(),
        ensures
            r == self.native().end,
    {
        self.chapters[self.index].end
    }
}

} // verus!
