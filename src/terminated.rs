use vstd::prelude::*;

verus! {

/// The index of the first `x` in `s` at or after `from`, or `s.len()` when
/// there is none.
pub open spec fn first_index<T>(s: Seq<T>, x: T, from: int) -> int
    decreases s.len() - from,
{
    if from >= s.len() {
        s.len() as int
    } else if s[from] == x {
        from
    } else {
        first_index(s, x, from + 1)
    }
}

/// The bytes of a native string: those before the first NUL, or all of them
/// when the buffer holds none.
pub open spec fn c_string(s: Seq<u8>) -> Seq<u8> {
    s.subrange(0, first_index(s, 0u8, 0))
}

/// The pieces of `s` between the delimiters `d`, in order; a string without
/// a delimiter is a single piece.
pub open spec fn split_on(s: Seq<u8>, d: u8) -> Seq<Seq<u8>>
    decreases s.len(),
{
    let k = first_index(s, d, 0);
    if 0 <= k < s.len() {
        seq![s.subrange(0, k)] + split_on(s.subrange(k + 1, s.len() as int), d)
    } else {
        seq![s]
    }
}

/// `first_index` lands on the first `x` at or after `from`, or on the end.
pub proof fn lemma_first_index<T>(s: Seq<T>, x: T, from: int)
    requires
        0 <= from <= s.len(),
    ensures
        from <= first_index(s, x, from) <= s.len(),
        forall|j: int| from <= j < first_index(s, x, from) ==> s[j] != x,
        first_index(s, x, from) < s.len() ==> s[first_index(s, x, from)] == x,
    decreases s.len() - from,
{
    if from < s.len() && s[from] != x {
        lemma_first_index(s, x, from + 1);
    }
}

/// A position with no `x` between `from` and itself, that holds `x` or is the
/// end, is `first_index(s, x, from)`.
pub proof fn lemma_first_index_at<T>(s: Seq<T>, x: T, from: int, k: int)
    requires
        0 <= from <= k <= s.len(),
        forall|j: int| from <= j < k ==> s[j] != x,
        k == s.len() || s[k] == x,
    ensures
        first_index(s, x, from) == k,
    decreases k - from,
{
    if from < k {
        lemma_first_index_at(s, x, from + 1, k);
    }
}

/// The bytes of the native string held in `buf`, up to and without the first
/// NUL; nothing past the terminator is handed out.
pub fn c_str_bytes<'a>(buf: &'a [u8]) -> (r: &'a [u8])
    ensures
        r@ == c_string(buf@),
{
    let mut i: usize = 0;
    while i < buf.len() && buf[i] != 0
        invariant
            0 <= i <= buf@.len(),
            forall|j: int| 0 <= j < i ==> buf@[j] != 0u8,
        decreases buf@.len() - i,
    {
        i = i + 1;
    }
    proof {
        lemma_first_index_at(buf@, 0u8, 0, i as int);
    }
    vstd::slice::slice_subrange(buf, 0, i)
}

/// Splits `s` on every byte `d`; `a,b` gives `a` and `b`, and an empty input
/// gives one empty piece.
pub fn split_bytes<'a>(s: &'a [u8], d: u8) -> (r: Vec<&'a [u8]>)
    ensures
        r@.len() == split_on(s@, d).len(),
        forall|i: int| 0 <= i < r@.len() ==> (#[trigger] r@[i])@ == split_on(s@, d)[i],
{
    let mut pieces: Vec<&'a [u8]> = Vec::new();
    let ghost mut done: Seq<Seq<u8>> = Seq::empty();
    let mut start: usize = 0;
    let mut i: usize = 0;
    assert(s@.subrange(0, s@.len() as int) =~= s@);
    while i < s.len()
        invariant
            0 <= start <= i <= s@.len(),
            forall|j: int| start <= j < i ==> s@[j] != d,
            pieces@.len() == done.len(),
            forall|j: int| 0 <= j < pieces@.len() ==> (#[trigger] pieces@[j])@ == done[j],
            split_on(s@, d) == done + split_on(s@.subrange(start as int, s@.len() as int), d),
        decreases s@.len() - i,
    {
        if s[i] == d {
            let ghost rest = s@.subrange(start as int, s@.len() as int);
            proof {
                lemma_first_index_at(rest, d, 0, i - start);
                assert(rest.subrange(0, i - start) =~= s@.subrange(start as int, i as int));
                assert(rest.subrange(i - start + 1, rest.len() as int) =~= s@.subrange(
                    i + 1,
                    s@.len() as int,
                ));
            }
            let piece = vstd::slice::slice_subrange(s, start, i);
            pieces.push(piece);
            proof {
                assert(done.push(piece@) + split_on(s@.subrange(i + 1, s@.len() as int), d)
                    =~= done + split_on(rest, d));
                done = done.push(piece@);
            }
            start = i + 1;
        }
        i = i + 1;
    }
    let ghost rest = s@.subrange(start as int, s@.len() as int);
    proof {
        lemma_first_index_at(rest, d, 0, rest.len() as int);
    }
    let piece = vstd::slice::slice_subrange(s, start, s.len());
    pieces.push(piece);
    proof {
        assert(piece@ =~= rest);
        assert(done.push(piece@) =~= done + split_on(rest, d));
        done = done.push(piece@);
    }
    pieces
}

} // verus!
