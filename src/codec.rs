use vstd::prelude::*;

use crate::bridge::NativeEnum;
use crate::error::Error;
use crate::media;
use crate::terminated::{c_str_bytes, c_string, first_index, lemma_first_index};

verus! {

/// The entry that ends a native profile list.
pub const FF_PROFILE_UNKNOWN: i32 = -99;

pub const AV_CODEC_CAP_DRAW_HORIZ_BAND: u32 = 0x1;
pub const AV_CODEC_CAP_DR1: u32 = 0x2;
pub const AV_CODEC_CAP_TRUNCATED: u32 = 0x8;
pub const AV_CODEC_CAP_DELAY: u32 = 0x20;
pub const AV_CODEC_CAP_SMALL_LAST_FRAME: u32 = 0x40;
pub const AV_CODEC_CAP_SUBFRAMES: u32 = 0x100;
pub const AV_CODEC_CAP_EXPERIMENTAL: u32 = 0x200;
pub const AV_CODEC_CAP_CHANNEL_CONF: u32 = 0x400;
pub const AV_CODEC_CAP_FRAME_THREADS: u32 = 0x1000;
pub const AV_CODEC_CAP_SLICE_THREADS: u32 = 0x2000;
pub const AV_CODEC_CAP_PARAM_CHANGE: u32 = 0x4000;
pub const AV_CODEC_CAP_AUTO_THREADS: u32 = 0x8000;
pub const AV_CODEC_CAP_VARIABLE_FRAME_SIZE: u32 = 0x10000;
pub const AV_CODEC_CAP_INTRA_ONLY: u32 = 0x40000000;
pub const AV_CODEC_CAP_LOSSLESS: u32 = 0x80000000;

/// Every capability bit that has a name.
pub const AV_CODEC_CAP_KNOWN: u32 = 0xc001f76b;

/// Capabilities of a codec; only the bits that have a name are kept.
#[derive(PartialEq, Eq, Structural, Clone, Copy, Debug)]
pub struct Capabilities {
    bits: u32,
}

impl Capabilities {
    pub closed spec fn spec_bits(&self) -> u32 {
        self.bits
    }

    /// Keeps the named bits of a native capability word and drops the others.
    pub fn from_bits_truncate(bits: u32) -> (r: Capabilities)
        ensures
            r.spec_bits() == bits & AV_CODEC_CAP_KNOWN,
    {
        Capabilities { bits: bits & AV_CODEC_CAP_KNOWN }
    }

    pub fn bits(&self) -> (r: u32)
        ensures
            r == self.spec_bits(),
    {
        self.bits
    }

    /// Whether every bit of `mask` is set.
    pub fn contains(&self, mask: u32) -> (r: bool)
        ensures
            r == (self.spec_bits() & mask == mask),
    {
        self.bits & mask == mask
    }
}

/// The fields of a native `AVCodec` as plain values, with what the native
/// queries on it answered. `name` and `long_name` are the buffers that their
/// pointers reach (`None` for a null pointer); `profiles` is the profile array
/// that its pointer reaches, sentinel included.
pub struct NativeCodec {
    pub name: Vec<u8>,
    pub long_name: Option<Vec<u8>>,
    pub kind: i32,
    pub id: i32,
    pub capabilities: i32,
    pub profiles: Option<Vec<i32>>,
    pub is_encoder: bool,
    pub is_decoder: bool,
    pub max_lowres: i32,
}

/// A read-only view of a native codec.
#[derive(Clone, Copy)]
pub struct Codec<'a> {
    ptr: &'a NativeCodec,
}

/// A codec known to be a video codec.
pub struct Video<'a> {
    codec: Codec<'a>,
}

/// A codec known to be an audio codec.
pub struct Audio<'a> {
    codec: Codec<'a>,
}

/// A profile of a codec: the codec's id and the native profile value.
#[derive(PartialEq, Eq, Structural, Clone, Copy, Debug)]
pub struct Profile {
    pub id: i32,
    pub value: i32,
}

impl<'a> Codec<'a> {
    pub closed spec fn native(&self) -> &'a NativeCodec {
        self.ptr
    }

    pub open spec fn spec_medium(&self) -> media::Type {
        media::Type::spec_from_native(self.native().kind)
    }

    pub fn wrap(ptr: &'a NativeCodec) -> (r: Codec<'a>)
        ensures
            r.native() == ptr,
    {
        Codec { ptr }
    }

    pub fn as_ptr(&self) -> (r: &'a NativeCodec)
        ensures
            r == self.native(),
    {
        self.ptr
    }

    pub fn is_encoder(&self) -> (r: bool)
        ensures
            r == self.native().is_encoder,
    {
        self.ptr.is_encoder
    }

    pub fn is_decoder(&self) -> (r: bool)
        ensures
            r == self.native().is_decoder,
    {
        self.ptr.is_decoder
    }

    /// Name of the codec implementation, unique among encoders and among
    /// decoders.
    pub fn name(&self) -> (r: &'a [u8])
        ensures
            r@ == c_string(self.native().name@),
    {
        c_str_bytes(self.ptr.name.as_slice())
    }

    /// The more human readable name; empty when the native one is null.
    pub fn description(&self) -> (r: &'a [u8])
        ensures
            self.native().long_name is None ==> r@.len() == 0,
            self.native().long_name is Some ==> r@ == c_string(
                self.native().long_name->0@,
            ),
    {
        match &self.ptr.long_name {
            Some(buf) => c_str_bytes(buf.as_slice()),
            None => {
                let empty: &'a [u8] = &[];
                empty
            },
        }
    }

    /// The media type of the codec.
    pub fn medium(&self) -> (r: media::Type)
        ensures
            r == self.spec_medium(),
    {
        media::Type::from_native(self.ptr.kind)
    }

    /// The native codec id.
    pub fn id(&self) -> (r: i32)
        ensures
            r == self.native().id,
    {
        self.ptr.id
    }

    pub fn is_video(&self) -> (r: bool)
        ensures
            r == (self.spec_medium() == media::Type::Video),
    {
        self.medium() == media::Type::Video
    }

    /// The video view of the codec, or `Error::InvalidData` when its medium is
    /// not video.
    pub fn video(self) -> (r: Result<Video<'a>, Error>)
        ensures
            self.spec_medium() == media::Type::Video <==> r is Ok,
            r is Ok ==> r->Ok_0.spec_codec() == self,
            r is Err ==> r->Err_0 == Error::InvalidData,
    {
        if self.medium() == media::Type::Video {
            Ok(Video { codec: self })
        } else {
            Err(Error::InvalidData)
        }
    }

    pub fn is_audio(&self) -> (r: bool)
        ensures
            r == (self.spec_medium() == media::Type::Audio),
    {
        self.medium() == media::Type::Audio
    }

    /// The audio view of the codec, or `Error::InvalidData` when its medium is
    /// not audio.
    pub fn audio(self) -> (r: Result<Audio<'a>, Error>)
        ensures
            self.spec_medium() == media::Type::Audio <==> r is Ok,
            r is Ok ==> r->Ok_0.spec_codec() == self,
            r is Err ==> r->Err_0 == Error::InvalidData,
    {
        if self.medium() == media::Type::Audio {
            Ok(Audio { codec: self })
        } else {
            Err(Error::InvalidData)
        }
    }

    pub fn max_lowres(&self) -> (r: i32)
        ensures
            r == self.native().max_lowres,
    {
        self.ptr.max_lowres
    }

    /// The named capabilities of the codec.
    pub fn capabilities(&self) -> (r: Capabilities)
        ensures
            r.spec_bits() == (self.native().capabilities as u32) & AV_CODEC_CAP_KNOWN,
    {
        Capabilities::from_bits_truncate(self.ptr.capabilities as u32)
    }

    /// The profiles of the codec, or `None` when it lists none.
    pub fn profiles(&self) -> (r: Option<ProfileIter<'a>>)
        ensures
            self.native().profiles is None <==> r is None,
            r is Some ==> r->0.wf(),
            r is Some ==> r->0.spec_id() == self.native().id,
            r is Some ==> r->0.remaining() == sentinel_prefix(self.native().profiles->0@),
    {
        match &self.ptr.profiles {
            Some(entries) => Some(ProfileIter::new(self.ptr.id, entries.as_slice())),
            None => None,
        }
    }
}

impl<'a> Video<'a> {
    pub closed spec fn spec_codec(&self) -> Codec<'a> {
        self.codec
    }

    /// The codec that this view narrows.
    pub fn codec(&self) -> (r: Codec<'a>)
        ensures
            r == self.spec_codec(),
    {
        self.codec
    }
}

impl<'a> Audio<'a> {
    pub closed spec fn spec_codec(&self) -> Codec<'a> {
        self.codec
    }

    /// The codec that this view narrows.
    pub fn codec(&self) -> (r: Codec<'a>)
        ensures
            r == self.spec_codec(),
    {
        self.codec
    }
}

/// The entries of a native profile array before its sentinel.
pub open spec fn sentinel_prefix(entries: Seq<i32>) -> Seq<i32> {
    entries.subrange(0, first_index(entries, FF_PROFILE_UNKNOWN, 0))
}

/// A cursor over a native profile array; it stops for good at the sentinel,
/// or at the end of the array when the sentinel is missing.
pub struct ProfileIter<'a> {
    id: i32,
    entries: &'a [i32],
    pos: usize,
}

impl<'a> ProfileIter<'a> {
    /// The cursor never passes the sentinel.
    pub closed spec fn wf(&self) -> bool {
        self.pos <= first_index(self.entries@, FF_PROFILE_UNKNOWN, 0)
    }

    pub closed spec fn spec_id(&self) -> i32 {
        self.id
    }

    /// The entries still to come.
    pub closed spec fn remaining(&self) -> Seq<i32> {
        self.entries@.subrange(self.pos as int, first_index(self.entries@, FF_PROFILE_UNKNOWN, 0))
    }

    /// The cursor that `new(id, entries)` returns.
    pub closed spec fn spec_new(id: i32, entries: &'a [i32]) -> ProfileIter<'a> {
        ProfileIter { id, entries, pos: 0 }
    }

    /// What `next` returns, with the cursor it leaves behind.
    pub closed spec fn spec_next(self) -> (ProfileIter<'a>, Option<Profile>) {
        if self.pos < first_index(self.entries@, FF_PROFILE_UNKNOWN, 0) {
            (
                ProfileIter { id: self.id, entries: self.entries, pos: (self.pos + 1) as usize },
                Some(Profile { id: self.id, value: self.entries@[self.pos as int] }),
            )
        } else {
            (self, None)
        }
    }

    /// What the call `j` places after this cursor's position would return.
    closed spec fn yields_at(self, j: int) -> Option<Profile> {
        if self.pos + j < first_index(self.entries@, FF_PROFILE_UNKNOWN, 0) {
            Some(Profile { id: self.id, value: self.entries@[self.pos + j] })
        } else {
            None
        }
    }

    /// A cursor at the start of `entries`, for the codec with id `id`.
    pub fn new(id: i32, entries: &'a [i32]) -> (r: ProfileIter<'a>)
        ensures
            r == ProfileIter::spec_new(id, entries),
            r.wf(),
            r.spec_id() == id,
            r.remaining() == sentinel_prefix(entries@),
    {
        proof {
            lemma_first_index(entries@, FF_PROFILE_UNKNOWN, 0);
        }
        ProfileIter { id, entries, pos: 0 }
    }

    /// The next profile, or `None` once the sentinel is reached, and on every
    /// call after that.
    pub fn next(&mut self) -> (r: Option<Profile>)
        requires
            old(self).wf(),
        ensures
            (*final(self), r) == old(self).spec_next(),
            final(self).wf(),
            final(self).spec_id() == old(self).spec_id(),
            old(self).remaining().len() == 0 ==> r is None && final(self).remaining()
                == old(self).remaining(),
            old(self).remaining().len() > 0 ==> r == Some(
                Profile { id: old(self).spec_id(), value: old(self).remaining()[0] },
            ) && final(self).remaining() == old(self).remaining().drop_first(),
    {
        proof {
            lemma_first_index(self.entries@, FF_PROFILE_UNKNOWN, 0);
        }
        if self.pos >= self.entries.len() || self.entries[self.pos] == FF_PROFILE_UNKNOWN {
            None
        } else {
            let value = self.entries[self.pos];
            let ghost before = self.remaining();
            self.pos = self.pos + 1;
            assert(self.remaining() =~= before.drop_first());
            Some(Profile { id: self.id, value })
        }
    }
}

/// What `n` calls of `next` return, in order, from the cursor `it`.
pub open spec fn profile_outputs<'a>(it: ProfileIter<'a>, n: nat) -> Seq<Option<Profile>>
    decreases n,
{
    if n == 0 {
        Seq::empty()
    } else {
        seq![it.spec_next().1] + profile_outputs(it.spec_next().0, (n - 1) as nat)
    }
}

proof fn lemma_outputs<'a>(it: ProfileIter<'a>, n: nat)
    requires
        it.wf(),
    ensures
        profile_outputs(it, n) == Seq::new(n, |j: int| it.yields_at(j)),
    decreases n,
{
    lemma_first_index(it.entries@, FF_PROFILE_UNKNOWN, 0);
    if n > 0 {
        assert(it.entries@.len() == it.entries.len());
        let next = it.spec_next().0;
        lemma_outputs(next, (n - 1) as nat);
        assert(it.spec_next().1 == it.yields_at(0));
        assert forall|j: int| 1 <= j < n implies next.yields_at(j - 1) == it.yields_at(j) by {}
        let rest = profile_outputs(next, (n - 1) as nat);
        assert(profile_outputs(it, n) == seq![it.spec_next().1] + rest);
        assert(profile_outputs(it, n) =~= Seq::new(n, |j: int| it.yields_at(j)));
    }
}

/// Over `n` calls, at least as many as there are entries before the first
/// sentinel, a fresh profile cursor returns exactly those entries in array
/// order and `None` on every call after them; no entry past the sentinel is
/// returned.
pub proof fn profile_iter_yields_prefix(id: i32, entries: &[i32], k: int, n: nat)
    requires
        0 <= k < entries@.len(),
        entries@[k] == FF_PROFILE_UNKNOWN,
        forall|j: int| 0 <= j < k ==> entries@[j] != FF_PROFILE_UNKNOWN,
        k <= n,
    ensures
        profile_outputs(ProfileIter::spec_new(id, entries), n) == Seq::new(
            n,
            |j: int|
                if j < k {
                    Some(Profile { id, value: entries@[j] })
                } else {
                    None::<Profile>
                },
        ),
{
    crate::terminated::lemma_first_index_at(entries@, FF_PROFILE_UNKNOWN, 0, k);
    let it = ProfileIter::spec_new(id, entries);
    lemma_first_index(entries@, FF_PROFILE_UNKNOWN, 0);
    lemma_outputs(it, n);
    assert(profile_outputs(it, n) =~= Seq::new(
        n,
        |j: int|
            if j < k {
                Some(Profile { id, value: entries@[j] })
            } else {
                None::<Profile>
            },
    ));
}

/// The entries before the first sentinel are exactly what a profile cursor
/// yields, in order.
pub proof fn profile_list_ends_at_sentinel(entries: Seq<i32>, k: int)
    requires
        0 <= k < entries.len(),
        entries[k] == FF_PROFILE_UNKNOWN,
        forall|j: int| 0 <= j < k ==> entries[j] != FF_PROFILE_UNKNOWN,
    ensures
        sentinel_prefix(entries) == entries.subrange(0, k),
{
    crate::terminated::lemma_first_index_at(entries, FF_PROFILE_UNKNOWN, 0, k);
}

} // verus!
