use ffmpeg_view::chapter::{Chapter, NativeChapter, Rational};
use ffmpeg_view::codec::{Codec, NativeCodec, Profile, AV_CODEC_CAP_DELAY, AV_CODEC_CAP_DR1, FF_PROFILE_UNKNOWN};
use ffmpeg_view::error::{status_to_result, Error};
use ffmpeg_view::frame_side_data;
use ffmpeg_view::input::{Input, NativeInputFormat};
use ffmpeg_view::media;
use ffmpeg_view::packet_side_data;
use ffmpeg_view::pixel::{Descriptor, NativeDescriptor};
use ffmpeg_view::subtitle::{Flags, NativeRect, Rect};
use ffmpeg_view::terminated::{c_str_bytes, split_bytes};

const H264: i32 = 27;

fn codec_record(kind: i32, profiles: Option<Vec<i32>>) -> NativeCodec {
    NativeCodec {
        name: b"h264\0".to_vec(),
        long_name: Some(b"H.264 / AVC\0garbage".to_vec()),
        kind,
        id: H264,
        capabilities: 0x22,
        profiles,
        is_encoder: false,
        is_decoder: true,
        max_lowres: 0,
    }
}

#[test]
fn profile_iter_stops_at_sentinel() {
    let native = codec_record(0, Some(vec![66, 77, FF_PROFILE_UNKNOWN, 100]));
    let codec = Codec::wrap(&native);
    let mut it = codec.profiles().unwrap();
    assert_eq!(it.next(), Some(Profile { id: H264, value: 66 }));
    assert_eq!(it.next(), Some(Profile { id: H264, value: 77 }));
    assert_eq!(it.next(), None);
    assert_eq!(it.next(), None);
}

#[test]
fn profile_iter_without_profiles() {
    let native = codec_record(0, None);
    assert!(Codec::wrap(&native).profiles().is_none());
    let only_sentinel = codec_record(0, Some(vec![FF_PROFILE_UNKNOWN]));
    let mut it = Codec::wrap(&only_sentinel).profiles().unwrap();
    assert_eq!(it.next(), None);
}

#[test]
fn video_narrowing() {
    let video = codec_record(0, None);
    let codec = Codec::wrap(&video);
    assert!(codec.is_video());
    assert!(!codec.is_audio());
    let v = codec.video().ok().unwrap();
    assert!(std::ptr::eq(v.codec().as_ptr(), &video));
    assert_eq!(codec.audio().err(), Some(Error::InvalidData));
}

#[test]
fn video_narrowing_of_audio_fails() {
    let audio = codec_record(1, None);
    let codec = Codec::wrap(&audio);
    assert_eq!(codec.medium(), media::Type::Audio);
    assert_eq!(codec.video().err(), Some(Error::InvalidData));
    let a = codec.audio().ok().unwrap();
    assert!(std::ptr::eq(a.codec().as_ptr(), &audio));
}

#[test]
fn codec_fields() {
    let native = codec_record(7, None);
    let codec = Codec::wrap(&native);
    assert_eq!(codec.name(), b"h264");
    assert_eq!(codec.description(), b"H.264 / AVC");
    assert_eq!(codec.medium(), media::Type::Unknown);
    assert_eq!(codec.id(), H264);
    assert_eq!(codec.capabilities().bits(), 0x22);
    assert!(codec.capabilities().contains(AV_CODEC_CAP_DR1 | AV_CODEC_CAP_DELAY));
    assert!(codec.is_decoder());
    assert!(!codec.is_encoder());
    assert_eq!(codec.max_lowres(), 0);
    let mut unnamed = codec_record(0, None);
    unnamed.long_name = None;
    assert_eq!(Codec::wrap(&unnamed).description(), b"");
}

fn input_record(extensions: Option<&[u8]>) -> NativeInputFormat {
    NativeInputFormat {
        name: b"mov,mp4,m4a,3gp,3g2,mj2\0".to_vec(),
        long_name: b"QuickTime / MOV\0".to_vec(),
        extensions: extensions.map(|e| e.to_vec()),
        mime_type: None,
    }
}

#[test]
fn extensions_split_on_commas() {
    let native = input_record(Some(b"mp4,m4a,m4v\0"));
    let input = Input::wrap(&native);
    let ext = input.extensions();
    assert_eq!(ext, vec![&b"mp4"[..], &b"m4a"[..], &b"m4v"[..]]);
}

#[test]
fn null_extensions_are_empty() {
    let native = input_record(None);
    let input = Input::wrap(&native);
    assert!(input.extensions().is_empty());
    assert!(input.mime_types().is_empty());
}

#[test]
fn input_names() {
    let mut native = input_record(Some(b"\0"));
    native.mime_type = Some(b"video/mp4,audio/mp4\0xyz".to_vec());
    let input = Input::wrap(&native);
    assert_eq!(input.name(), b"mov,mp4,m4a,3gp,3g2,mj2");
    assert_eq!(input.description(), b"QuickTime / MOV");
    assert_eq!(input.extensions(), vec![&b""[..]]);
    assert_eq!(input.mime_types(), vec![&b"video/mp4"[..], &b"audio/mp4"[..]]);
}

#[test]
fn packet_side_data_is_byte_exact() {
    let mut buffer = vec![1u8, 2, 3, 4, 5];
    buffer.extend_from_slice(&[9u8; 64]);
    let native = packet_side_data::NativeSideData { kind: 0, buffer, size: 5 };
    let side = packet_side_data::SideData::wrap(&native);
    assert_eq!(side.data(), &[1u8, 2, 3, 4, 5][..]);
    assert_eq!(side.kind(), packet_side_data::Type::Palette);
}

#[test]
fn frame_side_data_is_byte_exact() {
    let native = frame_side_data::NativeSideData { kind: 15, buffer: vec![7u8, 8, 9, 10], size: 2 };
    let side = frame_side_data::SideData::wrap(&native);
    assert_eq!(side.data(), &[7u8, 8][..]);
    assert_eq!(side.kind(), frame_side_data::Type::IccProfile);
    let empty = frame_side_data::NativeSideData { kind: 999, buffer: vec![1u8], size: 0 };
    let side = frame_side_data::SideData::wrap(&empty);
    assert!(side.data().is_empty());
    assert_eq!(side.kind(), frame_side_data::Type::PanScan);
}

fn rect_record(kind: i32) -> NativeRect {
    NativeRect {
        x: 10,
        y: 20,
        w: 320,
        h: 40,
        nb_colors: 4,
        kind,
        text: b"hello\0world".to_vec(),
        ass: b"Dialogue: 0,0:00:01.00\0".to_vec(),
        flags: 3,
    }
}

#[test]
fn rect_dispatch() {
    let bitmap = rect_record(1);
    match Rect::wrap(&bitmap) {
        Rect::Bitmap(b) => {
            assert_eq!(b.x(), 10);
            assert_eq!(b.y(), 20);
            assert_eq!(b.width(), 320);
            assert_eq!(b.height(), 40);
            assert_eq!(b.colors(), 4);
        }
        _ => panic!("expected a bitmap rectangle"),
    }
    let text = rect_record(2);
    match Rect::wrap(&text) {
        Rect::Text(t) => assert_eq!(t.get(), b"hello"),
        _ => panic!("expected a text rectangle"),
    }
    let ass = rect_record(3);
    match Rect::wrap(&ass) {
        Rect::Ass(a) => assert_eq!(a.get(), b"Dialogue: 0,0:00:01.00"),
        _ => panic!("expected an ASS rectangle"),
    }
    let other = rect_record(42);
    assert!(matches!(Rect::wrap(&other), Rect::Empty(_)));
}

#[test]
fn rect_flags_keep_named_bits() {
    let native = rect_record(2);
    let rect = Rect::wrap(&native);
    assert_eq!(rect.flags().bits(), 1);
    assert!(rect.flags().contains(Flags::forced()));
    assert!(std::ptr::eq(rect.as_ptr(), &native));
    let mut plain = rect_record(0);
    plain.flags = 2;
    assert!(!Rect::wrap(&plain).flags().contains(Flags::forced()));
}

#[test]
fn chapters() {
    let list = vec![
        NativeChapter { id: 1, time_base: Rational(1, 1000), start: 0, end: 5000 },
        NativeChapter { id: 2, time_base: Rational(1, 90000), start: 5000, end: 9000 },
    ];
    let c = Chapter::wrap(&list, 1);
    assert_eq!(c.index(), 1);
    assert_eq!(c.id(), 2);
    assert_eq!(c.time_base(), Rational(1, 90000));
    assert_eq!(c.time_base().denominator(), 90000);
    assert_eq!(c.start(), 5000);
    assert_eq!(c.end(), 9000);
}

#[test]
fn descriptor_fields() {
    let native = NativeDescriptor { name: b"yuv420p\0".to_vec(), nb_components: 3, log2_chroma_w: 1, log2_chroma_h: 1 };
    let d = Descriptor::wrap(&native);
    assert_eq!(d.name(), b"yuv420p");
    assert_eq!(d.nb_components(), 3);
    assert_eq!(d.log2_chroma_w(), 1);
    assert_eq!(d.log2_chroma_h(), 1);
}

#[test]
fn status_codes() {
    assert_eq!(status_to_result(0), Ok(()));
    assert_eq!(status_to_result(-22), Err(Error::Other(-22)));
}

#[test]
fn c_strings_and_splits() {
    assert_eq!(c_str_bytes(b"abc\0def"), b"abc");
    assert_eq!(c_str_bytes(b"abc"), b"abc");
    assert_eq!(c_str_bytes(b"\0"), b"");
    assert_eq!(split_bytes(b"a,,b", b','), vec![&b"a"[..], &b""[..], &b"b"[..]]);
    assert_eq!(split_bytes(b"", b','), vec![&b""[..]]);
}

#[test]
fn capabilities_drop_unnamed_bits() {
    let mut native = codec_record(0, None);
    native.capabilities = 0x4 | 0x2 | 0x20000 | 0x4000_0000;
    let caps = Codec::wrap(&native).capabilities();
    assert_eq!(caps.bits(), 0x2 | 0x4000_0000);
    assert!(!caps.contains(0x4));
    native.capabilities = -1;
    assert_eq!(Codec::wrap(&native).capabilities().bits(), 0xc001_f76b);
}
