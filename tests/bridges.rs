use ffmpeg_view::bridge::NativeEnum;
use ffmpeg_view::decision::Decision;
use ffmpeg_view::frame_side_data;
use ffmpeg_view::media;
use ffmpeg_view::option_type;
use ffmpeg_view::packet_side_data;
use ffmpeg_view::pixel::{ParsePixelError, Pixel};
use ffmpeg_view::primaries::Primaries;
use ffmpeg_view::range::Range;
use ffmpeg_view::rounding::Rounding;
use ffmpeg_view::space::Space;
use ffmpeg_view::subtitle;
use ffmpeg_view::transfer_characteristic::TransferCharacteristic;

#[test]
fn range_values() {
    assert_eq!(Range::from_native(0), Range::Unspecified);
    assert_eq!(Range::from_native(1), Range::MPEG);
    assert_eq!(Range::from_native(2), Range::JPEG);
    assert_eq!(Range::MPEG.to_native(), 1);
    assert_eq!(Range::JPEG.to_native(), 2);
}

#[test]
fn count_sentinels_fall_back_to_unspecified() {
    assert_eq!(Range::from_native(3), Range::from_native(0));
    assert_eq!(Primaries::from_native(23), Primaries::from_native(2));
    assert_eq!(Primaries::from_native(23), Primaries::Unspecified);
    assert_eq!(Space::from_native(15), Space::Unspecified);
    assert_eq!(TransferCharacteristic::from_native(19), TransferCharacteristic::Unspecified);
    assert_eq!(media::Type::from_native(5), media::Type::Unknown);
    assert_eq!(Pixel::from_native(198), Pixel::NONE);
    assert_eq!(Pixel::from_native(-1), Pixel::NONE);
}

#[test]
fn any_integer_converts() {
    for v in [i32::MIN, -100, -2, 199, 200, 4096, 9000, i32::MAX] {
        assert_eq!(Primaries::from_native(v), Primaries::Unspecified);
        assert_eq!(Range::from_native(v), Range::Unspecified);
        assert_eq!(Space::from_native(v), Space::Unspecified);
        assert_eq!(TransferCharacteristic::from_native(v), TransferCharacteristic::Unspecified);
        assert_eq!(Pixel::from_native(v), Pixel::NONE);
        assert_eq!(Decision::from_native(v), Decision::Simple);
        assert_eq!(Rounding::from_native(v), Rounding::Zero);
        assert_eq!(option_type::Type::from_native(v), option_type::Type::Flags);
        assert_eq!(packet_side_data::Type::from_native(v), packet_side_data::Type::DataNb);
        assert_eq!(frame_side_data::Type::from_native(v), frame_side_data::Type::PanScan);
        assert_eq!(subtitle::Type::from_native(v), subtitle::Type::Empty);
        assert_eq!(media::Type::from_native(v), media::Type::Unknown);
    }
    assert_eq!(Primaries::from_native(13), Primaries::Unspecified);
    assert_eq!(Primaries::from_native(21), Primaries::Unspecified);
    assert_eq!(Rounding::from_native(4), Rounding::Zero);
}

#[test]
fn round_trips() {
    for v in -1..200 {
        let p = Pixel::from_native(v);
        assert_eq!(Pixel::from_native(p.to_native()), p);
        let c = Primaries::from_native(v);
        assert_eq!(Primaries::from_native(c.to_native()), c);
        let t = TransferCharacteristic::from_native(v);
        assert_eq!(TransferCharacteristic::from_native(t.to_native()), t);
        let s = Space::from_native(v);
        assert_eq!(Space::from_native(s.to_native()), s);
        let k = packet_side_data::Type::from_native(v);
        assert_eq!(packet_side_data::Type::from_native(k.to_native()), k);
        let f = frame_side_data::Type::from_native(v);
        assert_eq!(frame_side_data::Type::from_native(f.to_native()), f);
        let o = option_type::Type::from_native(v);
        assert_eq!(option_type::Type::from_native(o.to_native()), o);
    }
}

#[test]
fn known_native_values() {
    assert_eq!(Primaries::BT709.to_native(), 1);
    assert_eq!(Primaries::EBU3213.to_native(), 22);
    assert_eq!(Primaries::JEDEC_P22, Primaries::EBU3213);
    assert_eq!(Space::YCOCG, Space::YCGCO);
    assert_eq!(Space::ICTCP.to_native(), 14);
    assert_eq!(TransferCharacteristic::ARIB_STD_B67.to_native(), 18);
    assert_eq!(Rounding::NearInfinity.to_native(), 5);
    assert_eq!(Rounding::from_native(8192), Rounding::PassMinMax);
    assert_eq!(Decision::from_native(2), Decision::RateDistortion);
    assert_eq!(option_type::Type::from_native(18), option_type::Type::bool);
    assert_eq!(option_type::Type::c_ulong.to_native(), 9);
    assert_eq!(media::Type::from_native(0), media::Type::Video);
    assert_eq!(media::Type::Audio.to_native(), 1);
    assert_eq!(packet_side_data::Type::from_native(31), packet_side_data::Type::DataNb);
    assert_eq!(packet_side_data::Type::S12M_TIMECODE.to_native(), 30);
    assert_eq!(frame_side_data::Type::FILM_GRAIN_PARAMS.to_native(), 23);
    assert_eq!(subtitle::Type::from_native(3), subtitle::Type::Ass);
}

#[test]
fn pixel_values() {
    assert_eq!(Pixel::from_native(0), Pixel::YUV420P);
    assert_eq!(Pixel::from_native(28), Pixel::BGRA);
    assert_eq!(Pixel::CUDA.to_native(), 119);
    assert_eq!(Pixel::VIDEOTOOLBOX.to_native(), 160);
    assert_eq!(Pixel::X2RGB10BE.to_native(), 197);
    assert_eq!(Pixel::NONE.to_native(), -1);
    assert_eq!(Pixel::GRAY8A, Pixel::YA8);
    assert_eq!(Pixel::Y400A.to_native(), Pixel::GRAY8A.to_native());
    assert_eq!(Pixel::GBR24P, Pixel::GBRP);
}

#[test]
fn names_of_unspecified_are_none() {
    let native = Some(String::from("unknown"));
    assert_eq!(Range::Unspecified.name(native.clone()), None);
    assert_eq!(Primaries::Unspecified.name(native.clone()), None);
    assert_eq!(Space::Unspecified.name(native.clone()), None);
    assert_eq!(TransferCharacteristic::Unspecified.name(native.clone()), None);
}

#[test]
fn names_of_known_values_pass_through() {
    assert_eq!(Range::JPEG.name(Some(String::from("pc"))), Some(String::from("pc")));
    assert_eq!(Primaries::BT709.name(Some(String::from("bt709"))), Some(String::from("bt709")));
    assert_eq!(Space::RGB.name(None), None);
    assert_eq!(
        TransferCharacteristic::Linear.name(Some(String::from("linear"))),
        Some(String::from("linear"))
    );
}

#[test]
fn pixel_name_checks() {
    assert_eq!(Pixel::check_name(b"yuv420p"), Ok(()));
    assert_eq!(Pixel::check_name(b""), Ok(()));
    assert_eq!(Pixel::check_name(b"yuv\0420p"), Err(ParsePixelError::NulError(3)));
    assert_eq!(Pixel::from_lookup(-1), Err(ParsePixelError::UnknownFormat));
    assert_eq!(Pixel::from_lookup(500), Err(ParsePixelError::UnknownFormat));
    assert_eq!(Pixel::from_lookup(3), Ok(Pixel::BGR24));
    assert_eq!(ParsePixelError::UnknownFormat.message(), "unknown pixel format");
}

#[test]
fn pixel_aliases_share_native_values() {
    assert_eq!(Pixel::RGB32, Pixel::BGRA);
    assert_eq!(Pixel::RGB32_1, Pixel::ABGR);
    assert_eq!(Pixel::BGR32, Pixel::RGBA);
    assert_eq!(Pixel::BGR32_1, Pixel::ARGB);
    assert_eq!(Pixel::ZRGB32, Pixel::BGRZ);
    assert_eq!(Pixel::ZBGR32, Pixel::RGBZ);
    assert_eq!(Pixel::GRAY16.to_native(), Pixel::GRAY16LE.to_native());
    assert_eq!(Pixel::YUV420P10, Pixel::YUV420P10LE);
    assert_eq!(Pixel::YUV444P16.to_native(), 51);
    assert_eq!(Pixel::GBRAP16, Pixel::GBRAP16LE);
    assert_eq!(Pixel::BAYER_GRBG16, Pixel::BAYER_GRBG16LE);
    assert_eq!(Pixel::YUVA444P16, Pixel::YUVA444P16LE);
    assert_eq!(Pixel::XYZ12, Pixel::XYZ12LE);
    assert_eq!(Pixel::NV20, Pixel::NV20LE);
    assert_eq!(Pixel::AYUV64, Pixel::AYUV64LE);
    assert_eq!(Pixel::from_native(Pixel::RGB565.to_native()), Pixel::RGB565LE);
}

#[test]
fn reserved_codes_read_as_unspecified() {
    assert_eq!(Primaries::from_native(0), Primaries::Unspecified);
    assert_eq!(Primaries::from_native(3), Primaries::Unspecified);
    assert_eq!(TransferCharacteristic::from_native(0), TransferCharacteristic::Unspecified);
    assert_eq!(TransferCharacteristic::from_native(3), TransferCharacteristic::Unspecified);
    assert_eq!(Space::from_native(3), Space::Unspecified);
    assert_eq!(Space::from_native(3), Space::from_native(2));
    assert_eq!(Space::from_native(0), Space::RGB);
    assert_eq!(Primaries::Reserved0.to_native(), 0);
    assert_eq!(Primaries::Reserved.to_native(), 3);
    assert_eq!(TransferCharacteristic::Reserved.to_native(), 3);
    assert_eq!(Space::Reserved.to_native(), 3);
}

#[test]
fn parse_error_messages() {
    assert_eq!(ParsePixelError::NulError(2).message(), "nul byte found in provided data");
    assert_eq!(ParsePixelError::UnknownFormat.message(), "unknown pixel format");
}
