use vstd::prelude::*;

use crate::bridge::NativeEnum;
use crate::terminated::{c_str_bytes, c_string, first_index, lemma_first_index_at};

verus! {

pub const AV_PIX_FMT_NONE: i32 = -1;
pub const AV_PIX_FMT_YUV420P: i32 = 0;
pub const AV_PIX_FMT_YUYV422: i32 = 1;
pub const AV_PIX_FMT_RGB24: i32 = 2;
pub const AV_PIX_FMT_BGR24: i32 = 3;
pub const AV_PIX_FMT_YUV422P: i32 = 4;
pub const AV_PIX_FMT_YUV444P: i32 = 5;
pub const AV_PIX_FMT_YUV410P: i32 = 6;
pub const AV_PIX_FMT_YUV411P: i32 = 7;
pub const AV_PIX_FMT_GRAY8: i32 = 8;
pub const AV_PIX_FMT_MONOWHITE: i32 = 9;
pub const AV_PIX_FMT_MONOBLACK: i32 = 10;
pub const AV_PIX_FMT_PAL8: i32 = 11;
pub const AV_PIX_FMT_YUVJ420P: i32 = 12;
pub const AV_PIX_FMT_YUVJ422P: i32 = 13;
pub const AV_PIX_FMT_YUVJ444P: i32 = 14;
pub const AV_PIX_FMT_XVMC: i32 = 153;
pub const AV_PIX_FMT_UYVY422: i32 = 15;
pub const AV_PIX_FMT_UYYVYY411: i32 = 16;
pub const AV_PIX_FMT_BGR8: i32 = 17;
pub const AV_PIX_FMT_BGR4: i32 = 18;
pub const AV_PIX_FMT_BGR4_BYTE: i32 = 19;
pub const AV_PIX_FMT_RGB8: i32 = 20;
pub const AV_PIX_FMT_RGB4: i32 = 21;
pub const AV_PIX_FMT_RGB4_BYTE: i32 = 22;
pub const AV_PIX_FMT_NV12: i32 = 23;
pub const AV_PIX_FMT_NV21: i32 = 24;
pub const AV_PIX_FMT_ARGB: i32 = 25;
pub const AV_PIX_FMT_RGBA: i32 = 26;
pub const AV_PIX_FMT_ABGR: i32 = 27;
pub const AV_PIX_FMT_BGRA: i32 = 28;
pub const AV_PIX_FMT_GRAY16BE: i32 = 29;
pub const AV_PIX_FMT_GRAY16LE: i32 = 30;
pub const AV_PIX_FMT_YUV440P: i32 = 31;
pub const AV_PIX_FMT_YUVJ440P: i32 = 32;
pub const AV_PIX_FMT_YUVA420P: i32 = 33;
pub const AV_PIX_FMT_RGB48BE: i32 = 34;
pub const AV_PIX_FMT_RGB48LE: i32 = 35;
pub const AV_PIX_FMT_RGB565BE: i32 = 36;
pub const AV_PIX_FMT_RGB565LE: i32 = 37;
pub const AV_PIX_FMT_RGB555BE: i32 = 38;
pub const AV_PIX_FMT_RGB555LE: i32 = 39;
pub const AV_PIX_FMT_BGR565BE: i32 = 40;
pub const AV_PIX_FMT_BGR565LE: i32 = 41;
pub const AV_PIX_FMT_BGR555BE: i32 = 42;
pub const AV_PIX_FMT_BGR555LE: i32 = 43;
pub const AV_PIX_FMT_VAAPI_MOCO: i32 = 44;
pub const AV_PIX_FMT_VAAPI_IDCT: i32 = 45;
pub const AV_PIX_FMT_VAAPI_VLD: i32 = 46;
pub const AV_PIX_FMT_YUV420P16LE: i32 = 47;
pub const AV_PIX_FMT_YUV420P16BE: i32 = 48;
pub const AV_PIX_FMT_YUV422P16LE: i32 = 49;
pub const AV_PIX_FMT_YUV422P16BE: i32 = 50;
pub const AV_PIX_FMT_YUV444P16LE: i32 = 51;
pub const AV_PIX_FMT_YUV444P16BE: i32 = 52;
pub const AV_PIX_FMT_DXVA2_VLD: i32 = 53;
pub const AV_PIX_FMT_RGB444LE: i32 = 54;
pub const AV_PIX_FMT_RGB444BE: i32 = 55;
pub const AV_PIX_FMT_BGR444LE: i32 = 56;
pub const AV_PIX_FMT_BGR444BE: i32 = 57;
pub const AV_PIX_FMT_YA8: i32 = 58;
pub const AV_PIX_FMT_BGR48BE: i32 = 59;
pub const AV_PIX_FMT_BGR48LE: i32 = 60;
pub const AV_PIX_FMT_YUV420P9BE: i32 = 61;
pub const AV_PIX_FMT_YUV420P9LE: i32 = 62;
pub const AV_PIX_FMT_YUV420P10BE: i32 = 63;
pub const AV_PIX_FMT_YUV420P10LE: i32 = 64;
pub const AV_PIX_FMT_YUV422P10BE: i32 = 65;
pub const AV_PIX_FMT_YUV422P10LE: i32 = 66;
pub const AV_PIX_FMT_YUV444P9BE: i32 = 67;
pub const AV_PIX_FMT_YUV444P9LE: i32 = 68;
pub const AV_PIX_FMT_YUV444P10BE: i32 = 69;
pub const AV_PIX_FMT_YUV444P10LE: i32 = 70;
pub const AV_PIX_FMT_YUV422P9BE: i32 = 71;
pub const AV_PIX_FMT_YUV422P9LE: i32 = 72;
pub const AV_PIX_FMT_GBRP: i32 = 73;
pub const AV_PIX_FMT_GBRP9BE: i32 = 74;
pub const AV_PIX_FMT_GBRP9LE: i32 = 75;
pub const AV_PIX_FMT_GBRP10BE: i32 = 76;
pub const AV_PIX_FMT_GBRP10LE: i32 = 77;
pub const AV_PIX_FMT_GBRP16BE: i32 = 78;
pub const AV_PIX_FMT_GBRP16LE: i32 = 79;
pub const AV_PIX_FMT_YUVA420P9BE: i32 = 82;
pub const AV_PIX_FMT_YUVA420P9LE: i32 = 83;
pub const AV_PIX_FMT_YUVA422P9BE: i32 = 84;
pub const AV_PIX_FMT_YUVA422P9LE: i32 = 85;
pub const AV_PIX_FMT_YUVA444P9BE: i32 = 86;
pub const AV_PIX_FMT_YUVA444P9LE: i32 = 87;
pub const AV_PIX_FMT_YUVA420P10BE: i32 = 88;
pub const AV_PIX_FMT_YUVA420P10LE: i32 = 89;
pub const AV_PIX_FMT_YUVA422P10BE: i32 = 90;
pub const AV_PIX_FMT_YUVA422P10LE: i32 = 91;
pub const AV_PIX_FMT_YUVA444P10BE: i32 = 92;
pub const AV_PIX_FMT_YUVA444P10LE: i32 = 93;
pub const AV_PIX_FMT_YUVA420P16BE: i32 = 94;
pub const AV_PIX_FMT_YUVA420P16LE: i32 = 95;
pub const AV_PIX_FMT_YUVA422P16BE: i32 = 96;
pub const AV_PIX_FMT_YUVA422P16LE: i32 = 97;
pub const AV_PIX_FMT_YUVA444P16BE: i32 = 98;
pub const AV_PIX_FMT_YUVA444P16LE: i32 = 99;
pub const AV_PIX_FMT_VDPAU: i32 = 100;
pub const AV_PIX_FMT_XYZ12LE: i32 = 101;
pub const AV_PIX_FMT_XYZ12BE: i32 = 102;
pub const AV_PIX_FMT_NV16: i32 = 103;
pub const AV_PIX_FMT_NV20LE: i32 = 104;
pub const AV_PIX_FMT_NV20BE: i32 = 105;
pub const AV_PIX_FMT_RGBA64BE: i32 = 106;
pub const AV_PIX_FMT_RGBA64LE: i32 = 107;
pub const AV_PIX_FMT_BGRA64BE: i32 = 108;
pub const AV_PIX_FMT_BGRA64LE: i32 = 109;
pub const AV_PIX_FMT_YVYU422: i32 = 110;
pub const AV_PIX_FMT_YA16BE: i32 = 111;
pub const AV_PIX_FMT_YA16LE: i32 = 112;
pub const AV_PIX_FMT_QSV: i32 = 116;
pub const AV_PIX_FMT_MMAL: i32 = 117;
pub const AV_PIX_FMT_D3D11VA_VLD: i32 = 118;
pub const AV_PIX_FMT_CUDA: i32 = 119;
pub const AV_PIX_FMT_0RGB: i32 = 120;
pub const AV_PIX_FMT_RGB0: i32 = 121;
pub const AV_PIX_FMT_0BGR: i32 = 122;
pub const AV_PIX_FMT_BGR0: i32 = 123;
pub const AV_PIX_FMT_YUVA444P: i32 = 81;
pub const AV_PIX_FMT_YUVA422P: i32 = 80;
pub const AV_PIX_FMT_YUV420P12BE: i32 = 124;
pub const AV_PIX_FMT_YUV420P12LE: i32 = 125;
pub const AV_PIX_FMT_YUV420P14BE: i32 = 126;
pub const AV_PIX_FMT_YUV420P14LE: i32 = 127;
pub const AV_PIX_FMT_YUV422P12BE: i32 = 128;
pub const AV_PIX_FMT_YUV422P12LE: i32 = 129;
pub const AV_PIX_FMT_YUV422P14BE: i32 = 130;
pub const AV_PIX_FMT_YUV422P14LE: i32 = 131;
pub const AV_PIX_FMT_YUV444P12BE: i32 = 132;
pub const AV_PIX_FMT_YUV444P12LE: i32 = 133;
pub const AV_PIX_FMT_YUV444P14BE: i32 = 134;
pub const AV_PIX_FMT_YUV444P14LE: i32 = 135;
pub const AV_PIX_FMT_GBRP12BE: i32 = 136;
pub const AV_PIX_FMT_GBRP12LE: i32 = 137;
pub const AV_PIX_FMT_GBRP14BE: i32 = 138;
pub const AV_PIX_FMT_GBRP14LE: i32 = 139;
pub const AV_PIX_FMT_GBRAP: i32 = 113;
pub const AV_PIX_FMT_GBRAP16BE: i32 = 114;
pub const AV_PIX_FMT_GBRAP16LE: i32 = 115;
pub const AV_PIX_FMT_YUVJ411P: i32 = 140;
pub const AV_PIX_FMT_BAYER_BGGR8: i32 = 141;
pub const AV_PIX_FMT_BAYER_RGGB8: i32 = 142;
pub const AV_PIX_FMT_BAYER_GBRG8: i32 = 143;
pub const AV_PIX_FMT_BAYER_GRBG8: i32 = 144;
pub const AV_PIX_FMT_BAYER_BGGR16LE: i32 = 145;
pub const AV_PIX_FMT_BAYER_BGGR16BE: i32 = 146;
pub const AV_PIX_FMT_BAYER_RGGB16LE: i32 = 147;
pub const AV_PIX_FMT_BAYER_RGGB16BE: i32 = 148;
pub const AV_PIX_FMT_BAYER_GBRG16LE: i32 = 149;
pub const AV_PIX_FMT_BAYER_GBRG16BE: i32 = 150;
pub const AV_PIX_FMT_BAYER_GRBG16LE: i32 = 151;
pub const AV_PIX_FMT_BAYER_GRBG16BE: i32 = 152;
pub const AV_PIX_FMT_YUV440P10LE: i32 = 154;
pub const AV_PIX_FMT_YUV440P10BE: i32 = 155;
pub const AV_PIX_FMT_YUV440P12LE: i32 = 156;
pub const AV_PIX_FMT_YUV440P12BE: i32 = 157;
pub const AV_PIX_FMT_AYUV64LE: i32 = 158;
pub const AV_PIX_FMT_AYUV64BE: i32 = 159;
pub const AV_PIX_FMT_VIDEOTOOLBOX: i32 = 160;
pub const AV_PIX_FMT_P010LE: i32 = 161;
pub const AV_PIX_FMT_P010BE: i32 = 162;
pub const AV_PIX_FMT_GBRAP12BE: i32 = 163;
pub const AV_PIX_FMT_GBRAP12LE: i32 = 164;
pub const AV_PIX_FMT_GBRAP10LE: i32 = 166;
pub const AV_PIX_FMT_GBRAP10BE: i32 = 165;
pub const AV_PIX_FMT_MEDIACODEC: i32 = 167;
pub const AV_PIX_FMT_GRAY12BE: i32 = 168;
pub const AV_PIX_FMT_GRAY12LE: i32 = 169;
pub const AV_PIX_FMT_GRAY10BE: i32 = 170;
pub const AV_PIX_FMT_GRAY10LE: i32 = 171;
pub const AV_PIX_FMT_P016LE: i32 = 172;
pub const AV_PIX_FMT_P016BE: i32 = 173;
pub const AV_PIX_FMT_D3D11: i32 = 174;
pub const AV_PIX_FMT_GRAY9BE: i32 = 175;
pub const AV_PIX_FMT_GRAY9LE: i32 = 176;
pub const AV_PIX_FMT_GBRPF32BE: i32 = 177;
pub const AV_PIX_FMT_GBRPF32LE: i32 = 178;
pub const AV_PIX_FMT_GBRAPF32BE: i32 = 179;
pub const AV_PIX_FMT_GBRAPF32LE: i32 = 180;
pub const AV_PIX_FMT_DRM_PRIME: i32 = 181;
pub const AV_PIX_FMT_OPENCL: i32 = 182;
pub const AV_PIX_FMT_GRAY14BE: i32 = 183;
pub const AV_PIX_FMT_GRAY14LE: i32 = 184;
pub const AV_PIX_FMT_GRAYF32BE: i32 = 185;
pub const AV_PIX_FMT_GRAYF32LE: i32 = 186;
pub const AV_PIX_FMT_YUVA422P12BE: i32 = 187;
pub const AV_PIX_FMT_YUVA422P12LE: i32 = 188;
pub const AV_PIX_FMT_YUVA444P12BE: i32 = 189;
pub const AV_PIX_FMT_YUVA444P12LE: i32 = 190;
pub const AV_PIX_FMT_NV24: i32 = 191;
pub const AV_PIX_FMT_NV42: i32 = 192;
pub const AV_PIX_FMT_VULKAN: i32 = 193;
pub const AV_PIX_FMT_Y210BE: i32 = 194;
pub const AV_PIX_FMT_Y210LE: i32 = 195;
pub const AV_PIX_FMT_X2RGB10LE: i32 = 196;
pub const AV_PIX_FMT_X2RGB10BE: i32 = 197;
pub const AV_PIX_FMT_NB: i32 = 198;

/// A pixel format (native `AVPixelFormat`, numbered as in FFmpeg 4.4).
///
/// Every native value without a variant, the count sentinel among them, reads as
/// `Pixel::NONE`, as the native value for no format does.
#[derive(PartialEq, Eq, Structural, Clone, Copy, Debug)]
pub enum Pixel {
    /// No pixel format; every native value without a variant reads as this one.
    NONE,
    /// planar YUV 4:2:0, 12bpp, (1 Cr & Cb sample per 2x2 Y samples).
    YUV420P,
    /// packed YUV 4:2:2, 16bpp, Y0 Cb Y1 Cr.
    YUYV422,
    /// packed RGB 8:8:8, 24bpp, RGBRGB...
    RGB24,
    /// packed RGB 8:8:8, 24bpp, BGRBGR...
    BGR24,
    /// planar YUV 4:2:2, 16bpp, (1 Cr & Cb sample per 2x1 Y samples).
    YUV422P,
    /// planar YUV 4:4:4, 24bpp, (1 Cr & Cb sample per 1x1 Y samples).
    YUV444P,
    /// planar YUV 4:1:0, 9bpp, (1 Cr & Cb sample per 4x4 Y samples).
    YUV410P,
    /// planar YUV 4:1:1, 12bpp, (1 Cr & Cb sample per 4x1 Y samples).
    YUV411P,
    /// Y , 8bpp.
    GRAY8,
    /// Y , 1bpp, 0 is white, 1 is black, in each byte pixels are ordered from the msb to the lsb.
    MonoWhite,
    /// Y , 1bpp, 0 is black, 1 is white, in each byte pixels are ordered from the msb to the lsb.
    MonoBlack,
    /// 8 bits with AV_PIX_FMT_RGB32 palette.
    PAL8,
    /// planar YUV 4:2:0, 12bpp, full scale (JPEG), deprecated in favor of Pixel::YUV420P and setting color_range.
    YUVJ420P,
    /// planar YUV 4:2:2, 16bpp, full scale (JPEG), deprecated in favor of Pixel::YUV422P and setting color_range.
    YUVJ422P,
    /// planar YUV 4:4:4, 24bpp, full scale (JPEG), deprecated in favor of Pixel::YUV444P and setting color_range.
    YUVJ444P,
    XVMC,
    /// packed YUV 4:2:2, 16bpp, Cb Y0 Cr Y1.
    UYVY422,
    /// packed YUV 4:1:1, 12bpp, Cb Y0 Y1 Cr Y2 Y3.
    UYYVYY411,
    /// packed RGB 3:3:2, 8bpp, (msb)2B 3G 3R(lsb).
    BGR8,
    /// packed RGB 1:2:1 bitstream, 4bpp, (msb)1B 2G 1R(lsb), a byte contains two pixels, the first pixel in the byte is the one composed by the 4 msb bits.
    BGR4,
    /// packed RGB 1:2:1, 8bpp, (msb)1B 2G 1R(lsb).
    BGR4_BYTE,
    /// packed RGB 3:3:2, 8bpp, (msb)3R 3G 2B(lsb).
    RGB8,
    /// packed RGB 1:2:1 bitstream, 4bpp, (msb)1R 2G 1B(lsb), a byte contains two pixels, the first pixel in the byte is the one composed by the 4 msb bits.
    RGB4,
    /// packed RGB 1:2:1, 8bpp, (msb)1R 2G 1B(lsb).
    RGB4_BYTE,
    /// planar YUV 4:2:0, 12bpp, 1 plane for Y and 1 plane for the UV components, which are interleaved (first byte U and the following byte V).
    NV12,
    /// same as Pixel::NV12, but U and V bytes are swapped.
    NV21,
    /// packed ARGB 8:8:8:8, 32bpp, ARGBARGB...
    ARGB,
    /// packed RGBA 8:8:8:8, 32bpp, RGBARGBA...
    RGBA,
    /// packed ABGR 8:8:8:8, 32bpp, ABGRABGR...
    ABGR,
    /// packed BGRA 8:8:8:8, 32bpp, BGRABGRA...
    BGRA,
    /// Y , 16bpp, big-endian.
    GRAY16BE,
    /// Y , 16bpp, little-endian.
    GRAY16LE,
    /// planar YUV 4:4:0 (1 Cr & Cb sample per 1x2 Y samples).
    YUV440P,
    /// planar YUV 4:4:0 full scale (JPEG), deprecated in favor of Pixel::YUV440P and setting color_range.
    YUVJ440P,
    /// planar YUV 4:2:0, 20bpp, (1 Cr & Cb sample per 2x2 Y & A samples).
    YUVA420P,
    /// packed RGB 16:16:16, 48bpp, 16R, 16G, 16B, the 2-byte value for each R/G/B component is stored as big-endian.
    RGB48BE,
    /// packed RGB 16:16:16, 48bpp, 16R, 16G, 16B, the 2-byte value for each R/G/B component is stored as little-endian.
    RGB48LE,
    /// packed RGB 5:6:5, 16bpp, (msb) 5R 6G 5B(lsb), big-endian.
    RGB565BE,
    /// packed RGB 5:6:5, 16bpp, (msb) 5R 6G 5B(lsb), little-endian.
    RGB565LE,
    /// packed RGB 5:5:5, 16bpp, (msb)1X 5R 5G 5B(lsb), big-endian , X=unused/undefined.
    RGB555BE,
    /// packed RGB 5:5:5, 16bpp, (msb)1X 5R 5G 5B(lsb), little-endian, X=unused/undefined.
    RGB555LE,
    /// packed BGR 5:6:5, 16bpp, (msb) 5B 6G 5R(lsb), big-endian.
    BGR565BE,
    /// packed BGR 5:6:5, 16bpp, (msb) 5B 6G 5R(lsb), little-endian.
    BGR565LE,
    /// packed BGR 5:5:5, 16bpp, (msb)1X 5B 5G 5R(lsb), big-endian , X=unused/undefined.
    BGR555BE,
    /// packed BGR 5:5:5, 16bpp, (msb)1X 5B 5G 5R(lsb), little-endian, X=unused/undefined.
    BGR555LE,
    VAAPI_MOCO,
    VAAPI_IDCT,
    VAAPI_VLD,
    /// planar YUV 4:2:0, 24bpp, (1 Cr & Cb sample per 2x2 Y samples), little-endian.
    YUV420P16LE,
    /// planar YUV 4:2:0, 24bpp, (1 Cr & Cb sample per 2x2 Y samples), big-endian.
    YUV420P16BE,
    /// planar YUV 4:2:2, 32bpp, (1 Cr & Cb sample per 2x1 Y samples), little-endian.
    YUV422P16LE,
    /// planar YUV 4:2:2, 32bpp, (1 Cr & Cb sample per 2x1 Y samples), big-endian.
    YUV422P16BE,
    /// planar YUV 4:4:4, 48bpp, (1 Cr & Cb sample per 1x1 Y samples), little-endian.
    YUV444P16LE,
    /// planar YUV 4:4:4, 48bpp, (1 Cr & Cb sample per 1x1 Y samples), big-endian.
    YUV444P16BE,
    /// HW decoding through DXVA2.
    DXVA2_VLD,
    /// packed RGB 4:4:4, 16bpp, (msb)4X 4R 4G 4B(lsb), little-endian, X=unused/undefined.
    RGB444LE,
    /// packed RGB 4:4:4, 16bpp, (msb)4X 4R 4G 4B(lsb), big-endian, X=unused/undefined.
    RGB444BE,
    /// packed BGR 4:4:4, 16bpp, (msb)4X 4B 4G 4R(lsb), little-endian, X=unused/undefined
    BGR444LE,
    /// packed BGR 4:4:4, 16bpp, (msb)4X 4B 4G 4R(lsb), big-endian, X=unused/undefined.
    BGR444BE,
    /// 8 bits gray, 8 bits alpha.
    YA8,
    /// packed RGB 16:16:16, 48bpp, 16B, 16G, 16R, the 2-byte value for each R/G/B component is stored as big-endian.
    BGR48BE,
    /// packed RGB 16:16:16, 48bpp, 16B, 16G, 16R, the 2-byte value for each R/G/B component is stored as little-endian.
    BGR48LE,
    /// The following 12 formats have the disadvantage of needing 1 format for each bit depth. Notice that each 9/10 bits sample is stored in 16 bits with extra padding. If you want to support multiple bit depths, then using Pixel::YUV420P16* with the bpp stored separately is better. planar YUV 4:2:0, 13.5bpp, (1 Cr & Cb sample per 2x2 Y samples), big-endian.
    YUV420P9BE,
    /// planar YUV 4:2:0, 13.5bpp, (1 Cr & Cb sample per 2x2 Y samples), little-endian.
    YUV420P9LE,
    /// planar YUV 4:2:0, 15bpp, (1 Cr & Cb sample per 2x2 Y samples), big-endian.
    YUV420P10BE,
    /// planar YUV 4:2:0, 15bpp, (1 Cr & Cb sample per 2x2 Y samples), little-endian
    YUV420P10LE,
    /// planar YUV 4:2:2, 20bpp, (1 Cr & Cb sample per 2x1 Y samples), big-endian.
    YUV422P10BE,
    /// planar YUV 4:2:2, 20bpp, (1 Cr & Cb sample per 2x1 Y samples), little-endian.
    YUV422P10LE,
    /// planar YUV 4:4:4, 27bpp, (1 Cr & Cb sample per 1x1 Y samples), big-endian.
    YUV444P9BE,
    /// planar YUV 4:4:4, 27bpp, (1 Cr & Cb sample per 1x1 Y samples), little-endian.
    YUV444P9LE,
    /// planar YUV 4:4:4, 30bpp, (1 Cr & Cb sample per 1x1 Y samples), big-endian.
    YUV444P10BE,
    /// planar YUV 4:4:4, 30bpp, (1 Cr & Cb sample per 1x1 Y samples), little-endian.
    YUV444P10LE,
    /// planar YUV 4:2:2, 18bpp, (1 Cr & Cb sample per 2x1 Y samples), big-endian.
    YUV422P9BE,
    /// planar YUV 4:2:2, 18bpp, (1 Cr & Cb sample per 2x1 Y samples), little-endian.
    YUV422P9LE,
    /// planar GBR 4:4:4 24bpp.
    GBRP,
    /// planar GBR 4:4:4 27bpp, big-endian.
    GBRP9BE,
    /// planar GBR 4:4:4 27bpp, little-endian.
    GBRP9LE,
    /// [200~planar GBR 4:4:4 30bpp, big-endian.
    GBRP10BE,
    /// planar GBR 4:4:4 30bpp, little-endian.
    GBRP10LE,
    /// planar GBR 4:4:4 48bpp, big-endian.
    GBRP16BE,
    /// planar GBR 4:4:4 48bpp, little-endian.
    GBRP16LE,
    /// planar YUV 4:2:0 22.5bpp, (1 Cr & Cb sample per 2x2 Y & A samples), big-endian.
    YUVA420P9BE,
    /// planar YUV 4:2:0 22.5bpp, (1 Cr & Cb sample per 2x2 Y & A samples), little-endian.
    YUVA420P9LE,
    /// planar YUV 4:2:2 27bpp, (1 Cr & Cb sample per 2x1 Y & A samples), big-endian.
    YUVA422P9BE,
    /// planar YUV 4:2:2 27bpp, (1 Cr & Cb sample per 2x1 Y & A samples), little-endian.
    YUVA422P9LE,
    /// planar YUV 4:4:4 36bpp, (1 Cr & Cb sample per 1x1 Y & A samples), big-endian.
    YUVA444P9BE,
    /// planar YUV 4:4:4 36bpp, (1 Cr & Cb sample per 1x1 Y & A samples), little-endian.
    YUVA444P9LE,
    /// planar YUV 4:2:0 25bpp, (1 Cr & Cb sample per 2x2 Y & A samples, big-endian).
    YUVA420P10BE,
    /// planar YUV 4:2:0 25bpp, (1 Cr & Cb sample per 2x2 Y & A samples, little-endian).
    YUVA420P10LE,
    /// planar YUV 4:2:2 30bpp, (1 Cr & Cb sample per 2x1 Y & A samples, big-endian).
    YUVA422P10BE,
    /// planar YUV 4:2:2 30bpp, (1 Cr & Cb sample per 2x1 Y & A samples, little-endian).
    YUVA422P10LE,
    /// planar YUV 4:4:4 40bpp, (1 Cr & Cb sample per 1x1 Y & A samples, big-endian).
    YUVA444P10BE,
    /// planar YUV 4:4:4 40bpp, (1 Cr & Cb sample per 1x1 Y & A samples, little-endian).
    YUVA444P10LE,
    /// planar YUV 4:2:0 40bpp, (1 Cr & Cb sample per 2x2 Y & A samples, big-endian).
    YUVA420P16BE,
    /// planar YUV 4:2:0 40bpp, (1 Cr & Cb sample per 2x2 Y & A samples, little-endian).
    YUVA420P16LE,
    /// planar YUV 4:2:2 48bpp, (1 Cr & Cb sample per 2x1 Y & A samples, big-endian).
    YUVA422P16BE,
    /// planar YUV 4:2:2 48bpp, (1 Cr & Cb sample per 2x1 Y & A samples, little-endian).
    YUVA422P16LE,
    /// planar YUV 4:4:4 64bpp, (1 Cr & Cb sample per 1x1 Y & A samples, big-endian).
    YUVA444P16BE,
    /// planar YUV 4:4:4 64bpp, (1 Cr & Cb sample per 1x1 Y & A samples, little-endian).
    YUVA444P16LE,
    /// HW acceleration through VDPAU.
    VDPAU,
    /// packed XYZ 4:4:4, 36 bpp, (msb) 12X, 12Y, 12Z (lsb), the 2-byte value for each X/Y/Z is stored as little-endian, the 4 lower bits are set to 0.
    XYZ12LE,
    /// packed XYZ 4:4:4, 36 bpp, (msb) 12X, 12Y, 12Z (lsb), the 2-byte value for each X/Y/Z is stored as big-endian, the 4 lower bits are set to 0.
    XYZ12BE,
    /// interleaved chroma YUV 4:2:2, 16bpp, (1 Cr & Cb sample per 2x1 Y samples).
    NV16,
    /// interleaved chroma YUV 4:2:2, 20bpp, (1 Cr & Cb sample per 2x1 Y samples), little-endian.
    NV20LE,
    /// interleaved chroma YUV 4:2:2, 20bpp, (1 Cr & Cb sample per 2x1 Y samples), big-endian.
    NV20BE,
    /// packed RGBA 16:16:16:16, 64bpp, 16R, 16G, 16B, 16A, the 2-byte value for each R/G/B/A component is stored as big-endian.
    RGBA64BE,
    /// packed RGBA 16:16:16:16, 64bpp, 16R, 16G, 16B, 16A, the 2-byte value for each R/G/B/A component is stored as little-endian.
    RGBA64LE,
    /// packed RGBA 16:16:16:16, 64bpp, 16B, 16G, 16R, 16A, the 2-byte value for each R/G/B/A component is stored as big-endian.
    BGRA64BE,
    /// packed RGBA 16:16:16:16, 64bpp, 16B, 16G, 16R, 16A, the 2-byte value for each R/G/B/A component is stored as little-endian.
    BGRA64LE,
    /// packed YUV 4:2:2, 16bpp, Y0 Cr Y1 Cb.
    YVYU422,
    /// 16 bits gray, 16 bits alpha (big-endian).
    YA16BE,
    /// 16 bits gray, 16 bits alpha (little-endian).
    YA16LE,
    /// HW acceleration through QSV.
    QSV,
    /// HW acceleration though MMAL.
    MMAL,
    /// HW decoding through Direct3D11 via old API.
    D3D11VA_VLD,
    /// HW excelleration through CUDA.
    CUDA,
    ZRGB,
    RGBZ,
    ZBGR,
    BGRZ,
    YUVA444P,
    YUVA422P,
    /// planar YUV 4:2:0,18bpp, (1 Cr & Cb sample per 2x2 Y samples), big-endian.
    YUV420P12BE,
    /// planar YUV 4:2:0,18bpp, (1 Cr & Cb sample per 2x2 Y samples), little-endian.
    YUV420P12LE,
    /// planar YUV 4:2:0,21bpp, (1 Cr & Cb sample per 2x2 Y samples), big-endian.
    YUV420P14BE,
    /// planar YUV 4:2:0,21bpp, (1 Cr & Cb sample per 2x2 Y samples), little-endian.
    YUV420P14LE,
    /// planar YUV 4:2:2,24bpp, (1 Cr & Cb sample per 2x1 Y samples), big-endian.
    YUV422P12BE,
    /// planar YUV 4:2:2,24bpp, (1 Cr & Cb sample per 2x1 Y samples), little-endian.
    YUV422P12LE,
    /// planar YUV 4:2:2,28bpp, (1 Cr & Cb sample per 2x1 Y samples), big-endian.
    YUV422P14BE,
    /// planar YUV 4:2:2,28bpp, (1 Cr & Cb sample per 2x1 Y samples), little-endian.
    YUV422P14LE,
    /// planar YUV 4:4:4,36bpp, (1 Cr & Cb sample per 1x1 Y samples), big-endian.
    YUV444P12BE,
    /// planar YUV 4:4:4,36bpp, (1 Cr & Cb sample per 1x1 Y samples), little-endian.
    YUV444P12LE,
    /// planar YUV 4:4:4,42bpp, (1 Cr & Cb sample per 1x1 Y samples), big-endian.
    YUV444P14BE,
    /// planar YUV 4:4:4,42bpp, (1 Cr & Cb sample per 1x1 Y samples), little-endian.
    YUV444P14LE,
    /// planar GBR 4:4:4 36bpp, big-endian.
    GBRP12BE,
    /// planar GBR 4:4:4 36bpp, little-endian.
    GBRP12LE,
    /// planar GBR 4:4:4 42bpp, big-endian.
    GBRP14BE,
    /// planar GBR 4:4:4 42bpp, little-endian.
    GBRP14LE,
    GBRAP,
    GBRAP16BE,
    GBRAP16LE,
    /// planar YUV 4:1:1, 12bpp, (1 Cr & Cb sample per 4x1 Y samples) full scale (JPEG), deprecated in favor of AV_PIX_FMT_YUV411P and setting color_range.
    YUVJ411P,
    /// bayer, BGBG..(odd line), GRGR..(even line), 8-bit samples.
    BAYER_BGGR8,
    /// bayer, RGRG..(odd line), GBGB..(even line), 8-bit samples.
    BAYER_RGGB8,
    /// bayer, GBGB..(odd line), RGRG..(even line), 8-bit samples.
    BAYER_GBRG8,
    /// bayer, GRGR..(odd line), BGBG..(even line), 8-bit samples.
    BAYER_GRBG8,
    /// bayer, BGBG..(odd line), GRGR..(even line), 16-bit samples, little-endian.
    BAYER_BGGR16LE,
    /// bayer, BGBG..(odd line), GRGR..(even line), 16-bit samples, big-endian.
    BAYER_BGGR16BE,
    /// bayer, RGRG..(odd line), GBGB..(even line), 16-bit samples, little-endian.
    BAYER_RGGB16LE,
    /// bayer, RGRG..(odd line), GBGB..(even line), 16-bit samples, big-endian.
    BAYER_RGGB16BE,
    /// bayer, GBGB..(odd line), RGRG..(even line), 16-bit samples, little-endian.
    BAYER_GBRG16LE,
    /// bayer, GBGB..(odd line), RGRG..(even line), 16-bit samples, big-endian.
    BAYER_GBRG16BE,
    /// bayer, GRGR..(odd line), BGBG..(even line), 16-bit samples, little-endian.
    BAYER_GRBG16LE,
    /// bayer, GRGR..(odd line), BGBG..(even line), 16-bit samples, big-endian.
    BAYER_GRBG16BE,
    /// planar YUV 4:4:0,20bpp, (1 Cr & Cb sample per 1x2 Y samples), little-endian.
    YUV440P10LE,
    /// planar YUV 4:4:0,20bpp, (1 Cr & Cb sample per 1x2 Y samples), big-endian.
    YUV440P10BE,
    /// planar YUV 4:4:0,24bpp, (1 Cr & Cb sample per 1x2 Y samples), little-endian.
    YUV440P12LE,
    /// planar YUV 4:4:0,24bpp, (1 Cr & Cb sample per 1x2 Y samples), big-endian.
    YUV440P12BE,
    /// packed AYUV 4:4:4,64bpp (1 Cr & Cb sample per 1x1 Y & A samples), little-endian.
    AYUV64LE,
    /// packed AYUV 4:4:4,64bpp (1 Cr & Cb sample per 1x1 Y & A samples), big-endian.
    AYUV64BE,
    /// hardware decoding through Videotoolbox.
    VIDEOTOOLBOX,
    P010LE,
    P010BE,
    GBRAP12BE,
    GBRAP12LE,
    GBRAP10LE,
    GBRAP10BE,
    MEDIACODEC,
    GRAY12BE,
    GRAY12LE,
    GRAY10BE,
    GRAY10LE,
    P016LE,
    P016BE,
    D3D11,
    GRAY9BE,
    GRAY9LE,
    GBRPF32BE,
    GBRPF32LE,
    GBRAPF32BE,
    GBRAPF32LE,
    DRM_PRIME,
    OPENCL,
    GRAY14BE,
    GRAY14LE,
    GRAYF32BE,
    GRAYF32LE,
    YUVA422P12BE,
    YUVA422P12LE,
    YUVA444P12BE,
    YUVA444P12LE,
    NV24,
    NV42,
    VULKAN,
    Y210BE,
    Y210LE,
    X2RGB10LE,
    X2RGB10BE,
}

impl NativeEnum for Pixel {
    open spec fn fallback() -> Pixel {
        Pixel::NONE
    }

    open spec fn spec_to_native(self) -> i32 {
        match self {
            Pixel::NONE => AV_PIX_FMT_NONE,
            Pixel::YUV420P => AV_PIX_FMT_YUV420P,
            Pixel::YUYV422 => AV_PIX_FMT_YUYV422,
            Pixel::RGB24 => AV_PIX_FMT_RGB24,
            Pixel::BGR24 => AV_PIX_FMT_BGR24,
            Pixel::YUV422P => AV_PIX_FMT_YUV422P,
            Pixel::YUV444P => AV_PIX_FMT_YUV444P,
            Pixel::YUV410P => AV_PIX_FMT_YUV410P,
            Pixel::YUV411P => AV_PIX_FMT_YUV411P,
            Pixel::GRAY8 => AV_PIX_FMT_GRAY8,
            Pixel::MonoWhite => AV_PIX_FMT_MONOWHITE,
            Pixel::MonoBlack => AV_PIX_FMT_MONOBLACK,
            Pixel::PAL8 => AV_PIX_FMT_PAL8,
            Pixel::YUVJ420P => AV_PIX_FMT_YUVJ420P,
            Pixel::YUVJ422P => AV_PIX_FMT_YUVJ422P,
            Pixel::YUVJ444P => AV_PIX_FMT_YUVJ444P,
            Pixel::XVMC => AV_PIX_FMT_XVMC,
            Pixel::UYVY422 => AV_PIX_FMT_UYVY422,
            Pixel::UYYVYY411 => AV_PIX_FMT_UYYVYY411,
            Pixel::BGR8 => AV_PIX_FMT_BGR8,
            Pixel::BGR4 => AV_PIX_FMT_BGR4,
            Pixel::BGR4_BYTE => AV_PIX_FMT_BGR4_BYTE,
            Pixel::RGB8 => AV_PIX_FMT_RGB8,
            Pixel::RGB4 => AV_PIX_FMT_RGB4,
            Pixel::RGB4_BYTE => AV_PIX_FMT_RGB4_BYTE,
            Pixel::NV12 => AV_PIX_FMT_NV12,
            Pixel::NV21 => AV_PIX_FMT_NV21,
            Pixel::ARGB => AV_PIX_FMT_ARGB,
            Pixel::RGBA => AV_PIX_FMT_RGBA,
            Pixel::ABGR => AV_PIX_FMT_ABGR,
            Pixel::BGRA => AV_PIX_FMT_BGRA,
            Pixel::GRAY16BE => AV_PIX_FMT_GRAY16BE,
            Pixel::GRAY16LE => AV_PIX_FMT_GRAY16LE,
            Pixel::YUV440P => AV_PIX_FMT_YUV440P,
            Pixel::YUVJ440P => AV_PIX_FMT_YUVJ440P,
            Pixel::YUVA420P => AV_PIX_FMT_YUVA420P,
            Pixel::RGB48BE => AV_PIX_FMT_RGB48BE,
            Pixel::RGB48LE => AV_PIX_FMT_RGB48LE,
            Pixel::RGB565BE => AV_PIX_FMT_RGB565BE,
            Pixel::RGB565LE => AV_PIX_FMT_RGB565LE,
            Pixel::RGB555BE => AV_PIX_FMT_RGB555BE,
            Pixel::RGB555LE => AV_PIX_FMT_RGB555LE,
            Pixel::BGR565BE => AV_PIX_FMT_BGR565BE,
            Pixel::BGR565LE => AV_PIX_FMT_BGR565LE,
            Pixel::BGR555BE => AV_PIX_FMT_BGR555BE,
            Pixel::BGR555LE => AV_PIX_FMT_BGR555LE,
            Pixel::VAAPI_MOCO => AV_PIX_FMT_VAAPI_MOCO,
            Pixel::VAAPI_IDCT => AV_PIX_FMT_VAAPI_IDCT,
            Pixel::VAAPI_VLD => AV_PIX_FMT_VAAPI_VLD,
            Pixel::YUV420P16LE => AV_PIX_FMT_YUV420P16LE,
            Pixel::YUV420P16BE => AV_PIX_FMT_YUV420P16BE,
            Pixel::YUV422P16LE => AV_PIX_FMT_YUV422P16LE,
            Pixel::YUV422P16BE => AV_PIX_FMT_YUV422P16BE,
            Pixel::YUV444P16LE => AV_PIX_FMT_YUV444P16LE,
            Pixel::YUV444P16BE => AV_PIX_FMT_YUV444P16BE,
            Pixel::DXVA2_VLD => AV_PIX_FMT_DXVA2_VLD,
            Pixel::RGB444LE => AV_PIX_FMT_RGB444LE,
            Pixel::RGB444BE => AV_PIX_FMT_RGB444BE,
            Pixel::BGR444LE => AV_PIX_FMT_BGR444LE,
            Pixel::BGR444BE => AV_PIX_FMT_BGR444BE,
            Pixel::YA8 => AV_PIX_FMT_YA8,
            Pixel::BGR48BE => AV_PIX_FMT_BGR48BE,
            Pixel::BGR48LE => AV_PIX_FMT_BGR48LE,
            Pixel::YUV420P9BE => AV_PIX_FMT_YUV420P9BE,
            Pixel::YUV420P9LE => AV_PIX_FMT_YUV420P9LE,
            Pixel::YUV420P10BE => AV_PIX_FMT_YUV420P10BE,
            Pixel::YUV420P10LE => AV_PIX_FMT_YUV420P10LE,
            Pixel::YUV422P10BE => AV_PIX_FMT_YUV422P10BE,
            Pixel::YUV422P10LE => AV_PIX_FMT_YUV422P10LE,
            Pixel::YUV444P9BE => AV_PIX_FMT_YUV444P9BE,
            Pixel::YUV444P9LE => AV_PIX_FMT_YUV444P9LE,
            Pixel::YUV444P10BE => AV_PIX_FMT_YUV444P10BE,
            Pixel::YUV444P10LE => AV_PIX_FMT_YUV444P10LE,
            Pixel::YUV422P9BE => AV_PIX_FMT_YUV422P9BE,
            Pixel::YUV422P9LE => AV_PIX_FMT_YUV422P9LE,
            Pixel::GBRP => AV_PIX_FMT_GBRP,
            Pixel::GBRP9BE => AV_PIX_FMT_GBRP9BE,
            Pixel::GBRP9LE => AV_PIX_FMT_GBRP9LE,
            Pixel::GBRP10BE => AV_PIX_FMT_GBRP10BE,
            Pixel::GBRP10LE => AV_PIX_FMT_GBRP10LE,
            Pixel::GBRP16BE => AV_PIX_FMT_GBRP16BE,
            Pixel::GBRP16LE => AV_PIX_FMT_GBRP16LE,
            Pixel::YUVA420P9BE => AV_PIX_FMT_YUVA420P9BE,
            Pixel::YUVA420P9LE => AV_PIX_FMT_YUVA420P9LE,
            Pixel::YUVA422P9BE => AV_PIX_FMT_YUVA422P9BE,
            Pixel::YUVA422P9LE => AV_PIX_FMT_YUVA422P9LE,
            Pixel::YUVA444P9BE => AV_PIX_FMT_YUVA444P9BE,
            Pixel::YUVA444P9LE => AV_PIX_FMT_YUVA444P9LE,
            Pixel::YUVA420P10BE => AV_PIX_FMT_YUVA420P10BE,
            Pixel::YUVA420P10LE => AV_PIX_FMT_YUVA420P10LE,
            Pixel::YUVA422P10BE => AV_PIX_FMT_YUVA422P10BE,
            Pixel::YUVA422P10LE => AV_PIX_FMT_YUVA422P10LE,
            Pixel::YUVA444P10BE => AV_PIX_FMT_YUVA444P10BE,
            Pixel::YUVA444P10LE => AV_PIX_FMT_YUVA444P10LE,
            Pixel::YUVA420P16BE => AV_PIX_FMT_YUVA420P16BE,
            Pixel::YUVA420P16LE => AV_PIX_FMT_YUVA420P16LE,
            Pixel::YUVA422P16BE => AV_PIX_FMT_YUVA422P16BE,
            Pixel::YUVA422P16LE => AV_PIX_FMT_YUVA422P16LE,
            Pixel::YUVA444P16BE => AV_PIX_FMT_YUVA444P16BE,
            Pixel::YUVA444P16LE => AV_PIX_FMT_YUVA444P16LE,
            Pixel::VDPAU => AV_PIX_FMT_VDPAU,
            Pixel::XYZ12LE => AV_PIX_FMT_XYZ12LE,
            Pixel::XYZ12BE => AV_PIX_FMT_XYZ12BE,
            Pixel::NV16 => AV_PIX_FMT_NV16,
            Pixel::NV20LE => AV_PIX_FMT_NV20LE,
            Pixel::NV20BE => AV_PIX_FMT_NV20BE,
            Pixel::RGBA64BE => AV_PIX_FMT_RGBA64BE,
            Pixel::RGBA64LE => AV_PIX_FMT_RGBA64LE,
            Pixel::BGRA64BE => AV_PIX_FMT_BGRA64BE,
            Pixel::BGRA64LE => AV_PIX_FMT_BGRA64LE,
            Pixel::YVYU422 => AV_PIX_FMT_YVYU422,
            Pixel::YA16BE => AV_PIX_FMT_YA16BE,
            Pixel::YA16LE => AV_PIX_FMT_YA16LE,
            Pixel::QSV => AV_PIX_FMT_QSV,
            Pixel::MMAL => AV_PIX_FMT_MMAL,
            Pixel::D3D11VA_VLD => AV_PIX_FMT_D3D11VA_VLD,
            Pixel::CUDA => AV_PIX_FMT_CUDA,
            Pixel::ZRGB => AV_PIX_FMT_0RGB,
            Pixel::RGBZ => AV_PIX_FMT_RGB0,
            Pixel::ZBGR => AV_PIX_FMT_0BGR,
            Pixel::BGRZ => AV_PIX_FMT_BGR0,
            Pixel::YUVA444P => AV_PIX_FMT_YUVA444P,
            Pixel::YUVA422P => AV_PIX_FMT_YUVA422P,
            Pixel::YUV420P12BE => AV_PIX_FMT_YUV420P12BE,
            Pixel::YUV420P12LE => AV_PIX_FMT_YUV420P12LE,
            Pixel::YUV420P14BE => AV_PIX_FMT_YUV420P14BE,
            Pixel::YUV420P14LE => AV_PIX_FMT_YUV420P14LE,
            Pixel::YUV422P12BE => AV_PIX_FMT_YUV422P12BE,
            Pixel::YUV422P12LE => AV_PIX_FMT_YUV422P12LE,
            Pixel::YUV422P14BE => AV_PIX_FMT_YUV422P14BE,
            Pixel::YUV422P14LE => AV_PIX_FMT_YUV422P14LE,
            Pixel::YUV444P12BE => AV_PIX_FMT_YUV444P12BE,
            Pixel::YUV444P12LE => AV_PIX_FMT_YUV444P12LE,
            Pixel::YUV444P14BE => AV_PIX_FMT_YUV444P14BE,
            Pixel::YUV444P14LE => AV_PIX_FMT_YUV444P14LE,
            Pixel::GBRP12BE => AV_PIX_FMT_GBRP12BE,
            Pixel::GBRP12LE => AV_PIX_FMT_GBRP12LE,
            Pixel::GBRP14BE => AV_PIX_FMT_GBRP14BE,
            Pixel::GBRP14LE => AV_PIX_FMT_GBRP14LE,
            Pixel::GBRAP => AV_PIX_FMT_GBRAP,
            Pixel::GBRAP16BE => AV_PIX_FMT_GBRAP16BE,
            Pixel::GBRAP16LE => AV_PIX_FMT_GBRAP16LE,
            Pixel::YUVJ411P => AV_PIX_FMT_YUVJ411P,
            Pixel::BAYER_BGGR8 => AV_PIX_FMT_BAYER_BGGR8,
            Pixel::BAYER_RGGB8 => AV_PIX_FMT_BAYER_RGGB8,
            Pixel::BAYER_GBRG8 => AV_PIX_FMT_BAYER_GBRG8,
            Pixel::BAYER_GRBG8 => AV_PIX_FMT_BAYER_GRBG8,
            Pixel::BAYER_BGGR16LE => AV_PIX_FMT_BAYER_BGGR16LE,
            Pixel::BAYER_BGGR16BE => AV_PIX_FMT_BAYER_BGGR16BE,
            Pixel::BAYER_RGGB16LE => AV_PIX_FMT_BAYER_RGGB16LE,
            Pixel::BAYER_RGGB16BE => AV_PIX_FMT_BAYER_RGGB16BE,
            Pixel::BAYER_GBRG16LE => AV_PIX_FMT_BAYER_GBRG16LE,
            Pixel::BAYER_GBRG16BE => AV_PIX_FMT_BAYER_GBRG16BE,
            Pixel::BAYER_GRBG16LE => AV_PIX_FMT_BAYER_GRBG16LE,
            Pixel::BAYER_GRBG16BE => AV_PIX_FMT_BAYER_GRBG16BE,
            Pixel::YUV440P10LE => AV_PIX_FMT_YUV440P10LE,
            Pixel::YUV440P10BE => AV_PIX_FMT_YUV440P10BE,
            Pixel::YUV440P12LE => AV_PIX_FMT_YUV440P12LE,
            Pixel::YUV440P12BE => AV_PIX_FMT_YUV440P12BE,
            Pixel::AYUV64LE => AV_PIX_FMT_AYUV64LE,
            Pixel::AYUV64BE => AV_PIX_FMT_AYUV64BE,
            Pixel::VIDEOTOOLBOX => AV_PIX_FMT_VIDEOTOOLBOX,
            Pixel::P010LE => AV_PIX_FMT_P010LE,
            Pixel::P010BE => AV_PIX_FMT_P010BE,
            Pixel::GBRAP12BE => AV_PIX_FMT_GBRAP12BE,
            Pixel::GBRAP12LE => AV_PIX_FMT_GBRAP12LE,
            Pixel::GBRAP10LE => AV_PIX_FMT_GBRAP10LE,
            Pixel::GBRAP10BE => AV_PIX_FMT_GBRAP10BE,
            Pixel::MEDIACODEC => AV_PIX_FMT_MEDIACODEC,
            Pixel::GRAY12BE => AV_PIX_FMT_GRAY12BE,
            Pixel::GRAY12LE => AV_PIX_FMT_GRAY12LE,
            Pixel::GRAY10BE => AV_PIX_FMT_GRAY10BE,
            Pixel::GRAY10LE => AV_PIX_FMT_GRAY10LE,
            Pixel::P016LE => AV_PIX_FMT_P016LE,
            Pixel::P016BE => AV_PIX_FMT_P016BE,
            Pixel::D3D11 => AV_PIX_FMT_D3D11,
            Pixel::GRAY9BE => AV_PIX_FMT_GRAY9BE,
            Pixel::GRAY9LE => AV_PIX_FMT_GRAY9LE,
            Pixel::GBRPF32BE => AV_PIX_FMT_GBRPF32BE,
            Pixel::GBRPF32LE => AV_PIX_FMT_GBRPF32LE,
            Pixel::GBRAPF32BE => AV_PIX_FMT_GBRAPF32BE,
            Pixel::GBRAPF32LE => AV_PIX_FMT_GBRAPF32LE,
            Pixel::DRM_PRIME => AV_PIX_FMT_DRM_PRIME,
            Pixel::OPENCL => AV_PIX_FMT_OPENCL,
            Pixel::GRAY14BE => AV_PIX_FMT_GRAY14BE,
            Pixel::GRAY14LE => AV_PIX_FMT_GRAY14LE,
            Pixel::GRAYF32BE => AV_PIX_FMT_GRAYF32BE,
            Pixel::GRAYF32LE => AV_PIX_FMT_GRAYF32LE,
            Pixel::YUVA422P12BE => AV_PIX_FMT_YUVA422P12BE,
            Pixel::YUVA422P12LE => AV_PIX_FMT_YUVA422P12LE,
            Pixel::YUVA444P12BE => AV_PIX_FMT_YUVA444P12BE,
            Pixel::YUVA444P12LE => AV_PIX_FMT_YUVA444P12LE,
            Pixel::NV24 => AV_PIX_FMT_NV24,
            Pixel::NV42 => AV_PIX_FMT_NV42,
            Pixel::VULKAN => AV_PIX_FMT_VULKAN,
            Pixel::Y210BE => AV_PIX_FMT_Y210BE,
            Pixel::Y210LE => AV_PIX_FMT_Y210LE,
            Pixel::X2RGB10LE => AV_PIX_FMT_X2RGB10LE,
            Pixel::X2RGB10BE => AV_PIX_FMT_X2RGB10BE,
        }
    }

    open spec fn is_readable(self) -> bool {
        true
    }

    open spec fn spec_from_native(value: i32) -> Pixel {
        if exists|v: Pixel| v.is_readable() && v.spec_to_native() == value {
            choose|v: Pixel| v.is_readable() && v.spec_to_native() == value
        } else {
            Pixel::fallback()
        }
    }

    #[verifier::spinoff_prover]
    #[verifier::rlimit(100)]
    fn from_native(value: i32) -> (r: Pixel) {
        let r = match value {
            AV_PIX_FMT_YUV420P => Pixel::YUV420P,
            AV_PIX_FMT_YUYV422 => Pixel::YUYV422,
            AV_PIX_FMT_RGB24 => Pixel::RGB24,
            AV_PIX_FMT_BGR24 => Pixel::BGR24,
            AV_PIX_FMT_YUV422P => Pixel::YUV422P,
            AV_PIX_FMT_YUV444P => Pixel::YUV444P,
            AV_PIX_FMT_YUV410P => Pixel::YUV410P,
            AV_PIX_FMT_YUV411P => Pixel::YUV411P,
            AV_PIX_FMT_GRAY8 => Pixel::GRAY8,
            AV_PIX_FMT_MONOWHITE => Pixel::MonoWhite,
            AV_PIX_FMT_MONOBLACK => Pixel::MonoBlack,
            AV_PIX_FMT_PAL8 => Pixel::PAL8,
            AV_PIX_FMT_YUVJ420P => Pixel::YUVJ420P,
            AV_PIX_FMT_YUVJ422P => Pixel::YUVJ422P,
            AV_PIX_FMT_YUVJ444P => Pixel::YUVJ444P,
            AV_PIX_FMT_XVMC => Pixel::XVMC,
            AV_PIX_FMT_UYVY422 => Pixel::UYVY422,
            AV_PIX_FMT_UYYVYY411 => Pixel::UYYVYY411,
            AV_PIX_FMT_BGR8 => Pixel::BGR8,
            AV_PIX_FMT_BGR4 => Pixel::BGR4,
            AV_PIX_FMT_BGR4_BYTE => Pixel::BGR4_BYTE,
            AV_PIX_FMT_RGB8 => Pixel::RGB8,
            AV_PIX_FMT_RGB4 => Pixel::RGB4,
            AV_PIX_FMT_RGB4_BYTE => Pixel::RGB4_BYTE,
            AV_PIX_FMT_NV12 => Pixel::NV12,
            AV_PIX_FMT_NV21 => Pixel::NV21,
            AV_PIX_FMT_ARGB => Pixel::ARGB,
            AV_PIX_FMT_RGBA => Pixel::RGBA,
            AV_PIX_FMT_ABGR => Pixel::ABGR,
            AV_PIX_FMT_BGRA => Pixel::BGRA,
            AV_PIX_FMT_GRAY16BE => Pixel::GRAY16BE,
            AV_PIX_FMT_GRAY16LE => Pixel::GRAY16LE,
            AV_PIX_FMT_YUV440P => Pixel::YUV440P,
            AV_PIX_FMT_YUVJ440P => Pixel::YUVJ440P,
            AV_PIX_FMT_YUVA420P => Pixel::YUVA420P,
            AV_PIX_FMT_RGB48BE => Pixel::RGB48BE,
            AV_PIX_FMT_RGB48LE => Pixel::RGB48LE,
            AV_PIX_FMT_RGB565BE => Pixel::RGB565BE,
            AV_PIX_FMT_RGB565LE => Pixel::RGB565LE,
            AV_PIX_FMT_RGB555BE => Pixel::RGB555BE,
            AV_PIX_FMT_RGB555LE => Pixel::RGB555LE,
            AV_PIX_FMT_BGR565BE => Pixel::BGR565BE,
            AV_PIX_FMT_BGR565LE => Pixel::BGR565LE,
            AV_PIX_FMT_BGR555BE => Pixel::BGR555BE,
            AV_PIX_FMT_BGR555LE => Pixel::BGR555LE,
            AV_PIX_FMT_VAAPI_MOCO => Pixel::VAAPI_MOCO,
            AV_PIX_FMT_VAAPI_IDCT => Pixel::VAAPI_IDCT,
            AV_PIX_FMT_VAAPI_VLD => Pixel::VAAPI_VLD,
            AV_PIX_FMT_YUV420P16LE => Pixel::YUV420P16LE,
            AV_PIX_FMT_YUV420P16BE => Pixel::YUV420P16BE,
            AV_PIX_FMT_YUV422P16LE => Pixel::YUV422P16LE,
            AV_PIX_FMT_YUV422P16BE => Pixel::YUV422P16BE,
            AV_PIX_FMT_YUV444P16LE => Pixel::YUV444P16LE,
            AV_PIX_FMT_YUV444P16BE => Pixel::YUV444P16BE,
            AV_PIX_FMT_DXVA2_VLD => Pixel::DXVA2_VLD,
            AV_PIX_FMT_RGB444LE => Pixel::RGB444LE,
            AV_PIX_FMT_RGB444BE => Pixel::RGB444BE,
            AV_PIX_FMT_BGR444LE => Pixel::BGR444LE,
            AV_PIX_FMT_BGR444BE => Pixel::BGR444BE,
            AV_PIX_FMT_YA8 => Pixel::YA8,
            AV_PIX_FMT_BGR48BE => Pixel::BGR48BE,
            AV_PIX_FMT_BGR48LE => Pixel::BGR48LE,
            AV_PIX_FMT_YUV420P9BE => Pixel::YUV420P9BE,
            AV_PIX_FMT_YUV420P9LE => Pixel::YUV420P9LE,
            AV_PIX_FMT_YUV420P10BE => Pixel::YUV420P10BE,
            AV_PIX_FMT_YUV420P10LE => Pixel::YUV420P10LE,
            AV_PIX_FMT_YUV422P10BE => Pixel::YUV422P10BE,
            AV_PIX_FMT_YUV422P10LE => Pixel::YUV422P10LE,
            AV_PIX_FMT_YUV444P9BE => Pixel::YUV444P9BE,
            AV_PIX_FMT_YUV444P9LE => Pixel::YUV444P9LE,
            AV_PIX_FMT_YUV444P10BE => Pixel::YUV444P10BE,
            AV_PIX_FMT_YUV444P10LE => Pixel::YUV444P10LE,
            AV_PIX_FMT_YUV422P9BE => Pixel::YUV422P9BE,
            AV_PIX_FMT_YUV422P9LE => Pixel::YUV422P9LE,
            AV_PIX_FMT_GBRP => Pixel::GBRP,
            AV_PIX_FMT_GBRP9BE => Pixel::GBRP9BE,
            AV_PIX_FMT_GBRP9LE => Pixel::GBRP9LE,
            AV_PIX_FMT_GBRP10BE => Pixel::GBRP10BE,
            AV_PIX_FMT_GBRP10LE => Pixel::GBRP10LE,
            AV_PIX_FMT_GBRP16BE => Pixel::GBRP16BE,
            AV_PIX_FMT_GBRP16LE => Pixel::GBRP16LE,
            AV_PIX_FMT_YUVA420P9BE => Pixel::YUVA420P9BE,
            AV_PIX_FMT_YUVA420P9LE => Pixel::YUVA420P9LE,
            AV_PIX_FMT_YUVA422P9BE => Pixel::YUVA422P9BE,
            AV_PIX_FMT_YUVA422P9LE => Pixel::YUVA422P9LE,
            AV_PIX_FMT_YUVA444P9BE => Pixel::YUVA444P9BE,
            AV_PIX_FMT_YUVA444P9LE => Pixel::YUVA444P9LE,
            AV_PIX_FMT_YUVA420P10BE => Pixel::YUVA420P10BE,
            AV_PIX_FMT_YUVA420P10LE => Pixel::YUVA420P10LE,
            AV_PIX_FMT_YUVA422P10BE => Pixel::YUVA422P10BE,
            AV_PIX_FMT_YUVA422P10LE => Pixel::YUVA422P10LE,
            AV_PIX_FMT_YUVA444P10BE => Pixel::YUVA444P10BE,
            AV_PIX_FMT_YUVA444P10LE => Pixel::YUVA444P10LE,
            AV_PIX_FMT_YUVA420P16BE => Pixel::YUVA420P16BE,
            AV_PIX_FMT_YUVA420P16LE => Pixel::YUVA420P16LE,
            AV_PIX_FMT_YUVA422P16BE => Pixel::YUVA422P16BE,
            AV_PIX_FMT_YUVA422P16LE => Pixel::YUVA422P16LE,
            AV_PIX_FMT_YUVA444P16BE => Pixel::YUVA444P16BE,
            AV_PIX_FMT_YUVA444P16LE => Pixel::YUVA444P16LE,
            AV_PIX_FMT_VDPAU => Pixel::VDPAU,
            AV_PIX_FMT_XYZ12LE => Pixel::XYZ12LE,
            AV_PIX_FMT_XYZ12BE => Pixel::XYZ12BE,
            AV_PIX_FMT_NV16 => Pixel::NV16,
            AV_PIX_FMT_NV20LE => Pixel::NV20LE,
            AV_PIX_FMT_NV20BE => Pixel::NV20BE,
            AV_PIX_FMT_RGBA64BE => Pixel::RGBA64BE,
            AV_PIX_FMT_RGBA64LE => Pixel::RGBA64LE,
            AV_PIX_FMT_BGRA64BE => Pixel::BGRA64BE,
            AV_PIX_FMT_BGRA64LE => Pixel::BGRA64LE,
            AV_PIX_FMT_YVYU422 => Pixel::YVYU422,
            AV_PIX_FMT_YA16BE => Pixel::YA16BE,
            AV_PIX_FMT_YA16LE => Pixel::YA16LE,
            AV_PIX_FMT_QSV => Pixel::QSV,
            AV_PIX_FMT_MMAL => Pixel::MMAL,
            AV_PIX_FMT_D3D11VA_VLD => Pixel::D3D11VA_VLD,
            AV_PIX_FMT_CUDA => Pixel::CUDA,
            AV_PIX_FMT_0RGB => Pixel::ZRGB,
            AV_PIX_FMT_RGB0 => Pixel::RGBZ,
            AV_PIX_FMT_0BGR => Pixel::ZBGR,
            AV_PIX_FMT_BGR0 => Pixel::BGRZ,
            AV_PIX_FMT_YUVA444P => Pixel::YUVA444P,
            AV_PIX_FMT_YUVA422P => Pixel::YUVA422P,
            AV_PIX_FMT_YUV420P12BE => Pixel::YUV420P12BE,
            AV_PIX_FMT_YUV420P12LE => Pixel::YUV420P12LE,
            AV_PIX_FMT_YUV420P14BE => Pixel::YUV420P14BE,
            AV_PIX_FMT_YUV420P14LE => Pixel::YUV420P14LE,
            AV_PIX_FMT_YUV422P12BE => Pixel::YUV422P12BE,
            AV_PIX_FMT_YUV422P12LE => Pixel::YUV422P12LE,
            AV_PIX_FMT_YUV422P14BE => Pixel::YUV422P14BE,
            AV_PIX_FMT_YUV422P14LE => Pixel::YUV422P14LE,
            AV_PIX_FMT_YUV444P12BE => Pixel::YUV444P12BE,
            AV_PIX_FMT_YUV444P12LE => Pixel::YUV444P12LE,
            AV_PIX_FMT_YUV444P14BE => Pixel::YUV444P14BE,
            AV_PIX_FMT_YUV444P14LE => Pixel::YUV444P14LE,
            AV_PIX_FMT_GBRP12BE => Pixel::GBRP12BE,
            AV_PIX_FMT_GBRP12LE => Pixel::GBRP12LE,
            AV_PIX_FMT_GBRP14BE => Pixel::GBRP14BE,
            AV_PIX_FMT_GBRP14LE => Pixel::GBRP14LE,
            AV_PIX_FMT_GBRAP => Pixel::GBRAP,
            AV_PIX_FMT_GBRAP16BE => Pixel::GBRAP16BE,
            AV_PIX_FMT_GBRAP16LE => Pixel::GBRAP16LE,
            AV_PIX_FMT_YUVJ411P => Pixel::YUVJ411P,
            AV_PIX_FMT_BAYER_BGGR8 => Pixel::BAYER_BGGR8,
            AV_PIX_FMT_BAYER_RGGB8 => Pixel::BAYER_RGGB8,
            AV_PIX_FMT_BAYER_GBRG8 => Pixel::BAYER_GBRG8,
            AV_PIX_FMT_BAYER_GRBG8 => Pixel::BAYER_GRBG8,
            AV_PIX_FMT_BAYER_BGGR16LE => Pixel::BAYER_BGGR16LE,
            AV_PIX_FMT_BAYER_BGGR16BE => Pixel::BAYER_BGGR16BE,
            AV_PIX_FMT_BAYER_RGGB16LE => Pixel::BAYER_RGGB16LE,
            AV_PIX_FMT_BAYER_RGGB16BE => Pixel::BAYER_RGGB16BE,
            AV_PIX_FMT_BAYER_GBRG16LE => Pixel::BAYER_GBRG16LE,
            AV_PIX_FMT_BAYER_GBRG16BE => Pixel::BAYER_GBRG16BE,
            AV_PIX_FMT_BAYER_GRBG16LE => Pixel::BAYER_GRBG16LE,
            AV_PIX_FMT_BAYER_GRBG16BE => Pixel::BAYER_GRBG16BE,
            AV_PIX_FMT_YUV440P10LE => Pixel::YUV440P10LE,
            AV_PIX_FMT_YUV440P10BE => Pixel::YUV440P10BE,
            AV_PIX_FMT_YUV440P12LE => Pixel::YUV440P12LE,
            AV_PIX_FMT_YUV440P12BE => Pixel::YUV440P12BE,
            AV_PIX_FMT_AYUV64LE => Pixel::AYUV64LE,
            AV_PIX_FMT_AYUV64BE => Pixel::AYUV64BE,
            AV_PIX_FMT_VIDEOTOOLBOX => Pixel::VIDEOTOOLBOX,
            AV_PIX_FMT_P010LE => Pixel::P010LE,
            AV_PIX_FMT_P010BE => Pixel::P010BE,
            AV_PIX_FMT_GBRAP12BE => Pixel::GBRAP12BE,
            AV_PIX_FMT_GBRAP12LE => Pixel::GBRAP12LE,
            AV_PIX_FMT_GBRAP10LE => Pixel::GBRAP10LE,
            AV_PIX_FMT_GBRAP10BE => Pixel::GBRAP10BE,
            AV_PIX_FMT_MEDIACODEC => Pixel::MEDIACODEC,
            AV_PIX_FMT_GRAY12BE => Pixel::GRAY12BE,
            AV_PIX_FMT_GRAY12LE => Pixel::GRAY12LE,
            AV_PIX_FMT_GRAY10BE => Pixel::GRAY10BE,
            AV_PIX_FMT_GRAY10LE => Pixel::GRAY10LE,
            AV_PIX_FMT_P016LE => Pixel::P016LE,
            AV_PIX_FMT_P016BE => Pixel::P016BE,
            AV_PIX_FMT_D3D11 => Pixel::D3D11,
            AV_PIX_FMT_GRAY9BE => Pixel::GRAY9BE,
            AV_PIX_FMT_GRAY9LE => Pixel::GRAY9LE,
            AV_PIX_FMT_GBRPF32BE => Pixel::GBRPF32BE,
            AV_PIX_FMT_GBRPF32LE => Pixel::GBRPF32LE,
            AV_PIX_FMT_GBRAPF32BE => Pixel::GBRAPF32BE,
            AV_PIX_FMT_GBRAPF32LE => Pixel::GBRAPF32LE,
            AV_PIX_FMT_DRM_PRIME => Pixel::DRM_PRIME,
            AV_PIX_FMT_OPENCL => Pixel::OPENCL,
            AV_PIX_FMT_GRAY14BE => Pixel::GRAY14BE,
            AV_PIX_FMT_GRAY14LE => Pixel::GRAY14LE,
            AV_PIX_FMT_GRAYF32BE => Pixel::GRAYF32BE,
            AV_PIX_FMT_GRAYF32LE => Pixel::GRAYF32LE,
            AV_PIX_FMT_YUVA422P12BE => Pixel::YUVA422P12BE,
            AV_PIX_FMT_YUVA422P12LE => Pixel::YUVA422P12LE,
            AV_PIX_FMT_YUVA444P12BE => Pixel::YUVA444P12BE,
            AV_PIX_FMT_YUVA444P12LE => Pixel::YUVA444P12LE,
            AV_PIX_FMT_NV24 => Pixel::NV24,
            AV_PIX_FMT_NV42 => Pixel::NV42,
            AV_PIX_FMT_VULKAN => Pixel::VULKAN,
            AV_PIX_FMT_Y210BE => Pixel::Y210BE,
            AV_PIX_FMT_Y210LE => Pixel::Y210LE,
            AV_PIX_FMT_X2RGB10LE => Pixel::X2RGB10LE,
            AV_PIX_FMT_X2RGB10BE => Pixel::X2RGB10BE,
            _ => Pixel::NONE,
        };
        proof {
            Pixel::round_trip(r);
        }
        r
    }

    fn to_native(self) -> (r: i32) {
        proof {
            Pixel::round_trip(self);
        }
        match self {
            Pixel::NONE => AV_PIX_FMT_NONE,
            Pixel::YUV420P => AV_PIX_FMT_YUV420P,
            Pixel::YUYV422 => AV_PIX_FMT_YUYV422,
            Pixel::RGB24 => AV_PIX_FMT_RGB24,
            Pixel::BGR24 => AV_PIX_FMT_BGR24,
            Pixel::YUV422P => AV_PIX_FMT_YUV422P,
            Pixel::YUV444P => AV_PIX_FMT_YUV444P,
            Pixel::YUV410P => AV_PIX_FMT_YUV410P,
            Pixel::YUV411P => AV_PIX_FMT_YUV411P,
            Pixel::GRAY8 => AV_PIX_FMT_GRAY8,
            Pixel::MonoWhite => AV_PIX_FMT_MONOWHITE,
            Pixel::MonoBlack => AV_PIX_FMT_MONOBLACK,
            Pixel::PAL8 => AV_PIX_FMT_PAL8,
            Pixel::YUVJ420P => AV_PIX_FMT_YUVJ420P,
            Pixel::YUVJ422P => AV_PIX_FMT_YUVJ422P,
            Pixel::YUVJ444P => AV_PIX_FMT_YUVJ444P,
            Pixel::XVMC => AV_PIX_FMT_XVMC,
            Pixel::UYVY422 => AV_PIX_FMT_UYVY422,
            Pixel::UYYVYY411 => AV_PIX_FMT_UYYVYY411,
            Pixel::BGR8 => AV_PIX_FMT_BGR8,
            Pixel::BGR4 => AV_PIX_FMT_BGR4,
            Pixel::BGR4_BYTE => AV_PIX_FMT_BGR4_BYTE,
            Pixel::RGB8 => AV_PIX_FMT_RGB8,
            Pixel::RGB4 => AV_PIX_FMT_RGB4,
            Pixel::RGB4_BYTE => AV_PIX_FMT_RGB4_BYTE,
            Pixel::NV12 => AV_PIX_FMT_NV12,
            Pixel::NV21 => AV_PIX_FMT_NV21,
            Pixel::ARGB => AV_PIX_FMT_ARGB,
            Pixel::RGBA => AV_PIX_FMT_RGBA,
            Pixel::ABGR => AV_PIX_FMT_ABGR,
            Pixel::BGRA => AV_PIX_FMT_BGRA,
            Pixel::GRAY16BE => AV_PIX_FMT_GRAY16BE,
            Pixel::GRAY16LE => AV_PIX_FMT_GRAY16LE,
            Pixel::YUV440P => AV_PIX_FMT_YUV440P,
            Pixel::YUVJ440P => AV_PIX_FMT_YUVJ440P,
            Pixel::YUVA420P => AV_PIX_FMT_YUVA420P,
            Pixel::RGB48BE => AV_PIX_FMT_RGB48BE,
            Pixel::RGB48LE => AV_PIX_FMT_RGB48LE,
            Pixel::RGB565BE => AV_PIX_FMT_RGB565BE,
            Pixel::RGB565LE => AV_PIX_FMT_RGB565LE,
            Pixel::RGB555BE => AV_PIX_FMT_RGB555BE,
            Pixel::RGB555LE => AV_PIX_FMT_RGB555LE,
            Pixel::BGR565BE => AV_PIX_FMT_BGR565BE,
            Pixel::BGR565LE => AV_PIX_FMT_BGR565LE,
            Pixel::BGR555BE => AV_PIX_FMT_BGR555BE,
            Pixel::BGR555LE => AV_PIX_FMT_BGR555LE,
            Pixel::VAAPI_MOCO => AV_PIX_FMT_VAAPI_MOCO,
            Pixel::VAAPI_IDCT => AV_PIX_FMT_VAAPI_IDCT,
            Pixel::VAAPI_VLD => AV_PIX_FMT_VAAPI_VLD,
            Pixel::YUV420P16LE => AV_PIX_FMT_YUV420P16LE,
            Pixel::YUV420P16BE => AV_PIX_FMT_YUV420P16BE,
            Pixel::YUV422P16LE => AV_PIX_FMT_YUV422P16LE,
            Pixel::YUV422P16BE => AV_PIX_FMT_YUV422P16BE,
            Pixel::YUV444P16LE => AV_PIX_FMT_YUV444P16LE,
            Pixel::YUV444P16BE => AV_PIX_FMT_YUV444P16BE,
            Pixel::DXVA2_VLD => AV_PIX_FMT_DXVA2_VLD,
            Pixel::RGB444LE => AV_PIX_FMT_RGB444LE,
            Pixel::RGB444BE => AV_PIX_FMT_RGB444BE,
            Pixel::BGR444LE => AV_PIX_FMT_BGR444LE,
            Pixel::BGR444BE => AV_PIX_FMT_BGR444BE,
            Pixel::YA8 => AV_PIX_FMT_YA8,
            Pixel::BGR48BE => AV_PIX_FMT_BGR48BE,
            Pixel::BGR48LE => AV_PIX_FMT_BGR48LE,
            Pixel::YUV420P9BE => AV_PIX_FMT_YUV420P9BE,
            Pixel::YUV420P9LE => AV_PIX_FMT_YUV420P9LE,
            Pixel::YUV420P10BE => AV_PIX_FMT_YUV420P10BE,
            Pixel::YUV420P10LE => AV_PIX_FMT_YUV420P10LE,
            Pixel::YUV422P10BE => AV_PIX_FMT_YUV422P10BE,
            Pixel::YUV422P10LE => AV_PIX_FMT_YUV422P10LE,
            Pixel::YUV444P9BE => AV_PIX_FMT_YUV444P9BE,
            Pixel::YUV444P9LE => AV_PIX_FMT_YUV444P9LE,
            Pixel::YUV444P10BE => AV_PIX_FMT_YUV444P10BE,
            Pixel::YUV444P10LE => AV_PIX_FMT_YUV444P10LE,
            Pixel::YUV422P9BE => AV_PIX_FMT_YUV422P9BE,
            Pixel::YUV422P9LE => AV_PIX_FMT_YUV422P9LE,
            Pixel::GBRP => AV_PIX_FMT_GBRP,
            Pixel::GBRP9BE => AV_PIX_FMT_GBRP9BE,
            Pixel::GBRP9LE => AV_PIX_FMT_GBRP9LE,
            Pixel::GBRP10BE => AV_PIX_FMT_GBRP10BE,
            Pixel::GBRP10LE => AV_PIX_FMT_GBRP10LE,
            Pixel::GBRP16BE => AV_PIX_FMT_GBRP16BE,
            Pixel::GBRP16LE => AV_PIX_FMT_GBRP16LE,
            Pixel::YUVA420P9BE => AV_PIX_FMT_YUVA420P9BE,
            Pixel::YUVA420P9LE => AV_PIX_FMT_YUVA420P9LE,
            Pixel::YUVA422P9BE => AV_PIX_FMT_YUVA422P9BE,
            Pixel::YUVA422P9LE => AV_PIX_FMT_YUVA422P9LE,
            Pixel::YUVA444P9BE => AV_PIX_FMT_YUVA444P9BE,
            Pixel::YUVA444P9LE => AV_PIX_FMT_YUVA444P9LE,
            Pixel::YUVA420P10BE => AV_PIX_FMT_YUVA420P10BE,
            Pixel::YUVA420P10LE => AV_PIX_FMT_YUVA420P10LE,
            Pixel::YUVA422P10BE => AV_PIX_FMT_YUVA422P10BE,
            Pixel::YUVA422P10LE => AV_PIX_FMT_YUVA422P10LE,
            Pixel::YUVA444P10BE => AV_PIX_FMT_YUVA444P10BE,
            Pixel::YUVA444P10LE => AV_PIX_FMT_YUVA444P10LE,
            Pixel::YUVA420P16BE => AV_PIX_FMT_YUVA420P16BE,
            Pixel::YUVA420P16LE => AV_PIX_FMT_YUVA420P16LE,
            Pixel::YUVA422P16BE => AV_PIX_FMT_YUVA422P16BE,
            Pixel::YUVA422P16LE => AV_PIX_FMT_YUVA422P16LE,
            Pixel::YUVA444P16BE => AV_PIX_FMT_YUVA444P16BE,
            Pixel::YUVA444P16LE => AV_PIX_FMT_YUVA444P16LE,
            Pixel::VDPAU => AV_PIX_FMT_VDPAU,
            Pixel::XYZ12LE => AV_PIX_FMT_XYZ12LE,
            Pixel::XYZ12BE => AV_PIX_FMT_XYZ12BE,
            Pixel::NV16 => AV_PIX_FMT_NV16,
            Pixel::NV20LE => AV_PIX_FMT_NV20LE,
            Pixel::NV20BE => AV_PIX_FMT_NV20BE,
            Pixel::RGBA64BE => AV_PIX_FMT_RGBA64BE,
            Pixel::RGBA64LE => AV_PIX_FMT_RGBA64LE,
            Pixel::BGRA64BE => AV_PIX_FMT_BGRA64BE,
            Pixel::BGRA64LE => AV_PIX_FMT_BGRA64LE,
            Pixel::YVYU422 => AV_PIX_FMT_YVYU422,
            Pixel::YA16BE => AV_PIX_FMT_YA16BE,
            Pixel::YA16LE => AV_PIX_FMT_YA16LE,
            Pixel::QSV => AV_PIX_FMT_QSV,
            Pixel::MMAL => AV_PIX_FMT_MMAL,
            Pixel::D3D11VA_VLD => AV_PIX_FMT_D3D11VA_VLD,
            Pixel::CUDA => AV_PIX_FMT_CUDA,
            Pixel::ZRGB => AV_PIX_FMT_0RGB,
            Pixel::RGBZ => AV_PIX_FMT_RGB0,
            Pixel::ZBGR => AV_PIX_FMT_0BGR,
            Pixel::BGRZ => AV_PIX_FMT_BGR0,
            Pixel::YUVA444P => AV_PIX_FMT_YUVA444P,
            Pixel::YUVA422P => AV_PIX_FMT_YUVA422P,
            Pixel::YUV420P12BE => AV_PIX_FMT_YUV420P12BE,
            Pixel::YUV420P12LE => AV_PIX_FMT_YUV420P12LE,
            Pixel::YUV420P14BE => AV_PIX_FMT_YUV420P14BE,
            Pixel::YUV420P14LE => AV_PIX_FMT_YUV420P14LE,
            Pixel::YUV422P12BE => AV_PIX_FMT_YUV422P12BE,
            Pixel::YUV422P12LE => AV_PIX_FMT_YUV422P12LE,
            Pixel::YUV422P14BE => AV_PIX_FMT_YUV422P14BE,
            Pixel::YUV422P14LE => AV_PIX_FMT_YUV422P14LE,
            Pixel::YUV444P12BE => AV_PIX_FMT_YUV444P12BE,
            Pixel::YUV444P12LE => AV_PIX_FMT_YUV444P12LE,
            Pixel::YUV444P14BE => AV_PIX_FMT_YUV444P14BE,
            Pixel::YUV444P14LE => AV_PIX_FMT_YUV444P14LE,
            Pixel::GBRP12BE => AV_PIX_FMT_GBRP12BE,
            Pixel::GBRP12LE => AV_PIX_FMT_GBRP12LE,
            Pixel::GBRP14BE => AV_PIX_FMT_GBRP14BE,
            Pixel::GBRP14LE => AV_PIX_FMT_GBRP14LE,
            Pixel::GBRAP => AV_PIX_FMT_GBRAP,
            Pixel::GBRAP16BE => AV_PIX_FMT_GBRAP16BE,
            Pixel::GBRAP16LE => AV_PIX_FMT_GBRAP16LE,
            Pixel::YUVJ411P => AV_PIX_FMT_YUVJ411P,
            Pixel::BAYER_BGGR8 => AV_PIX_FMT_BAYER_BGGR8,
            Pixel::BAYER_RGGB8 => AV_PIX_FMT_BAYER_RGGB8,
            Pixel::BAYER_GBRG8 => AV_PIX_FMT_BAYER_GBRG8,
            Pixel::BAYER_GRBG8 => AV_PIX_FMT_BAYER_GRBG8,
            Pixel::BAYER_BGGR16LE => AV_PIX_FMT_BAYER_BGGR16LE,
            Pixel::BAYER_BGGR16BE => AV_PIX_FMT_BAYER_BGGR16BE,
            Pixel::BAYER_RGGB16LE => AV_PIX_FMT_BAYER_RGGB16LE,
            Pixel::BAYER_RGGB16BE => AV_PIX_FMT_BAYER_RGGB16BE,
            Pixel::BAYER_GBRG16LE => AV_PIX_FMT_BAYER_GBRG16LE,
            Pixel::BAYER_GBRG16BE => AV_PIX_FMT_BAYER_GBRG16BE,
            Pixel::BAYER_GRBG16LE => AV_PIX_FMT_BAYER_GRBG16LE,
            Pixel::BAYER_GRBG16BE => AV_PIX_FMT_BAYER_GRBG16BE,
            Pixel::YUV440P10LE => AV_PIX_FMT_YUV440P10LE,
            Pixel::YUV440P10BE => AV_PIX_FMT_YUV440P10BE,
            Pixel::YUV440P12LE => AV_PIX_FMT_YUV440P12LE,
            Pixel::YUV440P12BE => AV_PIX_FMT_YUV440P12BE,
            Pixel::AYUV64LE => AV_PIX_FMT_AYUV64LE,
            Pixel::AYUV64BE => AV_PIX_FMT_AYUV64BE,
            Pixel::VIDEOTOOLBOX => AV_PIX_FMT_VIDEOTOOLBOX,
            Pixel::P010LE => AV_PIX_FMT_P010LE,
            Pixel::P010BE => AV_PIX_FMT_P010BE,
            Pixel::GBRAP12BE => AV_PIX_FMT_GBRAP12BE,
            Pixel::GBRAP12LE => AV_PIX_FMT_GBRAP12LE,
            Pixel::GBRAP10LE => AV_PIX_FMT_GBRAP10LE,
            Pixel::GBRAP10BE => AV_PIX_FMT_GBRAP10BE,
            Pixel::MEDIACODEC => AV_PIX_FMT_MEDIACODEC,
            Pixel::GRAY12BE => AV_PIX_FMT_GRAY12BE,
            Pixel::GRAY12LE => AV_PIX_FMT_GRAY12LE,
            Pixel::GRAY10BE => AV_PIX_FMT_GRAY10BE,
            Pixel::GRAY10LE => AV_PIX_FMT_GRAY10LE,
            Pixel::P016LE => AV_PIX_FMT_P016LE,
            Pixel::P016BE => AV_PIX_FMT_P016BE,
            Pixel::D3D11 => AV_PIX_FMT_D3D11,
            Pixel::GRAY9BE => AV_PIX_FMT_GRAY9BE,
            Pixel::GRAY9LE => AV_PIX_FMT_GRAY9LE,
            Pixel::GBRPF32BE => AV_PIX_FMT_GBRPF32BE,
            Pixel::GBRPF32LE => AV_PIX_FMT_GBRPF32LE,
            Pixel::GBRAPF32BE => AV_PIX_FMT_GBRAPF32BE,
            Pixel::GBRAPF32LE => AV_PIX_FMT_GBRAPF32LE,
            Pixel::DRM_PRIME => AV_PIX_FMT_DRM_PRIME,
            Pixel::OPENCL => AV_PIX_FMT_OPENCL,
            Pixel::GRAY14BE => AV_PIX_FMT_GRAY14BE,
            Pixel::GRAY14LE => AV_PIX_FMT_GRAY14LE,
            Pixel::GRAYF32BE => AV_PIX_FMT_GRAYF32BE,
            Pixel::GRAYF32LE => AV_PIX_FMT_GRAYF32LE,
            Pixel::YUVA422P12BE => AV_PIX_FMT_YUVA422P12BE,
            Pixel::YUVA422P12LE => AV_PIX_FMT_YUVA422P12LE,
            Pixel::YUVA444P12BE => AV_PIX_FMT_YUVA444P12BE,
            Pixel::YUVA444P12LE => AV_PIX_FMT_YUVA444P12LE,
            Pixel::NV24 => AV_PIX_FMT_NV24,
            Pixel::NV42 => AV_PIX_FMT_NV42,
            Pixel::VULKAN => AV_PIX_FMT_VULKAN,
            Pixel::Y210BE => AV_PIX_FMT_Y210BE,
            Pixel::Y210LE => AV_PIX_FMT_Y210LE,
            Pixel::X2RGB10LE => AV_PIX_FMT_X2RGB10LE,
            Pixel::X2RGB10BE => AV_PIX_FMT_X2RGB10BE,
        }
    }

    proof fn to_native_injective(a: Pixel, b: Pixel) {
    }

    proof fn reads_are_readable(value: i32) {
    }

    proof fn round_trip(v: Pixel) {
        let w = choose|w: Pixel| w.is_readable() && w.spec_to_native() == v.spec_to_native();
        Pixel::to_native_injective(w, v);
    }

    proof fn unknown_values_fall_back(value: i32) {
    }
}

impl Pixel {
    /// Other name of `Pixel::YA8`: the same native value.
    pub const Y400A: Pixel = Pixel::YA8;
    /// Other name of `Pixel::YA8`: the same native value.
    pub const GRAY8A: Pixel = Pixel::YA8;
    /// Other name of `Pixel::GBRP`: the same native value.
    pub const GBR24P: Pixel = Pixel::GBRP;

    // Names that stand for the little-endian member of a pair, or for the
    // native byte order of a packed format, on a little-endian machine.
    pub const RGB32: Pixel = Pixel::BGRA;
    pub const RGB32_1: Pixel = Pixel::ABGR;
    pub const BGR32: Pixel = Pixel::RGBA;
    pub const BGR32_1: Pixel = Pixel::ARGB;
    pub const ZRGB32: Pixel = Pixel::BGRZ;
    pub const ZBGR32: Pixel = Pixel::RGBZ;
    pub const GRAY16: Pixel = Pixel::GRAY16LE;
    pub const YA16: Pixel = Pixel::YA16LE;
    pub const RGB48: Pixel = Pixel::RGB48LE;
    pub const RGB565: Pixel = Pixel::RGB565LE;
    pub const RGB555: Pixel = Pixel::RGB555LE;
    pub const RGB444: Pixel = Pixel::RGB444LE;
    pub const BGR48: Pixel = Pixel::BGR48LE;
    pub const BGR565: Pixel = Pixel::BGR565LE;
    pub const BGR555: Pixel = Pixel::BGR555LE;
    pub const BGR444: Pixel = Pixel::BGR444LE;
    pub const YUV420P9: Pixel = Pixel::YUV420P9LE;
    pub const YUV422P9: Pixel = Pixel::YUV422P9LE;
    pub const YUV444P9: Pixel = Pixel::YUV444P9LE;
    pub const YUV420P10: Pixel = Pixel::YUV420P10LE;
    pub const YUV422P10: Pixel = Pixel::YUV422P10LE;
    pub const YUV440P10: Pixel = Pixel::YUV440P10LE;
    pub const YUV444P10: Pixel = Pixel::YUV444P10LE;
    pub const YUV420P12: Pixel = Pixel::YUV420P12LE;
    pub const YUV422P12: Pixel = Pixel::YUV422P12LE;
    pub const YUV440P12: Pixel = Pixel::YUV440P12LE;
    pub const YUV444P12: Pixel = Pixel::YUV444P12LE;
    pub const YUV420P14: Pixel = Pixel::YUV420P14LE;
    pub const YUV422P14: Pixel = Pixel::YUV422P14LE;
    pub const YUV444P14: Pixel = Pixel::YUV444P14LE;
    pub const YUV420P16: Pixel = Pixel::YUV420P16LE;
    pub const YUV422P16: Pixel = Pixel::YUV422P16LE;
    pub const YUV444P16: Pixel = Pixel::YUV444P16LE;
    pub const GBRP9: Pixel = Pixel::GBRP9LE;
    pub const GBRP10: Pixel = Pixel::GBRP10LE;
    pub const GBRP12: Pixel = Pixel::GBRP12LE;
    pub const GBRP14: Pixel = Pixel::GBRP14LE;
    pub const GBRP16: Pixel = Pixel::GBRP16LE;
    pub const GBRAP16: Pixel = Pixel::GBRAP16LE;
    pub const BAYER_BGGR16: Pixel = Pixel::BAYER_BGGR16LE;
    pub const BAYER_RGGB16: Pixel = Pixel::BAYER_RGGB16LE;
    pub const BAYER_GBRG16: Pixel = Pixel::BAYER_GBRG16LE;
    pub const BAYER_GRBG16: Pixel = Pixel::BAYER_GRBG16LE;
    pub const YUVA420P9: Pixel = Pixel::YUVA420P9LE;
    pub const YUVA422P9: Pixel = Pixel::YUVA422P9LE;
    pub const YUVA444P9: Pixel = Pixel::YUVA444P9LE;
    pub const YUVA420P10: Pixel = Pixel::YUVA420P10LE;
    pub const YUVA422P10: Pixel = Pixel::YUVA422P10LE;
    pub const YUVA444P10: Pixel = Pixel::YUVA444P10LE;
    pub const YUVA420P16: Pixel = Pixel::YUVA420P16LE;
    pub const YUVA422P16: Pixel = Pixel::YUVA422P16LE;
    pub const YUVA444P16: Pixel = Pixel::YUVA444P16LE;
    pub const XYZ12: Pixel = Pixel::XYZ12LE;
    pub const NV20: Pixel = Pixel::NV20LE;
    pub const AYUV64: Pixel = Pixel::AYUV64LE;

    /// The native count sentinel reads as the same fallback variant as
    /// the native value for an unspecified pixel format.
    pub proof fn sentinel_falls_back()
        ensures
            Pixel::spec_from_native(AV_PIX_FMT_NB) == Pixel::NONE,
            Pixel::spec_from_native(AV_PIX_FMT_NONE) == Pixel::NONE,
    {
    }
}

/// Why a pixel format name could not be read.
#[derive(PartialEq, Eq, Structural, Clone, Copy, Debug)]
pub enum ParsePixelError {
    /// The name holds a NUL byte at this position, so it cannot be handed to
    /// the native lookup.
    NulError(usize),
    /// The native lookup knows no format of that name.
    UnknownFormat,
}

impl ParsePixelError {
    /// A description of the error.
    pub fn message(&self) -> (r: &'static str)
        ensures
            *self is NulError ==> r@ == "nul byte found in provided data"@,
            *self == ParsePixelError::UnknownFormat ==> r@ == "unknown pixel format"@,
    {
        match self {
            ParsePixelError::NulError(_) => {
                proof {
                    reveal_strlit("nul byte found in provided data");
                }
                "nul byte found in provided data"
            },
            ParsePixelError::UnknownFormat => {
                proof {
                    reveal_strlit("unknown pixel format");
                }
                "unknown pixel format"
            },
        }
    }
}

impl Pixel {
    /// Checks that a format name can be handed to the native lookup: it fails
    /// at the first NUL byte.
    pub fn check_name(name: &[u8]) -> (r: Result<(), ParsePixelError>)
        ensures
            first_index(name@, 0u8, 0) == name@.len() <==> r is Ok,
            r is Err ==> r == Err::<(), ParsePixelError>(
                ParsePixelError::NulError(first_index(name@, 0u8, 0) as usize),
            ),
    {
        let mut i: usize = 0;
        while i < name.len()
            invariant
                0 <= i <= name@.len(),
                forall|j: int| 0 <= j < i ==> name@[j] != 0u8,
            decreases name@.len() - i,
        {
            if name[i] == 0 {
                proof {
                    lemma_first_index_at(name@, 0u8, 0, i as int);
                }
                return Err(ParsePixelError::NulError(i));
            }
            i = i + 1;
        }
        proof {
            lemma_first_index_at(name@, 0u8, 0, i as int);
        }
        Ok(())
    }

    /// The format that the native name lookup answered with, or
    /// `ParsePixelError::UnknownFormat` when it answered with no format.
    pub fn from_lookup(value: i32) -> (r: Result<Pixel, ParsePixelError>)
        ensures
            Pixel::spec_from_native(value) == Pixel::NONE <==> r is Err,
            r is Err ==> r->Err_0 == ParsePixelError::UnknownFormat,
            r is Ok ==> r->Ok_0 == Pixel::spec_from_native(value),
    {
        let format = Pixel::from_native(value);
        if format == Pixel::NONE {
            Err(ParsePixelError::UnknownFormat)
        } else {
            Ok(format)
        }
    }
}

/// The fields of a native `AVPixFmtDescriptor` as plain values; `name` is
/// the buffer that its pointer reaches.
pub struct NativeDescriptor {
    pub name: Vec<u8>,
    pub nb_components: u8,
    pub log2_chroma_w: u8,
    pub log2_chroma_h: u8,
}

/// A read-only view of the native description of a pixel format.
#[derive(Clone, Copy)]
pub struct Descriptor<'a> {
    ptr: &'a NativeDescriptor,
}

impl<'a> Descriptor<'a> {
    pub closed spec fn native(&self) -> &'a NativeDescriptor {
        self.ptr
    }

    pub fn wrap(ptr: &'a NativeDescriptor) -> (r: Descriptor<'a>)
        ensures
            r.native() == ptr,
    {
        Descriptor { ptr }
    }

    pub fn as_ptr(self) -> (r: &'a NativeDescriptor)
        ensures
            r == self.native(),
    {
        self.ptr
    }

    pub fn name(self) -> (r: &'a [u8])
        ensures
            r@ == c_string(self.native().name@),
    {
        c_str_bytes(self.ptr.name.as_slice())
    }

    pub fn nb_components(self) -> (r: u8)
        ensures
            r == self.native().nb_components,
    {
        self.ptr.nb_components
    }

    pub fn log2_chroma_w(self) -> (r: u8)
        ensures
            r == self.native().log2_chroma_w,
    {
        self.ptr.log2_chroma_w
    }

    pub fn log2_chroma_h(self) -> (r: u8)
        ensures
            r == self.native().log2_chroma_h,
    {
        self.ptr.log2_chroma_h
    }
}

} // verus!
