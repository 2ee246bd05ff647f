use ffimage::color::Rgb;
use ffimage_yuv::yuv::Yuv as PackedYuv;
use vide_ffmpeg::color::{ChannelOrder, Rgba, Yuv};
use vide_ffmpeg::planes::convert_frame;

fn convert(r: u8, g: u8, b: u8) -> Yuv {
    Rgba([r, g, b, 255]).into_yuv(ChannelOrder::Rgba)
}

#[test]
fn black_converts_to_the_bottom_of_the_video_range() {
    assert_eq!(convert(0, 0, 0), Yuv { y: 16, u: 128, v: 128 });
}

#[test]
fn white_converts_to_the_top_of_the_luma_range() {
    assert_eq!(convert(255, 255, 255), Yuv { y: 235, u: 128, v: 128 });
}

#[test]
fn primaries_convert_to_exact_samples() {
    assert_eq!(convert(255, 0, 0), Yuv { y: 82, u: 90, v: 240 });
    assert_eq!(convert(0, 255, 0), Yuv { y: 144, u: 54, v: 34 });
    assert_eq!(convert(0, 0, 255), Yuv { y: 41, u: 240, v: 110 });
}

#[test]
fn negative_sums_round_down() {
    // -38 * 1 + 128 = 90, 90 >> 8 = 0; -38 * 4 + 128 = -24, -24 >> 8 = -1.
    assert_eq!(convert(1, 0, 0).u, 128);
    assert_eq!(convert(4, 0, 0).u, 127);
    assert_eq!(convert(0, 2, 0).v, 127);
}

#[test]
fn alpha_has_no_part_in_the_conversion() {
    let opaque = Rgba([10, 200, 30, 255]).into_yuv(ChannelOrder::Rgba);
    let clear = Rgba([10, 200, 30, 0]).into_yuv(ChannelOrder::Rgba);
    assert_eq!(opaque, clear);
}

#[test]
fn channel_order_says_where_the_colours_are() {
    let expected = convert(10, 20, 30);
    assert_eq!(Rgba([30, 20, 10, 99]).into_yuv(ChannelOrder::Bgra), expected);
    assert_eq!(Rgba([99, 10, 20, 30]).into_yuv(ChannelOrder::Argb), expected);
    assert_eq!(Rgba([99, 30, 20, 10]).into_yuv(ChannelOrder::Abgr), expected);
}

#[test]
fn channel_positions_are_permutations() {
    for order in [ChannelOrder::Rgba, ChannelOrder::Bgra, ChannelOrder::Argb, ChannelOrder::Abgr] {
        let mut seen = [false; 4];
        seen[order.red()] = true;
        seen[order.green()] = true;
        seen[order.blue()] = true;
        seen[order.alpha()] = true;
        assert_eq!(seen, [true; 4]);
    }
    assert_eq!(ChannelOrder::default(), ChannelOrder::Rgba);
    assert_eq!(ChannelOrder::Rgba.red(), 0);
    assert_eq!(ChannelOrder::Rgba.green(), 1);
    assert_eq!(ChannelOrder::Rgba.blue(), 2);
    assert_eq!(ChannelOrder::Rgba.alpha(), 3);
}

#[test]
fn pixel_from_array_keeps_the_bytes() {
    let pixel = Rgba::from([1, 2, 3, 4]);
    assert_eq!(pixel.0, [1, 2, 3, 4]);
}

#[test]
fn samples_stay_in_video_range() {
    for r in (0..=255u16).step_by(15) {
        for g in (0..=255u16).step_by(15) {
            for b in (0..=255u16).step_by(15) {
                let yuv = convert(r as u8, g as u8, b as u8);
                assert!((16..=235).contains(&yuv.y));
                assert!((16..=240).contains(&yuv.u));
                assert!((16..=240).contains(&yuv.v));
            }
        }
    }
}

#[test]
fn conversion_agrees_with_ffimage_yuv() {
    for r in (0..=255u16).step_by(5) {
        for g in (0..=255u16).step_by(5) {
            for b in (0..=255u16).step_by(5) {
                let ours = convert(r as u8, g as u8, b as u8);
                let theirs = PackedYuv::<u8>::from(Rgb::<u8>([r as u8, g as u8, b as u8]));
                assert_eq!([ours.y, ours.u, ours.v], theirs.0);
            }
        }
    }
}

#[test]
fn frame_converts_pixel_by_pixel_in_order() {
    let buffer = [255, 0, 0, 255, 0, 255, 0, 255, 0, 0, 255, 255, 0, 0, 0, 0];
    let planes = convert_frame(&buffer, ChannelOrder::Rgba);
    assert_eq!(planes.y, vec![82, 144, 41, 16]);
    assert_eq!(planes.u, vec![90, 54, 240, 128]);
    assert_eq!(planes.v, vec![240, 34, 110, 128]);
    assert_eq!(planes.len(), 4);
}

#[test]
fn frame_conversion_follows_the_channel_order() {
    let buffer = [0, 0, 255, 7, 255, 0, 0, 9];
    let planes = convert_frame(&buffer, ChannelOrder::Bgra);
    assert_eq!(planes.y, vec![82, 41]);
    assert_eq!(planes.u, vec![90, 240]);
    assert_eq!(planes.v, vec![240, 110]);
}

#[test]
fn trailing_bytes_of_a_partial_pixel_are_left_out() {
    let buffer = [255, 255, 255, 255, 1, 2, 3];
    let planes = convert_frame(&buffer, ChannelOrder::Rgba);
    assert_eq!(planes.y, vec![235]);
    assert_eq!(planes.u, vec![128]);
    assert_eq!(planes.v, vec![128]);
}

#[test]
fn empty_buffer_gives_empty_planes() {
    let planes = convert_frame(&[], ChannelOrder::Rgba);
    assert!(planes.y.is_empty() && planes.u.is_empty() && planes.v.is_empty());
}

#[test]
fn uniform_frame_gives_uniform_planes() {
    let pixel = [200u8, 100, 50, 255];
    let mut buffer = Vec::new();
    for _ in 0..64 {
        buffer.extend_from_slice(&pixel);
    }
    let expected = Rgba(pixel).into_yuv(ChannelOrder::Rgba);
    let planes = convert_frame(&buffer, ChannelOrder::Rgba);
    assert_eq!(planes.y.len(), 64);
    assert_eq!(planes.u.len(), 64);
    assert_eq!(planes.v.len(), 64);
    assert!(planes.y.iter().all(|&s| s == expected.y));
    assert!(planes.u.iter().all(|&s| s == expected.u));
    assert!(planes.v.iter().all(|&s| s == expected.v));
    // ((66*200 + 129*100 + 25*50 + 128) >> 8) + 16 = (27478 >> 8) + 16 = 123
    assert_eq!(expected.y, 123);
    // ((-38*200 - 74*100 + 112*50 + 128) >> 8) + 128 = (-9272 >> 8) + 128 = 91
    assert_eq!(expected.u, 91);
    // ((112*200 - 94*100 - 18*50 + 128) >> 8) + 128 = (12228 >> 8) + 128 = 175
    assert_eq!(expected.v, 175);
}
