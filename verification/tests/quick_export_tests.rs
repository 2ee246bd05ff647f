use vide_ffmpeg::color::ChannelOrder;
use vide_ffmpeg::error::ExportError;
use vide_ffmpeg::quick_export::{is_mp4, to};
use vide_ffmpeg::session::Phase;
use vide_ffmpeg::FFmpegImporter;

#[test]
fn mp4_files_get_an_h264_exporter() {
    let e = to("movie.mp4").unwrap();
    assert_eq!(e.output(), "movie.mp4");
    assert_eq!(e.container(), "mp4");
    assert_eq!(e.video_coding(), "libx264");
    assert_eq!(e.pixel_format(), "yuv444p");
    assert_eq!(e.audio_coding(), None);
    assert_eq!(e.channel_order(), ChannelOrder::Rgba);
    assert_eq!(e.phase(), Phase::Unconfigured);
    assert_eq!(e.resolution(), (1920, 1080));
}

#[test]
fn extension_is_what_follows_the_last_dot() {
    assert!(is_mp4("a.b.mp4"));
    assert!(is_mp4(".mp4"));
    assert!(is_mp4("dir.d/clip.mp4"));
    assert!(is_mp4("vidéo.mp4"));
    assert!(!is_mp4("a.mp4.bak"));
    assert!(!is_mp4("a.mp4."));
    assert!(!is_mp4("amp4"));
    assert!(!is_mp4("a.xmp4"));
    assert!(!is_mp4("a.MP4"));
    assert!(!is_mp4("a.mp"));
    assert!(!is_mp4("p4"));
    assert!(!is_mp4(""));
}

#[test]
fn name_without_a_dot_is_its_own_extension() {
    assert!(is_mp4("mp4"));
    assert!(to("mp4").is_ok());
}

#[test]
fn other_extensions_are_a_configuration_error() {
    assert_eq!(to("movie.avi").unwrap_err(), ExportError::Configuration);
    assert_eq!(to("movie").unwrap_err(), ExportError::Configuration);
    assert_eq!(to("").unwrap_err(), ExportError::Configuration);
    assert_eq!(to("movie.mp4.tmp").unwrap_err(), ExportError::Configuration);
}

#[test]
fn nothing_can_be_imported_yet() {
    assert!(FFmpegImporter::supported_import_extensions().is_empty());
}
