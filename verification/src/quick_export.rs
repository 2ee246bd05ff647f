//! Exporters chosen by the extension of the output file.

use crate::color::ChannelOrder;
use crate::error::ExportError;
use crate::exporter::{FFmpegExporter, DEFAULT_HEIGHT, DEFAULT_WIDTH};
use crate::session::{Phase, Session};
use vstd::prelude::*;

verus! {

/// The extension of a file name: what follows its last dot, or the whole
/// name where it has no dot.
pub open spec fn extension(name: Seq<char>) -> Seq<char>
    decreases name.len(),
{
    if name.len() == 0 {
        name
    } else if name.last() == '.' {
        Seq::empty()
    } else {
        extension(name.drop_last()).push(name.last())
    }
}

/// The one extension an exporter is known for.
pub open spec fn mp4() -> Seq<char> {
    seq!['m', 'p', '4']
}

/// A name has the extension `mp4` exactly if it ends in `mp4` and that is
/// either the whole name or comes after a dot.
pub proof fn mp4_extension_is_a_suffix(name: Seq<char>)
    ensures
        extension(name) == mp4() <==> {
            let n = name.len() as int;
            &&& n >= 3
            &&& name[n - 3] == 'm'
            &&& name[n - 2] == 'p'
            &&& name[n - 1] == '4'
            &&& (n == 3 || name[n - 4] == '.')
        },
{
    reveal_with_fuel(extension, 5);
    let n = name.len() as int;
    let one = name.drop_last();
    let two = one.drop_last();
    let three = two.drop_last();
    if n >= 1 && name.last() != '.' {
        assert(extension(name) == extension(one).push(name.last()));
        if n >= 2 && one.last() != '.' {
            assert(extension(one) == extension(two).push(one.last()));
            if n >= 3 && two.last() != '.' {
                assert(extension(two) == extension(three).push(two.last()));
                if n >= 4 && three.last() != '.' {
                    assert(extension(three).len() >= 1);
                    assert(extension(name).len() >= 4);
                } else {
                    assert(extension(three) == Seq::<char>::empty());
                    assert(extension(name) =~= seq![name[n - 3], name[n - 2], name[n - 1]]);
                    assert(mp4()[0] == 'm' && mp4()[1] == 'p' && mp4()[2] == '4');
                }
            } else {
                assert(extension(name).len() == 2);
            }
        } else {
            assert(extension(name).len() == 1);
        }
    } else {
        assert(extension(name).len() == 0);
    }
}

/// Whether a file name has the extension `mp4`.
pub fn is_mp4(output_file: &str) -> (yes: bool)
    ensures
        yes == (extension(output_file@) == mp4()),
{
    proof {
        mp4_extension_is_a_suffix(output_file@);
    }
    let n = output_file.unicode_len();
    if n < 3 {
        return false;
    }
    if output_file.get_char(n - 3) != 'm' || output_file.get_char(n - 2) != 'p'
        || output_file.get_char(n - 1) != '4' {
        return false;
    }
    n == 3 || output_file.get_char(n - 4) == '.'
}

/// An exporter for the given output file, chosen by the file's extension.
///
/// A file with the extension `mp4` gets an exporter that is not started
/// yet, writes an `mp4` container with `libx264` video in the pixel format
/// `yuv444p`, which keeps chroma at full resolution as the conversion does,
/// and has no audio. For every other extension there is no exporter, and
/// the result is a configuration error.
pub fn to(output_file: &str) -> (result: Result<FFmpegExporter, ExportError>)
    ensures
        result.is_ok() <==> extension(output_file@) == mp4(),
        result matches Err(error) ==> error == ExportError::Configuration,
        result matches Ok(exporter) ==> {
            &&& exporter.output_name() == output_file@
            &&& exporter.container_name() == "mp4"@
            &&& exporter.codec_name() == "libx264"@
            &&& exporter.pixel_format_name() == "yuv444p"@
            &&& exporter.audio_codec_name().is_none()
            &&& exporter.order() == ChannelOrder::Rgba
            &&& exporter.session() == (Session {
                phase: Phase::Unconfigured,
                width: DEFAULT_WIDTH,
                height: DEFAULT_HEIGHT,
                frame_duration: 0,
                timestamp: 0,
                frames: 0,
            })
        },
{
    if is_mp4(output_file) {
        Ok(FFmpegExporter::new(output_file, "mp4", "libx264", "yuv444p", None))
    } else {
        Err(ExportError::Configuration)
    }
}

} // verus!
