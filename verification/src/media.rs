//! The container format of the media that a job is submitted for.
//!
//! The format is read off the MIME type that the first bytes of the file
//! reveal. Where those bytes reveal nothing that can be transcribed, the file
//! extension `mp3` still settles the format.

use vstd::prelude::*;
use vstd::slice::*;
use vstd::string::*;

use crate::error::{InputError, InputErrorModel};
use crate::text::{optional_text, str_eq};

verus! {

/// The formats that a transcription job accepts.
#[derive(Clone, Copy, Debug, PartialEq, Eq, Structural)]
pub enum MediaFormat {
    Amr,
    Flac,
    M4a,
    Mp3,
    Mp4,
    Ogg,
    Wav,
    Webm,
}

/// How many bytes from the start of a file are looked at.
pub const SNIFF_LIMIT: usize = 8192;

/// The format that a MIME type stands for, if it stands for one.
pub open spec fn format_of_mime(mime_type: Seq<char>) -> Option<MediaFormat> {
    if mime_type == "audio/amr"@ {
        Some(MediaFormat::Amr)
    } else if mime_type == "audio/flac"@ {
        Some(MediaFormat::Flac)
    } else if mime_type == "audio/m4a"@ {
        Some(MediaFormat::M4a)
    } else if mime_type == "audio/mpeg"@ {
        Some(MediaFormat::Mp3)
    } else if mime_type == "audio/mp4"@ || mime_type == "video/mp4"@ {
        Some(MediaFormat::Mp4)
    } else if mime_type == "audio/ogg"@ || mime_type == "audio/opus"@ {
        Some(MediaFormat::Ogg)
    } else if mime_type == "audio/wav"@ {
        Some(MediaFormat::Wav)
    } else if mime_type == "audio/webm"@ {
        Some(MediaFormat::Webm)
    } else {
        None
    }
}

/// Whether a file extension settles the format by itself; if it does, the
/// format is MP3.
pub open spec fn extension_is_mp3(extension: Option<Seq<char>>) -> bool {
    extension == Some("mp3"@)
}

/// The format of a file, given the MIME type that its first bytes reveal, if
/// any, and its extension, if any; or the reason why there is none.
pub open spec fn resolved_format(mime_type: Option<Seq<char>>, extension: Option<Seq<char>>)
    -> Result<MediaFormat, InputErrorModel> {
    match mime_type {
        Some(mime_type) => match format_of_mime(mime_type) {
            Some(format) => Ok(format),
            None => if extension_is_mp3(extension) {
                Ok(MediaFormat::Mp3)
            } else {
                Err(InputErrorModel::UnsupportedMediaFormat { mime_type })
            },
        },
        None => if extension_is_mp3(extension) {
            Ok(MediaFormat::Mp3)
        } else {
            Err(InputErrorModel::UndeterminedMediaFormat)
        },
    }
}

/// The mathematical value of the outcome of a resolution.
pub open spec fn format_outcome(outcome: Result<MediaFormat, InputError>) -> Result<
    MediaFormat,
    InputErrorModel,
> {
    match outcome {
        Ok(format) => Ok(format),
        Err(error) => Err(error@),
    }
}

/// The MIME type that `infer::get` finds for the first bytes of a file, or
/// `None` where it knows none.
pub uninterp spec fn sniffed_mime(head: Seq<u8>) -> Option<Seq<char>>;

/// The first bytes of a file as far as they are looked at.
pub open spec fn sniffed_part(content: Seq<u8>) -> Seq<u8> {
    if content.len() <= SNIFF_LIMIT {
        content
    } else {
        content.take(SNIFF_LIMIT as int)
    }
}

/// Calls `infer::get` on the first bytes of a file and takes the MIME type
/// of what it finds. The outcome is a function of the bytes alone. Longer
/// input than `SNIFF_LIMIT` is kept out: one of the matchers recurses once
/// for every eight bytes.
#[verifier::external_body]
fn sniff_mime(head: &[u8]) -> (mime_type: Option<&'static str>)
    requires
        head@.len() <= SNIFF_LIMIT,
    ensures
        optional_text(mime_type) == sniffed_mime(head@),
{
    match infer::get(head) {
        Some(kind) => Some(kind.mime_type()),
        None => None,
    }
}

impl MediaFormat {
    /// The format that a MIME type stands for.
    pub fn from_mime(mime_type: &str) -> (format: Option<MediaFormat>)
        ensures
            format == format_of_mime(mime_type@),
    {
        if str_eq(mime_type, "audio/amr") {
            Some(MediaFormat::Amr)
        } else if str_eq(mime_type, "audio/flac") {
            Some(MediaFormat::Flac)
        } else if str_eq(mime_type, "audio/m4a") {
            Some(MediaFormat::M4a)
        } else if str_eq(mime_type, "audio/mpeg") {
            Some(MediaFormat::Mp3)
        } else if str_eq(mime_type, "audio/mp4") || str_eq(mime_type, "video/mp4") {
            Some(MediaFormat::Mp4)
        } else if str_eq(mime_type, "audio/ogg") || str_eq(mime_type, "audio/opus") {
            Some(MediaFormat::Ogg)
        } else if str_eq(mime_type, "audio/wav") {
            Some(MediaFormat::Wav)
        } else if str_eq(mime_type, "audio/webm") {
            Some(MediaFormat::Webm)
        } else {
            None
        }
    }

    /// The name of the format, in lower case.
    pub open spec fn name_text(self) -> Seq<char> {
        match self {
            MediaFormat::Amr => "amr"@,
            MediaFormat::Flac => "flac"@,
            MediaFormat::M4a => "m4a"@,
            MediaFormat::Mp3 => "mp3"@,
            MediaFormat::Mp4 => "mp4"@,
            MediaFormat::Ogg => "ogg"@,
            MediaFormat::Wav => "wav"@,
            MediaFormat::Webm => "webm"@,
        }
    }

    /// The name that the transcription service knows the format by.
    pub fn as_str(&self) -> (name: &'static str)
        ensures
            name@ == self.name_text(),
    {
        match self {
            MediaFormat::Amr => "amr",
            MediaFormat::Flac => "flac",
            MediaFormat::M4a => "m4a",
            MediaFormat::Mp3 => "mp3",
            MediaFormat::Mp4 => "mp4",
            MediaFormat::Ogg => "ogg",
            MediaFormat::Wav => "wav",
            MediaFormat::Webm => "webm",
        }
    }
}

/// Whether a file extension is `mp3`.
fn is_mp3_extension(extension: Option<&str>) -> (result: bool)
    ensures
        result == extension_is_mp3(optional_text(extension)),
{
    match extension {
        Some(extension) => str_eq(extension, "mp3"),
        None => false,
    }
}

/// Settles the format of a file from the MIME type that was found for it, if
/// any, and from its extension, if it has one.
pub fn resolve_media_format(mime_type: Option<&str>, extension: Option<&str>) -> (outcome: Result<
    MediaFormat,
    InputError,
>)
    ensures
        format_outcome(outcome) == resolved_format(
            optional_text(mime_type),
            optional_text(extension),
        ),
{
    match mime_type {
        Some(mime_type) => match MediaFormat::from_mime(mime_type) {
            Some(format) => Ok(format),
            None => if is_mp3_extension(extension) {
                Ok(MediaFormat::Mp3)
            } else {
                Err(InputError::UnsupportedMediaFormat { mime_type: mime_type.to_owned() })
            },
        },
        None => if is_mp3_extension(extension) {
            Ok(MediaFormat::Mp3)
        } else {
            Err(InputError::UndeterminedMediaFormat)
        },
    }
}

/// Settles the format of a file from its content and its extension: the
/// first `SNIFF_LIMIT` bytes are searched for a known signature, and the
/// MIME type found decides.
pub fn detect_media_format(content: &[u8], extension: Option<&str>) -> (outcome: Result<
    MediaFormat,
    InputError,
>)
    ensures
        format_outcome(outcome) == resolved_format(
            sniffed_mime(sniffed_part(content@)),
            optional_text(extension),
        ),
{
    let head = if content.len() <= SNIFF_LIMIT {
        content
    } else {
        slice_subrange(content, 0, SNIFF_LIMIT)
    };
    assert(head@ =~= sniffed_part(content@));
    resolve_media_format(sniff_mime(head), extension)
}

} // verus!
