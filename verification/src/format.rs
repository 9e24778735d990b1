//! Which audio file formats can be loaded and which can be streamed,
//! decided by the file's extension.
use vstd::prelude::*;

use crate::error::AireError;

verus! {

/// An audio file format that can be decoded.
#[derive(Clone, Copy, Debug, PartialEq, Eq, Structural)]
pub enum FileFormat {
    Wav,
    Ogg,
    Flac,
}

/// The lowercase form of a string, as `str::to_lowercase` computes it.
pub uninterp spec fn lowercase(s: Seq<char>) -> Seq<char>;

/// Calls `str::to_lowercase`. Its result is named `lowercase` of the
/// argument; nothing more is claimed about the Unicode case mapping.
#[verifier::external_body]
fn to_lowercase(s: &str) -> (r: String)
    ensures
        r@ == lowercase(s@),
{
    s.to_lowercase()
}

/// The format that a whole file with (lowercase) extension `ext` is loaded
/// as, if any.
pub open spec fn load_format_spec(ext: Seq<char>) -> Option<FileFormat> {
    if ext == "wav"@ {
        Some(FileFormat::Wav)
    } else if ext == "ogg"@ {
        Some(FileFormat::Ogg)
    } else if ext == "flac"@ {
        Some(FileFormat::Flac)
    } else {
        None
    }
}

/// The format that a file with (lowercase) extension `ext` is streamed as,
/// if any.
pub open spec fn stream_format_spec(ext: Seq<char>) -> Option<FileFormat> {
    if ext == "wav"@ {
        Some(FileFormat::Wav)
    } else if ext == "ogg"@ {
        Some(FileFormat::Ogg)
    } else {
        None
    }
}

/// Formats that are known but can only be loaded whole.
pub open spec fn not_streamable_spec(ext: Seq<char>) -> bool {
    ext == "flac"@ || ext == "mp3"@
}

/// Decides the format of a whole-file load from a lowercase extension.
pub fn load_format_of(ext: String) -> (r: Result<FileFormat, AireError>)
    ensures
        match load_format_spec(ext@) {
            Some(f) => r == Ok::<FileFormat, AireError>(f),
            None => r matches Err(AireError::FileExtNotSupported(e)) && e@ == ext@,
        },
{
    if ext == String::from_str("wav") {
        Ok(FileFormat::Wav)
    } else if ext == String::from_str("ogg") {
        Ok(FileFormat::Ogg)
    } else if ext == String::from_str("flac") {
        Ok(FileFormat::Flac)
    } else {
        Err(AireError::FileExtNotSupported(ext))
    }
}

/// Decides the format of a streamed file from a lowercase extension.
pub fn stream_format_of(ext: String) -> (r: Result<FileFormat, AireError>)
    ensures
        match stream_format_spec(ext@) {
            Some(f) => r == Ok::<FileFormat, AireError>(f),
            None => if not_streamable_spec(ext@) {
                r matches Err(AireError::StreamingNotSupported(e)) && e@ == ext@
            } else {
                r matches Err(AireError::FileExtNotSupported(e)) && e@ == ext@
            },
        },
{
    if ext == String::from_str("wav") {
        Ok(FileFormat::Wav)
    } else if ext == String::from_str("ogg") {
        Ok(FileFormat::Ogg)
    } else if ext == String::from_str("flac") || ext == String::from_str("mp3") {
        Err(AireError::StreamingNotSupported(ext))
    } else {
        Err(AireError::FileExtNotSupported(ext))
    }
}

/// The format of a file with extension `ext` (in any case), for loading it
/// whole. Supports `wav`, `ogg` and `flac`.
pub fn load_format(ext: &str) -> (r: Result<FileFormat, AireError>)
    ensures
        match load_format_spec(lowercase(ext@)) {
            Some(f) => r == Ok::<FileFormat, AireError>(f),
            None => r matches Err(AireError::FileExtNotSupported(e)) && e@ == lowercase(ext@),
        },
{
    load_format_of(to_lowercase(ext))
}

/// The format of a file with extension `ext` (in any case), for streaming
/// it. Supports `wav` and `ogg`; `flac` and `mp3` can only be loaded whole.
pub fn stream_format(ext: &str) -> (r: Result<FileFormat, AireError>)
    ensures
        match stream_format_spec(lowercase(ext@)) {
            Some(f) => r == Ok::<FileFormat, AireError>(f),
            None => if not_streamable_spec(lowercase(ext@)) {
                r matches Err(AireError::StreamingNotSupported(e)) && e@ == lowercase(ext@)
            } else {
                r matches Err(AireError::FileExtNotSupported(e)) && e@ == lowercase(ext@)
            },
        },
{
    stream_format_of(to_lowercase(ext))
}

/// Every format that can be streamed can also be loaded whole, as the same
/// format.
pub proof fn law_streamable_is_loadable(ext: Seq<char>)
    requires
        stream_format_spec(ext) is Some,
    ensures
        load_format_spec(ext) == stream_format_spec(ext),
{
}

} // verus!
