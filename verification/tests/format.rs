use aire::error::AireError;
use aire::format::{load_format, stream_format, FileFormat};

#[test]
fn load_formats_ignore_case() {
    assert_eq!(load_format("WAV").unwrap(), FileFormat::Wav);
    assert_eq!(load_format("Ogg").unwrap(), FileFormat::Ogg);
    assert_eq!(load_format("flac").unwrap(), FileFormat::Flac);
}

#[test]
fn unknown_extension_is_reported_in_lowercase() {
    match load_format("MP3") {
        Err(AireError::FileExtNotSupported(ext)) => assert_eq!(ext, "mp3"),
        other => panic!("unexpected {:?}", other),
    }
    match load_format("") {
        Err(AireError::FileExtNotSupported(ext)) => assert_eq!(ext, ""),
        other => panic!("unexpected {:?}", other),
    }
}

#[test]
fn streaming_formats() {
    assert_eq!(stream_format("wav").unwrap(), FileFormat::Wav);
    assert_eq!(stream_format("OGG").unwrap(), FileFormat::Ogg);
    match stream_format("FLAC") {
        Err(AireError::StreamingNotSupported(ext)) => assert_eq!(ext, "flac"),
        other => panic!("unexpected {:?}", other),
    }
    match stream_format("mp3") {
        Err(AireError::StreamingNotSupported(ext)) => assert_eq!(ext, "mp3"),
        other => panic!("unexpected {:?}", other),
    }
    match stream_format("txt") {
        Err(AireError::FileExtNotSupported(ext)) => assert_eq!(ext, "txt"),
        other => panic!("unexpected {:?}", other),
    }
}

#[test]
fn error_messages() {
    assert_eq!(AireError::CommandBufferFull.message(), "command buffer full");
    assert_eq!(
        AireError::FileExtNotSupported(String::from("mp3")).message(),
        "unsupported format: .mp3"
    );
    assert_eq!(
        AireError::StreamingNotSupported(String::from("flac")).message(),
        "streaming not supported for .flac; use FileSource::load()"
    );
}
