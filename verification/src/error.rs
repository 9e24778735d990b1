use vstd::prelude::*;

verus! {

/// Errors returned by aire.
#[derive(Debug)]
pub enum AireError {
    /// The command buffer between the main thread and the audio thread is full.
    ///
    /// This typically means commands are being sent faster than the audio
    /// thread can process them. The buffer holds 256 commands by default.
    CommandBufferFull,
    /// Sound file extension is not supported (yet).
    FileExtNotSupported(String),
    /// This format does not support streaming; load the whole file instead.
    StreamingNotSupported(String),
}

/// The text that describes an error to a user.
pub open spec fn message_spec(e: AireError) -> Seq<char> {
    match e {
        AireError::CommandBufferFull => "command buffer full"@,
        AireError::FileExtNotSupported(ext) => "unsupported format: ."@ + ext@,
        AireError::StreamingNotSupported(ext) => "streaming not supported for ."@ + ext@
            + "; use FileSource::load()"@,
    }
}

impl AireError {
    /// The text that describes the error to a user.
    pub fn message(&self) -> (s: String)
        ensures
            s@ == message_spec(*self),
    {
        match self {
            AireError::CommandBufferFull => String::from_str("command buffer full"),
            AireError::FileExtNotSupported(ext) => {
                let mut s = String::from_str("unsupported format: .");
                s.append(ext.as_str());
                s
            },
            AireError::StreamingNotSupported(ext) => {
                let mut s = String::from_str("streaming not supported for .");
                s.append(ext.as_str());
                s.append("; use FileSource::load()");
                s
            },
        }
    }
}

} // verus!
