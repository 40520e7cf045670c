//! The error type shared by every stage of the dictation pipeline.

use vstd::prelude::*;
use vstd::string::*;

verus! {

/// The six failure classes of the pipeline, plus plain I/O failures.
#[derive(Clone, Copy, Debug, PartialEq, Eq, Structural)]
pub enum ErrorKind {
    Audio,
    Api,
    Database,
    Keychain,
    Injection,
    Pipeline,
    Io,
}

/// A failure of one pipeline stage: its class and a human-readable detail.
#[derive(Debug)]
pub enum VoiceFlowError {
    /// Device or stream failure, or a failure of the container writer.
    Audio(String),
    /// Network or provider failure; the detail carries status and body.
    Api(String),
    /// Persistence failure.
    Database(String),
    /// Secure credential storage failure.
    Keychain(String),
    /// Clipboard or paste failure.
    Injection(String),
    /// Sequencing failure: no audio, missing credential, empty transcript.
    Pipeline(String),
    /// Failure of the operating system's I/O, held as its rendered text.
    Io(String),
}

/// The text that introduces the detail of an error of the given class.
pub open spec fn kind_prefix(kind: ErrorKind) -> Seq<char> {
    match kind {
        ErrorKind::Audio => "Audio error: "@,
        ErrorKind::Api => "API error: "@,
        ErrorKind::Database => "Database error: "@,
        ErrorKind::Keychain => "Keychain error: "@,
        ErrorKind::Injection => "Injection error: "@,
        ErrorKind::Pipeline => "Pipeline error: "@,
        ErrorKind::Io => "IO error: "@,
    }
}

impl VoiceFlowError {
    /// The class of this error.
    pub open spec fn spec_kind(&self) -> ErrorKind {
        match self {
            VoiceFlowError::Audio(_) => ErrorKind::Audio,
            VoiceFlowError::Api(_) => ErrorKind::Api,
            VoiceFlowError::Database(_) => ErrorKind::Database,
            VoiceFlowError::Keychain(_) => ErrorKind::Keychain,
            VoiceFlowError::Injection(_) => ErrorKind::Injection,
            VoiceFlowError::Pipeline(_) => ErrorKind::Pipeline,
            VoiceFlowError::Io(_) => ErrorKind::Io,
        }
    }

    /// The detail text of this error, without the class prefix.
    pub open spec fn detail(&self) -> Seq<char> {
        match self {
            VoiceFlowError::Audio(m) => m@,
            VoiceFlowError::Api(m) => m@,
            VoiceFlowError::Database(m) => m@,
            VoiceFlowError::Keychain(m) => m@,
            VoiceFlowError::Injection(m) => m@,
            VoiceFlowError::Pipeline(m) => m@,
            VoiceFlowError::Io(m) => m@,
        }
    }

    /// The message shown at the boundary: class prefix, then detail.
    pub open spec fn rendered(&self) -> Seq<char> {
        kind_prefix(self.spec_kind()) + self.detail()
    }

    /// The class of this error.
    #[verifier::when_used_as_spec(spec_kind)]
    pub fn kind(&self) -> (k: ErrorKind)
        ensures
            k == self.spec_kind(),
    {
        match self {
            VoiceFlowError::Audio(_) => ErrorKind::Audio,
            VoiceFlowError::Api(_) => ErrorKind::Api,
            VoiceFlowError::Database(_) => ErrorKind::Database,
            VoiceFlowError::Keychain(_) => ErrorKind::Keychain,
            VoiceFlowError::Injection(_) => ErrorKind::Injection,
            VoiceFlowError::Pipeline(_) => ErrorKind::Pipeline,
            VoiceFlowError::Io(_) => ErrorKind::Io,
        }
    }

    /// Renders the error as the human-readable string that crosses the
    /// boundary to the user interface.
    pub fn message(&self) -> (text: String)
        ensures
            text@ == self.rendered(),
    {
        let (prefix, detail) = match self {
            VoiceFlowError::Audio(m) => ("Audio error: ", m),
            VoiceFlowError::Api(m) => ("API error: ", m),
            VoiceFlowError::Database(m) => ("Database error: ", m),
            VoiceFlowError::Keychain(m) => ("Keychain error: ", m),
            VoiceFlowError::Injection(m) => ("Injection error: ", m),
            VoiceFlowError::Pipeline(m) => ("Pipeline error: ", m),
            VoiceFlowError::Io(m) => ("IO error: ", m),
        };
        let mut text = String::from_str(prefix);
        text.append(detail.as_str());
        text
    }

    /// Duplicates the error, class and detail alike.
    pub fn duplicate(&self) -> (copy: VoiceFlowError)
        ensures
            copy == *self,
    {
        match self {
            VoiceFlowError::Audio(m) => VoiceFlowError::Audio(m.clone()),
            VoiceFlowError::Api(m) => VoiceFlowError::Api(m.clone()),
            VoiceFlowError::Database(m) => VoiceFlowError::Database(m.clone()),
            VoiceFlowError::Keychain(m) => VoiceFlowError::Keychain(m.clone()),
            VoiceFlowError::Injection(m) => VoiceFlowError::Injection(m.clone()),
            VoiceFlowError::Pipeline(m) => VoiceFlowError::Pipeline(m.clone()),
            VoiceFlowError::Io(m) => VoiceFlowError::Io(m.clone()),
        }
    }
}

} // verus!
