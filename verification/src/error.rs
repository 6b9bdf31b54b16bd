use vstd::prelude::*;

verus! {

/// The distinguishable failure kinds of a launch attempt. Every error is
/// terminal for the attempt that produced it; callers may branch on the kind.
/// Variants that wrap an operating-system error carry its rendered message.
#[derive(Debug, Clone, PartialEq, Eq)]
pub enum WebIntelError {
    /// No browser executable was found: either an explicitly supplied path
    /// was missing, or the platform candidate search was exhausted.
    BrowserNotFound,
    /// The profile directory could not be created, or no user cache root
    /// could be determined.
    ProfileCreationFailure(String),
    /// The browser process could not be spawned, or it exited before
    /// announcing its debugging endpoint.
    LaunchFailure(String),
    /// The deadline elapsed without a matching endpoint line on the
    /// diagnostic stream.
    WebSocketUrlNotFound,
    /// A general input/output failure.
    Io(String),
    /// The diagnostic stream was unavailable immediately after spawn.
    OutputReadFailure,
}

impl WebIntelError {
    /// A human-readable rendering of the error kind, one fixed sentence per
    /// variant, with the wrapped operating-system message appended where one
    /// is carried.
    pub fn message(&self) -> (r: String)
        ensures
            r@ == self.spec_message(),
    {
        match self {
            WebIntelError::BrowserNotFound => String::from_str(
                "Browser executable not found. Please specify a path or ensure Chrome/Edge is installed.",
            ),
            WebIntelError::ProfileCreationFailure(m) => String::from_str(
                "Failed to create profile directory: ",
            ).concat(m.as_str()),
            WebIntelError::LaunchFailure(m) => String::from_str(
                "Failed to launch browser process: ",
            ).concat(m.as_str()),
            WebIntelError::WebSocketUrlNotFound => String::from_str(
                "Failed to capture WebSocket URL from browser output.",
            ),
            WebIntelError::Io(m) => String::from_str("IO Error: ").concat(m.as_str()),
            WebIntelError::OutputReadFailure => String::from_str(
                "Failed to read browser output.",
            ),
        }
    }

    /// What `message` returns, variant by variant.
    pub open spec fn spec_message(self) -> Seq<char> {
        match self {
            WebIntelError::BrowserNotFound => "Browser executable not found. Please specify a path or ensure Chrome/Edge is installed."@,
            WebIntelError::ProfileCreationFailure(m) => "Failed to create profile directory: "@ + m@,
            WebIntelError::LaunchFailure(m) => "Failed to launch browser process: "@ + m@,
            WebIntelError::WebSocketUrlNotFound => "Failed to capture WebSocket URL from browser output."@,
            WebIntelError::Io(m) => "IO Error: "@ + m@,
            WebIntelError::OutputReadFailure => "Failed to read browser output."@,
        }
    }
}

} // verus!
