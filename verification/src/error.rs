use vstd::prelude::*;

verus! {

/// Why a capture failed.
#[derive(Clone, Copy, Debug, PartialEq, Eq, Structural)]
pub enum CaptureError {
    /// The windowing system has no screen at the connection's default index.
    ScreenNotFound,
    /// A round trip with the windowing system failed.
    ProtocolError,
    /// The shell's own screenshot service did not answer.
    RemoteServiceUnavailable,
    /// The portal refused the screenshot request itself.
    RequestRejected,
    /// The portal answered with a status other than success.
    UserCancelled,
    /// The portal did not answer within the waiting bound.
    Timeout,
    /// The screenshot file is not a well-formed image.
    DecodeError,
    /// A file could not be named, read or removed.
    IoError,
    /// The session bus could not be reached.
    BusConnectionFailed,
}

impl CaptureError {
    /// What went wrong, in a few words.
    pub open spec fn message_text(self) -> Seq<char> {
        match self {
            CaptureError::ScreenNotFound => "Not found screen"@,
            CaptureError::ProtocolError => "Request to the windowing system failed"@,
            CaptureError::RemoteServiceUnavailable => "Screenshot service of the shell is unavailable"@,
            CaptureError::RequestRejected => "Screenshot request was rejected"@,
            CaptureError::UserCancelled => "Screenshot failed or canceled"@,
            CaptureError::Timeout => "Screenshot request timed out"@,
            CaptureError::DecodeError => "Screenshot file is malformed"@,
            CaptureError::IoError => "Screenshot file is not accessible"@,
            CaptureError::BusConnectionFailed => "Connection to the session bus failed"@,
        }
    }

    /// What went wrong, in a few words.
    pub fn message(&self) -> (text: &'static str)
        ensures
            text@ == self.message_text(),
    {
        match self {
            CaptureError::ScreenNotFound => "Not found screen",
            CaptureError::ProtocolError => "Request to the windowing system failed",
            CaptureError::RemoteServiceUnavailable => "Screenshot service of the shell is unavailable",
            CaptureError::RequestRejected => "Screenshot request was rejected",
            CaptureError::UserCancelled => "Screenshot failed or canceled",
            CaptureError::Timeout => "Screenshot request timed out",
            CaptureError::DecodeError => "Screenshot file is malformed",
            CaptureError::IoError => "Screenshot file is not accessible",
            CaptureError::BusConnectionFailed => "Connection to the session bus failed",
        }
    }
}

} // verus!
