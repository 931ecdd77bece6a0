//! The error taxonomy of the relay threads and its mapping to I/O errors.
use vstd::prelude::*;

verus! {

#[verifier::external_type_specification]
#[verifier::external_body]
pub struct ExErrorKind(std::io::ErrorKind);

#[verifier::external_type_specification]
#[verifier::external_body]
pub struct ExRecvError(tokio::sync::oneshot::error::RecvError);

/// An I/O error of the device or of the pipe, kept as its kind and its
/// description.
#[derive(Debug)]
pub struct DeviceError {
    pub kind: std::io::ErrorKind,
    pub message: String,
}

/// Why a relay thread ended. A relay loop has no successful end, so its
/// outcome is always one of these.
#[derive(Debug)]
pub enum Error {
    /// The device or the pipe failed.
    Io(DeviceError),
    /// The termination channel closed without a value: the thread panicked.
    OneshotRecv(tokio::sync::oneshot::error::RecvError),
    /// The facade's side of the pipe was closed: the writer ends normally.
    SenderClosed,
}

/// Kind of an error reported by the facade.
#[derive(Debug)]
pub enum ReportKind {
    /// The kind of a device or pipe error, passed through unchanged.
    Device(std::io::ErrorKind),
    /// A generic I/O error (`ErrorKind::Other`).
    Other,
}

/// An I/O error as the facade reports it: a kind and a description.
#[derive(Debug)]
pub struct IoReport {
    pub kind: ReportKind,
    pub message: String,
}

/// Text of the generic error for a relay thread that vanished.
pub open spec fn panicked_text() -> Seq<char> {
    "sending thread paniced channel closed"@
}

/// Text of the generic error for a closed pipe.
pub open spec fn sender_closed_text() -> Seq<char> {
    "sending channel closed"@
}

/// `rep` is the I/O error that the facade reports for `e`: a device error
/// passes through with its kind and text, anything else becomes a generic
/// error with a fixed description.
pub open spec fn reports(rep: IoReport, e: Error) -> bool {
    match e {
        Error::Io(d) => rep.kind == ReportKind::Device(d.kind) && rep.message@ == d.message@,
        Error::OneshotRecv(_) => rep.kind == ReportKind::Other && rep.message@ == panicked_text(),
        Error::SenderClosed => rep.kind == ReportKind::Other && rep.message@ == sender_closed_text(),
    }
}

/// Relies on tokio's `Display` for `oneshot::error::RecvError`, which writes
/// the fixed text "channel closed".
#[verifier::external_body]
fn recv_error_text(e: &tokio::sync::oneshot::error::RecvError) -> (r: String)
    ensures
        r@ == "channel closed"@,
{
    e.to_string()
}

impl Error {
    /// The I/O error that the facade reports for this failure.
    pub fn report(&self) -> (r: IoReport)
        ensures
            reports(r, *self),
    {
        match self {
            Error::Io(d) => IoReport { kind: ReportKind::Device(d.kind), message: d.message.clone() },
            Error::OneshotRecv(e) => {
                let text = recv_error_text(e);
                let message = "sending thread paniced ".to_string().concat(text.as_str());
                proof {
                    reveal_strlit("sending thread paniced ");
                    reveal_strlit("channel closed");
                    reveal_strlit("sending thread paniced channel closed");
                    assert(message@ =~= panicked_text());
                }
                IoReport { kind: ReportKind::Other, message }
            },
            Error::SenderClosed => IoReport {
                kind: ReportKind::Other,
                message: "sending channel closed".to_string(),
            },
        }
    }
}

/// Convert a relay thread's outcome to the I/O error the facade reports.
pub fn to_std_io(res: Error) -> (r: IoReport)
    ensures
        reports(r, res),
{
    res.report()
}

/// Merge a termination channel's outcome into one result: a channel closed
/// without a value becomes `Error::OneshotRecv`.
pub fn flatten(full: Result<Error, tokio::sync::oneshot::error::RecvError>) -> (r: Error)
    ensures
        match full {
            Ok(inner) => r == inner,
            Err(e) => r == Error::OneshotRecv(e),
        },
{
    match full {
        Ok(res) => res,
        Err(e) => Error::OneshotRecv(e),
    }
}

} // verus!
