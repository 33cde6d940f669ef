use vstd::prelude::*;

verus! {

/// Length in bytes of the nonce that prefixes every AEAD payload.
pub const NONCE_LEN: usize = 12;

/// Length in bytes of the AES-256 key derived from an export key.
pub const AES_KEY_LEN: usize = 32;

/// Abstract classification of every error the library can surface.
#[derive(Clone, Copy, Debug, PartialEq, Eq, Structural)]
pub enum ErrorKind {
    /// An empty byte slice where content is required, a session id that is
    /// not UTF-8, or an AEAD payload shorter than its nonce.
    InvalidInput,
    /// A client handle that is not (or no longer) in the handle ledger.
    UnknownHandle,
    /// A session id that is not (or no longer) in the session ledger.
    UnknownSession,
    /// A session whose time-to-live had elapsed before it was finished.
    Expired,
    /// A failure inside the PAKE suite: malformed message, wrong PIN,
    /// or a tampered key-exchange transcript.
    ProtocolFailure,
    /// An AEAD authentication failure.
    CryptoFailure,
}

/// The error type every fallible operation of this library returns.
#[derive(Debug)]
pub struct CommonError {
    pub kind: ErrorKind,
    pub msg: String,
}

impl CommonError {
    pub fn new(kind: ErrorKind, msg: &str) -> (r: Self)
        ensures
            r.kind == kind,
            r.msg@ == msg@,
    {
        CommonError { kind, msg: msg.to_owned() }
    }

    pub fn kind(&self) -> (r: ErrorKind)
        ensures
            r == self.kind,
    {
        self.kind
    }

    pub fn message(&self) -> (r: &str)
        ensures
            r@ == self.msg@,
    {
        self.msg.as_str()
    }
}

pub type CommonResult<T> = Result<T, CommonError>;

} // verus!
