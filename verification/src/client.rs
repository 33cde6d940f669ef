use vstd::prelude::*;

use crate::bytes::{clone_bytes, slice_bytes};
use crate::common::{CommonError, CommonResult, ErrorKind};
use crate::handles::HandleLedger;
use crate::protocol::{
    client_login_outcome, opaque_client_login_finish, opaque_client_login_start,
    opaque_client_registration_finish, opaque_client_registration_start, CLIENT_LOGIN_STATE_LEN,
    CLIENT_REG_STATE_LEN, CRED_FINALIZATION_LEN, CRED_REQUEST_LEN, EXPORT_KEY_LEN, REG_REQUEST_LEN,
    REG_UPLOAD_LEN, SESSION_KEY_LEN,
};

verus! {

/// What registration start hands back: the handle under which the client
/// state is parked, and the registration request to send to the server.
#[derive(Debug)]
pub struct RegistrationStartResult {
    handle: u32,
    message: Vec<u8>,
}

impl RegistrationStartResult {
    /// The parked handle.
    pub closed spec fn spec_handle(&self) -> u32 {
        self.handle
    }

    /// The registration request bytes.
    pub closed spec fn spec_message(&self) -> Seq<u8> {
        self.message@
    }

    pub fn new(handle: u32, message: Vec<u8>) -> (r: Self)
        ensures
            r.spec_handle() == handle,
            r.spec_message() == message@,
    {
        RegistrationStartResult { handle, message }
    }

    pub fn handle(&self) -> (r: u32)
        ensures
            r == self.spec_handle(),
    {
        self.handle
    }

    pub fn message(&self) -> (r: Vec<u8>)
        ensures
            r@ == self.spec_message(),
    {
        clone_bytes(&self.message)
    }
}

/// What registration finish hands back: the upload (credential record) for
/// the server and the client's export key.
#[derive(Debug)]
pub struct RegistrationFinishResult {
    upload: Vec<u8>,
    export_key: Vec<u8>,
}

impl RegistrationFinishResult {
    /// The credential record to upload.
    pub closed spec fn spec_upload(&self) -> Seq<u8> {
        self.upload@
    }

    /// The export key.
    pub closed spec fn spec_export_key(&self) -> Seq<u8> {
        self.export_key@
    }

    pub fn new(upload: Vec<u8>, export_key: Vec<u8>) -> (r: Self)
        ensures
            r.spec_upload() == upload@,
            r.spec_export_key() == export_key@,
    {
        RegistrationFinishResult { upload, export_key }
    }

    pub fn upload(&self) -> (r: Vec<u8>)
        ensures
            r@ == self.spec_upload(),
    {
        clone_bytes(&self.upload)
    }

    pub fn export_key(&self) -> (r: Vec<u8>)
        ensures
            r@ == self.spec_export_key(),
    {
        clone_bytes(&self.export_key)
    }
}

/// What login start hands back: the handle under which the client state is
/// parked, and the credential request to send to the server.
#[derive(Debug)]
pub struct LoginStartResult {
    handle: u32,
    message: Vec<u8>,
}

impl LoginStartResult {
    /// The parked handle.
    pub closed spec fn spec_handle(&self) -> u32 {
        self.handle
    }

    /// The credential request bytes.
    pub closed spec fn spec_message(&self) -> Seq<u8> {
        self.message@
    }

    pub fn new(handle: u32, message: Vec<u8>) -> (r: Self)
        ensures
            r.spec_handle() == handle,
            r.spec_message() == message@,
    {
        LoginStartResult { handle, message }
    }

    pub fn handle(&self) -> (r: u32)
        ensures
            r == self.spec_handle(),
    {
        self.handle
    }

    pub fn message(&self) -> (r: Vec<u8>)
        ensures
            r@ == self.spec_message(),
    {
        clone_bytes(&self.message)
    }
}

/// What login finish hands back: the credential finalization for the server,
/// the export key that unlocks client-side data, and the transport session
/// key.
#[derive(Debug)]
pub struct LoginFinishResult {
    finalization: Vec<u8>,
    export_key: Vec<u8>,
    session_key: Vec<u8>,
}

impl LoginFinishResult {
    /// The credential finalization bytes.
    pub closed spec fn spec_finalization(&self) -> Seq<u8> {
        self.finalization@
    }

    /// The export key.
    pub closed spec fn spec_export_key(&self) -> Seq<u8> {
        self.export_key@
    }

    /// The session key.
    pub closed spec fn spec_session_key(&self) -> Seq<u8> {
        self.session_key@
    }

    pub fn new(finalization: Vec<u8>, export_key: Vec<u8>, session_key: Vec<u8>) -> (r: Self)
        ensures
            r.spec_finalization() == finalization@,
            r.spec_export_key() == export_key@,
            r.spec_session_key() == session_key@,
    {
        LoginFinishResult { finalization, export_key, session_key }
    }

    pub fn finalization(&self) -> (r: Vec<u8>)
        ensures
            r@ == self.spec_finalization(),
    {
        clone_bytes(&self.finalization)
    }

    pub fn export_key(&self) -> (r: Vec<u8>)
        ensures
            r@ == self.spec_export_key(),
    {
        clone_bytes(&self.export_key)
    }

    pub fn session_key(&self) -> (r: Vec<u8>)
        ensures
            r@ == self.spec_session_key(),
    {
        clone_bytes(&self.session_key)
    }
}

/// The handle a counter value allocates next: increment, wrapping, skipping
/// 0 so that 0 stays a "no handle" sentinel.
pub open spec fn next_handle_of(counter: u32) -> u32 {
    if counter == u32::MAX {
        1u32
    } else {
        (counter + 1) as u32
    }
}

/// The client engine: two ledgers of half-finished flows (registrations and
/// logins) keyed by single-use numeric handles, and the allocation counter.
/// One instance serves one execution context; embeddings that share it across
/// threads put it behind their own lock.
pub struct ClientLedger {
    next_handle: u32,
    registrations: HandleLedger,
    logins: HandleLedger,
}

impl ClientLedger {
    /// Both handle ledgers keep their handles unique.
    pub closed spec fn wf(&self) -> bool {
        &&& self.registrations.wf()
        &&& self.logins.wf()
    }

    /// The parked registration states by handle.
    pub closed spec fn registrations_map(&self) -> Map<u32, Seq<u8>> {
        self.registrations@
    }

    /// The parked login states by handle.
    pub closed spec fn logins_map(&self) -> Map<u32, Seq<u8>> {
        self.logins@
    }

    /// The allocation counter: the last handle handed out, 0 initially.
    pub closed spec fn counter(&self) -> u32 {
        self.next_handle
    }

    /// A fresh engine with no parked flows.
    pub fn new() -> (r: Self)
        ensures
            r.wf(),
            r.registrations_map() == Map::<u32, Seq<u8>>::empty(),
            r.logins_map() == Map::<u32, Seq<u8>>::empty(),
            r.counter() == 0,
    {
        ClientLedger {
            next_handle: 0,
            registrations: HandleLedger::new(),
            logins: HandleLedger::new(),
        }
    }

    /// Allocates the next handle: monotonic increment with wrap, skipping 0.
    fn next_handle(&mut self) -> (r: u32)
        ensures
            r != 0,
            r == next_handle_of(old(self).counter()),
            final(self).counter() == r,
            final(self).registrations_map() == old(self).registrations_map(),
            final(self).logins_map() == old(self).logins_map(),
            final(self).wf() == old(self).wf(),
    {
        let mut next = self.next_handle.wrapping_add(1);
        if next == 0 {
            next = 1;
        }
        self.next_handle = next;
        next
    }

    /// Starts a registration flow for a PIN: computes the blinded
    /// registration request and parks the client state under a fresh handle.
    pub fn start_registration(&mut self, pin: &[u8]) -> (r: CommonResult<RegistrationStartResult>)
        requires
            old(self).wf(),
        ensures
            final(self).wf(),
            final(self).logins_map() == old(self).logins_map(),
            r is Err ==> final(self).registrations_map() == old(self).registrations_map()
                && r->Err_0.kind == ErrorKind::ProtocolFailure,
            r is Ok ==> {
                &&& r->Ok_0.spec_handle() == next_handle_of(old(self).counter())
                &&& r->Ok_0.spec_handle() != 0
                &&& !old(self).registrations_map().contains_key(r->Ok_0.spec_handle())
                &&& exists|state: Seq<u8>|
                    state.len() == CLIENT_REG_STATE_LEN && final(self).registrations_map() == old(
                        self,
                    ).registrations_map().insert(r->Ok_0.spec_handle(), state)
                &&& r->Ok_0.spec_message().len() == REG_REQUEST_LEN
            },
    {
        let pin_bytes = slice_bytes(pin);
        let (state, message) = match opaque_client_registration_start(&pin_bytes) {
            Ok(pair) => pair,
            Err(msg) => {
                return Err(CommonError::new(ErrorKind::ProtocolFailure, msg.as_str()));
            },
        };
        let handle = self.next_handle();
        if self.registrations.contains(handle) {
            return Err(CommonError::new(ErrorKind::ProtocolFailure, "handle space exhausted"));
        }
        let ghost state_view = state@;
        self.registrations.insert(handle, state);
        Ok(RegistrationStartResult::new(handle, message))
    }

    /// Finishes a registration flow: consumes the handle (single-use, even
    /// on failure), unblinds the server's response, runs the key-stretching
    /// function and seals the envelope. Returns the upload for the server
    /// and the export key.
    pub fn finish_registration(&mut self, handle: u32, pin: &[u8], server_response: &[u8]) -> (r:
        CommonResult<RegistrationFinishResult>)
        requires
            old(self).wf(),
        ensures
            final(self).wf(),
            final(self).logins_map() == old(self).logins_map(),
            !old(self).registrations_map().contains_key(handle) ==> r is Err && r->Err_0.kind
                == ErrorKind::UnknownHandle && r->Err_0.msg@ == "unknown registration handle"@
                && final(self).registrations_map() == old(self).registrations_map(),
            old(self).registrations_map().contains_key(handle) ==> {
                &&& final(self).registrations_map() == old(self).registrations_map().remove(handle)
                &&& (r is Ok ==> r->Ok_0.spec_upload().len() == REG_UPLOAD_LEN
                    && r->Ok_0.spec_export_key().len() == EXPORT_KEY_LEN)
                &&& (r is Err ==> r->Err_0.kind == ErrorKind::ProtocolFailure)
            },
    {
        let state = match self.registrations.remove(handle) {
            Some(s) => s,
            None => {
                return Err(
                    CommonError::new(ErrorKind::UnknownHandle, "unknown registration handle"),
                );
            },
        };
        let pin_bytes = slice_bytes(pin);
        let response = slice_bytes(server_response);
        match opaque_client_registration_finish(&state, &pin_bytes, &response) {
            Ok((upload, export_key)) => Ok(RegistrationFinishResult::new(upload, export_key)),
            Err(msg) => Err(CommonError::new(ErrorKind::ProtocolFailure, msg.as_str())),
        }
    }

    /// Starts a login flow for a PIN: computes the credential request and
    /// parks the client state under a fresh handle.
    pub fn start_login(&mut self, pin: &[u8]) -> (r: CommonResult<LoginStartResult>)
        requires
            old(self).wf(),
        ensures
            final(self).wf(),
            final(self).registrations_map() == old(self).registrations_map(),
            r is Err ==> final(self).logins_map() == old(self).logins_map() && r->Err_0.kind
                == ErrorKind::ProtocolFailure,
            r is Ok ==> {
                &&& r->Ok_0.spec_handle() == next_handle_of(old(self).counter())
                &&& r->Ok_0.spec_handle() != 0
                &&& !old(self).logins_map().contains_key(r->Ok_0.spec_handle())
                &&& exists|state: Seq<u8>|
                    state.len() == CLIENT_LOGIN_STATE_LEN && final(self).logins_map() == old(
                        self,
                    ).logins_map().insert(r->Ok_0.spec_handle(), state)
                &&& r->Ok_0.spec_message().len() == CRED_REQUEST_LEN
            },
    {
        let pin_bytes = slice_bytes(pin);
        let (state, message) = match opaque_client_login_start(&pin_bytes) {
            Ok(pair) => pair,
            Err(msg) => {
                return Err(CommonError::new(ErrorKind::ProtocolFailure, msg.as_str()));
            },
        };
        let handle = self.next_handle();
        if self.logins.contains(handle) {
            return Err(CommonError::new(ErrorKind::ProtocolFailure, "handle space exhausted"));
        }
        let ghost state_view = state@;
        self.logins.insert(handle, state);
        Ok(LoginStartResult::new(handle, message))
    }

    /// Finishes a login flow: consumes the handle (single-use, even on
    /// failure) and unblinds the server's response. A wrong PIN, a response
    /// for a different account or a tampered flight all surface here, as the
    /// one failure the suite computes; a success is exactly the suite's
    /// outcome for the parked state, the PIN and the response.
    pub fn finish_login(&mut self, handle: u32, pin: &[u8], server_response: &[u8]) -> (r:
        CommonResult<LoginFinishResult>)
        requires
            old(self).wf(),
        ensures
            final(self).wf(),
            final(self).registrations_map() == old(self).registrations_map(),
            !old(self).logins_map().contains_key(handle) ==> r is Err && r->Err_0.kind
                == ErrorKind::UnknownHandle && r->Err_0.msg@ == "unknown login handle"@
                && final(self).logins_map() == old(self).logins_map(),
            old(self).logins_map().contains_key(handle) ==> {
                &&& final(self).logins_map() == old(self).logins_map().remove(handle)
                &&& (r is Ok <==> client_login_outcome(
                    old(self).logins_map()[handle],
                    pin@,
                    server_response@,
                ) is Some)
                &&& (r is Ok ==> {
                    let outcome = client_login_outcome(
                        old(self).logins_map()[handle],
                        pin@,
                        server_response@,
                    )->0;
                    &&& r->Ok_0.spec_finalization() == outcome.0
                    &&& r->Ok_0.spec_export_key() == outcome.1
                    &&& r->Ok_0.spec_session_key() == outcome.2
                    &&& r->Ok_0.spec_finalization().len() == CRED_FINALIZATION_LEN
                    &&& r->Ok_0.spec_export_key().len() == EXPORT_KEY_LEN
                    &&& r->Ok_0.spec_session_key().len() == SESSION_KEY_LEN
                })
                &&& (r is Err ==> r->Err_0.kind == ErrorKind::ProtocolFailure)
            },
    {
        let state = match self.logins.remove(handle) {
            Some(s) => s,
            None => {
                return Err(CommonError::new(ErrorKind::UnknownHandle, "unknown login handle"));
            },
        };
        let pin_bytes = slice_bytes(pin);
        let response = slice_bytes(server_response);
        match opaque_client_login_finish(&state, &pin_bytes, &response) {
            Ok((finalization, export_key, session_key)) => Ok(
                LoginFinishResult::new(finalization, export_key, session_key),
            ),
            Err(msg) => Err(CommonError::new(ErrorKind::ProtocolFailure, msg.as_str())),
        }
    }
}

/// Law: handles are single-use. After a finish consumes `h` — which every
/// finish does, succeed or fail — the ledger no longer contains `h`, so a
/// second finish with `h` meets its contract's unknown-handle clause.
pub proof fn lemma_handle_single_use(before: Map<u32, Seq<u8>>, after: Map<u32, Seq<u8>>, h: u32)
    requires
        after == before.remove(h),
    ensures
        !after.contains_key(h),
{
}

} // verus!
