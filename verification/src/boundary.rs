use vstd::prelude::*;

use crate::client::{LoginFinishResult, LoginStartResult, RegistrationFinishResult, RegistrationStartResult};
use crate::hexcode::string_bytes;

verus! {

/// An owned byte buffer handed across the library boundary. The embedding
/// turns it into whatever its host interface requires.
pub struct SafexOpaqueBuffer {
    pub data: Vec<u8>,
}

impl SafexOpaqueBuffer {
    pub fn new(data: Vec<u8>) -> (r: Self)
        ensures
            r.data@ == data@,
    {
        SafexOpaqueBuffer { data }
    }
}

/// What the server's login start hands across the boundary: the session id
/// (UTF-8 bytes of its hexadecimal form) and the credential response.
pub struct SafexOpaqueLoginStart {
    pub session_id: SafexOpaqueBuffer,
    pub response: SafexOpaqueBuffer,
}

impl SafexOpaqueLoginStart {
    pub fn new(session_id: String, response: Vec<u8>) -> (r: Self)
        ensures
            r.session_id.data@ == vstd::utf8::encode_utf8(session_id@),
            r.response.data@ == response@,
    {
        let sid = string_bytes(&session_id);
        SafexOpaqueLoginStart {
            session_id: SafexOpaqueBuffer::new(sid),
            response: SafexOpaqueBuffer::new(response),
        }
    }
}

/// What a client start hands across the boundary: the parked handle and the
/// flight to send to the server.
pub struct SafexOpaqueClientStart {
    pub handle: u32,
    pub message: SafexOpaqueBuffer,
}

impl SafexOpaqueClientStart {
    pub fn from_registration(r0: &RegistrationStartResult) -> (r: Self)
        ensures
            r.handle == r0.spec_handle(),
            r.message.data@ == r0.spec_message(),
    {
        SafexOpaqueClientStart {
            handle: r0.handle(),
            message: SafexOpaqueBuffer::new(r0.message()),
        }
    }

    pub fn from_login(r0: &LoginStartResult) -> (r: Self)
        ensures
            r.handle == r0.spec_handle(),
            r.message.data@ == r0.spec_message(),
    {
        SafexOpaqueClientStart { handle: r0.handle(), message: SafexOpaqueBuffer::new(r0.message()) }
    }
}

/// What the client's registration finish hands across the boundary: the
/// credential record to upload and the export key.
pub struct SafexOpaqueRegistrationFinish {
    pub upload: SafexOpaqueBuffer,
    pub export_key: SafexOpaqueBuffer,
}

impl SafexOpaqueRegistrationFinish {
    pub fn from_result(r0: &RegistrationFinishResult) -> (r: Self)
        ensures
            r.upload.data@ == r0.spec_upload(),
            r.export_key.data@ == r0.spec_export_key(),
    {
        SafexOpaqueRegistrationFinish {
            upload: SafexOpaqueBuffer::new(r0.upload()),
            export_key: SafexOpaqueBuffer::new(r0.export_key()),
        }
    }
}

/// What the client's login finish hands across the boundary: the credential
/// finalization, the export key and the session key.
pub struct SafexOpaqueLoginFinish {
    pub finalization: SafexOpaqueBuffer,
    pub export_key: SafexOpaqueBuffer,
    pub session_key: SafexOpaqueBuffer,
}

impl SafexOpaqueLoginFinish {
    pub fn from_result(r0: &LoginFinishResult) -> (r: Self)
        ensures
            r.finalization.data@ == r0.spec_finalization(),
            r.export_key.data@ == r0.spec_export_key(),
            r.session_key.data@ == r0.spec_session_key(),
    {
        SafexOpaqueLoginFinish {
            finalization: SafexOpaqueBuffer::new(r0.finalization()),
            export_key: SafexOpaqueBuffer::new(r0.export_key()),
            session_key: SafexOpaqueBuffer::new(r0.session_key()),
        }
    }
}

} // verus!
