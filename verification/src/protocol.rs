use opaque_ke::{
    ClientLogin, ClientLoginFinishParameters, ClientRegistration,
    ClientRegistrationFinishParameters, CredentialFinalization, CredentialRequest,
    CredentialResponse, Identifiers, RegistrationRequest, RegistrationResponse, RegistrationUpload,
    ServerLogin, ServerLoginStartParameters, ServerRegistration, ServerSetup,
};
use rand::rngs::OsRng;
use vstd::prelude::*;

use crate::scalar::is_valid_scalar;
use crate::suite::SafexCipherSuite as Cs;

verus! {

/// Serialized length of a registration request (the blinded OPRF element).
pub const REG_REQUEST_LEN: usize = 32;

/// Serialized length of a registration response (evaluated element and
/// server public key).
pub const REG_RESPONSE_LEN: usize = 64;

/// Serialized length of a registration upload, the credential record the
/// server stores (client public key, masking key and envelope).
pub const REG_UPLOAD_LEN: usize = 192;

/// Serialized length of a credential request (the login KE1 flight).
pub const CRED_REQUEST_LEN: usize = 96;

/// Serialized length of a credential response (the login KE2 flight).
pub const CRED_RESPONSE_LEN: usize = 320;

/// Serialized length of a credential finalization (the login KE3 flight).
pub const CRED_FINALIZATION_LEN: usize = 64;

/// Serialized length of a parked client registration state.
pub const CLIENT_REG_STATE_LEN: usize = 64;

/// Serialized length of a parked client login state.
pub const CLIENT_LOGIN_STATE_LEN: usize = 192;

/// Serialized length of a parked server login state.
pub const SERVER_LOGIN_STATE_LEN: usize = 192;

/// Length of the export key the envelope derives (the suite hashes with
/// SHA-512).
pub const EXPORT_KEY_LEN: usize = 64;

/// Length of the session key both parties agree on.
pub const SESSION_KEY_LEN: usize = 64;

/// Length of the OPRF seed the server setup carries.
pub const OPRF_SEED_LEN: usize = 64;

/// Serialized length of a server setup: the OPRF seed followed by the
/// server's private key and the fake private key.
pub const SERVER_SETUP_LEN: usize = 128;

/// The registration response the suite computes from a serialized server
/// setup, a credential identifier and a serialized registration request, or
/// nothing where one of them is rejected. No randomness enters this step, so
/// the outcome is a function of the three inputs.
pub uninterp spec fn reg_response_of(setup: Seq<u8>, secret_id: Seq<u8>, request: Seq<u8>) -> Option<
    Seq<u8>,
>;

/// Whether RegistrationUpload::deserialize accepts a serialized credential
/// record. Deterministic: a record that does not deserialize is a hard
/// reject, never a fake-record response.
pub uninterp spec fn is_upload(bytes: Seq<u8>) -> bool;

/// Whether the server login start accepts its four inputs: the serialized
/// setup, the credential record, the credential request and the account
/// identifier. The randomness drawn inside feeds only the masking nonce and
/// the ephemeral key, never the outcome, so acceptance is a function of the
/// inputs alone.
pub uninterp spec fn server_start_accepts(
    setup: Seq<u8>,
    record: Seq<u8>,
    request: Seq<u8>,
    secret_id: Seq<u8>,
) -> bool;

/// Whether the suite accepts a serialized credential finalization against a
/// parked server login state. No randomness enters this step.
pub uninterp spec fn ke3_accepted(state: Seq<u8>, finalization: Seq<u8>) -> bool;

/// What the client login finish computes from a parked client login state,
/// a PIN and a serialized credential response: the finalization to send, the
/// export key and the session key — or nothing where unblinding or envelope
/// opening fails (the signature of a wrong PIN). No randomness enters this
/// step.
pub uninterp spec fn client_login_outcome(state: Seq<u8>, pin: Seq<u8>, response: Seq<u8>) -> Option<
    (Seq<u8>, Seq<u8>, Seq<u8>),
>;

/// Relies on opaque_ke::ServerSetup::deserialize: it accepts exactly a
/// 128-byte input whose trailing two 32-byte parts are valid private keys of
/// the key-exchange group (the leading 64 bytes, the OPRF seed, are
/// unconstrained).
#[verifier::external_body]
pub(crate) fn validate_server_setup(bytes: &Vec<u8>) -> (r: bool)
    ensures
        r <==> (bytes@.len() == SERVER_SETUP_LEN && is_valid_scalar(
            bytes@.subrange(64, 96),
        ) && is_valid_scalar(bytes@.subrange(96, 128))),
{
    ServerSetup::<Cs>::deserialize(bytes.as_slice()).is_ok()
}

/// Relies on ServerRegistration::start, with ServerSetup and
/// RegistrationRequest deserialization at the edges: no randomness is drawn,
/// so the outcome is a function of the inputs; a produced response
/// serializes to 64 bytes.
#[verifier::external_body]
pub(crate) fn opaque_registration_response(
    setup: &Vec<u8>,
    secret_id: &Vec<u8>,
    request: &Vec<u8>,
) -> (r: Result<Vec<u8>, String>)
    ensures
        r is Ok <==> reg_response_of(setup@, secret_id@, request@) is Some,
        r is Ok ==> r->Ok_0@ == reg_response_of(setup@, secret_id@, request@)->0
            && r->Ok_0@.len() == REG_RESPONSE_LEN,
{
    let setup = ServerSetup::<Cs>::deserialize(setup.as_slice()).map_err(|e| e.to_string())?;
    let request = RegistrationRequest::<Cs>::deserialize(request.as_slice())
        .map_err(|e| e.to_string())?;
    let response = ServerRegistration::start(&setup, request, secret_id.as_slice())
        .map_err(|e| e.to_string())?;
    Ok(response.message.serialize().to_vec())
}

/// Relies on opaque_ke::ServerLogin::start, with ServerSetup,
/// RegistrationUpload and CredentialRequest deserialization at the edges.
/// The randomness drawn feeds only the masking nonce and the ephemeral key
/// (the group's keypair sampler and Diffie-Hellman are infallible), so
/// acceptance is deterministic in the inputs; a success carries a 192-byte
/// parked state and a 320-byte credential response, and presupposes that the
/// record deserialized.
#[verifier::external_body]
pub(crate) fn opaque_server_login_start(
    setup: &Vec<u8>,
    record: &Vec<u8>,
    request: &Vec<u8>,
    secret_id: &Vec<u8>,
) -> (r: Result<(Vec<u8>, Vec<u8>), String>)
    ensures
        r is Ok <==> server_start_accepts(setup@, record@, request@, secret_id@),
        r is Ok ==> is_upload(record@),
        !is_upload(record@) ==> r is Err,
        r is Ok ==> (r->Ok_0).0@.len() == SERVER_LOGIN_STATE_LEN && (r->Ok_0).1@.len()
            == CRED_RESPONSE_LEN,
{
    let setup = ServerSetup::<Cs>::deserialize(setup.as_slice()).map_err(|e| e.to_string())?;
    let upload = RegistrationUpload::<Cs>::deserialize(record.as_slice())
        .map_err(|e| e.to_string())?;
    let record = ServerRegistration::finish(upload);
    let request = CredentialRequest::<Cs>::deserialize(request.as_slice())
        .map_err(|e| e.to_string())?;
    let params = ServerLoginStartParameters::default();
    let start = ServerLogin::start(&mut OsRng, &setup, Some(record), request, secret_id.as_slice(), params)
        .map_err(|e| e.to_string())?;
    Ok((start.state.serialize().to_vec(), start.message.serialize().to_vec()))
}

/// Relies on opaque_ke::ServerLogin::finish, with ServerLogin and
/// CredentialFinalization deserialization at the edges: no randomness is
/// drawn, so acceptance is a predicate of the parked state and the
/// finalization alone.
#[verifier::external_body]
pub(crate) fn opaque_server_login_finish(state: &Vec<u8>, finalization: &Vec<u8>) -> (r: Result<
    (),
    String,
>)
    ensures
        r is Ok <==> ke3_accepted(state@, finalization@),
{
    let state = ServerLogin::<Cs>::deserialize(state.as_slice()).map_err(|e| e.to_string())?;
    let fin = CredentialFinalization::<Cs>::deserialize(finalization.as_slice())
        .map_err(|e| e.to_string())?;
    state.finish(fin).map(|_| ()).map_err(|e| e.to_string())
}

/// Relies on opaque_ke::ClientRegistration::start: a random blinding factor
/// enters both outputs, so only the shape of a success is stated — a 64-byte
/// parked state and a 32-byte registration request.
#[verifier::external_body]
pub(crate) fn opaque_client_registration_start(pin: &Vec<u8>) -> (r: Result<
    (Vec<u8>, Vec<u8>),
    String,
>)
    ensures
        r is Ok ==> (r->Ok_0).0@.len() == CLIENT_REG_STATE_LEN && (r->Ok_0).1@.len()
            == REG_REQUEST_LEN,
{
    let start = ClientRegistration::<Cs>::start(&mut OsRng, pin.as_slice())
        .map_err(|e| e.to_string())?;
    Ok((start.state.serialize().to_vec(), start.message.serialize().to_vec()))
}

/// Relies on opaque_ke::ClientRegistration::finish with default identifiers
/// and Argon2 (default parameters) as the key-stretching function, with
/// state and RegistrationResponse deserialization at the edges: a random
/// envelope nonce enters the upload, so only the shape of a success is
/// stated — a 192-byte upload and a 64-byte export key.
#[verifier::external_body]
pub(crate) fn opaque_client_registration_finish(
    state: &Vec<u8>,
    pin: &Vec<u8>,
    response: &Vec<u8>,
) -> (r: Result<(Vec<u8>, Vec<u8>), String>)
    ensures
        r is Ok ==> (r->Ok_0).0@.len() == REG_UPLOAD_LEN && (r->Ok_0).1@.len() == EXPORT_KEY_LEN,
{
    let state = ClientRegistration::<Cs>::deserialize(state.as_slice())
        .map_err(|e| e.to_string())?;
    let response = RegistrationResponse::<Cs>::deserialize(response.as_slice())
        .map_err(|e| e.to_string())?;
    let ksf = argon2::Argon2::default();
    let params = ClientRegistrationFinishParameters::new(Identifiers::default(), Some(&ksf));
    let finish = state.finish(&mut OsRng, pin.as_slice(), response, params)
        .map_err(|e| e.to_string())?;
    Ok((finish.message.serialize().to_vec(), finish.export_key.to_vec()))
}

/// Relies on opaque_ke::ClientLogin::start: a random blinding factor and an
/// ephemeral key enter both outputs, so only the shape of a success is
/// stated — a 192-byte parked state and a 96-byte credential request.
#[verifier::external_body]
pub(crate) fn opaque_client_login_start(pin: &Vec<u8>) -> (r: Result<(Vec<u8>, Vec<u8>), String>)
    ensures
        r is Ok ==> (r->Ok_0).0@.len() == CLIENT_LOGIN_STATE_LEN && (r->Ok_0).1@.len()
            == CRED_REQUEST_LEN,
{
    let start = ClientLogin::<Cs>::start(&mut OsRng, pin.as_slice()).map_err(|e| e.to_string())?;
    Ok((start.state.serialize().to_vec(), start.message.serialize().to_vec()))
}

/// Relies on opaque_ke::ClientLogin::finish with default identifiers and
/// Argon2 (default parameters) as the key-stretching function, with state
/// and CredentialResponse deserialization at the edges: no randomness is
/// drawn, so the outcome — the 64-byte finalization, 64-byte export key and
/// 64-byte session key, or the failure that signals a wrong PIN — is a
/// function of the inputs.
#[verifier::external_body]
pub(crate) fn opaque_client_login_finish(
    state: &Vec<u8>,
    pin: &Vec<u8>,
    response: &Vec<u8>,
) -> (r: Result<(Vec<u8>, Vec<u8>, Vec<u8>), String>)
    ensures
        r is Ok <==> client_login_outcome(state@, pin@, response@) is Some,
        r is Ok ==> {
            &&& (r->Ok_0).0@ == (client_login_outcome(state@, pin@, response@)->0).0
            &&& (r->Ok_0).1@ == (client_login_outcome(state@, pin@, response@)->0).1
            &&& (r->Ok_0).2@ == (client_login_outcome(state@, pin@, response@)->0).2
            &&& (r->Ok_0).0@.len() == CRED_FINALIZATION_LEN
            &&& (r->Ok_0).1@.len() == EXPORT_KEY_LEN
            &&& (r->Ok_0).2@.len() == SESSION_KEY_LEN
        },
{
    let state = ClientLogin::<Cs>::deserialize(state.as_slice()).map_err(|e| e.to_string())?;
    let response = CredentialResponse::<Cs>::deserialize(response.as_slice())
        .map_err(|e| e.to_string())?;
    let ksf = argon2::Argon2::default();
    let params = ClientLoginFinishParameters::new(None, Identifiers::default(), Some(&ksf));
    let finish = state.finish(pin.as_slice(), response, params).map_err(|e| e.to_string())?;
    let keys = (finish.export_key.to_vec(), finish.session_key.to_vec());
    Ok((finish.message.serialize().to_vec(), keys.0, keys.1))
}

} // verus!
