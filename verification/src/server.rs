use vstd::prelude::*;

use crate::bytes::extend_from;
use crate::clock::now_millis;
use crate::common::{CommonError, CommonResult, ErrorKind};
use crate::hexcode::{hex_encode, lemma_spec_hex_chars_len, spec_hex_chars, string_bytes};
use crate::osrand::random_bytes;
use crate::protocol::{
    is_upload, ke3_accepted, opaque_registration_response, opaque_server_login_finish,
    opaque_server_login_start, reg_response_of, server_start_accepts, validate_server_setup,
    CRED_RESPONSE_LEN, OPRF_SEED_LEN, REG_RESPONSE_LEN, SERVER_LOGIN_STATE_LEN, SERVER_SETUP_LEN,
};
use crate::scalar::{
    candidate_rejected, canonicalize_private_key, derived_key, is_valid_scalar,
    random_fake_private_key, DERIVE_FUEL,
};
use crate::session::{SessionLedger, SessionView};
use crate::utf8check::is_utf8;

verus! {

/// The session time-to-live that a construction-time argument of `secs`
/// seconds clamps to: at least one second, in milliseconds, saturating.
pub open spec fn clamped_ttl_ms(secs: u64) -> u64 {
    let s: u64 = if secs == 0 {
        1u64
    } else {
        secs
    };
    if s > u64::MAX as u64 / 1000 {
        u64::MAX
    } else {
        (s * 1000) as u64
    }
}

/// The expiry instant of a session started at `now_ms` with the given
/// time-to-live, saturating at the largest representable instant.
pub open spec fn expiry_ms(now_ms: u64, ttl_ms: u64) -> u64 {
    if now_ms > u64::MAX - ttl_ms {
        u64::MAX
    } else {
        (now_ms + ttl_ms) as u64
    }
}

/// The ledger after a successful login start: one new session under `sid`,
/// bound to `secret_id`, expiring at `exp`, parking some serialized server
/// login state of the fixed length.
pub open spec fn session_inserted(
    before: Map<Seq<u8>, SessionView>,
    after: Map<Seq<u8>, SessionView>,
    sid: Seq<u8>,
    secret_id: Seq<u8>,
    exp: u64,
) -> bool {
    exists|state: Seq<u8>|
        state.len() == SERVER_LOGIN_STATE_LEN && after == before.insert(
            sid,
            (SessionView { secret_id, state, expires_at_ms: exp }),
        )
}

/// Law: a started session is observed intact by its finish. What login start
/// parks under a fresh session id — the caller's account identifier and the
/// expiry instant — is exactly what a later finish of that id finds in the
/// ledger.
pub proof fn lemma_started_session_observed(
    before: Map<Seq<u8>, SessionView>,
    after: Map<Seq<u8>, SessionView>,
    sid: Seq<u8>,
    secret_id: Seq<u8>,
    exp: u64,
)
    requires
        session_inserted(before, after, sid, secret_id, exp),
    ensures
        after.contains_key(sid),
        after[sid].secret_id == secret_id,
        after[sid].expires_at_ms == exp,
{
    let state = choose|state: Seq<u8>|
        state.len() == SERVER_LOGIN_STATE_LEN && after == before.insert(
            sid,
            (SessionView { secret_id, state, expires_at_ms: exp }),
        );
    assert(after[sid] == (SessionView { secret_id, state, expires_at_ms: exp }));
}

/// The OPAQUE server engine: the immutable server setup, the session
/// time-to-live, and the ledger of parked login attempts.
pub struct SafexOpaqueManager {
    setup: Vec<u8>,
    session_ttl_ms: u64,
    sessions: SessionLedger,
}

impl SafexOpaqueManager {
    /// The serialized server setup: OPRF seed, server private key, fake
    /// private key.
    pub closed spec fn setup_bytes(&self) -> Seq<u8> {
        self.setup@
    }

    /// The session ledger's content.
    pub closed spec fn sessions_map(&self) -> Map<Seq<u8>, SessionView> {
        self.sessions@
    }

    /// The session time-to-live in milliseconds.
    pub closed spec fn ttl_ms(&self) -> u64 {
        self.session_ttl_ms
    }

    /// Well-formed: the setup has the fixed layout with two valid private
    /// keys, the time-to-live is at least a second, and session ids in the
    /// ledger are unique.
    pub closed spec fn wf(&self) -> bool {
        &&& self.sessions.wf()
        &&& self.setup@.len() == SERVER_SETUP_LEN
        &&& is_valid_scalar(self.setup@.subrange(64, 96))
        &&& is_valid_scalar(self.setup@.subrange(96, 128))
        &&& self.session_ttl_ms >= 1000
    }

    /// Builds the server engine: canonicalizes the supplied secret into the
    /// server's private key, draws a fresh fake private key, assembles and
    /// validates the setup, and clamps the session time-to-live to at least
    /// one second. `server_id` is accepted for future binding and unused.
    pub fn new(
        server_id: &Vec<u8>,
        secret_key: &Vec<u8>,
        oprf_seed: &Vec<u8>,
        session_ttl_secs: u64,
    ) -> (r: CommonResult<Self>)
        ensures
            r is Ok ==> {
                let m = r->Ok_0;
                &&& m.wf()
                &&& m.sessions_map() == Map::<Seq<u8>, SessionView>::empty()
                &&& m.ttl_ms() == clamped_ttl_ms(session_ttl_secs)
                &&& oprf_seed@.len() == OPRF_SEED_LEN
                &&& m.setup_bytes().subrange(0, OPRF_SEED_LEN as int) == oprf_seed@
                &&& (is_valid_scalar(secret_key@) ==> m.setup_bytes().subrange(64, 96)
                    == secret_key@)
                &&& (!is_valid_scalar(secret_key@) ==> derived_key(
                    secret_key@,
                    m.setup_bytes().subrange(64, 96),
                ))
            },
            oprf_seed@.len() != OPRF_SEED_LEN ==> r is Err,
            r is Err ==> {
                ||| oprf_seed@.len() != OPRF_SEED_LEN
                ||| (!is_valid_scalar(secret_key@) && (forall|m: nat|
                    m < DERIVE_FUEL ==> #[trigger] candidate_rejected(secret_key@, m)))
                ||| r->Err_0.kind == ErrorKind::CryptoFailure
            },
            (!is_valid_scalar(secret_key@) && (forall|m: nat|
                m < DERIVE_FUEL ==> #[trigger] candidate_rejected(secret_key@, m))) ==> r is Err
                && r->Err_0.kind == ErrorKind::ProtocolFailure,
    {
        let _ = server_id;
        let server_sk = canonicalize_private_key(secret_key)?;
        let fake_sk = random_fake_private_key(server_sk.len())?;
        let mut setup = crate::bytes::copy_range(oprf_seed, 0, oprf_seed.len());
        extend_from(&mut setup, &server_sk);
        extend_from(&mut setup, &fake_sk);
        proof {
            assert(setup@.subrange(0, oprf_seed@.len() as int) =~= oprf_seed@);
            if oprf_seed@.len() == OPRF_SEED_LEN {
                assert(setup@.subrange(64, 96) =~= server_sk@);
                assert(setup@.subrange(96, 128) =~= fake_sk@);
            }
        }
        if !validate_server_setup(&setup) {
            return Err(CommonError::new(ErrorKind::ProtocolFailure, "init opaque server failed"));
        }
        proof {
            assert(oprf_seed@.len() == OPRF_SEED_LEN);
            assert(setup@.subrange(0, OPRF_SEED_LEN as int) =~= oprf_seed@);
        }
        let session_ttl_ms = Self::clamp_ttl(session_ttl_secs);
        Ok(SafexOpaqueManager { setup, session_ttl_ms, sessions: SessionLedger::new() })
    }

    /// Clamps a time-to-live in seconds to at least one second and converts
    /// it to milliseconds, saturating.
    fn clamp_ttl(secs: u64) -> (r: u64)
        ensures
            r == clamped_ttl_ms(secs),
            r >= 1000,
    {
        let s: u64 = if secs == 0 {
            1
        } else {
            secs
        };
        if s > u64::MAX / 1000 {
            u64::MAX
        } else {
            s * 1000
        }
    }

    /// Computes the registration response for a blinded request: the step
    /// that derives the per-account OPRF key from the setup and the account
    /// identifier. Nothing is persisted. An empty identifier is rejected;
    /// otherwise the outcome is exactly what the suite computes.
    pub fn registration_response(&self, secret_id: &Vec<u8>, request_bytes: &Vec<u8>) -> (r:
        CommonResult<Vec<u8>>)
        requires
            self.wf(),
        ensures
            r is Ok <==> secret_id@.len() > 0 && reg_response_of(
                self.setup_bytes(),
                secret_id@,
                request_bytes@,
            ) is Some,
            r is Ok ==> r->Ok_0@ == reg_response_of(
                self.setup_bytes(),
                secret_id@,
                request_bytes@,
            )->0 && r->Ok_0@.len() == REG_RESPONSE_LEN,
            secret_id@.len() == 0 ==> r is Err && r->Err_0.kind == ErrorKind::InvalidInput,
            secret_id@.len() > 0 && r is Err ==> r->Err_0.kind == ErrorKind::ProtocolFailure,
    {
        if secret_id.len() == 0 {
            return Err(CommonError::new(ErrorKind::InvalidInput, "secret ID is required"));
        }
        match opaque_registration_response(&self.setup, secret_id, request_bytes) {
            Ok(bytes) => Ok(bytes),
            Err(msg) => Err(CommonError::new(ErrorKind::ProtocolFailure, msg.as_str())),
        }
    }

    /// Starts a login at the given instant and parks the resulting state
    /// under the given session id. Empty identifiers and empty records are
    /// rejected, a session id already in use is an error rather than an
    /// overwrite, a record that does not deserialize is a hard reject (no
    /// fake-record response arises from it), and a success — exactly when the
    /// suite accepts the inputs — parks exactly one new session that expires
    /// `ttl_ms` after `now_ms`.
    pub fn login_start_at(
        &mut self,
        now_ms: u64,
        session_id: Vec<u8>,
        secret_id: &Vec<u8>,
        record: &Vec<u8>,
        request: &Vec<u8>,
    ) -> (r: CommonResult<Vec<u8>>)
        requires
            old(self).wf(),
        ensures
            final(self).wf(),
            final(self).setup_bytes() == old(self).setup_bytes(),
            final(self).ttl_ms() == old(self).ttl_ms(),
            r is Err ==> final(self).sessions_map() == old(self).sessions_map(),
            secret_id@.len() == 0 ==> r is Err && r->Err_0.kind == ErrorKind::InvalidInput,
            secret_id@.len() > 0 && record@.len() == 0 ==> r is Err && r->Err_0.kind
                == ErrorKind::InvalidInput,
            secret_id@.len() > 0 && record@.len() > 0 && old(self).sessions_map().contains_key(
                session_id@,
            ) ==> r is Err && r->Err_0.kind == ErrorKind::ProtocolFailure,
            secret_id@.len() > 0 && record@.len() > 0 && !old(self).sessions_map().contains_key(
                session_id@,
            ) ==> (r is Ok <==> server_start_accepts(
                old(self).setup_bytes(),
                record@,
                request@,
                secret_id@,
            )),
            r is Ok ==> {
                &&& secret_id@.len() > 0
                &&& record@.len() > 0
                &&& is_upload(record@)
                &&& !old(self).sessions_map().contains_key(session_id@)
                &&& r->Ok_0@.len() == CRED_RESPONSE_LEN
                &&& session_inserted(
                    old(self).sessions_map(),
                    final(self).sessions_map(),
                    session_id@,
                    secret_id@,
                    expiry_ms(now_ms, old(self).ttl_ms()),
                )
            },
            r is Err && secret_id@.len() > 0 && record@.len() > 0 ==> r->Err_0.kind
                == ErrorKind::ProtocolFailure,
    {
        if secret_id.len() == 0 {
            return Err(CommonError::new(ErrorKind::InvalidInput, "secret ID is required"));
        }
        if record.len() == 0 {
            return Err(CommonError::new(ErrorKind::InvalidInput, "opaque record is required"));
        }
        if self.sessions.contains(&session_id) {
            return Err(CommonError::new(ErrorKind::ProtocolFailure, "session ID already in use"));
        }
        let (state, response) = match opaque_server_login_start(
            &self.setup,
            record,
            request,
            secret_id,
        ) {
            Ok(pair) => pair,
            Err(msg) => {
                return Err(CommonError::new(ErrorKind::ProtocolFailure, msg.as_str()));
            },
        };
        let expires_at_ms = if now_ms > u64::MAX - self.session_ttl_ms {
            u64::MAX
        } else {
            now_ms + self.session_ttl_ms
        };
        let secret_id_copy = crate::bytes::copy_range(secret_id, 0, secret_id.len());
        proof {
            assert(secret_id_copy@ =~= secret_id@);
        }
        let ghost state_view = state@;
        self.sessions.insert(session_id, secret_id_copy, state, expires_at_ms);
        proof {
            assert(state_view.len() == SERVER_LOGIN_STATE_LEN);
            assert(self.sessions@ == old(self).sessions_map().insert(
                session_id@,
                (SessionView { secret_id: secret_id@, state: state_view, expires_at_ms }),
            ));
            assert(session_inserted(
                old(self).sessions_map(),
                self.sessions@,
                session_id@,
                secret_id@,
                expiry_ms(now_ms, old(self).ttl_ms()),
            ));
        }
        Ok(response)
    }

    /// Starts a login now, under a freshly drawn session id: 16 random bytes
    /// rendered as 32 lowercase hexadecimal characters. Returns the id and
    /// the credential response to send back.
    pub fn login_start(&mut self, secret_id: &Vec<u8>, record: &Vec<u8>, request: &Vec<u8>) -> (r:
        CommonResult<(String, Vec<u8>)>)
        requires
            old(self).wf(),
        ensures
            final(self).wf(),
            final(self).setup_bytes() == old(self).setup_bytes(),
            final(self).ttl_ms() == old(self).ttl_ms(),
            r is Err ==> final(self).sessions_map() == old(self).sessions_map(),
            secret_id@.len() == 0 ==> r is Err && r->Err_0.kind == ErrorKind::InvalidInput,
            secret_id@.len() > 0 && record@.len() == 0 ==> r is Err && r->Err_0.kind
                == ErrorKind::InvalidInput,
            r is Ok ==> {
                &&& (r->Ok_0).0@.len() == 32
                &&& (exists|seed: Seq<u8>| seed.len() == 16 && (r->Ok_0).0@ == spec_hex_chars(seed))
                &&& is_upload(record@)
                &&& server_start_accepts(old(self).setup_bytes(), record@, request@, secret_id@)
                &&& (r->Ok_0).1@.len() == CRED_RESPONSE_LEN
                &&& !old(self).sessions_map().contains_key(
                    vstd::utf8::encode_utf8((r->Ok_0).0@),
                )
                &&& exists|exp: u64|
                    #[trigger] session_inserted(
                        old(self).sessions_map(),
                        final(self).sessions_map(),
                        vstd::utf8::encode_utf8((r->Ok_0).0@),
                        secret_id@,
                        exp,
                    )
            },
    {
        let (sid_str, sid_bytes) = Self::generate_session_id();
        let now = now_millis();
        let response = self.login_start_at(now, sid_bytes, secret_id, record, request)?;
        Ok((sid_str, response))
    }

    /// Draws a fresh session id: 16 bytes from the random source, rendered
    /// as 32 lowercase hexadecimal characters, returned together with its
    /// UTF-8 byte form (under which the ledger keys it).
    pub fn generate_session_id() -> (r: (String, Vec<u8>))
        ensures
            r.0@.len() == 32,
            exists|seed: Seq<u8>| seed.len() == 16 && r.0@ == spec_hex_chars(seed),
            r.1@ == vstd::utf8::encode_utf8(r.0@),
    {
        let seed = random_bytes(16);
        let sid = hex_encode(&seed);
        proof {
            lemma_spec_hex_chars_len(seed@);
        }
        let bytes = string_bytes(&sid);
        (sid, bytes)
    }

    /// Finishes a login at the given instant. The session is removed before
    /// verification, so neither a failed verification nor an observed expiry
    /// leaves any residue; a success returns the account identifier bound at
    /// start.
    pub fn login_finish_at(&mut self, now_ms: u64, session_id: &Vec<u8>, finalization: &Vec<u8>) -> (r:
        CommonResult<Vec<u8>>)
        requires
            old(self).wf(),
        ensures
            final(self).wf(),
            final(self).setup_bytes() == old(self).setup_bytes(),
            final(self).ttl_ms() == old(self).ttl_ms(),
            session_id@.len() == 0 ==> r is Err && r->Err_0.kind == ErrorKind::InvalidInput
                && final(self).sessions_map() == old(self).sessions_map(),
            session_id@.len() > 0 && !vstd::utf8::valid_utf8(session_id@) ==> r is Err
                && r->Err_0.kind == ErrorKind::InvalidInput && final(self).sessions_map() == old(
                self,
            ).sessions_map(),
            session_id@.len() > 0 && vstd::utf8::valid_utf8(session_id@) && !old(
                self,
            ).sessions_map().contains_key(session_id@) ==> r is Err && r->Err_0.kind
                == ErrorKind::UnknownSession && final(self).sessions_map() == old(
                self,
            ).sessions_map(),
            session_id@.len() > 0 && vstd::utf8::valid_utf8(session_id@) && old(
                self,
            ).sessions_map().contains_key(session_id@) ==> {
                let entry = old(self).sessions_map()[session_id@];
                &&& final(self).sessions_map() == old(self).sessions_map().remove(session_id@)
                &&& (now_ms > entry.expires_at_ms ==> r is Err && r->Err_0.kind
                    == ErrorKind::Expired)
                &&& (now_ms <= entry.expires_at_ms ==> ((r is Ok <==> ke3_accepted(
                    entry.state,
                    finalization@,
                )) && (r is Ok ==> r->Ok_0@ == entry.secret_id) && (r is Err ==> r->Err_0.kind
                    == ErrorKind::ProtocolFailure)))
            },
    {
        if session_id.len() == 0 {
            return Err(CommonError::new(ErrorKind::InvalidInput, "session ID is required"));
        }
        if !is_utf8(session_id) {
            return Err(CommonError::new(ErrorKind::InvalidInput, "session ID must be valid UTF-8"));
        }
        let entry = match self.sessions.remove(session_id) {
            Some(e) => e,
            None => {
                return Err(CommonError::new(ErrorKind::UnknownSession, "opaque session not found"));
            },
        };
        if now_ms > entry.expires_at_ms {
            return Err(CommonError::new(ErrorKind::Expired, "opaque session expired"));
        }
        match opaque_server_login_finish(&entry.state, finalization) {
            Ok(()) => Ok(entry.secret_id),
            Err(msg) => Err(CommonError::new(ErrorKind::ProtocolFailure, msg.as_str())),
        }
    }

    /// Finishes a login now. A success proves that the session existed, had
    /// not been consumed, and that the finalization verified against its
    /// parked state; the session is gone afterwards either way.
    pub fn login_finish(&mut self, session_id: &Vec<u8>, finalization: &Vec<u8>) -> (r: CommonResult<
        Vec<u8>,
    >)
        requires
            old(self).wf(),
        ensures
            final(self).wf(),
            final(self).setup_bytes() == old(self).setup_bytes(),
            final(self).ttl_ms() == old(self).ttl_ms(),
            session_id@.len() == 0 ==> r is Err && r->Err_0.kind == ErrorKind::InvalidInput
                && final(self).sessions_map() == old(self).sessions_map(),
            session_id@.len() > 0 && !vstd::utf8::valid_utf8(session_id@) ==> r is Err
                && r->Err_0.kind == ErrorKind::InvalidInput && final(self).sessions_map() == old(
                self,
            ).sessions_map(),
            session_id@.len() > 0 && vstd::utf8::valid_utf8(session_id@) && !old(
                self,
            ).sessions_map().contains_key(session_id@) ==> r is Err && r->Err_0.kind
                == ErrorKind::UnknownSession && final(self).sessions_map() == old(
                self,
            ).sessions_map(),
            session_id@.len() > 0 && vstd::utf8::valid_utf8(session_id@) && old(
                self,
            ).sessions_map().contains_key(session_id@) ==> {
                &&& final(self).sessions_map() == old(self).sessions_map().remove(session_id@)
                &&& (r is Ok ==> ke3_accepted(
                    old(self).sessions_map()[session_id@].state,
                    finalization@,
                ) && r->Ok_0@ == old(self).sessions_map()[session_id@].secret_id)
                &&& (r is Err ==> r->Err_0.kind == ErrorKind::Expired || r->Err_0.kind
                    == ErrorKind::ProtocolFailure)
            },
    {
        let now = now_millis();
        self.login_finish_at(now, session_id, finalization)
    }
}

} // verus!
