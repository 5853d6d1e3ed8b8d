//! A chat session: the three-message handshake (initiate, respond, complete)
//! that agrees on a master key from an ECDH and a KEM secret, then messages
//! over the ratchet.

use vstd::prelude::*;
use vstd::string::StringExecFns;

use crate::crypto::aead::{nonce_well_sized, sealed_message, EncryptedMessage};
use crate::crypto::ecdh::{p256_dh_spec, p256_public_spec, p256_scalar_valid, p256_sec1_valid, EcdhKeyPair};
use crate::crypto::kdf::{derive_master, master_spec, message_key_spec, next_chain_spec};
use crate::crypto::kem::{self as chat_kem, kyber_decaps_spec, CIPHERTEXT_LEN, PUBLIC_KEY_LEN, SECRET_KEY_LEN};
use crate::encoding::{hex_decode, hex_decode_spec, hex_encode, hex_encode_spec};
use crate::error::{ParamantError, ParamantResult};
use crate::identity::Identity;
use crate::ratchet::{decrypt_step, initiator_chains, responder_chains, RatchetChainView, RatchetState};

verus! {

/// The packet each side sends during the handshake.
pub struct HandshakePacket {
    /// Our ECDH public key (hex).
    pub ecdh_pub: String,
    /// Our KEM public key (hex).
    pub kem_pub: String,
    /// The KEM ciphertext (hex), sent by the responder only.
    pub kem_ct: Option<String>,
}

/// The state of a [`Session`].
pub struct SessionView {
    /// Our KEM public key.
    pub kem_public: Seq<u8>,
    /// Our KEM secret key.
    pub kem_secret: Seq<u8>,
    /// Our ECDH identity public key.
    pub ecdh_public: Seq<u8>,
    /// The (sending, receiving) chains, once the handshake is done.
    pub ratchet: Option<(RatchetChainView, RatchetChainView)>,
    /// How many KEM secrets were mixed into the ratchet since the handshake
    /// (0 while there is no ratchet).
    pub kem_count: u64,
    /// Whether we started the handshake.
    pub is_initiator: bool,
    /// The (scalar, point) of the ECDH key awaiting the responder's packet.
    pub pending: Option<(Seq<u8>, Seq<u8>)>,
}

/// A chat session.
pub struct Session {
    /// Our identity.
    pub identity: Identity,
    /// The ratchet, once the handshake is done.
    pub ratchet: Option<RatchetState>,
    /// Whether we started the handshake.
    pub is_initiator: bool,
    pending_ecdh: Option<EcdhKeyPair>,
}

impl View for Session {
    type V = SessionView;

    closed spec fn view(&self) -> SessionView {
        SessionView {
            kem_public: self.identity.kem@,
            kem_secret: self.identity.kem.secret_key(),
            ecdh_public: self.identity.ecdh@,
            ratchet: match self.ratchet {
                Some(r) => Some((r.send_chain@, r.receive_chain@)),
                None => None,
            },
            kem_count: match self.ratchet {
                Some(r) => r.kem_count,
                None => 0,
            },
            is_initiator: self.is_initiator,
            pending: match self.pending_ecdh {
                Some(k) => Some((k.secret_scalar(), k@)),
                None => None,
            },
        }
    }
}

/// What completing the handshake with `packet` does to a session in state
/// `s` that awaits it (`s.pending` is `Some`): the error, or the chains.
pub open spec fn complete_spec(s: SessionView, packet: HandshakePacket) -> Result<
    (RatchetChainView, RatchetChainView),
    ParamantError,
> {
    let (scalar, point) = s.pending.unwrap();
    match hex_decode_spec(packet.ecdh_pub@) {
        None => Err(ParamantError::InvalidKey(arbitrary())),
        Some(their) => if !p256_sec1_valid(their) {
            Err(ParamantError::InvalidKey(arbitrary()))
        } else {
            match packet.kem_ct {
                None => Err(ParamantError::InvalidKey(arbitrary())),
                Some(ct_hex) => match hex_decode_spec(ct_hex@) {
                    None => Err(ParamantError::InvalidKey(arbitrary())),
                    Some(ct) => if s.kem_secret.len() != SECRET_KEY_LEN {
                        Err(ParamantError::InvalidKey(arbitrary()))
                    } else if ct.len() != CIPHERTEXT_LEN {
                        Err(ParamantError::Kem(arbitrary()))
                    } else {
                        Ok(
                            initiator_chains(
                                master_spec(p256_dh_spec(scalar, their), kyber_decaps_spec(s.kem_secret, ct)),
                            ),
                        )
                    },
                },
            }
        },
    }
}

/// The initiator's packet carries a hex P-256 point and a hex KEM public key
/// of the right length.
pub open spec fn respond_accepts(packet: HandshakePacket) -> bool {
    &&& hex_decode_spec(packet.ecdh_pub@) matches Some(their)
    &&& p256_sec1_valid(their)
    &&& hex_decode_spec(packet.kem_pub@) matches Some(k)
    &&& k.len() == PUBLIC_KEY_LEN
}

/// The ECDH point a handshake packet carries (when its hex is valid).
pub open spec fn packet_point(packet: HandshakePacket) -> Seq<u8> {
    hex_decode_spec(packet.ecdh_pub@).unwrap()
}

/// The KEM ciphertext a responder's packet carries (when present and valid hex).
pub open spec fn packet_kem_ct(packet: HandshakePacket) -> Seq<u8> {
    hex_decode_spec(packet.kem_ct.unwrap()@).unwrap()
}

/// The handshake agrees: when the responder drew `responder_scalar` and
/// read the initiator's pending point `initiator_point`, and the KEM secret
/// the responder encapsulated is the one the initiator decapsulates, the
/// initiator's chains (as [`Session::complete`] states them through the
/// responder's scalar) mirror the responder's (as [`Session::respond`] states
/// them): each side sends on the chain the other receives on.
pub proof fn lemma_handshake_mirrors(
    initiator_point: Seq<u8>,
    responder_scalar: Seq<u8>,
    kem_ss: Seq<u8>,
    kem_secret: Seq<u8>,
    kem_ct: Seq<u8>,
)
    requires
        kem_ss == kyber_decaps_spec(kem_secret, kem_ct),
    ensures
        initiator_chains(
            master_spec(p256_dh_spec(responder_scalar, initiator_point), kyber_decaps_spec(kem_secret, kem_ct)),
        ).0 == responder_chains(master_spec(p256_dh_spec(responder_scalar, initiator_point), kem_ss)).1,
        initiator_chains(
            master_spec(p256_dh_spec(responder_scalar, initiator_point), kyber_decaps_spec(kem_secret, kem_ct)),
        ).1 == responder_chains(master_spec(p256_dh_spec(responder_scalar, initiator_point), kem_ss)).0,
{
}

/// Both results are errors of the same kind.
pub open spec fn same_error_kind(a: ParamantError, b: ParamantError) -> bool {
    match (a, b) {
        (ParamantError::InvalidKey(_), ParamantError::InvalidKey(_)) => true,
        (ParamantError::Kem(_), ParamantError::Kem(_)) => true,
        _ => false,
    }
}

impl Session {
    /// A new session for `identity`, before any handshake.
    pub fn new(identity: Identity) -> (r: Self)
        ensures
            r@.kem_public == identity.kem@,
            r@.kem_secret == identity.kem.secret_key(),
            r@.ecdh_public == identity.ecdh@,
            r@.ratchet is None,
            r@.kem_count == 0,
            !r@.is_initiator,
            r@.pending is None,
    {
        Session { identity, ratchet: None, is_initiator: false, pending_ecdh: None }
    }

    /// Step 1 (initiator): draw an ECDH key and build the opening packet.
    ///
    /// Errors with [`ParamantError::Ecdh`] if the system generator fails; no
    /// key is then pending.
    pub fn initiate(&mut self) -> (r: ParamantResult<HandshakePacket>)
        ensures
            final(self)@.is_initiator,
            r matches Ok(p) ==> {
                &&& final(self)@.pending matches Some((scalar, point)) && p256_scalar_valid(scalar)
                    && point == p256_public_spec(scalar) && p.ecdh_pub@ == hex_encode_spec(point)
                &&& p.kem_pub@ == hex_encode_spec(old(self)@.kem_public)
                &&& p.kem_ct is None
            },
            r matches Err(e) ==> e is Ecdh && final(self)@.pending == old(self)@.pending,
            final(self)@.ratchet == old(self)@.ratchet,
            final(self)@.kem_count == old(self)@.kem_count,
            final(self)@.kem_public == old(self)@.kem_public,
            final(self)@.kem_secret == old(self)@.kem_secret,
            final(self)@.ecdh_public == old(self)@.ecdh_public,
    {
        self.is_initiator = true;
        let ecdh = EcdhKeyPair::generate()?;
        let ecdh_pub = hex_encode(ecdh.public_key());
        let kem_pub = hex_encode(self.identity.kem.public_key());
        self.pending_ecdh = Some(ecdh);
        Ok(HandshakePacket { ecdh_pub, kem_pub, kem_ct: None })
    }

    /// Step 2 (responder): answer the initiator's packet, agree on the master
    /// key and start the ratchet as responder.
    ///
    /// Errors with [`ParamantError::InvalidKey`] if the initiator's ECDH key
    /// is not hex or not a P-256 point, or its KEM key is not hex or has the
    /// wrong length, and with [`ParamantError::Ecdh`] or [`ParamantError::Kem`]
    /// if the system generator fails; the ratchet is then unchanged.
    pub fn respond(&mut self, packet: &HandshakePacket) -> (r: ParamantResult<HandshakePacket>)
        ensures
            !final(self)@.is_initiator,
            final(self)@.pending == old(self)@.pending,
            final(self)@.kem_public == old(self)@.kem_public,
            final(self)@.kem_secret == old(self)@.kem_secret,
            final(self)@.ecdh_public == old(self)@.ecdh_public,
            r is Err ==> final(self)@.ratchet == old(self)@.ratchet && final(self)@.kem_count == old(
                self,
            )@.kem_count,
            r is Ok ==> final(self)@.kem_count == 0,
            r matches Err(e) ==> (e is InvalidKey && !respond_accepts(*packet)) || e is Ecdh || e is Kem,
            r is Ok ==> respond_accepts(*packet),
            !respond_accepts(*packet) ==> r is Err,
            r matches Ok(out) ==> {
                &&& out.kem_pub@ == hex_encode_spec(old(self)@.kem_public)
                &&& exists|scalar: Seq<u8>, kem_ct: Seq<u8>, kem_ss: Seq<u8>|
                    {
                        &&& p256_scalar_valid(scalar)
                        &&& out.ecdh_pub@ == hex_encode_spec(p256_public_spec(scalar))
                        &&& out.kem_ct matches Some(c) && c@ == #[trigger] hex_encode_spec(kem_ct)
                        &&& kem_ct.len() == CIPHERTEXT_LEN
                        &&& final(self)@.ratchet == Some(
                            responder_chains(
                                #[trigger] master_spec(
                                    p256_dh_spec(scalar, hex_decode_spec(packet.ecdh_pub@).unwrap()),
                                    kem_ss,
                                ),
                            ),
                        )
                    }
            },
    {
        self.is_initiator = false;
        let their_ecdh = match hex_decode(packet.ecdh_pub.as_str()) {
            Some(b) => b,
            None => { return Err(ParamantError::InvalidKey(String::from_str("Ongeldige ECDH hex"))) },
        };
        let our_ecdh = EcdhKeyPair::generate()?;
        let ecdh_shared = our_ecdh.diffie_hellman(their_ecdh.as_slice())?;
        let their_kem = match hex_decode(packet.kem_pub.as_str()) {
            Some(b) => b,
            None => { return Err(ParamantError::InvalidKey(String::from_str("Ongeldige KEM hex"))) },
        };
        let (kem_ct, kem_shared) = chat_kem::encapsulate(their_kem.as_slice())?;
        let master = derive_master(ecdh_shared.0.as_slice(), kem_shared.0.as_slice());
        let state = RatchetState::new_responder(&master);
        self.ratchet = Some(state);
        let ecdh_pub = hex_encode(our_ecdh.public_key());
        let kem_pub = hex_encode(self.identity.kem.public_key());
        let ct_hex = hex_encode(kem_ct.as_slice());
        let out = HandshakePacket { ecdh_pub, kem_pub, kem_ct: Some(ct_hex) };
        proof {
            let scalar = our_ecdh.secret_scalar();
            assert(master_spec(p256_dh_spec(scalar, hex_decode_spec(packet.ecdh_pub@).unwrap()), kem_shared.0@)
                == master.0@);
        }
        Ok(out)
    }

    /// Step 3 (initiator): finish the handshake with the responder's packet,
    /// agree on the master key and start the ratchet as initiator.
    ///
    /// Errors with [`ParamantError::SessionNotInitialized`] if no handshake was
    /// started; with [`ParamantError::InvalidKey`] if the responder's ECDH key
    /// is not hex or not a point, the KEM ciphertext is missing or not hex, or
    /// our KEM secret key is malformed; with [`ParamantError::Kem`] if the
    /// ciphertext has the wrong length. The pending ECDH key is used up
    /// whatever the outcome.
    pub fn complete(&mut self, packet: &HandshakePacket) -> (r: ParamantResult<()>)
        ensures
            final(self)@.pending is None,
            final(self)@.is_initiator == old(self)@.is_initiator,
            final(self)@.kem_public == old(self)@.kem_public,
            final(self)@.kem_secret == old(self)@.kem_secret,
            final(self)@.ecdh_public == old(self)@.ecdh_public,
            old(self)@.pending is None ==> (r matches Err(e) && e is SessionNotInitialized
                && final(self)@.ratchet == old(self)@.ratchet),
            r is Ok ==> final(self)@.kem_count == 0,
            r is Err ==> final(self)@.kem_count == old(self)@.kem_count,
            old(self)@.pending is Some ==> match complete_spec(old(self)@, *packet) {
                Ok(chains) => r is Ok && final(self)@.ratchet == Some(chains),
                Err(e) => r matches Err(x) && same_error_kind(x, e) && final(self)@.ratchet == old(
                    self,
                )@.ratchet,
            },
            forall|other: Seq<u8>|
                old(self)@.pending is Some && hex_decode_spec(packet.ecdh_pub@) is Some && p256_scalar_valid(
                    other,
                ) && #[trigger] p256_public_spec(other) == packet_point(*packet) && r is Ok
                    ==> final(self)@.ratchet == Some(
                    initiator_chains(
                        master_spec(
                            p256_dh_spec(other, old(self)@.pending.unwrap().1),
                            kyber_decaps_spec(old(self)@.kem_secret, packet_kem_ct(*packet)),
                        ),
                    ),
                ),
    {
        let pending = self.pending_ecdh.take();
        let pending_ecdh = match pending {
            Some(k) => k,
            None => { return Err(ParamantError::SessionNotInitialized) },
        };
        let their_ecdh = match hex_decode(packet.ecdh_pub.as_str()) {
            Some(b) => b,
            None => { return Err(ParamantError::InvalidKey(String::from_str("Ongeldige ECDH hex"))) },
        };
        let ecdh_shared = pending_ecdh.diffie_hellman(their_ecdh.as_slice())?;
        let kem_ct_hex = match &packet.kem_ct {
            Some(h) => h,
            None => {
                return Err(ParamantError::InvalidKey(String::from_str("Geen KEM ciphertext in respons")));
            },
        };
        let kem_ct = match hex_decode(kem_ct_hex.as_str()) {
            Some(b) => b,
            None => { return Err(ParamantError::InvalidKey(String::from_str("Ongeldige KEM CT hex"))) },
        };
        let kem_shared = self.identity.kem.decapsulate(kem_ct.as_slice())?;
        let master = derive_master(ecdh_shared.0.as_slice(), kem_shared.0.as_slice());
        self.ratchet = Some(RatchetState::new_initiator(&master));
        Ok(())
    }

    /// Encrypt a message (type `"msg"`) on the sending chain.
    ///
    /// Errors with [`ParamantError::SessionNotInitialized`] before the
    /// handshake is done, and as [`RatchetChain::encrypt`](crate::ratchet::RatchetChain::encrypt) does after.
    pub fn encrypt(&mut self, plaintext: &[u8]) -> (r: ParamantResult<EncryptedMessage>)
        requires
            old(self)@.ratchet matches Some((send, _)) ==> send.seq < u64::MAX,
        ensures
            final(self)@.kem_public == old(self)@.kem_public,
            final(self)@.kem_secret == old(self)@.kem_secret,
            final(self)@.pending == old(self)@.pending,
            final(self)@.is_initiator == old(self)@.is_initiator,
            final(self)@.kem_count == old(self)@.kem_count,
            match old(self)@.ratchet {
                None => (r matches Err(e) && e is SessionNotInitialized) && final(self)@.ratchet is None,
                Some((send, receive)) => match r {
                    Ok(m) => {
                        &&& m.seq == send.seq
                        &&& sealed_message(m, message_key_spec(send.chain_key), "msg"@, plaintext@)
                        &&& final(self)@.ratchet == Some(
                            (
                                RatchetChainView {
                                    chain_key: next_chain_spec(send.chain_key),
                                    seq: (send.seq + 1) as u64,
                                    seen: send.seen,
                                },
                                receive,
                            ),
                        )
                    },
                    Err(e) => e is Encryption && final(self)@.ratchet == old(self)@.ratchet,
                },
            },
    {
        match &mut self.ratchet {
            Some(state) => state.send_chain.encrypt(plaintext, "msg"),
            None => Err(ParamantError::SessionNotInitialized),
        }
    }

    /// Decrypt a message (type `"msg"`) on the receiving chain.
    ///
    /// Errors with [`ParamantError::SessionNotInitialized`] before the
    /// handshake is done, and as [`RatchetChain::decrypt`](crate::ratchet::RatchetChain::decrypt) does after.
    pub fn decrypt(&mut self, msg: &EncryptedMessage) -> (r: ParamantResult<Vec<u8>>)
        requires
            old(self)@.ratchet matches Some((_, receive)) ==> receive.seq < u64::MAX,
            nonce_well_sized(*msg),
        ensures
            final(self)@.kem_public == old(self)@.kem_public,
            final(self)@.kem_secret == old(self)@.kem_secret,
            final(self)@.pending == old(self)@.pending,
            final(self)@.is_initiator == old(self)@.is_initiator,
            final(self)@.kem_count == old(self)@.kem_count,
            match old(self)@.ratchet {
                None => (r matches Err(e) && e is SessionNotInitialized) && final(self)@.ratchet is None,
                Some((send, receive)) => {
                    &&& match decrypt_step(receive, *msg, "msg"@).0 {
                        Ok(p) => r matches Ok(v) && v@ == p,
                        Err(e) => r matches Err(x) && x == e,
                    }
                    &&& final(self)@.ratchet == Some((send, decrypt_step(receive, *msg, "msg"@).1))
                },
            },
    {
        match &mut self.ratchet {
            Some(state) => state.receive_chain.decrypt(msg, "msg"),
            None => Err(ParamantError::SessionNotInitialized),
        }
    }

    /// [`Session::decrypt`] for any message: one whose hex nonce is not 12
    /// bytes long is refused with [`ParamantError::DecryptionFailed`], leaving
    /// the session unchanged.
    pub fn decrypt_checked(&mut self, msg: &EncryptedMessage) -> (r: ParamantResult<Vec<u8>>)
        requires
            old(self)@.ratchet matches Some((_, receive)) ==> receive.seq < u64::MAX,
        ensures
            !nonce_well_sized(*msg) ==> r == Err::<Vec<u8>, ParamantError>(ParamantError::DecryptionFailed)
                && final(self)@ == old(self)@,
            nonce_well_sized(*msg) ==> {
                &&& final(self)@.kem_public == old(self)@.kem_public
                &&& final(self)@.kem_secret == old(self)@.kem_secret
                &&& final(self)@.pending == old(self)@.pending
                &&& final(self)@.is_initiator == old(self)@.is_initiator
                &&& final(self)@.kem_count == old(self)@.kem_count
                &&& match old(self)@.ratchet {
                    None => (r matches Err(e) && e is SessionNotInitialized) && final(self)@.ratchet is None,
                    Some((send, receive)) => {
                        &&& match decrypt_step(receive, *msg, "msg"@).0 {
                            Ok(p) => r matches Ok(v) && v@ == p,
                            Err(e) => r matches Err(x) && x == e,
                        }
                        &&& final(self)@.ratchet == Some((send, decrypt_step(receive, *msg, "msg"@).1))
                    },
                }
            },
    {
        if !crate::crypto::aead::nonce_ok(msg) {
            return Err(ParamantError::DecryptionFailed);
        }
        self.decrypt(msg)
    }
}

} // verus!
