//! A chat identity (an ECDH and a KEM keypair), its fingerprint, and its
//! public address: the JSON object `{"ecdh": <hex>, "kem": <hex>}`.

use serde_json::Value;
use vstd::prelude::*;
use vstd::string::StringExecFns;

use crate::aead::opt_view;
use crate::bytes::append_bytes;
use crate::crypto::ecdh::EcdhKeyPair;
use crate::crypto::kem::KemKeyPair;
use crate::encoding::{hex_decode, hex_decode_spec, hex_encode, hex_encode_spec, lemma_hex_roundtrip};
use crate::error::{ParamantError, ParamantResult};
use crate::hash::{sha256, sha256_spec};

verus! {

/// The compact JSON text of the object with the two string members
/// `k1: v1` and `k2: v2`.
pub uninterp spec fn json_object_spec(k1: Seq<char>, v1: Seq<char>, k2: Seq<char>, v2: Seq<char>) -> Seq<char>;

/// The string members `k1` and `k2` of the JSON document `text` (`None` for
/// a member that is absent or not a string), or `None` when `text` is not JSON.
pub uninterp spec fn json_str_members_spec(text: Seq<char>, k1: Seq<char>, k2: Seq<char>) -> Option<
    (Option<Seq<char>>, Option<Seq<char>>),
>;

/// The view of an optional string.
pub open spec fn opt_str_view(o: Option<String>) -> Option<Seq<char>> {
    match o {
        Some(s) => Some(s@),
        None => None,
    }
}

/// `serde_json::Value::Object` of the two string members, serialised with
/// `to_string`: the named JSON text. For two distinct names `serde_json`
/// parses it back to the same two string members.
#[verifier::external_body]
fn json_object(k1: &str, v1: String, k2: &str, v2: String) -> (r: String)
    ensures
        r@ == json_object_spec(k1@, v1@, k2@, v2@),
        k1@ != k2@ ==> json_str_members_spec(r@, k1@, k2@) == Some((Some(v1@), Some(v2@))),
{
    let mut members = serde_json::Map::new();
    members.insert(k1.to_string(), Value::String(v1));
    members.insert(k2.to_string(), Value::String(v2));
    Value::Object(members).to_string()
}

/// `serde_json::from_str::<Value>` and the string members named `k1` and `k2`
/// (`Value::as_str`): the named members, or the parse error exactly when the
/// text is not JSON.
#[verifier::external_body]
fn json_str_members(text: &str, k1: &str, k2: &str) -> (r: Result<(Option<String>, Option<String>), serde_json::Error>)
    ensures
        match r {
            Ok((a, b)) => json_str_members_spec(text@, k1@, k2@) == Some((opt_str_view(a), opt_str_view(b))),
            Err(_) => json_str_members_spec(text@, k1@, k2@) is None,
        },
{
    let v: Value = serde_json::from_str(text)?;
    Ok((v[k1].as_str().map(|s| s.to_string()), v[k2].as_str().map(|s| s.to_string())))
}

/// The member name of the ECDH key in an address: `"ecdh"`.
pub open spec fn ecdh_member() -> Seq<char> {
    seq!['e', 'c', 'd', 'h']
}

/// The member name of the KEM key in an address: `"kem"`.
pub open spec fn kem_member() -> Seq<char> {
    seq!['k', 'e', 'm']
}

/// The JSON text of the address with the two hex keys.
pub open spec fn json_address_spec(ecdh_hex: Seq<char>, kem_hex: Seq<char>) -> Seq<char> {
    json_object_spec(ecdh_member(), ecdh_hex, kem_member(), kem_hex)
}

/// The `"ecdh"` and `"kem"` string members of `text`, or `None` when it is not JSON.
pub open spec fn json_fields_spec(text: Seq<char>) -> Option<(Option<Seq<char>>, Option<Seq<char>>)> {
    json_str_members_spec(text, ecdh_member(), kem_member())
}

/// The text of an optional member, or the empty text.
pub open spec fn or_empty(o: Option<Seq<char>>) -> Seq<char> {
    match o {
        Some(s) => s,
        None => Seq::empty(),
    }
}

/// The ECDH and KEM public keys an address names, when its members are valid
/// hex (an absent member names the empty key), or the error kind:
/// `Err(true)` when the text is not JSON, `Err(false)` for bad hex.
pub open spec fn address_keys_spec(address: Seq<char>) -> Result<(Seq<u8>, Seq<u8>), bool> {
    match json_fields_spec(address) {
        None => Err(true),
        Some((e, k)) => match (hex_decode_spec(or_empty(e)), hex_decode_spec(or_empty(k))) {
            (Some(ecdh), Some(kem)) => Ok((ecdh, kem)),
            _ => Err(false),
        },
    }
}

/// Reading an address back gives the keys it was written with.
pub proof fn lemma_address_roundtrip(address: Seq<char>, ecdh: Seq<u8>, kem: Seq<u8>)
    requires
        json_fields_spec(address) == Some((Some(hex_encode_spec(ecdh)), Some(hex_encode_spec(kem)))),
    ensures
        address_keys_spec(address) == Ok::<(Seq<u8>, Seq<u8>), bool>((ecdh, kem)),
{
    lemma_hex_roundtrip(ecdh);
    lemma_hex_roundtrip(kem);
}

/// Our long-lived keys: an ECDH and a KEM keypair.
pub struct Identity {
    /// The ECDH keypair.
    pub ecdh: EcdhKeyPair,
    /// The KEM keypair.
    pub kem: KemKeyPair,
}

impl Identity {
    /// Generate a fresh identity.
    pub fn generate() -> (r: ParamantResult<Self>)
        ensures
            r matches Ok(id) ==> id.ecdh@.len() == 65 && id.kem@.len() == 1184,
            r matches Err(e) ==> e is Kem || e is Ecdh,
    {
        let kem = KemKeyPair::generate()?;
        let ecdh = EcdhKeyPair::generate()?;
        Ok(Identity { ecdh, kem })
    }

    /// The public address: `{"ecdh": <hex>, "kem": <hex>}` as compact JSON.
    /// Reading it with [`PeerPublicKeys::from_address`] gives back both keys.
    pub fn public_address(&self) -> (r: String)
        ensures
            r@ == json_address_spec(hex_encode_spec(self.ecdh@), hex_encode_spec(self.kem@)),
            json_fields_spec(r@) == Some((Some(hex_encode_spec(self.ecdh@)), Some(hex_encode_spec(self.kem@)))),
    {
        proof {
            reveal_strlit("ecdh");
            reveal_strlit("kem");
            assert("ecdh"@ =~= ecdh_member());
            assert("kem"@ =~= kem_member());
        }
        json_object("ecdh", hex_encode(self.ecdh.public_key()), "kem", hex_encode(self.kem.public_key()))
    }

    /// SHA-256 over the ECDH public key followed by the KEM public key.
    pub fn fingerprint(&self) -> (r: [u8; 32])
        ensures
            r@ == sha256_spec(self.ecdh@ + self.kem@),
    {
        let mut keys: Vec<u8> = Vec::new();
        append_bytes(&mut keys, self.ecdh.public_key());
        append_bytes(&mut keys, self.kem.public_key());
        sha256(keys.as_slice())
    }
}

/// A peer's public keys, read from its address.
pub struct PeerPublicKeys {
    /// The peer's ECDH public key.
    pub ecdh: Vec<u8>,
    /// The peer's KEM public key.
    pub kem: Vec<u8>,
}

impl PeerPublicKeys {
    /// Read a peer's keys from its public address.
    ///
    /// Errors with [`ParamantError::Serialization`] if the address is not
    /// JSON, and with [`ParamantError::InvalidKey`] if a member is not valid
    /// hex. An absent member reads as the empty key.
    pub fn from_address(address: &str) -> (r: ParamantResult<Self>)
        ensures
            match address_keys_spec(address@) {
                Ok((ecdh, kem)) => r matches Ok(p) && p.ecdh@ == ecdh && p.kem@ == kem,
                Err(true) => r matches Err(e) && e is Serialization,
                Err(false) => r matches Err(e) && e is InvalidKey,
            },
    {
        proof {
            reveal_strlit("ecdh");
            reveal_strlit("kem");
            assert("ecdh"@ =~= ecdh_member());
            assert("kem"@ =~= kem_member());
        }
        let (ecdh_text, kem_text) = match json_str_members(address, "ecdh", "kem") {
            Ok(fields) => fields,
            Err(e) => { return Err(ParamantError::Serialization(e)) },
        };
        proof {
            reveal_strlit("");
        }
        let ecdh = match &ecdh_text {
            Some(t) => hex_decode(t.as_str()),
            None => hex_decode(""),
        };
        let ecdh = match ecdh {
            Some(b) => b,
            None => { return Err(ParamantError::InvalidKey(String::from_str("Ongeldige ECDH hex"))) },
        };
        let kem = match &kem_text {
            Some(t) => hex_decode(t.as_str()),
            None => hex_decode(""),
        };
        let kem = match kem {
            Some(b) => b,
            None => { return Err(ParamantError::InvalidKey(String::from_str("Ongeldige KEM hex"))) },
        };
        Ok(PeerPublicKeys { ecdh, kem })
    }
}

} // verus!
