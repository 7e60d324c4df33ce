//! The identifiers that the core speaks of: 32-byte chain ids, DIDs, and BLS identity keys.

use vstd::prelude::*;
use vstd::utf8::*;

verus! {

/// A 32-byte chain identifier, such as a singleton's launcher id or a store root.
#[derive(Debug, Clone, Copy, Eq, Hash)]
pub struct Bytes32 {
    bytes: [u8; 32],
}

impl View for Bytes32 {
    type V = Seq<u8>;

    closed spec fn view(&self) -> Seq<u8> {
        self.bytes@
    }
}

impl PartialEq for Bytes32 {
    fn eq(&self, other: &Bytes32) -> (res: bool) {
        let mut i: usize = 0;
        while i < 32
            invariant
                0 <= i <= 32,
                forall|j: int| 0 <= j < i ==> self.bytes@[j] == other.bytes@[j],
            decreases 32 - i,
        {
            if self.bytes[i] != other.bytes[i] {
                return false;
            }
            i = i + 1;
        }
        assert(self.bytes@ =~= other.bytes@);
        true
    }
}

impl vstd::std_specs::cmp::PartialEqSpecImpl for Bytes32 {
    open spec fn obeys_eq_spec() -> bool {
        true
    }

    open spec fn eq_spec(&self, other: &Bytes32) -> bool {
        self@ == other@
    }
}

impl From<[u8; 32]> for Bytes32 {
    fn from(bytes: [u8; 32]) -> (res: Bytes32) {
        Bytes32 { bytes }
    }
}

impl vstd::std_specs::convert::FromSpecImpl<[u8; 32]> for Bytes32 {
    open spec fn obeys_from_spec() -> bool {
        true
    }

    closed spec fn from_spec(bytes: [u8; 32]) -> Bytes32 {
        Bytes32 { bytes }
    }
}

impl Bytes32 {
    /// Converting from an array wraps its bytes as they are.
    pub proof fn from_keeps_the_bytes(bytes: [u8; 32])
        ensures
            <Bytes32 as vstd::std_specs::convert::FromSpec<[u8; 32]>>::from_spec(bytes)@ == bytes@,
    {
    }

    /// Wrap 32 bytes.
    pub fn new(bytes: [u8; 32]) -> (res: Bytes32)
        ensures
            res@ == bytes@,
    {
        Bytes32 { bytes }
    }

    /// The 32 bytes.
    pub fn to_bytes(&self) -> (res: [u8; 32])
        ensures
            res@ == self@,
    {
        self.bytes
    }
}

/// What `dig_identity::Did::parse` makes of a text: the canonical DID text and the 32 bytes of its
/// launcher id, or `None` where the text is not a `did:chia:` identifier.
pub uninterp spec fn parsed_did(text: Seq<char>) -> Option<(Seq<char>, Seq<u8>)>;

/// A DID as a mathematical value.
#[verifier::ext_equal]
pub struct DidView {
    /// The `did:chia:` text.
    pub text: Seq<char>,
    /// The launcher id of the DID singleton.
    pub launcher_id: Seq<u8>,
}

impl DidView {
    /// The text parses, as it stands, to this very DID.
    pub open spec fn valid(self) -> bool {
        &&& parsed_did(self.text) == Some((self.text, self.launcher_id))
        &&& self.text.len() == 68
        &&& is_ascii_chars(self.text)
        &&& self.launcher_id.len() == 32
    }
}

/// A Chia decentralized identifier (`did:chia:…`) with the launcher id that its text encodes.
///
/// A `Did` exists only as the result of a successful [`Did::parse`].
#[derive(Debug, PartialEq, Eq, Hash)]
pub struct Did {
    text: String,
    launcher_id: Bytes32,
}

impl View for Did {
    type V = DidView;

    closed spec fn view(&self) -> DidView {
        DidView { text: self.text@, launcher_id: self.launcher_id@ }
    }
}

impl Clone for Did {
    fn clone(&self) -> (res: Did)
        ensures
            res == *self,
    {
        proof {
            use_type_invariant(self);
        }
        Did { text: self.text.clone(), launcher_id: self.launcher_id }
    }
}

impl Did {
    #[verifier::type_invariant]
    closed spec fn wf(self) -> bool {
        self@.valid()
    }

    /// Parse a DID text, tolerating surrounding whitespace; `None` if it is not a valid `did:chia:`
    /// identifier.
    pub fn parse(text: &str) -> (res: Option<Did>)
        ensures
            match res {
                Some(did) => parsed_did(text@) == Some((did@.text, did@.launcher_id)) && did@.valid(),
                None => parsed_did(text@) is None,
            },
    {
        match parse_did(text) {
            Some((text, launcher_id)) => Some(Did { text, launcher_id: Bytes32::new(launcher_id) }),
            None => None,
        }
    }

    /// The canonical DID text.
    pub fn as_str(&self) -> (res: &str)
        ensures
            res@ == self@.text,
            self@.valid(),
    {
        proof {
            use_type_invariant(self);
        }
        self.text.as_str()
    }

    /// The launcher id of the DID singleton.
    pub fn launcher_id(&self) -> (res: Bytes32)
        ensures
            res@ == self@.launcher_id,
            self@.valid(),
    {
        proof {
            use_type_invariant(self);
        }
        self.launcher_id
    }
}

/// Calls `dig_identity::Did::parse`.
///
/// Trusted: the result is a function of the text alone. A text that parses is a bech32m string of
/// the human-readable part `did:chia:`, the separator, 52 characters for the 32 payload bytes and
/// 6 for the checksum, so the canonical text (the input without surrounding whitespace) has 68
/// ASCII characters; being free of surrounding whitespace it parses to itself.
#[verifier::external_body]
fn parse_did(text: &str) -> (res: Option<(String, [u8; 32])>)
    ensures
        match res {
            Some((canonical, launcher_id)) => {
                &&& parsed_did(text@) == Some((canonical@, launcher_id@))
                &&& parsed_did(canonical@) == Some((canonical@, launcher_id@))
                &&& canonical@.len() == 68
                &&& is_ascii_chars(canonical@)
            },
            None => parsed_did(text@) is None,
        },
{
    let did = dig_identity::Did::parse(text)?;
    Some((did.as_str().to_string(), did.launcher_id().to_bytes()))
}

/// The 48-byte compressed public key of a BLS identity secret key, or `None` where the 32 bytes are
/// not a secret key: what `dig_identity::bls::SecretKey::from_bytes` and
/// `dig_identity::bls::public_key_bytes` make of them.
pub uninterp spec fn bls_public_key(secret: Seq<u8>) -> Option<Seq<u8>>;

/// A BLS12-381 identity secret key. The one key signs (G2) and seals (G1).
///
/// A `SecretKey` exists only for bytes that are a secret key.
pub struct SecretKey {
    bytes: [u8; 32],
    public: [u8; 48],
}

impl View for SecretKey {
    type V = Seq<u8>;

    closed spec fn view(&self) -> Seq<u8> {
        self.bytes@
    }
}

impl Clone for SecretKey {
    fn clone(&self) -> (res: SecretKey)
        ensures
            res@ == self@,
    {
        proof {
            use_type_invariant(self);
        }
        SecretKey { bytes: self.bytes, public: self.public }
    }
}

impl SecretKey {
    #[verifier::type_invariant]
    closed spec fn wf(self) -> bool {
        bls_public_key(self.bytes@) == Some(self.public@)
    }

    /// The secret key with the given big-endian bytes; `None` if they are not one.
    pub fn from_bytes(bytes: &[u8; 32]) -> (res: Option<SecretKey>)
        ensures
            match res {
                Some(secret) => secret@ == bytes@ && bls_public_key(bytes@) is Some,
                None => bls_public_key(bytes@) is None,
            },
    {
        match public_key(bytes) {
            Some(public) => Some(SecretKey { bytes: *bytes, public }),
            None => None,
        }
    }

    /// The big-endian bytes of the key.
    pub fn to_bytes(&self) -> (res: [u8; 32])
        ensures
            res@ == self@,
            bls_public_key(self@) is Some,
    {
        proof {
            use_type_invariant(self);
        }
        self.bytes
    }

    /// The compressed G1 public key that an identity publishes for this secret key.
    pub fn public_key(&self) -> (res: [u8; 48])
        ensures
            bls_public_key(self@) == Some(res@),
    {
        proof {
            use_type_invariant(self);
        }
        self.public
    }
}

/// Calls `dig_identity::bls::public_key_bytes` on the key that
/// `dig_identity::bls::SecretKey::from_bytes` reads.
///
/// Trusted: the result is a function of the bytes alone.
#[verifier::external_body]
fn public_key(secret: &[u8; 32]) -> (res: Option<[u8; 48]>)
    ensures
        match res {
            Some(key) => bls_public_key(secret@) == Some(key@),
            None => bls_public_key(secret@) is None,
        },
{
    let key = dig_identity::bls::SecretKey::from_bytes(secret).ok()?;
    Some(dig_identity::bls::public_key_bytes(&key))
}

/// What `chia_sdk_utils::Address::encode` makes of a hash and a human-readable prefix: the bech32m
/// text, or `None` where the prefix is not acceptable.
pub uninterp spec fn bech32m_address(hash: Seq<u8>, prefix: Seq<char>) -> Option<Seq<char>>;

/// Calls `chia_sdk_utils::Address::encode`.
///
/// Trusted: the result is a function of the hash and the prefix alone, and with the prefix of a
/// Chia DID it is the text that parses to that DID.
#[verifier::external_body]
fn encode_address(hash: &[u8; 32], prefix: &str) -> (res: Option<String>)
    ensures
        match res {
            Some(text) => {
                &&& bech32m_address(hash@, prefix@) == Some(text@)
                &&& prefix@ == "did:chia:"@ ==> parsed_did(text@) == Some((text@, hash@))
            },
            None => bech32m_address(hash@, prefix@) is None && prefix@ != "did:chia:"@,
        },
{
    let hash = dig_identity::Bytes32::new(*hash);
    chia_sdk_utils::Address::new(hash, prefix.to_string()).encode().ok()
}

impl Did {
    /// The DID whose singleton has the given launcher id, by the canonical bech32m codec.
    pub fn of_launcher(launcher_id: &Bytes32) -> (res: Option<Did>)
        ensures
            res matches Some(did) && did@.launcher_id == launcher_id@ && did@.valid()
                && bech32m_address(launcher_id@, "did:chia:"@) == Some(did@.text),
    {
        let text = encode_address(&launcher_id.bytes, "did:chia:")?;
        Did::parse(text.as_str())
    }
}

} // verus!
