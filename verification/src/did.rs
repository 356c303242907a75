//! Decentralised identifiers of the `did:key` kind, and the base64 spelling
//! of key material.

use crate::models::{DIDResult, IdentityView};
use crate::strings::{chars_of, join2, starts_with};
use crate::AppState;
use vstd::prelude::*;
use vstd::string::*;

verus! {

/// The 64 characters of base64, in the order of their values.
pub open spec fn base64_alphabet() -> Seq<char> {
    "ABCDEFGHIJKLMNOPQRSTUVWXYZabcdefghijklmnopqrstuvwxyz0123456789+/"@
}

/// The four characters that spell a group of one, two or three bytes: the
/// bytes are read as one number of 24 bits, missing bytes as zero, and each
/// of its four sextets picks a character; sextets that hold no bit of the
/// input are spelled `=`.
pub open spec fn base64_group(b: Seq<u8>) -> Seq<char>
    recommends
        1 <= b.len() <= 3,
{
    let b1 = if b.len() > 1 {
        b[1] as int
    } else {
        0
    };
    let b2 = if b.len() > 2 {
        b[2] as int
    } else {
        0
    };
    let n = (b[0] as int) * 65536 + b1 * 256 + b2;
    seq![
        base64_alphabet()[n / 262144],
        base64_alphabet()[(n / 4096) % 64],
        if b.len() > 1 {
            base64_alphabet()[(n / 64) % 64]
        } else {
            '='
        },
        if b.len() > 2 {
            base64_alphabet()[n % 64]
        } else {
            '='
        },
    ]
}

/// The base64 spelling of `bytes`, with padding: group after group of three
/// bytes, the last group being shorter where the length asks for it.
pub open spec fn base64(bytes: Seq<u8>) -> Seq<char>
    decreases bytes.len(),
{
    if bytes.len() == 0 {
        Seq::empty()
    } else if bytes.len() <= 3 {
        base64_group(bytes)
    } else {
        base64_group(bytes.take(3)) + base64(bytes.skip(3))
    }
}

fn sextet(v: usize) -> (r: &'static str)
    requires
        v < 64,
    ensures
        r@ == seq![base64_alphabet()[v as int]],
{
    let alphabet = "ABCDEFGHIJKLMNOPQRSTUVWXYZabcdefghijklmnopqrstuvwxyz0123456789+/";
    proof {
        reveal_strlit("ABCDEFGHIJKLMNOPQRSTUVWXYZabcdefghijklmnopqrstuvwxyz0123456789+/");
        assert(alphabet@.len() == 64);
        assert(is_ascii(alphabet));
    }
    let r = alphabet.substring_ascii(v, v + 1);
    assert(r@ =~= seq![base64_alphabet()[v as int]]);
    r
}

/// Spells bytes in base64, with padding.
pub fn base64_simple(bytes: &[u8]) -> (out: String)
    ensures
        out@ == base64(bytes@),
{
    let mut out = String::new();
    let mut i: usize = 0;
    assert(bytes@.skip(0) =~= bytes@);
    while i < bytes.len()
        invariant
            i <= bytes.len(),
            out@ + base64(bytes@.skip(i as int)) == base64(bytes@),
        decreases bytes.len() - i,
    {
        let left = bytes.len() - i;
        let ghost rest = bytes@.skip(i as int);
        let ghost before = out@;
        let b0 = bytes[i] as usize;
        let b1 = if left > 1 {
            bytes[i + 1] as usize
        } else {
            0
        };
        let b2 = if left > 2 {
            bytes[i + 2] as usize
        } else {
            0
        };
        let n: usize = b0 * 65536 + b1 * 256 + b2;
        let ghost group = if left > 3 {
            rest.take(3)
        } else {
            rest
        };
        proof {
            assert(group[0] == bytes@[i as int]);
            if left > 1 {
                assert(group[1] == bytes@[i + 1]);
            }
            if left > 2 {
                assert(group[2] == bytes@[i + 2]);
            }
            reveal_strlit("=");
        }
        out.append(sextet(n / 262144));
        out.append(sextet((n / 4096) % 64));
        if left > 1 {
            out.append(sextet((n / 64) % 64));
        } else {
            out.append("=");
        }
        if left > 2 {
            out.append(sextet(n % 64));
        } else {
            out.append("=");
        }
        assert(out@ =~= before + base64_group(group));
        if left > 3 {
            assert(rest.skip(3) =~= bytes@.skip(i + 3));
            i = i + 3;
        } else {
            assert(bytes@.skip(bytes.len() as int) =~= Seq::<u8>::empty());
            assert(base64(Seq::<u8>::empty()) =~= Seq::<char>::empty());
            i = bytes.len();
        }
    }
    assert(bytes@.skip(bytes.len() as int) =~= Seq::<u8>::empty());
    out
}

/// What makes a text look like a `did:key` identifier: it starts with
/// `did:key:z` and is longer than twelve bytes.
pub open spec fn looks_like_did(did: &str) -> bool {
    "did:key:z"@.is_prefix_of(did@) && did.len() > 12
}

/// Whether a text looks like a `did:key` identifier.
pub fn validate_did(did: &str) -> (r: bool)
    ensures
        r == looks_like_did(did),
{
    starts_with(did, "did:key:z") && did.len() > 12
}

/// The base58 spelling that `bs58` gives to bytes, in the Bitcoin alphabet.
pub uninterp spec fn base58_text(bytes: Seq<u8>) -> Seq<char>;

/// The Ed25519 public key that belongs to a secret key of 32 bytes.
pub uninterp spec fn ed25519_public_key(secret: Seq<u8>) -> Seq<u8>;

/// Calls `bs58::encode` and `EncodeBuilder::into_string`. Believed: the
/// result is the spelling named by [`base58_text`].
#[verifier::external_body]
pub(crate) fn base58(bytes: &[u8]) -> (r: String)
    ensures
        r@ == base58_text(bytes@),
{
    bs58::encode(bytes).into_string()
}

/// Calls `ed25519_dalek::SigningKey::generate` with the operating system's
/// random source and hands out the secret key. Nothing is claimed of the
/// result: it is drawn at random.
#[verifier::external_body]
pub(crate) fn new_secret_key() -> (secret: [u8; 32]) {
    ed25519_dalek::SigningKey::generate(&mut rand::rngs::OsRng).to_bytes()
}

/// Calls `ed25519_dalek::SigningKey::from_bytes` and hands out the bytes of
/// its `verifying_key`. Believed: the result is the key named by
/// [`ed25519_public_key`].
#[verifier::external_body]
pub(crate) fn public_key(secret: &[u8; 32]) -> (public: [u8; 32])
    ensures
        public@ == ed25519_public_key(secret@),
{
    ed25519_dalek::SigningKey::from_bytes(secret).verifying_key().to_bytes()
}

/// The multibase spelling of an Ed25519 public key: `z`, then base58 of the
/// two bytes `0xed 0x01` followed by the key.
pub open spec fn multibase_of(public: Seq<u8>) -> Seq<char> {
    "z"@ + base58_text(seq![0xedu8, 0x01u8] + public)
}

/// The `did:key` identifier of an Ed25519 public key.
pub fn did_for_key(public: &[u8; 32]) -> (r: DIDResult)
    ensures
        r.public_key_multibase@ == multibase_of(public@),
        r.did@ == "did:key:"@ + multibase_of(public@),
{
    let mut prefixed: Vec<u8> = Vec::new();
    prefixed.push(0xed);
    prefixed.push(0x01);
    let mut i: usize = 0;
    while i < 32
        invariant
            i <= 32,
            prefixed@ == seq![0xedu8, 0x01u8] + public@.take(i as int),
        decreases 32 - i,
    {
        prefixed.push(public[i]);
        assert(public@.take(i + 1) =~= public@.take(i as int).push(public@[i as int]));
        i = i + 1;
    }
    assert(public@.take(32) =~= public@);
    let multibase = join2("z", base58(prefixed.as_slice()).as_str());
    let did = join2("did:key:", multibase.as_str());
    DIDResult { did, public_key_multibase: multibase }
}

/// A freshly generated identity: the identifier, and the secret key in
/// base64 for the keychain.
#[derive(Debug, PartialEq, Eq)]
pub struct GeneratedDid {
    pub result: DIDResult,
    pub private_key: String,
}

/// Generates an Ed25519 key pair and derives its `did:key` identifier. The
/// secret is drawn at random; everything else follows from it.
pub fn generate_did() -> (r: GeneratedDid)
    ensures
        exists|secret: Seq<u8>|
            {
                &&& secret.len() == 32
                &&& r.private_key@ == #[trigger] base64(secret)
                &&& r.result.public_key_multibase@ == multibase_of(ed25519_public_key(secret))
                &&& r.result.did@ == "did:key:"@ + multibase_of(ed25519_public_key(secret))
            },
{
    let secret = new_secret_key();
    let public = public_key(&secret);
    let result = did_for_key(&public);
    let private_key = base64_simple(secret.as_slice());
    assert(private_key@ == base64(secret@));
    GeneratedDid { result, private_key }
}

/// A text with every occurrence of `pattern` taken out, scanning from the
/// left.
pub open spec fn without(s: Seq<char>, pattern: Seq<char>) -> Seq<char>
    decreases s.len(),
{
    if pattern.len() == 0 || s.len() < pattern.len() {
        s
    } else if pattern.is_prefix_of(s) {
        without(s.skip(pattern.len() as int), pattern)
    } else {
        seq![s[0]] + without(s.skip(1), pattern)
    }
}

fn prefix_at(s: &Vec<char>, from: usize, pattern: &Vec<char>) -> (r: bool)
    requires
        from <= s.len(),
    ensures
        r == pattern@.is_prefix_of(s@.skip(from as int)),
{
    if pattern.len() > s.len() - from {
        return false;
    }
    let mut k: usize = 0;
    while k < pattern.len()
        invariant
            k <= pattern.len(),
            from + pattern.len() <= s.len(),
            forall|j: int| 0 <= j < k ==> s@[from + j] == pattern@[j],
        decreases pattern.len() - k,
    {
        if s[from + k] != pattern[k] {
            assert(s@.skip(from as int).subrange(0, pattern@.len() as int)[k as int]
                != pattern@[k as int]);
            return false;
        }
        k = k + 1;
    }
    assert(pattern@ =~= s@.skip(from as int).subrange(0, pattern@.len() as int));
    true
}

/// Takes every occurrence of `pattern` out of `s`. An empty pattern occurs
/// nowhere.
pub fn remove_all(s: &str, pattern: &str) -> (r: String)
    ensures
        r@ == without(s@, pattern@),
{
    let text = chars_of(s);
    let pat = chars_of(pattern);
    if pat.len() == 0 {
        return s.to_owned();
    }
    let mut out = String::new();
    let mut i: usize = 0;
    assert(text@.skip(0) =~= text@);
    while i < text.len()
        invariant
            i <= text.len(),
            text@ == s@,
            pat@ == pattern@,
            pat@.len() > 0,
            out@ + without(text@.skip(i as int), pat@) == without(text@, pat@),
        decreases text.len() - i,
    {
        let ghost rest = text@.skip(i as int);
        let ghost before = out@;
        if text.len() - i < pat.len() {
            out.append(s.substring_char(i, text.len()));
            assert(text@.skip(text.len() as int) =~= Seq::<char>::empty());
            assert(out@ =~= before + rest);
            i = text.len();
        } else if prefix_at(&text, i, &pat) {
            assert(rest.skip(pat@.len() as int) =~= text@.skip(i + pat.len()));
            i = i + pat.len();
        } else {
            out.append(s.substring_char(i, i + 1));
            assert(rest.skip(1) =~= text@.skip(i + 1));
            assert(s@.subrange(i as int, i + 1) =~= seq![rest[0]]);
            assert(out@ =~= before + seq![rest[0]]);
            i = i + 1;
        }
    }
    assert(text@.skip(text.len() as int) =~= Seq::<char>::empty());
    out
}

/// The identity record with a new identifier and its key.
pub open spec fn with_did(identity: IdentityView, did: Seq<char>, key: Seq<char>) -> IdentityView {
    IdentityView { did: Some(did), did_public_key: Some(key), ..identity }
}

/// Records a generated identifier and its public key on the identity.
pub fn store_did(did: &DIDResult, state: &mut AppState)
    ensures
        final(state).db@ == old(state).db@.with_identity(
            with_did(old(state).db@.identity, did.did@, did.public_key_multibase@),
        ),
        final(state).sync == old(state).sync,
{
    let mut identity = state.db.identity().clone();
    identity.did = Some(did.did.clone());
    identity.did_public_key = Some(did.public_key_multibase.clone());
    state.db.set_identity(identity);
}

/// Records an identifier that the server generated. Its public key is the
/// identifier without `did:key:`.
pub fn store_server_did(did: String, state: &mut AppState)
    ensures
        final(state).db@ == old(state).db@.with_identity(
            with_did(old(state).db@.identity, did@, without(did@, "did:key:"@)),
        ),
        final(state).sync == old(state).sync,
{
    proof {
        reveal_strlit("did:key:");
    }
    let key = remove_all(did.as_str(), "did:key:");
    let mut identity = state.db.identity().clone();
    identity.did = Some(did);
    identity.did_public_key = Some(key);
    state.db.set_identity(identity);
}

/// The identifier on record, if there is one, with its public key (empty
/// where none is on record).
pub fn get_stored_did(state: &AppState) -> (r: Option<DIDResult>)
    ensures
        r is Some == state.db@.identity.did is Some,
        r is Some ==> {
            &&& r->0.did@ == state.db@.identity.did->0
            &&& r->0.public_key_multibase@ == match state.db@.identity.did_public_key {
                Some(k) => k,
                None => Seq::empty(),
            }
        },
{
    let identity = state.db.identity();
    match &identity.did {
        None => None,
        Some(did) => Some(
            DIDResult {
                did: did.clone(),
                public_key_multibase: match &identity.did_public_key {
                    Some(k) => k.clone(),
                    None => String::new(),
                },
            },
        ),
    }
}

} // verus!
