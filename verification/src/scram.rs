//! SCRAM-SHA-256, the client's side: the messages, the client's proof and
//! the signature the server must answer with.

use vstd::prelude::*;
use vstd::utf8::encode_utf8;
use base64::Engine;
use hmac::Mac;
use rand::RngCore;
use sha2::Digest;
use crate::text::{decimal_u32, find_char, find_from, lemma_find_from_bounds, parse_u32};

verus! {

/// HMAC-SHA-256 of `message` under `key`.
pub uninterp spec fn hmac_sha256(key: Seq<u8>, message: Seq<u8>) -> Seq<u8>;

/// SHA-256 of `data`.
pub uninterp spec fn sha256(data: Seq<u8>) -> Seq<u8>;

/// The first `len` bytes of PBKDF2 with HMAC-SHA-256.
pub uninterp spec fn pbkdf2_sha256(password: Seq<u8>, salt: Seq<u8>, rounds: u32, len: usize) -> Seq<
    u8,
>;

/// The length of every key and signature of SCRAM-SHA-256, in bytes.
pub const KEY_LEN: usize = 32;

/// The standard base64 text of `bytes`, with padding.
pub uninterp spec fn base64_text(bytes: Seq<u8>) -> Seq<char>;

/// The bytes that `text` is the standard base64 text of; `None` where it is
/// none.
pub uninterp spec fn base64_bytes(text: Seq<char>) -> Option<Seq<u8>>;

/// `Hmac::<Sha256>`: keyed with `key`, fed `message`, finalized. The tag has
/// 32 bytes.
#[verifier::external_body]
fn hmac(key: &[u8], message: &[u8]) -> (tag: Vec<u8>)
    ensures
        tag@ == hmac_sha256(key@, message@),
        tag@.len() == 32,
{
    let mut mac = hmac::Hmac::<sha2::Sha256>::new_from_slice(key).expect("any key length");
    mac.update(message);
    mac.finalize().into_bytes().to_vec()
}

/// `Sha256::digest`.
#[verifier::external_body]
fn digest(data: &[u8]) -> (hash: Vec<u8>)
    ensures
        hash@ == sha256(data@),
{
    sha2::Sha256::digest(data).to_vec()
}

/// `pbkdf2::pbkdf2_hmac::<Sha256>` into a buffer of `len` bytes, which it
/// fills. The length is bounded so that the buffer can be had.
#[verifier::external_body]
fn pbkdf2(password: &[u8], salt: &[u8], rounds: u32, len: usize) -> (key: Vec<u8>)
    requires
        len <= 0x1000_0000,
    ensures
        key@ == pbkdf2_sha256(password@, salt@, rounds, len),
        key@.len() == len,
{
    let mut key = vec![0u8; len];
    pbkdf2::pbkdf2_hmac::<sha2::Sha256>(password, salt, rounds, &mut key);
    key
}

/// `Engine::encode` of base64's `STANDARD` engine. The length is bounded
/// because the encoder fails where it cannot size its buffer.
#[verifier::external_body]
pub(crate) fn base64_encode(bytes: &[u8]) -> (text: String)
    requires
        bytes@.len() <= 0x1000_0000,
    ensures
        text@ == base64_text(bytes@),
{
    base64::engine::general_purpose::STANDARD.encode(bytes)
}

/// `Engine::decode` of base64's `STANDARD` engine: the bytes, or nothing
/// where the engine refuses the text.
#[verifier::external_body]
pub(crate) fn base64_decode(text: &str) -> (bytes: Option<Vec<u8>>)
    ensures
        match bytes {
            Some(b) => base64_bytes(text@) == Some(b@),
            None => base64_bytes(text@) is None,
        },
{
    base64::engine::general_purpose::STANDARD.decode(text).ok()
}

/// `OsRng::try_fill_bytes` on 18 bytes: the raw material of a nonce, or
/// nothing where the operating system gives no randomness. Nothing is known
/// of the bytes.
#[verifier::external_body]
fn random_bytes() -> (bytes: Option<[u8; 18]>) {
    let mut bytes = [0u8; 18];
    rand::rngs::OsRng.try_fill_bytes(&mut bytes).ok().map(|_| bytes)
}

/// Byte by byte, `a` xor `b`.
pub open spec fn xor_bytes(a: Seq<u8>, b: Seq<u8>) -> Seq<u8>
    recommends
        a.len() == b.len(),
{
    Seq::new(a.len(), |i: int| a[i] ^ b[i])
}

/// `SaltedPassword`: the password, stretched with the server's salt.
pub open spec fn salted_password(password: Seq<char>, salt: Seq<u8>, rounds: u32) -> Seq<u8> {
    pbkdf2_sha256(encode_utf8(password), salt, rounds, KEY_LEN)
}

/// `ClientKey`.
pub open spec fn client_key(salted: Seq<u8>) -> Seq<u8> {
    hmac_sha256(salted, encode_utf8("Client Key"@))
}

/// `ClientProof`: the client key, xor the signature that the stored key
/// gives the messages exchanged so far.
pub open spec fn client_proof(salted: Seq<u8>, auth_message: Seq<u8>) -> Seq<u8> {
    xor_bytes(client_key(salted), hmac_sha256(sha256(client_key(salted)), auth_message))
}

/// `ServerSignature`: what the server key gives the messages exchanged so
/// far.
pub open spec fn server_signature(salted: Seq<u8>, auth_message: Seq<u8>) -> Seq<u8> {
    hmac_sha256(hmac_sha256(salted, encode_utf8("Server Key"@)), auth_message)
}

/// The client's first message without its header: `n=<user>,r=<nonce>`.
pub open spec fn first_bare(user: Seq<char>, nonce: Seq<char>) -> Seq<char> {
    "n="@ + user + ",r="@ + nonce
}

/// The client's first message: `n,,` and the bare message.
pub open spec fn client_first(user: Seq<char>, nonce: Seq<char>) -> Seq<char> {
    "n,,"@ + first_bare(user, nonce)
}

/// The client's final message without the proof: `c=biws,r=<nonce>`.
pub open spec fn final_without_proof(server_nonce: Seq<char>) -> Seq<char> {
    "c=biws,r="@ + server_nonce
}

/// `AuthMessage`: the three messages the proof is made over, joined by
/// commas.
pub open spec fn auth_message(bare: Seq<char>, server_first: Seq<char>, server_nonce: Seq<char>) -> Seq<
    char,
> {
    bare + ","@ + server_first + ","@ + final_without_proof(server_nonce)
}

/// The client's final message: what it is without the proof, then `,p=`
/// and the proof in base64.
pub open spec fn client_final(server_nonce: Seq<char>, proof_bytes: Seq<u8>) -> Seq<char> {
    final_without_proof(server_nonce) + ",p="@ + base64_text(proof_bytes)
}

/// The server's final message for a signature: `v=` and the signature in
/// base64.
pub open spec fn server_final(signature: Seq<u8>) -> Seq<char> {
    "v="@ + base64_text(signature)
}

/// What the server's first message says.
#[derive(Debug, Clone, PartialEq, Eq)]
pub struct ServerFirst {
    /// The nonce: the client's, made longer by the server.
    pub nonce: String,
    /// The salt, in base64.
    pub salt: String,
    /// The number of rounds to stretch the password with.
    pub rounds: u32,
}

/// The mathematical value of a [`ServerFirst`].
pub ghost struct ServerFirstView {
    pub nonce: Seq<char>,
    pub salt: Seq<char>,
    pub rounds: u32,
}

impl View for ServerFirst {
    type V = ServerFirstView;

    open spec fn view(&self) -> ServerFirstView {
        ServerFirstView { nonce: self.nonce@, salt: self.salt@, rounds: self.rounds }
    }
}

/// Whether the attribute `name` starts at `at`: the name, then `=`.
pub open spec fn attribute_at(text: Seq<char>, at: int, name: char) -> bool {
    0 <= at && at + 2 <= text.len() && text[at] == name && text[at + 1] == '='
}

/// What a server's first message says: `r=<nonce>,s=<salt>,i=<rounds>`,
/// with at least one round; what follows a further comma is passed over.
/// `None` for any other text.
pub open spec fn server_first(text: Seq<char>) -> Option<ServerFirstView> {
    let a = find_from(text, ',', 0);
    let b = find_from(text, ',', a + 1);
    let c = find_from(text, ',', b + 1);
    if a < text.len() && b < text.len() && attribute_at(text, 0, 'r') && attribute_at(
        text,
        a + 1,
        's',
    ) && attribute_at(text, b + 1, 'i') {
        match decimal_u32(text.subrange(b + 3, c)) {
            Some(rounds) => if rounds > 0 {
                Some(
                    ServerFirstView {
                        nonce: text.subrange(2, a),
                        salt: text.subrange(a + 3, b),
                        rounds,
                    },
                )
            } else {
                None
            },
            None => None,
        }
    } else {
        None
    }
}

/// Whether `text` starts with `prefix`.
pub open spec fn starts_with(text: Seq<char>, prefix: Seq<char>) -> bool {
    prefix.len() <= text.len() && text.subrange(0, prefix.len() as int) == prefix
}

fn has_attribute(s: &str, len: usize, at: usize, name: char) -> (b: bool)
    requires
        len == s@.len(),
        at <= len,
    ensures
        b == attribute_at(s@, at as int, name),
{
    if len - at < 2 {
        return false;
    }
    s.get_char(at) == name && s.get_char(at + 1) == '='
}

/// Reads a server's first message.
pub fn parse_server_first(message: &str) -> (r: Option<ServerFirst>)
    ensures
        match r {
            Some(m) => server_first(message@) == Some(m@),
            None => server_first(message@) is None,
        },
{
    let len = message.unicode_len();
    let a = find_char(message, ',', 0);
    if a >= len {
        return None;
    }
    let b = find_char(message, ',', a + 1);
    if b >= len {
        return None;
    }
    let c = find_char(message, ',', b + 1);
    if !has_attribute(message, len, 0, 'r') || !has_attribute(message, len, a + 1, 's')
        || !has_attribute(message, len, b + 1, 'i') {
        return None;
    }
    proof {
        lemma_find_from_bounds(message@, ',', 0);
        lemma_find_from_bounds(message@, ',', a + 1);
        lemma_find_from_bounds(message@, ',', b + 1);
    }
    let rounds = match parse_u32(message, b + 3, c) {
        Some(rounds) => rounds,
        None => {
            return None;
        },
    };
    if rounds == 0 {
        return None;
    }
    let nonce = message.substring_char(2, a).to_owned();
    let salt = message.substring_char(a + 3, b).to_owned();
    Some(ServerFirst { nonce, salt, rounds })
}

/// Whether `text` starts with `prefix`.
pub fn has_prefix(text: &str, prefix: &str) -> (b: bool)
    ensures
        b == starts_with(text@, prefix@),
{
    let n = prefix.unicode_len();
    if n > text.unicode_len() {
        return false;
    }
    let mut i: usize = 0;
    while i < n
        invariant
            i <= n == prefix@.len() <= text@.len(),
            text@.subrange(0, i as int) == prefix@.subrange(0, i as int),
        decreases n - i,
    {
        if text.get_char(i) != prefix.get_char(i) {
            proof {
                assert(text@.subrange(0, n as int)[i as int] != prefix@[i as int]);
            }
            return false;
        }
        proof {
            assert(text@.subrange(0, i + 1) =~= text@.subrange(0, i as int).push(text@[i as int]));
            assert(prefix@.subrange(0, i + 1) =~= prefix@.subrange(0, i as int).push(
                prefix@[i as int],
            ));
        }
        i = i + 1;
    }
    proof {
        assert(prefix@.subrange(0, n as int) =~= prefix@);
    }
    true
}

/// Byte by byte, `a` xor `b`.
fn xor(a: &[u8], b: &[u8]) -> (r: Vec<u8>)
    requires
        a@.len() == b@.len(),
    ensures
        r@ == xor_bytes(a@, b@),
{
    let mut r: Vec<u8> = Vec::new();
    let mut i: usize = 0;
    while i < a.len()
        invariant
            i <= a@.len() == b@.len(),
            r@.len() == i,
            forall|k: int| 0 <= k < i ==> r@[k] == a@[k] ^ b@[k],
        decreases a@.len() - i,
    {
        r.push(a[i] ^ b[i]);
        i = i + 1;
    }
    proof {
        assert(r@ =~= xor_bytes(a@, b@));
    }
    r
}

/// Stretches the password with the server's salt.
pub fn salt_password(password: &str, salt: &[u8], rounds: u32) -> (key: Vec<u8>)
    ensures
        key@ == salted_password(password@, salt@, rounds),
        key@.len() == 32,
{
    pbkdf2(password.as_bytes(), salt, rounds, KEY_LEN)
}

/// Computes the client's proof over the messages exchanged so far.
pub fn prove(salted: &[u8], auth_message: &[u8]) -> (proof_bytes: Vec<u8>)
    ensures
        proof_bytes@ == client_proof(salted@, auth_message@),
        proof_bytes@.len() == 32,
{
    let key = hmac(salted, "Client Key".as_bytes());
    let stored = digest(key.as_slice());
    let signature = hmac(stored.as_slice(), auth_message);
    xor(key.as_slice(), signature.as_slice())
}

/// Computes the signature that the server must answer with.
pub fn sign(salted: &[u8], auth_message: &[u8]) -> (signature: Vec<u8>)
    ensures
        signature@ == server_signature(salted@, auth_message@),
        signature@.len() == 32,
{
    let key = hmac(salted, "Server Key".as_bytes());
    hmac(key.as_slice(), auth_message)
}

/// Makes a nonce for a handshake: 18 random bytes, in base64. There is
/// none where the operating system gives no randomness.
pub fn fresh_nonce() -> (nonce: Option<String>)
    ensures
        nonce matches Some(text) ==> exists|bytes: Seq<u8>|
            bytes.len() == 18 && text@ == base64_text(bytes),
{
    match random_bytes() {
        Some(bytes) => Some(base64_encode(bytes.as_slice())),
        None => None,
    }
}

} // verus!
