//! Machine-bound key derivation.
//!
//! The key is a function of the local user name and host name alone, so it
//! can be recomputed on every use and is never stored.

use vstd::prelude::*;
use vstd::string::*;
use vstd::utf8::*;

verus! {

/// Number of bytes in a derived key.
pub const KEY_SIZE: usize = 32;

/// User name used when the environment does not provide one.
pub open spec fn fallback_username() -> Seq<char> {
    "ipet"@
}

/// Host name used when the system does not report one.
pub open spec fn fallback_hostname() -> Seq<char> {
    "localhost"@
}

/// The local account and machine a key is bound to.
#[derive(Debug, Clone, PartialEq, Eq)]
pub struct MachineIdentity {
    pub username: String,
    pub hostname: String,
}

/// The text the key is stretched from: a fixed tag, the user name, the host
/// name and a fixed version tag, joined by underscores.
pub open spec fn seed_text(username: Seq<char>, hostname: Seq<char>) -> Seq<char> {
    "ipet_"@ + username + "_"@ + hostname + "_secret_key_v1"@
}

/// Byte `i` of the key stretched from `seed`: the seed byte at position
/// `i` modulo the seed length, times `i + 1`, modulo 256.
pub open spec fn stretched_byte(seed: Seq<u8>, i: int) -> u8 {
    ((seed[i % (seed.len() as int)] as int * (i + 1)) % 256) as u8
}

/// The 32-byte key stretched from `seed`; all zero when the seed is empty.
pub open spec fn stretched_key(seed: Seq<u8>) -> Seq<u8> {
    Seq::new(
        KEY_SIZE as nat,
        |i: int|
            if seed.len() == 0 {
                0u8
            } else {
                stretched_byte(seed, i)
            },
    )
}

/// The key that belongs to a user name and a host name.
pub open spec fn derived_key(username: Seq<char>, hostname: Seq<char>) -> Seq<u8> {
    stretched_key(encode_utf8(seed_text(username, hostname)))
}

impl MachineIdentity {
    /// The key this identity derives.
    pub open spec fn key(&self) -> Seq<u8> {
        derived_key(self.username@, self.hostname@)
    }
}

/// The user name in effect when the environment offers `found`.
pub open spec fn resolved_username(found: Option<Seq<char>>) -> Seq<char> {
    match found {
        Some(name) => name,
        None => fallback_username(),
    }
}

/// The host name in effect when the system reports `found`.
pub open spec fn resolved_hostname(found: Option<Seq<char>>) -> Seq<char> {
    match found {
        Some(name) => name,
        None => fallback_hostname(),
    }
}

/// The view of an optional string.
pub open spec fn optional_text(text: Option<String>) -> Option<Seq<char>> {
    match text {
        Some(t) => Some(t@),
        None => None,
    }
}

/// Asks the operating system for this machine's host name by calling
/// `hostname::get`, and hands it back as text, with anything that is not
/// Unicode replaced as `to_string_lossy` does. `None` when the system call
/// fails. Nothing is claimed of the name itself: it is whatever the machine
/// reports.
#[verifier::external_body]
fn system_hostname() -> (found: Option<String>) {
    match hostname::get() {
        Ok(name) => Some(name.to_string_lossy().into_owned()),
        Err(_) => None,
    }
}

/// Builds an identity from what was found of the user name and the host
/// name, putting the fixed placeholder in the place of each one missing.
pub fn resolve_identity(username: Option<String>, hostname: Option<String>) -> (identity:
    MachineIdentity)
    ensures
        identity.username@ == resolved_username(optional_text(username)),
        identity.hostname@ == resolved_hostname(optional_text(hostname)),
{
    let username = match username {
        Some(name) => name,
        None => String::from_str("ipet"),
    };
    let hostname = match hostname {
        Some(name) => name,
        None => String::from_str("localhost"),
    };
    MachineIdentity { username, hostname }
}

/// The identity of this machine for the user name found in the environment:
/// the host name is the one the operating system reports, or the placeholder
/// when it reports none.
pub fn local_identity(username: Option<String>) -> (identity: MachineIdentity)
    ensures
        identity.username@ == resolved_username(optional_text(username)),
{
    resolve_identity(username, system_hostname())
}

/// Stretches a seed to a key by cycling over its bytes and multiplying the
/// byte for position `i` by `i + 1`, wrapping at 256.
pub fn stretch_seed(seed: &[u8]) -> (key: [u8; 32])
    ensures
        key@ == stretched_key(seed@),
{
    let mut key: [u8; 32] = [0u8; 32];
    let n: usize = seed.len();
    if n == 0 {
        assert(key@ =~= stretched_key(seed@));
        return key;
    }
    let mut i: usize = 0;
    while i < 32
        invariant
            i <= 32,
            n == seed@.len(),
            n > 0,
            forall|j: int| 0 <= j < i ==> key@[j] == stretched_byte(seed@, j),
        decreases 32 - i,
    {
        let factor: u8 = (i + 1) as u8;
        let byte: u8 = seed[i % n];
        key[i] = byte.wrapping_mul(factor);
        i = i + 1;
    }
    assert(key@ =~= stretched_key(seed@));
    key
}

/// Builds the seed text for an identity.
pub fn seed_for(identity: &MachineIdentity) -> (seed: String)
    ensures
        seed@ == seed_text(identity.username@, identity.hostname@),
{
    let mut seed = String::from_str("ipet_");
    seed.append(identity.username.as_str());
    seed.append("_");
    seed.append(identity.hostname.as_str());
    seed.append("_secret_key_v1");
    seed
}

/// Derives the key for an identity. The same identity always gives the same
/// key.
pub fn derive_key(identity: &MachineIdentity) -> (key: [u8; 32])
    ensures
        key@ == identity.key(),
{
    let seed = seed_for(identity);
    stretch_seed(seed.as_str().as_bytes())
}

/// Identities with the same user name and the same host name derive the same
/// key, of 32 bytes: the key depends on nothing else.
pub proof fn lemma_same_names_same_key(first: MachineIdentity, second: MachineIdentity)
    requires
        first.username@ == second.username@,
        first.hostname@ == second.hostname@,
    ensures
        first.key() == second.key(),
        first.key().len() == KEY_SIZE,
{
}

/// The seed of an identity is never empty, so every byte of its key is a
/// stretched seed byte.
pub proof fn lemma_key_bytes_are_stretched(identity: MachineIdentity, i: int)
    requires
        0 <= i < KEY_SIZE,
    ensures
        encode_utf8(seed_text(identity.username@, identity.hostname@)).len() > 0,
        identity.key()[i] == stretched_byte(
            encode_utf8(seed_text(identity.username@, identity.hostname@)),
            i,
        ),
{
    let text = seed_text(identity.username@, identity.hostname@);
    reveal_strlit("ipet_");
    assert(text.len() > 0);
    assert(encode_utf8(text) == encode_scalar(text[0] as u32) + encode_utf8(text.drop_first()));
    assert(encode_scalar(text[0] as u32).len() > 0);
}

} // verus!
