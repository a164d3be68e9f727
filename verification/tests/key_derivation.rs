use ipet::key::derive_key;
use ipet::key::local_identity;
use ipet::key::resolve_identity;
use ipet::key::seed_for;
use ipet::key::stretch_seed;
use ipet::key::MachineIdentity;
use ipet::key::KEY_SIZE;

fn identity(username: &str, hostname: &str) -> MachineIdentity {
    MachineIdentity { username: username.to_string(), hostname: hostname.to_string() }
}

#[test]
fn key_is_the_same_on_every_call() {
    let alice = identity("alice", "box");
    assert_eq!(derive_key(&alice), derive_key(&alice));
    assert_eq!(derive_key(&alice), derive_key(&alice.clone()));
    assert_eq!(derive_key(&alice), derive_key(&identity("alice", "box")));
}

#[test]
fn key_for_a_known_identity() {
    let expected: [u8; 32] = [
        105, 224, 47, 208, 219, 70, 244, 72, 123, 242, 21, 152, 163, 144, 145, 48, 181, 246, 118,
        228, 132, 42, 157, 120, 209, 166, 114, 92, 229, 32, 59, 128,
    ];
    assert_eq!(derive_key(&identity("alice", "box")), expected);
}

#[test]
fn key_for_the_placeholder_identity() {
    let expected: [u8; 32] = [
        105, 224, 47, 208, 219, 118, 16, 40, 20, 182, 164, 52, 7, 78, 84, 128, 95, 22, 156, 108,
        111, 174, 229, 176, 221, 200, 5, 180, 113, 46, 129, 192,
    ];
    assert_eq!(derive_key(&resolve_identity(None, None)), expected);
}

#[test]
fn key_for_names_outside_ascii() {
    let expected: [u8; 32] = [
        105, 224, 47, 208, 219, 220, 9, 24, 3, 182, 65, 140, 46, 170, 231, 240, 163, 26, 89, 232,
        73, 248, 137, 8, 221, 74, 5, 232, 141, 78, 144, 160,
    ];
    assert_eq!(derive_key(&identity("zoë", "café")), expected);
}

#[test]
fn key_depends_on_user_and_host() {
    let key = derive_key(&identity("alice", "box"));
    assert_ne!(key, derive_key(&identity("alice", "bax")));
    assert_ne!(key, derive_key(&identity("alicf", "box")));
}

#[test]
fn key_has_thirty_two_bytes() {
    assert_eq!(KEY_SIZE, 32);
    assert_eq!(derive_key(&identity("alice", "box")).len(), KEY_SIZE);
}

#[test]
fn seed_joins_tag_user_host_and_version() {
    assert_eq!(seed_for(&identity("alice", "box")), "ipet_alice_box_secret_key_v1");
    assert_eq!(seed_for(&identity("", "")), "ipet___secret_key_v1");
}

#[test]
fn stretch_cycles_over_the_seed_and_wraps() {
    let key = stretch_seed(&[1, 2, 200]);
    assert_eq!(key[0], 1);
    assert_eq!(key[1], 4);
    assert_eq!(key[2], 88);
    assert_eq!(key[3], 4);
    assert_eq!(key[4], 10);
    assert_eq!(key[5], 176);
    assert_eq!(key[31], 64);
}

#[test]
fn stretch_of_a_long_seed_uses_its_first_bytes() {
    let seed: Vec<u8> = (0..100u8).map(|i| i + 1).collect();
    let key = stretch_seed(&seed);
    assert_eq!(key[0], 1);
    assert_eq!(key[9], 100);
    assert_eq!(key[15], 0);
    assert_eq!(key[31], 0);
    assert_eq!(key[30], 193);
}

#[test]
fn stretch_of_empty_seed_is_zero() {
    assert_eq!(stretch_seed(&[]), [0u8; 32]);
}

#[test]
fn missing_names_take_placeholders() {
    let both = resolve_identity(None, None);
    assert_eq!(both.username, "ipet");
    assert_eq!(both.hostname, "localhost");
    let user_only = resolve_identity(Some("alice".to_string()), None);
    assert_eq!(user_only, identity("alice", "localhost"));
    let host_only = resolve_identity(None, Some("box".to_string()));
    assert_eq!(host_only, identity("ipet", "box"));
    let neither = resolve_identity(Some("alice".to_string()), Some("box".to_string()));
    assert_eq!(neither, identity("alice", "box"));
}

#[test]
fn local_identity_keeps_the_user_name_given() {
    assert_eq!(local_identity(Some("alice".to_string())).username, "alice");
    assert_eq!(local_identity(None).username, "ipet");
}

#[test]
fn local_identity_is_stable() {
    let first = local_identity(Some("alice".to_string()));
    let second = local_identity(Some("alice".to_string()));
    assert_eq!(first, second);
    assert_eq!(derive_key(&first), derive_key(&second));
}
