use popsicle::keys::{get_account_id_from_seed, get_collator_keys_from_seed, get_from_seed, try_get_from_seed};

fn hex32(s: &str) -> [u8; 32] {
    let mut out = [0u8; 32];
    for i in 0..32 {
        out[i] = u8::from_str_radix(&s[2 * i..2 * i + 2], 16).unwrap();
    }
    out
}

const ALICE: &str = "d43593c715fdd31c61141abd04a99fd6822c8558854ccde39a5684e7a56da27d";
const BOB: &str = "8eaf04151687736326c9fea17e25fc5287613693c912909cb226aa4794f26a48";

#[test]
fn alice_and_bob_public_keys() {
    assert_eq!(get_from_seed("Alice"), hex32(ALICE));
    assert_eq!(get_from_seed("Bob"), hex32(BOB));
}

#[test]
fn account_and_collator_keys_are_the_public_key() {
    for seed in ["Alice", "Bob", "Charlie", "Alice//stash", "Ferdie//stash"] {
        let public = get_from_seed(seed);
        assert_eq!(get_account_id_from_seed(seed), public);
        assert_eq!(get_collator_keys_from_seed(seed), public);
    }
}

#[test]
fn stash_keys_differ_from_plain_keys() {
    assert_ne!(get_from_seed("Alice//stash"), get_from_seed("Alice"));
    assert_ne!(get_from_seed("Alice"), get_from_seed("Bob"));
}

#[test]
fn try_get_from_seed_agrees_and_refuses_empty_seed() {
    assert_eq!(try_get_from_seed("Alice"), Some(hex32(ALICE)));
    assert_eq!(try_get_from_seed(""), None);
}
