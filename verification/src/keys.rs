//! Development keys derived from seeds, as the chain specification uses them.
//!
//! Every key here is an sr25519 key, derived by `sp_core` from the secret URI
//! `//<seed>`: a hard derivation from the public development phrase.

use sp_core::Pair;
use sp_runtime::traits::IdentifyAccount;
use vstd::prelude::*;
use vstd::string::*;

verus! {

/// The bytes of an sr25519 public key.
pub type Public = [u8; 32];

/// An account id: 32 bytes.
pub type AccountId = [u8; 32];

/// An Aura authority id: the bytes of an sr25519 public key.
pub type AuraId = [u8; 32];

/// The public key of the sr25519 pair that `sp_core` derives from the secret
/// URI `suri` with no password override, or `None` when `sp_core` refuses
/// the URI.
pub uninterp spec fn sr25519_public_of_suri(suri: Seq<char>) -> Option<Public>;

/// Calls `sp_core::sr25519::Pair::from_string(suri, None)` and hands back the
/// bytes of the pair's public key (`Pair::public`), or `None` where
/// `from_string` returns an error. Claimed: the result is
/// `sr25519_public_of_suri` of the URI, that is, a function of the URI alone.
/// Which URIs `sp_core` accepts, and which key it derives, is left unsaid.
#[verifier::external_body]
fn sr25519_public_from_suri(suri: &str) -> (public: Option<Public>)
    ensures
        public == sr25519_public_of_suri(suri@),
{
    match sp_core::sr25519::Pair::from_string(suri, None) {
        Ok(pair) => Some(pair.public().0),
        Err(_) => None,
    }
}

/// Calls `<sp_runtime::MultiSigner as IdentifyAccount>::into_account` on the
/// signer `MultiSigner::Sr25519` made from `public`. Claimed: the account id
/// has the same 32 bytes as the public key, as the `Sr25519` arm of
/// `into_account` in `sp_runtime` shows.
#[verifier::external_body]
fn account_id_of_sr25519(public: Public) -> (account: AccountId)
    ensures
        account == public,
{
    let signer = sp_runtime::MultiSigner::from(sp_core::sr25519::Public::from_raw(public));
    <[u8; 32]>::from(signer.into_account())
}

/// The secret URI of a development seed: `//` followed by the seed.
pub open spec fn dev_suri(seed: Seq<char>) -> Seq<char> {
    seq!['/', '/'] + seed
}

/// Whether `sp_core` derives a key from the development seed.
pub open spec fn seed_derives(seed: Seq<char>) -> bool {
    sr25519_public_of_suri(dev_suri(seed)) is Some
}

/// The public key that `sp_core` derives from the development seed.
pub open spec fn dev_public(seed: Seq<char>) -> Public {
    sr25519_public_of_suri(dev_suri(seed))->0
}

/// Builds the secret URI `//<seed>`.
fn dev_suri_string(seed: &str) -> (suri: String)
    ensures
        suri@ == dev_suri(seed@),
        suri@ == seq!['/', '/'] + seed@,
{
    let mut suri = String::from_str("//");
    proof {
        reveal_strlit("//");
    }
    suri.append(seed);
    suri
}

/// The sr25519 public key of the development seed `seed` (derived from `//<seed>`).
pub fn get_from_seed(seed: &str) -> (public: Public)
    requires
        seed_derives(seed@),
    ensures
        public == dev_public(seed@),
        Some(public) == sr25519_public_of_suri(seq!['/', '/'] + seed@),
{
    let suri = dev_suri_string(seed);
    sr25519_public_from_suri(suri.as_str()).unwrap()
}

/// The public key of the development seed `seed`, or `None` where `sp_core`
/// refuses the secret URI `//<seed>`.
pub fn try_get_from_seed(seed: &str) -> (public: Option<Public>)
    ensures
        public == sr25519_public_of_suri(dev_suri(seed@)),
        public == sr25519_public_of_suri(seq!['/', '/'] + seed@),
{
    let suri = dev_suri_string(seed);
    sr25519_public_from_suri(suri.as_str())
}

/// The Aura collator key of the development seed: the sr25519 key of the seed.
pub fn get_collator_keys_from_seed(seed: &str) -> (key: AuraId)
    requires
        seed_derives(seed@),
    ensures
        key == dev_public(seed@),
        Some(key) == sr25519_public_of_suri(seq!['/', '/'] + seed@),
{
    get_from_seed(seed)
}

/// The account id of the development seed: the account of the sr25519
/// signer, which has the bytes of the seed's public key.
pub fn get_account_id_from_seed(seed: &str) -> (account: AccountId)
    requires
        seed_derives(seed@),
    ensures
        account == dev_public(seed@),
        Some(account) == sr25519_public_of_suri(seq!['/', '/'] + seed@),
{
    account_id_of_sr25519(get_from_seed(seed))
}

/// The secret URI of every seed, whatever characters the seed holds, is the
/// hard-derivation prefix `//` followed by the seed unchanged: two characters
/// longer than the seed, `/` and `/` first, then the seed itself.
pub proof fn law_dev_suri_prefixes_the_seed(seed: Seq<char>)
    ensures
        dev_suri(seed).len() == seed.len() + 2,
        dev_suri(seed)[0] == '/',
        dev_suri(seed)[1] == '/',
        forall|i: int| 0 <= i < seed.len() ==> #[trigger] dev_suri(seed)[i + 2] == seed[i],
        dev_suri(seed).subrange(2, seed.len() + 2int) == seed,
{
    assert(dev_suri(seed).subrange(2, seed.len() + 2int) =~= seed);
}

/// The key of a seed is the key that `sp_core` derives from `//` followed by
/// the seed, for every seed, including seeds that hold paths such as
/// `Alice//stash`: a seed derives exactly when that URI does.
pub proof fn law_dev_public_is_key_of_hard_suri(seed: Seq<char>)
    ensures
        seed_derives(seed) <==> sr25519_public_of_suri(seq!['/', '/'] + seed) is Some,
        seed_derives(seed) ==> Some(dev_public(seed)) == sr25519_public_of_suri(seq!['/', '/'] + seed),
{
}

/// Two seeds get the URIs of two different seeds: the URI determines the seed.
pub proof fn law_dev_suri_is_injective(a: Seq<char>, b: Seq<char>)
    ensures
        dev_suri(a) == dev_suri(b) ==> a == b,
{
    if dev_suri(a) == dev_suri(b) {
        law_dev_suri_prefixes_the_seed(a);
        law_dev_suri_prefixes_the_seed(b);
        assert(a =~= dev_suri(a).subrange(2, a.len() + 2int));
        assert(b =~= dev_suri(b).subrange(2, b.len() + 2int));
    }
}

} // verus!
