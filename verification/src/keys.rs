//! Key material: resolving a secret seed phrase into a signing
//! capability, and generating a fresh seed for a new account. The
//! derivation is a pure function of the phrase — no I/O, no
//! randomness — so the same seed always yields the same identity.

use vstd::prelude::*;

use crate::error::GatewayError;
use crate::ss58::ss58_of;
use crate::ss58::AccountIdentity;

verus! {

/// The sr25519 public key derived from a seed phrase, named: 32 bytes
/// that depend on the phrase alone, or nothing where the phrase is no
/// well-formed secret URI.
pub uninterp spec fn sr25519_public_of(seed: Seq<char>) -> Option<Seq<u8>>;

/// Relies on sp_core's sr25519 `Pair::from_string` (with no password
/// override): derives the key pair of a secret-URI phrase and hands
/// back the raw bytes of its public key; fails exactly where the
/// phrase does not parse as a secret URI. Deterministic in the phrase.
#[verifier::external_body]
fn derive_public(seed: &str) -> (r: Option<Vec<u8>>)
    ensures
        r is Some <==> sr25519_public_of(seed@) is Some,
        r matches Some(p) ==> (Some(p@) == sr25519_public_of(seed@) && p@.len() == 32),
{
    match <sp_core::sr25519::Pair as sp_core::Pair>::from_string(seed, None) {
        Ok(pair) => Some(sp_core::Pair::public(&pair).0.to_vec()),
        Err(_) => None,
    }
}

/// A secret-key-backed capability to sign transactions: the seed
/// phrase it came from, and the public key that phrase derives to.
pub struct SigningCapability {
    seed: String,
    public: Vec<u8>,
}

impl SigningCapability {
    /// The held public key is exactly what the held phrase derives to.
    #[verifier::type_invariant]
    closed spec fn well_formed(self) -> bool {
        &&& sr25519_public_of(self.seed@) matches Some(pk)
        &&& self.public@ == sr25519_public_of(self.seed@)->0
        &&& self.public@.len() == 32
    }

    /// The seed phrase this capability was resolved from.
    pub closed spec fn seed_view(&self) -> Seq<char> {
        self.seed@
    }

    /// The derived public key bytes.
    pub closed spec fn public_view(&self) -> Seq<u8> {
        self.public@
    }

    /// The seed phrase, for the component that actually signs.
    pub fn seed_phrase(&self) -> (r: &str)
        ensures
            r@ == self.seed_view(),
    {
        self.seed.as_str()
    }

    /// The account identity this capability signs for.
    pub fn account(&self) -> (r: AccountIdentity)
        ensures
            Some(r@) == sr25519_public_of(self.seed_view()),
            r@.len() == 32,
    {
        proof {
            use_type_invariant(self);
        }
        let mut out: Vec<u8> = Vec::new();
        let mut i: usize = 0;
        while i < self.public.len()
            invariant
                0 <= i <= self.public@.len(),
                out@ == self.public@.subrange(0, i as int),
            decreases self.public@.len() - i,
        {
            out.push(self.public[i]);
            i = i + 1;
        }
        proof {
            assert(out@ =~= self.public@);
        }
        match AccountIdentity::from_bytes(out) {
            Some(a) => a,
            None => vstd::pervasive::unreached(),
        }
    }
}

/// Resolve a seed phrase into a signing capability: a pure function of
/// the phrase. Fails with `InvalidSeed` exactly where the phrase is no
/// well-formed derivation phrase, and only so.
pub fn resolve(seed: &str) -> (r: Result<SigningCapability, GatewayError>)
    ensures
        r matches Ok(c) ==> (c.seed_view() == seed@ && Some(c.public_view())
            == sr25519_public_of(seed@) && c.public_view().len() == 32),
        r is Err ==> (sr25519_public_of(seed@) is None && r == Err::<
            SigningCapability,
            GatewayError,
        >(GatewayError::InvalidSeed)),
{
    match derive_public(seed) {
        Some(public) => Ok(SigningCapability { seed: String::from_str(seed), public }),
        None => Err(GatewayError::InvalidSeed),
    }
}

/// Seed determinism: the derived public key is a function of the seed
/// phrase alone, so resolving equal phrases yields equal identities.
pub proof fn lemma_resolve_deterministic(s1: Seq<char>, s2: Seq<char>)
    requires
        s1 == s2,
    ensures
        sr25519_public_of(s1) == sr25519_public_of(s2),
{
}

/// Relies on rand::random: 32 bytes from the thread-local secure
/// generator. Nothing is promised of their values.
#[verifier::external_body]
fn random_bytes32() -> (r: Vec<u8>)
    ensures
        r@.len() == 32,
{
    rand::random::<[u8; 32]>().to_vec()
}

/// A hexadecimal digit character, lowercase.
pub open spec fn hex_digit(d: int) -> char {
    if d == 0 {
        '0'
    } else if d == 1 {
        '1'
    } else if d == 2 {
        '2'
    } else if d == 3 {
        '3'
    } else if d == 4 {
        '4'
    } else if d == 5 {
        '5'
    } else if d == 6 {
        '6'
    } else if d == 7 {
        '7'
    } else if d == 8 {
        '8'
    } else if d == 9 {
        '9'
    } else if d == 10 {
        'a'
    } else if d == 11 {
        'b'
    } else if d == 12 {
        'c'
    } else if d == 13 {
        'd'
    } else if d == 14 {
        'e'
    } else {
        'f'
    }
}

/// Lowercase hexadecimal of a byte string: two digits per byte, high
/// nibble first.
pub open spec fn hex_of(bytes: Seq<u8>) -> Seq<char> {
    Seq::new(
        bytes.len() * 2,
        |i: int|
            if i % 2 == 0 {
                hex_digit(bytes[i / 2] as int / 16)
            } else {
                hex_digit(bytes[i / 2] as int % 16)
            },
    )
}

/// Relies on hex::encode: the lowercase hexadecimal string of the
/// bytes, two digits per byte, high nibble first.
#[verifier::external_body]
fn hex_encode(b: &Vec<u8>) -> (r: String)
    ensures
        r@ == hex_of(b@),
{
    hex::encode(b.as_slice())
}

/// Generate a fresh random 256-bit seed and format it as a hard
/// derivation phrase: two slashes followed by the 64 hexadecimal
/// digits of the generator's bytes.
pub fn generate_seed_phrase() -> (r: String)
    ensures
        r@.len() == 66,
        r@[0] == '/',
        r@[1] == '/',
        exists|b: Seq<u8>| b.len() == 32 && r@ == seq!['/', '/'] + hex_of(b),
{
    let bytes = random_bytes32();
    let hexpart = hex_encode(&bytes);
    let mut seed = String::from_str("//");
    seed.append(hexpart.as_str());
    proof {
        reveal_strlit("//");
        assert("//"@ =~= seq!['/', '/']);
        assert(seed@ == seq!['/', '/'] + hex_of(bytes@));
        assert(seed@.len() == 66);
        assert(seed@[0] == '/');
        assert(seed@[1] == '/');
    }
    seed
}

/// Two hexadecimal renderings agree only on equal byte strings: a
/// generated phrase pins the drawn bytes down, so distinct draws give
/// distinct seed phrases.
pub proof fn lemma_hex_of_injective(b1: Seq<u8>, b2: Seq<u8>)
    requires
        b1.len() == b2.len(),
        hex_of(b1) == hex_of(b2),
    ensures
        b1 == b2,
{
    assert forall|i: int| 0 <= i < b1.len() implies b1[i] == b2[i] by {
        assert(hex_of(b1)[2 * i] == hex_of(b2)[2 * i]);
        assert(hex_of(b1)[2 * i + 1] == hex_of(b2)[2 * i + 1]);
        assert(hex_of(b1)[2 * i] == hex_digit(b1[i] as int / 16));
        assert(hex_of(b2)[2 * i] == hex_digit(b2[i] as int / 16));
        assert(hex_of(b1)[2 * i + 1] == hex_digit(b1[i] as int % 16));
        assert(hex_of(b2)[2 * i + 1] == hex_digit(b2[i] as int % 16));
        assert(b1[i] as int / 16 == b2[i] as int / 16);
        assert(b1[i] as int % 16 == b2[i] as int % 16);
        assert(b1[i] as int == 16 * (b1[i] as int / 16) + b1[i] as int % 16);
        assert(b2[i] as int == 16 * (b2[i] as int / 16) + b2[i] as int % 16);
    };
    assert(b1 =~= b2);
}

/// Distinct random draws never yield the same seed phrase.
pub proof fn lemma_distinct_draws_distinct_seeds(b1: Seq<u8>, b2: Seq<u8>)
    requires
        b1.len() == 32,
        b2.len() == 32,
        b1 != b2,
    ensures
        seq!['/', '/'] + hex_of(b1) != seq!['/', '/'] + hex_of(b2),
{
    if seq!['/', '/'] + hex_of(b1) == seq!['/', '/'] + hex_of(b2) {
        assert forall|i: int| 0 <= i < hex_of(b1).len() implies hex_of(b1)[i] == hex_of(
            b2,
        )[i] by {
            assert((seq!['/', '/'] + hex_of(b1))[2 + i] == hex_of(b1)[i]);
            assert((seq!['/', '/'] + hex_of(b2))[2 + i] == hex_of(b2)[i]);
        };
        assert(hex_of(b1) =~= hex_of(b2));
        lemma_hex_of_injective(b1, b2);
    }
}

/// A freshly generated seed and the account it derives to.
pub struct GeneratedSeed {
    pub seed: String,
    pub account: AccountIdentity,
}

/// Generate a fresh random 256-bit seed, format it as a hard
/// derivation phrase, and resolve the account identity it derives to.
/// Whatever bytes the generator hands out, the phrase is two slashes
/// followed by their 64 hexadecimal digits, and the returned account
/// is exactly the one the phrase resolves to.
pub fn generate_seed() -> (r: Result<GeneratedSeed, GatewayError>)
    ensures
        r matches Ok(g) ==> (g.seed@.len() == 66 && g.seed@[0] == '/' && g.seed@[1] == '/'
            && Some(g.account@) == sr25519_public_of(g.seed@) && g.account@.len() == 32
            && (exists|b: Seq<u8>| b.len() == 32 && g.seed@ == seq!['/', '/'] + hex_of(b))),
        r is Err ==> (r == Err::<GeneratedSeed, GatewayError>(GatewayError::InvalidSeed)
            && (exists|b: Seq<u8>|
                b.len() == 32 && sr25519_public_of(seq!['/', '/'] + hex_of(b)) is None)),
{
    let seed = generate_seed_phrase();
    match resolve(seed.as_str()) {
        Ok(cap) => {
            let account = cap.account();
            Ok(GeneratedSeed { seed, account })
        },
        Err(_) => {
            proof {
                let b = choose|b: Seq<u8>| b.len() == 32 && seed@ == seq!['/', '/'] + hex_of(b);
                assert(sr25519_public_of(seq!['/', '/'] + hex_of(b)) is None);
            }
            Err(GatewayError::InvalidSeed)
        },
    }
}

} // verus!
