//! Ledger-native account identities and their canonical SS58 string
//! codec: a base-58 rendering of the network prefix byte, the 32 key
//! bytes, and a two-byte Blake2b checksum, exactly as the ledger
//! ecosystem encodes addresses. Malformed strings are rejected before
//! any network call.

use vstd::prelude::*;

use crate::base58::b58_decode;
use crate::base58::b58_encode;
use crate::base58::b58_string_of;
use crate::error::GatewayError;

verus! {

/// An opaque, ledger-native binary account id: the raw 32 bytes of an
/// sr25519 public key. Constructed only from exactly 32 bytes, so a
/// value of this type is always well formed.
#[derive(Debug)]
pub struct AccountIdentity {
    bytes: Vec<u8>,
}

impl Clone for AccountIdentity {
    fn clone(&self) -> (r: Self)
        ensures
            r@ == self@,
    {
        proof {
            use_type_invariant(self);
        }
        AccountIdentity { bytes: self.to_bytes() }
    }
}

impl View for AccountIdentity {
    type V = Seq<u8>;

    closed spec fn view(&self) -> Seq<u8> {
        self.bytes@
    }
}

impl AccountIdentity {
    /// Every identity holds exactly its 32 key bytes.
    #[verifier::type_invariant]
    closed spec fn well_formed(self) -> bool {
        self.bytes@.len() == 32
    }

    /// Wrap raw public-key bytes; anything but exactly 32 bytes is
    /// refused.
    pub fn from_bytes(bytes: Vec<u8>) -> (r: Option<AccountIdentity>)
        ensures
            bytes@.len() == 32 ==> (r matches Some(a) && a@ == bytes@),
            bytes@.len() != 32 ==> r is None,
    {
        if bytes.len() == 32 {
            Some(AccountIdentity { bytes })
        } else {
            None
        }
    }

    /// The raw key bytes, copied out.
    pub fn to_bytes(&self) -> (r: Vec<u8>)
        ensures
            r@ == self@,
    {
        let mut out: Vec<u8> = Vec::new();
        let mut i: usize = 0;
        while i < self.bytes.len()
            invariant
                0 <= i <= self.bytes@.len(),
                out@ == self.bytes@.subrange(0, i as int),
            decreases self.bytes@.len() - i,
        {
            out.push(self.bytes[i]);
            i = i + 1;
        }
        proof {
            assert(out@ =~= self.bytes@);
        }
        out
    }
}

/// The hash preamble of the SS58 checksum: the ASCII bytes of
/// `SS58PRE`.
pub open spec fn ss58_preamble() -> Seq<u8> {
    seq![83u8, 83u8, 53u8, 56u8, 80u8, 82u8, 69u8]
}

/// The Blake2b-512 digest of a byte string, named: its 64 bytes depend
/// on the input alone.
pub uninterp spec fn blake2b512_of(data: Seq<u8>) -> Seq<u8>;

/// Relies on sp_crypto_hashing::blake2_512: the Blake2b-512 digest of
/// the input, 64 bytes, a pure function of the input bytes.
#[verifier::external_body]
fn blake2b512(data: &Vec<u8>) -> (r: Vec<u8>)
    ensures
        r@ == blake2b512_of(data@),
        r@.len() == 64,
{
    sp_crypto_hashing::blake2_512(data.as_slice()).to_vec()
}

/// The two checksum bytes of an SS58 body: the first two bytes of the
/// Blake2b-512 digest of the preamble followed by the body.
pub open spec fn ss58_checksum(body: Seq<u8>) -> Seq<u8> {
    seq![
        blake2b512_of(ss58_preamble() + body)[0],
        blake2b512_of(ss58_preamble() + body)[1],
    ]
}

/// The checksum-protected payload of an identity: the generic network
/// prefix byte 42, the key bytes, the two checksum bytes.
pub open spec fn ss58_payload(id: Seq<u8>) -> Seq<u8> {
    (seq![42u8] + id) + ss58_checksum(seq![42u8] + id)
}

/// The canonical SS58 string of 32 key bytes.
pub open spec fn ss58_of(id: Seq<u8>) -> Seq<char> {
    b58_string_of(ss58_payload(id))
}

/// What an account string denotes: the key bytes whose canonical SS58
/// string it is, if it is one.
pub open spec fn ss58_parse(s: Seq<char>) -> Option<Seq<u8>> {
    if exists|id: Seq<u8>| id.len() == 32 && ss58_of(id) == s {
        Some(choose|id: Seq<u8>| id.len() == 32 && ss58_of(id) == s)
    } else {
        None
    }
}

/// Append a copy of `src` to `dst`.
fn extend_bytes(dst: &mut Vec<u8>, src: &Vec<u8>)
    ensures
        final(dst)@ == old(dst)@ + src@,
{
    let mut i: usize = 0;
    while i < src.len()
        invariant
            0 <= i <= src@.len(),
            dst@ == old(dst)@ + src@.subrange(0, i as int),
        decreases src@.len() - i,
    {
        proof {
            assert((old(dst)@ + src@.subrange(0, i as int)).push(src@[i as int]) =~= old(dst)@
                + src@.subrange(0, i + 1));
        }
        dst.push(src[i]);
        i = i + 1;
    }
    proof {
        assert(old(dst)@ + src@.subrange(0, src@.len() as int) =~= old(dst)@ + src@);
    }
}

/// The ASCII bytes of the checksum preamble, computed.
fn preamble_bytes() -> (r: Vec<u8>)
    ensures
        r@ == ss58_preamble(),
{
    let mut out: Vec<u8> = Vec::new();
    out.push(83);
    out.push(83);
    out.push(53);
    out.push(56);
    out.push(80);
    out.push(82);
    out.push(69);
    proof {
        assert(out@ =~= ss58_preamble());
    }
    out
}

/// Encode an account identity as its canonical SS58 string. The
/// inverse of `decode`: always succeeds for a valid identity.
pub fn encode(a: &AccountIdentity) -> (r: String)
    ensures
        r@ == ss58_of(a@),
        ss58_parse(r@) == Some(a@),
{
    proof {
        use_type_invariant(a);
    }
    let idb = a.to_bytes();
    let mut body: Vec<u8> = Vec::new();
    body.push(42);
    extend_bytes(&mut body, &idb);
    proof {
        assert(seq![42u8].push(42u8).drop_last() =~= seq![42u8]);
        assert(body@ =~= seq![42u8] + a@);
    }
    let mut hin = preamble_bytes();
    extend_bytes(&mut hin, &body);
    let h = blake2b512(&hin);
    let mut payload = body;
    payload.push(h[0]);
    payload.push(h[1]);
    proof {
        assert(payload@ =~= (seq![42u8] + a@) + ss58_checksum(seq![42u8] + a@));
        assert(payload@[0] == 42);
    }
    let r = b58_encode(&payload);
    proof {
        lemma_ss58_roundtrip(a@);
    }
    r
}

/// Decode the canonical SS58 string form of an account identity;
/// reject anything else — wrong alphabet, wrong length, wrong prefix,
/// wrong checksum — as a malformed account, before any network call.
/// Exactly the well-formed strings are accepted, and the only error is
/// `InvalidAccount`.
pub fn decode(s: &str) -> (r: Result<AccountIdentity, GatewayError>)
    ensures
        r matches Ok(a) ==> (a@.len() == 32 && s@ == ss58_of(a@) && ss58_parse(s@) == Some(
            a@,
        )),
        r is Err ==> (ss58_parse(s@) is None && r == Err::<AccountIdentity, GatewayError>(
            GatewayError::InvalidAccount,
        )),
{
    let decoded = b58_decode(s);
    match decoded {
        None => {
            proof {
                assert forall|id: Seq<u8>| id.len() == 32 implies s@ != ss58_of(id) by {
                    if s@ == ss58_of(id) {
                        let pl = ss58_payload(id);
                        assert(pl.len() == 35);
                        assert(pl[0] == 42);
                    }
                };
                lemma_parse_none(s@);
            }
            Err(GatewayError::InvalidAccount)
        },
        Some(p) => {
            if p.len() != 35 || p[0] != 42 {
                proof {
                    assert forall|id: Seq<u8>| id.len() == 32 implies s@ != ss58_of(id) by {
                        if s@ == ss58_of(id) {
                            let pl = ss58_payload(id);
                            assert(pl.len() == 35);
                            assert(pl[0] == 42);
                            assert(p@ == pl);
                        }
                    };
                    lemma_parse_none(s@);
                }
                return Err(GatewayError::InvalidAccount);
            }
            let mut body: Vec<u8> = Vec::new();
            let mut i: usize = 0;
            while i < 33
                invariant
                    0 <= i <= 33,
                    p@.len() == 35,
                    body@ == p@.subrange(0, i as int),
                decreases 33 - i,
            {
                body.push(p[i]);
                i = i + 1;
            }
            let mut hin = preamble_bytes();
            extend_bytes(&mut hin, &body);
            let h = blake2b512(&hin);
            if p[33] == h[0] && p[34] == h[1] {
                let mut id: Vec<u8> = Vec::new();
                let mut k: usize = 1;
                while k < 33
                    invariant
                        1 <= k <= 33,
                        p@.len() == 35,
                        id@ == p@.subrange(1, k as int),
                    decreases 33 - k,
                {
                    id.push(p[k]);
                    k = k + 1;
                }
                proof {
                    assert(body@ =~= seq![42u8] + id@);
                    assert(p@ =~= (seq![42u8] + id@) + ss58_checksum(seq![42u8] + id@));
                    assert(p@ == ss58_payload(id@));
                    assert(p@[0] != 0);
                    assert(s@ == ss58_of(id@));
                    lemma_ss58_roundtrip(id@);
                }
                match AccountIdentity::from_bytes(id) {
                    Some(a) => Ok(a),
                    None => {
                        proof {
                            assert(false);
                        }
                        Err(GatewayError::InvalidAccount)
                    },
                }
            } else {
                proof {
                    assert forall|id: Seq<u8>| id.len() == 32 implies s@ != ss58_of(id) by {
                        if s@ == ss58_of(id) {
                            let pl = ss58_payload(id);
                            assert(p@ == pl);
                            assert(body@ =~= seq![42u8] + id);
                            assert(pl[33] == ss58_checksum(seq![42u8] + id)[0]);
                            assert(pl[34] == ss58_checksum(seq![42u8] + id)[1]);
                            assert(h@[0] == blake2b512_of(ss58_preamble() + body@)[0]);
                            assert(h@[1] == blake2b512_of(ss58_preamble() + body@)[1]);
                        }
                    };
                    lemma_parse_none(s@);
                }
                Err(GatewayError::InvalidAccount)
            }
        },
    }
}

/// Two identities with the same SS58 string are the same identity: the
/// string pins the key bytes down.
pub proof fn lemma_ss58_injective(a: Seq<u8>, b: Seq<u8>)
    requires
        a.len() == 32,
        b.len() == 32,
        ss58_of(a) == ss58_of(b),
    ensures
        a == b,
{
    crate::base58::lemma_b58_string_injective(ss58_payload(a), ss58_payload(b));
    assert(ss58_payload(a) =~= ss58_payload(b));
    assert forall|i: int| 0 <= i < 32 implies a[i] == b[i] by {
        assert(ss58_payload(a)[i + 1] == a[i]);
        assert(ss58_payload(b)[i + 1] == b[i]);
    };
    assert(a =~= b);
}

/// The account round trip: every valid identity's SS58 string parses
/// back to exactly that identity.
pub proof fn lemma_ss58_roundtrip(id: Seq<u8>)
    requires
        id.len() == 32,
    ensures
        ss58_parse(ss58_of(id)) == Some(id),
{
    assert(exists|b: Seq<u8>| b.len() == 32 && ss58_of(b) == ss58_of(id)) by {
        assert(id.len() == 32 && ss58_of(id) == ss58_of(id));
    }
    let w = choose|b: Seq<u8>| b.len() == 32 && ss58_of(b) == ss58_of(id);
    lemma_ss58_injective(w, id);
}

/// A string that decoding rejects is no identity's SS58 string.
proof fn lemma_parse_none(s: Seq<char>)
    requires
        forall|id: Seq<u8>| id.len() == 32 ==> s != ss58_of(id),
    ensures
        ss58_parse(s) is None,
{
}

} // verus!
