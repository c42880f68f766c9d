//! Signing keys: generation, rotation between two slots, and the published
//! key set (JWKS).
//!
//! The durable store holds two slots, the current key and the previous one.
//! Rotation demotes the current key once it is old enough, so that tokens it
//! signed stay verifiable while it sits in the previous slot.
use vstd::prelude::*;

use crate::gen_string;

verus! {

/// The age below which a current key is not replaced, in milliseconds (1 hour).
pub const MIN_KEY_AGE_MS: i64 = 3600000;

/// Length of a generated key id.
pub const KEY_ID_LEN: usize = 16;

/// A stored signing key: its id, its creation time in milliseconds since the
/// epoch, and the RSA private key as PKCS#1 PEM.
#[derive(Clone, Debug)]
pub struct Pem {
    pub kid: String,
    pub created_at: i64,
    pub pem: String,
}

/// The two key slots: `rsa` (current) and `rsa:old` (previous).
#[derive(Clone, Debug)]
pub struct KeySlots {
    pub current: Option<Pem>,
    pub previous: Option<Pem>,
}

/// What a rotation does.
#[derive(Clone, Copy, Debug, PartialEq, Eq, Structural)]
pub enum Rotation {
    /// There is no current key: a new one is stored as current.
    Install,
    /// The current key is younger than the minimum age: nothing changes.
    Keep,
    /// The current key moves to the previous slot, replacing what was there,
    /// and a new key becomes current.
    Demote,
}

pub open spec fn rotation_of(current: Option<Pem>, now: i64) -> Rotation {
    match current {
        None => Rotation::Install,
        Some(k) => if (now as int) - (k.created_at as int) < MIN_KEY_AGE_MS as int {
            Rotation::Keep
        } else {
            Rotation::Demote
        },
    }
}

/// The slots after a rotation at time `now`, where `fresh` is the newly
/// generated key (unused when nothing changes).
pub open spec fn rotated(slots: KeySlots, now: i64, fresh: Pem) -> KeySlots {
    match rotation_of(slots.current, now) {
        Rotation::Install => KeySlots { current: Some(fresh), previous: slots.previous },
        Rotation::Keep => slots,
        Rotation::Demote => KeySlots { current: Some(fresh), previous: slots.current },
    }
}

/// Decides what a rotation at time `now` does to the slots.
pub fn rotation_needed(slots: &KeySlots, now: i64) -> (r: Rotation)
    ensures
        r == rotation_of(slots.current, now),
{
    match &slots.current {
        None => Rotation::Install,
        Some(k) => {
            if k.created_at > i64::MAX - MIN_KEY_AGE_MS || now < k.created_at + MIN_KEY_AGE_MS {
                Rotation::Keep
            } else {
                Rotation::Demote
            }
        },
    }
}

/// Rotates the slots at time `now`; `fresh` becomes the current key unless the
/// current key is younger than the minimum age.
pub fn rotate_keys(slots: &mut KeySlots, now: i64, fresh: Pem)
    ensures
        *final(slots) == rotated(*old(slots), now, fresh),
{
    match rotation_needed(slots, now) {
        Rotation::Install => {
            slots.current = Some(fresh);
        },
        Rotation::Keep => {},
        Rotation::Demote => {
            let demoted = slots.current.take();
            slots.previous = demoted;
            slots.current = Some(fresh);
        },
    }
}

/// Whether a text is a PKCS#1 PEM RSA private key that openidconnect accepts.
pub uninterp spec fn is_signing_pem(pem: Seq<char>) -> bool;

/// Relies on `CoreRsaPrivateSigningKey::from_pem`: whether it parses a PKCS#1
/// PEM RSA private key; this depends on the text alone. `from_pem` reads the
/// key with the `rsa` crate's `from_pkcs1_pem`, the same parse whose public
/// half `rsa_public_of` names, so a key that can sign is also published.
#[verifier::external_body]
pub(crate) fn is_readable_signing_key(pem: &Pem) -> (r: bool)
    ensures
        r == is_signing_pem(pem.pem@),
        r == (rsa_public_of(pem.pem@) is Some),
{
    openidconnect::core::CoreRsaPrivateSigningKey::from_pem(&pem.pem, None).is_ok()
}

/// The public modulus and exponent (big-endian bytes) of a PKCS#1 PEM RSA
/// private key, `None` when the text is not one.
pub uninterp spec fn rsa_public_of(pem: Seq<char>) -> Option<(Seq<u8>, Seq<u8>)>;

/// Relies on `DecodeRsaPrivateKey::from_pkcs1_pem` of the `rsa` crate and
/// `PublicKeyParts::n` / `e`: the public half of a PKCS#1 PEM private key.
#[verifier::external_body]
fn public_key_parts(pem: &String) -> (r: Option<(Vec<u8>, Vec<u8>)>)
    ensures
        match r {
            Some((n, e)) => rsa_public_of(pem@) == Some((n@, e@)),
            None => rsa_public_of(pem@) is None,
        },
{
    let key: rsa::RsaPrivateKey = rsa::pkcs1::DecodeRsaPrivateKey::from_pkcs1_pem(pem.as_str()).ok()?;
    let n = rsa::traits::PublicKeyParts::n(&key).to_bytes_be();
    Some((n, rsa::traits::PublicKeyParts::e(&key).to_bytes_be()))
}

/// The PKCS#1 PEM (LF line endings) of the key in a PKCS#8 PEM text, `None`
/// when the text is not a PKCS#8 RSA private key.
pub uninterp spec fn pkcs1_of(pkcs8_pem: Seq<char>) -> Option<Seq<char>>;

/// Relies on `DecodePrivateKey::from_pkcs8_pem` and
/// `EncodeRsaPrivateKey::to_pkcs1_pem` of the `rsa` crate: reads a PKCS#8 PEM
/// RSA private key and writes it back as PKCS#1 PEM; both depend on the text
/// alone.
#[verifier::external_body]
fn pkcs8_to_pkcs1(pem: &String) -> (r: Option<String>)
    ensures
        crate::opt_view(r) == pkcs1_of(pem@),
{
    let key: rsa::RsaPrivateKey = rsa::pkcs8::DecodePrivateKey::from_pkcs8_pem(pem.as_str()).ok()?;
    let pkcs1 = rsa::pkcs1::EncodeRsaPrivateKey::to_pkcs1_pem(&key, rsa::pkcs8::LineEnding::LF).ok()?;
    Some(pkcs1.to_string())
}

/// A new signing key made from a freshly generated PKCS#8 PEM private key:
/// it is re-encoded as PKCS#1, the one form that is stored, and gets a random
/// key id and the creation time `now`. `None` exactly when the PEM cannot be
/// read.
pub fn generate_pem(pkcs8_pem: &String, now: i64) -> (r: Option<Pem>)
    ensures
        r is Some <==> pkcs1_of(pkcs8_pem@) is Some,
        r matches Some(p) ==> {
            &&& p.pem@ == pkcs1_of(pkcs8_pem@)->Some_0
            &&& p.kid@.len() == KEY_ID_LEN
            &&& crate::all_alphanumeric(p.kid@)
            &&& p.created_at == now
        },
{
    let pem = pkcs8_to_pkcs1(pkcs8_pem)?;
    Some(Pem { kid: gen_string(KEY_ID_LEN), created_at: now, pem })
}

/// A published verification key: its key id and the RSA modulus and
/// exponent, as big-endian bytes.
#[derive(Clone, Debug)]
pub struct VerificationKey {
    pub kid: String,
    pub n: Vec<u8>,
    pub e: Vec<u8>,
}

/// The key id that a slot contributes to the key set: that of its key, when
/// there is one and it can be read.
pub open spec fn published_kid(slot: Option<Pem>) -> Option<Seq<char>> {
    match slot {
        Some(p) => if rsa_public_of(p.pem@) is Some {
            Some(p.kid@)
        } else {
            None
        },
        None => None,
    }
}

/// Whether `k` is the verification key of the key in `slot`.
pub open spec fn is_key_of(slot: Option<Pem>, k: VerificationKey) -> bool {
    slot matches Some(p) && k.kid@ == p.kid@ && rsa_public_of(p.pem@) == Some((k.n@, k.e@))
}

/// The key ids of the key set built from a current and a previous key id.
pub open spec fn jwks_kids(current: Option<Seq<char>>, previous: Option<Seq<char>>) -> Seq<Seq<char>> {
    match (current, previous) {
        (Some(a), Some(b)) => if a != b {
            seq![a, b]
        } else {
            seq![a]
        },
        (Some(a), None) => seq![a],
        (None, Some(b)) => seq![b],
        (None, None) => Seq::<Seq<char>>::empty(),
    }
}

/// The key ids published for the slots.
pub open spec fn published_kids(slots: KeySlots) -> Seq<Seq<char>> {
    jwks_kids(published_kid(slots.current), published_kid(slots.previous))
}

pub open spec fn kids_of(keys: Seq<VerificationKey>) -> Seq<Seq<char>> {
    keys.map_values(|k: VerificationKey| k.kid@)
}

fn verification_key(slot: &Option<Pem>) -> (r: Option<VerificationKey>)
    ensures
        match r {
            Some(k) => published_kid(*slot) == Some(k.kid@) && is_key_of(*slot, k),
            None => published_kid(*slot) is None,
        },
{
    match slot {
        Some(p) => match public_key_parts(&p.pem) {
            Some((n, e)) => Some(VerificationKey { kid: p.kid.clone(), n, e }),
            None => None,
        },
        None => None,
    }
}

/// The verification keys to publish: that of the current key and, if its id
/// differs, that of the previous key. A slot whose key cannot be read is
/// skipped.
pub fn get_jwks(slots: &KeySlots) -> (r: Vec<VerificationKey>)
    ensures
        kids_of(r@) == published_kids(*slots),
        r@.len() <= 2,
        kids_of(r@).no_duplicates(),
        published_kid(slots.current) is Some ==> is_key_of(slots.current, r@[0]),
        published_kid(slots.previous) is Some && published_kid(slots.previous) != published_kid(
            slots.current,
        ) ==> is_key_of(slots.previous, r@.last()),
{
    let cur = verification_key(&slots.current);
    let prev = verification_key(&slots.previous);
    let mut r: Vec<VerificationKey> = Vec::new();
    match (cur, prev) {
        (Some(a), Some(b)) => {
            let same = a.kid == b.kid;
            r.push(a);
            if !same {
                r.push(b);
            }
        },
        (Some(a), None) => {
            r.push(a);
        },
        (None, Some(b)) => {
            r.push(b);
        },
        (None, None) => {},
    }
    assert(kids_of(r@) =~= published_kids(*slots));
    r
}

/// Rotations inside the minimum-age window of the current key change nothing:
/// two such rotations leave both slots as they were.
pub proof fn lemma_rotation_within_window_keeps_keys(
    slots: KeySlots,
    now1: i64,
    fresh1: Pem,
    now2: i64,
    fresh2: Pem,
)
    requires
        slots.current is Some,
        (now1 as int) - (slots.current->Some_0.created_at as int) < MIN_KEY_AGE_MS as int,
        (now2 as int) - (slots.current->Some_0.created_at as int) < MIN_KEY_AGE_MS as int,
    ensures
        rotated(rotated(slots, now1, fresh1), now2, fresh2) == slots,
{
}

/// A rotation after the window leaves exactly one new current key and, as the
/// one previous key, the key that was current. When the fresh key was made at
/// that time under another key id (a random id cannot be promised distinct,
/// so this is asked of the caller), the two slots hold different keys and the
/// new one is current from `now` on.
pub proof fn lemma_rotation_after_window_demotes(slots: KeySlots, now: i64, fresh: Pem)
    requires
        slots.current is Some,
        (now as int) - (slots.current->Some_0.created_at as int) >= MIN_KEY_AGE_MS as int,
    ensures
        rotated(slots, now, fresh).current == Some(fresh),
        rotated(slots, now, fresh).previous == slots.current,
        fresh.kid@ != slots.current->Some_0.kid@ && fresh.created_at == now ==> {
            &&& rotated(slots, now, fresh).current->Some_0.kid@ != rotated(
                slots,
                now,
                fresh,
            ).previous->Some_0.kid@
            &&& rotated(slots, now, fresh).current->Some_0.created_at == now
            &&& rotation_of(rotated(slots, now, fresh).current, now) == Rotation::Keep
        },
{
}

/// The published key set never has more than two keys nor a repeated key id.
pub proof fn lemma_jwks_bounded(slots: KeySlots)
    ensures
        published_kids(slots).len() <= 2,
        published_kids(slots).no_duplicates(),
{
}

/// A token signed by the current key stays verifiable after that key is
/// rotated out, while it sits in the previous slot; once a second rotation
/// evicts it, its key id is no longer published (new keys get other ids).
pub proof fn lemma_rotated_out_key_verifiable_until_evicted(
    slots: KeySlots,
    now1: i64,
    fresh1: Pem,
    now2: i64,
    fresh2: Pem,
)
    requires
        slots.current is Some,
        rsa_public_of(slots.current->Some_0.pem@) is Some,
        rotation_of(slots.current, now1) == Rotation::Demote,
        fresh1.kid@ != slots.current->Some_0.kid@,
        fresh2.kid@ != slots.current->Some_0.kid@,
        rotation_of(Some(fresh1), now2) == Rotation::Demote,
    ensures
        rotated(slots, now1, fresh1).previous == slots.current,
        published_kids(rotated(slots, now1, fresh1)).contains(slots.current->Some_0.kid@),
        !published_kids(rotated(rotated(slots, now1, fresh1), now2, fresh2)).contains(
            slots.current->Some_0.kid@,
        ),
{
    let k = slots.current->Some_0.kid@;
    let s1 = rotated(slots, now1, fresh1);
    let s2 = rotated(s1, now2, fresh2);
    assert(s1.previous == slots.current);
    assert(published_kid(s1.previous) == Some(k));
    let kids1 = published_kids(s1);
    match published_kid(s1.current) {
        Some(a) => {
            if a != k {
                assert(kids1[1] == k);
            } else {
                assert(kids1[0] == k);
            }
        },
        None => {
            assert(kids1[0] == k);
        },
    }
    assert(s2.current == Some(fresh2));
    assert(s2.previous == Some(fresh1));
    let kids2 = published_kids(s2);
    assert forall|i: int| 0 <= i < kids2.len() implies kids2[i] != k by {
    }
}

} // verus!
