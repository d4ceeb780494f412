//! The cryptographic boundary: every call into the curve and protocol
//! libraries that the document logic relies on.
//!
//! Each wrapper makes exactly one derivation and converts between byte
//! strings and the libraries' own types. Results that are functions of the
//! arguments alone are given names (`sapling_cv_of`, `jj_add_of`, ...) that
//! the callers' contracts are stated over; results drawn from the system's
//! randomness promise only the validity of their encoding.

use ff::Field;
use ff::PrimeField;
use group::Group;
use group::GroupEncoding;
use orchard::keys::FullViewingKey as OrchardFvk;
use orchard::keys::SpendValidatingKey as OrchardSvk;
use orchard::note::ExtractedNoteCommitment as OrchardCmx;
use orchard::note::NoteVersion;
use orchard::note::RandomSeed;
use orchard::note::Rho;
use orchard::primitives::redpallas;
use orchard::value::NoteValue as OrchardNoteValue;
use orchard::value::ValueCommitTrapdoor as OrchardTrapdoor;
use orchard::value::ValueCommitment as OrchardValueCommitment;
use sapling_crypto::keys::FullViewingKey as SaplingFvk;
use sapling_crypto::note::ExtractedNoteCommitment as SaplingCmu;
use sapling_crypto::value::NoteValue as SaplingNoteValue;
use sapling_crypto::value::ValueCommitTrapdoor as SaplingTrapdoor;
use sapling_crypto::value::ValueCommitment as SaplingValueCommitment;
use sapling_crypto::Note as SaplingNote;
use sapling_crypto::PaymentAddress;
use sapling_crypto::Rseed;
use vstd::prelude::*;

verus! {

/// Whether a byte string is the canonical encoding of a Jubjub scalar.
pub uninterp spec fn is_jubjub_scalar(s: Seq<u8>) -> bool;

/// The canonical encoding of the sum of two Jubjub scalars.
pub uninterp spec fn jj_add_of(a: Seq<u8>, b: Seq<u8>) -> Seq<u8>;

/// The canonical encoding of the difference of two Jubjub scalars.
pub uninterp spec fn jj_sub_of(a: Seq<u8>, b: Seq<u8>) -> Seq<u8>;

/// The value commitment derived from an amount and a trapdoor in the Sapling
/// pool.
pub uninterp spec fn sapling_cv_of(value: u64, rcv: Seq<u8>) -> Seq<u8>;

/// Whether a byte string is a valid Sapling full viewing key encoding.
pub uninterp spec fn is_sapling_fvk(s: Seq<u8>) -> bool;

/// Whether a byte string is a valid Sapling payment address encoding.
pub uninterp spec fn is_sapling_recipient(s: Seq<u8>) -> bool;

/// The nullifier of the Sapling note with the given parts, spent by the
/// holder of the given full viewing key from the given tree position.
pub uninterp spec fn sapling_nf_of(
    fvk: Seq<u8>,
    recipient: Seq<u8>,
    value: u64,
    rseed: Seq<u8>,
    position: u64,
) -> Seq<u8>;

/// The randomization of a full viewing key's spend-validating component by a
/// scalar.
pub uninterp spec fn sapling_rk_of(fvk: Seq<u8>, alpha: Seq<u8>) -> Seq<u8>;

/// The extracted commitment of the Sapling note with the given parts.
pub uninterp spec fn sapling_cmu_of(recipient: Seq<u8>, value: u64, rseed: Seq<u8>) -> Seq<u8>;

/// Whether a byte string is the canonical encoding of a Pallas scalar.
pub uninterp spec fn is_pallas_scalar(s: Seq<u8>) -> bool;

/// The canonical encoding of the sum of two Pallas scalars.
pub uninterp spec fn pallas_add_of(a: Seq<u8>, b: Seq<u8>) -> Seq<u8>;

/// The value commitment derived from a net amount and a trapdoor in the
/// Orchard pool.
pub uninterp spec fn orchard_cv_of(spend_value: u64, output_value: u64, rcv: Seq<u8>) -> Seq<u8>;

/// Whether a byte string is a valid Orchard full viewing key encoding.
pub uninterp spec fn is_orchard_fvk(s: Seq<u8>) -> bool;

/// Whether a byte string is a valid Orchard address encoding.
pub uninterp spec fn is_orchard_recipient(s: Seq<u8>) -> bool;

/// Whether a byte string is a valid nullifier-derivation input (a canonical
/// Pallas base field element).
pub uninterp spec fn is_orchard_rho(s: Seq<u8>) -> bool;

/// Whether a byte string is a valid Orchard note seed with respect to the
/// given nullifier-derivation input.
pub uninterp spec fn is_orchard_rseed(rseed: Seq<u8>, rho: Seq<u8>) -> bool;

/// Whether the Orchard note with the given parts is internally valid (its
/// note commitment exists).
pub uninterp spec fn is_orchard_note(
    recipient: Seq<u8>,
    value: u64,
    rho: Seq<u8>,
    rseed: Seq<u8>,
) -> bool;

/// The nullifier of the Orchard note with the given parts under the given
/// full viewing key.
pub uninterp spec fn orchard_nf_of(
    fvk: Seq<u8>,
    recipient: Seq<u8>,
    value: u64,
    rho: Seq<u8>,
    rseed: Seq<u8>,
) -> Seq<u8>;

/// The randomization of an Orchard full viewing key's spend-validating
/// component by a scalar.
pub uninterp spec fn orchard_rk_of(fvk: Seq<u8>, alpha: Seq<u8>) -> Seq<u8>;

/// The extracted commitment of the Orchard note with the given parts.
pub uninterp spec fn orchard_cmx_of(
    recipient: Seq<u8>,
    value: u64,
    rho: Seq<u8>,
    rseed: Seq<u8>,
) -> Seq<u8>;

/// Whether a byte string is the canonical encoding of a BLS12-381 scalar (a
/// Sapling anchor).
pub uninterp spec fn is_bls_scalar(s: Seq<u8>) -> bool;

/// Whether a byte string encodes a Sapling value commitment that is a valid,
/// not-small-order curve point.
pub uninterp spec fn is_sapling_cv_enc(s: Seq<u8>) -> bool;

/// Whether a byte string is a canonical extracted Sapling note commitment.
pub uninterp spec fn is_sapling_cmu_enc(s: Seq<u8>) -> bool;

/// Whether a byte string encodes a valid RedJubjub verification key.
pub uninterp spec fn is_redjubjub_vk(s: Seq<u8>) -> bool;

/// Whether a byte string encodes a valid Orchard value commitment point.
pub uninterp spec fn is_orchard_cv_enc(s: Seq<u8>) -> bool;

/// Whether a byte string is a canonical Pallas base field encoding (an
/// extracted Orchard note commitment or an Orchard anchor).
pub uninterp spec fn is_pallas_base(s: Seq<u8>) -> bool;

/// Whether a byte string encodes a valid RedPallas verification key.
pub uninterp spec fn is_redpallas_vk(s: Seq<u8>) -> bool;

/// The all-zero byte string of the given length.
pub open spec fn zero_bytes(n: nat) -> Seq<u8> {
    Seq::new(n, |i: int| 0u8)
}

/// Relies on `jubjub::Scalar::random` and `ff::PrimeField::to_repr`: a
/// freshly sampled scalar serializes to its canonical encoding. Nothing is
/// promised about the value itself, which is random.
#[verifier::external_body]
pub(crate) fn fresh_jubjub_scalar() -> (r: Vec<u8>)
    ensures
        r@.len() == 32,
        is_jubjub_scalar(r@),
{
    let s = jubjub::Scalar::random(rand_core::OsRng);
    s.to_repr().to_vec()
}

/// Relies on `jubjub::Scalar::zero`: the canonical encoding of the zero
/// scalar is all zero bytes (the little-endian representation of zero).
#[verifier::external_body]
pub(crate) fn jubjub_zero() -> (r: Vec<u8>)
    ensures
        r@ == zero_bytes(32),
        is_jubjub_scalar(r@),
{
    jubjub::Scalar::zero().to_repr().to_vec()
}

/// Relies on `jubjub::Scalar::from_repr` (canonicity check) and scalar
/// addition; the sum of two canonical scalars re-encodes canonically.
#[verifier::external_body]
pub(crate) fn jubjub_add(a: &Vec<u8>, b: &Vec<u8>) -> (r: Option<Vec<u8>>)
    ensures
        r is Some <==> (a@.len() == 32 && b@.len() == 32 && is_jubjub_scalar(a@)
            && is_jubjub_scalar(b@)),
        r is Some ==> (r.unwrap()@ == jj_add_of(a@, b@) && jj_add_of(a@, b@).len() == 32
            && is_jubjub_scalar(jj_add_of(a@, b@))),
{
    let aa: [u8; 32] = a.as_slice().try_into().ok()?;
    let bb: [u8; 32] = b.as_slice().try_into().ok()?;
    let x: jubjub::Scalar = Option::from(jubjub::Scalar::from_repr(aa))?;
    let y: jubjub::Scalar = Option::from(jubjub::Scalar::from_repr(bb))?;
    let s: jubjub::Scalar = x + y;
    Some(s.to_repr().to_vec())
}

/// Relies on `jubjub::Scalar::from_repr` and scalar subtraction; the
/// difference of two canonical scalars re-encodes canonically.
#[verifier::external_body]
pub(crate) fn jubjub_sub(a: &Vec<u8>, b: &Vec<u8>) -> (r: Option<Vec<u8>>)
    ensures
        r is Some <==> (a@.len() == 32 && b@.len() == 32 && is_jubjub_scalar(a@)
            && is_jubjub_scalar(b@)),
        r is Some ==> (r.unwrap()@ == jj_sub_of(a@, b@) && jj_sub_of(a@, b@).len() == 32
            && is_jubjub_scalar(jj_sub_of(a@, b@))),
{
    let aa: [u8; 32] = a.as_slice().try_into().ok()?;
    let bb: [u8; 32] = b.as_slice().try_into().ok()?;
    let x: jubjub::Scalar = Option::from(jubjub::Scalar::from_repr(aa))?;
    let y: jubjub::Scalar = Option::from(jubjub::Scalar::from_repr(bb))?;
    let s: jubjub::Scalar = x - y;
    Some(s.to_repr().to_vec())
}

/// Relies on `sapling::value::ValueCommitment::derive`, with the trapdoor
/// parsed by `ValueCommitTrapdoor::from_bytes`, which succeeds exactly on
/// canonical Jubjub scalar encodings.
#[verifier::external_body]
pub(crate) fn sapling_derive_cv(value: u64, rcv: &Vec<u8>) -> (r: Option<Vec<u8>>)
    ensures
        r is Some <==> (rcv@.len() == 32 && is_jubjub_scalar(rcv@)),
        r is Some ==> (r.unwrap()@ == sapling_cv_of(value, rcv@) && sapling_cv_of(
            value,
            rcv@,
        ).len() == 32),
{
    let bytes: [u8; 32] = rcv.as_slice().try_into().ok()?;
    let t: SaplingTrapdoor = Option::from(SaplingTrapdoor::from_bytes(bytes))?;
    let cv = SaplingValueCommitment::derive(SaplingNoteValue::from_raw(value), t);
    Some(cv.to_bytes().to_vec())
}

/// Relies on `sapling::Note::nf`, with the note rebuilt from its parts
/// (`PaymentAddress::from_bytes`, `Rseed::AfterZip212`) and the nullifier
/// deriving key taken from `FullViewingKey::read`. The key bytes are screened
/// through `redjubjub::VerificationKey::try_from` first, because the key
/// parser rejects malformed first components by panicking; any key the parser
/// accepts passes that screen, since spend-validating keys are valid
/// verification keys.
#[verifier::external_body]
pub(crate) fn sapling_derive_nullifier(
    fvk: &Vec<u8>,
    recipient: &Vec<u8>,
    value: u64,
    rseed: &Vec<u8>,
    position: u64,
) -> (r: Option<Vec<u8>>)
    ensures
        r is Some <==> (fvk@.len() == 96 && is_sapling_fvk(fvk@) && recipient@.len() == 43
            && is_sapling_recipient(recipient@) && rseed@.len() == 32),
        r is Some ==> (r.unwrap()@ == sapling_nf_of(fvk@, recipient@, value, rseed@, position)
            && sapling_nf_of(fvk@, recipient@, value, rseed@, position).len() == 32),
{
    if fvk.len() != 96 {
        return None;
    }
    let akb: [u8; 32] = fvk[0..32].try_into().ok()?;
    redjubjub::VerificationKey::<redjubjub::SpendAuth>::try_from(akb).ok()?;
    let key = SaplingFvk::read(fvk.as_slice()).ok()?;
    let addr_bytes: [u8; 43] = recipient.as_slice().try_into().ok()?;
    let addr = PaymentAddress::from_bytes(&addr_bytes)?;
    let rs: [u8; 32] = rseed.as_slice().try_into().ok()?;
    let note = SaplingNote::from_parts(addr, SaplingNoteValue::from_raw(value), Rseed::AfterZip212(rs));
    Some(note.nf(&key.vk.nk, position).0.to_vec())
}

/// Relies on `sapling::Note::cmu`, with the note rebuilt from its parts
/// (`PaymentAddress::from_bytes`, `Rseed::AfterZip212`).
#[verifier::external_body]
pub(crate) fn sapling_derive_cmu(recipient: &Vec<u8>, value: u64, rseed: &Vec<u8>) -> (r: Option<
    Vec<u8>,
>)
    ensures
        r is Some <==> (recipient@.len() == 43 && is_sapling_recipient(recipient@) && rseed@.len()
            == 32),
        r is Some ==> (r.unwrap()@ == sapling_cmu_of(recipient@, value, rseed@) && sapling_cmu_of(
            recipient@,
            value,
            rseed@,
        ).len() == 32),
{
    let addr_bytes: [u8; 43] = recipient.as_slice().try_into().ok()?;
    let addr = PaymentAddress::from_bytes(&addr_bytes)?;
    let rs: [u8; 32] = rseed.as_slice().try_into().ok()?;
    let note = SaplingNote::from_parts(addr, SaplingNoteValue::from_raw(value), Rseed::AfterZip212(rs));
    Some(note.cmu().to_bytes().to_vec())
}

/// Relies on `sapling::keys::SpendValidatingKey::randomize`, with the key
/// taken from `FullViewingKey::read` and the randomizer parsed by
/// `jubjub::Scalar::from_repr`. The key bytes are screened as in the
/// nullifier derivation, to keep the parser from panicking on malformed
/// first components.
#[verifier::external_body]
pub(crate) fn sapling_randomize_ak(fvk: &Vec<u8>, alpha: &Vec<u8>) -> (r: Option<Vec<u8>>)
    ensures
        r is Some <==> (fvk@.len() == 96 && is_sapling_fvk(fvk@) && alpha@.len() == 32
            && is_jubjub_scalar(alpha@)),
        r is Some ==> (r.unwrap()@ == sapling_rk_of(fvk@, alpha@) && sapling_rk_of(
            fvk@,
            alpha@,
        ).len() == 32),
{
    if fvk.len() != 96 {
        return None;
    }
    let akb: [u8; 32] = fvk[0..32].try_into().ok()?;
    redjubjub::VerificationKey::<redjubjub::SpendAuth>::try_from(akb).ok()?;
    let key = SaplingFvk::read(fvk.as_slice()).ok()?;
    let ab: [u8; 32] = alpha.as_slice().try_into().ok()?;
    let a: jubjub::Scalar = Option::from(jubjub::Scalar::from_repr(ab))?;
    let rk = key.vk.ak.randomize(&a);
    Some(<[u8; 32]>::from(rk).to_vec())
}

/// Relies on `pasta_curves::pallas::Scalar::random` and `to_repr`: a freshly
/// sampled scalar serializes to its canonical encoding.
#[verifier::external_body]
pub(crate) fn fresh_pallas_scalar() -> (r: Vec<u8>)
    ensures
        r@.len() == 32,
        is_pallas_scalar(r@),
{
    let s = pasta_curves::pallas::Scalar::random(rand_core::OsRng);
    s.to_repr().to_vec()
}

/// Relies on `pasta_curves::pallas::Scalar::zero`: the canonical encoding of
/// the zero scalar is all zero bytes.
#[verifier::external_body]
pub(crate) fn pallas_zero() -> (r: Vec<u8>)
    ensures
        r@ == zero_bytes(32),
        is_pallas_scalar(r@),
{
    pasta_curves::pallas::Scalar::zero().to_repr().to_vec()
}

/// Relies on `pasta_curves::pallas::Scalar::from_repr` and scalar addition;
/// the sum of two canonical scalars re-encodes canonically.
#[verifier::external_body]
pub(crate) fn pallas_add(a: &Vec<u8>, b: &Vec<u8>) -> (r: Option<Vec<u8>>)
    ensures
        r is Some <==> (a@.len() == 32 && b@.len() == 32 && is_pallas_scalar(a@)
            && is_pallas_scalar(b@)),
        r is Some ==> (r.unwrap()@ == pallas_add_of(a@, b@) && pallas_add_of(a@, b@).len() == 32
            && is_pallas_scalar(pallas_add_of(a@, b@))),
{
    let aa: [u8; 32] = a.as_slice().try_into().ok()?;
    let bb: [u8; 32] = b.as_slice().try_into().ok()?;
    let x: pasta_curves::pallas::Scalar = Option::from(pasta_curves::pallas::Scalar::from_repr(aa))?;
    let y: pasta_curves::pallas::Scalar = Option::from(pasta_curves::pallas::Scalar::from_repr(bb))?;
    let s: pasta_curves::pallas::Scalar = x + y;
    Some(s.to_repr().to_vec())
}

/// Relies on `orchard::value::ValueCommitment::derive`, with the net value
/// formed by `NoteValue` subtraction (total on 64-bit inputs) and the
/// trapdoor parsed by `ValueCommitTrapdoor::from_bytes`.
#[verifier::external_body]
pub(crate) fn orchard_derive_cv(spend_value: u64, output_value: u64, rcv: &Vec<u8>) -> (r: Option<
    Vec<u8>,
>)
    ensures
        r is Some <==> (rcv@.len() == 32 && is_pallas_scalar(rcv@)),
        r is Some ==> (r.unwrap()@ == orchard_cv_of(spend_value, output_value, rcv@)
            && orchard_cv_of(spend_value, output_value, rcv@).len() == 32),
{
    let bytes: [u8; 32] = rcv.as_slice().try_into().ok()?;
    let t: OrchardTrapdoor = Option::from(OrchardTrapdoor::from_bytes(bytes))?;
    let balance = OrchardNoteValue::from_raw(spend_value) - OrchardNoteValue::from_raw(
        output_value,
    );
    let cv = OrchardValueCommitment::derive(balance, t);
    Some(cv.to_bytes().to_vec())
}

/// Relies on `orchard::Note::nullifier`, with the note rebuilt from its
/// parts (`Address::from_raw_address_bytes`, `Rho::from_bytes`,
/// `RandomSeed::from_bytes`, `Note::from_parts`) and the key parsed by
/// `FullViewingKey::from_bytes`.
#[verifier::external_body]
pub(crate) fn orchard_derive_nullifier(
    fvk: &[u8; 96],
    recipient: &[u8; 43],
    value: u64,
    rho: &[u8; 32],
    rseed: &[u8; 32],
) -> (r: Option<Vec<u8>>)
    ensures
        r is Some <==> (is_orchard_fvk(fvk@) && is_orchard_recipient(recipient@) && is_orchard_rho(
            rho@,
        ) && is_orchard_rseed(rseed@, rho@) && is_orchard_note(recipient@, value, rho@, rseed@)),
        r is Some ==> (r.unwrap()@ == orchard_nf_of(fvk@, recipient@, value, rho@, rseed@)
            && orchard_nf_of(fvk@, recipient@, value, rho@, rseed@).len() == 32),
{
    let key = OrchardFvk::from_bytes(fvk)?;
    let addr: orchard::Address = Option::from(orchard::Address::from_raw_address_bytes(recipient))?;
    let rho_v: Rho = Option::from(Rho::from_bytes(rho))?;
    let rs: RandomSeed = Option::from(RandomSeed::from_bytes(*rseed, &rho_v))?;
    let value_v = OrchardNoteValue::from_raw(value);
    let note: orchard::Note = Option::from(
        orchard::Note::from_parts(addr, value_v, rho_v, rs, NoteVersion::V2),
    )?;
    Some(note.nullifier(&key).to_bytes().to_vec())
}

/// Relies on `orchard::keys::SpendValidatingKey::randomize`, with the key
/// taken out of `FullViewingKey::from_bytes` and the randomizer parsed by
/// `pallas::Scalar::from_repr`.
#[verifier::external_body]
pub(crate) fn orchard_randomize_ak(fvk: &Vec<u8>, alpha: &Vec<u8>) -> (r: Option<Vec<u8>>)
    ensures
        r is Some <==> (fvk@.len() == 96 && is_orchard_fvk(fvk@) && alpha@.len() == 32
            && is_pallas_scalar(alpha@)),
        r is Some ==> (r.unwrap()@ == orchard_rk_of(fvk@, alpha@) && orchard_rk_of(
            fvk@,
            alpha@,
        ).len() == 32),
{
    let kb: [u8; 96] = fvk.as_slice().try_into().ok()?;
    let key = OrchardFvk::from_bytes(&kb)?;
    let ab: [u8; 32] = alpha.as_slice().try_into().ok()?;
    let a: pasta_curves::pallas::Scalar = Option::from(pasta_curves::pallas::Scalar::from_repr(ab))?;
    let rk = OrchardSvk::from(key).randomize(&a);
    Some(<[u8; 32]>::from(&rk).to_vec())
}

/// Relies on `orchard::Note::commitment` and `ExtractedNoteCommitment::from`,
/// with the note rebuilt from its parts as in the nullifier derivation.
#[verifier::external_body]
pub(crate) fn orchard_derive_cmx(
    recipient: &[u8; 43],
    value: u64,
    rho: &[u8; 32],
    rseed: &[u8; 32],
) -> (r: Option<Vec<u8>>)
    ensures
        r is Some <==> (is_orchard_recipient(recipient@) && is_orchard_rho(rho@)
            && is_orchard_rseed(rseed@, rho@) && is_orchard_note(recipient@, value, rho@, rseed@)),
        r is Some ==> (r.unwrap()@ == orchard_cmx_of(recipient@, value, rho@, rseed@)
            && orchard_cmx_of(recipient@, value, rho@, rseed@).len() == 32),
{
    let addr: orchard::Address = Option::from(orchard::Address::from_raw_address_bytes(recipient))?;
    let rho_v: Rho = Option::from(Rho::from_bytes(rho))?;
    let rs: RandomSeed = Option::from(RandomSeed::from_bytes(*rseed, &rho_v))?;
    let value_v = OrchardNoteValue::from_raw(value);
    let note: orchard::Note = Option::from(
        orchard::Note::from_parts(addr, value_v, rho_v, rs, NoteVersion::V2),
    )?;
    Some(OrchardCmx::from(note.commitment()).to_bytes().to_vec())
}

/// Relies on `bls12_381::Scalar::from_bytes`, which succeeds exactly on
/// canonical encodings.
#[verifier::external_body]
pub(crate) fn check_bls_scalar(b: &Vec<u8>) -> (r: bool)
    ensures
        r == (b@.len() == 32 && is_bls_scalar(b@)),
{
    let bytes: [u8; 32] = match b.as_slice().try_into() {
        Ok(a) => a,
        Err(_) => return false,
    };
    bool::from(bls12_381::Scalar::from_bytes(&bytes).is_some())
}

/// Relies on `sapling::value::ValueCommitment::from_bytes_not_small_order`.
#[verifier::external_body]
pub(crate) fn check_sapling_cv(b: &Vec<u8>) -> (r: bool)
    ensures
        r == (b@.len() == 32 && is_sapling_cv_enc(b@)),
{
    let bytes: [u8; 32] = match b.as_slice().try_into() {
        Ok(a) => a,
        Err(_) => return false,
    };
    bool::from(SaplingValueCommitment::from_bytes_not_small_order(&bytes).is_some())
}

/// Relies on `sapling::note::ExtractedNoteCommitment::from_bytes`.
#[verifier::external_body]
pub(crate) fn check_sapling_cmu(b: &Vec<u8>) -> (r: bool)
    ensures
        r == (b@.len() == 32 && is_sapling_cmu_enc(b@)),
{
    let bytes: [u8; 32] = match b.as_slice().try_into() {
        Ok(a) => a,
        Err(_) => return false,
    };
    bool::from(SaplingCmu::from_bytes(&bytes).is_some())
}

/// Relies on `redjubjub::VerificationKey::<SpendAuth>::try_from`.
#[verifier::external_body]
pub(crate) fn check_redjubjub_vk(b: &Vec<u8>) -> (r: bool)
    ensures
        r == (b@.len() == 32 && is_redjubjub_vk(b@)),
{
    let bytes: [u8; 32] = match b.as_slice().try_into() {
        Ok(a) => a,
        Err(_) => return false,
    };
    redjubjub::VerificationKey::<redjubjub::SpendAuth>::try_from(bytes).is_ok()
}

/// Relies on `orchard::value::ValueCommitment::from_bytes`.
#[verifier::external_body]
pub(crate) fn check_orchard_cv(b: &Vec<u8>) -> (r: bool)
    ensures
        r == (b@.len() == 32 && is_orchard_cv_enc(b@)),
{
    let bytes: [u8; 32] = match b.as_slice().try_into() {
        Ok(a) => a,
        Err(_) => return false,
    };
    bool::from(OrchardValueCommitment::from_bytes(&bytes).is_some())
}

/// Relies on `pasta_curves::pallas::Base::from_repr`, which succeeds exactly
/// on canonical encodings.
#[verifier::external_body]
pub(crate) fn check_pallas_base(b: &Vec<u8>) -> (r: bool)
    ensures
        r == (b@.len() == 32 && is_pallas_base(b@)),
{
    let bytes: [u8; 32] = match b.as_slice().try_into() {
        Ok(a) => a,
        Err(_) => return false,
    };
    bool::from(pasta_curves::pallas::Base::from_repr(bytes).is_some())
}

/// Relies on `orchard::primitives::redpallas::VerificationKey::try_from`.
#[verifier::external_body]
pub(crate) fn check_redpallas_vk(b: &Vec<u8>) -> (r: bool)
    ensures
        r == (b@.len() == 32 && is_redpallas_vk(b@)),
{
    let bytes: [u8; 32] = match b.as_slice().try_into() {
        Ok(a) => a,
        Err(_) => return false,
    };
    redpallas::VerificationKey::<redpallas::SpendAuth>::try_from(bytes).is_ok()
}

/// The consensus branch identifiers that the protocol library recognizes.
pub open spec fn is_known_branch(id: u32) -> bool {
    id == 0 || id == 0x5ba81b19u32 || id == 0x76b809bbu32 || id == 0x2bb40e60u32 || id
        == 0xf5b9230bu32 || id == 0xe9ff75a6u32 || id == 0xc2d6d0b4u32 || id == 0xc8e71055u32 || id
        == 0x4dec4df0u32 || id == 0x5437f330u32 || id == 0x37a5165bu32
}

/// Relies on `zcash_protocol::consensus::BranchId::try_from`, which accepts
/// exactly the identifiers listed in [`is_known_branch`].
#[verifier::external_body]
pub(crate) fn branch_id_known(id: u32) -> (r: bool)
    ensures
        r == is_known_branch(id),
{
    zcash_protocol::consensus::BranchId::try_from(id).is_ok()
}

/// The largest number of zatoshis that can ever exist.
pub const MAX_MONEY: u64 = 2_100_000_000_000_000;

/// Relies on `zcash_protocol::value::ZatBalance::from_u64`, which accepts
/// exactly the amounts up to [`MAX_MONEY`] and represents them as a signed
/// 64-bit integer.
#[verifier::external_body]
pub(crate) fn zat_balance_from_u64(v: u64) -> (r: Option<i64>)
    ensures
        r is Some <==> v <= MAX_MONEY,
        r is Some ==> r.unwrap() == v as i64,
{
    match zcash_protocol::value::ZatBalance::from_u64(v) {
        Ok(b) => Some(b.into()),
        Err(_) => None,
    }
}


/// Whether a byte string encodes a valid spend-validating key component: a
/// non-identity point of the prime-order subgroup.
pub uninterp spec fn is_sapling_ak(s: Seq<u8>) -> bool;

/// Whether a spend-authorization signature verifies under a randomized
/// verification key over a message, in the RedJubjub spend-authorization
/// scheme.
pub uninterp spec fn redjubjub_spend_sig_valid(vk: Seq<u8>, msg: Seq<u8>, sig: Seq<u8>) -> bool;

/// Whether a binding signature verifies under a verification key over a
/// message, in the RedJubjub binding scheme.
pub uninterp spec fn redjubjub_binding_sig_valid(vk: Seq<u8>, msg: Seq<u8>, sig: Seq<u8>) -> bool;

/// The verification key derived from a RedJubjub binding signing key.
pub uninterp spec fn redjubjub_vk_of_sk(sk: Seq<u8>) -> Seq<u8>;

/// Whether a spend-authorization signature verifies under a randomized
/// verification key over a message, in the RedPallas spend-authorization
/// scheme.
pub uninterp spec fn redpallas_spend_sig_valid(vk: Seq<u8>, msg: Seq<u8>, sig: Seq<u8>) -> bool;

/// Whether a binding signature verifies under a verification key over a
/// message, in the RedPallas binding scheme.
pub uninterp spec fn redpallas_binding_sig_valid(vk: Seq<u8>, msg: Seq<u8>, sig: Seq<u8>) -> bool;

/// The verification key derived from a RedPallas binding signing key.
pub uninterp spec fn redpallas_vk_of_sk(sk: Seq<u8>) -> Seq<u8>;

/// Relies on `jubjub::Scalar::from_repr`, which succeeds exactly on
/// canonical encodings.
#[verifier::external_body]
pub(crate) fn check_jubjub_scalar(b: &Vec<u8>) -> (r: bool)
    ensures
        r == (b@.len() == 32 && is_jubjub_scalar(b@)),
{
    let bytes: [u8; 32] = match b.as_slice().try_into() {
        Ok(a) => a,
        Err(_) => return false,
    };
    bool::from(jubjub::Scalar::from_repr(bytes).is_some())
}

/// Relies on `sapling::PaymentAddress::from_bytes`.
#[verifier::external_body]
pub(crate) fn check_sapling_recipient(b: &Vec<u8>) -> (r: bool)
    ensures
        r == (b@.len() == 43 && is_sapling_recipient(b@)),
{
    let bytes: [u8; 43] = match b.as_slice().try_into() {
        Ok(a) => a,
        Err(_) => return false,
    };
    PaymentAddress::from_bytes(&bytes).is_some()
}

/// Relies on `jubjub::SubgroupPoint::from_bytes` and `Group::is_identity`:
/// the exact acceptance condition of the key library's spend-validating-key
/// parser (a canonical, non-identity prime-order point; every such point is
/// also a valid RedJubjub verification key).
#[verifier::external_body]
pub(crate) fn check_sapling_ak(b: &Vec<u8>) -> (r: bool)
    ensures
        r == (b@.len() == 32 && is_sapling_ak(b@)),
{
    let bytes: [u8; 32] = match b.as_slice().try_into() {
        Ok(a) => a,
        Err(_) => return false,
    };
    match Option::<jubjub::SubgroupPoint>::from(jubjub::SubgroupPoint::from_bytes(&bytes)) {
        Some(p) => !bool::from(p.is_identity()),
        None => false,
    }
}

/// Relies on `redjubjub::VerificationKey::<SpendAuth>::verify` (with the key
/// parsed by `try_from` and the signature read from its 64-byte encoding).
#[verifier::external_body]
pub(crate) fn verify_redjubjub_spend_sig(vk: &Vec<u8>, msg: &Vec<u8>, sig: &Vec<u8>) -> (r: bool)
    ensures
        r == (vk@.len() == 32 && is_redjubjub_vk(vk@) && sig@.len() == 64
            && redjubjub_spend_sig_valid(vk@, msg@, sig@)),
{
    let kb: [u8; 32] = match vk.as_slice().try_into() {
        Ok(a) => a,
        Err(_) => return false,
    };
    let sb: [u8; 64] = match sig.as_slice().try_into() {
        Ok(a) => a,
        Err(_) => return false,
    };
    match redjubjub::VerificationKey::<redjubjub::SpendAuth>::try_from(kb) {
        Ok(k) => k.verify(msg, &redjubjub::Signature::from(sb)).is_ok(),
        Err(_) => false,
    }
}

/// Relies on `orchard::primitives::redpallas::VerificationKey::verify` in
/// the spend-authorization scheme.
#[verifier::external_body]
pub(crate) fn verify_redpallas_spend_sig(vk: &Vec<u8>, msg: &Vec<u8>, sig: &Vec<u8>) -> (r: bool)
    ensures
        r == (vk@.len() == 32 && is_redpallas_vk(vk@) && sig@.len() == 64
            && redpallas_spend_sig_valid(vk@, msg@, sig@)),
{
    let kb: [u8; 32] = match vk.as_slice().try_into() {
        Ok(a) => a,
        Err(_) => return false,
    };
    let sb: [u8; 64] = match sig.as_slice().try_into() {
        Ok(a) => a,
        Err(_) => return false,
    };
    match redpallas::VerificationKey::<redpallas::SpendAuth>::try_from(kb) {
        Ok(k) => k.verify(msg, &redpallas::Signature::from(sb)).is_ok(),
        Err(_) => false,
    }
}

/// Relies on `redjubjub::SigningKey::<Binding>::sign` (randomized) and
/// `VerificationKey::from`: the signing key parses exactly when the bytes
/// are a canonical scalar, and a signature just produced verifies under the
/// key derived from the signing key. Nothing more is promised of the
/// signature, which is randomized.
#[verifier::external_body]
pub(crate) fn sign_redjubjub_binding(sk: &Vec<u8>, msg: &Vec<u8>) -> (r: Option<Vec<u8>>)
    ensures
        r is Some <==> (sk@.len() == 32 && is_jubjub_scalar(sk@)),
        r is Some ==> (r.unwrap()@.len() == 64 && redjubjub_binding_sig_valid(
            redjubjub_vk_of_sk(sk@),
            msg@,
            r.unwrap()@,
        ) && redjubjub_vk_of_sk(sk@).len() == 32),
{
    let kb: [u8; 32] = sk.as_slice().try_into().ok()?;
    let key = redjubjub::SigningKey::<redjubjub::Binding>::try_from(kb).ok()?;
    let sig = key.sign(rand_core::OsRng, msg);
    Some(<[u8; 64]>::from(sig).to_vec())
}

/// Relies on `orchard::primitives::redpallas::SigningKey::<Binding>::sign`
/// and `VerificationKey::from`, as in the RedJubjub case.
#[verifier::external_body]
pub(crate) fn sign_redpallas_binding(sk: &Vec<u8>, msg: &Vec<u8>) -> (r: Option<Vec<u8>>)
    ensures
        r is Some <==> (sk@.len() == 32 && is_pallas_scalar(sk@)),
        r is Some ==> (r.unwrap()@.len() == 64 && redpallas_binding_sig_valid(
            redpallas_vk_of_sk(sk@),
            msg@,
            r.unwrap()@,
        ) && redpallas_vk_of_sk(sk@).len() == 32),
{
    let kb: [u8; 32] = sk.as_slice().try_into().ok()?;
    let key = redpallas::SigningKey::<redpallas::Binding>::try_from(kb).ok()?;
    let sig = key.sign(rand_core::OsRng, msg);
    Some(<[u8; 64]>::from(&sig).to_vec())
}

} // verus!
