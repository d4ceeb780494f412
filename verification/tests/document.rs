//! Tests of the role pipeline: construction, balance accounting, freezing,
//! attaching proofs and signatures, redaction, and extraction.

use ff::PrimeField;

use pczt::roles::constructor::{Constructor, OrchardError, SaplingError};
use pczt::roles::creator::Creator;
use pczt::roles::io_finalizer::{Error as IoError, IoFinalizer};
use pczt::roles::prover::{Error as ProverError, Prover};
use pczt::roles::redactor::{Redactor, SaplingSpendField};
use pczt::roles::signer::Signer;
use pczt::roles::spend_finalizer::{assemble_script_sig, SpendFinalizer};
use pczt::roles::tx_extractor::{
    Error as TxError, GlobalError, OrchardActionEffect, SaplingSpendEffect, TransactionEffects,
    TransactionExtractor,
};
use orchard::primitives::redpallas;
use pczt::Pczt;

const NU5_BRANCH_ID: u32 = 0xc2d6_d0b4;

fn base_doc() -> Pczt {
    Creator::new(NU5_BRANCH_ID, 10_000_000, [0u8; 32], [0u8; 32]).build()
}

/// A valid Sapling full viewing key, its address, and a seed, derived from a
/// fixed spending key.
fn sapling_note_parts() -> ([u8; 96], [u8; 43]) {
    let expsk = sapling_crypto::keys::ExpandedSpendingKey::from_spending_key(&[7u8; 32]);
    let fvk = sapling_crypto::keys::FullViewingKey::from_expanded_spending_key(&expsk);
    let mut addr = None;
    for d in 0u8..=255 {
        if let Some(a) = fvk.vk.to_payment_address(sapling_crypto::keys::Diversifier([d; 11])) {
            addr = Some(a);
            break;
        }
    }
    (fvk.to_bytes(), addr.expect("some diversifier works").to_bytes())
}

/// A valid Orchard full viewing key, address, nullifier-derivation input and
/// note seed.
fn orchard_note_parts() -> ([u8; 96], [u8; 43], [u8; 32], [u8; 32]) {
    let sk = orchard::keys::SpendingKey::from_bytes([7u8; 32]).unwrap();
    let fvk = orchard::keys::FullViewingKey::from(&sk);
    let addr = fvk.address_at(0u32, orchard::keys::Scope::External);
    let rho_bytes = [0u8; 32];
    let rho = orchard::note::Rho::from_bytes(&rho_bytes).unwrap();
    let mut rseed = None;
    for b in 0u8..=255 {
        if Option::<orchard::note::RandomSeed>::from(orchard::note::RandomSeed::from_bytes(
            [b; 32],
            &rho,
        ))
        .is_some()
        {
            rseed = Some([b; 32]);
            break;
        }
    }
    (
        fvk.to_bytes(),
        addr.to_raw_address_bytes(),
        rho_bytes,
        rseed.expect("some seed works"),
    )
}

#[test]
fn creator_builds_empty_document() {
    let doc = base_doc();
    assert_eq!(doc.global.tx_version, 5);
    assert_eq!(doc.global.version_group_id, 0x26A7270A);
    assert_eq!(doc.global.consensus_branch_id, NU5_BRANCH_ID);
    assert_eq!(doc.global.lock_time, 0);
    assert_eq!(doc.global.expiry_height, 10_000_000);
    assert_eq!(doc.transparent.inputs.len(), 0);
    assert_eq!(doc.transparent.outputs.len(), 0);
    assert_eq!(doc.sapling.value_balance, 0);
    assert!(doc.sapling.bsk.is_none());
    assert_eq!(doc.orchard.flags, 3);
    assert!(doc.orchard.bsk.is_none());
}

#[test]
fn creator_orchard_flags() {
    let c = Creator::new(NU5_BRANCH_ID, 1, [0u8; 32], [0u8; 32])
        .with_orchard_flags(true, false);
    let doc = c.build();
    assert_eq!(doc.orchard.flags, 1);
}

#[test]
fn transparent_appends_record_fields() {
    let mut cons = Constructor::new(base_doc());
    cons.add_transparent_input(&[9u8; 32], 3, 100_000, vec![0x51], 0xffffffff, 0, 1);
    cons.add_transparent_output(60_000, vec![0x52]);
    let doc = cons.finish();
    assert_eq!(doc.transparent.inputs.len(), 1);
    assert_eq!(doc.transparent.inputs[0].prevout_txid, vec![9u8; 32]);
    assert_eq!(doc.transparent.inputs[0].prevout_index, 3);
    assert_eq!(doc.transparent.inputs[0].value, 100_000);
    assert!(doc.transparent.inputs[0].script_sig.is_none());
    assert_eq!(doc.transparent.outputs.len(), 1);
    assert_eq!(doc.transparent.outputs[0].value, 60_000);
}

#[test]
fn sapling_balance_accounting() {
    let (fvk, addr) = sapling_note_parts();
    let mut cons = Constructor::new(base_doc());
    let rcv = [0u8; 32];
    cons.add_sapling_spend(&fvk, &addr, 70_000, &[3u8; 32], 0, &rcv).unwrap();
    assert_eq!(cons.pczt.sapling.value_balance, 70_000);
    cons.add_sapling_spend(&fvk, &addr, 30_000, &[4u8; 32], 1, &rcv).unwrap();
    assert_eq!(cons.pczt.sapling.value_balance, 100_000);
    cons.add_sapling_output(&addr, 45_000, &[5u8; 32], &[6u8; 32], vec![0u8; 580], vec![0u8; 80], &rcv)
        .unwrap();
    assert_eq!(cons.pczt.sapling.value_balance, 55_000);
    let doc = cons.finish();
    assert_eq!(doc.sapling.spends.len(), 2);
    assert_eq!(doc.sapling.outputs.len(), 1);
    assert_eq!(doc.sapling.spends[0].value, Some(70_000));
    assert_eq!(doc.sapling.outputs[0].value, Some(45_000));
}

#[test]
fn sapling_balance_violation_on_overflow() {
    let (fvk, addr) = sapling_note_parts();
    let mut cons = Constructor::new(base_doc());
    let rcv = [0u8; 32];
    cons.add_sapling_spend(&fvk, &addr, u64::MAX, &[3u8; 32], 0, &rcv).unwrap();
    let r = cons.add_sapling_spend(&fvk, &addr, 1, &[3u8; 32], 1, &rcv);
    assert_eq!(r, Err(SaplingError::BalanceViolation));
    // The failed call left the document untouched.
    assert_eq!(cons.pczt.sapling.spends.len(), 1);
    assert_eq!(cons.pczt.sapling.value_balance, u64::MAX);
}

#[test]
fn sapling_balance_violation_on_underflow() {
    let (_, addr) = sapling_note_parts();
    let mut cons = Constructor::new(base_doc());
    let r = cons.add_sapling_output(
        &addr,
        1,
        &[5u8; 32],
        &[6u8; 32],
        vec![0u8; 580],
        vec![0u8; 80],
        &[0u8; 32],
    );
    assert_eq!(r, Err(SaplingError::BalanceViolation));
}

#[test]
fn sapling_rejects_bad_inputs() {
    let (fvk, addr) = sapling_note_parts();
    let mut cons = Constructor::new(base_doc());
    // 0xff.. is larger than the scalar field modulus, so it is not canonical.
    let r = cons.add_sapling_spend(&fvk, &addr, 1, &[3u8; 32], 0, &[0xffu8; 32]);
    assert_eq!(r, Err(SaplingError::InvalidValueCommitTrapdoor));
    let r = cons.add_sapling_spend(&[1u8; 96], &addr, 1, &[3u8; 32], 0, &[0u8; 32]);
    assert_eq!(r, Err(SaplingError::InvalidFullViewingKey));
    let r = cons.add_sapling_spend(&fvk, &[1u8; 43], 1, &[3u8; 32], 0, &[0u8; 32]);
    assert_eq!(r, Err(SaplingError::InvalidRecipient));
}

#[test]
fn sapling_spend_derivations_match_the_curve_library() {
    let (fvk_bytes, addr_bytes) = sapling_note_parts();
    let rcv_scalar = jubjub::Scalar::from(11u64);
    let rcv: [u8; 32] = rcv_scalar.to_repr();
    let mut cons = Constructor::new(base_doc());
    cons.add_sapling_spend(&fvk_bytes, &addr_bytes, 70_000, &[3u8; 32], 42, &rcv).unwrap();
    let doc = cons.finish();
    let spend = &doc.sapling.spends[0];

    let trapdoor = sapling_crypto::value::ValueCommitTrapdoor::from_bytes(rcv).unwrap();
    let expected_cv = sapling_crypto::value::ValueCommitment::derive(
        sapling_crypto::value::NoteValue::from_raw(70_000),
        trapdoor,
    );
    assert_eq!(spend.cv, expected_cv.to_bytes().to_vec());

    let fvk = sapling_crypto::keys::FullViewingKey::read(&fvk_bytes[..]).unwrap();
    let addr = sapling_crypto::PaymentAddress::from_bytes(&addr_bytes).unwrap();
    let note = sapling_crypto::Note::from_parts(
        addr,
        sapling_crypto::value::NoteValue::from_raw(70_000),
        sapling_crypto::Rseed::AfterZip212([3u8; 32]),
    );
    assert_eq!(spend.nullifier, note.nf(&fvk.vk.nk, 42).0.to_vec());

    let alpha_bytes: [u8; 32] = spend.alpha.as_ref().unwrap().as_slice().try_into().unwrap();
    let alpha = jubjub::Scalar::from_repr(alpha_bytes).unwrap();
    let rk = fvk.vk.ak.randomize(&alpha);
    assert_eq!(spend.rk, <[u8; 32]>::from(rk).to_vec());
}

#[test]
fn orchard_balance_accounting() {
    let (fvk, addr, rho, rseed) = orchard_note_parts();
    let mut cons = Constructor::new(base_doc());
    let r = cons.add_orchard_action(
        &fvk,
        &addr,
        100_000,
        &rho,
        &rseed,
        &addr,
        30_000,
        &rho,
        &rseed,
        &[6u8; 32],
        vec![0u8; 580],
        vec![0u8; 80],
        &[0u8; 32],
    );
    assert_eq!(r, Ok(()));
    assert_eq!(cons.pczt.orchard.value_balance, 70_000);
    let r = cons.add_orchard_action(
        &fvk,
        &addr,
        0,
        &rho,
        &rseed,
        &addr,
        90_000,
        &rho,
        &rseed,
        &[6u8; 32],
        vec![0u8; 580],
        vec![0u8; 80],
        &[0u8; 32],
    );
    assert_eq!(r, Ok(()));
    assert_eq!(cons.pczt.orchard.value_balance, -20_000);
    assert_eq!(cons.pczt.orchard.actions.len(), 2);
}

#[test]
fn orchard_rejects_bad_inputs() {
    let (fvk, addr, rho, rseed) = orchard_note_parts();
    let mut cons = Constructor::new(base_doc());
    let r = cons.add_orchard_action(
        &fvk, &addr, 1, &rho, &rseed, &addr, 1, &rho, &rseed, &[6u8; 32], vec![], vec![],
        &[0xffu8; 32],
    );
    assert_eq!(r, Err(OrchardError::InvalidValueCommitTrapdoor));
    let r = cons.add_orchard_action(
        &[1u8; 96], &addr, 1, &rho, &rseed, &addr, 1, &rho, &rseed, &[6u8; 32], vec![], vec![],
        &[0u8; 32],
    );
    assert_eq!(r, Err(OrchardError::InvalidFullViewingKey));
    let r = cons.add_orchard_action(
        &fvk, &addr, 1, &[0xffu8; 32], &rseed, &addr, 1, &rho, &rseed, &[6u8; 32], vec![], vec![],
        &[0u8; 32],
    );
    assert_eq!(r, Err(OrchardError::InvalidSpendNote));
    assert_eq!(cons.pczt.orchard.actions.len(), 0);
}

#[test]
fn io_finalizer_requires_spends_and_outputs() {
    let r = IoFinalizer::new(base_doc()).finalize_io();
    assert!(matches!(r, Err(IoError::NoSpends)));
    let mut cons = Constructor::new(base_doc());
    cons.add_transparent_input(&[9u8; 32], 0, 100_000, vec![0x51], 0, 0, 1);
    let r = IoFinalizer::new(cons.finish()).finalize_io();
    assert!(matches!(r, Err(IoError::NoOutputs)));
}

#[test]
fn io_finalizer_derives_binding_keys() {
    let (fvk, addr) = sapling_note_parts();
    let mut cons = Constructor::new(base_doc());
    let rcv_spend: [u8; 32] = jubjub::Scalar::from(5u64).to_repr();
    let rcv_out: [u8; 32] = jubjub::Scalar::from(3u64).to_repr();
    cons.add_sapling_spend(&fvk, &addr, 70_000, &[3u8; 32], 0, &rcv_spend).unwrap();
    cons.add_sapling_output(&addr, 70_000, &[5u8; 32], &[6u8; 32], vec![0u8; 580], vec![0u8; 80], &rcv_out)
        .unwrap();
    let doc = IoFinalizer::new(cons.finish()).finalize_io().unwrap();
    let expected: [u8; 32] = (jubjub::Scalar::from(5u64) - jubjub::Scalar::from(3u64)).to_repr();
    assert_eq!(doc.sapling.bsk, Some(expected.to_vec()));
    // The Orchard pool is empty, so its key is the zero scalar.
    assert_eq!(doc.orchard.bsk, Some(vec![0u8; 32]));
}

#[test]
fn io_finalizer_reports_missing_trapdoor() {
    let (fvk, addr) = sapling_note_parts();
    let mut cons = Constructor::new(base_doc());
    cons.add_sapling_spend(&fvk, &addr, 70_000, &[3u8; 32], 0, &[0u8; 32]).unwrap();
    cons.add_transparent_output(60_000, vec![0x52]);
    let mut red = Redactor::new(cons.finish());
    red.redact_sapling_spend_field(0, SaplingSpendField::Rcv).unwrap();
    let r = IoFinalizer::new(red.finish()).finalize_io();
    assert!(matches!(
        r,
        Err(IoError::Sapling(pczt::sapling::Error::MissingValueCommitTrapdoor))
    ));
}

#[test]
fn prover_and_signer_validate_shape() {
    let (fvk, addr) = sapling_note_parts();
    let mut cons = Constructor::new(base_doc());
    cons.add_sapling_spend(&fvk, &addr, 1, &[3u8; 32], 0, &[0u8; 32]).unwrap();
    let mut prover = Prover::new(cons.finish());
    assert_eq!(prover.attach_sapling_spend_proof(1, vec![0u8; 192]), Err(ProverError::IndexOutOfRange));
    assert_eq!(prover.attach_sapling_spend_proof(0, vec![0u8; 10]), Err(ProverError::InvalidProofLength));
    assert_eq!(prover.attach_sapling_spend_proof(0, vec![0u8; 192]), Ok(()));
    let doc = prover.finish();
    assert_eq!(doc.sapling.spends[0].zkproof, Some(vec![0u8; 192]));
    let mut signer = Signer::new(doc);
    assert_eq!(
        signer.attach_sapling_spend_signature(0, vec![0u8; 63]),
        Err(pczt::roles::signer::Error::InvalidSignatureLength)
    );
    assert_eq!(signer.attach_sapling_spend_signature(0, vec![1u8; 64]), Ok(()));
    let doc = signer.finish();
    assert_eq!(doc.sapling.spends[0].spend_auth_sig, Some(vec![1u8; 64]));
}

#[test]
fn redactor_strips_one_field() {
    let (fvk, addr) = sapling_note_parts();
    let mut cons = Constructor::new(base_doc());
    cons.add_sapling_spend(&fvk, &addr, 1, &[3u8; 32], 0, &[0u8; 32]).unwrap();
    let mut red = Redactor::new(cons.finish());
    red.redact_sapling_spend_field(0, SaplingSpendField::Alpha).unwrap();
    let doc = red.finish();
    assert!(doc.sapling.spends[0].alpha.is_none());
    // Other fields are untouched.
    assert!(doc.sapling.spends[0].rcv.is_some());
    assert!(doc.sapling.spends[0].value.is_some());
}

#[test]
fn script_sig_assembly_encodes_pushes() {
    let sig = vec![0xaa, 0xbb, 0xcc];
    let long = vec![0x11u8; 0x60];
    let r = assemble_script_sig(&vec![sig, long]).unwrap();
    let mut expected = vec![3u8, 0xaa, 0xbb, 0xcc];
    expected.push(0x4c);
    expected.push(0x60);
    expected.extend(std::iter::repeat(0x11u8).take(0x60));
    assert_eq!(r, expected);
}

#[test]
fn extractor_rejects_unsupported_version_and_branch() {
    let mut doc = base_doc();
    doc.global.tx_version = 4;
    let r = TransactionExtractor::new(doc).extract();
    assert!(matches!(
        r,
        Err(TxError::Global(GlobalError::UnsupportedTxVersion { version: 4, version_group_id: _ }))
    ));
    let doc = Creator::new(0xdead_beef, 1, [0u8; 32], [0u8; 32]).build();
    let r = TransactionExtractor::new(doc).extract();
    assert!(matches!(r, Err(TxError::Global(GlobalError::UnknownConsensusBranchId))));
}

#[test]
fn extractor_requires_proofs_and_signatures() {
    let (fvk, addr) = sapling_note_parts();
    let mut cons = Constructor::new(base_doc());
    cons.add_sapling_spend(&fvk, &addr, 1, &[3u8; 32], 0, &[0u8; 32]).unwrap();
    cons.add_sapling_output(&addr, 1, &[5u8; 32], &[6u8; 32], vec![0u8; 580], vec![0u8; 80], &[0u8; 32])
        .unwrap();
    let doc = IoFinalizer::new(cons.finish()).finalize_io().unwrap();
    let r = TransactionExtractor::new(doc).extract();
    assert!(matches!(r, Err(TxError::Sapling(pczt::sapling::Error::MissingProof))));
}

#[test]
fn transparent_to_orchard() {
    let (fvk, addr, rho, rseed) = orchard_note_parts();

    // Create the base document.
    let doc = Creator::new(NU5_BRANCH_ID, 10_000_000, [0u8; 32], [0u8; 32]).build();

    // Fund an Orchard output from a transparent coin.
    let mut cons = Constructor::new(doc);
    cons.add_transparent_input(&[9u8; 32], 0, 100_000, vec![0x51], 0xffffffff, 0, 1);
    cons.add_orchard_action(
        &fvk,
        &addr,
        0,
        &rho,
        &rseed,
        &addr,
        100_000,
        &rho,
        &rseed,
        &[6u8; 32],
        vec![0u8; 580],
        vec![0u8; 80],
        &[0u8; 32],
    )
    .unwrap();
    let doc = cons.finish();

    // Finalize the IO.
    let doc = IoFinalizer::new(doc).finalize_io().unwrap();

    // Attach the bundle proof.
    let mut prover = Prover::new(doc);
    prover.attach_orchard_proof(vec![0u8; 2720]);
    let doc = prover.finish();

    // Apply the action's authorization signature.
    let mut signer = Signer::new(doc);
    signer.attach_orchard_spend_signature(0, vec![2u8; 64]).unwrap();
    let doc = signer.finish();

    // Assemble the transparent witness.
    let mut fin = SpendFinalizer::new(doc);
    fin.finalize_input(0, &vec![vec![0xaa, 0xbb]]).unwrap();
    let doc = fin.finish();

    // The fully authorized document extracts.
    let fx = TransactionExtractor::new(doc).extract().unwrap();
    assert_eq!(fx.expiry_height, 10_000_000);
    assert_eq!(fx.transparent_inputs.len(), 1);
    assert_eq!(fx.transparent_inputs[0].value, 100_000);
    assert_eq!(fx.orchard_actions.len(), 1);
    assert_eq!(fx.orchard_value_balance, -100_000);
    assert!(fx.orchard_bsk.is_some());
}

#[test]
fn extraction_fails_after_redacting_a_needed_field() {
    let (fvk, addr, rho, rseed) = orchard_note_parts();
    let doc = Creator::new(NU5_BRANCH_ID, 10_000_000, [0u8; 32], [0u8; 32]).build();
    let mut cons = Constructor::new(doc);
    cons.add_transparent_input(&[9u8; 32], 0, 100_000, vec![0x51], 0, 0, 1);
    cons.add_orchard_action(
        &fvk, &addr, 0, &rho, &rseed, &addr, 100_000, &rho, &rseed, &[6u8; 32],
        vec![0u8; 580], vec![0u8; 80], &[0u8; 32],
    )
    .unwrap();
    let doc = IoFinalizer::new(cons.finish()).finalize_io().unwrap();
    let mut fin = SpendFinalizer::new(doc);
    fin.finalize_input(0, &vec![vec![0xaa]]).unwrap();
    // No proof was ever attached: extraction must fail rather than produce
    // transaction effects.
    let r = TransactionExtractor::new(fin.finish()).extract();
    assert!(matches!(
        r,
        Err(TxError::Orchard(pczt::orchard::Error::MissingSpendAuthSignature))
    ));
}

#[test]
fn binding_signature_rejects_bit_flips() {
    let (fvk, addr) = sapling_note_parts();
    let mut cons = Constructor::new(base_doc());
    let rcv_spend: [u8; 32] = jubjub::Scalar::from(5u64).to_repr();
    let rcv_out: [u8; 32] = jubjub::Scalar::from(3u64).to_repr();
    cons.add_sapling_spend(&fvk, &addr, 70_000, &[3u8; 32], 0, &rcv_spend).unwrap();
    cons.add_sapling_output(&addr, 70_000, &[5u8; 32], &[6u8; 32], vec![0u8; 580], vec![0u8; 80], &rcv_out)
        .unwrap();
    let doc = IoFinalizer::new(cons.finish()).finalize_io().unwrap();
    let bsk: [u8; 32] = doc.sapling.bsk.unwrap().as_slice().try_into().unwrap();
    let sk = redjubjub::SigningKey::<redjubjub::Binding>::try_from(bsk).unwrap();
    let digest = [0x5au8; 32];
    let sig = sk.sign(rand_core::OsRng, &digest);
    let vk = redjubjub::VerificationKey::from(&sk);
    assert!(vk.verify(&digest, &sig).is_ok());
    // Any single bit flip in the signature must fail verification.
    let mut sig_bytes = <[u8; 64]>::from(sig);
    sig_bytes[0] ^= 0x01;
    let bad = redjubjub::Signature::<redjubjub::Binding>::from(sig_bytes);
    assert!(vk.verify(&digest, &bad).is_err());
    // A bit flip in the signed digest must fail as well.
    let sig = redjubjub::Signature::<redjubjub::Binding>::from({
        sig_bytes[0] ^= 0x01;
        sig_bytes
    });
    let mut flipped = digest;
    flipped[31] ^= 0x80;
    assert!(vk.verify(&flipped, &sig).is_err());
}

#[test]
fn field_accessors_report_missing_parts() {
    let (fvk, addr) = sapling_note_parts();
    let mut cons = Constructor::new(base_doc());
    cons.add_sapling_spend(&fvk, &addr, 70_000, &[3u8; 32], 0, &[0u8; 32]).unwrap();
    let doc = cons.finish();
    let spend = &doc.sapling.spends[0];
    let (recipient, value, rseed) = spend.note_from_fields().unwrap();
    assert_eq!(recipient, addr.to_vec());
    assert_eq!(value, 70_000);
    assert_eq!(rseed, vec![3u8; 32]);
    assert_eq!(spend.rcv_from_field().unwrap(), vec![0u8; 32]);
    assert!(matches!(
        spend.witness_from_field(),
        Err(pczt::sapling::Error::MissingWitness)
    ));
    let mut red = Redactor::new(doc);
    red.redact_sapling_spend_field(0, SaplingSpendField::Value).unwrap();
    let doc = red.finish();
    assert!(matches!(
        doc.sapling.spends[0].note_from_fields(),
        Err(pczt::sapling::Error::MissingValue)
    ));
}

fn empty_effects() -> TransactionEffects {
    TransactionEffects {
        tx_version: 5,
        version_group_id: 0x26A7270A,
        consensus_branch_id: NU5_BRANCH_ID,
        lock_time: 0,
        expiry_height: 10_000_000,
        transparent_inputs: vec![],
        transparent_outputs: vec![],
        sapling_spends: vec![],
        sapling_outputs: vec![],
        sapling_value_balance: 0,
        sapling_anchor: vec![0u8; 32],
        sapling_bsk: None,
        orchard_actions: vec![],
        orchard_flags: 3,
        orchard_value_balance: 0,
        orchard_anchor: vec![0u8; 32],
        orchard_zkproof: None,
        orchard_bsk: None,
    }
}

#[test]
fn accessors_distinguish_missing_from_invalid() {
    let (fvk, addr) = sapling_note_parts();
    let mut cons = Constructor::new(base_doc());
    cons.add_sapling_spend(&fvk, &addr, 70_000, &[3u8; 32], 0, &[0u8; 32]).unwrap();
    let mut doc = cons.finish();

    // A present recipient that is not a valid address encoding is invalid,
    // and validity of present fields is reported before missingness.
    doc.sapling.spends[0].recipient = Some(vec![1u8; 43]);
    doc.sapling.spends[0].value = None;
    assert!(matches!(
        doc.sapling.spends[0].note_from_fields(),
        Err(pczt::sapling::Error::InvalidRecipient)
    ));
    doc.sapling.spends[0].recipient = None;
    assert!(matches!(
        doc.sapling.spends[0].note_from_fields(),
        Err(pczt::sapling::Error::MissingRecipient)
    ));

    // A present, non-canonical trapdoor is invalid, not missing.
    doc.sapling.spends[0].rcv = Some(vec![0xffu8; 32]);
    assert!(matches!(
        doc.sapling.spends[0].rcv_from_field(),
        Err(pczt::sapling::Error::InvalidValueCommitTrapdoor)
    ));
    doc.sapling.spends[0].rcv = None;
    assert!(matches!(
        doc.sapling.spends[0].rcv_from_field(),
        Err(pczt::sapling::Error::MissingValueCommitTrapdoor)
    ));

    // A present witness with a non-canonical path element is invalid.
    doc.sapling.spends[0].witness = Some(pczt::common::MerkleWitness {
        position: 7,
        auth_path: vec![vec![0xffu8; 32]; 32],
    });
    assert!(matches!(
        doc.sapling.spends[0].witness_from_field(),
        Err(pczt::sapling::Error::InvalidWitness)
    ));
    doc.sapling.spends[0].witness = Some(pczt::common::MerkleWitness {
        position: 7,
        auth_path: vec![vec![0u8; 32]; 32],
    });
    let w = doc.sapling.spends[0].witness_from_field().unwrap();
    assert_eq!(w.position, 7);
    assert_eq!(w.auth_path.len(), 32);

    // A present, non-canonical randomizer is invalid.
    doc.sapling.spends[0].alpha = Some(vec![0xffu8; 32]);
    assert!(matches!(
        doc.sapling.spends[0].alpha_from_field(),
        Err(pczt::sapling::Error::InvalidSpendAuthRandomizer)
    ));

    // A proof-generation key with a bad spend-validating component is
    // invalid; one built from the real key material is returned.
    doc.sapling.spends[0].proof_generation_key = Some(pczt::common::ProofGenerationKey {
        ak: vec![1u8; 32],
        nsk: vec![0u8; 32],
    });
    assert!(matches!(
        doc.sapling.spends[0].proof_generation_key_from_field(),
        Err(pczt::sapling::Error::InvalidProofGenerationKey)
    ));
    doc.sapling.spends[0].proof_generation_key = Some(pczt::common::ProofGenerationKey {
        ak: fvk[0..32].to_vec(),
        nsk: vec![0u8; 32],
    });
    let pgk = doc.sapling.spends[0].proof_generation_key_from_field().unwrap();
    assert_eq!(pgk.ak, fvk[0..32].to_vec());

    // Output-side trapdoor taxonomy.
    cons = Constructor::new(base_doc());
    cons.add_sapling_spend(&fvk, &addr, 70_000, &[3u8; 32], 0, &[0u8; 32]).unwrap();
    cons.add_sapling_output(&addr, 1_000, &[5u8; 32], &[6u8; 32], vec![0u8; 580], vec![0u8; 80], &[0u8; 32])
        .unwrap();
    let mut doc = cons.finish();
    doc.sapling.outputs[0].rcv = Some(vec![0xffu8; 32]);
    assert!(matches!(
        doc.sapling.outputs[0].rcv_from_field(),
        Err(pczt::sapling::Error::InvalidValueCommitTrapdoor)
    ));
}

#[test]
fn spend_authorization_verification_rejects_bit_flips() {
    let msg = vec![0x5au8; 32];
    // Sapling-side spend authorization.
    let sk_bytes: [u8; 32] = jubjub::Scalar::from(5u64).to_repr();
    let sk = redjubjub::SigningKey::<redjubjub::SpendAuth>::try_from(sk_bytes).unwrap();
    let rk = <[u8; 32]>::from(redjubjub::VerificationKey::from(&sk));
    let sig = <[u8; 64]>::from(sk.sign(rand_core::OsRng, &msg));
    // Orchard-side spend authorization.
    let osk_bytes: [u8; 32] = pasta_curves::pallas::Scalar::from(9u64).to_repr();
    let osk = redpallas::SigningKey::<redpallas::SpendAuth>::try_from(osk_bytes).unwrap();
    let ork = <[u8; 32]>::from(&redpallas::VerificationKey::from(&osk));
    let osig = <[u8; 64]>::from(&osk.sign(rand_core::OsRng, &msg));

    let mut fx = empty_effects();
    fx.sapling_spends.push(SaplingSpendEffect {
        cv: vec![0u8; 32],
        nullifier: vec![0u8; 32],
        rk: rk.to_vec(),
        zkproof: vec![0u8; 192],
        spend_auth_sig: sig.to_vec(),
    });
    fx.orchard_actions.push(OrchardActionEffect {
        cv: vec![0u8; 32],
        nullifier: vec![0u8; 32],
        rk: ork.to_vec(),
        cmx: vec![0u8; 32],
        ephemeral_key: vec![0u8; 32],
        enc_ciphertext: vec![0u8; 580],
        out_ciphertext: vec![0u8; 80],
        spend_auth_sig: osig.to_vec(),
    });
    assert!(fx.verify_spend_auth_signatures(&msg));

    // A single bit flip in either signature must fail verification.
    fx.sapling_spends[0].spend_auth_sig[0] ^= 0x01;
    assert!(!fx.verify_spend_auth_signatures(&msg));
    fx.sapling_spends[0].spend_auth_sig[0] ^= 0x01;
    fx.orchard_actions[0].spend_auth_sig[0] ^= 0x01;
    assert!(!fx.verify_spend_auth_signatures(&msg));
    fx.orchard_actions[0].spend_auth_sig[0] ^= 0x01;
    // A bit flip in the digest itself must fail as well.
    let mut flipped = msg.clone();
    flipped[31] ^= 0x80;
    assert!(!fx.verify_spend_auth_signatures(&flipped));
    assert!(fx.verify_spend_auth_signatures(&msg));
}

#[test]
fn binding_signatures_derive_from_frozen_keys() {
    let msg = vec![0x3cu8; 32];
    let mut fx = empty_effects();
    let jj: [u8; 32] = jubjub::Scalar::from(5u64).to_repr();
    let pa: [u8; 32] = pasta_curves::pallas::Scalar::from(3u64).to_repr();
    fx.sapling_bsk = Some(jj.to_vec());
    fx.orchard_bsk = Some(pa.to_vec());
    let bs = fx.derive_binding_signatures(&msg).unwrap();
    // Each signature verifies under the key derived from its signing key.
    let sk = redjubjub::SigningKey::<redjubjub::Binding>::try_from(jj).unwrap();
    let vk = redjubjub::VerificationKey::from(&sk);
    let sig_bytes: [u8; 64] = bs.sapling.unwrap().as_slice().try_into().unwrap();
    assert!(vk.verify(&msg, &redjubjub::Signature::from(sig_bytes)).is_ok());
    let osk = redpallas::SigningKey::<redpallas::Binding>::try_from(pa).unwrap();
    let ovk = redpallas::VerificationKey::from(&osk);
    let osig_bytes: [u8; 64] = bs.orchard.unwrap().as_slice().try_into().unwrap();
    assert!(ovk.verify(&msg, &redpallas::Signature::from(osig_bytes)).is_ok());
    // A key that does not decode as a scalar is rejected.
    fx.sapling_bsk = Some(vec![0xffu8; 32]);
    assert!(matches!(
        fx.derive_binding_signatures(&msg),
        Err(TxError::Sapling(pczt::sapling::Error::InvalidBindingSignatureKey))
    ));
}
