//! Tests of the merge engine: reconciliation of document copies, conflict
//! detection, freeze monotonicity, and order independence.

use pczt::bytemap::ByteMap;
use pczt::roles::constructor::Constructor;
use pczt::roles::creator::Creator;
use pczt::roles::io_finalizer::IoFinalizer;
use pczt::roles::signer::Signer;
use pczt::Pczt;

const NU5_BRANCH_ID: u32 = 0xc2d6_d0b4;

fn base_doc() -> Pczt {
    Creator::new(NU5_BRANCH_ID, 10_000_000, [0u8; 32], [0u8; 32]).build()
}

fn sapling_note_parts() -> ([u8; 96], [u8; 43]) {
    let expsk = sapling_crypto::keys::ExpandedSpendingKey::from_spending_key(&[7u8; 32]);
    let fvk = sapling_crypto::keys::FullViewingKey::from_expanded_spending_key(&expsk);
    let mut addr = None;
    for d in 0u8..=255 {
        if let Some(a) = fvk.vk.to_payment_address(sapling_crypto::keys::Diversifier([d; 11])) {
            addr = Some(a);
            break;
        }
    }
    (fvk.to_bytes(), addr.expect("some diversifier works").to_bytes())
}

fn maps_equal(a: &ByteMap, b: &ByteMap) -> bool {
    a.entries == b.entries
}

fn zips_equal(
    a: &Option<pczt::common::Zip32Derivation>,
    b: &Option<pczt::common::Zip32Derivation>,
) -> bool {
    match (a, b) {
        (None, None) => true,
        (Some(x), Some(y)) => {
            x.seed_fingerprint == y.seed_fingerprint && x.derivation_path == y.derivation_path
        },
        _ => false,
    }
}

fn witnesses_equal(
    a: &Option<pczt::common::MerkleWitness>,
    b: &Option<pczt::common::MerkleWitness>,
) -> bool {
    match (a, b) {
        (None, None) => true,
        (Some(x), Some(y)) => x.position == y.position && x.auth_path == y.auth_path,
        _ => false,
    }
}

fn pgks_equal(
    a: &Option<pczt::common::ProofGenerationKey>,
    b: &Option<pczt::common::ProofGenerationKey>,
) -> bool {
    match (a, b) {
        (None, None) => true,
        (Some(x), Some(y)) => x.ak == y.ak && x.nsk == y.nsk,
        _ => false,
    }
}

/// Deep structural equality of two documents.
fn docs_equal(a: &Pczt, b: &Pczt) -> bool {
    let g = a.global.tx_version == b.global.tx_version
        && a.global.version_group_id == b.global.version_group_id
        && a.global.consensus_branch_id == b.global.consensus_branch_id
        && a.global.lock_time == b.global.lock_time
        && a.global.expiry_height == b.global.expiry_height
        && maps_equal(&a.global.proprietary, &b.global.proprietary);
    if !g {
        return false;
    }
    if a.transparent.inputs.len() != b.transparent.inputs.len()
        || a.transparent.outputs.len() != b.transparent.outputs.len()
    {
        return false;
    }
    for (x, y) in a.transparent.inputs.iter().zip(b.transparent.inputs.iter()) {
        if !(x.prevout_txid == y.prevout_txid
            && x.prevout_index == y.prevout_index
            && x.sequence == y.sequence
            && x.required_locktime == y.required_locktime
            && x.script_sig == y.script_sig
            && x.value == y.value
            && x.script_pubkey == y.script_pubkey
            && x.redeem_script == y.redeem_script
            && maps_equal(&x.partial_signatures, &y.partial_signatures)
            && x.sighash_type == y.sighash_type
            && maps_equal(&x.ripemd160_preimages, &y.ripemd160_preimages)
            && maps_equal(&x.sha256_preimages, &y.sha256_preimages)
            && maps_equal(&x.hash160_preimages, &y.hash160_preimages)
            && maps_equal(&x.hash256_preimages, &y.hash256_preimages))
        {
            return false;
        }
    }
    for (x, y) in a.transparent.outputs.iter().zip(b.transparent.outputs.iter()) {
        if !(x.value == y.value
            && x.script_pubkey == y.script_pubkey
            && x.redeem_script == y.redeem_script)
        {
            return false;
        }
    }
    if !(a.sapling.value_balance == b.sapling.value_balance
        && a.sapling.anchor == b.sapling.anchor
        && a.sapling.bsk == b.sapling.bsk
        && a.sapling.spends.len() == b.sapling.spends.len()
        && a.sapling.outputs.len() == b.sapling.outputs.len())
    {
        return false;
    }
    for (x, y) in a.sapling.spends.iter().zip(b.sapling.spends.iter()) {
        if !(x.cv == y.cv
            && x.nullifier == y.nullifier
            && x.rk == y.rk
            && x.zkproof == y.zkproof
            && x.spend_auth_sig == y.spend_auth_sig
            && x.recipient == y.recipient
            && x.value == y.value
            && x.rseed == y.rseed
            && x.rcv == y.rcv
            && pgks_equal(&x.proof_generation_key, &y.proof_generation_key)
            && witnesses_equal(&x.witness, &y.witness)
            && x.alpha == y.alpha
            && zips_equal(&x.zip32_derivation, &y.zip32_derivation)
            && maps_equal(&x.proprietary, &y.proprietary))
        {
            return false;
        }
    }
    for (x, y) in a.sapling.outputs.iter().zip(b.sapling.outputs.iter()) {
        if !(x.cv == y.cv
            && x.cmu == y.cmu
            && x.ephemeral_key == y.ephemeral_key
            && x.enc_ciphertext == y.enc_ciphertext
            && x.out_ciphertext == y.out_ciphertext
            && x.zkproof == y.zkproof
            && x.recipient == y.recipient
            && x.value == y.value
            && x.rseed == y.rseed
            && x.rcv == y.rcv
            && x.shared_secret == y.shared_secret
            && x.ock == y.ock
            && zips_equal(&x.zip32_derivation, &y.zip32_derivation)
            && maps_equal(&x.proprietary, &y.proprietary))
        {
            return false;
        }
    }
    if !(a.orchard.flags == b.orchard.flags
        && a.orchard.value_balance == b.orchard.value_balance
        && a.orchard.anchor == b.orchard.anchor
        && a.orchard.zkproof == b.orchard.zkproof
        && a.orchard.bsk == b.orchard.bsk
        && a.orchard.actions.len() == b.orchard.actions.len())
    {
        return false;
    }
    for (x, y) in a.orchard.actions.iter().zip(b.orchard.actions.iter()) {
        if !(x.cv == y.cv
            && x.rcv == y.rcv
            && x.spend.nullifier == y.spend.nullifier
            && x.spend.rk == y.spend.rk
            && x.spend.spend_auth_sig == y.spend.spend_auth_sig
            && x.spend.recipient == y.spend.recipient
            && x.spend.value == y.spend.value
            && x.spend.rho == y.spend.rho
            && x.spend.rseed == y.spend.rseed
            && x.spend.fvk == y.spend.fvk
            && witnesses_equal(&x.spend.witness, &y.spend.witness)
            && x.spend.alpha == y.spend.alpha
            && zips_equal(&x.spend.zip32_derivation, &y.spend.zip32_derivation)
            && maps_equal(&x.spend.proprietary, &y.spend.proprietary)
            && x.output.cmx == y.output.cmx
            && x.output.ephemeral_key == y.output.ephemeral_key
            && x.output.enc_ciphertext == y.output.enc_ciphertext
            && x.output.out_ciphertext == y.output.out_ciphertext
            && x.output.recipient == y.output.recipient
            && x.output.value == y.output.value
            && x.output.rseed == y.output.rseed
            && x.output.shared_secret == y.output.shared_secret
            && x.output.ock == y.output.ock
            && zips_equal(&x.output.zip32_derivation, &y.output.zip32_derivation)
            && maps_equal(&x.output.proprietary, &y.output.proprietary))
        {
            return false;
        }
    }
    true
}

#[test]
fn merge_identical_documents() {
    let (fvk, addr) = sapling_note_parts();
    let mut cons = Constructor::new(base_doc());
    cons.add_sapling_spend(&fvk, &addr, 70_000, &[3u8; 32], 0, &[0u8; 32]).unwrap();
    let a = cons.finish();
    let b = a.clone();
    let m = a.merge(&b).unwrap();
    assert!(docs_equal(&m, &a));
}

#[test]
fn merge_adopts_disjoint_appends_in_any_order() {
    let base = base_doc();
    let mut ca = Constructor::new(base.clone());
    ca.add_transparent_input(&[9u8; 32], 0, 100_000, vec![0x51], 0, 0, 1);
    let a = ca.finish();
    let mut cb = Constructor::new(base.clone());
    cb.add_transparent_output(60_000, vec![0x52]);
    let b = cb.finish();
    let mut cc = Constructor::new(base.clone());
    cc.add_transparent_output(60_000, vec![0x52]);
    cc.add_transparent_output(40_000, vec![0x53]);
    let c = cc.finish();

    let ab_c = a.merge(&b).unwrap().merge(&c).unwrap();
    let a_bc = a.merge(&b.merge(&c).unwrap()).unwrap();
    let ac_b = a.merge(&c).unwrap().merge(&b).unwrap();
    assert!(docs_equal(&ab_c, &a_bc));
    assert!(docs_equal(&ab_c, &ac_b));
    assert!(docs_equal(&a.merge(&b).unwrap(), &b.merge(&a).unwrap()));
    assert_eq!(ab_c.transparent.inputs.len(), 1);
    assert_eq!(ab_c.transparent.outputs.len(), 2);
}

#[test]
fn merge_updates_balance_when_adopting_shielded_records() {
    let (fvk, addr) = sapling_note_parts();
    let base = base_doc();
    let mut ca = Constructor::new(base.clone());
    ca.add_sapling_spend(&fvk, &addr, 70_000, &[3u8; 32], 0, &[0u8; 32]).unwrap();
    let a = ca.finish();
    // The other copy has not seen the append yet.
    let m = base.merge(&a).unwrap();
    assert_eq!(m.sapling.value_balance, 70_000);
    assert_eq!(m.sapling.spends.len(), 1);
    assert!(docs_equal(&m, &a));
}

#[test]
fn merge_conflicting_branch_fails() {
    let a = Creator::new(NU5_BRANCH_ID, 10_000_000, [0u8; 32], [0u8; 32]).build();
    let b = Creator::new(0xc8e7_1055, 10_000_000, [0u8; 32], [0u8; 32]).build();
    assert!(a.merge(&b).is_none());
    assert!(b.merge(&a).is_none());
}

#[test]
fn merge_conflicting_required_field_fails() {
    let base = base_doc();
    let mut ca = Constructor::new(base.clone());
    ca.add_transparent_input(&[9u8; 32], 0, 100_000, vec![0x51], 0, 0, 1);
    let a = ca.finish();
    let mut cb = Constructor::new(base);
    cb.add_transparent_input(&[8u8; 32], 0, 100_000, vec![0x51], 0, 0, 1);
    let b = cb.finish();
    assert!(a.merge(&b).is_none());
}

#[test]
fn merge_frozen_count_mismatch_fails() {
    let (fvk, addr) = sapling_note_parts();
    let base = base_doc();
    let mut ca = Constructor::new(base.clone());
    ca.add_sapling_spend(&fvk, &addr, 70_000, &[3u8; 32], 0, &[0u8; 32]).unwrap();
    ca.add_sapling_output(&addr, 70_000, &[5u8; 32], &[6u8; 32], vec![0u8; 580], vec![0u8; 80], &[0u8; 32])
        .unwrap();
    let unfrozen = ca.finish();
    let frozen = IoFinalizer::new(unfrozen.clone()).finalize_io().unwrap();

    // A copy that reports one more spend for the frozen pool.
    let mut cb = Constructor::new(unfrozen.clone());
    cb.add_sapling_spend(&fvk, &addr, 10_000, &[4u8; 32], 1, &[0u8; 32]).unwrap();
    let longer = cb.finish();
    assert!(frozen.merge(&longer).is_none());
    assert!(longer.merge(&frozen).is_none());
    // With matching counts and balance the merge still goes through.
    assert!(frozen.merge(&unfrozen).is_some());
    let m = unfrozen.merge(&frozen).unwrap();
    assert_eq!(m.sapling.bsk, frozen.sapling.bsk);
}

#[test]
fn merge_reconciles_optional_fields() {
    let (fvk, addr) = sapling_note_parts();
    let mut cons = Constructor::new(base_doc());
    cons.add_sapling_spend(&fvk, &addr, 70_000, &[3u8; 32], 0, &[0u8; 32]).unwrap();
    let doc = cons.finish();
    // One party attaches a signature, another a differing one: conflict.
    let mut s1 = Signer::new(doc.clone());
    s1.attach_sapling_spend_signature(0, vec![1u8; 64]).unwrap();
    let d1 = s1.finish();
    let mut s2 = Signer::new(doc.clone());
    s2.attach_sapling_spend_signature(0, vec![2u8; 64]).unwrap();
    let d2 = s2.finish();
    assert!(d1.merge(&d2).is_none());
    // Against the copy without the signature, the present value wins.
    let m = doc.merge(&d1).unwrap();
    assert_eq!(m.sapling.spends[0].spend_auth_sig, Some(vec![1u8; 64]));
    let m = d1.merge(&doc).unwrap();
    assert_eq!(m.sapling.spends[0].spend_auth_sig, Some(vec![1u8; 64]));
}

#[test]
fn merge_unions_partial_signature_maps() {
    let base = {
        let mut cons = Constructor::new(base_doc());
        cons.add_transparent_input(&[9u8; 32], 0, 100_000, vec![0x51], 0, 0, 1);
        cons.finish()
    };
    let mut s1 = Signer::new(base.clone());
    s1.attach_transparent_signature(0, vec![0x02, 0x01], vec![0xA1]).unwrap();
    let d1 = s1.finish();
    let mut s2 = Signer::new(base.clone());
    s2.attach_transparent_signature(0, vec![0x02, 0x02], vec![0xA2]).unwrap();
    let d2 = s2.finish();
    let m = d1.merge(&d2).unwrap();
    let sigs = &m.transparent.inputs[0].partial_signatures;
    assert_eq!(sigs.len(), 2);
    assert_eq!(sigs.get(&vec![0x02, 0x01]), Some(&vec![0xA1]));
    assert_eq!(sigs.get(&vec![0x02, 0x02]), Some(&vec![0xA2]));
    // Same key, different value: conflict.
    let mut s3 = Signer::new(base.clone());
    s3.attach_transparent_signature(0, vec![0x02, 0x01], vec![0xA3]).unwrap();
    let d3 = s3.finish();
    assert!(d1.merge(&d3).is_none());
}

#[test]
fn bytemap_keeps_keys_sorted_and_unique() {
    let mut m = ByteMap::new();
    m.set_entry(vec![5], vec![50]);
    m.set_entry(vec![1], vec![10]);
    m.set_entry(vec![3], vec![30]);
    m.set_entry(vec![3], vec![31]);
    assert_eq!(m.len(), 3);
    assert_eq!(m.entries[0].0, vec![1]);
    assert_eq!(m.entries[1].0, vec![3]);
    assert_eq!(m.entries[2].0, vec![5]);
    assert_eq!(m.get(&vec![3]), Some(&vec![31]));
    assert_eq!(m.get(&vec![4]), None);
    let mut n = ByteMap::new();
    n.set_entry(vec![2], vec![20]);
    n.set_entry(vec![5], vec![50]);
    let u = m.merged_with(&n).unwrap();
    assert_eq!(u.len(), 4);
    assert_eq!(u.entries[0].0, vec![1]);
    assert_eq!(u.entries[1].0, vec![2]);
    assert_eq!(u.entries[2].0, vec![3]);
    assert_eq!(u.entries[3].0, vec![5]);
    let mut c = ByteMap::new();
    c.set_entry(vec![5], vec![99]);
    assert!(m.merged_with(&c).is_none());
}
