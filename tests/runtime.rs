use caliptra_runtime::disable::DisableAttestationCmd;
use caliptra_runtime::drivers::{Drivers, KdfKey, MboxStatus};
use caliptra_runtime::error::{CaliptraError, KatEngine};
use caliptra_runtime::fips::{
    FipsModule, FipsSelfTestCmd, FipsShutdownCmd, FipsVersionCmd, KatTable,
};
use caliptra_runtime::hmac::{ecc384_key_gen, Hmac};
use caliptra_runtime::mailbox::MailboxResp;
use caliptra_runtime::material::Material;
use caliptra_runtime::vault::{KeyId, KeyUsage, KEY_ID_RT_CDI, KEY_ID_RT_PRIV_KEY, KEY_ID_TMP};

fn device_with_seed(slot: u8, byte: u8) -> Drivers {
    let mut d = Drivers::new(16);
    d.key_vault
        .write_key(KeyId(slot), Material::bytes(vec![byte; 48]), KeyUsage::derivation_seed())
        .unwrap();
    d
}

#[test]
fn ecc_hmac_is_deterministic() {
    let mut d = device_with_seed(10, 7);
    let t1 = Hmac::ecc384_hmac(&mut d, KeyId(10), b"label", b"data").unwrap();
    let t2 = Hmac::ecc384_hmac(&mut d, KeyId(10), b"label", b"data").unwrap();
    assert!(t1.same(&t2));
}

#[test]
fn ecc_hmac_tag_has_expected_shape() {
    let mut d = device_with_seed(10, 7);
    let tag = Hmac::ecc384_hmac(&mut d, KeyId(10), b"label", b"data").unwrap();
    let seed = Material::kdf(Material::bytes(vec![7; 48]), b"label".to_vec());
    let expected = Material::mac(
        Material::sha384(Material::ecc_pub(seed)),
        b"data".to_vec(),
    );
    assert!(tag.same(&expected));
}

#[test]
fn ecc_hmac_separates_data() {
    let mut d = device_with_seed(10, 7);
    let t1 = Hmac::ecc384_hmac(&mut d, KeyId(10), b"label", b"data one").unwrap();
    let t2 = Hmac::ecc384_hmac(&mut d, KeyId(10), b"label", b"data two").unwrap();
    assert!(!t1.same(&t2));
}

#[test]
fn labels_diversify_key_pairs() {
    let mut d = device_with_seed(10, 7);
    let k1 = ecc384_key_gen(&mut d, KeyId(10), b"first", KeyId(12)).unwrap();
    let k2 = ecc384_key_gen(&mut d, KeyId(10), b"second", KeyId(13)).unwrap();
    assert!(!k1.pub_key.same(&k2.pub_key));
    assert_eq!(k1.priv_key, KeyId(12));
    assert!(d.key_vault.is_erased(KeyId(KEY_ID_TMP)));
    assert_eq!(d.key_vault.usage(KeyId(12)), Some(KeyUsage::private_key()));
}

#[test]
fn ecc_hmac_erases_tmp_slot() {
    let mut d = device_with_seed(10, 7);
    Hmac::ecc384_hmac(&mut d, KeyId(10), b"label", b"data").unwrap();
    assert!(d.key_vault.is_erased(KeyId(KEY_ID_TMP)));
    assert_eq!(d.sha384.zeroize_count, 1);
}

#[test]
fn ecc_hmac_erases_tmp_slot_on_error() {
    let mut d = Drivers::new(16);
    d.key_vault
        .write_key(KeyId(KEY_ID_TMP), Material::bytes(vec![1; 48]), KeyUsage::derivation_seed())
        .unwrap();
    let r = Hmac::ecc384_hmac(&mut d, KeyId(10), b"label", b"data");
    assert_eq!(r.err(), Some(CaliptraError::CapabilityConflict));
    assert!(d.key_vault.is_erased(KeyId(KEY_ID_TMP)));
}

#[test]
fn ecc_hmac_unknown_slot_is_hardware_fault() {
    let mut d = Drivers::new(16);
    let r = Hmac::ecc384_hmac(&mut d, KeyId(40), b"label", b"data");
    assert_eq!(r.err(), Some(CaliptraError::HardwareFault));
}

#[test]
fn hmac_hash_is_pure_function_of_slot() {
    let mut d = device_with_seed(10, 9);
    // The content of slot 11 is observed only through a tag keyed by it.
    let hashed = Material::mac(Material::bytes(vec![9; 48]), Vec::new());
    let expected = Material::mac(
        Material::sha384(Material::ecc_pub(Material::kdf(hashed, b"l".to_vec()))),
        b"d".to_vec(),
    );
    Hmac::hmac384_hash(&mut d, KeyId(10), KeyId(11)).unwrap();
    let t1 = Hmac::ecc384_hmac(&mut d, KeyId(11), b"l", b"d").unwrap();
    d.key_vault.erase_key(KeyId(11)).unwrap();
    Hmac::hmac384_hash(&mut d, KeyId(10), KeyId(11)).unwrap();
    let t2 = Hmac::ecc384_hmac(&mut d, KeyId(11), b"l", b"d").unwrap();
    assert!(t1.same(&t2));
    assert!(t1.same(&expected));
    assert_eq!(d.key_vault.usage(KeyId(11)), Some(KeyUsage::derivation_seed()));
}

#[test]
fn hmac_hash_needs_hmac_capability() {
    let mut d = Drivers::new(16);
    d.key_vault
        .write_key(KeyId(10), Material::bytes(vec![9; 48]), KeyUsage::private_key())
        .unwrap();
    assert_eq!(
        Hmac::hmac384_hash(&mut d, KeyId(10), KeyId(11)).unwrap_err(),
        CaliptraError::CapabilityConflict
    );
    assert!(d.key_vault.is_erased(KeyId(11)));
}

#[test]
fn kdf_rejects_short_key() {
    let mut d = Drivers::new(16);
    let r = d.hmac384_kdf(&KdfKey::Bytes(vec![0; 47]), b"x", KeyId(10), KeyUsage::derivation_seed());
    assert_eq!(r.unwrap_err(), CaliptraError::InvalidKeySize);
    assert!(d.key_vault.is_erased(KeyId(10)));
}

#[test]
fn kdf_writes_derivation() {
    let mut d = Drivers::new(16);
    d.hmac384_kdf(&KdfKey::Bytes(vec![0; 48]), b"x", KeyId(10), KeyUsage::derivation_seed())
        .unwrap();
    let expected = Material::ecc_pub(Material::kdf(Material::bytes(vec![0; 48]), b"x".to_vec()));
    let pk = d.ecc384_key_pair(KeyId(10), KeyId(12), KeyUsage::private_key()).ok().unwrap();
    assert!(pk.same(&expected));
}

fn zero_identity() -> Material {
    let cdi = Material::kdf(Material::bytes(vec![0; 48]), b"zero_rt_cdi".to_vec());
    Material::ecc_pub(cdi)
}

#[test]
fn disable_attestation_twice_converges() {
    let mut d = device_with_seed(KEY_ID_RT_CDI, 5);
    assert!(matches!(DisableAttestationCmd::execute(&mut d), Ok(MailboxResp::Empty)));
    let first = d.persistent_data.rt_dice_pub_key.as_ref().unwrap().duplicate();
    DisableAttestationCmd::execute(&mut d).unwrap();
    let second = d.persistent_data.rt_dice_pub_key.as_ref().unwrap();
    assert!(first.same(second));
    assert!(second.same(&zero_identity()));
    assert!(d.persistent_data.attestation_disabled);
}

#[test]
fn disable_attestation_changes_identity() {
    let mut d = device_with_seed(KEY_ID_RT_CDI, 5);
    let pk = d
        .ecc384_key_pair(KeyId(KEY_ID_RT_CDI), KeyId(KEY_ID_RT_PRIV_KEY), KeyUsage::private_key())
        .unwrap();
    d.persistent_data.rt_dice_pub_key = Some(pk.duplicate());
    DisableAttestationCmd::execute(&mut d).unwrap();
    let after = d.persistent_data.rt_dice_pub_key.as_ref().unwrap();
    assert!(!after.same(&pk));
    assert_eq!(d.key_vault.usage(KeyId(KEY_ID_RT_PRIV_KEY)), Some(KeyUsage::private_key()));
}

#[test]
fn kats_pass_on_expected_table() {
    let mut log = Vec::new();
    assert_eq!(FipsModule::execute_kats(&KatTable::expected(), &mut log), Ok(()));
    assert_eq!(
        log,
        vec![
            KatEngine::Sha256,
            KatEngine::Sha384,
            KatEngine::Sha384Acc,
            KatEngine::Ecc384,
            KatEngine::Hmac384
        ]
    );
}

#[test]
fn kats_stop_at_corrupted_ecc_entry() {
    let mut table = KatTable::expected();
    table.ecc384 = Material::bytes(vec![1, 2, 3]);
    let mut log = Vec::new();
    assert_eq!(
        FipsModule::execute_kats(&table, &mut log),
        Err(CaliptraError::KatFailure(KatEngine::Ecc384))
    );
    assert_eq!(
        log,
        vec![KatEngine::Sha256, KatEngine::Sha384, KatEngine::Sha384Acc, KatEngine::Ecc384]
    );
}

#[test]
fn kats_stop_at_corrupted_first_entry() {
    let mut table = KatTable::expected();
    table.sha256 = Material::bytes(Vec::new());
    let mut log = Vec::new();
    assert_eq!(
        FipsModule::execute_kats(&table, &mut log),
        Err(CaliptraError::KatFailure(KatEngine::Sha256))
    );
    assert_eq!(log, vec![KatEngine::Sha256]);
}

#[test]
fn shutdown_clears_everything() {
    let mut d = device_with_seed(10, 7);
    d.regions.sensitive = vec![0xaa; 8];
    let r = FipsShutdownCmd::execute(&mut d);
    assert_eq!(r.unwrap_err(), CaliptraError::RuntimeShutdown);
    assert_eq!(d.sha256.zeroize_count, 1);
    assert_eq!(d.sha384.zeroize_count, 1);
    assert_eq!(d.sha384_acc.zeroize_count, 1);
    assert_eq!(d.ecc384.zeroize_count, 1);
    assert_eq!(d.hmac384.zeroize_count, 1);
    for i in 0..32u8 {
        assert!(d.key_vault.is_erased(KeyId(i)));
    }
    assert!(d.sha384_acc_locked);
    assert_eq!(d.regions.sensitive, vec![0; 8]);
    assert_eq!(d.mbox_status, MboxStatus::CmdComplete);
}

#[test]
fn fips_version_reports_identity() {
    let mut d = Drivers::new(0);
    match FipsVersionCmd::execute(&mut d).unwrap() {
        MailboxResp::FipsVersion(v) => {
            assert_eq!(v.mode, 0x46495053);
            assert_eq!(v.fips_rev, [1, 0, 0]);
            assert_eq!(&v.name, b"Caliptra RTM");
        }
        MailboxResp::Empty => panic!("wrong response"),
    }
}

#[test]
fn self_test_requests_reset() {
    let mut d = Drivers::new(0);
    FipsSelfTestCmd::execute(&mut d, &KatTable::expected());
    assert!(d.reset_requested);
    assert_eq!(d.self_test_outcome, Some(Ok(())));
    assert_eq!(d.self_test_run.len(), 5);
}

#[test]
fn self_test_records_failing_engine() {
    let mut d = Drivers::new(0);
    let mut table = KatTable::expected();
    table.ecc384 = Material::bytes(vec![9]);
    FipsSelfTestCmd::execute(&mut d, &table);
    assert!(d.reset_requested);
    assert_eq!(d.self_test_outcome, Some(Err(CaliptraError::KatFailure(KatEngine::Ecc384))));
    assert_eq!(
        d.self_test_run,
        vec![KatEngine::Sha256, KatEngine::Sha384, KatEngine::Sha384Acc, KatEngine::Ecc384]
    );
}

#[test]
fn key_gen_failure_erases_tmp_slot() {
    let mut d = Drivers::new(0);
    d.key_vault
        .write_key(KeyId(KEY_ID_TMP), Material::bytes(vec![1; 48]), KeyUsage::derivation_seed())
        .unwrap();
    let r = ecc384_key_gen(&mut d, KeyId(10), b"label", KeyId(12));
    assert_eq!(r.err(), Some(CaliptraError::CapabilityConflict));
    assert!(d.key_vault.is_erased(KeyId(KEY_ID_TMP)));
    assert!(d.key_vault.is_erased(KeyId(12)));
}

#[test]
fn image_offsets() {
    assert_eq!(FipsSelfTestCmd::image_copy_offsets(100, 20, 30, 150), Some((100, 120, 150)));
    assert_eq!(FipsSelfTestCmd::image_copy_offsets(100, 20, 31, 150), None);
    assert_eq!(FipsSelfTestCmd::image_copy_offsets(151, 0, 0, 150), None);
    assert_eq!(FipsSelfTestCmd::image_copy_offsets(usize::MAX - 5, 6, 0, usize::MAX), None);
    assert_eq!(
        FipsSelfTestCmd::image_copy_offsets(usize::MAX - 5, 2, 3, usize::MAX),
        Some((usize::MAX - 5, usize::MAX - 3, usize::MAX))
    );
}

#[test]
fn erase_unknown_slot_fails() {
    let mut d = Drivers::new(0);
    assert_eq!(d.key_vault.erase_key(KeyId(32)), Err(CaliptraError::HardwareFault));
    assert_eq!(d.key_vault.usage(KeyId(32)), None);
}

#[test]
fn default_usage_is_empty() {
    let u = KeyUsage::default();
    assert!(!u.has(caliptra_runtime::vault::Capability::HmacKey));
    assert_eq!(u, KeyUsage::empty());
    assert_eq!(u.set_hmac_key_en().set_ecc_key_gen_seed_en(), KeyUsage::derivation_seed());
}
