use vstd::prelude::*;
use crate::drivers::{kdf_out, hash_out, pub_of, wrote, bump, Drivers, KdfKey, sha384_digest, hmac384_tag};
use crate::error::{CaliptraError, CaliptraResult};
use crate::material::{Material, Term};
use crate::vault::{
    erased_slot, priv_usage, seed_usage, KeyId, KeyUsage, SlotModel, KEY_ID_TMP, KEY_SLOT_COUNT,
};

verus! {

/// An ECC-384 key pair: the slot that holds the private key, and the
/// public key.
pub struct Ecc384KeyPair {
    pub priv_key: KeyId,
    pub pub_key: Material,
}

pub open spec fn tmp() -> KeyId {
    KeyId(KEY_ID_TMP)
}

/// The seed derived from slot `input` with `label`.
pub open spec fn derived_seed(v: Seq<SlotModel>, input: KeyId, label: Seq<u8>) -> Result<Term, CaliptraError> {
    kdf_out(v, KdfKey::Slot(input), label)
}

/// The vault after a successful key generation from `seed` into `priv_key`.
pub open spec fn key_gen_vault(v: Seq<SlotModel>, seed: Term, priv_key: KeyId) -> Seq<SlotModel> {
    let v2 = v.update(tmp().index(), SlotModel { content: Some(seed), usage: seed_usage() })
        .update(priv_key.index(), SlotModel { content: Some(Term::EccPriv(Box::new(seed))), usage: priv_usage() });
    if priv_key == tmp() { v2 } else { v2.update(tmp().index(), erased_slot()) }
}

/// The tag of `data` under the key pair generated from `seed`: HMAC-384
/// keyed by the SHA-384 digest of the public key.
pub open spec fn ecc_hmac_tag(seed: Term, data: Seq<u8>) -> Term {
    Term::Mac(Box::new(Term::Sha384(Box::new(pub_of(seed)))), data)
}

/// What `ecc384_hmac` returns on vault `v`.
pub open spec fn ecc_hmac_result(v: Seq<SlotModel>, input: KeyId, label: Seq<u8>, data: Seq<u8>) -> Result<Term, CaliptraError> {
    match derived_seed(v, input, label) {
        Ok(seed) => Ok(ecc_hmac_tag(seed, data)),
        Err(e) => Err(e),
    }
}

/// `ecc384_hmac` is a function of the input slot's content and mask, the
/// label and the data: two vaults that agree on the input slot give the
/// same tag, or the same error.
pub proof fn lemma_ecc_hmac_deterministic(
    v1: Seq<SlotModel>,
    v2: Seq<SlotModel>,
    input: KeyId,
    label: Seq<u8>,
    data: Seq<u8>,
)
    requires
        v1.len() == KEY_SLOT_COUNT,
        v2.len() == KEY_SLOT_COUNT,
        input.valid() ==> v1[input.index()] == v2[input.index()],
    ensures
        ecc_hmac_result(v1, input, label, data) == ecc_hmac_result(v2, input, label, data),
{
}

/// Distinct data give distinct tags under the same slot and label.
pub proof fn lemma_ecc_hmac_data_separates(
    v: Seq<SlotModel>,
    input: KeyId,
    label: Seq<u8>,
    data1: Seq<u8>,
    data2: Seq<u8>,
)
    requires
        data1 != data2,
        ecc_hmac_result(v, input, label, data1) is Ok,
    ensures
        ecc_hmac_result(v, input, label, data1) != ecc_hmac_result(v, input, label, data2),
{
}

/// Distinct labels give distinct intermediate key pairs from the same slot.
pub proof fn lemma_label_diversifies_key_pair(
    v: Seq<SlotModel>,
    input: KeyId,
    label1: Seq<u8>,
    label2: Seq<u8>,
)
    requires
        label1 != label2,
        derived_seed(v, input, label1) is Ok,
    ensures
        derived_seed(v, input, label2) is Ok,
        pub_of(derived_seed(v, input, label1).unwrap()) != pub_of(derived_seed(v, input, label2).unwrap()),
        Term::EccPriv(Box::new(derived_seed(v, input, label1).unwrap()))
            != Term::EccPriv(Box::new(derived_seed(v, input, label2).unwrap())),
{
}

/// Overwrites a local copy of secret-equivalent material.
fn wipe(m: &mut Material)
    ensures
        final(m)@ == Term::Bytes(Seq::empty()),
{
    *m = Material::bytes(Vec::new());
}

/// Derives a seed from slot `input` and `label` into the scratch slot, then
/// generates an ECC key pair from it with the private key in `priv_key`.
/// The scratch slot is erased afterwards unless it is `priv_key`; where
/// the derivation fails it is erased too.
pub fn ecc384_key_gen(drivers: &mut Drivers, input: KeyId, label: &[u8], priv_key: KeyId) -> (r:
    CaliptraResult<Ecc384KeyPair>)
    requires
        old(drivers).wf(),
    ensures
        final(drivers).wf(),
        final(drivers).same_but_vault(old(drivers)),
        match derived_seed(old(drivers).key_vault@, input, label@) {
            Err(e) => r == Err::<Ecc384KeyPair, CaliptraError>(e)
                && final(drivers).key_vault@ == old(drivers).key_vault@.update(tmp().index(), erased_slot()),
            Ok(seed) => if priv_key.valid() {
                &&& r is Ok
                &&& r.unwrap().priv_key == priv_key
                &&& r.unwrap().pub_key@ == pub_of(seed)
                &&& final(drivers).key_vault@ == key_gen_vault(old(drivers).key_vault@, seed, priv_key)
            } else {
                &&& r == Err::<Ecc384KeyPair, CaliptraError>(CaliptraError::HardwareFault)
                &&& final(drivers).key_vault@ == old(drivers).key_vault@.update(tmp().index(), erased_slot())
            },
        },
{
    let ghost v0 = drivers.key_vault@;
    let tmp_id = KeyId(KEY_ID_TMP);
    let r1 = drivers.hmac384_kdf(&KdfKey::Slot(input), label, tmp_id, KeyUsage::derivation_seed());
    if let Err(e) = r1 {
        let _ = drivers.key_vault.erase_key(tmp_id);
        proof {
            assert(drivers.key_vault@ =~= v0.update(tmp().index(), erased_slot()));
        }
        return Err(e);
    }
    let ghost v1 = drivers.key_vault@;
    let pub_key = drivers.ecc384_key_pair(tmp_id, priv_key, KeyUsage::private_key());
    if priv_key != tmp_id {
        let e = drivers.key_vault.erase_key(tmp_id);
        if let Err(e) = e {
            return Err(e);
        }
    }
    proof {
        let seed = derived_seed(v0, input, label@).unwrap();
        assert(v1 == v0.update(tmp().index(), SlotModel { content: Some(seed), usage: seed_usage() }));
        assert(v1[tmp().index()].content == Some(seed));
    }
    match pub_key {
        Ok(pk) => Ok(Ecc384KeyPair { priv_key, pub_key: pk }),
        Err(e) => {
            proof {
                assert(drivers.key_vault@ =~= v0.update(tmp().index(), erased_slot()));
            }
            Err(e)
        },
    }
}

/// Stateless operations that compute digests and tags keyed by vault slots.
/// It has no values outside this module: it only groups the operations.
pub struct Hmac(());

impl Hmac {
    /// "Hashes" slot `input` by an HMAC over the empty message keyed by it;
    /// the tag goes into slot `output` as a derivation seed. The hardware
    /// cannot hash vault content directly.
    pub fn hmac384_hash(drivers: &mut Drivers, input: KeyId, output: KeyId) -> (r: CaliptraResult<()>)
        requires
            old(drivers).wf(),
        ensures
            final(drivers).wf(),
            final(drivers).same_but_vault(old(drivers)),
            wrote(old(drivers).key_vault@, hash_out(old(drivers).key_vault@, input), output, seed_usage(), r, final(drivers).key_vault@),
    {
        drivers.hmac384_slot_hash(input, output, KeyUsage::derivation_seed())
    }

    /// A MAC of `data` keyed by slot `input`: the slot, diversified by
    /// `label`, seeds an ECC key pair; the SHA-384 digest of its public key
    /// keys HMAC-384 over `data`. The public key is secret-equivalent: the
    /// hash engine, the local copies and the scratch slot are cleared on
    /// every path.
    pub fn ecc384_hmac(drivers: &mut Drivers, input: KeyId, label: &[u8], data: &[u8]) -> (r:
        CaliptraResult<Material>)
        requires
            old(drivers).wf(),
        ensures
            final(drivers).wf(),
            match (r, ecc_hmac_result(old(drivers).key_vault@, input, label@, data@)) {
                (Ok(m), Ok(t)) => m@ == t,
                (Err(e1), Err(e2)) => e1 == e2,
                _ => false,
            },
            final(drivers).key_vault@ == old(drivers).key_vault@.update(tmp().index(), erased_slot()),
            final(drivers).sha384.zeroize_count == bump(old(drivers).sha384.zeroize_count),
            (Drivers { key_vault: final(drivers).key_vault, sha384: old(drivers).sha384, ..*final(drivers) })
                .same_but_vault(old(drivers)),
    {
        let ghost v0 = drivers.key_vault@;
        let tmp_id = KeyId(KEY_ID_TMP);
        let result = match ecc384_key_gen(drivers, input, label, tmp_id) {
            Err(e) => Err(e),
            Ok(keypair) => {
                let mut pub_key = keypair.pub_key;
                let mut digest = sha384_digest(&pub_key);
                let tag = hmac384_tag(&digest, data);
                wipe(&mut digest);
                wipe(&mut pub_key);
                Ok(tag)
            },
        };
        drivers.sha384.zeroize();
        let erased = drivers.key_vault.erase_key(tmp_id);
        proof {
            assert(drivers.key_vault@ =~= v0.update(tmp().index(), erased_slot()));
        }
        match (result, erased) {
            (Err(e), _) => Err(e),
            (Ok(_), Err(e)) => Err(e),
            (Ok(tag), Ok(())) => Ok(tag),
        }
    }
}

} // verus!
