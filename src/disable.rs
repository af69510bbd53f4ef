use vstd::prelude::*;
use crate::drivers::{keygen_out, pub_of, wrote, Drivers, KdfKey, HMAC384_KEY_SIZE};
use crate::error::{CaliptraError, CaliptraResult};
use crate::mailbox::MailboxResp;
use crate::material::{zero_bytes, Term};
use crate::vault::{
    priv_usage, read_result, seed_usage, Capability, KeyId, KeyUsage, SlotModel, KEY_ID_RT_CDI, KEY_ID_RT_PRIV_KEY,
    KEY_SLOT_COUNT,
};

verus! {

/// Label of the derivation that replaces the runtime CDI.
pub open spec fn zero_rt_cdi_label() -> Seq<u8> {
    seq![0x7au8, 0x65u8, 0x72u8, 0x6fu8, 0x5fu8, 0x72u8, 0x74u8, 0x5fu8, 0x63u8, 0x64u8, 0x69u8]
}

/// The CDI after attestation is disabled: a derivation from an all-zero key,
/// which anybody can compute.
pub open spec fn zero_cdi() -> Term {
    Term::Kdf(Box::new(Term::Bytes(Seq::new(HMAC384_KEY_SIZE as nat, |i: int| 0u8))), zero_rt_cdi_label())
}

pub open spec fn cdi_slot() -> KeyId {
    KeyId(KEY_ID_RT_CDI)
}

pub open spec fn priv_slot() -> KeyId {
    KeyId(KEY_ID_RT_PRIV_KEY)
}

/// The device-identity public key recorded in persistent data.
pub open spec fn dice_pub(d: &Drivers) -> Option<Term> {
    match d.persistent_data.rt_dice_pub_key {
        Some(m) => Some(m@),
        None => None,
    }
}

/// `post` is the state that disabling attestation leaves behind from `pre`.
pub open spec fn disable_post(pre: &Drivers, post: &Drivers) -> bool {
    &&& post.wf()
    &&& post.key_vault@ == pre.key_vault@
        .update(cdi_slot().index(), SlotModel { content: Some(zero_cdi()), usage: seed_usage() })
        .update(priv_slot().index(), SlotModel { content: Some(Term::EccPriv(Box::new(zero_cdi()))), usage: priv_usage() })
    &&& post.persistent_data.attestation_disabled
    &&& dice_pub(post) == Some(pub_of(zero_cdi()))
    &&& (Drivers { key_vault: post.key_vault, persistent_data: pre.persistent_data, ..*post }).same_but_vault(pre)
}

/// The irreversible transition that disables attestation.
pub struct DisableAttestationCmd;

impl DisableAttestationCmd {
    /// Erases the runtime CDI and identity key, replaces the CDI with a
    /// derivation from zeros, generates a new identity key from it and marks
    /// attestation disabled.
    pub fn execute(drivers: &mut Drivers) -> (r: CaliptraResult<MailboxResp>)
        requires
            old(drivers).wf(),
        ensures
            r == Ok::<MailboxResp, CaliptraError>(MailboxResp::Empty),
            disable_post(old(drivers), final(drivers)),
    {
        let ghost v0 = drivers.key_vault@;
        let cdi = KeyId(KEY_ID_RT_CDI);
        let priv_key = KeyId(KEY_ID_RT_PRIV_KEY);
        let r = drivers.key_vault.erase_key(cdi);
        assert(r is Ok);
        let r = drivers.key_vault.erase_key(priv_key);
        assert(r is Ok);
        Self::zero_rt_cdi(drivers);
        let r = Self::generate_dice_key(drivers);
        assert(r is Ok);
        drivers.persistent_data.attestation_disabled = true;
        proof {
            let seeded = SlotModel { content: Some(zero_cdi()), usage: seed_usage() };
            let keyed = SlotModel { content: Some(Term::EccPriv(Box::new(zero_cdi()))), usage: priv_usage() };
            assert(drivers.key_vault@ =~= v0.update(cdi_slot().index(), seeded).update(priv_slot().index(), keyed));
        }
        Ok(MailboxResp::Empty)
    }

    /// Sets the CDI slot to a derivation from an all-zero key.
    fn zero_rt_cdi(drivers: &mut Drivers)
        requires
            old(drivers).wf(),
        ensures
            final(drivers).wf(),
            final(drivers).same_but_vault(old(drivers)),
            final(drivers).key_vault@ == old(drivers).key_vault@.update(
                cdi_slot().index(),
                SlotModel { content: Some(zero_cdi()), usage: seed_usage() },
            ),
    {
        let label: [u8; 11] = [0x7a, 0x65, 0x72, 0x6f, 0x5f, 0x72, 0x74, 0x5f, 0x63, 0x64, 0x69];
        assert(label@ =~= zero_rt_cdi_label());
        let key = KdfKey::Bytes(zero_bytes(HMAC384_KEY_SIZE));
        let r = drivers.hmac384_kdf(&key, label.as_slice(), KeyId(KEY_ID_RT_CDI), KeyUsage::derivation_seed());
        assert(r is Ok);
    }

    /// Generates the identity key pair from whatever the CDI slot holds,
    /// with the private key in the identity slot, and records its public
    /// half. After `zero_rt_cdi` the CDI no longer matches the certified
    /// one, so neither does the key. A failure is returned and the recorded
    /// key is kept.
    fn generate_dice_key(drivers: &mut Drivers) -> (r: CaliptraResult<()>)
        requires
            old(drivers).wf(),
        ensures
            final(drivers).wf(),
            (Drivers { key_vault: final(drivers).key_vault, persistent_data: old(drivers).persistent_data, ..*final(drivers) })
                .same_but_vault(old(drivers)),
            final(drivers).persistent_data.attestation_disabled == old(drivers).persistent_data.attestation_disabled,
            wrote(
                old(drivers).key_vault@,
                keygen_out(old(drivers).key_vault@, cdi_slot()),
                priv_slot(),
                priv_usage(),
                r,
                final(drivers).key_vault@,
            ),
            match read_result(old(drivers).key_vault@, cdi_slot(), Capability::EccKeyGenSeed) {
                Ok(c) => r is Ok && dice_pub(final(drivers)) == Some(pub_of(c)),
                Err(e) => r == Err::<(), CaliptraError>(e)
                    && final(drivers).persistent_data == old(drivers).persistent_data,
            },
    {
        let r = drivers.ecc384_key_pair(KeyId(KEY_ID_RT_CDI), KeyId(KEY_ID_RT_PRIV_KEY), KeyUsage::private_key());
        match r {
            Ok(pub_key) => {
                drivers.persistent_data.rt_dice_pub_key = Some(pub_key);
                Ok(())
            },
            Err(e) => Err(e),
        }
    }
}

/// Disabling attestation twice in a row ends in the same identity key and
/// the same vault as disabling it once.
pub proof fn lemma_disable_converges(d0: &Drivers, d1: &Drivers, d2: &Drivers)
    requires
        d0.wf(),
        disable_post(d0, d1),
        disable_post(d1, d2),
    ensures
        dice_pub(d2) == dice_pub(d1),
        d2.key_vault@ == d1.key_vault@,
        d2.persistent_data.attestation_disabled,
{
    let v1 = d1.key_vault@;
    assert(d2.key_vault@ =~= v1);
}

/// Where the identity key before the transition came from a CDI other than
/// the zero-derived one, the identity key after it differs.
pub proof fn lemma_disable_decorrelates(pre: &Drivers, post: &Drivers, old_cdi: Term)
    requires
        pre.wf(),
        dice_pub(pre) == Some(pub_of(old_cdi)),
        old_cdi != zero_cdi(),
        disable_post(pre, post),
    ensures
        dice_pub(post) != dice_pub(pre),
{
}

} // verus!
