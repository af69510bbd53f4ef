use vstd::prelude::*;
use crate::error::{CaliptraError, CaliptraResult, KatEngine};
use crate::material::{Material, Term};
use crate::vault::{read_result, Capability, KeyId, KeyUsage, KeyVault, SlotModel};

verus! {

/// Size in bytes of an HMAC-384 key given as explicit bytes.
pub const HMAC384_KEY_SIZE: usize = 48;

/// Bookkeeping of a cryptographic engine's working registers.
#[derive(Clone, Copy, Debug, PartialEq, Eq, Structural)]
pub struct Engine {
    /// How many times the engine's registers were zeroized.
    pub zeroize_count: u64,
}

impl Engine {
    pub fn new() -> (r: Engine)
        ensures
            r.zeroize_count == 0,
    {
        Engine { zeroize_count: 0 }
    }

    /// Overwrites the engine's working registers.
    pub fn zeroize(&mut self)
        ensures
            final(self).zeroize_count == bump(old(self).zeroize_count),
    {
        self.zeroize_count = self.zeroize_count.saturating_add(1);
    }
}

/// A counter after one more event, held at its largest value.
pub open spec fn bump(n: u64) -> u64 {
    if n < u64::MAX { (n + 1) as u64 } else { n }
}

/// Status shown on the outward-facing mailbox.
#[derive(Clone, Copy, Debug, PartialEq, Eq, Structural)]
pub enum MboxStatus {
    Busy,
    CmdComplete,
}

/// The record kept in the device's persistent data region.
pub struct PersistentData {
    pub attestation_disabled: bool,
    /// Public half of the runtime device-identity key.
    pub rt_dice_pub_key: Option<Material>,
}

/// Memory designated as sensitive.
pub struct MemoryRegions {
    pub sensitive: Vec<u8>,
}

impl MemoryRegions {
    /// Overwrites every sensitive byte with zero.
    pub fn zeroize(&mut self)
        ensures
            final(self).sensitive@ == Seq::new(old(self).sensitive@.len(), |i: int| 0u8),
    {
        let n = self.sensitive.len();
        let mut i: usize = 0;
        while i < n
            invariant
                i <= n,
                self.sensitive@.len() == n,
                n == old(self).sensitive@.len(),
                forall|j: int| 0 <= j < i ==> self.sensitive@[j] == 0u8,
            decreases n - i,
        {
            self.sensitive.set(i, 0u8);
            i = i + 1;
        }
        assert(self.sensitive@ =~= Seq::new(n as nat, |i: int| 0u8));
    }
}

/// The runtime context: every engine and the key vault, reachable only
/// through a unique reference to it.
pub struct Drivers {
    pub key_vault: KeyVault,
    pub sha256: Engine,
    pub sha384: Engine,
    pub sha384_acc: Engine,
    pub ecc384: Engine,
    pub hmac384: Engine,
    /// Whether the SHA-384 accelerator is locked against use.
    pub sha384_acc_locked: bool,
    pub persistent_data: PersistentData,
    pub regions: MemoryRegions,
    pub mbox_status: MboxStatus,
    /// Whether a platform reset has been requested.
    pub reset_requested: bool,
    /// Outcome of the last on-demand self test, kept for the next boot.
    pub self_test_outcome: Option<CaliptraResult<()>>,
    /// Engines that the last on-demand self test exercised, in order.
    pub self_test_run: Vec<KatEngine>,
}

/// Key of a derivation: a vault slot or explicit key bytes.
pub enum KdfKey {
    Slot(KeyId),
    Bytes(Vec<u8>),
}

/// The outcome of writing `out` into slot `dest` of vault `v`.
pub open spec fn vault_write(
    v: Seq<SlotModel>,
    out: Result<Term, CaliptraError>,
    dest: KeyId,
    usage: KeyUsage,
) -> Result<Seq<SlotModel>, CaliptraError> {
    match out {
        Err(e) => Err(e),
        Ok(t) => if dest.valid() {
            Ok(v.update(dest.index(), SlotModel { content: Some(t), usage }))
        } else {
            Err(CaliptraError::HardwareFault)
        },
    }
}

/// The call returned `r` and left vault `nv` where writing `out` into
/// `dest` of `v` gives what `vault_write` says.
pub open spec fn wrote(
    v: Seq<SlotModel>,
    out: Result<Term, CaliptraError>,
    dest: KeyId,
    usage: KeyUsage,
    r: CaliptraResult<()>,
    nv: Seq<SlotModel>,
) -> bool {
    match vault_write(v, out, dest, usage) {
        Ok(w) => r is Ok && nv == w,
        Err(e) => r == Err::<(), CaliptraError>(e) && nv == v,
    }
}

/// The key a derivation uses.
pub open spec fn kdf_key(v: Seq<SlotModel>, key: KdfKey) -> Result<Term, CaliptraError> {
    match key {
        KdfKey::Slot(id) => read_result(v, id, Capability::HmacKey),
        KdfKey::Bytes(b) => if b@.len() == HMAC384_KEY_SIZE {
            Ok(Term::Bytes(b@))
        } else {
            Err(CaliptraError::InvalidKeySize)
        },
    }
}

/// What a derivation from `key` with `label` produces.
pub open spec fn kdf_out(v: Seq<SlotModel>, key: KdfKey, label: Seq<u8>) -> Result<Term, CaliptraError> {
    match kdf_key(v, key) {
        Ok(k) => Ok(Term::Kdf(Box::new(k), label)),
        Err(e) => Err(e),
    }
}

/// What hashing slot `input` (an HMAC over the empty message) produces.
pub open spec fn hash_out(v: Seq<SlotModel>, input: KeyId) -> Result<Term, CaliptraError> {
    match read_result(v, input, Capability::HmacKey) {
        Ok(k) => Ok(Term::Mac(Box::new(k), Seq::empty())),
        Err(e) => Err(e),
    }
}

/// The private key generated from the seed in slot `seed`.
pub open spec fn keygen_out(v: Seq<SlotModel>, seed: KeyId) -> Result<Term, CaliptraError> {
    match read_result(v, seed, Capability::EccKeyGenSeed) {
        Ok(s) => Ok(Term::EccPriv(Box::new(s))),
        Err(e) => Err(e),
    }
}

/// The public key generated from a seed.
pub open spec fn pub_of(seed: Term) -> Term {
    Term::EccPub(Box::new(seed))
}

impl Drivers {
    pub open spec fn wf(&self) -> bool {
        self.key_vault.wf()
    }

    /// Everything but the key vault is as in `other`.
    pub open spec fn same_but_vault(&self, other: &Drivers) -> bool {
        &&& self.sha256 == other.sha256
        &&& self.sha384 == other.sha384
        &&& self.sha384_acc == other.sha384_acc
        &&& self.ecc384 == other.ecc384
        &&& self.hmac384 == other.hmac384
        &&& self.sha384_acc_locked == other.sha384_acc_locked
        &&& self.persistent_data == other.persistent_data
        &&& self.regions == other.regions
        &&& self.mbox_status == other.mbox_status
        &&& self.reset_requested == other.reset_requested
        &&& self.self_test_outcome == other.self_test_outcome
        &&& self.self_test_run@ == other.self_test_run@
    }

    /// A freshly reset device: vault erased, engines idle, `sensitive_len`
    /// bytes of sensitive memory.
    pub fn new(sensitive_len: usize) -> (r: Drivers)
        ensures
            r.wf(),
            crate::vault::all_erased(r.key_vault@),
            !r.persistent_data.attestation_disabled,
            r.persistent_data.rt_dice_pub_key is None,
            r.regions.sensitive@.len() == sensitive_len,
            r.mbox_status == MboxStatus::Busy,
            !r.reset_requested,
            r.self_test_outcome is None,
            r.self_test_run@.len() == 0,
            !r.sha384_acc_locked,
            r.sha256.zeroize_count == 0 && r.sha384.zeroize_count == 0
                && r.sha384_acc.zeroize_count == 0 && r.ecc384.zeroize_count == 0
                && r.hmac384.zeroize_count == 0,
    {
        Drivers {
            key_vault: KeyVault::new(),
            sha256: Engine::new(),
            sha384: Engine::new(),
            sha384_acc: Engine::new(),
            ecc384: Engine::new(),
            hmac384: Engine::new(),
            sha384_acc_locked: false,
            persistent_data: PersistentData { attestation_disabled: false, rt_dice_pub_key: None },
            regions: MemoryRegions { sensitive: crate::material::zero_bytes(sensitive_len) },
            mbox_status: MboxStatus::Busy,
            reset_requested: false,
            self_test_outcome: None,
            self_test_run: Vec::new(),
        }
    }

    /// HMAC-based key derivation from `key` with `label` into slot `dest`,
    /// written with mask `usage`. The derived value is never returned.
    pub fn hmac384_kdf(&mut self, key: &KdfKey, label: &[u8], dest: KeyId, usage: KeyUsage) -> (r:
        CaliptraResult<()>)
        requires
            old(self).wf(),
        ensures
            final(self).wf(),
            final(self).same_but_vault(old(self)),
            wrote(old(self).key_vault@, kdf_out(old(self).key_vault@, *key, label@), dest, usage, r, final(self).key_vault@),
    {
        let k = match key {
            KdfKey::Slot(id) => self.key_vault.read_for(*id, Capability::HmacKey),
            KdfKey::Bytes(b) => if b.len() == HMAC384_KEY_SIZE {
                Ok(Material::bytes(crate::material::copy_bytes(b)))
            } else {
                Err(CaliptraError::InvalidKeySize)
            },
        };
        let k = match k {
            Ok(k) => k,
            Err(e) => return Err(e),
        };
        assert(kdf_key(old(self).key_vault@, *key) == Ok::<Term, CaliptraError>(k@));
        let ghost kt = k@;
        let out = Material::kdf(k, slice_to_vec(label));
        assert(out@ == Term::Kdf(Box::new(kt), label@));
        self.key_vault.write_key(dest, out, usage)
    }

    /// HMAC-384 over the empty message keyed by slot `input`; the tag goes
    /// into slot `output` with mask `usage`.
    pub fn hmac384_slot_hash(&mut self, input: KeyId, output: KeyId, usage: KeyUsage) -> (r:
        CaliptraResult<()>)
        requires
            old(self).wf(),
        ensures
            final(self).wf(),
            final(self).same_but_vault(old(self)),
            wrote(old(self).key_vault@, hash_out(old(self).key_vault@, input), output, usage, r, final(self).key_vault@),
    {
        let k = match self.key_vault.read_for(input, Capability::HmacKey) {
            Ok(k) => k,
            Err(e) => return Err(e),
        };
        let ghost kt = k@;
        let out = Material::mac(k, Vec::new());
        assert(out@ == Term::Mac(Box::new(kt), Seq::<u8>::empty()));
        self.key_vault.write_key(output, out, usage)
    }

    /// ECC-384 key pair generation from the seed in slot `seed`. The private
    /// key goes into slot `dest` with mask `usage`; the public key is returned.
    pub fn ecc384_key_pair(&mut self, seed: KeyId, dest: KeyId, usage: KeyUsage) -> (r:
        CaliptraResult<Material>)
        requires
            old(self).wf(),
        ensures
            final(self).wf(),
            final(self).same_but_vault(old(self)),
            wrote(
                old(self).key_vault@,
                keygen_out(old(self).key_vault@, seed),
                dest,
                usage,
                match r { Ok(_) => Ok(()), Err(e) => Err(e) },
                final(self).key_vault@,
            ),
            r is Ok ==> r.unwrap()@ == pub_of(read_result(old(self).key_vault@, seed, Capability::EccKeyGenSeed).unwrap()),
    {
        let s = match self.key_vault.read_for(seed, Capability::EccKeyGenSeed) {
            Ok(s) => s,
            Err(e) => return Err(e),
        };
        let pub_key = Material::ecc_pub(s.duplicate());
        match self.key_vault.write_key(dest, Material::ecc_priv(s), usage) {
            Ok(()) => Ok(pub_key),
            Err(e) => Err(e),
        }
    }
}

/// SHA-384 digest of the given material.
pub fn sha384_digest(m: &Material) -> (r: Material)
    ensures
        r@ == Term::Sha384(Box::new(m@)),
{
    Material::sha384(m.duplicate())
}

/// SHA-256 digest of the given material.
pub fn sha256_digest(m: &Material) -> (r: Material)
    ensures
        r@ == Term::Sha256(Box::new(m@)),
{
    Material::sha256(m.duplicate())
}

/// HMAC-384 tag of `data` under an explicit key.
pub fn hmac384_tag(key: &Material, data: &[u8]) -> (r: Material)
    ensures
        r@ == Term::Mac(Box::new(key@), data@),
{
    Material::mac(key.duplicate(), slice_to_vec(data))
}

/// The bytes of a slice as a vector.
pub fn slice_to_vec(s: &[u8]) -> (r: Vec<u8>)
    ensures
        r@ == s@,
{
    let mut r: Vec<u8> = Vec::new();
    let mut i: usize = 0;
    while i < s.len()
        invariant
            i <= s.len(),
            r@ == s@.subrange(0, i as int),
        decreases s.len() - i,
    {
        r.push(s[i]);
        i = i + 1;
        assert(r@ =~= s@.subrange(0, i as int));
    }
    assert(r@ =~= s@);
    r
}

} // verus!
