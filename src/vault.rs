use vstd::prelude::*;
use crate::error::{CaliptraError, CaliptraResult};
use crate::material::{Material, Term};

verus! {

/// Number of slots in the key vault.
pub const KEY_SLOT_COUNT: usize = 32;

/// Handle of a key vault slot. It carries no key material.
#[derive(Clone, Copy, Debug, PartialEq, Eq, Structural)]
pub struct KeyId(pub u8);

/// Scratch slot used while deriving intermediate keys.
pub const KEY_ID_TMP: u8 = 3;
/// Slot of the runtime CDI.
pub const KEY_ID_RT_CDI: u8 = 4;
/// Slot of the runtime device-identity private key.
pub const KEY_ID_RT_PRIV_KEY: u8 = 5;

impl KeyId {
    pub open spec fn valid(self) -> bool {
        (self.0 as usize) < KEY_SLOT_COUNT
    }

    pub open spec fn index(self) -> int {
        self.0 as int
    }
}

/// The engine capabilities a slot may be used for.
#[derive(Clone, Copy, Debug, PartialEq, Eq, Structural)]
pub enum Capability {
    HmacKey,
    EccKeyGenSeed,
    EccPrivateKey,
}

/// Usage-capability mask attached to a slot when it is written.
#[derive(Clone, Copy, Debug, PartialEq, Eq, Structural)]
pub struct KeyUsage {
    pub hmac_key: bool,
    pub ecc_key_gen_seed: bool,
    pub ecc_private_key: bool,
}

impl Default for KeyUsage {
    /// The empty mask.
    fn default() -> (r: KeyUsage)
        ensures
            r.is_empty(),
    {
        KeyUsage::empty()
    }
}

impl KeyUsage {
    /// The empty mask.
    pub fn empty() -> (r: KeyUsage)
        ensures
            r.is_empty(),
    {
        KeyUsage { hmac_key: false, ecc_key_gen_seed: false, ecc_private_key: false }
    }

    pub fn set_hmac_key_en(self) -> (r: KeyUsage)
        ensures
            r == (KeyUsage { hmac_key: true, ..self }),
    {
        KeyUsage { hmac_key: true, ..self }
    }

    pub fn set_ecc_key_gen_seed_en(self) -> (r: KeyUsage)
        ensures
            r == (KeyUsage { ecc_key_gen_seed: true, ..self }),
    {
        KeyUsage { ecc_key_gen_seed: true, ..self }
    }

    pub fn set_ecc_private_key_en(self) -> (r: KeyUsage)
        ensures
            r == (KeyUsage { ecc_private_key: true, ..self }),
    {
        KeyUsage { ecc_private_key: true, ..self }
    }

    pub open spec fn is_empty(self) -> bool {
        !self.hmac_key && !self.ecc_key_gen_seed && !self.ecc_private_key
    }

    pub open spec fn allows(self, c: Capability) -> bool {
        match c {
            Capability::HmacKey => self.hmac_key,
            Capability::EccKeyGenSeed => self.ecc_key_gen_seed,
            Capability::EccPrivateKey => self.ecc_private_key,
        }
    }

    /// Whether the mask grants the capability.
    pub fn has(self, c: Capability) -> (r: bool)
        ensures
            r == self.allows(c),
    {
        match c {
            Capability::HmacKey => self.hmac_key,
            Capability::EccKeyGenSeed => self.ecc_key_gen_seed,
            Capability::EccPrivateKey => self.ecc_private_key,
        }
    }

    /// The mask of a seed for further derivation or key generation.
    pub fn derivation_seed() -> (r: KeyUsage)
        ensures
            r == seed_usage(),
    {
        KeyUsage::empty().set_hmac_key_en().set_ecc_key_gen_seed_en()
    }

    /// The mask of an ECC private key.
    pub fn private_key() -> (r: KeyUsage)
        ensures
            r == priv_usage(),
    {
        KeyUsage::empty().set_ecc_private_key_en()
    }
}

pub open spec fn seed_usage() -> KeyUsage {
    KeyUsage { hmac_key: true, ecc_key_gen_seed: true, ecc_private_key: false }
}

pub open spec fn priv_usage() -> KeyUsage {
    KeyUsage { hmac_key: false, ecc_key_gen_seed: false, ecc_private_key: true }
}

/// Model of a slot: its content, if any, and its usage mask.
pub struct SlotModel {
    pub content: Option<Term>,
    pub usage: KeyUsage,
}

pub open spec fn erased_slot() -> SlotModel {
    SlotModel { content: None, usage: KeyUsage { hmac_key: false, ecc_key_gen_seed: false, ecc_private_key: false } }
}

struct Slot {
    material: Option<Material>,
    usage: KeyUsage,
}

impl View for Slot {
    type V = SlotModel;

    closed spec fn view(&self) -> SlotModel {
        SlotModel {
            content: match self.material {
                Some(m) => Some(m@),
                None => None,
            },
            usage: self.usage,
        }
    }
}

fn erased() -> (r: Slot)
    ensures
        r@ == erased_slot(),
{
    Slot { material: None, usage: KeyUsage::empty() }
}

/// The key vault: a fixed set of slots whose content is used by engines
/// through handles and never handed out.
pub struct KeyVault {
    slots: Vec<Slot>,
}

impl View for KeyVault {
    type V = Seq<SlotModel>;

    closed spec fn view(&self) -> Seq<SlotModel> {
        self.slots@.map_values(|s: Slot| s@)
    }
}

pub open spec fn all_erased(v: Seq<SlotModel>) -> bool {
    &&& v.len() == KEY_SLOT_COUNT
    &&& forall|i: int| 0 <= i < v.len() ==> v[i] == erased_slot()
}

/// What an engine reads when it uses slot `id` for capability `c`.
pub open spec fn read_result(v: Seq<SlotModel>, id: KeyId, c: Capability) -> Result<Term, CaliptraError> {
    if !id.valid() {
        Err(CaliptraError::HardwareFault)
    } else if !v[id.index()].usage.allows(c) || v[id.index()].content.is_none() {
        Err(CaliptraError::CapabilityConflict)
    } else {
        Ok(v[id.index()].content.unwrap())
    }
}

impl KeyVault {
    pub open spec fn wf(&self) -> bool {
        self@.len() == KEY_SLOT_COUNT
    }

    /// A vault with every slot erased.
    pub fn new() -> (r: KeyVault)
        ensures
            r.wf(),
            all_erased(r@),
    {
        let mut slots: Vec<Slot> = Vec::new();
        let mut i: usize = 0;
        while i < KEY_SLOT_COUNT
            invariant
                i <= KEY_SLOT_COUNT,
                slots@.len() == i,
                forall|j: int| 0 <= j < i ==> slots@[j]@ == erased_slot(),
            decreases KEY_SLOT_COUNT - i,
        {
            slots.push(erased());
            i = i + 1;
        }
        KeyVault { slots }
    }

    /// Erases the slot: no content, empty mask.
    pub fn erase_key(&mut self, id: KeyId) -> (r: CaliptraResult<()>)
        requires
            old(self).wf(),
        ensures
            final(self).wf(),
            r is Ok <==> id.valid(),
            r is Ok ==> final(self)@ == old(self)@.update(id.index(), erased_slot()),
            r is Err ==> r == Err::<(), CaliptraError>(CaliptraError::HardwareFault)
                && final(self)@ == old(self)@,
    {
        if (id.0 as usize) >= self.slots.len() {
            return Err(CaliptraError::HardwareFault);
        }
        self.slots.set(id.0 as usize, erased());
        assert(self@ =~= old(self)@.update(id.index(), erased_slot()));
        Ok(())
    }

    /// Overwrites the slot's content and mask.
    pub fn write_key(&mut self, id: KeyId, m: Material, usage: KeyUsage) -> (r: CaliptraResult<()>)
        requires
            old(self).wf(),
        ensures
            final(self).wf(),
            r is Ok <==> id.valid(),
            r is Ok ==> final(self)@ == old(self)@.update(
                id.index(),
                SlotModel { content: Some(m@), usage },
            ),
            r is Err ==> r == Err::<(), CaliptraError>(CaliptraError::HardwareFault)
                && final(self)@ == old(self)@,
    {
        if (id.0 as usize) >= self.slots.len() {
            return Err(CaliptraError::HardwareFault);
        }
        let ghost gm = m@;
        self.slots.set(id.0 as usize, Slot { material: Some(m), usage });
        assert(self@ =~= old(self)@.update(id.index(), SlotModel { content: Some(gm), usage }));
        Ok(())
    }

    /// Hands the slot's content to an engine that needs capability `c`.
    pub(crate) fn read_for(&self, id: KeyId, c: Capability) -> (r: CaliptraResult<Material>)
        requires
            self.wf(),
        ensures
            match (r, read_result(self@, id, c)) {
                (Ok(m), Ok(t)) => m@ == t,
                (Err(e1), Err(e2)) => e1 == e2,
                _ => false,
            },
    {
        if (id.0 as usize) >= self.slots.len() {
            return Err(CaliptraError::HardwareFault);
        }
        let slot = &self.slots[id.0 as usize];
        assert(slot@ == self@[id.index()]);
        if !slot.usage.has(c) {
            return Err(CaliptraError::CapabilityConflict);
        }
        match &slot.material {
            Some(m) => Ok(m.duplicate()),
            None => Err(CaliptraError::CapabilityConflict),
        }
    }

    /// Erases every slot.
    pub fn zeroize(&mut self)
        requires
            old(self).wf(),
        ensures
            final(self).wf(),
            all_erased(final(self)@),
    {
        let mut i: usize = 0;
        while i < self.slots.len()
            invariant
                self.slots@.len() == KEY_SLOT_COUNT,
                i <= KEY_SLOT_COUNT,
                forall|j: int| 0 <= j < i ==> self.slots@[j]@ == erased_slot(),
            decreases KEY_SLOT_COUNT - i,
        {
            self.slots.set(i, erased());
            i = i + 1;
        }
    }

    /// Whether the slot is erased: no content and an empty mask.
    pub fn is_erased(&self, id: KeyId) -> (r: bool)
        requires
            self.wf(),
        ensures
            r == (id.valid() && self@[id.index()] == erased_slot()),
    {
        if (id.0 as usize) >= self.slots.len() {
            return false;
        }
        let slot = &self.slots[id.0 as usize];
        slot.material.is_none() && slot.usage == KeyUsage::empty()
    }

    /// The slot's usage mask.
    pub fn usage(&self, id: KeyId) -> (r: Option<KeyUsage>)
        requires
            self.wf(),
        ensures
            r == (if id.valid() { Some(self@[id.index()].usage) } else { None::<KeyUsage> }),
    {
        if (id.0 as usize) >= self.slots.len() {
            return None;
        }
        Some(self.slots[id.0 as usize].usage)
    }
}

} // verus!
