use vstd::prelude::*;
use crate::drivers::{bump, sha256_digest, sha384_digest, hmac384_tag, slice_to_vec, Drivers, MboxStatus, HMAC384_KEY_SIZE};
use crate::error::{CaliptraError, CaliptraResult, KatEngine};
use crate::mailbox::{FipsVersionResp, MailboxResp};
use crate::material::{zero_bytes, Material, Term};
use crate::vault::all_erased;

verus! {

/// The engines in the order in which the self test exercises them.
pub open spec fn kat_order() -> Seq<KatEngine> {
    seq![KatEngine::Sha256, KatEngine::Sha384, KatEngine::Sha384Acc, KatEngine::Ecc384, KatEngine::Hmac384]
}

/// The message that the hash and MAC tests process.
pub open spec fn kat_message() -> Seq<u8> {
    seq![0x61u8, 0x62u8, 0x63u8]
}

/// The key and seed of the ECC and MAC tests.
pub open spec fn kat_key() -> Term {
    Term::Bytes(Seq::new(HMAC384_KEY_SIZE as nat, |i: int| 0u8))
}

/// What a correct engine answers to its known-answer test.
pub open spec fn kat_answer(e: KatEngine) -> Term {
    match e {
        KatEngine::Sha256 => Term::Sha256(Box::new(Term::Bytes(kat_message()))),
        KatEngine::Sha384 => Term::Sha384(Box::new(Term::Bytes(kat_message()))),
        KatEngine::Sha384Acc => Term::Sha384(Box::new(Term::Bytes(kat_message()))),
        KatEngine::Ecc384 => Term::EccPub(Box::new(kat_key())),
        KatEngine::Hmac384 => Term::Mac(Box::new(kat_key()), kat_message()),
    }
}

/// The expected value of each known-answer test.
pub struct KatTable {
    pub sha256: Material,
    pub sha384: Material,
    pub sha384_acc: Material,
    pub ecc384: Material,
    pub hmac384: Material,
}

impl KatTable {
    pub open spec fn entry(&self, e: KatEngine) -> Term {
        match e {
            KatEngine::Sha256 => self.sha256@,
            KatEngine::Sha384 => self.sha384@,
            KatEngine::Sha384Acc => self.sha384_acc@,
            KatEngine::Ecc384 => self.ecc384@,
            KatEngine::Hmac384 => self.hmac384@,
        }
    }

    pub open spec fn passes(&self, e: KatEngine) -> bool {
        self.entry(e) == kat_answer(e)
    }

    /// Index in `kat_order` of the first test that fails, if any.
    pub open spec fn first_failure(&self) -> Option<int> {
        if !self.passes(KatEngine::Sha256) {
            Some(0)
        } else if !self.passes(KatEngine::Sha384) {
            Some(1)
        } else if !self.passes(KatEngine::Sha384Acc) {
            Some(2)
        } else if !self.passes(KatEngine::Ecc384) {
            Some(3)
        } else if !self.passes(KatEngine::Hmac384) {
            Some(4)
        } else {
            None
        }
    }

    /// The engines exercised: all of them, or up to and including the
    /// first that fails.
    pub open spec fn exercised(&self) -> Seq<KatEngine> {
        match self.first_failure() {
            Some(i) => kat_order().take(i + 1),
            None => kat_order(),
        }
    }

    pub open spec fn outcome(&self) -> CaliptraResult<()> {
        match self.first_failure() {
            Some(i) => Err(CaliptraError::KatFailure(kat_order()[i])),
            None => Ok(()),
        }
    }

    /// The table of correct answers.
    pub fn expected() -> (r: KatTable)
        ensures
            r.first_failure() is None,
    {
        let msg = kat_message_bytes();
        let key = Material::bytes(zero_bytes(HMAC384_KEY_SIZE));
        assert(key@ =~= kat_key());
        KatTable {
            sha256: sha256_digest(&Material::bytes(slice_to_vec(msg.as_slice()))),
            sha384: sha384_digest(&Material::bytes(slice_to_vec(msg.as_slice()))),
            sha384_acc: sha384_digest(&Material::bytes(slice_to_vec(msg.as_slice()))),
            ecc384: Material::ecc_pub(key.duplicate()),
            hmac384: hmac384_tag(&key, msg.as_slice()),
        }
    }

    /// Runs the test of one engine: computes its answer and compares it
    /// with the table. The engine is appended to `log`.
    fn run(&self, e: KatEngine, log: &mut Vec<KatEngine>) -> (r: bool)
        ensures
            final(log)@ == old(log)@.push(e),
            r == self.passes(e),
    {
        log.push(e);
        let msg = kat_message_bytes();
        let key = Material::bytes(zero_bytes(HMAC384_KEY_SIZE));
        assert(key@ =~= kat_key());
        let input = Material::bytes(slice_to_vec(msg.as_slice()));
        assert(input@ == Term::Bytes(kat_message()));
        match e {
            KatEngine::Sha256 => self.sha256.same(&sha256_digest(&input)),
            KatEngine::Sha384 => self.sha384.same(&sha384_digest(&input)),
            KatEngine::Sha384Acc => self.sha384_acc.same(&sha384_digest(&input)),
            KatEngine::Ecc384 => self.ecc384.same(&Material::ecc_pub(key)),
            KatEngine::Hmac384 => self.hmac384.same(&hmac384_tag(&key, msg.as_slice())),
        }
    }
}

fn kat_message_bytes() -> (r: [u8; 3])
    ensures
        r@ == kat_message(),
{
    let r: [u8; 3] = [0x61, 0x62, 0x63];
    assert(r@ =~= kat_message());
    r
}

/// State left by the fail-stop shutdown, from `pre`.
pub open spec fn shutdown_post(pre: &Drivers, post: &Drivers) -> bool {
    &&& post.wf()
    &&& all_erased(post.key_vault@)
    &&& post.sha256.zeroize_count == bump(pre.sha256.zeroize_count)
    &&& post.sha384.zeroize_count == bump(pre.sha384.zeroize_count)
    &&& post.sha384_acc.zeroize_count == bump(pre.sha384_acc.zeroize_count)
    &&& post.ecc384.zeroize_count == bump(pre.ecc384.zeroize_count)
    &&& post.hmac384.zeroize_count == bump(pre.hmac384.zeroize_count)
    &&& post.sha384_acc_locked
    &&& post.regions.sensitive@ == Seq::new(pre.regions.sensitive@.len(), |i: int| 0u8)
    &&& post.persistent_data == pre.persistent_data
    &&& post.reset_requested == pre.reset_requested
    &&& post.self_test_outcome == pre.self_test_outcome
    &&& post.self_test_run@ == pre.self_test_run@
}

/// FIPS operations on the engines as a whole.
pub struct FipsModule;

impl FipsModule {
    /// Clears every engine, the key vault and the sensitive memory, and
    /// locks the SHA-384 accelerator.
    pub fn zeroize(env: &mut Drivers)
        requires
            old(env).wf(),
        ensures
            shutdown_post(old(env), final(env)),
            final(env).mbox_status == old(env).mbox_status,
    {
        env.ecc384.zeroize();
        env.hmac384.zeroize();
        env.sha256.zeroize();
        env.sha384.zeroize();
        env.sha384_acc.zeroize();
        env.key_vault.zeroize();
        env.sha384_acc_locked = true;
        env.regions.zeroize();
    }

    /// Runs the known-answer tests in order and stops at the first failure,
    /// which it reports. Each engine exercised is appended to `log`.
    pub fn execute_kats(table: &KatTable, log: &mut Vec<KatEngine>) -> (r: CaliptraResult<()>)
        ensures
            r == table.outcome(),
            final(log)@ == old(log)@ + table.exercised(),
    {
        let ghost l0 = log@;
        if !table.run(KatEngine::Sha256, log) {
            assert(table.exercised() =~= seq![KatEngine::Sha256]);
            assert(log@ =~= l0 + table.exercised());
            return Err(CaliptraError::KatFailure(KatEngine::Sha256));
        }
        if !table.run(KatEngine::Sha384, log) {
            assert(table.exercised() =~= seq![KatEngine::Sha256, KatEngine::Sha384]);
            assert(log@ =~= l0 + table.exercised());
            return Err(CaliptraError::KatFailure(KatEngine::Sha384));
        }
        if !table.run(KatEngine::Sha384Acc, log) {
            assert(table.exercised() =~= seq![KatEngine::Sha256, KatEngine::Sha384, KatEngine::Sha384Acc]);
            assert(log@ =~= l0 + table.exercised());
            return Err(CaliptraError::KatFailure(KatEngine::Sha384Acc));
        }
        if !table.run(KatEngine::Ecc384, log) {
            assert(table.exercised() =~= seq![KatEngine::Sha256, KatEngine::Sha384, KatEngine::Sha384Acc, KatEngine::Ecc384]);
            assert(log@ =~= l0 + table.exercised());
            return Err(CaliptraError::KatFailure(KatEngine::Ecc384));
        }
        if !table.run(KatEngine::Hmac384, log) {
            assert(table.exercised() =~= kat_order());
            assert(log@ =~= l0 + table.exercised());
            return Err(CaliptraError::KatFailure(KatEngine::Hmac384));
        }
        assert(log@ =~= l0 + table.exercised());
        Ok(())
    }
}

/// A failing test halts the run at its engine: the engines after it in the
/// order are never exercised.
pub proof fn lemma_kats_fail_fast(table: &KatTable, i: int)
    requires
        table.first_failure() == Some(i),
    ensures
        0 <= i < 5,
        table.outcome() == Err::<(), CaliptraError>(CaliptraError::KatFailure(kat_order()[i])),
        table.exercised().len() == i + 1,
        table.exercised().last() == kat_order()[i],
        forall|j: int| i < j < 5 ==> !table.exercised().contains(#[trigger] kat_order()[j]),
{
    assert forall|j: int| i < j < 5 implies !table.exercised().contains(#[trigger] kat_order()[j]) by {
        if table.exercised().contains(kat_order()[j]) {
            let k = choose|k: int| 0 <= k < table.exercised().len() && table.exercised()[k] == kat_order()[j];
            assert(table.exercised()[k] == kat_order()[k]);
        }
    }
}

/// Query of the module's FIPS identification.
pub struct FipsVersionCmd;

impl FipsVersionCmd {
    /// The mode code: ASCII "FIPS".
    pub const MODE: u32 = 0x46495053;
    /// The module name: ASCII "Caliptra RTM".
    pub const NAME: [u8; 12] = [0x43, 0x61, 0x6c, 0x69, 0x70, 0x74, 0x72, 0x61, 0x20, 0x52, 0x54, 0x4d];

    pub fn execute(_env: &mut Drivers) -> (r: CaliptraResult<MailboxResp>)
        ensures
            *final(_env) == *old(_env),
            match r {
                Ok(MailboxResp::FipsVersion(v)) => v.mode == Self::MODE && v.fips_rev@ == seq![1u32, 0u32, 0u32]
                    && v.name@ == Self::NAME@,
                _ => false,
            },
    {
        let resp = FipsVersionResp { mode: Self::MODE, fips_rev: [1, 0, 0], name: Self::NAME };
        assert(resp.fips_rev@ =~= seq![1u32, 0u32, 0u32]);
        Ok(MailboxResp::FipsVersion(resp))
    }
}

/// Self test on demand. It never completes a mailbox transaction: it ends
/// by requesting a platform reset, and its conclusion is observed only by
/// the next boot.
pub struct FipsSelfTestCmd;

impl FipsSelfTestCmd {
    /// Runs the known-answer tests in order, stopping at the first failure,
    /// records their outcome and the engines exercised for the next boot,
    /// then requests the reset.
    pub fn execute(env: &mut Drivers, table: &KatTable)
        requires
            old(env).wf(),
        ensures
            final(env).wf(),
            final(env).reset_requested,
            final(env).self_test_outcome == Some(table.outcome()),
            final(env).self_test_run@ == table.exercised(),
            final(env).key_vault@ == old(env).key_vault@,
            (Drivers {
                reset_requested: old(env).reset_requested,
                self_test_outcome: old(env).self_test_outcome,
                self_test_run: old(env).self_test_run,
                ..*final(env)
            }).same_but_vault(old(env)),
    {
        let mut log: Vec<KatEngine> = Vec::new();
        let outcome = FipsModule::execute_kats(table, &mut log);
        assert(log@ =~= table.exercised());
        env.self_test_outcome = Some(outcome);
        env.self_test_run = log;
        env.reset_requested = true;
    }

    /// Where the firmware image is replayed into a mailbox of `mbox_len`
    /// bytes: the manifest at offset zero, the FMC at the first returned
    /// offset, the runtime at the second, ending at the third. `None` where
    /// an offset overflows or the image does not fit.
    pub fn image_copy_offsets(manifest_len: usize, fmc_size: u32, rt_size: u32, mbox_len: usize) -> (r:
        Option<(usize, usize, usize)>)
        ensures
            r is Some <==> manifest_len + fmc_size + rt_size <= mbox_len,
            r is Some ==> r.unwrap().0 == manifest_len
                && r.unwrap().1 == manifest_len + fmc_size
                && r.unwrap().2 == manifest_len + fmc_size + rt_size,
    {
        let fmc = fmc_size as usize;
        let rt = rt_size as usize;
        if manifest_len > mbox_len || fmc > mbox_len - manifest_len {
            return None;
        }
        let rt_off = manifest_len + fmc;
        if rt > mbox_len - rt_off {
            return None;
        }
        Some((manifest_len, rt_off, rt_off + rt))
    }
}


/// The fail-stop shutdown.
pub struct FipsShutdownCmd;

impl FipsShutdownCmd {
    /// Clears all state, marks the mailbox command complete and returns the
    /// fatal shutdown error, never a response.
    pub fn execute(env: &mut Drivers) -> (r: CaliptraResult<MailboxResp>)
        requires
            old(env).wf(),
        ensures
            r == Err::<MailboxResp, CaliptraError>(CaliptraError::RuntimeShutdown),
            shutdown_post(old(env), final(env)),
            final(env).mbox_status == MboxStatus::CmdComplete,
    {
        FipsModule::zeroize(env);
        env.mbox_status = MboxStatus::CmdComplete;
        Err(CaliptraError::RuntimeShutdown)
    }
}

/// After a shutdown every engine was zeroized exactly once, the vault is
/// fully erased and the accelerator is locked.
pub proof fn lemma_shutdown_zeroizes_once(pre: &Drivers, post: &Drivers)
    requires
        shutdown_post(pre, post),
        pre.sha256.zeroize_count < u64::MAX,
        pre.sha384.zeroize_count < u64::MAX,
        pre.sha384_acc.zeroize_count < u64::MAX,
        pre.ecc384.zeroize_count < u64::MAX,
        pre.hmac384.zeroize_count < u64::MAX,
    ensures
        post.sha256.zeroize_count == pre.sha256.zeroize_count + 1,
        post.sha384.zeroize_count == pre.sha384.zeroize_count + 1,
        post.sha384_acc.zeroize_count == pre.sha384_acc.zeroize_count + 1,
        post.ecc384.zeroize_count == pre.ecc384.zeroize_count + 1,
        post.hmac384.zeroize_count == pre.hmac384.zeroize_count + 1,
        forall|i: int| 0 <= i < post.key_vault@.len() ==> post.key_vault@[i] == crate::vault::erased_slot(),
        post.sha384_acc_locked,
{
}

} // verus!
