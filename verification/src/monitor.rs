use vstd::prelude::*;
use crate::assoc::{
    assoc_keys_unique, assoc_map, lemma_assoc_absent, lemma_assoc_found, lemma_assoc_push,
    lemma_assoc_remove, lemma_assoc_update,
};
use crate::errors::AppError;

verus! {

/// What the monitor knows of one tracked vault.
#[derive(Debug, Clone)]
pub struct TrackedVault {
    pub vault_address: String,
    pub session_id: String,
    pub balance: u64,
    pub last_activity: i64,
}

/// Passive observer of vault activity: tracks the last known balance and
/// last activity time per vault address, and flags abandoned vaults for
/// reclamation.
pub struct VaultMonitor {
    active_vaults: Vec<TrackedVault>,
}

pub open spec fn mv_pairs(s: Seq<TrackedVault>) -> Seq<(Seq<char>, (Seq<char>, u64, i64))> {
    s.map_values(|e: TrackedVault| (e.vault_address@, (e.session_id@, e.balance, e.last_activity)))
}

/// The tracked vaults whose last activity lies more than `threshold` seconds
/// before `now`, in tracking order.
pub open spec fn spec_abandoned(s: Seq<TrackedVault>, threshold: int, now: int) -> Seq<Seq<char>>
    decreases s.len(),
{
    if s.len() == 0 {
        Seq::<Seq<char>>::empty()
    } else {
        let rest = spec_abandoned(s.drop_first(), threshold, now);
        if now - s[0].last_activity > threshold {
            seq![s[0].vault_address@] + rest
        } else {
            rest
        }
    }
}

fn find_tracked(entries: &Vec<TrackedVault>, key: &String) -> (r: Option<usize>)
    ensures
        r matches Some(i) ==> i < entries@.len() && entries@[i as int].vault_address@ == key@,
        r is None ==> forall|j: int|
            0 <= j < entries@.len() ==> entries@[j].vault_address@ != key@,
{
    let mut i: usize = 0;
    while i < entries.len()
        invariant
            i <= entries@.len(),
            forall|j: int| 0 <= j < i ==> entries@[j].vault_address@ != key@,
        decreases entries@.len() - i,
    {
        if entries[i].vault_address == *key {
            return Some(i);
        }
        i = i + 1;
    }
    None
}

impl VaultMonitor {
    /// The tracked vaults, in tracking order.
    pub closed spec fn entries(&self) -> Seq<TrackedVault> {
        self.active_vaults@
    }

    /// The monitor's state as a map from vault address to session, balance
    /// and last activity time.
    pub open spec fn view_map(&self) -> Map<Seq<char>, (Seq<char>, u64, i64)> {
        assoc_map(mv_pairs(self.entries()))
    }

    /// Well-formedness: one entry per vault address. `new` establishes it;
    /// every method preserves it.
    pub open spec fn wf(&self) -> bool {
        assoc_keys_unique(mv_pairs(self.entries()))
    }

    pub fn new() -> (m: VaultMonitor)
        ensures
            m.wf(),
            m.entries() == Seq::<TrackedVault>::empty(),
            m.view_map() == Map::<Seq<char>, (Seq<char>, u64, i64)>::empty(),
    {
        let m = VaultMonitor { active_vaults: Vec::new() };
        proof {
            assert(mv_pairs(m.active_vaults@) =~= Seq::<(Seq<char>, (Seq<char>, u64, i64))>::empty());
        }
        m
    }

    /// Start (or refresh) tracking a vault with its session and balance,
    /// stamping the activity time.
    pub fn add_vault(
        &mut self,
        vault_address: String,
        session_id: String,
        initial_balance: u64,
        now: i64,
    )
        requires
            old(self).wf(),
        ensures
            final(self).wf(),
            final(self).view_map() == old(self).view_map().insert(
                vault_address@,
                (session_id@, initial_balance, now),
            ),
    {
        let entry = TrackedVault {
            vault_address: vault_address.clone(),
            session_id,
            balance: initial_balance,
            last_activity: now,
        };
        let ghost s0 = mv_pairs(self.active_vaults@);
        let ghost p = (vault_address@, (entry.session_id@, initial_balance, now));
        match find_tracked(&self.active_vaults, &vault_address) {
            Some(i) => {
                self.active_vaults[i] = entry;
                proof {
                    assert(mv_pairs(self.active_vaults@) =~= s0.update(i as int, p));
                    lemma_assoc_update(s0, i as int, p);
                }
            },
            None => {
                proof {
                    assert forall|j: int| 0 <= j < s0.len() implies (#[trigger] s0[j]).0
                        != vault_address@ by {
                        assert(s0[j].0 == self.active_vaults@[j].vault_address@);
                    }
                }
                self.active_vaults.push(entry);
                proof {
                    assert(mv_pairs(self.active_vaults@) =~= s0.push(p));
                    lemma_assoc_push(s0, p);
                }
            },
        }
    }

    /// Record a new balance for a tracked vault, stamping the activity
    /// time; an unknown vault is left untouched.
    pub fn update_balance(&mut self, vault_address: &str, balance: u64, now: i64) -> (r: Result<
        (),
        AppError,
    >)
        requires
            old(self).wf(),
        ensures
            final(self).wf(),
            r == Ok::<(), AppError>(()),
            old(self).view_map().contains_key(vault_address@) ==> final(self).view_map() == old(
                self,
            ).view_map().insert(
                vault_address@,
                (old(self).view_map()[vault_address@].0, balance, now),
            ),
            !old(self).view_map().contains_key(vault_address@) ==> *final(self) == *old(self),
    {
        let key: String = vault_address.to_owned();
        let ghost s0 = mv_pairs(self.active_vaults@);
        match find_tracked(&self.active_vaults, &key) {
            Some(i) => {
                proof {
                    lemma_assoc_found(s0, i as int);
                }
                let session_id = self.active_vaults[i].session_id.clone();
                let addr = self.active_vaults[i].vault_address.clone();
                let ghost p = (vault_address@, (session_id@, balance, now));
                self.active_vaults[i] = TrackedVault {
                    vault_address: addr,
                    session_id,
                    balance,
                    last_activity: now,
                };
                proof {
                    assert(mv_pairs(self.active_vaults@) =~= s0.update(i as int, p));
                    lemma_assoc_update(s0, i as int, p);
                }
                Ok(())
            },
            None => {
                proof {
                    assert forall|j: int| 0 <= j < s0.len() implies (#[trigger] s0[j]).0
                        != vault_address@ by {
                        assert(s0[j].0 == self.active_vaults@[j].vault_address@);
                    }
                    lemma_assoc_absent(s0, vault_address@);
                }
                Ok(())
            },
        }
    }

    /// The last known balance of a tracked vault.
    pub fn get_balance(&self, vault_address: &str) -> (r: Option<u64>)
        requires
            self.wf(),
        ensures
            self.view_map().contains_key(vault_address@) ==> r == Some(
                self.view_map()[vault_address@].1,
            ),
            !self.view_map().contains_key(vault_address@) ==> r is None,
    {
        let key: String = vault_address.to_owned();
        let ghost s0 = mv_pairs(self.active_vaults@);
        match find_tracked(&self.active_vaults, &key) {
            Some(i) => {
                proof {
                    lemma_assoc_found(s0, i as int);
                }
                Some(self.active_vaults[i].balance)
            },
            None => {
                proof {
                    assert forall|j: int| 0 <= j < s0.len() implies (#[trigger] s0[j]).0
                        != vault_address@ by {
                        assert(s0[j].0 == self.active_vaults@[j].vault_address@);
                    }
                    lemma_assoc_absent(s0, vault_address@);
                }
                None
            },
        }
    }

    /// Every tracked vault whose last activity lies more than the threshold
    /// before `now`, in tracking order. A threshold of zero flags every
    /// vault with any elapsed inactivity.
    pub fn detect_abandoned_vaults(&self, inactivity_threshold_secs: i64, now: i64) -> (r: Vec<
        String,
    >)
        ensures
            r@.map_values(|a: String| a@) == spec_abandoned(
                self.entries(),
                inactivity_threshold_secs as int,
                now as int,
            ),
    {
        let mut result: Vec<String> = Vec::new();
        let n = self.active_vaults.len();
        proof {
            assert(self.active_vaults@.skip(0) =~= self.active_vaults@);
            assert(result@.map_values(|a: String| a@) =~= Seq::<Seq<char>>::empty());
        }
        let mut i: usize = 0;
        while i < n
            invariant
                n == self.active_vaults@.len(),
                i <= n,
                spec_abandoned(self.entries(), inactivity_threshold_secs as int, now as int)
                    =~= result@.map_values(|a: String| a@) + spec_abandoned(
                    self.active_vaults@.skip(i as int),
                    inactivity_threshold_secs as int,
                    now as int,
                ),
                self.entries() == self.active_vaults@,
            decreases n - i,
        {
            let e = &self.active_vaults[i];
            let ghost prev = result@;
            let elapsed: i128 = (now as i128) - (e.last_activity as i128);
            if elapsed > (inactivity_threshold_secs as i128) {
                result.push(e.vault_address.clone());
                proof {
                    assert(result@.map_values(|a: String| a@) =~= prev.map_values(|a: String| a@)
                        + seq![self.active_vaults@[i as int].vault_address@]);
                }
            }
            proof {
                assert(self.active_vaults@.skip(i as int)[0] == self.active_vaults@[i as int]);
                assert(self.active_vaults@.skip(i as int).drop_first() =~= self.active_vaults@.skip(
                    i as int + 1,
                ));
            }
            i = i + 1;
        }
        proof {
            assert(self.active_vaults@.skip(n as int) =~= Seq::<TrackedVault>::empty());
        }
        result
    }

    /// Stop tracking a vault; unknown addresses are ignored.
    pub fn remove_vault(&mut self, vault_address: &str) -> (r: Result<(), AppError>)
        requires
            old(self).wf(),
        ensures
            final(self).wf(),
            r == Ok::<(), AppError>(()),
            final(self).view_map() == old(self).view_map().remove(vault_address@),
    {
        let key: String = vault_address.to_owned();
        let ghost s0 = mv_pairs(self.active_vaults@);
        match find_tracked(&self.active_vaults, &key) {
            Some(i) => {
                self.active_vaults.remove(i);
                proof {
                    assert(mv_pairs(self.active_vaults@) =~= s0.remove(i as int));
                    lemma_assoc_remove(s0, i as int);
                }
                Ok(())
            },
            None => {
                proof {
                    assert forall|j: int| 0 <= j < s0.len() implies (#[trigger] s0[j]).0
                        != vault_address@ by {
                        assert(s0[j].0 == self.active_vaults@[j].vault_address@);
                    }
                    lemma_assoc_absent(s0, vault_address@);
                    assert(assoc_map(s0).remove(vault_address@) =~= assoc_map(s0));
                }
                Ok(())
            },
        }
    }

    /// The addresses of every tracked vault, in tracking order.
    pub fn get_active_vaults(&self) -> (r: Vec<String>)
        ensures
            r@.map_values(|a: String| a@) == self.entries().map_values(
                |e: TrackedVault| e.vault_address@,
            ),
    {
        let mut result: Vec<String> = Vec::new();
        let n = self.active_vaults.len();
        let mut i: usize = 0;
        while i < n
            invariant
                n == self.active_vaults@.len(),
                i <= n,
                result@.map_values(|a: String| a@) =~= self.active_vaults@.take(i as int)
                    .map_values(|e: TrackedVault| e.vault_address@),
                self.entries() == self.active_vaults@,
            decreases n - i,
        {
            let ghost prev = result@;
            result.push(self.active_vaults[i].vault_address.clone());
            proof {
                assert(self.active_vaults@.take(i as int + 1) =~= self.active_vaults@.take(
                    i as int,
                ).push(self.active_vaults@[i as int]));
                assert(result@.map_values(|a: String| a@) =~= prev.map_values(|a: String| a@)
                    + seq![self.active_vaults@[i as int].vault_address@]);
                assert(self.active_vaults@.take(i as int + 1).map_values(
                    |e: TrackedVault| e.vault_address@,
                ) =~= self.active_vaults@.take(i as int).map_values(
                    |e: TrackedVault| e.vault_address@,
                ).push(self.active_vaults@[i as int].vault_address@));
            }
            i = i + 1;
        }
        proof {
            assert(self.active_vaults@.take(n as int) =~= self.active_vaults@);
        }
        result
    }
}

impl Default for VaultMonitor {
    fn default() -> (m: Self)
        ensures
            m.wf(),
            m.entries() == Seq::<TrackedVault>::empty(),
    {
        VaultMonitor::new()
    }
}

} // verus!
