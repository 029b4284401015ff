//! Lifecycle management of background scans.
//!
//! A manager owns, per scan id, a progress snapshot, an optional terminal
//! result and a controller holding the two broadcast flags (pause, cancel).
//! The task driving a scan polls the flags at its checkpoints; pause,
//! resume and cancel are idempotent and never block.

use std::collections::HashMap;

use vstd::prelude::*;

use crate::scan::ScanStatus;

verus! {

broadcast use vstd::std_specs::hash::group_hash_axioms;

/// A progress snapshot: it carries a status and names the event under which
/// updates are pushed outward.
pub trait ScanProgress: Sized {
    /// The status carried by the snapshot.
    spec fn progress_status(&self) -> ScanStatus;

    /// The snapshot with its status replaced.
    spec fn spec_with_status(&self, status: ScanStatus) -> Self;

    /// Replacing the status yields that status, and replacing it twice is
    /// the same as replacing it once.
    proof fn lemma_with_status(&self, status: ScanStatus)
        ensures
            self.spec_with_status(status).progress_status() == status,
            self.spec_with_status(status).spec_with_status(status) == self.spec_with_status(
                status,
            ),
    ;

    /// Replace the status, leaving the rest of the snapshot as it was.
    fn set_status(&mut self, status: ScanStatus)
        ensures
            *final(self) == old(self).spec_with_status(status),
    ;

    /// The stable event name under which snapshots of this type are pushed.
    fn event_name() -> (r: &'static str);
}

/// The two broadcast flags of one scan.
#[derive(Debug, Clone, Copy, PartialEq, Eq, Structural)]
pub struct ControlFlags {
    pub pause: bool,
    pub cancel: bool,
}

/// What a scan task should do at a checkpoint.
#[derive(Debug, Clone, Copy, PartialEq, Eq, Structural)]
pub enum ControlAction {
    Continue,
    Cancel,
}

/// The progress map after a pause of `id`: the entry's status becomes
/// Paused; everything else is untouched.
pub open spec fn pause_progress<P: ScanProgress>(m: Map<u64, P>, id: u64) -> Map<u64, P> {
    if m.contains_key(id) {
        m.insert(id, m[id].spec_with_status(ScanStatus::Paused))
    } else {
        m
    }
}

/// The flags map after a pause of `id`: the pause flag is set; the cancel
/// flag and everything else are untouched.
pub open spec fn pause_flags(f: Map<u64, ControlFlags>, id: u64) -> Map<u64, ControlFlags> {
    if f.contains_key(id) {
        f.insert(id, ControlFlags { pause: true, cancel: f[id].cancel })
    } else {
        f
    }
}

/// The progress map after a resume of `id`.
pub open spec fn resume_progress<P: ScanProgress>(m: Map<u64, P>, id: u64) -> Map<u64, P> {
    if m.contains_key(id) {
        m.insert(id, m[id].spec_with_status(ScanStatus::Scanning))
    } else {
        m
    }
}

/// The flags map after a resume of `id`.
pub open spec fn resume_flags(f: Map<u64, ControlFlags>, id: u64) -> Map<u64, ControlFlags> {
    if f.contains_key(id) {
        f.insert(id, ControlFlags { pause: false, cancel: f[id].cancel })
    } else {
        f
    }
}

/// The flags map after a cancel of `id`: only the cancel flag is set.
pub open spec fn cancel_flags(f: Map<u64, ControlFlags>, id: u64) -> Map<u64, ControlFlags> {
    if f.contains_key(id) {
        f.insert(id, ControlFlags { pause: f[id].pause, cancel: true })
    } else {
        f
    }
}

/// Pausing an already-paused scan is a no-op: a second pause leaves both
/// the progress map and the flags map exactly as the first left them.
pub proof fn lemma_pause_idempotent<P: ScanProgress>(
    m: Map<u64, P>,
    f: Map<u64, ControlFlags>,
    id: u64,
)
    ensures
        pause_progress(pause_progress(m, id), id) == pause_progress(m, id),
        pause_flags(pause_flags(f, id), id) == pause_flags(f, id),
{
    if m.contains_key(id) {
        m[id].lemma_with_status(ScanStatus::Paused);
        assert(pause_progress(pause_progress(m, id), id) =~= pause_progress(m, id));
    }
    if f.contains_key(id) {
        assert(pause_flags(pause_flags(f, id), id) =~= pause_flags(f, id));
    }
}

/// Resuming an already-running scan is a no-op: a second resume leaves both
/// the progress map and the flags map exactly as the first left them.
pub proof fn lemma_resume_idempotent<P: ScanProgress>(
    m: Map<u64, P>,
    f: Map<u64, ControlFlags>,
    id: u64,
)
    ensures
        resume_progress(resume_progress(m, id), id) == resume_progress(m, id),
        resume_flags(resume_flags(f, id), id) == resume_flags(f, id),
{
    if m.contains_key(id) {
        m[id].lemma_with_status(ScanStatus::Scanning);
        assert(resume_progress(resume_progress(m, id), id) =~= resume_progress(m, id));
    }
    if f.contains_key(id) {
        assert(resume_flags(resume_flags(f, id), id) =~= resume_flags(f, id));
    }
}

/// Cancelling twice sets the same flags as cancelling once.
pub proof fn lemma_cancel_idempotent(f: Map<u64, ControlFlags>, id: u64)
    ensures
        cancel_flags(cancel_flags(f, id), id) == cancel_flags(f, id),
{
    if f.contains_key(id) {
        assert(cancel_flags(cancel_flags(f, id), id) =~= cancel_flags(f, id));
    }
}

/// The lifecycle manager: progress, results and controllers of all scans,
/// keyed by scan id.
pub struct ScanManager<P, R> {
    progress: HashMap<u64, P>,
    results: HashMap<u64, R>,
    controllers: HashMap<u64, ControlFlags>,
    next_id: u64,
}

impl<P: ScanProgress, R> ScanManager<P, R> {
    /// The progress snapshots, by scan id.
    pub closed spec fn progress_map(&self) -> Map<u64, P> {
        self.progress@
    }

    /// The terminal results, by scan id.
    pub closed spec fn results_map(&self) -> Map<u64, R> {
        self.results@
    }

    /// The controllers of the scans that still run, by scan id.
    pub closed spec fn flags_map(&self) -> Map<u64, ControlFlags> {
        self.controllers@
    }

    pub closed spec fn spec_next_id(&self) -> u64 {
        self.next_id
    }

    /// Every id ever handed out is below the allocation counter.
    pub closed spec fn wf(&self) -> bool {
        &&& forall|id: u64| self.progress@.contains_key(id) ==> id < self.next_id
        &&& forall|id: u64| self.results@.contains_key(id) ==> id < self.next_id
        &&& forall|id: u64| self.controllers@.contains_key(id) ==> id < self.next_id
    }

    /// An empty manager.
    pub fn new() -> (r: ScanManager<P, R>)
        ensures
            r.wf(),
            r.progress_map() == Map::<u64, P>::empty(),
            r.results_map() == Map::<u64, R>::empty(),
            r.flags_map() == Map::<u64, ControlFlags>::empty(),
    {
        ScanManager {
            progress: HashMap::new(),
            results: HashMap::new(),
            controllers: HashMap::new(),
            next_id: 0,
        }
    }

    /// Whether another scan id can still be allocated.
    pub fn can_start(&self) -> (r: bool)
        ensures
            r == (self.spec_next_id() < u64::MAX),
    {
        self.next_id < u64::MAX
    }

    /// Allocate a fresh scan id, store the initial progress snapshot and a
    /// controller with both flags clear. The task itself is spawned by the
    /// caller; no result exists yet under the new id.
    pub fn start_scan(&mut self, initial_progress: P) -> (id: u64)
        requires
            old(self).wf(),
            old(self).spec_next_id() < u64::MAX,
        ensures
            final(self).wf(),
            !old(self).progress_map().contains_key(id),
            !old(self).results_map().contains_key(id),
            !old(self).flags_map().contains_key(id),
            final(self).progress_map() == old(self).progress_map().insert(id, initial_progress),
            final(self).flags_map() == old(self).flags_map().insert(
                id,
                ControlFlags { pause: false, cancel: false },
            ),
            final(self).results_map() == old(self).results_map(),
            final(self).spec_next_id() == old(self).spec_next_id() + 1,
    {
        let id = self.next_id;
        self.next_id = self.next_id + 1;
        self.progress.insert(id, initial_progress);
        self.controllers.insert(id, ControlFlags { pause: false, cancel: false });
        id
    }

    /// Set the pause flag and mark the progress snapshot Paused. Idempotent;
    /// a no-op on a scan that was never started or is already cleared.
    pub fn pause_scan(&mut self, id: u64)
        requires
            old(self).wf(),
        ensures
            final(self).wf(),
            final(self).progress_map() == pause_progress(old(self).progress_map(), id),
            final(self).flags_map() == pause_flags(old(self).flags_map(), id),
            final(self).results_map() == old(self).results_map(),
            final(self).spec_next_id() == old(self).spec_next_id(),
    {
        match self.controllers.get(&id) {
            Some(flags) => {
                let updated = ControlFlags { pause: true, cancel: flags.cancel };
                self.controllers.insert(id, updated);
            },
            None => {},
        }
        match self.progress.remove(&id) {
            Some(mut p) => {
                p.set_status(ScanStatus::Paused);
                self.progress.insert(id, p);
                proof {
                    assert(self.progress@ =~= pause_progress(old(self).progress_map(), id));
                }
            },
            None => {},
        }
        proof {
            assert(self.controllers@ =~= pause_flags(old(self).flags_map(), id));
        }
    }

    /// Clear the pause flag and mark the progress snapshot Scanning.
    /// Idempotent; a no-op on a scan that was never started.
    pub fn resume_scan(&mut self, id: u64)
        requires
            old(self).wf(),
        ensures
            final(self).wf(),
            final(self).progress_map() == resume_progress(old(self).progress_map(), id),
            final(self).flags_map() == resume_flags(old(self).flags_map(), id),
            final(self).results_map() == old(self).results_map(),
            final(self).spec_next_id() == old(self).spec_next_id(),
    {
        match self.controllers.get(&id) {
            Some(flags) => {
                let updated = ControlFlags { pause: false, cancel: flags.cancel };
                self.controllers.insert(id, updated);
            },
            None => {},
        }
        match self.progress.remove(&id) {
            Some(mut p) => {
                p.set_status(ScanStatus::Scanning);
                self.progress.insert(id, p);
                proof {
                    assert(self.progress@ =~= resume_progress(old(self).progress_map(), id));
                }
            },
            None => {},
        }
        proof {
            assert(self.controllers@ =~= resume_flags(old(self).flags_map(), id));
        }
    }

    /// Set the cancel flag; the running task observes it at its next
    /// checkpoint. Idempotent; progress and results are untouched.
    pub fn cancel_scan(&mut self, id: u64)
        requires
            old(self).wf(),
        ensures
            final(self).wf(),
            final(self).progress_map() == old(self).progress_map(),
            final(self).flags_map() == cancel_flags(old(self).flags_map(), id),
            final(self).results_map() == old(self).results_map(),
            final(self).spec_next_id() == old(self).spec_next_id(),
    {
        match self.controllers.get(&id) {
            Some(flags) => {
                let updated = ControlFlags { pause: flags.pause, cancel: true };
                self.controllers.insert(id, updated);
            },
            None => {},
        }
        proof {
            assert(self.controllers@ =~= cancel_flags(old(self).flags_map(), id));
        }
    }

    /// What the task of `id` should do now: Cancel once the cancel flag is
    /// set, Continue otherwise.
    pub fn check_control(&self, id: u64) -> (r: ControlAction)
        ensures
            r == (if self.flags_map().contains_key(id) && self.flags_map()[id].cancel {
                ControlAction::Cancel
            } else {
                ControlAction::Continue
            }),
    {
        match self.controllers.get(&id) {
            Some(flags) => {
                if flags.cancel {
                    ControlAction::Cancel
                } else {
                    ControlAction::Continue
                }
            },
            None => ControlAction::Continue,
        }
    }

    /// Whether the task of `id` should hold its work.
    pub fn is_paused(&self, id: u64) -> (r: bool)
        ensures
            r == (self.flags_map().contains_key(id) && self.flags_map()[id].pause),
    {
        match self.controllers.get(&id) {
            Some(flags) => flags.pause,
            None => false,
        }
    }

    /// Replace the progress snapshot of a running scan with `p`, marked
    /// Scanning; a no-op on an unknown id.
    pub fn update_progress(&mut self, id: u64, p: P)
        requires
            old(self).wf(),
        ensures
            final(self).wf(),
            old(self).progress_map().contains_key(id) ==> final(self).progress_map() == old(
                self,
            ).progress_map().insert(id, p.spec_with_status(ScanStatus::Scanning)),
            !old(self).progress_map().contains_key(id) ==> final(self).progress_map() == old(
                self,
            ).progress_map(),
            final(self).flags_map() == old(self).flags_map(),
            final(self).results_map() == old(self).results_map(),
            final(self).spec_next_id() == old(self).spec_next_id(),
    {
        if self.progress.contains_key(&id) {
            let mut p = p;
            p.set_status(ScanStatus::Scanning);
            self.progress.insert(id, p);
        }
    }

    /// Store the terminal result of `id`, mark its progress Completed and
    /// drop its controller. An id that was never handed out is ignored.
    pub fn finish_scan(&mut self, id: u64, result: R)
        requires
            old(self).wf(),
        ensures
            final(self).wf(),
            id >= old(self).spec_next_id() ==> final(self).progress_map() == old(
                self,
            ).progress_map() && final(self).results_map() == old(self).results_map() && final(
                self
            ).flags_map() == old(self).flags_map(),
            id < old(self).spec_next_id() && old(self).progress_map().contains_key(id) ==> final(self).progress_map() == old(
                self,
            ).progress_map().insert(
                id,
                old(self).progress_map()[id].spec_with_status(ScanStatus::Completed),
            ),
            id < old(self).spec_next_id() && !old(self).progress_map().contains_key(id) ==> final(
                self
            ).progress_map() == old(self).progress_map(),
            id < old(self).spec_next_id() && old(self).flags_map().contains_key(id) ==> final(
                self
            ).flags_map() == old(self).flags_map().remove(id),
            id < old(self).spec_next_id() && !old(self).flags_map().contains_key(id) ==> final(
                self
            ).flags_map() == old(self).flags_map(),
            id < old(self).spec_next_id() ==> final(self).results_map() == old(
                self,
            ).results_map().insert(id, result),
            final(self).spec_next_id() == old(self).spec_next_id(),
    {
        if id < self.next_id {
            self.results.insert(id, result);
            match self.progress.remove(&id) {
                Some(mut p) => {
                    p.set_status(ScanStatus::Completed);
                    self.progress.insert(id, p);
                },
                None => {},
            }
            if self.controllers.contains_key(&id) {
                self.controllers.remove(&id);
            }
            proof {
                if old(self).progress_map().contains_key(id) {
                    assert(self.progress@ =~= old(self).progress_map().insert(
                        id,
                        old(self).progress_map()[id].spec_with_status(ScanStatus::Completed),
                    ));
                }
            }
        }
    }

    /// Mark the scan Error and drop its controller; no result is stored, so
    /// no partial outcome survives a failed run.
    pub fn fail_scan(&mut self, id: u64)
        requires
            old(self).wf(),
        ensures
            final(self).wf(),
            old(self).progress_map().contains_key(id) ==> final(self).progress_map() == old(
                self,
            ).progress_map().insert(
                id,
                old(self).progress_map()[id].spec_with_status(ScanStatus::Error),
            ),
            !old(self).progress_map().contains_key(id) ==> final(self).progress_map() == old(
                self,
            ).progress_map(),
            old(self).flags_map().contains_key(id) ==> final(self).flags_map() == old(
                self,
            ).flags_map().remove(id),
            !old(self).flags_map().contains_key(id) ==> final(self).flags_map() == old(
                self,
            ).flags_map(),
            final(self).results_map() == old(self).results_map(),
            final(self).spec_next_id() == old(self).spec_next_id(),
    {
        match self.progress.remove(&id) {
            Some(mut p) => {
                p.set_status(ScanStatus::Error);
                self.progress.insert(id, p);
            },
            None => {},
        }
        if self.controllers.contains_key(&id) {
            self.controllers.remove(&id);
        }
        proof {
            if old(self).progress_map().contains_key(id) {
                assert(self.progress@ =~= old(self).progress_map().insert(
                    id,
                    old(self).progress_map()[id].spec_with_status(ScanStatus::Error),
                ));
            }
        }
    }

    /// Acknowledge an observed cancellation: mark the scan Cancelled and
    /// drop its controller; any partial grouping state is discarded, so no
    /// result is stored under the id.
    pub fn finish_cancelled(&mut self, id: u64)
        requires
            old(self).wf(),
        ensures
            final(self).wf(),
            old(self).progress_map().contains_key(id) ==> final(self).progress_map() == old(
                self,
            ).progress_map().insert(
                id,
                old(self).progress_map()[id].spec_with_status(ScanStatus::Cancelled),
            ),
            !old(self).progress_map().contains_key(id) ==> final(self).progress_map() == old(
                self,
            ).progress_map(),
            old(self).flags_map().contains_key(id) ==> final(self).flags_map() == old(
                self,
            ).flags_map().remove(id),
            !old(self).flags_map().contains_key(id) ==> final(self).flags_map() == old(
                self,
            ).flags_map(),
            final(self).results_map() == old(self).results_map(),
            final(self).spec_next_id() == old(self).spec_next_id(),
    {
        match self.progress.remove(&id) {
            Some(mut p) => {
                p.set_status(ScanStatus::Cancelled);
                self.progress.insert(id, p);
            },
            None => {},
        }
        if self.controllers.contains_key(&id) {
            self.controllers.remove(&id);
        }
        proof {
            if old(self).progress_map().contains_key(id) {
                assert(self.progress@ =~= old(self).progress_map().insert(
                    id,
                    old(self).progress_map()[id].spec_with_status(ScanStatus::Cancelled),
                ));
            }
        }
    }

    /// The current progress snapshot of `id`, or None when it was never
    /// started or already cleared.
    pub fn get_progress(&self, id: u64) -> (r: Option<&P>)
        ensures
            match r {
                Some(p) => self.progress_map().contains_key(id) && *p == self.progress_map()[id],
                None => !self.progress_map().contains_key(id),
            },
    {
        self.progress.get(&id)
    }

    /// The terminal result of `id`, or None when none was stored.
    pub fn get_result(&self, id: u64) -> (r: Option<&R>)
        ensures
            match r {
                Some(v) => self.results_map().contains_key(id) && *v == self.results_map()[id],
                None => !self.results_map().contains_key(id),
            },
    {
        self.results.get(&id)
    }

    /// Drop the progress and result entries of `id`; its controller, if the
    /// task still runs, stays in place.
    pub fn clear_scan(&mut self, id: u64)
        requires
            old(self).wf(),
        ensures
            final(self).wf(),
            final(self).progress_map() == old(self).progress_map().remove(id),
            final(self).results_map() == old(self).results_map().remove(id),
            final(self).flags_map() == old(self).flags_map(),
            final(self).spec_next_id() == old(self).spec_next_id(),
    {
        if self.progress.contains_key(&id) {
            self.progress.remove(&id);
        } else {
            proof {
                assert(self.progress@ =~= self.progress@.remove(id));
            }
        }
        if self.results.contains_key(&id) {
            self.results.remove(&id);
        } else {
            proof {
                assert(self.results@ =~= self.results@.remove(id));
            }
        }
    }
}

impl<P: ScanProgress, R> Default for ScanManager<P, R> {
    /// The same manager as `new`.
    fn default() -> (r: Self)
        ensures
            r.wf(),
            r.progress_map() == Map::<u64, P>::empty(),
            r.results_map() == Map::<u64, R>::empty(),
            r.flags_map() == Map::<u64, ControlFlags>::empty(),
    {
        Self::new()
    }
}

} // verus!
