//! Acquiring the next presentable image. The driver may answer "out of
//! date": the semaphore of that attempt is then replaced and the acquire
//! tried again; any other failure is fatal.
//!
//! The loop alternates driver calls and decisions. `Acquisition` makes the
//! decisions; the caller makes the calls it asks for and hands back what
//! they returned.
use vstd::prelude::*;

verus! {

/// What one call of the driver's acquire returned.
#[derive(Clone, Copy, Debug, PartialEq, Eq, Structural)]
pub enum AcquireStatus {
    /// The index of the acquired image.
    Success(u32),
    OutOfDate,
    /// Any other status code.
    Failed(i32),
}

/// The status code of a successful call.
pub const SUCCESS: i32 = 0;

/// The status code of an acquire on a swapchain that no longer matches its
/// surface.
pub const ERROR_OUT_OF_DATE: i32 = -1000001004;

/// Reads the status code of an acquire, with the image index it wrote.
pub fn acquire_status(code: i32, index: u32) -> (r: AcquireStatus)
    ensures
        r == if code == SUCCESS {
            AcquireStatus::Success(index)
        } else if code == ERROR_OUT_OF_DATE {
            AcquireStatus::OutOfDate
        } else {
            AcquireStatus::Failed(code)
        },
{
    if code == SUCCESS {
        AcquireStatus::Success(index)
    } else if code == ERROR_OUT_OF_DATE {
        AcquireStatus::OutOfDate
    } else {
        AcquireStatus::Failed(code)
    }
}

/// What the caller must do next.
#[derive(Clone, Copy, Debug, PartialEq, Eq, Structural)]
pub enum AcquireAction {
    /// Call acquire, to be signalled on this semaphore.
    Acquire(u64),
    /// Destroy this semaphore, create a new one and hand it back.
    ReplaceSemaphore(u64),
    /// The image with this index was acquired.
    Done(u32),
    /// Acquire failed with this status code.
    Abort(i32),
}

#[derive(Clone, Copy, Debug, PartialEq, Eq, Structural)]
pub enum Phase {
    Acquiring,
    Replacing,
    Finished(u32),
    Aborted(i32),
}

/// The loop as a mathematical value, with the number of acquire attempts
/// answered so far and the number of semaphores replaced.
pub struct AcquireView {
    pub semaphore: u64,
    pub phase: Phase,
    pub attempts: nat,
    pub replacements: nat,
}

impl AcquireView {
    pub open spec fn after_status(self, st: AcquireStatus) -> AcquireView {
        let attempts = self.attempts + 1;
        match st {
            AcquireStatus::Success(i) => AcquireView { phase: Phase::Finished(i), attempts, ..self },
            AcquireStatus::OutOfDate => AcquireView { phase: Phase::Replacing, attempts, ..self },
            AcquireStatus::Failed(c) => AcquireView { phase: Phase::Aborted(c), attempts, ..self },
        }
    }

    pub open spec fn action_for(self, st: AcquireStatus) -> AcquireAction {
        match st {
            AcquireStatus::Success(i) => AcquireAction::Done(i),
            AcquireStatus::OutOfDate => AcquireAction::ReplaceSemaphore(self.semaphore),
            AcquireStatus::Failed(c) => AcquireAction::Abort(c),
        }
    }

    pub open spec fn after_semaphore(self, s: u64) -> AcquireView {
        AcquireView {
            semaphore: s,
            phase: Phase::Acquiring,
            replacements: self.replacements + 1,
            ..self
        }
    }
}

/// The loop after it has been handed the acquire results `statuses` in
/// turn, with the new semaphores taken from `fresh` as it asks for them.
pub open spec fn drive(v: AcquireView, statuses: Seq<AcquireStatus>, fresh: Seq<u64>) -> AcquireView
    decreases statuses.len(),
{
    if statuses.len() == 0 || v.phase != Phase::Acquiring {
        v
    } else {
        let w = v.after_status(statuses[0]);
        if w.phase == Phase::Replacing && fresh.len() > 0 {
            drive(w.after_semaphore(fresh[0]), statuses.skip(1), fresh.skip(1))
        } else {
            w
        }
    }
}

/// `k` answers "out of date" followed by one success.
pub open spec fn out_of_date_then(k: nat, index: u32) -> Seq<AcquireStatus> {
    Seq::new(k, |j: int| AcquireStatus::OutOfDate).push(AcquireStatus::Success(index))
}

/// One run of the acquire loop.
pub struct Acquisition {
    semaphore: u64,
    phase: Phase,
    attempts: Ghost<nat>,
    replacements: Ghost<nat>,
}

impl View for Acquisition {
    type V = AcquireView;

    closed spec fn view(&self) -> AcquireView {
        AcquireView {
            semaphore: self.semaphore,
            phase: self.phase,
            attempts: self.attempts@,
            replacements: self.replacements@,
        }
    }
}

impl Acquisition {
    /// A run that starts with an acquire on `semaphore`.
    pub fn new(semaphore: u64) -> (r: (Acquisition, AcquireAction))
        ensures
            r.0@ == (AcquireView { semaphore, phase: Phase::Acquiring, attempts: 0, replacements: 0 }),
            r.1 == AcquireAction::Acquire(semaphore),
    {
        (
            Acquisition {
                semaphore,
                phase: Phase::Acquiring,
                attempts: Ghost(0),
                replacements: Ghost(0),
            },
            AcquireAction::Acquire(semaphore),
        )
    }

    /// Where the run stands.
    pub fn phase(&self) -> (r: Phase)
        ensures
            r == self@.phase,
    {
        self.phase
    }

    /// The semaphore of the latest attempt.
    pub fn semaphore(&self) -> (r: u64)
        ensures
            r == self@.semaphore,
    {
        self.semaphore
    }

    /// Takes what the acquire returned: success ends the run with the
    /// image's index, "out of date" asks for a new semaphore, and any other
    /// status aborts.
    pub fn on_status(&mut self, st: AcquireStatus) -> (r: AcquireAction)
        requires
            old(self)@.phase == Phase::Acquiring,
        ensures
            final(self)@ == old(self)@.after_status(st),
            r == old(self)@.action_for(st),
    {
        self.attempts = Ghost(self.attempts@ + 1);
        match st {
            AcquireStatus::Success(i) => {
                self.phase = Phase::Finished(i);
                AcquireAction::Done(i)
            },
            AcquireStatus::OutOfDate => {
                self.phase = Phase::Replacing;
                AcquireAction::ReplaceSemaphore(self.semaphore)
            },
            AcquireStatus::Failed(c) => {
                self.phase = Phase::Aborted(c);
                AcquireAction::Abort(c)
            },
        }
    }

    /// Takes the semaphore that replaced the old one, and asks for the next
    /// attempt on it.
    pub fn on_semaphore(&mut self, s: u64) -> (r: AcquireAction)
        requires
            old(self)@.phase == Phase::Replacing,
        ensures
            final(self)@ == old(self)@.after_semaphore(s),
            r == AcquireAction::Acquire(s),
    {
        self.semaphore = s;
        self.phase = Phase::Acquiring;
        self.replacements = Ghost(self.replacements@ + 1);
        AcquireAction::Acquire(s)
    }
}

proof fn lemma_drive_retries(v: AcquireView, k: nat, index: u32, fresh: Seq<u64>)
    requires
        v.phase == Phase::Acquiring,
        fresh.len() >= k,
    ensures
        drive(v, out_of_date_then(k, index), fresh) == (AcquireView {
            semaphore: if k == 0 {
                v.semaphore
            } else {
                fresh[k - 1]
            },
            phase: Phase::Finished(index),
            attempts: v.attempts + k + 1,
            replacements: v.replacements + k,
        }),
    decreases k,
{
    let st = out_of_date_then(k, index);
    if k == 0 {
        assert(st[0] == AcquireStatus::Success(index));
    } else {
        assert(st[0] == AcquireStatus::OutOfDate);
        assert(st.skip(1) =~= out_of_date_then((k - 1) as nat, index));
        let w = v.after_status(st[0]).after_semaphore(fresh[0]);
        lemma_drive_retries(w, (k - 1) as nat, index, fresh.skip(1));
        if k > 1 {
            assert(fresh.skip(1)[k - 2] == fresh[k - 1]);
        }
    }
}

/// The retry law. After `k` answers "out of date" and then a success, the
/// loop has replaced the semaphore exactly `k` times and returns the
/// successful index on attempt `k + 1`, signalled on the last new
/// semaphore.
pub proof fn lemma_retry_until_acquired(semaphore: u64, k: nat, index: u32, fresh: Seq<u64>)
    requires
        fresh.len() >= k,
    ensures
        drive(
            AcquireView { semaphore, phase: Phase::Acquiring, attempts: 0, replacements: 0 },
            out_of_date_then(k, index),
            fresh,
        ) == (AcquireView {
            semaphore: if k == 0 {
                semaphore
            } else {
                fresh[k - 1]
            },
            phase: Phase::Finished(index),
            attempts: k + 1,
            replacements: k,
        }),
{
    lemma_drive_retries(
        AcquireView { semaphore, phase: Phase::Acquiring, attempts: 0, replacements: 0 },
        k,
        index,
        fresh,
    );
}

/// Any failure other than "out of date" aborts at once: one attempt, no
/// replacement, whatever the driver would have answered afterwards.
pub proof fn lemma_other_failure_aborts(
    semaphore: u64,
    code: i32,
    rest: Seq<AcquireStatus>,
    fresh: Seq<u64>,
)
    ensures
        drive(
            AcquireView { semaphore, phase: Phase::Acquiring, attempts: 0, replacements: 0 },
            seq![AcquireStatus::Failed(code)] + rest,
            fresh,
        ) == (AcquireView { semaphore, phase: Phase::Aborted(code), attempts: 1, replacements: 0 }),
{
    let st = seq![AcquireStatus::Failed(code)] + rest;
    assert(st[0] == AcquireStatus::Failed(code));
}

} // verus!
