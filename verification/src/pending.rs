//! The vectors that wait for injection into the guest of each CPU.
use std::collections::VecDeque;
use vstd::prelude::*;

verus! {

/// Vectors below this one are exceptions: they return through IRET and need no EOI.
pub const FIRST_INTERRUPT_VECTOR: u8 = 32;

/// After this many blocked checks without an EOI the vector in front is discarded.
pub const EOI_STUCK_LIMIT: u64 = 5000;

/// Past this many blocked checks an EOI counts as a recovery from a stuck state.
pub const EOI_STUCK_NOTABLE: u64 = 100;

/// More pending vectors than this on one CPU are worth a warning.
pub const CROWDED_QUEUE_LEN: usize = 10;

/// The pending vectors of one CPU.
pub struct InnerPendingVectors {
    /// Each vector with the error code that goes with it, oldest first.
    queue: VecDeque<(u8, Option<u32>)>,
    /// Whether the guest has signalled the end of the interrupt that was injected last.
    has_eoi: bool,
    /// Number of consecutive checks that found a vector waiting for an EOI (reset on EOI).
    eoi_stuck_count: u64,
    /// Number of EOIs that this CPU has seen, modulo 2^64.
    eoi_count: u64,
}

/// The pending vectors of one CPU as a mathematical value.
#[verifier::ext_equal]
pub struct PendingState {
    pub queue: Seq<(u8, Option<u32>)>,
    pub has_eoi: bool,
    pub eoi_stuck_count: u64,
    pub eoi_count: u64,
}

impl View for InnerPendingVectors {
    type V = PendingState;

    closed spec fn view(&self) -> PendingState {
        PendingState {
            queue: self.queue@,
            has_eoi: self.has_eoi,
            eoi_stuck_count: self.eoi_stuck_count,
            eoi_count: self.eoi_count,
        }
    }
}

/// What is left to do with the virtual CPU after a look at its pending vectors.
#[derive(Clone, Copy, Debug, PartialEq, Eq)]
pub enum PendingAction {
    /// No vector is pending.
    Idle,
    /// Inject this vector. It has left the queue.
    Inject { vector: u8, err_code: Option<u32> },
    /// The vector cannot go in yet: enable interrupt-window exiting.
    OpenWindow,
    /// The EOI never came: enable interrupt-window exiting and send a physical EOI. The vector
    /// has been discarded after `checks` checks, and `remaining` vectors are still queued.
    Discard { vector: u8, checks: u64, remaining: usize },
}

/// What an EOI tells about the CPU that sent it.
#[derive(Clone, Copy, Debug, PartialEq, Eq)]
pub enum EoiReport {
    /// The first EOI of this CPU.
    First,
    /// The EOI ended a long delay; `total` EOIs have been seen.
    Recovered { total: u64 },
    /// Nothing notable.
    Quiet,
}

impl PendingState {
    /// The state of a CPU that has never had a vector.
    pub open spec fn initial() -> PendingState {
        PendingState { queue: Seq::empty(), has_eoi: true, eoi_stuck_count: 0, eoi_count: 0 }
    }

    /// The stuck counter is reset before it can pass the limit.
    pub open spec fn wf(self) -> bool {
        self.eoi_stuck_count < EOI_STUCK_LIMIT
    }

    /// Whether this vector with this error code is queued.
    pub open spec fn is_pending(self, vector: u8, err_code: Option<u32>) -> bool {
        self.queue.contains((vector, err_code))
    }

    /// Whether a request for this vector joins the queue: it does not when it is a duplicate
    /// and duplicates are not wanted.
    pub open spec fn accepts(
        self,
        vector: u8,
        err_code: Option<u32>,
        allow_repeat: bool,
    ) -> bool {
        allow_repeat || !self.is_pending(vector, err_code)
    }

    /// The state after a request for this vector.
    pub open spec fn added(
        self,
        vector: u8,
        err_code: Option<u32>,
        allow_repeat: bool,
    ) -> PendingState {
        if self.accepts(vector, err_code, allow_repeat) {
            PendingState { queue: self.queue.push((vector, err_code)), ..self }
        } else {
            self
        }
    }

    /// The action that a check takes; `allow_interrupt` tells whether the guest can take an
    /// interrupt now.
    pub open spec fn check_action(self, allow_interrupt: bool) -> PendingAction {
        if self.queue.len() == 0 {
            PendingAction::Idle
        } else {
            let (vector, err_code) = self.queue[0];
            if vector < FIRST_INTERRUPT_VECTOR || (allow_interrupt && self.has_eoi) {
                PendingAction::Inject { vector, err_code }
            } else if self.has_eoi || self.eoi_stuck_count + 1 < EOI_STUCK_LIMIT {
                PendingAction::OpenWindow
            } else {
                PendingAction::Discard {
                    vector,
                    checks: (self.eoi_stuck_count + 1) as u64,
                    remaining: (self.queue.len() - 1) as usize,
                }
            }
        }
    }

    /// The state after a check.
    pub open spec fn checked(self, allow_interrupt: bool) -> PendingState {
        match self.check_action(allow_interrupt) {
            PendingAction::Idle => self,
            PendingAction::Inject { vector, err_code } => PendingState {
                queue: self.queue.drop_first(),
                has_eoi: self.has_eoi && vector < FIRST_INTERRUPT_VECTOR,
                eoi_stuck_count: 0,
                ..self
            },
            PendingAction::OpenWindow => if self.has_eoi {
                self
            } else {
                PendingState { eoi_stuck_count: (self.eoi_stuck_count + 1) as u64, ..self }
            },
            PendingAction::Discard { .. } => PendingState {
                queue: self.queue.drop_first(),
                has_eoi: true,
                eoi_stuck_count: 0,
                ..self
            },
        }
    }

    /// The state after an EOI.
    pub open spec fn acknowledged(self) -> PendingState {
        PendingState {
            has_eoi: true,
            eoi_stuck_count: 0,
            eoi_count: if self.eoi_count == u64::MAX {
                0
            } else {
                (self.eoi_count + 1) as u64
            },
            ..self
        }
    }

    /// What the EOI that ends this state tells.
    pub open spec fn eoi_report(self) -> EoiReport {
        if self.eoi_count == 0 {
            EoiReport::First
        } else if self.eoi_stuck_count > EOI_STUCK_NOTABLE {
            EoiReport::Recovered { total: self.acknowledged().eoi_count }
        } else {
            EoiReport::Quiet
        }
    }

    /// The state after all pending vectors are dropped.
    pub open spec fn cleared(self) -> PendingState {
        PendingState { queue: Seq::empty(), ..self }
    }

    /// The state after one check for each element of `allowed`, with no EOI in between.
    pub open spec fn checked_all(self, allowed: Seq<bool>) -> PendingState
        decreases allowed.len(),
    {
        if allowed.len() == 0 {
            self
        } else {
            self.checked_all(allowed.drop_last()).checked(allowed.last())
        }
    }

    /// The state after `n` rounds in which the guest takes a vector and acknowledges it.
    pub open spec fn delivered(self, n: nat) -> PendingState
        decreases n,
    {
        if n == 0 {
            self
        } else {
            self.delivered((n - 1) as nat).checked(true).acknowledged()
        }
    }
}

impl InnerPendingVectors {
    /// No vector is pending and no EOI is owed.
    pub fn new() -> (pending: Self)
        ensures
            pending@ == PendingState::initial(),
    {
        InnerPendingVectors {
            queue: VecDeque::new(),
            has_eoi: true,
            eoi_stuck_count: 0,
            eoi_count: 0,
        }
    }

    /// Whether this vector with this error code is queued.
    fn contains(&self, vector: u8, err_code: Option<u32>) -> (found: bool)
        ensures
            found == self@.is_pending(vector, err_code),
    {
        let mut i: usize = 0;
        while i < self.queue.len()
            invariant
                i <= self.queue@.len(),
                forall|j: int| 0 <= j < i ==> self.queue@[j] != (vector, err_code),
            decreases self.queue@.len() - i,
        {
            let entry: (u8, Option<u32>) = self.queue[i];
            if entry.0 == vector && entry.1 == err_code {
                assert(self.queue@[i as int] == (vector, err_code));
                return true;
            }
            i = i + 1;
        }
        false
    }

    /// Queues a vector; a duplicate joins only when `allow_repeat` is set. Tells whether it
    /// joined.
    pub fn add(&mut self, vector: u8, err_code: Option<u32>, allow_repeat: bool) -> (added: bool)
        ensures
            added == old(self)@.accepts(vector, err_code, allow_repeat),
            final(self)@ == old(self)@.added(vector, err_code, allow_repeat),
    {
        if allow_repeat || !self.contains(vector, err_code) {
            self.queue.push_back((vector, err_code));
            true
        } else {
            false
        }
    }

    /// Looks at the vector in front and says what to do with it.
    pub fn check(&mut self, allow_interrupt: bool) -> (action: PendingAction)
        requires
            old(self)@.wf(),
        ensures
            action == old(self)@.check_action(allow_interrupt),
            final(self)@ == old(self)@.checked(allow_interrupt),
            final(self)@.wf(),
    {
        if self.queue.len() == 0 {
            return PendingAction::Idle;
        }
        let (vector, err_code) = self.queue[0];
        let is_exception = vector < FIRST_INTERRUPT_VECTOR;
        if is_exception || (allow_interrupt && self.has_eoi) {
            if !is_exception {
                self.has_eoi = false;
            }
            self.queue.pop_front();
            self.eoi_stuck_count = 0;
            return PendingAction::Inject { vector, err_code };
        }
        if self.has_eoi {
            return PendingAction::OpenWindow;
        }
        self.eoi_stuck_count = self.eoi_stuck_count + 1;
        if self.eoi_stuck_count >= EOI_STUCK_LIMIT {
            let checks = self.eoi_stuck_count;
            let remaining: usize = self.queue.len() - 1;
            self.queue.pop_front();
            self.has_eoi = true;
            self.eoi_stuck_count = 0;
            return PendingAction::Discard { vector, checks, remaining };
        }
        PendingAction::OpenWindow
    }

    /// Records an EOI.
    pub fn acknowledge(&mut self) -> (report: EoiReport)
        requires
            old(self)@.wf(),
        ensures
            report == old(self)@.eoi_report(),
            final(self)@ == old(self)@.acknowledged(),
            final(self)@.wf(),
    {
        let was_significantly_stuck = self.eoi_stuck_count > EOI_STUCK_NOTABLE;
        self.has_eoi = true;
        self.eoi_stuck_count = 0;
        let seen = self.eoi_count;
        self.eoi_count = seen.wrapping_add(1);
        if seen == 0 {
            EoiReport::First
        } else if was_significantly_stuck {
            EoiReport::Recovered { total: self.eoi_count }
        } else {
            EoiReport::Quiet
        }
    }
}

/// The pending vectors of every CPU, indexed by CPU number.
pub struct PendingVectors {
    inner: Vec<InnerPendingVectors>,
}

impl View for PendingVectors {
    type V = Seq<PendingState>;

    closed spec fn view(&self) -> Seq<PendingState> {
        Seq::new(self.inner@.len(), |i: int| self.inner@[i]@)
    }
}

impl PendingVectors {
    /// The state of every CPU is valid.
    pub open spec fn wf(&self) -> bool {
        forall|i: int| 0 <= i < self@.len() ==> (#[trigger] self@[i]).wf()
    }

    /// Empty queues for `max_cpus` CPUs.
    pub fn new(max_cpus: usize) -> (pending: Self)
        ensures
            pending.wf(),
            pending@ == Seq::new(max_cpus as nat, |i: int| PendingState::initial()),
    {
        let mut inner: Vec<InnerPendingVectors> = Vec::new();
        let mut i: usize = 0;
        while i < max_cpus
            invariant
                i <= max_cpus,
                inner@.len() == i,
                forall|j: int| 0 <= j < i ==> (#[trigger] inner@[j])@ == PendingState::initial(),
            decreases max_cpus - i,
        {
            inner.push(InnerPendingVectors::new());
            i = i + 1;
        }
        let pending = PendingVectors { inner };
        assert(pending@ =~= Seq::new(max_cpus as nat, |i: int| PendingState::initial()));
        pending
    }

    /// Returns true if the vector was added to the queue, false if it was dropped as a
    /// duplicate. Callers should only send a wakeup IPI when the vector was actually added.
    pub fn add_vector(
        &mut self,
        cpu_id: usize,
        vector: u8,
        err_code: Option<u32>,
        allow_repeat: bool,
    ) -> (added: bool)
        requires
            old(self).wf(),
            cpu_id < old(self)@.len(),
        ensures
            final(self).wf(),
            added == old(self)@[cpu_id as int].accepts(vector, err_code, allow_repeat),
            final(self)@ == old(self)@.update(
                cpu_id as int,
                old(self)@[cpu_id as int].added(vector, err_code, allow_repeat),
            ),
    {
        assert(self@[cpu_id as int].wf());
        let added = self.inner[cpu_id].add(vector, err_code, allow_repeat);
        assert(self@ =~= old(self)@.update(
            cpu_id as int,
            old(self)@[cpu_id as int].added(vector, err_code, allow_repeat),
        ));
        added
    }

    /// Looks at the vector in front of a CPU's queue and says what to do with it;
    /// `allow_interrupt` tells whether the guest on that CPU can take an interrupt now.
    pub fn check_pending_vectors(
        &mut self,
        cpu_id: usize,
        allow_interrupt: bool,
    ) -> (action: PendingAction)
        requires
            old(self).wf(),
            cpu_id < old(self)@.len(),
        ensures
            final(self).wf(),
            action == old(self)@[cpu_id as int].check_action(allow_interrupt),
            final(self)@ == old(self)@.update(
                cpu_id as int,
                old(self)@[cpu_id as int].checked(allow_interrupt),
            ),
    {
        assert(self@[cpu_id as int].wf());
        let action = self.inner[cpu_id].check(allow_interrupt);
        assert(self@ =~= old(self)@.update(
            cpu_id as int,
            old(self)@[cpu_id as int].checked(allow_interrupt),
        ));
        action
    }

    /// The number of CPUs that have a queue.
    pub fn cpu_count(&self) -> (count: usize)
        ensures
            count == self@.len(),
    {
        self.inner.len()
    }

    /// The number of vectors that are pending for a CPU.
    pub fn queue_len(&self, cpu_id: usize) -> (len: usize)
        requires
            cpu_id < self@.len(),
        ensures
            len == self@[cpu_id as int].queue.len(),
    {
        self.inner[cpu_id].queue.len()
    }

    /// Records an EOI of a CPU: the next interrupt may go in.
    pub fn pop_vector(&mut self, cpu_id: usize) -> (report: EoiReport)
        requires
            old(self).wf(),
            cpu_id < old(self)@.len(),
        ensures
            final(self).wf(),
            report == old(self)@[cpu_id as int].eoi_report(),
            final(self)@ == old(self)@.update(
                cpu_id as int,
                old(self)@[cpu_id as int].acknowledged(),
            ),
    {
        assert(self@[cpu_id as int].wf());
        let report = self.inner[cpu_id].acknowledge();
        assert(self@ =~= old(self)@.update(
            cpu_id as int,
            old(self)@[cpu_id as int].acknowledged(),
        ));
        report
    }

    /// Drops every pending vector of a CPU. Whether an EOI is owed does not change.
    pub fn clear_vectors(&mut self, cpu_id: usize)
        requires
            old(self).wf(),
            cpu_id < old(self)@.len(),
        ensures
            final(self).wf(),
            final(self)@ == old(self)@.update(
                cpu_id as int,
                old(self)@[cpu_id as int].cleared(),
            ),
    {
        assert(self@[cpu_id as int].wf());
        self.inner[cpu_id].queue.clear();
        assert(self@ =~= old(self)@.update(cpu_id as int, old(self)@[cpu_id as int].cleared()));
    }
}

/// Something that happens to the pending vectors of a CPU.
pub enum PendingEvent {
    /// A vector is requested.
    Request { vector: u8, err_code: Option<u32>, allow_repeat: bool },
    /// The vector in front is checked.
    Check { allow_interrupt: bool },
    /// The guest signals an EOI.
    Eoi,
    /// The pending vectors are dropped.
    Clear,
}

impl PendingState {
    /// The state after an event.
    pub open spec fn after(self, event: PendingEvent) -> PendingState {
        match event {
            PendingEvent::Request { vector, err_code, allow_repeat } => self.added(
                vector,
                err_code,
                allow_repeat,
            ),
            PendingEvent::Check { allow_interrupt } => self.checked(allow_interrupt),
            PendingEvent::Eoi => self.acknowledged(),
            PendingEvent::Clear => self.cleared(),
        }
    }

    /// The state after these events, one after the other.
    pub open spec fn after_all(self, events: Seq<PendingEvent>) -> PendingState
        decreases events.len(),
    {
        if events.len() == 0 {
            self
        } else {
            self.after_all(events.drop_last()).after(events.last())
        }
    }

    /// Whether an event injects a hardware interrupt.
    pub open spec fn injects_interrupt(self, event: PendingEvent) -> bool {
        event matches PendingEvent::Check { allow_interrupt } && self.check_action(
            allow_interrupt,
        ) matches PendingAction::Inject { vector, .. } && vector >= FIRST_INTERRUPT_VECTOR
    }

    /// Whether an event lets the next interrupt through: an EOI, or the watchdog.
    pub open spec fn releases(self, event: PendingEvent) -> bool {
        event is Eoi || (event matches PendingEvent::Check { allow_interrupt }
            && self.check_action(allow_interrupt) is Discard)
    }
}

/// Whatever happens to a CPU, its state stays valid, and as long as nobody asks for repeats no
/// vector is ever queued twice.
pub proof fn law_events_keep_invariants(s: PendingState, events: Seq<PendingEvent>)
    requires
        s.wf(),
    ensures
        s.after_all(events).wf(),
        s.queue.no_duplicates() && (forall|i: int|
            0 <= i < events.len() ==> !(#[trigger] events[i] matches PendingEvent::Request {
                allow_repeat,
                ..
            } && allow_repeat)) ==> s.after_all(events).queue.no_duplicates(),
    decreases events.len(),
{
    if events.len() > 0 {
        let before = events.drop_last();
        law_events_keep_invariants(s, before);
        assert(forall|i: int| 0 <= i < before.len() ==> before[i] == events[i]);
        assert(events.last() == events[events.len() - 1]);
    }
}

/// At most one hardware interrupt is in flight: while an EOI is owed, no event injects another
/// one until an EOI arrives or the watchdog gives up waiting for it.
pub proof fn law_one_interrupt_in_flight(s: PendingState, events: Seq<PendingEvent>)
    requires
        !s.has_eoi,
        forall|i: int|
            0 <= i < events.len() ==> !s.after_all(#[trigger] events.take(i)).releases(events[i]),
    ensures
        !s.after_all(events).has_eoi,
        forall|i: int|
            0 <= i < events.len() ==> !s.after_all(#[trigger] events.take(i)).injects_interrupt(
                events[i],
            ),
    decreases events.len(),
{
    if events.len() > 0 {
        let before = events.drop_last();
        assert forall|i: int| 0 <= i < before.len() implies !s.after_all(
            #[trigger] before.take(i),
        ).releases(before[i]) by {
            assert(before.take(i) =~= events.take(i));
        }
        law_one_interrupt_in_flight(s, before);
        assert(events.take(events.len() - 1) =~= before);
        assert forall|i: int| 0 <= i < events.len() implies !s.after_all(
            #[trigger] events.take(i),
        ).injects_interrupt(events[i]) by {
            if i < before.len() {
                assert(before.take(i) =~= events.take(i));
            }
        }
    }
}

/// How many of these events are checks.
pub open spec fn check_count(events: Seq<PendingEvent>) -> nat
    decreases events.len(),
{
    if events.len() == 0 {
        0
    } else {
        check_count(events.drop_last()) + if events.last() is Check {
            1nat
        } else {
            0nat
        }
    }
}

proof fn lemma_no_release(s: PendingState, events: Seq<PendingEvent>)
    requires
        !s.has_eoi,
        forall|i: int| 0 <= i < events.len() ==> !(#[trigger] events[i] is Eoi),
        s.eoi_stuck_count + check_count(events) < EOI_STUCK_LIMIT,
    ensures
        !s.after_all(events).has_eoi,
        s.after_all(events).eoi_stuck_count <= s.eoi_stuck_count + check_count(events),
        forall|i: int|
            0 <= i < events.len() ==> !s.after_all(#[trigger] events.take(i)).releases(events[i]),
    decreases events.len(),
{
    if events.len() > 0 {
        let before = events.drop_last();
        assert(forall|i: int| 0 <= i < before.len() ==> before[i] == events[i]);
        lemma_no_release(s, before);
        assert(events.take(events.len() - 1) =~= before);
        assert(!(events[events.len() - 1] is Eoi));
        assert forall|i: int| 0 <= i < events.len() implies !s.after_all(
            #[trigger] events.take(i),
        ).releases(events[i]) by {
            if i < before.len() {
                assert(before.take(i) =~= events.take(i));
            }
        }
    }
}

/// While an EOI is owed and none comes, no second interrupt goes in before the number of checks
/// reaches the limit of the watchdog.
pub proof fn law_no_interrupt_before_limit(s: PendingState, events: Seq<PendingEvent>)
    requires
        !s.has_eoi,
        forall|i: int| 0 <= i < events.len() ==> !(#[trigger] events[i] is Eoi),
        s.eoi_stuck_count + check_count(events) < EOI_STUCK_LIMIT,
    ensures
        !s.after_all(events).has_eoi,
        forall|i: int|
            0 <= i < events.len() ==> !s.after_all(#[trigger] events.take(i)).injects_interrupt(
                events[i],
            ),
{
    lemma_no_release(s, events);
    law_one_interrupt_in_flight(s, events);
}

/// Without repeats a queue that holds no vector twice never comes to hold one twice.
pub proof fn law_queue_stays_distinct(s: PendingState, vector: u8, err_code: Option<u32>)
    requires
        s.queue.no_duplicates(),
    ensures
        s.added(vector, err_code, false).queue.no_duplicates(),
{
}

/// Checks, EOIs and clearing never put a vector into a queue twice either.
pub proof fn law_removal_keeps_distinct(s: PendingState, allow_interrupt: bool)
    requires
        s.queue.no_duplicates(),
    ensures
        s.checked(allow_interrupt).queue.no_duplicates(),
        s.acknowledged().queue.no_duplicates(),
        s.cleared().queue.no_duplicates(),
{
}

/// After a request the vector is pending, whether it was added or dropped as a duplicate, and
/// what was pending before is pending in the same place.
pub proof fn law_request_is_pending(
    s: PendingState,
    vector: u8,
    err_code: Option<u32>,
    allow_repeat: bool,
)
    ensures
        s.added(vector, err_code, allow_repeat).is_pending(vector, err_code),
        s.queue.is_prefix_of(s.added(vector, err_code, allow_repeat).queue),
{
    let t = s.added(vector, err_code, allow_repeat);
    if s.accepts(vector, err_code, allow_repeat) {
        assert(t.queue[s.queue.len() as int] == (vector, err_code));
    }
}

/// A hardware interrupt is injected only while the guest takes interrupts and owes no EOI, and
/// from then on an EOI is owed. An exception goes in at once and leaves the EOI state alone.
pub proof fn law_injection_needs_eoi(s: PendingState, allow_interrupt: bool)
    ensures
        s.check_action(allow_interrupt) matches PendingAction::Inject { vector, .. } ==> {
            if vector < FIRST_INTERRUPT_VECTOR {
                s.checked(allow_interrupt).has_eoi == s.has_eoi
            } else {
                &&& allow_interrupt
                &&& s.has_eoi
                &&& !s.checked(allow_interrupt).has_eoi
            }
        },
        s.queue.len() > 0 && s.queue[0].0 < FIRST_INTERRUPT_VECTOR ==> s.check_action(
            allow_interrupt,
        ) is Inject,
{
}

/// While an EOI is owed no check injects a hardware interrupt, until the watchdog discards the
/// vector in front: of the checks that find an interrupt in front, those below the limit leave the
/// queue as it is and are counted, and the one that reaches the limit drops the front and lets the
/// next interrupt through.
pub proof fn law_stuck_eoi_watchdog(s: PendingState, allowed: Seq<bool>)
    requires
        s.queue.len() > 0,
        s.queue[0].0 >= FIRST_INTERRUPT_VECTOR,
        !s.has_eoi,
        s.wf(),
        s.eoi_stuck_count + allowed.len() <= EOI_STUCK_LIMIT,
    ensures
        s.eoi_stuck_count + allowed.len() < EOI_STUCK_LIMIT ==> s.checked_all(allowed) == (
        PendingState { eoi_stuck_count: (s.eoi_stuck_count + allowed.len()) as u64, ..s }),
        s.eoi_stuck_count + allowed.len() == EOI_STUCK_LIMIT ==> s.checked_all(allowed) == (
        PendingState { queue: s.queue.drop_first(), has_eoi: true, eoi_stuck_count: 0, ..s }),
    decreases allowed.len(),
{
    if allowed.len() > 0 {
        law_stuck_eoi_watchdog(s, allowed.drop_last());
    }
}

/// Vectors are delivered in the order in which they were queued: when the guest takes a vector
/// and acknowledges it in every round, round `n` injects the vector that stood at place `n`.
pub proof fn law_fifo_delivery(s: PendingState, n: nat)
    requires
        s.has_eoi,
        n < s.queue.len(),
    ensures
        s.delivered(n).check_action(true) == (PendingAction::Inject {
            vector: s.queue[n as int].0,
            err_code: s.queue[n as int].1,
        }),
        s.delivered(n + 1).queue == s.queue.skip(n as int + 1),
{
    lemma_delivered(s, n);
    lemma_delivered(s, n + 1);
}

proof fn lemma_delivered(s: PendingState, n: nat)
    requires
        s.has_eoi,
        n <= s.queue.len(),
    ensures
        s.delivered(n).queue == s.queue.skip(n as int),
        s.delivered(n).has_eoi,
    decreases n,
{
    if n > 0 {
        lemma_delivered(s, (n - 1) as nat);
        assert(s.queue.skip(n - 1).drop_first() =~= s.queue.skip(n as int));
    } else {
        assert(s.queue.skip(0) =~= s.queue);
    }
}

/// What a check does, by its outcome. It is idle only where nothing is pending. The vector in front
/// goes in when it is an exception, or when the guest takes interrupts and owes no EOI; then it,
/// and nothing else, leaves the queue, and an interrupt leaves an EOI owed. Where it has to wait,
/// the window is opened and the queue stays, and only a check that waits for an EOI is counted. The
/// check that would be number 5000 in a row discards the vector and lets the next interrupt go in.
pub proof fn law_check(
    pending: &mut InnerPendingVectors,
    allow_interrupt: bool,
    action: PendingAction,
)
    requires
        call_ensures(InnerPendingVectors::check, (pending, allow_interrupt), action),
        old(pending)@.eoi_stuck_count < 5000,
    ensures
        ({
            let s = old(pending)@;
            let t = final(pending)@;
            &&& action is Idle <==> s.queue.len() == 0
            &&& action is Idle ==> t == s
            &&& s.queue.len() > 0 ==> {
                let (front, err) = s.queue[0];
                &&& action is Inject <==> front < 32 || (allow_interrupt && s.has_eoi)
                &&& action is Discard <==> front >= 32 && !s.has_eoi && s.eoi_stuck_count == 4999
                &&& action matches PendingAction::Inject { vector, err_code } ==> {
                    &&& vector == front && err_code == err
                    &&& t.queue == s.queue.skip(1)
                    &&& t.has_eoi <==> front < 32 && s.has_eoi
                    &&& t.eoi_stuck_count == 0
                }
                &&& action is OpenWindow ==> {
                    &&& t.queue == s.queue
                    &&& t.has_eoi == s.has_eoi
                    &&& s.has_eoi ==> t == s
                    &&& !s.has_eoi ==> t.eoi_stuck_count == s.eoi_stuck_count + 1
                }
                &&& action matches PendingAction::Discard { vector, checks, remaining } ==> {
                    &&& vector == front
                    &&& checks == 5000
                    &&& s.queue.len() <= usize::MAX ==> remaining == s.queue.len() - 1
                    &&& t.queue == s.queue.skip(1)
                    &&& t.has_eoi
                    &&& t.eoi_stuck_count == 0
                }
            }
            &&& t.eoi_count == s.eoi_count
            &&& t.eoi_stuck_count < 5000
        }),
{
    let s = old(pending)@;
    if s.queue.len() > 0 {
        assert(s.queue.drop_first() =~= s.queue.skip(1));
    }
}

/// A vector in front that is an interrupt and finds the guest's interrupts disabled is waited for:
/// the window is opened, and nothing changes as long as no EOI is owed, however often it is checked
/// and whatever else is queued behind it.
pub proof fn law_closed_window_is_waited_for(
    pending: &mut InnerPendingVectors,
    action: PendingAction,
)
    requires
        call_ensures(InnerPendingVectors::check, (pending, false), action),
        old(pending)@.queue.len() > 0,
        old(pending)@.queue[0].0 >= 32,
        old(pending)@.has_eoi,
    ensures
        action == PendingAction::OpenWindow,
        final(pending)@ == old(pending)@,
{
}

/// What an EOI does: the next interrupt may go in, the watchdog starts over, the EOI is counted and
/// the queue stays. The first EOI is reported, and so is one that ends more than 100 checks of
/// waiting.
pub proof fn law_acknowledge(pending: &mut InnerPendingVectors, report: EoiReport)
    requires
        call_ensures(InnerPendingVectors::acknowledge, (pending,), report),
    ensures
        ({
            let s = old(pending)@;
            let t = final(pending)@;
            &&& t.queue == s.queue
            &&& t.has_eoi
            &&& t.eoi_stuck_count == 0
            &&& s.eoi_count < u64::MAX ==> t.eoi_count == s.eoi_count + 1
            &&& s.eoi_count == u64::MAX ==> t.eoi_count == 0
            &&& report is First <==> s.eoi_count == 0
            &&& report is Recovered <==> s.eoi_count > 0 && s.eoi_stuck_count > 100
            &&& report matches EoiReport::Recovered { total } ==> total == t.eoi_count
        }),
{
}

/// What a request does: the vector joins the end of the queue unless it is there already and
/// repeats are not wanted, and nothing else changes.
pub proof fn law_add(
    pending: &mut InnerPendingVectors,
    vector: u8,
    err_code: Option<u32>,
    allow_repeat: bool,
    added: bool,
)
    requires
        call_ensures(InnerPendingVectors::add, (pending, vector, err_code, allow_repeat), added),
    ensures
        ({
            let s = old(pending)@;
            let t = final(pending)@;
            let duplicate = exists|i: int|
                0 <= i < s.queue.len() && #[trigger] s.queue[i] == (vector, err_code);
            &&& added <==> allow_repeat || !duplicate
            &&& added ==> t.queue == s.queue.push((vector, err_code))
            &&& !added ==> t.queue == s.queue
            &&& t.has_eoi == s.has_eoi
            &&& t.eoi_stuck_count == s.eoi_stuck_count
            &&& t.eoi_count == s.eoi_count
        }),
{
}

/// Every CPU starts with an empty queue that owes no EOI; the number of CPUs and the number of
/// vectors that are pending for one of them can be asked for.
pub proof fn law_pending_vectors_new(
    pending: PendingVectors,
    max_cpus: usize,
    count: usize,
    cpu_id: usize,
    len: usize,
)
    requires
        call_ensures(PendingVectors::new, (max_cpus,), pending),
        call_ensures(PendingVectors::cpu_count, (&pending,), count),
        call_ensures(PendingVectors::queue_len, (&pending, cpu_id), len),
        cpu_id < max_cpus,
    ensures
        count == max_cpus,
        len == 0,
        pending@[cpu_id as int].has_eoi,
        pending@[cpu_id as int].eoi_stuck_count == 0,
        pending@[cpu_id as int].eoi_count == 0,
{
}

/// A request makes the queue of its CPU longer by one exactly when it is told to have joined, and
/// no other queue.
pub proof fn law_queue_len_counts_requests(
    pending: &mut PendingVectors,
    cpu_id: usize,
    vector: u8,
    err_code: Option<u32>,
    allow_repeat: bool,
    added: bool,
    other: usize,
    before: usize,
    after: usize,
)
    requires
        call_ensures(
            PendingVectors::add_vector,
            (pending, cpu_id, vector, err_code, allow_repeat),
            added,
        ),
        call_ensures(PendingVectors::queue_len, (&*old(pending), other), before),
        call_ensures(PendingVectors::queue_len, (&*final(pending), other), after),
        cpu_id < old(pending)@.len(),
        other < old(pending)@.len(),
    ensures
        after == before + if added && other == cpu_id {
            1int
        } else {
            0int
        },
        allow_repeat || before == 0 && other == cpu_id ==> added,
{
}

} // verus!
