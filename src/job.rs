use vstd::prelude::*;
use crate::error::ConvertError;
use crate::format::{execution_mode, execution_mode_spec};
use crate::governor::{memory_budget, Governor, Permit};
use crate::progress::{lemma_progress_bounded, lemma_progress_monotone, progress_hundredths, progress_spec, PROGRESS_FULL};

verus! {

/// How the items of a job are executed.
#[derive(Clone, Copy, Debug, PartialEq, Eq, Structural)]
pub enum Mode {
    /// One item at a time, in submission order.
    Sequential,
    /// Items run concurrently under the governor's two gates.
    Parallel,
}

/// Where one item stands in a job.
#[derive(Clone, Copy, Debug, PartialEq, Eq, Structural)]
pub enum ItemStage {
    Waiting,
    Running,
    Finished,
}

/// What the driver of a job is to do next.
#[derive(Clone, Copy, Debug, PartialEq, Eq, Structural)]
pub enum Action {
    /// Start the item at this index: its permit is held.
    Dispatch(usize),
    /// Wait for a running item to finish.
    Wait,
    /// Nothing runs and nothing more will start: call `finish`.
    Done,
}

/// A converted item: its output filename and bytes.
pub type Entry = (String, Vec<u8>);

/// What a job is, seen from outside: the items' sizes and stages, the entries
/// received, the governor's bounds and usage, and the cancellation, failure
/// and progress records.
pub struct JobView {
    pub mode: Mode,
    pub sizes: Seq<u64>,
    pub stages: Seq<ItemStage>,
    pub outputs: Seq<Option<Entry>>,
    pub next: nat,
    pub running: nat,
    pub completed: nat,
    pub slot_bound: nat,
    pub memory_bound: nat,
    pub slots_in_use: nat,
    pub memory_in_use: nat,
    pub cancel_requested: bool,
    pub cancel_observed: bool,
    pub failure: Option<ConvertError>,
    pub published: nat,
}

impl JobView {
    pub open spec fn len(self) -> nat {
        self.sizes.len()
    }

    /// Whether the next item in submission order may still be admitted.
    pub open spec fn may_dispatch(self) -> bool {
        &&& self.failure is None
        &&& !self.cancel_requested
        &&& !self.cancel_observed
        &&& self.next < self.len()
    }

    /// Nothing runs and nothing more will start.
    pub open spec fn is_done(self) -> bool {
        &&& self.running == 0
        &&& (self.failure is Some || self.cancel_observed || self.next == self.len())
    }

    /// The job's terminal result once it is done: the first failure, else
    /// `Cancelled` if cancellation stopped admission, else every item's entry
    /// in submission order.
    pub open spec fn outcome(self) -> Result<Seq<Entry>, ConvertError> {
        if self.failure is Some {
            Err(self.failure->Some_0)
        } else if self.cancel_observed {
            Err(ConvertError::Cancelled)
        } else {
            Ok(Seq::new(self.len(), |i: int| self.outputs[i]->Some_0))
        }
    }
}

/// Number of running items among the first `n`.
pub open spec fn running_count(stages: Seq<ItemStage>, n: nat) -> nat
    decreases n,
{
    if n == 0 {
        0
    } else {
        running_count(stages, (n - 1) as nat) + if stages[n - 1] is Running { 1nat } else { 0nat }
    }
}

/// Sum of the sizes of the running items among the first `n`.
pub open spec fn held_bytes(stages: Seq<ItemStage>, sizes: Seq<u64>, n: nat) -> nat
    decreases n,
{
    if n == 0 {
        0
    } else {
        held_bytes(stages, sizes, (n - 1) as nat) + if stages[n - 1] is Running {
            sizes[n - 1] as nat
        } else {
            0nat
        }
    }
}

proof fn lemma_update_stage(stages: Seq<ItemStage>, sizes: Seq<u64>, n: nat, i: int, s: ItemStage)
    requires
        0 <= i < n,
        n <= stages.len(),
        n <= sizes.len(),
    ensures
        running_count(stages.update(i, s), n) + (if stages[i] is Running { 1nat } else { 0nat })
            == running_count(stages, n) + (if s is Running { 1nat } else { 0nat }),
        held_bytes(stages.update(i, s), sizes, n) + (if stages[i] is Running { sizes[i] as nat } else { 0nat })
            == held_bytes(stages, sizes, n) + (if s is Running { sizes[i] as nat } else { 0nat }),
    decreases n,
{
    if n - 1 > i {
        lemma_update_stage(stages, sizes, (n - 1) as nat, i, s);
    } else {
        lemma_same_prefix(stages, stages.update(i, s), sizes, (n - 1) as nat);
    }
}

proof fn lemma_same_prefix(a: Seq<ItemStage>, b: Seq<ItemStage>, sizes: Seq<u64>, n: nat)
    requires
        n <= a.len(),
        n <= b.len(),
        forall|j: int| 0 <= j < n ==> a[j] == b[j],
    ensures
        running_count(a, n) == running_count(b, n),
        held_bytes(a, sizes, n) == held_bytes(b, sizes, n),
    decreases n,
{
    if n > 0 {
        lemma_same_prefix(a, b, sizes, (n - 1) as nat);
    }
}

proof fn lemma_none_running(stages: Seq<ItemStage>, sizes: Seq<u64>, n: nat)
    requires
        n <= stages.len(),
        forall|j: int| 0 <= j < n ==> !(stages[j] is Running),
    ensures
        running_count(stages, n) == 0,
        held_bytes(stages, sizes, n) == 0,
    decreases n,
{
    if n > 0 {
        lemma_none_running(stages, sizes, (n - 1) as nat);
    }
}

proof fn lemma_running_positive(stages: Seq<ItemStage>, n: nat, i: int)
    requires
        0 <= i < n,
        n <= stages.len(),
        stages[i] is Running,
    ensures
        running_count(stages, n) >= 1,
    decreases n,
{
    if i < n - 1 {
        lemma_running_positive(stages, (n - 1) as nat, i);
    }
}

/// The coordinator of one conversion job: it admits items through the
/// governor, records what each item returned, and decides the job's result.
/// It performs no work itself: its driver runs each dispatched item and
/// reports back with `on_item_finished`.
pub struct Job {
    mode: Mode,
    sizes: Vec<u64>,
    stages: Vec<ItemStage>,
    outputs: Vec<Option<Entry>>,
    permits: Vec<Option<Permit>>,
    next: usize,
    running: usize,
    completed: usize,
    governor: Governor,
    cancel_requested: bool,
    cancel_observed: bool,
    failure: Option<ConvertError>,
    published: u32,
}

impl View for Job {
    type V = JobView;

    closed spec fn view(&self) -> JobView {
        JobView {
            mode: self.mode,
            sizes: self.sizes@,
            stages: self.stages@,
            outputs: self.outputs@,
            next: self.next as nat,
            running: self.running as nat,
            completed: self.completed as nat,
            slot_bound: self.governor.slot_bound_spec(),
            memory_bound: self.governor.memory_bound_spec(),
            slots_in_use: self.governor.slots_in_use_spec(),
            memory_in_use: self.governor.memory_in_use_spec(),
            cancel_requested: self.cancel_requested,
            cancel_observed: self.cancel_observed,
            failure: self.failure,
            published: self.published as nat,
        }
    }
}

/// What a well-formed job's state says, seen from outside.
pub open spec fn job_inv(v: JobView) -> bool {
    let n = v.len();
    &&& v.stages.len() == n
    &&& v.outputs.len() == n
    &&& v.next <= n
    &&& forall|i: int| 0 <= i < n ==> (i < v.next <==> !(#[trigger] v.stages[i] is Waiting))
    &&& v.running == running_count(v.stages, n)
    &&& v.slots_in_use == v.running
    &&& v.memory_in_use == held_bytes(v.stages, v.sizes, n)
    &&& v.slots_in_use <= v.slot_bound
    &&& v.memory_in_use <= v.memory_bound
    &&& v.slot_bound >= 1
    &&& (v.mode == Mode::Sequential ==> v.slot_bound == 1)
    &&& v.completed + v.running <= v.next
    &&& v.published == progress_spec(v.completed, n)
    &&& forall|i: int| 0 <= i < n && (#[trigger] v.outputs[i]) is Some ==> v.stages[i] is Finished
    &&& v.failure is None ==> {
        &&& v.completed + v.running == v.next
        &&& forall|i: int| 0 <= i < n && (#[trigger] v.stages[i]) is Finished ==> v.outputs[i] is Some
    }
    &&& v.cancel_observed ==> v.cancel_requested
    &&& forall|i: int| 0 <= i < n && !(#[trigger] v.stages[i] is Waiting) ==> v.sizes[i] as nat <= v.memory_bound
    &&& v.mode == Mode::Sequential ==> forall|i: int| 0 <= i < v.next - 1 ==> #[trigger] v.stages[i] is Finished
}

/// The contract of `next_action`: how one decision step changes a job.
pub open spec fn next_action_spec(pre: JobView, post: JobView, a: Action) -> bool {
    &&& post.mode == pre.mode
    &&& post.sizes == pre.sizes
    &&& post.completed == pre.completed
    &&& post.published == pre.published
    &&& post.outputs == pre.outputs
    &&& post.cancel_requested == pre.cancel_requested
    &&& post.slot_bound == pre.slot_bound
    &&& post.memory_bound == pre.memory_bound
    &&& (a matches Action::Dispatch(i) ==> {
        &&& pre.may_dispatch()
        &&& i == pre.next
        &&& post.next == pre.next + 1
        &&& post.stages == pre.stages.update(i as int, ItemStage::Running)
        &&& post.running == pre.running + 1
        &&& post.failure == pre.failure
        &&& post.cancel_observed == pre.cancel_observed
    })
    &&& (!(a is Dispatch) ==> {
        &&& post.next == pre.next
        &&& post.stages == pre.stages
        &&& post.running == pre.running
        &&& post.slots_in_use == pre.slots_in_use
        &&& post.memory_in_use == pre.memory_in_use
    })
    &&& (pre.may_dispatch() && pre.sizes[pre.next as int] as nat <= pre.memory_bound
        && pre.running == 0 ==> a is Dispatch)
    &&& (pre.may_dispatch() && pre.slots_in_use < pre.slot_bound
        && pre.memory_in_use + pre.sizes[pre.next as int] <= pre.memory_bound ==> a is Dispatch)
    &&& (a is Dispatch ==> pre.slots_in_use < pre.slot_bound
        && pre.memory_in_use + pre.sizes[pre.next as int] <= pre.memory_bound
        && post.slots_in_use == pre.slots_in_use + 1
        && post.memory_in_use == pre.memory_in_use + pre.sizes[pre.next as int])
    &&& (pre.may_dispatch() && pre.sizes[pre.next as int] as nat > pre.memory_bound
        ==> !(a is Dispatch) && post.failure == Some(ConvertError::ItemTooLarge))
    &&& (!(pre.may_dispatch() && pre.sizes[pre.next as int] as nat > pre.memory_bound)
        ==> post.failure == pre.failure)
    &&& (pre.cancel_requested && pre.failure is None && (pre.next < pre.len() || pre.len() == 0)
        ==> post.cancel_observed)
    &&& (!(pre.cancel_requested && pre.failure is None && (pre.next < pre.len() || pre.len() == 0))
        ==> post.cancel_observed == pre.cancel_observed)
    &&& (a is Wait ==> post.running > 0)
    &&& (a is Done <==> post.is_done())
}

impl Job {
    pub closed spec fn wf(&self) -> bool {
        &&& job_inv(self@)
        &&& self.permits@.len() == self.sizes@.len()
        &&& forall|i: int| 0 <= i < self.sizes@.len() ==> (#[trigger] self.stages@[i] is Running <==> self.permits@[i] is Some)
        &&& forall|i: int| 0 <= i < self.sizes@.len() && (#[trigger] self.permits@[i]) is Some
            ==> self.permits@[i]->Some_0.bytes_spec() == self.sizes@[i] as nat
        &&& self.governor.wf()
        &&& self.sizes@.len() < usize::MAX
    }

    /// A job over items of the given raw sizes. A sequential job has one slot
    /// and no memory limit; a parallel one has `concurrency` slots and room for
    /// `max_bytes_per_item` bytes in each.
    pub fn new(sizes: Vec<u64>, mode: Mode, concurrency: usize, max_bytes_per_item: u64) -> (r: Self)
        requires
            concurrency >= 1,
            sizes@.len() < usize::MAX,
        ensures
            r.wf(),
            job_inv(r@),
            r@.mode == mode,
            r@.sizes == sizes@,
            r@.next == 0,
            r@.running == 0,
            r@.completed == 0,
            r@.failure is None,
            !r@.cancel_requested,
            !r@.cancel_observed,
            r@.published == progress_spec(0, sizes@.len()),
            r@.slots_in_use == 0,
            r@.memory_in_use == 0,
            mode == Mode::Sequential ==> r@.slot_bound == 1 && r@.memory_bound == u64::MAX,
            mode == Mode::Parallel ==> r@.slot_bound == concurrency
                && r@.memory_bound == memory_budget(concurrency as nat, max_bytes_per_item as nat),
            forall|i: int| 0 <= i < sizes@.len() ==> #[trigger] r@.stages[i] == ItemStage::Waiting,
            forall|i: int| 0 <= i < sizes@.len() ==> #[trigger] r@.outputs[i] is None,
    {
        let n = sizes.len();
        let governor = match mode {
            Mode::Sequential => Governor::new(1, u64::MAX),
            Mode::Parallel => Governor::new(concurrency, max_bytes_per_item),
        };
        let mut stages: Vec<ItemStage> = Vec::new();
        let mut outputs: Vec<Option<Entry>> = Vec::new();
        let mut permits: Vec<Option<Permit>> = Vec::new();
        let mut i: usize = 0;
        while i < n
            invariant
                i <= n,
                n == sizes@.len(),
                stages@.len() == i,
                outputs@.len() == i,
                permits@.len() == i,
                forall|j: int| 0 <= j < i ==> #[trigger] stages@[j] == ItemStage::Waiting,
                forall|j: int| 0 <= j < i ==> #[trigger] outputs@[j] is None,
                forall|j: int| 0 <= j < i ==> #[trigger] permits@[j] is None,
            decreases n - i,
        {
            stages.push(ItemStage::Waiting);
            outputs.push(None);
            permits.push(None);
            i = i + 1;
        }
        proof {
            lemma_none_running(stages@, sizes@, n as nat);
        }
        let published = progress_hundredths(0, n);
        Job {
            mode,
            sizes,
            stages,
            outputs,
            permits,
            next: 0,
            running: 0,
            completed: 0,
            governor,
            cancel_requested: false,
            cancel_observed: false,
            failure: None,
            published,
        }
    }

    pub fn len(&self) -> (r: usize)
        ensures
            r == self@.len(),
    {
        self.sizes.len()
    }

    pub fn mode(&self) -> (r: Mode)
        ensures
            r == self@.mode,
    {
        self.mode
    }

    /// The last progress value reached, in hundredths of a percent.
    pub fn published(&self) -> (r: u32)
        ensures
            r == self@.published,
    {
        self.published
    }

    /// Sets the cancellation flag. Calling it again, or after the job is done,
    /// changes nothing more.
    pub fn request_cancel(&mut self)
        requires
            old(self).wf(),
        ensures
            final(self).wf(),
            job_inv(final(self)@),
            final(self)@ == (JobView { cancel_requested: true, ..old(self)@ }),
    {
        self.cancel_requested = true;
    }

    pub fn is_done(&self) -> (r: bool)
        requires
            self.wf(),
        ensures
            r == self@.is_done(),
    {
        self.running == 0 && (self.failure.is_some() || self.cancel_observed || self.next == self.sizes.len())
    }
    /// Decides the next step. The next item in submission order is admitted
    /// when no failure has been recorded, cancellation has not been requested,
    /// and the governor's gates admit its size; an item larger than the whole
    /// memory budget is rejected with `ItemTooLarge`. A requested cancellation
    /// is observed here, and stops all further admission.
    pub fn next_action(&mut self) -> (a: Action)
        requires
            old(self).wf(),
        ensures
            final(self).wf(),
            job_inv(final(self)@),
            next_action_spec(old(self)@, final(self)@, a),
    {
        let n = self.sizes.len();
        if self.failure.is_some() || self.cancel_observed {
            return if self.running == 0 { Action::Done } else { Action::Wait };
        }
        if self.cancel_requested && (self.next < n || n == 0) {
            self.cancel_observed = true;
            return if self.running == 0 { Action::Done } else { Action::Wait };
        }
        if self.next == n {
            return if self.running == 0 { Action::Done } else { Action::Wait };
        }
        let i = self.next;
        let bytes = self.sizes[i];
        if bytes > self.governor.memory_bound() {
            self.failure = Some(ConvertError::ItemTooLarge);
            return if self.running == 0 { Action::Done } else { Action::Wait };
        }
        proof {
            if self.running == 0 {
                assert forall|j: int| 0 <= j < n implies !(#[trigger] self.stages@[j] is Running) by {
                    if self.stages@[j] is Running {
                        lemma_running_positive(self.stages@, n as nat, j);
                    }
                }
                lemma_none_running(self.stages@, self.sizes@, n as nat);
            }
        }
        match self.governor.try_acquire(bytes) {
            Some(permit) => {
                proof {
                    lemma_update_stage(self.stages@, self.sizes@, n as nat, i as int, ItemStage::Running);
                }
                self.stages[i] = ItemStage::Running;
                self.permits[i] = Some(permit);
                self.running = self.running + 1;
                self.next = i + 1;
                Action::Dispatch(i)
            },
            None => Action::Wait,
        }
    }

    /// Records what the running item at `index` returned and releases its
    /// permit. A converted item raises the completed count and returns the
    /// progress to publish; a failure is kept if it is the first.
    pub fn on_item_finished(&mut self, index: usize, outcome: Result<Entry, ConvertError>) -> (r: Option<u32>)
        requires
            old(self).wf(),
            index < old(self)@.len(),
            old(self)@.stages[index as int] is Running,
        ensures
            final(self).wf(),
            job_inv(final(self)@),
            final(self)@ == (JobView {
                stages: old(self)@.stages.update(index as int, ItemStage::Finished),
                running: (old(self)@.running - 1) as nat,
                slots_in_use: final(self)@.slots_in_use,
                memory_in_use: final(self)@.memory_in_use,
                outputs: final(self)@.outputs,
                completed: final(self)@.completed,
                failure: final(self)@.failure,
                published: final(self)@.published,
                ..old(self)@
            }),
            outcome matches Ok(e) ==> {
                &&& final(self)@.outputs == old(self)@.outputs.update(index as int, Some(e))
                &&& final(self)@.completed == old(self)@.completed + 1
                &&& final(self)@.failure == old(self)@.failure
                &&& r == Some(final(self)@.published as u32)
            },
            outcome matches Err(e) ==> {
                &&& final(self)@.outputs == old(self)@.outputs
                &&& final(self)@.completed == old(self)@.completed
                &&& final(self)@.failure == if old(self)@.failure is None { Some(e) } else { old(self)@.failure }
                &&& r is None
                &&& final(self)@.published == old(self)@.published
            },
            old(self)@.published <= final(self)@.published <= PROGRESS_FULL,
    {
        let n = self.sizes.len();
        proof {
            lemma_update_stage(self.stages@, self.sizes@, n as nat, index as int, ItemStage::Finished);
        }
        let mut slot: Option<Permit> = None;
        std::mem::swap(&mut self.permits[index], &mut slot);
        match slot {
            Some(permit) => self.governor.release(permit),
            None => {},
        }
        self.stages[index] = ItemStage::Finished;
        self.running = self.running - 1;
        proof {
            lemma_progress_bounded(self.completed as nat, n as nat);
        }
        match outcome {
            Ok(entry) => {
                self.outputs[index] = Some(entry);
                self.completed = self.completed + 1;
                proof {
                    lemma_progress_monotone((self.completed - 1) as nat, self.completed as nat, n as nat);
                    lemma_progress_bounded(self.completed as nat, n as nat);
                }
                self.published = progress_hundredths(self.completed, n);
                Some(self.published)
            },
            Err(e) => {
                if self.failure.is_none() {
                    self.failure = Some(e);
                }
                None
            },
        }
    }

    /// The job's result once it is done: its first failure, else `Cancelled`
    /// if cancellation stopped admission, else the entry of every item in
    /// submission order.
    pub fn finish(self) -> (r: Result<Vec<Entry>, ConvertError>)
        requires
            self.wf(),
            self@.is_done(),
        ensures
            r matches Ok(v) ==> self@.outcome() == Ok::<Seq<Entry>, ConvertError>(v@),
            r matches Err(e) ==> self@.outcome() == Err::<Seq<Entry>, ConvertError>(e),
    {
        let ghost v = self@;
        if let Some(e) = self.failure {
            return Err(e);
        }
        if self.cancel_observed {
            return Err(ConvertError::Cancelled);
        }
        let n = self.sizes.len();
        let mut outputs = self.outputs;
        let mut entries: Vec<Entry> = Vec::new();
        proof {
            assert forall|i: int| 0 <= i < n implies #[trigger] v.outputs[i] is Some by {
                assert(!(v.stages[i] is Waiting));
                if v.stages[i] is Running {
                    lemma_running_positive(v.stages, n as nat, i);
                }
            }
        }
        let mut i: usize = 0;
        while i < n
            invariant
                i <= n,
                n == v.outputs.len(),
                outputs@.len() == n,
                entries@.len() == i,
                forall|j: int| i <= j < n ==> #[trigger] outputs@[j] == v.outputs[j],
                forall|j: int| 0 <= j < n ==> #[trigger] v.outputs[j] is Some,
                forall|j: int| 0 <= j < i ==> #[trigger] entries@[j] == v.outputs[j]->Some_0,
            decreases n - i,
        {
            let mut slot: Option<Entry> = None;
            std::mem::swap(&mut outputs[i], &mut slot);
            match slot {
                Some(entry) => entries.push(entry),
                None => {
                    assert(false);
                },
            }
            i = i + 1;
        }
        assert(entries@ =~= Seq::new(v.len(), |i: int| v.outputs[i]->Some_0));
        Ok(entries)
    }
}

/// The most bytes that one item is expected to take: the memory gate holds
/// this much for each concurrency slot.
pub const MAX_MEMORY_PER_FILE: u64 = 50_108_864;

/// The number of workers for `total` items on a machine with `physical` cores:
/// at least two, no more than the cores when there are more than two, and
/// never more than the items.
pub open spec fn worker_count_spec(total: nat, physical: nat) -> nat {
    let wanted = if physical > 2 { physical } else { 2 };
    if total < wanted { total } else { wanted }
}

pub fn worker_count(total: usize, physical: usize) -> (r: usize)
    ensures
        r == worker_count_spec(total as nat, physical as nat),
{
    let wanted = if physical > 2 { physical } else { 2 };
    if total < wanted { total } else { wanted }
}

/// Relies on `num_cpus::get_physical`: the number of physical cores, which
/// depends on the machine.
#[verifier::external_body]
fn physical_cores() -> (r: usize) {
    num_cpus::get_physical()
}

/// The raw sizes of the uploaded files, in order.
pub fn item_sizes(files: &Vec<Entry>) -> (r: Vec<u64>)
    ensures
        r@.len() == files@.len(),
        forall|i: int| 0 <= i < files@.len() ==> #[trigger] r@[i] as nat == files@[i].1@.len(),
{
    let mut sizes: Vec<u64> = Vec::new();
    let mut i: usize = 0;
    while i < files.len()
        invariant
            i <= files@.len(),
            sizes@.len() == i,
            forall|j: int| 0 <= j < i ==> #[trigger] sizes@[j] as nat == files@[j].1@.len(),
        decreases files@.len() - i,
    {
        sizes.push(files[i].1.len() as u64);
        i = i + 1;
    }
    sizes
}

impl Job {
    /// The job for items of these sizes converted to the format named
    /// `format` on a machine with `physical` cores: sequential for a
    /// sequential-only format, otherwise parallel with `worker_count` slots
    /// (at least one) and `MAX_MEMORY_PER_FILE` bytes for each.
    pub fn for_format_on(sizes: Vec<u64>, format: &str, physical: usize) -> (r: Self)
        requires
            sizes@.len() < usize::MAX,
        ensures
            r.wf(),
            job_inv(r@),
            r@.mode == execution_mode_spec(format@),
            r@.sizes == sizes@,
            r@.next == 0,
            r@.running == 0,
            r@.completed == 0,
            r@.failure is None,
            !r@.cancel_requested,
            !r@.cancel_observed,
            r@.slots_in_use == 0,
            r@.memory_in_use == 0,
            r@.mode == Mode::Parallel ==> {
                let w = worker_count_spec(sizes@.len(), physical as nat);
                &&& r@.slot_bound == if w == 0 { 1 } else { w }
                &&& r@.memory_bound == memory_budget(r@.slot_bound, MAX_MEMORY_PER_FILE as nat)
            },
            r@.mode == Mode::Sequential ==> r@.slot_bound == 1,
    {
        let workers = worker_count(sizes.len(), physical);
        let slots = if workers == 0 { 1 } else { workers };
        Job::new(sizes, execution_mode(format), slots, MAX_MEMORY_PER_FILE)
    }

    /// The job for items of these sizes converted to the format named
    /// `format` on this machine.
    pub fn for_format(sizes: Vec<u64>, format: &str) -> (r: Self)
        requires
            sizes@.len() < usize::MAX,
        ensures
            r.wf(),
            job_inv(r@),
            r@.mode == execution_mode_spec(format@),
            r@.sizes == sizes@,
            r@.next == 0,
            r@.running == 0,
            r@.failure is None,
            !r@.cancel_requested,
            r@.slots_in_use == 0,
            r@.memory_in_use == 0,
            r@.slot_bound >= 1,
    {
        Job::for_format_on(sizes, format, physical_cores())
    }
}

/// At every instant the outstanding concurrency permits are within the
/// concurrency bound, and the bytes of the outstanding memory permits are
/// within the memory bound: one permit is held by each running item.
pub proof fn lemma_permits_within_bounds(job: &Job)
    requires
        job.wf(),
    ensures
        job@.slots_in_use == running_count(job@.stages, job@.len()),
        job@.slots_in_use <= job@.slot_bound,
        job@.memory_in_use == held_bytes(job@.stages, job@.sizes, job@.len()),
        job@.memory_in_use <= job@.memory_bound,
{
}

/// A sequential job runs at most one item at a time, whatever concurrency was
/// asked for: the running item is the last one admitted, and every item
/// submitted before it has finished.
pub proof fn lemma_sequential_one_at_a_time(job: &Job)
    requires
        job.wf(),
        job@.mode == Mode::Sequential,
    ensures
        job@.running <= 1,
        forall|i: int| 0 <= i < job@.len() && #[trigger] job@.stages[i] is Running ==> i == job@.next - 1,
        forall|i: int| 0 <= i < job@.next - 1 ==> #[trigger] job@.stages[i] is Finished,
{
    let v = job@;
    assert forall|i: int| 0 <= i < v.len() && #[trigger] v.stages[i] is Running implies i == v.next - 1 by {
        assert(i < v.next);
        assert(!(v.stages[i] is Finished));
    }
}

/// Progress published for a job never decreases, and never passes 100%:
/// it ends at the milestone plus the whole share of the items (90%) once
/// every item has been converted.
pub proof fn lemma_progress_within_range(job: &Job)
    requires
        job.wf(),
    ensures
        job@.published <= PROGRESS_FULL,
        job@.completed == job@.len() && job@.len() > 0 ==> job@.published == 9000,
{
    lemma_progress_bounded(job@.completed, job@.len());
}

/// Cancellation requested before any item is dispatched: the next decision
/// admits nothing and ends the job, and its result is `Cancelled`, with no
/// entries.
pub proof fn lemma_cancel_before_dispatch(pre: JobView, post: JobView, a: Action)
    requires
        job_inv(pre),
        pre.next == 0,
        pre.failure is None,
        pre.cancel_requested,
        next_action_spec(pre, post, a),
    ensures
        a == Action::Done,
        post.is_done(),
        post.outcome() == Err::<Seq<Entry>, ConvertError>(ConvertError::Cancelled),
{
    assert forall|j: int| 0 <= j < pre.len() implies !(#[trigger] pre.stages[j] is Running) by {
        assert(pre.stages[j] is Waiting);
    }
    lemma_none_running(pre.stages, pre.sizes, pre.len());
}

/// An item larger than the memory budget is never admitted, so a job that
/// holds one never ends with an archive.
pub proof fn lemma_oversized_never_ok(v: JobView, i: int)
    requires
        job_inv(v),
        v.is_done(),
        0 <= i < v.len(),
        v.sizes[i] as nat > v.memory_bound,
    ensures
        v.outcome() is Err,
{
    if v.failure is None && !v.cancel_observed {
        assert(!(v.stages[i] is Waiting));
    }
}

/// A job that ends without failure and without cancellation holds an entry
/// for every item, in submission order; one failure anywhere leaves no entries.
pub proof fn lemma_all_or_nothing(v: JobView)
    requires
        job_inv(v),
        v.is_done(),
    ensures
        v.failure matches Some(e) ==> v.outcome() == Err::<Seq<Entry>, ConvertError>(e),
        v.outcome() matches Ok(entries) ==> {
            &&& entries.len() == v.len()
            &&& forall|i: int| 0 <= i < v.len() ==> v.outputs[i] == Some(#[trigger] entries[i])
        },
{
    if v.failure is None && !v.cancel_observed {
        assert forall|i: int| 0 <= i < v.len() implies #[trigger] v.outputs[i] is Some by {
            assert(!(v.stages[i] is Waiting));
            if v.stages[i] is Running {
                lemma_running_positive(v.stages, v.len(), i);
            }
        }
    }
}

} // verus!
