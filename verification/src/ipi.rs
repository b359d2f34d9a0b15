//! Calls from one hart to others: a one-place mailbox per hart, filled by the
//! sender and emptied by the hart that owns it.
//!
//! The functions here decide what is deposited where and whose interrupt pin
//! is raised; raising the pin, running the payload and counting completions
//! are the caller's part.

use vstd::prelude::*;
use crate::hart_mask::{HartMask, MAX_HART_COUNT};

verus! {

/// What a hart is asked to run.
#[derive(Clone, Copy, Debug, PartialEq, Eq, Structural)]
pub enum IpiFunc {
    /// Set the supervisor software interrupt pending bit.
    RaiseSupervisorSoftware,
    /// Execute `fence.i`.
    FenceI,
    /// Flush address translations: those of one page, or all.
    SfenceVma { page: Option<u64> },
    /// Flush the address translations of one address space: those of one
    /// page, or all.
    SfenceVmaAsid { page: Option<u64>, asid: u64 },
    /// Mask all interrupts and sleep for good.
    Halt,
}

/// The content of an occupied mailbox: the payload, and whether the sender
/// waits for a completion count.
#[derive(Clone, Copy, Debug, PartialEq, Eq, Structural)]
pub struct IpiData {
    pub func: IpiFunc,
    pub wait: bool,
}

/// The number of harts and the mailbox of each.
pub struct Ipi {
    count: usize,
    slots: Vec<Option<IpiData>>,
}

/// [`Ipi`] as a mathematical value.
pub struct IpiView {
    pub count: nat,
    pub slots: Seq<Option<IpiData>>,
}

impl IpiView {
    /// Whether a dispatch from hart `cur` under `mask` posts to hart `h`.
    pub open spec fn selected(self, cur: u64, mask: HartMask, h: int) -> bool {
        0 <= h < self.count && h != cur && mask.contains(h as u64)
    }

    /// The harts in `start..end` that a dispatch posts to, in rising order.
    pub open spec fn targets(self, cur: u64, mask: HartMask, start: int, end: int) -> Seq<u64>
        decreases end - start,
    {
        if start >= end {
            Seq::empty()
        } else if self.selected(cur, mask, end - 1) {
            self.targets(cur, mask, start, end - 1).push((end - 1) as u64)
        } else {
            self.targets(cur, mask, start, end - 1)
        }
    }

    /// The mailboxes after `data` has been put into those of the harts in
    /// `start..end` that the dispatch posts to.
    pub open spec fn posted(self, cur: u64, mask: HartMask, start: int, end: int, data: IpiData)
        -> Seq<Option<IpiData>> {
        Seq::new(
            self.slots.len(),
            |h: int|
                if start <= h < end && self.selected(cur, mask, h) {
                    Some(data)
                } else {
                    self.slots[h]
                },
        )
    }

    /// Whether the mailboxes of all harts in `start..end` that the dispatch
    /// posts to are empty.
    pub open spec fn all_free(self, cur: u64, mask: HartMask, start: int, end: int) -> bool {
        forall|h: int| start <= h < end && self.selected(cur, mask, h) ==> self.slots[h].is_none()
    }
}

/// How far a dispatch got.
pub struct Dispatch {
    /// The harts that were posted to, in rising order; the caller raises the
    /// software interrupt of each.
    pub kicked: Vec<u64>,
    /// The hart whose mailbox was still occupied. The caller lets interrupts in
    /// for a moment and dispatches again, starting from this hart.
    pub blocked: Option<u64>,
    /// Whether the caller is selected itself and, once nothing is blocked, runs
    /// the payload in place.
    pub run_local: bool,
}

/// Whether a hart's timer-compare register exists: both sentinels written to
/// it were read back.
pub fn hart_present(first_readback: u64, second_readback: u64) -> (r: bool)
    ensures
        r == (first_readback == 0xffff_ffff_ffff_fffe && second_readback
            == 0xffff_ffff_ffff_ffff),
{
    first_readback == 0xffff_ffff_ffff_fffe && second_readback == 0xffff_ffff_ffff_ffff
}

/// The number of harts that a probe shows: the index of the first hart after
/// hart zero that is missing, or the limit if none is.
pub open spec fn spec_probed_count(present: Seq<bool>) -> nat
    recommends
        present.len() == MAX_HART_COUNT,
{
    if !present[1] {
        1
    } else if !present[2] {
        2
    } else if !present[3] {
        3
    } else {
        4
    }
}

impl View for Ipi {
    type V = IpiView;

    closed spec fn view(&self) -> IpiView {
        IpiView { count: self.count as nat, slots: self.slots@ }
    }
}

impl Ipi {
    /// One mailbox per possible hart, and no more harts than possible.
    pub open spec fn wf(&self) -> bool {
        self@.slots.len() == MAX_HART_COUNT && self@.count <= MAX_HART_COUNT
    }

    /// No hart counted yet, every mailbox empty.
    pub fn new() -> (r: Self)
        ensures
            r.wf(),
            r@.count == 0,
            forall|h: int| 0 <= h < MAX_HART_COUNT ==> r@.slots[h].is_none(),
    {
        let mut slots: Vec<Option<IpiData>> = Vec::new();
        slots.push(None);
        slots.push(None);
        slots.push(None);
        slots.push(None);
        Ipi { count: 0, slots }
    }

    pub fn hart_count(&self) -> (r: usize)
        ensures
            r == self@.count,
    {
        self.count
    }

    /// Records the number of harts. `present[i]` says whether hart `i` answered
    /// the probe; hart zero is taken to exist, and the first missing hart ends
    /// the count.
    pub fn probe_hart_count(&mut self, present: &[bool])
        requires
            old(self).wf(),
            present@.len() == MAX_HART_COUNT,
        ensures
            final(self).wf(),
            final(self)@.count == spec_probed_count(present@),
            1 <= final(self)@.count,
            final(self)@.slots == old(self)@.slots,
    {
        let mut count: usize = 1;
        while count < 4 && present[count]
            invariant
                1 <= count <= 4,
                present@.len() == 4,
                forall|i: int| 1 <= i < count ==> present@[i],
            decreases 4 - count,
        {
            count = count + 1;
        }
        self.count = count;
    }

    /// Posts `func` to the harts that `mask` selects, other than the calling
    /// hart `cur`, beginning with hart `start`.
    ///
    /// Harts are taken in rising order. An empty mailbox is filled and its hart
    /// listed in `kicked`. The first occupied mailbox of a selected hart ends
    /// the call with that hart in `blocked`; an occupied mailbox is never
    /// overwritten. Mailboxes of other harts stay as they are.
    pub fn run_on_hart_common(
        &mut self,
        cur: u64,
        mask: HartMask,
        func: IpiFunc,
        wait: bool,
        start: usize,
    ) -> (r: Dispatch)
        requires
            old(self).wf(),
        ensures
            final(self).wf(),
            final(self)@.count == old(self)@.count,
            r.run_local == mask.contains(cur),
            match r.blocked {
                Some(b) => start <= b < old(self)@.count && old(self)@.selected(cur, mask, b as int)
                    && old(self)@.slots[b as int].is_some(),
                None => true,
            },
            ({
                let end: int = match r.blocked {
                    Some(b) => b as int,
                    None => if start <= old(self)@.count {
                        old(self)@.count as int
                    } else {
                        start as int
                    },
                };
                &&& old(self)@.all_free(cur, mask, start as int, end)
                &&& r.kicked@ == old(self)@.targets(cur, mask, start as int, end)
                &&& final(self)@.slots == old(self)@.posted(
                    cur,
                    mask,
                    start as int,
                    end,
                    IpiData { func, wait },
                )
            }),
    {
        let data = IpiData { func, wait };
        let run_local: bool = mask.is_set(cur);
        let mut kicked: Vec<u64> = Vec::new();
        let mut blocked: Option<u64> = None;
        let mut hart: usize = start;
        let ghost before = self@;
        proof {
            assert(self@.slots =~= before.posted(cur, mask, start as int, start as int, data));
        }
        while hart < self.count && blocked.is_none()
            invariant
                self.wf(),
                before.slots.len() == MAX_HART_COUNT,
                before.count <= MAX_HART_COUNT,
                self@.count == before.count,
                start <= hart,
                hart <= before.count || hart == start,
                blocked.is_some() ==> hart < before.count && blocked == Some(hart as u64)
                    && before.selected(cur, mask, hart as int) && before.slots[hart as int].is_some(),
                before.all_free(cur, mask, start as int, hart as int),
                kicked@ == before.targets(cur, mask, start as int, hart as int),
                self@.slots == before.posted(cur, mask, start as int, hart as int, data),
            decreases self.count - hart + (if blocked.is_none() { 1int } else { 0int }),
        {
            let id: u64 = hart as u64;
            if id != cur && mask.is_set(id) && self.slots[hart].is_some() {
                blocked = Some(id);
            } else {
                if id != cur && mask.is_set(id) {
                    self.slots[hart] = Some(data);
                    kicked.push(id);
                }
                proof {
                    assert(self@.slots =~= before.posted(
                        cur,
                        mask,
                        start as int,
                        hart as int + 1,
                        data,
                    ));
                }
                hart = hart + 1;
            }
        }
        Dispatch { kicked, blocked, run_local }
    }

    /// Posts `func` without asking for completion; see
    /// [`Ipi::run_on_hart_common`].
    pub fn run_on_hart(&mut self, cur: u64, mask: HartMask, func: IpiFunc, start: usize) -> (r:
        Dispatch)
        requires
            old(self).wf(),
        ensures
            final(self).wf(),
            final(self)@.count == old(self)@.count,
            r.run_local == mask.contains(cur),
            match r.blocked {
                Some(b) => start <= b < old(self)@.count && old(self)@.selected(cur, mask, b as int)
                    && old(self)@.slots[b as int].is_some(),
                None => true,
            },
            ({
                let end: int = match r.blocked {
                    Some(b) => b as int,
                    None => if start <= old(self)@.count {
                        old(self)@.count as int
                    } else {
                        start as int
                    },
                };
                &&& old(self)@.all_free(cur, mask, start as int, end)
                &&& r.kicked@ == old(self)@.targets(cur, mask, start as int, end)
                &&& final(self)@.slots == old(self)@.posted(
                    cur,
                    mask,
                    start as int,
                    end,
                    IpiData { func, wait: false },
                )
            }),
    {
        self.run_on_hart_common(cur, mask, func, false, start)
    }

    /// Posts `func` and asks each target to count its completion; the caller
    /// then spins until [`wait_done`] holds of the count. See
    /// [`Ipi::run_on_hart_common`].
    pub fn run_on_hart_wait(&mut self, cur: u64, mask: HartMask, func: IpiFunc, start: usize) -> (r:
        Dispatch)
        requires
            old(self).wf(),
        ensures
            final(self).wf(),
            final(self)@.count == old(self)@.count,
            r.run_local == mask.contains(cur),
            match r.blocked {
                Some(b) => start <= b < old(self)@.count && old(self)@.selected(cur, mask, b as int)
                    && old(self)@.slots[b as int].is_some(),
                None => true,
            },
            ({
                let end: int = match r.blocked {
                    Some(b) => b as int,
                    None => if start <= old(self)@.count {
                        old(self)@.count as int
                    } else {
                        start as int
                    },
                };
                &&& old(self)@.all_free(cur, mask, start as int, end)
                &&& r.kicked@ == old(self)@.targets(cur, mask, start as int, end)
                &&& final(self)@.slots == old(self)@.posted(
                    cur,
                    mask,
                    start as int,
                    end,
                    IpiData { func, wait: true },
                )
            }),
    {
        self.run_on_hart_common(cur, mask, func, true, start)
    }

    /// Takes what is in the mailbox of hart `cur`, leaving it empty. The caller
    /// has lowered its software interrupt before, runs the payload after, and
    /// then counts the completion if the sender waits.
    pub fn process_ipi(&mut self, cur: usize) -> (r: Option<IpiData>)
        requires
            old(self).wf(),
            cur < old(self)@.count,
        ensures
            final(self).wf(),
            final(self)@.count == old(self)@.count,
            r == old(self)@.slots[cur as int],
            final(self)@.slots == old(self)@.slots.update(cur as int, None),
    {
        let taken: Option<IpiData> = self.slots[cur];
        self.slots[cur] = None;
        taken
    }
}

/// One call while its targets serve it: the mailboxes, how often each hart
/// has run the payload, and the completion count of the caller.
pub struct Progress {
    pub slots: Seq<Option<IpiData>>,
    pub runs: Seq<nat>,
    pub completed: nat,
}

/// One for a condition that holds, zero otherwise.
pub open spec fn spec_one_if(b: bool) -> nat {
    if b {
        1
    } else {
        0
    }
}

impl Progress {
    /// Hart `h` serves its software interrupt: it takes what is in its
    /// mailbox, runs it, and counts the completion if the sender waits. With
    /// an empty mailbox nothing happens.
    pub open spec fn served(self, h: int) -> Progress {
        match self.slots[h] {
            Some(data) => Progress {
                slots: self.slots.update(h, None),
                runs: self.runs.update(h, self.runs[h] + 1),
                completed: self.completed + spec_one_if(data.wait),
            },
            None => self,
        }
    }

    /// The harts in `order` serve their software interrupts, one after the
    /// other.
    pub open spec fn after(self, order: Seq<int>) -> Progress
        decreases order.len(),
    {
        if order.len() == 0 {
            self
        } else {
            self.after(order.drop_last()).served(order.last())
        }
    }

    /// Number of occupied mailboxes.
    pub open spec fn pending(self) -> nat {
        spec_one_if(self.slots[0].is_some()) + spec_one_if(self.slots[1].is_some()) + spec_one_if(
            self.slots[2].is_some(),
        ) + spec_one_if(self.slots[3].is_some())
    }
}

impl IpiView {
    /// The call at the moment the caller begins to wait: it has posted to
    /// every target and, if it is selected itself, run the payload in place.
    pub open spec fn dispatched(self, cur: u64, mask: HartMask, data: IpiData) -> Progress {
        Progress {
            slots: self.posted(cur, mask, 0, self.count as int, data),
            runs: Seq::new(self.slots.len(), |h: int| spec_one_if(h == cur && mask.contains(cur))),
            completed: 0,
        }
    }

    /// Whether the payload of a call from `cur` under `mask` is due on hart
    /// `h`: the hart exists and the mask selects it.
    pub open spec fn due(self, mask: HartMask, h: int) -> bool {
        0 <= h < self.count && mask.contains(h as u64)
    }

    /// Number of harts that a dispatch posts to.
    pub open spec fn target_count(self, cur: u64, mask: HartMask) -> nat {
        spec_one_if(self.selected(cur, mask, 0)) + spec_one_if(self.selected(cur, mask, 1))
            + spec_one_if(self.selected(cur, mask, 2)) + spec_one_if(self.selected(cur, mask, 3))
    }

    /// What holds of a waiting call at every moment: an occupied mailbox holds
    /// the payload for a target that has not run it, an empty one belongs to
    /// a hart that has run the payload once if it is due there and never
    /// otherwise, and the completion count is the number of targets whose
    /// mailbox is empty.
    pub open spec fn on_track(self, cur: u64, mask: HartMask, data: IpiData, p: Progress) -> bool {
        &&& p.slots.len() == MAX_HART_COUNT
        &&& p.runs.len() == MAX_HART_COUNT
        &&& forall|h: int|
            0 <= h < MAX_HART_COUNT ==> match #[trigger] p.slots[h] {
                Some(d) => d == data && self.selected(cur, mask, h) && p.runs[h] == 0,
                None => p.runs[h] == spec_one_if(self.due(mask, h)),
            }
        &&& p.completed + p.pending() == self.target_count(cur, mask)
    }
}

/// The number of harts listed as targets is the number of selected harts.
pub proof fn lemma_target_count(v: IpiView, cur: u64, mask: HartMask)
    requires
        v.count <= MAX_HART_COUNT,
    ensures
        v.targets(cur, mask, 0, v.count as int).len() == v.target_count(cur, mask),
{
    let t0 = v.targets(cur, mask, 0, 0);
    let t1 = v.targets(cur, mask, 0, 1);
    let t2 = v.targets(cur, mask, 0, 2);
    let t3 = v.targets(cur, mask, 0, 3);
    let t4 = v.targets(cur, mask, 0, 4);
    assert(t0.len() == 0);
    assert(t1.len() == t0.len() + spec_one_if(v.selected(cur, mask, 0)));
    assert(t2.len() == t1.len() + spec_one_if(v.selected(cur, mask, 1)));
    assert(t3.len() == t2.len() + spec_one_if(v.selected(cur, mask, 2)));
    assert(t4.len() == t3.len() + spec_one_if(v.selected(cur, mask, 3)));
}

/// A waiting call stays on track whatever harts serve their interrupts, in
/// whatever order and however often.
pub proof fn lemma_on_track(v: IpiView, cur: u64, mask: HartMask, func: IpiFunc, order: Seq<int>)
    requires
        v.slots.len() == MAX_HART_COUNT,
        v.count <= MAX_HART_COUNT,
        cur < v.count,
        forall|h: int| 0 <= h < MAX_HART_COUNT ==> v.slots[h].is_none(),
        forall|k: int| 0 <= k < order.len() ==> 0 <= #[trigger] order[k] < MAX_HART_COUNT,
    ensures
        v.on_track(
            cur,
            mask,
            IpiData { func, wait: true },
            v.dispatched(cur, mask, IpiData { func, wait: true }).after(order),
        ),
    decreases order.len(),
{
    let data = IpiData { func, wait: true };
    let start = v.dispatched(cur, mask, data);
    if order.len() == 0 {
        assert forall|h: int| 0 <= h < MAX_HART_COUNT implies match #[trigger] start.slots[h] {
            Some(d) => d == data && v.selected(cur, mask, h) && start.runs[h] == 0,
            None => start.runs[h] == spec_one_if(v.due(mask, h)),
        } by {
            assert(start.slots[h] == if v.selected(cur, mask, h) {
                Some(data)
            } else {
                v.slots[h]
            });
        }
        assert(start.slots[0].is_some() == v.selected(cur, mask, 0));
        assert(start.slots[1].is_some() == v.selected(cur, mask, 1));
        assert(start.slots[2].is_some() == v.selected(cur, mask, 2));
        assert(start.slots[3].is_some() == v.selected(cur, mask, 3));
    } else {
        let before = start.after(order.drop_last());
        let h = order.last();
        assert(0 <= order[order.len() - 1] < MAX_HART_COUNT);
        assert forall|k: int| 0 <= k < order.drop_last().len() implies 0
            <= #[trigger] order.drop_last()[k] < MAX_HART_COUNT by {
            assert(order.drop_last()[k] == order[k]);
        }
        lemma_on_track(v, cur, mask, func, order.drop_last());
        let now = before.served(h);
        assert(before.slots[h].is_some() ==> before.slots[h] == Some(data));
        assert forall|g: int| 0 <= g < MAX_HART_COUNT implies match #[trigger] now.slots[g] {
            Some(d) => d == data && v.selected(cur, mask, g) && now.runs[g] == 0,
            None => now.runs[g] == spec_one_if(v.due(mask, g)),
        } by {
            assert(before.slots[g].is_some() ==> before.slots[g] == Some(data));
        }
        assert(now.slots[0] == if h == 0 { None } else { before.slots[0] });
        assert(now.slots[1] == if h == 1 { None } else { before.slots[1] });
        assert(now.slots[2] == if h == 2 { None } else { before.slots[2] });
        assert(now.slots[3] == if h == 3 { None } else { before.slots[3] });
    }
}

/// When a waiting call returns, the payload has run exactly once on every
/// hart that the mask selects, the caller included if it is selected, and on
/// no other hart.
///
/// The call returns when the completion count has reached the number of
/// harts posted to. Up to then the targets have served their software
/// interrupts in some order, each any number of times. The law holds of a
/// call that finds every mailbox empty and has the mailboxes to itself until
/// it returns.
pub proof fn lemma_wait_completes(
    v: IpiView,
    cur: u64,
    mask: HartMask,
    func: IpiFunc,
    order: Seq<int>,
)
    requires
        v.slots.len() == MAX_HART_COUNT,
        v.count <= MAX_HART_COUNT,
        cur < v.count,
        forall|h: int| 0 <= h < MAX_HART_COUNT ==> v.slots[h].is_none(),
        forall|k: int| 0 <= k < order.len() ==> 0 <= #[trigger] order[k] < MAX_HART_COUNT,
        v.dispatched(cur, mask, IpiData { func, wait: true }).after(order).completed == v.targets(
            cur,
            mask,
            0,
            v.count as int,
        ).len(),
    ensures
        forall|h: int|
            0 <= h < MAX_HART_COUNT ==> #[trigger] v.dispatched(
                cur,
                mask,
                IpiData { func, wait: true },
            ).after(order).runs[h] == spec_one_if(v.due(mask, h)),
        forall|h: int|
            0 <= h < MAX_HART_COUNT ==> (#[trigger] v.dispatched(
                cur,
                mask,
                IpiData { func, wait: true },
            ).after(order).slots[h]).is_none(),
{
    let end = v.dispatched(cur, mask, IpiData { func, wait: true }).after(order);
    lemma_on_track(v, cur, mask, func, order);
    lemma_target_count(v, cur, mask);
    assert(end.pending() == 0);
    assert(end.slots[0].is_none() && end.slots[1].is_none() && end.slots[2].is_none()
        && end.slots[3].is_none());
    assert forall|h: int| 0 <= h < MAX_HART_COUNT implies (#[trigger] end.slots[h]).is_none() by {
        assert(h == 0 || h == 1 || h == 2 || h == 3);
    }
}

/// A caller that waits does not return before every hart it posted to has
/// run the payload: while a mailbox of the call is occupied, the completion
/// count is below the number of harts posted to.
pub proof fn lemma_wait_not_early(
    v: IpiView,
    cur: u64,
    mask: HartMask,
    func: IpiFunc,
    order: Seq<int>,
    h: int,
)
    requires
        v.slots.len() == MAX_HART_COUNT,
        v.count <= MAX_HART_COUNT,
        cur < v.count,
        forall|g: int| 0 <= g < MAX_HART_COUNT ==> v.slots[g].is_none(),
        forall|k: int| 0 <= k < order.len() ==> 0 <= #[trigger] order[k] < MAX_HART_COUNT,
        0 <= h < MAX_HART_COUNT,
        v.dispatched(cur, mask, IpiData { func, wait: true }).after(order).slots[h].is_some(),
    ensures
        v.dispatched(cur, mask, IpiData { func, wait: true }).after(order).completed < v.targets(
            cur,
            mask,
            0,
            v.count as int,
        ).len(),
{
    lemma_on_track(v, cur, mask, func, order);
    lemma_target_count(v, cur, mask);
}

/// Offset of the software interrupt pin of `hart` in the core-local
/// interruptor, and the word to write there: four bytes for each hart, one
/// to raise the pin and zero to lower it.
pub fn msip_write(hart_id: u64, value: bool) -> (r: (u64, u32))
    requires
        hart_id < MAX_HART_COUNT,
    ensures
        r.0 == hart_id * 4,
        r.1 == if value {
            1u32
        } else {
            0u32
        },
{
    (hart_id * 4, if value {
        1
    } else {
        0
    })
}

/// Whether a waiting sender may go on: every hart it posted to has counted
/// its completion.
pub fn wait_done(completed: u32, posted: u32) -> (r: bool)
    ensures
        r == (completed == posted),
{
    completed == posted
}

/// The harts a dispatch posts to are listed in strictly rising order, each
/// selected hart of the range once and no other.
pub proof fn lemma_targets(v: IpiView, cur: u64, mask: HartMask, start: int, end: int)
    requires
        0 <= start,
        v.count <= MAX_HART_COUNT,
    ensures
        forall|i: int, j: int|
            0 <= i < j < v.targets(cur, mask, start, end).len() ==> v.targets(
                cur,
                mask,
                start,
                end,
            )[i] < v.targets(cur, mask, start, end)[j],
        forall|i: int|
            0 <= i < v.targets(cur, mask, start, end).len() ==> start <= v.targets(
                cur,
                mask,
                start,
                end,
            )[i] < end && v.selected(cur, mask, v.targets(cur, mask, start, end)[i] as int),
        forall|h: int|
            start <= h < end && v.selected(cur, mask, h) ==> v.targets(
                cur,
                mask,
                start,
                end,
            ).contains(h as u64),
    decreases end - start,
{
    if start < end {
        lemma_targets(v, cur, mask, start, end - 1);
        let prev = v.targets(cur, mask, start, end - 1);
        let all = v.targets(cur, mask, start, end);
        if v.selected(cur, mask, end - 1) {
            assert(end - 1 < 4);
            assert(all == prev.push((end - 1) as u64));
            assert forall|i: int| 0 <= i < all.len() implies start <= all[i] < end && v.selected(
                cur,
                mask,
                all[i] as int,
            ) by {
                if i < prev.len() {
                    assert(all[i] == prev[i]);
                }
            }
            assert forall|i: int, j: int| 0 <= i < j < all.len() implies all[i] < all[j] by {
                assert(all[i] == prev[i]);
                if j < prev.len() {
                    assert(all[j] == prev[j]);
                }
            }
            assert(all[prev.len() as int] == (end - 1) as u64);
            assert forall|h: int| start <= h < end && v.selected(cur, mask, h) implies all.contains(
                h as u64,
            ) by {
                if h < end - 1 {
                    assert(prev.contains(h as u64));
                    let i = choose|i: int| 0 <= i < prev.len() && prev[i] == h as u64;
                    assert(all[i] == h as u64);
                } else {
                    assert(all[prev.len() as int] == h as u64);
                }
            }
        }
    }
}

/// A dispatch that finds the mailboxes of its targets empty leaves the
/// payload in the mailbox of every selected hart, leaves every other mailbox
/// as it was, and a mailbox that was occupied is never overwritten. The hart
/// that then takes its mailbox finds exactly that payload and leaves the
/// mailbox empty, so that it runs the payload once.
pub proof fn lemma_dispatch_delivers(v: IpiView, cur: u64, mask: HartMask, data: IpiData, h: int)
    requires
        v.slots.len() == MAX_HART_COUNT,
        v.count <= MAX_HART_COUNT,
        v.all_free(cur, mask, 0, v.count as int),
        0 <= h < MAX_HART_COUNT,
    ensures
        v.selected(cur, mask, h) ==> v.posted(cur, mask, 0, v.count as int, data)[h] == Some(data),
        !v.selected(cur, mask, h) ==> v.posted(cur, mask, 0, v.count as int, data)[h]
            == v.slots[h],
        v.slots[h].is_some() ==> v.posted(cur, mask, 0, v.count as int, data)[h] == v.slots[h],
        v.posted(cur, mask, 0, v.count as int, data).update(h, None)[h].is_none(),
{
}

} // verus!
