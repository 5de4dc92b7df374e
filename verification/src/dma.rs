use vstd::prelude::*;

verus! {

/// Length, in T-cycles, of one OAM DMA transfer.
pub const OP_DURATION: u32 = 640;
/// First byte of object attribute memory, where a transfer writes.
pub const DEST_BASE_ADDR: u16 = 0xFE00;
/// Number of bytes that a transfer copies.
pub const PAYLOAD_SIZE: u16 = 0x9F;

/// An OAM DMA transfer in progress.
#[derive(Debug, Clone, Copy, PartialEq, Eq, Structural)]
pub struct DmaOp {
    pub src_addr: u16,
    pub remaining_cycles: u32,
}

/// The OAM DMA controller: at most one transfer at a time.
pub struct Dma {
    current_op: Option<DmaOp>,
}

/// What a step of the controller reports.
#[derive(Debug, Clone, Copy, PartialEq, Eq, Structural)]
pub enum DmaState {
    /// No transfer in progress.
    Free,
    /// A transfer is still running.
    Working,
    /// The transfer from `src_addr` has just finished: its bytes are to be copied now.
    Done { src_addr: u16 },
}

impl View for Dma {
    type V = Option<DmaOp>;

    closed spec fn view(&self) -> Option<DmaOp> {
        self.current_op
    }
}

/// The transfer that `assign_op` starts.
pub open spec fn fresh_op(src_addr: u16) -> DmaOp {
    DmaOp { src_addr, remaining_cycles: OP_DURATION }
}

/// The controller's state after `cycles` T-cycles, and what it reports.
pub open spec fn dma_step(op: Option<DmaOp>, cycles: u32) -> (Option<DmaOp>, DmaState) {
    match op {
        None => (None, DmaState::Free),
        Some(o) => if cycles > o.remaining_cycles {
            (None, DmaState::Done { src_addr: o.src_addr })
        } else {
            (
                Some(DmaOp { src_addr: o.src_addr, remaining_cycles: (o.remaining_cycles - cycles) as u32 }),
                DmaState::Working,
            )
        },
    }
}

impl Dma {
    /// An idle controller.
    pub fn new() -> (d: Self)
        ensures
            d@ is None,
    {
        Self { current_op: None }
    }

    /// Starts a transfer from `src_addr`, replacing any transfer in progress.
    pub fn assign_op(&mut self, src_addr: u16)
        ensures
            final(self)@ == Some(fresh_op(src_addr)),
    {
        self.current_op = Some(DmaOp { src_addr, remaining_cycles: OP_DURATION });
    }

    /// Whether a transfer is in progress.
    pub fn is_working(&self) -> (r: bool)
        ensures
            r == self@ is Some,
    {
        self.current_op.is_some()
    }

    /// Advances the transfer in progress by `cycles` T-cycles.
    pub fn step(&mut self, cycles: u32) -> (st: DmaState)
        ensures
            (final(self)@, st) == dma_step(old(self)@, cycles),
    {
        match self.current_op {
            Some(op) => {
                if cycles > op.remaining_cycles {
                    let src_addr = op.src_addr;
                    self.current_op = None;
                    DmaState::Done { src_addr }
                } else {
                    self.current_op = Some(
                        DmaOp { src_addr: op.src_addr, remaining_cycles: op.remaining_cycles - cycles },
                    );
                    DmaState::Working
                }
            },
            None => DmaState::Free,
        }
    }
}

/// A transfer keeps the controller busy for `OP_DURATION` T-cycles: a fresh transfer
/// stepped by `cycles` is still working while `cycles <= OP_DURATION`, and reports
/// that it is done, from its source, once `cycles` exceeds it.
pub proof fn lemma_transfer_duration(src_addr: u16, cycles: u32)
    ensures
        cycles <= OP_DURATION ==> dma_step(Some(fresh_op(src_addr)), cycles).1 == DmaState::Working,
        cycles > OP_DURATION ==> dma_step(Some(fresh_op(src_addr)), cycles) == (
            None::<DmaOp>,
            DmaState::Done { src_addr },
        ),
{
}

/// Stepping a transfer in two parts is stepping it by their sum, as long as the
/// first part leaves it running.
pub proof fn lemma_step_split(op: DmaOp, c1: u32, c2: u32)
    requires
        c1 <= op.remaining_cycles,
        c1 + c2 <= u32::MAX,
    ensures
        dma_step(dma_step(Some(op), c1).0, c2) == dma_step(Some(op), (c1 + c2) as u32),
{
}


/// The total of a sequence of step lengths.
pub open spec fn total_cycles(cs: Seq<u32>) -> int
    decreases cs.len(),
{
    if cs.len() == 0 {
        0
    } else {
        total_cycles(cs.drop_last()) + cs.last()
    }
}

/// The controller's state after steps of the lengths `cs`, in order.
pub open spec fn dma_steps(op: Option<DmaOp>, cs: Seq<u32>) -> Option<DmaOp>
    decreases cs.len(),
{
    if cs.len() == 0 {
        op
    } else {
        dma_step(dma_steps(op, cs.drop_last()), cs.last()).0
    }
}

/// A transfer runs for `OP_DURATION` T-cycles however its time is cut into steps:
/// after steps of the lengths `cs`, all of which reported it working, that add up
/// to at most `OP_DURATION`, it has that much less time left, every one of those
/// steps reported `Working`, and the next step, of `cycles`, reports it done from
/// its source (leaving the controller idle) exactly when the total then exceeds
/// `OP_DURATION`, and working otherwise.
pub proof fn lemma_transfer_steps(src_addr: u16, cs: Seq<u32>, cycles: u32)
    requires
        total_cycles(cs) <= OP_DURATION,
    ensures
        dma_steps(Some(fresh_op(src_addr)), cs) == Some(
            DmaOp { src_addr, remaining_cycles: (OP_DURATION - total_cycles(cs)) as u32 },
        ),
        forall|j: int|
            0 <= j < cs.len() ==> (#[trigger] dma_step(dma_steps(Some(fresh_op(src_addr)), cs.take(j)), cs[j])).1
                == DmaState::Working,
        total_cycles(cs) + cycles > OP_DURATION ==> dma_step(dma_steps(Some(fresh_op(src_addr)), cs), cycles)
            == (None::<DmaOp>, DmaState::Done { src_addr }),
        total_cycles(cs) + cycles <= OP_DURATION ==> dma_step(dma_steps(Some(fresh_op(src_addr)), cs), cycles)
            == (
            Some(DmaOp { src_addr, remaining_cycles: (OP_DURATION - total_cycles(cs) - cycles) as u32 }),
            DmaState::Working,
        ),
    decreases cs.len(),
{
    if cs.len() > 0 {
        let prev = cs.drop_last();
        lemma_total_nonneg(prev);
        lemma_transfer_steps(src_addr, prev, cs.last());
        assert forall|j: int| 0 <= j < cs.len() implies (#[trigger] dma_step(
            dma_steps(Some(fresh_op(src_addr)), cs.take(j)),
            cs[j],
        )).1 == DmaState::Working by {
            if j < cs.len() - 1 {
                assert(cs.take(j) == prev.take(j));
                assert(cs[j] == prev[j]);
            } else {
                assert(cs.take(j) == prev);
            }
        }
    }
}

proof fn lemma_total_nonneg(cs: Seq<u32>)
    ensures
        total_cycles(cs) >= 0,
    decreases cs.len(),
{
    if cs.len() > 0 {
        lemma_total_nonneg(cs.drop_last());
    }
}

/// An idle controller stays idle and reports `Free` on every step until the next
/// transfer is assigned.
pub proof fn lemma_idle_stays_free(cs: Seq<u32>, cycles: u32)
    ensures
        dma_steps(None, cs) is None,
        dma_step(dma_steps(None, cs), cycles) == (None::<DmaOp>, DmaState::Free),
    decreases cs.len(),
{
    if cs.len() > 0 {
        lemma_idle_stays_free(cs.drop_last(), cs.last());
    }
}

} // verus!
