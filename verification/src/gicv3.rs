//! The interrupt controller driver.
//!
//! The driver keeps, for every core, how far its bring-up has come, and for
//! the whole system whether the distributor has been set up. It decides what
//! the controller has to be told; each decision comes back as a `GicCommand`
//! that the caller carries out on the hardware.

use vstd::prelude::*;
use crate::dispatch::IrqCallback;
use crate::dispatch::IrqTable;
use crate::dispatch::dispatch_spec;
use crate::dispatch::register_spec;
use crate::dispatch::unregister_spec;

verus! {

/// Distance between two redistributor frames.
pub const GICR_RD_OFFSET: usize = 0x20000;

/// Offset, in a redistributor frame, of the upper half of its type register.
pub const GICR_TYPER_HI_OFFSET: usize = 0x0008;

/// The highest interrupt number that is completed after dispatch; the
/// numbers above it are special.
pub const LAST_REGULAR_INTID: usize = 1019;

/// How an interrupt line signals.
#[derive(Clone, Copy, Debug, PartialEq, Eq, Structural)]
pub enum Trigger {
    Edge,
    Level,
}

/// What the controller is to be told.
#[derive(Clone, Copy, Debug, PartialEq, Eq, Structural)]
pub enum GicCommand {
    /// Configure the trigger of an interrupt.
    SetTrigger { intid: u32, trigger: Trigger },
    /// Enable or disable the forwarding of an interrupt.
    EnableInterrupt { intid: u32, enable: bool },
    /// Signal the end of an interrupt.
    EndInterrupt { intid: u32 },
    /// Send a software-generated interrupt to all other cores.
    SendSgiToAll { intid: u32 },
}

/// Whom an inter-processor interrupt is for.
#[derive(Clone, Copy, Debug, PartialEq, Eq, Structural)]
pub enum IpiTarget {
    /// The current core.
    Current { cpu_id: usize },
    /// One other core.
    Other { cpu_id: usize },
    /// All cores but the current one.
    AllExceptCurrent { cpu_id: usize, cpu_num: usize },
}

/// How far the bring-up of one core has come.
#[derive(Clone, Copy, Debug, PartialEq, Eq, Structural)]
pub enum CoreState {
    Uninitialized,
    RedistributorBound { gicr_base: usize },
    CpuInterfaceReady { gicr_base: usize },
}

/// The low eight bits of the core's affinity register: its slot.
pub open spec fn cpu_id_of(mpidr: u64) -> usize {
    (mpidr % 0x100) as usize
}

/// The low 24 bits of the core's affinity register.
pub open spec fn core_affinity(mpidr: u64) -> u64 {
    mpidr % 0x100_0000
}

/// The affinity that a redistributor frame reports: the upper half of its
/// type register.
pub open spec fn frame_affinity(typer: u64) -> u64 {
    typer / 0x1_0000_0000
}

/// The interrupt identifier that the controller is given for `irq_num`: its
/// low 32 bits.
pub open spec fn intid_of(irq_num: usize) -> u32 {
    (irq_num as int % 0x1_0000_0000) as u32
}

/// The slot of the core whose affinity register reads `mpidr`.
pub fn get_current_cpu_id(mpidr: u64) -> (cpu_id: usize)
    ensures
        cpu_id == cpu_id_of(mpidr),
{
    let low: u64 = mpidr & 0xff;
    assert(low == mpidr % 0x100) by (bit_vector)
        requires
            low == mpidr & 0xff,
    ;
    low as usize
}

/// Whether the redistributor frame whose type register reads `typer` belongs
/// to the core whose affinity register reads `mpidr`.
pub fn redistributor_matches(mpidr: u64, typer: u64) -> (matches: bool)
    ensures
        matches == (core_affinity(mpidr) == frame_affinity(typer)),
{
    let mpidr_aff: u64 = mpidr & 0xffffff;
    let gicr_typer_aff: u64 = typer >> 32;
    assert(mpidr_aff == mpidr % 0x100_0000) by (bit_vector)
        requires
            mpidr_aff == mpidr & 0xffffff,
    ;
    assert(gicr_typer_aff == typer / 0x1_0000_0000) by (bit_vector)
        requires
            gicr_typer_aff == typer >> 32,
    ;
    mpidr_aff == gicr_typer_aff
}

/// The interrupt identifier for `irq_num`.
pub fn intid(irq_num: usize) -> (id: u32)
    ensures
        id == intid_of(irq_num),
        irq_num <= u32::MAX ==> id == irq_num,
{
    let wide: u64 = irq_num as u64;
    let low: u64 = wide & 0xffff_ffff;
    assert(low == wide % 0x1_0000_0000) by (bit_vector)
        requires
            low == wide & 0xffff_ffff,
    ;
    low as u32
}

/// The class of an interrupt identifier, with its position in the class.
#[derive(Clone, Copy, Debug, PartialEq, Eq, Structural)]
pub enum IntIdKind {
    /// Software-generated: identifiers 0 to 15.
    Sgi { index: u32 },
    /// Private to a core: identifiers 16 to 31.
    Ppi { index: u32 },
    /// Shared: identifiers 32 to 1019.
    Spi { index: u32 },
    /// Special: identifiers from 1020 on.
    Special { intid: u32 },
}

/// The class of `intid`.
pub open spec fn intid_kind_of(intid: u32) -> IntIdKind {
    if intid < 16 {
        IntIdKind::Sgi { index: intid }
    } else if intid < 32 {
        IntIdKind::Ppi { index: (intid - 16) as u32 }
    } else if intid < 1020 {
        IntIdKind::Spi { index: (intid - 32) as u32 }
    } else {
        IntIdKind::Special { intid }
    }
}

/// The class of `intid`, as the controller's driver wants it named.
pub fn intid_kind(intid: u32) -> (kind: IntIdKind)
    ensures
        kind == intid_kind_of(intid),
{
    if intid < 16 {
        IntIdKind::Sgi { index: intid }
    } else if intid < 32 {
        IntIdKind::Ppi { index: intid - 16 }
    } else if intid < 1020 {
        IntIdKind::Spi { index: intid - 32 }
    } else {
        IntIdKind::Special { intid }
    }
}

/// Whether frame `j` is the first whose affinity is that of `mpidr`.
pub open spec fn is_first_match(mpidr: u64, frames: Seq<u64>, j: int) -> bool {
    &&& 0 <= j < frames.len()
    &&& core_affinity(mpidr) == frame_affinity(frames[j])
    &&& forall|k: int| 0 <= k < j ==> core_affinity(mpidr) != frame_affinity(#[trigger] frames[k])
}

/// The index of the first frame whose affinity is that of `mpidr`, if there
/// is such a frame.
pub open spec fn first_match(mpidr: u64, frames: Seq<u64>) -> Option<int> {
    if exists|j: int| is_first_match(mpidr, frames, j) {
        Some(choose|j: int| is_first_match(mpidr, frames, j))
    } else {
        None
    }
}

/// The first matching frame is `j` and no other.
pub proof fn lemma_first_match_is(mpidr: u64, frames: Seq<u64>, j: int)
    requires
        is_first_match(mpidr, frames, j),
    ensures
        first_match(mpidr, frames) == Some(j),
{
    let found = choose|f: int| is_first_match(mpidr, frames, f);
    if found < j {
        assert(core_affinity(mpidr) != frame_affinity(frames[found]));
    }
    if j < found {
        assert(core_affinity(mpidr) != frame_affinity(frames[j]));
    }
}

/// A redistributor frame that a scan found.
#[derive(Clone, Copy, Debug, PartialEq, Eq, Structural)]
pub struct RedistributorFrame {
    /// Position of the frame in the region.
    pub index: usize,
    /// Base address of the frame.
    pub base: usize,
}

/// Scans the redistributor frames, which lie `GICR_RD_OFFSET` apart from
/// `gicr_base` on and whose type registers read `typer_frames`, for the first
/// one that belongs to the core whose affinity register reads `mpidr`.
pub fn find_redistributor(gicr_base: usize, mpidr: u64, typer_frames: &Vec<u64>) -> (found: Option<
    RedistributorFrame,
>)
    requires
        gicr_base + typer_frames.len() * GICR_RD_OFFSET <= usize::MAX,
    ensures
        match first_match(mpidr, typer_frames@) {
            None => found is None,
            Some(j) => found == Some(
                RedistributorFrame { index: j as usize, base: (gicr_base + j * GICR_RD_OFFSET) as usize },
            ),
        },
{
    let mut cur_gicr_base: usize = gicr_base;
    let mut index: usize = 0;
    while index < typer_frames.len()
        invariant
            index <= typer_frames.len(),
            gicr_base + typer_frames.len() * GICR_RD_OFFSET <= usize::MAX,
            cur_gicr_base == gicr_base + index * GICR_RD_OFFSET,
            forall|k: int| 0 <= k < index ==> core_affinity(mpidr) != frame_affinity(#[trigger] typer_frames@[k]),
        decreases typer_frames.len() - index,
    {
        if redistributor_matches(mpidr, typer_frames[index]) {
            proof {
                lemma_first_match_is(mpidr, typer_frames@, index as int);
            }
            return Some(RedistributorFrame { index, base: cur_gicr_base });
        }
        cur_gicr_base = cur_gicr_base + GICR_RD_OFFSET;
        index = index + 1;
    }
    None
}

/// Where every frame reports another affinity, a core whose affinity is that
/// of frame `j` is bound to frame `j`, wherever in the region that frame is.
pub proof fn lemma_scan_binds_matching_frame(mpidr: u64, frames: Seq<u64>, j: int)
    requires
        0 <= j < frames.len(),
        core_affinity(mpidr) == frame_affinity(frames[j]),
        forall|a: int, b: int|
            0 <= a < b < frames.len() ==> frame_affinity(#[trigger] frames[a]) != frame_affinity(
                #[trigger] frames[b],
            ),
    ensures
        first_match(mpidr, frames) == Some(j),
{
    lemma_first_match_is(mpidr, frames, j);
}

/// One step of a core's bring-up. The steps of several cores may interleave.
pub enum BringUpStep {
    /// The core `cpu_id` is bound to the redistributor frame at `gicr_frame`.
    Bind { cpu_id: usize, gicr_frame: usize },
    /// A core claims the set-up of the distributor.
    Claim,
    /// The CPU interface of the bound core `cpu_id` has been initialized.
    Ready { cpu_id: usize },
}

/// The driver's state: the distributor flag and one slot per core.
pub struct GicView {
    pub gicd_init: bool,
    pub cores: Seq<CoreState>,
}

/// What the bring-up of one core has to do on the hardware.
#[derive(Clone, Copy, Debug, PartialEq, Eq, Structural)]
pub struct GicInit {
    /// The slot of the core.
    pub cpu_id: usize,
    /// Base address of the distributor.
    pub gicd_base: usize,
    /// Base address of the core's redistributor frame.
    pub gicr_frame: usize,
    /// Whether this core sets up the distributor.
    pub setup_distributor: bool,
}

impl GicView {
    /// The slot `cpu_id` exists and its CPU interface is ready.
    pub open spec fn ready(self, cpu_id: usize) -> bool {
        cpu_id < self.cores.len() && self.cores[cpu_id as int] is CpuInterfaceReady
    }

    /// The state after one step of a bring-up. Binding fills the core's slot,
    /// whatever it held. A claim sets the distributor flag. Readiness is
    /// recorded for a bound core only. A step for a core without a slot
    /// changes nothing.
    pub open spec fn after_step(self, step: BringUpStep) -> GicView {
        match step {
            BringUpStep::Bind { cpu_id, gicr_frame } => if cpu_id < self.cores.len() {
                GicView {
                    cores: self.cores.update(cpu_id as int, CoreState::RedistributorBound { gicr_base: gicr_frame }),
                    ..self
                }
            } else {
                self
            },
            BringUpStep::Claim => GicView { gicd_init: true, ..self },
            BringUpStep::Ready { cpu_id } => if cpu_id < self.cores.len() && self.cores[cpu_id as int]
                is RedistributorBound {
                GicView {
                    cores: self.cores.update(
                        cpu_id as int,
                        CoreState::CpuInterfaceReady {
                            gicr_base: self.cores[cpu_id as int]->RedistributorBound_gicr_base,
                        },
                    ),
                    ..self
                }
            } else {
                self
            },
        }
    }

    /// Whether `step` is the claim that wins the set-up of the distributor.
    pub open spec fn wins_claim(self, step: BringUpStep) -> bool {
        step is Claim && !self.gicd_init
    }

    /// The state after the steps of `steps`, taken in order.
    pub open spec fn after_steps(self, steps: Seq<BringUpStep>) -> GicView
        decreases steps.len(),
    {
        if steps.len() == 0 {
            self
        } else {
            self.after_steps(steps.drop_last()).after_step(steps.last())
        }
    }

    /// How many of the steps of `steps`, taken in order, win the set-up of
    /// the distributor.
    pub open spec fn claims_won(self, steps: Seq<BringUpStep>) -> nat
        decreases steps.len(),
    {
        if steps.len() == 0 {
            0
        } else {
            self.claims_won(steps.drop_last()) + if self.after_steps(steps.drop_last()).wins_claim(steps.last()) {
                1nat
            } else {
                0nat
            }
        }
    }

    /// The state after the core `cpu_id` was brought up on the frame at
    /// `gicr_frame`: the distributor counts as set up and the core's slot
    /// holds the new binding, whatever it held.
    pub open spec fn after_init(self, cpu_id: usize, gicr_frame: usize) -> GicView {
        GicView {
            gicd_init: true,
            cores: self.cores.update(cpu_id as int, CoreState::CpuInterfaceReady { gicr_base: gicr_frame }),
        }
    }

    /// The state after the cores of `inits` were brought up in order, each
    /// given as its slot and its frame.
    pub open spec fn after_inits(self, inits: Seq<(usize, usize)>) -> GicView
        decreases inits.len(),
    {
        if inits.len() == 0 {
            self
        } else {
            self.after_inits(inits.drop_last()).after_init(inits.last().0, inits.last().1)
        }
    }

    /// How many of the bring-ups of `inits`, made in order, set up the
    /// distributor.
    pub open spec fn distributor_setups(self, inits: Seq<(usize, usize)>) -> nat
        decreases inits.len(),
    {
        if inits.len() == 0 {
            0
        } else {
            self.distributor_setups(inits.drop_last()) + if self.after_inits(inits.drop_last()).gicd_init {
                0nat
            } else {
                1nat
            }
        }
    }
}

/// Over any sequence of bring-ups, of whatever cores in whatever order, the
/// distributor is set up exactly once if it was not set up before, and never
/// again if it was.
pub proof fn lemma_distributor_setup_once(view: GicView, inits: Seq<(usize, usize)>)
    ensures
        inits.len() > 0 ==> view.after_inits(inits).gicd_init,
        view.distributor_setups(inits) == if view.gicd_init || inits.len() == 0 {
            0nat
        } else {
            1nat
        },
    decreases inits.len(),
{
    if inits.len() > 0 {
        lemma_distributor_setup_once(view, inits.drop_last());
    }
}

/// However the steps of the cores' bring-ups interleave, at most one claim
/// wins the set-up of the distributor: exactly one if the distributor was not
/// set up before and a claim is among the steps, and none otherwise.
pub proof fn lemma_one_claim_wins(view: GicView, steps: Seq<BringUpStep>)
    ensures
        view.after_steps(steps).gicd_init == (view.gicd_init || exists|i: int|
            0 <= i < steps.len() && steps[i] is Claim),
        view.claims_won(steps) == if !view.gicd_init && exists|i: int| 0 <= i < steps.len() && steps[i] is Claim {
            1nat
        } else {
            0nat
        },
    decreases steps.len(),
{
    if steps.len() > 0 {
        let before = steps.drop_last();
        lemma_one_claim_wins(view, before);
        if exists|i: int| 0 <= i < steps.len() && steps[i] is Claim {
            let i = choose|i: int| 0 <= i < steps.len() && steps[i] is Claim;
            if i < before.len() {
                assert(before[i] is Claim);
            }
        }
    }
}

/// A whole bring-up is its three steps in order: bind, claim, ready.
pub proof fn lemma_init_is_three_steps(view: GicView, cpu_id: usize, gicr_frame: usize)
    requires
        cpu_id < view.cores.len(),
    ensures
        view.after_init(cpu_id, gicr_frame) == view.after_steps(
            seq![BringUpStep::Bind { cpu_id, gicr_frame }, BringUpStep::Claim, BringUpStep::Ready { cpu_id }],
        ),
{
    let steps = seq![BringUpStep::Bind { cpu_id, gicr_frame }, BringUpStep::Claim, BringUpStep::Ready { cpu_id }];
    let two = steps.drop_last();
    let one = two.drop_last();
    assert(view.after_steps(one.drop_last()) == view);
    assert(view.after_steps(two) == view.after_steps(one).after_step(BringUpStep::Claim));
    assert(view.after_steps(steps).cores =~= view.after_init(cpu_id, gicr_frame).cores);
}

/// The interrupt controller driver.
pub struct Gic {
    gicd_init: bool,
    cores: Vec<CoreState>,
}

impl Gic {
    pub closed spec fn view(&self) -> GicView {
        GicView { gicd_init: self.gicd_init, cores: self.cores@ }
    }

    /// A driver for `cpu_num` cores, none of them brought up.
    pub fn new(cpu_num: usize) -> (gic: Self)
        ensures
            !gic@.gicd_init,
            gic@.cores == Seq::new(cpu_num as nat, |i: int| CoreState::Uninitialized),
    {
        let mut cores: Vec<CoreState> = Vec::new();
        let mut i: usize = 0;
        while i < cpu_num
            invariant
                i <= cpu_num,
                cores@ == Seq::new(i as nat, |k: int| CoreState::Uninitialized),
            decreases cpu_num - i,
        {
            cores.push(CoreState::Uninitialized);
            i = i + 1;
        }
        Gic { gicd_init: false, cores }
    }

    /// Number of core slots.
    pub fn cpu_num(&self) -> (count: usize)
        ensures
            count == self@.cores.len(),
    {
        self.cores.len()
    }

    /// Whether the distributor has been set up.
    pub fn distributor_initialized(&self) -> (set: bool)
        ensures
            set == self@.gicd_init,
    {
        self.gicd_init
    }

    /// The state of the slot `cpu_id`, if there is such a slot.
    pub fn core_state(&self, cpu_id: usize) -> (state: Option<CoreState>)
        ensures
            state == if cpu_id < self@.cores.len() {
                Some(self@.cores[cpu_id as int])
            } else {
                None
            },
    {
        if cpu_id < self.cores.len() {
            Some(self.cores[cpu_id])
        } else {
            None
        }
    }

    /// Whether the CPU interface of the core `cpu_id` is ready.
    pub fn is_ready(&self, cpu_id: usize) -> (ready: bool)
        ensures
            ready == self@.ready(cpu_id),
    {
        if cpu_id < self.cores.len() {
            match self.cores[cpu_id] {
                CoreState::CpuInterfaceReady { .. } => true,
                _ => false,
            }
        } else {
            false
        }
    }

    /// Binds the core `cpu_id` to the redistributor frame at `gicr_frame`.
    pub fn bind_redistributor(&mut self, cpu_id: usize, gicr_frame: usize)
        requires
            cpu_id < old(self)@.cores.len(),
        ensures
            final(self)@ == old(self)@.after_step(BringUpStep::Bind { cpu_id, gicr_frame }),
    {
        self.cores.set(cpu_id, CoreState::RedistributorBound { gicr_base: gicr_frame });
    }

    /// Claims the set-up of the distributor: `true` for the first claim and
    /// for no other.
    pub fn claim_distributor(&mut self) -> (first: bool)
        ensures
            first == old(self)@.wins_claim(BringUpStep::Claim),
            final(self)@ == old(self)@.after_step(BringUpStep::Claim),
    {
        let first = !self.gicd_init;
        self.gicd_init = true;
        first
    }

    /// Records that the CPU interface of the core `cpu_id` has been
    /// initialized, if the core is bound to a redistributor frame.
    pub fn cpu_interface_ready(&mut self, cpu_id: usize)
        ensures
            final(self)@ == old(self)@.after_step(BringUpStep::Ready { cpu_id }),
    {
        if cpu_id < self.cores.len() {
            match self.cores[cpu_id] {
                CoreState::RedistributorBound { gicr_base } => {
                    self.cores.set(cpu_id, CoreState::CpuInterfaceReady { gicr_base });
                },
                _ => {},
            }
        }
    }
}

/// Brings up the core `cpu_id` on the redistributor frame at `gicr_frame`:
/// binds the core to the frame, claims the distributor's set-up if no core
/// has, and marks the core's CPU interface ready, replacing whatever the slot
/// held.
pub fn init_core(gic: &mut Gic, cpu_id: usize, gicd_base: usize, gicr_frame: usize) -> (plan: GicInit)
    requires
        cpu_id < old(gic)@.cores.len(),
    ensures
        plan == (GicInit { cpu_id, gicd_base, gicr_frame, setup_distributor: !old(gic)@.gicd_init }),
        final(gic)@ == old(gic)@.after_init(cpu_id, gicr_frame),
{
    gic.bind_redistributor(cpu_id, gicr_frame);
    let setup_distributor: bool = gic.claim_distributor();
    gic.cpu_interface_ready(cpu_id);
    assert(gic@.cores =~= old(gic)@.after_init(cpu_id, gicr_frame).cores);
    GicInit { cpu_id, gicd_base, gicr_frame, setup_distributor }
}

/// Brings up the interrupt controller for the core whose affinity register
/// reads `mpidr`: binds the core to the first redistributor frame that
/// reports its affinity, claims the distributor's set-up if no core has, and
/// marks the core's CPU interface ready. Where no frame reports the core's
/// affinity, nothing changes and nothing is returned.
pub fn init_gic(gic: &mut Gic, gicd_base: usize, gicr_base: usize, mpidr: u64, typer_frames: &Vec<u64>) -> (plan:
    Option<GicInit>)
    requires
        cpu_id_of(mpidr) < old(gic)@.cores.len(),
        gicr_base + typer_frames.len() * GICR_RD_OFFSET <= usize::MAX,
    ensures
        match first_match(mpidr, typer_frames@) {
            None => plan is None && final(gic)@ == old(gic)@,
            Some(j) => {
                &&& plan == Some(
                    GicInit {
                        cpu_id: cpu_id_of(mpidr),
                        gicd_base,
                        gicr_frame: (gicr_base + j * GICR_RD_OFFSET) as usize,
                        setup_distributor: !old(gic)@.gicd_init,
                    },
                )
                &&& final(gic)@ == old(gic)@.after_init(
                    cpu_id_of(mpidr),
                    (gicr_base + j * GICR_RD_OFFSET) as usize,
                )
            },
        },
{
    let cpu_id: usize = get_current_cpu_id(mpidr);
    let frame = match find_redistributor(gicr_base, mpidr, typer_frames) {
        None => {
            return None;
        },
        Some(frame) => frame,
    };
    Some(init_core(gic, cpu_id, gicd_base, frame.base))
}

/// The command that sets the trigger of `irq_num` to edge or to level.
pub fn set_trigger(gic: &Gic, cpu_id: usize, irq_num: usize, edge: bool) -> (command: GicCommand)
    requires
        gic@.ready(cpu_id),
    ensures
        command == (GicCommand::SetTrigger {
            intid: intid_of(irq_num),
            trigger: if edge {
                Trigger::Edge
            } else {
                Trigger::Level
            },
        }),
{
    let cfg = if edge {
        Trigger::Edge
    } else {
        Trigger::Level
    };
    GicCommand::SetTrigger { intid: intid(irq_num), trigger: cfg }
}

/// The command that enables or disables the given IRQ.
pub fn set_enable(gic: &Gic, cpu_id: usize, irq_num: usize, enabled: bool) -> (command: GicCommand)
    requires
        gic@.ready(cpu_id),
    ensures
        command == (GicCommand::EnableInterrupt { intid: intid_of(irq_num), enable: enabled }),
{
    GicCommand::EnableInterrupt { intid: intid(irq_num), enable: enabled }
}

/// Registers an IRQ handler for the given IRQ. If the registration succeeds,
/// the command that enables the IRQ is returned; if it fails, nothing is.
pub fn register_handler(gic: &Gic, table: &mut IrqTable, cpu_id: usize, irq_num: usize, handler: IrqCallback) -> (
    command: Option<GicCommand>)
    requires
        gic@.ready(cpu_id),
    ensures
        final(table)@ == register_spec(old(table)@, irq_num, handler).0,
        command == if register_spec(old(table)@, irq_num, handler).1 {
            Some(GicCommand::EnableInterrupt { intid: intid_of(irq_num), enable: true })
        } else {
            None
        },
{
    if table.register(irq_num, handler) {
        return Some(set_enable(gic, cpu_id, irq_num, true));
    }
    None
}

/// Unregisters the IRQ handler for the given IRQ. Returns the command that
/// disables the IRQ, which is to be carried out in any case, and the handler
/// that was registered, if one was.
pub fn unregister_handler(gic: &Gic, table: &mut IrqTable, cpu_id: usize, irq_num: usize) -> (out: (
    GicCommand,
    Option<IrqCallback>,
))
    requires
        gic@.ready(cpu_id),
    ensures
        out.0 == (GicCommand::EnableInterrupt { intid: intid_of(irq_num), enable: false }),
        out.1 == unregister_spec(old(table)@, irq_num).1,
        final(table)@ == unregister_spec(old(table)@, irq_num).0,
{
    let command = set_enable(gic, cpu_id, irq_num, false);
    let previous = table.unregister(irq_num);
    (command, previous)
}

/// The command that completes the interrupt `irq`.
pub fn end_of_interrupt(irq: usize) -> (command: GicCommand)
    ensures
        command == (GicCommand::EndInterrupt { intid: intid_of(irq) }),
{
    GicCommand::EndInterrupt { intid: intid(irq) }
}

/// What became of an acknowledged interrupt.
#[derive(Clone, Copy, Debug, PartialEq, Eq, Structural)]
pub struct IrqOutcome {
    /// Whether a handler was registered and has run.
    pub handled: bool,
    /// The command that completes the interrupt, unless its number is special.
    pub completion: Option<GicCommand>,
}

/// Dispatches the acknowledged interrupt `irq` to its handler. An interrupt
/// without a handler is dropped. The interrupt is to be completed afterwards
/// unless its number is special.
pub fn handle_irq(table: &IrqTable, irq: usize) -> (outcome: IrqOutcome)
    ensures
        outcome.handled == dispatch_spec(table@, intid_of(irq) as usize).is_some(),
        outcome.completion == if irq <= LAST_REGULAR_INTID {
            Some(GicCommand::EndInterrupt { intid: intid_of(irq) })
        } else {
            None
        },
{
    let handled = table.dispatch(intid(irq) as usize);
    let completion = if irq <= 1019 {
        Some(end_of_interrupt(irq))
    } else {
        None
    };
    IrqOutcome { handled, completion }
}

/// The command that sends the inter-processor interrupt `irq` to `target`.
/// Only "all other cores" can be served; for any other target there is no
/// command.
pub fn send_ipi(irq: usize, target: IpiTarget) -> (command: Option<GicCommand>)
    ensures
        command == if target is AllExceptCurrent {
            Some(GicCommand::SendSgiToAll { intid: intid_of(irq) })
        } else {
            None
        },
{
    let sgi_intid = intid(irq);
    match target {
        IpiTarget::AllExceptCurrent { .. } => Some(GicCommand::SendSgiToAll { intid: sgi_intid }),
        _ => None,
    }
}

/// A distributor register that is read when an interrupt line is examined.
#[derive(Clone, Copy, Debug, PartialEq, Eq, Structural)]
pub enum DistributorRegister {
    /// Set-enable bits, one per interrupt.
    Isenabler,
    /// Set-pending bits, one per interrupt.
    Ispendr,
    /// Priorities, one byte per interrupt.
    Ipriorityr,
    /// Routing, one double word per interrupt.
    Irouter,
    /// The distributor's control register.
    Ctlr,
    /// Group bits, one per interrupt.
    Igroupr,
    /// Group modifier bits, one per interrupt.
    Igrpmodr,
    /// Configuration, two bits per interrupt.
    Icfgr,
    /// Set-active bits, one per interrupt.
    Isactiver,
}

/// Where the state of an interrupt stands in a distributor register: the
/// register's address, its width in bytes, and the position of the
/// interrupt's bit in it.
#[derive(Clone, Copy, Debug, PartialEq, Eq, Structural)]
pub struct RegisterProbe {
    pub register: DistributorRegister,
    pub addr: usize,
    pub width: usize,
    pub shift: usize,
}

/// Offset of a register bank from the distributor's base.
pub open spec fn bank_offset(register: DistributorRegister) -> int {
    match register {
        DistributorRegister::Ctlr => 0x0,
        DistributorRegister::Igroupr => 0x80,
        DistributorRegister::Isenabler => 0x100,
        DistributorRegister::Ispendr => 0x200,
        DistributorRegister::Isactiver => 0x300,
        DistributorRegister::Ipriorityr => 0x400,
        DistributorRegister::Icfgr => 0xC00,
        DistributorRegister::Igrpmodr => 0xD00,
        DistributorRegister::Irouter => 0x6000,
    }
}

/// Where the state of `irq` stands in `register`.
pub open spec fn probe_of(gicd_base: usize, irq: usize, register: DistributorRegister) -> RegisterProbe {
    match register {
        DistributorRegister::Ctlr => RegisterProbe { register, addr: gicd_base, width: 4, shift: 0 },
        DistributorRegister::Ipriorityr => RegisterProbe {
            register,
            addr: (gicd_base + 0x400 + irq) as usize,
            width: 1,
            shift: 0,
        },
        DistributorRegister::Irouter => RegisterProbe {
            register,
            addr: (gicd_base + 0x6000 + irq * 8) as usize,
            width: 8,
            shift: 0,
        },
        DistributorRegister::Icfgr => RegisterProbe {
            register,
            addr: (gicd_base + 0xC00 + (irq / 16) * 4) as usize,
            width: 4,
            shift: ((irq % 16) * 2 + 1) as usize,
        },
        _ => RegisterProbe {
            register,
            addr: (gicd_base + bank_offset(register) + (irq / 32) * 4) as usize,
            width: 4,
            shift: (irq % 32) as usize,
        },
    }
}

/// The order in which the registers of an interrupt are examined.
pub open spec fn probe_order() -> Seq<DistributorRegister> {
    seq![
        DistributorRegister::Isenabler,
        DistributorRegister::Ispendr,
        DistributorRegister::Ipriorityr,
        DistributorRegister::Irouter,
        DistributorRegister::Ctlr,
        DistributorRegister::Igroupr,
        DistributorRegister::Igrpmodr,
        DistributorRegister::Icfgr,
        DistributorRegister::Isactiver,
    ]
}

fn bit_probe(gicd_base: usize, bank: usize, irq: usize, register: DistributorRegister) -> (probe: RegisterProbe)
    requires
        gicd_base + 0x6000 + irq * 8 <= usize::MAX,
        bank == bank_offset(register),
        register != DistributorRegister::Ctlr,
        register != DistributorRegister::Ipriorityr,
        register != DistributorRegister::Irouter,
        register != DistributorRegister::Icfgr,
    ensures
        probe == probe_of(gicd_base, irq, register),
{
    RegisterProbe { register, addr: gicd_base + bank + (irq / 32) * 4, width: 4, shift: irq % 32 }
}

/// The registers to read when the interrupt `irq` is examined, in order.
pub fn debug_irq_probes(gicd_base: usize, irq: usize) -> (probes: Vec<RegisterProbe>)
    requires
        gicd_base + 0x6000 + irq * 8 <= usize::MAX,
    ensures
        probes@ == probe_order().map_values(|register: DistributorRegister| probe_of(gicd_base, irq, register)),
{
    let mut probes: Vec<RegisterProbe> = Vec::new();
    probes.push(bit_probe(gicd_base, 0x100, irq, DistributorRegister::Isenabler));
    probes.push(bit_probe(gicd_base, 0x200, irq, DistributorRegister::Ispendr));
    probes.push(
        RegisterProbe { register: DistributorRegister::Ipriorityr, addr: gicd_base + 0x400 + irq, width: 1, shift: 0 },
    );
    probes.push(
        RegisterProbe { register: DistributorRegister::Irouter, addr: gicd_base + 0x6000 + irq * 8, width: 8, shift: 0 },
    );
    probes.push(RegisterProbe { register: DistributorRegister::Ctlr, addr: gicd_base, width: 4, shift: 0 });
    probes.push(bit_probe(gicd_base, 0x80, irq, DistributorRegister::Igroupr));
    probes.push(bit_probe(gicd_base, 0xD00, irq, DistributorRegister::Igrpmodr));
    let cfg_shift: usize = ((irq % 16) * 2) + 1;
    probes.push(
        RegisterProbe {
            register: DistributorRegister::Icfgr,
            addr: gicd_base + 0xC00 + (irq / 16) * 4,
            width: 4,
            shift: cfg_shift,
        },
    );
    probes.push(bit_probe(gicd_base, 0x300, irq, DistributorRegister::Isactiver));
    probes
}

/// The registers to read when interrupt 32, the first shared one, is
/// examined.
pub fn debug_irq_32(gicd_base: usize) -> (probes: Vec<RegisterProbe>)
    requires
        gicd_base + 0x6100 <= usize::MAX,
    ensures
        probes@ == probe_order().map_values(|register: DistributorRegister| probe_of(gicd_base, 32, register)),
{
    let irq: usize = 32;
    debug_irq_probes(gicd_base, irq)
}

/// The write that makes interrupt 32 pending by hand: the address of its
/// set-pending register and the word to write.
pub fn test_manual_trigger(gicd_base: usize) -> (write: (usize, u32))
    requires
        gicd_base + 0x204 <= usize::MAX,
    ensures
        write == ((gicd_base + 0x204) as usize, 1u32),
{
    (gicd_base + 0x200 + 1 * 4, 0x1)
}

} // verus!
