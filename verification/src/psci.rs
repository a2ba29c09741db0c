//! Client of the hypervisor's MMIO guard.
//!
//! A guest may touch a device page only after the hypervisor has granted it.
//! This module decides which hypercalls to issue and what their answers mean;
//! issuing them is left to the caller, who hands each answer back.
//!
//! The granule size lives in a `spin::Once`. What that cell does is taken on
//! trust from its source.

use vstd::prelude::*;
use vstd::arithmetic::mul::lemma_mul_inequality;
use vstd::arithmetic::mul::lemma_mul_is_distributive_add_other_way;
use vstd::string::StringSliceAdditionalSpecFns;
use spin::once::Once;
use spin::relax::Spin;
use crate::serial::boot_print_str;
use crate::serial::boot_print_usize;
use crate::serial::usize_text;

verus! {

/// Marks a buffer as private to the guest again.
pub const ARM_SMCCC_VENDOR_HYP_KVM_MEM_UNSHARE_FUNC_ID: u32 = 0xC600_0004;

/// Asks for the guard granule size and the range capability.
pub const ARM_SMCCC_VENDOR_HYP_KVM_MMIO_GUARD_INFO_FUNC_ID: u32 = 0xC600_0005;

/// Marks a buffer as shared with the hypervisor.
pub const ARM_SMCCC_VENDOR_HYP_KVM_MEM_SHARE_FUNC_ID: u32 = 0xC600_0003;

/// Grants the guest access to a range of guarded MMIO granules.
pub const ARM_SMCCC_VENDOR_HYP_KVM_MMIO_RGUARD_MAP_FUNC_ID: u32 = 0xC600_000A;

/// Revokes the guest's access to a range of guarded MMIO granules.
pub const ARM_SMCCC_VENDOR_HYP_KVM_MMIO_RGUARD_UNMAP_FUNC_ID: u32 = 0xC600_000B;

/// Size of the pages in which buffers are shared with the hypervisor.
pub const DMA_PAGE_SIZE: usize = 0x1000;

/// One hypercall: a function identifier and three arguments.
#[derive(Clone, Copy, Debug, PartialEq, Eq, Structural)]
pub struct HvcCall {
    pub func: u32,
    pub arg0: usize,
    pub arg1: usize,
    pub arg2: usize,
}

/// Why the guard protocol cannot go on.
#[derive(Clone, Copy, Debug, PartialEq, Eq, Structural)]
pub enum GuardError {
    /// The hypervisor does not guard ranges: its capability word was not 1.
    RangeUnsupported { has_range: usize },
    /// The hypervisor reported a granule size of zero.
    ZeroGranule,
    /// The region's size is not a whole number of granules.
    UnalignedSize { size: usize, granule: usize },
    /// A guard hypercall returned a non-zero result code.
    HypercallFailed { func: u32, arg0: usize, arg1: usize, ret0: usize, ret1: usize },
    /// Fewer granules were authorized than the region holds.
    CountMismatch { requested: usize, authorized: usize },
}

/// The function identifier of the vendor hypervisor service `function`:
/// a fast call in the 64-bit convention, owned by service 6.
pub fn vendor_hyp_func_id(function: u16) -> (id: u32)
    ensures
        id == 0xC600_0000 + function,
{
    let low: u32 = function as u32;
    let id: u32 = (1u32 << 31) | (1u32 << 30) | ((6u32 & 0x3F) << 24) | (low & 0xFFFF);
    assert(id == 0xC600_0000u32 + low) by (bit_vector)
        requires
            low <= 0xFFFFu32,
            id == (1u32 << 31) | (1u32 << 30) | ((6u32 & 0x3F) << 24) | (low & 0xFFFF),
    ;
    id
}

/// The identifier of the hypercall that grants (`map`) or revokes access.
pub open spec fn mmioguard_func(map: bool) -> u32 {
    if map {
        ARM_SMCCC_VENDOR_HYP_KVM_MMIO_RGUARD_MAP_FUNC_ID
    } else {
        ARM_SMCCC_VENDOR_HYP_KVM_MMIO_RGUARD_UNMAP_FUNC_ID
    }
}

/// The hypercall that asks for the guard granule.
pub fn guard_info_call() -> (call: HvcCall)
    ensures
        call == (HvcCall {
            func: ARM_SMCCC_VENDOR_HYP_KVM_MMIO_GUARD_INFO_FUNC_ID,
            arg0: 0,
            arg1: 0,
            arg2: 0,
        }),
{
    HvcCall { func: vendor_hyp_func_id(5), arg0: 0, arg1: 0, arg2: 0 }
}

#[verifier::external_type_specification]
#[verifier::external_body]
#[verifier::reject_recursive_types(T)]
#[verifier::reject_recursive_types(R)]
pub struct ExOnce<T, R>(Once<T, R>);

#[verifier::external_type_specification]
#[verifier::external_body]
pub struct ExSpin(Spin);

/// What a write-once cell holds: nothing, or the value it was first given.
pub uninterp spec fn once_value(cell: Once<usize>) -> Option<usize>;

/// `Once::new`: a cell that holds nothing.
#[verifier::external_body]
fn once_new() -> (cell: Once<usize>)
    ensures
        once_value(cell) is None,
{
    Once::new()
}

/// `Once::call_once` with an initializer that gives `value`: a cell that
/// holds nothing takes `value`, a cell that holds a value keeps it, and the
/// value that the cell then holds is returned. The call panics only after an
/// initializer has panicked, which this one cannot.
#[verifier::external_body]
fn once_call_once(cell: &mut Once<usize>, value: usize) -> (stored: usize)
    ensures
        once_value(*final(cell)) == Some(stored),
        stored == once_first(once_value(*old(cell)), value),
    no_unwind
{
    *cell.call_once(|| value)
}

/// `Once::get`: the value that the cell holds, if it holds one.
#[verifier::external_body]
fn once_get(cell: &Once<usize>) -> (value: Option<usize>)
    ensures
        value == once_value(*cell),
{
    cell.get().copied()
}

/// The value that wins in a write-once cell: the one it holds, and else the
/// one it is offered.
pub open spec fn once_first(held: Option<usize>, offered: usize) -> usize {
    match held {
        Some(v) => v,
        None => offered,
    }
}

/// The guard granule size, written at most once.
pub struct GuardGranule {
    value: Once<usize>,
}

/// What discovery leaves in the registry and returns, given the registry's
/// content and the two words of the hypervisor's answer.
pub open spec fn discovery(cached: Option<usize>, granule_size: usize, has_range: usize) -> (
    Option<usize>,
    Result<usize, GuardError>,
) {
    if has_range != 1 {
        (cached, Err(GuardError::RangeUnsupported { has_range }))
    } else if let Some(g) = cached {
        (cached, Ok(g))
    } else if granule_size == 0 {
        (cached, Err(GuardError::ZeroGranule))
    } else {
        (Some(granule_size), Ok(granule_size))
    }
}

impl GuardGranule {
    #[verifier::type_invariant]
    spec fn nonzero(self) -> bool {
        once_value(self.value) matches Some(g) ==> g > 0
    }

    /// The stored granule size, if discovery has succeeded.
    pub closed spec fn view(&self) -> Option<usize> {
        once_value(self.value)
    }

    /// An empty registry.
    pub fn new() -> (registry: Self)
        ensures
            registry@ is None,
    {
        GuardGranule { value: once_new() }
    }

    /// The stored granule size, which is never zero.
    pub fn get(&self) -> (granule: Option<usize>)
        ensures
            granule == self@,
            granule matches Some(g) ==> g > 0,
    {
        proof {
            use_type_invariant(self);
        }
        once_get(&self.value)
    }
}

/// Takes the answer to the guard-info hypercall: stores the granule size on
/// the first success and returns the stored size from then on.
pub fn kvm_guard_granule_init(registry: &mut GuardGranule, granule_size: usize, has_range: usize) -> (out:
    Result<usize, GuardError>)
    ensures
        final(registry)@ == discovery(old(registry)@, granule_size, has_range).0,
        out == discovery(old(registry)@, granule_size, has_range).1,
{
    if has_range != 1 {
        return Err(GuardError::RangeUnsupported { has_range });
    }
    match registry.get() {
        Some(g) => Ok(g),
        None => {
            if granule_size == 0 {
                Err(GuardError::ZeroGranule)
            } else {
                Ok(once_call_once(&mut registry.value, granule_size))
            }
        },
    }
}

/// Judges the answer `(result, done)` to one guard hypercall made at
/// `phys_addr` with `nr_granules` still wanted: the granules it granted, or
/// the failed call with both answer words.
pub fn __invoke_mmioguard(phys_addr: usize, nr_granules: usize, map: bool, result: usize, done: usize) -> (out:
    Result<usize, GuardError>)
    ensures
        result == 0 ==> out == Ok::<usize, GuardError>(done),
        result != 0 ==> out == Err::<usize, GuardError>(
            GuardError::HypercallFailed {
                func: mmioguard_func(map),
                arg0: phys_addr,
                arg1: nr_granules,
                ret0: result,
                ret1: done,
            },
        ),
{
    let func_id: u32 = if map {
        vendor_hyp_func_id(10)
    } else {
        vendor_hyp_func_id(11)
    };
    if result != 0 {
        return Err(
            GuardError::HypercallFailed {
                func: func_id,
                arg0: phys_addr,
                arg1: nr_granules,
                ret0: result,
                ret1: done,
            },
        );
    }
    Ok(done)
}

/// How far the authorization of one region has come.
pub struct ProgressView {
    pub granule: nat,
    pub base: nat,
    pub requested: nat,
    pub mapped: nat,
    pub map: bool,
    pub halted: bool,
}

impl ProgressView {
    /// The state before the first hypercall.
    pub open spec fn start(granule: usize, phys_addr: usize, nr_granules: usize, map: bool) -> ProgressView {
        ProgressView {
            granule: granule as nat,
            base: phys_addr as nat,
            requested: nr_granules as nat,
            mapped: 0,
            map,
            halted: false,
        }
    }

    /// The granule size is positive, no more is authorized than requested,
    /// and the region ends within the address space.
    pub open spec fn wf(self) -> bool {
        &&& self.granule > 0
        &&& self.mapped <= self.requested
        &&& self.base + self.requested * self.granule <= usize::MAX
    }

    /// Granules still to authorize.
    pub open spec fn remaining(self) -> nat {
        (self.requested - self.mapped) as nat
    }

    /// Address of the first granule not yet authorized.
    pub open spec fn cursor(self) -> nat {
        self.base + self.mapped * self.granule
    }

    /// No further hypercall is due.
    pub open spec fn finished(self) -> bool {
        self.halted || self.mapped >= self.requested
    }

    /// The hypercall that is due: one granule at the cursor.
    pub open spec fn call(self) -> HvcCall {
        HvcCall { func: mmioguard_func(self.map), arg0: self.cursor() as usize, arg1: 1, arg2: 0 }
    }

    /// The state after the answer `(result, done)` to the due hypercall. A
    /// non-zero result is fatal. A grant larger than what remains halts the
    /// request without being counted. Any other grant moves the cursor on.
    /// Where no hypercall was due, the answer changes nothing.
    pub open spec fn step(self, result: usize, done: usize) -> Result<ProgressView, GuardError> {
        if self.finished() {
            Ok(self)
        } else if result != 0 {
            Err(
                GuardError::HypercallFailed {
                    func: mmioguard_func(self.map),
                    arg0: self.cursor() as usize,
                    arg1: self.remaining() as usize,
                    ret0: result,
                    ret1: done,
                },
            )
        } else if done > self.remaining() {
            Ok(ProgressView { halted: true, ..self })
        } else {
            Ok(ProgressView { mapped: self.mapped + done as nat, ..self })
        }
    }
}

/// Where a run over a list of answers ends: the last state, the index of the
/// first answer not consumed, and the fatal error if one came.
pub struct RunOutcome {
    pub state: ProgressView,
    pub next: int,
    pub error: Option<GuardError>,
}

/// Feeds the answers `responses[from..]` one by one to the request, until it is
/// finished, an answer is fatal, or the answers run out.
pub open spec fn run(state: ProgressView, responses: Seq<(usize, usize)>, from: int) -> RunOutcome
    decreases responses.len() - from,
{
    if from < 0 || from >= responses.len() || state.finished() {
        RunOutcome { state, next: from, error: None }
    } else {
        match state.step(responses[from].0, responses[from].1) {
            Err(e) => RunOutcome { state, next: from + 1, error: Some(e) },
            Ok(after) => run(after, responses, from + 1),
        }
    }
}

/// What a request comes to when no further hypercall is made for it.
pub open spec fn finished_count(state: ProgressView) -> Result<usize, GuardError> {
    if state.mapped != state.requested {
        Err(GuardError::CountMismatch { requested: state.requested as usize, authorized: state.mapped as usize })
    } else {
        Ok(state.mapped as usize)
    }
}

/// The authorization of one region, advanced one hypercall at a time.
#[derive(Debug)]
pub struct GuardProgress {
    granule: usize,
    base: usize,
    requested: usize,
    mapped: usize,
    cursor: usize,
    map: bool,
    halted: bool,
}

/// What an answer did to a request.
#[derive(Clone, Copy, Debug, PartialEq, Eq, Structural)]
pub enum GuardStep {
    /// The granted granules were counted and the cursor moved on.
    Advanced,
    /// More was granted than remained: the request stops early.
    Overshoot,
    /// No hypercall was due: the answer was ignored.
    Ignored,
}

/// How an answer that is not fatal is reported.
pub open spec fn step_kind(state: ProgressView, done: usize) -> GuardStep {
    if state.finished() {
        GuardStep::Ignored
    } else if done > state.remaining() {
        GuardStep::Overshoot
    } else {
        GuardStep::Advanced
    }
}

impl GuardProgress {
    #[verifier::type_invariant]
    spec fn consistent(self) -> bool {
        &&& self.granule > 0
        &&& self.mapped <= self.requested
        &&& self.base + self.requested * self.granule <= usize::MAX
        &&& self.cursor == self.base + self.mapped * self.granule
    }

    pub closed spec fn view(&self) -> ProgressView {
        ProgressView {
            granule: self.granule as nat,
            base: self.base as nat,
            requested: self.requested as nat,
            mapped: self.mapped as nat,
            map: self.map,
            halted: self.halted,
        }
    }

    /// A request for `nr_granules` granules from `phys_addr` on.
    pub fn new(granule: usize, phys_addr: usize, nr_granules: usize, map: bool) -> (progress: Self)
        requires
            granule > 0,
            phys_addr + nr_granules * granule <= usize::MAX,
        ensures
            progress@ == ProgressView::start(granule, phys_addr, nr_granules, map),
            progress@.wf(),
    {
        GuardProgress {
            granule,
            base: phys_addr,
            requested: nr_granules,
            mapped: 0,
            cursor: phys_addr,
            map,
            halted: false,
        }
    }

    /// Granules authorized so far.
    pub fn mapped(&self) -> (count: usize)
        ensures
            count == self@.mapped,
    {
        self.mapped
    }

    /// Granules still to authorize.
    pub fn remaining(&self) -> (count: usize)
        ensures
            count == self@.remaining(),
            self@.wf(),
    {
        proof {
            use_type_invariant(self);
        }
        self.requested - self.mapped
    }

    /// What the request comes to: the count of authorized granules if it is
    /// the requested one, and a mismatch otherwise.
    pub fn finish(&self) -> (out: Result<usize, GuardError>)
        ensures
            out == finished_count(self@),
    {
        if self.mapped != self.requested {
            return Err(GuardError::CountMismatch { requested: self.requested, authorized: self.mapped });
        }
        Ok(self.mapped)
    }

    /// Whether the request stopped on a grant larger than what remained.
    pub fn halted(&self) -> (halted: bool)
        ensures
            halted == self@.halted,
    {
        self.halted
    }

    /// The hypercall to issue next, or `None` once the request is finished.
    pub fn next_call(&self) -> (call: Option<HvcCall>)
        ensures
            self@.wf(),
            self@.finished() ==> call is None,
            !self@.finished() ==> call == Some(self@.call()),
    {
        proof {
            use_type_invariant(self);
        }
        if self.halted || self.mapped >= self.requested {
            None
        } else if self.map {
            Some(HvcCall { func: vendor_hyp_func_id(10), arg0: self.cursor, arg1: 1, arg2: 0 })
        } else {
            Some(HvcCall { func: vendor_hyp_func_id(11), arg0: self.cursor, arg1: 1, arg2: 0 })
        }
    }

    /// Takes the answer `(result, done)` to the hypercall that `next_call`
    /// gave. The request is left as it was when the answer is fatal.
    pub fn record(&mut self, result: usize, done: usize) -> (out: Result<GuardStep, GuardError>)
        ensures
            old(self)@.wf(),
            final(self)@.wf(),
            match old(self)@.step(result, done) {
                Err(e) => out == Err::<GuardStep, GuardError>(e) && final(self)@ == old(self)@,
                Ok(after) => final(self)@ == after && out == Ok::<GuardStep, GuardError>(
                    step_kind(old(self)@, done),
                ),
            },
    {
        proof {
            use_type_invariant(&*self);
        }
        if self.halted || self.mapped >= self.requested {
            return Ok(GuardStep::Ignored);
        }
        let remaining: usize = self.requested - self.mapped;
        let granted: usize = match __invoke_mmioguard(self.cursor, remaining, self.map, result, done) {
            Err(e) => {
                return Err(e);
            },
            Ok(granted) => granted,
        };
        if granted > remaining {
            self.halted = true;
            return Ok(GuardStep::Overshoot);
        }
        proof {
            lemma_mul_inequality(granted as int, remaining as int, self.granule as int);
            lemma_mul_is_distributive_add_other_way(self.granule as int, self.mapped as int, granted as int);
            lemma_mul_inequality((self.mapped + granted) as int, self.requested as int, self.granule as int);
        }
        *self = GuardProgress {
            granule: self.granule,
            base: self.base,
            requested: self.requested,
            mapped: self.mapped + granted,
            cursor: self.cursor + granted * self.granule,
            map: self.map,
            halted: self.halted,
        };
        Ok(GuardStep::Advanced)
    }
}

/// The end of a run as the caller sees it.
#[derive(Clone, Copy, Debug, PartialEq, Eq, Structural)]
pub struct XmapOutcome {
    /// Granules authorized.
    pub mapped: usize,
    /// Index of the first answer that was not consumed.
    pub next: usize,
    /// Whether the run stopped on a grant larger than what remained.
    pub overshoot: bool,
}

/// Authorizes (`map`) or revokes `nr_granules` granules from `phys_addr` on,
/// taking the answers to its hypercalls from `responses[start..]` in order.
pub fn __do_xmap_granules(
    granule: usize,
    phys_addr: usize,
    nr_granules: usize,
    map: bool,
    responses: &Vec<(usize, usize)>,
    start: usize,
) -> (out: Result<XmapOutcome, GuardError>)
    requires
        granule > 0,
        phys_addr + nr_granules * granule <= usize::MAX,
        start <= responses.len(),
    ensures
        out matches Ok(o) ==> start <= o.next <= responses.len(),
        ({
            let end = run(ProgressView::start(granule, phys_addr, nr_granules, map), responses@, start as int);
            match out {
                Err(e) => end.error == Some(e),
                Ok(o) => {
                    &&& end.error is None
                    &&& o.mapped == end.state.mapped
                    &&& o.next == end.next
                    &&& o.overshoot == end.state.halted
                },
            }
        }),
{
    let mut progress = GuardProgress::new(granule, phys_addr, nr_granules, map);
    let ghost initial = progress@;
    let mut i: usize = start;
    while i < responses.len() && !progress.halted() && progress.remaining() > 0
        invariant
            start <= i <= responses.len(),
            initial == ProgressView::start(granule, phys_addr, nr_granules, map),
            run(initial, responses@, start as int) == run(progress@, responses@, i as int),
        decreases responses.len() - i,
    {
        let answer: (usize, usize) = responses[i];
        match progress.record(answer.0, answer.1) {
            Err(e) => {
                return Err(e);
            },
            Ok(_) => {},
        }
        i = i + 1;
    }
    Ok(XmapOutcome { mapped: progress.mapped(), next: i, overshoot: progress.halted() })
}

/// What authorizing the region `(phys_addr, size)` gives: an error for a size
/// that is not a whole number of granules, the fatal error of the run, an error
/// when fewer granules were authorized than the region holds, and else the
/// count, which is the requested one.
pub open spec fn authorize(
    granule: usize,
    phys_addr: usize,
    size: usize,
    responses: Seq<(usize, usize)>,
    start: int,
) -> Result<XmapOutcome, GuardError> {
    if size % granule != 0 {
        Err(GuardError::UnalignedSize { size, granule })
    } else {
        let requested = size / granule;
        let end = run(ProgressView::start(granule, phys_addr, requested, true), responses, start);
        match end.error {
            Some(e) => Err(e),
            None => if end.state.mapped != requested {
                Err(GuardError::CountMismatch { requested, authorized: end.state.mapped as usize })
            } else {
                Ok(XmapOutcome { mapped: requested, next: end.next as usize, overshoot: false })
            },
        }
    }
}

/// Opens the authorization of the MMIO region `(phys_addr, size)`. A region
/// whose size is not a whole number of granules is rejected before any
/// hypercall.
pub fn begin_xmap(registry: &GuardGranule, phys_addr: usize, size: usize) -> (out: Result<GuardProgress, GuardError>)
    requires
        registry@ is Some,
        phys_addr + size <= usize::MAX,
    ensures
        match out {
            Err(e) => size % registry@.unwrap() != 0 && e == (GuardError::UnalignedSize {
                size,
                granule: registry@.unwrap(),
            }),
            Ok(progress) => size % registry@.unwrap() == 0 && progress@ == ProgressView::start(
                registry@.unwrap(),
                phys_addr,
                (size / registry@.unwrap()) as usize,
                true,
            ),
        },
{
    let granule: usize = registry.get().unwrap();
    if size % granule != 0 {
        return Err(GuardError::UnalignedSize { size, granule });
    }
    let nr_granules: usize = size / granule;
    proof {
        vstd::arithmetic::div_mod::lemma_fundamental_div_mod(size as int, granule as int);
        vstd::arithmetic::mul::lemma_mul_is_commutative(granule as int, nr_granules as int);
    }
    Ok(GuardProgress::new(granule, phys_addr, nr_granules, true))
}

/// Authorizes the MMIO region `(phys_addr, size)`, taking the answers to its
/// hypercalls from `responses[start..]` in order.
pub fn do_xmap_granules(
    registry: &GuardGranule,
    phys_addr: usize,
    size: usize,
    responses: &Vec<(usize, usize)>,
    start: usize,
) -> (out: Result<XmapOutcome, GuardError>)
    requires
        registry@ is Some,
        phys_addr + size <= usize::MAX,
        start <= responses.len(),
    ensures
        out == authorize(registry@.unwrap(), phys_addr, size, responses@, start as int),
        out matches Ok(o) ==> start <= o.next <= responses.len(),
{
    let granule: usize = registry.get().unwrap();
    if size % granule != 0 {
        return Err(GuardError::UnalignedSize { size, granule });
    }
    let nr_granules: usize = size / granule;
    proof {
        vstd::arithmetic::div_mod::lemma_fundamental_div_mod(size as int, granule as int);
        vstd::arithmetic::mul::lemma_mul_is_commutative(granule as int, nr_granules as int);
        lemma_run_bounded(ProgressView::start(granule, phys_addr, nr_granules, true), responses@, start as int);
    }
    let ret = match __do_xmap_granules(granule, phys_addr, nr_granules, true, responses, start) {
        Err(e) => {
            return Err(e);
        },
        Ok(ret) => ret,
    };
    if ret.mapped != nr_granules {
        return Err(GuardError::CountMismatch { requested: nr_granules, authorized: ret.mapped });
    }
    Ok(XmapOutcome { mapped: nr_granules, next: ret.next, overshoot: false })
}

/// A run keeps the request well formed and never authorizes more than was
/// requested. It consumes answers in order. If it stopped on a grant larger
/// than what remained, it reports fewer granules than were requested.
pub proof fn lemma_run_bounded(state: ProgressView, responses: Seq<(usize, usize)>, from: int)
    requires
        state.wf(),
        0 <= from <= responses.len(),
    ensures
        ({
            let end = run(state, responses, from);
            &&& end.state.wf()
            &&& end.state.requested == state.requested
            &&& state.mapped <= end.state.mapped <= state.requested
            &&& from <= end.next <= responses.len()
            &&& (end.state.halted && !state.halted ==> end.state.mapped < state.requested)
            &&& (end.state.halted && !state.halted ==> end.error is None)
        }),
    decreases responses.len() - from,
{
    if from >= responses.len() || state.finished() {
    } else {
        match state.step(responses[from].0, responses[from].1) {
            Err(e) => {},
            Ok(after) => {
                lemma_run_bounded(after, responses, from + 1);
            },
        }
    }
}

/// When the hypervisor grants exactly one granule per call, a run that has an
/// answer for every granule authorizes all of them, with one call each.
pub proof fn lemma_unit_grants_complete(state: ProgressView, responses: Seq<(usize, usize)>, from: int)
    requires
        state.wf(),
        !state.halted,
        0 <= from,
        from + state.remaining() <= responses.len(),
        forall|i: int| from <= i < from + state.remaining() ==> responses[i] == (0usize, 1usize),
    ensures
        run(state, responses, from) == (RunOutcome {
            state: ProgressView { mapped: state.requested, ..state },
            next: from + state.remaining(),
            error: None,
        }),
    decreases state.remaining(),
{
    if state.remaining() > 0 {
        let after = ProgressView { mapped: state.mapped + 1nat, ..state };
        lemma_unit_grants_complete(after, responses, from + 1);
    }
}

/// For every region whose size is a whole number of granules, authorization
/// under a hypervisor that grants exactly one granule per call succeeds with
/// `size / granule` granules and as many hypercalls.
pub proof fn lemma_authorize_unit_grants(
    granule: usize,
    phys_addr: usize,
    size: usize,
    responses: Seq<(usize, usize)>,
    start: int,
)
    requires
        granule > 0,
        size % granule == 0,
        phys_addr + size <= usize::MAX,
        0 <= start,
        start + size / granule <= responses.len(),
        responses.len() <= usize::MAX,
        forall|i: int| start <= i < start + size / granule ==> responses[i] == (0usize, 1usize),
    ensures
        authorize(granule, phys_addr, size, responses, start) == Ok::<XmapOutcome, GuardError>(
            XmapOutcome { mapped: size / granule, next: (start + size / granule) as usize, overshoot: false },
        ),
{
    let requested = size / granule;
    vstd::arithmetic::div_mod::lemma_fundamental_div_mod(size as int, granule as int);
    vstd::arithmetic::mul::lemma_mul_is_commutative(granule as int, requested as int);
    lemma_unit_grants_complete(ProgressView::start(granule, phys_addr, requested, true), responses, start);
}

/// For a request that is under way, a grant larger than what remains ends
/// every run at once: nothing is added to the count, which stays below the
/// requested one, and no further answer is consumed.
pub proof fn lemma_overshoot_stops_early(state: ProgressView, responses: Seq<(usize, usize)>, from: int)
    requires
        state.wf(),
        !state.finished(),
        0 <= from < responses.len(),
        responses[from].0 == 0,
        responses[from].1 > state.remaining(),
    ensures
        run(state, responses, from) == (RunOutcome {
            state: ProgressView { halted: true, ..state },
            next: from + 1,
            error: None,
        }),
        run(state, responses, from).state.mapped < state.requested,
{
    let after = ProgressView { halted: true, ..state };
    assert(run(after, responses, from + 1) == (RunOutcome { state: after, next: from + 1, error: None }));
}

/// When the run for a region stops on a grant larger than what remained, the
/// region's authorization ends in a mismatch that reports fewer granules than
/// the region holds.
pub proof fn lemma_overshoot_is_mismatch(
    granule: usize,
    phys_addr: usize,
    size: usize,
    responses: Seq<(usize, usize)>,
    start: int,
)
    requires
        granule > 0,
        size % granule == 0,
        phys_addr + size <= usize::MAX,
        0 <= start <= responses.len(),
        run(ProgressView::start(granule, phys_addr, (size / granule) as usize, true), responses, start).state.halted,
    ensures
        authorize(granule, phys_addr, size, responses, start) matches Err(
            GuardError::CountMismatch { requested, authorized },
        ) && requested == size / granule && authorized < requested,
{
    let requested = size / granule;
    vstd::arithmetic::div_mod::lemma_fundamental_div_mod(size as int, granule as int);
    vstd::arithmetic::mul::lemma_mul_is_commutative(granule as int, requested as int);
    lemma_run_bounded(ProgressView::start(granule, phys_addr, requested, true), responses, start);
}

/// The line that announces the discovered granule size.
pub open spec fn granule_banner(granule: usize) -> Seq<u8> {
    "KVM MMIO guard granule: ".spec_bytes() + usize_text(granule)
}

/// Sends the line that announces the discovered granule size.
pub fn print_guard_granule(wire: &mut Vec<u8>, granule: usize)
    ensures
        final(wire)@ == old(wire)@ + granule_banner(granule),
{
    boot_print_str(wire, "KVM MMIO guard granule: ");
    boot_print_usize(wire, granule);
}

/// The dump of a failed guard hypercall: its function identifier, its two
/// arguments and both answer words, one line each.
pub open spec fn hypercall_failure_text(func: u32, arg0: usize, arg1: usize, ret0: usize, ret1: usize) -> Seq<u8> {
    "[error] psci_hvc_call failed\r\n".spec_bytes() + "    func = ".spec_bytes() + usize_text(func as usize)
        + "    arg0 = ".spec_bytes() + usize_text(arg0) + "    arg1 = ".spec_bytes() + usize_text(arg1)
        + "    ret0 = ".spec_bytes() + usize_text(ret0) + "    ret1 = ".spec_bytes() + usize_text(ret1)
}

/// What goes out on the console for an error: the dump of the failed call
/// for a hypercall that failed, and nothing for the others.
pub open spec fn error_text(error: GuardError) -> Seq<u8> {
    match error {
        GuardError::HypercallFailed { func, arg0, arg1, ret0, ret1 } => hypercall_failure_text(
            func,
            arg0,
            arg1,
            ret0,
            ret1,
        ),
        _ => Seq::empty(),
    }
}

/// Sends what the console shows for `error` before the boot is given up.
pub fn print_guard_error(wire: &mut Vec<u8>, error: GuardError)
    ensures
        final(wire)@ == old(wire)@ + error_text(error),
{
    match error {
        GuardError::HypercallFailed { func, arg0, arg1, ret0, ret1 } => {
            boot_print_str(wire, "[error] psci_hvc_call failed\r\n");
            boot_print_str(wire, "    func = ");
            boot_print_usize(wire, func as usize);
            boot_print_str(wire, "    arg0 = ");
            boot_print_usize(wire, arg0);
            boot_print_str(wire, "    arg1 = ");
            boot_print_usize(wire, arg1);
            boot_print_str(wire, "    ret0 = ");
            boot_print_usize(wire, ret0);
            boot_print_str(wire, "    ret1 = ");
            boot_print_usize(wire, ret1);
        },
        _ => {
        },
    }
}

/// Sends the warning for a grant larger than what remained, if the run
/// stopped on one.
pub fn print_overshoot_warning(wire: &mut Vec<u8>, outcome: XmapOutcome)
    ensures
        final(wire)@ == old(wire)@ + (if outcome.overshoot {
            "[warning] __invoke_mmioguard".spec_bytes()
        } else {
            Seq::empty()
        }),
{
    if outcome.overshoot {
        boot_print_str(wire, "[warning] __invoke_mmioguard");
    } else {
    }
}

/// The hypercalls that share (`func`) or unshare a buffer: one per whole page
/// of `size`, in address order.
pub open spec fn dma_calls(func: u32, paddr: usize, size: usize) -> Seq<HvcCall> {
    Seq::new(
        (size / DMA_PAGE_SIZE) as nat,
        |i: int| HvcCall { func, arg0: (paddr + DMA_PAGE_SIZE * i) as usize, arg1: 1, arg2: 0 },
    )
}

fn dma_page_calls(func: u32, paddr: usize, size: usize) -> (calls: Vec<HvcCall>)
    requires
        paddr + size <= usize::MAX,
    ensures
        calls@ == dma_calls(func, paddr, size),
{
    let page_size: usize = DMA_PAGE_SIZE;
    let pages: usize = size / page_size;
    let mut calls: Vec<HvcCall> = Vec::new();
    let mut i: usize = 0;
    while i < pages
        invariant
            page_size == DMA_PAGE_SIZE,
            pages == size / DMA_PAGE_SIZE,
            paddr + size <= usize::MAX,
            i <= pages,
            calls@ == Seq::new(
                i as nat,
                |k: int| HvcCall { func, arg0: (paddr + DMA_PAGE_SIZE * k) as usize, arg1: 1, arg2: 0 },
            ),
        decreases pages - i,
    {
        calls.push(HvcCall { func, arg0: paddr + page_size * i, arg1: 1, arg2: 0 });
        i = i + 1;
    }
    calls
}

/// The hypercalls that make the buffer `(paddr, size)` private again.
pub fn unshare_dma_buffer(paddr: usize, size: usize) -> (calls: Vec<HvcCall>)
    requires
        paddr + size <= usize::MAX,
    ensures
        calls@ == dma_calls(ARM_SMCCC_VENDOR_HYP_KVM_MEM_UNSHARE_FUNC_ID, paddr, size),
{
    dma_page_calls(vendor_hyp_func_id(4), paddr, size)
}

/// The hypercalls that share the buffer `(paddr, size)` with the hypervisor.
pub fn share_dma_buffer(paddr: usize, size: usize) -> (calls: Vec<HvcCall>)
    requires
        paddr + size <= usize::MAX,
    ensures
        calls@ == dma_calls(ARM_SMCCC_VENDOR_HYP_KVM_MEM_SHARE_FUNC_ID, paddr, size),
{
    dma_page_calls(vendor_hyp_func_id(3), paddr, size)
}

/// The pages whose hypercall failed, among the first `count` calls: the
/// address of each call with a non-zero first answer word, in call order.
pub open spec fn dma_failures(calls: Seq<HvcCall>, results: Seq<(usize, usize)>, count: nat) -> Seq<usize>
    decreases count,
{
    if count == 0 {
        Seq::empty()
    } else {
        let rest = dma_failures(calls, results, (count - 1) as nat);
        if results[count - 1].0 != 0 {
            rest.push(calls[count - 1].arg0)
        } else {
            rest
        }
    }
}

/// The addresses of the pages that could not be shared or unshared, given the
/// answer to each call. A failed page does not stop the others. Calls without
/// an answer, and answers without a call, are passed over.
pub fn dma_failed_pages(calls: &Vec<HvcCall>, results: &Vec<(usize, usize)>) -> (failed: Vec<usize>)
    ensures
        failed@ == dma_failures(
            calls@,
            results@,
            if calls.len() <= results.len() {
                calls.len() as nat
            } else {
                results.len() as nat
            },
        ),
{
    let count: usize = if calls.len() <= results.len() {
        calls.len()
    } else {
        results.len()
    };
    let mut failed: Vec<usize> = Vec::new();
    let mut i: usize = 0;
    while i < count
        invariant
            count <= calls.len(),
            count <= results.len(),
            i <= count,
            failed@ == dma_failures(calls@, results@, i as nat),
        decreases count - i,
    {
        if results[i].0 != 0 {
            failed.push(calls[i].arg0);
        }
        i = i + 1;
    }
    failed
}

} // verus!
