use pkvm_plat::psci::{
    __do_xmap_granules, __invoke_mmioguard, begin_xmap, dma_failed_pages, do_xmap_granules, guard_info_call,
    kvm_guard_granule_init, print_guard_error, print_guard_granule, print_overshoot_warning,
    share_dma_buffer, unshare_dma_buffer, vendor_hyp_func_id, GuardError, GuardGranule,
    GuardProgress, GuardStep, HvcCall, XmapOutcome, ARM_SMCCC_VENDOR_HYP_KVM_MEM_SHARE_FUNC_ID,
    ARM_SMCCC_VENDOR_HYP_KVM_MEM_UNSHARE_FUNC_ID, ARM_SMCCC_VENDOR_HYP_KVM_MMIO_GUARD_INFO_FUNC_ID,
    ARM_SMCCC_VENDOR_HYP_KVM_MMIO_RGUARD_MAP_FUNC_ID,
    ARM_SMCCC_VENDOR_HYP_KVM_MMIO_RGUARD_UNMAP_FUNC_ID,
};

fn discovered(granule: usize) -> GuardGranule {
    let mut registry = GuardGranule::new();
    assert_eq!(kvm_guard_granule_init(&mut registry, granule, 1), Ok(granule));
    registry
}

fn unit_grants(count: usize) -> Vec<(usize, usize)> {
    vec![(0, 1); count]
}

#[test]
fn function_identifiers_follow_the_vendor_encoding() {
    assert_eq!(vendor_hyp_func_id(0), 0xC600_0000);
    assert_eq!(vendor_hyp_func_id(3), ARM_SMCCC_VENDOR_HYP_KVM_MEM_SHARE_FUNC_ID);
    assert_eq!(vendor_hyp_func_id(4), ARM_SMCCC_VENDOR_HYP_KVM_MEM_UNSHARE_FUNC_ID);
    assert_eq!(vendor_hyp_func_id(5), ARM_SMCCC_VENDOR_HYP_KVM_MMIO_GUARD_INFO_FUNC_ID);
    assert_eq!(vendor_hyp_func_id(10), ARM_SMCCC_VENDOR_HYP_KVM_MMIO_RGUARD_MAP_FUNC_ID);
    assert_eq!(vendor_hyp_func_id(11), ARM_SMCCC_VENDOR_HYP_KVM_MMIO_RGUARD_UNMAP_FUNC_ID);
    assert_eq!(vendor_hyp_func_id(0xFFFF), 0xC600_FFFF);
}

#[test]
fn guard_info_call_has_no_arguments() {
    assert_eq!(guard_info_call(), HvcCall { func: 0xC600_0005, arg0: 0, arg1: 0, arg2: 0 });
}

#[test]
fn registry_starts_empty() {
    assert_eq!(GuardGranule::new().get(), None);
}

#[test]
fn discovery_stores_the_granule_once() {
    let mut registry = GuardGranule::new();
    assert_eq!(kvm_guard_granule_init(&mut registry, 4096, 1), Ok(4096));
    assert_eq!(registry.get(), Some(4096));
    assert_eq!(kvm_guard_granule_init(&mut registry, 16384, 1), Ok(4096));
    assert_eq!(registry.get(), Some(4096));
}

#[test]
fn discovery_fails_without_range_support() {
    let mut registry = GuardGranule::new();
    assert_eq!(
        kvm_guard_granule_init(&mut registry, 4096, 0),
        Err(GuardError::RangeUnsupported { has_range: 0 })
    );
    assert_eq!(registry.get(), None);
    assert_eq!(
        kvm_guard_granule_init(&mut registry, 4096, 2),
        Err(GuardError::RangeUnsupported { has_range: 2 })
    );
    assert_eq!(registry.get(), None);
}

#[test]
fn discovery_checks_the_range_flag_on_later_calls_too() {
    let mut registry = discovered(4096);
    assert_eq!(
        kvm_guard_granule_init(&mut registry, 4096, 0),
        Err(GuardError::RangeUnsupported { has_range: 0 })
    );
    assert_eq!(registry.get(), Some(4096));
}

#[test]
fn discovery_rejects_a_zero_granule() {
    let mut registry = GuardGranule::new();
    assert_eq!(kvm_guard_granule_init(&mut registry, 0, 1), Err(GuardError::ZeroGranule));
    assert_eq!(registry.get(), None);
    assert_eq!(kvm_guard_granule_init(&mut registry, 4096, 1), Ok(4096));
}

#[test]
fn answer_with_zero_result_grants_what_it_reports() {
    assert_eq!(__invoke_mmioguard(0x1000, 4, true, 0, 1), Ok(1));
    assert_eq!(__invoke_mmioguard(0x1000, 4, false, 0, 9), Ok(9));
}

#[test]
fn answer_with_non_zero_result_is_fatal() {
    assert_eq!(
        __invoke_mmioguard(0x1000, 4, true, 3, 1),
        Err(GuardError::HypercallFailed { func: 0xC600_000A, arg0: 0x1000, arg1: 4, ret0: 3, ret1: 1 })
    );
    assert_eq!(
        __invoke_mmioguard(0x2000, 7, false, usize::MAX, 0),
        Err(GuardError::HypercallFailed {
            func: 0xC600_000B,
            arg0: 0x2000,
            arg1: 7,
            ret0: usize::MAX,
            ret1: 0
        })
    );
}

#[test]
fn unit_grants_authorize_every_granule() {
    for granules in [0usize, 1, 2, 7, 64, 513] {
        let responses = unit_grants(granules + 3);
        let out = __do_xmap_granules(4096, 0x4000_0000, granules, true, &responses, 0);
        assert_eq!(out, Ok(XmapOutcome { mapped: granules, next: granules, overshoot: false }));
    }
}

#[test]
fn region_of_whole_granules_is_authorized_in_full() {
    let registry = discovered(0x1_0000);
    for granules in [0usize, 1, 3, 100] {
        let responses = unit_grants(granules);
        let out = do_xmap_granules(&registry, 0x5000_0000, granules * 0x1_0000, &responses, 0);
        assert_eq!(out, Ok(XmapOutcome { mapped: granules, next: granules, overshoot: false }));
    }
}

#[test]
fn boot_scenario_authorizes_both_windows() {
    let mut registry = GuardGranule::new();
    assert_eq!(kvm_guard_granule_init(&mut registry, 4096, 1), Ok(4096));
    let responses = unit_grants(0x20_0000 / 4096 + 0x100_0000 / 4096);

    let gic = do_xmap_granules(&registry, 0x3ffb_0000, 0x20_0000, &responses, 0).unwrap();
    assert_eq!(gic.mapped, 0x20_0000 / 4096);
    assert_eq!(gic.mapped, 512);
    assert!(!gic.overshoot);

    let pci = do_xmap_granules(&registry, 0x7200_0000, 0x100_0000, &responses, gic.next).unwrap();
    assert_eq!(pci.mapped, 4096);
    assert_eq!(pci.next, responses.len());
}

#[test]
fn larger_grants_move_the_cursor_further() {
    let responses = vec![(0, 2), (0, 0), (0, 3), (0, 1)];
    let out = __do_xmap_granules(4096, 0x1000, 5, true, &responses, 0);
    assert_eq!(out, Ok(XmapOutcome { mapped: 5, next: 3, overshoot: false }));
}

#[test]
fn overshooting_grant_stops_the_run_early() {
    let responses = vec![(0, 1), (0, 1), (0, 5), (0, 1), (0, 1)];
    let out = __do_xmap_granules(4096, 0x1000, 4, true, &responses, 0);
    assert_eq!(out, Ok(XmapOutcome { mapped: 2, next: 3, overshoot: true }));
}

#[test]
fn overshooting_grant_on_the_first_call_authorizes_nothing() {
    let responses = vec![(0, 2)];
    let out = __do_xmap_granules(4096, 0x1000, 1, true, &responses, 0);
    assert_eq!(out, Ok(XmapOutcome { mapped: 0, next: 1, overshoot: true }));
}

#[test]
fn overshoot_is_a_count_mismatch_for_the_region() {
    let registry = discovered(4096);
    let responses = vec![(0, 1), (0, 1), (0, 5), (0, 1), (0, 1)];
    assert_eq!(
        do_xmap_granules(&registry, 0x1000, 4 * 4096, &responses, 0),
        Err(GuardError::CountMismatch { requested: 4, authorized: 2 })
    );
}

#[test]
fn answers_that_run_out_are_a_count_mismatch() {
    let registry = discovered(4096);
    let responses = unit_grants(3);
    assert_eq!(
        do_xmap_granules(&registry, 0x1000, 4 * 4096, &responses, 0),
        Err(GuardError::CountMismatch { requested: 4, authorized: 3 })
    );
    assert_eq!(
        do_xmap_granules(&registry, 0x1000, 4 * 4096, &responses, 3),
        Err(GuardError::CountMismatch { requested: 4, authorized: 0 })
    );
}

#[test]
fn size_that_is_no_multiple_of_the_granule_is_rejected() {
    let registry = discovered(4096);
    let responses = unit_grants(8);
    assert_eq!(
        do_xmap_granules(&registry, 0x1000, 4097, &responses, 0),
        Err(GuardError::UnalignedSize { size: 4097, granule: 4096 })
    );
    assert_eq!(
        do_xmap_granules(&registry, 0x1000, 100, &responses, 0),
        Err(GuardError::UnalignedSize { size: 100, granule: 4096 })
    );
}

#[test]
fn failed_hypercall_reports_the_call_and_both_answers() {
    let registry = discovered(4096);
    let responses = vec![(0, 1), (7, 9), (0, 1)];
    assert_eq!(
        do_xmap_granules(&registry, 0x8000, 4 * 4096, &responses, 0),
        Err(GuardError::HypercallFailed {
            func: 0xC600_000A,
            arg0: 0x9000,
            arg1: 3,
            ret0: 7,
            ret1: 9
        })
    );
}

#[test]
fn revoking_uses_the_unmap_identifier() {
    let responses = vec![(1, 0)];
    assert_eq!(
        __do_xmap_granules(4096, 0x8000, 2, false, &responses, 0),
        Err(GuardError::HypercallFailed {
            func: 0xC600_000B,
            arg0: 0x8000,
            arg1: 2,
            ret0: 1,
            ret1: 0
        })
    );
}

#[test]
fn progress_asks_for_one_granule_at_the_cursor() {
    let mut progress = GuardProgress::new(0x1000, 0x10_0000, 3, true);
    assert_eq!(progress.remaining(), 3);
    assert_eq!(progress.mapped(), 0);
    assert_eq!(
        progress.next_call(),
        Some(HvcCall { func: 0xC600_000A, arg0: 0x10_0000, arg1: 1, arg2: 0 })
    );
    assert_eq!(progress.record(0, 1), Ok(GuardStep::Advanced));
    assert_eq!(
        progress.next_call(),
        Some(HvcCall { func: 0xC600_000A, arg0: 0x10_1000, arg1: 1, arg2: 0 })
    );
    assert_eq!(progress.record(0, 2), Ok(GuardStep::Advanced));
    assert_eq!(progress.mapped(), 3);
    assert_eq!(progress.remaining(), 0);
    assert_eq!(progress.next_call(), None);
    assert!(!progress.halted());
}

#[test]
fn progress_halts_on_overshoot_and_keeps_its_count() {
    let mut progress = GuardProgress::new(0x1000, 0x10_0000, 3, false);
    assert_eq!(progress.record(0, 1), Ok(GuardStep::Advanced));
    assert_eq!(progress.record(0, 3), Ok(GuardStep::Overshoot));
    assert!(progress.halted());
    assert_eq!(progress.mapped(), 1);
    assert_eq!(progress.remaining(), 2);
    assert_eq!(progress.next_call(), None);
}

#[test]
fn progress_is_unchanged_by_a_fatal_answer() {
    let mut progress = GuardProgress::new(0x1000, 0x10_0000, 3, true);
    assert_eq!(progress.record(0, 1), Ok(GuardStep::Advanced));
    assert_eq!(
        progress.record(5, 6),
        Err(GuardError::HypercallFailed {
            func: 0xC600_000A,
            arg0: 0x10_1000,
            arg1: 2,
            ret0: 5,
            ret1: 6
        })
    );
    assert_eq!(progress.mapped(), 1);
    assert!(!progress.halted());
    assert_eq!(
        progress.next_call(),
        Some(HvcCall { func: 0xC600_000A, arg0: 0x10_1000, arg1: 1, arg2: 0 })
    );
}

#[test]
fn empty_request_needs_no_call() {
    let progress = GuardProgress::new(4096, 0x1000, 0, true);
    assert_eq!(progress.next_call(), None);
}

#[test]
fn sharing_issues_one_call_per_page() {
    let calls = share_dma_buffer(0x8000_0000, 0x3000);
    assert_eq!(
        calls,
        vec![
            HvcCall { func: 0xC600_0003, arg0: 0x8000_0000, arg1: 1, arg2: 0 },
            HvcCall { func: 0xC600_0003, arg0: 0x8000_1000, arg1: 1, arg2: 0 },
            HvcCall { func: 0xC600_0003, arg0: 0x8000_2000, arg1: 1, arg2: 0 },
        ]
    );
}

#[test]
fn unsharing_issues_one_call_per_whole_page() {
    let calls = unshare_dma_buffer(0x8000_0000, 0x2fff);
    assert_eq!(
        calls,
        vec![
            HvcCall { func: 0xC600_0004, arg0: 0x8000_0000, arg1: 1, arg2: 0 },
            HvcCall { func: 0xC600_0004, arg0: 0x8000_1000, arg1: 1, arg2: 0 },
        ]
    );
    assert!(unshare_dma_buffer(0x8000_0000, 0xfff).is_empty());
    assert!(share_dma_buffer(0x8000_0000, 0).is_empty());
}

#[test]
fn failed_pages_are_listed_and_the_rest_goes_on() {
    let calls = share_dma_buffer(0x1_0000, 0x4000);
    let results = vec![(0, 0), (1, 0), (0, 5), (usize::MAX, 0)];
    assert_eq!(dma_failed_pages(&calls, &results), vec![0x1_1000, 0x1_3000]);
    let fine = vec![(0, 0); 4];
    assert!(dma_failed_pages(&calls, &fine).is_empty());
}

#[test]
fn granule_banner_shows_the_size() {
    let mut wire = Vec::new();
    print_guard_granule(&mut wire, 4096);
    assert_eq!(wire, b"KVM MMIO guard granule: 0x1000\r\n".to_vec());
}

#[test]
fn failed_hypercall_is_dumped_line_by_line() {
    let mut wire = b">".to_vec();
    print_guard_error(
        &mut wire,
        GuardError::HypercallFailed { func: 0xC600_000A, arg0: 0x3ffb_0000, arg1: 512, ret0: 1, ret1: 0 },
    );
    let expected = ">[error] psci_hvc_call failed\r\n    func = 0xc600000a\r\n    arg0 = 0x3ffb0000\r\n    arg1 = 0x200\r\n    ret0 = 0x1\r\n    ret1 = 0x0\r\n";
    assert_eq!(wire, expected.as_bytes().to_vec());
}

#[test]
fn other_errors_print_nothing() {
    let mut wire = Vec::new();
    print_guard_error(&mut wire, GuardError::ZeroGranule);
    print_guard_error(&mut wire, GuardError::RangeUnsupported { has_range: 0 });
    print_guard_error(&mut wire, GuardError::UnalignedSize { size: 1, granule: 2 });
    print_guard_error(&mut wire, GuardError::CountMismatch { requested: 2, authorized: 1 });
    assert!(wire.is_empty());
}

#[test]
fn overshoot_warning_is_printed_only_after_an_overshoot() {
    let mut wire = Vec::new();
    print_overshoot_warning(&mut wire, XmapOutcome { mapped: 4, next: 4, overshoot: false });
    assert!(wire.is_empty());
    print_overshoot_warning(&mut wire, XmapOutcome { mapped: 2, next: 3, overshoot: true });
    assert_eq!(wire, b"[warning] __invoke_mmioguard".to_vec());
}

#[test]
fn opened_request_runs_to_the_requested_count() {
    let registry = discovered(4096);
    let mut progress = begin_xmap(&registry, 0x3ffb_0000, 0x3000).unwrap();
    assert_eq!(progress.finish(), Err(GuardError::CountMismatch { requested: 3, authorized: 0 }));
    let mut calls = Vec::new();
    while let Some(call) = progress.next_call() {
        calls.push(call.arg0);
        assert_eq!(progress.record(0, 1), Ok(GuardStep::Advanced));
    }
    assert_eq!(calls, vec![0x3ffb_0000, 0x3ffb_1000, 0x3ffb_2000]);
    assert_eq!(progress.finish(), Ok(3));
}

#[test]
fn unaligned_region_cannot_be_opened() {
    let registry = discovered(4096);
    assert_eq!(
        begin_xmap(&registry, 0x1000, 0x1800).unwrap_err(),
        GuardError::UnalignedSize { size: 0x1800, granule: 4096 }
    );
}

#[test]
fn halted_request_finishes_with_a_mismatch() {
    let registry = discovered(4096);
    let mut progress = begin_xmap(&registry, 0x1000, 0x2000).unwrap();
    assert_eq!(progress.record(0, 3), Ok(GuardStep::Overshoot));
    assert_eq!(progress.finish(), Err(GuardError::CountMismatch { requested: 2, authorized: 0 }));
}

#[test]
fn answer_to_a_finished_request_is_ignored() {
    let mut progress = GuardProgress::new(4096, 0x1000, 1, true);
    assert_eq!(progress.record(0, 1), Ok(GuardStep::Advanced));
    assert_eq!(progress.record(0, 1), Ok(GuardStep::Ignored));
    assert_eq!(progress.record(9, 9), Ok(GuardStep::Ignored));
    assert_eq!(progress.mapped(), 1);
    assert_eq!(progress.finish(), Ok(1));
}

#[test]
fn failed_pages_are_taken_from_answered_calls_only() {
    let calls = share_dma_buffer(0x1_0000, 0x3000);
    assert_eq!(dma_failed_pages(&calls, &vec![(1, 0)]), vec![0x1_0000]);
    assert_eq!(dma_failed_pages(&calls, &vec![(0, 0), (2, 0), (3, 0), (4, 0)]), vec![0x1_1000, 0x1_2000]);
    assert!(dma_failed_pages(&calls, &Vec::new()).is_empty());
}
