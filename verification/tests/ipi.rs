use firmware::hart_mask::{HartMask, ALL_HARTS};
use firmware::ipi::{hart_present, wait_done, Ipi, IpiData, IpiFunc};

fn four_harts() -> Ipi {
    let mut ipi = Ipi::new();
    ipi.probe_hart_count(&[true, true, true, true]);
    ipi
}

#[test]
fn probing_stops_at_first_missing_hart() {
    let mut ipi = Ipi::new();
    assert_eq!(ipi.hart_count(), 0);
    ipi.probe_hart_count(&[true, true, false, true]);
    assert_eq!(ipi.hart_count(), 2);
    ipi.probe_hart_count(&[false, false, false, false]);
    assert_eq!(ipi.hart_count(), 1);
    ipi.probe_hart_count(&[true, true, true, true]);
    assert_eq!(ipi.hart_count(), 4);
    ipi.probe_hart_count(&[true, true, true, false]);
    assert_eq!(ipi.hart_count(), 3);
}

#[test]
fn a_hart_needs_both_sentinels() {
    assert!(hart_present(u64::MAX - 1, u64::MAX));
    assert!(!hart_present(0, u64::MAX));
    assert!(!hart_present(u64::MAX - 1, 0));
    assert!(!hart_present(u64::MAX, u64::MAX - 1));
}

#[test]
fn boot_hart_waits_for_all_others() {
    let mut ipi = four_harts();
    let d = ipi.run_on_hart_wait(0, HartMask::new(0b1110, 0), IpiFunc::FenceI, 0);
    assert_eq!(d.kicked, vec![1, 2, 3]);
    assert_eq!(d.blocked, None);
    assert!(!d.run_local);
    let posted = d.kicked.len() as u32;
    let mut completed = 0u32;
    assert!(!wait_done(completed, posted));
    for hart in [3usize, 1, 2] {
        assert_eq!(ipi.process_ipi(hart), Some(IpiData { func: IpiFunc::FenceI, wait: true }));
        completed += 1;
        // The mailbox is empty afterwards: the payload runs once.
        assert_eq!(ipi.process_ipi(hart), None);
        assert_eq!(wait_done(completed, posted), completed == 3);
    }
    assert_eq!(ipi.process_ipi(0), None);
}

#[test]
fn caller_runs_in_place_and_is_not_posted_to() {
    let mut ipi = four_harts();
    let d = ipi.run_on_hart(2, HartMask::new(ALL_HARTS, 0), IpiFunc::RaiseSupervisorSoftware, 0);
    assert_eq!(d.kicked, vec![0, 1, 3]);
    assert!(d.run_local);
    assert_eq!(ipi.process_ipi(2), None);
    assert_eq!(
        ipi.process_ipi(0),
        Some(IpiData { func: IpiFunc::RaiseSupervisorSoftware, wait: false })
    );
}

#[test]
fn occupied_mailbox_blocks_and_is_kept() {
    let mut ipi = four_harts();
    let first = ipi.run_on_hart(0, HartMask::new(0b0100, 0), IpiFunc::FenceI, 0);
    assert_eq!(first.kicked, vec![2]);
    let second = ipi.run_on_hart_wait(1, HartMask::new(0b1101, 0), IpiFunc::Halt, 0);
    assert_eq!(second.kicked, vec![0]);
    assert_eq!(second.blocked, Some(2));
    // Hart 2 serves the first call; the second sender goes on from hart 2.
    assert_eq!(ipi.process_ipi(2), Some(IpiData { func: IpiFunc::FenceI, wait: false }));
    let rest = ipi.run_on_hart_wait(1, HartMask::new(0b1101, 0), IpiFunc::Halt, 2);
    assert_eq!(rest.kicked, vec![2, 3]);
    assert_eq!(rest.blocked, None);
    assert_eq!(ipi.process_ipi(0), Some(IpiData { func: IpiFunc::Halt, wait: true }));
    assert_eq!(ipi.process_ipi(2), Some(IpiData { func: IpiFunc::Halt, wait: true }));
    assert_eq!(ipi.process_ipi(3), Some(IpiData { func: IpiFunc::Halt, wait: true }));
}

#[test]
fn harts_beyond_the_count_are_not_posted_to() {
    let mut ipi = Ipi::new();
    ipi.probe_hart_count(&[true, true, false, false]);
    let d = ipi.run_on_hart(0, HartMask::new(ALL_HARTS, 0), IpiFunc::FenceI, 0);
    assert_eq!(d.kicked, vec![1]);
    let none = ipi.run_on_hart(0, HartMask::new(0, 0), IpiFunc::FenceI, 0);
    assert!(none.kicked.is_empty());
    assert!(!none.run_local);
    let based = ipi.run_on_hart(1, HartMask::new(0b1, 1), IpiFunc::FenceI, 0);
    assert!(based.kicked.is_empty());
    assert!(based.run_local);
}
