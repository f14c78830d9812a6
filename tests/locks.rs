use kernel::lock::{BakeryTicket, LockVar};
use kernel::regs::{enabled, get_mair, get_tcr, get_tcr_el1, update_sctlr};

#[test]
fn spinlock_counts_every_increment() {
    let mut lv = LockVar::new();
    let mut shared: u64 = 0;
    for _core in 0..4 {
        for _ in 0..100_000 {
            let _g = lv.lock();
            shared += 1;
        }
    }
    assert_eq!(shared, 400_000);
    assert!(!lv.is_locked());
}

#[test]
fn spinlock_held_while_guard_lives() {
    let mut lv = LockVar::new();
    assert!(!lv.is_locked());
    {
        let _g = lv.lock();
    }
    assert!(!lv.is_locked());
}

#[test]
fn bakery_tickets_increase() {
    let mut t = BakeryTicket::new();
    t.take_ticket(0);
    assert_eq!(t.number(0), 1);
    t.take_ticket(1);
    assert_eq!(t.number(1), 2);
    assert!(t.may_enter(0));
    assert!(!t.may_enter(1));
    t.release(0);
    assert!(t.may_enter(1));
    t.take_ticket(0);
    assert_eq!(t.number(0), 3);
    assert!(!t.may_enter(0));
    t.release(1);
    assert!(t.may_enter(0));
}

#[test]
fn bakery_equal_numbers_go_by_index() {
    let mut t = BakeryTicket::new();
    t.take_ticket(2);
    t.release(2);
    t.take_ticket(3);
    assert_eq!(t.number(3), 1);
    assert!(t.may_enter(3));
}

#[test]
fn bakery_alternating_cores() {
    let mut t = BakeryTicket::new();
    let mut shared: u64 = 0;
    for round in 0..1000usize {
        let core = round % 2;
        let _g = t.lock(core);
        shared += 1;
    }
    assert_eq!(shared, 1000);
    for c in 0..4 {
        assert_eq!(t.number(c), 0);
    }
}

#[test]
fn register_values() {
    assert_eq!(get_mair(), 0x0000_0000_0044_04FF);
    assert_eq!(get_tcr(0x1), 0x8081_7516);
    assert_eq!(get_tcr(0xFFF5), 0x8085_7516);
    assert_eq!(get_tcr_el1(0x2), 0x2_F516_7516);
    assert_eq!(update_sctlr(0), 0x1000_0000_1005);
    assert_eq!(update_sctlr(0x0208_001A), 0x1000_0000_1015);
    assert_eq!(enabled(1, 0x1), Some(true));
    assert_eq!(enabled(3, 0x2), Some(false));
    assert_eq!(enabled(0, 0x1), None);
    assert_eq!(enabled(4, 0x1), None);
}
