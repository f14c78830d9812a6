use kernel::boot::{entry, init_master, print_msg, BootRole, MasterPath};
use kernel::memmap::{check_plan_fits, Addr, Sections};
use kernel::mmu::check_tables_fit;

#[test]
fn print_msg_pads_key() {
    assert_eq!(print_msg("PSCI", "enabled"), "[PSCI        ] enabled\n");
    assert_eq!(print_msg("Warning", "execution level is not EL3"), "[Warning     ] execution level is not EL3\n");
    assert_eq!(print_msg("abcdefghijkl", "x"), "[abcdefghijkl] x\n");
    assert_eq!(print_msg("abcdefghijklmn", ""), "[abcdefghijklmn] \n");
    assert_eq!(print_msg("", "v"), "[            ] v\n");
}

#[test]
fn core_zero_is_master() {
    assert_eq!(entry(0), BootRole::Master);
    assert_eq!(entry(1), BootRole::Slave);
    assert_eq!(entry(3), BootRole::Slave);
}

#[test]
fn master_path_by_exception_level() {
    assert_eq!(init_master(3), Some(MasterPath::FromEl3));
    assert_eq!(init_master(2), Some(MasterPath::FromEl2));
    assert_eq!(init_master(1), None);
    assert_eq!(init_master(0), None);
}

#[test]
fn fit_checks() {
    assert!(check_plan_fits(0x40080000));
    assert!(!check_plan_fits(u64::MAX - 0x10000));
    let mut a = Addr::new();
    a.init(0x40080000);
    let s = Sections {
        ram_start: 0x40000000,
        data_start: 0x40010000,
        data_end: 0x40018000,
        bss_start: 0x40020000,
        bss_end: 0x40028000,
        stack_firm_start: 0x40070000,
        stack_firm_end: 0x40030000,
        free_mem_start: 0x40080000,
    };
    assert!(check_tables_fit(&a, &s));
    let mut high = Addr::new();
    high.init(0x7FF00000);
    assert!(!check_tables_fit(&high, &s));
}
