use polished_boot::gdt::{
    build_gdt, build_tss, tss_descriptor, FaultStackRegion, GdtController, TssController,
    DOUBLE_FAULT_IST_INDEX, IST_STACK_SIZE, NMI_IST_INDEX,
};

fn stacks() -> (FaultStackRegion, FaultStackRegion) {
    (
        FaultStackRegion { base: 0x8000_0000, size: IST_STACK_SIZE },
        FaultStackRegion { base: 0x8000_4000, size: IST_STACK_SIZE },
    )
}

#[test]
fn test_gdt_descriptor_constants() {
    let g = build_gdt(0);
    assert_eq!(g.entries.len(), 7);
    assert_eq!(g.entries[0], 0);
    assert_eq!(g.entries[1], 0x00af9b000000ffff);
    assert_eq!(g.entries[2], 0x00cf93000000ffff);
    assert_eq!(g.entries[3], 0x00affb000000ffff);
    assert_eq!(g.entries[4], 0x00cff3000000ffff);
}

#[test]
fn test_gdt_selectors() {
    let g = build_gdt(0);
    assert_eq!(g.selectors.code, 0x08);
    assert_eq!(g.selectors.data, 0x10);
    assert_eq!(g.selectors.user_code, 0x1b);
    assert_eq!(g.selectors.user_data, 0x23);
    assert_eq!(g.selectors.tss, 0x28);
}

#[test]
fn test_tss_descriptor_bits() {
    let base: u64 = 0x0000_0001_2345_6789;
    let (low, high) = tss_descriptor(base);
    let expected_low: u64 =
        0x67 | ((base & 0xffffff) << 16) | (0x9u64 << 40) | (1u64 << 47) | (((base >> 24) & 0xff)
            << 56);
    assert_eq!(low, expected_low);
    assert_eq!(high, 0x1);
}

#[test]
fn test_tss_fault_stacks_in_range() {
    let (df, nmi) = stacks();
    let tss = build_tss(df, nmi);
    assert_eq!(tss.ist.len(), 7);
    let df_top = tss.ist[DOUBLE_FAULT_IST_INDEX as usize];
    let nmi_top = tss.ist[NMI_IST_INDEX as usize];
    assert!(df.base < df_top && df_top <= df.base + df.size);
    assert!(nmi.base < nmi_top && nmi_top <= nmi.base + nmi.size);
    for i in 0..7usize {
        if i != DOUBLE_FAULT_IST_INDEX as usize && i != NMI_IST_INDEX as usize {
            assert_eq!(tss.ist[i], 0);
        }
    }
}

#[test]
fn test_init_gdt_idempotent() {
    let (df, nmi) = stacks();
    let mut c = GdtController::new();
    let first = c.init_gdt(0x1234, df, nmi);
    let entries_after_first = match &c.built {
        Some((_, _, _, g)) => g.entries.clone(),
        None => panic!("table not built"),
    };
    // A second call, even with different arguments, keeps the first build.
    let second = c.init_gdt(0x9999, nmi, df);
    assert_eq!(first, second);
    match &c.built {
        Some((df1, nmi1, _, g)) => {
            assert_eq!(g.entries, entries_after_first);
            assert_eq!(*df1, df);
            assert_eq!(*nmi1, nmi);
        },
        None => panic!("table lost"),
    }
}

#[test]
fn test_get_tss_idempotent() {
    let (df, nmi) = stacks();
    let mut c = TssController::new();
    let first = c.get_tss(df, nmi);
    // A second call, even with the stacks swapped, returns the first build.
    let second = c.get_tss(nmi, df);
    assert_eq!(first.ist, second.ist);
    assert_eq!(first.ist[DOUBLE_FAULT_IST_INDEX as usize], df.base + df.size);
}
