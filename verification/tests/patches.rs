use starb::handler::Handler;
use starb::handler::compact_patch::CompactPatch;
use starb::handler::compact_patch::ACCURATE_TEMP_FILTER_DATA;
use starb::handler::compact_patch::CHTHONIA_FILTER_DATA;
use starb::handler::compact_patch::NO_SEARCH_LOCKING_DATA;
use starb::handler::filters::EsiFilter;
use starb::handler::filters::NoMaxSearchRadius;
use starb::handler::filters::ESI_FILTER_DATA_1;
use starb::memory::guarded_write;
use starb::memory::plain_write;
use starb::memory::Execution;
use starb::memory::MemoryOp;
use starb::patches::compact::Category;
use starb::patches::compact::Compact;
use starb::patches::compact::Compatibility;
use starb::patches::compact::General;
use starb::patches::compact::Versions;
use starb::patches::Patch;
use starb::patches::PatchError;
use starb::patches::PatchUnit;
use windows_sys::Win32::System::Memory::MEM_COMMIT;
use windows_sys::Win32::System::Memory::MEM_RELEASE;
use windows_sys::Win32::System::Memory::MEM_RESERVE;
use windows_sys::Win32::System::Memory::PAGE_EXECUTE_READWRITE;

/// What a list of requests looks like, for comparing.
fn shown(ops: &[MemoryOp]) -> Vec<String> {
    ops.iter().map(|op| format!("{op:?}")).collect()
}

fn protect(address: usize, len: usize) -> String {
    format!("{:?}", MemoryOp::Protect { address, len })
}

fn write(address: usize, bytes: &[u8]) -> String {
    format!("{:?}", MemoryOp::Write { address, bytes: bytes.to_vec() })
}

fn restore(address: usize, len: usize) -> String {
    format!("{:?}", MemoryOp::Restore { address, len })
}

/// Runs every write of `ops` on `memory`.
fn run(memory: &mut [u8], ops: &[MemoryOp]) {
    for op in ops {
        if let MemoryOp::Write { address, bytes } = op {
            memory[*address..*address + bytes.len()].copy_from_slice(bytes);
        }
    }
}

#[test]
fn unequal_lengths_are_refused_when_a_unit_is_made() {
    assert_eq!(
        PatchUnit::new(0x10usize, vec![1u8, 2u8], vec![3u8]).err(),
        Some(PatchError::LengthMismatch)
    );
    assert_eq!(
        PatchUnit::new(0x10usize, vec![], vec![3u8]).err(),
        Some(PatchError::LengthMismatch)
    );
    let unit = PatchUnit::new(0x10usize, vec![1u8, 2u8], vec![3u8, 4u8]).unwrap();
    assert_eq!(unit.address(), 0x10usize);
    assert_eq!(unit.on_bytes(), &vec![1u8, 2u8]);
    assert_eq!(unit.off_bytes(), &vec![3u8, 4u8]);
    assert!(!unit.is_enabled());
    assert!(PatchUnit::new(0usize, vec![], vec![]).is_ok());
}

#[test]
fn a_unit_is_written_under_changed_protection() {
    let mut unit = PatchUnit::new(0x20usize, vec![0xebu8, 0x90u8], vec![0x74u8, 0x05u8]).unwrap();
    let ops = unit.enable(0x1000usize).unwrap();
    assert_eq!(
        shown(&ops),
        vec![protect(0x1020, 2), write(0x1020, &[0xeb, 0x90]), restore(0x1020, 2)]
    );
    assert!(unit.is_enabled());
    let ops = unit.disable(0x1000usize).unwrap();
    assert_eq!(
        shown(&ops),
        vec![protect(0x1020, 2), write(0x1020, &[0x74, 0x05]), restore(0x1020, 2)]
    );
    assert!(!unit.is_enabled());
    let ops = unit.toggle(0usize).unwrap();
    assert_eq!(shown(&ops), vec![protect(0x20, 2), write(0x20, &[0xeb, 0x90]), restore(0x20, 2)]);
    assert!(unit.is_enabled());
    let ops = unit.toggle(0usize).unwrap();
    assert_eq!(shown(&ops)[1], write(0x20, &[0x74, 0x05]));
    assert!(!unit.is_enabled());
}

#[test]
fn a_unit_outside_the_address_space_changes_nothing() {
    let mut unit = PatchUnit::new(0x20usize, vec![1u8, 2u8], vec![3u8, 4u8]).unwrap();
    assert_eq!(unit.enable(usize::MAX - 0x21usize).err(), Some(PatchError::AddressOverflow));
    assert_eq!(unit.enable(usize::MAX).err(), Some(PatchError::AddressOverflow));
    assert!(!unit.is_enabled());
    assert!(unit.enable(usize::MAX - 0x22usize).is_ok());
    assert!(unit.is_enabled());
    assert_eq!(unit.toggle(usize::MAX).err(), Some(PatchError::AddressOverflow));
    assert!(unit.is_enabled());
}

#[test]
fn enable_then_disable_restores_every_byte() {
    let pristine: Vec<u8> = (0u8..=255u8).collect();
    let mut memory = pristine.clone();
    let base = 0x10usize;
    let mut unit =
        PatchUnit::new(0x20usize, vec![0xaau8, 0xbbu8, 0xccu8], pristine[0x30..0x33].to_vec())
            .unwrap();
    run(&mut memory, &unit.enable(base).unwrap());
    assert_eq!(&memory[0x30..0x33], &[0xaau8, 0xbbu8, 0xccu8]);
    assert_eq!(&memory[..0x30], &pristine[..0x30]);
    assert_eq!(&memory[0x33..], &pristine[0x33..]);
    run(&mut memory, &unit.disable(base).unwrap());
    assert_eq!(memory, pristine);
}

#[test]
fn enable_then_disable_restores_where_units_overlap() {
    let pristine: Vec<u8> = (0u8..=255u8).rev().collect();
    let mut memory = pristine.clone();
    let base = 8usize;
    let data = vec![
        (0x10usize, vec![1u8, 2u8, 3u8, 4u8], pristine[0x18..0x1c].to_vec()),
        (0x12usize, vec![9u8, 9u8, 9u8, 9u8], pristine[0x1a..0x1e].to_vec()),
        (0x40usize, vec![7u8], pristine[0x48..0x49].to_vec()),
    ];
    let mut patch = CompactPatch::new(data).unwrap();
    let handler = Handler::at(base);
    run(&mut memory, &patch.enable(&handler).unwrap());
    assert_eq!(&memory[0x18..0x1e], &[1u8, 2u8, 9u8, 9u8, 9u8, 9u8]);
    assert_eq!(memory[0x48], 7u8);
    assert!(patch.is_enabled());
    run(&mut memory, &patch.disable(&handler).unwrap());
    assert_eq!(memory, pristine);
    assert!(!patch.is_enabled());
}

#[test]
fn a_feature_writes_its_units_in_order() {
    let data = vec![
        (0x100usize, vec![1u8], vec![2u8]),
        (0x200usize, vec![3u8, 4u8], vec![5u8, 6u8]),
    ];
    let mut patch = CompactPatch::new(data).unwrap();
    assert_eq!(patch.len(), 2usize);
    assert_eq!(patch.unit(1usize).unwrap().address(), 0x200usize);
    assert!(patch.unit(2usize).is_none());
    let handler = Handler::at(0x4000_0000usize);
    let ops = patch.enable(&handler).unwrap();
    assert_eq!(
        shown(&ops),
        vec![
            protect(0x4000_0100, 1),
            write(0x4000_0100, &[1]),
            restore(0x4000_0100, 1),
            protect(0x4000_0200, 2),
            write(0x4000_0200, &[3, 4]),
            restore(0x4000_0200, 2),
        ]
    );
    assert!(patch.unit(0usize).unwrap().is_enabled());
    assert!(patch.unit(1usize).unwrap().is_enabled());
    let ops = patch.toggle(&handler).unwrap();
    assert_eq!(shown(&ops)[1], write(0x4000_0100, &[2]));
    assert_eq!(shown(&ops)[4], write(0x4000_0200, &[5, 6]));
    assert!(!patch.is_enabled());
    assert!(!patch.unit(1usize).unwrap().is_enabled());
}

#[test]
fn one_bad_unit_refuses_the_whole_feature() {
    let data = vec![
        (0x100usize, vec![1u8], vec![2u8]),
        (0x200usize, vec![3u8, 4u8], vec![5u8]),
    ];
    assert_eq!(CompactPatch::new(data).err(), Some(PatchError::LengthMismatch));
    assert!(CompactPatch::new(vec![]).is_ok());
}

#[test]
fn a_feature_outside_the_address_space_changes_nothing() {
    let data = vec![
        (0x100usize, vec![1u8], vec![2u8]),
        (0x200usize, vec![3u8, 4u8], vec![5u8, 6u8]),
    ];
    let mut patch = CompactPatch::new(data).unwrap();
    let handler = Handler::at(usize::MAX - 0x200usize);
    assert_eq!(patch.enable(&handler).err(), Some(PatchError::AddressOverflow));
    assert!(!patch.is_enabled());
    assert!(!patch.unit(0usize).unwrap().is_enabled());
    assert_eq!(patch.plan(usize::MAX - 0x200usize, true).err(), Some(PatchError::AddressOverflow));
    assert!(patch.plan(usize::MAX - 0x202usize, true).is_ok());
}

#[test]
fn a_failed_update_takes_the_toggle_back() {
    let mut patch = CompactPatch::new(vec![(0x100usize, vec![1u8], vec![2u8])]).unwrap();
    let handler = Handler::at(0usize);
    patch.toggle(&handler).unwrap();
    assert!(patch.is_enabled());
    patch.update_failed();
    assert!(!patch.is_enabled());
    assert!(!patch.unit(0usize).unwrap().is_enabled());
    patch.update_failed();
    assert!(!patch.is_enabled());
}

#[test]
fn a_failed_update_leaves_the_state_before_the_call() {
    let handler = Handler::at(0usize);
    // Enabling what is enabled, and failing: it stays enabled.
    let mut patch = CompactPatch::new(vec![(0x100usize, vec![1u8], vec![2u8])]).unwrap();
    patch.enable(&handler).unwrap();
    patch.enable(&handler).unwrap();
    patch.update_failed();
    assert!(patch.is_enabled());
    assert!(patch.unit(0usize).unwrap().is_enabled());
    // Disabling what is enabled, and failing: it stays enabled.
    patch.disable(&handler).unwrap();
    assert!(!patch.is_enabled());
    patch.update_failed();
    assert!(patch.is_enabled());
    assert!(patch.unit(0usize).unwrap().is_enabled());
    // Disabling what is disabled, and failing: it stays disabled.
    let mut patch = CompactPatch::new(vec![(0x100usize, vec![1u8], vec![2u8])]).unwrap();
    patch.disable(&handler).unwrap();
    patch.update_failed();
    assert!(!patch.is_enabled());
    // A switch that was refused changes nothing, and neither does taking
    // back the switch before it.
    patch.enable(&handler).unwrap();
    assert!(patch.disable(&Handler::at(usize::MAX)).is_err());
    assert!(patch.is_enabled());
    patch.update_failed();
    assert!(!patch.is_enabled());
}

#[test]
fn a_failed_update_of_one_unit_leaves_the_state_before_the_call() {
    let mut unit = PatchUnit::new(0x20usize, vec![1u8], vec![2u8]).unwrap();
    unit.enable(0usize).unwrap();
    unit.enable(0usize).unwrap();
    unit.update_failed();
    assert!(unit.is_enabled());
    unit.toggle(0usize).unwrap();
    assert!(!unit.is_enabled());
    unit.update_failed();
    assert!(unit.is_enabled());
    unit.disable(0usize).unwrap();
    unit.disable(0usize).unwrap();
    unit.update_failed();
    assert!(!unit.is_enabled());
}

#[test]
fn a_failed_update_of_a_described_feature_leaves_the_state_before_the_call() {
    let mut feature = described(None, Some(vec![(0x10usize, vec![1u8], vec![2u8])])).unwrap();
    feature.enable(0usize).unwrap();
    feature.enable(0usize).unwrap();
    feature.update_failed();
    assert_eq!(shown(&feature.update(0usize).unwrap())[1], write(0x10, &[1]));
    feature.toggle(0usize).unwrap();
    assert_eq!(shown(&feature.update(0usize).unwrap())[1], write(0x10, &[2]));
    Patch::update_failed(&mut feature);
    assert_eq!(shown(&feature.update(0usize).unwrap())[1], write(0x10, &[1]));
    let mut patch = CompactPatch::new(vec![(0x100usize, vec![1u8], vec![2u8])]).unwrap();
    Patch::enable(&mut patch, 0usize).unwrap();
    Patch::enable(&mut patch, 0usize).unwrap();
    Patch::update_failed(&mut patch);
    assert!(patch.is_enabled());
}

#[test]
fn a_feature_through_the_trait() {
    let mut patch = CompactPatch::new(vec![(0x100usize, vec![1u8], vec![2u8])]).unwrap();
    assert_eq!(Patch::start(&patch, 0x10usize).unwrap().len(), 0usize);
    assert_eq!(shown(&Patch::update(&patch, 0x10usize).unwrap())[1], write(0x110, &[2]));
    assert_eq!(shown(&Patch::enable(&mut patch, 0x10usize).unwrap())[1], write(0x110, &[1]));
    assert_eq!(shown(&Patch::update(&patch, 0x10usize).unwrap())[1], write(0x110, &[1]));
    assert_eq!(shown(&Patch::toggle(&mut patch, 0x10usize).unwrap())[1], write(0x110, &[2]));
    assert_eq!(shown(&Patch::disable(&mut patch, 0x10usize).unwrap())[1], write(0x110, &[2]));
    assert_eq!(Patch::enable(&mut patch, usize::MAX).err(), Some(PatchError::AddressOverflow));
}

fn described(start: Option<Vec<(usize, Vec<u8>, Vec<u8>)>>, toggle: Option<Vec<(usize, Vec<u8>, Vec<u8>)>>)
    -> Result<Compact, PatchError> {
    Compact::new(
        General {
            name: "Chthonia Filter".to_string(),
            description: "Adds chthonia as a bulk-class filter".to_string(),
            category: Category::Filter,
        },
        Compatibility {
            versions: [Versions::Allow, Versions::Allow, Versions::Warn, Versions::Deny, Versions::Allow],
            experimental: true,
        },
        start,
        toggle,
    )
}

#[test]
fn a_described_feature_starts_and_toggles() {
    let mut feature = described(
        Some(vec![(0x10usize, vec![1u8], vec![2u8])]),
        Some(vec![(0x3ea759usize, vec![0xb8u8, 0x07u8], vec![0x41u8, 0x8bu8])]),
    )
    .unwrap();
    assert_eq!(feature.general().name, "Chthonia Filter");
    assert_eq!(feature.general().category, Category::Filter);
    assert!(feature.experimental());
    assert_eq!(feature.compatibility(2usize), Versions::Warn);
    assert_eq!(feature.compatibility(3usize), Versions::Deny);
    assert_eq!(feature.compatibility(4usize), Versions::Allow);
    assert_eq!(feature.compatibility(5usize), Versions::Deny);
    assert_eq!(
        shown(&feature.start(0x100usize).unwrap()),
        vec![protect(0x110, 1), write(0x110, &[1]), restore(0x110, 1)]
    );
    assert_eq!(shown(&feature.toggle(0usize).unwrap())[1], write(0x3ea759, &[0xb8, 0x07]));
    assert_eq!(shown(&feature.update(0usize).unwrap())[1], write(0x3ea759, &[0xb8, 0x07]));
    assert_eq!(shown(&feature.toggle(0usize).unwrap())[1], write(0x3ea759, &[0x41, 0x8b]));
    assert_eq!(shown(&feature.enable(0usize).unwrap())[1], write(0x3ea759, &[0xb8, 0x07]));
    assert_eq!(feature.disable(usize::MAX).err(), Some(PatchError::AddressOverflow));
    assert_eq!(shown(&feature.update(0usize).unwrap())[1], write(0x3ea759, &[0xb8, 0x07]));
    assert_eq!(shown(&feature.disable(0usize).unwrap())[1], write(0x3ea759, &[0x41, 0x8b]));
}

#[test]
fn a_described_feature_without_parts_writes_nothing() {
    let mut feature = described(None, None).unwrap();
    assert_eq!(feature.start(0usize).unwrap().len(), 0usize);
    assert_eq!(feature.enable(usize::MAX).unwrap().len(), 0usize);
    assert_eq!(feature.update(0usize).unwrap().len(), 0usize);
    assert_eq!(
        described(Some(vec![(0usize, vec![1u8], vec![])]), None).err(),
        Some(PatchError::LengthMismatch)
    );
    assert_eq!(
        described(None, Some(vec![(0usize, vec![], vec![1u8])])).err(),
        Some(PatchError::LengthMismatch)
    );
}

#[test]
fn the_radius_of_the_user_goes_into_the_scratch_region() {
    let handler = Handler::at(0x1_4000_0000usize);
    let bits = 250.5f64.to_bits();
    let radius = 250.5f64.to_le_bytes();
    let ops = NoMaxSearchRadius().enable((true, bits), &handler).unwrap();
    assert_eq!(
        shown(&ops),
        vec![
            protect(0x1_403e_b31e, 1),
            write(0x1_403e_b31e, &[0x74]),
            restore(0x1_403e_b31e, 1),
            protect(0x1_403e_b31e, 1),
            write(0x1_3fe0_0508, &radius),
            write(0x1_403e_b328, &[0x66, 0x0f, 0x2f, 0x05, 0xd8, 0x51, 0xa1, 0xff]),
            restore(0x1_403e_b31e, 1),
        ]
    );
}

#[test]
fn without_a_radius_the_bound_is_lifted() {
    let handler = Handler::at(0x1_4000_0000usize);
    let ops = NoMaxSearchRadius().enable((false, 0u64), &handler).unwrap();
    assert_eq!(
        shown(&ops),
        vec![
            write(0x1_403e_b328, &[0x66, 0x0f, 0x2f, 0x05, 0xf0, 0x01, 0x2b, 0x00]),
            write(0x1_403e_b334, &[0, 0, 0, 0, 0, 0, 0x59, 0x40]),
            protect(0x1_403e_b31e, 1),
            write(0x1_403e_b31e, &[0xeb]),
            restore(0x1_403e_b31e, 1),
        ]
    );
    let ops = NoMaxSearchRadius().disable(false, &handler).unwrap();
    assert_eq!(
        shown(&ops),
        vec![protect(0x1_403e_b31e, 1), write(0x1_403e_b31e, &[0x74]), restore(0x1_403e_b31e, 1)]
    );
    let ops = NoMaxSearchRadius().disable(true, &handler).unwrap();
    assert_eq!(
        shown(&ops),
        vec![
            write(0x1_403e_b328, &[0x66, 0x0f, 0x2f, 0x05, 0xf0, 0x01, 0x2b, 0x00]),
            write(0x1_403e_b334, &[0, 0, 0, 0, 0, 0, 0x59, 0x40]),
        ]
    );
}

#[test]
fn the_radius_needs_room_below_and_above() {
    let low = Handler::at(0x1f_ffffusize);
    assert_eq!(
        NoMaxSearchRadius().enable((true, 0u64), &low).err(),
        Some(PatchError::AddressOverflow)
    );
    assert!(NoMaxSearchRadius().enable((false, 0u64), &low).is_ok());
    assert!(NoMaxSearchRadius().disable(true, &low).is_ok());
    assert!(NoMaxSearchRadius().enable((true, 0u64), &Handler::at(0x20_0000usize)).is_ok());
    let high = Handler::at(usize::MAX - 0x3eb33busize);
    assert_eq!(
        NoMaxSearchRadius().enable((false, 0u64), &high).err(),
        Some(PatchError::AddressOverflow)
    );
    assert_eq!(NoMaxSearchRadius().disable(false, &high).err(), Some(PatchError::AddressOverflow));
    assert!(NoMaxSearchRadius().disable(false, &Handler::at(usize::MAX - 0x3eb33cusize)).is_ok());
}

#[test]
fn the_filter_is_set_up_enabled_and_released() {
    let handler = Handler::at(0x1_4000_0000usize);
    let (filter, ops) = EsiFilter::new(&handler).unwrap();
    assert_eq!(
        shown(&ops),
        vec![
            format!("{:?}", MemoryOp::Allocate { address: 0x1_3fe0_0000, len: 8192 }),
            write(0x1_3fe0_0000, &ESI_FILTER_DATA_1),
        ]
    );
    assert_eq!(ESI_FILTER_DATA_1.len(), 543usize);
    assert_eq!(&ESI_FILTER_DATA_1[..4], &[0x0fu8, 0x87u8, 0x63u8, 0xacu8]);
    assert_eq!(&ESI_FILTER_DATA_1[539..], &[0x5au8, 0xa6u8, 0x5eu8, 0x00u8]);
    let ops = filter.enable((0.99f32.to_bits(), 1.0f32.to_bits()), &handler).unwrap();
    assert_eq!(
        shown(&ops),
        vec![
            protect(0x1_403e_a873, 6),
            write(0x1_403e_a873, &[0xe9, 0x88, 0x57, 0xa1, 0xff, 0x90]),
            restore(0x1_403e_a873, 6),
            write(0x1_3fe0_0500, &0.99f32.to_le_bytes()),
            write(0x1_3fe0_0504, &1.0f32.to_le_bytes()),
        ]
    );
    let ops = filter.disable(&handler).unwrap();
    assert_eq!(
        shown(&ops),
        vec![
            protect(0x1_403e_a873, 6),
            write(0x1_403e_a873, &[0x41, 0x8b, 0x01, 0x83, 0xf8, 0x07]),
            restore(0x1_403e_a873, 6),
        ]
    );
    assert_eq!(filter.scratch(), 0x1_3fe0_0000usize);
    let ops = filter.close();
    assert_eq!(shown(&ops), vec![format!("{:?}", MemoryOp::Free { address: 0x1_3fe0_0000 })]);
}

#[test]
fn the_filter_needs_room_below_and_above() {
    let low = Handler::at(0x1f_ffffusize);
    assert_eq!(EsiFilter::new(&low).err(), Some(PatchError::AddressOverflow));
    let (filter, _) = EsiFilter::new(&Handler::at(0x20_0000usize)).unwrap();
    assert_eq!(filter.scratch(), 0usize);
    assert!(filter.disable(&low).is_ok());
    let high = Handler::at(usize::MAX - 0x3ea878usize);
    assert_eq!(filter.disable(&high).err(), Some(PatchError::AddressOverflow));
    assert_eq!(filter.enable((0u32, 0u32), &high).err(), Some(PatchError::AddressOverflow));
    assert!(filter.disable(&Handler::at(usize::MAX - 0x3ea879usize)).is_ok());
    let (filter, _) = EsiFilter::new(&Handler::at(usize::MAX)).unwrap();
    assert_eq!(filter.scratch(), usize::MAX - 0x20_0000usize);
    assert_eq!(shown(&filter.close()), vec![format!("{:?}", MemoryOp::Free { address: usize::MAX - 0x20_0000 })]);
}

fn guarded(address: usize, bytes: &[u8]) -> Vec<MemoryOp> {
    vec![
        MemoryOp::Protect { address, len: bytes.len() },
        MemoryOp::Write { address, bytes: bytes.to_vec() },
        MemoryOp::Restore { address, len: bytes.len() },
    ]
}

#[test]
fn a_run_without_failures_asks_for_every_request() {
    let mut ops = guarded(0x10, &[1, 2]);
    ops.extend(guarded(0x20, &[3]));
    let expected = shown(&ops);
    let mut run = Execution::new(ops);
    let mut asked = Vec::new();
    while let Some(op) = run.current() {
        asked.push(format!("{op:?}"));
        assert_eq!(run.outcome(), None);
        run.report(true);
    }
    assert_eq!(asked, expected);
    assert_eq!(run.outcome(), Some(Ok(())));
    run.report(false);
    assert_eq!(run.outcome(), Some(Ok(())));
}

#[test]
fn a_failed_write_still_restores_the_protection() {
    let mut ops = guarded(0x10, &[1, 2]);
    ops.extend(guarded(0x20, &[3]));
    let mut run = Execution::new(ops);
    run.report(true);
    assert_eq!(format!("{:?}", run.current().unwrap()), write(0x10, &[1, 2]));
    run.report(false);
    assert_eq!(format!("{:?}", run.current().unwrap()), restore(0x10, 2));
    assert_eq!(run.outcome(), None);
    run.report(true);
    assert!(run.current().is_none());
    assert_eq!(run.outcome(), Some(Err(PatchError::PatchWriteFailed)));
}

#[test]
fn a_failure_skips_what_lies_before_the_restore() {
    let ops = vec![
        MemoryOp::Protect { address: 0x10, len: 1 },
        MemoryOp::Write { address: 0x500, bytes: vec![1] },
        MemoryOp::Write { address: 0x10, bytes: vec![2] },
        MemoryOp::Write { address: 0x18, bytes: vec![3] },
        MemoryOp::Restore { address: 0x10, len: 1 },
        MemoryOp::Write { address: 0x20, bytes: vec![4] },
    ];
    let mut run = Execution::new(ops);
    run.report(true);
    run.report(false);
    assert_eq!(format!("{:?}", run.current().unwrap()), restore(0x10, 1));
    run.report(false);
    assert!(run.current().is_none());
    assert_eq!(run.outcome(), Some(Err(PatchError::PatchWriteFailed)));
}

#[test]
fn a_failed_protection_ends_the_run() {
    let mut run = Execution::new(guarded(0x10, &[1, 2]));
    run.report(false);
    assert!(run.current().is_none());
    assert_eq!(run.outcome(), Some(Err(PatchError::PatchWriteFailed)));
    let mut run = Execution::new(guarded(0x10, &[1, 2]));
    run.report(true);
    run.report(true);
    run.report(false);
    assert!(run.current().is_none());
    assert_eq!(run.outcome(), Some(Err(PatchError::PatchWriteFailed)));
    let mut run = Execution::new(vec![MemoryOp::Write { address: 1, bytes: vec![1] }, MemoryOp::Free { address: 2 }]);
    run.report(false);
    assert_eq!(run.outcome(), Some(Err(PatchError::PatchWriteFailed)));
    let run = Execution::new(vec![]);
    assert_eq!(run.outcome(), Some(Ok(())));
}

#[test]
fn the_rows_of_a_table_make_a_feature() {
    let mut patch = CompactPatch::from_rows(&NO_SEARCH_LOCKING_DATA);
    assert_eq!(patch.len(), 3usize);
    assert!(!patch.is_enabled());
    assert_eq!(patch.unit(0usize).unwrap().address(), 0x3e7c86usize);
    assert_eq!(patch.unit(1usize).unwrap().address(), 0x3eb2aausize);
    assert_eq!(patch.unit(2usize).unwrap().address(), 0x3eb4d2usize);
    assert_eq!(patch.unit(0usize).unwrap().on_bytes().len(), 18usize);
    assert_eq!(&patch.unit(0usize).unwrap().on_bytes()[..4], &[0x0fu8, 0xb6u8, 0x8bu8, 0x41u8]);
    assert_eq!(&patch.unit(2usize).unwrap().off_bytes()[14..], &[0x82u8, 0x00u8, 0x00u8, 0x00u8]);
    let ops = patch.enable(&Handler::at(0usize)).unwrap();
    assert_eq!(ops.len(), 9usize);
    assert_eq!(shown(&ops)[4], write(0x3eb2aa, &NO_SEARCH_LOCKING_DATA[1].1));
    let mut chthonia = CompactPatch::from_rows(&CHTHONIA_FILTER_DATA);
    assert_eq!(
        shown(&chthonia.enable(&Handler::at(0x10usize)).unwrap()),
        vec![
            protect(0x3ea769, 7),
            write(0x3ea769, &[0xb8, 0x07, 0x00, 0x00, 0x00, 0x66, 0x90]),
            restore(0x3ea769, 7),
        ]
    );
    assert_eq!(
        shown(&chthonia.disable(&Handler::at(0usize)).unwrap())[1],
        write(0x3ea759, &[0x41, 0x8b, 0x41, 0x08, 0x4d, 0x8b, 0xd1])
    );
    let mut temperature = CompactPatch::from_rows(&ACCURATE_TEMP_FILTER_DATA);
    assert_eq!(shown(&temperature.toggle(&Handler::at(0usize)).unwrap())[1], write(0x3ea85b, &[0x48]));
    assert_eq!(shown(&temperature.toggle(&Handler::at(0usize)).unwrap())[1], write(0x3ea85b, &[0x4c]));
    let none: [(usize, [u8; 2], [u8; 2]); 0] = [];
    assert_eq!(CompactPatch::from_rows(&none).len(), 0usize);
}

#[test]
fn switching_twice_is_switching_once() {
    let pristine: Vec<u8> = (0u8..=255u8).collect();
    let data = vec![
        (0x10usize, vec![1u8, 2u8, 3u8, 4u8], pristine[0x10..0x14].to_vec()),
        (0x12usize, vec![9u8, 9u8, 9u8, 9u8], pristine[0x12..0x16].to_vec()),
    ];
    let mut patch = CompactPatch::new(data).unwrap();
    let handler = Handler::at(0usize);
    let mut once = pristine.clone();
    run(&mut once, &patch.enable(&handler).unwrap());
    let mut twice = once.clone();
    run(&mut twice, &patch.enable(&handler).unwrap());
    assert_eq!(twice, once);
    assert!(patch.is_enabled());
}

#[test]
fn requests_are_added_to_a_list() {
    let mut ops = vec![MemoryOp::Free { address: 1 }];
    guarded_write(&mut ops, 0x40usize, &[1u8, 2u8]);
    plain_write(&mut ops, 0x50usize, &[3u8]);
    assert_eq!(
        shown(&ops),
        vec![
            format!("{:?}", MemoryOp::Free { address: 1 }),
            protect(0x40, 2),
            write(0x40, &[1, 2]),
            restore(0x40, 2),
            write(0x50, &[3]),
        ]
    );
}

#[test]
fn a_unit_plans_without_changing() {
    let mut unit = PatchUnit::new(0x20usize, vec![1u8], vec![2u8]).unwrap();
    let mut ops = Vec::new();
    assert_eq!(unit.plan(0x100usize, true, &mut ops), Ok(()));
    assert_eq!(unit.plan(0x100usize, false, &mut ops), Ok(()));
    assert_eq!(unit.plan(usize::MAX, true, &mut ops), Err(PatchError::AddressOverflow));
    assert_eq!(ops.len(), 6usize);
    assert_eq!(shown(&ops)[1], write(0x120, &[1]));
    assert_eq!(shown(&ops)[4], write(0x120, &[2]));
    assert!(!unit.is_enabled());
    let copy = unit.switched(true);
    assert!(copy.is_enabled());
    assert!(!unit.is_enabled());
    assert_eq!(copy.address(), 0x20usize);
    assert_eq!(copy.on_bytes(), &vec![1u8]);
    assert_eq!(copy.off_bytes(), &vec![2u8]);
    unit.mark(true);
    assert!(unit.is_enabled());
    assert_eq!(shown(&unit.switch(0usize, false).unwrap())[1], write(0x20, &[2]));
    assert!(!unit.is_enabled());
    let mut patch = CompactPatch::new(vec![(0x100usize, vec![1u8], vec![2u8])]).unwrap();
    patch.mark(true);
    assert!(patch.is_enabled());
    assert!(patch.unit(0usize).unwrap().is_enabled());
    assert_eq!(shown(&patch.switch(&Handler::at(0usize), false).unwrap())[1], write(0x100, &[2]));
}

#[test]
fn memory_is_reserved_and_protected_to_read_write_and_execute() {
    assert_eq!(starb::memory::PROTECTION, PAGE_EXECUTE_READWRITE);
    assert_eq!(starb::memory::ALLOCATION, MEM_COMMIT | MEM_RESERVE);
    assert_eq!(starb::memory::RELEASE, MEM_RELEASE);
}

#[test]
fn a_radius_never_goes_into_the_module() {
    let base = 0x1_4000_0000usize;
    let ops = NoMaxSearchRadius().enable((true, 42.0f64.to_bits()), &Handler::at(base)).unwrap();
    for op in &ops {
        if let MemoryOp::Write { address, bytes } = op {
            if bytes == &42.0f64.to_le_bytes().to_vec() {
                assert!(*address < base);
                assert_eq!(*address, base - 0x20_0000 + 0x508);
            } else {
                assert!(*address == base + 0x3eb31e || *address == base + 0x3eb328);
            }
        }
    }
    // The comparison reads the radius from where it is put: eight bytes
    // behind the comparison, less what the comparison holds, is the place
    // in the scratch region.
    let displacement = i32::from_le_bytes([0xd8, 0x51, 0xa1, 0xff]) as i64;
    assert_eq!((base as i64 + 0x3eb328 + 8 + displacement) as usize, base - 0x20_0000 + 0x508);
}
