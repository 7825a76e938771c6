use starb::shell::Tab;
use starb::shell::check_build_id;
use starb::shell::check_if_window_is_opened;
use starb::shell::BUILD_ID;
use starb::config::Config;
use starb::exe::directory::functions::Function;
use starb::exe::directory::import_table::Import;
use starb::exe::directory::NtDataDirectoryEntry;
use starb::exe::directory::NtDirectoryEntries;
use starb::exe::ExeError;
use starb::handler::filters::EsiFilter;
use starb::handler::Handler;
use starb::memory::MemoryOp;
use starb::patches::PatchError;
use starb::plugin::Plugin;
use starb::plugin::PluginError;
use starb::plugin::PluginPass;
use starb::plugins::max_systems_found::MaxSystemsFound;
use starb::plugins::no_max_search_radius::NoMaxSearchRadius;
use starb::plugins::no_max_systems_found::NoMaxSystemsFound;
use starb::plugins::no_search_locking::NoSearchLocking;
use starb::plugins::non_negative_search_radius::NonNegativeSearchRadius;
use starb::utils::__report_unreachable;
use starb::utils::__report_unreachable_str;
use starb::utils::__return_unreachable;
use starb::utils::__return_unreachable_str;

fn guarded(address: usize, bytes: &[u8]) -> Vec<MemoryOp> {
    vec![
        MemoryOp::Protect { address, len: bytes.len() },
        MemoryOp::Write { address, bytes: bytes.to_vec() },
        MemoryOp::Restore { address, len: bytes.len() },
    ]
}

fn shown(ops: &[MemoryOp]) -> String {
    format!("{ops:?}")
}

#[test]
fn search_locking_is_loaded_as_it_was_stored() {
    let base = 0x7ff6_0000_0000usize;
    let (plugin, ops) = NoSearchLocking::load(Some(NoSearchLocking(true)), base).unwrap();
    assert_eq!(plugin, NoSearchLocking(true));
    let mut expected = guarded(base + 0x3EC50A, &[0x8B, 0xC2, 0x90]);
    expected.extend(guarded(base + 0x3EFB2C, &[0x66, 0x0F, 0x1F, 0x44, 0x00, 0x00]));
    expected.extend(guarded(base + 0x3EFD4E, &[0x66, 0x0F, 0x1F, 0x44, 0x00, 0x00]));
    assert_eq!(shown(&ops), shown(&expected));
    let (plugin, ops) = NoSearchLocking::load(None, base).unwrap();
    assert_eq!(plugin, NoSearchLocking::default());
    assert_eq!(plugin, NoSearchLocking(false));
    let mut expected = guarded(base + 0x3EC50A, &[0x0F, 0x44, 0xC2]);
    expected.extend(guarded(base + 0x3EFB2C, &[0x0F, 0x85, 0x82, 0x00, 0x00, 0x00]));
    expected.extend(guarded(base + 0x3EFD4E, &[0x0F, 0x85, 0xBA, 0x01, 0x00, 0x00]));
    assert_eq!(shown(&ops), shown(&expected));
}

#[test]
fn search_locking_toggles_and_takes_toggles_back() {
    let mut plugin = NoSearchLocking(false);
    let ops = plugin.toggle(0usize).unwrap();
    assert_eq!(plugin, NoSearchLocking(true));
    assert_eq!(shown(&ops[..3]), shown(&guarded(0x3EC50A, &[0x8B, 0xC2, 0x90])));
    assert_eq!(shown(&ops), shown(&plugin.writes(0usize).unwrap()));
    plugin.update_failed();
    assert_eq!(plugin, NoSearchLocking(false));
    assert_eq!(plugin.toggle(usize::MAX - 0x3EFD53).err(), Some(PatchError::AddressOverflow));
    assert_eq!(plugin, NoSearchLocking(false));
    assert!(plugin.toggle(usize::MAX - 0x3EFD54).is_ok());
    assert_eq!(
        NoSearchLocking::load(None, usize::MAX).err(),
        Some(PatchError::AddressOverflow)
    );
    assert_eq!(NoSearchLocking::patch().len(), 3usize);
}

#[test]
fn the_search_radius_bound_is_one_byte() {
    let (plugin, ops) = NoMaxSearchRadius::load(Some(NoMaxSearchRadius(true)), 0x1000usize).unwrap();
    assert_eq!(plugin, NoMaxSearchRadius(true));
    assert_eq!(shown(&ops), shown(&guarded(0x3F0BA0, &[0xEB])));
    let (mut plugin, ops) = NoMaxSearchRadius::load(None, 0x1000usize).unwrap();
    assert_eq!(plugin, NoMaxSearchRadius::default());
    assert_eq!(shown(&ops), shown(&guarded(0x3F0BA0, &[0x76])));
    assert_eq!(shown(&plugin.toggle(0usize).unwrap()), shown(&guarded(0x3EFBA0, &[0xEB])));
    plugin.update_failed();
    assert_eq!(plugin, NoMaxSearchRadius(false));
    assert_eq!(plugin.toggle(usize::MAX - 0x3EFBA0).err(), Some(PatchError::AddressOverflow));
    assert!(plugin.toggle(usize::MAX - 0x3EFBA1).is_ok());
}

#[test]
fn the_number_of_systems_is_written_twice() {
    let (plugin, ops, modified) =
        NoMaxSystemsFound::load(Some(NoMaxSystemsFound(50000, 10000)), 10000, 10000, 0x100usize)
            .unwrap();
    assert_eq!(plugin, NoMaxSystemsFound(50000, 50000));
    assert!(!modified);
    let mut expected = guarded(0x3F1631, &[0x50, 0xc3, 0x00, 0x00]);
    expected.extend(guarded(0x3F1649, &[0x50, 0xc3, 0x00, 0x00]));
    assert_eq!(shown(&ops), shown(&expected));
    let (plugin, ops, modified) = NoMaxSystemsFound::load(None, 20000, 20000, 0usize).unwrap();
    assert_eq!(plugin, NoMaxSystemsFound::default());
    assert_eq!(plugin, NoMaxSystemsFound(10000, 10000));
    assert!(modified);
    assert_eq!(shown(&ops[..3]), shown(&guarded(0x3F1531, &10000u32.to_le_bytes())));
}

#[test]
fn two_different_numbers_are_the_wrong_version() {
    assert_eq!(
        NoMaxSystemsFound::load(None, 10000, 10001, 0usize).err(),
        Some(PluginError::WrongVersion)
    );
    assert_eq!(
        NoMaxSystemsFound::load(None, 10000, 10001, usize::MAX).err(),
        Some(PluginError::WrongVersion)
    );
    assert_eq!(
        NoMaxSystemsFound::load(None, 10000, 10000, usize::MAX).err(),
        Some(PluginError::Patch(PatchError::AddressOverflow))
    );
    assert_eq!(
        MaxSystemsFound::load(5, 1, 2, 0usize).err(),
        Some(PluginError::WrongVersion)
    );
    assert_eq!(
        MaxSystemsFound::load(5, 1, 1, usize::MAX - 0x3F154C).err(),
        Some(PluginError::Patch(PatchError::AddressOverflow))
    );
    assert!(MaxSystemsFound::load(5, 1, 1, usize::MAX - 0x3F154D).is_ok());
}

#[test]
fn a_number_from_a_file_is_put_in_force() {
    let (plugin, ops, modified) = MaxSystemsFound::load(123456, 10000, 10000, 0usize).unwrap();
    assert_eq!(plugin, MaxSystemsFound(123456));
    assert!(!modified);
    let mut expected = guarded(0x3F1531, &123456u32.to_le_bytes());
    expected.extend(guarded(0x3F1549, &123456u32.to_le_bytes()));
    assert_eq!(shown(&ops), shown(&expected));
}

#[test]
fn a_new_number_asks_for_a_restart() {
    let mut plugin = NoMaxSystemsFound(10000, 10000);
    assert_eq!(plugin.advice(), None);
    assert!(!plugin.set_requested(10000));
    assert!(plugin.set_requested(100000));
    assert_eq!(plugin, NoMaxSystemsFound(100000, 10000));
    assert_eq!(plugin.advice(), None);
    assert!(plugin.set_requested(100001));
    assert_eq!(
        plugin.advice(),
        Some("Values above 100000 are both unnecessary and difficult to run.".to_string())
    );
    assert!(plugin.set_requested(1000000));
    assert_eq!(
        plugin.advice(),
        Some("Values above 1000000 are very unstable. They cannot to be set.".to_string())
    );
    assert!(plugin.set_requested(999999));
    assert_eq!(
        plugin.advice(),
        Some("Values above 100000 are both unnecessary and difficult to run.".to_string())
    );
}

#[test]
fn a_negative_radius_is_put_right() {
    let absolute = NonNegativeSearchRadius(true, true);
    let zero = NonNegativeSearchRadius(true, false);
    let off = NonNegativeSearchRadius(false, true);
    assert_eq!(NonNegativeSearchRadius::default(), off);
    assert_eq!(NonNegativeSearchRadius::load(None), off);
    assert_eq!(NonNegativeSearchRadius::load(Some(zero)), zero);
    let negative = (-12.5f64).to_bits();
    assert_eq!(absolute.fix(negative), Some(12.5f64.to_bits()));
    assert_eq!(zero.fix(negative), Some(0.0f64.to_bits()));
    assert_eq!(off.fix(negative), None);
    assert_eq!(absolute.fix(12.5f64.to_bits()), None);
    assert_eq!(absolute.fix(0.0f64.to_bits()), None);
    assert_eq!(absolute.fix((-0.0f64).to_bits()), Some(0.0f64.to_bits()));
    assert_eq!(absolute.fix(f64::NEG_INFINITY.to_bits()), Some(f64::INFINITY.to_bits()));
    assert_eq!(absolute.fix(u64::MAX), Some(u64::MAX >> 1));
    assert_eq!(absolute.fix(0x7fff_ffff_ffff_ffff), None);
    let ops = absolute.writes(negative, 0x1000usize).unwrap();
    assert_eq!(
        shown(&ops),
        shown(&[MemoryOp::Write { address: 0x10467B0, bytes: 12.5f64.to_le_bytes().to_vec() }])
    );
    assert_eq!(absolute.writes(12.5f64.to_bits(), usize::MAX).unwrap().len(), 0usize);
    assert_eq!(off.writes(negative, usize::MAX).unwrap().len(), 0usize);
    assert_eq!(absolute.writes(negative, usize::MAX - 0x10457B7).err(), Some(PatchError::AddressOverflow));
    assert!(absolute.writes(negative, usize::MAX - 0x10457B8).is_ok());
}

#[test]
fn every_feature_says_what_it_is() {
    let features: Vec<(Box<dyn Plugin>, &str, PluginPass, Option<usize>)> = vec![
        (Box::new(NoMaxSystemsFound::default()), "No Max Systems Found", PluginPass::Early, Some(0)),
        (Box::new(NoMaxSearchRadius::default()), "No Max Search Radius", PluginPass::Late, Some(1)),
        (Box::new(NoSearchLocking::default()), "No Search Locking", PluginPass::Late, Some(2)),
        (
            Box::new(NonNegativeSearchRadius::default()),
            "Non Negative Search Radius",
            PluginPass::Late,
            Some(3),
        ),
        (Box::new(MaxSystemsFound(1)), "Custom max systems found", PluginPass::Early, Some(1)),
    ];
    for (feature, name, pass, priority) in features {
        assert_eq!(feature.name(), name);
        assert_eq!(feature.pass(), pass);
        assert_eq!(feature.priority(), priority);
        assert_eq!(feature.section(), None);
    }
}

#[test]
fn a_function_is_named_after_its_address() {
    assert_eq!(Function(0x1000usize..0x1040usize).name(0x1_4000_0000usize), Ok("fn_140001000".to_string()));
    assert_eq!(Function(0usize..1usize).name(0usize), Ok("fn_0".to_string()));
    assert_eq!(Function(0xfusize..0x10usize).name(0usize), Ok("fn_f".to_string()));
    assert_eq!(Function(0x10usize..0x11usize).name(0usize), Ok("fn_10".to_string()));
    assert_eq!(Function(0xabcdefusize..0xabcdf0usize).name(0usize), Ok("fn_abcdef".to_string()));
    assert_eq!(
        Function(1usize..2usize).name(usize::MAX - 1usize),
        Ok(format!("fn_{:x}", usize::MAX))
    );
    assert_eq!(Function(1usize..2usize).name(usize::MAX), Err(ExeError::Overflow));
    assert_eq!(Function(0x9a0usize..0x9a1usize).name(0x123usize), Ok(format!("fn_{:x}", 0xac3)));
}

#[test]
fn an_import_keeps_what_it_is_given() {
    let import = Import::new("kernel32.dll".to_string(), vec![0x2000usize, 0x2008usize]);
    assert_eq!(import.name(), "kernel32.dll");
    assert_eq!(import.functions(), &vec![0x2000usize, 0x2008usize]);
}

#[test]
fn a_directory_entry_keeps_what_it_is_given() {
    let functions = vec![Function(0x10usize..0x20usize), Function(0x20usize..0x28usize)];
    let entry = NtDataDirectoryEntry::new(0x4000usize..0x4030usize, functions);
    assert_eq!(entry.scope(), &(0x4000usize..0x4030usize));
    assert_eq!(entry.data().len(), 2usize);
    assert_eq!(entry.data()[1].0, 0x20usize..0x28usize);
    let imports = vec![Import::new("user32.dll".to_string(), vec![])];
    let entry = NtDataDirectoryEntry::new(0x2000usize..0x2010usize, imports);
    assert_eq!(entry.data()[0].name(), "user32.dll");
}

#[test]
fn each_directory_has_its_index() {
    assert_eq!(NtDirectoryEntries::Imports(vec![]).index(), 1usize);
    assert_eq!(NtDirectoryEntries::Functions(vec![]).index(), 3usize);
    assert_eq!(NtDirectoryEntries::Unused.index(), 0x7fff_ffffusize);
    assert_eq!(NtDirectoryEntries::default().index(), i32::MAX as usize);
}

#[test]
fn unreachable_reports_say_so() {
    assert_eq!(__report_unreachable_str("no sections"), "Entered unreachable code: no sections");
    assert_eq!(__report_unreachable(), "Entered unreachable code: ");
    assert_eq!(__return_unreachable(), Err("Entered unreachable code: ".to_string()));
    assert_eq!(
        __return_unreachable_str("x"),
        Err("Entered unreachable code: x".to_string())
    );
}

#[test]
fn one_tab_is_open_at_a_time() {
    assert_eq!(Tab::default(), Tab::StarbPlugins);
    assert_eq!(Tab::StarbPlugins.switches(), (true, false, false, false));
    assert_eq!(Tab::Filters.switches(), (false, true, false, false));
    assert_eq!(Tab::Context.switches(), (false, false, true, false));
    assert_eq!(Tab::CustomPlugins.switches(), (false, false, false, true));
    assert_eq!(Tab::StarbPlugins.label(), "Plugins");
    assert_eq!(Tab::Filters.label(), "Filters");
    assert_eq!(Tab::Context.label(), "Context");
    assert_eq!(Tab::CustomPlugins.label(), "Custom Plugins");
}

#[test]
fn only_the_known_build_passes() {
    assert_eq!(BUILD_ID, 11154210i32);
    assert_eq!(check_build_id(11154210i32), None);
    assert_eq!(check_build_id(11154211i32), Some(11154211i32));
    assert_eq!(check_build_id(0i32), Some(0i32));
    assert_eq!(check_build_id(-1i32), Some(-1i32));
}

#[test]
fn the_main_window_is_visible_and_no_splash_screen() {
    assert!(check_if_window_is_opened("SpaceEngine", true, true));
    assert!(check_if_window_is_opened("", true, true));
    assert!(!check_if_window_is_opened("SE Splash", true, true));
    assert!(!check_if_window_is_opened("Winit Thread Event Target", true, true));
    assert!(!check_if_window_is_opened("SpaceEngine", false, true));
    assert!(!check_if_window_is_opened("SpaceEngine", true, false));
    assert!(check_if_window_is_opened("SE Splash ", true, true));
}

#[test]
fn a_number_is_read_as_the_standard_library_reads_it() {
    let texts = [
        "10000", " 42\n", "\t\r\n 7 \u{b}\u{c}", "+5", "+ 5", "-5", "", " ", "+", "++1", "4294967295",
        "4294967296", "42949672950", "99999999999999999999999999", "00012", "+000", "1 2", "1e3",
        "0x10", "12a", "a12", "\u{ff11}\u{ff12}", "\u{a0}7\u{3000}", "\u{85}8\u{2028}",
        "\u{1680}9\u{205f}", "\u{200b}9", "\u{2000}3\u{200a}", "\u{2029}1\u{202f}", "5+", " +17 ",
        "1_000", "٣",
    ];
    for text in texts {
        assert_eq!(MaxSystemsFound::parse(text), text.trim().parse::<u32>().ok(), "{text:?}");
    }
    assert_eq!(MaxSystemsFound::parse(" 250000\n"), Some(250000u32));
    assert_eq!(MaxSystemsFound::parse("+4294967295"), Some(u32::MAX));
    assert_eq!(MaxSystemsFound::parse("4294967296"), None);
    assert_eq!(MaxSystemsFound::parse(""), None);
}

#[test]
fn a_first_session_starts_from_the_defaults() {
    let defaults = Config {
        no_search_locking: NoSearchLocking(false),
        no_max_search_radius: NoMaxSearchRadius(false),
        no_max_systems_found: NoMaxSystemsFound(10000, 10000),
        non_negative_search_radius: NonNegativeSearchRadius(false, true),
    };
    assert_eq!(Config::default(), defaults);
    assert_eq!(Config::init(None), defaults);
    let stored = Config { no_search_locking: NoSearchLocking(true), ..defaults };
    assert_eq!(Config::init(Some(stored)), stored);
}

#[test]
fn the_text_of_the_radius_is_kept_in_the_scratch_region() {
    let base = 0x1_4000_0000usize;
    let (filter, _) = EsiFilter::new(&Handler::at(base)).unwrap();
    let text: Vec<u16> = "12.5".encode_utf16().collect();
    let ops = NonNegativeSearchRadius::text_writes(&text, 0x2_0000_0040, &filter, base).unwrap();
    assert_eq!(
        shown(&ops),
        shown(&[
            MemoryOp::Write {
                address: 0x1_3fe0_0600,
                bytes: vec![b'1', 0, b'2', 0, b'.', 0, b'5', 0],
            },
            MemoryOp::Write {
                address: 0x2_0000_0040,
                bytes: 0x1_3fe0_0600u64.to_le_bytes().to_vec(),
            },
            MemoryOp::Write { address: 0x1_4104_6F18, bytes: 4u64.to_le_bytes().to_vec() },
        ])
    );
    let text: Vec<u16> = "\u{1d11e}\u{e9}".encode_utf16().collect();
    let ops = NonNegativeSearchRadius::text_writes(&text, 8, &filter, base).unwrap();
    assert_eq!(
        shown(&ops[..1]),
        shown(&[MemoryOp::Write {
            address: 0x1_3fe0_0600,
            bytes: vec![0x34, 0xd8, 0x1e, 0xdd, 0xe9, 0x00],
        }])
    );
    let ops = NonNegativeSearchRadius::text_writes(&[], 8, &filter, base).unwrap();
    assert_eq!(
        shown(&ops[..1]),
        shown(&[MemoryOp::Write { address: 0x1_3fe0_0600, bytes: vec![] }])
    );
    assert_eq!(shown(&ops[2..]), shown(&[MemoryOp::Write { address: 0x1_4104_6F18, bytes: vec![0; 8] }]));
}

#[test]
fn a_text_without_room_is_refused() {
    let base = 0x1_4000_0000usize;
    let (filter, _) = EsiFilter::new(&Handler::at(base)).unwrap();
    assert_eq!(0x600usize + 6656usize, 8192usize);
    let longest = vec![b'9' as u16; 3328];
    let ops = NonNegativeSearchRadius::text_writes(&longest, 8, &filter, base).unwrap();
    if let MemoryOp::Write { address, bytes } = &ops[0] {
        assert_eq!(address + bytes.len(), filter.scratch() + 8192);
    } else {
        panic!("the text is written first");
    }
    let too_long = vec![b'9' as u16; 3329];
    assert_eq!(
        NonNegativeSearchRadius::text_writes(&too_long, 8, &filter, base).err(),
        Some(PatchError::ScratchOverflow)
    );
    assert_eq!(
        NonNegativeSearchRadius::text_writes(&too_long, usize::MAX, &filter, usize::MAX).err(),
        Some(PatchError::ScratchOverflow)
    );
    assert_eq!(
        NonNegativeSearchRadius::text_writes(&longest, usize::MAX - 7, &filter, base).err(),
        Some(PatchError::AddressOverflow)
    );
    assert!(NonNegativeSearchRadius::text_writes(&longest, usize::MAX - 8, &filter, base).is_ok());
    assert_eq!(
        NonNegativeSearchRadius::text_writes(&longest, 8, &filter, usize::MAX - 0x1046F1F).err(),
        Some(PatchError::AddressOverflow)
    );
    assert!(NonNegativeSearchRadius::text_writes(&longest, 8, &filter, usize::MAX - 0x1046F20).is_ok());
}
