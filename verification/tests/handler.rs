use starb::handler::Answer;
use starb::handler::ACCESS;
use starb::handler::Discovery;
use starb::handler::Handler;
use starb::handler::Reason;
use starb::handler::Request;
use starb::handler::is_supported_version;
use starb::handler::STILL_ACTIVE;
use starb::handler::VERSION_DATA;
use starb::memory::MemoryOp;
use starb::patches::PatchError;
use windows_sys::Win32::System::Threading::PROCESS_QUERY_INFORMATION;
use windows_sys::Win32::System::Threading::PROCESS_VM_OPERATION;
use windows_sys::Win32::System::Threading::PROCESS_VM_READ;
use windows_sys::Win32::System::Threading::PROCESS_VM_WRITE;

fn failed(reason: Reason) -> Handler {
    Handler { reason: Some(reason), handle: None, pid: 0, base_address: 0 }
}

#[test]
fn without_a_target_nothing_is_found() {
    let mut discovery = Discovery::new();
    assert_eq!(discovery.request, Request::Processes);
    assert_eq!(discovery.finish(), None);
    discovery.advance(Answer::Processes { controllers: 1, target: None });
    assert_eq!(discovery.request, Request::Done);
    assert_eq!(discovery.finish(), Some(failed(Reason::NotFound)));
    let mut discovery = Discovery::new();
    discovery.advance(Answer::Processes { controllers: 0, target: None });
    assert_eq!(discovery.finish(), Some(failed(Reason::NotFound)));
}

#[test]
fn too_many_instances_come_before_everything() {
    for target in [None, Some(4u32)] {
        for controllers in [2usize, 3, usize::MAX] {
            let mut discovery = Discovery::new();
            discovery.advance(Answer::Processes { controllers, target });
            assert_eq!(discovery.finish(), Some(failed(Reason::TooManyInstances)));
        }
    }
}

#[test]
fn a_process_that_does_not_open() {
    let mut discovery = Discovery::new();
    discovery.advance(Answer::Processes { controllers: 1, target: Some(77) });
    assert_eq!(discovery.request, Request::Open { pid: 77 });
    discovery.advance(Answer::Open { handle: None });
    assert_eq!(discovery.finish(), Some(failed(Reason::FailedToOpen)));
}

fn up_to_the_fingerprint() -> Discovery {
    let mut discovery = Discovery::new();
    discovery.advance(Answer::Processes { controllers: 1, target: Some(77) });
    discovery.advance(Answer::Open { handle: Some(0x1c4) });
    assert_eq!(discovery.request, Request::Base { handle: 0x1c4 });
    discovery.advance(Answer::Base { address: 0x1_4000_0000 });
    assert_eq!(discovery.request, Request::Version { handle: 0x1c4, address: 0x1_4049_f4a0 });
    assert_eq!(discovery.finish(), None);
    discovery
}

#[test]
fn the_supported_build_is_attached() {
    let mut discovery = up_to_the_fingerprint();
    discovery.advance(Answer::Version { bytes: VERSION_DATA.to_vec() });
    assert_eq!(
        discovery.finish(),
        Some(Handler { reason: None, handle: Some(0x1c4), pid: 77, base_address: 0x1_4000_0000 })
    );
}

#[test]
fn a_corrupted_fingerprint_is_the_wrong_version() {
    for at in [0usize, 31, 63] {
        let mut bytes = VERSION_DATA.to_vec();
        bytes[at] ^= 1;
        let mut discovery = up_to_the_fingerprint();
        discovery.advance(Answer::Version { bytes });
        assert_eq!(
            discovery.finish(),
            Some(Handler {
                reason: Some(Reason::WrongVersion),
                handle: Some(0x1c4),
                pid: 77,
                base_address: 0x1_4000_0000,
            })
        );
    }
    for bytes in [vec![], VERSION_DATA[..63].to_vec(), [&VERSION_DATA[..], &[0u8]].concat()] {
        let mut discovery = up_to_the_fingerprint();
        discovery.advance(Answer::Version { bytes });
        assert_eq!(discovery.finish().unwrap().reason, Some(Reason::WrongVersion));
    }
}

#[test]
fn a_base_without_room_for_the_fingerprint_is_the_wrong_version() {
    let mut discovery = Discovery::new();
    discovery.advance(Answer::Processes { controllers: 1, target: Some(5) });
    discovery.advance(Answer::Open { handle: Some(9) });
    discovery.advance(Answer::Base { address: usize::MAX - 0x49f4a0 - 63 });
    assert_eq!(
        discovery.finish(),
        Some(Handler {
            reason: Some(Reason::WrongVersion),
            handle: Some(9),
            pid: 5,
            base_address: usize::MAX - 0x49f4a0 - 63,
        })
    );
    let mut discovery = Discovery::new();
    discovery.advance(Answer::Processes { controllers: 1, target: Some(5) });
    discovery.advance(Answer::Open { handle: Some(9) });
    discovery.advance(Answer::Base { address: usize::MAX - 0x49f4a0 - 64 });
    assert_eq!(discovery.request, Request::Version { handle: 9, address: usize::MAX - 64 });
}

#[test]
fn an_answer_to_another_request_changes_nothing() {
    let mut discovery = Discovery::new();
    discovery.advance(Answer::Open { handle: Some(3) });
    discovery.advance(Answer::Base { address: 7 });
    discovery.advance(Answer::Version { bytes: VERSION_DATA.to_vec() });
    assert_eq!(discovery, Discovery::new());
    let mut discovery = up_to_the_fingerprint();
    let before = discovery;
    discovery.advance(Answer::Processes { controllers: 5, target: None });
    discovery.advance(Answer::Open { handle: None });
    assert_eq!(discovery, before);
    discovery.advance(Answer::Version { bytes: VERSION_DATA.to_vec() });
    let done = discovery;
    discovery.advance(Answer::Processes { controllers: 5, target: None });
    discovery.advance(Answer::Version { bytes: vec![] });
    assert_eq!(discovery, done);
}

#[test]
fn the_fingerprint_is_compared_byte_by_byte() {
    assert!(is_supported_version(&VERSION_DATA));
    assert_eq!(VERSION_DATA.len(), 64usize);
    assert_eq!(&VERSION_DATA[..4], &[0x4cu8, 0x89u8, 0x6fu8, 0x10u8]);
    assert_eq!(&VERSION_DATA[60..], &[0x48u8, 0x2bu8, 0xc1u8, 0x48u8]);
    assert!(!is_supported_version(&[0u8; 64]));
    assert!(!is_supported_version(&VERSION_DATA[1..]));
    assert!(!is_supported_version(&[]));
}

#[test]
fn a_handle_is_closed_once() {
    let mut handler =
        Handler { reason: None, handle: Some(0x1c4), pid: 77, base_address: 0x1000 };
    assert_eq!(handler.close(), Some(0x1c4));
    assert_eq!(handler.close(), None);
    assert_eq!(handler.close(), None);
    assert_eq!(handler.pid, 77);
    assert_eq!(handler.base(), 0x1000usize);
    assert_eq!(Handler::empty().clone().close(), None);
}

#[test]
fn a_process_runs_while_its_exit_code_says_so() {
    let mut handler =
        Handler { reason: None, handle: Some(0x1c4), pid: 77, base_address: 0x1000 };
    assert_eq!(STILL_ACTIVE, 259u32);
    assert!(handler.still_open(259u32));
    assert!(!handler.still_open(0u32));
    assert!(!handler.still_open(258u32));
    handler.close();
    assert!(!handler.still_open(259u32));
    assert!(!Handler::failed(Reason::NotFound).still_open(259u32));
}

#[test]
fn addresses_count_from_the_base() {
    let handler = Handler { reason: None, handle: Some(1), pid: 1, base_address: 0x1000 };
    assert_eq!(handler.address(0x3eb31eusize), Some(0x3ec31eusize));
    assert_eq!(handler.address(usize::MAX - 0xfffusize), None);
    assert_eq!(handler.address(usize::MAX - 0x1000usize), Some(usize::MAX));
    let ops = handler.write(0x20usize, &[1u8, 2u8, 3u8]).unwrap();
    assert_eq!(
        format!("{ops:?}"),
        format!(
            "{:?}",
            vec![
                MemoryOp::Protect { address: 0x1020, len: 3 },
                MemoryOp::Write { address: 0x1020, bytes: vec![1, 2, 3] },
                MemoryOp::Restore { address: 0x1020, len: 3 },
            ]
        )
    );
    assert_eq!(
        handler.write(usize::MAX - 0x1001usize, &[1u8, 2u8]).err(),
        Some(PatchError::AddressOverflow)
    );
    assert!(handler.write(usize::MAX - 0x1002usize, &[1u8, 2u8]).is_ok());
}

#[test]
fn each_reason_has_its_own_words() {
    let reasons =
        [Reason::NotFound, Reason::FailedToOpen, Reason::WrongVersion, Reason::TooManyInstances];
    for (i, a) in reasons.iter().enumerate() {
        for b in &reasons[i + 1..] {
            assert_ne!(a.message(), b.message());
            assert_ne!(a.title(), b.title());
        }
    }
    assert_eq!(Reason::NotFound.title(), "Failed to find SE!");
    assert_eq!(Reason::WrongVersion.title(), "Wrong Version!");
    assert_eq!(Reason::TooManyInstances.title(), "Too Many Instances!");
    assert_eq!(Reason::FailedToOpen.title(), "Failed to open a handle to SE!");
    assert_eq!(
        Reason::WrongVersion.message(),
        "You're not on the GR public beta! Please switch your branch to CurrentBeta."
    );
    assert_eq!(
        Reason::NotFound.message(),
        "Failed to find SE in the list of open processes! Please restart this program once you open it."
    );
    assert_eq!(
        Reason::FailedToOpen.message(),
        "Failed to open a handle to SE! Why did this happen? I have no idea! I'm just handling it incase it happens! Please report if you see this."
    );
    assert_eq!(
        Reason::TooManyInstances.message(),
        "You already have another instance of this program open! Please close the other instance."
    );
}

#[test]
fn values_are_decoded_from_exactly_their_bytes() {
    assert_eq!(Handler::decode::<u32>(&[0x10u8, 0x27u8, 0u8, 0u8]), Some(10000u32));
    assert_eq!(Handler::decode::<u32>(&[0x10u8, 0x27u8, 0u8]), None);
    assert_eq!(Handler::decode::<u32>(&[0x10u8, 0x27u8, 0u8, 0u8, 0u8]), None);
    assert_eq!(Handler::decode::<u64>(&(-2.5f64).to_le_bytes()), Some((-2.5f64).to_bits()));
    assert_eq!(Handler::decode::<u8>(&[]), None);
}

#[test]
fn values_are_written_least_significant_byte_first() {
    let handler = Handler::at(0x1000usize);
    let ops = handler.write_to::<u32>(0x3F1531usize, 10000u32).unwrap();
    assert_eq!(
        format!("{ops:?}"),
        format!(
            "{:?}",
            vec![
                MemoryOp::Protect { address: 0x3F2531, len: 4 },
                MemoryOp::Write { address: 0x3F2531, bytes: vec![0x10, 0x27, 0, 0] },
                MemoryOp::Restore { address: 0x3F2531, len: 4 },
            ]
        )
    );
    assert_eq!(
        handler.write_to::<u64>(usize::MAX - 0x1007usize, 1u64).err(),
        Some(PatchError::AddressOverflow)
    );
    assert!(handler.write_to::<u64>(usize::MAX - 0x1008usize, 1u64).is_ok());
}

#[test]
fn the_first_failed_check_gives_the_reason() {
    let good = VERSION_DATA.to_vec();
    let bad = vec![0u8; 64];
    assert_eq!(Handler::new(2, None, None, 0, vec![]), failed(Reason::TooManyInstances));
    assert_eq!(
        Handler::new(2, Some(7), Some(9), 0x1000, good.clone()),
        failed(Reason::TooManyInstances)
    );
    assert_eq!(Handler::new(1, None, Some(9), 0x1000, good.clone()), failed(Reason::NotFound));
    assert_eq!(Handler::new(0, None, None, 0, bad.clone()), failed(Reason::NotFound));
    assert_eq!(Handler::new(1, Some(7), None, 0x1000, good.clone()), failed(Reason::FailedToOpen));
    assert_eq!(
        Handler::new(1, Some(7), Some(9), 0x1000, bad),
        Handler { reason: Some(Reason::WrongVersion), handle: Some(9), pid: 7, base_address: 0x1000 }
    );
    assert_eq!(
        Handler::new(1, Some(7), Some(9), usize::MAX, good.clone()),
        Handler {
            reason: Some(Reason::WrongVersion),
            handle: Some(9),
            pid: 7,
            base_address: usize::MAX,
        }
    );
    assert_eq!(
        Handler::new(0, Some(7), Some(9), 0x1000, good),
        Handler { reason: None, handle: Some(9), pid: 7, base_address: 0x1000 }
    );
}

#[test]
fn the_target_is_opened_with_four_rights() {
    assert_eq!(
        ACCESS,
        PROCESS_QUERY_INFORMATION | PROCESS_VM_OPERATION | PROCESS_VM_READ | PROCESS_VM_WRITE
    );
    assert_eq!(ACCESS.count_ones(), 4u32);
}
