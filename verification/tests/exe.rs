use starb::exe::Exe;
use starb::exe::ExeError;
use starb::pod::Pod;

fn image(bytes: Vec<u8>) -> Exe {
    let mut exe = Exe::new();
    assert_eq!(exe.init(bytes), Ok(()));
    exe
}

#[test]
fn read_inside_and_outside() {
    let exe = image(vec![1u8, 2u8, 3u8]);
    assert_eq!(exe.read(0usize), Ok(1u8));
    assert_eq!(exe.read(2usize), Ok(3u8));
    assert_eq!(exe.read(3usize), Err(ExeError::OutOfBounds));
    assert_eq!(exe.len(), Ok(3usize));
}

#[test]
fn read_many_returns_exactly_the_range() {
    let exe = image(vec![10u8, 11u8, 12u8, 13u8, 14u8]);
    assert_eq!(exe.read_many(1usize..4usize), Ok(vec![11u8, 12u8, 13u8]));
    assert_eq!(exe.read_many(0usize..5usize), Ok(vec![10u8, 11u8, 12u8, 13u8, 14u8]));
    assert_eq!(exe.read_many(5usize..5usize), Ok(vec![]));
    assert_eq!(exe.read_many(2usize..2usize), Ok(vec![]));
}

#[test]
fn read_many_refuses_what_exceeds_the_image() {
    let exe = image(vec![10u8, 11u8, 12u8]);
    assert_eq!(exe.read_many(0usize..4usize), Err(ExeError::OutOfBounds));
    assert_eq!(exe.read_many(3usize..4usize), Err(ExeError::OutOfBounds));
    assert_eq!(exe.read_many(2usize..1usize), Err(ExeError::OutOfBounds));
    assert_eq!(exe.read_many(4usize..4usize), Err(ExeError::OutOfBounds));
}

#[test]
fn every_range_of_a_small_image() {
    let bytes = vec![7u8, 8u8, 9u8, 10u8];
    let exe = image(bytes.clone());
    for start in 0usize..7usize {
        for end in 0usize..7usize {
            let r = exe.read_many(start..end);
            if start <= end && end <= bytes.len() {
                assert_eq!(r, Ok(bytes[start..end].to_vec()));
            } else {
                assert_eq!(r, Err(ExeError::OutOfBounds));
            }
        }
    }
}

#[test]
fn write_then_read_yields_what_was_written() {
    let mut exe = image(vec![0u8, 1u8, 2u8, 3u8, 4u8, 5u8]);
    assert_eq!(exe.write_many(2usize, &[9u8, 8u8, 7u8]), Ok(vec![2u8, 3u8, 4u8]));
    assert_eq!(exe.read_many(2usize..5usize), Ok(vec![9u8, 8u8, 7u8]));
    assert_eq!(exe.read_many(0usize..6usize), Ok(vec![0u8, 1u8, 9u8, 8u8, 7u8, 5u8]));
}

#[test]
fn write_up_to_the_last_byte() {
    let mut exe = image(vec![0u8, 1u8, 2u8]);
    assert_eq!(exe.write_many(1usize, &[5u8, 6u8]), Ok(vec![1u8, 2u8]));
    assert_eq!(exe.read_many(0usize..3usize), Ok(vec![0u8, 5u8, 6u8]));
    assert_eq!(exe.write_many(3usize, &[]), Ok(vec![]));
    assert_eq!(exe.len(), Ok(3usize));
}

#[test]
fn write_that_does_not_fit_writes_nothing() {
    let mut exe = image(vec![0u8, 1u8, 2u8]);
    assert_eq!(exe.write_many(2usize, &[5u8, 6u8]), Err(ExeError::OutOfBounds));
    assert_eq!(exe.write_many(4usize, &[]), Err(ExeError::OutOfBounds));
    assert_eq!(exe.write_many(usize::MAX, &[5u8]), Err(ExeError::OutOfBounds));
    assert_eq!(exe.write_many(usize::MAX - 1usize, &[5u8, 6u8, 7u8]), Err(ExeError::OutOfBounds));
    assert_eq!(exe.read_many(0usize..3usize), Ok(vec![0u8, 1u8, 2u8]));
}

#[test]
fn write_returns_the_previous_byte() {
    let mut exe = image(vec![4u8, 5u8]);
    assert_eq!(exe.write(1usize, 9u8), Ok(5u8));
    assert_eq!(exe.read(1usize), Ok(9u8));
    assert_eq!(exe.write(2usize, 9u8), Err(ExeError::OutOfBounds));
    assert_eq!(exe.read_many(0usize..2usize), Ok(vec![4u8, 9u8]));
}

#[test]
fn typed_values_are_little_endian() {
    let exe = image(vec![0x78u8, 0x56u8, 0x34u8, 0x12u8, 0xefu8, 0xcdu8, 0xabu8, 0x90u8]);
    assert_eq!(exe.read_to::<u8>(0usize), Ok(0x78u8));
    assert_eq!(exe.read_to::<u16>(0usize), Ok(0x5678u16));
    assert_eq!(exe.read_to::<u32>(0usize), Ok(0x12345678u32));
    assert_eq!(exe.read_to::<u32>(4usize), Ok(0x90abcdefu32));
    assert_eq!(exe.read_to::<u64>(0usize), Ok(0x90abcdef12345678u64));
    assert_eq!(exe.read_to::<u32>(5usize), Err(ExeError::OutOfBounds));
    assert_eq!(exe.read_to::<u32>(usize::MAX - 2usize), Err(ExeError::OutOfBounds));
    assert_eq!(exe.read_to::<u64>(usize::MAX), Err(ExeError::OutOfBounds));
}

#[test]
fn typed_write_then_read_round_trips() {
    let mut exe = image(vec![0u8; 16usize]);
    assert_eq!(exe.write_to::<u32>(3usize, 0xdeadbeefu32), Ok(0u32));
    assert_eq!(exe.read_to::<u32>(3usize), Ok(0xdeadbeefu32));
    assert_eq!(exe.read_many(3usize..7usize), Ok(vec![0xefu8, 0xbeu8, 0xadu8, 0xdeu8]));
    assert_eq!(exe.write_to::<u32>(3usize, 1u32), Ok(0xdeadbeefu32));
    assert_eq!(exe.write_to::<u64>(8usize, u64::MAX), Ok(0u64));
    assert_eq!(exe.read_to::<u64>(8usize), Ok(u64::MAX));
    assert_eq!(exe.write_to::<u16>(0usize, 0x0102u16), Ok(0u16));
    assert_eq!(exe.read_to::<u16>(0usize), Ok(0x0102u16));
    assert_eq!(exe.write_to::<u32>(13usize, 5u32), Err(ExeError::OutOfBounds));
    assert_eq!(exe.write_to::<u32>(usize::MAX, 5u32), Err(ExeError::OutOfBounds));
    assert_eq!(exe.write_to::<u64>(usize::MAX - 3usize, 5u64), Err(ExeError::OutOfBounds));
    assert_eq!(exe.read_many(0usize..16usize).map(|bytes| bytes.len()), Ok(16usize));
}

#[test]
fn pod_sizes_and_bytes() {
    assert_eq!(<u8 as Pod>::size(), 1usize);
    assert_eq!(<u16 as Pod>::size(), 2usize);
    assert_eq!(<u32 as Pod>::size(), 4usize);
    assert_eq!(<u64 as Pod>::size(), 8usize);
    assert_eq!(Pod::to_bytes(&0x0102u16), vec![2u8, 1u8]);
    assert_eq!(Pod::to_bytes(&0x01020304u32), vec![4u8, 3u8, 2u8, 1u8]);
    assert_eq!(<u32 as Pod>::from_bytes(&[4u8, 3u8, 2u8, 1u8]), 0x01020304u32);
    assert_eq!(Pod::to_bytes(&1u64), vec![1u8, 0u8, 0u8, 0u8, 0u8, 0u8, 0u8, 0u8]);
    assert_eq!(starb::pod::decode_le(&[]), 0u64);
    assert_eq!(starb::pod::encode_le(0x1234u64, 1usize), vec![0x34u8]);
}

#[test]
fn an_image_without_bytes_refuses_everything() {
    let mut exe = Exe::new();
    assert_eq!(exe.len(), Err(ExeError::Uninitialized));
    assert_eq!(exe.read(0usize), Err(ExeError::Uninitialized));
    assert_eq!(exe.read_many(0usize..0usize), Err(ExeError::Uninitialized));
    assert_eq!(exe.read_to::<u32>(0usize), Err(ExeError::Uninitialized));
    assert_eq!(exe.read_to_string(0usize, None), Err(ExeError::Uninitialized));
    assert_eq!(exe.read_to_string(0usize, Some(2usize)), Err(ExeError::Uninitialized));
    assert_eq!(exe.write(0usize, 1u8), Err(ExeError::Uninitialized));
    assert_eq!(exe.write_many(0usize, &[1u8]), Err(ExeError::Uninitialized));
    assert!(exe.reader().is_err());
    assert!(exe.commit().is_err());
    assert_eq!(exe.read_to::<u32>(usize::MAX), Err(ExeError::Uninitialized));
    assert_eq!(exe.write_to::<u32>(usize::MAX, 1u32), Err(ExeError::Uninitialized));
}

#[test]
fn an_image_takes_its_bytes_once() {
    let mut exe = image(vec![1u8]);
    assert_eq!(exe.init(vec![2u8, 3u8]), Err(ExeError::AlreadyInitialized));
    assert_eq!(exe.reader().map(|bytes| bytes.clone()), Ok(vec![1u8]));
}

#[test]
fn sized_string_loses_its_padding() {
    let exe = image(vec![b'.', b't', b'e', b'x', b't', 0u8, 0u8, 0u8, b'!']);
    assert_eq!(exe.read_to_string(0usize, Some(8usize)), Ok(".text".to_string()));
    assert_eq!(exe.read_to_string(0usize, Some(5usize)), Ok(".text".to_string()));
    assert_eq!(exe.read_to_string(1usize, Some(2usize)), Ok("te".to_string()));
    assert_eq!(exe.read_to_string(5usize, Some(3usize)), Ok(String::new()));
    assert_eq!(exe.read_to_string(0usize, Some(0usize)), Ok(String::new()));
}

#[test]
fn sized_string_with_a_zero_inside_is_refused() {
    let exe = image(vec![b'a', 0u8, b'b', 0u8]);
    assert_eq!(exe.read_to_string(0usize, Some(4usize)), Err(ExeError::InteriorNul));
    assert_eq!(exe.read_to_string(0usize, Some(3usize)), Err(ExeError::InteriorNul));
    assert_eq!(exe.read_to_string(0usize, Some(2usize)), Ok("a".to_string()));
}

#[test]
fn sized_string_outside_the_image_is_refused() {
    let exe = image(vec![b'a', b'b']);
    assert_eq!(exe.read_to_string(0usize, Some(3usize)), Err(ExeError::OutOfBounds));
    assert_eq!(exe.read_to_string(1usize, Some(usize::MAX)), Err(ExeError::Overflow));
}

#[test]
fn unsized_string_ends_at_the_first_zero() {
    let exe = image(vec![b'M', b'Z', 0u8, b'x', b'y']);
    assert_eq!(exe.read_to_string(0usize, None), Ok("MZ".to_string()));
    assert_eq!(exe.read_to_string(1usize, None), Ok("Z".to_string()));
    assert_eq!(exe.read_to_string(2usize, None), Ok(String::new()));
    assert_eq!(exe.read_to_string(3usize, None), Ok("xy".to_string()));
    assert_eq!(exe.read_to_string(5usize, None), Ok(String::new()));
    assert_eq!(exe.read_to_string(6usize, None), Err(ExeError::OutOfBounds));
}

#[test]
fn strings_are_decoded_as_utf8() {
    let exe = image(vec![0xc3u8, 0xa9u8, b'!', 0u8, 0xffu8, 0xfeu8, 0u8, 0xe2u8, 0x82u8]);
    assert_eq!(exe.read_to_string(0usize, None), Ok("\u{e9}!".to_string()));
    assert_eq!(exe.read_to_string(0usize, Some(4usize)), Ok("\u{e9}!".to_string()));
    assert_eq!(exe.read_to_string(4usize, None), Err(ExeError::InvalidUtf8));
    assert_eq!(exe.read_to_string(4usize, Some(2usize)), Err(ExeError::InvalidUtf8));
    assert_eq!(exe.read_to_string(7usize, None), Err(ExeError::InvalidUtf8));
    assert_eq!(exe.read_to_string(1usize, Some(1usize)), Err(ExeError::InvalidUtf8));
}

#[test]
fn commit_twice_gives_the_same_bytes_and_a_warning() {
    let mut exe = image(vec![1u8, 2u8, 3u8]);
    assert_eq!(exe.write(0usize, 7u8), Ok(1u8));
    let first = exe.commit().unwrap();
    let second = exe.commit().unwrap();
    let third = exe.commit().unwrap();
    assert_eq!(first.bytes, vec![7u8, 2u8, 3u8]);
    assert_eq!(second.bytes, first.bytes);
    assert_eq!(third.bytes, first.bytes);
    assert!(!first.repeated);
    assert!(second.repeated);
    assert!(third.repeated);
    assert_eq!(exe.read_many(0usize..3usize), Ok(vec![7u8, 2u8, 3u8]));
}

#[test]
fn errors_have_their_texts() {
    assert_eq!(ExeError::OutOfBounds.message(), "Index out of bounds");
    assert_eq!(ExeError::Overflow.message(), "Overflowed index");
    assert_eq!(
        ExeError::Uninitialized.message(),
        "`EXE` was uninitialized, please call `.init(path)`"
    );
    assert_eq!(ExeError::AlreadyInitialized.message(), "`EXE` was already initialized");
    assert_eq!(ExeError::InteriorNul.message(), "String holds a NULL before its end");
    assert_eq!(ExeError::InvalidUtf8.message(), "String is not valid UTF-8");
}

#[test]
fn a_writer_changes_the_image_in_place() {
    let mut exe = image(vec![1u8, 2u8, 3u8]);
    exe.writer().unwrap()[1] = 9u8;
    exe.try_writer().unwrap().push(4u8);
    assert_eq!(exe.try_reader().map(|bytes| bytes.clone()), Ok(vec![1u8, 9u8, 3u8, 4u8]));
    assert_eq!(exe.len(), Ok(4usize));
    assert_eq!(exe.read(3usize), Ok(4u8));
    let mut empty = Exe::new();
    assert_eq!(empty.writer().err(), Some(ExeError::Uninitialized));
    assert_eq!(empty.try_writer().err(), Some(ExeError::Uninitialized));
    assert_eq!(empty.try_reader().err(), Some(ExeError::Uninitialized));
}

#[test]
fn writing_back_what_a_write_returned_restores_the_image() {
    let mut exe = image(vec![5u8, 6u8, 7u8, 8u8]);
    let previous = exe.write_many(1usize, &[0u8, 0u8]).unwrap();
    assert_eq!(exe.write_many(1usize, &previous), Ok(vec![0u8, 0u8]));
    assert_eq!(exe.read_many(0usize..4usize), Ok(vec![5u8, 6u8, 7u8, 8u8]));
}
