//! The header layout of an image.
//!
//! An image starts with a legacy header, which points to the modern one.
//! The modern header is a signature, a file header, an optional header that
//! ends in the table of data directories, and the table of sections.
//! [`NtImage`] reads all of that once, from an [`Exe`], and then answers
//! from what it read.

use crate::exe::spec_read_to_string;
use crate::exe::Exe;
use crate::exe::ExeError;
use crate::pod::le_value;
use crate::pod::lemma_le_value_bound;
use crate::pod::pow256;
use core::ops::Range;
use hashbrown::HashMap;
use vstd::prelude::*;

verus! {

/// Where the signature of the legacy header lies.
pub const MZ_MAGIC: u64 = 0x0;

/// Where the legacy header holds the address of the modern header.
pub const MZ_NT_ADDRESS: u64 = 0x3c;

/// Where the file header starts, from the start of the modern header.
pub const NT_FILE: u64 = 0x4;

/// Where the file header holds the number of sections.
pub const NT_FILE_SECTIONS_NUM: u64 = 0x2;

/// Where the file header holds the length of the optional header.
pub const NT_FILE_OPTIONAL_LEN: u64 = 0x10;

/// Where the optional header starts, from the start of the modern header.
pub const NT_OPTIONAL: u64 = 0x18;

/// Where the entry point is held, from the start of the modern header.
pub const NT_OPTIONAL_ENTRY_POINT: u64 = 0x28;

/// Where the table of data directories starts, from the start of the
/// optional header.
pub const NT_OPTIONAL_DIRECTORY: u64 = 0x70;

/// The number of data directories.
pub const NT_OPTIONAL_DIRECTORY_ENTRY_NUM: usize = 0x10;

/// The length of one data directory.
pub const NT_OPTIONAL_DIRECTORY_ENTRY_LEN: u64 = 0x8;

/// The length of one entry of the section table.
pub const NT_SECTION_LEN: u64 = 0x28;

/// The length of a section's name.
pub const NT_SECTION_NAME_LEN: usize = 0x8;

/// Where an entry of the section table holds the section's size.
pub const NT_SECTION_SIZE: u64 = 0x10;

/// Where an entry of the section table holds the section's start.
pub const NT_SECTION: u64 = 0x14;

/// The signature of the legacy header: the characters `MZ`.
pub open spec fn mz_magic() -> Seq<u8> {
    seq![0x4du8, 0x5au8]
}

/// The signature of the modern header: the characters `PE` and two zero
/// bytes.
pub open spec fn nt_signature() -> Seq<u8> {
    seq![0x50u8, 0x45u8, 0u8, 0u8]
}

/// Why the headers of an image could not be read or asked.
#[derive(Clone, Copy, Debug, PartialEq, Eq, Structural)]
pub enum HeaderError {
    /// A signature is wrong, a name is no text, two sections share a name,
    /// or an offset does not fit in an index.
    InvalidFormat,
    /// The image ends before a field that the headers need.
    Truncated,
    /// `init` had been called before.
    AlreadyInitialized,
    /// The headers have not been read, or the image holds no bytes.
    Uninitialized,
}

/// The data directories of an image, by kind.
pub type NtDataDirectory = [Range<usize>; 16];

/// The sections of an image, by name.
///
/// The sections are kept in a `hashbrown::HashMap`. The verifier cannot
/// take in the type of the map itself: its allocator parameter is bound by
/// a trait that the verifier does not know. So the map stands behind this
/// struct and is taken on trust: [`section_entries`] names what the map
/// holds, and the functions below say of each method of the map that is
/// called what it does to that.
#[verifier::external_body]
pub struct NtImageSections {
    inner: HashMap<String, Range<usize>>,
}

/// The sections that a table holds: each name with its byte range.
pub uninterp spec fn section_entries(sections: NtImageSections) -> Map<Seq<char>, Range<usize>>;

/// No sections.
pub open spec fn no_sections() -> Map<Seq<char>, Range<usize>> {
    Map::empty()
}

impl View for NtImageSections {
    type V = Map<Seq<char>, Range<usize>>;

    open spec fn view(&self) -> Map<Seq<char>, Range<usize>> {
        section_entries(*self)
    }
}

/// `hashbrown::HashMap::with_capacity`: a map without entries. The
/// capacity is kept small, so that the map can always be allocated.
#[verifier::external_body]
fn sections_with_capacity(capacity: usize) -> (sections: NtImageSections)
    requires
        capacity <= 0xffff,
    ensures
        section_entries(sections) == no_sections(),
{
    NtImageSections { inner: HashMap::with_capacity(capacity) }
}

/// `hashbrown::HashMap::insert`: the map then holds `range` under `name`,
/// and every other entry as before; the result is what it held under
/// `name` before, if anything.
#[verifier::external_body]
fn sections_insert(sections: &mut NtImageSections, name: String, range: Range<usize>) -> (previous:
    Option<Range<usize>>)
    ensures
        section_entries(*final(sections)) == section_entries(*old(sections)).insert(name@, range),
        previous == lookup(section_entries(*old(sections)), name@),
{
    sections.inner.insert(name, range)
}

/// `hashbrown::HashMap::get`: what the map holds under `name`, if
/// anything.
#[verifier::external_body]
fn sections_get(sections: &NtImageSections, name: &str) -> (range: Option<Range<usize>>)
    ensures
        range == lookup(section_entries(*sections), name@),
{
    sections.inner.get(name).cloned()
}

/// `hashbrown::HashMap::len`: the number of entries.
#[verifier::external_body]
fn sections_len(sections: &NtImageSections) -> (n: usize)
    ensures
        n == section_entries(*sections).dom().len(),
{
    sections.inner.len()
}

/// What `entries` holds under `name`, if anything.
pub open spec fn lookup(entries: Map<Seq<char>, Range<usize>>, name: Seq<char>) -> Option<
    Range<usize>,
> {
    if entries.dom().contains(name) {
        Some(entries[name])
    } else {
        None
    }
}

impl NtImageSections {
    /// The byte range of the section called `name`.
    pub fn get(&self, name: &str) -> (range: Option<Range<usize>>)
        ensures
            range == lookup(self@, name@),
    {
        sections_get(self, name)
    }

    /// Whether there is a section called `name`.
    pub fn contains_key(&self, name: &str) -> (found: bool)
        ensures
            found == self@.dom().contains(name@),
    {
        sections_get(self, name).is_some()
    }

    /// The number of sections.
    pub fn len(&self) -> (n: usize)
        ensures
            n == self@.dom().len(),
    {
        sections_len(self)
    }
}

/// What the optional header says.
#[derive(Debug)]
pub struct NtOptional {
    entry_point: usize,
    directory: NtDataDirectory,
}

impl NtOptional {
    /// The entry point, as an offset into the image.
    pub closed spec fn spec_entry_point(&self) -> usize {
        self.entry_point
    }

    /// The data directories, by kind.
    pub closed spec fn spec_directory(&self) -> Seq<Range<usize>> {
        self.directory@
    }

    pub fn new(entry_point: usize, directory: NtDataDirectory) -> (optional: NtOptional)
        ensures
            optional.spec_entry_point() == entry_point,
            optional.spec_directory() == directory@,
    {
        NtOptional { entry_point, directory }
    }

    pub fn entry_point(&self) -> (entry_point: usize)
        ensures
            entry_point == self.spec_entry_point(),
    {
        self.entry_point
    }

    /// The data directory of index `index`.
    pub fn entry(&self, index: usize) -> (r: Result<Range<usize>, ExeError>)
        ensures
            index < 16 ==> r is Ok && r->Ok_0 == self.spec_directory()[index as int],
            index >= 16 ==> r is Err && r->Err_0 == ExeError::OutOfBounds,
    {
        proof {
            vstd::array::array_len_matches_n(&self.directory);
        }
        if index < NT_OPTIONAL_DIRECTORY_ENTRY_NUM {
            let range = &self.directory[index];
            Ok(range.start..range.end)
        } else {
            Err(ExeError::OutOfBounds)
        }
    }

    pub fn directory(&self) -> (directory: &NtDataDirectory)
        ensures
            directory@ == self.spec_directory(),
            directory@.len() == 16,
    {
        proof {
            vstd::array::array_len_matches_n(&self.directory);
        }
        &self.directory
    }
}

/// Everything that the headers of an image say.
pub struct Layout {
    pub entry_point: usize,
    pub directory: Seq<Range<usize>>,
    pub sections: Map<Seq<char>, Range<usize>>,
}

/// The number held in the `width` bytes at `at`, least significant byte
/// first.
pub open spec fn spec_field(bytes: Seq<u8>, at: int, width: nat) -> Result<usize, HeaderError> {
    if 0 <= at && at + width <= bytes.len() {
        Ok(le_value(bytes.subrange(at, at + width)) as usize)
    } else {
        Err(HeaderError::Truncated)
    }
}

/// Whether the bytes at `at` are `expected`.
pub open spec fn spec_signature(bytes: Seq<u8>, at: int, expected: Seq<u8>) -> Result<
    (),
    HeaderError,
> {
    if !(0 <= at && at + expected.len() <= bytes.len()) {
        Err(HeaderError::Truncated)
    } else if bytes.subrange(at, at + expected.len()) != expected {
        Err(HeaderError::InvalidFormat)
    } else {
        Ok(())
    }
}

/// The byte range whose start is held in the four bytes at `start_at` and
/// whose length is held in the four bytes at `size_at`.
pub open spec fn spec_range(bytes: Seq<u8>, start_at: int, size_at: int) -> Result<
    Range<usize>,
    HeaderError,
> {
    match spec_field(bytes, start_at, 4) {
        Err(e) => Err(e),
        Ok(start) => match spec_field(bytes, size_at, 4) {
            Err(e) => Err(e),
            Ok(size) => if start + size > usize::MAX {
                Err(HeaderError::InvalidFormat)
            } else {
                Ok(Range { start: start, end: (start + size) as usize })
            },
        },
    }
}

/// The name held in the eight bytes at `at`, without the zero bytes that
/// pad it.
pub open spec fn spec_section_name(bytes: Seq<u8>, at: int) -> Result<Seq<char>, HeaderError> {
    if !(0 <= at && at + NT_SECTION_NAME_LEN <= bytes.len()) {
        Err(HeaderError::Truncated)
    } else {
        match spec_read_to_string(Some(bytes), at, Some(NT_SECTION_NAME_LEN)) {
            Ok(name) => Ok(name),
            Err(_) => Err(HeaderError::InvalidFormat),
        }
    }
}

/// The data directories from the `i`-th on, added to `found`: entry `k` of
/// the table at `table` is a start and a length, four bytes each.
pub open spec fn spec_directory_from(
    bytes: Seq<u8>,
    table: int,
    i: nat,
    found: Seq<Range<usize>>,
) -> Result<Seq<Range<usize>>, HeaderError>
    decreases NT_OPTIONAL_DIRECTORY_ENTRY_NUM - i,
{
    if i >= NT_OPTIONAL_DIRECTORY_ENTRY_NUM {
        Ok(found)
    } else {
        let entry = table + i * NT_OPTIONAL_DIRECTORY_ENTRY_LEN;
        match spec_range(bytes, entry, entry + 4) {
            Err(e) => Err(e),
            Ok(range) => spec_directory_from(bytes, table, i + 1, found.push(range)),
        }
    }
}

/// The sections from the `i`-th on, added to `found`. The table at `table`
/// has `count` entries at most; it ends early at an entry without a name.
/// A name that `found` already holds is an error.
pub open spec fn spec_sections_from(
    bytes: Seq<u8>,
    table: int,
    count: nat,
    i: nat,
    found: Map<Seq<char>, Range<usize>>,
) -> Result<Map<Seq<char>, Range<usize>>, HeaderError>
    decreases count - i,
{
    if i >= count {
        Ok(found)
    } else {
        let entry = table + i * NT_SECTION_LEN;
        match spec_section_name(bytes, entry) {
            Err(e) => Err(e),
            Ok(name) => if name.len() == 0 {
                Ok(found)
            } else {
                match spec_range(bytes, entry + NT_SECTION, entry + NT_SECTION_SIZE) {
                    Err(e) => Err(e),
                    Ok(range) => if found.dom().contains(name) {
                        Err(HeaderError::InvalidFormat)
                    } else {
                        spec_sections_from(bytes, table, count, i + 1, found.insert(name, range))
                    },
                }
            },
        }
    }
}

/// What the optional header at `nt_optional` and the section table behind
/// it say. The entry point is held at `entry_at` and counts from the start
/// of the optional header.
pub open spec fn spec_optional_and_sections(
    bytes: Seq<u8>,
    nt_optional: int,
    entry_at: int,
    optional_len: nat,
    sections_num: nat,
) -> Result<Layout, HeaderError> {
    match spec_field(bytes, entry_at, 4) {
        Err(e) => Err(e),
        Ok(entry) => if nt_optional + entry > usize::MAX {
            Err(HeaderError::InvalidFormat)
        } else {
            match spec_directory_from(bytes, nt_optional + NT_OPTIONAL_DIRECTORY, 0, Seq::empty()) {
                Err(e) => Err(e),
                Ok(directory) => match spec_sections_from(
                    bytes,
                    nt_optional + optional_len,
                    sections_num,
                    0,
                    Map::empty(),
                ) {
                    Err(e) => Err(e),
                    Ok(sections) => Ok(
                        Layout {
                            entry_point: (nt_optional + entry) as usize,
                            directory: directory,
                            sections: sections,
                        },
                    ),
                },
            }
        },
    }
}

/// What the modern header at `nt_base` says.
pub open spec fn spec_nt_headers(bytes: Seq<u8>, nt_base: int) -> Result<Layout, HeaderError> {
    match spec_signature(bytes, nt_base, nt_signature()) {
        Err(e) => Err(e),
        Ok(_) => match spec_field(bytes, nt_base + NT_FILE + NT_FILE_SECTIONS_NUM, 2) {
            Err(e) => Err(e),
            Ok(sections_num) => match spec_field(bytes, nt_base + NT_FILE + NT_FILE_OPTIONAL_LEN, 2) {
                Err(e) => Err(e),
                Ok(optional_len) => spec_optional_and_sections(
                    bytes,
                    nt_base + NT_OPTIONAL,
                    nt_base + NT_OPTIONAL_ENTRY_POINT,
                    optional_len as nat,
                    sections_num as nat,
                ),
            },
        },
    }
}

/// What the headers of the image `bytes` say, or why they cannot be read.
pub open spec fn spec_layout(bytes: Seq<u8>) -> Result<Layout, HeaderError> {
    match spec_signature(bytes, MZ_MAGIC as int, mz_magic()) {
        Err(e) => Err(e),
        Ok(_) => match spec_field(bytes, MZ_NT_ADDRESS as int, 4) {
            Err(e) => Err(e),
            Ok(nt_base) => spec_nt_headers(bytes, nt_base as int),
        },
    }
}

/// A table of data directories that can be read has sixteen entries, and
/// they come after the entries that were found before, in order.
pub proof fn lemma_directory_len(bytes: Seq<u8>, table: int, i: nat, found: Seq<Range<usize>>)
    requires
        i <= 16,
        found.len() == i,
    ensures
        spec_directory_from(bytes, table, i, found) matches Ok(directory) ==> directory.len() == 16
            && directory.take(i as int) == found,
    decreases 16 - i,
{
    if i < 16 {
        let entry = table + i * NT_OPTIONAL_DIRECTORY_ENTRY_LEN;
        if let Ok(range) = spec_range(bytes, entry, entry + 4) {
            lemma_directory_len(bytes, table, i + 1, found.push(range));
            if let Ok(directory) = spec_directory_from(bytes, table, i, found) {
                assert(directory.take(i as int) =~= directory.take(i as int + 1).take(i as int));
                assert(found.push(range).take(i as int) =~= found);
            }
        }
    } else {
        assert(found.take(i as int) =~= found);
    }
}

/// The sections that are read from a table are at most as many as the
/// table declares, none of them has an empty name, and those that were
/// found before are among them, unchanged: a name is never read twice.
pub proof fn lemma_sections_bounded(
    bytes: Seq<u8>,
    table: int,
    count: nat,
    i: nat,
    found: Map<Seq<char>, Range<usize>>,
)
    requires
        i <= count,
        found.dom().finite(),
        found.dom().len() <= i,
        !found.dom().contains(Seq::empty()),
    ensures
        spec_sections_from(bytes, table, count, i, found) matches Ok(sections) ==> {
            &&& sections.dom().finite()
            &&& sections.dom().len() <= count
            &&& !sections.dom().contains(Seq::empty())
            &&& forall|name: Seq<char>|
                found.dom().contains(name) ==> #[trigger] sections.dom().contains(name)
                    && sections[name] == found[name]
        },
    decreases count - i,
{
    if i < count {
        let entry = table + i * NT_SECTION_LEN;
        if let Ok(name) = spec_section_name(bytes, entry) {
            if name.len() > 0 {
                if let Ok(range) = spec_range(bytes, entry + NT_SECTION, entry + NT_SECTION_SIZE) {
                    if !found.dom().contains(name) {
                        let next = found.insert(name, range);
                        assert(!(name =~= Seq::<char>::empty()));
                        lemma_sections_bounded(bytes, table, count, i + 1, next);
                        if let Ok(sections) = spec_sections_from(bytes, table, count, i, found) {
                            assert forall|other: Seq<char>|
                                found.dom().contains(other) implies #[trigger] sections.dom()
                                .contains(other) && sections[other] == found[other] by {
                                assert(next.dom().contains(other));
                                assert(next[other] == found[other]);
                            }
                        }
                    }
                }
            }
        }
    }
}

/// What the headers of an image say, where they can be read, is sixteen
/// data directories and at most 65535 sections, each with a name of its
/// own that is not empty.
pub proof fn lemma_layout_shape(bytes: Seq<u8>)
    ensures
        spec_layout(bytes) matches Ok(layout) ==> {
            &&& layout.directory.len() == 16
            &&& layout.sections.dom().finite()
            &&& layout.sections.dom().len() <= 0xffff
            &&& !layout.sections.dom().contains(Seq::empty())
        },
{
    if let Ok(layout) = spec_layout(bytes) {
        let nt_base = spec_field(bytes, MZ_NT_ADDRESS as int, 4)->Ok_0 as int;
        let at = nt_base + NT_FILE + NT_FILE_SECTIONS_NUM;
        let sections_num = spec_field(bytes, at, 2)->Ok_0;
        let optional_len = spec_field(bytes, nt_base + NT_FILE + NT_FILE_OPTIONAL_LEN, 2)->Ok_0;
        let nt_optional = nt_base + NT_OPTIONAL;
        assert(sections_num <= 0xffff) by {
            reveal_with_fuel(pow256, 3);
            lemma_le_value_bound(bytes.subrange(at, at + 2));
        }
        lemma_directory_len(bytes, nt_optional + NT_OPTIONAL_DIRECTORY, 0, Seq::empty());
        lemma_sections_bounded(
            bytes,
            nt_optional + optional_len,
            sections_num as nat,
            0,
            Map::empty(),
        );
    }
}

/// What `optional` and `sections` say together.
pub open spec fn layout_of(optional: NtOptional, sections: NtImageSections) -> Layout {
    Layout {
        entry_point: optional.spec_entry_point(),
        directory: optional.spec_directory(),
        sections: sections@,
    }
}

/// What reading the headers of `image` yields.
pub open spec fn spec_init(image: Option<Seq<u8>>) -> Result<Layout, HeaderError> {
    match image {
        None => Err(HeaderError::Uninitialized),
        Some(bytes) => spec_layout(bytes),
    }
}

/// Offsets stay below this bound, so that sums of them fit in 64 bits.
const OFFSET_BOUND: u64 = 0x4_0000_0000;

/// Whether two byte strings are the same.
fn bytes_equal(a: &[u8], b: &[u8]) -> (equal: bool)
    ensures
        equal == (a@ == b@),
{
    if a.len() != b.len() {
        return false;
    }
    let mut i: usize = 0;
    while i < a.len()
        invariant
            a@.len() == b@.len(),
            i <= a@.len(),
            forall|k: int| 0 <= k < i ==> a@[k] == b@[k],
        decreases a@.len() - i,
    {
        if a[i] != b[i] {
            return false;
        }
        i = i + 1;
    }
    proof {
        assert(a@ =~= b@);
    }
    true
}

/// Checks that the bytes at `at` are `expected`.
fn check_signature(exe: &Exe, at: u64, expected: &[u8]) -> (r: Result<(), HeaderError>)
    requires
        exe@ is Some,
        at < OFFSET_BOUND,
        expected@.len() <= 8,
    ensures
        r == spec_signature(exe@.unwrap(), at as int, expected@),
{
    let len = match exe.len() {
        Ok(len) => len,
        Err(_) => { return Err(HeaderError::Truncated); },
    };
    if at + expected.len() as u64 > len as u64 {
        return Err(HeaderError::Truncated);
    }
    let start = at as usize;
    match exe.read_many(start..(start + expected.len())) {
        Ok(found) => if bytes_equal(found.as_slice(), expected) {
            Ok(())
        } else {
            Err(HeaderError::InvalidFormat)
        },
        Err(_) => Err(HeaderError::Truncated),
    }
}

/// The two-byte number at `index`.
fn __read_u16_to_usize(exe: &Exe, index: u64) -> (r: Result<usize, HeaderError>)
    requires
        exe@ is Some,
        index < OFFSET_BOUND,
    ensures
        r == spec_field(exe@.unwrap(), index as int, 2),
{
    let len = match exe.len() {
        Ok(len) => len,
        Err(_) => { return Err(HeaderError::Truncated); },
    };
    if index + 2 > len as u64 {
        return Err(HeaderError::Truncated);
    }
    proof {
        reveal_with_fuel(pow256, 3);
        lemma_le_value_bound(exe@.unwrap().subrange(index as int, index + 2));
    }
    match exe.read_to::<u16>(index as usize) {
        Ok(value) => Ok(value as usize),
        Err(_) => Err(HeaderError::Truncated),
    }
}

/// The four-byte number at `index`.
fn __read_u32_to_usize(exe: &Exe, index: u64) -> (r: Result<usize, HeaderError>)
    requires
        exe@ is Some,
        index < OFFSET_BOUND,
    ensures
        r == spec_field(exe@.unwrap(), index as int, 4),
        r is Ok ==> r->Ok_0 <= u32::MAX,
{
    let len = match exe.len() {
        Ok(len) => len,
        Err(_) => { return Err(HeaderError::Truncated); },
    };
    if index + 4 > len as u64 {
        return Err(HeaderError::Truncated);
    }
    proof {
        reveal_with_fuel(pow256, 5);
        lemma_le_value_bound(exe@.unwrap().subrange(index as int, index + 4));
    }
    match exe.read_to::<u32>(index as usize) {
        Ok(value) => Ok(value as usize),
        Err(_) => Err(HeaderError::Truncated),
    }
}

/// The byte range whose start is held at `start_at` and whose length is
/// held at `size_at`.
fn read_range(exe: &Exe, start_at: u64, size_at: u64) -> (r: Result<Range<usize>, HeaderError>)
    requires
        exe@ is Some,
        start_at < OFFSET_BOUND,
        size_at < OFFSET_BOUND,
    ensures
        r == spec_range(exe@.unwrap(), start_at as int, size_at as int),
{
    let start = match __read_u32_to_usize(exe, start_at) {
        Ok(start) => start,
        Err(e) => { return Err(e); },
    };
    let size = match __read_u32_to_usize(exe, size_at) {
        Ok(size) => size,
        Err(e) => { return Err(e); },
    };
    let end: u64 = start as u64 + size as u64;
    if end > usize::MAX as u64 {
        return Err(HeaderError::InvalidFormat);
    }
    Ok(start..(end as usize))
}

/// The name of the section whose entry starts at `at`.
fn read_section_name(exe: &Exe, at: u64) -> (r: Result<String, HeaderError>)
    requires
        exe@ is Some,
        at < OFFSET_BOUND,
    ensures
        match spec_section_name(exe@.unwrap(), at as int) {
            Ok(name) => r is Ok && r->Ok_0@ == name,
            Err(e) => r is Err && r->Err_0 == e,
        },
{
    let len = match exe.len() {
        Ok(len) => len,
        Err(_) => { return Err(HeaderError::Truncated); },
    };
    if at + 8 > len as u64 {
        return Err(HeaderError::Truncated);
    }
    match exe.read_to_string(at as usize, Some(NT_SECTION_NAME_LEN)) {
        Ok(name) => Ok(name),
        Err(_) => Err(HeaderError::InvalidFormat),
    }
}

/// Reads the table of data directories at `table`.
fn __get_directory(exe: &Exe, table: u64) -> (r: Result<NtDataDirectory, HeaderError>)
    requires
        exe@ is Some,
        table < 0x2_0000_0000,
    ensures
        match spec_directory_from(exe@.unwrap(), table as int, 0, Seq::empty()) {
            Ok(directory) => r is Ok && r->Ok_0@ == directory,
            Err(e) => r is Err && r->Err_0 == e,
        },
{
    let mut directory: NtDataDirectory = [
        0..0,
        0..0,
        0..0,
        0..0,
        0..0,
        0..0,
        0..0,
        0..0,
        0..0,
        0..0,
        0..0,
        0..0,
        0..0,
        0..0,
        0..0,
        0..0,
    ];
    let ghost bytes = exe@.unwrap();
    let mut i: usize = 0;
    proof {
        assert(directory@.take(0) =~= Seq::<Range<usize>>::empty());
    }
    while i < NT_OPTIONAL_DIRECTORY_ENTRY_NUM
        invariant
            exe@ == Some(bytes),
            table < 0x2_0000_0000,
            i <= 16,
            directory@.len() == 16,
            spec_directory_from(bytes, table as int, i as nat, directory@.take(i as int))
                == spec_directory_from(bytes, table as int, 0, Seq::empty()),
        decreases 16 - i,
    {
        let entry: u64 = table + i as u64 * NT_OPTIONAL_DIRECTORY_ENTRY_LEN;
        let ghost before = directory@;
        match read_range(exe, entry, entry + 4) {
            Err(e) => { return Err(e); },
            Ok(range) => {
                directory[i] = range;
                proof {
                    assert(directory@.take(i + 1) =~= before.take(i as int).push(range));
                }
            },
        }
        i = i + 1;
    }
    proof {
        assert(directory@.take(16) =~= directory@);
    }
    Ok(directory)
}

/// Reads the section table at `table`, which has `count` entries at most.
fn __get_sections(exe: &Exe, table: u64, count: usize) -> (r: Result<NtImageSections, HeaderError>)
    requires
        exe@ is Some,
        table < 0x2_0000_0000,
        count <= 0xffff,
    ensures
        match spec_sections_from(exe@.unwrap(), table as int, count as nat, 0, Map::empty()) {
            Ok(sections) => r is Ok && r->Ok_0@ == sections,
            Err(e) => r is Err && r->Err_0 == e,
        },
{
    let mut sections = sections_with_capacity(count);
    let ghost bytes = exe@.unwrap();
    let mut i: usize = 0;
    while i < count
        invariant
            exe@ == Some(bytes),
            table < 0x2_0000_0000,
            count <= 0xffff,
            i <= count,
            spec_sections_from(bytes, table as int, count as nat, i as nat, sections@)
                == spec_sections_from(bytes, table as int, count as nat, 0, Map::empty()),
        decreases count - i,
    {
        let entry: u64 = table + i as u64 * NT_SECTION_LEN;
        let name = match read_section_name(exe, entry) {
            Ok(name) => name,
            Err(e) => { return Err(e); },
        };
        if name.as_str().is_empty() {
            return Ok(sections);
        }
        let range = match read_range(exe, entry + NT_SECTION, entry + NT_SECTION_SIZE) {
            Ok(range) => range,
            Err(e) => { return Err(e); },
        };
        if sections.contains_key(name.as_str()) {
            return Err(HeaderError::InvalidFormat);
        }
        sections_insert(&mut sections, name, range);
        i = i + 1;
    }
    Ok(sections)
}

/// Reads the headers of `exe`.
fn parse(exe: &Exe) -> (r: Result<(NtOptional, NtImageSections), HeaderError>)
    requires
        exe@ is Some,
    ensures
        match spec_layout(exe@.unwrap()) {
            Ok(layout) => r is Ok && layout_of(r->Ok_0.0, r->Ok_0.1) == layout,
            Err(e) => r is Err && r->Err_0 == e,
        },
{
    match check_signature(exe, MZ_MAGIC, &[0x4du8, 0x5au8]) {
        Ok(_) => {},
        Err(e) => { return Err(e); },
    }
    let nt_base = match __read_u32_to_usize(exe, MZ_NT_ADDRESS) {
        Ok(nt_base) => nt_base as u64,
        Err(e) => { return Err(e); },
    };
    match check_signature(exe, nt_base, &[0x50u8, 0x45u8, 0u8, 0u8]) {
        Ok(_) => {},
        Err(e) => { return Err(e); },
    }
    let nt_file = nt_base + NT_FILE;
    let sections_num = match __read_u16_to_usize(exe, nt_file + NT_FILE_SECTIONS_NUM) {
        Ok(sections_num) => sections_num,
        Err(e) => { return Err(e); },
    };
    let optional_len = match __read_u16_to_usize(exe, nt_file + NT_FILE_OPTIONAL_LEN) {
        Ok(optional_len) => optional_len,
        Err(e) => { return Err(e); },
    };
    proof {
        reveal_with_fuel(pow256, 3);
        let field = exe@.unwrap().subrange(nt_base + 0x4 + 0x2, nt_base + 0x4 + 0x2 + 2);
        lemma_le_value_bound(field);
        let field = exe@.unwrap().subrange(nt_base + 0x4 + 0x10, nt_base + 0x4 + 0x10 + 2);
        lemma_le_value_bound(field);
    }
    let nt_optional = nt_base + NT_OPTIONAL;
    let entry = match __read_u32_to_usize(exe, nt_base + NT_OPTIONAL_ENTRY_POINT) {
        Ok(entry) => entry,
        Err(e) => { return Err(e); },
    };
    let entry_point: u64 = nt_optional + entry as u64;
    if entry_point > usize::MAX as u64 {
        return Err(HeaderError::InvalidFormat);
    }
    let directory = match __get_directory(exe, nt_optional + NT_OPTIONAL_DIRECTORY) {
        Ok(directory) => directory,
        Err(e) => { return Err(e); },
    };
    let sections = match __get_sections(exe, nt_optional + optional_len as u64, sections_num) {
        Ok(sections) => sections,
        Err(e) => { return Err(e); },
    };
    Ok((NtOptional::new(entry_point as usize, directory), sections))
}

/// How far the reading of the headers has come.
#[derive(Clone, Copy, Debug, PartialEq, Eq, Structural)]
pub enum NtImageState {
    /// `init` has not been called.
    Uninitialized,
    /// `init` is reading the headers. Nobody else can see this state: it
    /// lasts as long as `init` holds the layout exclusively.
    Initializing,
    /// The headers were read in full. This state is final.
    Ready,
    /// The headers could not be read. This state is final.
    Failed,
}

/// The header layout of one image: read once, then only asked.
pub struct NtImage {
    state: NtImageState,
    published: Option<(NtOptional, NtImageSections)>,
}

impl NtImage {
    /// How far the reading has come.
    pub closed spec fn state(&self) -> NtImageState {
        self.state
    }

    /// What was read, once the layout is ready.
    pub closed spec fn layout(&self) -> Option<Layout> {
        match (self.state, self.published) {
            (NtImageState::Ready, Some(published)) => Some(layout_of(published.0, published.1)),
            _ => None,
        }
    }

    /// A layout that has read nothing yet.
    pub fn new() -> (image: NtImage)
        ensures
            image.state() == NtImageState::Uninitialized,
            image.layout() is None,
    {
        NtImage { state: NtImageState::Uninitialized, published: None }
    }

    /// How far the reading has come.
    pub fn current_state(&self) -> (state: NtImageState)
        ensures
            state == self.state(),
    {
        self.state
    }

    /// Reads the headers of `exe`. Only the first call reads anything: it
    /// leaves the layout ready, with all that the headers say, or failed,
    /// with nothing. Every later call is refused and changes nothing.
    pub fn init(&mut self, exe: &Exe) -> (r: Result<(), HeaderError>)
        ensures
            old(self).state() != NtImageState::Uninitialized ==> {
                &&& r == Err::<(), HeaderError>(HeaderError::AlreadyInitialized)
                &&& final(self).state() == old(self).state()
                &&& final(self).layout() == old(self).layout()
            },
            old(self).state() == NtImageState::Uninitialized ==> match spec_init(exe@) {
                Ok(layout) => {
                    &&& r is Ok
                    &&& final(self).state() == NtImageState::Ready
                    &&& final(self).layout() == Some(layout)
                },
                Err(e) => {
                    &&& r == Err::<(), HeaderError>(e)
                    &&& final(self).state() == NtImageState::Failed
                    &&& final(self).layout() is None
                },
            },
    {
        match self.state {
            NtImageState::Uninitialized => {},
            _ => { return Err(HeaderError::AlreadyInitialized); },
        }
        self.state = NtImageState::Initializing;
        let parsed = match exe.len() {
            Ok(_) => parse(exe),
            Err(_) => Err(HeaderError::Uninitialized),
        };
        match parsed {
            Ok(published) => {
                self.published = Some(published);
                self.state = NtImageState::Ready;
                Ok(())
            },
            Err(e) => {
                self.published = None;
                self.state = NtImageState::Failed;
                Err(e)
            },
        }
    }

    /// What the optional header says, once the layout is ready.
    pub fn optional(&self) -> (r: Result<&NtOptional, HeaderError>)
        ensures
            match self.layout() {
                Some(layout) => r is Ok && r->Ok_0.spec_entry_point() == layout.entry_point
                    && r->Ok_0.spec_directory() == layout.directory,
                None => r is Err && r->Err_0 == HeaderError::Uninitialized,
            },
    {
        match (&self.state, &self.published) {
            (NtImageState::Ready, Some(published)) => Ok(&published.0),
            _ => Err(HeaderError::Uninitialized),
        }
    }

    /// The sections by name, once the layout is ready.
    pub fn sections(&self) -> (r: Result<&NtImageSections, HeaderError>)
        ensures
            match self.layout() {
                Some(layout) => r is Ok && r->Ok_0@ == layout.sections,
                None => r is Err && r->Err_0 == HeaderError::Uninitialized,
            },
    {
        match (&self.state, &self.published) {
            (NtImageState::Ready, Some(published)) => Ok(&published.1),
            _ => Err(HeaderError::Uninitialized),
        }
    }
}

} // verus!
