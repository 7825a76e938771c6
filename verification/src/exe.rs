//! An owned, bounds-checked byte image.
//!
//! [`Exe`] holds the bytes of an executable image, taken from a file or
//! from a memory snapshot. Every access is checked against the length of
//! the image: an access outside it is an error, never a panic. The image
//! knows nothing of what the bytes mean; [`headers`] reads their layout.

pub mod directory;
pub mod headers;

use crate::exe::headers::spec_init;
use crate::exe::headers::HeaderError;
use crate::exe::headers::NtImage;
use crate::exe::headers::NtImageState;
use crate::pod::Pod;
use core::ops::Range;
use vstd::prelude::*;
use vstd::slice::*;
use vstd::string::*;
use vstd::utf8::*;

verus! {

/// Why an access to an [`Exe`] was refused.
#[derive(Clone, Copy, Debug, PartialEq, Eq, Structural)]
pub enum ExeError {
    /// The image holds no bytes yet.
    Uninitialized,
    /// The image already holds bytes.
    AlreadyInitialized,
    /// The end of a string of a given size does not fit in an index.
    Overflow,
    /// The requested range does not lie inside the image; a range whose
    /// end does not fit in an index lies outside every image.
    OutOfBounds,
    /// A string holds a zero byte before its last non-zero byte.
    InteriorNul,
    /// A string is not valid UTF-8.
    InvalidUtf8,
}

impl ExeError {
    /// The text of the error.
    pub open spec fn spec_message(self) -> Seq<char> {
        match self {
            ExeError::Uninitialized => "`EXE` was uninitialized, please call `.init(path)`"@,
            ExeError::AlreadyInitialized => "`EXE` was already initialized"@,
            ExeError::Overflow => "Overflowed index"@,
            ExeError::OutOfBounds => "Index out of bounds"@,
            ExeError::InteriorNul => "String holds a NULL before its end"@,
            ExeError::InvalidUtf8 => "String is not valid UTF-8"@,
        }
    }

    /// The text of the error, for a log or a dialog.
    pub fn message(&self) -> (text: String)
        ensures
            text@ == self.spec_message(),
    {
        match self {
            ExeError::Uninitialized => String::from_str(
                "`EXE` was uninitialized, please call `.init(path)`",
            ),
            ExeError::AlreadyInitialized => String::from_str("`EXE` was already initialized"),
            ExeError::Overflow => String::from_str("Overflowed index"),
            ExeError::OutOfBounds => String::from_str("Index out of bounds"),
            ExeError::InteriorNul => String::from_str("String holds a NULL before its end"),
            ExeError::InvalidUtf8 => String::from_str("String is not valid UTF-8"),
        }
    }
}

/// The byte at `index`.
pub open spec fn spec_read(image: Option<Seq<u8>>, index: int) -> Result<u8, ExeError> {
    match image {
        None => Err(ExeError::Uninitialized),
        Some(bytes) => if 0 <= index < bytes.len() {
            Ok(bytes[index])
        } else {
            Err(ExeError::OutOfBounds)
        },
    }
}

/// The bytes from `start` up to, not including, `end`.
pub open spec fn spec_read_many(image: Option<Seq<u8>>, start: int, end: int) -> Result<
    Seq<u8>,
    ExeError,
> {
    match image {
        None => Err(ExeError::Uninitialized),
        Some(bytes) => if 0 <= start <= end <= bytes.len() {
            Ok(bytes.subrange(start, end))
        } else {
            Err(ExeError::OutOfBounds)
        },
    }
}

/// The value of type `P` stored at `index`: out of bounds wherever the
/// bytes of the value do not all lie inside the image.
pub open spec fn spec_read_to<P: Pod>(image: Option<Seq<u8>>, index: int) -> Result<P, ExeError> {
    match spec_read_many(image, index, index + P::spec_size()) {
        Ok(bytes) => Ok(P::spec_from_bytes(bytes)),
        Err(e) => Err(e),
    }
}

/// The image after `value` has replaced the bytes at `index`, and the bytes
/// that it replaced: out of bounds wherever `value` does not fit between
/// `index` and the end of the image.
pub open spec fn spec_write_many(image: Option<Seq<u8>>, index: int, value: Seq<u8>) -> Result<
    (Seq<u8>, Seq<u8>),
    ExeError,
> {
    match image {
        None => Err(ExeError::Uninitialized),
        Some(bytes) => if 0 <= index && index + value.len() <= bytes.len() {
            Ok(
                (
                    bytes.subrange(0, index) + value + bytes.subrange(
                        index + value.len(),
                        bytes.len() as int,
                    ),
                    bytes.subrange(index, index + value.len()),
                ),
            )
        } else {
            Err(ExeError::OutOfBounds)
        },
    }
}

/// The image after `value` has been stored at `index`, and the value that
/// was stored there before.
pub open spec fn spec_write_to<P: Pod>(image: Option<Seq<u8>>, index: int, value: P) -> Result<
    (Seq<u8>, P),
    ExeError,
> {
    match spec_write_many(image, index, value.spec_to_bytes()) {
        Ok((after, previous)) => Ok((after, P::spec_from_bytes(previous))),
        Err(e) => Err(e),
    }
}

/// `bytes` without the zero bytes at its end.
pub open spec fn trim_nuls(bytes: Seq<u8>) -> Seq<u8>
    decreases bytes.len(),
{
    if bytes.len() > 0 && bytes.last() == 0 {
        trim_nuls(bytes.drop_last())
    } else {
        bytes
    }
}

/// The number of bytes of `bytes` before its first zero byte, or its
/// length where it holds none.
pub open spec fn nul_or_end(bytes: Seq<u8>) -> nat
    decreases bytes.len(),
{
    if bytes.len() == 0 || bytes[0] == 0 {
        0
    } else {
        1 + nul_or_end(bytes.skip(1))
    }
}

/// The text that `bytes` hold: they must hold no zero byte and be UTF-8.
pub open spec fn spec_text(bytes: Seq<u8>) -> Result<Seq<char>, ExeError> {
    if bytes.contains(0u8) {
        Err(ExeError::InteriorNul)
    } else if !valid_utf8(bytes) {
        Err(ExeError::InvalidUtf8)
    } else {
        Ok(decode_utf8(bytes))
    }
}

/// The string at `index`. With a `size`, the string is what lies in the
/// `size` bytes from `index`, less the zero bytes at their end. Without
/// one, it ends before the first zero byte, or with the image.
pub open spec fn spec_read_to_string(image: Option<Seq<u8>>, index: int, size: Option<usize>)
    -> Result<Seq<char>, ExeError> {
    match size {
        Some(size) => if index + size > usize::MAX {
            Err(ExeError::Overflow)
        } else {
            match spec_read_many(image, index, index + size) {
                Ok(bytes) => spec_text(trim_nuls(bytes)),
                Err(e) => Err(e),
            }
        },
        None => match image {
            None => Err(ExeError::Uninitialized),
            Some(bytes) => if 0 <= index <= bytes.len() {
                let rest = bytes.skip(index);
                spec_text(rest.take(nul_or_end(rest) as int))
            } else {
                Err(ExeError::OutOfBounds)
            },
        },
    }
}

/// What a commit of `image` hands out, the bytes and whether the commit is
/// a repeat, and whether the image counts as committed afterwards.
pub open spec fn spec_commit(image: Option<Seq<u8>>, committed: bool) -> (
    Result<(Seq<u8>, bool), ExeError>,
    bool,
) {
    match image {
        Some(bytes) => (Ok((bytes, committed)), true),
        None => (Err(ExeError::Uninitialized), committed),
    }
}

/// `String::from_utf8`: the conversion succeeds exactly on valid UTF-8, and
/// the string then holds the characters that the bytes encode.
#[verifier::external_body]
fn string_from_utf8(bytes: Vec<u8>) -> (text: Option<String>)
    ensures
        text.is_some() == valid_utf8(bytes@),
        text.is_some() ==> text.unwrap()@ == decode_utf8(bytes@),
{
    String::from_utf8(bytes).ok()
}

/// Whether `bytes` holds a zero byte.
fn has_nul(bytes: &Vec<u8>) -> (found: bool)
    ensures
        found == bytes@.contains(0u8),
{
    let mut i: usize = 0;
    while i < bytes.len()
        invariant
            i <= bytes@.len(),
            forall|k: int| 0 <= k < i ==> bytes@[k] != 0,
        decreases bytes@.len() - i,
    {
        if bytes[i] == 0 {
            return true;
        }
        i = i + 1;
    }
    false
}

/// Turns bytes into text, as [`spec_text`] says.
fn text_of(bytes: Vec<u8>) -> (r: Result<String, ExeError>)
    ensures
        match spec_text(bytes@) {
            Ok(text) => r is Ok && r->Ok_0@ == text,
            Err(e) => r is Err && r->Err_0 == e,
        },
{
    if has_nul(&bytes) {
        return Err(ExeError::InteriorNul);
    }
    match string_from_utf8(bytes) {
        Some(text) => Ok(text),
        None => Err(ExeError::InvalidUtf8),
    }
}

/// What a commit hands to whoever stores the image.
pub struct Commit {
    /// The whole image.
    pub bytes: Vec<u8>,
    /// Whether the image had been committed before. A repeated commit is
    /// harmless, and worth a warning: it points to a mistake in the caller.
    pub repeated: bool,
}

/// An image: nothing at first, then the bytes it was initialized with.
#[derive(Debug)]
pub struct Exe {
    inner: Option<Vec<u8>>,
    committed: bool,
}

impl View for Exe {
    type V = Option<Seq<u8>>;

    closed spec fn view(&self) -> Option<Seq<u8>> {
        match self.inner {
            Some(bytes) => Some(bytes@),
            None => None,
        }
    }
}

impl Exe {
    /// Whether the image has been committed.
    pub closed spec fn committed(&self) -> bool {
        self.committed
    }

    /// An image without bytes.
    pub fn new() -> (exe: Exe)
        ensures
            exe@ is None,
            !exe.committed(),
    {
        Exe { inner: None, committed: false }
    }

    /// Gives the image its bytes. This succeeds once.
    pub fn init(&mut self, bytes: Vec<u8>) -> (r: Result<(), ExeError>)
        ensures
            final(self).committed() == old(self).committed(),
            old(self)@ is None ==> r is Ok && final(self)@ == Some(bytes@),
            old(self)@ is Some ==> r == Err::<(), ExeError>(ExeError::AlreadyInitialized)
                && final(self)@ == old(self)@,
    {
        if self.inner.is_some() {
            return Err(ExeError::AlreadyInitialized);
        }
        self.inner = Some(bytes);
        Ok(())
    }

    /// The bytes of the image.
    pub fn reader(&self) -> (r: Result<&Vec<u8>, ExeError>)
        ensures
            match self@ {
                Some(bytes) => r is Ok && r->Ok_0@ == bytes,
                None => r is Err && r->Err_0 == ExeError::Uninitialized,
            },
    {
        match &self.inner {
            Some(bytes) => Ok(bytes),
            None => Err(ExeError::Uninitialized),
        }
    }

    /// The bytes of the image, to change them in place. Whatever the
    /// caller leaves in them is the image from then on.
    pub fn writer(&mut self) -> (r: Result<&mut Vec<u8>, ExeError>)
        ensures
            final(self).committed() == old(self).committed(),
            match r {
                Ok(bytes) => old(self)@ == Some(bytes@) && final(self)@ == Some(final(bytes)@),
                Err(e) => e == ExeError::Uninitialized && old(self)@ is None
                    && final(self)@ is None,
            },
    {
        match &mut self.inner {
            Some(bytes) => Ok(bytes),
            None => Err(ExeError::Uninitialized),
        }
    }

    /// As [`Exe::reader`]. A shared borrow never has to wait for a writer,
    /// so this never fails for want of access.
    pub fn try_reader(&self) -> (r: Result<&Vec<u8>, ExeError>)
        ensures
            match self@ {
                Some(bytes) => r is Ok && r->Ok_0@ == bytes,
                None => r is Err && r->Err_0 == ExeError::Uninitialized,
            },
    {
        self.reader()
    }

    /// As [`Exe::writer`]. An exclusive borrow never has to wait for a
    /// reader, so this never fails for want of access.
    pub fn try_writer(&mut self) -> (r: Result<&mut Vec<u8>, ExeError>)
        ensures
            final(self).committed() == old(self).committed(),
            match r {
                Ok(bytes) => old(self)@ == Some(bytes@) && final(self)@ == Some(final(bytes)@),
                Err(e) => e == ExeError::Uninitialized && old(self)@ is None
                    && final(self)@ is None,
            },
    {
        self.writer()
    }

    /// The length of the image.
    pub fn len(&self) -> (r: Result<usize, ExeError>)
        ensures
            match self@ {
                Some(bytes) => r is Ok && r->Ok_0 == bytes.len(),
                None => r is Err && r->Err_0 == ExeError::Uninitialized,
            },
    {
        match &self.inner {
            Some(bytes) => Ok(bytes.len()),
            None => Err(ExeError::Uninitialized),
        }
    }

    /// The byte at `index`.
    pub fn read(&self, index: usize) -> (r: Result<u8, ExeError>)
        ensures
            r == spec_read(self@, index as int),
    {
        match &self.inner {
            Some(bytes) => if index < bytes.len() {
                Ok(bytes[index])
            } else {
                Err(ExeError::OutOfBounds)
            },
            None => Err(ExeError::Uninitialized),
        }
    }

    /// The bytes in `range`.
    pub fn read_many(&self, range: Range<usize>) -> (r: Result<Vec<u8>, ExeError>)
        ensures
            match spec_read_many(self@, range.start as int, range.end as int) {
                Ok(bytes) => r is Ok && r->Ok_0@ == bytes,
                Err(e) => r is Err && r->Err_0 == e,
            },
    {
        match &self.inner {
            Some(bytes) => if range.start <= range.end && range.end <= bytes.len() {
                Ok(slice_to_vec(slice_subrange(bytes.as_slice(), range.start, range.end)))
            } else {
                Err(ExeError::OutOfBounds)
            },
            None => Err(ExeError::Uninitialized),
        }
    }

    /// The value of type `P` whose bytes start at `index`.
    pub fn read_to<P: Pod>(&self, index: usize) -> (r: Result<P, ExeError>)
        ensures
            r == spec_read_to::<P>(self@, index as int),
    {
        let len = match self.len() {
            Ok(len) => len,
            Err(e) => { return Err(e); },
        };
        let end = match index.checked_add(P::size()) {
            Some(end) => end,
            None => { return Err(ExeError::OutOfBounds); },
        };
        if end > len {
            return Err(ExeError::OutOfBounds);
        }
        match self.read_many(index..end) {
            Ok(bytes) => Ok(P::from_bytes(bytes.as_slice())),
            Err(e) => Err(e),
        }
    }

    /// The string at `index`: at most `size` bytes of it where a size is
    /// given, else all bytes up to the first zero byte.
    pub fn read_to_string(&self, index: usize, size: Option<usize>) -> (r: Result<
        String,
        ExeError,
    >)
        ensures
            match spec_read_to_string(self@, index as int, size) {
                Ok(text) => r is Ok && r->Ok_0@ == text,
                Err(e) => r is Err && r->Err_0 == e,
            },
    {
        let bytes = match size {
            Some(size) => self.__read_to_string_some(index, size),
            None => self.__read_to_string_none(index),
        };
        match bytes {
            Ok(bytes) => text_of(bytes),
            Err(e) => Err(e),
        }
    }

    /// The `size` bytes at `index`, less the zero bytes at their end.
    fn __read_to_string_some(&self, index: usize, size: usize) -> (r: Result<Vec<u8>, ExeError>)
        ensures
            index + size > usize::MAX ==> r is Err && r->Err_0 == ExeError::Overflow,
            index + size <= usize::MAX ==> match spec_read_many(
                self@,
                index as int,
                index + size,
            ) {
                Ok(bytes) => r is Ok && r->Ok_0@ == trim_nuls(bytes),
                Err(e) => r is Err && r->Err_0 == e,
            },
    {
        let end = match index.checked_add(size) {
            Some(end) => end,
            None => { return Err(ExeError::Overflow); },
        };
        let mut bytes = match self.read_many(index..end) {
            Ok(bytes) => bytes,
            Err(e) => { return Err(e); },
        };
        let ghost whole = bytes@;
        let mut n: usize = bytes.len();
        proof {
            assert(whole.take(n as int) =~= whole);
        }
        while n > 0 && bytes[n - 1] == 0
            invariant
                bytes@ == whole,
                n <= whole.len(),
                trim_nuls(whole) == trim_nuls(whole.take(n as int)),
            decreases n,
        {
            proof {
                assert(whole.take(n as int).drop_last() =~= whole.take(n - 1));
            }
            n = n - 1;
        }
        bytes.truncate(n);
        proof {
            assert(bytes@ =~= whole.take(n as int));
        }
        Ok(bytes)
    }

    /// The bytes from `index` up to the first zero byte or the end of the
    /// image.
    fn __read_to_string_none(&self, index: usize) -> (r: Result<Vec<u8>, ExeError>)
        ensures
            match self@ {
                None => r is Err && r->Err_0 == ExeError::Uninitialized,
                Some(bytes) => if index <= bytes.len() {
                    let rest = bytes.skip(index as int);
                    r is Ok && r->Ok_0@ == rest.take(nul_or_end(rest) as int)
                } else {
                    r is Err && r->Err_0 == ExeError::OutOfBounds
                },
            },
    {
        let bytes = match &self.inner {
            Some(bytes) => bytes,
            None => { return Err(ExeError::Uninitialized); },
        };
        if index > bytes.len() {
            return Err(ExeError::OutOfBounds);
        }
        let ghost rest = bytes@.skip(index as int);
        let mut end: usize = index;
        proof {
            assert(rest.skip(0) =~= rest);
        }
        while end < bytes.len() && bytes[end] != 0
            invariant
                index <= end <= bytes@.len(),
                rest == bytes@.skip(index as int),
                nul_or_end(rest) == (end - index) + nul_or_end(rest.skip(end - index)),
            decreases bytes@.len() - end,
        {
            proof {
                let here = rest.skip(end - index);
                assert(here[0] == bytes@[end as int]);
                assert(here.skip(1) =~= rest.skip(end - index + 1));
            }
            end = end + 1;
        }
        proof {
            let here = rest.skip(end - index);
            assert(end < bytes@.len() ==> here[0] == bytes@[end as int]);
            assert(nul_or_end(here) == 0);
            assert(bytes@.subrange(index as int, end as int) =~= rest.take(end - index));
        }
        Ok(slice_to_vec(slice_subrange(bytes.as_slice(), index, end)))
    }

    /// Stores `value` at `index` and returns the byte that was there.
    pub fn write(&mut self, index: usize, value: u8) -> (r: Result<u8, ExeError>)
        ensures
            final(self).committed() == old(self).committed(),
            r == spec_read(old(self)@, index as int),
            r is Ok ==> final(self)@ == Some(old(self)@.unwrap().update(index as int, value)),
            r is Err ==> final(self)@ == old(self)@,
    {
        let mut bytes = match self.inner.take() {
            Some(bytes) => bytes,
            None => { return Err(ExeError::Uninitialized); },
        };
        let r = if index < bytes.len() {
            let previous = bytes[index];
            bytes.set(index, value);
            Ok(previous)
        } else {
            Err(ExeError::OutOfBounds)
        };
        self.inner = Some(bytes);
        r
    }

    /// Stores `value` at `index` and returns the bytes that were there.
    /// Either all of `value` fits in the image and is stored, or nothing
    /// is.
    pub fn write_many(&mut self, index: usize, value: &[u8]) -> (r: Result<Vec<u8>, ExeError>)
        ensures
            final(self).committed() == old(self).committed(),
            match spec_write_many(old(self)@, index as int, value@) {
                Ok((after, previous)) => r is Ok && r->Ok_0@ == previous && final(self)@ == Some(
                    after,
                ),
                Err(e) => r is Err && r->Err_0 == e && final(self)@ == old(self)@,
            },
    {
        let mut bytes = match self.inner.take() {
            Some(bytes) => bytes,
            None => { return Err(ExeError::Uninitialized); },
        };
        let ghost before = bytes@;
        let len = bytes.len();
        let end = match index.checked_add(value.len()) {
            Some(end) => end,
            None => {
                self.inner = Some(bytes);
                return Err(ExeError::OutOfBounds);
            },
        };
        if end > len {
            self.inner = Some(bytes);
            return Err(ExeError::OutOfBounds);
        }
        let previous = slice_to_vec(slice_subrange(bytes.as_slice(), index, end));
        let mut i: usize = 0;
        while i < value.len()
            invariant
                i <= value@.len(),
                end == index + value@.len(),
                end <= before.len(),
                bytes@.len() == before.len(),
                bytes@ == before.subrange(0, index as int) + value@.take(i as int)
                    + before.subrange(index + i, before.len() as int),
            decreases value@.len() - i,
        {
            bytes.set(index + i, value[i]);
            i = i + 1;
        }
        proof {
            assert(value@.take(i as int) =~= value@);
        }
        self.inner = Some(bytes);
        Ok(previous)
    }

    /// Stores `value` at `index` and returns the value that was there.
    pub fn write_to<P: Pod>(&mut self, index: usize, value: P) -> (r: Result<P, ExeError>)
        ensures
            final(self).committed() == old(self).committed(),
            match spec_write_to::<P>(old(self)@, index as int, value) {
                Ok((after, previous)) => r == Ok::<P, ExeError>(previous) && final(self)@ == Some(
                    after,
                ),
                Err(e) => r == Err::<P, ExeError>(e) && final(self)@ == old(self)@,
            },
    {
        let bytes = value.to_bytes();
        proof {
            P::lemma_value_round_trip(value);
        }
        match self.write_many(index, bytes.as_slice()) {
            Ok(previous) => Ok(P::from_bytes(previous.as_slice())),
            Err(e) => Err(e),
        }
    }

    /// The header layout of the image, read afresh.
    pub fn headers(&self) -> (r: Result<NtImage, HeaderError>)
        ensures
            match spec_init(self@) {
                Ok(layout) => r is Ok && r->Ok_0.state() == NtImageState::Ready
                    && r->Ok_0.layout() == Some(layout),
                Err(e) => r is Err && r->Err_0 == e,
            },
    {
        let mut image = NtImage::new();
        match image.init(self) {
            Ok(_) => Ok(image),
            Err(e) => Err(e),
        }
    }

    /// Hands out the whole image for storing, and records that it did.
    /// The image itself does not change, so every commit hands out the
    /// same bytes; each one after the first says that it is a repeat.
    pub fn commit(&mut self) -> (r: Result<Commit, ExeError>)
        ensures
            final(self)@ == old(self)@,
            final(self).committed() == spec_commit(old(self)@, old(self).committed()).1,
            match spec_commit(old(self)@, old(self).committed()).0 {
                Ok((bytes, repeated)) => r is Ok && r->Ok_0.bytes@ == bytes && r->Ok_0.repeated
                    == repeated,
                Err(e) => r is Err && r->Err_0 == e,
            },
    {
        let bytes = match &self.inner {
            Some(bytes) => slice_to_vec(bytes.as_slice()),
            None => { return Err(ExeError::Uninitialized); },
        };
        let repeated = self.committed;
        self.committed = true;
        Ok(Commit { bytes, repeated })
    }
}

/// Reading a range that lies inside the image yields exactly the bytes of
/// that range, as many as the range is long; reading any other range is
/// refused as out of bounds.
pub proof fn lemma_read_many_bounds(bytes: Seq<u8>, start: int, end: int)
    ensures
        0 <= start <= end <= bytes.len() ==> {
            let r = spec_read_many(Some(bytes), start, end);
            &&& r is Ok
            &&& r->Ok_0.len() == end - start
            &&& forall|i: int| 0 <= i < end - start ==> r->Ok_0[i] == bytes[start + i]
        },
        !(0 <= start <= end <= bytes.len()) ==> spec_read_many(Some(bytes), start, end) == Err::<
            Seq<u8>,
            ExeError,
        >(ExeError::OutOfBounds),
{
}

/// A write leaves the length of the image and every byte outside the
/// written range as they were.
pub proof fn lemma_write_many_frame(bytes: Seq<u8>, index: int, value: Seq<u8>)
    ensures
        spec_write_many(Some(bytes), index, value) matches Ok((after, previous)) ==> {
            &&& after.len() == bytes.len()
            &&& previous.len() == value.len()
            &&& forall|i: int|
                0 <= i < bytes.len() && !(index <= i < index + value.len()) ==> after[i]
                    == bytes[i]
            &&& forall|i: int| 0 <= i < value.len() ==> after[index + i] == value[i]
        },
{
}

/// A write is refused as out of bounds exactly where the value does not
/// fit between the index and the end of the image, and an image that holds
/// bytes refuses a write on no other ground.
pub proof fn lemma_write_many_bounds(bytes: Seq<u8>, index: int, value: Seq<u8>)
    ensures
        0 <= index && index + value.len() <= bytes.len() ==> spec_write_many(
            Some(bytes),
            index,
            value,
        ) is Ok,
        !(0 <= index && index + value.len() <= bytes.len()) ==> spec_write_many(
            Some(bytes),
            index,
            value,
        ) is Err && spec_write_many(Some(bytes), index, value)->Err_0 == ExeError::OutOfBounds,
{
}

/// A value is read exactly where all of its bytes lie inside the image;
/// everywhere else the read is refused as out of bounds.
pub proof fn lemma_read_to_bounds<P: Pod>(bytes: Seq<u8>, index: int)
    ensures
        0 <= index && index + P::spec_size() <= bytes.len() ==> spec_read_to::<P>(
            Some(bytes),
            index,
        ) == Ok::<P, ExeError>(
            P::spec_from_bytes(bytes.subrange(index, index + P::spec_size())),
        ),
        !(0 <= index && index + P::spec_size() <= bytes.len()) ==> spec_read_to::<P>(
            Some(bytes),
            index,
        ) == Err::<P, ExeError>(ExeError::OutOfBounds),
{
}

/// Reading the range that was just written yields what was written.
pub proof fn lemma_write_then_read(image: Option<Seq<u8>>, index: int, value: Seq<u8>)
    ensures
        spec_write_many(image, index, value) matches Ok((after, previous)) ==> spec_read_many(
            Some(after),
            index,
            index + value.len(),
        ) == Ok::<Seq<u8>, ExeError>(value),
{
    if let Ok((after, previous)) = spec_write_many(image, index, value) {
        assert(after.subrange(index, index + value.len()) =~= value);
    }
}

/// Writing back the bytes that a write returned restores the image.
pub proof fn lemma_write_previous_restores(image: Option<Seq<u8>>, index: int, value: Seq<u8>)
    ensures
        spec_write_many(image, index, value) matches Ok((after, previous)) ==> spec_write_many(
            Some(after),
            index,
            previous,
        ) matches Ok((restored, written)) && Some(restored) == image && written == value,
{
    if let Ok((after, previous)) = spec_write_many(image, index, value) {
        let bytes = image.unwrap();
        let again = spec_write_many(Some(after), index, previous);
        assert(again is Ok);
        assert(again->Ok_0.0 =~= bytes);
        assert(again->Ok_0.1 =~= value);
    }
}

/// Reading a value where it was just stored yields that value.
pub proof fn lemma_write_to_then_read_to<P: Pod>(image: Option<Seq<u8>>, index: int, value: P)
    ensures
        spec_write_to::<P>(image, index, value) matches Ok((after, previous)) ==> spec_read_to::<
            P,
        >(Some(after), index) == Ok::<P, ExeError>(value),
{
    P::lemma_value_round_trip(value);
    lemma_write_then_read(image, index, value.spec_to_bytes());
}

/// Two commits in a row both succeed and hand out the same bytes; the
/// second one is marked as a repeat, which is all that tells them apart.
pub proof fn lemma_commit_twice(bytes: Seq<u8>, committed: bool)
    ensures
        ({
            let first = spec_commit(Some(bytes), committed);
            let second = spec_commit(Some(bytes), first.1);
            &&& first.0 is Ok
            &&& second.0 is Ok
            &&& first.0->Ok_0.0 == bytes
            &&& second.0->Ok_0.0 == bytes
            &&& second.0->Ok_0.1
        }),
{
}

} // verus!
