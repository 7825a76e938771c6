//! Attaching to the target process.
//!
//! Finding the process, opening it, locating its module and checking that
//! it is the supported build takes several requests to the operating
//! system. The library makes none of them. [`Discovery`] says which one is
//! due next and what follows from each answer; a [`Handler`] is what it
//! ends in.

pub mod compact_patch;
pub mod filters;

use crate::memory::guarded_write;
use crate::memory::spec_guarded_write;
use crate::memory::views;
use crate::memory::MemoryOp;
use crate::patches::PatchError;
use crate::pod::Pod;
use vstd::prelude::*;
use vstd::string::*;

verus! {

/// The bytes that the supported build holds at [`VERSION_OFFSET`].
pub const VERSION_DATA: [u8; 64] = [
    0x4cu8, 0x89u8, 0x6fu8, 0x10u8, 0x48u8, 0xc7u8, 0x47u8, 0x18u8, 0x07u8, 0x00u8, 0x00u8, 0x00u8,
    0x66u8, 0x44u8, 0x89u8, 0x2fu8, 0x48u8, 0x8bu8, 0x54u8, 0x24u8, 0x60u8, 0x48u8, 0x83u8, 0xfau8,
    0x08u8, 0x72u8, 0x37u8, 0x48u8, 0x8du8, 0x14u8, 0x55u8, 0x02u8, 0x00u8, 0x00u8, 0x00u8, 0x48u8,
    0x8bu8, 0x4cu8, 0x24u8, 0x48u8, 0x48u8, 0x8bu8, 0xc1u8, 0x48u8, 0x81u8, 0xfau8, 0x00u8, 0x10u8,
    0x00u8, 0x00u8, 0x72u8, 0x19u8, 0x48u8, 0x83u8, 0xc2u8, 0x27u8, 0x48u8, 0x8bu8, 0x49u8, 0xf8u8,
    0x48u8, 0x2bu8, 0xc1u8, 0x48u8,
];

/// Where the fingerprint of the build lies, from the base of the module.
pub const VERSION_OFFSET: usize = 0x49f4a0;

/// The length of the fingerprint.
pub const VERSION_LEN: usize = 64;

/// The rights that the target is opened with, and no more: to query it,
/// to change how its memory is protected, to read its memory and to write
/// its memory.
pub const ACCESS: u32 = 0x0438;

/// The exit code of a process that has not exited.
pub const STILL_ACTIVE: u32 = 259;

/// Why no process was attached.
#[derive(Clone, Copy, Debug, PartialEq, Eq, Structural)]
pub enum Reason {
    /// No process has the target's name.
    NotFound,
    /// The operating system did not grant access to the process.
    FailedToOpen,
    /// The process is not the supported build.
    WrongVersion,
    /// More than one instance of this application is running.
    TooManyInstances,
}

impl Reason {
    /// The heading under which the reason is shown.
    pub open spec fn spec_title(self) -> Seq<char> {
        match self {
            Reason::NotFound => "Failed to find SE!"@,
            Reason::FailedToOpen => "Failed to open a handle to SE!"@,
            Reason::WrongVersion => "Wrong Version!"@,
            Reason::TooManyInstances => "Too Many Instances!"@,
        }
    }

    /// What the user is told.
    pub open spec fn spec_message(self) -> Seq<char> {
        match self {
            Reason::NotFound => "Failed to find SE in the list of open processes! Please restart this program once you open it."@,
            Reason::FailedToOpen => "Failed to open a handle to SE! Why did this happen? I have no idea! I'm just handling it incase it happens! Please report if you see this."@,
            Reason::WrongVersion => "You're not on the GR public beta! Please switch your branch to CurrentBeta."@,
            Reason::TooManyInstances => "You already have another instance of this program open! Please close the other instance."@,
        }
    }

    /// The heading under which the reason is shown.
    pub fn title(&self) -> (text: String)
        ensures
            text@ == self.spec_title(),
    {
        match self {
            Reason::NotFound => String::from_str("Failed to find SE!"),
            Reason::FailedToOpen => String::from_str("Failed to open a handle to SE!"),
            Reason::WrongVersion => String::from_str("Wrong Version!"),
            Reason::TooManyInstances => String::from_str("Too Many Instances!"),
        }
    }

    /// What the user is told.
    pub fn message(&self) -> (text: String)
        ensures
            text@ == self.spec_message(),
    {
        match self {
            Reason::NotFound => String::from_str(
                "Failed to find SE in the list of open processes! Please restart this program once you open it.",
            ),
            Reason::FailedToOpen => String::from_str(
                "Failed to open a handle to SE! Why did this happen? I have no idea! I'm just handling it incase it happens! Please report if you see this.",
            ),
            Reason::WrongVersion => String::from_str(
                "You're not on the GR public beta! Please switch your branch to CurrentBeta.",
            ),
            Reason::TooManyInstances => String::from_str(
                "You already have another instance of this program open! Please close the other instance.",
            ),
        }
    }
}

/// An attached process, or the reason why there is none.
#[derive(Clone, Copy, Debug, PartialEq, Eq, Structural)]
pub struct Handler {
    /// Why the process is not usable; `None` where it is.
    pub reason: Option<Reason>,
    /// What the operating system handed out for the process, until it is
    /// closed.
    pub handle: Option<isize>,
    /// The process.
    pub pid: u32,
    /// Where the main module of the process is loaded.
    pub base_address: usize,
}

impl Handler {
    /// A handler of no process.
    pub open spec fn spec_empty() -> Handler {
        Handler { reason: None, handle: None, pid: 0, base_address: 0 }
    }

    /// A handler that only gives a reason.
    pub open spec fn spec_failed(reason: Reason) -> Handler {
        Handler { reason: Some(reason), handle: None, pid: 0, base_address: 0 }
    }

    /// The handler that a discovery ends in when the operating system
    /// gives these answers: `controllers` instances of this application
    /// run, `target` is the first process with the target's name, opening
    /// it hands out `handle`, its main module is loaded at `base_address`,
    /// and `version` is what it holds where the fingerprint lies. The
    /// checks come in that order, and an answer that comes after a failed
    /// check does not matter.
    pub open spec fn spec_new(
        controllers: usize,
        target: Option<u32>,
        handle: Option<isize>,
        base_address: usize,
        version: Seq<u8>,
    ) -> Handler {
        spec_advance(
            spec_advance(
                spec_advance(
                    spec_advance(
                        Discovery::spec_new(),
                        AnswerView::Processes { controllers, target },
                    ),
                    AnswerView::Open { handle },
                ),
                AnswerView::Base { address: base_address },
            ),
            AnswerView::Version { bytes: version },
        ).handler
    }

    /// The handler that a discovery ends in when the operating system
    /// gives these answers.
    pub fn new(
        controllers: usize,
        target: Option<u32>,
        handle: Option<isize>,
        base_address: usize,
        version: Vec<u8>,
    ) -> (handler: Handler)
        ensures
            handler == Handler::spec_new(controllers, target, handle, base_address, version@),
    {
        let mut discovery = Discovery::new();
        discovery.advance(Answer::Processes { controllers, target });
        discovery.advance(Answer::Open { handle });
        discovery.advance(Answer::Base { address: base_address });
        discovery.advance(Answer::Version { bytes: version });
        discovery.handler
    }

    /// A handler of no process.
    pub fn empty() -> (handler: Handler)
        ensures
            handler == Handler::spec_empty(),
    {
        Handler { reason: None, handle: None, pid: 0, base_address: 0 }
    }

    /// A handler that says nothing but where the module is loaded.
    pub fn at(base: usize) -> (handler: Handler)
        ensures
            handler == (Handler { base_address: base, ..Handler::spec_empty() }),
    {
        Handler { reason: None, handle: None, pid: 0, base_address: base }
    }

    /// A handler that only gives a reason.
    pub fn failed(reason: Reason) -> (handler: Handler)
        ensures
            handler == Handler::spec_failed(reason),
    {
        Handler { reason: Some(reason), handle: None, pid: 0, base_address: 0 }
    }

    /// Gives up the process: the result is what is to be closed, and the
    /// handler holds it no longer. A second call finds nothing to close.
    pub fn close(&mut self) -> (handle: Option<isize>)
        ensures
            handle == old(self).handle,
            *final(self) == (Handler { handle: None, ..*old(self) }),
    {
        let handle = self.handle;
        self.handle = None;
        handle
    }

    /// Whether the process still runs, given the exit code that the
    /// operating system reports for it; zero where it reports none.
    pub fn still_open(&self, exit_code: u32) -> (open: bool)
        ensures
            open == (self.handle is Some && exit_code == STILL_ACTIVE),
    {
        self.handle.is_some() && exit_code == STILL_ACTIVE
    }

    /// Where the main module of the process is loaded.
    pub fn base(&self) -> (base: usize)
        ensures
            base == self.base_address,
    {
        self.base_address
    }

    /// The address in the process of what lies `offset` bytes into its
    /// main module, where that is an address at all.
    pub fn address(&self, offset: usize) -> (address: Option<usize>)
        ensures
            self.base_address + offset <= usize::MAX ==> address == Some(
                (self.base_address + offset) as usize,
            ),
            self.base_address + offset > usize::MAX ==> address is None,
    {
        self.base_address.checked_add(offset)
    }

    /// The value that the process holds, given the bytes read for it from
    /// the process; `None` where fewer or more bytes were read than the
    /// value has.
    pub fn decode<P: Pod>(bytes: &[u8]) -> (value: Option<P>)
        ensures
            bytes@.len() == P::spec_size() ==> value == Some(P::spec_from_bytes(bytes@)),
            bytes@.len() != P::spec_size() ==> value is None,
    {
        if bytes.len() == P::size() {
            Some(P::from_bytes(bytes))
        } else {
            None
        }
    }

    /// What stores `value` in the process, `offset` bytes into its main
    /// module, least significant byte first.
    pub fn write_to<P: Pod>(&self, offset: usize, value: P) -> (r: Result<Vec<MemoryOp>, PatchError>)
        ensures
            self.base_address + offset + P::spec_size() <= usize::MAX ==> r is Ok && views(
                r->Ok_0@,
            ) == spec_guarded_write(
                (self.base_address + offset) as usize,
                value.spec_to_bytes(),
            ),
            self.base_address + offset + P::spec_size() > usize::MAX ==> r is Err && r->Err_0
                == PatchError::AddressOverflow,
    {
        let bytes = value.to_bytes();
        proof {
            P::lemma_value_round_trip(value);
        }
        self.write(offset, bytes.as_slice())
    }

    /// What stores `bytes` in the process, `offset` bytes into its main
    /// module: allow writing, write, protect again as before.
    pub fn write(&self, offset: usize, bytes: &[u8]) -> (r: Result<Vec<MemoryOp>, PatchError>)
        ensures
            self.base_address + offset + bytes@.len() <= usize::MAX ==> r is Ok && views(r->Ok_0@)
                == spec_guarded_write((self.base_address + offset) as usize, bytes@),
            self.base_address + offset + bytes@.len() > usize::MAX ==> r is Err && r->Err_0
                == PatchError::AddressOverflow,
    {
        let address = match self.base_address.checked_add(offset) {
            Some(address) => address,
            None => { return Err(PatchError::AddressOverflow); },
        };
        if address.checked_add(bytes.len()).is_none() {
            return Err(PatchError::AddressOverflow);
        }
        let mut ops: Vec<MemoryOp> = Vec::new();
        guarded_write(&mut ops, address, bytes);
        proof {
            assert(views(Seq::<MemoryOp>::empty()) + spec_guarded_write(address, bytes@)
                =~= spec_guarded_write(address, bytes@));
        }
        Ok(ops)
    }
}

/// What the discovery needs to know next.
#[derive(Clone, Copy, Debug, PartialEq, Eq, Structural)]
pub enum Request {
    /// How many instances of this application run, and which process, if
    /// any, has the target's name.
    Processes,
    /// Open the process with the rights of [`ACCESS`].
    Open { pid: u32 },
    /// Where the main module of the opened process is loaded.
    Base { handle: isize },
    /// The [`VERSION_LEN`] bytes at `address` in the opened process.
    Version { handle: isize, address: usize },
    /// Nothing: the discovery is over.
    Done,
}

/// What the operating system said to a [`Request`].
#[derive(Debug)]
pub enum Answer {
    /// To [`Request::Processes`]: the number of running instances of this
    /// application, and the first process with the target's name.
    Processes { controllers: usize, target: Option<u32> },
    /// To [`Request::Open`]: what was handed out, if access was granted.
    Open { handle: Option<isize> },
    /// To [`Request::Base`]: the base address; zero where none was found.
    Base { address: usize },
    /// To [`Request::Version`]: the bytes read; fewer than asked for
    /// where the read failed.
    Version { bytes: Vec<u8> },
}

/// An [`Answer`] as a value of specifications.
pub enum AnswerView {
    Processes { controllers: usize, target: Option<u32> },
    Open { handle: Option<isize> },
    Base { address: usize },
    Version { bytes: Seq<u8> },
}

impl View for Answer {
    type V = AnswerView;

    open spec fn view(&self) -> AnswerView {
        match *self {
            Answer::Processes { controllers, target } => AnswerView::Processes {
                controllers,
                target,
            },
            Answer::Open { handle } => AnswerView::Open { handle },
            Answer::Base { address } => AnswerView::Base { address },
            Answer::Version { bytes } => AnswerView::Version { bytes: bytes@ },
        }
    }
}

/// A discovery under way: the request that is due, and what is known of
/// the process so far.
#[derive(Clone, Copy, Debug, PartialEq, Eq, Structural)]
pub struct Discovery {
    pub request: Request,
    pub handler: Handler,
}

/// The discovery after `answer` has come in. The checks come in a fixed
/// order, and the first that fails ends the discovery with its reason:
/// too many instances of this application, no target process, no access,
/// wrong build. An answer to another request than the one that is due
/// changes nothing.
pub open spec fn spec_advance(discovery: Discovery, answer: AnswerView) -> Discovery {
    match (discovery.request, answer) {
        (Request::Processes, AnswerView::Processes { controllers, target }) => if controllers > 1 {
            Discovery {
                request: Request::Done,
                handler: Handler::spec_failed(Reason::TooManyInstances),
            }
        } else {
            match target {
                None => Discovery {
                    request: Request::Done,
                    handler: Handler::spec_failed(Reason::NotFound),
                },
                Some(pid) => Discovery {
                    request: Request::Open { pid },
                    handler: Handler { pid, ..discovery.handler },
                },
            }
        },
        (Request::Open { pid }, AnswerView::Open { handle }) => match handle {
            None => Discovery {
                request: Request::Done,
                handler: Handler::spec_failed(Reason::FailedToOpen),
            },
            Some(handle) => Discovery {
                request: Request::Base { handle },
                handler: Handler { handle: Some(handle), ..discovery.handler },
            },
        },
        (Request::Base { handle }, AnswerView::Base { address }) => if address + VERSION_OFFSET
            + VERSION_LEN > usize::MAX {
            Discovery {
                request: Request::Done,
                handler: Handler {
                    reason: Some(Reason::WrongVersion),
                    base_address: address,
                    ..discovery.handler
                },
            }
        } else {
            Discovery {
                request: Request::Version {
                    handle,
                    address: (address + VERSION_OFFSET) as usize,
                },
                handler: Handler { base_address: address, ..discovery.handler },
            }
        },
        (Request::Version { handle, address }, AnswerView::Version { bytes }) => if bytes
            == VERSION_DATA@ {
            Discovery {
                request: Request::Done,
                handler: Handler { reason: None, ..discovery.handler },
            }
        } else {
            Discovery {
                request: Request::Done,
                handler: Handler { reason: Some(Reason::WrongVersion), ..discovery.handler },
            }
        },
        _ => discovery,
    }
}

/// Whether `bytes` is the fingerprint of the supported build.
pub fn is_supported_version(bytes: &[u8]) -> (supported: bool)
    ensures
        supported == (bytes@ == VERSION_DATA@),
{
    if bytes.len() != VERSION_LEN {
        return false;
    }
    let mut i: usize = 0;
    while i < VERSION_LEN
        invariant
            bytes@.len() == 64,
            i <= 64,
            forall|k: int| 0 <= k < i ==> bytes@[k] == VERSION_DATA@[k],
        decreases 64 - i,
    {
        if bytes[i] != VERSION_DATA[i] {
            return false;
        }
        i = i + 1;
    }
    proof {
        assert(bytes@ =~= VERSION_DATA@);
    }
    true
}

impl Discovery {
    /// A discovery that has asked nothing yet.
    pub open spec fn spec_new() -> Discovery {
        Discovery { request: Request::Processes, handler: Handler::spec_empty() }
    }

    /// A discovery that has asked nothing yet.
    pub fn new() -> (discovery: Discovery)
        ensures
            discovery == Discovery::spec_new(),
    {
        Discovery { request: Request::Processes, handler: Handler::empty() }
    }

    /// Takes in the answer to the request that is due.
    pub fn advance(&mut self, answer: Answer)
        ensures
            *final(self) == spec_advance(*old(self), answer@),
    {
        match (self.request, answer) {
            (Request::Processes, Answer::Processes { controllers, target }) => {
                if controllers > 1 {
                    self.request = Request::Done;
                    self.handler = Handler::failed(Reason::TooManyInstances);
                } else {
                    match target {
                        None => {
                            self.request = Request::Done;
                            self.handler = Handler::failed(Reason::NotFound);
                        },
                        Some(pid) => {
                            self.request = Request::Open { pid };
                            self.handler.pid = pid;
                        },
                    }
                }
            },
            (Request::Open { pid }, Answer::Open { handle }) => {
                match handle {
                    None => {
                        self.request = Request::Done;
                        self.handler = Handler::failed(Reason::FailedToOpen);
                    },
                    Some(handle) => {
                        self.request = Request::Base { handle };
                        self.handler.handle = Some(handle);
                    },
                }
            },
            (Request::Base { handle }, Answer::Base { address }) => {
                self.handler.base_address = address;
                let end = match address.checked_add(VERSION_OFFSET) {
                    Some(start) => start.checked_add(VERSION_LEN),
                    None => None,
                };
                match end {
                    Some(end) => {
                        self.request = Request::Version { handle, address: end - VERSION_LEN };
                    },
                    None => {
                        self.request = Request::Done;
                        self.handler.reason = Some(Reason::WrongVersion);
                    },
                }
            },
            (Request::Version { handle, address }, Answer::Version { bytes }) => {
                self.request = Request::Done;
                if is_supported_version(bytes.as_slice()) {
                    self.handler.reason = None;
                } else {
                    self.handler.reason = Some(Reason::WrongVersion);
                }
            },
            _ => {},
        }
    }

    /// The handler that the discovery ended in, once it is over.
    pub fn finish(&self) -> (handler: Option<Handler>)
        ensures
            handler == (if self.request == Request::Done {
                Some(self.handler)
            } else {
                None
            }),
    {
        match self.request {
            Request::Done => Some(self.handler),
            _ => None,
        }
    }
}

/// More than one running instance of this application ends the discovery
/// at once, whatever else is the case: the target is never looked at.
pub proof fn lemma_too_many_instances_first(controllers: usize, target: Option<u32>)
    requires
        controllers > 1,
    ensures
        spec_advance(Discovery::spec_new(), AnswerView::Processes { controllers, target })
            == (Discovery {
            request: Request::Done,
            handler: Handler::spec_failed(Reason::TooManyInstances),
        }),
{
}

/// Without a process that has the target's name, the discovery ends as
/// not found.
pub proof fn lemma_no_target_not_found(controllers: usize)
    requires
        controllers <= 1,
    ensures
        spec_advance(Discovery::spec_new(), AnswerView::Processes { controllers, target: None })
            == (Discovery {
            request: Request::Done,
            handler: Handler::spec_failed(Reason::NotFound),
        }),
{
}

/// A fingerprint that differs from the known one in any byte, or in
/// length, ends the discovery as wrong version; the handler keeps what
/// was opened, so that it can be closed.
pub proof fn lemma_other_fingerprint_wrong_version(
    handler: Handler,
    handle: isize,
    address: usize,
    bytes: Seq<u8>,
)
    requires
        bytes != VERSION_DATA@,
    ensures
        spec_advance(
            Discovery { request: Request::Version { handle, address }, handler },
            AnswerView::Version { bytes },
        ) == (Discovery {
            request: Request::Done,
            handler: Handler { reason: Some(Reason::WrongVersion), ..handler },
        }),
{
}

/// The reasons in their order: the first check that fails gives the
/// reason, whatever the later answers are; and only where no check fails
/// is there no reason.
pub proof fn lemma_reasons_in_order(
    controllers: usize,
    target: Option<u32>,
    handle: Option<isize>,
    base_address: usize,
    version: Seq<u8>,
)
    ensures
        ({
            let handler = Handler::spec_new(controllers, target, handle, base_address, version);
            &&& controllers > 1 ==> handler == Handler::spec_failed(Reason::TooManyInstances)
            &&& controllers <= 1 && target is None ==> handler == Handler::spec_failed(
                Reason::NotFound,
            )
            &&& controllers <= 1 && target is Some && handle is None ==> handler
                == Handler::spec_failed(Reason::FailedToOpen)
            &&& controllers <= 1 && target is Some && handle is Some && version != VERSION_DATA@
                ==> handler.reason == Some(Reason::WrongVersion) && handler.handle == handle
            &&& handler.reason is None <==> controllers <= 1 && target is Some && handle is Some
                && base_address + VERSION_OFFSET + VERSION_LEN <= usize::MAX && version
                == VERSION_DATA@
            &&& handler.reason is None ==> handler == (Handler {
                reason: None,
                handle,
                pid: target.unwrap(),
                base_address,
            })
        }),
{
}

/// A discovery ends without a reason only through all four checks: one
/// instance of this application at most, a target process, access to it,
/// and the known fingerprint.
pub proof fn lemma_attached_only_if_version_matches(discovery: Discovery, answer: AnswerView)
    requires
        discovery.request != Request::Done,
        discovery.handler.reason is None,
    ensures
        spec_advance(discovery, answer).request == Request::Done && spec_advance(
            discovery,
            answer,
        ).handler.reason is None ==> discovery.request is Version && answer is Version
            && answer->Version_bytes == VERSION_DATA@,
{
}

} // verus!
