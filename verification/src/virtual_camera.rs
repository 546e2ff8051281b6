//! The publisher that shares frames with the virtual camera.
//!
//! The program makes the system calls. It reports what each of them returned, and
//! the publisher says which call comes next.

use crate::frame::FrameView;
use crate::shared_frame::{REGION_BYTES, frame_of, header_of, law_newest_frame_remains, publishes};
use crate::text::{hexadecimal, hexadecimal_text, join2, join3, join4, utf16, wide_text};
use vstd::prelude::*;

verus! {

/// Name of the shared memory.
pub const MAPPING: &'static str = "Local\\4KRustCameraFrameRing";

/// Name of the mutex that guards the shared memory.
pub const MUTEX: &'static str = "Local\\4KRustCameraFrameRingMutex";

/// File name of the component that registers the virtual camera.
pub const LIBRARY_FILE: &'static str = "4KRustCameraVirtualCamera.dll";

/// Symbol of the component's function that registers the virtual camera.
pub const REGISTER_SYMBOL: &'static str = "Register4KRustVirtualCamera";

/// How long to wait for the mutex, in milliseconds.
pub const WAIT_MILLISECONDS: u32 = 5;

/// What waiting for the mutex returns when it was acquired.
pub const WAIT_ACQUIRED: u32 = 0;

/// The shared memory, mapped: its handle and the address of its first byte.
#[derive(Debug, Clone, Copy, PartialEq, Eq, Structural)]
pub struct MappedView {
    pub handle: isize,
    pub base: usize,
}

/// What the publisher has set up so far.
#[derive(Debug, PartialEq, Eq)]
pub struct VirtualPublisher {
    pub mapping: Option<MappedView>,
    pub mutex: Option<isize>,
    /// Whether the component that registered the virtual camera is kept loaded.
    pub library: bool,
}

/// Why the shared memory and its mutex could not be set up.
#[derive(Debug, PartialEq, Eq)]
pub enum TransportError {
    MappingLock,
    /// With the text of the system's error.
    CreateMapping(String),
    MapView,
    MutexLock,
    /// With the text of the system's error.
    CreateMutex(String),
}

/// What the program reports while the transport is set up.
#[derive(Debug, PartialEq, Eq)]
pub enum TransportEvent {
    /// Set-up begins; whether the mapping's lock was obtained.
    Started { locked: bool },
    /// The call that creates the shared memory returned `handle`.
    MappingCreated { handle: isize, os_error: String },
    /// The call that maps the shared memory returned `base`.
    ViewMapped { handle: isize, base: usize },
    /// The shared memory is filled with zeros.
    ViewCleared { handle: isize, base: usize },
    /// Whether the lock of the mutex's slot was obtained.
    MutexSlotLocked { locked: bool },
    /// The call that creates the mutex returned `handle`.
    MutexCreated { handle: isize, os_error: String },
}

/// What the program does next to set up the transport.
#[derive(Debug, PartialEq, Eq)]
pub enum TransportStep {
    /// Create shared memory of `size` bytes under the name [`MAPPING`].
    CreateMapping { size: u32 },
    /// Map the first `size` bytes.
    MapView { handle: isize, size: usize },
    /// Fill `size` bytes from `base` with zeros.
    ClearView { handle: isize, base: usize, size: usize },
    LockMutexSlot,
    /// Create a mutex under the name [`MUTEX`].
    CreateMutex,
    /// Close `handle`; the set-up has failed.
    Abandon { handle: isize, error: TransportError },
    /// The set-up is over.
    Finish(Result<(), TransportError>),
}

/// What the program reports while a frame is published.
#[derive(Debug, Clone, Copy, PartialEq, Eq, Structural)]
pub enum PublishEvent {
    /// Whether the transport's set-up succeeded, and whether the lock of the mutex's
    /// slot was obtained.
    Ready { transport: bool, locked: bool },
    /// Waiting for `mutex` returned `code`; whether the mapping's lock was obtained.
    Waited { mutex: isize, code: u32, locked: bool },
    /// The frame is written.
    Written { mutex: isize },
}

/// What the program does next to publish a frame.
#[derive(Debug, Clone, Copy, PartialEq, Eq, Structural)]
pub enum PublishStep {
    /// Nothing: the frame is not published.
    Skip,
    Wait { mutex: isize, milliseconds: u32 },
    /// Write the frame to the shared memory at `base`.
    Write { mutex: isize, base: usize },
    /// Release `mutex`; this is the last step.
    Release { mutex: isize },
}

/// Why the virtual camera could not be registered.
#[derive(Debug, PartialEq, Eq)]
pub enum RegisterError {
    Transport(TransportError),
    /// With the text of the error.
    Executable(String),
    /// With the component's path and the text of the error.
    Library { path: String, error: String },
    /// With the text of the error.
    Symbol(String),
    /// The registration returned this negative result.
    Failed(i32),
    LibraryLock,
}

/// What the program reports while the virtual camera is registered.
#[derive(Debug, PartialEq, Eq)]
pub enum RegisterEvent {
    /// The transport's set-up is over.
    TransportSet(Result<(), TransportError>),
    /// The application's own file was located, or not.
    Located(Result<(), String>),
    /// The component at `path` was loaded, or not.
    Loaded { path: String, outcome: Result<(), String> },
    /// The component's function was found, or not.
    SymbolFound(Result<(), String>),
    /// The component's function returned `hr`.
    Called { hr: i32 },
    /// Whether the lock of the component's slot was obtained.
    LibrarySlotLocked { locked: bool },
}

/// What the program does next to register the virtual camera.
#[derive(Debug, PartialEq, Eq)]
pub enum RegisterStep {
    LocateExecutable,
    /// Load [`LIBRARY_FILE`] from the directory of the application.
    LoadLibrary,
    /// Look up [`REGISTER_SYMBOL`].
    FindSymbol,
    CallRegister,
    LockLibrarySlot,
    /// The registration is over. The component is kept if and only if it succeeded.
    Finish(Result<(), RegisterError>),
}

/// What `event` makes of the publisher, and the step that follows it.
pub open spec fn transport_next(p: VirtualPublisher, event: TransportEvent) -> (
    VirtualPublisher,
    TransportStep,
) {
    match event {
        TransportEvent::Started { locked } => if !locked {
            (p, TransportStep::Finish(Err(TransportError::MappingLock)))
        } else if p.mapping is Some {
            (p, TransportStep::Finish(Ok(())))
        } else {
            (p, TransportStep::CreateMapping { size: REGION_BYTES as u32 })
        },
        TransportEvent::MappingCreated { handle, os_error } => if handle == 0 {
            (p, TransportStep::Finish(Err(TransportError::CreateMapping(os_error))))
        } else {
            (p, TransportStep::MapView { handle, size: REGION_BYTES })
        },
        TransportEvent::ViewMapped { handle, base } => if base == 0 {
            (p, TransportStep::Abandon { handle, error: TransportError::MapView })
        } else {
            (p, TransportStep::ClearView { handle, base, size: REGION_BYTES })
        },
        TransportEvent::ViewCleared { handle, base } => (
            VirtualPublisher { mapping: Some(MappedView { handle, base }), ..p },
            TransportStep::LockMutexSlot,
        ),
        TransportEvent::MutexSlotLocked { locked } => if !locked {
            (p, TransportStep::Finish(Err(TransportError::MutexLock)))
        } else {
            (p, TransportStep::CreateMutex)
        },
        TransportEvent::MutexCreated { handle, os_error } => if handle == 0 {
            (p, TransportStep::Finish(Err(TransportError::CreateMutex(os_error))))
        } else {
            (
                VirtualPublisher { mutex: Some(handle), ..p },
                TransportStep::Finish(Ok(())),
            )
        },
    }
}

/// The step that follows `event` while a frame is published.
pub open spec fn publish_next(p: VirtualPublisher, event: PublishEvent) -> PublishStep {
    match event {
        PublishEvent::Ready { transport, locked } => match p.mutex {
            Some(mutex) if transport && locked => PublishStep::Wait {
                mutex,
                milliseconds: WAIT_MILLISECONDS,
            },
            _ => PublishStep::Skip,
        },
        PublishEvent::Waited { mutex, code, locked } => if code != WAIT_ACQUIRED {
            PublishStep::Skip
        } else {
            match p.mapping {
                Some(view) if locked => PublishStep::Write { mutex, base: view.base },
                _ => PublishStep::Release { mutex },
            }
        },
        PublishEvent::Written { mutex } => PublishStep::Release { mutex },
    }
}

/// What `event` makes of the publisher during a registration, and the step that
/// follows it.
pub open spec fn register_next(p: VirtualPublisher, event: RegisterEvent) -> (
    VirtualPublisher,
    RegisterStep,
) {
    match event {
        RegisterEvent::TransportSet(Ok(_)) => (p, RegisterStep::LocateExecutable),
        RegisterEvent::TransportSet(Err(error)) => (
            p,
            RegisterStep::Finish(Err(RegisterError::Transport(error))),
        ),
        RegisterEvent::Located(Ok(_)) => (p, RegisterStep::LoadLibrary),
        RegisterEvent::Located(Err(error)) => (
            p,
            RegisterStep::Finish(Err(RegisterError::Executable(error))),
        ),
        RegisterEvent::Loaded { path: _, outcome: Ok(_) } => (p, RegisterStep::FindSymbol),
        RegisterEvent::Loaded { path, outcome: Err(error) } => (
            p,
            RegisterStep::Finish(Err(RegisterError::Library { path, error })),
        ),
        RegisterEvent::SymbolFound(Ok(_)) => (p, RegisterStep::CallRegister),
        RegisterEvent::SymbolFound(Err(error)) => (
            p,
            RegisterStep::Finish(Err(RegisterError::Symbol(error))),
        ),
        RegisterEvent::Called { hr } => if hr < 0 {
            (p, RegisterStep::Finish(Err(RegisterError::Failed(hr))))
        } else {
            (p, RegisterStep::LockLibrarySlot)
        },
        RegisterEvent::LibrarySlotLocked { locked } => if !locked {
            (p, RegisterStep::Finish(Err(RegisterError::LibraryLock)))
        } else {
            (VirtualPublisher { library: true, ..p }, RegisterStep::Finish(Ok(())))
        },
    }
}

impl VirtualPublisher {
    /// A publisher with nothing set up.
    pub fn new() -> (publisher: VirtualPublisher)
        ensures
            publisher == (VirtualPublisher { mapping: None, mutex: None, library: false }),
    {
        VirtualPublisher { mapping: None, mutex: None, library: false }
    }

    /// The text in UTF-16 with a zero after it, as the system's calls take names.
    pub fn wide(value: &str) -> (units: Vec<u16>)
        ensures
            units@ == utf16(value@).push(0),
    {
        wide_text(value)
    }

    /// Takes one step of setting up the shared memory and its mutex.
    pub fn ensure_transport(&mut self, event: TransportEvent) -> (step: TransportStep)
        ensures
            (*final(self), step) == transport_next(*old(self), event),
    {
        match event {
            TransportEvent::Started { locked } => if !locked {
                TransportStep::Finish(Err(TransportError::MappingLock))
            } else if self.mapping.is_some() {
                TransportStep::Finish(Ok(()))
            } else {
                TransportStep::CreateMapping { size: REGION_BYTES as u32 }
            },
            TransportEvent::MappingCreated { handle, os_error } => if handle == 0 {
                TransportStep::Finish(Err(TransportError::CreateMapping(os_error)))
            } else {
                TransportStep::MapView { handle, size: REGION_BYTES }
            },
            TransportEvent::ViewMapped { handle, base } => if base == 0 {
                TransportStep::Abandon { handle, error: TransportError::MapView }
            } else {
                TransportStep::ClearView { handle, base, size: REGION_BYTES }
            },
            TransportEvent::ViewCleared { handle, base } => {
                self.mapping = Some(MappedView { handle, base });
                TransportStep::LockMutexSlot
            },
            TransportEvent::MutexSlotLocked { locked } => if !locked {
                TransportStep::Finish(Err(TransportError::MutexLock))
            } else {
                TransportStep::CreateMutex
            },
            TransportEvent::MutexCreated { handle, os_error } => if handle == 0 {
                TransportStep::Finish(Err(TransportError::CreateMutex(os_error)))
            } else {
                self.mutex = Some(handle);
                TransportStep::Finish(Ok(()))
            },
        }
    }

    /// Takes one step of publishing a frame.
    pub fn publish(&self, event: PublishEvent) -> (step: PublishStep)
        ensures
            step == publish_next(*self, event),
    {
        match event {
            PublishEvent::Ready { transport, locked } => match self.mutex {
                Some(mutex) if transport && locked => PublishStep::Wait {
                    mutex,
                    milliseconds: WAIT_MILLISECONDS,
                },
                _ => PublishStep::Skip,
            },
            PublishEvent::Waited { mutex, code, locked } => if code != WAIT_ACQUIRED {
                PublishStep::Skip
            } else {
                match self.mapping {
                    Some(view) if locked => PublishStep::Write { mutex, base: view.base },
                    _ => PublishStep::Release { mutex },
                }
            },
            PublishEvent::Written { mutex } => PublishStep::Release { mutex },
        }
    }

    /// Takes one step of registering the virtual camera.
    pub fn register(&mut self, event: RegisterEvent) -> (step: RegisterStep)
        ensures
            (*final(self), step) == register_next(*old(self), event),
    {
        match event {
            RegisterEvent::TransportSet(outcome) => match outcome {
                Ok(_) => RegisterStep::LocateExecutable,
                Err(error) => RegisterStep::Finish(Err(RegisterError::Transport(error))),
            },
            RegisterEvent::Located(outcome) => match outcome {
                Ok(_) => RegisterStep::LoadLibrary,
                Err(error) => RegisterStep::Finish(Err(RegisterError::Executable(error))),
            },
            RegisterEvent::Loaded { path, outcome } => match outcome {
                Ok(_) => RegisterStep::FindSymbol,
                Err(error) => RegisterStep::Finish(Err(RegisterError::Library { path, error })),
            },
            RegisterEvent::SymbolFound(outcome) => match outcome {
                Ok(_) => RegisterStep::CallRegister,
                Err(error) => RegisterStep::Finish(Err(RegisterError::Symbol(error))),
            },
            RegisterEvent::Called { hr } => if hr < 0 {
                RegisterStep::Finish(Err(RegisterError::Failed(hr)))
            } else {
                RegisterStep::LockLibrarySlot
            },
            RegisterEvent::LibrarySlotLocked { locked } => if !locked {
                RegisterStep::Finish(Err(RegisterError::LibraryLock))
            } else {
                self.library = true;
                RegisterStep::Finish(Ok(()))
            },
        }
    }
}

/// The text that tells why the transport could not be set up.
pub open spec fn transport_message(error: TransportError) -> Seq<char> {
    match error {
        TransportError::MappingLock => "Virtual-camera mapping lock failed."@,
        TransportError::CreateMapping(os_error) =>
            "Could not create virtual-camera frame mapping: "@ + os_error@ + "."@,
        TransportError::MapView => "Could not map virtual-camera frame buffer."@,
        TransportError::MutexLock => "Virtual-camera mutex lock failed."@,
        TransportError::CreateMutex(os_error) =>
            "Could not create virtual-camera mutex: "@ + os_error@ + "."@,
    }
}

impl TransportError {
    pub fn message(&self) -> (text: String)
        ensures
            text@ == transport_message(*self),
    {
        match self {
            TransportError::MappingLock => "Virtual-camera mapping lock failed.".to_owned(),
            TransportError::CreateMapping(os_error) => join3(
                "Could not create virtual-camera frame mapping: ",
                os_error.as_str(),
                ".",
            ),
            TransportError::MapView => "Could not map virtual-camera frame buffer.".to_owned(),
            TransportError::MutexLock => "Virtual-camera mutex lock failed.".to_owned(),
            TransportError::CreateMutex(os_error) => join3(
                "Could not create virtual-camera mutex: ",
                os_error.as_str(),
                ".",
            ),
        }
    }
}

/// A result as the unsigned number of the same 32 bits.
pub open spec fn result_code(hr: i32) -> int {
    if hr < 0 {
        hr + 0x1_0000_0000
    } else {
        hr as int
    }
}

/// The text that tells why the virtual camera could not be registered.
pub open spec fn register_message(error: RegisterError) -> Seq<char> {
    match error {
        RegisterError::Transport(error) => transport_message(error),
        RegisterError::Executable(error) => "Could not locate application: "@ + error@,
        RegisterError::Library { path, error } => "Virtual-camera DLL not found at "@ + path@
            + ". Build virtual-camera/VirtualCameraMediaSource.vcxproj first. "@ + error@,
        RegisterError::Symbol(error) =>
            "Virtual-camera DLL is missing "@ + REGISTER_SYMBOL@ + ": "@ + error@,
        RegisterError::Failed(hr) =>
            "Media Foundation virtual-camera registration failed (HRESULT 0x"@ + hexadecimal(
            result_code(hr) as nat,
            8,
        ) + ")."@,
        RegisterError::LibraryLock => "Virtual-camera DLL lock failed."@,
    }
}

impl RegisterError {
    pub fn message(&self) -> (text: String)
        ensures
            text@ == register_message(*self),
    {
        match self {
            RegisterError::Transport(error) => error.message(),
            RegisterError::Executable(error) => join2("Could not locate application: ", error.as_str()),
            RegisterError::Library { path, error } => join4(
                "Virtual-camera DLL not found at ",
                path.as_str(),
                ". Build virtual-camera/VirtualCameraMediaSource.vcxproj first. ",
                error.as_str(),
            ),
            RegisterError::Symbol(error) => join4(
                "Virtual-camera DLL is missing ",
                REGISTER_SYMBOL,
                ": ",
                error.as_str(),
            ),
            RegisterError::Failed(hr) => {
                let wide: i64 = *hr as i64;
                let code: u32 = (if wide < 0 {
                    wide + 0x1_0000_0000
                } else {
                    wide
                }) as u32;
                join3(
                    "Media Foundation virtual-camera registration failed (HRESULT 0x",
                    hexadecimal_text(code, 8).as_str(),
                    ").",
                )
            },
            RegisterError::LibraryLock => "Virtual-camera DLL lock failed.".to_owned(),
        }
    }
}

/// What the system's calls return while the transport is set up.
pub struct TransportReplies {
    pub mapping_locked: bool,
    pub mapping: isize,
    pub mapping_error: String,
    pub base: usize,
    pub mutex_locked: bool,
    pub mutex: isize,
    pub mutex_error: String,
}

/// How many steps may follow an event of the set-up.
pub open spec fn transport_rank(event: TransportEvent) -> nat {
    match event {
        TransportEvent::Started { .. } => 5,
        TransportEvent::MappingCreated { .. } => 4,
        TransportEvent::ViewMapped { .. } => 3,
        TransportEvent::ViewCleared { .. } => 2,
        TransportEvent::MutexSlotLocked { .. } => 1,
        TransportEvent::MutexCreated { .. } => 0,
    }
}

/// What a whole set-up makes of the publisher, and its result, when every step is
/// done and reported, beginning with `event`.
pub open spec fn transport_run(
    p: VirtualPublisher,
    event: TransportEvent,
    replies: TransportReplies,
) -> (VirtualPublisher, Result<(), TransportError>)
    decreases transport_rank(event),
{
    let (q, step) = transport_next(p, event);
    match step {
        TransportStep::CreateMapping { size: _ } => transport_run(
            q,
            TransportEvent::MappingCreated {
                handle: replies.mapping,
                os_error: replies.mapping_error,
            },
            replies,
        ),
        TransportStep::MapView { handle, size: _ } => transport_run(
            q,
            TransportEvent::ViewMapped { handle, base: replies.base },
            replies,
        ),
        TransportStep::ClearView { handle, base, size: _ } => transport_run(
            q,
            TransportEvent::ViewCleared { handle, base },
            replies,
        ),
        TransportStep::LockMutexSlot => transport_run(
            q,
            TransportEvent::MutexSlotLocked { locked: replies.mutex_locked },
            replies,
        ),
        TransportStep::CreateMutex => transport_run(
            q,
            TransportEvent::MutexCreated {
                handle: replies.mutex,
                os_error: replies.mutex_error,
            },
            replies,
        ),
        TransportStep::Abandon { handle: _, error } => (q, Err(error)),
        TransportStep::Finish(result) => (q, result),
    }
}

/// A set-up that finds the shared memory mapped succeeds at once and changes nothing.
/// Otherwise it succeeds if and only if every call does; the shared memory is kept
/// once it is mapped and cleared, even where the mutex cannot be had, and the first
/// failure is the one that is reported.
pub proof fn law_transport_outcome(p: VirtualPublisher, replies: TransportReplies)
    ensures
        transport_run(p, TransportEvent::Started { locked: replies.mapping_locked }, replies)
            == ({
            let mapped = VirtualPublisher {
                mapping: Some(MappedView { handle: replies.mapping, base: replies.base }),
                ..p
            };
            if !replies.mapping_locked {
                (p, Err(TransportError::MappingLock))
            } else if p.mapping is Some {
                (p, Ok(()))
            } else if replies.mapping == 0 {
                (p, Err(TransportError::CreateMapping(replies.mapping_error)))
            } else if replies.base == 0 {
                (p, Err(TransportError::MapView))
            } else if !replies.mutex_locked {
                (mapped, Err(TransportError::MutexLock))
            } else if replies.mutex == 0 {
                (mapped, Err(TransportError::CreateMutex(replies.mutex_error)))
            } else {
                (VirtualPublisher { mutex: Some(replies.mutex), ..mapped }, Ok(()))
            }
        }),
{
    reveal_with_fuel(transport_run, 6);
}

/// What the system's calls return while a frame is published.
pub struct PublishReplies {
    pub transport: bool,
    pub mutex_locked: bool,
    pub code: u32,
    pub mapping_locked: bool,
}

/// How many steps may follow an event of a publication.
pub open spec fn publish_rank(event: PublishEvent) -> nat {
    match event {
        PublishEvent::Ready { .. } => 2,
        PublishEvent::Waited { .. } => 1,
        PublishEvent::Written { .. } => 0,
    }
}

/// The steps of a whole publication, beginning with `event`.
pub open spec fn publish_run(
    p: VirtualPublisher,
    event: PublishEvent,
    replies: PublishReplies,
) -> Seq<PublishStep>
    decreases publish_rank(event),
{
    let step = publish_next(p, event);
    match step {
        PublishStep::Wait { mutex, milliseconds: _ } => seq![step] + publish_run(
            p,
            PublishEvent::Waited { mutex, code: replies.code, locked: replies.mapping_locked },
            replies,
        ),
        PublishStep::Write { mutex, base: _ } => seq![step] + publish_run(
            p,
            PublishEvent::Written { mutex },
            replies,
        ),
        _ => seq![step],
    }
}

/// A publication waits for the mutex first, writes only while it holds it, and
/// releases it, as its last step, if and only if it was acquired.
pub proof fn law_mutex_is_released(p: VirtualPublisher, replies: PublishReplies)
    ensures
        publish_run(
            p,
            PublishEvent::Ready { transport: replies.transport, locked: replies.mutex_locked },
            replies,
        ) == ({
            let wait = PublishStep::Wait {
                mutex: p.mutex->0,
                milliseconds: WAIT_MILLISECONDS,
            };
            let release = PublishStep::Release { mutex: p.mutex->0 };
            if !replies.transport || !replies.mutex_locked || p.mutex is None {
                seq![PublishStep::Skip]
            } else if replies.code != WAIT_ACQUIRED {
                seq![wait, PublishStep::Skip]
            } else if !replies.mapping_locked || p.mapping is None {
                seq![wait, release]
            } else {
                seq![
                    wait,
                    PublishStep::Write { mutex: p.mutex->0, base: p.mapping->0.base },
                    release,
                ]
            }
        }),
{
    reveal_with_fuel(publish_run, 3);
    let steps = publish_run(
        p,
        PublishEvent::Ready { transport: replies.transport, locked: replies.mutex_locked },
        replies,
    );
    if replies.transport && replies.mutex_locked && p.mutex is Some {
        if replies.code != WAIT_ACQUIRED || !replies.mapping_locked || p.mapping is None {
            assert(steps.len() == 2);
        } else {
            assert(steps.len() == 3);
        }
    }
}

/// Once the shared memory is mapped and the mutex could not be had, every later
/// set-up succeeds without another attempt at the mutex, and no frame is published.
pub proof fn law_no_mutex_no_frames(
    p: VirtualPublisher,
    setup: TransportReplies,
    replies: PublishReplies,
)
    requires
        p.mapping is Some,
        p.mutex is None,
        setup.mapping_locked,
    ensures
        transport_run(p, TransportEvent::Started { locked: true }, setup) == (
            p,
            Ok::<(), TransportError>(()),
        ),
        publish_run(
            p,
            PublishEvent::Ready { transport: true, locked: replies.mutex_locked },
            replies,
        ) == seq![PublishStep::Skip],
{
    law_transport_outcome(p, setup);
}

/// A set-up that succeeds from nothing leaves a publisher that writes every frame
/// whose wait is granted, at the address that was mapped and cleared.
pub proof fn law_fresh_publisher_writes(setup: TransportReplies, replies: PublishReplies)
    requires
        setup.mapping_locked,
        setup.mapping != 0,
        setup.base != 0,
        setup.mutex_locked,
        setup.mutex != 0,
        replies.transport,
        replies.mutex_locked,
        replies.code == WAIT_ACQUIRED,
        replies.mapping_locked,
    ensures
        ({
            let fresh = VirtualPublisher { mapping: None, mutex: None, library: false };
            let (p, result) = transport_run(
                fresh,
                TransportEvent::Started { locked: true },
                setup,
            );
            &&& result is Ok
            &&& publish_run(p, PublishEvent::Ready { transport: true, locked: true }, replies)
                == seq![
                PublishStep::Wait { mutex: setup.mutex, milliseconds: WAIT_MILLISECONDS },
                PublishStep::Write { mutex: setup.mutex, base: setup.base },
                PublishStep::Release { mutex: setup.mutex },
            ]
        }),
{
    let fresh = VirtualPublisher { mapping: None, mutex: None, library: false };
    law_transport_outcome(fresh, setup);
    let (p, _result) = transport_run(fresh, TransportEvent::Started { locked: true }, setup);
    law_mutex_is_released(p, replies);
}

/// Two publications whose waits are granted both write at the same address, and leave there
/// the second frame, as if only it had been published, with a sequence number that has grown
/// by two modulo 2^64.
pub proof fn law_newest_publication_remains(
    p: VirtualPublisher,
    replies: PublishReplies,
    before: Seq<u8>,
    first: FrameView,
    first_time: u64,
    between: Seq<u8>,
    second: FrameView,
    second_time: u64,
    after: Seq<u8>,
    alone: Seq<u8>,
)
    requires
        p.mapping is Some,
        p.mutex is Some,
        replies.transport,
        replies.mutex_locked,
        replies.code == WAIT_ACQUIRED,
        replies.mapping_locked,
        publishes(before, first, first_time, between),
        publishes(between, second, second_time, after),
        publishes(before, second, second_time, alone),
    ensures
        publish_run(p, PublishEvent::Ready { transport: true, locked: true }, replies) == seq![
            PublishStep::Wait { mutex: p.mutex->0, milliseconds: WAIT_MILLISECONDS },
            PublishStep::Write { mutex: p.mutex->0, base: p.mapping->0.base },
            PublishStep::Release { mutex: p.mutex->0 },
        ],
        header_of(after).sequence == (header_of(before).sequence + 2) % 0x1_0000_0000_0000_0000,
        header_of(after).width == header_of(alone).width,
        header_of(after).height == header_of(alone).height,
        header_of(after).stride == header_of(alone).stride,
        frame_of(after) == frame_of(alone),
{
    law_mutex_is_released(p, replies);
    law_newest_frame_remains(
        before,
        first,
        first_time,
        between,
        second,
        second_time,
        after,
        alone,
    );
}

/// What loading and calling the component returns during a registration.
pub struct RegisterReplies {
    pub transport: Result<(), TransportError>,
    pub located: Result<(), String>,
    pub path: String,
    pub loaded: Result<(), String>,
    pub symbol: Result<(), String>,
    pub hr: i32,
    pub locked: bool,
}

/// How many steps may follow an event of a registration.
pub open spec fn register_rank(event: RegisterEvent) -> nat {
    match event {
        RegisterEvent::TransportSet(_) => 5,
        RegisterEvent::Located(_) => 4,
        RegisterEvent::Loaded { .. } => 3,
        RegisterEvent::SymbolFound(_) => 2,
        RegisterEvent::Called { .. } => 1,
        RegisterEvent::LibrarySlotLocked { .. } => 0,
    }
}

/// What a whole registration makes of the publisher, and its result, beginning with
/// `event`.
pub open spec fn register_run(
    p: VirtualPublisher,
    event: RegisterEvent,
    replies: RegisterReplies,
) -> (VirtualPublisher, Result<(), RegisterError>)
    decreases register_rank(event),
{
    let (q, step) = register_next(p, event);
    match step {
        RegisterStep::LocateExecutable => register_run(
            q,
            RegisterEvent::Located(replies.located),
            replies,
        ),
        RegisterStep::LoadLibrary => register_run(
            q,
            RegisterEvent::Loaded { path: replies.path, outcome: replies.loaded },
            replies,
        ),
        RegisterStep::FindSymbol => register_run(
            q,
            RegisterEvent::SymbolFound(replies.symbol),
            replies,
        ),
        RegisterStep::CallRegister => register_run(
            q,
            RegisterEvent::Called { hr: replies.hr },
            replies,
        ),
        RegisterStep::LockLibrarySlot => register_run(
            q,
            RegisterEvent::LibrarySlotLocked { locked: replies.locked },
            replies,
        ),
        RegisterStep::Finish(result) => (q, result),
    }
}

/// A registration succeeds if and only if each of its parts does, reports the first
/// failure, and keeps the component loaded exactly when it succeeds.
pub proof fn law_registration_outcome(p: VirtualPublisher, replies: RegisterReplies)
    ensures
        register_run(p, RegisterEvent::TransportSet(replies.transport), replies) == ({
            if replies.transport is Err {
                (p, Err(RegisterError::Transport(replies.transport->Err_0)))
            } else if replies.located is Err {
                (p, Err(RegisterError::Executable(replies.located->Err_0)))
            } else if replies.loaded is Err {
                (
                    p,
                    Err(
                        RegisterError::Library {
                            path: replies.path,
                            error: replies.loaded->Err_0,
                        },
                    ),
                )
            } else if replies.symbol is Err {
                (p, Err(RegisterError::Symbol(replies.symbol->Err_0)))
            } else if replies.hr < 0 {
                (p, Err(RegisterError::Failed(replies.hr)))
            } else if !replies.locked {
                (p, Err(RegisterError::LibraryLock))
            } else {
                (VirtualPublisher { library: true, ..p }, Ok(()))
            }
        }),
{
    reveal_with_fuel(register_run, 6);
}

/// Setting up the transport goes from call to call with the handle and the address that were
/// returned, always for the whole of the shared memory, and keeps them once it is cleared.
pub proof fn law_transport_steps(
    p: VirtualPublisher,
    locked: bool,
    handle: isize,
    base: usize,
    os_error: String,
)
    ensures
        ({
            let (next, step) = transport_next(p, TransportEvent::Started { locked });
            &&& next == p
            &&& !locked ==> step == TransportStep::Finish(Err(TransportError::MappingLock))
            &&& locked && p.mapping is Some ==> step == TransportStep::Finish(Ok(()))
            &&& locked && p.mapping is None ==> step == (TransportStep::CreateMapping {
                size: 3_686_432,
            })
        }),
        ({
            let (next, step) = transport_next(
                p,
                TransportEvent::MappingCreated { handle, os_error },
            );
            &&& next == p
            &&& handle == 0 ==> step == TransportStep::Finish(
                Err(TransportError::CreateMapping(os_error)),
            )
            &&& handle != 0 ==> step == (TransportStep::MapView { handle, size: 3_686_432 })
        }),
        ({
            let (next, step) = transport_next(p, TransportEvent::ViewMapped { handle, base });
            &&& next == p
            &&& base == 0 ==> step == (TransportStep::Abandon {
                handle,
                error: TransportError::MapView,
            })
            &&& base != 0 ==> step == (TransportStep::ClearView { handle, base, size: 3_686_432 })
        }),
        ({
            let (next, step) = transport_next(p, TransportEvent::ViewCleared { handle, base });
            &&& next.mapping is Some
            &&& next.mapping->0.handle == handle
            &&& next.mapping->0.base == base
            &&& next.mutex == p.mutex
            &&& next.library == p.library
            &&& step == TransportStep::LockMutexSlot
        }),
        ({
            let (next, step) = transport_next(p, TransportEvent::MutexSlotLocked { locked });
            &&& next == p
            &&& locked ==> step == TransportStep::CreateMutex
            &&& !locked ==> step == TransportStep::Finish(Err(TransportError::MutexLock))
        }),
        ({
            let (next, step) = transport_next(p, TransportEvent::MutexCreated { handle, os_error });
            &&& handle == 0 ==> next == p && step == TransportStep::Finish(
                Err(TransportError::CreateMutex(os_error)),
            )
            &&& handle != 0 ==> next.mutex == Some(handle) && next.mapping == p.mapping
                && next.library == p.library && step == TransportStep::Finish(Ok(()))
        }),
{
}

/// A publication waits for the publisher's own mutex, for five milliseconds, exactly where the
/// transport stands and the mutex is there; writes exactly where the wait was granted and the
/// shared memory is there; and once the wait was granted releases the mutex that was waited
/// for.
pub proof fn law_publication_steps(
    p: VirtualPublisher,
    transport: bool,
    locked: bool,
    mutex: isize,
    code: u32,
)
    ensures
        ({
            let step = publish_next(p, PublishEvent::Ready { transport, locked });
            &&& step is Wait <==> transport && locked && p.mutex is Some
            &&& step is Wait ==> step == (PublishStep::Wait {
                mutex: p.mutex->0,
                milliseconds: 5,
            })
            &&& !(step is Wait) ==> step == PublishStep::Skip
        }),
        ({
            let step = publish_next(p, PublishEvent::Waited { mutex, code, locked });
            &&& step == PublishStep::Skip <==> code != 0
            &&& code == 0 && locked && p.mapping is Some ==> step == (PublishStep::Write {
                mutex,
                base: p.mapping->0.base,
            })
            &&& code == 0 && !(locked && p.mapping is Some) ==> step == (PublishStep::Release {
                mutex,
            })
        }),
        publish_next(p, PublishEvent::Written { mutex }) == (PublishStep::Release { mutex }),
{
}

/// A registration goes from part to part exactly where each succeeds; a result that is not
/// negative is a success; and the publisher changes with the last part alone.
pub proof fn law_registration_steps(
    p: VirtualPublisher,
    error: TransportError,
    path: String,
    text: String,
    hr: i32,
    locked: bool,
)
    ensures
        register_next(p, RegisterEvent::TransportSet(Ok(()))) == (
            p,
            RegisterStep::LocateExecutable,
        ),
        register_next(p, RegisterEvent::TransportSet(Err(error))) == (
            p,
            RegisterStep::Finish(Err(RegisterError::Transport(error))),
        ),
        register_next(p, RegisterEvent::Located(Ok(()))) == (p, RegisterStep::LoadLibrary),
        register_next(p, RegisterEvent::Located(Err(text))) == (
            p,
            RegisterStep::Finish(Err(RegisterError::Executable(text))),
        ),
        register_next(p, RegisterEvent::Loaded { path, outcome: Ok(()) }) == (
            p,
            RegisterStep::FindSymbol,
        ),
        register_next(p, RegisterEvent::Loaded { path, outcome: Err(text) }) == (
            p,
            RegisterStep::Finish(Err(RegisterError::Library { path, error: text })),
        ),
        register_next(p, RegisterEvent::SymbolFound(Ok(()))) == (p, RegisterStep::CallRegister),
        register_next(p, RegisterEvent::SymbolFound(Err(text))) == (
            p,
            RegisterStep::Finish(Err(RegisterError::Symbol(text))),
        ),
        hr >= 0 ==> register_next(p, RegisterEvent::Called { hr }) == (
            p,
            RegisterStep::LockLibrarySlot,
        ),
        hr < 0 ==> register_next(p, RegisterEvent::Called { hr }) == (
            p,
            RegisterStep::Finish(Err(RegisterError::Failed(hr))),
        ),
        ({
            let (next, step) = register_next(p, RegisterEvent::LibrarySlotLocked { locked });
            &&& next.mapping == p.mapping
            &&& next.mutex == p.mutex
            &&& next.library == (locked || p.library)
            &&& locked ==> step == RegisterStep::Finish(Ok(()))
            &&& !locked ==> step == RegisterStep::Finish(Err(RegisterError::LibraryLock))
        }),
{
}

/// A result and the unsigned number of the same bits differ by nothing or by 2^32, and
/// different results have different numbers.
pub proof fn law_result_codes(hr: i32, other: i32)
    ensures
        0 <= result_code(hr) < 0x1_0000_0000,
        (result_code(hr) - hr) % 0x1_0000_0000 == 0,
        result_code(hr) == result_code(other) ==> hr == other,
{
}

/// The virtual camera's failures are told in these words, with the text that comes with them
/// whole and a failed result as eight hexadecimal digits.
pub proof fn law_virtual_camera_texts(
    error: TransportError,
    path: String,
    text: String,
    hr: i32,
)
    ensures
        transport_message(TransportError::MappingLock) == "Virtual-camera mapping lock failed."@,
        transport_message(TransportError::CreateMapping(text))
            == "Could not create virtual-camera frame mapping: "@ + text@ + "."@,
        transport_message(TransportError::MapView)
            == "Could not map virtual-camera frame buffer."@,
        transport_message(TransportError::MutexLock) == "Virtual-camera mutex lock failed."@,
        transport_message(TransportError::CreateMutex(text))
            == "Could not create virtual-camera mutex: "@ + text@ + "."@,
        register_message(RegisterError::Transport(error)) == transport_message(error),
        register_message(RegisterError::Executable(text)) == "Could not locate application: "@
            + text@,
        register_message(RegisterError::Library { path, error: text })
            == "Virtual-camera DLL not found at "@ + path@
            + ". Build virtual-camera/VirtualCameraMediaSource.vcxproj first. "@ + text@,
        register_message(RegisterError::Symbol(text)) == "Virtual-camera DLL is missing "@
            + "Register4KRustVirtualCamera"@ + ": "@ + text@,
        register_message(RegisterError::Failed(hr))
            == "Media Foundation virtual-camera registration failed (HRESULT 0x"@ + hexadecimal(
            result_code(hr) as nat,
            8,
        ) + ")."@,
        register_message(RegisterError::LibraryLock) == "Virtual-camera DLL lock failed."@,
{
}

} // verus!
