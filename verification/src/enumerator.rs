//! The enumeration state machine.
//!
//! Enumeration is a linear, five-stage pass: discover the handles of the
//! device-path-to-text interface and require exactly one; bind it; discover
//! all block storage handles; for each, in discovery order, bind its block
//! I/O interface, bind its device path, resolve the path to text, and emit
//! one line classifying the device as removable or non-removable; then
//! finish successfully.  Any firmware failure along the way is fatal: the
//! run aborts with a diagnostic naming the interface involved, with no
//! retry and no partial-result policy.
//!
//! The firmware calls themselves happen outside this crate.  The driver
//! asks the machine for the next [`Action`], performs it against the
//! firmware, and hands the response back as an [`Event`]; the machine's
//! contract pins every transition down.  [`enumerate`] runs the same
//! machine to completion against a synthetic environment that answers
//! every firmware call from plain values.

use vstd::prelude::*;
use vstd::string::StringExecFns;
use crate::block_io::BlockIO;
use crate::registry::Handle;
use crate::registry::ProtocolKind;
use crate::registry::bind_failure_message;
use crate::registry::lookup_failure_message;
use crate::registry::spec_bind_failure_message;
use crate::registry::spec_lookup_failure_message;
use crate::text::display_chars;
use crate::text::display_string;

verus! {

/// What the driver must do next against the firmware, as decided by the
/// machine.
pub enum Action {
    /// Ask the firmware for every handle implementing the interface.
    FindHandles {
        /// The interface to search for.
        protocol: ProtocolKind,
    },
    /// Bind one handle to its implementation of the interface.
    Bind {
        /// The interface to bind.
        protocol: ProtocolKind,
        /// The handle to bind it on.
        handle: Handle,
    },
    /// Convert the device path bound on the handle to text, with the
    /// given display flags.
    ConvertPath {
        /// The handle whose device path is to be converted.
        handle: Handle,
        /// Verbosity flag: display form rather than the full form.
        display_only: bool,
        /// Whether the converter may substitute shortcut notation.
        allow_shortcuts: bool,
    },
    /// Write one classification line to the diagnostic output.
    Emit {
        /// The line to write.
        line: String,
    },
    /// Report overall success to the firmware; the run is complete.
    Finish,
    /// Terminate the whole run with a fatal diagnostic.
    Abort {
        /// The diagnostic naming what failed.
        message: String,
    },
}

/// The firmware's response to the last [`Action`], as the driver hands it
/// back to the machine.
pub enum Event {
    /// Begin the run.
    Start,
    /// Handle discovery succeeded with these handles, in firmware order.
    FoundHandles {
        /// The discovered handles.
        handles: Vec<Handle>,
    },
    /// Handle discovery reported an error status.
    LookupFailed,
    /// Binding reported an error status.
    BindFailed,
    /// The device-path-to-text interface was bound; the driver retains it.
    BoundText,
    /// A block I/O interface was bound; these are the values it exposes.
    BoundBlockIo {
        /// The bound interface as the driver read it.
        block_io: BlockIO,
    },
    /// The device-path interface was bound; the driver retains it for the
    /// conversion call.
    BoundDevicePath,
    /// Path-to-text conversion returned a wide string with these code
    /// units (terminator excluded).
    Converted {
        /// The code units of the converted path.
        units: Vec<u16>,
    },
    /// The classification line was written.
    Emitted,
}

/// Where the machine stands in the five-stage pass.
#[derive(Clone, Copy, PartialEq, Eq, Structural, Debug)]
pub enum Phase {
    /// Nothing has happened yet.
    Init,
    /// Waiting for the text-conversion handle discovery.
    FindingTextHandles,
    /// Waiting for the text-conversion interface binding.
    BindingText,
    /// Waiting for the block storage handle discovery.
    FindingBlockHandles,
    /// Waiting for the current handle's block I/O binding.
    BindingBlockIo,
    /// Waiting for the current handle's device-path binding.
    BindingDevicePath,
    /// Waiting for the current handle's path-to-text conversion.
    Converting,
    /// Waiting for the current handle's line to be written.
    Emitting,
    /// The whole pass completed successfully.
    Done,
    /// A fatal condition ended the run.
    Aborted,
}

/// The enumeration state machine.  `output` collects every classification
/// line emitted so far, in order; `idx` is the position of the current
/// handle in `block_handles`.
pub struct Enumerator {
    /// Current stage.
    pub phase: Phase,
    /// The block storage handles, as discovery returned them.
    pub block_handles: Vec<Handle>,
    /// Index of the handle currently being processed.
    pub idx: usize,
    /// Removable-media flag of the handle currently being processed,
    /// remembered between its block I/O binding and its line.
    pub pending_removable: bool,
    /// Every classification line emitted so far, in order.
    pub output: Vec<String>,
}

/// The diagnostic emitted when the number of text-conversion providers is
/// not exactly one — an environment precondition violation, fatal.
pub open spec fn spec_provider_count_message() -> Seq<char> {
    "Expected exactly one DevicePathToText provider"@
}

/// Builds the provider-count diagnostic.
pub fn provider_count_message() -> (r: String)
    ensures
        r@ == spec_provider_count_message(),
{
    String::from_str("Expected exactly one DevicePathToText provider")
}

/// The diagnostic line classifying one device: the classification decided
/// by the removable-media flag, a separator, then the resolved path text.
pub open spec fn spec_classification_line(removable: bool, units: Seq<u16>) -> Seq<char> {
    (if removable {
        "removable: "@
    } else {
        "non-removable: "@
    }) + display_chars(units)
}

/// Builds the classification line for one device from its removable-media
/// flag and the code units of its resolved path.
pub fn classification_line(removable: bool, units: &Vec<u16>) -> (r: String)
    ensures
        r@ == spec_classification_line(removable, units@),
{
    let mut r = if removable {
        String::from_str("removable: ")
    } else {
        String::from_str("non-removable: ")
    };
    let path = display_string(units);
    r.append(path.as_str());
    r
}

/// The action aborts the run with exactly this diagnostic.
pub open spec fn abort_action(a: Action, msg: Seq<char>) -> bool {
    &&& a matches Action::Abort { message }
    &&& message@ == msg
}

impl Enumerator {
    /// The machine is processing a handle of the block storage loop.
    pub open spec fn in_device_loop(self) -> bool {
        ||| self.phase is BindingBlockIo
        ||| self.phase is BindingDevicePath
        ||| self.phase is Converting
        ||| self.phase is Emitting
    }

    /// Internal consistency: while a handle is being processed, the index
    /// points into the discovered handles.
    pub open spec fn wf(self) -> bool {
        self.in_device_loop() ==> self.idx < self.block_handles@.len()
    }

    /// Which events the machine can take next: exactly the firmware
    /// responses to the action it last asked for.  Terminal phases take
    /// none.
    pub open spec fn accepts(self, event: Event) -> bool {
        &&& self.wf()
        &&& match self.phase {
            Phase::Init => event is Start,
            Phase::FindingTextHandles => event is FoundHandles || event is LookupFailed,
            Phase::BindingText => event is BoundText || event is BindFailed,
            Phase::FindingBlockHandles => event is FoundHandles || event is LookupFailed,
            Phase::BindingBlockIo => event is BoundBlockIo || event is BindFailed,
            Phase::BindingDevicePath => event is BoundDevicePath || event is BindFailed,
            Phase::Converting => event is Converted,
            Phase::Emitting => event is Emitted,
            Phase::Done => false,
            Phase::Aborted => false,
        }
    }

    /// The machine's transition relation: from state `s`, taking `event`,
    /// the machine moves to state `t` and asks for action `a`.
    pub open spec fn step_spec(s: Enumerator, event: Event, t: Enumerator, a: Action) -> bool {
        match s.phase {
            Phase::Init => {
                &&& t == (Enumerator { phase: Phase::FindingTextHandles, ..s })
                &&& a == (Action::FindHandles { protocol: ProtocolKind::DevicePathToText })
            },
            Phase::FindingTextHandles => match event {
                Event::FoundHandles { handles } => if handles@.len() == 1 {
                    &&& t == (Enumerator { phase: Phase::BindingText, ..s })
                    &&& a == (Action::Bind {
                        protocol: ProtocolKind::DevicePathToText,
                        handle: handles@[0],
                    })
                } else {
                    &&& t == (Enumerator { phase: Phase::Aborted, ..s })
                    &&& abort_action(a, spec_provider_count_message())
                },
                Event::LookupFailed => {
                    &&& t == (Enumerator { phase: Phase::Aborted, ..s })
                    &&& abort_action(a, spec_lookup_failure_message(ProtocolKind::DevicePathToText))
                },
                _ => false,
            },
            Phase::BindingText => match event {
                Event::BoundText => {
                    &&& t == (Enumerator { phase: Phase::FindingBlockHandles, ..s })
                    &&& a == (Action::FindHandles { protocol: ProtocolKind::BlockIo })
                },
                Event::BindFailed => {
                    &&& t == (Enumerator { phase: Phase::Aborted, ..s })
                    &&& abort_action(a, spec_bind_failure_message(ProtocolKind::DevicePathToText))
                },
                _ => false,
            },
            Phase::FindingBlockHandles => match event {
                Event::FoundHandles { handles } => if handles@.len() > 0 {
                    &&& t == (Enumerator {
                        phase: Phase::BindingBlockIo,
                        block_handles: handles,
                        idx: 0,
                        ..s
                    })
                    &&& a == (Action::Bind {
                        protocol: ProtocolKind::BlockIo,
                        handle: handles@[0],
                    })
                } else {
                    &&& t == (Enumerator { phase: Phase::Done, block_handles: handles, idx: 0, ..s })
                    &&& a is Finish
                },
                Event::LookupFailed => {
                    &&& t == (Enumerator { phase: Phase::Aborted, ..s })
                    &&& abort_action(a, spec_lookup_failure_message(ProtocolKind::BlockIo))
                },
                _ => false,
            },
            Phase::BindingBlockIo => match event {
                Event::BoundBlockIo { block_io } => {
                    &&& t == (Enumerator {
                        phase: Phase::BindingDevicePath,
                        pending_removable: block_io.media.removable_media,
                        ..s
                    })
                    &&& a == (Action::Bind {
                        protocol: ProtocolKind::DevicePath,
                        handle: s.block_handles@[s.idx as int],
                    })
                },
                Event::BindFailed => {
                    &&& t == (Enumerator { phase: Phase::Aborted, ..s })
                    &&& abort_action(a, spec_bind_failure_message(ProtocolKind::BlockIo))
                },
                _ => false,
            },
            Phase::BindingDevicePath => match event {
                Event::BoundDevicePath => {
                    &&& t == (Enumerator { phase: Phase::Converting, ..s })
                    &&& a == (Action::ConvertPath {
                        handle: s.block_handles@[s.idx as int],
                        display_only: true,
                        allow_shortcuts: true,
                    })
                },
                Event::BindFailed => {
                    &&& t == (Enumerator { phase: Phase::Aborted, ..s })
                    &&& abort_action(a, spec_bind_failure_message(ProtocolKind::DevicePath))
                },
                _ => false,
            },
            Phase::Converting => match event {
                Event::Converted { units } => {
                    &&& t.phase is Emitting
                    &&& t.block_handles == s.block_handles
                    &&& t.idx == s.idx
                    &&& t.pending_removable == s.pending_removable
                    &&& t.output@.len() == s.output@.len() + 1
                    &&& forall|j: int| 0 <= j < s.output@.len() ==> t.output@[j] == s.output@[j]
                    &&& t.output@[s.output@.len() as int]@ == spec_classification_line(
                        s.pending_removable,
                        units@,
                    )
                    &&& a matches Action::Emit { line }
                    &&& line@ == spec_classification_line(s.pending_removable, units@)
                },
                _ => false,
            },
            Phase::Emitting => match event {
                Event::Emitted => if s.idx + 1 < s.block_handles@.len() {
                    &&& t == (Enumerator { phase: Phase::BindingBlockIo, idx: (s.idx + 1) as usize, ..s })
                    &&& a == (Action::Bind {
                        protocol: ProtocolKind::BlockIo,
                        handle: s.block_handles@[s.idx + 1],
                    })
                } else {
                    &&& t == (Enumerator { phase: Phase::Done, idx: (s.idx + 1) as usize, ..s })
                    &&& a is Finish
                },
                _ => false,
            },
            Phase::Done => false,
            Phase::Aborted => false,
        }
    }

    /// A machine at the start of the pass: nothing discovered, nothing
    /// emitted.
    pub fn new() -> (r: Enumerator)
        ensures
            r.phase is Init,
            r.block_handles@.len() == 0,
            r.idx == 0,
            r.pending_removable == false,
            r.output@.len() == 0,
            r.wf(),
    {
        Enumerator {
            phase: Phase::Init,
            block_handles: Vec::new(),
            idx: 0,
            pending_removable: false,
            output: Vec::new(),
        }
    }

    /// Runtime mirror of [`Self::accepts`], so that an unverified driver
    /// can test whether the machine takes an event before handing it
    /// over.
    pub fn accepts_event(&self, event: &Event) -> (r: bool)
        ensures
            r == self.accepts(*event),
    {
        let wf_ok: bool = match self.phase {
            Phase::BindingBlockIo | Phase::BindingDevicePath | Phase::Converting
            | Phase::Emitting => self.idx < self.block_handles.len(),
            _ => true,
        };
        wf_ok && match self.phase {
            Phase::Init => matches!(event, Event::Start),
            Phase::FindingTextHandles => matches!(
                event,
                Event::FoundHandles { .. } | Event::LookupFailed
            ),
            Phase::BindingText => matches!(event, Event::BoundText | Event::BindFailed),
            Phase::FindingBlockHandles => matches!(
                event,
                Event::FoundHandles { .. } | Event::LookupFailed
            ),
            Phase::BindingBlockIo => matches!(
                event,
                Event::BoundBlockIo { .. } | Event::BindFailed
            ),
            Phase::BindingDevicePath => matches!(
                event,
                Event::BoundDevicePath | Event::BindFailed
            ),
            Phase::Converting => matches!(event, Event::Converted { .. }),
            Phase::Emitting => matches!(event, Event::Emitted),
            Phase::Done => false,
            Phase::Aborted => false,
        }
    }

    /// Takes the firmware's response to the last action and decides the
    /// next one.  The transition relation [`Self::step_spec`] pins down
    /// the new state and the action exactly.
    pub fn step(&mut self, event: Event) -> (a: Action)
        requires
            old(self).accepts(event),
        ensures
            Self::step_spec(*old(self), event, *final(self), a),
            final(self).wf(),
    {
        match self.phase {
            Phase::Init => match event {
                Event::Start => {
                    self.phase = Phase::FindingTextHandles;
                    Action::FindHandles { protocol: ProtocolKind::DevicePathToText }
                },
                _ => unreached(),
            },
            Phase::FindingTextHandles => match event {
                Event::FoundHandles { handles } => {
                    if handles.len() == 1 {
                        let h = handles[0];
                        self.phase = Phase::BindingText;
                        Action::Bind { protocol: ProtocolKind::DevicePathToText, handle: h }
                    } else {
                        self.phase = Phase::Aborted;
                        Action::Abort { message: provider_count_message() }
                    }
                },
                Event::LookupFailed => {
                    self.phase = Phase::Aborted;
                    Action::Abort {
                        message: lookup_failure_message(ProtocolKind::DevicePathToText),
                    }
                },
                _ => unreached(),
            },
            Phase::BindingText => match event {
                Event::BoundText => {
                    self.phase = Phase::FindingBlockHandles;
                    Action::FindHandles { protocol: ProtocolKind::BlockIo }
                },
                Event::BindFailed => {
                    self.phase = Phase::Aborted;
                    Action::Abort {
                        message: bind_failure_message(ProtocolKind::DevicePathToText),
                    }
                },
                _ => unreached(),
            },
            Phase::FindingBlockHandles => match event {
                Event::FoundHandles { handles } => {
                    self.block_handles = handles;
                    self.idx = 0;
                    if self.block_handles.len() > 0 {
                        let h = self.block_handles[0];
                        self.phase = Phase::BindingBlockIo;
                        Action::Bind { protocol: ProtocolKind::BlockIo, handle: h }
                    } else {
                        self.phase = Phase::Done;
                        Action::Finish
                    }
                },
                Event::LookupFailed => {
                    self.phase = Phase::Aborted;
                    Action::Abort { message: lookup_failure_message(ProtocolKind::BlockIo) }
                },
                _ => unreached(),
            },
            Phase::BindingBlockIo => match event {
                Event::BoundBlockIo { block_io } => {
                    self.pending_removable = block_io.media.removable_media;
                    self.phase = Phase::BindingDevicePath;
                    let h = self.block_handles[self.idx];
                    Action::Bind { protocol: ProtocolKind::DevicePath, handle: h }
                },
                Event::BindFailed => {
                    self.phase = Phase::Aborted;
                    Action::Abort { message: bind_failure_message(ProtocolKind::BlockIo) }
                },
                _ => unreached(),
            },
            Phase::BindingDevicePath => match event {
                Event::BoundDevicePath => {
                    self.phase = Phase::Converting;
                    let h = self.block_handles[self.idx];
                    Action::ConvertPath { handle: h, display_only: true, allow_shortcuts: true }
                },
                Event::BindFailed => {
                    self.phase = Phase::Aborted;
                    Action::Abort { message: bind_failure_message(ProtocolKind::DevicePath) }
                },
                _ => unreached(),
            },
            Phase::Converting => match event {
                Event::Converted { units } => {
                    let line = classification_line(self.pending_removable, &units);
                    self.output.push(line.clone());
                    self.phase = Phase::Emitting;
                    Action::Emit { line }
                },
                _ => unreached(),
            },
            Phase::Emitting => match event {
                Event::Emitted => {
                    let n: usize = self.block_handles.len();
                    self.idx = self.idx + 1;
                    if self.idx < n {
                        let h = self.block_handles[self.idx];
                        self.phase = Phase::BindingBlockIo;
                        Action::Bind { protocol: ProtocolKind::BlockIo, handle: h }
                    } else {
                        self.phase = Phase::Done;
                        Action::Finish
                    }
                },
                _ => unreached(),
            },
            Phase::Done => unreached(),
            Phase::Aborted => unreached(),
        }
    }
}

/// A synthetic environment: what each firmware call would answer, given
/// as plain values.  Discovery of the text-conversion interface returns
/// `text_handles`; discovery of block storage returns `block_handles`;
/// for the handle at each position, binding exposes the interface record
/// in `block_ios` and path conversion returns the code units in
/// `path_texts`.  Every lookup and binding in it succeeds.
pub struct SynthEnv {
    /// Handles the text-conversion discovery returns.
    pub text_handles: Vec<Handle>,
    /// Handles the block storage discovery returns, in order.
    pub block_handles: Vec<Handle>,
    /// The block I/O interface each block storage handle binds to.
    pub block_ios: Vec<BlockIO>,
    /// The converted path text of each block storage handle.
    pub path_texts: Vec<Vec<u16>>,
}

impl SynthEnv {
    /// The per-handle tables describe exactly the discovered handles.
    pub open spec fn wf(self) -> bool {
        &&& self.block_ios@.len() == self.block_handles@.len()
        &&& self.path_texts@.len() == self.block_handles@.len()
    }
}

/// How a full pass ended.
pub enum Outcome {
    /// Every discovered device was classified and reported.
    Success,
    /// A fatal condition ended the run with this diagnostic.
    Fatal {
        /// The diagnostic naming what failed.
        message: String,
    },
}

/// Runs the state machine to completion against a synthetic environment,
/// returning the classification lines in discovery order and the way the
/// pass ended.
///
/// With exactly one text-conversion provider the pass succeeds and emits
/// one line per block storage handle, in discovery order, each classified
/// strictly by that handle's removable-media flag.  With any other
/// provider count the pass aborts before touching a single block storage
/// handle and emits nothing.
pub fn enumerate(env: &SynthEnv) -> (r: (Vec<String>, Outcome))
    requires
        env.wf(),
    ensures
        env.text_handles@.len() == 1 ==> {
            &&& r.1 is Success
            &&& r.0@.len() == env.block_handles@.len()
            &&& forall|i: int|
                0 <= i < r.0@.len() ==> r.0@[i]@ == spec_classification_line(
                    env.block_ios@[i].media.removable_media,
                    env.path_texts@[i]@,
                )
        },
        env.text_handles@.len() != 1 ==> {
            &&& r.1 matches Outcome::Fatal { message }
            &&& message@ == spec_provider_count_message()
            &&& r.0@.len() == 0
        },
{
    let mut m = Enumerator::new();
    let _ = m.step(Event::Start);
    let text_handles = copy_handles(&env.text_handles);
    let a_text = m.step(Event::FoundHandles { handles: text_handles });
    if let Action::Abort { message } = a_text {
        return (Vec::new(), Outcome::Fatal { message });
    }
    let _ = m.step(Event::BoundText);
    let block_handles = copy_handles(&env.block_handles);
    let _ = m.step(Event::FoundHandles { handles: block_handles });
    let n: usize = env.block_handles.len();
    let mut i: usize = 0;
    while i < n
        invariant
            env.wf(),
            n == env.block_handles@.len(),
            i <= n,
            m.block_handles@ == env.block_handles@,
            m.idx == i,
            m.output@.len() == i,
            forall|j: int|
                0 <= j < i ==> m.output@[j]@ == spec_classification_line(
                    env.block_ios@[j].media.removable_media,
                    env.path_texts@[j]@,
                ),
            if i < n {
                m.phase is BindingBlockIo
            } else {
                m.phase is Done
            },
            m.wf(),
        decreases n - i,
    {
        let block_io = env.block_ios[i];
        let _ = m.step(Event::BoundBlockIo { block_io });
        let _ = m.step(Event::BoundDevicePath);
        let units = copy_units(&env.path_texts[i]);
        let _ = m.step(Event::Converted { units });
        let _ = m.step(Event::Emitted);
        i = i + 1;
    }
    (m.output, Outcome::Success)
}

/// Copies a handle list, so that a synthetic discovery can hand the
/// machine a vector of its own while the environment keeps its copy.
fn copy_handles(v: &Vec<Handle>) -> (r: Vec<Handle>)
    ensures
        r@ == v@,
{
    let mut r: Vec<Handle> = Vec::new();
    let mut i: usize = 0;
    while i < v.len()
        invariant
            i <= v@.len(),
            r@ == v@.take(i as int),
        decreases v@.len() - i,
    {
        r.push(v[i]);
        proof {
            assert(v@.take(i + 1) =~= v@.take(i as int).push(v@[i as int]));
        }
        i = i + 1;
    }
    proof {
        assert(v@.take(v@.len() as int) =~= v@);
    }
    r
}

/// Copies a code-unit list, so that a synthetic conversion can hand the
/// machine a vector of its own while the environment keeps its copy.
fn copy_units(v: &Vec<u16>) -> (r: Vec<u16>)
    ensures
        r@ == v@,
{
    let mut r: Vec<u16> = Vec::new();
    let mut i: usize = 0;
    while i < v.len()
        invariant
            i <= v@.len(),
            r@ == v@.take(i as int),
        decreases v@.len() - i,
    {
        r.push(v[i]);
        proof {
            assert(v@.take(i + 1) =~= v@.take(i as int).push(v@[i as int]));
        }
        i = i + 1;
    }
    proof {
        assert(v@.take(v@.len() as int) =~= v@);
    }
    r
}

} // verus!
