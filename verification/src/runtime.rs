//! One staged WPE runtime: where it lies, whether it is the right one, and how
//! starting it turned out.
//!
//! The host looks at the file system and the bridge; what it finds is judged
//! here.

use std::path::{Path, PathBuf};

use vstd::prelude::*;
use vstd::string::StringExecFns;

use crate::abi::ABI_VERSION;
use crate::outside::{join_path, owned_path, path_join, path_parent, quoted, quoted_text};
use crate::text::{append_decimal, decimal, decimal_text, unequal, unequal_text};

verus! {

/// Exact WPE `WebKit` line used by the bundled runtime.
pub const WPE_WEBKIT_VERSION: &'static str = "2.52.5";

/// Resolved locations inside one staged WPE runtime.
#[derive(Debug, PartialEq, Eq)]
pub struct WpeRuntimePaths {
    root: PathBuf,
}

impl Clone for WpeRuntimePaths {
    fn clone(&self) -> (copy: Self)
        ensures
            copy@ == self@,
    {
        WpeRuntimePaths { root: self.root.clone() }
    }
}

impl View for WpeRuntimePaths {
    type V = PathBuf;

    closed spec fn view(&self) -> PathBuf {
        self.root
    }
}

impl WpeRuntimePaths {
    /// Creates paths for an explicitly staged WPE runtime root.
    #[must_use]
    pub fn new<R: Into<PathBuf>>(root: R) -> (paths: Self)
        ensures
            call_ensures(R::into, (root,), paths@),
    {
        WpeRuntimePaths { root: root.into() }
    }

    /// Resolves the runtime staged next to `executable` by `water`; `None` for an
    /// executable path without a parent directory.
    #[must_use]
    pub fn packaged_beside(executable: &Path) -> (paths: Option<Self>)
        ensures
            match (path_parent(owned_path(executable)), paths) {
                (Some(directory), Some(paths)) => paths@ == path_join(
                    directory,
                    "waterui-browser/wpe"@,
                ),
                (None, None) => true,
                _ => false,
            },
    {
        match executable.parent() {
            Some(directory) => Some(Self::new(join_path(directory, "waterui-browser/wpe"))),
            None => None,
        }
    }

    /// Returns the runtime root.
    #[must_use]
    pub fn root(&self) -> (root: &Path)
        ensures
            owned_path(root) == self@,
    {
        self.root.as_path()
    }

    /// The bridge library.
    #[must_use]
    pub fn bridge(&self) -> (path: PathBuf)
        ensures
            path == path_join(self@, "lib/libwaterui_wpe.so"@),
    {
        join_path(self.root.as_path(), "lib/libwaterui_wpe.so")
    }

    /// The manifest that says what was staged.
    #[must_use]
    pub fn manifest(&self) -> (path: PathBuf)
        ensures
            path == path_join(self@, "runtime.json"@),
    {
        join_path(self.root.as_path(), "runtime.json")
    }

    /// The directory of the licenses.
    #[must_use]
    pub fn licenses(&self) -> (path: PathBuf)
        ensures
            path == path_join(self@, "licenses"@),
    {
        join_path(self.root.as_path(), "licenses")
    }
}

/// What a runtime manifest says was staged.
#[derive(Debug, PartialEq, Eq)]
pub struct RuntimeIdentity {
    /// The engine.
    pub engine: String,
    /// The version of the engine.
    pub version: String,
    /// The platform it was built for.
    pub platform: String,
    /// The architecture it was built for.
    pub architecture: String,
}

/// Whether an owned text says the same as another.
fn same_text(left: &String, right: &str) -> (same: bool)
    ensures
        same == (left@ == right@),
{
    *left == String::from_str(right)
}

/// A host tool that the sandbox of the engine runs.
#[derive(Debug, Clone, Copy, PartialEq, Eq, Structural)]
pub enum SandboxTool {
    /// `bwrap`.
    Bubblewrap,
    /// `xdg-dbus-proxy`.
    DbusProxy,
}

impl SandboxTool {
    /// Where the tool has to be.
    pub open spec fn spec_path(self) -> Seq<char> {
        match self {
            SandboxTool::Bubblewrap => "/usr/bin/bwrap"@,
            SandboxTool::DbusProxy => "/usr/bin/xdg-dbus-proxy"@,
        }
    }

    /// The package that brings the tool.
    pub open spec fn spec_package(self) -> Seq<char> {
        match self {
            SandboxTool::Bubblewrap => "bubblewrap >= 0.3.1"@,
            SandboxTool::DbusProxy => "xdg-dbus-proxy"@,
        }
    }

    /// Where the tool has to be.
    #[must_use]
    pub fn path(self) -> (path: &'static str)
        ensures
            path@ == self.spec_path(),
    {
        match self {
            SandboxTool::Bubblewrap => "/usr/bin/bwrap",
            SandboxTool::DbusProxy => "/usr/bin/xdg-dbus-proxy",
        }
    }

    /// The package that brings the tool.
    #[must_use]
    pub fn package(self) -> (package: &'static str)
        ensures
            package@ == self.spec_package(),
    {
        match self {
            SandboxTool::Bubblewrap => "bubblewrap >= 0.3.1",
            SandboxTool::DbusProxy => "xdg-dbus-proxy",
        }
    }
}

/// One thing to look at in a staged runtime.
#[derive(Debug, Clone, Copy, PartialEq, Eq, Structural)]
pub enum Probe {
    /// Whether [`WpeRuntimePaths::bridge`] is a file.
    Bridge,
    /// Whether [`WpeRuntimePaths::manifest`] is a file.
    Manifest,
    /// What the manifest says.
    Identity,
    /// Whether [`WpeRuntimePaths::licenses`] is a directory.
    Licenses,
    /// Whether a tool of the sandbox is a file.
    Tool(SandboxTool),
}

/// What became of reading a manifest.
#[derive(Debug, PartialEq, Eq)]
pub enum ManifestContents {
    /// It could not be read.
    Unreadable,
    /// It is not a manifest.
    Invalid,
    /// It says this.
    Identity(RuntimeIdentity),
}

/// What looking at a staged runtime showed.
#[derive(Debug, PartialEq, Eq)]
pub enum ProbeAnswer {
    /// Whether the file or directory is there.
    Found(bool),
    /// What the manifest holds.
    Manifest(ManifestContents),
}

/// What a manifest says and what it had to say.
#[derive(Debug, PartialEq, Eq)]
pub struct Mismatch<Text> {
    /// What the manifest says.
    pub found: Text,
    /// What it had to say.
    pub expected: Text,
}

/// What is wrong with a staged runtime, with the texts it quotes held as `Text`.
#[derive(Debug, PartialEq, Eq)]
pub enum RuntimeFault<Text> {
    /// There is no bridge library.
    MissingBridge,
    /// There is no manifest.
    MissingManifest,
    /// The manifest could not be read.
    UnreadableManifest,
    /// The manifest is none.
    InvalidManifest,
    /// The runtime is not WPE.
    EngineMismatch(Mismatch<Text>),
    /// The runtime is another version of WPE.
    VersionMismatch(Mismatch<Text>),
    /// The runtime is for another platform.
    PlatformMismatch(Mismatch<Text>),
    /// The runtime is for another architecture.
    ArchitectureMismatch(Mismatch<Text>),
    /// There are no licenses.
    MissingLicenses,
    /// The host lacks a tool of the sandbox.
    MissingTool(SandboxTool),
    /// The bridge speaks another version of the interface.
    AbiMismatch {
        /// The version that it speaks.
        version: u32,
    },
}

impl View for Mismatch<String> {
    type V = Mismatch<Seq<char>>;

    open spec fn view(&self) -> Mismatch<Seq<char>> {
        Mismatch { found: self.found@, expected: self.expected@ }
    }
}

impl Mismatch<Seq<char>> {
    /// What the mismatch says to a reader, under `message`.
    pub open spec fn spec_message(self, message: Seq<char>) -> Seq<char> {
        unequal(message, quoted(self.found), quoted(self.expected))
    }
}

impl Mismatch<String> {
    /// What a manifest says, and what it had to say.
    fn new(found: &String, expected: &str) -> (mismatch: Self)
        ensures
            mismatch@ == (Mismatch { found: found@, expected: expected@ }),
    {
        Mismatch { found: found.clone(), expected: String::from_str(expected) }
    }

    /// The mismatch in words, under `message`.
    fn message(&self, message: &str) -> (text: String)
        ensures
            text@ == self@.spec_message(message@),
    {
        let found = quoted_text(self.found.as_str());
        let expected = quoted_text(self.expected.as_str());
        unequal_text(message, found.as_str(), expected.as_str())
    }
}

impl View for RuntimeFault<String> {
    type V = RuntimeFault<Seq<char>>;

    open spec fn view(&self) -> RuntimeFault<Seq<char>> {
        match *self {
            RuntimeFault::MissingBridge => RuntimeFault::MissingBridge,
            RuntimeFault::MissingManifest => RuntimeFault::MissingManifest,
            RuntimeFault::UnreadableManifest => RuntimeFault::UnreadableManifest,
            RuntimeFault::InvalidManifest => RuntimeFault::InvalidManifest,
            RuntimeFault::EngineMismatch(values) => RuntimeFault::EngineMismatch(values@),
            RuntimeFault::VersionMismatch(values) => RuntimeFault::VersionMismatch(values@),
            RuntimeFault::PlatformMismatch(values) => RuntimeFault::PlatformMismatch(values@),
            RuntimeFault::ArchitectureMismatch(values) => RuntimeFault::ArchitectureMismatch(
                values@,
            ),
            RuntimeFault::MissingLicenses => RuntimeFault::MissingLicenses,
            RuntimeFault::MissingTool(tool) => RuntimeFault::MissingTool(tool),
            RuntimeFault::AbiMismatch { version } => RuntimeFault::AbiMismatch { version },
        }
    }
}

/// A fault, if there is one, with its texts taken by what they say.
pub open spec fn fault_view(fault: Option<RuntimeFault<String>>) -> Option<
    RuntimeFault<Seq<char>>,
> {
    match fault {
        Some(fault) => Some(fault@),
        None => None,
    }
}

impl RuntimeFault<Seq<char>> {
    /// What the fault says to a reader, where `path` is the location looked at
    /// and `error` what the host said about it.
    pub open spec fn spec_message(self, path: Seq<char>, error: Seq<char>) -> Seq<char> {
        match self {
            RuntimeFault::MissingBridge => "bundled WPE bridge is missing at "@ + path
                + ". Package or run the app through `water` so WPE WebKit "@ + WPE_WEBKIT_VERSION@
                + " is staged"@,
            RuntimeFault::MissingManifest => "bundled WPE runtime manifest is missing at "@ + path,
            RuntimeFault::UnreadableManifest => "failed to read bundled WPE runtime manifest "@
                + path + ": "@ + error,
            RuntimeFault::InvalidManifest => "invalid bundled WPE runtime manifest "@ + path
                + ": "@ + error,
            RuntimeFault::EngineMismatch(values) => values.spec_message(
                "bundled runtime engine mismatch"@,
            ),
            RuntimeFault::VersionMismatch(values) => values.spec_message(
                "bundled WPE WebKit version mismatch"@,
            ),
            RuntimeFault::PlatformMismatch(values) => values.spec_message(
                "bundled WPE platform mismatch"@,
            ),
            RuntimeFault::ArchitectureMismatch(values) => values.spec_message(
                "bundled WPE architecture mismatch"@,
            ),
            RuntimeFault::MissingLicenses => "bundled WPE license directory is missing at "@ + path,
            RuntimeFault::MissingTool(tool) => "bundled WPE sandbox requires "@
                + tool.spec_package() + " at "@ + tool.spec_path(),
            RuntimeFault::AbiMismatch { version } => unequal(
                "bundled WPE bridge ABI mismatch: runtime="@ + decimal(version as nat)
                    + ", WaterUI="@ + decimal(ABI_VERSION as nat),
                decimal(version as nat),
                decimal(ABI_VERSION as nat),
            ),
        }
    }
}

impl RuntimeFault<String> {
    /// The fault in words, where `path` is the location looked at and `error` what
    /// the host said about it.
    #[must_use]
    pub fn message(&self, path: &str, error: &str) -> (text: String)
        ensures
            text@ == self@.spec_message(path@, error@),
    {
        match self {
            RuntimeFault::MissingBridge => {
                let mut text = String::from_str("bundled WPE bridge is missing at ");
                text.append(path);
                text.append(". Package or run the app through `water` so WPE WebKit ");
                text.append(WPE_WEBKIT_VERSION);
                text.append(" is staged");
                text
            },
            RuntimeFault::MissingManifest => {
                let mut text = String::from_str("bundled WPE runtime manifest is missing at ");
                text.append(path);
                text
            },
            RuntimeFault::UnreadableManifest => {
                let mut text = String::from_str("failed to read bundled WPE runtime manifest ");
                text.append(path);
                text.append(": ");
                text.append(error);
                text
            },
            RuntimeFault::InvalidManifest => {
                let mut text = String::from_str("invalid bundled WPE runtime manifest ");
                text.append(path);
                text.append(": ");
                text.append(error);
                text
            },
            RuntimeFault::EngineMismatch(values) => values.message(
                "bundled runtime engine mismatch",
            ),
            RuntimeFault::VersionMismatch(values) => values.message(
                "bundled WPE WebKit version mismatch",
            ),
            RuntimeFault::PlatformMismatch(values) => values.message(
                "bundled WPE platform mismatch",
            ),
            RuntimeFault::ArchitectureMismatch(values) => values.message(
                "bundled WPE architecture mismatch",
            ),
            RuntimeFault::MissingLicenses => {
                let mut text = String::from_str("bundled WPE license directory is missing at ");
                text.append(path);
                text
            },
            RuntimeFault::MissingTool(tool) => {
                let mut text = String::from_str("bundled WPE sandbox requires ");
                text.append(tool.package());
                text.append(" at ");
                text.append(tool.path());
                text
            },
            RuntimeFault::AbiMismatch { version } => {
                let mut text = String::from_str("bundled WPE bridge ABI mismatch: runtime=");
                append_decimal(&mut text, *version as u64);
                text.append(", WaterUI=");
                append_decimal(&mut text, ABI_VERSION as u64);
                unequal_text(
                    text.as_str(),
                    decimal_text(*version as u64).as_str(),
                    decimal_text(ABI_VERSION as u64).as_str(),
                )
            },
        }
    }
}

/// The first thing in a manifest that is not what this library and this host
/// need.
pub open spec fn identity_fault(
    identity: RuntimeIdentity,
    os: Seq<char>,
    architecture: Seq<char>,
) -> Option<RuntimeFault<Seq<char>>> {
    if identity.engine@ != "wpe"@ {
        Some(
            RuntimeFault::EngineMismatch(
                Mismatch { found: identity.engine@, expected: "wpe"@ },
            ),
        )
    } else if identity.version@ != WPE_WEBKIT_VERSION@ {
        Some(
            RuntimeFault::VersionMismatch(
                Mismatch { found: identity.version@, expected: WPE_WEBKIT_VERSION@ },
            ),
        )
    } else if identity.platform@ != os {
        Some(
            RuntimeFault::PlatformMismatch(
                Mismatch { found: identity.platform@, expected: os },
            ),
        )
    } else if identity.architecture@ != architecture {
        Some(
            RuntimeFault::ArchitectureMismatch(
                Mismatch { found: identity.architecture@, expected: architecture },
            ),
        )
    } else {
        None
    }
}

/// Whether an answer is one to this probe.
pub open spec fn answers_probe(probe: Probe, answer: ProbeAnswer) -> bool {
    match probe {
        Probe::Identity => answer is Manifest,
        _ => answer is Found,
    }
}

/// What an answer to a probe shows to be wrong.
pub open spec fn probe_fault(
    probe: Probe,
    answer: ProbeAnswer,
    os: Seq<char>,
    architecture: Seq<char>,
) -> Option<RuntimeFault<Seq<char>>> {
    match answer {
        ProbeAnswer::Manifest(ManifestContents::Unreadable) => Some(
            RuntimeFault::UnreadableManifest,
        ),
        ProbeAnswer::Manifest(ManifestContents::Invalid) => Some(RuntimeFault::InvalidManifest),
        ProbeAnswer::Manifest(ManifestContents::Identity(identity)) => identity_fault(
            identity,
            os,
            architecture,
        ),
        ProbeAnswer::Found(true) => None,
        ProbeAnswer::Found(false) => match probe {
            Probe::Bridge => Some(RuntimeFault::MissingBridge),
            Probe::Manifest | Probe::Identity => Some(RuntimeFault::MissingManifest),
            Probe::Licenses => Some(RuntimeFault::MissingLicenses),
            Probe::Tool(tool) => Some(RuntimeFault::MissingTool(tool)),
        },
    }
}

/// The probe after this one.
pub open spec fn next_probe(probe: Probe) -> Option<Probe> {
    match probe {
        Probe::Bridge => Some(Probe::Manifest),
        Probe::Manifest => Some(Probe::Identity),
        Probe::Identity => Some(Probe::Licenses),
        Probe::Licenses => Some(Probe::Tool(SandboxTool::Bubblewrap)),
        Probe::Tool(SandboxTool::Bubblewrap) => Some(Probe::Tool(SandboxTool::DbusProxy)),
        Probe::Tool(SandboxTool::DbusProxy) => None,
    }
}

/// What follows from an answer to a probe.
#[derive(Debug, PartialEq, Eq)]
pub enum ValidationStep<Text> {
    /// Look at this next.
    Ask(Probe),
    /// The runtime is the right one.
    Valid,
    /// The runtime is refused.
    Refused(RuntimeFault<Text>),
}

impl View for ValidationStep<String> {
    type V = ValidationStep<Seq<char>>;

    open spec fn view(&self) -> ValidationStep<Seq<char>> {
        match *self {
            ValidationStep::Ask(probe) => ValidationStep::Ask(probe),
            ValidationStep::Valid => ValidationStep::Valid,
            ValidationStep::Refused(fault) => ValidationStep::Refused(fault@),
        }
    }
}

/// What follows from an answer to a probe: a refusal where it shows a fault, else
/// the next probe, until there is none.
pub open spec fn validation_step(
    probe: Probe,
    answer: ProbeAnswer,
    os: Seq<char>,
    architecture: Seq<char>,
) -> ValidationStep<Seq<char>> {
    match (probe_fault(probe, answer, os, architecture), next_probe(probe)) {
        (Some(fault), _) => ValidationStep::Refused(fault),
        (None, Some(next)) => ValidationStep::Ask(next),
        (None, None) => ValidationStep::Valid,
    }
}

impl RuntimeIdentity {
    /// The first thing in the manifest that is not what this library and this
    /// host need.
    #[must_use]
    pub fn check(&self, os: &str, architecture: &str) -> (fault: Option<RuntimeFault<String>>)
        ensures
            fault_view(fault) == identity_fault(*self, os@, architecture@),
    {
        if !same_text(&self.engine, "wpe") {
            Some(RuntimeFault::EngineMismatch(Mismatch::new(&self.engine, "wpe")))
        } else if !same_text(&self.version, WPE_WEBKIT_VERSION) {
            Some(RuntimeFault::VersionMismatch(Mismatch::new(&self.version, WPE_WEBKIT_VERSION)))
        } else if !same_text(&self.platform, os) {
            Some(RuntimeFault::PlatformMismatch(Mismatch::new(&self.platform, os)))
        } else if !same_text(&self.architecture, architecture) {
            Some(
                RuntimeFault::ArchitectureMismatch(
                    Mismatch::new(&self.architecture, architecture),
                ),
            )
        } else {
            None
        }
    }
}

impl Probe {
    /// The first thing to look at.
    #[must_use]
    pub fn first() -> (probe: Self)
        ensures
            probe == Probe::Bridge,
    {
        Probe::Bridge
    }

    /// What an answer to this probe shows to be wrong.
    fn fault(self, answer: &ProbeAnswer, os: &str, architecture: &str) -> (fault: Option<
        RuntimeFault<String>,
    >)
        ensures
            fault_view(fault) == probe_fault(self, *answer, os@, architecture@),
    {
        match answer {
            ProbeAnswer::Manifest(ManifestContents::Unreadable) => Some(
                RuntimeFault::UnreadableManifest,
            ),
            ProbeAnswer::Manifest(ManifestContents::Invalid) => Some(RuntimeFault::InvalidManifest),
            ProbeAnswer::Manifest(ManifestContents::Identity(identity)) => identity.check(
                os,
                architecture,
            ),
            ProbeAnswer::Found(found) => if *found {
                None
            } else {
                match self {
                    Probe::Bridge => Some(RuntimeFault::MissingBridge),
                    Probe::Manifest | Probe::Identity => Some(RuntimeFault::MissingManifest),
                    Probe::Licenses => Some(RuntimeFault::MissingLicenses),
                    Probe::Tool(tool) => Some(RuntimeFault::MissingTool(tool)),
                }
            },
        }
    }

    /// What follows from an answer to this probe, on a host of this platform and
    /// architecture.
    #[must_use]
    pub fn validate(self, answer: &ProbeAnswer, os: &str, architecture: &str) -> (step:
        ValidationStep<String>)
        requires
            answers_probe(self, *answer),
        ensures
            step@ == validation_step(self, *answer, os@, architecture@),
    {
        if let Some(fault) = self.fault(answer, os, architecture) {
            return ValidationStep::Refused(fault);
        }
        match self {
            Probe::Bridge => ValidationStep::Ask(Probe::Manifest),
            Probe::Manifest => ValidationStep::Ask(Probe::Identity),
            Probe::Identity => ValidationStep::Ask(Probe::Licenses),
            Probe::Licenses => ValidationStep::Ask(Probe::Tool(SandboxTool::Bubblewrap)),
            Probe::Tool(SandboxTool::Bubblewrap) => ValidationStep::Ask(
                Probe::Tool(SandboxTool::DbusProxy),
            ),
            Probe::Tool(SandboxTool::DbusProxy) => ValidationStep::Valid,
        }
    }
}

/// Everything that is looked at in a staged runtime, in order.
pub open spec fn probe_order() -> Seq<Probe> {
    seq![
        Probe::Bridge,
        Probe::Manifest,
        Probe::Identity,
        Probe::Licenses,
        Probe::Tool(SandboxTool::Bubblewrap),
        Probe::Tool(SandboxTool::DbusProxy),
    ]
}

/// Where a validation that stands at `probe` gets with these answers.
pub open spec fn validation_run(
    probe: Probe,
    answers: Seq<ProbeAnswer>,
    os: Seq<char>,
    architecture: Seq<char>,
) -> ValidationStep<Seq<char>>
    decreases answers.len(),
{
    if answers.len() == 0 {
        ValidationStep::Ask(probe)
    } else {
        match validation_step(probe, answers[0], os, architecture) {
            ValidationStep::Ask(next) => validation_run(
                next,
                answers.drop_first(),
                os,
                architecture,
            ),
            end => end,
        }
    }
}

/// The first of the answers from `at` on that shows a fault, with that fault.
pub open spec fn first_fault(
    answers: Seq<ProbeAnswer>,
    at: int,
    os: Seq<char>,
    architecture: Seq<char>,
) -> Option<RuntimeFault<Seq<char>>>
    decreases answers.len() - at,
{
    if at >= answers.len() {
        None
    } else {
        match probe_fault(probe_order()[at], answers[at], os, architecture) {
            Some(fault) => Some(fault),
            None => first_fault(answers, at + 1, os, architecture),
        }
    }
}

/// A validation asks everything in order: from the middle on.
proof fn lemma_validation_from(
    answers: Seq<ProbeAnswer>,
    at: int,
    os: Seq<char>,
    architecture: Seq<char>,
)
    requires
        answers.len() == probe_order().len(),
        0 <= at < answers.len(),
    ensures
        validation_run(probe_order()[at], answers.skip(at), os, architecture) == (
        match first_fault(answers, at, os, architecture) {
            Some(fault) => ValidationStep::Refused(fault),
            None => ValidationStep::Valid,
        }),
    decreases answers.len() - at,
{
    let rest = answers.skip(at);
    assert(rest[0] == answers[at]);
    if at + 1 < answers.len() {
        lemma_validation_from(answers, at + 1, os, architecture);
        assert(rest.drop_first() =~= answers.skip(at + 1));
        assert(next_probe(probe_order()[at]) == Some(probe_order()[at + 1]));
    } else {
        assert(next_probe(probe_order()[at]) is None);
        assert(first_fault(answers, at + 1, os, architecture) is None);
    }
}

/// A runtime is accepted exactly where every probe comes out well; else the fault
/// that is reported is the first in the order in which the runtime is looked at.
pub proof fn a_runtime_is_valid_exactly_where_every_probe_passes(
    answers: Seq<ProbeAnswer>,
    os: Seq<char>,
    architecture: Seq<char>,
)
    requires
        answers.len() == probe_order().len(),
    ensures
        validation_run(Probe::Bridge, answers, os, architecture) == (match first_fault(
            answers,
            0,
            os,
            architecture,
        ) {
            Some(fault) => ValidationStep::Refused(fault),
            None => ValidationStep::Valid,
        }),
        validation_run(Probe::Bridge, answers, os, architecture) is Valid <==> (
        forall|i: int|
            0 <= i < answers.len() ==> probe_fault(
                probe_order()[i],
                #[trigger] answers[i],
                os,
                architecture,
            ) is None),
{
    assert(answers.skip(0) =~= answers);
    lemma_validation_from(answers, 0, os, architecture);
    lemma_first_fault_is_none(answers, 0, os, architecture);
}

/// There is no first fault exactly where there is none.
proof fn lemma_first_fault_is_none(
    answers: Seq<ProbeAnswer>,
    at: int,
    os: Seq<char>,
    architecture: Seq<char>,
)
    requires
        0 <= at <= answers.len(),
    ensures
        first_fault(answers, at, os, architecture) is None <==> (forall|i: int|
            at <= i < answers.len() ==> probe_fault(
                probe_order()[i],
                #[trigger] answers[i],
                os,
                architecture,
            ) is None),
    decreases answers.len() - at,
{
    if at < answers.len() {
        lemma_first_fault_is_none(answers, at + 1, os, architecture);
        assert(probe_fault(probe_order()[at], answers[at], os, architecture) is None
            || first_fault(answers, at, os, architecture) is Some);
    }
}

/// Judges the interface version that a loaded bridge reports.
#[must_use]
pub fn check_abi_version(version: u32) -> (fault: Option<RuntimeFault<String>>)
    ensures
        match fault {
            Some(fault) => version != ABI_VERSION && fault == (RuntimeFault::<
                String,
            >::AbiMismatch { version }),
            None => version == ABI_VERSION,
        },
{
    if version == ABI_VERSION {
        None
    } else {
        Some(RuntimeFault::AbiMismatch { version })
    }
}

/// How starting the engine turned out.
#[derive(Debug, Clone, Copy, PartialEq, Eq, Structural)]
pub enum RuntimeStart {
    /// The engine runs.
    Running,
    /// The engine did not start and said why.
    Failed,
    /// The engine did not start and said nothing.
    FailedSilently,
    /// The engine runs and reports an error all the same.
    RunningWithError,
}

impl RuntimeStart {
    /// Judges what the bridge gave back: whether there is a runtime, and whether
    /// there is an error message.
    #[must_use]
    pub fn judge(has_runtime: bool, has_error: bool) -> (start: Self)
        ensures
            start == (match (has_runtime, has_error) {
                (true, false) => RuntimeStart::Running,
                (false, true) => RuntimeStart::Failed,
                (false, false) => RuntimeStart::FailedSilently,
                (true, true) => RuntimeStart::RunningWithError,
            }),
    {
        if has_runtime {
            if has_error {
                RuntimeStart::RunningWithError
            } else {
                RuntimeStart::Running
            }
        } else if has_error {
            RuntimeStart::Failed
        } else {
            RuntimeStart::FailedSilently
        }
    }

    /// What a failed start says to a reader, where `error` is the bridge's own
    /// message.
    pub open spec fn spec_message(self, error: Seq<char>) -> Seq<char> {
        match self {
            RuntimeStart::Running => ""@,
            RuntimeStart::Failed => "failed to initialize bundled WPE WebKit "@
                + WPE_WEBKIT_VERSION@ + ": "@ + error,
            RuntimeStart::FailedSilently => "WPE failed without an error message"@,
            RuntimeStart::RunningWithError =>
                "WPE runtime initialized while also returning an error"@,
        }
    }

    /// The outcome in words, where `error` is the bridge's own message; nothing is
    /// said of an engine that runs.
    #[must_use]
    pub fn message(self, error: &str) -> (text: String)
        ensures
            text@ == self.spec_message(error@),
    {
        match self {
            RuntimeStart::Running => String::from_str(""),
            RuntimeStart::Failed => {
                let mut text = String::from_str("failed to initialize bundled WPE WebKit ");
                text.append(WPE_WEBKIT_VERSION);
                text.append(": ");
                text.append(error);
                text
            },
            RuntimeStart::FailedSilently => String::from_str("WPE failed without an error message"),
            RuntimeStart::RunningWithError => String::from_str(
                "WPE runtime initialized while also returning an error",
            ),
        }
    }
}

} // verus!
