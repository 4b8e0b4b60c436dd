//! The staged runtime, and what the messages say.

use std::path::{Path, PathBuf};

use vstd::prelude::*;

use crate::abi::{ABI_VERSION, FrameFault};
use crate::frame::ShmFrameFault;
use crate::outside::{owned_path, path_join, path_parent, quoted};
use crate::runtime::{
    ManifestContents, Probe, ProbeAnswer, RuntimeFault, RuntimeIdentity, RuntimeStart,
    SandboxTool, ValidationStep, WpeRuntimePaths, check_abi_version,
};
use crate::text::{decimal, hexadecimal};

verus! {

/// The number that a character stands for as a digit.
pub open spec fn digit_value(digit: char) -> int {
    if '0' <= digit <= '9' {
        digit as int - '0' as int
    } else {
        digit as int - 'a' as int + 10
    }
}

/// The number that a numeral stands for.
pub open spec fn numeral_value(numeral: Seq<char>, base: int) -> int
    decreases numeral.len(),
{
    if numeral.len() == 0 {
        0
    } else {
        base * numeral_value(numeral.drop_last(), base) + digit_value(numeral.last())
    }
}

/// Sixteen to the power of `exponent`.
pub open spec fn power_of_sixteen(exponent: nat) -> int
    decreases exponent,
{
    if exponent == 0 {
        1
    } else {
        16 * power_of_sixteen((exponent - 1) as nat)
    }
}

/// A decimal numeral is made of decimal digits, starts with a zero for zero alone,
/// and reads back as the number it was made of.
pub proof fn a_decimal_numeral_reads_back(value: nat)
    ensures
        decimal(value).len() > 0,
        forall|i: int| 0 <= i < decimal(value).len() ==> '0' <= #[trigger] decimal(value)[i] <= '9',
        decimal(value)[0] == '0' ==> value == 0,
        numeral_value(decimal(value), 10) == value,
    decreases value,
{
    reveal_with_fuel(numeral_value, 2);
    if value >= 10 {
        let numeral = decimal(value);
        let front = decimal(value / 10);
        a_decimal_numeral_reads_back(value / 10);
        assert(numeral.drop_last() =~= front);
        assert(numeral[0] == front[0]);
        assert forall|i: int| 0 <= i < numeral.len() implies '0' <= #[trigger] numeral[i]
            <= '9' by {
            if i < front.len() {
                assert(numeral[i] == front[i]);
            }
        }
    } else {
        assert(decimal(value).drop_last().len() == 0);
    }
}

/// A hexadecimal numeral has the width asked for, is made of hexadecimal digits in
/// lower case, and reads back as the number it was made of, where that fits.
pub proof fn a_hexadecimal_numeral_reads_back(value: nat, width: nat)
    requires
        value < power_of_sixteen(width),
    ensures
        hexadecimal(value, width).len() == width,
        forall|i: int|
            0 <= i < width ==> {
                let digit = #[trigger] hexadecimal(value, width)[i];
                '0' <= digit <= '9' || 'a' <= digit <= 'f'
            },
        numeral_value(hexadecimal(value, width), 16) == value,
    decreases width,
{
    if width > 0 {
        let numeral = hexadecimal(value, width);
        let front = hexadecimal(value / 16, (width - 1) as nat);
        a_hexadecimal_numeral_reads_back(value / 16, (width - 1) as nat);
        assert(numeral.drop_last() =~= front);
        assert forall|i: int| 0 <= i < width implies ({
            let digit = #[trigger] numeral[i];
            '0' <= digit <= '9' || 'a' <= digit <= 'f'
        }) by {
            if i < front.len() {
                assert(numeral[i] == front[i]);
            }
        }
    }
}

/// A comparison that failed says so, and names both values, the left one first.
pub open spec fn names_both(
    text: Seq<char>,
    message: Seq<char>,
    left: Seq<char>,
    right: Seq<char>,
) -> bool {
    text == "assertion `left == right` failed: "@ + message + "\n  left: "@ + left + "\n right: "@
        + right
}

/// What is wrong with a frame record, in words.
pub proof fn a_frame_fault_says_what_is_wrong(fault: FrameFault, text: String)
    requires
        call_ensures(FrameFault::message, (fault,), text),
    ensures
        match fault {
            FrameFault::ZeroSized => text@ == "WPE returned a zero-sized frame"@,
            FrameFault::UnknownKind(kind) => text@ == "bundled WPE returned unknown frame kind "@
                + decimal(kind as nat),
            FrameFault::NonLinearModifier(modifier) => names_both(
                text@,
                "bundled WPE must negotiate DRM_FORMAT_MOD_LINEAR"@,
                decimal(modifier as nat),
                decimal(0),
            ),
            FrameFault::PlaneCount(count) => text@ == "WPE returned invalid DMA-BUF plane count "@
                + decimal(count as nat),
            FrameFault::NotOnePlane(count) => names_both(
                text@,
                "WaterUI's WPE output contract requires one packed 32-bit plane"@,
                decimal(count as nat),
                decimal(1),
            ),
            FrameFault::InvalidPlaneDescriptor => text@ == "WPE DMA-BUF plane fd is invalid"@,
            FrameFault::UnsupportedFourcc(value) => text@ == "unsupported DMA-BUF DRM fourcc 0x"@
                + hexadecimal(value as nat, 8),
            FrameFault::UnsupportedPixelFormat(value) => text@
                == "unsupported WPE shared-memory pixel format "@ + decimal(value as nat)
                + "; the bridge carries WPE_PIXEL_FORMAT_ARGB8888"@,
            FrameFault::Shm(_) => true,
        },
{
}

/// A shared-memory fault of a record is told as the fault of the frame is.
pub proof fn a_record_tells_the_fault_of_its_frame(
    fault: ShmFrameFault,
    text: String,
    record_text: String,
)
    requires
        call_ensures(ShmFrameFault::message, (fault,), text),
        call_ensures(FrameFault::message, (FrameFault::Shm(fault),), record_text),
    ensures
        text@ == record_text@,
{
}

/// What is wrong with a shared-memory frame, in words.
pub proof fn a_shared_memory_fault_says_what_is_wrong(fault: ShmFrameFault, text: String)
    requires
        call_ensures(ShmFrameFault::message, (fault,), text),
    ensures
        match fault {
            ShmFrameFault::ZeroSized => text@ == "shared-memory frame must not be zero-sized"@,
            ShmFrameFault::NoPixels => text@ == "shared-memory frame carries no pixels"@,
            ShmFrameFault::RowOverflow => text@ == "shared-memory row length exceeds u32"@,
            ShmFrameFault::ShortStride { stride, width } => text@ == "shared-memory stride "@
                + decimal(stride as nat) + " is shorter than a row of "@ + decimal(width as nat)
                + " pixels"@,
            ShmFrameFault::MappingOverflow => text@ == "shared-memory mapping exceeds usize"@,
            ShmFrameFault::ShortMapping { len, height, stride } => text@
                == "shared-memory frame holds "@ + decimal(len as nat) + " bytes for "@ + decimal(
                height as nat,
            ) + " rows of "@ + decimal(stride as nat),
        },
{
}

/// Everything of a runtime lies under its root, at its own place.
pub proof fn the_parts_of_a_runtime_lie_under_its_root(
    paths: WpeRuntimePaths,
    root: &Path,
    bridge: PathBuf,
    manifest: PathBuf,
    licenses: PathBuf,
)
    requires
        call_ensures(WpeRuntimePaths::root, (&paths,), root),
        call_ensures(WpeRuntimePaths::bridge, (&paths,), bridge),
        call_ensures(WpeRuntimePaths::manifest, (&paths,), manifest),
        call_ensures(WpeRuntimePaths::licenses, (&paths,), licenses),
    ensures
        bridge == path_join(owned_path(root), "lib/libwaterui_wpe.so"@),
        manifest == path_join(owned_path(root), "runtime.json"@),
        licenses == path_join(owned_path(root), "licenses"@),
{
}

/// The root of a runtime is what it was made with.
pub proof fn a_runtime_lies_where_it_was_staged(given: PathBuf, paths: WpeRuntimePaths, root: &Path)
    requires
        call_ensures(WpeRuntimePaths::new::<PathBuf>, (given,), paths),
        call_ensures(WpeRuntimePaths::root, (&paths,), root),
    ensures
        owned_path(root) == given,
{
}

/// A copy of the paths has the same root.
pub proof fn a_copy_lies_at_the_same_root(
    paths: WpeRuntimePaths,
    copy: WpeRuntimePaths,
    root: &Path,
    copied_root: &Path,
)
    requires
        call_ensures(<WpeRuntimePaths as Clone>::clone, (&paths,), copy),
        call_ensures(WpeRuntimePaths::root, (&paths,), root),
        call_ensures(WpeRuntimePaths::root, (&copy,), copied_root),
    ensures
        owned_path(root) == owned_path(copied_root),
{
}

/// A packaged runtime lies in the directory of the executable, wherever that is, and
/// there is none exactly where the executable has no directory.
pub proof fn a_packaged_runtime_lies_beside_the_executable(
    executable: &Path,
    paths: Option<WpeRuntimePaths>,
    root: &Path,
)
    requires
        call_ensures(WpeRuntimePaths::packaged_beside, (executable,), paths),
        paths matches Some(paths) ==> call_ensures(WpeRuntimePaths::root, (&paths,), root),
    ensures
        paths is Some <==> path_parent(owned_path(executable)) is Some,
        path_parent(owned_path(executable)) matches Some(directory) ==> owned_path(root)
            == path_join(directory, "waterui-browser/wpe"@),
{
}

/// On every host, a manifest is the right one exactly where it is of WPE, of this
/// version, of the host's platform and of the host's architecture.
pub proof fn a_manifest_fits_its_host_exactly_where_all_four_agree(
    identity: RuntimeIdentity,
    os: &str,
    architecture: &str,
    fault: Option<RuntimeFault<String>>,
)
    requires
        call_ensures(RuntimeIdentity::check, (&identity, os, architecture), fault),
    ensures
        fault is None <==> {
            &&& identity.engine@ == "wpe"@
            &&& identity.version@ == "2.52.5"@
            &&& identity.platform@ == os@
            &&& identity.architecture@ == architecture@
        },
{
}

/// A manifest that does not fit is refused for the first of the four that does not
/// agree, and the fault names what it says and what it had to say.
pub proof fn a_manifest_is_refused_for_its_first_mismatch(
    identity: RuntimeIdentity,
    os: &str,
    architecture: &str,
    fault: RuntimeFault<String>,
)
    requires
        call_ensures(RuntimeIdentity::check, (&identity, os, architecture), Some(fault)),
    ensures
        match fault {
            RuntimeFault::EngineMismatch(values) => {
                &&& values.found@ == identity.engine@
                &&& values.expected@ == "wpe"@
                &&& identity.engine@ != "wpe"@
            },
            RuntimeFault::VersionMismatch(values) => {
                &&& values.found@ == identity.version@
                &&& values.expected@ == "2.52.5"@
                &&& identity.version@ != "2.52.5"@
                &&& identity.engine@ == "wpe"@
            },
            RuntimeFault::PlatformMismatch(values) => {
                &&& values.found@ == identity.platform@
                &&& values.expected@ == os@
                &&& identity.platform@ != os@
                &&& identity.engine@ == "wpe"@
                &&& identity.version@ == "2.52.5"@
            },
            RuntimeFault::ArchitectureMismatch(values) => {
                &&& values.found@ == identity.architecture@
                &&& values.expected@ == architecture@
                &&& identity.architecture@ != architecture@
                &&& identity.engine@ == "wpe"@
                &&& identity.version@ == "2.52.5"@
                &&& identity.platform@ == os@
            },
            _ => false,
        },
{
}

/// A file or directory that is there leads on to the next thing to look at, and the
/// last one makes the runtime valid: the bridge, the manifest, what it says, the
/// licenses, and the two tools of the sandbox.
pub proof fn what_is_there_leads_on(
    probe: Probe,
    os: &str,
    architecture: &str,
    first: Probe,
    step: ValidationStep<String>,
)
    requires
        call_ensures(Probe::first, (), first),
        call_ensures(
            Probe::validate,
            (probe, &ProbeAnswer::Found(true), os, architecture),
            step,
        ),
    ensures
        first == Probe::Bridge,
        probe == Probe::Bridge ==> step == ValidationStep::<String>::Ask(Probe::Manifest),
        probe == Probe::Manifest ==> step == ValidationStep::<String>::Ask(Probe::Identity),
        probe == Probe::Licenses ==> step == ValidationStep::<String>::Ask(
            Probe::Tool(SandboxTool::Bubblewrap),
        ),
        probe == Probe::Tool(SandboxTool::Bubblewrap) ==> step == ValidationStep::<String>::Ask(
            Probe::Tool(SandboxTool::DbusProxy),
        ),
        probe == Probe::Tool(SandboxTool::DbusProxy) ==> step is Valid,
{
}

/// A file or directory that is missing refuses the runtime, for just that.
pub proof fn what_is_missing_refuses_the_runtime(
    probe: Probe,
    os: &str,
    architecture: &str,
    step: ValidationStep<String>,
)
    requires
        call_ensures(
            Probe::validate,
            (probe, &ProbeAnswer::Found(false), os, architecture),
            step,
        ),
    ensures
        step matches ValidationStep::Refused(fault) && match probe {
            Probe::Bridge => fault is MissingBridge,
            Probe::Manifest => fault is MissingManifest,
            Probe::Identity => fault is MissingManifest,
            Probe::Licenses => fault is MissingLicenses,
            Probe::Tool(tool) => fault == RuntimeFault::<String>::MissingTool(tool),
        },
{
}

/// A manifest leads on to the licenses exactly where it fits its host, and else
/// refuses the runtime for what the manifest is refused for.
pub proof fn a_manifest_leads_on_exactly_where_it_fits(
    identity: RuntimeIdentity,
    os: &str,
    architecture: &str,
    fault: Option<RuntimeFault<String>>,
    step: ValidationStep<String>,
)
    requires
        call_ensures(RuntimeIdentity::check, (&identity, os, architecture), fault),
        call_ensures(
            Probe::validate,
            (
                Probe::Identity,
                &ProbeAnswer::Manifest(ManifestContents::Identity(identity)),
                os,
                architecture,
            ),
            step,
        ),
    ensures
        match fault {
            None => step == ValidationStep::<String>::Ask(Probe::Licenses),
            Some(fault) => step matches ValidationStep::Refused(refused) && refused@ == fault@,
        },
{
}

/// A manifest that cannot be read, or is none, refuses the runtime, for just that.
pub proof fn a_manifest_has_to_be_read(
    os: &str,
    architecture: &str,
    unread: ValidationStep<String>,
    invalid: ValidationStep<String>,
)
    requires
        call_ensures(
            Probe::validate,
            (
                Probe::Identity,
                &ProbeAnswer::Manifest(ManifestContents::Unreadable),
                os,
                architecture,
            ),
            unread,
        ),
        call_ensures(
            Probe::validate,
            (
                Probe::Identity,
                &ProbeAnswer::Manifest(ManifestContents::Invalid),
                os,
                architecture,
            ),
            invalid,
        ),
    ensures
        unread matches ValidationStep::Refused(fault) && fault is UnreadableManifest,
        invalid matches ValidationStep::Refused(fault) && fault is InvalidManifest,
{
}

/// The tools of the sandbox, where they have to be and what brings them.
pub proof fn a_tool_is_at_its_place(tool: SandboxTool, path: &'static str, package: &'static str)
    requires
        call_ensures(SandboxTool::path, (tool,), path),
        call_ensures(SandboxTool::package, (tool,), package),
    ensures
        match tool {
            SandboxTool::Bubblewrap => path@ == "/usr/bin/bwrap"@ && package@
                == "bubblewrap >= 0.3.1"@,
            SandboxTool::DbusProxy => path@ == "/usr/bin/xdg-dbus-proxy"@ && package@
                == "xdg-dbus-proxy"@,
        },
{
}

/// A bridge is refused exactly where it speaks another version, and the fault names
/// the version that it speaks.
pub proof fn a_bridge_speaks_exactly_this_version(
    version: u32,
    fault: Option<RuntimeFault<String>>,
)
    requires
        call_ensures(check_abi_version, (version,), fault),
    ensures
        fault is None <==> version == ABI_VERSION,
        fault matches Some(fault) ==> fault == (RuntimeFault::<String>::AbiMismatch { version }),
{
}

/// What is wrong with a staged runtime, in words.
pub proof fn a_runtime_fault_says_what_is_wrong(
    fault: RuntimeFault<String>,
    path: &str,
    error: &str,
    text: String,
)
    requires
        call_ensures(RuntimeFault::<String>::message, (&fault, path, error), text),
    ensures
        match fault {
            RuntimeFault::MissingBridge => text@ == "bundled WPE bridge is missing at "@ + path@
                + ". Package or run the app through `water` so WPE WebKit "@ + "2.52.5"@
                + " is staged"@,
            RuntimeFault::MissingManifest => text@ == "bundled WPE runtime manifest is missing at "@
                + path@,
            RuntimeFault::UnreadableManifest => text@
                == "failed to read bundled WPE runtime manifest "@ + path@ + ": "@ + error@,
            RuntimeFault::InvalidManifest => text@ == "invalid bundled WPE runtime manifest "@
                + path@ + ": "@ + error@,
            RuntimeFault::EngineMismatch(values) => names_both(
                text@,
                "bundled runtime engine mismatch"@,
                quoted(values.found@),
                quoted(values.expected@),
            ),
            RuntimeFault::VersionMismatch(values) => names_both(
                text@,
                "bundled WPE WebKit version mismatch"@,
                quoted(values.found@),
                quoted(values.expected@),
            ),
            RuntimeFault::PlatformMismatch(values) => names_both(
                text@,
                "bundled WPE platform mismatch"@,
                quoted(values.found@),
                quoted(values.expected@),
            ),
            RuntimeFault::ArchitectureMismatch(values) => names_both(
                text@,
                "bundled WPE architecture mismatch"@,
                quoted(values.found@),
                quoted(values.expected@),
            ),
            RuntimeFault::MissingLicenses => text@
                == "bundled WPE license directory is missing at "@ + path@,
            RuntimeFault::MissingTool(SandboxTool::Bubblewrap) => text@
                == "bundled WPE sandbox requires "@ + "bubblewrap >= 0.3.1"@ + " at "@
                + "/usr/bin/bwrap"@,
            RuntimeFault::MissingTool(SandboxTool::DbusProxy) => text@
                == "bundled WPE sandbox requires "@ + "xdg-dbus-proxy"@ + " at "@
                + "/usr/bin/xdg-dbus-proxy"@,
            RuntimeFault::AbiMismatch { version } => names_both(
                text@,
                "bundled WPE bridge ABI mismatch: runtime="@ + decimal(version as nat)
                    + ", WaterUI="@ + decimal(ABI_VERSION as nat),
                decimal(version as nat),
                decimal(ABI_VERSION as nat),
            ),
        },
{
}

/// The engine runs exactly where there is a runtime and no error; every other
/// outcome has its own name.
pub proof fn a_start_is_judged_by_what_came_back(
    has_runtime: bool,
    has_error: bool,
    start: RuntimeStart,
)
    requires
        call_ensures(RuntimeStart::judge, (has_runtime, has_error), start),
    ensures
        start == RuntimeStart::Running <==> has_runtime && !has_error,
        start == RuntimeStart::Failed <==> !has_runtime && has_error,
        start == RuntimeStart::FailedSilently <==> !has_runtime && !has_error,
        start == RuntimeStart::RunningWithError <==> has_runtime && has_error,
{
}

/// How a start turned out, in words.
pub proof fn a_start_says_how_it_turned_out(start: RuntimeStart, error: &str, text: String)
    requires
        call_ensures(RuntimeStart::message, (start, error), text),
    ensures
        match start {
            RuntimeStart::Running => text@.len() == 0,
            RuntimeStart::Failed => text@ == "failed to initialize bundled WPE WebKit "@
                + "2.52.5"@ + ": "@ + error@,
            RuntimeStart::FailedSilently => text@ == "WPE failed without an error message"@,
            RuntimeStart::RunningWithError => text@
                == "WPE runtime initialized while also returning an error"@,
        },
{
    reveal_strlit("");
}

/// The root of a runtime is what the given root converts to.
pub proof fn a_runtime_lies_where_its_root_converts_to<R: Into<PathBuf>>(
    given: R,
    paths: WpeRuntimePaths,
    root: &Path,
)
    requires
        call_ensures(WpeRuntimePaths::new::<R>, (given,), paths),
        call_ensures(WpeRuntimePaths::root, (&paths,), root),
    ensures
        call_ensures(R::into, (given,), owned_path(root)),
{
}

/// Every manifest is judged for every host, every version of the bridge too, and
/// every answer of its own kind is taken by every probe.
pub proof fn whatever_the_host_finds_is_judged(
    identity: RuntimeIdentity,
    os: &str,
    architecture: &str,
    version: u32,
    found: bool,
    contents: ManifestContents,
    probe: Probe,
)
    ensures
        call_requires(RuntimeIdentity::check, (&identity, os, architecture)),
        call_requires(check_abi_version, (version,)),
        probe != Probe::Identity ==> call_requires(
            Probe::validate,
            (probe, &ProbeAnswer::Found(found), os, architecture),
        ),
        call_requires(
            Probe::validate,
            (Probe::Identity, &ProbeAnswer::Manifest(contents), os, architecture),
        ),
{
}

} // verus!
