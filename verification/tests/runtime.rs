use std::path::{Path, PathBuf};

use browser_wpe::abi::ABI_VERSION;
use browser_wpe::{
    ManifestContents, Mismatch, Probe, ProbeAnswer, RuntimeFault, RuntimeIdentity, RuntimeStart,
    SandboxTool, ValidationStep, WPE_WEBKIT_VERSION, WpeRuntimePaths, check_abi_version,
};

#[test]
fn the_parts_of_a_runtime_lie_under_its_root() {
    let paths = WpeRuntimePaths::new("/opt/wpe");
    assert_eq!(paths.root(), Path::new("/opt/wpe"));
    assert_eq!(
        paths.bridge(),
        PathBuf::from("/opt/wpe/lib/libwaterui_wpe.so")
    );
    assert_eq!(paths.manifest(), PathBuf::from("/opt/wpe/runtime.json"));
    assert_eq!(paths.licenses(), PathBuf::from("/opt/wpe/licenses"));
    assert_eq!(paths.clone(), paths);
    assert_eq!(
        WpeRuntimePaths::new(PathBuf::from("/opt/wpe")).root(),
        paths.root()
    );
}

#[test]
fn a_packaged_runtime_lies_beside_the_executable() {
    let paths = WpeRuntimePaths::packaged_beside(Path::new("/usr/lib/app/app"))
        .expect("the executable has a directory");
    assert_eq!(
        paths.root(),
        Path::new("/usr/lib/app/waterui-browser/wpe")
    );
    assert_eq!(WpeRuntimePaths::packaged_beside(Path::new("/")), None);
}

fn identity() -> RuntimeIdentity {
    RuntimeIdentity {
        engine: "wpe".to_owned(),
        version: "2.52.5".to_owned(),
        platform: "linux".to_owned(),
        architecture: "x86_64".to_owned(),
    }
}

fn manifest(identity: RuntimeIdentity) -> ProbeAnswer {
    ProbeAnswer::Manifest(ManifestContents::Identity(identity))
}

fn good_answers() -> Vec<ProbeAnswer> {
    vec![
        ProbeAnswer::Found(true),
        ProbeAnswer::Found(true),
        manifest(identity()),
        ProbeAnswer::Found(true),
        ProbeAnswer::Found(true),
        ProbeAnswer::Found(true),
    ]
}

fn validate(answers: &[ProbeAnswer]) -> (Vec<Probe>, Result<(), RuntimeFault<String>>) {
    let mut probe = Probe::first();
    let mut asked = Vec::new();
    for answer in answers {
        asked.push(probe);
        match probe.validate(answer, "linux", "x86_64") {
            ValidationStep::Ask(next) => probe = next,
            ValidationStep::Valid => return (asked, Ok(())),
            ValidationStep::Refused(fault) => return (asked, Err(fault)),
        }
    }
    panic!("the validation ends within its answers");
}

#[test]
fn a_staged_runtime_is_looked_at_from_the_bridge_to_the_sandbox() {
    assert_eq!(WPE_WEBKIT_VERSION, "2.52.5");
    assert_eq!(
        validate(&good_answers()),
        (
            vec![
                Probe::Bridge,
                Probe::Manifest,
                Probe::Identity,
                Probe::Licenses,
                Probe::Tool(SandboxTool::Bubblewrap),
                Probe::Tool(SandboxTool::DbusProxy),
            ],
            Ok(())
        )
    );
}

#[test]
fn the_first_probe_that_fails_is_the_fault() {
    for (at, fault, message) in [
        (
            0,
            RuntimeFault::MissingBridge,
            "bundled WPE bridge is missing at PATH. Package or run the app through `water` \
             so WPE WebKit 2.52.5 is staged",
        ),
        (
            1,
            RuntimeFault::MissingManifest,
            "bundled WPE runtime manifest is missing at PATH",
        ),
        (
            3,
            RuntimeFault::MissingLicenses,
            "bundled WPE license directory is missing at PATH",
        ),
        (
            4,
            RuntimeFault::MissingTool(SandboxTool::Bubblewrap),
            "bundled WPE sandbox requires bubblewrap >= 0.3.1 at /usr/bin/bwrap",
        ),
        (
            5,
            RuntimeFault::MissingTool(SandboxTool::DbusProxy),
            "bundled WPE sandbox requires xdg-dbus-proxy at /usr/bin/xdg-dbus-proxy",
        ),
    ] {
        let mut answers = good_answers();
        answers[at] = ProbeAnswer::Found(false);
        if at < 5 {
            answers[5] = ProbeAnswer::Found(false);
        }
        let (asked, outcome) = validate(&answers);
        assert_eq!(asked.len(), at + 1);
        assert_eq!(fault.message("PATH", "ERROR"), message);
        assert_eq!(outcome, Err(fault));
    }
}

#[test]
fn a_manifest_has_to_be_of_this_engine_version_and_host() {
    let other = || "other".to_owned();
    let mismatch = |found: &str, expected: &str| Mismatch {
        found: found.to_owned(),
        expected: expected.to_owned(),
    };
    for (contents, fault, message) in [
        (
            ManifestContents::Unreadable,
            RuntimeFault::UnreadableManifest,
            "failed to read bundled WPE runtime manifest PATH: ERROR",
        ),
        (
            ManifestContents::Invalid,
            RuntimeFault::InvalidManifest,
            "invalid bundled WPE runtime manifest PATH: ERROR",
        ),
        (
            ManifestContents::Identity(RuntimeIdentity {
                engine: other(),
                version: other(),
                ..identity()
            }),
            RuntimeFault::EngineMismatch(mismatch("other", "wpe")),
            "assertion `left == right` failed: bundled runtime engine mismatch\n  \
             left: \"other\"\n right: \"wpe\"",
        ),
        (
            ManifestContents::Identity(RuntimeIdentity {
                version: "2.52\t\"5\"".to_owned(),
                ..identity()
            }),
            RuntimeFault::VersionMismatch(mismatch("2.52\t\"5\"", "2.52.5")),
            "assertion `left == right` failed: bundled WPE WebKit version mismatch\n  \
             left: \"2.52\\t\\\"5\\\"\"\n right: \"2.52.5\"",
        ),
        (
            ManifestContents::Identity(RuntimeIdentity {
                platform: other(),
                architecture: other(),
                ..identity()
            }),
            RuntimeFault::PlatformMismatch(mismatch("other", "linux")),
            "assertion `left == right` failed: bundled WPE platform mismatch\n  \
             left: \"other\"\n right: \"linux\"",
        ),
        (
            ManifestContents::Identity(RuntimeIdentity {
                architecture: other(),
                ..identity()
            }),
            RuntimeFault::ArchitectureMismatch(mismatch("other", "x86_64")),
            "assertion `left == right` failed: bundled WPE architecture mismatch\n  \
             left: \"other\"\n right: \"x86_64\"",
        ),
    ] {
        let mut answers = good_answers();
        answers[2] = ProbeAnswer::Manifest(contents);
        assert_eq!(fault.message("PATH", "ERROR"), message);
        assert_eq!(validate(&answers).1, Err(fault));
    }
    assert_eq!(identity().check("linux", "x86_64"), None);
}

#[test]
fn a_bridge_of_another_version_is_refused() {
    assert_eq!(check_abi_version(ABI_VERSION), None);
    let fault = RuntimeFault::AbiMismatch { version: 1234 };
    assert_eq!(
        fault.message("", ""),
        format!(
            "assertion `left == right` failed: \
             bundled WPE bridge ABI mismatch: runtime=1234, WaterUI={ABI_VERSION}\n  \
             left: 1234\n right: {ABI_VERSION}"
        )
    );
    assert_eq!(check_abi_version(1234), Some(fault));
}

#[test]
fn a_start_is_judged_by_what_the_bridge_gave_back() {
    assert_eq!(RuntimeStart::judge(true, false), RuntimeStart::Running);
    for (runtime, error, start, message) in [
        (
            false,
            true,
            RuntimeStart::Failed,
            "failed to initialize bundled WPE WebKit 2.52.5: no display",
        ),
        (
            false,
            false,
            RuntimeStart::FailedSilently,
            "WPE failed without an error message",
        ),
        (
            true,
            true,
            RuntimeStart::RunningWithError,
            "WPE runtime initialized while also returning an error",
        ),
    ] {
        assert_eq!(RuntimeStart::judge(runtime, error), start);
        assert_eq!(start.message("no display"), message);
    }
    assert_eq!(RuntimeStart::Running.message("no display"), "");
}
