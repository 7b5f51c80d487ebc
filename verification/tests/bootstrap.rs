use micromamba_bootstrap::config::{ConfigError, MicromambaConfig};
use micromamba_bootstrap::download::{artifact_url, download_outcome, DownloadOutcome};
use micromamba_bootstrap::platform::{determine_os_arch, resolve, OperatingSystem, ResolveError};
use micromamba_bootstrap::shell::{shell_init_args, ShellInitError};
use micromamba_bootstrap::sink::ArtifactSink;

#[test]
fn resolve_linux_x86_64() {
    let (os, token) = resolve("linux", "x86_64").unwrap();
    assert_eq!(os, OperatingSystem::Linux);
    assert_eq!(os.as_string(), "linux");
    assert_eq!(token, "64");
}

#[test]
fn resolve_macos_arm() {
    let (os, token) = resolve("macos", "arm").unwrap();
    assert_eq!(os, OperatingSystem::Macos);
    assert_eq!(os.as_string(), "osx");
    assert_eq!(token, "arm64");
}

#[test]
fn resolve_windows_x86_64() {
    let (os, token) = resolve("windows", "x86_64").unwrap();
    assert_eq!(os, OperatingSystem::Windows);
    assert_eq!(os.as_string(), "win");
    assert_eq!(token, "64");
}

#[test]
fn resolve_rejects_unknown_platform() {
    let err = resolve("freebsd", "x86_64").unwrap_err();
    assert_eq!(err, ResolveError::UnsupportedPlatform(String::from("freebsd")));
}

#[test]
fn resolve_rejects_unknown_architecture() {
    let err = resolve("linux", "riscv64").unwrap_err();
    assert_eq!(err, ResolveError::UnsupportedArchitecture(String::from("riscv64")));
}

#[test]
fn resolve_is_case_sensitive() {
    let err = resolve("Linux", "x86_64").unwrap_err();
    assert_eq!(err, ResolveError::UnsupportedPlatform(String::from("Linux")));
}

#[test]
fn os_arch_fragments() {
    assert_eq!(determine_os_arch(&OperatingSystem::Linux, "x86_64").unwrap(), "linux-64");
    assert_eq!(determine_os_arch(&OperatingSystem::Macos, "arm").unwrap(), "osx-arm64");
    assert_eq!(determine_os_arch(&OperatingSystem::Windows, "x86_64").unwrap(), "win-64");
}

#[test]
fn os_arch_rejects_unknown_architecture() {
    let err = determine_os_arch(&OperatingSystem::Linux, "sparc").unwrap_err();
    assert_eq!(err, ResolveError::UnsupportedArchitecture(String::from("sparc")));
}

#[test]
fn url_for_linux_artifact() {
    let url = artifact_url("linux-64");
    assert_eq!(
        url,
        "https://github.com/mamba-org/micromamba-releases/releases/latest/download/micromamba-linux-64"
    );
}

#[test]
fn outcome_success_only_on_200() {
    assert_eq!(download_outcome(200), DownloadOutcome::Success);
    assert_eq!(download_outcome(404), DownloadOutcome::Failure(404));
    assert_eq!(download_outcome(500), DownloadOutcome::Failure(500));
    assert_eq!(download_outcome(301), DownloadOutcome::Failure(301));
}

#[test]
fn sink_starts_empty() {
    let sink = ArtifactSink::new();
    assert_eq!(sink.total_len(), 0);
    assert!(sink.written().is_empty());
}

#[test]
fn sink_append_concatenates_in_order() {
    let mut sink = ArtifactSink::new();
    assert_eq!(sink.append(&[1, 2, 3]), 3);
    assert_eq!(sink.append(&[]), 0);
    assert_eq!(sink.append(&[4, 5]), 2);
    assert_eq!(sink.append(&[6]), 1);
    assert_eq!(sink.written().as_slice(), &[1, 2, 3, 4, 5, 6]);
    assert_eq!(sink.total_len(), 6);
}

#[test]
fn sink_append_all_round_trip() {
    let blocks: Vec<Vec<u8>> = vec![vec![10, 20], vec![], vec![30, 40, 50], vec![60]];
    let mut expected: Vec<u8> = Vec::new();
    for block in &blocks {
        expected.extend_from_slice(block);
    }
    let mut sink = ArtifactSink::new();
    sink.append_all(&blocks);
    assert_eq!(sink.written(), &expected);
    assert_eq!(sink.total_len(), 6);
}

#[test]
fn failure_keeps_streamed_bytes() {
    let mut sink = ArtifactSink::new();
    sink.append(&[1, 2, 3]);
    let outcome = download_outcome(404);
    assert_eq!(outcome, DownloadOutcome::Failure(404));
    assert_eq!(sink.written().as_slice(), &[1, 2, 3]);
}

#[test]
fn root_prefix_defaults_when_empty() {
    assert_eq!(MicromambaConfig::get_root_prefix(""), "~/micromamba/");
}

#[test]
fn root_prefix_keeps_answer() {
    assert_eq!(MicromambaConfig::get_root_prefix("/opt/mamba"), "/opt/mamba");
}

#[test]
fn init_shell_defaults_to_yes() {
    assert_eq!(MicromambaConfig::init_shell(""), Ok(true));
    assert_eq!(MicromambaConfig::init_shell("y"), Ok(true));
    assert_eq!(MicromambaConfig::init_shell("Y"), Ok(true));
    assert_eq!(MicromambaConfig::init_shell("yes"), Ok(true));
}

#[test]
fn init_shell_no_forms() {
    assert_eq!(MicromambaConfig::init_shell("n"), Ok(false));
    assert_eq!(MicromambaConfig::init_shell("N"), Ok(false));
    assert_eq!(MicromambaConfig::init_shell("no"), Ok(false));
}

#[test]
fn init_shell_rejects_other_answers() {
    let err = MicromambaConfig::init_shell("maybe").unwrap_err();
    assert_eq!(err, ConfigError::InvalidAnswer(String::from("maybe")));
}

#[test]
fn bin_path_defaults_per_system() {
    assert_eq!(
        MicromambaConfig::get_bin_path(&OperatingSystem::Windows, ""),
        "~/micromamba/micromamba.exe"
    );
    assert_eq!(
        MicromambaConfig::get_bin_path(&OperatingSystem::Macos, ""),
        "~/.local/bin/micromamba"
    );
    assert_eq!(
        MicromambaConfig::get_bin_path(&OperatingSystem::Linux, ""),
        "~/.local/bin/micromamba"
    );
}

#[test]
fn bin_path_keeps_answer() {
    assert_eq!(
        MicromambaConfig::get_bin_path(&OperatingSystem::Linux, "/usr/local/bin/mm"),
        "/usr/local/bin/mm"
    );
}

#[test]
fn config_with_shell() {
    let cfg =
        MicromambaConfig::new(&OperatingSystem::Linux, "", "yes", "zsh", "/tmp/mm").unwrap();
    assert_eq!(cfg.root_prefix, "~/micromamba/");
    assert!(cfg.init_shell);
    assert_eq!(cfg.shell, Some(String::from("zsh")));
    assert_eq!(cfg.exe_path, "/tmp/mm");
}

#[test]
fn config_without_shell() {
    let cfg = MicromambaConfig::new(&OperatingSystem::Macos, "/opt/root", "n", "", "").unwrap();
    assert_eq!(cfg.root_prefix, "/opt/root");
    assert!(!cfg.init_shell);
    assert_eq!(cfg.shell, None);
    assert_eq!(cfg.exe_path, "~/.local/bin/micromamba");
}

#[test]
fn config_rejects_bad_answer() {
    let err =
        MicromambaConfig::new(&OperatingSystem::Linux, "", "maybe", "", "").unwrap_err();
    assert_eq!(err, ConfigError::InvalidAnswer(String::from("maybe")));
}

#[test]
fn shell_init_argument_list() {
    let cfg =
        MicromambaConfig::new(&OperatingSystem::Linux, "", "yes", "bash", "").unwrap();
    let args = shell_init_args(&cfg).unwrap();
    assert_eq!(
        args,
        vec![
            String::from("shell"),
            String::from("init"),
            String::from("--prefix"),
            String::from("~/micromamba/"),
            String::from("--shell"),
            String::from("bash"),
        ]
    );
}

#[test]
fn shell_init_refuses_missing_shell() {
    let cfg = MicromambaConfig::new(&OperatingSystem::Linux, "", "n", "", "").unwrap();
    assert_eq!(cfg.shell, None);
    assert_eq!(shell_init_args(&cfg).unwrap_err(), ShellInitError::MissingShell);
}

#[test]
fn linux_run_without_shell_init() {
    let (os, token) = resolve("linux", "x86_64").unwrap();
    let os_arch = determine_os_arch(&os, "x86_64").unwrap();
    assert_eq!(format!("{}-{}", os.as_string(), token), os_arch);
    let url = artifact_url(&os_arch);
    assert_eq!(
        url,
        "https://github.com/mamba-org/micromamba-releases/releases/latest/download/micromamba-linux-64"
    );
    let cfg = MicromambaConfig::new(&os, "", "n", "", "").unwrap();
    assert_eq!(cfg.exe_path, "~/.local/bin/micromamba");
    let mut sink = ArtifactSink::new();
    sink.append(&[77, 90]);
    assert_eq!(download_outcome(200), DownloadOutcome::Success);
    assert!(!cfg.init_shell);
    assert_eq!(sink.written().as_slice(), &[77, 90]);
}
