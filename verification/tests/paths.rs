use stourney::paths::{
    binding_manifest_path, frontend_path, join, lib_path, manifest_path, plain_path,
    python_binary_path, python_interpreter_path, release_binary_path, scaffolding_path,
    venv_binaries_path, venv_path, Platform,
};

#[test]
fn join_puts_one_separator_between() {
    assert_eq!(join(Platform::Unix, "/a", "lib"), "/a/lib");
    assert_eq!(join(Platform::Unix, "/a/", "lib"), "/a/lib");
    assert_eq!(join(Platform::Unix, "", "lib"), "lib");
    assert_eq!(join(Platform::Unix, "/", "lib"), "/lib");
    assert_eq!(join(Platform::Unix, "a\\", "lib"), "a\\/lib");
}

#[test]
fn join_on_windows_uses_backslash() {
    assert_eq!(join(Platform::Windows, "C:\\a", "lib"), "C:\\a\\lib");
    assert_eq!(join(Platform::Windows, "C:\\a\\", "lib"), "C:\\a\\lib");
    assert_eq!(join(Platform::Windows, "C:/a/", "lib"), "C:/a/lib");
    assert_eq!(join(Platform::Windows, "", "lib"), "lib");
}

#[test]
fn project_parts_on_unix() {
    let p = Platform::Unix;
    assert_eq!(lib_path(p, "/b"), "/b/lib");
    assert_eq!(venv_path(p, "/b"), "/b/venv");
    assert_eq!(scaffolding_path(p, "/b"), "/b/lib/scaffolding");
    assert_eq!(venv_binaries_path(p, "/b"), "/b/venv/bin");
    assert_eq!(python_interpreter_path(p, "/b"), "/b/venv/bin/python3");
    assert_eq!(python_binary_path(p, "/b"), "/b/bot.py");
    assert_eq!(manifest_path(p, "/b"), "/b/Cargo.toml");
    assert_eq!(release_binary_path(p, "/a"), "/a/target/release/rust_client");
    assert_eq!(frontend_path(p, "/a"), "/a/lib/scaffolding/frontend");
    assert_eq!(
        binding_manifest_path(p, "/a"),
        "/a/lib/scaffolding/python_ffi/Cargo.toml"
    );
}

#[test]
fn project_parts_on_windows() {
    let p = Platform::Windows;
    assert_eq!(venv_binaries_path(p, "C:\\b"), "C:\\b\\venv\\Scripts");
    assert_eq!(
        python_interpreter_path(p, "C:\\b"),
        "C:\\b\\venv\\Scripts\\python.exe"
    );
    assert_eq!(python_binary_path(p, "C:\\b"), "C:\\b\\bot.py");
    assert_eq!(
        release_binary_path(p, "C:\\a"),
        "C:\\a\\target\\release\\rust_client"
    );
}

#[test]
fn plain_path_drops_the_verbatim_mark_on_windows_only() {
    assert_eq!(plain_path(Platform::Windows, "\\\\?\\C:\\a"), "C:\\a");
    assert_eq!(plain_path(Platform::Windows, "C:\\a"), "C:\\a");
    assert_eq!(plain_path(Platform::Windows, "\\\\?"), "\\\\?");
    assert_eq!(plain_path(Platform::Unix, "\\\\?\\C:\\a"), "\\\\?\\C:\\a");
    assert_eq!(plain_path(Platform::Unix, "/home/u/a"), "/home/u/a");
}
