//! The argument lists of the four packaging-tool invocations.

use cargo_vitasdk::{
    get_vitasdk_subpath, handle_exit_status, str_eq, str_starts_with, u32_to_dec, u64_to_dec,
    LoggingVerbosity, Toolchain, VitaElfCreate, VitaMakeFself, VitaMksfoex, VitaPackVpk,
    AUTHID_DEFAULT, AUTHID_SAFE,
};

fn strings(v: &[&str]) -> Vec<String> {
    v.iter().map(|s| s.to_string()).collect()
}

#[test]
fn decimal_rendering_is_exact() {
    assert_eq!(u64_to_dec(0), "0");
    assert_eq!(u64_to_dec(7), "7");
    assert_eq!(u64_to_dec(10), "10");
    assert_eq!(u64_to_dec(12345), "12345");
    assert_eq!(u64_to_dec(u64::MAX), "18446744073709551615");
    assert_eq!(u32_to_dec(4096), "4096");
}

#[test]
fn string_helpers() {
    assert!(str_eq("", ""));
    assert!(str_eq("abc", "abc"));
    assert!(!str_eq("abc", "abd"));
    assert!(!str_eq("abc", "ab"));
    assert!(str_starts_with("abc", ""));
    assert!(str_starts_with("abc", "ab"));
    assert!(!str_starts_with("abc", "abcd"));
    assert!(!str_starts_with("abc", "b"));
}

#[test]
fn verbosity_flags() {
    assert_eq!(LoggingVerbosity::V.as_str(), "-v");
    assert_eq!(LoggingVerbosity::VV.as_str(), "-vv");
    assert_eq!(LoggingVerbosity::VVV.as_str(), "-vvv");
    assert!(LoggingVerbosity::V < LoggingVerbosity::VVV);
}

#[test]
fn toolchain_paths() {
    let tc = Toolchain::new("/opt/vitasdk".to_owned());
    assert_eq!(tc.tool_path("vita-mksfoex"), "/opt/vitasdk/bin/vita-mksfoex");
    assert_eq!(get_vitasdk_subpath("/opt/vitasdk", "bin/vita-elf-create"), "/opt/vitasdk/bin/vita-elf-create");
}

#[test]
fn exit_status_verdicts() {
    assert_eq!(handle_exit_status(Some(0)), Ok(()));
    assert_eq!(handle_exit_status(Some(2)), Err(Some(2)));
    assert_eq!(handle_exit_status(None), Err(None));
}

#[test]
fn elf_create_defaults() {
    let t = VitaElfCreate::new("a.elf", "a.velf");
    assert_eq!(t.args(), strings(&["a.elf", "a.velf"]));
}

#[test]
fn elf_create_all_options() {
    let mut t = VitaElfCreate::new("a.elf", "a.velf");
    t.verbosity = Some(LoggingVerbosity::VV);
    t.allow_empty_imports = true;
    t.config_options = Some("cfg.yml".to_owned());
    assert_eq!(t.args(), strings(&["-vv", "-n", "-e", "cfg.yml", "a.elf", "a.velf"]));
}

#[test]
fn mksfoex_defaults_and_values() {
    let t = VitaMksfoex::new("GAME", "a.sfo");
    assert_eq!(t.args(), strings(&["GAME", "a.sfo"]));

    let mut t = VitaMksfoex::new("GAME", "a.sfo");
    t.dword_values = vec![("ATTRIBUTE".to_owned(), 3u32), ("PARENTAL_LEVEL".to_owned(), 0u32)];
    t.string_values = vec![("CATEGORY".to_owned(), "gd".to_owned())];
    assert_eq!(
        t.args(),
        strings(&["-d", "ATTRIBUTE=3", "-d", "PARENTAL_LEVEL=0", "-s", "CATEGORY=gd", "GAME", "a.sfo"])
    );
}

#[test]
fn make_fself_default_authid_rendered_in_decimal() {
    let t = VitaMakeFself::new("a.velf", "a.eboot-bin");
    assert_eq!(t.authid, AUTHID_DEFAULT);
    assert_eq!(
        t.args(),
        strings(&["-a", "3386706919782612993", "a.velf", "a.eboot-bin"])
    );
}

#[test]
fn make_fself_all_options() {
    let mut t = VitaMakeFself::new("a.velf", "a.eboot-bin");
    t.authid = AUTHID_SAFE;
    t.enable_compression = true;
    t.memory_budget = Some(0x1000);
    t.physically_contiguous_memory_budget = Some(256);
    t.attrinbute_cinfo = Some(7);
    t.disable_aslr = true;
    assert_eq!(
        t.args(),
        strings(&[
            "-a",
            "3386706919782612994",
            "-c",
            "-m",
            "4096",
            "-pm",
            "256",
            "-at",
            "7",
            "-na",
            "a.velf",
            "a.eboot-bin",
        ])
    );
}

#[test]
fn pack_vpk_arguments() {
    let t = VitaPackVpk::new("a.sfo", "a.eboot-bin", "a.vpk");
    assert_eq!(
        t.args(),
        strings(&["--sfo", "a.sfo", "--eboot", "a.eboot-bin", "a.vpk"])
    );

    let mut t = VitaPackVpk::new("a.sfo", "a.eboot-bin", "a.vpk");
    t.additional_data = vec![("assets/icon.png".to_owned(), "sce_sys/icon0.png".to_owned())];
    assert_eq!(
        t.args(),
        strings(&[
            "--sfo",
            "a.sfo",
            "--eboot",
            "a.eboot-bin",
            "--add",
            "assets/icon.png=sce_sys/icon0.png",
            "a.vpk",
        ])
    );
}
