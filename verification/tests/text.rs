use compiler_llvm_builder::error::BuildError;
use compiler_llvm_builder::text::{chars_of, decimal, join, parse_u32};
use compiler_llvm_builder::utils::{
    get_xcode_version, xcode_major_version, XcodeProbe, XCODE_MIN_VERSION, XCODE_VERSION_15,
    XCODE_VERSION_PATTERN,
};

fn output(text: &str) -> XcodeProbe {
    XcodeProbe::Output { stdout: text.as_bytes().to_vec() }
}

fn unparsed(text: &str) -> BuildError {
    BuildError::Parse { reason: format!("Failed to parse XCode version: {}", text) }
}

#[test]
fn decimal_writes_numbers_without_leading_zeros() {
    assert_eq!(decimal(0), "0");
    assert_eq!(decimal(7), "7");
    assert_eq!(decimal(10), "10");
    assert_eq!(decimal(404), "404");
    assert_eq!(decimal(65535), "65535");
    assert_eq!(decimal(u64::MAX), "18446744073709551615");
}

#[test]
fn parse_u32_reads_decimal_numerals() {
    assert_eq!(parse_u32("0"), Some(0));
    assert_eq!(parse_u32("15"), Some(15));
    assert_eq!(parse_u32("007"), Some(7));
    assert_eq!(parse_u32("4294967295"), Some(u32::MAX));
}

#[test]
fn parse_u32_rejects_what_is_no_numeral_of_32_bits() {
    assert_eq!(parse_u32(""), None);
    assert_eq!(parse_u32("4294967296"), None);
    assert_eq!(parse_u32("99999999999999999999"), None);
    assert_eq!(parse_u32("-1"), None);
    assert_eq!(parse_u32("1.5"), None);
    assert_eq!(parse_u32("12a"), None);
    assert_eq!(parse_u32(" 12"), None);
    assert_eq!(parse_u32("\u{0661}\u{0665}"), None);
}

#[test]
fn join_puts_the_separator_between_neighbours() {
    assert_eq!(join(&vec![], ";"), "");
    assert_eq!(join(&vec!["X86".to_string()], ";"), "X86");
    assert_eq!(join(&vec!["X86".to_string(), "AArch64".to_string()], ";"), "X86;AArch64");
    assert_eq!(join(&vec!["a".to_string(), "".to_string(), "c".to_string()], ", "), "a, , c");
}

#[test]
fn characters_of_a_text_come_in_order() {
    assert_eq!(chars_of("héllo"), vec!['h', 'é', 'l', 'l', 'o']);
    assert_eq!(chars_of(""), Vec::<char>::new());
}

#[test]
fn xcode_version_is_the_major_version_of_the_probe() {
    assert_eq!(XCODE_VERSION_PATTERN, r"version: (\d+)\..*");
    assert_eq!(get_xcode_version(output("version: 15.3.0.0.1.1708646388\n")), Ok(15));
    assert_eq!(get_xcode_version(output("version: 11.0\n")), Ok(11));
    assert_eq!(get_xcode_version(output("package-id: x\nversion: 14.2.0\nvolume: /\n")), Ok(14));
    assert_eq!(XCODE_MIN_VERSION, 11);
    assert_eq!(XCODE_VERSION_15, 15);
}

#[test]
fn xcode_version_fails_on_output_without_a_version() {
    assert_eq!(get_xcode_version(output("")), Err(unparsed("")));
    assert_eq!(get_xcode_version(output("version: 15")), Err(unparsed("version: 15")));
    assert_eq!(get_xcode_version(output("version: .1")), Err(unparsed("version: .1")));
    assert_eq!(
        get_xcode_version(output("version: 99999999999.1")),
        Err(unparsed("99999999999"))
    );
}

#[test]
fn xcode_version_fails_when_the_probe_could_not_run() {
    assert_eq!(
        get_xcode_version(XcodeProbe::PkgutilFailed { reason: "No such file".to_string() }),
        Err(BuildError::ProcessSpawn {
            description: "`pkgutil`".to_string(),
            reason: "No such file".to_string(),
        })
    );
    assert_eq!(
        get_xcode_version(XcodeProbe::GrepFailed { reason: "No such file".to_string() }),
        Err(BuildError::ProcessSpawn {
            description: "`grep`".to_string(),
            reason: "No such file".to_string(),
        })
    );
    assert_eq!(
        get_xcode_version(XcodeProbe::Output { stdout: vec![b'v', 0xff] }),
        Err(BuildError::Parse { reason: "The XCode version is not valid UTF-8".to_string() })
    );
}

#[test]
fn xcode_major_version_reads_the_captured_group() {
    assert_eq!(xcode_major_version("version: 15.1", Some(Some("15".to_string()))), Ok(15));
    assert_eq!(xcode_major_version("nothing", None), Err(unparsed("nothing")));
    assert_eq!(
        xcode_major_version("version: x.1", Some(Some("x".to_string()))),
        Err(unparsed("x"))
    );
    assert_eq!(
        xcode_major_version("version: .1", Some(None)),
        Err(BuildError::Parse { reason: "Always has a major version".to_string() })
    );
}

#[test]
fn every_error_has_its_message() {
    assert_eq!(
        BuildError::FetchStatus { url: "https://x/y".to_string(), status: 404 }.message(),
        "https://x/y failed with HTTP code: 404"
    );
    assert_eq!(BuildError::FetchTransfer { reason: "timeout".to_string() }.message(), "timeout");
    assert_eq!(BuildError::Unpack { reason: "bad archive".to_string() }.message(), "bad archive");
    assert_eq!(BuildError::Parse { reason: "bad text".to_string() }.message(), "bad text");
    assert_eq!(BuildError::Io { reason: "disk full".to_string() }.message(), "disk full");
    let error = BuildError::MissingTool { tool_name: "cmake".to_string() };
    assert_eq!(error.duplicate(), error);
}
