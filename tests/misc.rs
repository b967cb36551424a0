use breathes::license::get_licenses;
use breathes::network::{validate_packet_size, validate_port, validate_protocol, validate_retries};
use breathes::report::{decimal_text, seconds_text, status_label};
use breathes::text::{contains_char, same_text};
use breathes::uvd::{
    archive_name, config_text, install_root, license_text, login_url, readme_text, search_url,
    signed_decimal_text, Config, InstallRoot, HUB_URL,
};

#[test]
fn licenses_sorted() {
    assert_eq!(
        get_licenses(),
        vec![
            "AGPL-3.0", "Apache-2.0", "Apache-2.0", "BSD-2-Clause", "BSD-3-Clause", "CC-BY-4.0",
            "CC0-1.0", "EPL-2.0", "GPL-2.0", "GPL-3.0", "MIT", "MPL-2.0", "Unlicense", "Zlib",
        ]
    );
}

#[test]
fn network_limits() {
    assert!(validate_port(7789));
    assert!(!validate_port(7788));
    assert!(validate_protocol("uvd://"));
    assert!(!validate_protocol("uvd:/"));
    assert!(!validate_protocol("http://"));
    assert!(validate_packet_size(1024));
    assert!(!validate_packet_size(1025));
    assert!(validate_retries(3));
    assert!(!validate_retries(4));
}

#[test]
fn decimal_rendering() {
    assert_eq!(decimal_text(0), "0");
    assert_eq!(decimal_text(7), "7");
    assert_eq!(decimal_text(1234567890), "1234567890");
    assert_eq!(decimal_text(u64::MAX), u64::MAX.to_string());
    assert_eq!(seconds_text(12), "12s");
    assert_eq!(seconds_text(0), "0s");
    assert_eq!(signed_decimal_text(-45), "-45");
    assert_eq!(signed_decimal_text(i64::MIN), i64::MIN.to_string());
    assert_eq!(status_label(true), "Success");
    assert_eq!(status_label(false), "Failure");
}

#[test]
fn text_helpers() {
    assert!(same_text("abc", "abc"));
    assert!(!same_text("abc", "abd"));
    assert!(!same_text("abc", "ab"));
    assert!(same_text("", ""));
    assert!(contains_char("*.csproj", '*'));
    assert!(!contains_char("pom.xml", '*'));
}

fn config() -> Config {
    Config {
        name: String::from("demo"),
        version: String::from("0.1.0"),
        description: String::new(),
        author: String::new(),
        license: String::from("MIT"),
        readme: String::from("README.md"),
        src: vec![String::from("src")],
    }
}

#[test]
fn archive_names() {
    assert_eq!(archive_name(1700000000, &config()), "1700000000-demo_0.1.0.uvd");
    assert_eq!(archive_name(-3, &config()), "-3-demo_0.1.0.uvd");
}

#[test]
fn install_roots() {
    let home = Some(InstallRoot { var: "HOME", subdir: ".uvd/bin" });
    assert_eq!(install_root("linux"), home);
    assert_eq!(install_root("macos"), home);
    assert_eq!(install_root("freebsd"), home);
    assert_eq!(install_root("windows"), Some(InstallRoot { var: "APPDATA", subdir: "uvd/bin" }));
    assert_eq!(install_root("plan9"), None);
}

#[test]
fn scaffold_texts() {
    assert_eq!(config_text("demo", "MIT"), "name = \"demo\"\nlicense = \"MIT\"");
    assert_eq!(readme_text("demo"), "# demo\n");
    assert_eq!(license_text("MIT"), "This project is licensed under the MIT license.\n");
}

#[test]
fn hub_urls() {
    assert_eq!(search_url(HUB_URL, "vim"), "https://hub.hackia.org/api/v1/search?q=vim");
    assert_eq!(login_url(HUB_URL), "https://hub.hackia.org/api/v1/auth/login");
}
