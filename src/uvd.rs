use crate::report::{decimal, decimal_text};
use crate::text::same_text;
use vstd::prelude::*;

pub mod data;
pub mod protocol;

verus! {

/// The address of the package hub's API.
pub const HUB_URL: &'static str = "https://hub.hackia.org/api/v1";

/// A project's `uvd.toml`: its metadata and the sources that go into its
/// archive.
#[derive(Clone)]
pub struct Config {
    pub name: String,
    pub version: String,
    pub description: String,
    pub author: String,
    pub license: String,
    pub readme: String,
    pub src: Vec<String>,
}

/// Where packages are installed on an operating system: under the directory
/// named by the environment variable `var`, in its subdirectory `subdir`.
#[derive(Clone, Copy, Debug, PartialEq, Eq)]
pub struct InstallRoot {
    pub var: &'static str,
    pub subdir: &'static str,
}

/// The install location on the operating system named `os`, if it is
/// supported.
pub open spec fn install_root_of(os: Seq<char>) -> Option<(Seq<char>, Seq<char>)> {
    if os == "linux"@ || os == "freebsd"@ || os == "macos"@ {
        Some(("HOME"@, ".uvd/bin"@))
    } else if os == "windows"@ {
        Some(("APPDATA"@, "uvd/bin"@))
    } else {
        None
    }
}

/// `t` in decimal, with a leading `-` when negative.
pub open spec fn signed_decimal(t: int) -> Seq<char> {
    if t < 0 {
        "-"@ + decimal((-t) as nat)
    } else {
        decimal(t as nat)
    }
}

/// The install location on the operating system named `os`; `None` for an
/// unsupported system.
pub fn install_root(os: &str) -> (r: Option<InstallRoot>)
    ensures
        match install_root_of(os@) {
            Some((var, subdir)) => r is Some && r->Some_0.var@ == var && r->Some_0.subdir@ == subdir,
            None => r is None,
        },
{
    if same_text(os, "linux") || same_text(os, "freebsd") || same_text(os, "macos") {
        Some(InstallRoot { var: "HOME", subdir: ".uvd/bin" })
    } else if same_text(os, "windows") {
        Some(InstallRoot { var: "APPDATA", subdir: "uvd/bin" })
    } else {
        None
    }
}

/// `t` in decimal, with a leading `-` when negative.
pub fn signed_decimal_text(t: i64) -> (r: String)
    ensures
        r@ == signed_decimal(t as int),
{
    if t < 0 {
        let magnitude = (0 - (t as i128)) as u64;
        let mut s = String::from_str("-");
        s.append(decimal_text(magnitude).as_str());
        s
    } else {
        decimal_text(t as u64)
    }
}

/// The file name of a project's archive made at the Unix time `timestamp`:
/// `<timestamp>-<name>_<version>.uvd`.
pub fn archive_name(timestamp: i64, config: &Config) -> (r: String)
    ensures
        r@ == signed_decimal(timestamp as int) + "-"@ + config.name@ + "_"@ + config.version@
            + ".uvd"@,
{
    let mut s = signed_decimal_text(timestamp);
    s.append("-");
    s.append(config.name.as_str());
    s.append("_");
    s.append(config.version.as_str());
    s.append(".uvd");
    s
}

/// The `uvd.toml` of a new project.
pub fn config_text(project: &str, license: &str) -> (r: String)
    ensures
        r@ == "name = \""@ + project@ + "\"\nlicense = \""@ + license@ + "\""@,
{
    let mut s = String::from_str("name = \"");
    s.append(project);
    s.append("\"\nlicense = \"");
    s.append(license);
    s.append("\"");
    s
}

/// The `README.md` of a new project.
pub fn readme_text(project: &str) -> (r: String)
    ensures
        r@ == "# "@ + project@ + "\n"@,
{
    let mut s = String::from_str("# ");
    s.append(project);
    s.append("\n");
    s
}

/// The `LICENSE` file of a new project.
pub fn license_text(license: &str) -> (r: String)
    ensures
        r@ == "This project is licensed under the "@ + license@ + " license.\n"@,
{
    let mut s = String::from_str("This project is licensed under the ");
    s.append(license);
    s.append(" license.\n");
    s
}

/// The hub address that searches for `query`.
pub fn search_url(api_url: &str, query: &str) -> (r: String)
    ensures
        r@ == api_url@ + "/search?q="@ + query@,
{
    let mut s = String::from_str(api_url);
    s.append("/search?q=");
    s.append(query);
    s
}

/// The hub address that logs in.
pub fn login_url(api_url: &str) -> (r: String)
    ensures
        r@ == api_url@ + "/auth/login"@,
{
    let mut s = String::from_str(api_url);
    s.append("/auth/login");
    s
}

} // verus!
