//! The Notion directory layout on Windows: every path is a pure function of
//! the home directory, and locating that home directory is the only step that
//! can fail.
//!
//! ```text
//! <home>\bin\<tool>.exe                          shim_file
//! <home>\tools\image\node\<node>\<npm>\          node_image_dir, node_image_bin_dir
//! <home>\tools\user\platform.json                user_platform_file
//! <home>\notion.exe                              notion_file
//! <home>\shim.exe                                shim_executable
//! ```
use vstd::prelude::*;
use vstd::string::StringExecFns;

use crate::error::ErrorDetails;

verus! {

/// Operating-system name used in runtime distribution file names.
pub const OS: &'static str = "win";

/// `base`, a path separator, then `name`.
pub open spec fn joined(base: Seq<char>, name: Seq<char>) -> Seq<char> {
    base + seq!['\\'] + name
}

/// Appends the component `name` to the path `base`.
pub fn join(base: &str, name: &str) -> (r: String)
    ensures
        r@ == joined(base@, name@),
{
    let mut r = String::from_str(base);
    r.append("\\");
    proof {
        reveal_strlit("\\");
    }
    assert("\\"@ =~= seq!['\\']);
    r.append(name);
    r
}

/// Relies on dirs::data_local_dir: the local application-data directory that
/// the operating system reports, if it reports one.
#[verifier::external_body]
fn local_data_dir() -> (r: Option<String>) {
    match dirs::data_local_dir() {
        Some(p) => Some(p.to_string_lossy().into_owned()),
        None => None,
    }
}

/// The Notion home inside the local data directory, or `NoLocalDataDir` when
/// the operating system reports none.
pub fn notion_home_from(local_data: Option<String>) -> (r: Result<String, ErrorDetails>)
    ensures
        match local_data {
            Some(d) => r matches Ok(h) && h@ == joined(d@, "Notion"@),
            None => r matches Err(ErrorDetails::NoLocalDataDir),
        },
{
    match local_data {
        Some(d) => Ok(join(d.as_str(), "Notion")),
        None => Err(ErrorDetails::NoLocalDataDir),
    }
}

/// The default Notion home: `Notion` inside the local data directory.
pub fn default_notion_home() -> (r: Result<String, ErrorDetails>)
    ensures
        match r {
            Ok(h) => exists|d: Seq<char>| h@ == joined(d, "Notion"@),
            Err(e) => e matches ErrorDetails::NoLocalDataDir,
        },
{
    let local = local_data_dir();
    let ghost before = local;
    let r = notion_home_from(local);
    proof {
        if let Some(d) = before {
            assert(r matches Ok(h) && h@ == joined(d@, "Notion"@));
        }
    }
    r
}

/// File extension of runtime distribution archives.
pub fn archive_extension() -> (r: String)
    ensures
        r@ == "zip"@,
{
    String::from_str("zip")
}

pub open spec fn shim_dir_of(home: Seq<char>) -> Seq<char> {
    joined(home, "bin"@)
}

pub open spec fn node_image_dir_of(home: Seq<char>, node: Seq<char>, npm: Seq<char>) -> Seq<char> {
    joined(joined(joined(joined(joined(home, "tools"@), "image"@), "node"@), node), npm)
}

/// Directory of the generated shims.
pub fn shim_dir(home: &str) -> (r: String)
    ensures
        r@ == shim_dir_of(home@),
{
    join(home, "bin")
}

/// Directory of an installed runtime together with its bundled npm.
pub fn node_image_dir(home: &str, node: &str, npm: &str) -> (r: String)
    ensures
        r@ == node_image_dir_of(home@, node@, npm@),
{
    let tools = join(home, "tools");
    let image = join(tools.as_str(), "image");
    let root = join(image.as_str(), "node");
    let version = join(root.as_str(), node);
    join(version.as_str(), npm)
}

/// Directory holding the executables of an installed runtime; on Windows
/// the image directory itself.
pub fn node_image_bin_dir(home: &str, node: &str, npm: &str) -> (r: String)
    ensures
        r@ == node_image_dir_of(home@, node@, npm@),
{
    node_image_dir(home, node, npm)
}

/// The shim template executable.
pub fn shim_executable(home: &str) -> (r: String)
    ensures
        r@ == joined(home@, "shim.exe"@),
{
    join(home, "shim.exe")
}

/// The main Notion executable.
pub fn notion_file(home: &str) -> (r: String)
    ensures
        r@ == joined(home@, "notion.exe"@),
{
    join(home, "notion.exe")
}

/// The shim executable for the tool `toolname`.
pub fn shim_file(home: &str, toolname: &str) -> (r: String)
    ensures
        r@ == joined(shim_dir_of(home@), toolname@ + ".exe"@),
{
    let dir = shim_dir(home);
    let mut name = String::from_str(toolname);
    name.append(".exe");
    join(dir.as_str(), name.as_str())
}

/// The persisted user platform file.
pub fn user_platform_file(home: &str) -> (r: String)
    ensures
        r@ == joined(joined(joined(home@, "tools"@), "user"@), "platform.json"@),
{
    let tools = join(home, "tools");
    let user = join(tools.as_str(), "user");
    join(user.as_str(), "platform.json")
}

} // verus!
