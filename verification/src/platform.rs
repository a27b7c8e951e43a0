use vstd::prelude::*;

use crate::executor::ascii_lowercase;
use crate::text::chars_of;

verus! {

/// The family of operating system that the host runs.
#[derive(Debug, Clone, Copy, PartialEq, Eq, Structural)]
pub enum Platform {
    /// Linux, macOS and the other Unix systems.
    Unix,
    /// Windows.
    Windows,
}

/// The file name extension of executables: `.exe` on Windows, none on Unix.
pub open spec fn extension_of(platform: Platform) -> Seq<char> {
    match platform {
        Platform::Windows => ".exe"@,
        Platform::Unix => ""@,
    }
}

/// The file name extension of executables on `platform`.
pub fn executable_extension(platform: Platform) -> (r: &'static str)
    ensures
        r@ == extension_of(platform),
{
    match platform {
        Platform::Windows => ".exe",
        Platform::Unix => "",
    }
}

/// The file name of the executable called `name` on `platform`.
pub fn binary_file_name(name: &str, platform: Platform) -> (r: String)
    ensures
        r@ == name@ + extension_of(platform),
{
    String::from_str(name).concat(executable_extension(platform))
}

/// Whether a Windows file with the extension `ext` (without its dot) counts as
/// executable: `exe` or `bat`, in any case.
pub open spec fn is_program_extension(ext: Seq<char>) -> bool {
    let lower = ascii_lowercase(ext);
    lower == "exe"@ || lower == "bat"@
}

/// Whether a Windows file with the extension `ext` counts as executable. The
/// comparison ignores ASCII case; for these two names that is what Unicode
/// lowercasing gives too.
pub fn is_executable_extension(ext: &str) -> (r: bool)
    ensures
        r == is_program_extension(ext@),
{
    let v = chars_of(ext);
    let lower = crate::executor::lowercase_chars(v.as_slice());
    crate::text::spells(lower.as_slice(), "exe") || crate::text::spells(lower.as_slice(), "bat")
}

/// The permission bits that let owner, group and others execute a file.
pub const EXECUTE_BITS: u32 = 0o111;

/// Whether a Unix file with the permission bits `mode` can be executed by
/// someone.
pub fn is_executable_mode(mode: u32) -> (r: bool)
    ensures
        r == (mode & EXECUTE_BITS != 0),
{
    mode & EXECUTE_BITS != 0
}

/// The permission bits `mode` with execution allowed to owner, group and others.
pub fn executable_mode(mode: u32) -> (r: u32)
    ensures
        r == mode | EXECUTE_BITS,
{
    mode | EXECUTE_BITS
}

/// A file whose mode was made executable is executable, and doing it again
/// changes nothing.
pub proof fn law_executable_mode(mode: u32)
    ensures
        (mode | EXECUTE_BITS) & EXECUTE_BITS != 0,
        (mode | EXECUTE_BITS) | EXECUTE_BITS == mode | EXECUTE_BITS,
{
    assert((mode | 0o111u32) & 0o111u32 != 0 && (mode | 0o111u32) | 0o111u32 == mode | 0o111u32)
        by (bit_vector);
}

} // verus!
