use vstd::prelude::*;

use crate::text::{contains_str, has_sub};

verus! {

/// The coarse platform classes that decide which preprocessor defines apply.
#[derive(Clone, Copy, Debug, PartialEq, Eq, Structural)]
pub enum PlatformFamily {
    Linux,
    Bsd,
    Darwin,
    Windows,
}

/// The family of a target triple: the first pattern that the triple holds wins,
/// and a triple that holds none of them has no family.
pub open spec fn family_of(t: Seq<char>) -> Option<PlatformFamily> {
    if has_sub(t, "linux"@) {
        Some(PlatformFamily::Linux)
    } else if has_sub(t, "freebsd"@) || has_sub(t, "netbsd"@) || has_sub(t, "openbsd"@) {
        Some(PlatformFamily::Bsd)
    } else if has_sub(t, "apple-darwin"@) {
        Some(PlatformFamily::Darwin)
    } else if has_sub(t, "windows"@) {
        Some(PlatformFamily::Windows)
    } else {
        None
    }
}

/// Resolves a target triple to its platform family, or `None` for a triple
/// outside the known set.
pub fn platform_family(target: &str) -> (r: Option<PlatformFamily>)
    ensures
        r == family_of(target@),
{
    if contains_str(target, "linux") {
        Some(PlatformFamily::Linux)
    } else if contains_str(target, "freebsd") || contains_str(target, "netbsd")
        || contains_str(target, "openbsd") {
        Some(PlatformFamily::Bsd)
    } else if contains_str(target, "apple-darwin") {
        Some(PlatformFamily::Darwin)
    } else if contains_str(target, "windows") {
        Some(PlatformFamily::Windows)
    } else {
        None
    }
}

/// The companion C++ runtime library that a binary built for `t` links against.
pub open spec fn cpp_link_stdlib(t: Seq<char>) -> Option<Seq<char>> {
    if has_sub(t, "msvc"@) {
        None
    } else if has_sub(t, "apple"@) {
        Some("c++"@)
    } else if has_sub(t, "freebsd"@) || has_sub(t, "openbsd"@) {
        Some("c++"@)
    } else if has_sub(t, "android"@) {
        Some("c++_shared"@)
    } else {
        Some("stdc++"@)
    }
}

/// The preprocessor defines that a platform family adds, in order.
pub open spec fn family_defines(f: PlatformFamily) -> Seq<Seq<char>> {
    match f {
        PlatformFamily::Linux => seq!["LUA_USE_LINUX"@],
        PlatformFamily::Bsd => seq!["LUA_USE_LINUX"@],
        PlatformFamily::Darwin => seq!["LUA_USE_MACOSX"@],
        PlatformFamily::Windows => seq![
            "WIN32_LEAN_AND_MEAN"@,
            "CRT_NONSTDC_NO_DEPRECATE"@,
            "_CRT_SECURE_NO_WARNINGS"@,
            "_SCL_SECURE_NO_WARNINGS"@,
            "_WINDOWS"@,
            "_USE_MATH_DEFINES"@,
            "USE_THREADS"@,
            "WIN32"@,
            "_SILENCE_ALL_CXX17_DEPRECATION_WARNINGS"@,
            "LUA_USE_LONGLONG"@,
            "WIN64"@,
            "_DEBUG"@,
            "DEBUG"@,
            "USE_COMMON_HPP"@,
            "LUA_USE_APICHECK"@,
            "DISABLE_EXPRESSION_ID"@,
            "SPACE_AGE"@,
        ],
    }
}

/// The character sequences of a list of strings.
pub open spec fn texts(v: Seq<String>) -> Seq<Seq<char>> {
    v.map_values(|s: String| s@)
}

/// The defines of a platform family, as owned strings.
pub fn platform_defines(f: PlatformFamily) -> (r: Vec<String>)
    ensures
        texts(r@) == family_defines(f),
{
    let mut v: Vec<String> = Vec::new();
    match f {
        PlatformFamily::Linux | PlatformFamily::Bsd => {
            v.push(String::from_str("LUA_USE_LINUX"));
        },
        PlatformFamily::Darwin => {
            v.push(String::from_str("LUA_USE_MACOSX"));
        },
        PlatformFamily::Windows => {
            v.push(String::from_str("WIN32_LEAN_AND_MEAN"));
            v.push(String::from_str("CRT_NONSTDC_NO_DEPRECATE"));
            v.push(String::from_str("_CRT_SECURE_NO_WARNINGS"));
            v.push(String::from_str("_SCL_SECURE_NO_WARNINGS"));
            v.push(String::from_str("_WINDOWS"));
            v.push(String::from_str("_USE_MATH_DEFINES"));
            v.push(String::from_str("USE_THREADS"));
            v.push(String::from_str("WIN32"));
            v.push(String::from_str("_SILENCE_ALL_CXX17_DEPRECATION_WARNINGS"));
            v.push(String::from_str("LUA_USE_LONGLONG"));
            v.push(String::from_str("WIN64"));
            v.push(String::from_str("_DEBUG"));
            v.push(String::from_str("DEBUG"));
            v.push(String::from_str("USE_COMMON_HPP"));
            v.push(String::from_str("LUA_USE_APICHECK"));
            v.push(String::from_str("DISABLE_EXPRESSION_ID"));
            v.push(String::from_str("SPACE_AGE"));
        },
    }
    assert(texts(v@) =~= family_defines(f));
    v
}

} // verus!
