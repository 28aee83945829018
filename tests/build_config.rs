use flua_src::artifacts::Artifacts;
use flua_src::builder::{Build, ConfigError};
use flua_src::config::{build_defines, header_name_list, join_all, BuildStep, CompilerConfiguration};
use flua_src::platform::{platform_defines, platform_family, PlatformFamily};
use flua_src::text::{contains_str, join_path};

fn linux_config(debug: bool) -> CompilerConfiguration {
    let mut b = Build::new(None, None, None);
    b.out_dir("/tmp/out")
        .target("x86_64-unknown-linux-gnu")
        .host("x86_64-unknown-linux-gnu");
    b.configure("/src/flua/src", debug).unwrap()
}

fn names(v: &[String]) -> Vec<&str> {
    v.iter().map(|s| s.as_str()).collect()
}

#[test]
fn runtime_lib_for_known_triples() {
    assert_eq!(Build::get_cpp_link_stdlib("x86_64-pc-windows-msvc"), None);
    assert_eq!(Build::get_cpp_link_stdlib("x86_64-apple-darwin"), Some("c++".to_string()));
    assert_eq!(Build::get_cpp_link_stdlib("x86_64-unknown-linux-gnu"), Some("stdc++".to_string()));
    assert_eq!(Build::get_cpp_link_stdlib("aarch64-linux-android"), Some("c++_shared".to_string()));
}

#[test]
fn runtime_lib_for_bsd_and_unknown() {
    assert_eq!(Build::get_cpp_link_stdlib("x86_64-unknown-freebsd"), Some("c++".to_string()));
    assert_eq!(Build::get_cpp_link_stdlib("x86_64-unknown-openbsd"), Some("c++".to_string()));
    assert_eq!(Build::get_cpp_link_stdlib("x86_64-unknown-netbsd"), Some("stdc++".to_string()));
    assert_eq!(Build::get_cpp_link_stdlib(""), Some("stdc++".to_string()));
    assert_eq!(Build::get_cpp_link_stdlib("x86_64-pc-windows-gnu"), Some("stdc++".to_string()));
}

#[test]
fn runtime_lib_is_deterministic() {
    let a = Build::get_cpp_link_stdlib("aarch64-linux-android");
    let b = Build::get_cpp_link_stdlib("aarch64-linux-android");
    assert_eq!(a, b);
}

#[test]
fn family_by_first_matching_pattern() {
    assert_eq!(platform_family("x86_64-unknown-linux-gnu"), Some(PlatformFamily::Linux));
    assert_eq!(platform_family("aarch64-linux-android"), Some(PlatformFamily::Linux));
    assert_eq!(platform_family("x86_64-unknown-freebsd"), Some(PlatformFamily::Bsd));
    assert_eq!(platform_family("x86_64-unknown-netbsd"), Some(PlatformFamily::Bsd));
    assert_eq!(platform_family("x86_64-unknown-openbsd"), Some(PlatformFamily::Bsd));
    assert_eq!(platform_family("x86_64-apple-darwin"), Some(PlatformFamily::Darwin));
    assert_eq!(platform_family("x86_64-pc-windows-msvc"), Some(PlatformFamily::Windows));
    assert_eq!(platform_family("aarch64-apple-ios"), None);
    assert_eq!(platform_family("mips-unknown-haiku"), None);
    assert_eq!(platform_family(""), None);
}

#[test]
fn substring_search() {
    assert!(contains_str("x86_64-unknown-linux-gnu", "linux"));
    assert!(contains_str("linux", "linux"));
    assert!(contains_str("abc", ""));
    assert!(!contains_str("lin", "linux"));
    assert!(!contains_str("x86_64-unknown-linu-gnu", "linux"));
}

#[test]
fn path_joining() {
    assert_eq!(join_path("/tmp/out", "lib"), "/tmp/out/lib");
    assert_eq!(join_path("/tmp/out/", "lib"), "/tmp/out/lib");
    assert_eq!(join_path("", "lib"), "lib");
    let v = join_all("d", &vec!["a.c".to_string(), "b.c".to_string()]);
    assert_eq!(v, vec!["d/a.c".to_string(), "d/b.c".to_string()]);
}

#[test]
fn linux_defines_are_fixed_plus_platform() {
    let c = linux_config(false);
    assert_eq!(names(&c.defines), vec!["LUA_COMPAT_ALL", "LUA_USE_LINUX"]);
    let d = linux_config(true);
    assert_eq!(names(&d.defines), vec!["LUA_COMPAT_ALL", "LUA_USE_LINUX", "LUA_USE_APICHECK"]);
}

#[test]
fn darwin_and_bsd_defines() {
    assert_eq!(names(&build_defines(PlatformFamily::Darwin, false)), vec!["LUA_COMPAT_ALL", "LUA_USE_MACOSX"]);
    assert_eq!(names(&build_defines(PlatformFamily::Bsd, false)), vec!["LUA_COMPAT_ALL", "LUA_USE_LINUX"]);
}

#[test]
fn windows_debug_define_not_repeated() {
    let platform = platform_defines(PlatformFamily::Windows);
    assert_eq!(platform.len(), 17);
    let d = build_defines(PlatformFamily::Windows, true);
    assert_eq!(d.len(), 18);
    assert_eq!(d[0], "LUA_COMPAT_ALL");
    assert_eq!(d.iter().filter(|s| s.as_str() == "LUA_USE_APICHECK").count(), 1);
    for (i, x) in d.iter().enumerate() {
        for y in d.iter().skip(i + 1) {
            assert_ne!(x, y);
        }
    }
    assert_eq!(build_defines(PlatformFamily::Windows, false).len(), 18);
}

#[test]
fn linux_configuration_end_to_end() {
    let c = linux_config(false);
    assert_eq!(c.target, "x86_64-unknown-linux-gnu");
    assert_eq!(c.host, "x86_64-unknown-linux-gnu");
    assert_eq!(c.family, PlatformFamily::Linux);
    assert_eq!(c.lib_name, "flua");
    assert_eq!(c.lib_dir, "/tmp/out/lib");
    assert_eq!(c.include_dir, "/tmp/out/include");
    assert_eq!(c.source_dir, "/src/flua/src");
    assert_eq!(names(&c.flags), vec!["-w"]);
    assert_eq!(names(&c.optional_flags), vec!["-std=c++latest", "/std:c++latest", "-fno-common"]);
    assert!(c.cpp);
    assert_eq!(c.opt_level, 2);
    assert!(!c.warnings);
    assert_eq!(c.files.len(), 32);
    assert_eq!(c.files[0], "/src/flua/src/lapi.c");
    assert_eq!(c.files[31], "/src/flua/src/lzio.c");
    let a = c.artifacts();
    assert_eq!(a.lib_dir(), "/tmp/out/lib");
    assert_eq!(a.include_dir(), "/tmp/out/include");
    assert_eq!(a.libs(), &["flua".to_string()]);
    assert_eq!(a.cpp_stdlib(), Some(&"stdc++".to_string()));
}

#[test]
fn linux_build_steps() {
    let c = linux_config(false);
    let steps = c.steps();
    assert_eq!(steps.len(), 8);
    assert!(matches!(&steps[0], BuildStep::ResetDir(d) if d == "/tmp/out/lib"));
    assert!(matches!(&steps[1], BuildStep::ResetDir(d) if d == "/tmp/out/include"));
    assert!(matches!(&steps[2], BuildStep::Compile));
    let heads = ["lauxlib.h", "lua.h", "luaconf.h", "lualib.h", "lua.hpp"];
    for (i, h) in heads.iter().enumerate() {
        match &steps[3 + i] {
            BuildStep::CopyFile(from, to) => {
                assert_eq!(from, &format!("/src/flua/src/{}", h));
                assert_eq!(to, &format!("/tmp/out/include/{}", h));
            }
            _ => panic!("step {} is not a copy", 3 + i),
        }
    }
}

#[test]
fn staged_headers() {
    assert_eq!(names(&header_name_list()), vec!["lauxlib.h", "lua.h", "luaconf.h", "lualib.h", "lua.hpp"]);
    let c = linux_config(false);
    let copies = c.header_copies();
    assert_eq!(copies.len(), 5);
    assert_eq!(copies[4], ("/src/flua/src/lua.hpp".to_string(), "/tmp/out/include/lua.hpp".to_string()));
}

#[test]
fn unsupported_target_is_refused() {
    let mut b = Build::new(None, None, None);
    b.out_dir("/tmp/out").target("mips-unknown-haiku").host("x86_64-unknown-linux-gnu");
    let r = b.configure("/src", false);
    assert_eq!(r.err(), Some(ConfigError::UnsupportedTarget("mips-unknown-haiku".to_string())));
}

#[test]
fn missing_settings_are_errors() {
    let b = Build::new(Some("/o".to_string()), None, Some("h".to_string()));
    assert_eq!(b.configure("/src", false).err(), Some(ConfigError::TargetNotSet));
    let b = Build::new(Some("/o".to_string()), Some("x86_64-unknown-linux-gnu".to_string()), None);
    assert_eq!(b.configure("/src", false).err(), Some(ConfigError::HostNotSet));
    let b = Build::new(None, Some("x86_64-unknown-linux-gnu".to_string()), Some("h".to_string()));
    assert_eq!(b.configure("/src", false).err(), Some(ConfigError::OutDirNotSet));
    let b = Build::new(None, Some("mips-unknown-haiku".to_string()), Some("h".to_string()));
    assert_eq!(b.configure("/src", false).err(), Some(ConfigError::OutDirNotSet));
}

#[test]
fn new_puts_outputs_under_lua_build() {
    let b = Build::new(
        Some("/target/out".to_string()),
        Some("x86_64-apple-darwin".to_string()),
        Some("x86_64-apple-darwin".to_string()),
    );
    let c = b.configure("/s", false).unwrap();
    assert_eq!(c.lib_dir, "/target/out/lua-build/lib");
    assert_eq!(c.include_dir, "/target/out/lua-build/include");
    assert_eq!(names(&c.defines), vec!["LUA_COMPAT_ALL", "LUA_USE_MACOSX"]);
    assert_eq!(c.artifacts().cpp_stdlib(), Some(&"c++".to_string()));
}

#[test]
fn setters_replace_earlier_values() {
    let mut b = Build::new(Some("/a".to_string()), Some("x86_64-pc-windows-msvc".to_string()), None);
    b.host("x86_64-pc-windows-msvc").out_dir("/b").target("x86_64-unknown-linux-gnu");
    let c = b.configure("/s", false).unwrap();
    assert_eq!(c.target, "x86_64-unknown-linux-gnu");
    assert_eq!(c.lib_dir, "/b/lib");
}

#[test]
fn metadata_lines() {
    let a: Artifacts = linux_config(false).artifacts();
    assert_eq!(
        a.cargo_metadata(),
        vec![
            "cargo:rustc-link-search=native=/tmp/out/lib".to_string(),
            "cargo:rustc-link-lib=static=flua".to_string(),
            "cargo:rustc-link-lib=stdc++".to_string(),
            "cargo:include=/tmp/out/include".to_string(),
            "cargo:lib=/tmp/out/lib".to_string(),
        ]
    );
}

#[test]
fn metadata_lines_without_runtime_lib() {
    let mut b = Build::new(None, None, None);
    b.out_dir("o").target("x86_64-pc-windows-msvc").host("x86_64-pc-windows-msvc");
    let a = b.configure("s", false).unwrap().artifacts();
    assert_eq!(a.cpp_stdlib(), None);
    assert_eq!(
        a.cargo_metadata(),
        vec![
            "cargo:rustc-link-search=native=o/lib".to_string(),
            "cargo:rustc-link-lib=static=flua".to_string(),
            "cargo:include=o/include".to_string(),
            "cargo:lib=o/lib".to_string(),
        ]
    );
}

#[test]
fn unicode_identifiers() {
    let code = "local 😀 = 0";
    assert!(contains_str(code, "😀"));
    assert!(contains_str(code, "😀 = 0"));
    assert!(!contains_str(code, "😁"));
    assert_eq!(join_path("😀", "lib"), "😀/lib");
    let mut b = Build::new(None, None, None);
    b.out_dir("/o").target(code).host(code);
    let r = b.configure("/s", false);
    assert_ne!(r.err(), None);
}
