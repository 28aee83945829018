use vstd::prelude::*;

use crate::config::{
    build_defines, header_name_list, join_all, optional_flag_list, required_flags,
    source_name_list, CompilerConfiguration, LIB_NAME,
};
use crate::platform::{cpp_link_stdlib, family_of, platform_family, texts};
use crate::text::{contains_str, join_path, joined};

verus! {

/// What a build is asked for: where its outputs go, and the target and host
/// triples. Each may still be unset.
pub struct Build {
    out_dir: Option<String>,
    target: Option<String>,
    host: Option<String>,
}

/// The settings of a `Build`, as character sequences.
pub struct BuildView {
    pub out_dir: Option<Seq<char>>,
    pub target: Option<Seq<char>>,
    pub host: Option<Seq<char>>,
}

/// Why a build cannot be configured.
#[derive(Debug, PartialEq, Eq)]
pub enum ConfigError {
    TargetNotSet,
    HostNotSet,
    OutDirNotSet,
    /// The target triple matches no known platform.
    UnsupportedTarget(String),
}

impl View for Build {
    type V = BuildView;

    closed spec fn view(&self) -> BuildView {
        BuildView {
            out_dir: self.out_dir.deep_view(),
            target: self.target.deep_view(),
            host: self.host.deep_view(),
        }
    }
}

/// The output root of a build under the directory that the build pipeline
/// hands out.
pub open spec fn out_root_under(d: Seq<char>) -> Seq<char> {
    joined(d, "lua-build"@)
}

impl Build {
    /// A build set up from the values that the build pipeline provides: its
    /// output directory (the outputs go under `lua-build` in it), the target
    /// triple and the host triple.
    pub fn new(out_dir: Option<String>, target: Option<String>, host: Option<String>) -> (r: Build)
        ensures
            r@.out_dir == match out_dir {
                Some(d) => Some(out_root_under(d@)),
                None => None,
            },
            r@.target == target.deep_view(),
            r@.host == host.deep_view(),
    {
        let out_dir = match out_dir {
            Some(d) => Some(join_path(d.as_str(), "lua-build")),
            None => None,
        };
        Build { out_dir, target, host }
    }

    /// Sets the directory under which the outputs go.
    pub fn out_dir(&mut self, path: &str) -> (r: &mut Build)
        ensures
            r@ == (BuildView { out_dir: Some(path@), ..old(self)@ }),
            final(self)@ == final(r)@,
    {
        self.out_dir = Some(String::from_str(path));
        self
    }

    /// Sets the target triple.
    pub fn target(&mut self, target: &str) -> (r: &mut Build)
        ensures
            r@ == (BuildView { target: Some(target@), ..old(self)@ }),
            final(self)@ == final(r)@,
    {
        self.target = Some(String::from_str(target));
        self
    }

    /// Sets the host triple.
    pub fn host(&mut self, host: &str) -> (r: &mut Build)
        ensures
            r@ == (BuildView { host: Some(host@), ..old(self)@ }),
            final(self)@ == final(r)@,
    {
        self.host = Some(String::from_str(host));
        self
    }

    /// The C++ runtime library that a binary for `target` links against, if
    /// any.
    pub fn get_cpp_link_stdlib(target: &str) -> (r: Option<String>)
        ensures
            r.deep_view() == cpp_link_stdlib(target@),
    {
        if contains_str(target, "msvc") {
            None
        } else if contains_str(target, "apple") {
            Some(String::from_str("c++"))
        } else if contains_str(target, "freebsd") || contains_str(target, "openbsd") {
            Some(String::from_str("c++"))
        } else if contains_str(target, "android") {
            Some(String::from_str("c++_shared"))
        } else {
            Some(String::from_str("stdc++"))
        }
    }

    /// Resolves the compiler configuration of this build, with the sources
    /// taken from `source_dir`; `debug` adds the define of a debug build.
    /// Nothing is touched on disk: the checks come before any step that would.
    pub fn configure(&self, source_dir: &str, debug: bool) -> (r: Result<
        CompilerConfiguration,
        ConfigError,
    >)
        ensures
            self@.target is None ==> r == Err::<CompilerConfiguration, ConfigError>(
                ConfigError::TargetNotSet,
            ),
            self@.target is Some && self@.host is None ==> r == Err::<
                CompilerConfiguration,
                ConfigError,
            >(ConfigError::HostNotSet),
            self@.target is Some && self@.host is Some && self@.out_dir is None ==> r == Err::<
                CompilerConfiguration,
                ConfigError,
            >(ConfigError::OutDirNotSet),
            self@.target is Some && self@.host is Some && self@.out_dir is Some && family_of(
                self@.target->Some_0,
            ) is None ==> match r {
                Err(ConfigError::UnsupportedTarget(u)) => u@ == self@.target->Some_0,
                _ => false,
            },
            self@.target is Some && self@.host is Some && self@.out_dir is Some && family_of(
                self@.target->Some_0,
            ) is Some ==> match r {
                Ok(c) => c.describes(
                    self@.target->Some_0,
                    self@.host->Some_0,
                    self@.out_dir->Some_0,
                    source_dir@,
                    debug,
                ),
                Err(_) => false,
            },
    {
        let target = match &self.target {
            Some(t) => t,
            None => {
                return Err(ConfigError::TargetNotSet);
            },
        };
        let host = match &self.host {
            Some(h) => h,
            None => {
                return Err(ConfigError::HostNotSet);
            },
        };
        let out_dir = match &self.out_dir {
            Some(o) => o,
            None => {
                return Err(ConfigError::OutDirNotSet);
            },
        };
        let family = match platform_family(target.as_str()) {
            Some(f) => f,
            None => {
                return Err(ConfigError::UnsupportedTarget(target.clone()));
            },
        };
        let mut flags: Vec<String> = Vec::new();
        flags.push(String::from_str("-w"));
        let mut optional_flags: Vec<String> = Vec::new();
        optional_flags.push(String::from_str("-std=c++latest"));
        optional_flags.push(String::from_str("/std:c++latest"));
        optional_flags.push(String::from_str("-fno-common"));
        let names = source_name_list();
        let files = join_all(source_dir, &names);
        let c = CompilerConfiguration {
            target: target.clone(),
            host: host.clone(),
            family,
            defines: build_defines(family, debug),
            flags,
            optional_flags,
            cpp: true,
            opt_level: 2,
            warnings: false,
            source_dir: String::from_str(source_dir),
            files,
            lib_name: String::from_str(LIB_NAME),
            lib_dir: join_path(out_dir.as_str(), "lib"),
            include_dir: join_path(out_dir.as_str(), "include"),
            headers: header_name_list(),
        };
        assert(texts(c.flags@) =~= required_flags());
        assert(texts(c.optional_flags@) =~= optional_flag_list());
        Ok(c)
    }
}

} // verus!
