use vstd::prelude::*;

use crate::builder::Build;
use crate::config::CompilerConfiguration;
use crate::platform::{cpp_link_stdlib, texts};

verus! {

/// What a finished build hands back: where the library and the staged headers
/// are, the libraries to link and the C++ runtime library they need.
pub struct Artifacts {
    include_dir: String,
    lib_dir: String,
    libs: Vec<String>,
    cpp_stdlib: Option<String>,
}

/// The contents of an `Artifacts`, as character sequences.
pub struct ArtifactsView {
    pub include_dir: Seq<char>,
    pub lib_dir: Seq<char>,
    pub libs: Seq<Seq<char>>,
    pub cpp_stdlib: Option<Seq<char>>,
}

impl View for Artifacts {
    type V = ArtifactsView;

    closed spec fn view(&self) -> ArtifactsView {
        ArtifactsView {
            include_dir: self.include_dir@,
            lib_dir: self.lib_dir@,
            libs: texts(self.libs@),
            cpp_stdlib: self.cpp_stdlib.deep_view(),
        }
    }
}

/// The directives that tell the build pipeline how to link against the
/// artifacts, one per line: the search path, each static library, the runtime
/// library if there is one, the include directory and the library directory.
pub open spec fn metadata_spec(a: ArtifactsView) -> Seq<Seq<char>> {
    seq!["cargo:rustc-link-search=native="@ + a.lib_dir]
        + a.libs.map_values(|l: Seq<char>| "cargo:rustc-link-lib=static="@ + l)
        + match a.cpp_stdlib {
            Some(c) => seq!["cargo:rustc-link-lib="@ + c],
            None => seq![],
        }
        + seq!["cargo:include="@ + a.include_dir, "cargo:lib="@ + a.lib_dir]
}

/// `prefix` followed by `s`.
fn prefixed(prefix: &str, s: &str) -> (r: String)
    ensures
        r@ == prefix@ + s@,
{
    let mut r = String::from_str(prefix);
    r.append(s);
    r
}

impl CompilerConfiguration {
    /// The artifacts of a finished build with this configuration.
    pub fn artifacts(&self) -> (r: Artifacts)
        ensures
            r@ == (ArtifactsView {
                include_dir: self.include_dir@,
                lib_dir: self.lib_dir@,
                libs: seq![self.lib_name@],
                cpp_stdlib: cpp_link_stdlib(self.target@),
            }),
    {
        let mut libs: Vec<String> = Vec::new();
        libs.push(self.lib_name.clone());
        let r = Artifacts {
            include_dir: self.include_dir.clone(),
            lib_dir: self.lib_dir.clone(),
            libs,
            cpp_stdlib: Build::get_cpp_link_stdlib(self.target.as_str()),
        };
        assert(texts(r.libs@) =~= seq![self.lib_name@]);
        r
    }
}

impl Artifacts {
    /// The directory that holds the staged headers.
    pub fn include_dir(&self) -> (r: &str)
        ensures
            r@ == self@.include_dir,
    {
        self.include_dir.as_str()
    }

    /// The directory that holds the static library.
    pub fn lib_dir(&self) -> (r: &str)
        ensures
            r@ == self@.lib_dir,
    {
        self.lib_dir.as_str()
    }

    /// The names of the libraries to link.
    pub fn libs(&self) -> (r: &[String])
        ensures
            texts(r@) == self@.libs,
    {
        self.libs.as_slice()
    }

    /// The C++ runtime library to link, if any.
    pub fn cpp_stdlib(&self) -> (r: Option<&String>)
        ensures
            r.deep_view() == self@.cpp_stdlib,
    {
        self.cpp_stdlib.as_ref()
    }

    /// The metadata lines that tell the build pipeline how to link against
    /// these artifacts.
    pub fn cargo_metadata(&self) -> (r: Vec<String>)
        ensures
            texts(r@) == metadata_spec(self@),
    {
        let mut r: Vec<String> = Vec::new();
        r.push(prefixed("cargo:rustc-link-search=native=", self.lib_dir.as_str()));
        let ghost search = "cargo:rustc-link-search=native="@ + self.lib_dir@;
        let mut i: usize = 0;
        while i < self.libs.len()
            invariant
                i <= self.libs@.len(),
                r@.len() == i + 1,
                r@[0]@ == search,
                forall|k: int|
                    0 <= k < i ==> #[trigger] r@[k + 1]@ == "cargo:rustc-link-lib=static="@
                        + self.libs@[k]@,
            decreases self.libs@.len() - i,
        {
            r.push(prefixed("cargo:rustc-link-lib=static=", self.libs[i].as_str()));
            i = i + 1;
        }
        let ghost statics = texts(self.libs@).map_values(
            |l: Seq<char>| "cargo:rustc-link-lib=static="@ + l,
        );
        assert forall|k: int| 0 <= k < texts(r@).len() implies texts(r@)[k] == (seq![search]
            + statics)[k] by {
            if k > 0 {
                assert(r@[(k - 1) + 1]@ == "cargo:rustc-link-lib=static="@ + self.libs@[k - 1]@);
            }
        }
        assert(texts(r@) =~= seq![search] + statics);
        match &self.cpp_stdlib {
            Some(c) => {
                r.push(prefixed("cargo:rustc-link-lib=", c.as_str()));
            },
            None => {},
        }
        r.push(prefixed("cargo:include=", self.include_dir.as_str()));
        r.push(prefixed("cargo:lib=", self.lib_dir.as_str()));
        assert(texts(r@) =~= metadata_spec(self@));
        r
    }
}

} // verus!
