use vstd::prelude::*;

use crate::platform::{family_defines, family_of, platform_defines, texts, PlatformFamily};
use crate::text::{join_path, joined};

verus! {

/// `acc` with `d` added at the end, unless it already holds `d`.
pub open spec fn with_define(acc: Seq<Seq<char>>, d: Seq<char>) -> Seq<Seq<char>> {
    if acc.contains(d) {
        acc
    } else {
        acc.push(d)
    }
}

/// `acc` with each of `more` added in turn; a define that is already there is
/// not added again.
pub open spec fn merged(acc: Seq<Seq<char>>, more: Seq<Seq<char>>) -> Seq<Seq<char>>
    decreases more.len(),
{
    if more.len() == 0 {
        acc
    } else {
        with_define(merged(acc, more.drop_last()), more.last())
    }
}

/// The defines that every build sets.
pub open spec fn fixed_defines() -> Seq<Seq<char>> {
    seq!["LUA_COMPAT_ALL"@]
}

/// The defines that a debug build adds.
pub open spec fn debug_defines(debug: bool) -> Seq<Seq<char>> {
    if debug {
        seq!["LUA_USE_APICHECK"@]
    } else {
        seq![]
    }
}

/// All defines of a build for family `f`: the fixed ones, then the family's,
/// then the debug ones, each name once.
pub open spec fn resolved_defines(f: PlatformFamily, debug: bool) -> Seq<Seq<char>> {
    merged(merged(merged(seq![], fixed_defines()), family_defines(f)), debug_defines(debug))
}

/// Merging keeps every define already there and adds those of `more`, without
/// repeating any.
pub proof fn lemma_merged(acc: Seq<Seq<char>>, more: Seq<Seq<char>>)
    requires
        acc.no_duplicates(),
    ensures
        merged(acc, more).no_duplicates(),
        forall|d: Seq<char>|
            #[trigger] merged(acc, more).contains(d) <==> (acc.contains(d) || more.contains(d)),
    decreases more.len(),
{
    if more.len() > 0 {
        let prev = merged(acc, more.drop_last());
        lemma_merged(acc, more.drop_last());
        let last = more.last();
        assert forall|d: Seq<char>| #[trigger]
            more.contains(d) <==> (more.drop_last().contains(d) || d == last) by {
            if more.contains(d) {
                let i = choose|i: int| 0 <= i < more.len() && more[i] == d;
                if i < more.len() - 1 {
                    assert(more.drop_last()[i] == d);
                }
            }
            if more.drop_last().contains(d) {
                let i = choose|i: int| 0 <= i < more.drop_last().len() && more.drop_last()[i] == d;
                assert(more[i] == d);
            }
            if d == last {
                assert(more[more.len() - 1] == d);
            }
        }
        if !prev.contains(last) {
            let next = prev.push(last);
            assert forall|d: Seq<char>| #[trigger] next.contains(d) <==> (prev.contains(d) || d == last) by {
                if next.contains(d) {
                    let i = choose|i: int| 0 <= i < next.len() && next[i] == d;
                    if i < prev.len() {
                        assert(prev[i] == d);
                    }
                }
                if prev.contains(d) {
                    let i = choose|i: int| 0 <= i < prev.len() && prev[i] == d;
                    assert(next[i] == d);
                }
                if d == last {
                    assert(next[prev.len() as int] == d);
                }
            }
            assert forall|i: int, j: int| 0 <= i < next.len() && 0 <= j < next.len() && i != j
                implies next[i] != next[j] by {
                if i < prev.len() && j < prev.len() {
                } else if i < prev.len() {
                    assert(prev.contains(next[i]));
                } else {
                    assert(prev.contains(next[j]));
                }
            }
        }
    }
}

/// The defines of a resolved build hold no name twice, and hold exactly the
/// fixed defines, the defines of the platform family and, in a debug build,
/// the debug define.
pub proof fn lemma_defines_exact(f: PlatformFamily, debug: bool)
    ensures
        resolved_defines(f, debug).no_duplicates(),
        forall|d: Seq<char>| #[trigger]
            resolved_defines(f, debug).contains(d) <==> (fixed_defines().contains(d)
                || family_defines(f).contains(d) || debug_defines(debug).contains(d)),
{
    let s0: Seq<Seq<char>> = seq![];
    let s1 = merged(s0, fixed_defines());
    let s2 = merged(s1, family_defines(f));
    lemma_merged(s0, fixed_defines());
    lemma_merged(s1, family_defines(f));
    lemma_merged(s2, debug_defines(debug));
}

/// Adds the define `d` to `defs` unless it is there already.
fn add_define(defs: &mut Vec<String>, d: String)
    ensures
        texts(final(defs)@) == with_define(texts(old(defs)@), d@),
{
    let mut i: usize = 0;
    while i < defs.len()
        invariant
            i <= defs@.len(),
            forall|j: int| 0 <= j < i ==> defs@[j]@ != d@,
        decreases defs@.len() - i,
    {
        if defs[i] == d {
            assert(texts(defs@)[i as int] == d@);
            return;
        }
        i = i + 1;
    }
    assert(!texts(defs@).contains(d@));
    defs.push(d);
    assert(texts(final(defs)@) =~= texts(old(defs)@).push(d@));
}

/// Adds each of `more` to `defs` in turn.
fn add_defines(defs: &mut Vec<String>, more: Vec<String>)
    ensures
        texts(final(defs)@) == merged(texts(old(defs)@), texts(more@)),
{
    let ghost start = texts(defs@);
    let mut i: usize = 0;
    while i < more.len()
        invariant
            i <= more@.len(),
            texts(defs@) == merged(start, texts(more@).take(i as int)),
        decreases more@.len() - i,
    {
        let d = more[i].clone();
        add_define(defs, d);
        assert(texts(more@).take(i + 1).drop_last() =~= texts(more@).take(i as int));
        i = i + 1;
    }
    assert(texts(more@).take(i as int) =~= texts(more@));
}

/// The defines of a build for family `f`, in order and each once.
pub fn build_defines(f: PlatformFamily, debug: bool) -> (r: Vec<String>)
    ensures
        texts(r@) == resolved_defines(f, debug),
{
    let mut defs: Vec<String> = Vec::new();
    let mut fixed: Vec<String> = Vec::new();
    fixed.push(String::from_str("LUA_COMPAT_ALL"));
    assert(texts(fixed@) =~= fixed_defines());
    assert(texts(defs@) =~= seq![]);
    add_defines(&mut defs, fixed);
    add_defines(&mut defs, platform_defines(f));
    let mut extra: Vec<String> = Vec::new();
    if debug {
        extra.push(String::from_str("LUA_USE_APICHECK"));
    }
    assert(texts(extra@) =~= debug_defines(debug));
    add_defines(&mut defs, extra);
    defs
}

/// The names of the source files that make up the library, in the order in
/// which they are compiled.
pub open spec fn source_names() -> Seq<Seq<char>> {
    seq![
        "lapi.c"@,
        "lauxlib.c"@,
        "lbaselib.c"@,
        "lbitlib.c"@,
        "lcode.c"@,
        "lcorolib.c"@,
        "lctype.c"@,
        "ldblib.c"@,
        "ldebug.c"@,
        "ldo.c"@,
        "ldump.c"@,
        "lfunc.c"@,
        "lgc.c"@,
        "linit.c"@,
        "liolib.c"@,
        "llex.c"@,
        "lmathlib.c"@,
        "lmem.c"@,
        "loadlib.c"@,
        "lobject.c"@,
        "lopcodes.c"@,
        "loslib.c"@,
        "lparser.c"@,
        "lstate.c"@,
        "lstring.c"@,
        "lstrlib.c"@,
        "ltable.c"@,
        "ltablib.c"@,
        "ltm.c"@,
        "lundump.c"@,
        "lvm.c"@,
        "lzio.c"@,
    ]
}

/// The names of the public headers that are staged beside the library: the
/// four C headers, then the C++ header.
pub open spec fn header_names() -> Seq<Seq<char>> {
    seq![
        "lauxlib.h"@,
        "lua.h"@,
        "luaconf.h"@,
        "lualib.h"@,
        "lua.hpp"@,
    ]
}

/// Each of `names` placed under the directory `dir`.
pub open spec fn paths_under(dir: Seq<char>, names: Seq<Seq<char>>) -> Seq<Seq<char>> {
    names.map_values(|n: Seq<char>| joined(dir, n))
}

pub(crate) fn source_name_list() -> (r: Vec<String>)
    ensures
        texts(r@) == source_names(),
{
    let mut v: Vec<String> = Vec::new();
    v.push(String::from_str("lapi.c"));
    v.push(String::from_str("lauxlib.c"));
    v.push(String::from_str("lbaselib.c"));
    v.push(String::from_str("lbitlib.c"));
    v.push(String::from_str("lcode.c"));
    v.push(String::from_str("lcorolib.c"));
    v.push(String::from_str("lctype.c"));
    v.push(String::from_str("ldblib.c"));
    v.push(String::from_str("ldebug.c"));
    v.push(String::from_str("ldo.c"));
    v.push(String::from_str("ldump.c"));
    v.push(String::from_str("lfunc.c"));
    v.push(String::from_str("lgc.c"));
    v.push(String::from_str("linit.c"));
    v.push(String::from_str("liolib.c"));
    v.push(String::from_str("llex.c"));
    v.push(String::from_str("lmathlib.c"));
    v.push(String::from_str("lmem.c"));
    v.push(String::from_str("loadlib.c"));
    v.push(String::from_str("lobject.c"));
    v.push(String::from_str("lopcodes.c"));
    v.push(String::from_str("loslib.c"));
    v.push(String::from_str("lparser.c"));
    v.push(String::from_str("lstate.c"));
    v.push(String::from_str("lstring.c"));
    v.push(String::from_str("lstrlib.c"));
    v.push(String::from_str("ltable.c"));
    v.push(String::from_str("ltablib.c"));
    v.push(String::from_str("ltm.c"));
    v.push(String::from_str("lundump.c"));
    v.push(String::from_str("lvm.c"));
    v.push(String::from_str("lzio.c"));
    assert(texts(v@) =~= source_names());
    v
}

/// The names of the public headers.
pub fn header_name_list() -> (r: Vec<String>)
    ensures
        texts(r@) == header_names(),
{
    let mut v: Vec<String> = Vec::new();
    v.push(String::from_str("lauxlib.h"));
    v.push(String::from_str("lua.h"));
    v.push(String::from_str("luaconf.h"));
    v.push(String::from_str("lualib.h"));
    v.push(String::from_str("lua.hpp"));
    assert(texts(v@) =~= header_names());
    v
}

/// Each of `names` placed under the directory `dir`, in order.
pub fn join_all(dir: &str, names: &Vec<String>) -> (r: Vec<String>)
    ensures
        texts(r@) == paths_under(dir@, texts(names@)),
{
    let mut r: Vec<String> = Vec::new();
    let mut i: usize = 0;
    while i < names.len()
        invariant
            i <= names@.len(),
            r@.len() == i,
            forall|k: int| 0 <= k < i ==> #[trigger] r@[k]@ == joined(dir@, names@[k]@),
        decreases names@.len() - i,
    {
        let p = join_path(dir, names[i].as_str());
        r.push(p);
        i = i + 1;
    }
    assert(texts(r@) =~= paths_under(dir@, texts(names@)));
    r
}

/// The name of the static library that a build produces.
pub const LIB_NAME: &'static str = "flua";

/// Everything the compiler driver needs for one build; it needs nothing else.
pub struct CompilerConfiguration {
    pub target: String,
    pub host: String,
    pub family: PlatformFamily,
    /// Preprocessor defines, each set without a value.
    pub defines: Vec<String>,
    /// Flags that are always passed.
    pub flags: Vec<String>,
    /// Flags that are passed only where the toolchain accepts them.
    pub optional_flags: Vec<String>,
    /// Compile the sources as C++.
    pub cpp: bool,
    pub opt_level: u32,
    /// Show compiler warnings.
    pub warnings: bool,
    /// The directory that holds the sources and headers; also the include path.
    pub source_dir: String,
    /// The source files to compile, in order.
    pub files: Vec<String>,
    pub lib_name: String,
    /// Where the static library goes.
    pub lib_dir: String,
    /// Where the public headers are staged.
    pub include_dir: String,
    /// The names of the public headers to stage.
    pub headers: Vec<String>,
}

/// The flags passed to every compile.
pub open spec fn required_flags() -> Seq<Seq<char>> {
    seq!["-w"@]
}

/// The flags passed where the toolchain accepts them: the latest C++ standard,
/// in the spellings of the two toolchain kinds, and no common symbols.
pub open spec fn optional_flag_list() -> Seq<Seq<char>> {
    seq!["-std=c++latest"@, "/std:c++latest"@, "-fno-common"@]
}

impl CompilerConfiguration {
    /// The configuration is the one resolved for `target` and `host`, with the
    /// outputs under `out_dir` and the sources under `source_dir`.
    pub open spec fn describes(
        &self,
        target: Seq<char>,
        host: Seq<char>,
        out_dir: Seq<char>,
        source_dir: Seq<char>,
        debug: bool,
    ) -> bool {
        &&& family_of(target) == Some(self.family)
        &&& self.target@ == target
        &&& self.host@ == host
        &&& texts(self.defines@) == resolved_defines(self.family, debug)
        &&& texts(self.flags@) == required_flags()
        &&& texts(self.optional_flags@) == optional_flag_list()
        &&& self.cpp
        &&& self.opt_level == 2
        &&& !self.warnings
        &&& self.source_dir@ == source_dir
        &&& texts(self.files@) == paths_under(source_dir, source_names())
        &&& self.lib_name@ == LIB_NAME@
        &&& self.lib_dir@ == joined(out_dir, "lib"@)
        &&& self.include_dir@ == joined(out_dir, "include"@)
        &&& texts(self.headers@) == header_names()
    }

    /// The header copies that staging makes: from the source directory to the
    /// include directory, each under its own name.
    pub open spec fn header_copies_spec(&self) -> Seq<(Seq<char>, Seq<char>)> {
        texts(self.headers@).map_values(
            |h: Seq<char>| (joined(self.source_dir@, h), joined(self.include_dir@, h)),
        )
    }

    /// The (source, destination) path of each header to stage, in order.
    pub fn header_copies(&self) -> (r: Vec<(String, String)>)
        ensures
            r@.map_values(|p: (String, String)| (p.0@, p.1@)) == self.header_copies_spec(),
    {
        let mut r: Vec<(String, String)> = Vec::new();
        let mut i: usize = 0;
        while i < self.headers.len()
            invariant
                i <= self.headers@.len(),
                r@.len() == i,
                forall|k: int|
                    0 <= k < i ==> (#[trigger] r@[k]).0@ == joined(
                        self.source_dir@,
                        self.headers@[k]@,
                    ) && r@[k].1@ == joined(self.include_dir@, self.headers@[k]@),
            decreases self.headers@.len() - i,
        {
            let from = join_path(self.source_dir.as_str(), self.headers[i].as_str());
            let to = join_path(self.include_dir.as_str(), self.headers[i].as_str());
            r.push((from, to));
            i = i + 1;
        }
        assert(r@.map_values(|p: (String, String)| (p.0@, p.1@)) =~= self.header_copies_spec());
        r
    }
}

/// One step of a build that acts on the file system or the toolchain.
pub enum BuildStep {
    /// Remove the directory if it exists, then create it empty.
    ResetDir(String),
    /// Compile the sources into the static library.
    Compile,
    /// Copy the file at the first path to the second.
    CopyFile(String, String),
}

/// The character sequences of a build step.
pub enum StepView {
    ResetDir(Seq<char>),
    Compile,
    CopyFile(Seq<char>, Seq<char>),
}

/// The view of a build step.
pub open spec fn step_view(s: BuildStep) -> StepView {
    match s {
        BuildStep::ResetDir(d) => StepView::ResetDir(d@),
        BuildStep::Compile => StepView::Compile,
        BuildStep::CopyFile(a, b) => StepView::CopyFile(a@, b@),
    }
}

impl CompilerConfiguration {
    /// The steps of a build, in order: both output directories are reset, the
    /// sources are compiled, then each public header is staged.
    pub open spec fn steps_spec(&self) -> Seq<StepView> {
        seq![StepView::ResetDir(self.lib_dir@), StepView::ResetDir(self.include_dir@), StepView::Compile]
            + self.header_copies_spec().map_values(
            |p: (Seq<char>, Seq<char>)| StepView::CopyFile(p.0, p.1),
        )
    }

    /// The steps that carry out a build with this configuration.
    pub fn steps(&self) -> (r: Vec<BuildStep>)
        ensures
            r@.map_values(|s: BuildStep| step_view(s)) == self.steps_spec(),
    {
        let mut r: Vec<BuildStep> = Vec::new();
        r.push(BuildStep::ResetDir(self.lib_dir.clone()));
        r.push(BuildStep::ResetDir(self.include_dir.clone()));
        r.push(BuildStep::Compile);
        let copies = self.header_copies();
        let ghost cs = copies@.map_values(|p: (String, String)| (p.0@, p.1@));
        let mut i: usize = 0;
        while i < copies.len()
            invariant
                i <= copies@.len(),
                r@.len() == i + 3,
                cs == self.header_copies_spec(),
                cs == copies@.map_values(|p: (String, String)| (p.0@, p.1@)),
                step_view(r@[0]) == StepView::ResetDir(self.lib_dir@),
                step_view(r@[1]) == StepView::ResetDir(self.include_dir@),
                step_view(r@[2]) == StepView::Compile,
                forall|k: int|
                    0 <= k < i ==> #[trigger] step_view(r@[k + 3]) == StepView::CopyFile(
                        cs[k].0,
                        cs[k].1,
                    ),
            decreases copies@.len() - i,
        {
            let from = copies[i].0.clone();
            let to = copies[i].1.clone();
            assert(from@ == cs[i as int].0 && to@ == cs[i as int].1);
            r.push(BuildStep::CopyFile(from, to));
            i = i + 1;
        }
        let ghost rv = r@.map_values(|s: BuildStep| step_view(s));
        assert forall|k: int| 0 <= k < rv.len() implies rv[k] == self.steps_spec()[k] by {
            if k >= 3 {
                assert(step_view(r@[(k - 3) + 3]) == StepView::CopyFile(cs[k - 3].0, cs[k - 3].1));
            }
        }
        assert(rv =~= self.steps_spec());
        r
    }
}

/// Staging copies each of the public headers, four C headers and one C++
/// header, from the source directory to the same name in the include
/// directory.
pub proof fn lemma_headers_staged(c: CompilerConfiguration, t: Seq<char>, h: Seq<char>, o: Seq<char>, s: Seq<char>, debug: bool)
    requires
        c.describes(t, h, o, s, debug),
    ensures
        c.header_copies_spec().len() == 5,
        forall|i: int|
            0 <= i < 5 ==> #[trigger] c.header_copies_spec()[i] == (
                joined(s, header_names()[i]),
                joined(joined(o, "include"@), header_names()[i]),
            ),
{
}

} // verus!
