//! One module's build configuration and the rules that turn it into
//! toolchain settings.

use crate::toolchain::{
    error_text, toolchain_add_file, toolchain_compile, toolchain_define, toolchain_flag,
    toolchain_flag_if_supported, toolchain_flag_supported, toolchain_include, toolchain_is_msvc,
    toolchain_shared, CompileRecord, StepModel, Toolchain,
};
use vstd::prelude::*;
use vstd::string::*;

verus! {

/// Fatal conditions of a module's build step.
#[derive(Debug, PartialEq, Eq)]
pub enum BuildError {
    /// No published configuration could be read for the named dependency.
    UnresolvedDependency(String),
    /// The compiler driver reported a failure; carries its diagnostic.
    Compilation(String),
    /// The compiler to use could not be determined; carries the reason.
    CompilerDetection(String),
}

/// One setting handed to the compiler driver.
#[derive(Debug, PartialEq, Eq)]
pub enum ToolchainStep {
    /// A flag that is passed only if the compiler accepts it.
    FlagIfSupported(String),
    /// A flag that is passed unconditionally.
    Flag(String),
    /// A preprocessor definition `key=value`.
    Define(String, String),
    /// A header search directory.
    Include(String),
    /// Build a shared rather than a static library.
    Shared,
}

impl View for ToolchainStep {
    type V = StepModel;

    open spec fn view(&self) -> StepModel {
        match self {
            ToolchainStep::FlagIfSupported(f) => StepModel::FlagIfSupported(f@),
            ToolchainStep::Flag(f) => StepModel::Flag(f@),
            ToolchainStep::Define(k, v) => StepModel::Define(k@, v@),
            ToolchainStep::Include(d) => StepModel::Include(d@),
            ToolchainStep::Shared => StepModel::Shared,
        }
    }
}

pub open spec fn step_views(s: Seq<ToolchainStep>) -> Seq<StepModel> {
    s.map_values(|t: ToolchainStep| t@)
}

pub open spec fn string_views(s: Seq<String>) -> Seq<Seq<char>> {
    s.map_values(|t: String| t@)
}

pub open spec fn pair_views(s: Seq<(String, String)>) -> Seq<(Seq<char>, Seq<char>)> {
    s.map_values(|t: (String, String)| (t.0@, t.1@))
}

/// The configuration of one module's build step, with the published
/// configurations of the modules it depends on embedded by value.
pub struct CRTModuleBuildInfo {
    crt_module_name: String,
    crt_module_deps: Vec<CRTModuleBuildInfo>,
    private_cflags: Vec<String>,
    public_cflags: Vec<String>,
    private_defines: Vec<(String, String)>,
    public_defines: Vec<(String, String)>,
    link_targets: Vec<String>,
    shared_lib: bool,
    lib_name: String,
    linker_path: Option<String>,
    include_dirs: Vec<String>,
    build_toolchain: Toolchain,
}

/// The parts of a configuration, to say which one a call changes.
pub ghost enum Part {
    Deps,
    PrivateFlags,
    PublicFlags,
    PrivateDefines,
    PublicDefines,
    LinkTargets,
    SharedLib,
    LinkerPath,
    HeaderDirs,
}

/// `a` and `b` agree on every part but `p` (the module and library names
/// always agree), and have the same compiler driver.
pub open spec fn unchanged_except(a: CRTModuleBuildInfo, b: CRTModuleBuildInfo, p: Part) -> bool {
    settings_unchanged_except(a, b, p) && a.spec_driver() == b.spec_driver()
}

/// `a` and `b` agree on every part but `p` (the module and library names
/// always agree); their compiler drivers may differ.
pub open spec fn settings_unchanged_except(a: CRTModuleBuildInfo, b: CRTModuleBuildInfo, p: Part) -> bool {
    &&& a.spec_module_name() == b.spec_module_name()
    &&& a.spec_lib_name() == b.spec_lib_name()
    &&& (p != Part::Deps ==> a.spec_deps() == b.spec_deps())
    &&& (p != Part::PrivateFlags ==> a.spec_private_cflags() == b.spec_private_cflags())
    &&& (p != Part::PublicFlags ==> a.spec_public_cflags() == b.spec_public_cflags())
    &&& (p != Part::PrivateDefines ==> a.spec_private_defines() == b.spec_private_defines())
    &&& (p != Part::PublicDefines ==> a.spec_public_defines() == b.spec_public_defines())
    &&& (p != Part::LinkTargets ==> a.spec_link_targets() == b.spec_link_targets())
    &&& (p != Part::SharedLib ==> a.spec_shared_lib() == b.spec_shared_lib())
    &&& (p != Part::LinkerPath ==> a.spec_linker_path() == b.spec_linker_path())
    &&& (p != Part::HeaderDirs ==> a.spec_include_dirs() == b.spec_include_dirs())
}

/// `a` and `b` agree on every part; their compiler drivers may differ.
pub open spec fn same_settings(a: CRTModuleBuildInfo, b: CRTModuleBuildInfo) -> bool {
    settings_unchanged_except(a, b, Part::Deps) && a.spec_deps() == b.spec_deps()
}

/// Flags as steps; `checked` ones are passed only where supported.
pub open spec fn flag_steps(flags: Seq<Seq<char>>, checked: bool) -> Seq<StepModel> {
    flags.map_values(
        |f: Seq<char>|
            if checked {
                StepModel::FlagIfSupported(f)
            } else {
                StepModel::Flag(f)
            },
    )
}

pub open spec fn define_steps(defines: Seq<(Seq<char>, Seq<char>)>) -> Seq<StepModel> {
    defines.map_values(|d: (Seq<char>, Seq<char>)| StepModel::Define(d.0, d.1))
}

pub open spec fn include_steps(dirs: Seq<Seq<char>>) -> Seq<StepModel> {
    dirs.map_values(|d: Seq<char>| StepModel::Include(d))
}

/// What a module shows to the modules that depend on it: its public flags,
/// its public definitions and its header directories.
pub open spec fn public_steps(m: CRTModuleBuildInfo) -> Seq<StepModel> {
    flag_steps(m.spec_public_cflags(), false) + define_steps(m.spec_public_defines())
        + include_steps(m.spec_include_dirs())
}

/// The public settings of each dependency, in declaration order.
pub open spec fn dependency_steps(deps: Seq<CRTModuleBuildInfo>) -> Seq<StepModel>
    decreases deps.len(),
{
    if deps.len() == 0 {
        Seq::empty()
    } else {
        dependency_steps(deps.drop_last()) + public_steps(deps.last())
    }
}

/// A module's own settings: private then public flags, private then public
/// definitions, then header directories.
pub open spec fn own_steps(m: CRTModuleBuildInfo) -> Seq<StepModel> {
    flag_steps(m.spec_private_cflags(), true) + flag_steps(m.spec_public_cflags(), true)
        + define_steps(m.spec_private_defines()) + define_steps(m.spec_public_defines())
        + include_steps(m.spec_include_dirs())
}

pub open spec fn shared_steps(m: CRTModuleBuildInfo) -> Seq<StepModel> {
    if m.spec_shared_lib() {
        seq![StepModel::Shared]
    } else {
        Seq::empty()
    }
}

/// Everything that compiling the module hands to the compiler driver.
pub open spec fn build_plan(m: CRTModuleBuildInfo) -> Seq<StepModel> {
    own_steps(m) + dependency_steps(m.spec_deps()) + shared_steps(m)
}

/// The warning and code-generation flags every module gets for its family of
/// compiler.
pub open spec fn baseline_flags(is_msvc: bool) -> Seq<Seq<char>> {
    if is_msvc {
        seq!["/W4"@, "/WX"@, "/MP"@, "/volatile:iso"@, "/wd4204"@, "/wd4221"@]
    } else {
        seq![
            "-Wall"@,
            "-Werror"@,
            "-Wstrict-prototypes"@,
            "-fno-omit-frame-pointer"@,
            "-Wextra"@,
            "-pedantic"@,
            "-Wno-long-long"@,
            "-fPIC"@,
        ]
    }
}

/// The flags that depend on what the compiler was found to accept.
pub open spec fn probed_flags(gnu_supported: bool, byte_order_clean: bool) -> Seq<Seq<char>> {
    if gnu_supported {
        seq!["-Wgnu"@, "-Wno-gnu-zero-variadic-macro-arguments"@] + if byte_order_clean {
            Seq::empty()
        } else {
            seq!["-Wno-gnu-statement-expression"@]
        }
    } else {
        Seq::empty()
    }
}

pub open spec fn default_flags(is_msvc: bool, gnu_supported: bool, byte_order_clean: bool) -> Seq<Seq<char>> {
    baseline_flags(is_msvc) + probed_flags(gnu_supported, byte_order_clean)
}

/// The name under which a module's finished configuration is published.
pub open spec fn key_of(module_name: Seq<char>) -> Seq<char> {
    "CRT_MODULE_"@ + module_name + "BUILD_CFG"@
}

pub open spec fn search_directives(path: Option<Seq<char>>) -> Seq<Seq<char>> {
    match path {
        Some(p) => seq!["cargo:rustc-link-search="@ + p],
        None => Seq::empty(),
    }
}

/// The lines that tell the host build where to find the artifact and what to
/// link: the search path, if any, then one line per link target.
pub open spec fn linker_lines(path: Option<Seq<char>>, targets: Seq<Seq<char>>) -> Seq<Seq<char>> {
    search_directives(path) + targets.map_values(|t: Seq<char>| "cargo:rustc-link-lib="@ + t)
}

fn push_flag_steps(out: &mut Vec<ToolchainStep>, flags: &Vec<String>, checked: bool)
    ensures
        step_views(final(out)@) == step_views(old(out)@) + flag_steps(string_views(flags@), checked),
{
    let mut i: usize = 0;
    while i < flags.len()
        invariant
            i <= flags@.len(),
            step_views(out@) == step_views(old(out)@) + flag_steps(string_views(flags@.take(i as int)), checked),
        decreases flags@.len() - i,
    {
        let f = flags[i].clone();
        let ghost prev = out@;
        if checked {
            out.push(ToolchainStep::FlagIfSupported(f));
        } else {
            out.push(ToolchainStep::Flag(f));
        }
        assert(step_views(out@) =~= step_views(prev).push(out@.last()@));
        assert(flags@.take(i + 1) =~= flags@.take(i as int).push(flags@[i as int]));
        assert(step_views(out@) =~= step_views(old(out)@) + flag_steps(string_views(flags@.take(i + 1)), checked));
        i = i + 1;
    }
    assert(flags@.take(flags@.len() as int) =~= flags@);
}

fn push_define_steps(out: &mut Vec<ToolchainStep>, defines: &Vec<(String, String)>)
    ensures
        step_views(final(out)@) == step_views(old(out)@) + define_steps(pair_views(defines@)),
{
    let mut i: usize = 0;
    while i < defines.len()
        invariant
            i <= defines@.len(),
            step_views(out@) == step_views(old(out)@) + define_steps(pair_views(defines@.take(i as int))),
        decreases defines@.len() - i,
    {
        let k = defines[i].0.clone();
        let v = defines[i].1.clone();
        let ghost prev = out@;
        out.push(ToolchainStep::Define(k, v));
        assert(step_views(out@) =~= step_views(prev).push(out@.last()@));
        assert(defines@.take(i + 1) =~= defines@.take(i as int).push(defines@[i as int]));
        assert(step_views(out@) =~= step_views(old(out)@) + define_steps(pair_views(defines@.take(i + 1))));
        i = i + 1;
    }
    assert(defines@.take(defines@.len() as int) =~= defines@);
}

fn push_include_steps(out: &mut Vec<ToolchainStep>, dirs: &Vec<String>)
    ensures
        step_views(final(out)@) == step_views(old(out)@) + include_steps(string_views(dirs@)),
{
    let mut i: usize = 0;
    while i < dirs.len()
        invariant
            i <= dirs@.len(),
            step_views(out@) == step_views(old(out)@) + include_steps(string_views(dirs@.take(i as int))),
        decreases dirs@.len() - i,
    {
        let d = dirs[i].clone();
        let ghost prev = out@;
        out.push(ToolchainStep::Include(d));
        assert(step_views(out@) =~= step_views(prev).push(out@.last()@));
        assert(dirs@.take(i + 1) =~= dirs@.take(i as int).push(dirs@[i as int]));
        assert(step_views(out@) =~= step_views(old(out)@) + include_steps(string_views(dirs@.take(i + 1))));
        i = i + 1;
    }
    assert(dirs@.take(dirs@.len() as int) =~= dirs@);
}

fn push_str(v: &mut Vec<String>, s: &str)
    ensures
        string_views(final(v)@) == string_views(old(v)@).push(s@),
{
    v.push(String::from_str(s));
    assert(string_views(v@) =~= string_views(old(v)@).push(s@));
}

/// The private flags a module gets by default: the baseline of its compiler
/// family, then what the probes allow.
pub fn default_private_flags(is_msvc: bool, gnu_supported: bool, byte_order_clean: bool) -> (r: Vec<String>)
    ensures
        string_views(r@) == default_flags(is_msvc, gnu_supported, byte_order_clean),
{
    let mut v: Vec<String> = Vec::new();
    if is_msvc {
        push_str(&mut v, "/W4");
        push_str(&mut v, "/WX");
        push_str(&mut v, "/MP");
        push_str(&mut v, "/volatile:iso");
        push_str(&mut v, "/wd4204");
        push_str(&mut v, "/wd4221");
    } else {
        push_str(&mut v, "-Wall");
        push_str(&mut v, "-Werror");
        push_str(&mut v, "-Wstrict-prototypes");
        push_str(&mut v, "-fno-omit-frame-pointer");
        push_str(&mut v, "-Wextra");
        push_str(&mut v, "-pedantic");
        push_str(&mut v, "-Wno-long-long");
        push_str(&mut v, "-fPIC");
    }
    assert(string_views(v@) =~= baseline_flags(is_msvc));
    if gnu_supported {
        push_str(&mut v, "-Wgnu");
        push_str(&mut v, "-Wno-gnu-zero-variadic-macro-arguments");
        if !byte_order_clean {
            push_str(&mut v, "-Wno-gnu-statement-expression");
        }
    }
    assert(string_views(v@) =~= default_flags(is_msvc, gnu_supported, byte_order_clean));
    v
}

/// Whether byte-order conversion builds cleanly under the GNU-extension
/// warnings. The probe matters only where those warnings are on; there, a
/// probe that was not run or did not compile counts as not clean.
pub fn byte_order_clean(gnu_supported: bool, probe_compiled: Option<bool>) -> (r: bool)
    ensures
        r == (!gnu_supported || probe_compiled == Some(true)),
{
    if !gnu_supported {
        true
    } else {
        match probe_compiled {
            Some(b) => b,
            None => false,
        }
    }
}

/// The name under which the finished configuration of `module_name` is
/// published for the modules that depend on it.
pub fn propagation_key(module_name: &str) -> (r: String)
    ensures
        r@ == key_of(module_name@),
{
    let mut k = String::from_str("CRT_MODULE_");
    k.append(module_name);
    k.append("BUILD_CFG");
    k
}

/// Where staged third-party headers go inside a build output directory.
pub fn staged_header_dir(out_dir: &str) -> (r: String)
    ensures
        r@ == out_dir@ + "/include"@,
{
    let mut d = String::from_str(out_dir);
    d.append("/include");
    d
}

/// Where a generated file at the relative path `to` goes inside a build
/// output directory.
pub fn generated_file_path(out_dir: &str, to: &str) -> (r: String)
    ensures
        r@ == out_dir@ + "/"@ + to@,
{
    let mut d = String::from_str(out_dir);
    d.append("/");
    d.append(to);
    d
}

impl CRTModuleBuildInfo {
    pub closed spec fn spec_module_name(&self) -> Seq<char> {
        self.crt_module_name@
    }

    pub closed spec fn spec_deps(&self) -> Seq<CRTModuleBuildInfo> {
        self.crt_module_deps@
    }

    pub closed spec fn spec_private_cflags(&self) -> Seq<Seq<char>> {
        string_views(self.private_cflags@)
    }

    pub closed spec fn spec_public_cflags(&self) -> Seq<Seq<char>> {
        string_views(self.public_cflags@)
    }

    pub closed spec fn spec_private_defines(&self) -> Seq<(Seq<char>, Seq<char>)> {
        pair_views(self.private_defines@)
    }

    pub closed spec fn spec_public_defines(&self) -> Seq<(Seq<char>, Seq<char>)> {
        pair_views(self.public_defines@)
    }

    pub closed spec fn spec_link_targets(&self) -> Seq<Seq<char>> {
        string_views(self.link_targets@)
    }

    pub closed spec fn spec_shared_lib(&self) -> bool {
        self.shared_lib
    }

    pub closed spec fn spec_lib_name(&self) -> Seq<char> {
        self.lib_name@
    }

    pub closed spec fn spec_linker_path(&self) -> Option<Seq<char>> {
        match self.linker_path {
            Some(p) => Some(p@),
            None => None,
        }
    }

    pub closed spec fn spec_include_dirs(&self) -> Seq<Seq<char>> {
        string_views(self.include_dirs@)
    }

    /// The compiler driver, with the record of what it was given.
    pub closed spec fn spec_driver(&self) -> Toolchain {
        self.build_toolchain
    }

    /// A fresh configuration for `module_name`, with nothing added, a static
    /// library of the same name, and `out_dir` as the linker search path.
    pub fn new(module_name: &str, out_dir: &str) -> (r: CRTModuleBuildInfo)
        ensures
            r.spec_module_name() == module_name@,
            r.spec_lib_name() == module_name@,
            r.spec_deps().len() == 0,
            r.spec_private_cflags().len() == 0,
            r.spec_public_cflags().len() == 0,
            r.spec_private_defines().len() == 0,
            r.spec_public_defines().len() == 0,
            r.spec_link_targets().len() == 0,
            r.spec_include_dirs().len() == 0,
            !r.spec_shared_lib(),
            r.spec_linker_path() == Some(out_dir@),
            r.spec_driver().settings().len() == 0,
            r.spec_driver().files().len() == 0,
            r.spec_driver().last_compile() is None,
    {
        CRTModuleBuildInfo {
            crt_module_name: String::from_str(module_name),
            crt_module_deps: Vec::new(),
            private_cflags: Vec::new(),
            public_cflags: Vec::new(),
            private_defines: Vec::new(),
            public_defines: Vec::new(),
            link_targets: Vec::new(),
            shared_lib: false,
            lib_name: String::from_str(module_name),
            linker_path: Some(String::from_str(out_dir)),
            include_dirs: Vec::new(),
            build_toolchain: Toolchain::new(),
        }
    }

    /// Embeds the published configuration of `dependency`, as the caller
    /// looked it up; a lookup that found nothing is an unresolved dependency,
    /// and the configuration is left as it was.
    pub fn add_module_dependency(&mut self, dependency: &str, published: Option<CRTModuleBuildInfo>) -> (r: Result<(), BuildError>)
        ensures
            match published {
                None => r matches Err(BuildError::UnresolvedDependency(name)) && name@ == dependency@
                    && unchanged_except(*final(self), *old(self), Part::Deps)
                    && final(self).spec_deps() == old(self).spec_deps(),
                Some(cfg) => r is Ok && final(self).spec_deps() == old(self).spec_deps().push(cfg)
                    && unchanged_except(*final(self), *old(self), Part::Deps),
            },
    {
        match published {
            Some(cfg) => {
                self.crt_module_deps.push(cfg);
                Ok(())
            },
            None => Err(BuildError::UnresolvedDependency(String::from_str(dependency))),
        }
    }

    /// Adds a flag for this module and for every module that declares a
    /// dependency on it.
    pub fn add_public_cflag(&mut self, c_flag: &str)
        ensures
            final(self).spec_public_cflags() == old(self).spec_public_cflags().push(c_flag@),
            unchanged_except(*final(self), *old(self), Part::PublicFlags),
    {
        push_str(&mut self.public_cflags, c_flag);
    }

    /// Adds a flag for this module only.
    pub fn add_private_cflag(&mut self, c_flag: &str)
        ensures
            final(self).spec_private_cflags() == old(self).spec_private_cflags().push(c_flag@),
            unchanged_except(*final(self), *old(self), Part::PrivateFlags),
    {
        push_str(&mut self.private_cflags, c_flag);
    }

    /// Adds the definition `key=val` for this module only.
    pub fn add_private_define(&mut self, key: &str, val: &str)
        ensures
            final(self).spec_private_defines() == old(self).spec_private_defines().push((key@, val@)),
            unchanged_except(*final(self), *old(self), Part::PrivateDefines),
    {
        self.private_defines.push((String::from_str(key), String::from_str(val)));
        assert(self.spec_private_defines() =~= old(self).spec_private_defines().push((key@, val@)));
    }

    /// Adds the definition `key=val` for this module and for every module
    /// that declares a dependency on it.
    pub fn add_public_define(&mut self, key: &str, val: &str)
        ensures
            final(self).spec_public_defines() == old(self).spec_public_defines().push((key@, val@)),
            unchanged_except(*final(self), *old(self), Part::PublicDefines),
    {
        self.public_defines.push((String::from_str(key), String::from_str(val)));
        assert(self.spec_public_defines() =~= old(self).spec_public_defines().push((key@, val@)));
    }

    /// Adds a library to link against, such as `crypto` or
    /// `framework=Security`.
    pub fn add_link_target(&mut self, l_flag: &str)
        ensures
            final(self).spec_link_targets() == old(self).spec_link_targets().push(l_flag@),
            unchanged_except(*final(self), *old(self), Part::LinkTargets),
    {
        push_str(&mut self.link_targets, l_flag);
    }

    /// Builds this module as a shared library; the default is static.
    pub fn make_shared_lib(&mut self)
        ensures
            final(self).spec_shared_lib(),
            unchanged_except(*final(self), *old(self), Part::SharedLib),
    {
        self.shared_lib = true;
    }

    /// Sets the directory in which the linker looks for the built library.
    pub fn set_linker_search_path(&mut self, path: &str)
        ensures
            final(self).spec_linker_path() == Some(path@),
            unchanged_except(*final(self), *old(self), Part::LinkerPath),
    {
        self.linker_path = Some(String::from_str(path));
    }

    /// Adds a directory of headers to the build, visible to dependents too.
    pub fn add_third_party_include_dir(&mut self, dir: &str)
        ensures
            final(self).spec_include_dirs() == old(self).spec_include_dirs().push(dir@),
            unchanged_except(*final(self), *old(self), Part::HeaderDirs),
    {
        push_str(&mut self.include_dirs, dir);
    }

    /// Adds a source file to compile.
    pub fn add_file_to_build(&mut self, path: &str)
        ensures
            same_settings(*final(self), *old(self)),
            final(self).spec_driver().files() == old(self).spec_driver().files().push(path@),
            final(self).spec_driver().settings() == old(self).spec_driver().settings(),
            final(self).spec_driver().last_compile() == old(self).spec_driver().last_compile(),
    {
        toolchain_add_file(&mut self.build_toolchain, path);
    }

    /// The compiler driver that the build uses.
    pub fn get_toolchain(&self) -> (r: &cc::Build)
        ensures
            *r == self.spec_driver().build(),
    {
        self.build_toolchain.get_build()
    }

    /// Appends the default private flags for the compiler family and the
    /// probe results given.
    pub fn add_default_flags(&mut self, is_msvc: bool, gnu_supported: bool, byte_order_clean: bool)
        ensures
            final(self).spec_private_cflags() == old(self).spec_private_cflags() + default_flags(
                is_msvc,
                gnu_supported,
                byte_order_clean,
            ),
            unchanged_except(*final(self), *old(self), Part::PrivateFlags),
    {
        let defaults = default_private_flags(is_msvc, gnu_supported, byte_order_clean);
        let mut i: usize = 0;
        while i < defaults.len()
            invariant
                i <= defaults@.len(),
                string_views(defaults@) == default_flags(is_msvc, gnu_supported, byte_order_clean),
                self.spec_private_cflags() == old(self).spec_private_cflags() + string_views(defaults@).take(i as int),
                unchanged_except(*self, *old(self), Part::PrivateFlags),
            decreases defaults@.len() - i,
        {
            let f = defaults[i].clone();
            let ghost prev = self.spec_private_cflags();
            self.private_cflags.push(f);
            assert(self.spec_private_cflags() =~= prev.push(f@));
            assert(string_views(defaults@).take(i + 1) =~= string_views(defaults@).take(i as int).push(f@));
            i = i + 1;
        }
        assert(string_views(defaults@).take(defaults@.len() as int) =~= string_views(defaults@));
    }

    /// Whether the compiler driver takes MSVC-style arguments, or why the
    /// compiler could not be determined.
    pub fn is_msvc_toolchain(&self) -> (r: Result<bool, BuildError>)
        ensures
            r is Err ==> r matches Err(BuildError::CompilerDetection(_)),
    {
        match toolchain_is_msvc(&self.build_toolchain) {
            Ok(b) => Ok(b),
            Err(e) => Err(BuildError::CompilerDetection(error_text(&e))),
        }
    }

    /// Whether the compiler accepts the GNU-extension warning flag; a probe
    /// that could not run counts as no.
    pub fn gnu_warnings_supported(&self) -> bool {
        match toolchain_flag_supported(&self.build_toolchain, "-Wgnu") {
            Ok(b) => b,
            Err(_) => false,
        }
    }

    /// Adds the default private flags, then hands every setting of the
    /// resulting plan to the compiler driver, in order. Returns that plan.
    pub fn load_to_build(&mut self, is_msvc: bool, gnu_supported: bool, byte_order_clean: bool) -> (r: Vec<ToolchainStep>)
        ensures
            final(self).spec_private_cflags() == old(self).spec_private_cflags() + default_flags(
                is_msvc,
                gnu_supported,
                byte_order_clean,
            ),
            settings_unchanged_except(*final(self), *old(self), Part::PrivateFlags),
            step_views(r@) == build_plan(*final(self)),
            final(self).spec_driver().settings() == old(self).spec_driver().settings() + build_plan(*final(self)),
            final(self).spec_driver().files() == old(self).spec_driver().files(),
            final(self).spec_driver().last_compile() == old(self).spec_driver().last_compile(),
    {
        self.add_default_flags(is_msvc, gnu_supported, byte_order_clean);
        let plan = self.toolchain_plan();
        let ghost before = self.spec_driver();
        let mut i: usize = 0;
        while i < plan.len()
            invariant
                i <= plan@.len(),
                self.spec_private_cflags() == old(self).spec_private_cflags() + default_flags(
                    is_msvc,
                    gnu_supported,
                    byte_order_clean,
                ),
                settings_unchanged_except(*self, *old(self), Part::PrivateFlags),
                step_views(plan@) == build_plan(*self),
                before == old(self).spec_driver(),
                self.spec_driver().settings() == before.settings() + step_views(plan@).take(i as int),
                self.spec_driver().files() == before.files(),
                self.spec_driver().last_compile() == before.last_compile(),
            decreases plan@.len() - i,
        {
            let ghost prev = self.spec_driver().settings();
            match &plan[i] {
                ToolchainStep::FlagIfSupported(f) => toolchain_flag_if_supported(&mut self.build_toolchain, f.as_str()),
                ToolchainStep::Flag(f) => toolchain_flag(&mut self.build_toolchain, f.as_str()),
                ToolchainStep::Define(k, v) => toolchain_define(&mut self.build_toolchain, k.as_str(), v.as_str()),
                ToolchainStep::Include(d) => toolchain_include(&mut self.build_toolchain, d.as_str()),
                ToolchainStep::Shared => toolchain_shared(&mut self.build_toolchain),
            }
            assert(self.spec_driver().settings() == prev.push(plan@[i as int]@));
            assert(step_views(plan@).take(i + 1) =~= step_views(plan@).take(i as int).push(plan@[i as int]@));
            i = i + 1;
        }
        assert(step_views(plan@).take(plan@.len() as int) =~= step_views(plan@));
        plan
    }

    /// Asks the compiler driver, with the settings and source files it holds,
    /// to build the module's library under its library name. Fails with a
    /// compilation error exactly when the driver reports failure.
    pub fn compile(&mut self) -> (r: Result<(), BuildError>)
        ensures
            final(self).spec_driver().last_compile() == Some(
                CompileRecord {
                    settings: old(self).spec_driver().settings(),
                    files: old(self).spec_driver().files(),
                    output: old(self).spec_lib_name(),
                    succeeded: r is Ok,
                },
            ),
            r is Err ==> r matches Err(BuildError::Compilation(_)),
            same_settings(*final(self), *old(self)),
            final(self).spec_driver().settings() == old(self).spec_driver().settings(),
            final(self).spec_driver().files() == old(self).spec_driver().files(),
    {
        match toolchain_compile(&mut self.build_toolchain, self.lib_name.as_str()) {
            Ok(()) => Ok(()),
            Err(e) => Err(BuildError::Compilation(error_text(&e))),
        }
    }

    /// The lines for the host build: the linker search path, if set, then one
    /// line per link target in the order they were added.
    pub fn linker_directives(&self) -> (r: Vec<String>)
        ensures
            string_views(r@) == linker_lines(self.spec_linker_path(), self.spec_link_targets()),
    {
        let mut out: Vec<String> = Vec::new();
        match &self.linker_path {
            Some(p) => {
                let mut line = String::from_str("cargo:rustc-link-search=");
                line.append(p.as_str());
                out.push(line);
            },
            None => {},
        }
        assert(string_views(out@) =~= search_directives(self.spec_linker_path()));
        let ghost targets = self.spec_link_targets();
        let mut i: usize = 0;
        while i < self.link_targets.len()
            invariant
                i <= targets.len(),
                targets == self.spec_link_targets(),
                string_views(out@) == search_directives(self.spec_linker_path()) + targets.take(i as int).map_values(
                    |t: Seq<char>| "cargo:rustc-link-lib="@ + t,
                ),
            decreases targets.len() - i,
        {
            let mut line = String::from_str("cargo:rustc-link-lib=");
            line.append(self.link_targets[i].as_str());
            let ghost prev = out@;
            out.push(line);
            assert(string_views(out@) =~= string_views(prev).push(line@));
            assert(targets.take(i + 1) =~= targets.take(i as int).push(targets[i as int]));
            assert(targets.take(i + 1).map_values(|t: Seq<char>| "cargo:rustc-link-lib="@ + t)
                =~= targets.take(i as int).map_values(|t: Seq<char>| "cargo:rustc-link-lib="@ + t).push(line@));
            i = i + 1;
        }
        assert(targets.take(targets.len() as int) =~= targets);
        out
    }

    /// The settings handed to the compiler driver for this module, in the
    /// order in which they are applied.
    pub fn toolchain_plan(&self) -> (r: Vec<ToolchainStep>)
        ensures
            step_views(r@) == build_plan(*self),
    {
        let mut out: Vec<ToolchainStep> = Vec::new();
        assert(step_views(out@) =~= Seq::empty());
        push_flag_steps(&mut out, &self.private_cflags, true);
        push_flag_steps(&mut out, &self.public_cflags, true);
        push_define_steps(&mut out, &self.private_defines);
        push_define_steps(&mut out, &self.public_defines);
        push_include_steps(&mut out, &self.include_dirs);
        assert(step_views(out@) =~= own_steps(*self));
        let mut i: usize = 0;
        while i < self.crt_module_deps.len()
            invariant
                i <= self.spec_deps().len(),
                step_views(out@) == own_steps(*self) + dependency_steps(self.spec_deps().take(i as int)),
            decreases self.spec_deps().len() - i,
        {
            let dep = &self.crt_module_deps[i];
            push_flag_steps(&mut out, &dep.public_cflags, false);
            push_define_steps(&mut out, &dep.public_defines);
            push_include_steps(&mut out, &dep.include_dirs);
            assert(self.spec_deps().take(i + 1).drop_last() =~= self.spec_deps().take(i as int));
            assert(step_views(out@) =~= own_steps(*self) + dependency_steps(self.spec_deps().take(i + 1)));
            i = i + 1;
        }
        assert(self.spec_deps().take(self.spec_deps().len() as int) =~= self.spec_deps());
        if self.shared_lib {
            out.push(ToolchainStep::Shared);
        }
        assert(step_views(out@) =~= build_plan(*self));
        out
    }
    /// A configuration assembled from its parts, as read back from a
    /// published configuration, with a fresh compiler driver.
    pub fn from_parts(
        module_name: String,
        deps: Vec<CRTModuleBuildInfo>,
        private_cflags: Vec<String>,
        public_cflags: Vec<String>,
        private_defines: Vec<(String, String)>,
        public_defines: Vec<(String, String)>,
        link_targets: Vec<String>,
        shared_lib: bool,
        lib_name: String,
        linker_path: Option<String>,
        include_dirs: Vec<String>,
    ) -> (r: CRTModuleBuildInfo)
        ensures
            r.spec_module_name() == module_name@,
            r.spec_deps() == deps@,
            r.spec_private_cflags() == string_views(private_cflags@),
            r.spec_public_cflags() == string_views(public_cflags@),
            r.spec_private_defines() == pair_views(private_defines@),
            r.spec_public_defines() == pair_views(public_defines@),
            r.spec_link_targets() == string_views(link_targets@),
            r.spec_shared_lib() == shared_lib,
            r.spec_lib_name() == lib_name@,
            r.spec_linker_path() == (match linker_path {
                Some(p) => Some(p@),
                None => None,
            }),
            r.spec_include_dirs() == string_views(include_dirs@),
            r.spec_driver().settings().len() == 0,
            r.spec_driver().files().len() == 0,
            r.spec_driver().last_compile() is None,
    {
        CRTModuleBuildInfo {
            crt_module_name: module_name,
            crt_module_deps: deps,
            private_cflags,
            public_cflags,
            private_defines,
            public_defines,
            link_targets,
            shared_lib,
            lib_name,
            linker_path,
            include_dirs,
            build_toolchain: Toolchain::new(),
        }
    }

    pub fn module_name(&self) -> (r: &String)
        ensures
            r@ == self.spec_module_name(),
    {
        &self.crt_module_name
    }

    pub fn lib_name(&self) -> (r: &String)
        ensures
            r@ == self.spec_lib_name(),
    {
        &self.lib_name
    }

    pub fn dependencies(&self) -> (r: &Vec<CRTModuleBuildInfo>)
        ensures
            r@ == self.spec_deps(),
    {
        &self.crt_module_deps
    }

    pub fn private_cflags(&self) -> (r: &Vec<String>)
        ensures
            string_views(r@) == self.spec_private_cflags(),
    {
        &self.private_cflags
    }

    pub fn public_cflags(&self) -> (r: &Vec<String>)
        ensures
            string_views(r@) == self.spec_public_cflags(),
    {
        &self.public_cflags
    }

    pub fn private_defines(&self) -> (r: &Vec<(String, String)>)
        ensures
            pair_views(r@) == self.spec_private_defines(),
    {
        &self.private_defines
    }

    pub fn public_defines(&self) -> (r: &Vec<(String, String)>)
        ensures
            pair_views(r@) == self.spec_public_defines(),
    {
        &self.public_defines
    }

    pub fn link_targets(&self) -> (r: &Vec<String>)
        ensures
            string_views(r@) == self.spec_link_targets(),
    {
        &self.link_targets
    }

    pub fn is_shared_lib(&self) -> (r: bool)
        ensures
            r == self.spec_shared_lib(),
    {
        self.shared_lib
    }

    pub fn linker_path(&self) -> (r: &Option<String>)
        ensures
            self.spec_linker_path() == (match r {
                Some(p) => Some(p@),
                None => None,
            }),
    {
        &self.linker_path
    }

    pub fn include_dirs(&self) -> (r: &Vec<String>)
        ensures
            string_views(r@) == self.spec_include_dirs(),
    {
        &self.include_dirs
    }
}

} // verus!
