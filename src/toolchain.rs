//! The compiler driver, as seen from the verified code: a `cc::Build`
//! together with a record of what has been handed to it. Only the wrappers
//! below touch the `cc::Build`, and each states how the record changes.

use vstd::prelude::*;

verus! {

#[verifier::external_type_specification]
#[verifier::external_body]
pub struct ExBuild(cc::Build);

#[verifier::external_type_specification]
#[verifier::external_body]
pub struct ExCcError(cc::Error);

/// One setting handed to the compiler driver, over character sequences.
pub ghost enum StepModel {
    FlagIfSupported(Seq<char>),
    Flag(Seq<char>),
    Define(Seq<char>, Seq<char>),
    Include(Seq<char>),
    Shared,
}

/// A compilation the driver was asked for: the settings and source files it
/// held, the output name, and whether the driver reported success.
pub ghost struct CompileRecord {
    pub settings: Seq<StepModel>,
    pub files: Seq<Seq<char>>,
    pub output: Seq<char>,
    pub succeeded: bool,
}

/// A compiler driver and the record of what it was given.
pub struct Toolchain {
    build: cc::Build,
    settings: Ghost<Seq<StepModel>>,
    files: Ghost<Seq<Seq<char>>>,
    last_compile: Ghost<Option<CompileRecord>>,
}

impl Toolchain {
    /// The settings handed to the driver, in order.
    pub closed spec fn settings(&self) -> Seq<StepModel> {
        self.settings@
    }

    /// The source files handed to the driver, in order.
    pub closed spec fn files(&self) -> Seq<Seq<char>> {
        self.files@
    }

    /// The latest compilation asked of the driver, if any.
    pub closed spec fn last_compile(&self) -> Option<CompileRecord> {
        self.last_compile@
    }

    /// The underlying `cc::Build`.
    pub closed spec fn build(&self) -> cc::Build {
        self.build
    }

    pub(crate) fn new() -> (r: Toolchain)
        ensures
            r.settings() == Seq::<StepModel>::empty(),
            r.files() == Seq::<Seq<char>>::empty(),
            r.last_compile() is None,
    {
        Toolchain {
            build: new_build(),
            settings: Ghost(Seq::empty()),
            files: Ghost(Seq::empty()),
            last_compile: Ghost(None),
        }
    }

    pub(crate) fn get_build(&self) -> (r: &cc::Build)
        ensures
            *r == self.build(),
    {
        &self.build
    }
}

/// Relies on `cc::Build::new`: a driver with the default configuration.
#[verifier::external_body]
fn new_build() -> (r: cc::Build) {
    cc::Build::new()
}

/// Relies on `cc::Build::file`, which appends one source file.
#[verifier::external_body]
pub(crate) fn toolchain_add_file(t: &mut Toolchain, path: &str)
    ensures
        final(t).files() == old(t).files().push(path@),
        final(t).settings() == old(t).settings(),
        final(t).last_compile() == old(t).last_compile(),
{
    t.build.file(path);
}

/// Relies on `cc::Build::flag_if_supported`, which appends a flag that is
/// passed only if the compiler accepts it.
#[verifier::external_body]
pub(crate) fn toolchain_flag_if_supported(t: &mut Toolchain, flag: &str)
    ensures
        final(t).settings() == old(t).settings().push(StepModel::FlagIfSupported(flag@)),
        final(t).files() == old(t).files(),
        final(t).last_compile() == old(t).last_compile(),
{
    t.build.flag_if_supported(flag);
}

/// Relies on `cc::Build::flag`, which appends a flag passed unconditionally.
#[verifier::external_body]
pub(crate) fn toolchain_flag(t: &mut Toolchain, flag: &str)
    ensures
        final(t).settings() == old(t).settings().push(StepModel::Flag(flag@)),
        final(t).files() == old(t).files(),
        final(t).last_compile() == old(t).last_compile(),
{
    t.build.flag(flag);
}

/// Relies on `cc::Build::define`, which appends the definition `key=value`.
#[verifier::external_body]
pub(crate) fn toolchain_define(t: &mut Toolchain, key: &str, value: &str)
    ensures
        final(t).settings() == old(t).settings().push(StepModel::Define(key@, value@)),
        final(t).files() == old(t).files(),
        final(t).last_compile() == old(t).last_compile(),
{
    t.build.define(key, value);
}

/// Relies on `cc::Build::includes`, which appends each header search
/// directory it is given; here one.
#[verifier::external_body]
pub(crate) fn toolchain_include(t: &mut Toolchain, dir: &str)
    ensures
        final(t).settings() == old(t).settings().push(StepModel::Include(dir@)),
        final(t).files() == old(t).files(),
        final(t).last_compile() == old(t).last_compile(),
{
    t.build.includes([dir]);
}

/// Relies on `cc::Build::shared_flag`, which records the request for a
/// shared artifact.
#[verifier::external_body]
pub(crate) fn toolchain_shared(t: &mut Toolchain)
    ensures
        final(t).settings() == old(t).settings().push(StepModel::Shared),
        final(t).files() == old(t).files(),
        final(t).last_compile() == old(t).last_compile(),
{
    t.build.shared_flag(true);
}

/// Relies on `cc::Build::try_get_compiler` and `cc::Tool::is_like_msvc`:
/// whether the detected compiler takes MSVC-style arguments, or the error
/// that kept it from being detected.
#[verifier::external_body]
pub(crate) fn toolchain_is_msvc(t: &Toolchain) -> (r: Result<bool, cc::Error>) {
    match t.build.try_get_compiler() {
        Ok(tool) => Ok(tool.is_like_msvc()),
        Err(e) => Err(e),
    }
}

/// Relies on `cc::Build::is_flag_supported`: runs the compiler once to see
/// whether it accepts the flag.
#[verifier::external_body]
pub(crate) fn toolchain_flag_supported(t: &Toolchain, flag: &str) -> (r: Result<bool, cc::Error>) {
    t.build.is_flag_supported(flag)
}

/// Relies on `cc::Build::try_compile`: compiles and archives the configured
/// sources under the given output name, and reports failure as `Err`.
#[verifier::external_body]
pub(crate) fn toolchain_compile(t: &mut Toolchain, output: &str) -> (r: Result<(), cc::Error>)
    ensures
        final(t).last_compile() == Some(
            CompileRecord {
                settings: old(t).settings(),
                files: old(t).files(),
                output: output@,
                succeeded: r is Ok,
            },
        ),
        final(t).settings() == old(t).settings(),
        final(t).files() == old(t).files(),
{
    t.build.try_compile(output)
}

/// Relies on the `Display` impl of `cc::Error`: the driver's diagnostic text.
#[verifier::external_body]
pub(crate) fn error_text(e: &cc::Error) -> (r: String) {
    e.to_string()
}

} // verus!
