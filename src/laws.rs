//! What holds of every configuration: how settings travel, or do not, from
//! a module to the modules that depend on it.

use crate::build_info::{
    baseline_flags, build_plan, dependency_steps, key_of, own_steps, public_steps, shared_steps,
    CRTModuleBuildInfo,
};
use crate::toolchain::{CompileRecord, StepModel};
use vstd::prelude::*;

verus! {

proof fn lemma_dependency_steps(deps: Seq<CRTModuleBuildInfo>)
    ensures
        forall|j: int, k: int|
            0 <= j < deps.len() && 0 <= k < public_steps(deps[j]).len() ==> dependency_steps(deps).contains(
                #[trigger] public_steps(deps[j])[k],
            ),
        forall|s: StepModel|
            dependency_steps(deps).contains(s) ==> exists|j: int|
                0 <= j < deps.len() && #[trigger] public_steps(deps[j]).contains(s),
    decreases deps.len(),
{
    if deps.len() > 0 {
        let init = deps.drop_last();
        lemma_dependency_steps(init);
        let d = dependency_steps(deps);
        let a = dependency_steps(init);
        let b = public_steps(deps.last());
        assert(d == a + b);
        assert forall|j: int, k: int|
            0 <= j < deps.len() && 0 <= k < public_steps(deps[j]).len() implies d.contains(
                #[trigger] public_steps(deps[j])[k],
            ) by {
            if j < deps.len() - 1 {
                assert(init[j] == deps[j]);
                assert(a.contains(public_steps(init[j])[k]));
                let x = choose|x: int| 0 <= x < a.len() && a[x] == public_steps(init[j])[k];
                assert(d[x] == a[x]);
            } else {
                assert(d[a.len() + k] == b[k]);
            }
        }
        assert forall|s: StepModel| d.contains(s) implies exists|j: int|
            0 <= j < deps.len() && #[trigger] public_steps(deps[j]).contains(s) by {
            let x = choose|x: int| 0 <= x < d.len() && d[x] == s;
            if x < a.len() {
                assert(a[x] == s);
                assert(a.contains(s));
                let j = choose|j: int| 0 <= j < init.len() && #[trigger] public_steps(init[j]).contains(s);
                assert(init[j] == deps[j]);
            } else {
                assert(b[x - a.len()] == s);
                assert(public_steps(deps[deps.len() - 1]).contains(s));
            }
        }
    }
}

/// A module without dependencies is compiled with exactly its own flags,
/// definitions and header directories (and the shared-library switch, if
/// set): nothing from any other module.
pub proof fn lemma_own_settings_only(m: CRTModuleBuildInfo)
    requires
        m.spec_deps().len() == 0,
    ensures
        build_plan(m) == own_steps(m) + shared_steps(m),
{
    assert(dependency_steps(m.spec_deps()) =~= Seq::empty());
    assert(own_steps(m) + Seq::<StepModel>::empty() =~= own_steps(m));
}

/// Every public setting of every dependency reaches the module's compilation,
/// and every setting that reaches it is one of the module's own, the
/// shared-library switch, or a public setting of a dependency: a dependency's
/// private flags and definitions play no part.
pub proof fn lemma_dependency_visibility(m: CRTModuleBuildInfo)
    ensures
        forall|j: int, k: int|
            0 <= j < m.spec_deps().len() && 0 <= k < public_steps(m.spec_deps()[j]).len() ==> build_plan(
                m,
            ).contains(#[trigger] public_steps(m.spec_deps()[j])[k]),
        forall|s: StepModel|
            #[trigger] build_plan(m).contains(s) ==> own_steps(m).contains(s) || s == StepModel::Shared
                || exists|j: int| 0 <= j < m.spec_deps().len() && public_steps(m.spec_deps()[j]).contains(s),
{
    let deps = m.spec_deps();
    lemma_dependency_steps(deps);
    let o = own_steps(m);
    let d = dependency_steps(deps);
    let p = build_plan(m);
    assert(p == o + d + shared_steps(m));
    assert forall|j: int, k: int|
        0 <= j < deps.len() && 0 <= k < public_steps(deps[j]).len() implies p.contains(
            #[trigger] public_steps(deps[j])[k],
        ) by {
        let x = choose|x: int| 0 <= x < d.len() && d[x] == public_steps(deps[j])[k];
        assert(p[o.len() + x] == d[x]);
    }
    assert forall|s: StepModel| #[trigger] p.contains(s) implies o.contains(s) || s == StepModel::Shared
        || exists|j: int| 0 <= j < deps.len() && public_steps(deps[j]).contains(s) by {
        let x = choose|x: int| 0 <= x < p.len() && p[x] == s;
        if x < o.len() {
            assert(o[x] == s);
        } else if x < o.len() + d.len() {
            assert(d[x - o.len()] == s);
            assert(d.contains(s));
        } else {
            assert(shared_steps(m)[x - o.len() - d.len()] == s);
        }
    }
}

/// A compilation whose settings are a module's plan (what `load_to_build`
/// hands a fresh driver, and `compile` then passes on) receives every public
/// setting of every dependency, and no setting of a dependency that is not
/// public, unless the module itself or another dependency's public settings
/// hold it too.
pub proof fn lemma_compiled_dependency_visibility(m: CRTModuleBuildInfo, rec: CompileRecord)
    requires
        rec.settings == build_plan(m),
    ensures
        forall|j: int, k: int|
            0 <= j < m.spec_deps().len() && 0 <= k < public_steps(m.spec_deps()[j]).len() ==> rec.settings.contains(
                #[trigger] public_steps(m.spec_deps()[j])[k],
            ),
        forall|s: StepModel|
            #[trigger] rec.settings.contains(s) ==> own_steps(m).contains(s) || s == StepModel::Shared
                || exists|j: int| 0 <= j < m.spec_deps().len() && public_steps(m.spec_deps()[j]).contains(s),
{
    lemma_dependency_visibility(m);
}

/// Two levels: where `b`, a dependency of `a`, carries the public settings
/// of its own dependency `c` among its public settings, they reach `a`'s
/// compilation.
pub proof fn lemma_two_levels(a: CRTModuleBuildInfo, b: CRTModuleBuildInfo, c: CRTModuleBuildInfo)
    requires
        a.spec_deps().contains(b),
        b.spec_deps().contains(c),
        forall|s: StepModel| #[trigger] public_steps(c).contains(s) ==> public_steps(b).contains(s),
    ensures
        forall|s: StepModel| #[trigger] public_steps(c).contains(s) ==> build_plan(a).contains(s),
{
    lemma_dependency_visibility(a);
    let j = choose|j: int| 0 <= j < a.spec_deps().len() && a.spec_deps()[j] == b;
    assert forall|s: StepModel| #[trigger] public_steps(c).contains(s) implies build_plan(a).contains(s) by {
        let k = choose|k: int| 0 <= k < public_steps(b).len() && public_steps(b)[k] == s;
        assert(public_steps(a.spec_deps()[j])[k] == s);
    }
}

/// Publishing and looking up go by the same key, and no two module names
/// share a key, so a lookup finds the configuration of the module it names.
pub proof fn lemma_key_injective(a: Seq<char>, b: Seq<char>)
    requires
        key_of(a) == key_of(b),
    ensures
        a == b,
{
    reveal_strlit("CRT_MODULE_");
    reveal_strlit("BUILD_CFG");
    let n = "CRT_MODULE_"@.len();
    assert(key_of(a).len() == n + a.len() + "BUILD_CFG"@.len());
    assert(key_of(b).len() == n + b.len() + "BUILD_CFG"@.len());
    assert(a.len() == b.len());
    assert(a =~= key_of(a).subrange(n as int, (n + a.len()) as int));
    assert(b =~= key_of(b).subrange(n as int, (n + b.len()) as int));
}

/// A POSIX-style compiler gets `-Wall`, `-Werror` and `-fPIC`; an MSVC-style
/// one gets `/W4` and `/WX` and none of the POSIX flags.
pub proof fn lemma_baseline_by_family()
    ensures
        baseline_flags(false).contains("-Wall"@),
        baseline_flags(false).contains("-Werror"@),
        baseline_flags(false).contains("-fPIC"@),
        baseline_flags(true).contains("/W4"@),
        baseline_flags(true).contains("/WX"@),
        forall|f: Seq<char>| #[trigger] baseline_flags(false).contains(f) ==> !baseline_flags(true).contains(f),
{
    reveal_strlit("-Wall");
    reveal_strlit("-Werror");
    reveal_strlit("-Wstrict-prototypes");
    reveal_strlit("-fno-omit-frame-pointer");
    reveal_strlit("-Wextra");
    reveal_strlit("-pedantic");
    reveal_strlit("-Wno-long-long");
    reveal_strlit("-fPIC");
    reveal_strlit("/W4");
    reveal_strlit("/WX");
    reveal_strlit("/MP");
    reveal_strlit("/volatile:iso");
    reveal_strlit("/wd4204");
    reveal_strlit("/wd4221");
    let posix = baseline_flags(false);
    let msvc = baseline_flags(true);
    assert(posix[0] == "-Wall"@);
    assert(posix[1] == "-Werror"@);
    assert(posix[7] == "-fPIC"@);
    assert(msvc[0] == "/W4"@);
    assert(msvc[1] == "/WX"@);
    assert forall|i: int| 0 <= i < posix.len() implies #[trigger] posix[i][0] == '-' by {}
    assert forall|i: int| 0 <= i < msvc.len() implies #[trigger] msvc[i][0] == '/' by {}
    assert forall|f: Seq<char>| #[trigger] posix.contains(f) implies !msvc.contains(f) by {
        if msvc.contains(f) {
            let i = choose|i: int| 0 <= i < posix.len() && posix[i] == f;
            let k = choose|k: int| 0 <= k < msvc.len() && msvc[k] == f;
            assert(posix[i][0] == '-');
            assert(msvc[k][0] == '/');
        }
    }
}

} // verus!
