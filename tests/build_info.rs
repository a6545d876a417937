use aws_crt_c_flags::{
    byte_order_clean, default_private_flags, generated_file_path, propagation_key, staged_header_dir, BuildError,
    CRTModuleBuildInfo, ToolchainStep,
};

fn s(x: &str) -> String {
    x.to_string()
}

fn published(
    name: &str,
    private_flags: &[&str],
    public_flags: &[&str],
    public_defines: &[(&str, &str)],
    dirs: &[&str],
    deps: Vec<CRTModuleBuildInfo>,
) -> CRTModuleBuildInfo {
    CRTModuleBuildInfo::from_parts(
        s(name),
        deps,
        private_flags.iter().map(|f| s(f)).collect(),
        public_flags.iter().map(|f| s(f)).collect(),
        vec![(s("PRIVATE_ONLY"), s("1"))],
        public_defines.iter().map(|(k, v)| (s(k), s(v))).collect(),
        vec![],
        false,
        s(name),
        Some(s("/out")),
        dirs.iter().map(|d| s(d)).collect(),
    )
}

#[test]
fn new_starts_empty() {
    let b = CRTModuleBuildInfo::new("aws_crt_common_sys", "/out");
    assert_eq!(b.module_name(), "aws_crt_common_sys");
    assert_eq!(b.lib_name(), "aws_crt_common_sys");
    assert!(b.dependencies().is_empty());
    assert!(b.private_cflags().is_empty());
    assert!(b.public_cflags().is_empty());
    assert!(b.private_defines().is_empty());
    assert!(b.public_defines().is_empty());
    assert!(b.link_targets().is_empty());
    assert!(b.include_dirs().is_empty());
    assert!(!b.is_shared_lib());
    assert_eq!(b.linker_path(), &Some(s("/out")));
    assert!(b.toolchain_plan().is_empty());
}

#[test]
fn accumulators_keep_order() {
    let mut b = CRTModuleBuildInfo::new("m", "/out");
    b.add_public_cflag("-fPIC");
    b.add_public_cflag("-O2");
    b.add_private_cflag("-Wall");
    b.add_private_define("A", "1");
    b.add_public_define("B", "2");
    b.add_public_define("B", "3");
    b.add_link_target("crypto");
    b.add_link_target("framework=Security");
    b.add_third_party_include_dir("/opt/inc");
    b.set_linker_search_path("/opt/lib");
    b.make_shared_lib();
    assert_eq!(b.public_cflags(), &vec![s("-fPIC"), s("-O2")]);
    assert_eq!(b.private_cflags(), &vec![s("-Wall")]);
    assert_eq!(b.private_defines(), &vec![(s("A"), s("1"))]);
    assert_eq!(b.public_defines(), &vec![(s("B"), s("2")), (s("B"), s("3"))]);
    assert_eq!(b.link_targets(), &vec![s("crypto"), s("framework=Security")]);
    assert_eq!(b.include_dirs(), &vec![s("/opt/inc")]);
    assert_eq!(b.linker_path(), &Some(s("/opt/lib")));
    assert!(b.is_shared_lib());
}

#[test]
fn plan_without_dependencies_is_own_settings() {
    let mut b = CRTModuleBuildInfo::new("m", "/out");
    b.add_public_cflag("-fPIC");
    b.add_private_cflag("-Wall");
    b.add_public_define("P", "1");
    b.add_private_define("Q", "2");
    b.add_third_party_include_dir("/inc");
    b.make_shared_lib();
    assert_eq!(
        b.toolchain_plan(),
        vec![
            ToolchainStep::FlagIfSupported(s("-Wall")),
            ToolchainStep::FlagIfSupported(s("-fPIC")),
            ToolchainStep::Define(s("Q"), s("2")),
            ToolchainStep::Define(s("P"), s("1")),
            ToolchainStep::Include(s("/inc")),
            ToolchainStep::Shared,
        ]
    );
}

#[test]
fn dependency_public_settings_visible_private_hidden() {
    let dep = published("dep", &["-Wsecret"], &["-DPUB"], &[("V", "1")], &["/dep/inc"], vec![]);
    let mut b = CRTModuleBuildInfo::new("m", "/out");
    assert_eq!(b.add_module_dependency("dep", Some(dep)), Ok(()));
    assert_eq!(b.dependencies().len(), 1);
    let plan = b.toolchain_plan();
    assert_eq!(
        plan,
        vec![
            ToolchainStep::Flag(s("-DPUB")),
            ToolchainStep::Define(s("V"), s("1")),
            ToolchainStep::Include(s("/dep/inc")),
        ]
    );
    assert!(!plan.iter().any(|t| matches!(t, ToolchainStep::Flag(f) | ToolchainStep::FlagIfSupported(f) if f == "-Wsecret")));
    assert!(!plan.iter().any(|t| matches!(t, ToolchainStep::Define(k, _) if k == "PRIVATE_ONLY")));
}

#[test]
fn two_levels_visible_when_reexposed() {
    let c = published("c", &[], &["-DC_FLAG"], &[("C_DEF", "1")], &[], vec![]);
    let c_again = published("c", &[], &["-DC_FLAG"], &[("C_DEF", "1")], &[], vec![]);
    let b = published("b", &[], &["-DC_FLAG"], &[("C_DEF", "1")], &[], vec![c]);
    let b_hidden = published("b", &[], &[], &[], &[], vec![c_again]);
    let mut a = CRTModuleBuildInfo::new("a", "/out");
    a.add_module_dependency("b", Some(b)).unwrap();
    let plan = a.toolchain_plan();
    assert!(plan.contains(&ToolchainStep::Flag(s("-DC_FLAG"))));
    assert!(plan.contains(&ToolchainStep::Define(s("C_DEF"), s("1"))));
    let mut a2 = CRTModuleBuildInfo::new("a2", "/out");
    a2.add_module_dependency("b", Some(b_hidden)).unwrap();
    assert!(a2.toolchain_plan().is_empty());
}

#[test]
fn unresolved_dependency_is_an_error() {
    let mut b = CRTModuleBuildInfo::new("m", "/out");
    let r = b.add_module_dependency("aws_crt_comon_sys", None);
    assert_eq!(r, Err(BuildError::UnresolvedDependency(s("aws_crt_comon_sys"))));
    assert!(b.dependencies().is_empty());
}

#[test]
fn one_hop_visibility_example() {
    let mut common = CRTModuleBuildInfo::new("common", "/out/common");
    common.add_public_define("COMMON_VERSION", "2");
    let common_pub = published("common", &[], &[], &[("COMMON_VERSION", "2")], &[], vec![]);
    assert_eq!(common.public_defines(), common_pub.public_defines());

    let mut checksums = CRTModuleBuildInfo::new("checksums", "/out/checksums");
    checksums.add_module_dependency("common", Some(common_pub)).unwrap();
    checksums.add_private_cflag("-O3");
    let plan = checksums.toolchain_plan();
    assert!(plan.contains(&ToolchainStep::Define(s("COMMON_VERSION"), s("2"))));
    assert!(plan.contains(&ToolchainStep::FlagIfSupported(s("-O3"))));

    let checksums_pub = published("checksums", &["-O3"], &[], &[], &[], vec![published("common", &[], &[], &[("COMMON_VERSION", "2")], &[], vec![])]);
    let mut third = CRTModuleBuildInfo::new("third", "/out/third");
    third.add_module_dependency("checksums", Some(checksums_pub)).unwrap();
    let plan = third.toolchain_plan();
    assert!(!plan.iter().any(|t| matches!(t, ToolchainStep::Flag(f) | ToolchainStep::FlagIfSupported(f) if f == "-O3")));
    assert!(!plan.iter().any(|t| matches!(t, ToolchainStep::Define(k, _) if k == "COMMON_VERSION")));

    let reexposed = published("checksums", &["-O3"], &[], &[("COMMON_VERSION", "2")], &[], vec![]);
    let mut fourth = CRTModuleBuildInfo::new("fourth", "/out/fourth");
    fourth.add_module_dependency("checksums", Some(reexposed)).unwrap();
    assert!(fourth.toolchain_plan().contains(&ToolchainStep::Define(s("COMMON_VERSION"), s("2"))));
}

#[test]
fn posix_baseline_flags() {
    let f = default_private_flags(false, false, true);
    for want in ["-Wall", "-Werror", "-fPIC"] {
        assert!(f.contains(&s(want)));
    }
    assert_eq!(f.len(), 8);
    assert!(!f.iter().any(|x| x.starts_with('/')));
}

#[test]
fn msvc_baseline_flags() {
    let f = default_private_flags(true, false, true);
    assert!(f.contains(&s("/W4")));
    assert!(f.contains(&s("/WX")));
    let posix = default_private_flags(false, false, true);
    assert!(!f.iter().any(|x| posix.contains(x)));
    assert_eq!(f, vec![s("/W4"), s("/WX"), s("/MP"), s("/volatile:iso"), s("/wd4204"), s("/wd4221")]);
}

#[test]
fn probed_flags_follow_probe_results() {
    let f = default_private_flags(false, true, true);
    assert_eq!(&f[8..], &[s("-Wgnu"), s("-Wno-gnu-zero-variadic-macro-arguments")]);
    let g = default_private_flags(false, true, false);
    assert_eq!(g.last(), Some(&s("-Wno-gnu-statement-expression")));
    assert_eq!(g.len(), 11);
}

#[test]
fn propagation_key_wraps_module_name() {
    assert_eq!(propagation_key("aws_crt_common_sys"), "CRT_MODULE_aws_crt_common_sysBUILD_CFG");
    assert_ne!(propagation_key("common"), propagation_key("comon"));
}

#[test]
fn linker_directives_in_order() {
    let mut b = CRTModuleBuildInfo::new("m", "/out");
    b.add_link_target("crypto");
    b.add_link_target("framework=Security");
    assert_eq!(
        b.linker_directives(),
        vec![
            s("cargo:rustc-link-search=/out"),
            s("cargo:rustc-link-lib=crypto"),
            s("cargo:rustc-link-lib=framework=Security"),
        ]
    );
}

#[test]
fn output_paths() {
    assert_eq!(staged_header_dir("/out"), "/out/include");
    assert_eq!(generated_file_path("/out", "include/aws/common/config.h"), "/out/include/aws/common/config.h");
}

#[test]
fn load_to_build_adds_defaults_then_applies_plan() {
    let mut b = CRTModuleBuildInfo::new("m", "/out");
    b.add_private_cflag("-O3");
    b.add_public_define("X", "1");
    let plan = b.load_to_build(false, false, true);
    assert_eq!(b.private_cflags()[0], "-O3");
    assert_eq!(&b.private_cflags()[1..], &default_private_flags(false, false, true)[..]);
    assert_eq!(plan, b.toolchain_plan());
    assert_eq!(plan[0], ToolchainStep::FlagIfSupported(s("-O3")));
    assert_eq!(plan.last(), Some(&ToolchainStep::Define(s("X"), s("1"))));
}

#[test]
fn parts_round_trip() {
    let b = published("rt", &["-a"], &["-b"], &[("K", "V")], &["/d"], vec![]);
    let c = CRTModuleBuildInfo::from_parts(
        b.module_name().clone(),
        vec![],
        b.private_cflags().clone(),
        b.public_cflags().clone(),
        b.private_defines().clone(),
        b.public_defines().clone(),
        b.link_targets().clone(),
        b.is_shared_lib(),
        b.lib_name().clone(),
        b.linker_path().clone(),
        b.include_dirs().clone(),
    );
    assert_eq!(c.toolchain_plan(), b.toolchain_plan());
    assert_eq!(c.linker_directives(), b.linker_directives());
}

#[test]
fn compile_failure_is_a_compilation_error() {
    let mut b = CRTModuleBuildInfo::new("m", "/nonexistent/out");
    b.add_file_to_build("/nonexistent/source.c");
    let r = b.compile();
    assert!(matches!(r, Err(BuildError::Compilation(_))));
}

#[test]
fn byte_order_clean_follows_probe() {
    assert!(byte_order_clean(false, None));
    assert!(byte_order_clean(false, Some(false)));
    assert!(byte_order_clean(true, Some(true)));
    assert!(!byte_order_clean(true, Some(false)));
    assert!(!byte_order_clean(true, None));
}

#[test]
fn undetectable_compiler_is_an_error() {
    let b = CRTModuleBuildInfo::new("m", "/nonexistent/out");
    let r = b.is_msvc_toolchain();
    assert!(matches!(r, Err(BuildError::CompilerDetection(_))));
}
