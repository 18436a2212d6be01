use dmg_bundle::args::{build_args, skip_jenkins, ConfigError};
use dmg_bundle::layout::compute_layout;
use dmg_bundle::path::{file_name, join};
use dmg_bundle::pipeline::{
    needs_app_bundle, produced_artifacts, sign_request, tool_invocation, PackageType,
};
use dmg_bundle::plan::{arch_label, dmg_name, plan_paths, MacOsSettings, PlanError, Settings};
use dmg_bundle::staging::{staging_plan, Resource, StageOp};
use dmg_bundle::text::{str_eq, to_decimal};

fn s(x: &str) -> String {
    x.to_string()
}

fn settings(arch: &str) -> Settings {
    Settings {
        project_out_directory: s("/work/target/release"),
        main_binary_name: Some(s("MyApp")),
        version: Some(s("1.0.0")),
        binary_arch: s(arch),
        macos: MacOsSettings {
            background: None,
            license: None,
            signing_identity: None,
            attachments: None,
        },
    }
}

fn head() -> Vec<String> {
    [
        "--no-internet-enable", "--volname", "MyApp", "--icon-size", "100", "--icon",
        "MyApp.app", "75", "64", "--app-drop-link", "396", "64", "--window-size", "571", "375",
        "--hide-extension", "MyApp.app",
    ]
    .iter()
    .map(|x| x.to_string())
    .collect()
}

#[test]
fn arch_x86_64_becomes_x64() {
    assert_eq!(arch_label("x86_64"), "x64");
    assert_eq!(dmg_name("MyApp", "1.0.0", "x86_64"), "MyApp_1.0.0_x64.dmg");
}

#[test]
fn other_arch_names_pass_through() {
    for a in ["aarch64", "x64", "x86", "X86_64", "x86_64 ", "", "universal"] {
        assert_eq!(arch_label(a), a);
    }
    assert_eq!(dmg_name("App", "2.1", "aarch64"), "App_2.1_aarch64.dmg");
}

#[test]
fn end_to_end_paths_and_args() {
    let st = settings("x86_64");
    let p = plan_paths(&st).unwrap();
    assert_eq!(p.dmg_path, "/work/target/release/bundle/dmg/MyApp_1.0.0_x64.dmg");
    assert_eq!(p.dmg_name, "MyApp_1.0.0_x64.dmg");
    assert_eq!(p.output_dir, "/work/target/release/bundle/dmg");
    assert_eq!(p.support_dir, "/work/target/release/bundle/dmg/support");
    assert_eq!(p.script_path, "/work/target/release/bundle/dmg/bundle_dmg.sh");
    assert_eq!(p.bundle_dir, "/work/target/release/bundle/macos");
    assert_eq!(p.bundle_file_name, "MyApp.app");
    assert_eq!(p.tool_output_path, "/work/target/release/bundle/macos/MyApp_1.0.0_x64.dmg");
    let args = build_args(&p, &st.macos, &None, "/work", &None).unwrap();
    assert_eq!(args, head());
    for flag in ["--add-file", "--volicon", "--background", "--eula", "--skip-jenkins"] {
        assert!(!args.iter().any(|a| a == flag));
    }
    let full = tool_invocation(args, &p);
    assert_eq!(full.len(), 19);
    assert_eq!(full[17], "MyApp_1.0.0_x64.dmg");
    assert_eq!(full[18], "MyApp.app");
    assert_eq!(produced_artifacts(&p), vec![s("/work/target/release/bundle/dmg/MyApp_1.0.0_x64.dmg")]);
    assert!(sign_request(&p, &st.macos).is_none());
}

#[test]
fn five_attachments_layout() {
    let atts: Vec<String> = ["a", "dir/b", "/x/c.txt", "d", "e"].iter().map(|x| s(x)).collect();
    let l = compute_layout(&atts).unwrap();
    let got: Vec<(String, u64, u64)> = l.iter().map(|e| (e.name.clone(), e.x, e.y)).collect();
    assert_eq!(
        got,
        vec![
            (s("a"), 75, 224),
            (s("b"), 396, 224),
            (s("c.txt"), 75, 384),
            (s("d"), 396, 384),
            (s("e"), 75, 544),
        ]
    );
}

#[test]
fn five_attachments_args() {
    let mut st = settings("aarch64");
    st.macos.attachments = Some(["a", "b", "c", "d", "e"].iter().map(|x| s(x)).collect());
    let p = plan_paths(&st).unwrap();
    let args = build_args(&p, &st.macos, &None, "/w", &None).unwrap();
    let mut want = head();
    for (n, x, y) in [("a", "75", "224"), ("b", "396", "224"), ("c", "75", "384"), ("d", "396", "384"), ("e", "75", "544")] {
        want.extend([s("--add-file"), s(n), s(n), s(x), s(y)]);
    }
    assert_eq!(args, want);
    assert_eq!(args.len(), 17 + 5 * 5);
    assert_eq!(args.iter().filter(|a| *a == "544").count(), 1);
    assert_eq!(&args[args.len() - 5..], &[s("--add-file"), s("e"), s("e"), s("75"), s("544")]);
}

#[test]
fn skip_jenkins_only_for_true() {
    let st = settings("x86_64");
    let p = plan_paths(&st).unwrap();
    for (ci, expect) in [
        (None, false),
        (Some("true"), true),
        (Some("1"), false),
        (Some("false"), false),
        (Some("TRUE"), false),
        (Some(" true"), false),
        (Some(""), false),
    ] {
        let ci = ci.map(s);
        assert_eq!(skip_jenkins(&ci), expect);
        let args = build_args(&p, &st.macos, &None, "/w", &ci).unwrap();
        assert_eq!(args.iter().any(|a| a == "--skip-jenkins"), expect);
        if expect {
            assert_eq!(args.last().unwrap(), "--skip-jenkins");
        }
    }
}

#[test]
fn optional_flags_in_order() {
    let mut st = settings("x86_64");
    st.macos.background = Some(s("assets/bg.png"));
    st.macos.license = Some(s("LICENSE"));
    st.macos.attachments = Some(vec![s("docs/readme.txt")]);
    let p = plan_paths(&st).unwrap();
    let args = build_args(&p, &st.macos, &Some(s("/out/icon.icns")), "/home/me/proj", &Some(s("true"))).unwrap();
    let mut want = head();
    want.extend(
        [
            "--add-file", "readme.txt", "readme.txt", "75", "224", "--volicon", "/out/icon.icns",
            "--background", "bg.png", "--eula", "/home/me/proj/LICENSE", "--skip-jenkins",
        ]
        .iter()
        .map(|x| s(x)),
    );
    assert_eq!(args, want);
}

#[test]
fn absolute_license_is_kept() {
    let mut st = settings("x86_64");
    st.macos.license = Some(s("/etc/license.txt"));
    let p = plan_paths(&st).unwrap();
    let args = build_args(&p, &st.macos, &None, "/home", &None).unwrap();
    assert_eq!(&args[args.len() - 2..], &[s("--eula"), s("/etc/license.txt")]);
}

#[test]
fn deterministic_runs() {
    let mut a = settings("x86_64");
    a.macos.attachments = Some(vec![s("x/y"), s("z")]);
    let mut b = settings("x86_64");
    b.macos.attachments = Some(vec![s("x/y"), s("z")]);
    let pa = plan_paths(&a).unwrap();
    let pb = plan_paths(&b).unwrap();
    assert_eq!(pa.dmg_path, pb.dmg_path);
    assert_eq!(pa.tool_output_path, pb.tool_output_path);
    let aa = build_args(&pa, &a.macos, &None, "/w", &Some(s("true"))).unwrap();
    let ab = build_args(&pb, &b.macos, &None, "/w", &Some(s("true"))).unwrap();
    assert_eq!(aa, ab);
}

#[test]
fn attachment_without_file_name() {
    let mut st = settings("x86_64");
    st.macos.attachments = Some(vec![s("ok.txt"), s("ok2"), s("a/.."), s("/")]);
    let p = plan_paths(&st).unwrap();
    assert_eq!(
        build_args(&p, &st.macos, &None, "/w", &None),
        Err(ConfigError::AttachmentWithoutFileName(2))
    );
    assert!(matches!(
        compute_layout(&vec![s("/")]),
        Err(ConfigError::AttachmentWithoutFileName(0))
    ));
}

#[test]
fn background_without_file_name() {
    let mut st = settings("x86_64");
    st.macos.background = Some(s(".."));
    let p = plan_paths(&st).unwrap();
    assert_eq!(
        build_args(&p, &st.macos, &None, "/w", &None),
        Err(ConfigError::BackgroundWithoutFileName)
    );
}

#[test]
fn missing_required_settings() {
    let mut st = settings("x86_64");
    st.version = None;
    assert!(matches!(plan_paths(&st), Err(PlanError::MissingVersion)));
    st.main_binary_name = None;
    assert!(matches!(plan_paths(&st), Err(PlanError::MissingBinaryName)));
}

#[test]
fn file_names() {
    let cases = [
        ("a/b.txt", Some("b.txt")),
        ("b.txt", Some("b.txt")),
        ("/x/y/", Some("y")),
        ("foo.txt/.", Some("foo.txt")),
        ("foo.txt/.//", Some("foo.txt")),
        ("foo.txt/..", None),
        ("..", None),
        ("/", None),
        ("", None),
        (".", None),
        ("./", None),
        ("./a", Some("a")),
        ("a/./b", Some("b")),
        ("...", Some("...")),
        (".hidden", Some(".hidden")),
    ];
    for (p, want) in cases {
        assert_eq!(file_name(p), want.map(s), "{p}");
        assert_eq!(
            std::path::Path::new(p).file_name().map(|n| n.to_str().unwrap().to_string()),
            want.map(s),
            "{p}"
        );
    }
}

#[test]
fn path_joins() {
    assert_eq!(join("/a", "b/c"), "/a/b/c");
    assert_eq!(join("/a/", "b"), "/a/b");
    assert_eq!(join("", "b"), "b");
    assert_eq!(join("/a", "/etc/x"), "/etc/x");
    assert_eq!(join("a", ""), "a/");
    for (b, r) in [("/a", "b/c"), ("/a/", "b"), ("", "b"), ("/a", "/etc/x"), ("a", "")] {
        assert_eq!(join(b, r), std::path::Path::new(b).join(r).to_str().unwrap());
    }
}

#[test]
fn decimal_text() {
    for n in [0u64, 7, 10, 99, 224, 544, 1000, u64::MAX] {
        assert_eq!(to_decimal(n), n.to_string());
    }
    assert!(str_eq("true", "true"));
    assert!(!str_eq("true", "tru"));
    assert!(!str_eq("true", "True"));
}

#[test]
fn app_bundle_needed_only_when_absent() {
    assert!(needs_app_bundle(&vec![]));
    assert!(needs_app_bundle(&vec![PackageType::Deb, PackageType::Dmg]));
    assert!(!needs_app_bundle(&vec![PackageType::Dmg, PackageType::MacOsBundle]));
}

#[test]
fn signing_when_identity_set() {
    let mut st = settings("x86_64");
    st.macos.signing_identity = Some(s("Developer ID Application: Me"));
    let p = plan_paths(&st).unwrap();
    let r = sign_request(&p, &st.macos).unwrap();
    assert_eq!(r.path, p.dmg_path);
    assert_eq!(r.identity, "Developer ID Application: Me");
    assert!(!r.is_entitlement);
}

#[test]
fn staging_steps() {
    let p = plan_paths(&settings("x86_64")).unwrap();
    let ops = staging_plan(&p);
    assert_eq!(ops.len(), 6);
    assert!(matches!(&ops[0], StageOp::RemoveAll(d) if d == "/work/target/release/bundle/dmg"));
    assert!(matches!(&ops[1], StageOp::CreateDirAll(d) if d == "/work/target/release/bundle/dmg/support"));
    assert!(matches!(&ops[2], StageOp::WriteFile(f, Resource::AssemblyScript) if f == "/work/target/release/bundle/dmg/bundle_dmg.sh"));
    assert!(matches!(&ops[3], StageOp::WriteFile(f, Resource::AppleScriptTemplate) if f == "/work/target/release/bundle/dmg/support/template.applescript"));
    assert!(matches!(&ops[4], StageOp::WriteFile(f, Resource::EulaTemplate) if f == "/work/target/release/bundle/dmg/support/eula-resources-template.xml"));
    assert!(matches!(&ops[5], StageOp::MakeExecutable(f) if f == "/work/target/release/bundle/dmg/bundle_dmg.sh"));
}
