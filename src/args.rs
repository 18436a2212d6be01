//! The command line of the disk-image assembly tool.
use vstd::prelude::*;
use crate::layout::{
    all_named, column_x, compute_layout, names_of, row_y, views, MAX_ATTACHMENTS,
};
use crate::path::{file_name, file_name_of, join, joined};
use crate::plan::{ArtifactPaths, MacOsSettings};
use crate::text::{decimal, str_eq, to_decimal};

verus! {

/// A configured path that has no file name.
#[derive(Debug, PartialEq, Eq, Structural, Clone, Copy)]
pub enum ConfigError {
    /// The attachment at this index.
    AttachmentWithoutFileName(usize),
    /// The background image.
    BackgroundWithoutFileName,
}

/// The fixed start of the command line: volume name, icon size, the
/// application icon and the drop link in the top row, the window size.
pub open spec fn head_args(product: Seq<char>, bundle: Seq<char>) -> Seq<Seq<char>> {
    seq![
        "--no-internet-enable"@, "--volname"@, product, "--icon-size"@, "100"@,
        "--icon"@, bundle, "75"@, "64"@, "--app-drop-link"@, "396"@, "64"@,
        "--window-size"@, "571"@, "375"@, "--hide-extension"@, bundle,
    ]
}

/// The arguments that place attachment `k`, whose file name is `name`.
pub open spec fn add_file_args(name: Seq<char>, k: nat) -> Seq<Seq<char>> {
    seq!["--add-file"@, name, name, decimal(column_x(k)), decimal(row_y(k / 2))]
}

/// The arguments that place the first `n` of the attachments named `names`.
pub open spec fn attachment_args(names: Seq<Seq<char>>, n: nat) -> Seq<Seq<char>>
    decreases n,
{
    if n == 0 {
        seq![]
    } else {
        attachment_args(names, (n - 1) as nat) + add_file_args(names[n - 1], (n - 1) as nat)
    }
}

/// `flag` followed by the value, when there is one.
pub open spec fn flag_args(flag: Seq<char>, value: Option<Seq<char>>) -> Seq<Seq<char>> {
    match value {
        Some(v) => seq![flag, v],
        None => seq![],
    }
}

/// The text of an optional string.
pub open spec fn opt_view(o: Option<String>) -> Option<Seq<char>> {
    match o {
        Some(s) => Some(s@),
        None => None,
    }
}

/// The attachment paths of the settings, none when unset.
pub open spec fn attachment_paths(m: &MacOsSettings) -> Seq<Seq<char>> {
    match m.attachments {
        Some(v) => views(v@),
        None => seq![],
    }
}

/// The file name of the background image, if one is set.
pub open spec fn background_name(m: &MacOsSettings) -> Option<Seq<char>> {
    match m.background {
        Some(b) => file_name_of(b@),
        None => None,
    }
}

/// The license file as an absolute path, resolved against `cwd`.
pub open spec fn eula_path(m: &MacOsSettings, cwd: Seq<char>) -> Option<Seq<char>> {
    match m.license {
        Some(l) => Some(joined(cwd, l@)),
        None => None,
    }
}

/// The run is on continuous integration: the signal is exactly `true`.
pub open spec fn is_ci(ci: Option<Seq<char>>) -> bool {
    ci == Some("true"@)
}

/// Every argument but the continuous-integration flag.
pub open spec fn base_args(
    paths: &ArtifactPaths,
    m: &MacOsSettings,
    volume_icon: Option<Seq<char>>,
    cwd: Seq<char>,
) -> Seq<Seq<char>> {
    let names = names_of(attachment_paths(m));
    head_args(paths.product_name@, paths.bundle_file_name@)
        + attachment_args(names, names.len())
        + flag_args("--volicon"@, volume_icon)
        + flag_args("--background"@, background_name(m))
        + flag_args("--eula"@, eula_path(m, cwd))
}

/// The whole command line, without the two trailing names.
pub open spec fn args_of(
    paths: &ArtifactPaths,
    m: &MacOsSettings,
    volume_icon: Option<Seq<char>>,
    cwd: Seq<char>,
    ci: Option<Seq<char>>,
) -> Seq<Seq<char>> {
    base_args(paths, m, volume_icon, cwd) + if is_ci(ci) {
        seq!["--skip-jenkins"@]
    } else {
        seq![]
    }
}

fn push_str(v: &mut Vec<String>, s: &str)
    ensures
        views(final(v)@) == views(old(v)@).push(s@),
{
    v.push(String::from_str(s));
    assert(views(final(v)@) =~= views(old(v)@).push(s@));
}

/// Whether the continuous-integration signal is set to exactly `true`.
pub fn skip_jenkins(ci: &Option<String>) -> (r: bool)
    ensures
        r == is_ci(opt_view(*ci)),
{
    match ci {
        Some(v) => str_eq(v.as_str(), "true"),
        None => false,
    }
}

fn push_flag(v: &mut Vec<String>, flag: &str, value: &Option<String>)
    ensures
        views(final(v)@) == views(old(v)@) + flag_args(flag@, opt_view(*value)),
{
    let ghost v0 = views(v@);
    match value {
        Some(x) => {
            push_str(v, flag);
            push_str(v, x.as_str());
            assert(views(v@) =~= v0 + flag_args(flag@, opt_view(*value)));
        },
        None => {
            assert(views(v@) =~= v0 + flag_args(flag@, opt_view(*value)));
        },
    }
}

/// Builds the assembly tool's command line: the fixed head, one
/// `--add-file` entry per attachment, then the volume icon, the background's
/// file name, the license resolved against `current_dir`, and
/// `--skip-jenkins` when the continuous-integration signal is `true`.
/// Fails on the first attachment, then on a background, without a file name.
pub fn build_args(
    paths: &ArtifactPaths,
    macos: &MacOsSettings,
    volume_icon: &Option<String>,
    current_dir: &str,
    ci: &Option<String>,
) -> (r: Result<Vec<String>, ConfigError>)
    requires
        attachment_paths(macos).len() <= MAX_ATTACHMENTS,
    ensures
        match r {
            Ok(v) => {
                &&& all_named(attachment_paths(macos))
                &&& (macos.background is Some ==> background_name(macos) is Some)
                &&& views(v@) == args_of(paths, macos, opt_view(*volume_icon), current_dir@,
                    opt_view(*ci))
            },
            Err(ConfigError::AttachmentWithoutFileName(k)) => {
                &&& k < attachment_paths(macos).len()
                &&& file_name_of(attachment_paths(macos)[k as int]) is None
                &&& forall|j: int| 0 <= j < k ==> (#[trigger] file_name_of(attachment_paths(macos)[j])) is Some
            },
            Err(ConfigError::BackgroundWithoutFileName) => {
                &&& all_named(attachment_paths(macos))
                &&& macos.background is Some
                &&& background_name(macos) is None
            },
        },
{
    proof {
        reveal_strlit("100");
        reveal_strlit("75");
        reveal_strlit("64");
        reveal_strlit("396");
        reveal_strlit("571");
        reveal_strlit("375");
    }
    let mut v: Vec<String> = Vec::new();
    push_str(&mut v, "--no-internet-enable");
    push_str(&mut v, "--volname");
    push_str(&mut v, paths.product_name.as_str());
    push_str(&mut v, "--icon-size");
    push_str(&mut v, "100");
    push_str(&mut v, "--icon");
    push_str(&mut v, paths.bundle_file_name.as_str());
    push_str(&mut v, "75");
    push_str(&mut v, "64");
    push_str(&mut v, "--app-drop-link");
    push_str(&mut v, "396");
    push_str(&mut v, "64");
    push_str(&mut v, "--window-size");
    push_str(&mut v, "571");
    push_str(&mut v, "375");
    push_str(&mut v, "--hide-extension");
    push_str(&mut v, paths.bundle_file_name.as_str());
    let ghost head = head_args(paths.product_name@, paths.bundle_file_name@);
    assert(views(v@) =~= head);
    let ghost atts = attachment_paths(macos);
    let ghost names = names_of(atts);
    let empty: Vec<String> = Vec::new();
    let attachments = match &macos.attachments {
        Some(a) => a,
        None => &empty,
    };
    assert(views(attachments@) == atts);
    let layout = match compute_layout(attachments) {
        Ok(l) => l,
        Err(e) => return Err(e),
    };
    let n = layout.len();
    let mut k: usize = 0;
    while k < n
        invariant
            n == layout@.len(),
            n == atts.len(),
            n == names.len(),
            k <= n,
            names == names_of(atts),
            forall|j: int| 0 <= j < n ==> crate::layout::placed(#[trigger] layout@[j], j as nat, names[j]),
            views(v@) == head + attachment_args(names, k as nat),
        decreases n - k,
    {
        let e = &layout[k];
        assert(crate::layout::placed(layout@[k as int], k as nat, names[k as int]));
        let ghost before = views(v@);
        push_str(&mut v, "--add-file");
        push_str(&mut v, e.name.as_str());
        push_str(&mut v, e.name.as_str());
        let xs = to_decimal(e.x);
        let ys = to_decimal(e.y);
        push_str(&mut v, xs.as_str());
        push_str(&mut v, ys.as_str());
        assert(views(v@) =~= before + add_file_args(names[k as int], k as nat));
        k = k + 1;
        assert(views(v@) =~= head + attachment_args(names, k as nat));
    }
    push_flag(&mut v, "--volicon", volume_icon);
    let bg: Option<String> = match &macos.background {
        Some(b) => match file_name(b.as_str()) {
            Some(f) => Some(f),
            None => return Err(ConfigError::BackgroundWithoutFileName),
        },
        None => None,
    };
    assert(opt_view(bg) == background_name(macos));
    push_flag(&mut v, "--background", &bg);
    let eula: Option<String> = match &macos.license {
        Some(l) => Some(join(current_dir, l.as_str())),
        None => None,
    };
    assert(opt_view(eula) == eula_path(macos, current_dir@));
    push_flag(&mut v, "--eula", &eula);
    if skip_jenkins(ci) {
        push_str(&mut v, "--skip-jenkins");
    }
    assert(views(v@) =~= args_of(paths, macos, opt_view(*volume_icon), current_dir@, opt_view(*ci)));
    Ok(v)
}

/// The flag `--skip-jenkins` is among the arguments exactly when the
/// continuous-integration signal is `true`, provided that no other argument
/// (a file name, a path, the product name) is that same text.
pub proof fn lemma_skip_flag_only_on_ci(
    paths: &ArtifactPaths,
    m: &MacOsSettings,
    volume_icon: Option<Seq<char>>,
    cwd: Seq<char>,
    ci: Option<Seq<char>>,
)
    requires
        !base_args(paths, m, volume_icon, cwd).contains("--skip-jenkins"@),
    ensures
        args_of(paths, m, volume_icon, cwd, ci).contains("--skip-jenkins"@) <==> is_ci(ci),
        args_of(paths, m, volume_icon, cwd, ci) == base_args(paths, m, volume_icon, cwd) + if is_ci(ci) {
            seq!["--skip-jenkins"@]
        } else {
            seq![]
        },
{
    let base = base_args(paths, m, volume_icon, cwd);
    let all = args_of(paths, m, volume_icon, cwd, ci);
    let flag = "--skip-jenkins"@;
    if is_ci(ci) {
        assert(all[base.len() as int] == flag);
    } else {
        assert(all =~= base);
    }
}

} // verus!
