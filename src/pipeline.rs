//! The decisions of a packaging run that surround the staging and the
//! command line: whether to build the application bundle first, what the
//! tool is given, what is renamed and signed, and what is returned.
use vstd::prelude::*;
use crate::args::{args_of, attachment_paths, opt_view};
use crate::layout::views;
use crate::plan::{plan_of, ArtifactPaths, MacOsSettings, PathsModel, PlanError, Settings};

verus! {

/// The kinds of package that a build produces.
#[derive(Debug, PartialEq, Eq, Structural, Clone, Copy)]
pub enum PackageType {
    MacOsBundle,
    IosBundle,
    WindowsMsi,
    Nsis,
    Deb,
    Rpm,
    AppImage,
    Dmg,
    Updater,
}

/// An application bundle is among the packages produced so far.
pub open spec fn has_app_bundle(bundles: Seq<PackageType>) -> bool {
    exists|i: int| 0 <= i < bundles.len() && bundles[i] == PackageType::MacOsBundle
}

/// Whether the application bundle must be built before packaging: none of
/// the packages produced so far is one.
pub fn needs_app_bundle(bundles: &Vec<PackageType>) -> (r: bool)
    ensures
        r == !has_app_bundle(bundles@),
{
    let mut i: usize = 0;
    while i < bundles.len()
        invariant
            i <= bundles@.len(),
            forall|j: int| 0 <= j < i ==> bundles@[j] != PackageType::MacOsBundle,
        decreases bundles@.len() - i,
    {
        if bundles[i] == PackageType::MacOsBundle {
            return false;
        }
        i = i + 1;
    }
    true
}

/// The full argument list of the tool: the built command line followed by
/// the disk image's file name and the application bundle's file name.
pub fn tool_invocation(args: Vec<String>, paths: &ArtifactPaths) -> (r: Vec<String>)
    ensures
        views(r@) == views(args@) + seq![paths.dmg_name@, paths.bundle_file_name@],
{
    let mut r = args;
    let ghost before = views(r@);
    r.push(paths.dmg_name.clone());
    r.push(paths.bundle_file_name.clone());
    assert(views(r@) =~= before + seq![paths.dmg_name@, paths.bundle_file_name@]);
    r
}

/// A request to sign the disk image.
pub struct SignRequest {
    /// The file to sign.
    pub path: String,
    /// The identity to sign it with.
    pub identity: String,
    /// Whether entitlements apply; never for a disk image.
    pub is_entitlement: bool,
}

/// The disk image is signed exactly when a signing identity is set: the
/// final image, with that identity, without entitlements.
pub fn sign_request(paths: &ArtifactPaths, macos: &MacOsSettings) -> (r: Option<SignRequest>)
    ensures
        r is Some <==> macos.signing_identity is Some,
        r matches Some(q) ==> {
            &&& q.path@ == paths.dmg_path@
            &&& opt_view(macos.signing_identity) == Some(q.identity@)
            &&& !q.is_entitlement
        },
{
    match &macos.signing_identity {
        Some(id) => Some(SignRequest { path: paths.dmg_path.clone(), identity: id.clone(), is_entitlement: false }),
        None => None,
    }
}

/// What a successful run returns: the one disk image it produced.
pub fn produced_artifacts(paths: &ArtifactPaths) -> (r: Vec<String>)
    ensures
        views(r@) == seq![paths.dmg_path@],
{
    let mut r: Vec<String> = Vec::new();
    r.push(paths.dmg_path.clone());
    assert(views(r@) =~= seq![paths.dmg_path@]);
    r
}

/// Two sets of macOS settings hold the same text.
pub open spec fn same_macos(a: &MacOsSettings, b: &MacOsSettings) -> bool {
    &&& opt_view(a.background) == opt_view(b.background)
    &&& opt_view(a.license) == opt_view(b.license)
    &&& opt_view(a.signing_identity) == opt_view(b.signing_identity)
    &&& attachment_paths(a) == attachment_paths(b)
}

/// Two settings hold the same text.
pub open spec fn same_settings(a: &Settings, b: &Settings) -> bool {
    &&& a.project_out_directory@ == b.project_out_directory@
    &&& opt_view(a.main_binary_name) == opt_view(b.main_binary_name)
    &&& opt_view(a.version) == opt_view(b.version)
    &&& a.binary_arch@ == b.binary_arch@
    &&& same_macos(&a.macos, &b.macos)
}

/// Determinism: settings that hold the same text give the same paths, and
/// the same command line for the same icon, working directory and
/// continuous-integration signal.
pub proof fn lemma_deterministic(
    a: &Settings,
    b: &Settings,
    pa: &ArtifactPaths,
    pb: &ArtifactPaths,
    icon: Option<Seq<char>>,
    cwd: Seq<char>,
    ci: Option<Seq<char>>,
)
    requires
        same_settings(a, b),
        plan_of(a) == Ok::<PathsModel, PlanError>(pa.model()),
        plan_of(b) == Ok::<PathsModel, PlanError>(pb.model()),
    ensures
        plan_of(a) == plan_of(b),
        pa.model() == pb.model(),
        args_of(pa, &a.macos, icon, cwd, ci) == args_of(pb, &b.macos, icon, cwd, ci),
{
    assert(plan_of(a) == plan_of(b));
}

} // verus!
