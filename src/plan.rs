//! Project settings and the paths that one packaging run derives from them.
use vstd::prelude::*;
use crate::path::{join, joined};

verus! {

/// The macOS part of the project settings.
pub struct MacOsSettings {
    /// Image shown behind the icons of the volume window.
    pub background: Option<String>,
    /// License text shown before the volume is mounted.
    pub license: Option<String>,
    /// Identity to sign the disk image with.
    pub signing_identity: Option<String>,
    /// Extra files placed in the volume, in this order.
    pub attachments: Option<Vec<String>>,
}

/// The project settings that a packaging run reads.
pub struct Settings {
    pub project_out_directory: String,
    pub main_binary_name: Option<String>,
    pub version: Option<String>,
    pub binary_arch: String,
    pub macos: MacOsSettings,
}

/// A required setting that is not set.
#[derive(Debug, PartialEq, Eq, Structural, Clone, Copy)]
pub enum PlanError {
    MissingBinaryName,
    MissingVersion,
}

/// Every path of one packaging run.
pub struct ArtifactPaths {
    /// Name of the product: the main binary's name.
    pub product_name: String,
    /// `<product>.app`, the application bundle's file name.
    pub bundle_file_name: String,
    /// Directory that holds the application bundle; the tool runs there.
    pub bundle_dir: String,
    /// Directory of the disk image and its staged resources.
    pub output_dir: String,
    /// Directory of the staged templates.
    pub support_dir: String,
    /// The staged assembly script.
    pub script_path: String,
    /// File name of the disk image.
    pub dmg_name: String,
    /// Where the tool leaves the disk image.
    pub tool_output_path: String,
    /// Where the disk image ends up.
    pub dmg_path: String,
}

/// The architecture as it appears in an artifact name.
pub open spec fn arch_label_of(arch: Seq<char>) -> Seq<char> {
    if arch == "x86_64"@ {
        "x64"@
    } else {
        arch
    }
}

/// `<name>_<version>_<arch>.dmg`.
pub open spec fn dmg_name_of(name: Seq<char>, version: Seq<char>, arch: Seq<char>) -> Seq<char> {
    name + "_"@ + version + "_"@ + arch_label_of(arch) + ".dmg"@
}

/// The paths that `plan_paths` derives, as text.
pub struct PathsModel {
    pub product_name: Seq<char>,
    pub bundle_file_name: Seq<char>,
    pub bundle_dir: Seq<char>,
    pub output_dir: Seq<char>,
    pub support_dir: Seq<char>,
    pub script_path: Seq<char>,
    pub dmg_name: Seq<char>,
    pub tool_output_path: Seq<char>,
    pub dmg_path: Seq<char>,
}

impl ArtifactPaths {
    pub open spec fn model(&self) -> PathsModel {
        PathsModel {
            product_name: self.product_name@,
            bundle_file_name: self.bundle_file_name@,
            bundle_dir: self.bundle_dir@,
            output_dir: self.output_dir@,
            support_dir: self.support_dir@,
            script_path: self.script_path@,
            dmg_name: self.dmg_name@,
            tool_output_path: self.tool_output_path@,
            dmg_path: self.dmg_path@,
        }
    }
}

/// The paths of a run for a project whose output directory is `out`.
pub open spec fn paths_of(out: Seq<char>, name: Seq<char>, version: Seq<char>, arch: Seq<char>) -> PathsModel {
    let output_dir = joined(out, "bundle/dmg"@);
    let bundle_dir = joined(out, "bundle/macos"@);
    let dmg_name = dmg_name_of(name, version, arch);
    PathsModel {
        product_name: name,
        bundle_file_name: name + ".app"@,
        bundle_dir,
        output_dir,
        support_dir: joined(output_dir, "support"@),
        script_path: joined(output_dir, "bundle_dmg.sh"@),
        dmg_name,
        tool_output_path: joined(bundle_dir, dmg_name),
        dmg_path: joined(output_dir, dmg_name),
    }
}

/// What `plan_paths` returns for `s`.
pub open spec fn plan_of(s: &Settings) -> Result<PathsModel, PlanError> {
    match (s.main_binary_name, s.version) {
        (None, _) => Err(PlanError::MissingBinaryName),
        (Some(_), None) => Err(PlanError::MissingVersion),
        (Some(n), Some(v)) => Ok(paths_of(s.project_out_directory@, n@, v@, s.binary_arch@)),
    }
}

/// The artifact name carries `x64` for the architecture `x86_64` and any
/// other architecture name unchanged.
pub proof fn lemma_arch_in_name(name: Seq<char>, version: Seq<char>, arch: Seq<char>)
    ensures
        arch == "x86_64"@ ==> dmg_name_of(name, version, arch) == name + "_"@ + version + "_"@
            + "x64"@ + ".dmg"@,
        arch != "x86_64"@ ==> dmg_name_of(name, version, arch) == name + "_"@ + version + "_"@
            + arch + ".dmg"@,
        arch != "x86_64"@ ==> arch_label_of(arch) == arch,
{
}

/// The architecture as it appears in an artifact name: `x86_64` becomes
/// `x64`, any other name stays as it is.
pub fn arch_label(arch: &str) -> (r: String)
    ensures
        r@ == arch_label_of(arch@),
{
    if crate::text::str_eq(arch, "x86_64") {
        String::from_str("x64")
    } else {
        String::from_str(arch)
    }
}

/// File name of the disk image: `<name>_<version>_<arch>.dmg`.
pub fn dmg_name(name: &str, version: &str, arch: &str) -> (r: String)
    ensures
        r@ == dmg_name_of(name@, version@, arch@),
{
    let label = arch_label(arch);
    let mut s = String::from_str(name);
    s.append("_");
    s.append(version);
    s.append("_");
    s.append(label.as_str());
    s.append(".dmg");
    s
}

/// Derives every path of a run from the settings; fails when the binary
/// name or the version is not set.
pub fn plan_paths(settings: &Settings) -> (r: Result<ArtifactPaths, PlanError>)
    ensures
        match r {
            Ok(p) => plan_of(settings) == Ok::<PathsModel, PlanError>(p.model()),
            Err(e) => plan_of(settings) == Err::<PathsModel, PlanError>(e),
        },
{
    let name = match &settings.main_binary_name {
        Some(n) => n,
        None => return Err(PlanError::MissingBinaryName),
    };
    let version = match &settings.version {
        Some(v) => v,
        None => return Err(PlanError::MissingVersion),
    };
    let out = settings.project_out_directory.as_str();
    let output_dir = join(out, "bundle/dmg");
    let bundle_dir = join(out, "bundle/macos");
    let dmg = dmg_name(name.as_str(), version.as_str(), settings.binary_arch.as_str());
    let mut bundle_file_name = name.clone();
    bundle_file_name.append(".app");
    let support_dir = join(output_dir.as_str(), "support");
    let script_path = join(output_dir.as_str(), "bundle_dmg.sh");
    let tool_output_path = join(bundle_dir.as_str(), dmg.as_str());
    let dmg_path = join(output_dir.as_str(), dmg.as_str());
    let r = ArtifactPaths {
        product_name: name.clone(),
        bundle_file_name,
        bundle_dir,
        output_dir,
        support_dir,
        script_path,
        dmg_name: dmg,
        tool_output_path,
        dmg_path,
    };
    assert(r.model() == paths_of(out@, name@, version@, settings.binary_arch@));
    Ok(r)
}

} // verus!
