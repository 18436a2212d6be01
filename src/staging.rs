//! The filesystem steps that stage the helper resources, and a model of
//! their effect on the set of existing paths.
use vstd::prelude::*;
use crate::path::{join, joined};
use crate::plan::{ArtifactPaths, PathsModel};

verus! {

/// The fixed resources written into the output directory.
#[derive(Debug, PartialEq, Eq, Structural, Clone, Copy)]
pub enum Resource {
    /// The script that drives the assembly tool.
    AssemblyScript,
    /// The script that lays out the volume window.
    AppleScriptTemplate,
    /// The template of the license resource.
    EulaTemplate,
}

/// One filesystem step of staging.
pub enum StageOp {
    /// Remove the directory and everything in it, if it exists.
    RemoveAll(String),
    /// Create the directory and its missing parents.
    CreateDirAll(String),
    /// Write the resource to the file.
    WriteFile(String, Resource),
    /// Make the file executable.
    MakeExecutable(String),
}

/// A staging step over text paths.
pub enum OpModel {
    RemoveAll(Seq<char>),
    CreateDirAll(Seq<char>),
    WriteFile(Seq<char>, Resource),
    MakeExecutable(Seq<char>),
}

impl StageOp {
    pub open spec fn model(&self) -> OpModel {
        match self {
            StageOp::RemoveAll(p) => OpModel::RemoveAll(p@),
            StageOp::CreateDirAll(p) => OpModel::CreateDirAll(p@),
            StageOp::WriteFile(p, r) => OpModel::WriteFile(p@, *r),
            StageOp::MakeExecutable(p) => OpModel::MakeExecutable(p@),
        }
    }
}

/// The models of the steps.
pub open spec fn ops_model(ops: Seq<StageOp>) -> Seq<OpModel> {
    ops.map_values(|o: StageOp| o.model())
}

/// The path `q` is `dir` or lies inside it.
pub open spec fn under(q: Seq<char>, dir: Seq<char>) -> bool {
    q == dir || (q.len() > dir.len() && q.subrange(0, dir.len() as int) == dir && q[dir.len() as int]
        == '/')
}

/// The existing paths of `fs` that are `dir` or lie inside it.
pub open spec fn inside(fs: Set<Seq<char>>, dir: Seq<char>) -> Set<Seq<char>> {
    fs.filter(|q: Seq<char>| under(q, dir))
}

/// The set of existing paths after one step.
pub open spec fn apply_op(fs: Set<Seq<char>>, op: OpModel) -> Set<Seq<char>> {
    match op {
        OpModel::RemoveAll(p) => fs.filter(|q: Seq<char>| !under(q, p)),
        OpModel::CreateDirAll(p) => fs + Set::new(|q: Seq<char>| under(p, q)),
        OpModel::WriteFile(p, _) => fs.insert(p),
        OpModel::MakeExecutable(_) => fs,
    }
}

/// The set of existing paths after the steps, in order.
pub open spec fn apply_ops(fs: Set<Seq<char>>, ops: Seq<OpModel>) -> Set<Seq<char>>
    decreases ops.len(),
{
    if ops.len() == 0 {
        fs
    } else {
        apply_ops(apply_op(fs, ops[0]), ops.drop_first())
    }
}

/// Path of the window layout template.
pub open spec fn applescript_path(p: PathsModel) -> Seq<char> {
    joined(p.support_dir, "template.applescript"@)
}

/// Path of the license resource template.
pub open spec fn eula_template_path(p: PathsModel) -> Seq<char> {
    joined(p.support_dir, "eula-resources-template.xml"@)
}

/// The staging steps: clear the output directory, create the support
/// directory, write the three resources, make the script executable.
pub open spec fn staging_ops(p: PathsModel) -> Seq<OpModel> {
    seq![
        OpModel::RemoveAll(p.output_dir),
        OpModel::CreateDirAll(p.support_dir),
        OpModel::WriteFile(p.script_path, Resource::AssemblyScript),
        OpModel::WriteFile(applescript_path(p), Resource::AppleScriptTemplate),
        OpModel::WriteFile(eula_template_path(p), Resource::EulaTemplate),
        OpModel::MakeExecutable(p.script_path),
    ]
}

/// The steps that stage the resources of a run.
pub fn staging_plan(paths: &ArtifactPaths) -> (r: Vec<StageOp>)
    ensures
        ops_model(r@) == staging_ops(paths.model()),
{
    let support = paths.support_dir.as_str();
    let mut r: Vec<StageOp> = Vec::new();
    r.push(StageOp::RemoveAll(paths.output_dir.clone()));
    r.push(StageOp::CreateDirAll(paths.support_dir.clone()));
    r.push(StageOp::WriteFile(paths.script_path.clone(), Resource::AssemblyScript));
    r.push(StageOp::WriteFile(join(support, "template.applescript"), Resource::AppleScriptTemplate));
    r.push(StageOp::WriteFile(join(support, "eula-resources-template.xml"), Resource::EulaTemplate));
    r.push(StageOp::MakeExecutable(paths.script_path.clone()));
    assert(ops_model(r@) =~= staging_ops(paths.model()));
    r
}

/// Steps applied to two sets that agree inside `dir` give sets that still
/// agree inside `dir`.
pub proof fn lemma_apply_ops_inside(a: Set<Seq<char>>, b: Set<Seq<char>>, ops: Seq<OpModel>, dir: Seq<char>)
    requires
        inside(a, dir) == inside(b, dir),
    ensures
        inside(apply_ops(a, ops), dir) == inside(apply_ops(b, ops), dir),
    decreases ops.len(),
{
    if ops.len() > 0 {
        let a1 = apply_op(a, ops[0]);
        let b1 = apply_op(b, ops[0]);
        assert forall|q: Seq<char>| under(q, dir) implies a1.contains(q) == b1.contains(q) by {
            assert(inside(a, dir).contains(q) == inside(b, dir).contains(q));
            assert(inside(a, dir).contains(q) == a.contains(q));
            assert(inside(b, dir).contains(q) == b.contains(q));
        }
        assert(inside(a1, dir) =~= inside(b1, dir));
        lemma_apply_ops_inside(a1, b1, ops.drop_first(), dir);
    }
}

/// Clean slate: whatever a previous run left behind, staging leaves the
/// output directory holding exactly what it holds when staged on an empty
/// filesystem, and the three resources are there.
pub proof fn lemma_clean_slate(paths: &ArtifactPaths, stale: Set<Seq<char>>)
    ensures
        inside(apply_ops(stale, staging_ops(paths.model())), paths.output_dir@) == inside(
            apply_ops(Set::empty(), staging_ops(paths.model())),
            paths.output_dir@,
        ),
        apply_ops(stale, staging_ops(paths.model())).contains(paths.script_path@),
        apply_ops(stale, staging_ops(paths.model())).contains(applescript_path(paths.model())),
        apply_ops(stale, staging_ops(paths.model())).contains(eula_template_path(paths.model())),
{
    reveal_with_fuel(apply_ops, 7);
    let ops = staging_ops(paths.model());
    let out = paths.output_dir@;
    let a1 = apply_op(stale, ops[0]);
    let b1 = apply_op(Set::empty(), ops[0]);
    assert(inside(a1, out) =~= Set::empty());
    assert(inside(b1, out) =~= Set::empty());
    lemma_apply_ops_inside(a1, b1, ops.drop_first(), out);
}

} // verus!
