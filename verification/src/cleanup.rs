//! Planning the post-session cleanup of build artifacts.
//!
//! After finalization, every immediate subdirectory of the root that holds a
//! transient build-artifact subdirectory has that subdirectory removed. The
//! selection below is the decision; the removal itself is a filesystem side
//! effect performed by the caller, and its failure does not fail the session.

use vstd::prelude::*;

verus! {

/// One immediate subdirectory of the root, as the directory scanner reports
/// it: its path and whether a build-artifact subdirectory exists inside it.
pub struct ScannedDir {
    pub path: String,
    pub has_artifact_dir: bool,
}

/// The mathematical content of a [`ScannedDir`].
pub ghost struct ScannedDirView {
    pub path: Seq<char>,
    pub has_artifact_dir: bool,
}

impl View for ScannedDir {
    type V = ScannedDirView;

    open spec fn view(&self) -> ScannedDirView {
        ScannedDirView { path: self.path@, has_artifact_dir: self.has_artifact_dir }
    }
}

pub open spec fn dir_views(dirs: Seq<ScannedDir>) -> Seq<ScannedDirView> {
    dirs.map(|i: int, d: ScannedDir| d@)
}

/// The paths selected for cleanup: exactly the subdirectories that hold a
/// build-artifact subdirectory, in scan order.
pub open spec fn spec_cleanup_plan(dirs: Seq<ScannedDirView>) -> Seq<Seq<char>>
    decreases dirs.len(),
{
    if dirs.len() == 0 {
        Seq::empty()
    } else {
        let rest = spec_cleanup_plan(dirs.drop_last());
        if dirs.last().has_artifact_dir {
            rest.push(dirs.last().path)
        } else {
            rest
        }
    }
}

/// Select the subdirectories whose build artifacts are to be removed. The
/// selection depends only on the scan: a subdirectory with artifacts is
/// cleaned whatever the verdicts of the units inside it were.
pub fn cleanup_plan(dirs: &Vec<ScannedDir>) -> (plan: Vec<String>)
    ensures
        plan@.map(|i: int, p: String| p@) == spec_cleanup_plan(dir_views(dirs@)),
{
    let ghost dvs = dir_views(dirs@);
    let mut plan: Vec<String> = Vec::new();
    let mut i: usize = 0;
    while i < dirs.len()
        invariant
            i <= dirs.len(),
            dvs == dir_views(dirs@),
            dvs.len() == dirs.len(),
            plan@.map(|k: int, p: String| p@) == spec_cleanup_plan(dvs.take(i as int)),
        decreases dirs.len() - i,
    {
        assert(dvs.take(i + 1).drop_last() =~= dvs.take(i as int));
        assert(dvs.take(i + 1).last() == dvs[i as int]);
        if dirs[i].has_artifact_dir {
            plan.push(dirs[i].path.clone());
            assert(plan@.map(|k: int, p: String| p@) =~= spec_cleanup_plan(dvs.take(i + 1)));
        } else {
            assert(plan@.map(|k: int, p: String| p@) =~= spec_cleanup_plan(dvs.take(i + 1)));
        }
        i = i + 1;
    }
    assert(dvs.take(dirs.len() as int) =~= dvs);
    plan
}

/// The cleanup plan covers every scanned subdirectory that holds a
/// build-artifact subdirectory, and nothing else: a directory is in the plan
/// exactly when it was scanned with artifacts present.
pub proof fn lemma_cleanup_covers_all_artifact_dirs(dirs: Seq<ScannedDirView>)
    ensures
        forall|i: int|
            0 <= i < dirs.len() && (#[trigger] dirs[i]).has_artifact_dir ==> spec_cleanup_plan(
                dirs,
            ).contains(dirs[i].path),
        forall|p: Seq<char>|
            spec_cleanup_plan(dirs).contains(p) ==> exists|i: int|
                0 <= i < dirs.len() && (#[trigger] dirs[i]).has_artifact_dir && dirs[i].path == p,
    decreases dirs.len(),
{
    if dirs.len() > 0 {
        lemma_cleanup_covers_all_artifact_dirs(dirs.drop_last());
        let rest = spec_cleanup_plan(dirs.drop_last());
        let whole = spec_cleanup_plan(dirs);
        assert forall|i: int|
            0 <= i < dirs.len() && (#[trigger] dirs[i]).has_artifact_dir implies whole.contains(
            dirs[i].path,
        ) by {
            if i < dirs.len() - 1 {
                assert(dirs.drop_last()[i] == dirs[i]);
                let k = choose|k: int| 0 <= k < rest.len() && rest[k] == dirs[i].path;
                if dirs.last().has_artifact_dir {
                    assert(whole[k] == dirs[i].path);
                } else {
                    assert(whole[k] == dirs[i].path);
                }
            } else {
                assert(whole.last() == dirs[i].path);
            }
        }
        assert forall|p: Seq<char>| whole.contains(p) implies exists|i: int|
            0 <= i < dirs.len() && (#[trigger] dirs[i]).has_artifact_dir && dirs[i].path == p by {
            let k = choose|k: int| 0 <= k < whole.len() && whole[k] == p;
            if dirs.last().has_artifact_dir && k == whole.len() - 1 {
                assert(dirs[dirs.len() - 1].has_artifact_dir && dirs[dirs.len() - 1].path == p);
            } else {
                assert(rest.contains(p));
                let i = choose|i: int|
                    0 <= i < dirs.drop_last().len() && (#[trigger] dirs.drop_last()[i]).has_artifact_dir
                        && dirs.drop_last()[i].path == p;
                assert(dirs[i].has_artifact_dir && dirs[i].path == p);
            }
        }
    }
}

} // verus!
