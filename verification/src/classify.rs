//! Classifying one container directory into an exercise kind.
//!
//! A container that holds a build-descriptor file directly inside it is a
//! project exercise, graded as one unit; any other container is a set of
//! single-file exercises, one unit per source file found directly inside it.

use vstd::prelude::*;
use vstd::string::StrSliceExecFns;

verus! {

/// The two kinds of evaluable unit a container can hold.
#[derive(Clone, Copy, PartialEq, Eq, Structural, Debug)]
pub enum ExerciseKind {
    Project,
    SingleFile,
}

/// One immediate entry of the root directory, as the directory scanner
/// reports it: its path and whether it is a directory.
pub struct RootEntry {
    pub path: String,
    pub is_dir: bool,
}

/// The mathematical content of a [`RootEntry`].
pub ghost struct RootEntryView {
    pub path: Seq<char>,
    pub is_dir: bool,
}

impl View for RootEntry {
    type V = RootEntryView;

    open spec fn view(&self) -> RootEntryView {
        RootEntryView { path: self.path@, is_dir: self.is_dir }
    }
}

pub open spec fn root_views(entries: Seq<RootEntry>) -> Seq<RootEntryView> {
    entries.map(|i: int, e: RootEntry| e@)
}

/// The container-directory candidates among the root's immediate entries:
/// exactly the directories, in scan order. A loose file at the root is no
/// container and is passed over.
pub open spec fn spec_container_dirs(entries: Seq<RootEntryView>) -> Seq<Seq<char>>
    decreases entries.len(),
{
    if entries.len() == 0 {
        Seq::empty()
    } else {
        let rest = spec_container_dirs(entries.drop_last());
        if entries.last().is_dir {
            rest.push(entries.last().path)
        } else {
            rest
        }
    }
}

/// Select the container directories from the root scan: the immediate
/// entries that are directories, in scan order.
pub fn container_dirs(entries: &Vec<RootEntry>) -> (dirs: Vec<String>)
    ensures
        dirs@.map(|i: int, p: String| p@) == spec_container_dirs(root_views(entries@)),
{
    let ghost rvs = root_views(entries@);
    let mut dirs: Vec<String> = Vec::new();
    let mut i: usize = 0;
    while i < entries.len()
        invariant
            i <= entries.len(),
            rvs == root_views(entries@),
            rvs.len() == entries.len(),
            dirs@.map(|k: int, p: String| p@) == spec_container_dirs(rvs.take(i as int)),
        decreases entries.len() - i,
    {
        assert(rvs.take(i + 1).drop_last() =~= rvs.take(i as int));
        assert(rvs.take(i + 1).last() == rvs[i as int]);
        if entries[i].is_dir {
            dirs.push(entries[i].path.clone());
            assert(dirs@.map(|k: int, p: String| p@) =~= spec_container_dirs(rvs.take(i + 1)));
        } else {
            assert(dirs@.map(|k: int, p: String| p@) =~= spec_container_dirs(rvs.take(i + 1)));
        }
        i = i + 1;
    }
    assert(rvs.take(entries.len() as int) =~= rvs);
    dirs
}

/// One immediate entry of a container directory, as the directory scanner
/// reports it: its full path and its bare file name.
pub struct DirEntry {
    pub path: String,
    pub name: String,
}

/// The mathematical content of a [`DirEntry`].
pub ghost struct EntryView {
    pub path: Seq<char>,
    pub name: Seq<char>,
}

impl View for DirEntry {
    type V = EntryView;

    open spec fn view(&self) -> EntryView {
        EntryView { path: self.path@, name: self.name@ }
    }
}

pub open spec fn entry_views(entries: Seq<DirEntry>) -> Seq<EntryView> {
    entries.map(|i: int, e: DirEntry| e@)
}

/// One classified container: its path (used as the display name of a project
/// unit), its kind, and, for a single-file container, the paths of its
/// source files in listing order. A project container carries no file list.
pub struct Container {
    pub name: String,
    pub kind: ExerciseKind,
    pub files: Vec<String>,
}

/// The mathematical content of a [`Container`].
pub ghost struct ContainerView {
    pub name: Seq<char>,
    pub kind: ExerciseKind,
    pub files: Seq<Seq<char>>,
}

impl View for Container {
    type V = ContainerView;

    open spec fn view(&self) -> ContainerView {
        ContainerView {
            name: self.name@,
            kind: self.kind,
            files: self.files@.map(|i: int, f: String| f@),
        }
    }
}

/// Only a single-file container carries a file list.
pub open spec fn container_wf(c: ContainerView) -> bool {
    c.kind == ExerciseKind::Project ==> c.files.len() == 0
}

/// Whether an entry name is the recognized build-descriptor file.
pub open spec fn spec_is_descriptor(name: Seq<char>) -> bool {
    name == "Cargo.toml"@
}

/// Whether some immediate entry of the container is the build descriptor.
pub open spec fn spec_has_descriptor(entries: Seq<EntryView>) -> bool {
    exists|j: int| 0 <= j < entries.len() && spec_is_descriptor(#[trigger] entries[j].name)
}

/// Whether a file name carries the source extension: it ends in ".rs" and is
/// more than the extension alone.
pub open spec fn spec_has_source_ext(name: Seq<char>) -> bool {
    &&& name.len() > 3
    &&& name[name.len() - 3] == '.'
    &&& name[name.len() - 2] == 'r'
    &&& name[name.len() - 1] == 's'
}

/// The paths of the source files among the given entries, in listing order.
pub open spec fn spec_source_files(entries: Seq<EntryView>) -> Seq<Seq<char>>
    decreases entries.len(),
{
    if entries.len() == 0 {
        Seq::empty()
    } else {
        let rest = spec_source_files(entries.drop_last());
        if spec_has_source_ext(entries.last().name) {
            rest.push(entries.last().path)
        } else {
            rest
        }
    }
}

/// Whether a file name carries the source extension.
pub fn has_source_ext(name: &str) -> (r: bool)
    ensures
        r == spec_has_source_ext(name@),
{
    let n: usize = name.unicode_len();
    n > 3 && name.get_char(n - 3) == '.' && name.get_char(n - 2) == 'r' && name.get_char(n - 1) == 's'
}

/// Classify one container directory from its immediate entries: a project if
/// the build descriptor is present, otherwise a single-file container paired
/// with its source files in listing order (possibly none).
pub fn classify_container(name: String, entries: &Vec<DirEntry>) -> (c: Container)
    ensures
        container_wf(c@),
        c@.name == name@,
        (c@.kind == ExerciseKind::Project) == spec_has_descriptor(entry_views(entries@)),
        c@.kind == ExerciseKind::SingleFile ==> c@.files == spec_source_files(entry_views(entries@)),
{
    let descriptor: String = "Cargo.toml".to_owned();
    let ghost evs = entry_views(entries@);
    let mut found = false;
    let mut i: usize = 0;
    while i < entries.len()
        invariant
            i <= entries.len(),
            evs == entry_views(entries@),
            evs.len() == entries.len(),
            descriptor@ == "Cargo.toml"@,
            found == exists|j: int| 0 <= j < i && spec_is_descriptor(#[trigger] evs[j].name),
        decreases entries.len() - i,
    {
        if entries[i].name == descriptor {
            found = true;
            assert(spec_is_descriptor(evs[i as int].name));
        }
        i = i + 1;
    }
    if found {
        Container { name, kind: ExerciseKind::Project, files: Vec::new() }
    } else {
        let mut files: Vec<String> = Vec::new();
        let mut k: usize = 0;
        while k < entries.len()
            invariant
                k <= entries.len(),
                evs == entry_views(entries@),
                evs.len() == entries.len(),
                files@.map(|i: int, f: String| f@) == spec_source_files(evs.take(k as int)),
            decreases entries.len() - k,
        {
            let ghost prefix = evs.take(k as int);
            assert(evs.take(k + 1).drop_last() =~= prefix);
            assert(evs.take(k + 1).last() == evs[k as int]);
            if has_source_ext(entries[k].name.as_str()) {
                files.push(entries[k].path.clone());
                assert(files@.map(|i: int, f: String| f@) =~= spec_source_files(evs.take(k + 1)));
            } else {
                assert(files@.map(|i: int, f: String| f@) =~= spec_source_files(evs.take(k + 1)));
            }
            k = k + 1;
        }
        assert(evs.take(entries.len() as int) =~= evs);
        Container { name, kind: ExerciseKind::SingleFile, files }
    }
}

} // verus!
