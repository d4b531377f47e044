//! A model of the directory tree, to say what the steps of the scaffolder do
//! to it once they are carried out.

use crate::paint::LabelsView;
use crate::scaffold::{
    build_text, descriptor_text, outcome, root_path, skeleton, source_path, StepView, BUILD_FILE,
    BUILD_HEAD, BUILD_TAIL, DESCRIPTOR_FILE, DESCRIPTOR_HEAD, DESCRIPTOR_TAIL, MAIN_FILE,
    MAIN_SOURCE, SOURCE_DIR, WORKSPACE_FILE,
};
use vstd::prelude::*;

verus! {

/// The directories and the files of a tree, each under its path.
pub struct Tree {
    pub dirs: Set<Seq<Seq<char>>>,
    pub files: Map<Seq<Seq<char>>, Seq<char>>,
}

impl Tree {
    /// Something stands at `path`.
    pub open spec fn holds(self, path: Seq<Seq<char>>) -> bool {
        self.dirs.contains(path) || self.files.contains_key(path)
    }

    /// The tree is finite, and whatever stands below the top level stands in
    /// a directory of the tree.
    pub open spec fn well_formed(self) -> bool {
        &&& self.dirs.finite()
        &&& self.files.dom().finite()
        &&& forall|path: Seq<Seq<char>>| #[trigger]
            self.holds(path) && path.len() > 1 ==> self.dirs.contains(path.drop_last())
    }

    /// The tree once `step` is carried out.
    pub open spec fn after(self, step: StepView) -> Tree {
        match step {
            StepView::CreateDir { path } => Tree {
                dirs: self.dirs.insert(path),
                files: self.files,
            },
            StepView::WriteFile { path, content } => Tree {
                dirs: self.dirs,
                files: self.files.insert(path, content),
            },
        }
    }

    /// The tree once `steps` are carried out in order.
    pub open spec fn after_all(self, steps: Seq<StepView>) -> Tree
        decreases steps.len(),
    {
        if steps.len() == 0 {
            self
        } else {
            self.after(steps[0]).after_all(steps.drop_first())
        }
    }

    /// The tree once a package called `name` was asked for: the destination
    /// is looked up, and what `new_package` answers is carried out.
    pub open spec fn with_package(self, name: Seq<char>, labels: LabelsView) -> Tree {
        self.after_all(outcome(name, self.holds(root_path(name)), labels).steps())
    }
}

/// The four files of the skeleton of `name`, each under its path.
pub open spec fn skeleton_files(name: Seq<char>) -> Map<Seq<Seq<char>>, Seq<char>> {
    map![
        seq![name, WORKSPACE_FILE@] => Seq::<char>::empty(),
        seq![name, DESCRIPTOR_FILE@] => descriptor_text(name),
        seq![name, SOURCE_DIR@, BUILD_FILE@] => build_text(name),
        seq![name, SOURCE_DIR@, MAIN_FILE@] => MAIN_SOURCE@,
    ]
}

/// The two directories of the skeleton of `name`.
pub open spec fn skeleton_dirs(name: Seq<char>) -> Set<Seq<Seq<char>>> {
    set![root_path(name), source_path(name)]
}

/// Carrying out the skeleton adds its two directories and its four files to
/// the tree and leaves the rest as it was.
pub proof fn lemma_skeleton_effect(tree: Tree, name: Seq<char>)
    ensures
        tree.after_all(skeleton(name)).dirs == tree.dirs.union(skeleton_dirs(name)),
        tree.after_all(skeleton(name)).files == tree.files.union_prefer_right(
            skeleton_files(name),
        ),
{
    let steps = skeleton(name);
    let s1 = steps.drop_first();
    let s2 = s1.drop_first();
    let s3 = s2.drop_first();
    let s4 = s3.drop_first();
    let s5 = s4.drop_first();
    let s6 = s5.drop_first();
    let t1 = tree.after(steps[0]);
    let t2 = t1.after(s1[0]);
    let t3 = t2.after(s2[0]);
    let t4 = t3.after(s3[0]);
    let t5 = t4.after(s4[0]);
    let t6 = t5.after(s5[0]);
    assert(s6.len() == 0);
    assert(t6.after_all(s6) == t6);
    assert(t5.after_all(s5) == t6);
    assert(t4.after_all(s4) == t6);
    assert(t3.after_all(s3) == t6);
    assert(t2.after_all(s2) == t6);
    assert(t1.after_all(s1) == t6);
    assert(tree.after_all(steps) == t6);
    lemma_names_differ();
    assert(t6.dirs =~= tree.dirs.union(skeleton_dirs(name)));
    assert(t6.files =~= tree.files.union_prefer_right(skeleton_files(name)));
}

/// The names of the skeleton's entries differ from one another.
proof fn lemma_names_differ()
    ensures
        WORKSPACE_FILE@ != DESCRIPTOR_FILE@,
        WORKSPACE_FILE@ != SOURCE_DIR@,
        DESCRIPTOR_FILE@ != SOURCE_DIR@,
        BUILD_FILE@ != MAIN_FILE@,
{
    reveal_strlit("WORKSPACE");
    reveal_strlit("Buddy.toml");
    reveal_strlit("src");
    reveal_strlit("BUILD");
    reveal_strlit("main.cc");
    assert(WORKSPACE_FILE@.len() == 9);
    assert(DESCRIPTOR_FILE@.len() == 10);
    assert(SOURCE_DIR@.len() == 3);
    assert(BUILD_FILE@.len() == 5);
    assert(MAIN_FILE@.len() == 7);
}

/// Where nothing stands at the destination, asking for a package adds
/// exactly one directory, one directory nested in it and four files: none of
/// them was there before, nothing else changes, and the package descriptor
/// and the build descriptor hold the package's name as it was given.
pub proof fn lemma_new_package_creates_skeleton(tree: Tree, name: Seq<char>, labels: LabelsView)
    requires
        tree.well_formed(),
        !tree.holds(root_path(name)),
    ensures
        tree.with_package(name, labels).dirs == tree.dirs.union(skeleton_dirs(name)),
        tree.with_package(name, labels).files == tree.files.union_prefer_right(
            skeleton_files(name),
        ),
        tree.dirs.disjoint(skeleton_dirs(name)),
        tree.files.dom().disjoint(skeleton_files(name).dom()),
        skeleton_dirs(name).len() == 2,
        skeleton_files(name).dom().len() == 4,
        source_path(name).drop_last() == root_path(name),
        tree.with_package(name, labels).dirs.len() == tree.dirs.len() + 2,
        tree.with_package(name, labels).files.dom().len() == tree.files.dom().len() + 4,
        tree.with_package(name, labels).files[seq![name, DESCRIPTOR_FILE@]] == DESCRIPTOR_HEAD@
            + name + DESCRIPTOR_TAIL@,
        tree.with_package(name, labels).files[seq![name, SOURCE_DIR@, BUILD_FILE@]] == BUILD_HEAD@
            + name + BUILD_TAIL@,
        tree.with_package(name, labels).well_formed(),
{
    broadcast use vstd::set::group_set_axioms, vstd::map::group_map_axioms;

    lemma_skeleton_effect(tree, name);
    lemma_names_differ();
    let root = root_path(name);
    let source = source_path(name);
    let marker = seq![name, WORKSPACE_FILE@];
    let descriptor = seq![name, DESCRIPTOR_FILE@];
    let build = seq![name, SOURCE_DIR@, BUILD_FILE@];
    let main = seq![name, SOURCE_DIR@, MAIN_FILE@];
    assert(source.drop_last() =~= root);
    assert(marker.drop_last() =~= root);
    assert(descriptor.drop_last() =~= root);
    assert(build.drop_last() =~= source);
    assert(main.drop_last() =~= source);
    assert(!tree.holds(source)) by {
        if tree.holds(source) {
            assert(tree.dirs.contains(source.drop_last()));
        }
    }
    assert(!tree.holds(marker)) by {
        if tree.holds(marker) {
            assert(tree.dirs.contains(marker.drop_last()));
        }
    }
    assert(!tree.holds(descriptor)) by {
        if tree.holds(descriptor) {
            assert(tree.dirs.contains(descriptor.drop_last()));
        }
    }
    assert(!tree.holds(build)) by {
        if tree.holds(build) {
            assert(tree.dirs.contains(build.drop_last()));
        }
    }
    assert(!tree.holds(main)) by {
        if tree.holds(main) {
            assert(tree.dirs.contains(main.drop_last()));
        }
    }
    assert(marker[1] != descriptor[1]);
    assert(build[2] != main[2]);
    assert(root.len() != source.len());
    assert(marker.len() != build.len());

    let dirs0 = tree.dirs.insert(root);
    assert(tree.dirs.union(skeleton_dirs(name)) =~= dirs0.insert(source));
    assert(skeleton_dirs(name) =~= Set::empty().insert(root).insert(source));

    let keys0 = tree.files.dom();
    let keys1 = keys0.insert(marker);
    let keys2 = keys1.insert(descriptor);
    let keys3 = keys2.insert(build);
    assert(tree.files.union_prefer_right(skeleton_files(name)).dom() =~= keys3.insert(main));
    assert(skeleton_files(name).dom() =~= Set::empty().insert(marker).insert(descriptor).insert(
        build,
    ).insert(main));

    let grown = tree.with_package(name, labels);
    assert forall|path: Seq<Seq<char>>| #[trigger] grown.holds(path) && path.len() > 1 implies
        grown.dirs.contains(path.drop_last()) by {
        if tree.holds(path) {
            assert(tree.dirs.contains(path.drop_last()));
        }
    }
}

/// Where something stands at the destination, asking for a package changes
/// nothing in the tree.
pub proof fn lemma_existing_destination_unchanged(tree: Tree, name: Seq<char>, labels: LabelsView)
    requires
        tree.holds(root_path(name)),
    ensures
        outcome(name, tree.holds(root_path(name)), labels).steps().len() == 0,
        tree.with_package(name, labels) == tree,
{
}

/// Asking twice for the same package is safe: whatever the tree was, the
/// second request finds the destination, has no step to carry out and leaves
/// the tree as the first request left it.
pub proof fn lemma_second_request_writes_nothing(tree: Tree, name: Seq<char>, labels: LabelsView)
    ensures
        tree.with_package(name, labels).holds(root_path(name)),
        outcome(
            name,
            tree.with_package(name, labels).holds(root_path(name)),
            labels,
        ).steps().len() == 0,
        tree.with_package(name, labels).with_package(name, labels) == tree.with_package(
            name,
            labels,
        ),
{
    if !tree.holds(root_path(name)) {
        lemma_skeleton_effect(tree, name);
        assert(skeleton_dirs(name).contains(root_path(name)));
    }
}

} // verus!
