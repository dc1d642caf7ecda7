//! Creating the home layout on disk, and a model of a directory tree in
//! which what that creation does is proved.

use vstd::prelude::*;
use crate::paths::{ForemanPaths, join};

verus! {

/// A configuration file that the layout seeds with built-in text.
#[derive(Debug, Clone, Copy, PartialEq, Eq, Structural)]
pub enum SeedFile {
    UserConfig,
    AuthStore,
}

/// One step of creating the layout.
#[derive(Debug, Clone, PartialEq, Eq)]
pub enum LayoutStep {
    /// Make sure a directory is there (with its ancestors).
    CreateDir { path: String },
    /// Write the built-in text of `file` at `path`, unless something is
    /// there already.
    Seed { path: String, file: SeedFile },
}

/// What is on disk at a path.
#[derive(Debug, Clone, Copy, PartialEq, Eq, Structural)]
pub enum EntryKind {
    Absent,
    Directory,
    File,
}

/// What a step asks of the file system, given what is at its path.
#[derive(Debug, Clone, Copy, PartialEq, Eq, Structural)]
pub enum LayoutAction {
    /// Create the directory, and its missing ancestors.
    CreateDir,
    /// Write the seed file's built-in text.
    WriteFile,
    /// Leave the path as it is.
    Keep,
    /// A directory is wanted where a file stands: the creation fails.
    Conflict,
}

pub open spec fn step_path(step: LayoutStep) -> Seq<char> {
    match step {
        LayoutStep::CreateDir { path } => path@,
        LayoutStep::Seed { path, .. } => path@,
    }
}

pub open spec fn action_spec(step: LayoutStep, existing: EntryKind) -> LayoutAction {
    match step {
        LayoutStep::CreateDir { .. } => match existing {
            EntryKind::Absent => LayoutAction::CreateDir,
            EntryKind::Directory => LayoutAction::Keep,
            EntryKind::File => LayoutAction::Conflict,
        },
        LayoutStep::Seed { .. } => match existing {
            EntryKind::Absent => LayoutAction::WriteFile,
            _ => LayoutAction::Keep,
        },
    }
}

/// The steps that create the layout rooted at `root`, in order: the root,
/// the executables and tools directories, then the user configuration and
/// the auth store.
pub open spec fn is_layout_of(steps: Seq<LayoutStep>, root: Seq<char>) -> bool {
    &&& steps.len() == 5
    &&& steps[0] matches LayoutStep::CreateDir { path } && path@ == root
    &&& steps[1] matches LayoutStep::CreateDir { path } && path@ == join(root, "bin"@)
    &&& steps[2] matches LayoutStep::CreateDir { path } && path@ == join(root, "tools"@)
    &&& steps[3] matches LayoutStep::Seed { path, file } && path@ == join(root, "foreman.toml"@)
        && file == SeedFile::UserConfig
    &&& steps[4] matches LayoutStep::Seed { path, file } && path@ == join(root, "auth.toml"@)
        && file == SeedFile::AuthStore
}

impl LayoutStep {
    /// What this step asks of the file system where `existing` is at its
    /// path: a directory is created only where nothing is, and a seed file
    /// is written only where nothing is, so nothing is ever overwritten.
    pub fn action_for(&self, existing: EntryKind) -> (r: LayoutAction)
        ensures
            r == action_spec(*self, existing),
    {
        match self {
            LayoutStep::CreateDir { .. } => match existing {
                EntryKind::Absent => LayoutAction::CreateDir,
                EntryKind::Directory => LayoutAction::Keep,
                EntryKind::File => LayoutAction::Conflict,
            },
            LayoutStep::Seed { .. } => match existing {
                EntryKind::Absent => LayoutAction::WriteFile,
                _ => LayoutAction::Keep,
            },
        }
    }
}

impl ForemanPaths {
    /// The steps that create this layout on disk, in the order they run:
    /// each is carried out through `LayoutStep::action_for`, and the first
    /// failure ends the creation.
    pub fn create_all(&self) -> (r: Vec<LayoutStep>)
        ensures
            is_layout_of(r@, self@),
    {
        let mut steps: Vec<LayoutStep> = Vec::new();
        steps.push(LayoutStep::CreateDir { path: self.root_dir() });
        steps.push(LayoutStep::CreateDir { path: self.bin_dir() });
        steps.push(LayoutStep::CreateDir { path: self.tools_dir() });
        steps.push(LayoutStep::Seed { path: self.user_config(), file: SeedFile::UserConfig });
        steps.push(LayoutStep::Seed { path: self.auth_store(), file: SeedFile::AuthStore });
        steps
    }
}

/// An entry of the directory tree model.
pub enum Node {
    Dir,
    File(Seq<char>),
}

/// What is at `p` in the tree `t`.
pub open spec fn entry_kind(t: Map<Seq<char>, Node>, p: Seq<char>) -> EntryKind {
    if !t.contains_key(p) {
        EntryKind::Absent
    } else {
        match t[p] {
            Node::Dir => EntryKind::Directory,
            Node::File(_) => EntryKind::File,
        }
    }
}

/// The built-in text of a seed file, given the two texts.
pub open spec fn seed_text(file: SeedFile, user_text: Seq<char>, auth_text: Seq<char>) -> Seq<char> {
    match file {
        SeedFile::UserConfig => user_text,
        SeedFile::AuthStore => auth_text,
    }
}

/// The tree after one step has been carried out, or `None` where it fails.
pub open spec fn apply_step(
    t: Map<Seq<char>, Node>,
    step: LayoutStep,
    user_text: Seq<char>,
    auth_text: Seq<char>,
) -> Option<Map<Seq<char>, Node>> {
    let p = step_path(step);
    match action_spec(step, entry_kind(t, p)) {
        LayoutAction::CreateDir => Some(t.insert(p, Node::Dir)),
        LayoutAction::WriteFile => match step {
            LayoutStep::Seed { file, .. } => Some(t.insert(p, Node::File(seed_text(file, user_text, auth_text)))),
            LayoutStep::CreateDir { .. } => Some(t),
        },
        LayoutAction::Keep => Some(t),
        LayoutAction::Conflict => None,
    }
}

/// The tree after the steps have been carried out in order, or `None` where
/// one of them fails.
pub open spec fn apply_steps(
    t: Map<Seq<char>, Node>,
    steps: Seq<LayoutStep>,
    user_text: Seq<char>,
    auth_text: Seq<char>,
) -> Option<Map<Seq<char>, Node>>
    decreases steps.len(),
{
    if steps.len() == 0 {
        Some(t)
    } else {
        match apply_step(t, steps[0], user_text, auth_text) {
            None => None,
            Some(t1) => apply_steps(t1, steps.drop_first(), user_text, auth_text),
        }
    }
}

proof fn lemma_join_len(root: Seq<char>, child: Seq<char>)
    ensures
        join(root, child).len() == root.len() + child.len() + (if root.len() == 0 || root.last()
            == '/' {
            0int
        } else {
            1int
        }),
{
}

/// The five paths of the layout are distinct.
proof fn lemma_layout_paths_distinct(root: Seq<char>)
    ensures
        root != join(root, "bin"@),
        root != join(root, "tools"@),
        root != join(root, "foreman.toml"@),
        root != join(root, "auth.toml"@),
        join(root, "bin"@) != join(root, "tools"@),
        join(root, "bin"@) != join(root, "foreman.toml"@),
        join(root, "bin"@) != join(root, "auth.toml"@),
        join(root, "tools"@) != join(root, "foreman.toml"@),
        join(root, "tools"@) != join(root, "auth.toml"@),
        join(root, "foreman.toml"@) != join(root, "auth.toml"@),
{
    reveal_strlit("bin");
    reveal_strlit("tools");
    reveal_strlit("foreman.toml");
    reveal_strlit("auth.toml");
    lemma_join_len(root, "bin"@);
    lemma_join_len(root, "tools"@);
    lemma_join_len(root, "foreman.toml"@);
    lemma_join_len(root, "auth.toml"@);
}

/// Creating the layout, written out step by step.
proof fn lemma_apply_layout(
    t: Map<Seq<char>, Node>,
    steps: Seq<LayoutStep>,
    root: Seq<char>,
    user_text: Seq<char>,
    auth_text: Seq<char>,
)
    requires
        is_layout_of(steps, root),
    ensures
        apply_steps(t, steps, user_text, auth_text) == (match apply_step(t, steps[0], user_text, auth_text) {
            None => None,
            Some(t1) => match apply_step(t1, steps[1], user_text, auth_text) {
                None => None,
                Some(t2) => match apply_step(t2, steps[2], user_text, auth_text) {
                    None => None,
                    Some(t3) => match apply_step(t3, steps[3], user_text, auth_text) {
                        None => None,
                        Some(t4) => apply_step(t4, steps[4], user_text, auth_text),
                    },
                },
            },
        }),
{
    reveal_with_fuel(apply_steps, 6);
    assert(steps.drop_first()[0] == steps[1]);
    assert(steps.drop_first().drop_first()[0] == steps[2]);
    assert(steps.drop_first().drop_first().drop_first()[0] == steps[3]);
    assert(steps.drop_first().drop_first().drop_first().drop_first()[0] == steps[4]);
    assert(steps.drop_first().drop_first().drop_first().drop_first().drop_first().len() == 0);
}

/// Creating the layout fails exactly where one of its three directories is
/// taken by a file. Where it succeeds, the tree afterwards holds what it
/// held before and the five paths of the layout, no other: the three
/// directories are directories, and each configuration file that was not
/// there holds its built-in text.
pub proof fn lemma_create_all_exact(
    t: Map<Seq<char>, Node>,
    steps: Seq<LayoutStep>,
    root: Seq<char>,
    user_text: Seq<char>,
    auth_text: Seq<char>,
)
    requires
        is_layout_of(steps, root),
    ensures
        apply_steps(t, steps, user_text, auth_text) is Some <==> (entry_kind(t, root)
            != EntryKind::File && entry_kind(t, join(root, "bin"@)) != EntryKind::File
            && entry_kind(t, join(root, "tools"@)) != EntryKind::File),
        apply_steps(t, steps, user_text, auth_text) matches Some(t2) ==> {
            &&& t2.dom() == t.dom().insert(root).insert(join(root, "bin"@)).insert(
                join(root, "tools"@),
            ).insert(join(root, "foreman.toml"@)).insert(join(root, "auth.toml"@))
            &&& t2[root] == Node::Dir
            &&& t2[join(root, "bin"@)] == Node::Dir
            &&& t2[join(root, "tools"@)] == Node::Dir
            &&& !t.contains_key(join(root, "foreman.toml"@)) ==> t2[join(root, "foreman.toml"@)]
                == Node::File(user_text)
            &&& !t.contains_key(join(root, "auth.toml"@)) ==> t2[join(root, "auth.toml"@)]
                == Node::File(auth_text)
        },
{
    lemma_apply_layout(t, steps, root, user_text, auth_text);
    lemma_layout_paths_distinct(root);
    if let Some(t2) = apply_steps(t, steps, user_text, auth_text) {
        assert(t2.dom() =~= t.dom().insert(root).insert(join(root, "bin"@)).insert(
            join(root, "tools"@),
        ).insert(join(root, "foreman.toml"@)).insert(join(root, "auth.toml"@)));
    }
}

/// Creating the layout never changes what was already in the tree: every
/// entry there before, a configuration file above all, is the same after.
pub proof fn lemma_create_all_keeps_existing(
    t: Map<Seq<char>, Node>,
    steps: Seq<LayoutStep>,
    root: Seq<char>,
    user_text: Seq<char>,
    auth_text: Seq<char>,
)
    requires
        is_layout_of(steps, root),
    ensures
        apply_steps(t, steps, user_text, auth_text) matches Some(t2) ==> forall|p: Seq<char>|
            #[trigger] t.contains_key(p) ==> t2.contains_key(p) && t2[p] == t[p],
{
    lemma_apply_layout(t, steps, root, user_text, auth_text);
    lemma_layout_paths_distinct(root);
}

/// Creating the layout a second time succeeds and changes nothing.
pub proof fn lemma_create_all_idempotent(
    t: Map<Seq<char>, Node>,
    steps: Seq<LayoutStep>,
    root: Seq<char>,
    user_text: Seq<char>,
    auth_text: Seq<char>,
)
    requires
        is_layout_of(steps, root),
        apply_steps(t, steps, user_text, auth_text) is Some,
    ensures
        apply_steps(apply_steps(t, steps, user_text, auth_text)->Some_0, steps, user_text, auth_text)
            == apply_steps(t, steps, user_text, auth_text),
{
    let t2 = apply_steps(t, steps, user_text, auth_text)->Some_0;
    lemma_create_all_exact(t, steps, root, user_text, auth_text);
    lemma_apply_layout(t2, steps, root, user_text, auth_text);
    lemma_layout_paths_distinct(root);
    assert(t2.contains_key(join(root, "foreman.toml"@)));
    assert(t2.contains_key(join(root, "auth.toml"@)));
}

} // verus!
