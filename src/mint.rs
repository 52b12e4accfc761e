//! The Mint: the registry of staged artifacts, the checks on registration,
//! and the decisions of the final check or update over that registry.
use vstd::prelude::*;
use vstd::string::*;
use vstd::utf8::*;

use crate::differs::{agree, bytes_of, compare, differ_for, get_differ_for_path, Differ, Mismatch};
use crate::paths::{absolute_path, extension_of, is_absolute, join, joined};

verus! {

/// One registered artifact: its path relative to the golden and staging roots,
/// and the comparison it gets.
#[derive(Debug)]
pub struct GoldenFile {
    pub path: String,
    pub differ: Differ,
}

/// Why an artifact could not be registered.
#[derive(Clone, Copy, Debug, PartialEq, Eq, Structural)]
pub enum MintError {
    /// The path given is absolute; artifacts are named relative to the roots.
    PathNotRelative,
}

impl MintError {
    /// The text shown for this error.
    pub fn message(&self) -> (r: String)
        ensures
            r@ == "Path must be relative."@,
    {
        String::from_str("Path must be relative.")
    }
}

/// An artifact accepted for registration whose staging file is still to be
/// created. Only a relative path is ever accepted.
pub struct Staged {
    file: String,
    differ: Differ,
    location: String,
}

impl Staged {
    #[verifier::type_invariant]
    spec fn relative(self) -> bool {
        !absolute_path(self.file@)
    }

    /// The path of the artifact relative to the roots.
    pub closed spec fn spec_file(&self) -> Seq<char> {
        self.file@
    }

    /// The comparison the artifact will get.
    pub closed spec fn spec_differ(&self) -> Differ {
        self.differ
    }

    /// Where the artifact is to be written in the staging area.
    pub closed spec fn spec_location(&self) -> Seq<char> {
        self.location@
    }

    pub fn file(&self) -> (r: &str)
        ensures
            r@ == self.spec_file(),
            !absolute_path(r@),
    {
        proof {
            use_type_invariant(self);
        }
        self.file.as_str()
    }

    pub fn differ(&self) -> (r: Differ)
        ensures
            r == self.spec_differ(),
    {
        self.differ
    }

    pub fn location(&self) -> (r: &str)
        ensures
            r@ == self.spec_location(),
    {
        self.location.as_str()
    }
}

/// Where the Mint stands in its life: registering, or finalized.
#[derive(Clone, Copy, Debug, PartialEq, Eq, Structural)]
pub enum Phase {
    Active,
    Done,
}

/// What finalizing a Mint has to do.
#[derive(Clone, Copy, Debug, PartialEq, Eq, Structural)]
pub enum Finalization {
    /// Another failure is already in flight: neither compare nor update.
    Skip,
    /// Compare every staged artifact against its golden copy.
    Check,
    /// Write every staged artifact over its golden copy.
    Update,
}

/// What updating does with one golden file.
#[derive(Clone, Copy, Debug, PartialEq, Eq, Structural)]
pub enum UpdateAction {
    /// Copy the staged file over the golden one, creating it if absent.
    Copy,
    /// Delete the golden file.
    Remove,
    /// Leave the golden tree as it is.
    Keep,
}

/// The paths one comparison or copy works on.
#[derive(Debug)]
pub struct Comparison {
    /// The artifact's path relative to the roots.
    pub file: String,
    pub differ: Differ,
    /// The golden copy.
    pub old: String,
    /// The staged copy.
    pub new: String,
}

/// The contents read for one registered artifact; `None` where the file could
/// not be read.
#[derive(Debug)]
pub struct Observed {
    pub old: Option<Vec<u8>>,
    pub new: Option<Vec<u8>>,
}

/// What is known of one artifact before updating it.
#[derive(Clone, Copy, Debug, PartialEq, Eq, Structural)]
pub struct UpdateState {
    /// The staged file has no bytes.
    pub staged_empty: bool,
    /// A golden file exists at the artifact's path.
    pub golden_exists: bool,
}

/// The first registered artifact found to differ from its golden copy.
#[derive(Debug)]
pub struct Changed {
    /// Its position in the registry.
    pub index: usize,
    /// Its path relative to the roots.
    pub file: String,
    /// The path of its golden copy, which names it in the report.
    pub label: String,
    pub mismatch: Mismatch,
}

impl Changed {
    /// The failure text for this change.
    pub fn message(&self) -> (r: String)
        ensures
            r@ == self.mismatch.report(self.label@),
    {
        self.mismatch.message(self.label.as_str())
    }
}

/// The action that updating takes for one artifact.
pub open spec fn update_action_for(create_empty: bool, staged_empty: bool, golden_exists: bool) -> UpdateAction {
    if create_empty || !staged_empty {
        UpdateAction::Copy
    } else if golden_exists {
        UpdateAction::Remove
    } else {
        UpdateAction::Keep
    }
}

/// The golden file's contents after `action`, from the staged contents and
/// the golden contents before (`None`: absent).
pub open spec fn after_update(action: UpdateAction, staged: Seq<u8>, golden: Option<Seq<u8>>) -> Option<Seq<u8>> {
    match action {
        UpdateAction::Copy => Some(staged),
        UpdateAction::Remove => None,
        UpdateAction::Keep => golden,
    }
}

/// The value of a mode switch that asks for golden files to be regenerated.
pub open spec fn switch_on(v: Option<Seq<char>>) -> bool {
    v matches Some(s) && s.len() == 1 && s[0] == '1'
}

/// Whether the mode switches ask for regeneration: either the current switch or
/// its older alias set to `1`. Any other value, or none, means compare.
pub fn update_requested(legacy: Option<&str>, current: Option<&str>) -> (r: bool)
    ensures
        r == (switch_on(match legacy { Some(s) => Some(s@), None => None })
            || switch_on(match current { Some(s) => Some(s@), None => None })),
{
    let l = match legacy {
        Some(s) => s.unicode_len() == 1 && s.get_char(0) == '1',
        None => false,
    };
    let c = match current {
        Some(s) => s.unicode_len() == 1 && s.get_char(0) == '1',
        None => false,
    };
    l || c
}

/// Stages artifacts and decides, at the end, how each is checked or updated.
pub struct Mint {
    path: String,
    staging: String,
    files: Vec<GoldenFile>,
    create_empty: bool,
    phase: Phase,
}

impl Mint {
    #[verifier::type_invariant]
    spec fn registry_relative(self) -> bool {
        forall|i: int| 0 <= i < self.files@.len() ==> !absolute_path(#[trigger] self.files@[i].path@)
    }

    /// The directory holding the golden files.
    pub closed spec fn golden_root(&self) -> Seq<char> {
        self.path@
    }

    /// The staging area, where artifacts are written during the test.
    pub closed spec fn staging_root(&self) -> Seq<char> {
        self.staging@
    }

    /// The registered artifacts, in registration order.
    pub closed spec fn entries(&self) -> Seq<GoldenFile> {
        self.files@
    }

    /// Whether updating writes zero-length artifacts into the golden tree.
    pub closed spec fn creates_empty(&self) -> bool {
        self.create_empty
    }

    pub closed spec fn phase(&self) -> Phase {
        self.phase
    }

    fn new_internal(path: &str, staging: &str, create_empty: bool) -> (r: Mint)
        ensures
            r.golden_root() == path@,
            r.staging_root() == staging@,
            r.entries().len() == 0,
            r.creates_empty() == create_empty,
            r.phase() == Phase::Active,
    {
        Mint {
            path: String::from_str(path),
            staging: String::from_str(staging),
            files: Vec::new(),
            create_empty,
            phase: Phase::Active,
        }
    }

    /// A Mint over the golden directory `path`, staging into `staging`; updating
    /// writes every artifact, empty ones included.
    pub fn new(path: &str, staging: &str) -> (r: Mint)
        ensures
            r.golden_root() == path@,
            r.staging_root() == staging@,
            r.entries().len() == 0,
            r.creates_empty(),
            r.phase() == Phase::Active,
    {
        Self::new_internal(path, staging, true)
    }

    /// A Mint over the golden directory `path`, staging into `staging`; updating
    /// writes only non-empty artifacts and deletes the golden copies of empty ones.
    pub fn new_nonempty(path: &str, staging: &str) -> (r: Mint)
        ensures
            r.golden_root() == path@,
            r.staging_root() == staging@,
            r.entries().len() == 0,
            !r.creates_empty(),
            r.phase() == Phase::Active,
    {
        Self::new_internal(path, staging, false)
    }

    /// Accepts an artifact for registration with the comparison `differ`, and
    /// says where to create its staging file. An absolute path is refused.
    /// The registry changes only once the file exists (see `register`).
    pub fn new_goldenfile_with_differ(&self, path: &str, differ: Differ) -> (r: Result<Staged, MintError>)
        ensures
            r is Err <==> absolute_path(path@),
            r matches Err(e) ==> e == MintError::PathNotRelative,
            r matches Ok(s) ==> s.spec_file() == path@ && s.spec_differ() == differ
                && s.spec_location() == joined(self.staging_root(), path@),
    {
        if is_absolute(path) {
            return Err(MintError::PathNotRelative);
        }
        let location = join(self.staging.as_str(), path);
        Ok(Staged { file: String::from_str(path), differ, location })
    }

    /// As `new_goldenfile_with_differ`, with the comparison chosen by the
    /// path's extension.
    pub fn new_goldenfile(&self, path: &str) -> (r: Result<Staged, MintError>)
        ensures
            r is Err <==> absolute_path(path@),
            r matches Err(e) ==> e == MintError::PathNotRelative,
            r matches Ok(s) ==> s.spec_file() == path@ && s.spec_differ() == differ_for(extension_of(path@))
                && s.spec_location() == joined(self.staging_root(), path@),
    {
        let differ = get_differ_for_path(path);
        self.new_goldenfile_with_differ(path, differ)
    }

    /// Records an accepted artifact at the end of the registry, once its
    /// staging file has been created.
    pub fn register(&mut self, staged: Staged)
        ensures
            final(self).entries().len() == old(self).entries().len() + 1,
            final(self).entries().subrange(0, old(self).entries().len() as int) == old(self).entries(),
            final(self).entries().last().path@ == staged.spec_file(),
            final(self).entries().last().differ == staged.spec_differ(),
            final(self).golden_root() == old(self).golden_root(),
            final(self).staging_root() == old(self).staging_root(),
            final(self).creates_empty() == old(self).creates_empty(),
            final(self).phase() == old(self).phase(),
    {
        proof {
            use_type_invariant(&*self);
            use_type_invariant(&staged);
        }
        let Staged { file, differ, location: _ } = staged;
        let mut files: Vec<GoldenFile> = Vec::new();
        std::mem::swap(&mut files, &mut self.files);
        files.push(GoldenFile { path: file, differ });
        std::mem::swap(&mut files, &mut self.files);
        assert(self.files@.subrange(0, old(self).files@.len() as int) =~= old(self).files@);
    }

    /// The number of registered artifacts.
    pub fn len(&self) -> (r: usize)
        ensures
            r == self.entries().len(),
    {
        self.files.len()
    }

    /// Whether the Mint has not been finalized yet.
    pub fn is_active(&self) -> (r: bool)
        ensures
            r == (self.phase() == Phase::Active),
    {
        self.phase == Phase::Active
    }

    /// The golden and staged paths of every registered artifact, in
    /// registration order.
    pub fn comparisons(&self) -> (r: Vec<Comparison>)
        ensures
            r@.len() == self.entries().len(),
            forall|i: int| 0 <= i < r@.len() ==> {
                &&& (#[trigger] r@[i]).file@ == self.entries()[i].path@
                &&& r@[i].differ == self.entries()[i].differ
                &&& r@[i].old@ == joined(self.golden_root(), self.entries()[i].path@)
                &&& r@[i].new@ == joined(self.staging_root(), self.entries()[i].path@)
                &&& !absolute_path(r@[i].file@)
            },
    {
        proof {
            use_type_invariant(self);
        }
        let n = self.files.len();
        let mut r: Vec<Comparison> = Vec::new();
        let mut i: usize = 0;
        while i < n
            invariant
                n == self.files@.len(),
                i <= n,
                r@.len() == i,
                forall|j: int| 0 <= j < i ==> {
                    &&& (#[trigger] r@[j]).file@ == self.files@[j].path@
                    &&& r@[j].differ == self.files@[j].differ
                    &&& r@[j].old@ == joined(self.path@, self.files@[j].path@)
                    &&& r@[j].new@ == joined(self.staging@, self.files@[j].path@)
                    &&& !absolute_path(r@[j].file@)
                },
                forall|j: int| 0 <= j < self.files@.len() ==> !absolute_path(#[trigger] self.files@[j].path@),
            decreases n - i,
        {
            let f = &self.files[i];
            let old = join(self.path.as_str(), f.path.as_str());
            let new = join(self.staging.as_str(), f.path.as_str());
            r.push(Comparison { file: f.path.clone(), differ: f.differ, old, new });
            i = i + 1;
        }
        r
    }

    /// Ends the Mint's life and says what is left to do. Runs once: when a
    /// failure is already in flight nothing is compared or updated; otherwise
    /// the golden files are updated if `update` is set, and checked if not.
    pub fn finalize(&mut self, already_failing: bool, update: bool) -> (r: Finalization)
        requires
            old(self).phase() == Phase::Active,
        ensures
            final(self).phase() == Phase::Done,
            final(self).entries() == old(self).entries(),
            final(self).golden_root() == old(self).golden_root(),
            final(self).staging_root() == old(self).staging_root(),
            final(self).creates_empty() == old(self).creates_empty(),
            r == (if already_failing {
                Finalization::Skip
            } else if update {
                Finalization::Update
            } else {
                Finalization::Check
            }),
    {
        proof {
            use_type_invariant(&*self);
        }
        self.phase = Phase::Done;
        if already_failing {
            Finalization::Skip
        } else if update {
            Finalization::Update
        } else {
            Finalization::Check
        }
    }

    /// Compares every registered artifact, in registration order, against its
    /// golden copy, from the contents read for each, and reports the first
    /// that differs.
    pub fn check_goldenfiles(&self, observed: &Vec<Observed>) -> (r: Result<(), Changed>)
        requires
            observed@.len() == self.entries().len(),
        ensures
            r is Ok <==> forall|i: int| 0 <= i < observed@.len() ==> agree(
                self.entries()[i].differ,
                bytes_of(#[trigger] observed@[i].old),
                bytes_of(observed@[i].new),
            ),
            r matches Err(c) ==> {
                let i = c.index as int;
                &&& 0 <= i < observed@.len()
                &&& forall|j: int| 0 <= j < i ==> agree(
                    self.entries()[j].differ,
                    bytes_of(#[trigger] observed@[j].old),
                    bytes_of(observed@[j].new),
                )
                &&& !agree(self.entries()[i].differ, bytes_of(observed@[i].old), bytes_of(observed@[i].new))
                &&& c.mismatch.explains(self.entries()[i].differ, bytes_of(observed@[i].old), bytes_of(observed@[i].new))
                &&& c.file@ == self.entries()[i].path@
                &&& c.label@ == joined(self.golden_root(), self.entries()[i].path@)
            },
    {
        let n = self.files.len();
        let mut i: usize = 0;
        while i < n
            invariant
                n == self.files@.len(),
                n == observed@.len(),
                i <= n,
                forall|j: int| 0 <= j < i ==> agree(
                    self.files@[j].differ,
                    bytes_of(#[trigger] observed@[j].old),
                    bytes_of(observed@[j].new),
                ),
            decreases n - i,
        {
            let f = &self.files[i];
            let o = &observed[i];
            match compare(f.differ, &o.old, &o.new) {
                Ok(()) => {},
                Err(mismatch) => {
                    let label = join(self.path.as_str(), f.path.as_str());
                    return Err(Changed { index: i, file: f.path.clone(), label, mismatch });
                },
            }
            i = i + 1;
        }
        Ok(())
    }

    /// Decides, for every registered artifact in registration order, what
    /// updating does with its golden file: copy the staged file over it, unless
    /// the staged file is empty and this Mint does not create empty golden
    /// files, in which case an existing golden file is deleted.
    pub fn update_goldenfiles(&self, states: &Vec<UpdateState>) -> (r: Vec<UpdateAction>)
        requires
            states@.len() == self.entries().len(),
        ensures
            r@.len() == states@.len(),
            forall|i: int| 0 <= i < r@.len() ==> #[trigger] r@[i] == update_action_for(
                self.creates_empty(),
                states@[i].staged_empty,
                states@[i].golden_exists,
            ),
    {
        let n = states.len();
        let mut r: Vec<UpdateAction> = Vec::new();
        let mut i: usize = 0;
        while i < n
            invariant
                n == states@.len(),
                i <= n,
                r@.len() == i,
                forall|j: int| 0 <= j < i ==> #[trigger] r@[j] == update_action_for(
                    self.create_empty,
                    states@[j].staged_empty,
                    states@[j].golden_exists,
                ),
            decreases n - i,
        {
            let s = states[i];
            let action = if self.create_empty || !s.staged_empty {
                UpdateAction::Copy
            } else if s.golden_exists {
                UpdateAction::Remove
            } else {
                UpdateAction::Keep
            };
            r.push(action);
            i = i + 1;
        }
        r
    }
}

} // verus!

verus! {

/// Updating and then checking the same artifact finds no difference: the
/// golden file then holds the staged bytes, or is absent where the staged file
/// was empty, which reads as the same empty text. The one exception is an empty
/// binary artifact under a Mint that does not create empty golden files: its
/// golden copy is gone, and the byte comparison cannot read it.
pub proof fn update_then_check_agrees(
    differ: Differ,
    create_empty: bool,
    staged: Seq<u8>,
    golden: Option<Seq<u8>>,
)
    requires
        !(differ == Differ::Binary && !create_empty && staged.len() == 0),
    ensures
        agree(
            differ,
            after_update(update_action_for(create_empty, staged.len() == 0, golden is Some), staged, golden),
            Some(staged),
        ),
{
    let action = update_action_for(create_empty, staged.len() == 0, golden is Some);
    if action != UpdateAction::Copy {
        assert(staged =~= Seq::<u8>::empty());
        assert(valid_utf8(staged));
        assert(decode_utf8(staged) =~= Seq::<char>::empty());
    }
}

/// Under a Mint that does not create empty golden files, an empty staged
/// artifact deletes an existing golden file; under one that does, it is
/// copied, leaving an empty golden file.
pub proof fn empty_artifact_update(golden_exists: bool, golden: Option<Seq<u8>>)
    ensures
        update_action_for(false, true, true) == UpdateAction::Remove,
        after_update(update_action_for(false, true, true), Seq::empty(), golden) is None,
        update_action_for(true, true, golden_exists) == UpdateAction::Copy,
        after_update(update_action_for(true, true, golden_exists), Seq::empty(), golden) == Some(
            Seq::<u8>::empty(),
        ),
{
}

} // verus!

verus! {

/// When every registered artifact reads the same on both sides, every entry
/// agrees, so the check of the whole registry succeeds.
pub proof fn identical_artifacts_pass(m: Mint, observed: Seq<Observed>)
    requires
        observed.len() == m.entries().len(),
        forall|i: int| 0 <= i < observed.len() ==> bytes_of((#[trigger] observed[i]).old) == bytes_of(
            observed[i].new,
        ) && observed[i].new is Some,
    ensures
        forall|i: int| 0 <= i < observed.len() ==> agree(
            m.entries()[i].differ,
            bytes_of(#[trigger] observed[i].old),
            bytes_of(observed[i].new),
        ),
{
}

} // verus!
