//! Naming and bookkeeping of scratch files.
//!
//! A scratch path is made of the configured directory, a prefix of the
//! pipeline's choosing and a random identifier; the uploaded file's own name
//! never enters it. Writing and removing the files is the caller's part.

use vstd::prelude::*;
use crate::text::texts;

verus! {

/// A character of a random identifier: a lowercase hexadecimal digit or a hyphen.
pub open spec fn is_identifier_char(c: char) -> bool {
    let u = c as u32;
    ||| 0x30 <= u <= 0x39
    ||| 0x61 <= u <= 0x66
    ||| u == 0x2d
}

/// A random identifier: 36 identifier characters.
pub open spec fn is_identifier(id: Seq<char>) -> bool {
    &&& id.len() == 36
    &&& forall|i: int| 0 <= i < id.len() ==> is_identifier_char(#[trigger] id[i])
}

/// The path of a scratch file.
pub open spec fn scratch_path_text(
    dir: Seq<char>,
    prefix: Seq<char>,
    id: Seq<char>,
    suffix: Seq<char>,
) -> Seq<char> {
    dir + seq!['/'] + prefix + id + suffix
}

/// A file that one pipeline run owns and must remove before it returns.
#[derive(Clone, Debug, PartialEq, Eq)]
pub struct ScratchFile {
    pub path: String,
}

/// The scratch files of one run that are still to be removed, oldest first.
#[derive(Debug, PartialEq, Eq)]
pub struct ScratchSet {
    pub pending: Vec<ScratchFile>,
}

/// The paths of a list of scratch files.
pub open spec fn paths(files: Seq<ScratchFile>) -> Seq<Seq<char>> {
    Seq::new(files.len(), |i: int| files[i].path@)
}

/// `Uuid::new_v4` of the uuid crate, rendered by its `Display`: a random
/// identifier in the hyphenated lowercase form, 36 characters that are
/// hexadecimal digits or hyphens. Nothing is claimed of which identifier comes.
#[verifier::external_body]
pub(crate) fn fresh_identifier() -> (id: String)
    ensures
        is_identifier(id@),
{
    uuid::Uuid::new_v4().to_string()
}

/// Builds a scratch path from its parts.
pub fn scratch_path(dir: &str, prefix: &str, id: &str, suffix: &str) -> (path: String)
    ensures
        path@ == scratch_path_text(dir@, prefix@, id@, suffix@),
{
    let mut path: String = String::from_str(dir);
    path.append("/");
    path.append(prefix);
    path.append(id);
    path.append(suffix);
    proof {
        reveal_strlit("/");
        assert("/"@ =~= seq!['/']);
    }
    path
}

/// Two scratch paths under one directory, prefix and suffix are equal only
/// if their identifiers are: distinct identifiers never collide.
pub proof fn lemma_distinct_identifiers_distinct_paths(
    dir: Seq<char>,
    prefix: Seq<char>,
    suffix: Seq<char>,
    first: Seq<char>,
    second: Seq<char>,
)
    requires
        is_identifier(first),
        is_identifier(second),
        first != second,
    ensures
        scratch_path_text(dir, prefix, first, suffix) != scratch_path_text(
            dir,
            prefix,
            second,
            suffix,
        ),
{
    let a = scratch_path_text(dir, prefix, first, suffix);
    let b = scratch_path_text(dir, prefix, second, suffix);
    let start = dir.len() + 1 + prefix.len();
    if a == b {
        assert forall|i: int| 0 <= i < 36 implies first[i] == second[i] by {
            assert(a[start + i] == first[i]);
            assert(b[start + i] == second[i]);
        }
        assert(first =~= second);
    }
}

/// An identifier holds no path separator and no dot, so the identifier part
/// of a scratch path cannot leave the directory.
pub proof fn lemma_identifier_stays_in_directory(id: Seq<char>)
    requires
        is_identifier(id),
    ensures
        forall|i: int| 0 <= i < id.len() ==> id[i] != '/' && id[i] != '\\' && id[i] != '.',
{
    assert forall|i: int| 0 <= i < id.len() implies id[i] != '/' && id[i] != '\\' && id[i]
        != '.' by {
        assert(is_identifier_char(id[i]));
    }
}

impl ScratchFile {
    /// Allocates a scratch path under `dir` from a fresh random identifier.
    pub fn allocate(dir: &str, prefix: &str, suffix: &str) -> (file: ScratchFile)
        ensures
            exists|id: Seq<char>|
                is_identifier(id) && file.path@ == #[trigger] scratch_path_text(
                    dir@,
                    prefix@,
                    id,
                    suffix@,
                ),
    {
        let id: String = fresh_identifier();
        let path: String = scratch_path(dir, prefix, id.as_str(), suffix);
        assert(path@ == scratch_path_text(dir@, prefix@, id@, suffix@));
        ScratchFile { path }
    }
}

impl ScratchSet {
    /// A run that owns no scratch file yet.
    pub fn new() -> (set: ScratchSet)
        ensures
            set.pending@.len() == 0,
    {
        ScratchSet { pending: Vec::new() }
    }

    /// Registers a file for release, at the moment it is created.
    pub fn register(&mut self, file: ScratchFile)
        ensures
            final(self).pending@ == old(self).pending@.push(file),
    {
        self.pending.push(file);
    }

    /// Hands out every registered path for removal, oldest first, and forgets
    /// them: a second release right after finds nothing left to remove.
    pub fn release(&mut self) -> (removed: Vec<String>)
        ensures
            final(self).pending@.len() == 0,
            texts(removed@) == paths(old(self).pending@),
    {
        let mut removed: Vec<String> = Vec::new();
        let n: usize = self.pending.len();
        let mut i: usize = 0;
        while i < n
            invariant
                n == self.pending@.len(),
                self.pending@ == old(self).pending@,
                i <= n,
                removed@.len() == i,
                forall|k: int|
                    0 <= k < i ==> (#[trigger] removed@[k])@ == self.pending@[k].path@,
            decreases n - i,
        {
            removed.push(String::from_str(self.pending[i].path.as_str()));
            i = i + 1;
        }
        assert(texts(removed@) =~= paths(self.pending@));
        self.pending.clear();
        removed
    }
}

} // verus!
