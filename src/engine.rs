use vstd::prelude::*;

use crate::path::{copy_path, join, parent, parent_of, parts, strip_prefix, Component, Part};
use crate::stats::{after_entry, CopyError, CopyOptions, Kind};

verus! {

/// The size of the buffer that file data passes through.
pub const BUFFER_SIZE: usize = 8192;

/// How a source is copied.
#[derive(Debug, Clone, Copy, PartialEq, Eq, Structural)]
pub enum Mode {
    /// One file, to one target path.
    SingleFile,
    /// Every entry of the tree under the source, one by one.
    Tree,
    /// Nothing to copy: the source is neither a file nor a directory.
    Nothing,
}

/// How a source of the given kind is copied, when recursion is or is not allowed;
/// none when the source is a directory and recursion is not allowed.
pub open spec fn mode_of(kind: Kind, recursive: bool) -> Option<Mode> {
    match kind {
        Kind::Directory => if recursive {
            Some(Mode::Tree)
        } else {
            None
        },
        Kind::File => Some(Mode::SingleFile),
        Kind::Other => if recursive {
            Some(Mode::Tree)
        } else {
            Some(Mode::Nothing)
        },
    }
}

/// Checks the source against the options before any work, and picks how it is
/// copied. A directory without recursion is refused with `IsADirectory`, which
/// names the source.
pub fn choose_mode(source: &Vec<Component>, kind: Kind, options: &CopyOptions) -> (r: Result<
    Mode,
    CopyError,
>)
    ensures
        r is Err <==> mode_of(kind, options.recursive) is None,
        r matches Ok(m) ==> mode_of(kind, options.recursive) == Some(m),
        r matches Err(e) ==> (e matches CopyError::IsADirectory(p) && parts(p@) == parts(source@)),
{
    match kind {
        Kind::Directory => if options.recursive {
            Ok(Mode::Tree)
        } else {
            Err(CopyError::IsADirectory(copy_path(source)))
        },
        Kind::File => Ok(Mode::SingleFile),
        Kind::Other => if options.recursive {
            Ok(Mode::Tree)
        } else {
            Ok(Mode::Nothing)
        },
    }
}

/// An entry found while sizing a source, with its length in bytes.
#[derive(Debug, Clone, Copy)]
pub struct SizedEntry {
    pub kind: Kind,
    pub len: u64,
}

/// The sum of the lengths of the regular files among `entries`.
pub open spec fn file_bytes(entries: Seq<SizedEntry>) -> nat
    decreases entries.len(),
{
    if entries.len() == 0 {
        0
    } else {
        file_bytes(entries.drop_last()) + if entries.last().kind == Kind::File {
            entries.last().len as nat
        } else {
            0
        }
    }
}

/// The number of bytes that a copy of `entries` moves: the sum of the lengths of
/// the regular files among them, held at `u64::MAX` where the sum is larger.
pub fn get_total_size(entries: &Vec<SizedEntry>) -> (r: u64)
    ensures
        r as nat == if file_bytes(entries@) <= u64::MAX {
            file_bytes(entries@)
        } else {
            u64::MAX as nat
        },
{
    let mut total: u64 = 0;
    let mut i: usize = 0;
    let mut capped = false;
    while i < entries.len()
        invariant
            i <= entries.len(),
            capped ==> total == u64::MAX && file_bytes(entries@.subrange(0, i as int)) > u64::MAX,
            !capped ==> total as nat == file_bytes(entries@.subrange(0, i as int)),
        decreases entries.len() - i,
    {
        let e = entries[i];
        assert(entries@.subrange(0, i + 1).drop_last() =~= entries@.subrange(0, i as int));
        if !capped && e.kind == Kind::File {
            if e.len > u64::MAX - total {
                total = u64::MAX;
                capped = true;
            } else {
                total = total + e.len;
            }
        }
        i = i + 1;
    }
    assert(entries@.subrange(0, entries.len() as int) =~= entries@);
    total
}

/// What to do for one entry of the tree under the source.
#[derive(Debug, PartialEq, Eq)]
pub enum Step {
    /// Create this directory and any missing ancestor.
    MakeDir(Vec<Component>),
    /// Make sure that `parent` exists, when there is one, then copy the file to `target`.
    CopyFile { target: Vec<Component>, parent: Option<Vec<Component>> },
    /// Pass over the entry.
    Skip,
}

/// Where an entry at `entry` under `source` lands under the destination `root`,
/// when `entry` lies under `source`.
pub open spec fn mapped(source: Seq<Part>, root: Seq<Part>, entry: Seq<Part>) -> Option<Seq<Part>> {
    if source.is_prefix_of(entry) {
        Some(root + entry.subrange(source.len() as int, entry.len() as int))
    } else {
        None
    }
}

/// Decides the step for one entry of a tree copy: a directory is created at its
/// place under `root`, a file is copied there, anything else is passed over. An
/// entry that does not lie under `source` ends the copy with `Other`.
pub fn plan_entry(source: &Vec<Component>, root: &Vec<Component>, entry: &Vec<Component>, kind: Kind) -> (r:
    Result<Step, CopyError>)
    ensures
        r is Err <==> mapped(parts(source@), parts(root@), parts(entry@)) is None,
        r matches Err(e) ==> e is Other,
        r matches Ok(step) ==> {
            let t = mapped(parts(source@), parts(root@), parts(entry@))->Some_0;
            match kind {
                Kind::Directory => step matches Step::MakeDir(d) && parts(d@) == t,
                Kind::File => step matches Step::CopyFile { target, parent } && parts(target@) == t
                    && match parent {
                    Some(p) => parent_of(t) == Some(parts(p@)),
                    None => parent_of(t) is None,
                },
                Kind::Other => step is Skip,
            }
        },
{
    let rel = match strip_prefix(entry, source) {
        Some(rel) => rel,
        None => {
            return Err(CopyError::Other(String::from_str("entry lies outside the source tree")));
        },
    };
    proof {
        assert(parts(entry@).subrange(parts(source@).len() as int, parts(entry@).len() as int)
            =~= parts(rel@));
    }
    let target = join(root, &rel);
    match kind {
        Kind::Directory => Ok(Step::MakeDir(target)),
        Kind::File => {
            let p = parent(&target);
            Ok(Step::CopyFile { target, parent: p })
        },
        Kind::Other => Ok(Step::Skip),
    }
}

/// Checks the directory that a file is about to be copied into. A parent that
/// exists and is not a directory fails with `NotADirectory`, which names it; a
/// parent that is a directory, or is not there yet, passes.
pub fn check_parent(parent: &Vec<Component>, exists: bool, is_dir: bool) -> (r: Result<
    (),
    CopyError,
>)
    ensures
        r is Err <==> exists && !is_dir,
        r matches Err(e) ==> (e matches CopyError::NotADirectory(p) && parts(p@) == parts(
            parent@,
        )),
{
    if exists && !is_dir {
        Err(CopyError::NotADirectory(copy_path(parent)))
    } else {
        Ok(())
    }
}

/// What follows one read from a source file.
#[derive(Debug, Clone, Copy, PartialEq, Eq, Structural)]
pub enum ReadStep {
    /// The read returned nothing: the file is done.
    Finished,
    /// Write the chunk that was read and report it; the file's total is now this.
    Wrote(u64),
}

/// The step after a read of `n` bytes, `copied` bytes into a file: the end at an
/// empty read, else the new total; none where that total would not fit in a `u64`.
pub open spec fn read_step_of(copied: u64, n: nat) -> Option<ReadStep> {
    if n == 0 {
        Some(ReadStep::Finished)
    } else if copied + n <= u64::MAX {
        Some(ReadStep::Wrote((copied + n) as u64))
    } else {
        None
    }
}

/// The step after a read of `n` bytes, `copied` bytes into a file: the end at an
/// empty read, else the chunk is written and counted. `Other` where the count
/// would no longer fit.
pub fn next_read_step(copied: u64, n: usize) -> (r: Result<ReadStep, CopyError>)
    requires
        n <= BUFFER_SIZE,
    ensures
        r is Err <==> read_step_of(copied, n as nat) is None,
        r matches Ok(step) ==> read_step_of(copied, n as nat) == Some(step),
        r matches Err(e) ==> e is Other,
{
    if n == 0 {
        Ok(ReadStep::Finished)
    } else if n as u64 > u64::MAX - copied {
        Err(CopyError::Other(String::from_str("byte count overflow")))
    } else {
        Ok(ReadStep::Wrote(copied + n as u64))
    }
}

/// The sum of a sequence of chunk lengths.
pub open spec fn chunk_total(chunks: Seq<nat>) -> nat
    decreases chunks.len(),
{
    if chunks.len() == 0 {
        0
    } else {
        chunk_total(chunks.drop_last()) + chunks.last()
    }
}

/// A file copy counts every byte read: when the totals start at zero and each
/// non-empty read moves the total on as `read_step_of` says, the total after the
/// last read is the sum of the read lengths, and the empty read that follows ends
/// the copy with that total.
pub proof fn lemma_stream_counts_every_byte(chunks: Seq<nat>, totals: Seq<u64>)
    requires
        totals.len() == chunks.len() + 1,
        totals[0] == 0,
        forall|i: int|
            0 <= i < chunks.len() ==> chunks[i] > 0 && #[trigger] read_step_of(totals[i], chunks[i])
                == Some(ReadStep::Wrote(totals[i + 1])),
    ensures
        totals.last() as nat == chunk_total(chunks),
        read_step_of(totals.last(), 0) == Some(ReadStep::Finished),
    decreases chunks.len(),
{
    if chunks.len() > 0 {
        let k = chunks.len() - 1;
        assert(read_step_of(totals[k], chunks[k]) == Some(ReadStep::Wrote(totals[k + 1])));
        lemma_stream_counts_every_byte(chunks.drop_last(), totals.drop_last());
    }
}

/// The number of regular files among `kinds`.
pub open spec fn files_of(kinds: Seq<Kind>) -> nat
    decreases kinds.len(),
{
    if kinds.len() == 0 {
        0
    } else {
        files_of(kinds.drop_last()) + if kinds.last() == Kind::File {
            1nat
        } else {
            0
        }
    }
}

/// The number of directories among `kinds`.
pub open spec fn dirs_of(kinds: Seq<Kind>) -> nat
    decreases kinds.len(),
{
    if kinds.len() == 0 {
        0
    } else {
        dirs_of(kinds.drop_last()) + if kinds.last() == Kind::Directory {
            1nat
        } else {
            0
        }
    }
}

/// The sum of `sizes[i]` over the regular files `kinds[i]`.
pub open spec fn bytes_of(kinds: Seq<Kind>, sizes: Seq<nat>) -> nat
    decreases kinds.len(),
{
    if kinds.len() == 0 || sizes.len() == 0 {
        0
    } else {
        bytes_of(kinds.drop_last(), sizes.drop_last()) + if kinds.last() == Kind::File {
            sizes.last()
        } else {
            0
        }
    }
}

/// A tree copy counts every regular file of the tree once, with its bytes, and
/// every directory once: when the counters start at zero and each visited entry
/// moves them on as `after_entry` says, they end at the number of files, the sum
/// of their sizes and the number of directories among the entries.
pub proof fn lemma_walk_totals(kinds: Seq<Kind>, sizes: Seq<nat>, states: Seq<(nat, nat, nat)>)
    requires
        sizes.len() == kinds.len(),
        states.len() == kinds.len() + 1,
        states[0] == (0nat, 0nat, 0nat),
        forall|i: int|
            0 <= i < kinds.len() ==> states[i + 1] == #[trigger] after_entry(
                states[i],
                kinds[i],
                sizes[i],
            ),
    ensures
        states.last() == (bytes_of(kinds, sizes), files_of(kinds), dirs_of(kinds)),
    decreases kinds.len(),
{
    if kinds.len() > 0 {
        let k = kinds.len() - 1;
        assert(states[k + 1] == after_entry(states[k], kinds[k], sizes[k]));
        lemma_walk_totals(kinds.drop_last(), sizes.drop_last(), states.drop_last());
    }
}

/// Copying is not additive: two copies that visit the same entries with the same
/// sizes, each from fresh counters, end with the same counters.
pub proof fn lemma_repeat_gives_same_totals(
    kinds: Seq<Kind>,
    sizes: Seq<nat>,
    first: Seq<(nat, nat, nat)>,
    second: Seq<(nat, nat, nat)>,
)
    requires
        sizes.len() == kinds.len(),
        first.len() == kinds.len() + 1,
        second.len() == kinds.len() + 1,
        first[0] == (0nat, 0nat, 0nat),
        second[0] == (0nat, 0nat, 0nat),
        forall|i: int|
            0 <= i < kinds.len() ==> first[i + 1] == #[trigger] after_entry(
                first[i],
                kinds[i],
                sizes[i],
            ),
        forall|i: int|
            0 <= i < kinds.len() ==> second[i + 1] == #[trigger] after_entry(
                second[i],
                kinds[i],
                sizes[i],
            ),
    ensures
        first.last() == second.last(),
{
    lemma_walk_totals(kinds, sizes, first);
    lemma_walk_totals(kinds, sizes, second);
}

/// Every path under the source keeps its place: the entry at `source` followed by
/// `rel` lands at `root` followed by the same `rel`.
pub proof fn lemma_relative_paths_kept(source: Seq<Part>, root: Seq<Part>, rel: Seq<Part>)
    ensures
        mapped(source, root, source + rel) == Some(root + rel),
{
    assert(source.is_prefix_of(source + rel)) by {
        assert((source + rel).subrange(0, source.len() as int) =~= source);
    }
    assert((source + rel).subrange(source.len() as int, (source + rel).len() as int) =~= rel);
}

} // verus!
