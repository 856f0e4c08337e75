use vstd::prelude::*;

use crate::path::Component;

verus! {

/// The outside error that a failed read, write or metadata call returns.
#[verifier::external_type_specification]
#[verifier::external_body]
pub struct ExIoError(std::io::Error);

/// The outside error that a failed directory walk returns.
#[verifier::external_type_specification]
#[verifier::external_body]
pub struct ExWalkError(walkdir::Error);

/// Why a copy stopped. The first error ends the whole operation.
#[derive(Debug)]
pub enum CopyError {
    /// A read, write, create or permission call failed.
    Io(std::io::Error),
    /// Listing a directory tree failed.
    Walk(walkdir::Error),
    /// The source is a directory and recursive copying was not asked for.
    IsADirectory(Vec<Component>),
    /// A directory was needed where something else stands: the parent of a file's
    /// target exists and is not a directory.
    NotADirectory(Vec<Component>),
    /// Any other fault: a path outside the source tree, a count that no longer fits.
    Other(String),
}

/// The settings of one copy.
pub struct CopyOptions {
    /// Copy the permission bits of each file after its data.
    pub preserve_attrs: bool,
    /// Accepted and kept; the copy overwrites existing files whether or not it is set.
    pub force: bool,
    /// Read by the command line front end only, to print a summary.
    pub verbose: bool,
    /// Allow a directory as the source.
    pub recursive: bool,
}

/// What one finished copy did.
#[derive(Debug)]
pub struct CopyStats {
    pub bytes_copied: u64,
    pub files_copied: usize,
    pub dirs_created: usize,
    pub time_taken: core::time::Duration,
}

/// The kind of a filesystem entry, as the copy tells them apart.
#[derive(Debug, Clone, Copy, PartialEq, Eq, Structural)]
pub enum Kind {
    File,
    Directory,
    /// A symbolic link, device, socket or anything else that is neither.
    Other,
}

impl Kind {
    /// The kind of an entry from what the filesystem says of it; a directory wins
    /// where both are claimed.
    pub fn classify(is_dir: bool, is_file: bool) -> (r: Kind)
        ensures
            r == (if is_dir {
                Kind::Directory
            } else if is_file {
                Kind::File
            } else {
                Kind::Other
            }),
    {
        if is_dir {
            Kind::Directory
        } else if is_file {
            Kind::File
        } else {
            Kind::Other
        }
    }
}

/// The counters of a copy as numbers: bytes, files, directories.
pub open spec fn counts(s: &CopyStats) -> (nat, nat, nat) {
    (s.bytes_copied as nat, s.files_copied as nat, s.dirs_created as nat)
}

/// The counters after one more entry: a file adds itself and its bytes, a
/// directory adds one directory, anything else adds nothing.
pub open spec fn after_entry(c: (nat, nat, nat), kind: Kind, bytes: nat) -> (nat, nat, nat) {
    match kind {
        Kind::File => (c.0 + bytes, c.1 + 1, c.2),
        Kind::Directory => (c.0, c.1, c.2 + 1),
        Kind::Other => c,
    }
}

/// Whether counters fit the fields that hold them.
pub open spec fn counts_fit(c: (nat, nat, nat)) -> bool {
    c.0 <= u64::MAX && c.1 <= usize::MAX && c.2 <= usize::MAX
}

/// A span of whole seconds.
pub uninterp spec fn duration_from_secs(secs: u64) -> core::time::Duration;

/// Relies on Duration::from_secs to build a span of whole seconds, which depends
/// on the count alone.
pub assume_specification[ core::time::Duration::from_secs ](secs: u64) -> (r:
    core::time::Duration)
    ensures
        r == duration_from_secs(secs),
;

impl CopyStats {
    /// Stats of a copy that has not done anything yet.
    pub fn new() -> (r: CopyStats)
        ensures
            counts(&r) == (0nat, 0nat, 0nat),
            r.time_taken == duration_from_secs(0),
    {
        CopyStats {
            bytes_copied: 0,
            files_copied: 0,
            dirs_created: 0,
            time_taken: core::time::Duration::from_secs(0),
        }
    }

    /// Counts one visited entry: a file with the bytes copied into it, a directory
    /// created, or an entry that was passed over. Fails, changing nothing, when a
    /// counter would no longer fit.
    pub fn record(&mut self, kind: Kind, bytes: u64) -> (r: Result<(), CopyError>)
        ensures
            r is Ok <==> counts_fit(after_entry(counts(old(self)), kind, bytes as nat)),
            r is Ok ==> counts(final(self)) == after_entry(counts(old(self)), kind, bytes as nat),
            r is Err ==> counts(final(self)) == counts(old(self)),
            final(self).time_taken == old(self).time_taken,
            r matches Err(e) ==> e is Other,
    {
        match kind {
            Kind::File => {
                if bytes > u64::MAX - self.bytes_copied || self.files_copied == usize::MAX {
                    return Err(CopyError::Other(String::from_str("byte or file count overflow")));
                }
                self.bytes_copied = self.bytes_copied + bytes;
                self.files_copied = self.files_copied + 1;
            },
            Kind::Directory => {
                if self.dirs_created == usize::MAX {
                    return Err(CopyError::Other(String::from_str("directory count overflow")));
                }
                self.dirs_created = self.dirs_created + 1;
            },
            Kind::Other => {},
        }
        Ok(())
    }

    /// Sets the time that the whole copy took; the counters stay.
    pub fn finish(&mut self, elapsed: core::time::Duration)
        ensures
            counts(final(self)) == counts(old(self)),
            final(self).time_taken == elapsed,
    {
        self.time_taken = elapsed;
    }
}

impl Default for CopyStats {
    /// The same as `CopyStats::new`: nothing copied, no time taken.
    fn default() -> (r: CopyStats)
        ensures
            counts(&r) == (0nat, 0nat, 0nat),
            r.time_taken == duration_from_secs(0),
    {
        CopyStats::new()
    }
}

} // verus!
