//! The decision core of a file and directory copier: where each copied entry
//! lands, what is done for each entry of a source tree, how bytes and entries are
//! counted, and when a copy is refused. Paths are lists of components; reading,
//! writing and walking the filesystem are left to the caller, who hands the
//! results back as plain values.

pub mod engine;
pub mod path;
pub mod stats;
pub mod summary;

pub use engine::{
    check_parent, choose_mode, get_total_size, next_read_step, plan_entry, Mode, ReadStep, SizedEntry, Step,
    BUFFER_SIZE,
};
pub use path::{
    copy_path, file_name, join, parent, resolve_target_path, strip_prefix, Component, Part,
};
pub use stats::{CopyError, CopyOptions, CopyStats, Kind};
pub use summary::{decimal_text, summary_text};
