//! The in-memory file-handle layer of a small kernel: open-flag resolution,
//! the open procedure, per-handle cursor bookkeeping for scatter-gather
//! reads and writes, and the hard-link counting table.
//!
//! The underlying block-device filesystem is an outside collaborator: the
//! functions here decide what to do and account for what it did, and the
//! caller performs the byte-range operations on the real inode.

mod flags;
mod handle;
mod nlink;
mod open;

pub use flags::{
    access_of, has_bits, OpenFlags, ALL_BITS, CREATE_BIT, RDWR_BIT, TRUNC_BIT, WRONLY_BIT,
};

pub use handle::{OSInode, OSInodeInner, OSInodeView, READ_ALL_CHUNK};
pub use open::{
    lemma_absent_without_create, lemma_create_twice, lemma_truncate_empty, open_file,
    open_step_of, opened, size_after, wrap, OpenStep,
};
pub use nlink::{
    counts_positive, decrease_nlink, decreased, get_nlink, increase_nlink, increased,
    lemma_increase_then_decrease, lemma_link_count_defaults, nlink_of, NlinkTable,
};
