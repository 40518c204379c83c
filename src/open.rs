use crate::flags::{access_of, has_bits, OpenFlags, CREATE_BIT, TRUNC_BIT};
use crate::handle::{OSInode, OSInodeView};
use vstd::prelude::*;

verus! {

/// What the open procedure does once the root has been searched for the name.
#[derive(Clone, Copy, Debug, PartialEq, Eq, Structural)]
pub enum OpenStep {
    /// No handle: the name is absent and may not be created.
    NotFound,
    /// Wrap the inode that was found, clearing its content first where
    /// `truncate` is set.
    Open { readable: bool, writable: bool, truncate: bool },
    /// Ask the root to create the name and wrap the new inode; if creation
    /// fails there is no handle, as for an absent name.
    Create { readable: bool, writable: bool },
}

/// The step for a flag word, given whether the name was found under the root.
pub open spec fn open_step_of(bits: u32, found: bool) -> OpenStep {
    let (readable, writable) = access_of(bits);
    if has_bits(bits, CREATE_BIT) {
        if found {
            OpenStep::Open { readable, writable, truncate: true }
        } else {
            OpenStep::Create { readable, writable }
        }
    } else if found {
        OpenStep::Open { readable, writable, truncate: has_bits(bits, TRUNC_BIT) }
    } else {
        OpenStep::NotFound
    }
}

/// The handle that a step makes on inode `inode_id`: for `Open`, the inode
/// found; for `Create`, the inode just created.
pub open spec fn opened(step: OpenStep, inode_id: usize) -> Option<OSInodeView> {
    match step {
        OpenStep::NotFound => None,
        OpenStep::Open { readable, writable, .. } => Some(
            OSInodeView { readable, writable, inode_id, offset: 0 },
        ),
        OpenStep::Create { readable, writable } => Some(
            OSInodeView { readable, writable, inode_id, offset: 0 },
        ),
    }
}

/// The size of an existing file of `size` bytes after the step.
pub open spec fn size_after(step: OpenStep, size: nat) -> nat {
    match step {
        OpenStep::Open { truncate, .. } => if truncate {
            0
        } else {
            size
        },
        _ => size,
    }
}

/// Decides how to open a file with `flags` when the root lookup of its name
/// did (`found`) or did not find it. With create-if-missing an existing file
/// is cleared and a missing one created; without it a missing name gives no
/// handle and an existing file is cleared only under truncate-on-open.
pub fn open_file(flags: OpenFlags, found: bool) -> (r: OpenStep)
    ensures
        r == open_step_of(flags.bits, found),
{
    let (readable, writable) = flags.read_write();
    if flags.contains(OpenFlags::create()) {
        if found {
            OpenStep::Open { readable, writable, truncate: true }
        } else {
            OpenStep::Create { readable, writable }
        }
    } else if found {
        OpenStep::Open { readable, writable, truncate: flags.contains(OpenFlags::trunc()) }
    } else {
        OpenStep::NotFound
    }
}

/// Makes the handle that `step` calls for on inode `inode_id`, with its
/// cursor at 0; `NotFound` makes none.
pub fn wrap(step: OpenStep, inode_id: usize) -> (r: Option<OSInode>)
    ensures
        match r {
            Some(h) => opened(step, inode_id) == Some(h@),
            None => opened(step, inode_id).is_none(),
        },
{
    match step {
        OpenStep::NotFound => None,
        OpenStep::Open { readable, writable, .. } => Some(OSInode::new(readable, writable, inode_id)),
        OpenStep::Create { readable, writable } => Some(OSInode::new(readable, writable, inode_id)),
    }
}

/// Without create-if-missing, an absent name gives no handle, whatever the
/// other bits are.
pub proof fn lemma_absent_without_create(bits: u32)
    requires
        !has_bits(bits, CREATE_BIT),
    ensures
        open_step_of(bits, false) == OpenStep::NotFound,
        opened(open_step_of(bits, false), 0).is_none(),
{
}

/// With create-if-missing, a first open of an absent name creates it and a
/// second open of the now present name clears it to size 0: both give a
/// handle at offset 0 with the same capabilities.
pub proof fn lemma_create_twice(bits: u32, first_id: usize, size: nat)
    requires
        has_bits(bits, CREATE_BIT),
    ensures
        open_step_of(bits, false) == (OpenStep::Create {
            readable: access_of(bits).0,
            writable: access_of(bits).1,
        }),
        opened(open_step_of(bits, false), first_id) == Some(
            OSInodeView {
                readable: access_of(bits).0,
                writable: access_of(bits).1,
                inode_id: first_id,
                offset: 0,
            },
        ),
        opened(open_step_of(bits, true), first_id) == opened(open_step_of(bits, false), first_id),
        size_after(open_step_of(bits, true), size) == 0,
{
}

/// Truncate-on-open of an existing file clears it, so a file that is
/// already empty stays empty, also when opened so again; the handle starts at
/// offset 0.
pub proof fn lemma_truncate_empty(bits: u32, inode_id: usize, size: nat)
    requires
        has_bits(bits, TRUNC_BIT),
    ensures
        open_step_of(bits, true) == (OpenStep::Open {
            readable: access_of(bits).0,
            writable: access_of(bits).1,
            truncate: true,
        }),
        size_after(open_step_of(bits, true), size) == 0,
        size_after(open_step_of(bits, true), 0) == 0,
        size_after(open_step_of(bits, true), size_after(open_step_of(bits, true), 0)) == 0,
        opened(open_step_of(bits, true), inode_id) == Some(
            OSInodeView {
                readable: access_of(bits).0,
                writable: access_of(bits).1,
                inode_id,
                offset: 0,
            },
        ),
{
}

} // verus!
