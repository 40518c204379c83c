use crate::nlink::{get_nlink, nlink_of, NlinkTable};
use vstd::prelude::*;

verus! {

/// Size of the chunks in which `read_all` drains a file.
pub const READ_ALL_CHUNK: usize = 512;

/// What an open handle holds, as plain values.
pub struct OSInodeView {
    pub readable: bool,
    pub writable: bool,
    pub inode_id: usize,
    pub offset: usize,
}

/// The mutable part of an open handle: its cursor and the identifier of the
/// underlying inode that it reads and writes.
pub struct OSInodeInner {
    offset: usize,
    inode_id: usize,
}

/// One open reference to a file: a capability pair fixed at construction and
/// a private cursor. Handles on the same inode keep separate cursors.
pub struct OSInode {
    readable: bool,
    writable: bool,
    inner: OSInodeInner,
}

impl View for OSInode {
    type V = OSInodeView;

    closed spec fn view(&self) -> OSInodeView {
        OSInodeView {
            readable: self.readable,
            writable: self.writable,
            inode_id: self.inner.inode_id,
            offset: self.inner.offset,
        }
    }
}

impl OSInode {
    /// A handle on inode `inode_id` with its cursor at 0.
    pub fn new(readable: bool, writable: bool, inode_id: usize) -> (r: OSInode)
        ensures
            r@ == (OSInodeView { readable, writable, inode_id, offset: 0 }),
    {
        OSInode { readable, writable, inner: OSInodeInner { offset: 0, inode_id } }
    }

    /// Whether the handle was opened for reading.
    pub fn readable(&self) -> (r: bool)
        ensures
            r == self@.readable,
    {
        self.readable
    }

    /// Whether the handle was opened for writing.
    pub fn writable(&self) -> (r: bool)
        ensures
            r == self@.writable,
    {
        self.writable
    }

    /// The persistent identifier of the underlying inode.
    pub fn get_inode_id(&self) -> (r: usize)
        ensures
            r == self@.inode_id,
    {
        self.inner.inode_id
    }

    /// The cursor: where the next read or write starts.
    pub fn offset(&self) -> (r: usize)
        ensures
            r == self@.offset,
    {
        self.inner.offset
    }

    /// The link count of the underlying inode in `table`.
    pub fn get_nlink(&self, table: &NlinkTable) -> (r: usize)
        ensures
            r as nat == nlink_of(table@, self@.inode_id),
    {
        get_nlink(table, self.inner.inode_id)
    }

    /// One slice of a scatter-gather read: the underlying inode returned
    /// `read_size` bytes read at the cursor, and `total` bytes were read so far.
    /// A read of 0 bytes is the end of the file: the read stops there (`None`)
    /// and the cursor stays. Otherwise the cursor moves past the bytes read and
    /// the new total comes back, to go on with the next slice.
    pub fn advance_read(&mut self, total: usize, read_size: usize) -> (r: Option<usize>)
        requires
            read_size == 0 || old(self)@.offset + read_size <= usize::MAX,
            read_size == 0 || total + read_size <= usize::MAX,
        ensures
            read_size == 0 ==> r.is_none() && final(self)@ == old(self)@,
            read_size > 0 ==> r == Some((total + read_size) as usize) && final(self)@ == (
            OSInodeView { offset: (old(self)@.offset + read_size) as usize, ..old(self)@ }),
    {
        if read_size == 0 {
            return None;
        }
        self.inner.offset = self.inner.offset + read_size;
        Some(total + read_size)
    }

    /// One slice of a scatter-gather write: the underlying inode wrote
    /// `written` of the slice's `slice_len` bytes at the cursor, and `total`
    /// bytes were written so far. The store must take the whole slice: a short
    /// write gives `None` and leaves the handle as it was, and the caller must
    /// abort. Otherwise the cursor moves past the slice and the new total
    /// comes back.
    pub fn advance_write(&mut self, total: usize, slice_len: usize, written: usize) -> (r: Option<
        usize,
    >)
        requires
            old(self)@.offset + slice_len <= usize::MAX,
            total + slice_len <= usize::MAX,
        ensures
            written != slice_len ==> r.is_none() && final(self)@ == old(self)@,
            written == slice_len ==> r == Some((total + slice_len) as usize) && final(self)@ == (
            OSInodeView { offset: (old(self)@.offset + slice_len) as usize, ..old(self)@ }),
    {
        if written != slice_len {
            return None;
        }
        self.inner.offset = self.inner.offset + written;
        Some(total + written)
    }

    /// One chunk of `read_all`: `chunk` holds the bytes that the underlying
    /// inode returned from the cursor. An empty chunk is the end of the file:
    /// nothing changes and the drain stops (`false`). Otherwise the bytes are
    /// appended to `data`, the cursor moves past them, and the drain goes on.
    pub fn read_all_step(&mut self, data: &mut Vec<u8>, chunk: &[u8]) -> (r: bool)
        requires
            old(self)@.offset + chunk@.len() <= usize::MAX,
        ensures
            r == (chunk@.len() > 0),
            !r ==> final(self)@ == old(self)@ && final(data)@ == old(data)@,
            r ==> final(self)@ == (OSInodeView {
                offset: (old(self)@.offset + chunk@.len()) as usize,
                ..old(self)@
            }) && final(data)@ == old(data)@ + chunk@,
    {
        let len = chunk.len();
        if len == 0 {
            return false;
        }
        let mut i: usize = 0;
        while i < len
            invariant
                len == chunk@.len(),
                i <= len,
                data@ == old(data)@ + chunk@.subrange(0, i as int),
            decreases len - i,
        {
            data.push(chunk[i]);
            i = i + 1;
            assert(chunk@.subrange(0, i as int) == chunk@.subrange(0, i - 1) + seq![chunk@[i - 1]]);
        }
        assert(chunk@.subrange(0, len as int) == chunk@);
        self.inner.offset = self.inner.offset + len;
        true
    }
}

} // verus!
