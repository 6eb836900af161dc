//! The per-process handle table and the in-memory scheme behind it.
//! A handle resolves to a description (node number, open flags, offset);
//! `dup` gives a second handle onto the same node, so both see one state.
use vstd::prelude::*;
use crate::error::Error;

verus! {

pub const O_NONBLOCK: u32 = 0x0004_0000;
pub const O_APPEND: u32 = 0x0008_0000;

/// Per-call read/write flags: do not block; append.
pub const RW_NONBLOCK: u32 = 1;
pub const RW_APPEND: u32 = 2;

/// What a handle resolves to.
#[derive(Clone, Copy, Debug, PartialEq, Eq, Structural)]
pub struct Descriptor {
    /// The scheme's own number for the open object: here, the node index.
    pub number: usize,
    pub flags: u32,
    pub offset: usize,
}

/// The open flags a descriptor is used with for one call under the
/// per-call flags `rw`: the descriptor's own, with the append and
/// non-blocking bits taken from `rw`.
pub open spec fn rw_flags_spec(flags: u32, rw: u32) -> u32 {
    (flags & !(O_NONBLOCK | O_APPEND))
        | (if rw & RW_APPEND != 0 { O_APPEND } else { 0u32 })
        | (if rw & RW_NONBLOCK != 0 { O_NONBLOCK } else { 0u32 })
}

impl Descriptor {
    pub fn rw_flags(&self, rw: u32) -> (r: u32)
        ensures
            r == rw_flags_spec(self.flags, rw),
    {
        let append: u32 = if rw & RW_APPEND != 0 { O_APPEND } else { 0u32 };
        let nonblock: u32 = if rw & RW_NONBLOCK != 0 { O_NONBLOCK } else { 0u32 };
        (self.flags & !(O_NONBLOCK | O_APPEND)) | append | nonblock
    }
}

/// The table and nodes as values.
pub struct TableState {
    pub handles: Seq<Option<Descriptor>>,
    pub paths: Seq<Seq<u8>>,
    pub data: Seq<Seq<u8>>,
}

/// A process's handle table together with the nodes of the in-memory scheme.
pub struct FileTable {
    pub handles: Vec<Option<Descriptor>>,
    pub paths: Vec<Vec<u8>>,
    pub data: Vec<Vec<u8>>,
}

pub open spec fn seq_view(v: Seq<Vec<u8>>) -> Seq<Seq<u8>> {
    Seq::new(v.len(), |i: int| v[i]@)
}

/// Every open handle names an existing node.
pub open spec fn table_wf(t: TableState) -> bool {
    &&& t.paths.len() == t.data.len()
    &&& t.handles.len() <= usize::MAX
    &&& forall|h: int| 0 <= h < t.handles.len() && (#[trigger] t.handles[h]) is Some
            ==> t.handles[h].unwrap().number < t.data.len()
}

/// Resolution: the descriptor of an open handle, else a bad-handle failure.
pub open spec fn resolve_spec(t: TableState, fd: usize) -> Result<Descriptor, Error> {
    if fd < t.handles.len() && t.handles[fd as int] is Some {
        Ok(t.handles[fd as int].unwrap())
    } else {
        Err(Error::BadFileDescriptor)
    }
}

/// The lowest unused handle number.
pub open spec fn first_free(h: Seq<Option<Descriptor>>, n: nat) -> nat
    decreases n,
{
    if n == 0 {
        h.len()
    } else {
        let earlier = first_free(h, (n - 1) as nat);
        if earlier < h.len() {
            earlier
        } else if h[n - 1] is None {
            (n - 1) as nat
        } else {
            h.len()
        }
    }
}

/// The table after `d` is stored under the lowest unused handle.
pub open spec fn install_spec(h: Seq<Option<Descriptor>>, d: Descriptor) -> Seq<Option<Descriptor>> {
    let slot = first_free(h, h.len());
    if slot < h.len() {
        h.update(slot as int, Some(d))
    } else {
        h.push(Some(d))
    }
}

/// The lowest node whose path is `p`.
pub open spec fn lookup(paths: Seq<Seq<u8>>, p: Seq<u8>, n: nat) -> Option<nat>
    decreases n,
{
    if n == 0 {
        None
    } else {
        match lookup(paths, p, (n - 1) as nat) {
            Some(j) => Some(j),
            None => if paths[n - 1] == p { Some((n - 1) as nat) } else { None },
        }
    }
}

/// A node's contents after `bytes` is written at `pos`; a gap is zero-filled.
pub open spec fn written(data: Seq<u8>, pos: nat, bytes: Seq<u8>) -> Seq<u8> {
    let len = if pos + bytes.len() > data.len() { pos + bytes.len() } else { data.len() };
    Seq::new(
        len as nat,
        |i: int|
            if pos <= i < pos + bytes.len() {
                bytes[i - pos]
            } else if i < data.len() {
                data[i]
            } else {
                0u8
            },
    )
}

/// The bytes a read of at most `max` bytes at `pos` yields.
pub open spec fn read_at(data: Seq<u8>, pos: nat, max: nat) -> Seq<u8> {
    if pos >= data.len() {
        Seq::empty()
    } else if data.len() - pos < max {
        data.subrange(pos as int, data.len() as int)
    } else {
        data.subrange(pos as int, (pos + max) as int)
    }
}

/// A node's contents after its length is set to `len`.
pub open spec fn resized(data: Seq<u8>, len: nat) -> Seq<u8> {
    Seq::new(len, |i: int| if i < data.len() { data[i] } else { 0u8 })
}

pub fn bytes_eq(a: &Vec<u8>, b: &Vec<u8>) -> (r: bool)
    ensures
        r == (a@ == b@),
{
    if a.len() != b.len() {
        return false;
    }
    let mut i: usize = 0;
    while i < a.len()
        invariant
            a@.len() == b@.len(),
            i <= a@.len(),
            forall|j: int| 0 <= j < i ==> a@[j] == b@[j],
        decreases a@.len() - i,
    {
        if a[i] != b[i] {
            return false;
        }
        i = i + 1;
    }
    assert(a@ =~= b@);
    true
}

impl FileTable {
    pub open spec fn state(&self) -> TableState {
        TableState { handles: self.handles@, paths: seq_view(self.paths@), data: seq_view(self.data@) }
    }

    pub open spec fn wf(&self) -> bool {
        table_wf(self.state())
    }

    pub fn new() -> (r: FileTable)
        ensures
            r.wf(),
            r.state().handles.len() == 0,
            r.state().paths.len() == 0,
            r.state().data.len() == 0,
    {
        FileTable { handles: Vec::new(), paths: Vec::new(), data: Vec::new() }
    }

    /// Maps a handle to its descriptor; never changes the table.
    pub fn resolve(&self, fd: usize) -> (r: Result<Descriptor, Error>)
        requires
            self.wf(),
        ensures
            r == resolve_spec(self.state(), fd),
            r matches Ok(d) ==> d.number < self.state().data.len(),
    {
        if fd < self.handles.len() {
            match self.handles[fd] {
                Some(d) => Ok(d),
                None => Err(Error::BadFileDescriptor),
            }
        } else {
            Err(Error::BadFileDescriptor)
        }
    }

    /// Stores `d` under the lowest unused handle and returns that handle.
    pub fn install(&mut self, d: Descriptor) -> (r: usize)
        requires
            old(self).wf(),
            d.number < old(self).state().data.len(),
        ensures
            final(self).wf(),
            final(self).state() == (TableState {
                handles: install_spec(old(self).state().handles, d),
                ..old(self).state()
            }),
            r == first_free(old(self).state().handles, old(self).state().handles.len()),
    {
        let mut i: usize = 0;
        while i < self.handles.len()
            invariant
                i <= self.handles@.len(),
                first_free(self.handles@, i as nat) == self.handles@.len(),
                self.handles@ == old(self).handles@,
                self.paths@ == old(self).paths@,
                self.data@ == old(self).data@,
                old(self).wf(),
                d.number < old(self).state().data.len(),
            decreases self.handles@.len() - i,
        {
            if self.handles[i].is_none() {
                assert(first_free(self.handles@, (i + 1) as nat) == i);
                proof { lemma_first_free_stable(self.handles@, (i + 1) as nat); }
                proof {
                    assert(old(self).state().paths == self.state().paths);
                    assert(old(self).state().data == self.state().data);
                }
                self.handles.set(i, Some(d));
                let _n: usize = self.handles.len();
                proof { self.lemma_wf_after_store(old(self).handles@, i as int, d); }
                return i;
            }
            i = i + 1;
        }
        self.handles.push(Some(d));
        let _n: usize = self.handles.len();
        proof { self.lemma_wf_after_store(old(self).handles@, i as int, d); }
        i
    }

    proof fn lemma_wf_after_store(&self, before: Seq<Option<Descriptor>>, i: int, d: Descriptor)
        requires
            table_wf(TableState { handles: before, paths: self.state().paths, data: self.state().data }),
            d.number < self.state().data.len(),
            0 <= i <= before.len(),
            self.handles@.len() == (if i < before.len() { before.len() } else { before.len() + 1 }),
            self.handles@[i] == Some(d),
            self.handles@.len() <= usize::MAX,
            forall|j: int| 0 <= j < before.len() && j != i ==> self.handles@[j] == before[j],
        ensures
            self.wf(),
    {
        assert forall|h: int| 0 <= h < self.handles@.len() && (#[trigger] self.handles@[h]) is Some
            implies self.handles@[h].unwrap().number < self.state().data.len() by {
            if h != i {
                assert(before[h] == self.handles@[h]);
                assert(before[h] is Some);
            }
        }
    }

    /// Removes a handle; the node stays for any other alias.
    pub fn close(&mut self, fd: usize) -> (r: Result<usize, Error>)
        requires
            old(self).wf(),
        ensures
            final(self).wf(),
            r == (match resolve_spec(old(self).state(), fd) {
                Ok(_) => Ok::<usize, Error>(0),
                Err(e) => Err(e),
            }),
            r is Ok ==> final(self).state() == (TableState {
                handles: old(self).state().handles.update(fd as int, None),
                ..old(self).state()
            }),
            r is Err ==> final(self).state() == old(self).state(),
    {
        let _ = self.resolve(fd)?;
        self.handles.set(fd, None);
        Ok(0)
    }
}

impl FileTable {
    /// The node whose path is `path`, created empty if there is none.
    pub fn find_or_create(&mut self, path: Vec<u8>) -> (r: usize)
        requires
            old(self).wf(),
        ensures
            final(self).wf(),
            final(self).state().handles == old(self).state().handles,
            lookup(old(self).state().paths, path@, old(self).state().paths.len()) matches Some(j) ==> (
                r == j && final(self).state() == old(self).state()),
            lookup(old(self).state().paths, path@, old(self).state().paths.len()) is None ==> (
                r == old(self).state().paths.len()
                && final(self).state().paths == old(self).state().paths.push(path@)
                && final(self).state().data == old(self).state().data.push(Seq::<u8>::empty())),
            r < final(self).state().data.len(),
    {
        let mut i: usize = 0;
        while i < self.paths.len()
            invariant
                i <= self.paths@.len(),
                self.paths@.len() == self.data@.len(),
                lookup(seq_view(self.paths@), path@, i as nat) is None,
                self.handles@ == old(self).handles@,
                self.paths@ == old(self).paths@,
                self.data@ == old(self).data@,
                old(self).wf(),
            decreases self.paths@.len() - i,
        {
            if bytes_eq(&self.paths[i], &path) {
                proof { lemma_lookup_stable(seq_view(self.paths@), path@, (i + 1) as nat); }
                return i;
            }
            i = i + 1;
        }
        let ghost before = self.state();
        self.paths.push(path);
        self.data.push(Vec::new());
        proof {
            assert(self.state().paths =~= before.paths.push(self.paths@[i as int]@));
            assert(self.state().data =~= before.data.push(Seq::<u8>::empty()));
            assert(self.state().handles == before.handles);
            assert forall|h: int| 0 <= h < self.handles@.len() && (#[trigger] self.handles@[h]) is Some
                implies self.handles@[h].unwrap().number < self.state().data.len() by {
                assert(before.handles[h] is Some);
            }
        }
        i
    }

    /// Opens the node named `path`, creating it if needed, under a new handle.
    pub fn open(&mut self, path: Vec<u8>, flags: usize) -> (r: usize)
        requires
            old(self).wf(),
        ensures
            final(self).wf(),
            open_spec(old(self).state(), path@, flags) == (final(self).state(), r),
    {
        let number = self.find_or_create(path);
        let ghost mid = self.state();
        let r = self.install(Descriptor { number, flags: flags as u32, offset: 0 });
        proof {
            assert(final(self).state().paths =~= open_spec(old(self).state(), path@, flags).0.paths);
            assert(final(self).state().data =~= open_spec(old(self).state(), path@, flags).0.data);
        }
        r
    }

    /// A second handle onto the same description.
    pub fn dup(&mut self, fd: usize) -> (r: Result<usize, Error>)
        requires
            old(self).wf(),
        ensures
            final(self).wf(),
            dup_spec(old(self).state(), fd) == (final(self).state(), r),
    {
        let d = self.resolve(fd)?;
        let h = self.install(d);
        Ok(h)
    }

    /// Makes `target` name the description of `fd`, dropping what it named.
    pub fn dup2(&mut self, fd: usize, target: usize) -> (r: Result<usize, Error>)
        requires
            old(self).wf(),
        ensures
            final(self).wf(),
            dup2_spec(old(self).state(), fd, target) == (final(self).state(), r),
    {
        let d = self.resolve(fd)?;
        if target == usize::MAX {
            return Err(Error::BadFileDescriptor);
        }
        let ghost before = self.state();
        while self.handles.len() <= target
            invariant
                old(self).wf(),
                self.wf(),
                d.number < self.state().data.len(),
                self.state().paths == before.paths,
                self.state().data == before.data,
                before == old(self).state(),
                target < usize::MAX,
                before.handles.len() <= self.handles@.len() <= (
                    if target < before.handles.len() { before.handles.len() as int } else { target as int + 1 }),
                forall|j: int| 0 <= j < self.handles@.len() ==> #[trigger] self.handles@[j] == (
                    if j < before.handles.len() { before.handles[j] } else { None }),
            decreases target + 1 - self.handles@.len(),
        {
            self.handles.push(None);
        }
        let ghost grown = self.handles@;
        self.handles.set(target, Some(d));
        let _n: usize = self.handles.len();
        proof {
            assert(self.handles@ =~= dup2_spec(before, fd, target).0.handles);
            self.lemma_wf_after_store(grown, target as int, d);
        }
        Ok(target)
    }

    /// The path of node `number`.
    pub fn node_path(&self, number: usize) -> (r: &Vec<u8>)
        requires
            number < self.state().paths.len(),
        ensures
            r@ == self.state().paths[number as int],
    {
        &self.paths[number]
    }

    /// The number of nodes.
    pub fn node_count(&self) -> (r: usize)
        ensures
            r == self.state().paths.len(),
    {
        self.paths.len()
    }

    /// The contents of node `number`.
    pub fn node_data(&self, number: usize) -> (r: &Vec<u8>)
        requires
            number < self.state().data.len(),
        ensures
            r@ == self.state().data[number as int],
    {
        &self.data[number]
    }

    /// Replaces the contents of node `number`.
    pub fn set_node_data(&mut self, number: usize, v: Vec<u8>)
        requires
            old(self).wf(),
            number < old(self).state().data.len(),
        ensures
            final(self).wf(),
            final(self).state() == (TableState {
                data: old(self).state().data.update(number as int, v@),
                ..old(self).state()
            }),
    {
        self.data.set(number, v);
        proof {
            assert(self.state().data =~= old(self).state().data.update(number as int, v@));
            assert forall|h: int| 0 <= h < self.handles@.len() && (#[trigger] self.handles@[h]) is Some
                implies self.handles@[h].unwrap().number < self.state().data.len() by {
                assert(old(self).state().handles[h] is Some);
            }
        }
    }

    /// Stores a changed description back under its handle.
    pub fn set_descriptor(&mut self, fd: usize, d: Descriptor)
        requires
            old(self).wf(),
            resolve_spec(old(self).state(), fd) is Ok,
            d.number < old(self).state().data.len(),
        ensures
            final(self).wf(),
            final(self).state() == (TableState {
                handles: old(self).state().handles.update(fd as int, Some(d)),
                ..old(self).state()
            }),
    {
        self.handles.set(fd, Some(d));
        let _n: usize = self.handles.len();
        proof {
            self.lemma_wf_after_store(old(self).handles@, fd as int, d);
        }
    }
}

/// What `open` leaves and returns.
pub open spec fn open_spec(t: TableState, path: Seq<u8>, flags: usize) -> (TableState, usize) {
    let (t1, number) = match lookup(t.paths, path, t.paths.len()) {
        Some(j) => (t, j as usize),
        None => (TableState { paths: t.paths.push(path), data: t.data.push(Seq::empty()), ..t }, t.paths.len() as usize),
    };
    let d = Descriptor { number, flags: flags as u32, offset: 0 };
    (
        TableState { handles: install_spec(t1.handles, d), ..t1 },
        first_free(t1.handles, t1.handles.len()) as usize,
    )
}

/// What `dup` leaves and returns.
pub open spec fn dup_spec(t: TableState, fd: usize) -> (TableState, Result<usize, Error>) {
    match resolve_spec(t, fd) {
        Ok(d) => (
            TableState { handles: install_spec(t.handles, d), ..t },
            Ok(first_free(t.handles, t.handles.len()) as usize),
        ),
        Err(e) => (t, Err(e)),
    }
}

/// What `dup2` leaves and returns: the table grows with empty slots up to
/// `target` where needed.
pub open spec fn dup2_spec(t: TableState, fd: usize, target: usize) -> (TableState, Result<usize, Error>) {
    match resolve_spec(t, fd) {
        Ok(d) => if target == usize::MAX {
            (t, Err(Error::BadFileDescriptor))
        } else {
            let grown = if target < t.handles.len() {
                t.handles
            } else {
                t.handles + Seq::new((target + 1 - t.handles.len()) as nat, |i: int| None::<Descriptor>)
            };
            (TableState { handles: grown.update(target as int, Some(d)), ..t }, Ok(target))
        },
        Err(e) => (t, Err(e)),
    }
}

/// A search for a path stops at the first node found.
pub proof fn lemma_lookup_stable(paths: Seq<Seq<u8>>, p: Seq<u8>, n: nat)
    requires
        n <= paths.len(),
        lookup(paths, p, n) is Some,
    ensures
        lookup(paths, p, paths.len()) == lookup(paths, p, n),
    decreases paths.len() - n,
{
    if n < paths.len() {
        lemma_lookup_stable(paths, p, n + 1);
    }
}

/// The contents after `bytes` is written at `pos`; fails when the end of
/// the write does not fit a word.
pub fn write_bytes_at(data: &Vec<u8>, pos: usize, bytes: &Vec<u8>) -> (r: Result<Vec<u8>, Error>)
    ensures
        pos as int + bytes@.len() > usize::MAX <==> r is Err,
        r is Err ==> r == Err::<Vec<u8>, Error>(Error::Overflow),
        r matches Ok(v) ==> v@ == written(data@, pos as nat, bytes@),
{
    if bytes.len() > usize::MAX - pos {
        return Err(Error::Overflow);
    }
    let end: usize = pos + bytes.len();
    let len: usize = if end > data.len() { end } else { data.len() };
    let mut out: Vec<u8> = Vec::new();
    let mut i: usize = 0;
    while i < len
        invariant
            i <= len,
            end == pos + bytes@.len(),
            len == (if end > data@.len() { end as int } else { data@.len() as int }),
            out@.len() == i,
            forall|j: int| 0 <= j < i ==> #[trigger] out@[j] == written(data@, pos as nat, bytes@)[j],
        decreases len - i,
    {
        let b: u8 = if pos <= i && i < end {
            bytes[i - pos]
        } else if i < data.len() {
            data[i]
        } else {
            0u8
        };
        out.push(b);
        i = i + 1;
    }
    assert(out@ =~= written(data@, pos as nat, bytes@));
    Ok(out)
}

/// At most `max` bytes of `data` from `pos` on.
pub fn read_bytes_at(data: &Vec<u8>, pos: usize, max: usize) -> (r: Vec<u8>)
    ensures
        r@ == read_at(data@, pos as nat, max as nat),
{
    let mut out: Vec<u8> = Vec::new();
    if pos >= data.len() {
        return out;
    }
    let dlen: usize = data.len();
    let n: usize = if dlen - pos < max { dlen - pos } else { max };
    let mut i: usize = 0;
    while i < n
        invariant
            i <= n,
            pos + n <= dlen,
            dlen == data@.len(),
            n == (if data@.len() - pos < max { data@.len() - pos } else { max as int }),
            out@ == data@.subrange(pos as int, pos + i),
        decreases n - i,
    {
        out.push(data[pos + i]);
        i = i + 1;
        assert(out@ =~= data@.subrange(pos as int, pos + i));
    }
    out
}

/// The contents cut or zero-extended to `len` bytes.
pub fn resize_bytes(data: &Vec<u8>, len: usize) -> (r: Vec<u8>)
    ensures
        r@ == resized(data@, len as nat),
{
    let mut out: Vec<u8> = Vec::new();
    let mut i: usize = 0;
    while i < len
        invariant
            i <= len,
            out@.len() == i,
            forall|j: int| 0 <= j < i ==> #[trigger] out@[j] == resized(data@, len as nat)[j],
        decreases len - i,
    {
        let b: u8 = if i < data.len() { data[i] } else { 0u8 };
        out.push(b);
        i = i + 1;
    }
    assert(out@ =~= resized(data@, len as nat));
    out
}

/// The lowest unused handle is unused.
pub proof fn lemma_first_free_is_free(h: Seq<Option<Descriptor>>, n: nat)
    requires
        n <= h.len(),
    ensures
        first_free(h, n) < h.len() ==> h[first_free(h, n) as int] is None,
        first_free(h, n) <= h.len(),
    decreases n,
{
    if n > 0 {
        lemma_first_free_is_free(h, (n - 1) as nat);
    }
}

/// A handle never opened (past the end of the table) or closed does not
/// resolve; after `dup` the old and the new handle resolve to one node;
/// closing one handle leaves every other handle resolving as before.
pub proof fn lemma_resolution(t: TableState, fd: usize, other: usize)
    requires
        table_wf(t),
    ensures
        fd >= t.handles.len() ==> resolve_spec(t, fd) == Err::<Descriptor, Error>(Error::BadFileDescriptor),
        fd < t.handles.len() ==> resolve_spec(TableState { handles: t.handles.update(fd as int, None), ..t }, fd)
            == Err::<Descriptor, Error>(Error::BadFileDescriptor),
        dup_spec(t, fd).1 matches Ok(h) ==> h != fd
            && resolve_spec(dup_spec(t, fd).0, fd) == resolve_spec(t, fd)
            && resolve_spec(dup_spec(t, fd).0, h) == resolve_spec(t, fd),
        other != fd && other < t.handles.len() ==> resolve_spec(
            TableState { handles: t.handles.update(other as int, None), ..t }, fd) == resolve_spec(t, fd),
{
    lemma_first_free_is_free(t.handles, t.handles.len());
    if let Ok(d) = resolve_spec(t, fd) {
        let slot = first_free(t.handles, t.handles.len());
        let h2 = install_spec(t.handles, d);
        if slot < t.handles.len() {
            assert(slot != fd);
            assert(h2[fd as int] == t.handles[fd as int]);
            assert(h2[slot as int] == Some(d));
        } else {
            assert(h2[fd as int] == t.handles[fd as int]);
            assert(h2[slot as int] == Some(d));
        }
    }
}

/// Scanning for the lowest unused handle stops at the first one found.
pub proof fn lemma_first_free_stable(h: Seq<Option<Descriptor>>, n: nat)
    requires
        n <= h.len(),
        first_free(h, n) < h.len(),
    ensures
        first_free(h, h.len()) == first_free(h, n),
    decreases h.len() - n,
{
    if n < h.len() {
        lemma_first_free_stable(h, n + 1);
    }
}

} // verus!
