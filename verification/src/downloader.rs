//! One resource's download: its sparse buffer, the open range connections
//! that feed it, and the rule for writing the finished resource to its cache
//! file exactly once.
//!
//! The connection type `C` is whatever the caller reads bytes with. Nothing
//! here looks inside it: the caller performs each read and hands over what
//! came back.

use vstd::prelude::*;
use crate::request::{opt_text, IncomingTask};
use crate::sparse::{
    all_set, blank, check_all_set, collect_populated, filled, is_populated_run, is_set,
    lemma_filled_round_trip, make_blank, make_filled, overlaps, populated, read_run, write_at,
    written,
};

verus! {

/// The number of bytes asked of a connection when a task continues its
/// download with no reader waiting.
pub const IDLE_CHUNK: usize = 2048;

/// Why a read from a connection was refused.
#[derive(Debug, Clone, Copy, PartialEq, Eq, Structural)]
pub enum ReadError {
    /// The connection filled the whole buffer with zero bytes.
    AllZeros,
}

/// Every byte is zero.
pub open spec fn all_zero(bytes: Seq<u8>) -> bool {
    forall|i: int| 0 <= i < bytes.len() ==> #[trigger] bytes[i] == 0
}

/// What a read hands on, given the buffer that the connection wrote into and
/// the count it reported (`None` where the transport failed): a failure and an
/// exhausted body both give no bytes, a buffer of zeros only is refused, and
/// otherwise the first `n` bytes come out.
pub open spec fn delivered(buff: Seq<u8>, received: Option<usize>) -> Result<Seq<u8>, ReadError> {
    match received {
        None => Ok(Seq::empty()),
        Some(n) => if n == 0 {
            Ok(Seq::empty())
        } else if all_zero(buff) {
            Err(ReadError::AllZeros)
        } else {
            Ok(buff.take(n as int))
        },
    }
}

/// The bytes that reach the buffer after a read: a refused read counts as one
/// that gave nothing.
pub open spec fn accepted(buff: Seq<u8>, received: Option<usize>) -> Seq<u8> {
    match delivered(buff, received) {
        Ok(bytes) => bytes,
        Err(_) => Seq::empty(),
    }
}

/// Whether every byte is zero.
pub fn check_all_zero(bytes: &Vec<u8>) -> (zero: bool)
    ensures
        zero == all_zero(bytes@),
{
    let mut i: usize = 0;
    while i < bytes.len()
        invariant
            i <= bytes.len(),
            forall|j: int| 0 <= j < i ==> #[trigger] bytes@[j] == 0,
        decreases bytes.len() - i,
    {
        if bytes[i] != 0 {
            return false;
        }
        i += 1;
    }
    true
}

/// The first `n` bytes of a buffer.
pub fn prefix(bytes: &Vec<u8>, n: usize) -> (head: Vec<u8>)
    requires
        n <= bytes.len(),
    ensures
        head@ == bytes@.take(n as int),
{
    let mut head: Vec<u8> = Vec::new();
    let mut i: usize = 0;
    while i < n
        invariant
            i <= n <= bytes.len(),
            head@ == bytes@.take(i as int),
        decreases n - i,
    {
        head.push(bytes[i]);
        i += 1;
    }
    head
}

/// One open range connection: it began at some offset of the resource and its
/// body is consumed front to back, so the cursor only moves forward.
pub struct DownloadProg<C> {
    start_pos: usize,
    current_pos: usize,
    response: C,
}

impl<C> DownloadProg<C> {
    #[verifier::type_invariant]
    spec fn inv(&self) -> bool {
        self.start_pos <= self.current_pos
    }

    /// The offset that the connection was opened at.
    pub closed spec fn start(&self) -> usize {
        self.start_pos
    }

    /// The offset of the next byte that the connection will give.
    pub closed spec fn cursor(&self) -> usize {
        self.current_pos
    }

    /// The connection itself.
    pub closed spec fn connection(&self) -> C {
        self.response
    }

    /// A connection that was opened for the bytes from `pos` to the end of
    /// the resource.
    pub fn new_download_at(pos: usize, response: C) -> (prog: Self)
        ensures
            prog.start() == pos,
            prog.cursor() == pos,
            prog.connection() == response,
    {
        DownloadProg { start_pos: pos, current_pos: pos, response }
    }

    /// The offset that the connection was opened at.
    pub fn start_pos(&self) -> (pos: usize)
        ensures
            pos == self.start(),
    {
        self.start_pos
    }

    /// The offset of the next byte that the connection will give. It never
    /// lies before the offset that the connection was opened at.
    pub fn current_pos(&self) -> (pos: usize)
        ensures
            pos == self.cursor(),
            pos >= self.start(),
    {
        proof {
            use_type_invariant(self);
        }
        self.current_pos
    }

    /// The connection, for the caller to read from.
    pub fn response(&self) -> (response: &C)
        ensures
            *response == self.connection(),
    {
        &self.response
    }

    /// Takes in the outcome of one read of the connection into `buff`:
    /// `received` is the count that the connection reported, or `None` where
    /// the transport failed. The cursor moves on by the number of bytes
    /// handed out.
    pub fn read(&mut self, buff: &Vec<u8>, received: Option<usize>) -> (out: Result<
        Vec<u8>,
        ReadError,
    >)
        requires
            received matches Some(n) ==> n <= buff.len() && old(self).cursor() + n <= usize::MAX,
        ensures
            match out {
                Ok(bytes) => delivered(buff@, received) == Ok::<Seq<u8>, ReadError>(bytes@),
                Err(e) => delivered(buff@, received) == Err::<Seq<u8>, ReadError>(e),
            },
            final(self).cursor() == old(self).cursor() + accepted(buff@, received).len(),
            final(self).start() == old(self).start(),
            final(self).connection() == old(self).connection(),
    {
        proof {
            use_type_invariant(&*self);
        }
        match received {
            None => Ok(Vec::new()),
            Some(n) => {
                if n == 0 {
                    Ok(Vec::new())
                } else if check_all_zero(buff) {
                    Err(ReadError::AllZeros)
                } else {
                    self.current_pos = self.current_pos + n;
                    Ok(prefix(buff, n))
                }
            },
        }
    }
}

/// The bytes of an optional buffer.
pub open spec fn opt_bytes(bytes: Option<Vec<u8>>) -> Option<Seq<u8>> {
    match bytes {
        Some(b) => Some(b@),
        None => None,
    }
}

/// A cache file is taken over when it was read and is as long as the
/// resource is known to be.
pub open spec fn adopts_cache(length: Option<usize>, cached: Option<Seq<u8>>) -> bool {
    match cached {
        Some(data) => match length {
            Some(n) => n == data.len(),
            None => false,
        },
        None => false,
    }
}

/// The buffer that a new task starts with: the cache file's bytes where it is
/// taken over, else one empty slot per byte of the known length.
pub open spec fn initial_buffer(length: Option<usize>, cached: Option<Seq<u8>>) -> Seq<
    Option<u8>,
> {
    if adopts_cache(length, cached) {
        filled(cached->Some_0)
    } else {
        match length {
            Some(n) => blank(n as nat),
            None => blank(0),
        }
    }
}

/// What to do next for a read request.
pub enum Satisfy {
    /// The buffer holds the first byte asked for: these bytes are the answer,
    /// and no connection is touched.
    Cached(Vec<u8>),
    /// Read up to `size` bytes from the connection at index `stream`, whose
    /// cursor stands at the request's offset.
    Fetch { stream: usize, size: usize },
    /// No connection stands at the request's offset: open one from `pos` to
    /// the end of the resource.
    Connect { pos: usize },
}

/// What came of storing one read.
pub struct Stored {
    /// The bytes that the read gave: the answer to the request it was made
    /// for.
    pub data: Vec<u8>,
    /// The whole resource, where this read completed it and it is now due to
    /// be written to the cache file.
    pub cache: Option<Vec<u8>>,
}

/// What an idle task does next.
pub struct IdleStep {
    /// The whole resource, where it is due to be written to the cache file.
    pub cache: Option<Vec<u8>>,
    /// The number of bytes to read from the oldest connection, if there is
    /// one.
    pub fetch: Option<usize>,
}

/// The download of one resource.
pub struct DownloadTask<C> {
    pub url: String,
    pub len: Option<usize>,
    pub buff: Vec<Option<u8>>,
    pub download_progs: Vec<DownloadProg<C>>,
    pub file_name: Option<String>,
    pub video_id: String,
    pub has_cached: bool,
}

impl<C> DownloadTask<C> {
    /// Some connection's cursor stands at `pos`.
    pub open spec fn has_stream_at(&self, pos: usize) -> bool {
        exists|j: int|
            0 <= j < self.download_progs@.len() && (#[trigger] self.download_progs@[j]).cursor()
                == pos
    }

    /// The two tasks name the same resource, address and cache file.
    pub open spec fn same_resource(&self, other: &Self) -> bool {
        &&& self.url@ == other.url@
        &&& self.len == other.len
        &&& self.video_id@ == other.video_id@
        &&& opt_text(self.file_name) == opt_text(other.file_name)
    }

    /// `plan` is what is to be done for a read of up to `limit` bytes from
    /// `pos`: the answer from the buffer where it holds the byte at `pos`,
    /// else a read of the first connection that stands at `pos`, else a new
    /// connection.
    pub open spec fn plans(&self, pos: usize, limit: usize, plan: Satisfy) -> bool {
        match plan {
            Satisfy::Cached(bytes) => {
                &&& is_set(self.buff@, pos as int)
                &&& is_populated_run(self.buff@, pos as int, limit as int, bytes@)
            },
            Satisfy::Fetch { stream, size } => {
                &&& !is_set(self.buff@, pos as int)
                &&& stream < self.download_progs@.len()
                &&& self.download_progs@[stream as int].cursor() == pos
                &&& forall|j: int|
                    0 <= j < stream ==> (#[trigger] self.download_progs@[j]).cursor() != pos
                &&& size == limit
            },
            Satisfy::Connect { pos: at } => {
                &&& !is_set(self.buff@, pos as int)
                &&& !self.has_stream_at(pos)
                &&& at == pos
            },
        }
    }

    /// The resource is complete, has a cache file to go to, and has not been
    /// written there yet.
    pub open spec fn cache_due(&self) -> bool {
        all_set(self.buff@) && !self.has_cached && self.file_name is Some
    }

    /// A completion check took `self` to `after` and handed out `cache` to be
    /// written: the whole resource where that is due, and the flag is then
    /// set whether or not the write succeeds.
    pub open spec fn completion_checked(&self, after: &Self, cache: Option<Seq<u8>>) -> bool {
        &&& after.same_resource(self)
        &&& after.buff@ == self.buff@
        &&& after.download_progs@ == self.download_progs@
        &&& after.has_cached == (self.has_cached || self.cache_due())
        &&& cache == if self.cache_due() {
            Some(populated(self.buff@))
        } else {
            None
        }
    }

    /// Attaching the connection `prog` took `self` to `after`: it is the
    /// newest connection, and nothing else has changed.
    pub open spec fn attached(&self, after: &Self, prog: DownloadProg<C>) -> bool {
        &&& after.same_resource(self)
        &&& after.buff@ == self.buff@
        &&& after.has_cached == self.has_cached
        &&& after.download_progs@ == self.download_progs@.push(prog)
    }

    /// Storing the outcome of a read of connection `stream` took `self` to
    /// `after`, gave `data` as the answer and `cache` to be written. The bytes
    /// go into the buffer at the connection's cursor. The connection is
    /// dropped where the read gave nothing or ran into bytes that were already
    /// there, and else stays with its cursor moved on. Then completion is
    /// checked.
    pub open spec fn stored(
        &self,
        after: &Self,
        stream: int,
        buff: Seq<u8>,
        received: Option<usize>,
        data: Seq<u8>,
        cache: Option<Seq<u8>>,
    ) -> bool {
        let got = accepted(buff, received);
        let pos = self.download_progs@[stream].cursor();
        let grown = written(self.buff@, pos as int, got);
        let due = all_set(grown) && !self.has_cached && self.file_name is Some;
        &&& data == got
        &&& after.same_resource(self)
        &&& after.buff@ == grown
        &&& if got.len() == 0 || overlaps(self.buff@, pos as int, got) {
            after.download_progs@ == self.download_progs@.remove(stream)
        } else {
            &&& after.download_progs@.len() == self.download_progs@.len()
            &&& after.download_progs@[stream].cursor() == pos + got.len()
            &&& after.download_progs@[stream].start() == self.download_progs@[stream].start()
            &&& after.download_progs@[stream].connection()
                == self.download_progs@[stream].connection()
            &&& forall|j: int|
                0 <= j < self.download_progs@.len() && j != stream
                    ==> #[trigger] after.download_progs@[j] == self.download_progs@[j]
        }
        &&& after.has_cached == (self.has_cached || due)
        &&& cache == if due {
            Some(populated(grown))
        } else {
            None
        }
    }

    /// A task for a resource that the manager has not seen yet. `length` is
    /// the resource's total length where the server told it, `cached` the
    /// content of the cache file where one could be read.
    pub fn start_new_task(
        url: String,
        video_id: String,
        file_name: Option<String>,
        length: Option<usize>,
        cached: Option<Vec<u8>>,
    ) -> (task: Self)
        ensures
            task.url == url,
            task.video_id == video_id,
            task.file_name == file_name,
            task.len == length,
            task.download_progs@.len() == 0,
            task.buff@ == initial_buffer(length, opt_bytes(cached)),
            task.has_cached == adopts_cache(length, opt_bytes(cached)),
    {
        let mut adopted: Option<Vec<Option<u8>>> = None;
        if let Some(data) = &cached {
            let fits = match length {
                Some(n) => n == data.len(),
                None => false,
            };
            if fits {
                adopted = Some(make_filled(data));
            }
        }
        let has_cached = adopted.is_some();
        let buff = match adopted {
            Some(b) => b,
            None => match length {
                Some(n) => make_blank(n),
                None => make_blank(0),
            },
        };
        DownloadTask {
            url,
            len: length,
            buff,
            download_progs: Vec::new(),
            file_name,
            video_id,
            has_cached,
        }
    }

    /// Whether every byte of the resource has arrived.
    pub fn is_complete(&self) -> (complete: bool)
        ensures
            complete == all_set(self.buff@),
    {
        check_all_set(&self.buff)
    }

    /// Hands out the buffer's bytes for the cache file and marks the task as
    /// cached, where the task has a cache file; does nothing where it has
    /// none.
    fn cache_to_file(&mut self) -> (content: Option<Vec<u8>>)
        ensures
            final(self).same_resource(old(self)),
            final(self).buff@ == old(self).buff@,
            final(self).download_progs@ == old(self).download_progs@,
            final(self).has_cached == (old(self).has_cached || old(self).file_name is Some),
            opt_bytes(content) == if old(self).file_name is Some {
                Some(populated(old(self).buff@))
            } else {
                None
            },
    {
        if self.file_name.is_some() {
            let content = collect_populated(&self.buff);
            self.has_cached = true;
            Some(content)
        } else {
            None
        }
    }

    /// The completion check: hands out the whole resource for the cache file
    /// the first time it finds the buffer complete, and nothing ever after.
    pub fn cache_if_complete(&mut self) -> (cache: Option<Vec<u8>>)
        ensures
            old(self).completion_checked(final(self), opt_bytes(cache)),
    {
        if !self.has_cached && self.is_complete() {
            self.cache_to_file()
        } else {
            None
        }
    }

    /// The idle continuation: checks completion, then asks for a small read
    /// of the oldest connection, if any is open. The caller makes that read
    /// and stores it with `store_download` at index 0.
    pub fn complete_tasks(&mut self) -> (step: IdleStep)
        ensures
            old(self).completion_checked(final(self), opt_bytes(step.cache)),
            step.fetch == if old(self).download_progs@.len() > 0 {
                Some(IDLE_CHUNK)
            } else {
                None
            },
    {
        let cache = self.cache_if_complete();
        let fetch = if self.download_progs.len() > 0 {
            Some(IDLE_CHUNK)
        } else {
            None
        };
        IdleStep { cache, fetch }
    }

    /// Decides how to satisfy a read request: from the buffer where it holds
    /// the first byte asked for, else from the first connection whose cursor
    /// stands at the request's offset, else by opening a new connection there.
    pub fn download_task(&self, task: &IncomingTask) -> (plan: Satisfy)
        ensures
            self.plans(task.pos, task.buff, plan),
    {
        let pos = task.pos;
        if pos < self.buff.len() && self.buff[pos].is_some() {
            return Satisfy::Cached(read_run(&self.buff, pos, task.buff));
        }
        let mut i: usize = 0;
        while i < self.download_progs.len()
            invariant
                i <= self.download_progs@.len(),
                pos == task.pos,
                !is_set(self.buff@, pos as int),
                forall|j: int| 0 <= j < i ==> (#[trigger] self.download_progs@[j]).cursor() != pos,
            decreases self.download_progs.len() - i,
        {
            if self.download_progs[i].current_pos() == pos {
                return Satisfy::Fetch { stream: i, size: task.buff };
            }
            i += 1;
        }
        Satisfy::Connect { pos }
    }

    /// Adds a connection that the caller has opened. It becomes the newest.
    pub fn attach(&mut self, prog: DownloadProg<C>)
        ensures
            old(self).attached(final(self), prog),
    {
        self.download_progs.push(prog);
    }

    /// Stores the outcome of one read of the connection at index `stream`
    /// into `buff`, where `received` is the count that the connection
    /// reported, or `None` where the transport failed.
    pub fn store_download(&mut self, stream: usize, buff: &Vec<u8>, received: Option<usize>) -> (out:
        Stored)
        requires
            stream < old(self).download_progs@.len(),
            received matches Some(n) ==> n <= buff.len() && old(self).download_progs@[stream as int].cursor()
                + n <= usize::MAX,
        ensures
            old(self).stored(
                final(self),
                stream as int,
                buff@,
                received,
                out.data@,
                opt_bytes(out.cache),
            ),
    {
        let mut prog = self.download_progs.remove(stream);
        let pos = prog.current_pos();
        let data = match prog.read(buff, received) {
            Ok(bytes) => bytes,
            Err(_) => Vec::new(),
        };
        let overlap = write_at(&mut self.buff, pos, &data);
        if !(data.len() == 0 || overlap) {
            self.download_progs.insert(stream, prog);
        }
        let cache = self.cache_if_complete();
        Stored { data, cache }
    }
}


/// What every step of a task does to the cache flag: a task that has been
/// cached stays so and hands out nothing more, and whatever is handed out
/// sets the flag.
pub open spec fn flag_kept<C>(
    before: &DownloadTask<C>,
    after: &DownloadTask<C>,
    cache: Option<Seq<u8>>,
) -> bool {
    &&& before.has_cached ==> after.has_cached && cache is None
    &&& cache is Some ==> after.has_cached && !before.has_cached
}

/// A completion check, the storing of a read or the attaching of a connection
/// led from `before` to `after` and handed out `cache`.
pub open spec fn task_step<C>(
    before: &DownloadTask<C>,
    after: &DownloadTask<C>,
    cache: Option<Seq<u8>>,
) -> bool {
    ||| before.completion_checked(after, cache)
    ||| cache is None && exists|prog: DownloadProg<C>| #[trigger] before.attached(after, prog)
    ||| exists|stream: int, buff: Seq<u8>, received: Option<usize>, data: Seq<u8>|
        0 <= stream < before.download_progs@.len() && #[trigger] before.stored(
            after,
            stream,
            buff,
            received,
            data,
            cache,
        )
}

/// The cache file is written at most once: in any run of steps of one task,
/// after a step that hands out the resource for the cache file no later step
/// hands out anything.
pub proof fn law_cache_written_at_most_once<C>(
    tasks: Seq<DownloadTask<C>>,
    caches: Seq<Option<Seq<u8>>>,
    first: int,
    later: int,
)
    requires
        tasks.len() == caches.len() + 1,
        forall|k: int|
            0 <= k < caches.len() ==> task_step(&tasks[k], &tasks[k + 1], #[trigger] caches[k]),
        0 <= first < later < caches.len(),
        caches[first] is Some,
    ensures
        caches[later] is None,
        tasks[later].has_cached,
    decreases later - first,
{
    if later > first + 1 {
        law_cache_written_at_most_once(tasks, caches, first, later - 1);
    }
}

/// The cache file is written when the resource becomes complete: the read
/// that fills the last empty slot of a task with a cache file hands out the
/// whole buffer, byte for byte, and a completion check that follows hands out
/// nothing.
pub proof fn law_cache_written_on_completion<C>(
    before: &DownloadTask<C>,
    after: &DownloadTask<C>,
    stream: int,
    buff: Seq<u8>,
    received: Option<usize>,
    data: Seq<u8>,
    cache: Option<Seq<u8>>,
    next: &DownloadTask<C>,
    again: Option<Seq<u8>>,
)
    requires
        0 <= stream < before.download_progs@.len(),
        before.stored(after, stream, buff, received, data, cache),
        all_set(after.buff@),
        !before.has_cached,
        before.file_name is Some,
        after.completion_checked(next, again),
    ensures
        cache is Some,
        cache->Some_0.len() == after.buff@.len(),
        forall|i: int|
            0 <= i < after.buff@.len() ==> after.buff@[i] == Some(#[trigger] cache->Some_0[i]),
        after.has_cached,
        again is None,
{
    crate::sparse::lemma_populated_of_complete(after.buff@);
}

/// Reads at contiguous offsets share one connection: after a read that gave
/// bytes and met none that were already there, the same connection stands at
/// the offset that follows them, so a request for that offset opens no new
/// one.
pub proof fn law_contiguous_reads_share_a_stream<C>(
    before: &DownloadTask<C>,
    after: &DownloadTask<C>,
    stream: int,
    buff: Seq<u8>,
    received: Option<usize>,
    data: Seq<u8>,
    cache: Option<Seq<u8>>,
)
    requires
        0 <= stream < before.download_progs@.len(),
        before.download_progs@[stream].cursor() + data.len() <= usize::MAX,
        before.stored(after, stream, buff, received, data, cache),
        data.len() > 0,
        !overlaps(before.buff@, before.download_progs@[stream].cursor() as int, data),
    ensures
        after.download_progs@.len() == before.download_progs@.len(),
        after.has_stream_at((before.download_progs@[stream].cursor() + data.len()) as usize),
{
}

/// What was stored is what is served: after a read that met no byte that was
/// already there, a request at the offset of that read is answered from the
/// buffer, with the bytes that the read gave, as far as the request's limit
/// reaches.
pub proof fn law_stored_bytes_are_served<C>(
    before: &DownloadTask<C>,
    after: &DownloadTask<C>,
    stream: int,
    buff: Seq<u8>,
    received: Option<usize>,
    data: Seq<u8>,
    cache: Option<Seq<u8>>,
    limit: usize,
    plan: Satisfy,
)
    requires
        0 <= stream < before.download_progs@.len(),
        before.stored(after, stream, buff, received, data, cache),
        data.len() > 0,
        !overlaps(before.buff@, before.download_progs@[stream].cursor() as int, data),
        after.plans(before.download_progs@[stream].cursor(), limit, plan),
    ensures
        plan is Cached,
        plan->Cached_0@.len() >= limit || plan->Cached_0@.len() >= data.len(),
        forall|i: int|
            0 <= i < plan->Cached_0@.len() && i < data.len() ==> #[trigger] plan->Cached_0@[i]
                == data[i],
{
    let pos = before.download_progs@[stream].cursor() as int;
    let run = plan->Cached_0@;
    assert forall|j: int| pos <= j < pos + data.len() implies after.buff@[j] == Some(
        data[j - pos],
    ) by {
        assert(!is_set(before.buff@, j));
    }
    assert(is_set(after.buff@, pos));
    if run.len() < limit && run.len() < data.len() {
        assert(is_set(after.buff@, pos + run.len()));
    }
    assert forall|i: int| 0 <= i < run.len() && i < data.len() implies #[trigger] run[i]
        == data[i] by {
        assert(after.buff@[pos + i] == Some(run[i]));
    }
}

/// The task has one connection, and the buffer holds no byte at or past its
/// cursor: the state of a task that is read front to back.
pub open spec fn one_stream_at_frontier<C>(task: &DownloadTask<C>) -> bool {
    &&& task.download_progs@.len() == 1
    &&& forall|i: int|
        i >= task.download_progs@[0].cursor() ==> !#[trigger] is_set(task.buff@, i)
}

/// The first read of a task that holds no byte opens the one connection: once
/// it is attached, the task is in the state of one that is read front to
/// back.
pub proof fn law_first_read_opens_one_stream<C>(
    before: &DownloadTask<C>,
    after: &DownloadTask<C>,
    prog: DownloadProg<C>,
)
    requires
        before.download_progs@.len() == 0,
        forall|i: int| !#[trigger] is_set(before.buff@, i),
        before.attached(after, prog),
    ensures
        one_stream_at_frontier(after),
        after.has_stream_at(prog.cursor()),
{
    assert(after.download_progs@[0] == prog);
}

/// Reads at strictly increasing, contiguous offsets never open a second
/// connection. Where a task is read front to back, each read that gives bytes
/// leaves it so, with the cursor at the next offset, and the plan for that
/// offset is to read the same connection again.
pub proof fn law_contiguous_run_keeps_one_stream<C>(
    before: &DownloadTask<C>,
    after: &DownloadTask<C>,
    buff: Seq<u8>,
    received: Option<usize>,
    data: Seq<u8>,
    cache: Option<Seq<u8>>,
    limit: usize,
    plan: Satisfy,
)
    requires
        one_stream_at_frontier(before),
        before.download_progs@[0].cursor() + data.len() <= usize::MAX,
        before.stored(after, 0, buff, received, data, cache),
        data.len() > 0,
        after.plans((before.download_progs@[0].cursor() + data.len()) as usize, limit, plan),
    ensures
        one_stream_at_frontier(after),
        after.download_progs@[0].cursor() == before.download_progs@[0].cursor() + data.len(),
        plan == (Satisfy::Fetch { stream: 0, size: limit }),
{
    let pos = before.download_progs@[0].cursor();
    assert forall|i: int| i >= pos + data.len() implies !#[trigger] is_set(after.buff@, i) by {
        assert(!is_set(before.buff@, i));
    }
}

/// A new connection is opened exactly for an offset that the buffer does not
/// hold and at which no connection stands; an offset at which one stands
/// is read from that one; an offset that the buffer holds needs none.
pub proof fn law_new_stream_only_for_other_offsets<C>(
    task: &DownloadTask<C>,
    pos: usize,
    limit: usize,
    plan: Satisfy,
)
    requires
        task.plans(pos, limit, plan),
    ensures
        plan is Connect <==> !is_set(task.buff@, pos as int) && !task.has_stream_at(pos),
        plan is Fetch <==> !is_set(task.buff@, pos as int) && task.has_stream_at(pos),
        plan is Cached <==> is_set(task.buff@, pos as int),
{
    if let Satisfy::Fetch { stream, size } = plan {
        assert(task.download_progs@[stream as int].cursor() == pos);
    }
}

/// A task that takes over its cache file is complete from the start and
/// holds the file's bytes, so every offset of the resource is answered from
/// the buffer and no connection is ever asked for.
pub proof fn law_adopted_cache_is_complete(length: Option<usize>, cached: Seq<u8>)
    requires
        adopts_cache(length, Some(cached)),
    ensures
        all_set(initial_buffer(length, Some(cached))),
        initial_buffer(length, Some(cached)).len() == cached.len(),
        populated(initial_buffer(length, Some(cached))) == cached,
        forall|pos: int| 0 <= pos < cached.len() ==> is_set(initial_buffer(length, Some(cached)), pos),
{
    lemma_filled_round_trip(cached);
}

/// A slot that holds a byte keeps that byte through every stored read, and
/// the buffer never shrinks.
pub proof fn law_slots_are_written_once<C>(
    before: &DownloadTask<C>,
    after: &DownloadTask<C>,
    stream: int,
    buff: Seq<u8>,
    received: Option<usize>,
    data: Seq<u8>,
    cache: Option<Seq<u8>>,
)
    requires
        0 <= stream < before.download_progs@.len(),
        before.stored(after, stream, buff, received, data, cache),
    ensures
        after.buff@.len() >= before.buff@.len(),
        forall|i: int| is_set(before.buff@, i) ==> after.buff@[i] == #[trigger] before.buff@[i],
        forall|i: int|
            before.download_progs@[stream].cursor() <= i < before.download_progs@[stream].cursor()
                + data.len() ==> #[trigger] is_set(after.buff@, i),
{
    crate::sparse::lemma_written_keeps(
        before.buff@,
        before.download_progs@[stream].cursor() as int,
        data,
    );
}

} // verus!
