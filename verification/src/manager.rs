//! The download manager's bookkeeping: the set of tasks, one per resource,
//! and the list of requests that wait for an answer.
//!
//! The manager is driven in ticks by its caller, which owns the channels and
//! the connections. Each tick first applies the removals and lists the reads
//! that are due, then has the tasks satisfy them, and at last strikes each
//! answered request off the list.

use vstd::prelude::*;
use crate::downloader::DownloadTask;
use crate::request::{DownloaderInput, DownloaderInputView, IncomingTask, IncomingTaskView};

verus! {

/// The pause between two ticks of the manager, in milliseconds.
pub const TICK_MILLIS: u64 = 50;

/// Something that belongs to one resource, named by the resource's id.
pub trait Keyed {
    /// The id of the resource.
    spec fn key(&self) -> Seq<char>;
}

impl Keyed for DownloaderInput {
    open spec fn key(&self) -> Seq<char> {
        self@.id()
    }
}

impl<C> Keyed for DownloadTask<C> {
    open spec fn key(&self) -> Seq<char> {
        self.video_id@
    }
}

/// The items of `items` whose resource is not in `gone`, in their order.
pub open spec fn without<T: Keyed>(items: Seq<T>, gone: Set<Seq<char>>) -> Seq<T>
    decreases items.len(),
{
    if items.len() == 0 {
        Seq::empty()
    } else {
        let head = without(items.drop_last(), gone);
        if gone.contains(items.last().key()) {
            head
        } else {
            head.push(items.last())
        }
    }
}

/// No two items belong to the same resource.
pub open spec fn distinct_keys<T: Keyed>(items: Seq<T>) -> bool {
    forall|i: int, j: int|
        0 <= i < j < items.len() ==> (#[trigger] items[i]).key() != (#[trigger] items[j]).key()
}

/// No item belongs to the resource `id`.
pub open spec fn absent<T: Keyed>(items: Seq<T>, id: Seq<char>) -> bool {
    forall|j: int| 0 <= j < items.len() ==> (#[trigger] items[j]).key() != id
}

/// The ids that the removals in the list name.
pub open spec fn removal_ids(pending: Seq<DownloaderInput>) -> Set<Seq<char>> {
    Set::new(
        |id: Seq<char>|
            exists|k: int|
                0 <= k < pending.len() && (#[trigger] pending[k])@
                    == DownloaderInputView::RemoveDownload(id),
    )
}

/// The texts of a list of strings.
pub open spec fn texts(ids: Seq<String>) -> Set<Seq<char>> {
    Set::new(|id: Seq<char>| exists|k: int| 0 <= k < ids.len() && (#[trigger] ids[k])@ == id)
}

/// The read requests in the list, in their order.
pub open spec fn reads_of(pending: Seq<DownloaderInput>) -> Seq<IncomingTaskView>
    decreases pending.len(),
{
    if pending.len() == 0 {
        Seq::empty()
    } else {
        let head = reads_of(pending.drop_last());
        match pending.last()@ {
            DownloaderInputView::DownloadTask(task) => head.push(task),
            DownloaderInputView::RemoveDownload(_) => head,
        }
    }
}

/// The place of the first entry that is the read request `task`.
pub open spec fn is_first_match(pending: Seq<DownloaderInput>, task: IncomingTaskView, at: int) -> bool {
    &&& 0 <= at < pending.len()
    &&& pending[at]@ == DownloaderInputView::DownloadTask(task)
    &&& forall|j: int|
        0 <= j < at ==> (#[trigger] pending[j])@ != DownloaderInputView::DownloadTask(task)
}

/// No entry is the read request `task`.
pub open spec fn no_match(pending: Seq<DownloaderInput>, task: IncomingTaskView) -> bool {
    forall|j: int|
        0 <= j < pending.len() ==> (#[trigger] pending[j])@ != DownloaderInputView::DownloadTask(
            task,
        )
}

/// Where nothing belongs to a resource in `gone`, nothing is taken out.
pub proof fn lemma_without_nothing<T: Keyed>(items: Seq<T>, gone: Set<Seq<char>>)
    requires
        forall|j: int| 0 <= j < items.len() ==> !gone.contains((#[trigger] items[j]).key()),
    ensures
        without(items, gone) == items,
    decreases items.len(),
{
    if items.len() > 0 {
        lemma_without_nothing(items.drop_last(), gone);
        assert(items.drop_last().push(items.last()) =~= items);
    }
}

/// Taking out one set of resources and then another takes out both.
pub proof fn lemma_without_twice<T: Keyed>(
    items: Seq<T>,
    first: Set<Seq<char>>,
    second: Set<Seq<char>>,
)
    ensures
        without(without(items, first), second) == without(items, first.union(second)),
    decreases items.len(),
{
    if items.len() > 0 {
        lemma_without_twice(items.drop_last(), first, second);
        let head = without(items.drop_last(), first);
        if !first.contains(items.last().key()) {
            assert(head.push(items.last()).drop_last() =~= head);
        }
    }
}

/// Where exactly one item belongs to the resource `id`, taking that
/// resource out removes that item.
pub proof fn lemma_without_one<T: Keyed>(items: Seq<T>, id: Seq<char>, at: int)
    requires
        0 <= at < items.len(),
        items[at].key() == id,
        forall|j: int| 0 <= j < items.len() && j != at ==> (#[trigger] items[j]).key() != id,
    ensures
        without(items, set![id]) == items.remove(at),
    decreases items.len(),
{
    let rest = items.drop_last();
    if at == items.len() - 1 {
        lemma_without_nothing(rest, set![id]);
        assert(items.remove(at) =~= rest);
    } else {
        lemma_without_one(rest, id, at);
        assert(rest.remove(at).push(items.last()) =~= items.remove(at));
    }
}

/// What is left after taking resources out is made of items of the list,
/// and none of them belongs to a resource that was taken out.
pub proof fn lemma_without_sound<T: Keyed>(items: Seq<T>, gone: Set<Seq<char>>)
    ensures
        forall|j: int|
            0 <= j < without(items, gone).len() ==> !gone.contains(
                (#[trigger] without(items, gone)[j]).key(),
            ),
        forall|j: int|
            0 <= j < without(items, gone).len() ==> exists|k: int|
                0 <= k < items.len() && items[k] == #[trigger] without(items, gone)[j],
    decreases items.len(),
{
    if items.len() > 0 {
        lemma_without_sound(items.drop_last(), gone);
        let head = without(items.drop_last(), gone);
        let all = without(items, gone);
        assert forall|j: int| 0 <= j < all.len() implies exists|k: int|
            0 <= k < items.len() && items[k] == #[trigger] all[j] by {
            if j < head.len() {
                let k = choose|k: int| 0 <= k < items.drop_last().len() && items.drop_last()[k] == head[j];
                assert(items[k] == all[j]);
            } else {
                assert(items[items.len() - 1] == all[j]);
            }
        }
    }
}

/// The requests that wait after every entry for the resource `id` has been
/// struck off.
pub fn discard_requests(pending: &mut Vec<DownloaderInput>, id: &String)
    ensures
        final(pending)@ == without(old(pending)@, set![id@]),
{
    let mut i: usize = 0;
    let ghost mut seen: int = 0;
    while i < pending.len()
        invariant
            0 <= seen <= old(pending)@.len(),
            i <= pending@.len(),
            pending@.len() - i == old(pending)@.len() - seen,
            pending@.take(i as int) == without(old(pending)@.take(seen), set![id@]),
            pending@.skip(i as int) == old(pending)@.skip(seen),
        decreases pending@.len() - i,
    {
        let ghost before = pending@;
        assert(before.skip(i as int)[0] == old(pending)@.skip(seen)[0]);
        assert(old(pending)@.take(seen + 1).drop_last() =~= old(pending)@.take(seen));
        let entry_id = pending[i].id();
        if entry_id == *id {
            let _ = pending.remove(i);
            assert(pending@.take(i as int) =~= before.take(i as int));
            assert(pending@.skip(i as int) =~= before.skip(i as int).skip(1));
            assert(old(pending)@.skip(seen + 1) =~= old(pending)@.skip(seen).skip(1));
        } else {
            i += 1;
            assert(pending@.take(i as int) =~= before.take(i - 1).push(before[i - 1]));
            assert(pending@.skip(i as int) =~= before.skip(i - 1).skip(1));
            assert(old(pending)@.skip(seen + 1) =~= old(pending)@.skip(seen).skip(1));
        }
        proof {
            seen = seen + 1;
        }
    }
    assert(pending@.take(i as int) =~= pending@);
    assert(old(pending)@.take(seen) =~= old(pending)@);
}

/// Strikes the first entry that is the read request `task` off the list, and
/// says whether there was one.
pub fn resolve_request(pending: &mut Vec<DownloaderInput>, task: &IncomingTask) -> (found: bool)
    ensures
        found ==> exists|at: int|
            #[trigger] is_first_match(old(pending)@, task@, at) && final(pending)@ == old(pending)@.remove(at),
        !found ==> no_match(old(pending)@, task@) && final(pending)@ == old(pending)@,
{
    let mut i: usize = 0;
    while i < pending.len()
        invariant
            i <= pending@.len(),
            pending@ == old(pending)@,
            forall|j: int|
                0 <= j < i ==> (#[trigger] pending@[j])@ != DownloaderInputView::DownloadTask(
                    task@,
                ),
        decreases pending@.len() - i,
    {
        let hit = match &pending[i] {
            DownloaderInput::DownloadTask(t) => *t == *task,
            DownloaderInput::RemoveDownload(_) => false,
        };
        if hit {
            let _ = pending.remove(i);
            assert(is_first_match(old(pending)@, task@, i as int));
            return true;
        }
        i += 1;
    }
    false
}

/// Copies of the read requests in the list, in their order.
pub fn read_requests(pending: &Vec<DownloaderInput>) -> (reads: Vec<IncomingTask>)
    ensures
        reads@.map_values(|t: IncomingTask| t@) == reads_of(pending@),
{
    let mut reads: Vec<IncomingTask> = Vec::new();
    let mut i: usize = 0;
    while i < pending.len()
        invariant
            i <= pending@.len(),
            reads@.map_values(|t: IncomingTask| t@) == reads_of(pending@.take(i as int)),
        decreases pending@.len() - i,
    {
        assert(pending@.take(i + 1).drop_last() =~= pending@.take(i as int));
        let ghost before = reads@;
        if let DownloaderInput::DownloadTask(t) = &pending[i] {
            reads.push(t.clone());
            assert(reads@.map_values(|t: IncomingTask| t@) =~= before.map_values(
                |t: IncomingTask| t@,
            ).push(t@));
        }
        i += 1;
    }
    assert(pending@.take(i as int) =~= pending@);
    reads
}

/// The ids that the removals in the list name.
fn removal_requests(pending: &Vec<DownloaderInput>) -> (ids: Vec<String>)
    ensures
        texts(ids@) == removal_ids(pending@),
{
    let mut ids: Vec<String> = Vec::new();
    let mut i: usize = 0;
    while i < pending.len()
        invariant
            i <= pending@.len(),
            texts(ids@) == removal_ids(pending@.take(i as int)),
        decreases pending@.len() - i,
    {
        let ghost before = ids@;
        let ghost seen = pending@.take(i as int);
        let ghost next = pending@.take(i + 1);
        assert(next.drop_last() =~= seen);
        if let DownloaderInput::RemoveDownload(id) = &pending[i] {
            ids.push(id.clone());
            assert forall|t: Seq<char>| texts(ids@).contains(t) == removal_ids(next).contains(
                t,
            ) by {
                if texts(ids@).contains(t) {
                    let k = choose|k: int| 0 <= k < ids@.len() && (#[trigger] ids@[k])@ == t;
                    if k < before.len() {
                        assert(before[k]@ == t);
                        assert(texts(before).contains(t));
                        let j = choose|j: int|
                            0 <= j < seen.len() && (#[trigger] seen[j])@
                                == DownloaderInputView::RemoveDownload(t);
                        assert(next[j]@ == DownloaderInputView::RemoveDownload(t));
                    } else {
                        assert(next[i as int]@ == DownloaderInputView::RemoveDownload(t));
                    }
                }
                if removal_ids(next).contains(t) {
                    let j = choose|j: int|
                        0 <= j < next.len() && (#[trigger] next[j])@
                            == DownloaderInputView::RemoveDownload(t);
                    if j < seen.len() {
                        assert(seen[j]@ == DownloaderInputView::RemoveDownload(t));
                        assert(removal_ids(seen).contains(t));
                        let k = choose|k: int| 0 <= k < before.len() && (#[trigger] before[k])@ == t;
                        assert(ids@[k]@ == t);
                    } else {
                        assert(ids@[ids@.len() - 1]@ == t);
                    }
                }
            }
            assert(texts(ids@) =~= removal_ids(next));
        } else {
            assert forall|t: Seq<char>| removal_ids(seen).contains(t) == removal_ids(
                next,
            ).contains(t) by {
                if removal_ids(seen).contains(t) {
                    let j = choose|j: int|
                        0 <= j < seen.len() && (#[trigger] seen[j])@
                            == DownloaderInputView::RemoveDownload(t);
                    assert(next[j]@ == DownloaderInputView::RemoveDownload(t));
                }
                if removal_ids(next).contains(t) {
                    let j = choose|j: int|
                        0 <= j < next.len() && (#[trigger] next[j])@
                            == DownloaderInputView::RemoveDownload(t);
                    assert(seen[j]@ == DownloaderInputView::RemoveDownload(t));
                }
            }
            assert(removal_ids(seen) =~= removal_ids(next));
        }
        i += 1;
    }
    assert(pending@.take(i as int) =~= pending@);
    ids
}


/// What a tick of the manager does.
pub enum Tick {
    /// No read waits: every task goes on with its download.
    Idle,
    /// These reads are to be satisfied.
    Serve(Vec<IncomingTask>),
}

/// The download manager's tasks: at most one per resource.
pub struct DownloaderS<C> {
    download_tasks: Vec<DownloadTask<C>>,
}

impl<C> DownloaderS<C> {
    /// The tasks, oldest first.
    pub closed spec fn tasks(&self) -> Seq<DownloadTask<C>> {
        self.download_tasks@
    }

    /// No two tasks are for the same resource. This holds of every manager.
    pub open spec fn wf(&self) -> bool {
        distinct_keys(self.tasks())
    }

    #[verifier::type_invariant]
    spec fn inv(&self) -> bool {
        distinct_keys(self.download_tasks@)
    }

    /// A manager without tasks.
    pub fn new() -> (manager: Self)
        ensures
            manager.wf(),
            manager.tasks().len() == 0,
    {
        DownloaderS { download_tasks: Vec::new() }
    }

    /// The number of tasks.
    pub fn len(&self) -> (n: usize)
        ensures
            n == self.tasks().len(),
    {
        self.download_tasks.len()
    }

    /// The place of the task for the resource `id`, if there is one.
    pub fn find(&self, id: &String) -> (place: Option<usize>)
        ensures
            match place {
                Some(at) => at < self.tasks().len() && self.tasks()[at as int].key() == id@
                    && forall|j: int| 0 <= j < at ==> (#[trigger] self.tasks()[j]).key() != id@,
                None => absent(self.tasks(), id@),
            },
    {
        let mut i: usize = 0;
        while i < self.download_tasks.len()
            invariant
                i <= self.download_tasks@.len(),
                forall|j: int| 0 <= j < i ==> (#[trigger] self.download_tasks@[j]).key() != id@,
            decreases self.download_tasks@.len() - i,
        {
            if self.download_tasks[i].video_id == *id {
                return Some(i);
            }
            i += 1;
        }
        None
    }

    /// The task at a place.
    pub fn task(&self, at: usize) -> (task: &DownloadTask<C>)
        requires
            at < self.tasks().len(),
        ensures
            *task == self.tasks()[at as int],
    {
        &self.download_tasks[at]
    }

    /// Takes a task in as the newest, unless there is one for its resource
    /// already: then the manager stays as it is and the task comes back.
    pub fn add_task(&mut self, task: DownloadTask<C>) -> (refused: Option<DownloadTask<C>>)
        ensures
            final(self).wf(),
            match refused {
                None => absent(old(self).tasks(), task.key()) && final(self).tasks() == old(self).tasks().push(task),
                Some(back) => !absent(old(self).tasks(), task.key()) && back == task && final(self).tasks() == old(self).tasks(),
            },
    {
        proof {
            use_type_invariant(&*self);
        }
        match self.find(&task.video_id) {
            Some(at) => {
                assert(self.tasks()[at as int].key() == task.key());
                Some(task)
            },
            None => {
                let mut tasks: Vec<DownloadTask<C>> = Vec::new();
                std::mem::swap(&mut tasks, &mut self.download_tasks);
                tasks.push(task);
                std::mem::swap(&mut tasks, &mut self.download_tasks);
                None
            },
        }
    }

    /// Forgets the task for the resource `id` and hands it out. Where there
    /// is none, nothing changes.
    pub fn remove_download(&mut self, id: &String) -> (removed: Option<DownloadTask<C>>)
        ensures
            final(self).wf(),
            final(self).tasks() == without(old(self).tasks(), set![id@]),
            match removed {
                Some(task) => exists|at: int|
                    0 <= at < old(self).tasks().len() && #[trigger] old(self).tasks()[at] == task
                        && task.key() == id@ && final(self).tasks() == old(self).tasks().remove(
                        at,
                    ),
                None => absent(old(self).tasks(), id@) && final(self).tasks() == old(self).tasks(),
            },
    {
        proof {
            use_type_invariant(&*self);
        }
        match self.find(id) {
            Some(at) => {
                proof {
                    lemma_without_one(self.tasks(), id@, at as int);
                }
                let mut tasks: Vec<DownloadTask<C>> = Vec::new();
                std::mem::swap(&mut tasks, &mut self.download_tasks);
                let task = tasks.remove(at);
                std::mem::swap(&mut tasks, &mut self.download_tasks);
                Some(task)
            },
            None => {
                proof {
                    lemma_without_nothing(self.tasks(), set![id@]);
                }
                None
            },
        }
    }

    /// Hands out every task, oldest first, and leaves the manager empty.
    pub fn take_all(&mut self) -> (tasks: Vec<DownloadTask<C>>)
        ensures
            tasks@ == old(self).tasks(),
            final(self).tasks().len() == 0,
            final(self).wf(),
    {
        let mut tasks: Vec<DownloadTask<C>> = Vec::new();
        std::mem::swap(&mut tasks, &mut self.download_tasks);
        tasks
    }

    /// The first part of a tick. Every resource that a removal in the list
    /// names loses its task and all its entries in the list, the removal
    /// itself among them. Where reads are left, the tick serves them, in
    /// their order; where none is, the tick is an idle one, in which every
    /// task goes on with its download.
    pub fn plan_tick(&mut self, pending: &mut Vec<DownloaderInput>) -> (tick: Tick)
        ensures
            final(self).wf(),
            final(self).tasks() == without(old(self).tasks(), removal_ids(old(pending)@)),
            final(pending)@ == without(old(pending)@, removal_ids(old(pending)@)),
            match tick {
                Tick::Idle => reads_of(final(pending)@).len() == 0,
                Tick::Serve(reads) => reads@.len() > 0 && reads@.map_values(|t: IncomingTask| t@)
                    == reads_of(final(pending)@),
            },
    {
        proof {
            use_type_invariant(&*self);
        }
        let ids = removal_requests(pending);
        let mut m: usize = 0;
        proof {
            assert(texts(ids@.take(0)) =~= Set::<Seq<char>>::empty());
            lemma_without_nothing(self.tasks(), Set::<Seq<char>>::empty());
            lemma_without_nothing(pending@, Set::<Seq<char>>::empty());
        }
        while m < ids.len()
            invariant
                m <= ids@.len(),
                self.wf(),
                self.tasks() == without(old(self).tasks(), texts(ids@.take(m as int))),
                pending@ == without(old(pending)@, texts(ids@.take(m as int))),
            decreases ids@.len() - m,
        {
            let ghost done = texts(ids@.take(m as int));
            let _ = self.remove_download(&ids[m]);
            discard_requests(pending, &ids[m]);
            proof {
                lemma_without_twice(old(self).tasks(), done, set![ids@[m as int]@]);
                lemma_without_twice(old(pending)@, done, set![ids@[m as int]@]);
                lemma_texts_push(ids@, m as int);
            }
            m += 1;
        }
        assert(ids@.take(m as int) =~= ids@);
        let reads = read_requests(pending);
        assert(reads@.map_values(|t: IncomingTask| t@).len() == reads@.len());
        if reads.len() == 0 {
            Tick::Idle
        } else {
            Tick::Serve(reads)
        }
    }
}

/// The texts of one more string are those before and the new one.
pub proof fn lemma_texts_push(ids: Seq<String>, m: int)
    requires
        0 <= m < ids.len(),
    ensures
        texts(ids.take(m + 1)) == texts(ids.take(m)).union(set![ids[m]@]),
{
    let small = ids.take(m);
    let big = ids.take(m + 1);
    assert forall|t: Seq<char>| texts(big).contains(t) == texts(small).union(
        set![ids[m]@],
    ).contains(t) by {
        if texts(big).contains(t) {
            let k = choose|k: int| 0 <= k < big.len() && (#[trigger] big[k])@ == t;
            if k < m {
                assert(small[k]@ == t);
            }
        }
        if texts(small).contains(t) {
            let k = choose|k: int| 0 <= k < small.len() && (#[trigger] small[k])@ == t;
            assert(big[k]@ == t);
        }
        if t == ids[m]@ {
            assert(big[m]@ == t);
        }
    }
    assert(texts(big) =~= texts(small).union(set![ids[m]@]));
}

/// A removal for a resource that has no task changes no task.
pub proof fn law_unknown_removal_changes_nothing<C>(tasks: Seq<DownloadTask<C>>, id: Seq<char>)
    requires
        absent(tasks, id),
    ensures
        without(tasks, set![id]) == tasks,
{
    lemma_without_nothing(tasks, set![id]);
}

/// A removal touches no task but that of its resource: every other task
/// stays, unchanged and in its order.
pub proof fn law_removal_spares_the_others<C>(tasks: Seq<DownloadTask<C>>, id: Seq<char>, at: int)
    requires
        distinct_keys(tasks),
        0 <= at < tasks.len(),
        tasks[at].key() == id,
    ensures
        without(tasks, set![id]) == tasks.remove(at),
        distinct_keys(tasks.remove(at)),
        absent(tasks.remove(at), id),
{
    lemma_without_one(tasks, id, at);
}

/// After the first part of a tick the list holds read requests only, none of
/// them for a resource that was removed.
pub proof fn law_tick_leaves_reads_only(pending: Seq<DownloaderInput>)
    ensures
        forall|j: int|
            0 <= j < without(pending, removal_ids(pending)).len() ==> (#[trigger] without(
                pending,
                removal_ids(pending),
            )[j]) is DownloadTask,
{
    let left = without(pending, removal_ids(pending));
    lemma_without_sound(pending, removal_ids(pending));
    assert forall|j: int| 0 <= j < left.len() implies (#[trigger] left[j]) is DownloadTask by {
        let k = choose|k: int| 0 <= k < pending.len() && pending[k] == left[j];
        if left[j] is RemoveDownload {
            assert(pending[k]@ == DownloaderInputView::RemoveDownload(left[j].key()));
            assert(removal_ids(pending).contains(left[j].key()));
        }
    }
}

/// A tick leaves nothing for the next to remove: once the first part of a
/// tick has run, running it again changes neither the list nor the tasks.
pub proof fn law_tick_settles<C>(pending: Seq<DownloaderInput>, tasks: Seq<DownloadTask<C>>)
    ensures
        removal_ids(without(pending, removal_ids(pending))) == Set::<Seq<char>>::empty(),
        without(without(pending, removal_ids(pending)), removal_ids(without(pending, removal_ids(pending))))
            == without(pending, removal_ids(pending)),
        without(without(tasks, removal_ids(pending)), removal_ids(without(pending, removal_ids(pending))))
            == without(tasks, removal_ids(pending)),
{
    let left = without(pending, removal_ids(pending));
    law_tick_leaves_reads_only(pending);
    assert forall|id: Seq<char>| !removal_ids(left).contains(id) by {
        if removal_ids(left).contains(id) {
            let k = choose|k: int|
                0 <= k < left.len() && (#[trigger] left[k])@ == DownloaderInputView::RemoveDownload(
                    id,
                );
            assert(left[k] is DownloadTask);
        }
    }
    assert(removal_ids(left) =~= Set::<Seq<char>>::empty());
    lemma_without_nothing(left, removal_ids(left));
    lemma_without_nothing(without(tasks, removal_ids(pending)), removal_ids(left));
}

} // verus!
