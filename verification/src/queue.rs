//! The playback queue: ordered tracks with stable ids, a current index,
//! loop modes, and a shuffle permutation regenerated whenever the queue
//! changes while shuffling.

use vstd::prelude::*;
use crate::metadata::AudioMetadata;
use crate::rng::rand_below;

verus! {

/// How the queue advances past the current track.
#[derive(Debug, Clone, Copy, PartialEq, Eq, Structural)]
pub enum LoopMode {
    Off,
    RepeatOne,
    LoopAll,
    Shuffle,
}

impl Default for LoopMode {
    fn default() -> (r: Self)
        ensures r == LoopMode::Off,
    {
        LoopMode::Off
    }
}

/// A single queued track: a stable id, the file path, and metadata once
/// the track has been current.
#[derive(Debug, Clone)]
pub struct QueueItem {
    pub id: usize,
    pub path: String,
    pub metadata: Option<AudioMetadata>,
}

/// A sequence holding each of 0 .. n exactly once.
pub open spec fn is_permutation(s: Seq<usize>, n: int) -> bool {
    s.len() == n
        && (forall|v: usize| v < n ==> s.contains(v))
        && (forall|i: int, j: int| 0 <= i < j < s.len() ==> s[i] != s[j])
}

/// The first index of a value in a sequence, or the length when absent.
pub open spec fn find_from(s: Seq<usize>, v: usize, i: int) -> int
    decreases s.len() - i when i >= 0
{
    if i < 0 || i >= s.len() {
        s.len() as int
    } else if s[i] == v {
        i
    } else {
        find_from(s, v, i + 1)
    }
}

/// The playback queue.
#[derive(Debug, Clone)]
pub struct PlaybackQueue {
    pub items: Vec<QueueItem>,
    pub current_index: Option<usize>,
    pub loop_mode: LoopMode,
    pub shuffle_order: Vec<usize>,
    /// The id the next added item will get; larger than every id in use.
    pub next_id: usize,
}

/// The next track of a queue, as a function of the current index and
/// loop mode; `None` when no track is available.
pub open spec fn next_index_spec(q: PlaybackQueue) -> Option<usize> {
    match q.current_index {
        None => None,
        Some(cur) => {
            let n = q.items@.len() as int;
            if n == 0 {
                None
            } else {
                match q.loop_mode {
                    LoopMode::Off => if cur + 1 < n { Some((cur + 1) as usize) } else { None },
                    LoopMode::RepeatOne => Some(cur),
                    LoopMode::LoopAll => Some((((cur + 1) % n)) as usize),
                    LoopMode::Shuffle => {
                        let so = q.shuffle_order@;
                        let p = find_from(so, cur, 0);
                        if p < so.len() {
                            Some(so[(p + 1) % (so.len() as int)])
                        } else if so.len() > 0 {
                            Some(so[0])
                        } else {
                            None
                        }
                    }
                }
            }
        }
    }
}

/// The previous track of a queue.
pub open spec fn prev_index_spec(q: PlaybackQueue) -> Option<usize> {
    match q.current_index {
        None => None,
        Some(cur) => {
            let n = q.items@.len() as int;
            if n == 0 {
                None
            } else {
                match q.loop_mode {
                    LoopMode::Off => if cur > 0 { Some((cur - 1) as usize) } else { None },
                    LoopMode::RepeatOne => Some(cur),
                    LoopMode::LoopAll => if cur > 0 { Some((cur - 1) as usize) }
                        else { Some((n - 1) as usize) },
                    LoopMode::Shuffle => {
                        let so = q.shuffle_order@;
                        let p = find_from(so, cur, 0);
                        if p < so.len() {
                            let pp = if p > 0 { p - 1 } else { so.len() - 1 };
                            Some(so[pp])
                        } else if so.len() > 0 {
                            Some(so[so.len() - 1])
                        } else {
                            None
                        }
                    }
                }
            }
        }
    }
}

impl PlaybackQueue {
    /// Queue invariant: the current index (when present) is in range,
    /// ids are distinct and below the next id, and while shuffling the
    /// shuffle order is a permutation of the item indices.
    pub open spec fn wf(self) -> bool {
        (match self.current_index {
            Some(i) => i < self.items@.len(),
            None => true,
        })
            && (forall|i: int, j: int| 0 <= i < j < self.items@.len()
                ==> (#[trigger] self.items@[i]).id != (#[trigger] self.items@[j]).id)
            && (forall|i: int| 0 <= i < self.items@.len()
                ==> (#[trigger] self.items@[i]).id < self.next_id)
            && (self.loop_mode == LoopMode::Shuffle
                ==> is_permutation(self.shuffle_order@, self.items@.len() as int))
    }

    /// An empty queue with loop mode off.
    pub fn new() -> (r: PlaybackQueue)
        ensures
            r.items@.len() == 0,
            r.current_index is None,
            r.loop_mode == LoopMode::Off,
            r.shuffle_order@.len() == 0,
            r.next_id == 0,
            r.wf(),
    {
        PlaybackQueue {
            items: Vec::new(),
            current_index: None,
            loop_mode: LoopMode::Off,
            shuffle_order: Vec::new(),
            next_id: 0,
        }
    }

    /// Append paths to the queue, assigning fresh increasing ids, and
    /// return the assigned ids. Reshuffles when in shuffle mode.
    #[verifier::loop_isolation(false)]
    pub fn add(&mut self, paths: Vec<String>) -> (ids: Vec<usize>)
        requires
            old(self).wf(),
            old(self).next_id + paths@.len() <= usize::MAX,
        ensures
            final(self).items@.len() == old(self).items@.len() + paths@.len(),
            forall|i: int| 0 <= i < old(self).items@.len()
                ==> final(self).items@[i] == old(self).items@[i],
            forall|i: int| 0 <= i < paths@.len() ==> {
                let it = #[trigger] final(self).items@[old(self).items@.len() + i];
                it.id == old(self).next_id + i
                    && it.path == paths@[i]
                    && it.metadata is None
            },
            ids@.len() == paths@.len(),
            forall|i: int| 0 <= i < ids@.len()
                ==> #[trigger] ids@[i] == old(self).next_id + i,
            final(self).next_id == old(self).next_id + paths@.len(),
            final(self).current_index == old(self).current_index,
            final(self).loop_mode == old(self).loop_mode,
            final(self).loop_mode == LoopMode::Shuffle
                ==> is_permutation(final(self).shuffle_order@, final(self).items@.len() as int),
            final(self).loop_mode != LoopMode::Shuffle
                ==> final(self).shuffle_order == old(self).shuffle_order,
            final(self).wf(),
    {
        let ghost paths0 = paths@;
        let mut ids: Vec<usize> = Vec::new();
        let n = paths.len();
        let mut i: usize = 0;
        let mut paths = paths;
        while i < n
            invariant
                0 <= i <= n,
                n == paths0.len(),
                paths@ == paths0.subrange(i as int, n as int),
                ids@.len() == i as int,
                forall|j: int| 0 <= j < i as int
                    ==> #[trigger] ids@[j] == old(self).next_id + j,
                self.items@.len() == old(self).items@.len() + i,
                forall|j: int| 0 <= j < old(self).items@.len()
                    ==> #[trigger] self.items@[j] == old(self).items@[j],
                forall|j: int| 0 <= j < i as int ==> {
                    let it = #[trigger] self.items@[old(self).items@.len() + j];
                    it.id == old(self).next_id + j
                        && it.path == paths0[j]
                        && it.metadata is None
                },
                self.next_id == old(self).next_id + i,
                self.current_index == old(self).current_index,
                self.loop_mode == old(self).loop_mode,
                self.shuffle_order == old(self).shuffle_order,
            decreases n - i,
        {
            let ghost pre = paths@;
            let path = paths.remove(0);
            proof {
                assert(path == paths0[i as int]);
                assert(paths@ =~= paths0.subrange(i as int + 1, n as int)) by {
                    assert(paths@ == pre.remove(0));
                }
            }
            let id = self.next_id;
            self.next_id = self.next_id + 1;
            self.items.push(QueueItem { id, path, metadata: None });
            ids.push(id);
            i = i + 1;
        }
        proof {
            let fitems = self.items@;
            let oitems = old(self).items@;
            let on = oitems.len() as int;
            assert forall|a: int, b: int| 0 <= a < b < fitems.len()
                implies (#[trigger] fitems[a]).id != (#[trigger] fitems[b]).id by {
                if a >= on {
                    assert(fitems[oitems.len() + (a - on)].id
                        == old(self).next_id + (a - on));
                }
                if b >= on {
                    assert(fitems[oitems.len() + (b - on)].id
                        == old(self).next_id + (b - on));
                }
                if a < on && b >= on {
                    assert(oitems[a].id < old(self).next_id);
                }
            }
            assert forall|a: int| 0 <= a < fitems.len()
                implies (#[trigger] fitems[a]).id < self.next_id by {
                if a >= on {
                    assert(fitems[oitems.len() + (a - on)].id
                        == old(self).next_id + (a - on));
                } else {
                    assert(oitems[a].id < old(self).next_id);
                }
            }
        }
        if self.loop_mode == LoopMode::Shuffle {
            self.reshuffle();
        }
        ids
    }

    /// Remove the item with the given id; returns whether it was found.
    /// Removing before the current track shifts the index down; removing
    /// the current track clamps the index into the shorter queue (or
    /// clears it when the queue empties). Reshuffles when shuffling.
    #[verifier::loop_isolation(false)]
    pub fn remove(&mut self, id: usize) -> (found: bool)
        requires old(self).wf(),
        ensures
            found <==> (exists|i: int| 0 <= i < old(self).items@.len()
                && (#[trigger] old(self).items@[i]).id == id),
            !found ==> *final(self) == *old(self),
            found ==> ({
                let pos = choose|i: int| 0 <= i < old(self).items@.len()
                    && (#[trigger] old(self).items@[i]).id == id;
                final(self).items@ == old(self).items@.remove(pos)
                    && final(self).items@.len() == old(self).items@.len() - 1
                    && final(self).current_index == (match old(self).current_index {
                        None => None::<usize>,
                        Some(idx) => {
                            if pos < idx { Some((idx - 1) as usize) }
                            else if pos == idx {
                                if old(self).items@.len() == 1 { None }
                                else if idx == old(self).items@.len() - 1 {
                                    Some((idx - 1) as usize)
                                } else { Some(idx) }
                            }
                            else { Some(idx) }
                        }
                    })
            }),
            final(self).loop_mode == old(self).loop_mode,
            final(self).next_id == old(self).next_id,
            final(self).wf(),
    {
        let n = self.items.len();
        let mut pos: usize = 0;
        while pos < n
            invariant
                0 <= pos <= n,
                n == self.items@.len(),
                forall|j: int| 0 <= j < pos as int
                    ==> (#[trigger] self.items@[j]).id != id,
                *self == *old(self),
            decreases n - pos,
        {
            if self.items[pos].id == id {
                break;
            }
            pos = pos + 1;
        }
        if pos >= n {
            return false;
        }
        proof {
            let ghost p = choose|i: int| 0 <= i < old(self).items@.len()
                && (#[trigger] old(self).items@[i]).id == id;
            assert(p == pos as int);
        }
        self.items.remove(pos);
        match self.current_index {
            Some(idx) => {
                if pos < idx {
                    self.current_index = Some(idx - 1);
                } else if pos == idx {
                    if self.items.len() == 0 {
                        self.current_index = None;
                    } else if idx >= self.items.len() {
                        self.current_index = Some(self.items.len() - 1);
                    }
                }
            }
            None => {}
        }
        if self.loop_mode == LoopMode::Shuffle {
            self.reshuffle();
        }
        proof {
            let fitems = self.items@;
            let oitems = old(self).items@;
            assert forall|i: int, j: int| 0 <= i < j < fitems.len()
                implies (#[trigger] fitems[i]).id != (#[trigger] fitems[j]).id by {
                if i < pos as int {
                    assert(fitems[i] == oitems[i]);
                } else {
                    assert(fitems[i] == oitems[i + 1]);
                }
                if j < pos as int {
                    assert(fitems[j] == oitems[j]);
                } else {
                    assert(fitems[j] == oitems[j + 1]);
                }
            }
            assert forall|i: int| 0 <= i < fitems.len()
                implies (#[trigger] fitems[i]).id < self.next_id by {
                if i < pos as int {
                    assert(fitems[i] == oitems[i]);
                } else {
                    assert(fitems[i] == oitems[i + 1]);
                }
            }
        }
        true
    }

    /// Empty the queue entirely.
    pub fn clear(&mut self)
        ensures
            final(self).items@.len() == 0,
            final(self).current_index is None,
            final(self).shuffle_order@.len() == 0,
            final(self).loop_mode == old(self).loop_mode,
            final(self).next_id == old(self).next_id,
            final(self).wf(),
    {
        self.items.clear();
        self.current_index = None;
        self.shuffle_order.clear();
    }

    /// The next track index under the current loop mode, if any.
    #[verifier::loop_isolation(false)]
    pub fn next_index(&self) -> (r: Option<usize>)
        requires self.wf(),
        ensures
            r == next_index_spec(*self),
            r is Some ==> r.unwrap() < self.items@.len()
                || self.loop_mode == LoopMode::Shuffle,
    {
        let cur = match self.current_index {
            Some(c) => c,
            None => { return None; }
        };
        let n = self.items.len();
        if n == 0 {
            return None;
        }
        match self.loop_mode {
            LoopMode::Off => {
                if cur + 1 < n { Some(cur + 1) } else { None }
            }
            LoopMode::RepeatOne => Some(cur),
            LoopMode::LoopAll => Some((cur + 1) % n),
            LoopMode::Shuffle => {
                let sn = self.shuffle_order.len();
                let mut p: usize = 0;
                while p < sn
                    invariant
                        0 <= p <= sn,
                        sn == self.shuffle_order@.len(),
                        forall|j: int| 0 <= j < p as int
                            ==> (#[trigger] self.shuffle_order@[j]) != cur,
                        find_from(self.shuffle_order@, cur, 0)
                            == find_from(self.shuffle_order@, cur, p as int),
                    decreases sn - p,
                {
                    if self.shuffle_order[p] == cur {
                        break;
                    }
                    p = p + 1;
                }
                if p < sn {
                    Some(self.shuffle_order[(p + 1) % sn])
                } else if sn > 0 {
                    Some(self.shuffle_order[0])
                } else {
                    None
                }
            }
        }
    }

    /// The previous track index under the current loop mode, if any.
    #[verifier::loop_isolation(false)]
    pub fn prev_index(&self) -> (r: Option<usize>)
        requires self.wf(),
        ensures r == prev_index_spec(*self),
    {
        let cur = match self.current_index {
            Some(c) => c,
            None => { return None; }
        };
        let n = self.items.len();
        if n == 0 {
            return None;
        }
        match self.loop_mode {
            LoopMode::Off => {
                if cur > 0 { Some(cur - 1) } else { None }
            }
            LoopMode::RepeatOne => Some(cur),
            LoopMode::LoopAll => {
                if cur > 0 { Some(cur - 1) } else { Some(n - 1) }
            }
            LoopMode::Shuffle => {
                let sn = self.shuffle_order.len();
                let mut p: usize = 0;
                while p < sn
                    invariant
                        0 <= p <= sn,
                        sn == self.shuffle_order@.len(),
                        forall|j: int| 0 <= j < p as int
                            ==> (#[trigger] self.shuffle_order@[j]) != cur,
                        find_from(self.shuffle_order@, cur, 0)
                            == find_from(self.shuffle_order@, cur, p as int),
                    decreases sn - p,
                {
                    if self.shuffle_order[p] == cur {
                        break;
                    }
                    p = p + 1;
                }
                if p < sn {
                    let pp = if p > 0 { p - 1 } else { sn - 1 };
                    Some(self.shuffle_order[pp])
                } else if sn > 0 {
                    Some(self.shuffle_order[sn - 1])
                } else {
                    None
                }
            }
        }
    }

    /// Regenerate the shuffle order: the identity permutation shuffled
    /// by Fisher–Yates. The current index is untouched; only the order
    /// of future steps changes.
    #[verifier::loop_isolation(false)]
    pub fn reshuffle(&mut self)
        ensures
            is_permutation(final(self).shuffle_order@, old(self).items@.len() as int),
            final(self).items == old(self).items,
            final(self).current_index == old(self).current_index,
            final(self).loop_mode == old(self).loop_mode,
            final(self).next_id == old(self).next_id,
    {
        let n = self.items.len();
        let mut order: Vec<usize> = Vec::new();
        let mut i: usize = 0;
        while i < n
            invariant
                0 <= i <= n,
                order@.len() == i as int,
                forall|j: int| 0 <= j < i as int ==> #[trigger] order@[j] == j,
            decreases n - i,
        {
            order.push(i);
            i = i + 1;
        }
        proof {
            assert forall|v: usize| v < n implies order@.contains(v) by {
                assert(order@[v as int] == v);
            }
            assert(is_permutation(order@, n as int));
        }
        if n > 1 {
            let mut i: usize = n - 1;
            while i >= 1
                invariant
                    0 <= i <= n - 1,
                    order@.len() == n as int,
                    is_permutation(order@, n as int),
                decreases i,
            {
                let j = rand_below(i + 1);
                let a = order[i];
                let b = order[j];
                let ghost pre = order@;
                order.set(i, b);
                order.set(j, a);
                proof {
                    lemma_swap_preserves_permutation(pre, order@, n as int, i as int, j as int);
                }
                i = i - 1;
            }
        }
        self.shuffle_order = order;
    }

    /// The current track, if the current index points at one.
    pub fn current(&self) -> (r: Option<&QueueItem>)
        ensures
            r == (match self.current_index {
                Some(i) => if i < self.items@.len() { Some(&self.items@[i as int]) }
                    else { None },
                None => None::<&QueueItem>,
            }),
    {
        match self.current_index {
            Some(i) => {
                if i < self.items.len() {
                    Some(&self.items[i])
                } else {
                    None
                }
            }
            None => None,
        }
    }

    /// The item at a queue index, if in range.
    pub fn get(&self, index: usize) -> (r: Option<&QueueItem>)
        ensures
            r == (if index < self.items@.len() { Some(&self.items@[index as int]) }
                else { None::<&QueueItem> }),
    {
        if index < self.items.len() {
            Some(&self.items[index])
        } else {
            None
        }
    }

    /// Attach metadata to the item with the given id, if present.
    #[verifier::loop_isolation(false)]
    pub fn set_metadata(&mut self, id: usize, metadata: AudioMetadata)
        requires old(self).wf(),
        ensures
            final(self).items@.len() == old(self).items@.len(),
            forall|i: int| 0 <= i < final(self).items@.len() ==> {
                let it = #[trigger] final(self).items@[i];
                let o = old(self).items@[i];
                it.id == o.id && it.path == o.path
                    && (o.id != id ==> it == o)
                    && (o.id == id ==> it.metadata == Some(metadata))
            },
            final(self).current_index == old(self).current_index,
            final(self).loop_mode == old(self).loop_mode,
            final(self).shuffle_order == old(self).shuffle_order,
            final(self).next_id == old(self).next_id,
            final(self).wf(),
    {
        let n = self.items.len();
        let mut pos: usize = 0;
        while pos < n
            invariant
                0 <= pos <= n,
                n == self.items@.len(),
                forall|j: int| 0 <= j < pos as int
                    ==> (#[trigger] self.items@[j]).id != id,
                *self == *old(self),
            decreases n - pos,
        {
            if self.items[pos].id == id {
                let it = &mut self.items[pos];
                it.metadata = Some(metadata);
                return;
            }
            pos = pos + 1;
        }
    }
}

impl QueueItem {
    /// An equal copy of the item.
    pub fn duplicate(&self) -> (r: QueueItem)
        ensures r == *self,
    {
        QueueItem {
            id: self.id,
            path: self.path.clone(),
            metadata: match &self.metadata {
                Some(m) => Some(m.duplicate()),
                None => None,
            },
        }
    }
}

/// An equal copy of a queue's item list (sent to the interface whenever
/// the queue changes).
pub fn snapshot_items(items: &Vec<QueueItem>) -> (r: Vec<QueueItem>)
    ensures r@ == items@,
{
    let mut out: Vec<QueueItem> = Vec::new();
    let n = items.len();
    let mut i: usize = 0;
    while i < n
        invariant
            0 <= i <= n,
            n == items@.len(),
            out@ == items@.subrange(0, i as int),
        decreases n - i,
    {
        out.push(items[i].duplicate());
        proof {
            assert(out@ =~= items@.subrange(0, i + 1));
        }
        i = i + 1;
    }
    proof {
        assert(out@ =~= items@);
    }
    out
}

/// Swapping two entries preserves being a permutation.
proof fn lemma_swap_preserves_permutation(
    pre: Seq<usize>, post: Seq<usize>, n: int, i: int, j: int,
)
    requires
        is_permutation(pre, n),
        0 <= i < n, 0 <= j < n,
        post == pre.update(i, pre[j]).update(j, pre[i]),
    ensures is_permutation(post, n),
{
    assert(post.len() == n);
    assert forall|v: usize| v < n implies post.contains(v) by {
        assert(pre.contains(v));
        let k = choose|k: int| 0 <= k < pre.len() && pre[k] == v;
        if k == i {
            assert(post[j] == v);
        } else if k == j {
            assert(post[i] == v);
        } else {
            assert(post[k] == v);
        }
    }
    assert forall|a: int, b: int| 0 <= a < b < post.len()
        implies post[a] != post[b] by {
        let pa = if a == i { j } else if a == j { i } else { a };
        let pb = if b == i { j } else if b == j { i } else { b };
        assert(post[a] == pre[pa]);
        assert(post[b] == pre[pb]);
        if pa < pb {
            assert(pre[pa] != pre[pb]);
        } else if pb < pa {
            assert(pre[pb] != pre[pa]);
        } else {
            assert(false);
        }
    }
}

/// Advancing and then stepping back returns to the starting track, for
/// every loop mode but repeat-one (which is its own inverse) whenever
/// the queue is non-empty: if `next_index` yields j, then the same queue
/// with j as its current index yields the original index from
/// `prev_index`.
pub proof fn lemma_next_prev_inverse(q: PlaybackQueue, j: usize)
    requires
        q.wf(),
        0 < q.items@.len() <= usize::MAX,
        q.shuffle_order@.len() <= usize::MAX,
        q.current_index is Some,
        q.loop_mode != LoopMode::RepeatOne,
        next_index_spec(q) == Some(j),
    ensures
        prev_index_spec(PlaybackQueue { current_index: Some(j), ..q })
            == Some(q.current_index.unwrap()),
{
    let cur = q.current_index.unwrap();
    let n = q.items@.len() as int;
    let q2 = PlaybackQueue { current_index: Some(j), ..q };
    match q.loop_mode {
        LoopMode::Off => {
            assert(j == cur + 1);
        }
        LoopMode::RepeatOne => {}
        LoopMode::LoopAll => {
            if cur + 1 < n {
                assert((cur + 1) % n == cur + 1) by {
                    vstd::arithmetic::div_mod::lemma_small_mod((cur + 1) as nat, n as nat);
                };
                assert(j == cur + 1);
            } else {
                assert(cur == n - 1);
                assert((cur + 1) % n == 0) by {
                    assert(cur + 1 == n);
                    assert(n % n == 0) by {
                        vstd::arithmetic::div_mod::lemma_mod_self_0(n);
                    };
                };
                assert(j == 0);
            }
        }
        LoopMode::Shuffle => {
            let so = q.shuffle_order@;
            assert(is_permutation(so, n));
            assert(so.contains(cur)) by {
                assert(cur < n);
            };
            let p = find_from(so, cur, 0);
            lemma_find_from_finds(so, cur, 0);
            assert(p < so.len());
            let pn = (p + 1) % (so.len() as int);
            assert(0 <= pn < so.len()) by {
                vstd::arithmetic::div_mod::lemma_mod_bound(p + 1, so.len() as int);
            };
            assert(j == so[pn]);
            // j occurs only at pn, so the backward search finds pn
            let p2 = find_from(so, j, 0);
            lemma_find_from_finds(so, j, 0);
            assert(so.contains(j)) by {
                assert(so[pn] == j);
            };
            assert(p2 < so.len());
            assert(so[p2] == j);
            assert(p2 == pn) by {
                if p2 < pn {
                    assert(so[p2] != so[pn]);
                } else if pn < p2 {
                    assert(so[pn] != so[p2]);
                }
            };
            if p + 1 < so.len() {
                assert(pn == p + 1) by {
                    vstd::arithmetic::div_mod::lemma_small_mod((p + 1) as nat, so.len());
                };
                assert(prev_index_spec(q2) == Some(so[p]));
            } else {
                assert(p == so.len() - 1);
                assert(pn == 0) by {
                    vstd::arithmetic::div_mod::lemma_mod_self_0(so.len() as int);
                };
                assert(prev_index_spec(q2) == Some(so[so.len() - 1]));
            }
            assert(so[p] == cur);
        }
    }
}

/// Repeat-one is its own inverse: both the next and the previous track
/// of a non-empty queue in repeat-one mode are the current track itself.
pub proof fn lemma_repeat_one_self_inverse(q: PlaybackQueue)
    requires
        q.wf(),
        q.items@.len() > 0,
        q.current_index is Some,
        q.loop_mode == LoopMode::RepeatOne,
    ensures
        next_index_spec(q) == q.current_index,
        prev_index_spec(q) == q.current_index,
{
}

/// `find_from` starting at zero finds the first occurrence: when the
/// value occurs, the returned index holds it and is in range; when it
/// does not, the length is returned.
pub proof fn lemma_find_from_finds(s: Seq<usize>, v: usize, i: int)
    requires 0 <= i <= s.len(),
    ensures
        ({
            let p = find_from(s, v, i);
            (i <= p <= s.len())
                && (p < s.len() ==> s[p] == v)
                && (forall|k: int| i <= k < p ==> s[k] != v)
                && ((exists|k: int| i <= k < s.len() && s[k] == v) ==> p < s.len())
        }),
    decreases s.len() - i
{
    if i < s.len() && s[i] != v {
        lemma_find_from_finds(s, v, i + 1);
    }
}

} // verus!
