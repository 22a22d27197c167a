use crate::protocol::JsonRpcId;
use vstd::prelude::*;

verus! {

/// Some entry of `p` is registered under `id`.
pub open spec fn holds_id<S>(p: Seq<(i64, S)>, id: i64) -> bool {
    exists|i: int| 0 <= i < p.len() && p[i].0 == id
}

/// No two entries of `p` share an id.
pub open spec fn ids_unique<S>(p: Seq<(i64, S)>) -> bool {
    forall|i: int, j: int| 0 <= i < p.len() && 0 <= j < p.len() && i != j ==> p[i].0 != p[j].0
}

/// The position of the entry registered under `id`.
pub open spec fn index_of<S>(p: Seq<(i64, S)>, id: i64) -> int {
    choose|i: int| 0 <= i < p.len() && p[i].0 == id
}

/// The entries once the one under `id`, if any, has been taken out.
pub open spec fn without<S>(p: Seq<(i64, S)>, id: i64) -> Seq<(i64, S)> {
    if holds_id(p, id) {
        p.remove(index_of(p, id))
    } else {
        p
    }
}

/// The slot registered under `id`, if any.
pub open spec fn slot_of<S>(p: Seq<(i64, S)>, id: i64) -> Option<S> {
    if holds_id(p, id) {
        Some(p[index_of(p, id)].1)
    } else {
        None
    }
}

/// What the reader of a backend's output made of one line.
#[derive(Debug, Clone)]
pub enum LineEvent {
    /// An empty or all-blank line.
    Blank,
    /// A line that is not a well-formed response.
    Malformed,
    /// A well-formed response with the given id.
    Response(Option<JsonRpcId>),
}

/// The numeric id a line answers, if it is a response with one.
pub open spec fn answered_id(ev: LineEvent) -> Option<i64> {
    match ev {
        LineEvent::Response(Some(JsonRpcId::Number(n))) => Some(n),
        _ => None,
    }
}

/// The entries after the reader has handled `ev`.
pub open spec fn after_line<S>(p: Seq<(i64, S)>, ev: LineEvent) -> Seq<(i64, S)> {
    match answered_id(ev) {
        Some(n) => without(p, n),
        None => p,
    }
}

/// The slot that the reader fulfils on `ev`, if any.
pub open spec fn fulfilled<S>(p: Seq<(i64, S)>, ev: LineEvent) -> Option<S> {
    match answered_id(ev) {
        Some(n) => slot_of(p, n),
        None => None,
    }
}

/// The requests of one connection that still wait for a response: each id
/// with its completion slot, and the next id to hand out.
#[derive(Debug)]
pub struct PendingTable<S> {
    slots: Vec<(i64, S)>,
    next_id: i64,
    closed: bool,
}

impl<S> PendingTable<S> {
    /// The waiting requests, oldest first.
    pub closed spec fn pending(&self) -> Seq<(i64, S)> {
        self.slots@
    }

    /// The id the next request gets.
    pub closed spec fn next(&self) -> i64 {
        self.next_id
    }

    /// The backend's output has ended: no response can come any more.
    pub closed spec fn is_closed(&self) -> bool {
        self.closed
    }

    /// Ids are positive, unique, and all below the next one.
    pub open spec fn wf(&self) -> bool {
        &&& 1 <= self.next()
        &&& ids_unique(self.pending())
        &&& forall|i: int| 0 <= i < self.pending().len() ==> 1 <= #[trigger] self.pending()[i].0 < self.next()
    }

    /// An empty table whose first id is 1.
    pub fn new() -> (r: Self)
        ensures
            r.wf(),
            r.pending().len() == 0,
            r.next() == 1,
            !r.is_closed(),
    {
        PendingTable { slots: Vec::new(), next_id: 1, closed: false }
    }

    /// Whether the backend's output has ended.
    pub fn closed(&self) -> (r: bool)
        ensures
            r == self.is_closed(),
    {
        self.closed
    }

    /// The id the next request will get.
    pub fn next_id(&self) -> (r: i64)
        ensures
            r == self.next(),
    {
        self.next_id
    }

    /// The number of waiting requests.
    pub fn len(&self) -> (r: usize)
        ensures
            r == self.pending().len(),
    {
        self.slots.len()
    }

    /// Hands out the next id and registers `slot` under it. Once the
    /// backend's output has ended, nothing is registered and the slot comes
    /// back.
    pub fn register(&mut self, slot: S) -> (r: Result<i64, S>)
        requires
            old(self).wf(),
            old(self).next() < i64::MAX,
        ensures
            final(self).wf(),
            final(self).is_closed() == old(self).is_closed(),
            old(self).is_closed() ==> r == Err::<i64, S>(slot) && final(self).pending() == old(
                self,
            ).pending() && final(self).next() == old(self).next(),
            !old(self).is_closed() ==> r is Ok && r->Ok_0 == old(self).next() && !holds_id(
                old(self).pending(),
                r->Ok_0,
            ) && final(self).pending() == old(self).pending().push((r->Ok_0, slot))
                && final(self).next() == r->Ok_0 + 1,
    {
        if self.closed {
            return Err(slot);
        }
        let id = self.next_id;
        self.slots.push((id, slot));
        self.next_id = id + 1;
        assert forall|i: int, j: int|
            0 <= i < self.slots@.len() && 0 <= j < self.slots@.len() && i != j implies self.slots@[i].0
            != self.slots@[j].0 by {
            if i < old(self).slots@.len() {
                assert(self.slots@[i] == old(self).pending()[i]);
            }
            if j < old(self).slots@.len() {
                assert(self.slots@[j] == old(self).pending()[j]);
            }
        }
        assert forall|i: int| 0 <= i < self.pending().len() implies 1 <= #[trigger] self.pending()[i].0 < self.next() by {
            if i < old(self).slots@.len() {
                assert(self.slots@[i] == old(self).pending()[i]);
            }
        }
        Ok(id)
    }

    /// Takes out the slot registered under `id`: on a matching response,
    /// or when its request has given up waiting.
    pub fn take(&mut self, id: i64) -> (r: Option<S>)
        requires
            old(self).wf(),
        ensures
            final(self).wf(),
            final(self).pending() == without(old(self).pending(), id),
            r == slot_of(old(self).pending(), id),
            final(self).next() == old(self).next(),
            final(self).is_closed() == old(self).is_closed(),
            !holds_id(final(self).pending(), id),
            old(self).pending().len() > 0 && old(self).pending().last().0 == id
                ==> final(self).pending() == old(self).pending().drop_last()
                && r == Some(old(self).pending().last().1),
    {
        let mut i: usize = 0;
        while i < self.slots.len()
            invariant
                i <= self.slots@.len(),
                self.slots@ == old(self).slots@,
                self.next_id == old(self).next_id,
                self.closed == old(self).closed,
                old(self).wf(),
                forall|j: int| 0 <= j < i ==> self.slots@[j].0 != id,
            decreases self.slots@.len() - i,
        {
            if self.slots[i].0 == id {
                proof {
                    let k = index_of(old(self).pending(), id);
                    assert(holds_id(old(self).pending(), id));
                    if k != i {
                        assert(old(self).pending()[k].0 != old(self).pending()[i as int].0);
                    }
                }
                let (_, slot) = self.slots.remove(i);
                proof {
                    let n = old(self).pending().len() as int;
                    if old(self).pending().last().0 == id && i as int != n - 1 {
                        assert(old(self).pending()[n - 1].0 != old(self).pending()[i as int].0);
                    }
                    if old(self).pending().last().0 == id {
                        assert(self.slots@ =~= old(self).pending().drop_last());
                    }
                    assert forall|a: int, b: int|
                        0 <= a < self.slots@.len() && 0 <= b < self.slots@.len() && a != b implies self.slots@[a].0
                        != self.slots@[b].0 by {
                        let a2 = if a < i { a } else { a + 1 };
                        let b2 = if b < i { b } else { b + 1 };
                        assert(self.slots@[a] == old(self).pending()[a2]);
                        assert(self.slots@[b] == old(self).pending()[b2]);
                    }
                    assert forall|a: int| 0 <= a < self.pending().len() implies 1 <= #[trigger] self.pending()[a].0 < self.next() by {
                        let a2 = if a < i { a } else { a + 1 };
                        assert(self.slots@[a] == old(self).pending()[a2]);
                    }
                    assert forall|a: int| 0 <= a < self.slots@.len() implies self.slots@[a].0 != id by {
                        let a2 = if a < i { a } else { a + 1 };
                        assert(self.slots@[a] == old(self).pending()[a2]);
                        assert(old(self).pending()[a2].0 != old(self).pending()[i as int].0);
                    }
                }
                return Some(slot);
            }
            i = i + 1;
        }
        None
    }

    /// Handles one line of the backend's output: a response with a numeric
    /// id fulfils and removes the slot under that id; every other line,
    /// blank, malformed, or answering an unknown id, leaves the table as it is.
    pub fn on_line(&mut self, ev: &LineEvent) -> (r: Option<S>)
        requires
            old(self).wf(),
        ensures
            final(self).wf(),
            final(self).pending() == after_line(old(self).pending(), *ev),
            r == fulfilled(old(self).pending(), *ev),
            final(self).next() == old(self).next(),
            final(self).is_closed() == old(self).is_closed(),
    {
        match ev {
            LineEvent::Response(Some(JsonRpcId::Number(n))) => self.take(*n),
            _ => None,
        }
    }

    /// Takes out every slot, oldest first, and refuses new ones from then
    /// on: the backend's output has ended and no response can come any more.
    pub fn close_all(&mut self) -> (r: Vec<S>)
        requires
            old(self).wf(),
        ensures
            final(self).wf(),
            final(self).pending().len() == 0,
            r@ == old(self).pending().map_values(|e: (i64, S)| e.1),
            final(self).next() == old(self).next(),
            final(self).is_closed(),
    {
        self.closed = true;
        let mut taken: Vec<(i64, S)> = Vec::new();
        std::mem::swap(&mut taken, &mut self.slots);
        let mut r: Vec<S> = Vec::new();
        let ghost all = taken@;
        let n = taken.len();
        let mut k: usize = 0;
        while taken.len() > 0
            invariant
                all.len() == n,
                k + taken@.len() == all.len(),
                taken@ == all.skip(k as int),
                r@ == all.take(k as int).map_values(|e: (i64, S)| e.1),
            decreases taken@.len(),
        {
            let (_, s) = taken.remove(0);
            r.push(s);
            assert(all.take(k + 1).map_values(|e: (i64, S)| e.1) =~= all.take(k as int).map_values(
                |e: (i64, S)| e.1,
            ).push(all[k as int].1));
            k = k + 1;
            assert(taken@ =~= all.skip(k as int));
        }
        assert(all.take(k as int) =~= all);
        r
    }
}

/// A line that is blank or malformed changes nothing, so a well-formed
/// response that comes after it still fulfils the slot waiting under its id.
pub proof fn lemma_bad_line_then_response<S>(p: Seq<(i64, S)>, bad: LineEvent, id: i64, slot: S)
    requires
        ids_unique(p),
        p.contains((id, slot)),
        bad is Blank || bad is Malformed,
    ensures
        after_line(p, bad) == p,
        fulfilled(after_line(p, bad), LineEvent::Response(Some(JsonRpcId::Number(id)))) == Some(slot),
        !holds_id(after_line(after_line(p, bad), LineEvent::Response(Some(JsonRpcId::Number(id)))), id),
{
    let i = choose|i: int| 0 <= i < p.len() && p[i] == (id, slot);
    assert(holds_id(p, id));
    let k = index_of(p, id);
    if k != i {
        assert(p[k].0 != p[i].0);
    }
    lemma_without_removes(p, id);
}

/// Once the slot under `id` is taken out, no entry under `id` remains.
proof fn lemma_without_removes<S>(p: Seq<(i64, S)>, id: i64)
    requires
        ids_unique(p),
    ensures
        !holds_id(without(p, id), id),
{
    if holds_id(p, id) {
        let k = index_of(p, id);
        let q = without(p, id);
        assert forall|a: int| 0 <= a < q.len() implies q[a].0 != id by {
            let a2 = if a < k { a } else { a + 1 };
            assert(q[a] == p[a2]);
            assert(p[a2].0 != p[k].0);
        }
    }
}

/// A request that gives up waiting leaves no trace: registering a slot under
/// the next id and then taking that id out again gives back the table as it
/// was, and the id after it is fresh too.
pub proof fn lemma_expired_request_leaves_no_entry<S>(p: Seq<(i64, S)>, next: i64, slot: S)
    requires
        ids_unique(p),
        forall|i: int| 0 <= i < p.len() ==> p[i].0 < next,
    ensures
        without(p.push((next, slot)), next) == p,
        slot_of(p.push((next, slot)), next) == Some(slot),
        !holds_id(p, next),
{
    let q = p.push((next, slot));
    assert(q[p.len() as int].0 == next);
    assert(holds_id(q, next));
    let k = index_of(q, next);
    if k < p.len() {
        assert(q[k] == p[k]);
    }
    assert(k == p.len());
    assert(q.remove(k) =~= p);
}

} // verus!
