//! A map keyed by socket handles.
use crate::sockets::same_handle;
use smoltcp::socket::SocketHandle;
use vstd::prelude::*;

verus! {

/// A map from socket handles to values of type `V`: its entries in the order in which their
/// handles first came, no handle twice.
pub struct HandleMap<V> {
    entries: Vec<(SocketHandle, V)>,
}

/// No handle occurs twice.
pub open spec fn distinct_handles<V>(entries: Seq<(SocketHandle, V)>) -> bool {
    forall|i: int, j: int| 0 <= i < j < entries.len() ==> entries[i].0 != entries[j].0
}

/// `h` is the handle of some entry.
pub open spec fn has_handle<V>(entries: Seq<(SocketHandle, V)>, h: SocketHandle) -> bool {
    exists|i: int| 0 <= i < entries.len() && (#[trigger] entries[i]).0 == h
}

/// The map that a sequence of entries stands for.
pub open spec fn entries_map<V>(entries: Seq<(SocketHandle, V)>) -> Map<SocketHandle, V> {
    Map::new(
        |h: SocketHandle| has_handle(entries, h),
        |h: SocketHandle|
            entries[choose|i: int| 0 <= i < entries.len() && (#[trigger] entries[i]).0 == h].1,
    )
}

proof fn lemma_entry<V>(entries: Seq<(SocketHandle, V)>, i: int)
    requires
        distinct_handles(entries),
        0 <= i < entries.len(),
    ensures
        entries_map(entries).contains_key(entries[i].0),
        entries_map(entries)[entries[i].0] == entries[i].1,
{
    let h = entries[i].0;
    assert(has_handle(entries, h));
    let j = choose|j: int| 0 <= j < entries.len() && (#[trigger] entries[j]).0 == h;
    assert(j == i);
}

impl<V> View for HandleMap<V> {
    type V = Map<SocketHandle, V>;

    closed spec fn view(&self) -> Map<SocketHandle, V> {
        entries_map(self.entries@)
    }
}

impl<V> HandleMap<V> {
    #[verifier::type_invariant]
    spec fn inv(self) -> bool {
        distinct_handles(self.entries@)
    }

    /// An empty map.
    pub fn new() -> (r: HandleMap<V>)
        ensures
            r@.dom() == Set::<SocketHandle>::empty(),
    {
        let r = HandleMap { entries: Vec::new() };
        assert(r@.dom() =~= Set::empty());
        r
    }

    /// The place of the entry with the handle `handle`.
    fn position(&self, handle: &SocketHandle) -> (r: Option<usize>)
        ensures
            r is Some <==> self@.contains_key(*handle),
            r matches Some(i) ==> i < self.entries@.len() && self.entries@[i as int].0 == *handle
                && self.entries@[i as int].1 == self@[*handle],
    {
        proof {
            use_type_invariant(self);
        }
        let mut i: usize = 0;
        while i < self.entries.len()
            invariant
                i <= self.entries@.len(),
                distinct_handles(self.entries@),
                forall|j: int| 0 <= j < i ==> self.entries@[j].0 != *handle,
            decreases self.entries@.len() - i,
        {
            if same_handle(&self.entries[i].0, handle) {
                proof {
                    lemma_entry(self.entries@, i as int);
                }
                return Some(i);
            }
            i += 1;
        }
        None
    }

    /// The value of the handle `handle`.
    pub fn get(&self, handle: &SocketHandle) -> (r: Option<&V>)
        ensures
            r is Some <==> self@.contains_key(*handle),
            r matches Some(v) ==> *v == self@[*handle],
    {
        match self.position(handle) {
            Some(i) => Some(&self.entries[i].1),
            None => None,
        }
    }

    /// Gives the handle `handle` the value `value`, in place of the one it had.
    pub fn insert(&mut self, handle: SocketHandle, value: V)
        ensures
            final(self)@ == old(self)@.insert(handle, value),
    {
        let found = self.position(&handle);
        proof {
            use_type_invariant(&*self);
        }
        let mut entries: Vec<(SocketHandle, V)> = Vec::new();
        std::mem::swap(&mut entries, &mut self.entries);
        let ghost before = entries@;
        match found {
            Some(i) => {
                entries.set(i, (handle, value));
                proof {
                    lemma_replaced(before, i as int, value);
                }
            },
            None => {
                entries.push((handle, value));
                proof {
                    lemma_pushed(before, handle, value);
                }
            },
        }
        self.entries = entries;
    }

    /// The handles of the map, each once.
    pub fn handles(&self) -> (r: Vec<SocketHandle>)
        ensures
            r@.no_duplicates(),
            r@.to_set() == self@.dom(),
    {
        proof {
            use_type_invariant(self);
        }
        let mut r: Vec<SocketHandle> = Vec::new();
        let mut i: usize = 0;
        while i < self.entries.len()
            invariant
                i <= self.entries@.len(),
                distinct_handles(self.entries@),
                r@.len() == i,
                forall|j: int| 0 <= j < i ==> r@[j] == self.entries@[j].0,
            decreases self.entries@.len() - i,
        {
            r.push(self.entries[i].0);
            i += 1;
        }
        proof {
            assert forall|h: SocketHandle| r@.to_set().contains(h) == self@.dom().contains(h) by {
                if self@.dom().contains(h) {
                    let j = choose|j: int|
                        0 <= j < self.entries@.len() && (#[trigger] self.entries@[j]).0 == h;
                    assert(r@[j] == h);
                }
                if r@.contains(h) {
                    let j = choose|j: int| 0 <= j < r@.len() && r@[j] == h;
                    lemma_entry(self.entries@, j);
                }
            }
            assert(r@.to_set() =~= self@.dom());
        }
        r
    }
}

proof fn lemma_replaced<V>(entries: Seq<(SocketHandle, V)>, i: int, value: V)
    requires
        distinct_handles(entries),
        0 <= i < entries.len(),
    ensures
        distinct_handles(entries.update(i, (entries[i].0, value))),
        entries_map(entries.update(i, (entries[i].0, value))) == entries_map(entries).insert(
            entries[i].0,
            value,
        ),
{
    let h = entries[i].0;
    let after = entries.update(i, (h, value));
    assert forall|k: SocketHandle| #[trigger] entries_map(after).contains_key(k)
        <==> entries_map(entries).insert(h, value).contains_key(k) by {
        if has_handle(after, k) {
            let j = choose|j: int| 0 <= j < after.len() && (#[trigger] after[j]).0 == k;
            lemma_entry(entries, j);
        }
        if has_handle(entries, k) {
            let j = choose|j: int| 0 <= j < entries.len() && (#[trigger] entries[j]).0 == k;
            lemma_entry(after, j);
        }
        lemma_entry(after, i);
    }
    assert forall|k: SocketHandle| #[trigger] entries_map(after).contains_key(k) implies entries_map(
        after,
    )[k] == entries_map(entries).insert(h, value)[k] by {
        let j = choose|j: int| 0 <= j < after.len() && (#[trigger] after[j]).0 == k;
        lemma_entry(after, j);
        lemma_entry(entries, j);
    }
    assert(entries_map(after) =~= entries_map(entries).insert(h, value));
}

proof fn lemma_pushed<V>(entries: Seq<(SocketHandle, V)>, h: SocketHandle, value: V)
    requires
        distinct_handles(entries),
        !entries_map(entries).contains_key(h),
    ensures
        distinct_handles(entries.push((h, value))),
        entries_map(entries.push((h, value))) == entries_map(entries).insert(h, value),
{
    let after = entries.push((h, value));
    assert(!has_handle(entries, h));
    assert(distinct_handles(after));
    assert forall|k: SocketHandle| #[trigger] entries_map(after).contains_key(k)
        <==> entries_map(entries).insert(h, value).contains_key(k) by {
        if has_handle(after, k) {
            let j = choose|j: int| 0 <= j < after.len() && (#[trigger] after[j]).0 == k;
            if j < entries.len() {
                lemma_entry(entries, j);
            }
        }
        if has_handle(entries, k) {
            let j = choose|j: int| 0 <= j < entries.len() && (#[trigger] entries[j]).0 == k;
            lemma_entry(after, j);
        }
        lemma_entry(after, entries.len() as int);
    }
    assert forall|k: SocketHandle| #[trigger] entries_map(after).contains_key(k) implies entries_map(
        after,
    )[k] == entries_map(entries).insert(h, value)[k] by {
        let j = choose|j: int| 0 <= j < after.len() && (#[trigger] after[j]).0 == k;
        lemma_entry(after, j);
        if j < entries.len() {
            lemma_entry(entries, j);
        }
    }
    assert(entries_map(after) =~= entries_map(entries).insert(h, value));
}

} // verus!
