//! A single-snapshot in-memory cache slot, as kept for the mod and author
//! collections.
use vstd::prelude::*;

verus! {

/// Whether `b` holds, position by position, clones of the items of `a`.
pub open spec fn clones_of<T: Clone>(a: Seq<T>, b: Seq<T>) -> bool {
    a.len() == b.len() && forall|i: int| 0 <= i < a.len() ==> cloned(#[trigger] a[i], b[i])
}

/// The state of a slot: whether caching is enabled, and the snapshot held.
pub type SlotState<T> = (bool, Option<Seq<T>>);

/// A read is answered from the slot, without a fetch.
pub open spec fn serves<T>(s: SlotState<T>) -> bool {
    s.0 && s.1 is Some
}

/// The slot after a read that missed and fetched `fetched`: the snapshot is
/// kept only when caching is enabled.
pub open spec fn after_fetch<T>(s: SlotState<T>, fetched: Seq<T>) -> SlotState<T> {
    if s.0 {
        (s.0, Some(fetched))
    } else {
        s
    }
}

/// The slot after a forced refresh that fetched `fetched`.
pub open spec fn after_refresh<T>(s: SlotState<T>, fetched: Seq<T>) -> SlotState<T> {
    (s.0, Some(fetched))
}

/// The slot after it is cleared.
pub open spec fn after_clear<T>(s: SlotState<T>) -> SlotState<T> {
    (s.0, None)
}

/// One cache slot holding at most one snapshot of a collection.
#[derive(Debug)]
pub struct CacheSlot<T> {
    enabled: bool,
    snapshot: Option<Vec<T>>,
}

impl<T> View for CacheSlot<T> {
    type V = SlotState<T>;

    closed spec fn view(&self) -> SlotState<T> {
        (
            self.enabled,
            match self.snapshot {
                Some(v) => Some(v@),
                None => None,
            },
        )
    }
}

impl<T: Clone> CacheSlot<T> {
    /// An empty slot; it serves reads only when `enabled`.
    pub fn new(enabled: bool) -> (r: Self)
        ensures
            r@ == (enabled, None::<Seq<T>>),
    {
        CacheSlot { enabled, snapshot: None }
    }

    /// Whether caching is enabled for this slot.
    pub fn is_enabled(&self) -> (r: bool)
        ensures
            r == self@.0,
    {
        self.enabled
    }

    /// Whether a read must fetch the collection.
    pub fn needs_fetch(&self) -> (r: bool)
        ensures
            r == !serves(self@),
    {
        !(self.enabled && self.snapshot.is_some())
    }

    /// A copy of the snapshot, when the slot serves reads.
    pub fn cached(&self) -> (r: Option<Vec<T>>)
        ensures
            r is Some <==> serves(self@),
            r matches Some(v) ==> clones_of(self@.1.unwrap(), v@),
    {
        if self.enabled {
            match &self.snapshot {
                Some(v) => Some(v.clone()),
                None => None,
            }
        } else {
            None
        }
    }

    /// Records the collection fetched by a read that missed, and hands a copy
    /// of it back to the reader.
    pub fn store_fetched(&mut self, fetched: Vec<T>) -> (r: Vec<T>)
        ensures
            final(self)@ == after_fetch(old(self)@, fetched@),
            clones_of(fetched@, r@),
    {
        let copy = fetched.clone();
        if self.enabled {
            self.snapshot = Some(fetched);
        }
        copy
    }

    /// Replaces the snapshot with a freshly fetched collection, whether or not
    /// caching is enabled.
    pub fn refresh(&mut self, fetched: Vec<T>)
        ensures
            final(self)@ == after_refresh(old(self)@, fetched@),
    {
        self.snapshot = Some(fetched);
    }

    /// Drops the snapshot.
    pub fn clear(&mut self)
        ensures
            final(self)@ == after_clear(old(self)@),
    {
        self.snapshot = None;
    }
}

/// Two reads in a row on an enabled slot, with nothing between them: the
/// first fetches only if the slot was empty, and afterwards the slot serves
/// reads from one snapshot, so the second read fetches nothing and sees the
/// same collection as the first.
pub proof fn lemma_consecutive_reads_agree<T>(s: SlotState<T>, fetched: Seq<T>)
    requires
        s.0,
    ensures
        ({
            let s1 = if serves(s) { s } else { after_fetch(s, fetched) };
            &&& serves(s1)
            &&& s1.1 == if serves(s) { s.1 } else { Some(fetched) }
        }),
{
}

/// After a refresh, an enabled slot serves exactly the freshly fetched
/// collection, whatever it held before.
pub proof fn lemma_refresh_then_read<T>(s: SlotState<T>, fetched: Seq<T>)
    requires
        s.0,
    ensures
        serves(after_refresh(s, fetched)),
        after_refresh(s, fetched).1 == Some(fetched),
{
}

/// After a clear, the next read fetches, and on an enabled slot that one
/// fetch is enough: the read after it is served from the slot.
pub proof fn lemma_clear_then_read<T>(s: SlotState<T>, fetched: Seq<T>)
    ensures
        !serves(after_clear(s)),
        s.0 ==> serves(after_fetch(after_clear(s), fetched)),
        s.0 ==> after_fetch(after_clear(s), fetched).1 == Some(fetched),
{
}

} // verus!
