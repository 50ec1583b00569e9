use vstd::prelude::*;
use core::marker::PhantomData;
use crate::protocol::{consistent, enabled, fresh, step, weak_handles, ArcView, Op, LOCKED};

verus! {

/// Adds `val` to a counter and returns the value it held before.
fn fetch_add(cell: &mut usize, val: usize) -> (r: usize)
    requires
        *old(cell) + val <= usize::MAX,
    ensures
        r == *old(cell),
        *final(cell) == *old(cell) + val,
{
    let prev = *cell;
    *cell = prev + val;
    prev
}

/// Subtracts `val` from a counter and returns the value it held before.
fn fetch_sub(cell: &mut usize, val: usize) -> (r: usize)
    requires
        *old(cell) >= val,
    ensures
        r == *old(cell),
        *final(cell) == *old(cell) - val,
{
    let prev = *cell;
    *cell = prev - val;
    prev
}

/// Sets a counter to `new` if it holds `current`; reports the value found
/// either way (`Ok` on success, `Err` otherwise).
fn compare_exchange(cell: &mut usize, current: usize, new: usize) -> (r: Result<usize, usize>)
    ensures
        *old(cell) == current ==> r == Ok::<usize, usize>(current) && *final(cell) == new,
        *old(cell) != current ==> r == Err::<usize, usize>(*old(cell)) && *final(cell) == *old(
            cell,
        ),
{
    let found = *cell;
    if found == current {
        *cell = new;
        Ok(found)
    } else {
        Err(found)
    }
}

/// The shared allocation record: the payload slot and its two counters.
pub struct ArcData<T> {
    /// Number of strong handles.
    data_ref_count: usize,
    /// Number of weak handles, plus one for the strong handles as a group.
    alloc_ref_count: usize,
    /// The payload; emptied when the last strong handle goes.
    data: Option<T>,
    /// How many times the payload has been destroyed.
    destroyed: Ghost<nat>,
    /// How many times the allocation has been released.
    freed: Ghost<nat>,
}

impl<T> View for ArcData<T> {
    type V = ArcView<T>;

    closed spec fn view(&self) -> ArcView<T> {
        ArcView {
            strong: self.data_ref_count as nat,
            alloc: self.alloc_ref_count as nat,
            payload: self.data,
            destroyed: self.destroyed@,
            freed: self.freed@,
        }
    }
}

impl<T> ArcData<T> {
    /// The record's counters, slot and history agree.
    pub open spec fn wf(&self) -> bool {
        consistent(self@)
    }

    /// Number of live strong handles.
    pub fn strong_count(&self) -> (r: usize)
        ensures
            r == self@.strong,
    {
        self.data_ref_count
    }

    /// Number of live weak handles.
    pub fn weak_count(&self) -> (r: usize)
        requires
            self.wf(),
        ensures
            r == weak_handles(self@),
    {
        if self.data_ref_count > 0 {
            self.alloc_ref_count - 1
        } else {
            self.alloc_ref_count
        }
    }

    /// Whether the payload is still alive.
    pub fn has_payload(&self) -> (r: bool)
        requires
            self.wf(),
        ensures
            r == (self@.payload is Some),
            r == (self@.destroyed == 0),
    {
        self.data.is_some()
    }

    /// Whether the allocation has been released by its last handle.
    pub fn is_freed(&self) -> (r: bool)
        requires
            self.wf(),
        ensures
            r == (self@.freed == 1),
            !r ==> self@.freed == 0,
    {
        self.alloc_ref_count == 0
    }
}

/// A strong handle: keeps the payload alive and gives shared access to it.
pub struct Arc<T> {
    marker: PhantomData<T>,
}

/// A weak handle: keeps the record, not the payload, alive.
pub struct Weak<T> {
    marker: PhantomData<T>,
}

impl<T> Arc<T> {
    /// Allocates a record holding `data` with one strong handle, which is
    /// returned with it.
    pub fn new(data: T) -> (r: (ArcData<T>, Arc<T>))
        ensures
            r.0.wf(),
            r.0@ == fresh(data),
    {
        let rec = ArcData {
            data_ref_count: 1,
            alloc_ref_count: 1,
            data: Some(data),
            destroyed: Ghost(0),
            freed: Ghost(0),
        };
        (rec, Arc { marker: PhantomData })
    }

    /// Shared access to the payload, which a live strong handle keeps present.
    pub fn deref<'a>(&self, rec: &'a ArcData<T>) -> (r: &'a T)
        requires
            rec.wf(),
            rec@.strong >= 1,
        ensures
            rec@.payload == Some(*r),
    {
        rec.data.as_ref().unwrap()
    }

    /// A second strong handle on the same record.
    pub fn clone(&self, rec: &mut ArcData<T>) -> (r: Arc<T>)
        requires
            old(rec).wf(),
            enabled(old(rec)@, Op::CloneStrong),
        ensures
            final(rec).wf(),
            final(rec)@ == step(old(rec)@, Op::CloneStrong),
    {
        fetch_add(&mut rec.data_ref_count, 1);
        Arc { marker: PhantomData }
    }

    /// Gives up this strong handle. The last one destroys the payload and then
    /// releases the unit that the strong handles held in the allocation count.
    pub fn drop(self, rec: &mut ArcData<T>)
        requires
            old(rec).wf(),
            enabled(old(rec)@, Op::DropStrong),
        ensures
            final(rec).wf(),
            final(rec)@ == step(old(rec)@, Op::DropStrong),
    {
        if fetch_sub(&mut rec.data_ref_count, 1) == 1 {
            rec.data = None;
            rec.destroyed = Ghost(rec.destroyed@ + 1);
            Weak { marker: PhantomData }.drop(rec);
        }
    }

    /// Exclusive access to the payload, given exactly when this is the only
    /// strong handle and no weak handle exists. The allocation count is held
    /// at the locked sentinel while the strong count is checked.
    pub fn get_mut<'a>(arc: &mut Self, rec: &'a mut ArcData<T>) -> (r: Option<&'a mut T>)
        requires
            old(rec).wf(),
            enabled(old(rec)@, Op::GetMut),
        ensures
            r is Some <==> (old(rec)@.strong == 1 && weak_handles(old(rec)@) == 0),
            r is None ==> *final(rec) == *old(rec),
            r matches Some(m) ==> *m == old(rec)@.payload.unwrap() && final(rec)@ == (ArcView {
                payload: Some(*final(m)),
                ..old(rec)@
            }),
            final(rec).wf(),
    {
        if compare_exchange(&mut rec.alloc_ref_count, 1, LOCKED).is_err() {
            return None;
        }
        let is_unique = rec.data_ref_count == 1;
        rec.alloc_ref_count = 1;
        if !is_unique {
            return None;
        }
        rec.data.as_mut()
    }

    /// A weak handle on the same record. The increment is retried while an
    /// exclusive-access attempt holds the sentinel or the observed count is
    /// stale.
    pub fn downgrade(arc: &Self, rec: &mut ArcData<T>) -> (r: Weak<T>)
        requires
            old(rec).wf(),
            enabled(old(rec)@, Op::Downgrade),
        ensures
            final(rec).wf(),
            final(rec)@ == step(old(rec)@, Op::Downgrade),
    {
        let mut n: usize = rec.alloc_ref_count;
        loop
            invariant
                *rec == *old(rec),
                rec.wf(),
                enabled(rec@, Op::Downgrade),
            decreases
                (if n == rec.alloc_ref_count { 0int } else { 1int }),
        {
            if n == LOCKED {
                n = rec.alloc_ref_count;
                continue;
            }
            match compare_exchange(&mut rec.alloc_ref_count, n, n + 1) {
                Ok(_) => {
                    return Weak { marker: PhantomData };
                },
                Err(e) => {
                    n = e;
                },
            }
        }
    }
}

impl<T> Weak<T> {
    /// A strong handle on the same record, unless the payload is already
    /// destroyed. The increment is retried while the observed count is stale;
    /// a count of zero is final.
    pub fn upgrade(&self, rec: &mut ArcData<T>) -> (r: Option<Arc<T>>)
        requires
            old(rec).wf(),
            enabled(old(rec)@, Op::Upgrade),
        ensures
            final(rec).wf(),
            final(rec)@ == step(old(rec)@, Op::Upgrade),
            r is Some <==> old(rec)@.strong > 0,
    {
        let mut n: usize = rec.data_ref_count;
        loop
            invariant
                *rec == *old(rec),
                rec.wf(),
                enabled(rec@, Op::Upgrade),
                n <= rec.data_ref_count,
                n == 0 ==> rec.data_ref_count == 0,
            decreases
                (if n == rec.data_ref_count { 0int } else { 1int }),
        {
            if n == 0 {
                return None;
            }
            match compare_exchange(&mut rec.data_ref_count, n, n + 1) {
                Ok(_) => {
                    return Some(Arc { marker: PhantomData });
                },
                Err(e) => {
                    n = e;
                },
            }
        }
    }

    /// A second weak handle on the same record.
    pub fn clone(&self, rec: &mut ArcData<T>) -> (r: Weak<T>)
        requires
            old(rec).wf(),
            enabled(old(rec)@, Op::CloneWeak),
        ensures
            final(rec).wf(),
            final(rec)@ == step(old(rec)@, Op::CloneWeak),
    {
        fetch_add(&mut rec.alloc_ref_count, 1);
        Weak { marker: PhantomData }
    }

    /// Gives up this weak handle; the last unit of the allocation count
    /// releases the allocation.
    pub fn drop(self, rec: &mut ArcData<T>)
        requires
            old(rec).wf(),
            enabled(old(rec)@, Op::DropWeak),
        ensures
            final(rec).wf(),
            final(rec)@ == step(old(rec)@, Op::DropWeak),
    {
        if fetch_sub(&mut rec.alloc_ref_count, 1) == 1 {
            rec.freed = Ghost(rec.freed@ + 1);
        }
    }
}

} // verus!
