use vstd::prelude::*;

verus! {

/// A bounded first-in-first-out buffer of plain items, the engine's
/// circular buffer rebuilt over owned storage: writes append at the tail up
/// to the fixed capacity, reads consume from the head, and a peek looks at
/// the head without consuming.
pub struct CircularBuffer<T> {
    items: Vec<T>,
    cap: usize,
}

impl<T: Copy> CircularBuffer<T> {
    /// The queued items, oldest first.
    pub closed spec fn view(self) -> Seq<T> {
        self.items@
    }

    /// The fixed number of items the buffer can hold.
    pub closed spec fn capacity(self) -> nat {
        self.cap as nat
    }

    /// The queue never outgrows its capacity.
    pub open spec fn wf(self) -> bool {
        self.view().len() <= self.capacity()
    }

    /// An empty buffer with room for `len` items.
    pub fn with_capacity(len: u32) -> (r: CircularBuffer<T>)
        ensures
            r.wf(),
            r.view() == Seq::<T>::empty(),
            r.capacity() == len,
    {
        CircularBuffer { items: Vec::new(), cap: len as usize }
    }

    /// How many items are queued.
    pub fn len(&self) -> (r: usize)
        ensures
            r == self.view().len(),
    {
        self.items.len()
    }

    /// Copies up to `items` queued items into the front of `out` and
    /// removes them from the buffer, answering how many were read — the
    /// queued count when fewer than `items` are waiting.  Refused when
    /// `out` has no room for the requested count.
    pub fn read(&mut self, out: &mut Vec<T>, items: u32) -> (r: Result<usize, &'static str>)
        requires
            old(self).wf(),
        ensures
            final(self).wf(),
            final(self).capacity() == old(self).capacity(),
            r is Err <==> (items as int) > old(out)@.len(),
            r is Err ==> *final(self) == *old(self) && final(out)@ == old(out)@,
            final(out)@.len() == old(out)@.len(),
            r matches Ok(n) ==> {
                &&& n == (if (items as int) <= old(self).view().len() {
                    items as int
                } else {
                    old(self).view().len() as int
                })
                &&& forall|k: int| 0 <= k < n ==> final(out)@[k] == old(self).view()[k]
                &&& forall|k: int| n <= k < old(out)@.len() ==> final(out)@[k] == old(out)@[k]
                &&& final(self).view() == old(self).view().skip(n as int)
            },
    {
        let want = items as usize;
        if want > out.len() {
            return Err("the destination has no room for the requested items");
        }
        let n = if want <= self.items.len() {
            want
        } else {
            self.items.len()
        };
        let mut k: usize = 0;
        while k < n
            invariant
                k <= n,
                n <= self.items@.len(),
                n <= old(out)@.len(),
                out@.len() == old(out)@.len(),
                self.items@ == old(self).items@,
                forall|j: int| 0 <= j < k ==> out@[j] == self.items@[j],
                forall|j: int| k <= j < old(out)@.len() ==> out@[j] == old(out)@[j],
            decreases n - k,
        {
            out.set(k, self.items[k]);
            k = k + 1;
        }
        let mut rest: Vec<T> = Vec::new();
        let mut j: usize = n;
        while j < self.items.len()
            invariant
                n <= j <= self.items@.len(),
                self.items@ == old(self).items@,
                rest@ == self.items@.subrange(n as int, j as int),
            decreases self.items@.len() - j,
        {
            rest.push(self.items[j]);
            j = j + 1;
        }
        proof {
            assert(rest@ =~= old(self).items@.skip(n as int));
        }
        self.items = rest;
        Ok(n)
    }

    /// Copies up to `items` queued items into the front of `out` without
    /// removing them.  Refused when `out` has no room for the requested
    /// count.
    pub fn peek(&self, out: &mut Vec<T>, items: u32) -> (r: Result<usize, &'static str>)
        requires
            self.wf(),
        ensures
            r is Err <==> (items as int) > old(out)@.len(),
            r is Err ==> final(out)@ == old(out)@,
            final(out)@.len() == old(out)@.len(),
            r matches Ok(n) ==> {
                &&& n == (if (items as int) <= self.view().len() {
                    items as int
                } else {
                    self.view().len() as int
                })
                &&& forall|k: int| 0 <= k < n ==> final(out)@[k] == self.view()[k]
                &&& forall|k: int| n <= k < old(out)@.len() ==> final(out)@[k] == old(out)@[k]
            },
    {
        let want = items as usize;
        if want > out.len() {
            return Err("the destination has no room for the requested items");
        }
        let n = if want <= self.items.len() {
            want
        } else {
            self.items.len()
        };
        let mut k: usize = 0;
        while k < n
            invariant
                k <= n,
                n <= self.items@.len(),
                n <= old(out)@.len(),
                out@.len() == old(out)@.len(),
                forall|j: int| 0 <= j < k ==> out@[j] == self.items@[j],
                forall|j: int| k <= j < old(out)@.len() ==> out@[j] == old(out)@[j],
            decreases n - k,
        {
            out.set(k, self.items[k]);
            k = k + 1;
        }
        Ok(n)
    }

    /// Appends up to `items` items from the front of `input` to the queue,
    /// answering how many were written — the free room when the buffer
    /// cannot take the full count.  Refused when `input` holds fewer than
    /// the requested count.
    pub fn write(&mut self, input: &[T], items: u32) -> (r: Result<usize, &'static str>)
        requires
            old(self).wf(),
        ensures
            final(self).wf(),
            final(self).capacity() == old(self).capacity(),
            r is Err <==> (items as int) > input@.len(),
            r is Err ==> *final(self) == *old(self),
            r matches Ok(n) ==> {
                &&& n == (if (items as int) <= old(self).capacity() - old(self).view().len() {
                    items as int
                } else {
                    old(self).capacity() - old(self).view().len()
                })
                &&& final(self).view() == old(self).view() + input@.subrange(0, n as int)
            },
    {
        let want = items as usize;
        if want > input.len() {
            return Err("the source holds fewer than the requested items");
        }
        let free = self.cap - self.items.len();
        let n = if want <= free {
            want
        } else {
            free
        };
        let mut k: usize = 0;
        while k < n
            invariant
                k <= n,
                n <= input@.len(),
                self.items@.len() + n - k <= self.cap,
                self.cap == old(self).cap,
                self.items@ == old(self).items@ + input@.subrange(0, k as int),
            decreases n - k,
        {
            let x = input[k];
            self.items.push(x);
            k = k + 1;
            proof {
                assert(self.items@ =~= old(self).items@ + input@.subrange(0, k as int));
            }
        }
        Ok(n)
    }

    /// Empties the buffer of any remaining items.
    pub fn flush(&mut self)
        ensures
            final(self).wf(),
            final(self).capacity() == old(self).capacity(),
            final(self).view() == Seq::<T>::empty(),
    {
        self.items = Vec::new();
    }
}

} // verus!
