use vstd::prelude::*;

verus! {

/// A bounded log of committed commands; the oldest entry leaves first.
pub struct History {
    entries: Vec<String>,
    capacity: usize,
}

/// The last `cap` entries of `s`.
pub open spec fn keep_last(s: Seq<Seq<char>>, cap: nat) -> Seq<Seq<char>> {
    if s.len() <= cap {
        s
    } else {
        s.skip(s.len() - cap)
    }
}

/// The texts of a list of strings.
pub open spec fn texts(v: Seq<String>) -> Seq<Seq<char>> {
    v.map_values(|s: String| s@)
}

impl History {
    /// The entries, oldest first.
    pub closed spec fn entries(&self) -> Seq<Seq<char>> {
        texts(self.entries@)
    }

    pub closed spec fn capacity_spec(&self) -> nat {
        self.capacity as nat
    }

    pub open spec fn wf(&self) -> bool {
        self.entries().len() <= self.capacity_spec()
    }

    /// An empty history that keeps at most `capacity` entries.
    pub fn new(capacity: usize) -> (r: History)
        ensures
            r.wf(),
            r.entries() == Seq::<Seq<char>>::empty(),
            r.capacity_spec() == capacity,
    {
        let r = History { entries: Vec::new(), capacity };
        assert(r.entries() =~= Seq::<Seq<char>>::empty());
        r
    }

    pub fn capacity(&self) -> (r: usize)
        ensures
            r == self.capacity_spec(),
    {
        self.capacity
    }

    pub fn len(&self) -> (r: usize)
        ensures
            r == self.entries().len(),
    {
        self.entries.len()
    }

    /// Appends a command; when the history is full the oldest entry is dropped.
    pub fn push(&mut self, command: String)
        requires
            old(self).wf(),
        ensures
            final(self).wf(),
            final(self).capacity_spec() == old(self).capacity_spec(),
            final(self).entries() == keep_last(
                old(self).entries().push(command@),
                old(self).capacity_spec(),
            ),
    {
        let ghost before = self.entries@;
        if self.capacity == 0 {
            assert(self.entries() =~= keep_last(texts(before).push(command@), 0));
            return;
        }
        if self.entries.len() >= self.capacity {
            self.entries.remove(0);
        }
        self.entries.push(command);
        assert(self.entries() =~= keep_last(texts(before).push(command@), self.capacity as nat));
    }

    /// The entries, most recent first.
    pub fn iter(&self) -> (r: Vec<String>)
        ensures
            texts(r@) == self.entries().reverse(),
    {
        self.recent(self.entries.len())
    }

    /// At most `n` entries, most recent first.
    pub fn recent(&self, n: usize) -> (r: Vec<String>)
        ensures
            texts(r@) == self.entries().reverse().take(
                if n < self.entries().len() {
                    n as int
                } else {
                    self.entries().len() as int
                },
            ),
    {
        let len = self.entries.len();
        let count = if n < len {
            n
        } else {
            len
        };
        let mut out: Vec<String> = Vec::new();
        let mut k: usize = 0;
        while k < count
            invariant
                count <= len,
                len == self.entries@.len(),
                k <= count,
                texts(out@) =~= self.entries().reverse().take(k as int),
            decreases count - k,
        {
            let s = self.entries[len - 1 - k].clone();
            let ghost old_out = out@;
            out.push(s);
            assert(self.entries().reverse()[k as int] == self.entries@[len - 1 - k]@);
            assert(texts(out@) =~= texts(old_out).push(s@));
            k = k + 1;
            assert(texts(out@) =~= self.entries().reverse().take(k as int));
        }
        out
    }
}

/// Pushing one entry past the capacity drops exactly the oldest one, and the
/// history then lists the `capacity` most recent commands, newest first.
pub proof fn lemma_history_evicts_oldest(h: Seq<Seq<char>>, command: Seq<char>, cap: nat)
    requires
        h.len() == cap,
        cap > 0,
    ensures
        keep_last(h.push(command), cap) == h.drop_first().push(command),
        keep_last(h.push(command), cap).reverse() == seq![command] + h.drop_first().reverse(),
{
    assert(keep_last(h.push(command), cap) =~= h.drop_first().push(command));
    assert(h.drop_first().push(command).reverse() =~= seq![command] + h.drop_first().reverse());
}

/// The entries after pushing each of `cs`, in order, onto entries `h`.
pub open spec fn pushed_all(h: Seq<Seq<char>>, cs: Seq<Seq<char>>, cap: nat) -> Seq<Seq<char>>
    decreases cs.len(),
{
    if cs.len() == 0 {
        h
    } else {
        keep_last(pushed_all(h, cs.drop_last(), cap).push(cs.last()), cap)
    }
}

/// Pushing commands one by one into an empty history keeps the `cap` most
/// recent ones. So `cap + 1` pushes into a history of capacity `cap` evict the
/// first command, and the history lists the others newest first.
pub proof fn lemma_pushes_keep_most_recent(cs: Seq<Seq<char>>, cap: nat)
    ensures
        pushed_all(Seq::empty(), cs, cap) == keep_last(cs, cap),
        cs.len() == cap + 1 ==> pushed_all(Seq::empty(), cs, cap) == cs.drop_first(),
        cs.len() == cap + 1 ==> pushed_all(Seq::empty(), cs, cap).reverse() == cs.drop_first().reverse(),
    decreases cs.len(),
{
    if cs.len() > 0 {
        let p = cs.drop_last();
        lemma_pushes_keep_most_recent(p, cap);
        assert(p.push(cs.last()) =~= cs);
        assert(keep_last(keep_last(p, cap).push(cs.last()), cap) =~= keep_last(cs, cap));
    }
    if cs.len() == cap + 1 {
        assert(keep_last(cs, cap) =~= cs.drop_first());
    }
}

} // verus!
