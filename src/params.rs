use vstd::prelude::*;

verus! {

/// Form parameters of one call: string keys, each with one string value.
#[derive(Clone, Debug)]
pub struct Params {
    pub entries: Vec<(String, String)>,
}

impl Params {
    /// No key occurs twice.
    pub open spec fn wf(&self) -> bool {
        forall|i: int, j: int|
            0 <= i < j < self.entries.len() ==> #[trigger] self.entries[i].0@
                != #[trigger] self.entries[j].0@
    }

    pub open spec fn has_key(&self, k: Seq<char>) -> bool {
        exists|i: int| 0 <= i < self.entries.len() && #[trigger] self.entries[i].0@ == k
    }

    pub open spec fn view(&self) -> Map<Seq<char>, Seq<char>> {
        Map::new(
            |k: Seq<char>| self.has_key(k),
            |k: Seq<char>|
                self.entries[choose|i: int|
                    0 <= i < self.entries.len() && #[trigger] self.entries[i].0@ == k].1@,
        )
    }

    pub fn new() -> (r: Params)
        ensures
            r.wf(),
            r@ == Map::<Seq<char>, Seq<char>>::empty(),
    {
        let r = Params { entries: Vec::new() };
        assert(r@ =~= Map::<Seq<char>, Seq<char>>::empty());
        r
    }

    /// Writing `(key, value)` at `idx`, over the entry of that key or past
    /// the end, sets `key` in the map and leaves the other keys as they were.
    proof fn lemma_write(pre: Params, post: Params, key: Seq<char>, value: Seq<char>, idx: int)
        requires
            pre.wf(),
            post.wf(),
            0 <= idx < post.entries.len(),
            post.entries.len() == pre.entries.len() || (post.entries.len() == pre.entries.len() + 1
                && idx == pre.entries.len()),
            idx < pre.entries.len() ==> pre.entries[idx].0@ == key,
            post.entries[idx].0@ == key,
            post.entries[idx].1@ == value,
            forall|j: int| 0 <= j < post.entries.len() && j != idx ==> #[trigger] post.entries[j] == pre.entries[j],
        ensures
            post@ == pre@.insert(key, value),
    {
        assert forall|kk: Seq<char>| #[trigger] post.has_key(kk) == pre@.insert(key, value).contains_key(kk) by {
            if kk != key && pre.has_key(kk) {
                let w = choose|w: int| 0 <= w < pre.entries.len() && #[trigger] pre.entries[w].0@ == kk;
                assert(post.entries[w] == pre.entries[w]);
            }
            if post.has_key(kk) && kk != key {
                let w = choose|w: int| 0 <= w < post.entries.len() && #[trigger] post.entries[w].0@ == kk;
                assert(post.entries[w] == pre.entries[w]);
            }
        }
        assert forall|kk: Seq<char>| #[trigger] post.has_key(kk) implies post@[kk] == pre@.insert(key, value)[kk] by {
            let w = choose|w: int| 0 <= w < post.entries.len() && #[trigger] post.entries[w].0@ == kk;
            if kk == key {
                assert(w == idx);
            } else {
                assert(post.entries[w] == pre.entries[w]);
                let w2 = choose|w2: int| 0 <= w2 < pre.entries.len() && #[trigger] pre.entries[w2].0@ == kk;
                assert(w2 == w);
            }
        }
        assert(post@ =~= pre@.insert(key, value));
    }

    /// Sets `key` to `value`, replacing the value it had.
    pub fn insert(&mut self, key: &str, value: String)
        requires
            old(self).wf(),
        ensures
            final(self).wf(),
            final(self)@ == old(self)@.insert(key@, value@),
    {
        let ghost before = self.entries@;
        let k = key.to_owned();
        let mut i: usize = 0;
        while i < self.entries.len()
            invariant
                self.entries@ == before,
                before == old(self).entries@,
                self.wf(),
                k@ == key@,
                0 <= i <= self.entries.len(),
                forall|j: int| 0 <= j < i ==> #[trigger] self.entries[j].0@ != key@,
            decreases self.entries.len() - i,
        {
            if self.entries[i].0 == k {
                let ghost pre = *self;
                self.entries.set(i, (k, value));
                assert forall|a: int, b: int|
                    0 <= a < b < self.entries.len() implies #[trigger] self.entries[a].0@
                    != #[trigger] self.entries[b].0@ by {
                    assert(pre.entries[a].0@ != pre.entries[b].0@);
                }
                proof {
                    Self::lemma_write(pre, *self, key@, value@, i as int);
                }
                return;
            }
            i = i + 1;
        }
        let ghost pre = *self;
        self.entries.push((k, value));
        proof {
            Self::lemma_write(pre, *self, key@, value@, pre.entries.len() as int);
        }
    }
}

} // verus!
