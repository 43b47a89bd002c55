//! Dropping of redelivered notifications.
use vstd::prelude::*;

verus! {

/// The set of notification ids seen so far. Ids are never evicted: the
/// watch session is bounded, so the set only grows.
pub struct Deduplicator {
    seen: Vec<String>,
}

impl View for Deduplicator {
    type V = Set<Seq<char>>;

    closed spec fn view(&self) -> Set<Seq<char>> {
        ids_of(self.seen@).to_set()
    }
}

/// The ids held by a list of strings.
pub open spec fn ids_of(seen: Seq<String>) -> Seq<Seq<char>> {
    seen.map_values(|s: String| s@)
}

/// The seen set after observing `ids` in order, starting from `seen`.
pub open spec fn observed_all(seen: Set<Seq<char>>, ids: Seq<Seq<char>>) -> Set<Seq<char>>
    decreases ids.len(),
{
    if ids.len() == 0 {
        seen
    } else {
        observed_all(seen, ids.drop_last()).insert(ids.last())
    }
}

impl Deduplicator {
    pub fn new() -> (r: Deduplicator)
        ensures
            r@ == Set::<Seq<char>>::empty(),
    {
        let r = Deduplicator { seen: Vec::new() };
        assert(r@ =~= Set::<Seq<char>>::empty());
        r
    }

    /// Whether `id` has been observed before.
    pub fn has_seen(&self, id: &String) -> (r: bool)
        ensures
            r == self@.contains(id@),
    {
        let mut i: usize = 0;
        while i < self.seen.len()
            invariant
                0 <= i <= self.seen@.len(),
                forall|j: int| 0 <= j < i ==> self.seen@[j]@ != id@,
            decreases self.seen@.len() - i,
        {
            if self.seen[i] == *id {
                assert(ids_of(self.seen@)[i as int] == id@);
                return true;
            }
            i = i + 1;
        }
        proof {
            if self@.contains(id@) {
                let k = choose|k: int|
                    0 <= k < self.seen@.len() && #[trigger] ids_of(self.seen@)[k] == id@;
                assert(self.seen@[k]@ == id@);
            }
        }
        false
    }

    /// Records `id`; true exactly when it had not been observed before.
    pub fn observe(&mut self, id: &String) -> (r: bool)
        ensures
            r == !old(self)@.contains(id@),
            final(self)@ == old(self)@.insert(id@),
    {
        if self.has_seen(id) {
            assert(self@.insert(id@) =~= self@);
            false
        } else {
            let ghost before = self.seen@;
            self.seen.push(id.clone());
            assert(ids_of(self.seen@) =~= ids_of(before).push(id@));
            proof {
                lemma_push_to_set(ids_of(before), id@);
            }
            true
        }
    }
}

/// Starting from an empty set, observing the ids of `ids` in order answers
/// true at position `i` exactly when no earlier position holds the same id,
/// whatever other ids come between.
pub proof fn lemma_first_sighting_only(ids: Seq<Seq<char>>, i: int)
    requires
        0 <= i < ids.len(),
    ensures
        !observed_all(Set::empty(), ids.take(i)).contains(ids[i]) <==> (forall|j: int|
            0 <= j < i ==> ids[j] != ids[i]),
{
    lemma_observed_all_contents(ids.take(i));
    if exists|j: int| 0 <= j < i && ids[j] == ids[i] {
        let j = choose|j: int| 0 <= j < i && ids[j] == ids[i];
        assert(ids.take(i)[j] == ids[i]);
    }
    if ids.take(i).contains(ids[i]) {
        let j = choose|j: int| 0 <= j < i && ids.take(i)[j] == ids[i];
        assert(ids[j] == ids[i]);
    }
}

/// An id once seen stays seen, whatever is observed after it: there is no
/// expiry.
pub proof fn lemma_seen_stays_seen(seen: Set<Seq<char>>, ids: Seq<Seq<char>>)
    ensures
        seen.subset_of(observed_all(seen, ids)),
    decreases ids.len(),
{
    if ids.len() > 0 {
        lemma_seen_stays_seen(seen, ids.drop_last());
    }
}

/// Starting from an empty set, an id observed first and then again after
/// any run `others` of notifications is seen by then, so `observe` answers
/// false on the repeat however many notifications came between.
pub proof fn lemma_repeat_dropped(x: Seq<char>, others: Seq<Seq<char>>)
    ensures
        observed_all(Set::empty(), seq![x] + others).contains(x),
{
    lemma_observed_all_contents(seq![x] + others);
    assert((seq![x] + others)[0] == x);
}

/// From an empty set, the seen set holds exactly the observed ids.
proof fn lemma_observed_all_contents(ids: Seq<Seq<char>>)
    ensures
        observed_all(Set::empty(), ids) == ids.to_set(),
    decreases ids.len(),
{
    if ids.len() == 0 {
        assert(ids.to_set() =~= Set::empty());
    } else {
        lemma_observed_all_contents(ids.drop_last());
        lemma_push_to_set(ids.drop_last(), ids.last());
        assert(ids.drop_last().push(ids.last()) =~= ids);
    }
}

/// Appending one element adds exactly that element to the set of elements.
proof fn lemma_push_to_set(s: Seq<Seq<char>>, a: Seq<char>)
    ensures
        s.push(a).to_set() == s.to_set().insert(a),
{
    assert forall|x: Seq<char>| #[trigger] s.push(a).to_set().contains(x) <==> s.to_set().insert(
        a,
    ).contains(x) by {
        if s.push(a).contains(x) && x != a {
            let k = choose|k: int| 0 <= k < s.push(a).len() && s.push(a)[k] == x;
            assert(s[k] == x);
        }
        if s.contains(x) {
            let k = choose|k: int| 0 <= k < s.len() && s[k] == x;
            assert(s.push(a)[k] == x);
        }
        if x == a {
            assert(s.push(a)[s.len() as int] == x);
        }
    }
    assert(s.push(a).to_set() =~= s.to_set().insert(a));
}

} // verus!
