use crate::coordinate::{in_field, Coordinate};
use crate::entity_type::EntityType;
use vstd::prelude::*;

verus! {

/// The map that a list of (cell, entity) pairs describes.
pub open spec fn map_of<E>(s: Seq<(Coordinate, E)>) -> Map<Coordinate, E>
    decreases s.len(),
{
    if s.len() == 0 {
        Map::empty()
    } else {
        map_of(s.drop_last()).insert(s.last().0, s.last().1)
    }
}

/// No cell appears twice in the list.
pub open spec fn keys_unique<E>(s: Seq<(Coordinate, E)>) -> bool {
    forall|i: int, j: int|
        0 <= i < s.len() && 0 <= j < s.len() && i != j ==> #[trigger] s[i].0 != #[trigger] s[j].0
}

proof fn lemma_map_of_dom<E>(s: Seq<(Coordinate, E)>)
    ensures
        map_of(s).dom().finite(),
        forall|c: Coordinate|
            #[trigger] map_of(s).contains_key(c) <==> exists|i: int| 0 <= i < s.len() && s[i].0 == c,
    decreases s.len(),
{
    if s.len() > 0 {
        let d = s.drop_last();
        lemma_map_of_dom(d);
        assert forall|c: Coordinate| #[trigger]
            map_of(s).contains_key(c) <==> exists|i: int| 0 <= i < s.len() && s[i].0 == c by {
            if map_of(s).contains_key(c) && c != s.last().0 {
                let i = choose|i: int| 0 <= i < d.len() && d[i].0 == c;
                assert(s[i].0 == c);
            }
            if exists|i: int| 0 <= i < s.len() && s[i].0 == c {
                let i = choose|i: int| 0 <= i < s.len() && s[i].0 == c;
                if i < d.len() {
                    assert(d[i].0 == c);
                }
            }
        }
    }
}

proof fn lemma_map_of_index<E>(s: Seq<(Coordinate, E)>, i: int)
    requires
        keys_unique(s),
        0 <= i < s.len(),
    ensures
        map_of(s).contains_key(s[i].0),
        map_of(s)[s[i].0] == s[i].1,
    decreases s.len(),
{
    if i < s.len() - 1 {
        let d = s.drop_last();
        assert(keys_unique(d)) by {
            assert forall|a: int, b: int|
                0 <= a < d.len() && 0 <= b < d.len() && a != b implies d[a].0 != d[b].0 by {
                assert(s[a].0 != s[b].0);
            }
        }
        lemma_map_of_index(d, i);
        assert(s[i].0 != s[s.len() - 1].0);
    }
}

proof fn lemma_keys_unique_drop_last<E>(s: Seq<(Coordinate, E)>)
    requires
        keys_unique(s),
        s.len() > 0,
    ensures
        keys_unique(s.drop_last()),
        !map_of(s.drop_last()).contains_key(s.last().0),
{
    let d = s.drop_last();
    assert forall|a: int, b: int|
        0 <= a < d.len() && 0 <= b < d.len() && a != b implies d[a].0 != d[b].0 by {
        assert(s[a].0 != s[b].0);
    }
    lemma_map_of_dom(d);
    if map_of(d).contains_key(s.last().0) {
        let i = choose|i: int| 0 <= i < d.len() && d[i].0 == s.last().0;
        assert(s[i].0 != s[s.len() - 1].0);
    }
}

proof fn lemma_map_of_len<E>(s: Seq<(Coordinate, E)>)
    requires
        keys_unique(s),
    ensures
        map_of(s).dom().len() == s.len(),
    decreases s.len(),
{
    lemma_map_of_dom(s);
    if s.len() > 0 {
        lemma_keys_unique_drop_last(s);
        lemma_map_of_len(s.drop_last());
        lemma_map_of_dom(s.drop_last());
    }
}

proof fn lemma_map_of_remove<E>(s: Seq<(Coordinate, E)>, i: int)
    requires
        keys_unique(s),
        0 <= i < s.len(),
    ensures
        keys_unique(s.remove(i)),
        map_of(s.remove(i)) == map_of(s).remove(s[i].0),
    decreases s.len(),
{
    let t = s.remove(i);
    assert forall|a: int, b: int|
        0 <= a < t.len() && 0 <= b < t.len() && a != b implies t[a].0 != t[b].0 by {
        let a2 = if a < i { a } else { a + 1 };
        let b2 = if b < i { b } else { b + 1 };
        assert(s[a2].0 != s[b2].0);
    }
    lemma_keys_unique_drop_last(s);
    let d = s.drop_last();
    if i == s.len() - 1 {
        assert(t =~= d);
        assert(map_of(s).remove(s[i].0) =~= map_of(d));
    } else {
        assert(t.drop_last() =~= d.remove(i));
        assert(t.last() == s.last());
        lemma_map_of_remove(d, i);
        assert(d[i] == s[i]);
        assert(s[i].0 != s.last().0);
        assert(map_of(t) =~= map_of(s).remove(s[i].0));
    }
}

proof fn lemma_map_of_update<E>(s: Seq<(Coordinate, E)>, i: int, e: E)
    requires
        keys_unique(s),
        0 <= i < s.len(),
    ensures
        keys_unique(s.update(i, (s[i].0, e))),
        map_of(s.update(i, (s[i].0, e))) == map_of(s).insert(s[i].0, e),
    decreases s.len(),
{
    let k = s[i].0;
    let t = s.update(i, (k, e));
    assert forall|a: int, b: int|
        0 <= a < t.len() && 0 <= b < t.len() && a != b implies t[a].0 != t[b].0 by {
        assert(s[a].0 != s[b].0);
    }
    lemma_keys_unique_drop_last(s);
    let d = s.drop_last();
    if i == s.len() - 1 {
        assert(t.drop_last() =~= d);
        assert(map_of(t) =~= map_of(s).insert(k, e));
    } else {
        assert(t.drop_last() =~= d.update(i, (k, e)));
        lemma_map_of_update(d, i, e);
        assert(k != s.last().0);
        assert(map_of(t) =~= map_of(s).insert(k, e));
    }
}

/// How many random cells `place_avoiding` draws before it looks for a free
/// cell in order.
pub const PLACEMENT_ATTEMPTS: usize = 1000;

/// The registry of entities on the playfield: at most one entity per cell.
///
/// The entries are a list of (cell, entity) pairs whose cells are all
/// different, and the registry reads as the map they describe. A std
/// `HashMap` keyed by `Coordinate` would not do: vstd specifies a `HashMap`'s
/// contents only for keys whose hashing it models (integers and the like),
/// so nothing about what such a map holds could be proved.
pub struct EntityManager<E> {
    entries: Vec<(Coordinate, E)>,
}

impl<E> View for EntityManager<E> {
    type V = Map<Coordinate, E>;

    closed spec fn view(&self) -> Map<Coordinate, E> {
        map_of(self.entries@)
    }
}

impl<E> EntityManager<E> {
    pub closed spec fn wf(&self) -> bool {
        keys_unique(self.entries@)
    }

    /// The registry holds finitely many entities.
    pub proof fn lemma_finite(&self)
        requires
            self.wf(),
        ensures
            self@.dom().finite(),
    {
        lemma_map_of_dom(self.entries@);
    }

    pub fn new() -> (r: Self)
        ensures
            r.wf(),
            r@ == Map::<Coordinate, E>::empty(),
    {
        Self { entries: Vec::new() }
    }

    fn index_of(&self, coordinate: &Coordinate) -> (r: Option<usize>)
        requires
            self.wf(),
        ensures
            match r {
                Some(i) => i < self.entries@.len() && self.entries@[i as int].0 == *coordinate,
                None => !self@.contains_key(*coordinate),
            },
    {
        proof {
            lemma_map_of_dom(self.entries@);
        }
        let mut i: usize = 0;
        while i < self.entries.len()
            invariant
                0 <= i <= self.entries@.len(),
                forall|j: int| 0 <= j < i ==> self.entries@[j].0 != *coordinate,
            decreases self.entries@.len() - i,
        {
            if self.entries[i].0 == *coordinate {
                return Some(i);
            }
            i += 1;
        }
        None
    }

    /// The entity standing on `coordinate`, if any.
    pub fn get_entity(&self, coordinate: Coordinate) -> (r: Option<&E>)
        requires
            self.wf(),
        ensures
            match r {
                Some(e) => self@.contains_key(coordinate) && self@[coordinate] == *e,
                None => !self@.contains_key(coordinate),
            },
    {
        match self.index_of(&coordinate) {
            Some(i) => {
                proof {
                    lemma_map_of_index(self.entries@, i as int);
                }
                Some(&self.entries[i].1)
            },
            None => None,
        }
    }

    /// Puts `entity_type` on `coordinates`, replacing whatever stood there.
    pub fn add_entity(&mut self, coordinates: &Coordinate, entity_type: E)
        requires
            old(self).wf(),
        ensures
            final(self).wf(),
            final(self)@ == old(self)@.insert(*coordinates, entity_type),
    {
        match self.index_of(coordinates) {
            Some(i) => {
                proof {
                    lemma_map_of_update(self.entries@, i as int, entity_type);
                }
                self.entries.set(i, (*coordinates, entity_type));
            },
            None => {
                proof {
                    lemma_map_of_dom(self.entries@);
                }
                self.entries.push((*coordinates, entity_type));
                assert(self.entries@.drop_last() == old(self).entries@);
                assert forall|a: int, b: int|
                    0 <= a < self.entries@.len() && 0 <= b < self.entries@.len() && a != b
                        implies self.entries@[a].0 != self.entries@[b].0 by {
                    if a == self.entries@.len() - 1 {
                        assert(old(self).entries@[b].0 != *coordinates);
                    } else if b == self.entries@.len() - 1 {
                        assert(old(self).entries@[a].0 != *coordinates);
                    }
                }
            },
        }
    }

    /// Takes away the entity on `coordinates`, if there is one.
    pub fn remove_entity(&mut self, coordinates: &Coordinate)
        requires
            old(self).wf(),
        ensures
            final(self).wf(),
            final(self)@ == old(self)@.remove(*coordinates),
    {
        match self.index_of(coordinates) {
            Some(i) => {
                proof {
                    lemma_map_of_remove(self.entries@, i as int);
                }
                self.entries.remove(i);
            },
            None => {
                assert(old(self)@.remove(*coordinates) =~= old(self)@);
            },
        }
    }

    /// The cells that hold an entity, each once.
    pub fn keys(&self) -> (r: Vec<Coordinate>)
        requires
            self.wf(),
        ensures
            forall|c: Coordinate| r@.contains(c) <==> self@.contains_key(c),
            r@.no_duplicates(),
    {
        proof {
            lemma_map_of_dom(self.entries@);
        }
        let mut r: Vec<Coordinate> = Vec::new();
        let mut i: usize = 0;
        while i < self.entries.len()
            invariant
                0 <= i <= self.entries@.len(),
                r@.len() == i,
                forall|j: int| 0 <= j < i ==> r@[j] == self.entries@[j].0,
            decreases self.entries@.len() - i,
        {
            r.push(self.entries[i].0);
            i += 1;
        }
        assert forall|c: Coordinate| r@.contains(c) <==> self@.contains_key(c) by {
            if self@.contains_key(c) {
                let j = choose|j: int| 0 <= j < self.entries@.len() && self.entries@[j].0 == c;
                assert(r@[j] == c);
            }
        }
        r
    }
    /// Every entity with the cell it stands on, each cell once, in no
    /// particular order.
    pub fn all(&self) -> (r: Vec<(Coordinate, &E)>)
        requires
            self.wf(),
        ensures
            r@.len() == self@.dom().len(),
            forall|i: int|
                0 <= i < r@.len() ==> self@.contains_key(#[trigger] r@[i].0) && self@[r@[i].0]
                    == *r@[i].1,
            forall|i: int, j: int|
                0 <= i < r@.len() && 0 <= j < r@.len() && i != j ==> #[trigger] r@[i].0
                    != #[trigger] r@[j].0,
            forall|c: Coordinate|
                #[trigger] self@.contains_key(c) ==> exists|i: int| 0 <= i < r@.len() && r@[i].0 == c,
    {
        proof {
            lemma_map_of_len(self.entries@);
        }
        let mut r: Vec<(Coordinate, &E)> = Vec::new();
        let mut i: usize = 0;
        while i < self.entries.len()
            invariant
                0 <= i <= self.entries@.len(),
                self.wf(),
                r@.len() == i,
                forall|j: int|
                    0 <= j < i ==> r@[j].0 == self.entries@[j].0 && *r@[j].1
                        == self.entries@[j].1,
            decreases self.entries@.len() - i,
        {
            r.push((self.entries[i].0, &self.entries[i].1));
            i += 1;
        }
        assert forall|j: int| 0 <= j < r@.len() implies self@.contains_key(#[trigger] r@[j].0)
            && self@[r@[j].0] == *r@[j].1 by {
            lemma_map_of_index(self.entries@, j);
        }
        proof {
            lemma_map_of_dom(self.entries@);
        }
        assert forall|c: Coordinate| #[trigger] self@.contains_key(c) implies exists|i: int|
            0 <= i < r@.len() && r@[i].0 == c by {
            let j = choose|j: int| 0 <= j < self.entries@.len() && self.entries@[j].0 == c;
            assert(r@[j].0 == c);
        }
        r
    }

    /// Draws random cells of the field `[0, max_x) x [0, max_y)` until one is
    /// not in `forbidden`, builds the entity for it with `factory` and puts it
    /// there. After `PLACEMENT_ATTEMPTS` unlucky draws it takes the first free
    /// cell in row order; when every cell is forbidden it places nothing.
    pub fn place_avoiding<F: Fn(Coordinate) -> E>(
        &mut self,
        factory: F,
        forbidden: &[Coordinate],
        max_x: usize,
        max_y: usize,
    ) -> (r: Option<Coordinate>)
        requires
            old(self).wf(),
            forall|c: Coordinate| #[trigger] factory.requires((c,)),
        ensures
            final(self).wf(),
            match r {
                Some(c) => {
                    &&& in_field(c, max_x as int, max_y as int)
                    &&& !forbidden@.contains(c)
                    &&& exists|e: E|
                        #[trigger] factory.ensures((c,), e) && final(self)@ == old(self)@.insert(c, e)
                },
                None => {
                    &&& final(self)@ == old(self)@
                    &&& forall|c: Coordinate|
                        in_field(c, max_x as int, max_y as int) ==> #[trigger] forbidden@.contains(c)
                },
            },
    {
        if max_x == 0 || max_y == 0 {
            return None;
        }
        let mut attempt: usize = 0;
        while attempt < PLACEMENT_ATTEMPTS
            invariant
                *self == *old(self),
                old(self).wf(),
                forall|c: Coordinate| #[trigger] factory.requires((c,)),
                max_x > 0,
                max_y > 0,
            decreases PLACEMENT_ATTEMPTS - attempt,
        {
            let c = Coordinate::new_random(max_x, max_y);
            if !c.intersects_multiple(forbidden) {
                let e = factory(c);
                self.add_entity(&c, e);
                return Some(c);
            }
            attempt += 1;
        }
        let mut y: usize = 0;
        while y < max_y
            invariant
                *self == *old(self),
                old(self).wf(),
                forall|c: Coordinate| #[trigger] factory.requires((c,)),
                0 <= y <= max_y,
                forall|c: Coordinate|
                    c.x < max_x && c.y < y ==> #[trigger] forbidden@.contains(c),
            decreases max_y - y,
        {
            let mut x: usize = 0;
            while x < max_x
                invariant
                    *self == *old(self),
                    old(self).wf(),
                    forall|c: Coordinate| #[trigger] factory.requires((c,)),
                    0 <= x <= max_x,
                    y < max_y,
                    forall|c: Coordinate|
                        c.x < max_x && c.y < y ==> #[trigger] forbidden@.contains(c),
                    forall|c: Coordinate|
                        c.x < x && c.y == y ==> #[trigger] forbidden@.contains(c),
                decreases max_x - x,
            {
                let c = Coordinate::new(x, y);
                if !c.intersects_multiple(forbidden) {
                    let e = factory(c);
                    self.add_entity(&c, e);
                    return Some(c);
                }
                x += 1;
            }
            y += 1;
        }
        None
    }
}

/// The cells that hold an apple.
pub open spec fn apple_cells(m: Map<Coordinate, EntityType>) -> Set<Coordinate> {
    Set::new(|c: Coordinate| m.contains_key(c) && m[c] is Apple)
}

spec fn count_apples(s: Seq<(Coordinate, EntityType)>) -> nat
    decreases s.len(),
{
    if s.len() == 0 {
        0
    } else {
        count_apples(s.drop_last()) + if s.last().1 is Apple {
            1nat
        } else {
            0nat
        }
    }
}

proof fn lemma_apple_cells(s: Seq<(Coordinate, EntityType)>)
    requires
        keys_unique(s),
    ensures
        apple_cells(map_of(s)).finite(),
        apple_cells(map_of(s)).len() == count_apples(s),
    decreases s.len(),
{
    if s.len() == 0 {
        assert(apple_cells(map_of(s)) =~= Set::empty());
    } else {
        let d = s.drop_last();
        lemma_keys_unique_drop_last(s);
        lemma_apple_cells(d);
        let k = s.last().0;
        if s.last().1 is Apple {
            assert(apple_cells(map_of(s)) =~= apple_cells(map_of(d)).insert(k));
        } else {
            assert(apple_cells(map_of(s)) =~= apple_cells(map_of(d)));
        }
    }
}

impl EntityManager<EntityType> {
    /// How many apples lie on the playfield.
    pub fn apple_count(&self) -> (r: usize)
        requires
            self.wf(),
        ensures
            r == apple_cells(self@).len(),
    {
        proof {
            lemma_apple_cells(self.entries@);
        }
        let mut n: usize = 0;
        let mut i: usize = 0;
        while i < self.entries.len()
            invariant
                0 <= i <= self.entries@.len(),
                n == count_apples(self.entries@.take(i as int)),
            decreases self.entries@.len() - i,
        {
            assert(self.entries@.take(i + 1).drop_last() =~= self.entries@.take(i as int));
            proof {
                lemma_count_apples_bound(self.entries@.take(i as int));
            }
            if matches!(self.entries[i].1, EntityType::Apple { .. }) {
                n += 1;
            }
            i += 1;
        }
        assert(self.entries@.take(i as int) =~= self.entries@);
        n
    }
}

proof fn lemma_count_apples_bound(s: Seq<(Coordinate, EntityType)>)
    ensures
        count_apples(s) <= s.len(),
    decreases s.len(),
{
    if s.len() > 0 {
        lemma_count_apples_bound(s.drop_last());
    }
}

} // verus!
