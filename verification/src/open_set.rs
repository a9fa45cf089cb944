//! The set of panel names that are currently open.

use vstd::prelude::*;

verus! {

/// The set `open` after a panel called `name` reported `is_open`.
pub open spec fn with_open(open: Set<Seq<char>>, name: Seq<char>, is_open: bool) -> Set<
    Seq<char>,
> {
    if is_open {
        open.insert(name)
    } else {
        open.remove(name)
    }
}

/// Reporting the same thing twice is the same as reporting it once.
pub proof fn lemma_set_open_twice(open: Set<Seq<char>>, name: Seq<char>, is_open: bool)
    ensures
        with_open(with_open(open, name, is_open), name, is_open) == with_open(
            open,
            name,
            is_open,
        ),
{
    assert(with_open(with_open(open, name, is_open), name, is_open) =~= with_open(
        open,
        name,
        is_open,
    ));
}

/// Opening a name that was closed and closing it again leaves the set as it
/// was. (A name that was open before is closed afterwards, so for such a name
/// the set is not as it was.)
pub proof fn lemma_open_then_close(open: Set<Seq<char>>, name: Seq<char>)
    requires
        !open.contains(name),
    ensures
        with_open(with_open(open, name, true), name, false) == open,
{
    assert(with_open(with_open(open, name, true), name, false) =~= open);
}

/// Opening `a`, opening another name `b` and closing `a` leaves `b` open and
/// `a` closed, and every other name as it was. Starting from nothing open,
/// `b` alone is open in the end.
pub proof fn lemma_open_a_open_b_close_a(open: Set<Seq<char>>, a: Seq<char>, b: Seq<char>)
    requires
        a != b,
    ensures
        with_open(with_open(with_open(open, a, true), b, true), a, false) == open.remove(
            a,
        ).insert(b),
        with_open(with_open(with_open(Set::<Seq<char>>::empty(), a, true), b, true), a, false)
            == set![b],
{
    assert(with_open(with_open(with_open(open, a, true), b, true), a, false) =~= open.remove(
        a,
    ).insert(b));
    assert(with_open(with_open(with_open(Set::<Seq<char>>::empty(), a, true), b, true), a, false)
        =~= set![b]);
}

/// The items of a sequence with one more item at its end are the items of
/// the sequence and that item.
proof fn lemma_to_set_push(s: Seq<Seq<char>>, x: Seq<char>)
    ensures
        s.push(x).to_set() == s.to_set().insert(x),
{
    assert forall|y: Seq<char>| s.push(x).to_set().contains(y) <==> s.to_set().insert(x).contains(
        y,
    ) by {
        if s.push(x).contains(y) {
            let j = choose|j: int| 0 <= j < s.push(x).len() && s.push(x)[j] == y;
            if j < s.len() {
                assert(s[j] == y);
            }
        }
        if s.contains(y) {
            let j = choose|j: int| 0 <= j < s.len() && s[j] == y;
            assert(s.push(x)[j] == y);
        }
        if y == x {
            assert(s.push(x)[s.len() as int] == y);
        }
    }
    assert(s.push(x).to_set() =~= s.to_set().insert(x));
}

/// The items of a sequence without repeats, once the item at `i` is taken
/// out, are the items of the sequence without that item.
proof fn lemma_to_set_remove(s: Seq<Seq<char>>, i: int)
    requires
        s.no_duplicates(),
        0 <= i < s.len(),
    ensures
        s.remove(i).to_set() == s.to_set().remove(s[i]),
        s.remove(i).no_duplicates(),
{
    let t = s.remove(i);
    assert forall|y: Seq<char>| t.to_set().contains(y) <==> s.to_set().remove(s[i]).contains(
        y,
    ) by {
        if t.contains(y) {
            let j = choose|j: int| 0 <= j < t.len() && t[j] == y;
            if j < i {
                assert(s[j] == y);
            } else {
                assert(s[j + 1] == y);
            }
        }
        if s.contains(y) && y != s[i] {
            let j = choose|j: int| 0 <= j < s.len() && s[j] == y;
            if j < i {
                assert(t[j] == y);
            } else {
                assert(t[j - 1] == y);
            }
        }
    }
    assert(t.to_set() =~= s.to_set().remove(s[i]));
}

/// A finite set of names. No order among the names is kept.
pub struct OpenSet {
    names: Vec<String>,
}

impl View for OpenSet {
    type V = Set<Seq<char>>;

    closed spec fn view(&self) -> Set<Seq<char>> {
        self.texts().to_set()
    }
}

impl OpenSet {
    /// The stored names as character sequences, in storage order.
    spec fn texts(&self) -> Seq<Seq<char>> {
        self.names@.map_values(|s: String| s@)
    }

    /// No name is stored twice.
    #[verifier::type_invariant]
    spec fn distinct(&self) -> bool {
        self.texts().no_duplicates()
    }

    /// The empty set.
    pub fn new() -> (s: Self)
        ensures
            s@ == Set::<Seq<char>>::empty(),
    {
        let s = OpenSet { names: Vec::new() };
        assert(s.texts() =~= Seq::<Seq<char>>::empty());
        assert(s@ =~= Set::<Seq<char>>::empty());
        s
    }

    /// The set of the names in `names`; a name that comes twice counts once.
    pub fn from_names(names: &Vec<String>) -> (s: Self)
        ensures
            s@ == names@.map_values(|n: String| n@).to_set(),
    {
        let ghost texts = names@.map_values(|n: String| n@);
        let mut s = OpenSet::new();
        let n: usize = names.len();
        let mut i: usize = 0;
        while i < n
            invariant
                i <= n,
                n == names@.len(),
                texts == names@.map_values(|n: String| n@),
                s@ == texts.take(i as int).to_set(),
            decreases n - i,
        {
            s.insert(names[i].as_str());
            proof {
                assert(texts.take(i + 1) =~= texts.take(i as int).push(texts[i as int]));
                lemma_to_set_push(texts.take(i as int), texts[i as int]);
            }
            i = i + 1;
        }
        proof {
            assert(texts.take(n as int) =~= texts);
        }
        s
    }

    /// The names in the set, each once, in no particular order.
    pub fn to_names(&self) -> (names: Vec<String>)
        ensures
            names@.map_values(|n: String| n@).to_set() == self@,
            names@.map_values(|n: String| n@).no_duplicates(),
            names@.len() == self@.len(),
    {
        proof {
            use_type_invariant(self);
            self.texts().unique_seq_to_set();
        }
        let n: usize = self.names.len();
        let mut names: Vec<String> = Vec::new();
        let mut i: usize = 0;
        while i < n
            invariant
                i <= n,
                n == self.names@.len(),
                names@.len() == i,
                forall|j: int| 0 <= j < i ==> names@[j]@ == self.names@[j]@,
            decreases n - i,
        {
            names.push(self.names[i].clone());
            i = i + 1;
        }
        assert(names@.map_values(|n: String| n@) =~= self.texts());
        names
    }

    /// The number of names in the set.
    pub fn len(&self) -> (n: usize)
        ensures
            n == self@.len(),
            self@.finite(),
    {
        proof {
            use_type_invariant(self);
            self.texts().unique_seq_to_set();
        }
        self.names.len()
    }

    /// The position at which `key` is stored, if it is stored.
    fn position(&self, key: &str) -> (at: Option<usize>)
        ensures
            match at {
                Some(i) => i < self.texts().len() && self.texts()[i as int] == key@,
                None => !self.texts().contains(key@),
            },
    {
        // The names are kept as `String`s, and it is `String`'s `==` that is
        // known to compare character by character: the key is made one.
        let wanted: String = key.to_owned();
        let n: usize = self.names.len();
        let mut i: usize = 0;
        while i < n
            invariant
                i <= n,
                n == self.names@.len(),
                wanted@ == key@,
                forall|j: int| 0 <= j < i ==> self.texts()[j] != key@,
            decreases n - i,
        {
            if self.names[i] == wanted {
                return Some(i);
            }
            i = i + 1;
        }
        None
    }

    /// Whether `key` is in the set.
    pub fn contains(&self, key: &str) -> (found: bool)
        ensures
            found == self@.contains(key@),
    {
        self.position(key).is_some()
    }

    /// Puts `key` into the set; returns whether it was new.
    pub fn insert(&mut self, key: &str) -> (fresh: bool)
        ensures
            final(self)@ == old(self)@.insert(key@),
            fresh == !old(self)@.contains(key@),
    {
        proof {
            use_type_invariant(&*self);
        }
        match self.position(key) {
            Some(_) => {
                assert(self@ =~= old(self)@.insert(key@));
                false
            },
            None => {
                // The vector is taken out, changed and put back, so that the
                // set is whole whenever it can be seen.
                let mut names: Vec<String> = Vec::new();
                core::mem::swap(&mut self.names, &mut names);
                names.push(key.to_owned());
                proof {
                    assert(names@.map_values(|s: String| s@) =~= old(self).texts().push(key@));
                    lemma_to_set_push(old(self).texts(), key@);
                }
                self.names = names;
                true
            },
        }
    }

    /// Takes `key` out of the set; returns whether it was there.
    pub fn remove(&mut self, key: &str) -> (present: bool)
        ensures
            final(self)@ == old(self)@.remove(key@),
            present == old(self)@.contains(key@),
    {
        proof {
            use_type_invariant(&*self);
        }
        match self.position(key) {
            Some(i) => {
                let mut names: Vec<String> = Vec::new();
                core::mem::swap(&mut self.names, &mut names);
                names.remove(i);
                proof {
                    assert(names@.map_values(|s: String| s@) =~= old(self).texts().remove(
                        i as int,
                    ));
                    lemma_to_set_remove(old(self).texts(), i as int);
                }
                self.names = names;
                true
            },
            None => {
                assert(self@ =~= old(self)@.remove(key@));
                false
            },
        }
    }
}

/// Records what a panel reported: `key` is in the set afterwards exactly if
/// `is_open`; every other name stays as it was.
pub fn set_open(open: &mut OpenSet, key: &'static str, is_open: bool)
    ensures
        final(open)@ == with_open(old(open)@, key@, is_open),
{
    if is_open {
        if !open.contains(key) {
            open.insert(key);
        }
        assert(open@ =~= old(open)@.insert(key@));
    } else {
        open.remove(key);
    }
}

} // verus!
