//! An ordered set of file names: the names in increasing byte order, each
//! once, as a `BTreeSet<String>` keeps them.
use vstd::prelude::*;
use vstd::string::StringSliceAdditionalSpecFns;
use vstd::utf8::encode_utf8;

verus! {

broadcast use vstd::utf8::encode_utf8_decode_utf8;

/// Lexicographic order on byte strings: `a` comes before `b`.
pub open spec fn bytes_lt(a: Seq<u8>, b: Seq<u8>) -> bool
    decreases a.len(),
{
    if a.len() == 0 {
        b.len() > 0
    } else if b.len() == 0 {
        false
    } else if a[0] != b[0] {
        a[0] < b[0]
    } else {
        bytes_lt(a.drop_first(), b.drop_first())
    }
}

/// The order of `String`: lexicographic on the UTF-8 bytes.
pub open spec fn name_lt(a: Seq<char>, b: Seq<char>) -> bool {
    bytes_lt(encode_utf8(a), encode_utf8(b))
}

/// Each name comes before every later one.
pub open spec fn strictly_increasing(names: Seq<Seq<char>>) -> bool {
    forall|i: int, j: int| 0 <= i < j < names.len() ==> name_lt(#[trigger] names[i], #[trigger] names[j])
}

pub proof fn lemma_bytes_lt_irreflexive(a: Seq<u8>)
    ensures
        !bytes_lt(a, a),
    decreases a.len(),
{
    if a.len() > 0 {
        lemma_bytes_lt_irreflexive(a.drop_first());
    }
}

pub proof fn lemma_bytes_lt_asymmetric(a: Seq<u8>, b: Seq<u8>)
    ensures
        !(bytes_lt(a, b) && bytes_lt(b, a)),
    decreases a.len(),
{
    if a.len() > 0 && b.len() > 0 && a[0] == b[0] {
        lemma_bytes_lt_asymmetric(a.drop_first(), b.drop_first());
    }
}

pub proof fn lemma_bytes_lt_total(a: Seq<u8>, b: Seq<u8>)
    ensures
        bytes_lt(a, b) || a == b || bytes_lt(b, a),
    decreases a.len(),
{
    if a.len() == 0 {
        if b.len() == 0 {
            assert(a =~= b);
        }
    } else if b.len() > 0 && a[0] == b[0] {
        lemma_bytes_lt_total(a.drop_first(), b.drop_first());
        if a.drop_first() == b.drop_first() {
            assert(a =~= seq![a[0]] + a.drop_first());
            assert(b =~= seq![b[0]] + b.drop_first());
        }
    }
}

pub proof fn lemma_bytes_lt_transitive(a: Seq<u8>, b: Seq<u8>, c: Seq<u8>)
    requires
        bytes_lt(a, b),
        bytes_lt(b, c),
    ensures
        bytes_lt(a, c),
    decreases a.len(),
{
    if a.len() > 0 && b.len() > 0 && c.len() > 0 && a[0] == b[0] && b[0] == c[0] {
        lemma_bytes_lt_transitive(a.drop_first(), b.drop_first(), c.drop_first());
    }
}

/// Two names are equal exactly when their UTF-8 bytes are.
pub proof fn lemma_name_bytes_injective(a: Seq<char>, b: Seq<char>)
    ensures
        (encode_utf8(a) == encode_utf8(b)) == (a == b),
{
    if encode_utf8(a) == encode_utf8(b) {
        assert(vstd::utf8::decode_utf8(encode_utf8(a)) == a);
        assert(vstd::utf8::decode_utf8(encode_utf8(b)) == b);
    }
}

/// The outcome of comparing two byte strings.
#[derive(PartialEq, Eq, Structural, Clone, Copy)]
pub enum ByteOrder {
    Less,
    Equal,
    Greater,
}

/// Compares `a` and `b` lexicographically.
pub fn byte_order(a: &[u8], b: &[u8]) -> (r: ByteOrder)
    ensures
        (r == ByteOrder::Less) == bytes_lt(a@, b@),
        (r == ByteOrder::Equal) == (a@ == b@),
        (r == ByteOrder::Greater) == bytes_lt(b@, a@),
{
    proof {
        lemma_bytes_lt_total(a@, b@);
        lemma_bytes_lt_asymmetric(a@, b@);
        lemma_bytes_lt_irreflexive(a@);
    }
    let mut i: usize = 0;
    assert(a@.skip(0) =~= a@);
    assert(b@.skip(0) =~= b@);
    while i < a.len() && i < b.len()
        invariant
            i <= a@.len(),
            i <= b@.len(),
            a@.take(i as int) =~= b@.take(i as int),
            bytes_lt(a@, b@) == bytes_lt(a@.skip(i as int), b@.skip(i as int)),
            bytes_lt(b@, a@) == bytes_lt(b@.skip(i as int), a@.skip(i as int)),
        decreases a@.len() - i,
    {
        if a[i] < b[i] {
            return ByteOrder::Less;
        }
        if a[i] > b[i] {
            return ByteOrder::Greater;
        }
        assert(a@.skip(i as int).drop_first() =~= a@.skip(i + 1));
        assert(b@.skip(i as int).drop_first() =~= b@.skip(i + 1));
        assert(a@.take(i + 1) =~= a@.take(i as int).push(a@[i as int]));
        assert(b@.take(i + 1) =~= b@.take(i as int).push(b@[i as int]));
        i = i + 1;
    }
    if a.len() < b.len() {
        ByteOrder::Less
    } else if a.len() > b.len() {
        ByteOrder::Greater
    } else {
        assert(a@ =~= a@.take(i as int));
        assert(b@ =~= b@.take(i as int));
        ByteOrder::Equal
    }
}

/// Whether `a` and `b` hold the same text.
pub fn same_text(a: &str, b: &str) -> (same: bool)
    ensures
        same == (a@ == b@),
{
    proof {
        lemma_name_bytes_injective(a@, b@);
    }
    byte_order(a.as_bytes(), b.as_bytes()) == ByteOrder::Equal
}

/// A set of file names, kept in increasing byte order with no name twice.
#[derive(Debug, PartialEq, Eq)]
pub struct FileSet {
    names: Vec<String>,
}

impl View for FileSet {
    type V = Seq<Seq<char>>;

    /// The names, in increasing byte order.
    closed spec fn view(&self) -> Seq<Seq<char>> {
        self.names@.map_values(|s: String| s@)
    }
}

impl Clone for FileSet {
    /// A set with the same names.
    fn clone(&self) -> (copy: Self)
        ensures
            copy@ == self@,
    {
        proof {
            use_type_invariant(self);
        }
        let names = self.names.clone();
        assert(names@.map_values(|s: String| s@) =~= self@);
        FileSet { names }
    }
}

impl FileSet {
    #[verifier::type_invariant]
    spec fn increasing(self) -> bool {
        strictly_increasing(self@)
    }

    /// The empty set.
    pub fn new() -> (set: FileSet)
        ensures
            set@ == Seq::<Seq<char>>::empty(),
    {
        let set = FileSet { names: Vec::new() };
        assert(set@ =~= Seq::<Seq<char>>::empty());
        set
    }

    /// The number of names.
    pub fn len(&self) -> (n: usize)
        ensures
            n == self@.len(),
    {
        self.names.len()
    }

    /// The names in increasing byte order.
    pub fn names(&self) -> (names: &Vec<String>)
        ensures
            names@.map_values(|s: String| s@) == self@,
            strictly_increasing(self@),
    {
        proof {
            use_type_invariant(self);
        }
        &self.names
    }

    /// Whether `name` is in the set.
    pub fn contains(&self, name: &str) -> (found: bool)
        ensures
            found == self@.contains(name@),
    {
        let wanted = name.as_bytes();
        let mut i: usize = 0;
        while i < self.names.len()
            invariant
                wanted@ == encode_utf8(name@),
                i <= self@.len(),
                self@.len() == self.names@.len(),
                forall|k: int| 0 <= k < i ==> self@[k] != name@,
            decreases self@.len() - i,
        {
            let candidate = self.names[i].as_str().as_bytes();
            assert(self@[i as int] == self.names@[i as int]@);
            if byte_order(candidate, wanted) == ByteOrder::Equal {
                proof {
                    lemma_name_bytes_injective(self@[i as int], name@);
                }
                return true;
            }
            proof {
                lemma_name_bytes_injective(self@[i as int], name@);
            }
            i = i + 1;
        }
        false
    }

    /// Adds `name`; returns whether it was not yet in the set.
    pub fn insert(&mut self, name: String) -> (added: bool)
        ensures
            added == !old(self)@.contains(name@),
            final(self)@.to_set() == old(self)@.to_set().insert(name@),
            final(self)@.len() == old(self)@.len() + (if added { 1int } else { 0int }),
    {
        proof {
            use_type_invariant(&*self);
        }
        let ghost before = self@;
        let mut i: usize = 0;
        let mut at_end = true;
        while i < self.names.len()
            invariant_except_break
                at_end,
                self@ == before,
                strictly_increasing(before),
                before.len() == self.names@.len(),
                i <= before.len(),
                forall|k: int| 0 <= k < i ==> name_lt(#[trigger] before[k], name@),
            ensures
                self@ == before,
                i <= before.len(),
                forall|k: int| 0 <= k < i ==> name_lt(#[trigger] before[k], name@),
                at_end ==> i == before.len(),
                !at_end ==> i < before.len() && name_lt(name@, before[i as int]),
            decreases before.len() - i,
        {
            let candidate = self.names[i].as_str().as_bytes();
            assert(before[i as int] == self.names@[i as int]@);
            let order = byte_order(candidate, name.as_str().as_bytes());
            if order == ByteOrder::Equal {
                proof {
                    lemma_name_bytes_injective(before[i as int], name@);
                }
                assert(before.contains(name@));
                assert(before.to_set().insert(name@) =~= before.to_set());
                return false;
            }
            if order == ByteOrder::Greater {
                at_end = false;
                break;
            }
            i = i + 1;
        }
        proof {
            assert forall|k: int| i <= k < before.len() implies name_lt(name@, #[trigger] before[k]) by {
                if k > i {
                    lemma_bytes_lt_transitive(
                        encode_utf8(name@),
                        encode_utf8(before[i as int]),
                        encode_utf8(before[k]),
                    );
                }
            }
            assert forall|k: int| 0 <= k < before.len() implies before[k] != name@ by {
                lemma_bytes_lt_irreflexive(encode_utf8(name@));
            }
        }
        let ghost inserted = name@;
        let mut names: Vec<String> = Vec::new();
        std::mem::swap(&mut names, &mut self.names);
        names.insert(i, name);
        let ghost after = names@.map_values(|s: String| s@);
        assert(after =~= before.insert(i as int, inserted));
        proof {
            assert forall|a: int, b: int| 0 <= a < b < after.len() implies name_lt(
                #[trigger] after[a],
                #[trigger] after[b],
            ) by {
                if b < i {
                } else if b == i {
                } else if a < i {
                    assert(name_lt(inserted, before[b - 1]));
                    lemma_bytes_lt_transitive(
                        encode_utf8(before[a]),
                        encode_utf8(inserted),
                        encode_utf8(before[b - 1]),
                    );
                } else if a == i {
                    assert(name_lt(inserted, before[b - 1]));
                } else {
                }
            }
            assert(after.to_set() =~= before.to_set().insert(inserted)) by {
                assert forall|x: Seq<char>| after.to_set().contains(x) implies before.to_set().insert(
                    inserted,
                ).contains(x) by {
                    let k = choose|k: int| 0 <= k < after.len() && after[k] == x;
                    if k < i {
                        assert(before[k] == x);
                    } else if k > i {
                        assert(before[k - 1] == x);
                    }
                }
                assert forall|x: Seq<char>| before.to_set().insert(inserted).contains(x) implies after.to_set().contains(x) by {
                    if x == inserted {
                        assert(after[i as int] == x);
                    } else {
                        let k = choose|k: int| 0 <= k < before.len() && before[k] == x;
                        if k < i {
                            assert(after[k] == x);
                        } else {
                            assert(after[k + 1] == x);
                        }
                    }
                }
            }
        }
        self.names = names;
        true
    }

    /// Whether no name is in both sets.
    pub fn is_disjoint(&self, other: &FileSet) -> (disjoint: bool)
        ensures
            disjoint == !(exists|x: Seq<char>| self@.contains(x) && other@.contains(x)),
    {
        let mut i: usize = 0;
        while i < self.names.len()
            invariant
                i <= self@.len(),
                self@.len() == self.names@.len(),
                forall|k: int| 0 <= k < i ==> !other@.contains(#[trigger] self@[k]),
            decreases self@.len() - i,
        {
            assert(self@[i as int] == self.names@[i as int]@);
            if other.contains(self.names[i].as_str()) {
                assert(self@.contains(self@[i as int]));
                return false;
            }
            i = i + 1;
        }
        assert forall|x: Seq<char>| self@.contains(x) implies !other@.contains(x) by {
            let k = choose|k: int| 0 <= k < self@.len() && self@[k] == x;
        }
        true
    }
}

} // verus!
