//! The set of module references a declaration's type annotations require.

use vstd::prelude::*;

verus! {

/// The set of module names denoted by a sequence of name strings, later
/// entries inserted last.
spec fn spec_module_set(mods: Seq<String>) -> Set<Seq<char>>
    decreases mods.len(),
{
    if mods.len() == 0 {
        Set::empty()
    } else {
        spec_module_set(mods.drop_last()).insert(mods.last()@)
    }
}

/// Membership in the denoted set is membership of some entry's text.
proof fn lemma_module_set_contains(mods: Seq<String>, m: Seq<char>)
    ensures
        spec_module_set(mods).contains(m) <==> exists|j: int|
            0 <= j < mods.len() && mods[j]@ == m,
    decreases mods.len(),
{
    if mods.len() > 0 {
        lemma_module_set_contains(mods.drop_last(), m);
        if mods.last()@ == m {
            assert(mods[mods.len() - 1]@ == m);
        } else if spec_module_set(mods.drop_last()).contains(m) {
            let j = choose|j: int| 0 <= j < mods.drop_last().len() && mods.drop_last()[j]@ == m;
            assert(mods[j]@ == m);
        } else if exists|j: int| 0 <= j < mods.len() && mods[j]@ == m {
            let j = choose|j: int| 0 <= j < mods.len() && mods[j]@ == m;
            if j < mods.len() - 1 {
                assert(mods.drop_last()[j]@ == m);
            }
        }
    }
}

/// A sequence of pairwise-distinct names denotes a finite set of the same size.
proof fn lemma_module_set_len(mods: Seq<String>)
    requires
        forall|i: int, j: int| 0 <= i < j < mods.len() ==> mods[i]@ != mods[j]@,
    ensures
        spec_module_set(mods).finite(),
        spec_module_set(mods).len() == mods.len(),
    decreases mods.len(),
{
    broadcast use vstd::set::axiom_set_empty_len;
    broadcast use vstd::set::axiom_set_empty_finite;
    broadcast use vstd::set::axiom_set_insert_len;
    broadcast use vstd::set::axiom_set_insert_finite;

    if mods.len() > 0 {
        let front = mods.drop_last();
        lemma_module_set_len(front);
        lemma_module_set_contains(front, mods.last()@);
        if spec_module_set(front).contains(mods.last()@) {
            let j = choose|j: int| 0 <= j < front.len() && front[j]@ == mods.last()@;
            assert(mods[j]@ == mods[mods.len() - 1]@);
        }
    }
}

/// Entry-wise equal texts denote the same set.
proof fn lemma_module_set_congruent(a: Seq<String>, b: Seq<String>)
    requires
        a.len() == b.len(),
        forall|j: int| 0 <= j < a.len() ==> a[j]@ == b[j]@,
    ensures
        spec_module_set(a) == spec_module_set(b),
    decreases a.len(),
{
    if a.len() > 0 {
        assert(forall|j: int| 0 <= j < a.drop_last().len() ==> a.drop_last()[j]@ == b.drop_last()[j]@);
        lemma_module_set_congruent(a.drop_last(), b.drop_last());
        assert(a.last()@ == b.last()@);
    }
}

/// The set of module references required by one declaration's type
/// annotations, with duplicates collapsed.
pub struct ImportSet {
    mods: Vec<String>,
}

impl View for ImportSet {
    type V = Set<Seq<char>>;

    closed spec fn view(&self) -> Set<Seq<char>> {
        spec_module_set(self.mods@)
    }
}

impl ImportSet {
    /// The entries never repeat a module name.
    pub closed spec fn wf(&self) -> bool {
        forall|i: int, j: int| 0 <= i < j < self.mods@.len() ==> self.mods@[i]@ != self.mods@[j]@
    }

    /// The empty import set.
    pub fn new() -> (r: ImportSet)
        ensures
            r@ == Set::<Seq<char>>::empty(),
            r.wf(),
    {
        ImportSet { mods: Vec::new() }
    }

    /// An import set holding the one module `m`.
    pub fn single(m: String) -> (r: ImportSet)
        ensures
            r@ == Set::<Seq<char>>::empty().insert(m@),
            r.wf(),
    {
        let mut mods: Vec<String> = Vec::new();
        mods.push(m);
        proof {
            assert(mods@.drop_last() =~= Seq::<String>::empty());
            assert(mods@.last() == m);
            assert(spec_module_set(mods@) == spec_module_set(Seq::<String>::empty()).insert(m@));
        }
        ImportSet { mods }
    }

    /// Whether the set holds the module named `m`.
    pub fn contains(&self, m: &String) -> (r: bool)
        ensures
            r == self@.contains(m@),
    {
        let n = self.mods.len();
        let mut i: usize = 0;
        while i < n
            invariant
                i <= n,
                n == self.mods@.len(),
                forall|j: int| 0 <= j < i ==> self.mods@[j]@ != m@,
            decreases n - i,
        {
            if self.mods[i].eq(m) {
                proof {
                    assert(self.mods@[i as int]@ == m@);
                    assert(exists|j: int| 0 <= j < self.mods@.len() && self.mods@[j]@ == m@);
                    lemma_module_set_contains(self.mods@, m@);
                    assert(spec_module_set(self.mods@).contains(m@));
                    assert(self@.contains(m@));
                }
                return true;
            }
            i = i + 1;
        }
        proof {
            lemma_module_set_contains(self.mods@, m@);
        }
        false
    }

    /// Adds the module named `m`; a name already present stays single.
    pub fn insert(&mut self, m: String)
        requires
            old(self).wf(),
        ensures
            final(self).wf(),
            final(self)@ == old(self)@.insert(m@),
    {
        if self.contains(&m) {
            proof {
                assert(self@.insert(m@) =~= self@);
            }
        } else {
            proof {
                lemma_module_set_contains(self.mods@, m@);
            }
            let ghost before = self.mods@;
            self.mods.push(m);
            proof {
                assert(self.mods@.drop_last() =~= before);
            }
        }
    }

    /// Adds every module of `other`.
    pub fn extend_from(&mut self, other: &ImportSet)
        requires
            old(self).wf(),
        ensures
            final(self).wf(),
            final(self)@ == old(self)@ + other@,
    {
        let n = other.mods.len();
        let mut i: usize = 0;
        while i < n
            invariant
                i <= n,
                n == other.mods@.len(),
                self.wf(),
                self@ == old(self)@ + spec_module_set(other.mods@.take(i as int)),
            decreases n - i,
        {
            proof {
                assert(other.mods@.take(i as int + 1).drop_last() =~= other.mods@.take(i as int));
                assert(other.mods@.take(i as int + 1).last() == other.mods@[i as int]);
                assert(old(self)@ + spec_module_set(other.mods@.take(i as int + 1))
                    =~= (old(self)@ + spec_module_set(other.mods@.take(i as int))).insert(
                    other.mods@[i as int]@,
                ));
            }
            let entry = clone_entry(&other.mods[i]);
            self.insert(entry);
            i = i + 1;
        }
        proof {
            assert(other.mods@.take(n as int) =~= other.mods@);
        }
    }

    /// An independent copy holding the same modules.
    pub fn duplicate(&self) -> (r: ImportSet)
        requires
            self.wf(),
        ensures
            r.wf(),
            r@ == self@,
    {
        let n = self.mods.len();
        let mut mods: Vec<String> = Vec::new();
        let mut i: usize = 0;
        while i < n
            invariant
                i <= n,
                n == self.mods@.len(),
                mods@.len() == i,
                forall|j: int| 0 <= j < i ==> mods@[j]@ == self.mods@[j]@,
            decreases n - i,
        {
            mods.push(clone_entry(&self.mods[i]));
            i = i + 1;
        }
        proof {
            lemma_module_set_congruent(mods@, self.mods@);
        }
        ImportSet { mods }
    }

    /// How many distinct modules the set holds.
    pub fn len(&self) -> (r: usize)
        requires
            self.wf(),
        ensures
            self@.finite(),
            r == self@.len(),
    {
        proof {
            lemma_module_set_len(self.mods@);
        }
        self.mods.len()
    }
}

/// An owned copy of one name string.
fn clone_entry(s: &String) -> (r: String)
    ensures
        r@ == s@,
{
    s.clone()
}

} // verus!
