//! The table of macro definitions met while reading a file: each
//! definition belongs to a section, and a later definition of the same
//! name in the same section replaces the earlier one.

use vstd::prelude::*;

verus! {

/// The map that a list of definitions `(section, name, value)` gives, the later ones winning.
pub open spec fn definitions_map(e: Seq<(Seq<char>, Seq<char>, Seq<char>)>) -> Map<
    (Seq<char>, Seq<char>),
    Seq<char>,
>
    decreases e.len(),
{
    if e.len() == 0 {
        Map::empty()
    } else {
        definitions_map(e.drop_last()).insert((e.last().0, e.last().1), e.last().2)
    }
}

/// Definitions after `i` that do not define `k` leave its value as the definitions up to `i` give it.
proof fn lemma_definitions_suffix(
    e: Seq<(Seq<char>, Seq<char>, Seq<char>)>,
    i: int,
    k: (Seq<char>, Seq<char>),
)
    requires
        0 <= i <= e.len(),
        forall|j: int| i <= j < e.len() ==> ((#[trigger] e[j]).0, e[j].1) != k,
    ensures
        definitions_map(e).contains_key(k) == definitions_map(e.take(i)).contains_key(k),
        definitions_map(e).contains_key(k) ==> definitions_map(e)[k] == definitions_map(
            e.take(i),
        )[k],
    decreases e.len() - i,
{
    if i == e.len() {
        assert(e.take(i) =~= e);
    } else {
        let d = e.drop_last();
        assert forall|j: int| i <= j < d.len() implies ((#[trigger] d[j]).0, d[j].1) != k by {
            assert(d[j] == e[j]);
        }
        lemma_definitions_suffix(d, i, k);
        assert(d.take(i) =~= e.take(i));
    }
}

/// Macro definitions, by section and name.
#[derive(Debug)]
pub struct MacroMap {
    entries: Vec<(String, String, String)>,
}

impl View for MacroMap {
    type V = Map<(Seq<char>, Seq<char>), Seq<char>>;

    closed spec fn view(&self) -> Self::V {
        definitions_map(self.entries.deep_view())
    }
}

impl MacroMap {
    /// A table with no definitions.
    pub fn new() -> (r: MacroMap)
        ensures
            r@ == Map::<(Seq<char>, Seq<char>), Seq<char>>::empty(),
    {
        let r = MacroMap { entries: Vec::new() };
        assert(r.entries.deep_view() =~= Seq::<(Seq<char>, Seq<char>, Seq<char>)>::empty());
        r
    }

    /// Defines `name` as `value` in `section`, replacing an earlier definition.
    pub fn insert(&mut self, section: String, name: String, value: String)
        ensures
            final(self)@ == old(self)@.insert((section@, name@), value@),
    {
        let ghost before = self.entries.deep_view();
        self.entries.push((section, name, value));
        assert(self.entries.deep_view().drop_last() =~= before);
    }

    /// The value of `name` in `section`.
    pub fn get(&self, section: &String, name: &String) -> (r: Option<String>)
        ensures
            match r {
                Some(v) => self@.contains_key((section@, name@)) && self@[(section@, name@)]
                    == v@,
                None => !self@.contains_key((section@, name@)),
            },
    {
        let ghost e = self.entries.deep_view();
        let ghost k = (section@, name@);
        let mut i = self.entries.len();
        while i > 0
            invariant
                i <= self.entries.len(),
                e == self.entries.deep_view(),
                k == (section@, name@),
                forall|j: int| i <= j < e.len() ==> ((#[trigger] e[j]).0, e[j].1) != k,
            decreases i,
        {
            let (s, n, v) = &self.entries[i - 1];
            if *s == *section && *n == *name {
                proof {
                    lemma_definitions_suffix(e, i as int, k);
                    assert(e.take(i as int).drop_last() =~= e.take(i - 1));
                }
                return Some(v.clone());
            }
            i -= 1;
        }
        proof {
            lemma_definitions_suffix(e, 0, k);
            assert(e.take(0) =~= Seq::<(Seq<char>, Seq<char>, Seq<char>)>::empty());
        }
        None
    }
}

} // verus!
