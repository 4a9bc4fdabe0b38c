//! Symbol table: label name to absolute 16-bit address, built incrementally
//! during the single pass. Defining a name inserts the name itself and a
//! marker-prefixed alias, so both reference spellings resolve identically;
//! redefinition silently overwrites.

use vstd::prelude::*;

verus! {

/// The marker-prefixed alias of a label name.
pub open spec fn dotted(name: Seq<char>) -> Seq<char> {
    seq!['.'] + name
}

pub struct SymbolTable {
    entries: Vec<(String, u16)>,
}

/// The mapping held by a sequence of (name, address) entries, later entries
/// overwriting earlier ones.
pub open spec fn map_of(entries: Seq<(String, u16)>) -> Map<Seq<char>, u16>
    decreases entries.len(),
{
    if entries.len() == 0 {
        Map::empty()
    } else {
        map_of(entries.drop_last()).insert(entries.last().0@, entries.last().1)
    }
}

impl View for SymbolTable {
    type V = Map<Seq<char>, u16>;

    closed spec fn view(&self) -> Map<Seq<char>, u16> {
        map_of(self.entries@)
    }
}

proof fn lemma_map_of_found(entries: Seq<(String, u16)>, name: Seq<char>, i: int)
    requires
        0 <= i < entries.len(),
        entries[i].0@ == name,
        forall|j: int| i < j < entries.len() ==> #[trigger] entries[j].0@ != name,
    ensures
        map_of(entries).contains_key(name),
        map_of(entries)[name] == entries[i].1,
    decreases entries.len(),
{
    if i == entries.len() - 1 {
    } else {
        lemma_map_of_found(entries.drop_last(), name, i);
    }
}

proof fn lemma_map_of_absent(entries: Seq<(String, u16)>, name: Seq<char>)
    requires
        forall|j: int| 0 <= j < entries.len() ==> #[trigger] entries[j].0@ != name,
    ensures
        !map_of(entries).contains_key(name),
    decreases entries.len(),
{
    if entries.len() > 0 {
        lemma_map_of_absent(entries.drop_last(), name);
    }
}

impl SymbolTable {
    pub fn new() -> (r: SymbolTable)
        ensures
            r@ == Map::<Seq<char>, u16>::empty(),
    {
        SymbolTable { entries: Vec::new() }
    }

    /// Inserts `name` and its marker-prefixed alias, both mapped to `addr`.
    /// A name already present is silently overwritten: last write wins.
    pub fn define(&mut self, name: &str, addr: u16)
        ensures
            final(self)@ == old(self)@.insert(name@, addr).insert(dotted(name@), addr),
    {
        let ghost entries0 = self.entries@;
        let mut alias = String::new();
        alias.append(".");
        alias.append(name);
        proof {
            reveal_strlit(".");
            assert(alias@ =~= dotted(name@));
        }
        self.entries.push((name.to_owned(), addr));
        proof {
            assert(self.entries@.drop_last() =~= entries0);
        }
        let ghost entries1 = self.entries@;
        self.entries.push((alias, addr));
        proof {
            assert(self.entries@.drop_last() =~= entries1);
            assert(map_of(entries1) == map_of(entries0).insert(name@, addr));
            assert(map_of(self.entries@) =~= map_of(entries0).insert(name@, addr).insert(
                dotted(name@),
                addr,
            ));
        }
    }

    /// Looks the name up exactly as given (aliases are separate entries).
    pub fn resolve(&self, name: &String) -> (r: Option<u16>)
        ensures
            match r {
                Some(addr) => self@.contains_key(name@) && self@[name@] == addr,
                None => !self@.contains_key(name@),
            },
    {
        let mut i = self.entries.len();
        while i > 0
            invariant
                i <= self.entries.len(),
                forall|j: int|
                    i <= j < self.entries.len() ==> #[trigger] self.entries@[j].0@ != name@,
            decreases i,
        {
            i = i - 1;
            if self.entries[i].0 == *name {
                proof {
                    lemma_map_of_found(self.entries@, name@, i as int);
                }
                return Some(self.entries[i].1);
            }
        }
        proof {
            lemma_map_of_absent(self.entries@, name@);
        }
        None
    }
}

} // verus!
