//! The catalogs of triggers and effects, and exact lookup in them.
use vstd::prelude::*;

use crate::scopes::Scopes;
use crate::text::str_eq;

pub mod effects;
pub mod triggers;

verus! {

/// Entry `i` is the first whose name is `name`.
pub open spec fn first_match<T>(cat: Seq<(u64, &'static str, T)>, name: Seq<char>, i: int) -> bool {
    0 <= i < cat.len() && cat[i].1@ == name && forall|j: int| 0 <= j < i ==> cat[j].1@ != name
}

/// Some entry is named `name`.
pub open spec fn in_catalog<T>(cat: Seq<(u64, &'static str, T)>, name: Seq<char>) -> bool {
    exists|i: int| 0 <= i < cat.len() && cat[i].1@ == name
}

/// The scopes and shape of the first entry named `name`.
pub open spec fn static_entry<T>(cat: Seq<(u64, &'static str, T)>, name: Seq<char>) -> (Scopes, T) {
    let i = choose|i: int| first_match(cat, name, i);
    (Scopes::spec_from_bits_truncate(cat[i].0), cat[i].2)
}

/// The first entry named `name` is entry `i`.
pub proof fn lemma_first_match<T>(cat: Seq<(u64, &'static str, T)>, name: Seq<char>, i: int)
    requires
        first_match(cat, name, i),
    ensures
        in_catalog(cat, name),
        static_entry(cat, name) == (Scopes::spec_from_bits_truncate(cat[i].0), cat[i].2),
        static_entry(cat, name).0.wf(),
{
    let k = choose|k: int| first_match(cat, name, k);
    assert(k == i);
    Scopes::lemma_from_bits_truncate(cat[i].0);
}

/// Looks `name` up by exact match: the scopes and shape of the first entry so named.
pub fn lookup_static<T: Copy>(cat: &Vec<(u64, &'static str, T)>, name: &str) -> (r: Option<(Scopes, T)>)
    ensures
        r is Some <==> in_catalog(cat@, name@),
        r matches Some(p) ==> p == static_entry(cat@, name@) && p.0.wf(),
{
    let mut i: usize = 0;
    while i < cat.len()
        invariant
            i <= cat@.len(),
            forall|j: int| 0 <= j < i ==> cat@[j].1@ != name@,
        decreases cat@.len() - i,
    {
        let (from, s, shape) = cat[i];
        if str_eq(name, s) {
            proof {
                lemma_first_match(cat@, name@, i as int);
            }
            return Some((Scopes::from_bits_truncate(from), shape));
        }
        i = i + 1;
    }
    None
}

} // verus!
