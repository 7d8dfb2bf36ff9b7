use vstd::prelude::*;

use crate::text::{i32_of, lowercase, parse_u32, to_lowercase, u32_of, views};

verus! {

/// Entry `i` of `names` is, ignoring case, the wanted name.
pub open spec fn name_matches(names: Seq<Seq<char>>, wanted: Seq<char>, i: int) -> bool {
    lowercase(names[i]) == lowercase(wanted)
}

/// Entry `i` is the first that matches the wanted name.
pub open spec fn first_named(names: Seq<Seq<char>>, wanted: Seq<char>, i: int) -> bool {
    &&& 0 <= i < names.len()
    &&& name_matches(names, wanted, i)
    &&& forall|j: int| 0 <= j < i ==> !name_matches(names, wanted, j)
}

/// The position of the first entry that matches the wanted name, ignoring case.
pub open spec fn name_position(names: Seq<Seq<char>>, wanted: Seq<char>) -> Option<int> {
    if exists|i: int| first_named(names, wanted, i) {
        Some(choose|i: int| first_named(names, wanted, i))
    } else {
        None
    }
}

/// The id that an identifier typed by a player names: the number it reads as,
/// or else one more than the position of the first entry of `names` equal to
/// it ignoring case.
pub open spec fn resolved_id(identifier: Seq<char>, names: Seq<Seq<char>>) -> Option<i32> {
    match u32_of(identifier) {
        Some(id) => Some(id as i32),
        None => match name_position(names, identifier) {
            Some(i) => Some((i + 1) as i32),
            None => None,
        },
    }
}

proof fn lemma_first_named_unique(names: Seq<Seq<char>>, wanted: Seq<char>, i: int, j: int)
    requires
        first_named(names, wanted, i),
        first_named(names, wanted, j),
    ensures
        i == j,
{
    if i < j {
        assert(!name_matches(names, wanted, i));
    } else if j < i {
        assert(!name_matches(names, wanted, j));
    }
}

/// The position of the first of `names` equal to `wanted` ignoring case.
pub fn find_named(names: &Vec<String>, wanted: &str) -> (r: Option<usize>)
    ensures
        match r {
            Some(i) => name_position(views(names@), wanted@) == Some(i as int),
            None => name_position(views(names@), wanted@) is None,
        },
{
    let ghost all = views(names@);
    let target = to_lowercase(wanted);
    let mut i: usize = 0;
    while i < names.len()
        invariant
            i <= names@.len(),
            all == views(names@),
            target@ == lowercase(wanted@),
            forall|j: int| 0 <= j < i ==> !name_matches(all, wanted@, j),
        decreases names@.len() - i,
    {
        let lower = to_lowercase(names[i].as_str());
        assert(all[i as int] == names@[i as int]@);
        if lower == target {
            assert(first_named(all, wanted@, i as int));
            proof {
                let k = choose|k: int| first_named(all, wanted@, k);
                lemma_first_named_unique(all, wanted@, i as int, k);
            }
            return Some(i);
        }
        i = i + 1;
    }
    assert(!exists|k: int| first_named(all, wanted@, k));
    None
}

/// The id an identifier typed by a player names (see [`resolved_id`]).
pub fn resolve_id(identifier: &String, names: &Vec<String>) -> (r: Option<i32>)
    requires
        names@.len() < i32::MAX,
    ensures
        r == resolved_id(identifier@, views(names@)),
{
    match parse_u32(identifier.as_str()) {
        Some(id) => Some(id as i32),
        None => match find_named(names, identifier.as_str()) {
            Some(i) => Some(i as i32 + 1),
            None => None,
        },
    }
}

/// Reads an argument as an `i32`; the caller has made sure that it reads.
pub fn read_i32(s: &String) -> (r: i32)
    requires
        i32_of(s@) is Some,
    ensures
        Some(r) == i32_of(s@),
{
    match crate::text::parse_i32(s.as_str()) {
        Some(v) => v,
        None => 0,
    }
}

} // verus!
