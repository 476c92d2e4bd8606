use vstd::prelude::*;

verus! {

/// How many libraries are probed for the controller-state query.
pub const CANDIDATE_COUNT: usize = 5;

/// The libraries that may export the controller-state query, newest and most
/// capable first.
pub fn candidate_libraries() -> (r: Vec<&'static str>)
    ensures
        r@.len() == CANDIDATE_COUNT,
        r@[0]@ == "xinput1_4.dll"@,
        r@[1]@ == "xinput1_3.dll"@,
        r@[2]@ == "xinput9_1_0.dll"@,
        r@[3]@ == "xinput1_2.dll"@,
        r@[4]@ == "xinput1_1.dll"@,
{
    vec!["xinput1_4.dll", "xinput1_3.dll", "xinput9_1_0.dll", "xinput1_2.dll", "xinput1_1.dll"]
}

/// What the resolver does after probing one candidate.
#[derive(Clone, Copy, Debug, PartialEq, Eq, Structural)]
pub enum ResolveStep {
    /// The candidate exports the query at this address: stop.
    Found(u64),
    /// Probe the candidate at this index next.
    Probe(usize),
    /// No candidate is left: the query cannot be found.
    Exhausted,
}

/// The next step after probing candidate `index` of `count`, whose library
/// gave the address `lookup` for the query (`None` where it did not load or
/// does not export it).
pub open spec fn next_step(index: int, count: int, lookup: Option<u64>) -> ResolveStep {
    match lookup {
        Some(a) => ResolveStep::Found(a),
        None => if index + 1 < count {
            ResolveStep::Probe((index + 1) as usize)
        } else {
            ResolveStep::Exhausted
        },
    }
}

/// Decides what follows the probe of candidate `index` of `count`.
pub fn resolve_step(index: usize, count: usize, lookup: Option<u64>) -> (r: ResolveStep)
    requires
        index < count,
    ensures
        r == next_step(index as int, count as int, lookup),
{
    match lookup {
        Some(a) => ResolveStep::Found(a),
        None => if index + 1 < count {
            ResolveStep::Probe(index + 1)
        } else {
            ResolveStep::Exhausted
        },
    }
}

/// The address given by the first candidate, in order, whose lookup
/// succeeded, with its index; `None` where every lookup failed.
pub open spec fn first_found(lookups: Seq<Option<u64>>) -> Option<(int, u64)> {
    if exists|i: int| 0 <= i < lookups.len() && (#[trigger] lookups[i]) is Some {
        let i = choose|i: int|
            0 <= i < lookups.len() && lookups[i] is Some && forall|j: int|
                0 <= j < i ==> (#[trigger] lookups[j]) is None;
        Some((i, lookups[i]->0))
    } else {
        None
    }
}

/// Runs the resolver over the lookups of the candidates, in order, as they
/// turn out: `lookups[i]` is the address that candidate `i` gives, if it
/// loads and exports the query. Returns the index and address of the first
/// candidate that does, or `None` where none does.
pub fn find_entry_point(lookups: &Vec<Option<u64>>) -> (r: Option<(usize, u64)>)
    ensures
        match r {
            Some((i, a)) => {
                &&& i < lookups@.len()
                &&& lookups@[i as int] == Some(a)
                &&& forall|j: int| 0 <= j < i ==> (#[trigger] lookups@[j]) is None
            },
            None => forall|j: int| 0 <= j < lookups@.len() ==> (#[trigger] lookups@[j]) is None,
        },
        r matches Some((i, a)) ==> first_found(lookups@) == Some((i as int, a)),
        r is None ==> first_found(lookups@) is None,
{
    let count = lookups.len();
    if count == 0 {
        return None;
    }
    let mut index: usize = 0;
    loop
        invariant
            count == lookups@.len(),
            index < count,
            forall|j: int| 0 <= j < index ==> (#[trigger] lookups@[j]) is None,
        decreases count - index,
    {
        match resolve_step(index, count, lookups[index]) {
            ResolveStep::Found(a) => {
                proof {
                    let i = index as int;
                    assert(lookups@[i] is Some);
                    let c = choose|c: int|
                        0 <= c < lookups@.len() && lookups@[c] is Some && forall|j: int|
                            0 <= j < c ==> (#[trigger] lookups@[j]) is None;
                    assert(c == i) by {
                        if c < i {
                            assert(lookups@[c] is None);
                        }
                        if c > i {
                            assert(lookups@[i] is None);
                        }
                    }
                }
                return Some((index, a));
            },
            ResolveStep::Probe(next) => {
                index = next;
            },
            ResolveStep::Exhausted => {
                return None;
            },
        }
    }
}

/// The status of binding the controller functions of a library: 0 where the
/// library loaded and exports all three functions, `0x7e` (module not found)
/// where it did not load, `0x7f` (procedure not found) where one of the
/// three is missing.
pub fn load_fns_status(loaded: bool, has_capabilities: bool, has_get_state: bool, has_set_state: bool) -> (r: u32)
    ensures
        !loaded ==> r == 0x7e,
        loaded && !(has_capabilities && has_get_state && has_set_state) ==> r == 0x7f,
        loaded && has_capabilities && has_get_state && has_set_state ==> r == 0,
{
    if !loaded {
        0x7e
    } else if !has_capabilities || !has_get_state || !has_set_state {
        0x7f
    } else {
        0
    }
}

} // verus!
