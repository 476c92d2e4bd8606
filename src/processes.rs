use vstd::prelude::*;
use vstd::string::*;

verus! {

/// What the operating system reports of one running process.
pub struct ProcessInfo {
    pub pid: u32,
    /// The file name of the process's executable.
    pub name: String,
    /// The file names of the modules loaded in the process; `None` where the
    /// process could not be opened or its modules could not be listed.
    pub module_names: Option<Vec<String>>,
}

/// The processes that can be offered, by executable name and process id.
pub type AvailableProcesses = Vec<(String, u32)>;

/// The name prefix of the controller libraries, in lower case.
pub open spec fn xinput_prefix() -> Seq<char> {
    seq!['x', 'i', 'n', 'p', 'u', 't']
}

/// Whether `c` is the lower-case letter `lower` in either case.
pub open spec fn matches_ignoring_case(c: char, lower: char) -> bool {
    c == lower || ('A' <= c <= 'Z' && (c as u32) + 32 == lower as u32)
}

/// Whether a module file name starts with `xinput`, in any ASCII case.
pub open spec fn is_xinput_module(name: Seq<char>) -> bool {
    &&& name.len() >= xinput_prefix().len()
    &&& forall|i: int|
        0 <= i < xinput_prefix().len() ==> matches_ignoring_case(
            #[trigger] name[i],
            xinput_prefix()[i],
        )
}

/// Whether the process has a controller library loaded.
pub open spec fn uses_xinput(p: ProcessInfo) -> bool {
    match p.module_names {
        Some(ms) => exists|i: int| 0 <= i < ms@.len() && is_xinput_module((#[trigger] ms@[i])@),
        None => false,
    }
}

/// The name and id of each process that has a controller library loaded, in
/// the order given.
pub open spec fn available_of(ps: Seq<ProcessInfo>) -> Seq<(Seq<char>, u32)>
    decreases ps.len(),
{
    if ps.len() == 0 {
        Seq::empty()
    } else {
        let rest = available_of(ps.drop_last());
        if uses_xinput(ps.last()) {
            rest.push((ps.last().name@, ps.last().pid))
        } else {
            rest
        }
    }
}

/// The view of a list of available processes.
pub open spec fn available_view(v: Seq<(String, u32)>) -> Seq<(Seq<char>, u32)> {
    v.map_values(|e: (String, u32)| (e.0@, e.1))
}

/// Whether a module file name starts with `xinput`, in any ASCII case.
pub fn is_xinput_module_name(name: &str) -> (r: bool)
    ensures
        r == is_xinput_module(name@),
{
    let prefix: [char; 6] = ['x', 'i', 'n', 'p', 'u', 't'];
    assert(prefix@ =~= xinput_prefix());
    if name.unicode_len() < 6 {
        return false;
    }
    let mut i: usize = 0;
    while i < 6
        invariant
            prefix@ == xinput_prefix(),
            name@.len() >= 6,
            i <= 6,
            forall|j: int| 0 <= j < i ==> matches_ignoring_case(#[trigger] name@[j], xinput_prefix()[j]),
        decreases 6 - i,
    {
        let c = name.get_char(i);
        let lower = prefix[i];
        if !(c == lower || ('A' <= c && c <= 'Z' && (c as u32) + 32 == lower as u32)) {
            return false;
        }
        i += 1;
    }
    true
}

/// Whether a process has a controller library loaded.
fn process_uses_xinput(p: &ProcessInfo) -> (r: bool)
    ensures
        r == uses_xinput(*p),
{
    match &p.module_names {
        Some(ms) => {
            let mut i: usize = 0;
            while i < ms.len()
                invariant
                    p.module_names == Some(*ms),
                    i <= ms@.len(),
                    forall|j: int| 0 <= j < i ==> !is_xinput_module((#[trigger] ms@[j])@),
                decreases ms@.len() - i,
            {
                if is_xinput_module_name(ms[i].as_str()) {
                    proof {
                        let v = p.module_names->0;
                        assert(v@[i as int] == ms@[i as int]);
                        assert(is_xinput_module(v@[i as int]@));
                    }
                    return true;
                }
                i += 1;
            }
            false
        },
        None => false,
    }
}

/// The processes that can be offered for interception: those that have a
/// controller library loaded, by executable name and id, in the order given.
pub fn get_available_processes(processes: &Vec<ProcessInfo>) -> (r: AvailableProcesses)
    ensures
        available_view(r@) == available_of(processes@),
{
    let ghost ps = processes@;
    let mut out: AvailableProcesses = Vec::new();
    let mut j: usize = 0;
    proof {
        assert(available_view(out@) =~= available_of(ps.subrange(0, 0)));
    }
    while j < processes.len()
        invariant
            ps == processes@,
            j <= ps.len(),
            available_view(out@) == available_of(ps.subrange(0, j as int)),
        decreases ps.len() - j,
    {
        proof {
            assert(ps.subrange(0, j + 1).drop_last() =~= ps.subrange(0, j as int));
        }
        let p = &processes[j];
        if process_uses_xinput(p) {
            let ghost before = out@;
            out.push((p.name.clone(), p.pid));
            proof {
                assert(available_view(out@) =~= available_view(before).push((p.name@, p.pid)));
            }
        }
        j += 1;
    }
    proof {
        assert(ps.subrange(0, ps.len() as int) =~= ps);
    }
    out
}

} // verus!
