use crate::gamepad::{target_of, GamepadInput};
use crate::keys::{get_virtual_keycode, keycode_of, same_text, VirtualKeyCode};
use vstd::prelude::*;
use vstd::string::*;

verus! {

/// What `str::trim` leaves of a string.
pub uninterp spec fn trimmed(s: Seq<char>) -> Seq<char>;

/// What `str::to_uppercase` makes of a string.
pub uninterp spec fn uppercased(s: Seq<char>) -> Seq<char>;

/// Relies on `str::trim`: the string without its leading and trailing
/// whitespace, which depends on the characters alone.
#[verifier::external_body]
fn trim_text<'a>(s: &'a str) -> (r: &'a str)
    ensures
        r@ == trimmed(s@),
{
    s.trim()
}

/// Relies on `str::to_uppercase`: the upper-case form of the string, which
/// depends on the characters alone.
#[verifier::external_body]
fn upper_text(s: &str) -> (r: String)
    ensures
        r@ == uppercased(s@),
{
    s.to_uppercase()
}

/// A configuration key or value as it is interpreted: trimmed, then upper-cased.
pub open spec fn normalized(s: Seq<char>) -> Seq<char> {
    uppercased(trimmed(s))
}

/// The separator between a key and its value.
pub open spec fn is_sep(c: char) -> bool {
    c == '='
}

/// The number of separators in a line.
pub open spec fn sep_count(s: Seq<char>) -> nat
    decreases s.len(),
{
    if s.len() == 0 {
        0
    } else {
        sep_count(s.drop_last()) + if is_sep(s.last()) {
            1nat
        } else {
            0nat
        }
    }
}

/// The position of the last separator in a line, or -1 where it has none.
pub open spec fn sep_index(s: Seq<char>) -> int
    decreases s.len(),
{
    if s.len() == 0 {
        -1
    } else if is_sep(s.last()) {
        s.len() - 1
    } else {
        sep_index(s.drop_last())
    }
}

/// The key and value that a line assigns: a line with exactly one separator
/// assigns the normalized text before it to the normalized text after it;
/// other lines assign nothing.
pub open spec fn line_entry(line: Seq<char>) -> Option<(Seq<char>, Seq<char>)> {
    if sep_count(line) == 1 {
        let p = sep_index(line);
        Some((normalized(line.subrange(0, p)), normalized(line.subrange(p + 1, line.len() as int))))
    } else {
        None
    }
}

proof fn lemma_sep_index_bounds(s: Seq<char>)
    ensures
        -1 <= sep_index(s) < s.len(),
        sep_index(s) >= 0 ==> is_sep(s[sep_index(s)]),
        sep_index(s) == -1 <==> sep_count(s) == 0,
    decreases s.len(),
{
    if s.len() > 0 {
        lemma_sep_index_bounds(s.drop_last());
    }
}

/// Reads the key and value that one line assigns.
fn parse_line(line: &str) -> (r: Option<(String, String)>)
    ensures
        match r {
            Some(e) => line_entry(line@) == Some((e.0@, e.1@)),
            None => line_entry(line@) is None,
        },
{
    let n = line.unicode_len();
    let mut count: usize = 0;
    let mut pos: usize = 0;
    let mut found = false;
    let mut i: usize = 0;
    while i < n
        invariant
            n == line@.len(),
            i <= n,
            count == sep_count(line@.subrange(0, i as int)),
            count <= i,
            found == (sep_index(line@.subrange(0, i as int)) >= 0),
            found ==> pos == sep_index(line@.subrange(0, i as int)),
        decreases n - i,
    {
        let c = line.get_char(i);
        proof {
            assert(line@.subrange(0, i + 1).drop_last() =~= line@.subrange(0, i as int));
            lemma_sep_index_bounds(line@.subrange(0, i as int));
        }
        if c == '=' {
            count = count + 1;
            pos = i;
            found = true;
        }
        i += 1;
    }
    proof {
        assert(line@.subrange(0, n as int) =~= line@);
        lemma_sep_index_bounds(line@);
    }
    if count != 1 {
        return None;
    }
    let key = upper_text(trim_text(line.substring_char(0, pos)));
    let value = upper_text(trim_text(line.substring_char(pos + 1, n)));
    Some((key, value))
}

/// A table of configuration keys and their values, in order of first assignment.
pub type Entries = Seq<(Seq<char>, Seq<char>)>;

/// The text split at each line feed.
pub open spec fn lines_of(t: Seq<char>) -> Seq<Seq<char>>
    decreases t.len(),
{
    if t.len() == 0 {
        seq![Seq::empty()]
    } else {
        let ls = lines_of(t.drop_last());
        if t.last() == '\n' {
            ls.push(Seq::empty())
        } else {
            ls.update(ls.len() - 1, ls.last().push(t.last()))
        }
    }
}

/// Whether no key occurs twice.
pub open spec fn keys_distinct(a: Entries) -> bool {
    forall|i: int, j: int| 0 <= i < j < a.len() ==> a[i].0 != a[j].0
}

/// Whether `k` is a key of the table.
pub open spec fn has_key(a: Entries, k: Seq<char>) -> bool {
    exists|i: int| 0 <= i < a.len() && (#[trigger] a[i]).0 == k
}

/// The value of `k` in the table.
pub open spec fn lookup(a: Entries, k: Seq<char>) -> Option<Seq<char>> {
    if has_key(a, k) {
        Some(a[choose|i: int| 0 <= i < a.len() && (#[trigger] a[i]).0 == k].1)
    } else {
        None
    }
}

/// The table with `k` set to `v`: in its place where `k` is a key, else at
/// the end.
pub open spec fn upsert(a: Entries, k: Seq<char>, v: Seq<char>) -> Entries {
    if has_key(a, k) {
        a.update(choose|i: int| 0 <= i < a.len() && (#[trigger] a[i]).0 == k, (k, v))
    } else {
        a.push((k, v))
    }
}

/// The table that a sequence of lines builds: each line that assigns a key
/// sets it, so a later line for the same key replaces an earlier one.
pub open spec fn entries_of_lines(lines: Seq<Seq<char>>) -> Entries
    decreases lines.len(),
{
    if lines.len() == 0 {
        Seq::empty()
    } else {
        let a = entries_of_lines(lines.drop_last());
        match line_entry(lines.last()) {
            Some(e) => upsert(a, e.0, e.1),
            None => a,
        }
    }
}

/// The table that a configuration text builds.
pub open spec fn entries_of(t: Seq<char>) -> Entries {
    entries_of_lines(lines_of(t))
}

/// The gamepad mapping of a table: the entries whose key names a gamepad
/// input and whose value names a key, in the table's order.
pub open spec fn mapping_of(a: Entries) -> Seq<(GamepadInput, VirtualKeyCode)>
    decreases a.len(),
{
    if a.len() == 0 {
        Seq::empty()
    } else {
        let m = mapping_of(a.drop_last());
        match (target_of(a.last().0), keycode_of(a.last().1)) {
            (Some(g), Some(c)) => m.push((g, c)),
            _ => m,
        }
    }
}

/// Whether the diagnostic console is asked for: the value of
/// `ENABLE_CONSOLE` is `TRUE` or `1`; without that key, it is.
pub open spec fn console_flag(a: Entries) -> bool {
    match lookup(a, "ENABLE_CONSOLE"@) {
        Some(v) => v == "TRUE"@ || v == "1"@,
        None => true,
    }
}

/// The view of a table held as strings.
pub open spec fn entries_view(v: Seq<(String, String)>) -> Entries {
    v.map_values(|e: (String, String)| (e.0@, e.1@))
}

/// Sets `key` to `value` in the table.
fn upsert_entry(table: &mut Vec<(String, String)>, key: String, value: String)
    requires
        keys_distinct(entries_view(old(table)@)),
    ensures
        entries_view(final(table)@) == upsert(entries_view(old(table)@), key@, value@),
        keys_distinct(entries_view(final(table)@)),
{
    let ghost a = entries_view(table@);
    let mut i: usize = 0;
    while i < table.len()
        invariant
            a == entries_view(table@),
            table@ == old(table)@,
            keys_distinct(a),
            i <= table@.len(),
            forall|j: int| 0 <= j < i ==> a[j].0 != key@,
        decreases table@.len() - i,
    {
        if same_text(table[i].0.as_str(), key.as_str()) {
            proof {
                assert(a[i as int].0 == key@);
                assert(has_key(a, key@));
                let c = choose|j: int| 0 <= j < a.len() && (#[trigger] a[j]).0 == key@;
                assert(c == i);
            }
            table.set(i, (key, value));
            proof {
                assert(entries_view(table@) =~= a.update(i as int, (key@, value@)));
            }
            return;
        }
        i += 1;
    }
    proof {
        assert(!has_key(a, key@));
    }
    table.push((key, value));
    proof {
        assert(entries_view(table@) =~= a.push((key@, value@)));
    }
}

/// Applies one line to the table.
fn add_line(table: &mut Vec<(String, String)>, line: &str)
    requires
        keys_distinct(entries_view(old(table)@)),
    ensures
        entries_view(final(table)@) == match line_entry(line@) {
            Some(e) => upsert(entries_view(old(table)@), e.0, e.1),
            None => entries_view(old(table)@),
        },
        keys_distinct(entries_view(final(table)@)),
{
    match parse_line(line) {
        Some((key, value)) => upsert_entry(table, key, value),
        None => {},
    }
}

/// Builds the table of a configuration text, line by line.
fn read_entries(text: &str) -> (r: Vec<(String, String)>)
    ensures
        entries_view(r@) == entries_of(text@),
        keys_distinct(entries_view(r@)),
{
    let n = text.unicode_len();
    let mut table: Vec<(String, String)> = Vec::new();
    let ghost mut done: Seq<Seq<char>> = Seq::empty();
    let mut start: usize = 0;
    let mut i: usize = 0;
    proof {
        let e = Seq::<char>::empty();
        assert(text@.subrange(0, 0) =~= e);
        assert(lines_of(e) == seq![e]);
        assert(seq![e] =~= done.push(e));
        assert(entries_view(table@) =~= Seq::empty());
    }
    while i < n
        invariant
            n == text@.len(),
            start <= i <= n,
            lines_of(text@.subrange(0, i as int)) == done.push(text@.subrange(start as int, i as int)),
            entries_view(table@) == entries_of_lines(done),
            keys_distinct(entries_view(table@)),
        decreases n - i,
    {
        let ghost t = text@;
        proof {
            assert(t.subrange(0, i + 1).drop_last() =~= t.subrange(0, i as int));
        }
        if text.get_char(i) == '\n' {
            let line = text.substring_char(start, i);
            add_line(&mut table, line);
            proof {
                let old_done = done;
                done = done.push(t.subrange(start as int, i as int));
                assert(done.drop_last() =~= old_done);
                assert(t.subrange(i + 1, i + 1) =~= Seq::<char>::empty());
            }
            start = i + 1;
        } else {
            proof {
                assert(t.subrange(start as int, i + 1) =~= t.subrange(start as int, i as int).push(t[i as int]));
                assert(done.push(t.subrange(start as int, i as int)).update(
                    done.len() as int,
                    t.subrange(start as int, i + 1),
                ) =~= done.push(t.subrange(start as int, i + 1)));
            }
        }
        i += 1;
    }
    let line = text.substring_char(start, n);
    add_line(&mut table, line);
    proof {
        let old_done = done;
        done = done.push(text@.subrange(start as int, n as int));
        assert(done.drop_last() =~= old_done);
        assert(text@.subrange(0, n as int) =~= text@);
    }
    table
}

/// Whether the table asks for the diagnostic console.
fn console_enabled(table: &Vec<(String, String)>) -> (r: bool)
    requires
        keys_distinct(entries_view(table@)),
    ensures
        r == console_flag(entries_view(table@)),
{
    let ghost a = entries_view(table@);
    let mut found: Option<usize> = None;
    let mut j: usize = 0;
    while j < table.len()
        invariant
            a == entries_view(table@),
            j <= table@.len(),
            found matches Some(k) ==> k < table@.len() && a[k as int].0 == "ENABLE_CONSOLE"@,
            found is None ==> forall|l: int| 0 <= l < j ==> a[l].0 != "ENABLE_CONSOLE"@,
        decreases table@.len() - j,
    {
        if same_text(table[j].0.as_str(), "ENABLE_CONSOLE") {
            found = Some(j);
        }
        j += 1;
    }
    match found {
        Some(k) => {
            proof {
                assert(has_key(a, "ENABLE_CONSOLE"@));
                let c = choose|i: int| 0 <= i < a.len() && (#[trigger] a[i]).0 == "ENABLE_CONSOLE"@;
                assert(c == k);
            }
            let value = table[k].1.as_str();
            same_text(value, "TRUE") || same_text(value, "1")
        },
        None => true,
    }
}

/// The gamepad mapping of a table.
fn gamepad_mapping(table: &Vec<(String, String)>) -> (r: Vec<(GamepadInput, VirtualKeyCode)>)
    ensures
        r@ == mapping_of(entries_view(table@)),
{
    let ghost a = entries_view(table@);
    let mut out: Vec<(GamepadInput, VirtualKeyCode)> = Vec::new();
    let mut j: usize = 0;
    while j < table.len()
        invariant
            a == entries_view(table@),
            j <= table@.len(),
            out@ == mapping_of(a.subrange(0, j as int)),
        decreases table@.len() - j,
    {
        proof {
            assert(a.subrange(0, j + 1).drop_last() =~= a.subrange(0, j as int));
        }
        let target = GamepadInput::from_str(table[j].0.as_str());
        let code = get_virtual_keycode(table[j].1.as_str());
        match (target, code) {
            (Ok(g), Some(c)) => out.push((g, c)),
            _ => {},
        }
        j += 1;
    }
    proof {
        assert(a.subrange(0, a.len() as int) =~= a);
    }
    out
}

/// The settings read from a configuration text.
pub struct Config {
    /// Whether a diagnostic console is wanted.
    pub enable_console: bool,
    /// Which gamepad input each key drives.
    pub keys_to_gamepad_map: Vec<(GamepadInput, VirtualKeyCode)>,
}

impl Config {
    /// Reads a configuration text: one `KEY=VALUE` per line, both sides
    /// trimmed and upper-cased, the last line for a key winning; keys that
    /// name no gamepad input and values that name no key are left out.
    pub fn from_file(file: String) -> (r: Config)
        ensures
            r.enable_console == console_flag(entries_of(file@)),
            r.keys_to_gamepad_map@ == mapping_of(entries_of(file@)),
            forall|i: int|
                0 <= i < r.keys_to_gamepad_map@.len() ==> (
                #[trigger] r.keys_to_gamepad_map@[i]).0.is_well_formed(),
    {
        proof {
            lemma_mapping_well_formed(entries_of(file@));
        }
        let table = read_entries(file.as_str());
        let enable_console = console_enabled(&table);
        let keys_to_gamepad_map = gamepad_mapping(&table);
        Config { enable_console, keys_to_gamepad_map }
    }
}

/// The value given to `k` by the last of the lines that assigns it, if any does.
pub open spec fn last_value(lines: Seq<Seq<char>>, k: Seq<char>) -> Option<Seq<char>>
    decreases lines.len(),
{
    if lines.len() == 0 {
        None
    } else {
        match line_entry(lines.last()) {
            Some(e) => if e.0 == k {
                Some(e.1)
            } else {
                last_value(lines.drop_last(), k)
            },
            None => last_value(lines.drop_last(), k),
        }
    }
}

proof fn lemma_upsert(a: Entries, k: Seq<char>, v: Seq<char>, q: Seq<char>)
    requires
        keys_distinct(a),
    ensures
        keys_distinct(upsert(a, k, v)),
        lookup(upsert(a, k, v), q) == if q == k {
            Some(v)
        } else {
            lookup(a, q)
        },
{
    let b = upsert(a, k, v);
    if has_key(a, k) {
        let i = choose|i: int| 0 <= i < a.len() && (#[trigger] a[i]).0 == k;
        assert(b == a.update(i, (k, v)));
        assert forall|x: int, y: int| 0 <= x < y < b.len() implies b[x].0 != b[y].0 by {
            if x != i && y != i {
                assert(a[x].0 != a[y].0);
            }
        }
        if q == k {
            assert(b[i].0 == k);
            let c = choose|c: int| 0 <= c < b.len() && (#[trigger] b[c]).0 == q;
            assert(c == i);
        } else if has_key(a, q) {
            let c = choose|c: int| 0 <= c < a.len() && (#[trigger] a[c]).0 == q;
            assert(b[c].0 == q);
            let d = choose|d: int| 0 <= d < b.len() && (#[trigger] b[d]).0 == q;
            assert(d == c);
        } else {
            assert forall|c: int| 0 <= c < b.len() implies (#[trigger] b[c]).0 != q by {
                if c != i {
                    assert(a[c].0 != q);
                }
            }
        }
    } else {
        assert(b == a.push((k, v)));
        assert forall|x: int, y: int| 0 <= x < y < b.len() implies b[x].0 != b[y].0 by {
            if y < a.len() {
                assert(a[x].0 != a[y].0);
            } else {
                assert(a[x].0 != k);
            }
        }
        if q == k {
            assert(b[a.len() as int].0 == k);
            let c = choose|c: int| 0 <= c < b.len() && (#[trigger] b[c]).0 == q;
            if c < a.len() {
                assert(a[c].0 == k);
            }
        } else if has_key(a, q) {
            let c = choose|c: int| 0 <= c < a.len() && (#[trigger] a[c]).0 == q;
            assert(b[c].0 == q);
            let d = choose|d: int| 0 <= d < b.len() && (#[trigger] b[d]).0 == q;
            assert(d == c);
        } else {
            assert forall|c: int| 0 <= c < b.len() implies (#[trigger] b[c]).0 != q by {
                if c < a.len() {
                    assert(a[c].0 != q);
                }
            }
        }
    }
}

/// Of several lines that assign the same key, the last one wins: the table
/// holds each key once, with the value of the last line that assigns it.
pub proof fn lemma_last_line_wins(lines: Seq<Seq<char>>, k: Seq<char>)
    ensures
        keys_distinct(entries_of_lines(lines)),
        lookup(entries_of_lines(lines), k) == last_value(lines, k),
    decreases lines.len(),
{
    if lines.len() > 0 {
        let d = lines.drop_last();
        lemma_last_line_wins(d, k);
        match line_entry(lines.last()) {
            Some(e) => lemma_upsert(entries_of_lines(d), e.0, e.1, k),
            None => {},
        }
    }
}

proof fn lemma_mapping_well_formed(a: Entries)
    ensures
        mapping_of(a).len() <= a.len(),
        forall|i: int| 0 <= i < mapping_of(a).len() ==> (#[trigger] mapping_of(a)[i]).0.is_well_formed(),
    decreases a.len(),
{
    if a.len() > 0 {
        lemma_mapping_well_formed(a.drop_last());
        let m = mapping_of(a.drop_last());
        if let (Some(g), Some(c)) = (target_of(a.last().0), keycode_of(a.last().1)) {
            assert(g.is_well_formed());
            assert forall|i: int| 0 <= i < m.push((g, c)).len() implies (#[trigger] m.push((g, c))[i]).0.is_well_formed() by {
                if i < m.len() {
                    assert(m.push((g, c))[i] == m[i]);
                }
            }
        }
    }
}

} // verus!
