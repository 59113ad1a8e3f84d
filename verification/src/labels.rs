//! Human-readable run labels, and the small text helpers they need:
//! taking the file name out of a target path and trimming caller-given
//! label text.

use vstd::prelude::*;

verus! {

/// `p` with every trailing separator and every trailing `.` component
/// removed, the way a path's file name is located: `foo.txt/.//` strips
/// to `foo.txt`, and `.` alone strips to nothing.
pub open spec fn spec_strip_trailing(p: Seq<char>) -> Seq<char>
    decreases p.len(),
{
    if p.len() == 0 {
        p
    } else if p[p.len() - 1] == '/' {
        spec_strip_trailing(p.drop_last())
    } else if p[p.len() - 1] == '.' && (p.len() == 1 || p[p.len() - 2] == '/') {
        spec_strip_trailing(p.drop_last())
    } else {
        p
    }
}

/// The suffix of `p` after its last separator; all of `p` when it has
/// none.
pub open spec fn spec_after_last_slash(p: Seq<char>) -> Seq<char>
    decreases p.len(),
{
    if p.len() == 0 {
        p
    } else if p[p.len() - 1] == '/' {
        Seq::empty()
    } else {
        spec_after_last_slash(p.drop_last()).push(p[p.len() - 1])
    }
}

/// The file name of a path for display purposes: its last component,
/// ignoring trailing separators and trailing `.` components, with
/// `project` standing in when the path has no usable one (empty,
/// separators only, or ending in a `..` component).
pub open spec fn spec_path_file_name(p: Seq<char>) -> Seq<char> {
    let t = spec_after_last_slash(spec_strip_trailing(p));
    if t.len() == 0 || t == ".."@ {
        "project"@
    } else {
        t
    }
}

proof fn lemma_after_indexed(p: Seq<char>, start: int)
    requires
        0 <= start <= p.len(),
        forall|j: int| start <= j < p.len() ==> p[j] != '/',
        start > 0 ==> p[start - 1] == '/',
    ensures
        spec_after_last_slash(p) == p.subrange(start, p.len() as int),
    decreases p.len(),
{
    let n = p.len() as int;
    if p.len() == 0 {
        assert(p.subrange(0, 0) =~= p);
    } else if p[n - 1] == '/' {
        assert(start == n);
        assert(p.subrange(n, n) =~= Seq::<char>::empty());
    } else {
        assert(start < n);
        lemma_after_indexed(p.drop_last(), start);
        assert(p.drop_last().subrange(start, n - 1) =~= p.subrange(start, n - 1));
        assert(p.subrange(start, n - 1).push(p[n - 1]) =~= p.subrange(start, n));
    }
}

/// Extracts the display file name of `path`, as
/// [`spec_path_file_name`] describes.
pub fn path_file_name(path: &String) -> (r: String)
    ensures
        r@ == spec_path_file_name(path@),
{
    let s = path.as_str();
    let n = s.unicode_len();
    let mut end: usize = n;
    proof {
        assert(s@.subrange(0, n as int) =~= s@);
    }
    while end > 0 && (s.get_char(end - 1) == '/' || (s.get_char(end - 1) == '.' && (end == 1
        || s.get_char(end - 2) == '/')))
        invariant
            s@ == path@,
            n == s@.len(),
            0 <= end <= n,
            spec_strip_trailing(s@) == spec_strip_trailing(s@.subrange(0, end as int)),
        decreases end,
    {
        proof {
            let q = s@.subrange(0, end as int);
            assert(q[q.len() - 1] == s@[end - 1]);
            if end >= 2 {
                assert(q[q.len() - 2] == s@[end - 2]);
            }
            assert(q.drop_last() =~= s@.subrange(0, end as int - 1));
            assert(spec_strip_trailing(q) == spec_strip_trailing(q.drop_last()));
        }
        end = end - 1;
    }
    proof {
        let q = s@.subrange(0, end as int);
        if end > 0 {
            assert(q[q.len() - 1] == s@[end - 1]);
            if end >= 2 {
                assert(q[q.len() - 2] == s@[end - 2]);
            }
        }
        assert(spec_strip_trailing(q) == q);
    }
    let mut start: usize = end;
    while start > 0 && s.get_char(start - 1) != '/'
        invariant
            s@ == path@,
            n == s@.len(),
            0 <= start <= end <= n,
            forall|j: int| start <= j < end ==> s@[j] != '/',
        decreases start,
    {
        start = start - 1;
    }
    proof {
        lemma_after_indexed(s@.subrange(0, end as int), start as int);
        assert(s@.subrange(0, end as int).subrange(start as int, end as int)
            =~= s@.subrange(start as int, end as int));
        reveal_strlit("..");
    }
    let len = end - start;
    let degenerate = len == 0 || (len == 2 && s.get_char(start) == '.' && s.get_char(start + 1)
        == '.');
    if degenerate {
        proof {
            let t = spec_after_last_slash(spec_strip_trailing(path@));
            assert(t == s@.subrange(start as int, end as int));
            if t.len() == 2 {
                assert(t =~= ".."@);
            }
        }
        "project".to_owned()
    } else {
        let t = s.substring_char(start, end);
        proof {
            let v = spec_after_last_slash(spec_strip_trailing(path@));
            assert(v == s@.subrange(start as int, end as int));
            if v == ".."@ {
                assert(v.len() == 2 && v[0] == '.' && v[1] == '.');
            }
        }
        t.to_owned()
    }
}

/// A character removed by label trimming: the Unicode white-space set,
/// the same characters `str::trim` removes — the ASCII spacing
/// characters, next line, no-break space, the Ogham space mark, the
/// typographic spaces, the line and paragraph separators, and the
/// ideographic space.
pub open spec fn spec_is_space(c: char) -> bool {
    ||| c == ' '
    ||| c == '\t'
    ||| c == '\n'
    ||| c == '\r'
    ||| c as u32 == 0x0B
    ||| c as u32 == 0x0C
    ||| c as u32 == 0x85
    ||| c as u32 == 0xA0
    ||| c as u32 == 0x1680
    ||| (0x2000 <= c as u32 && c as u32 <= 0x200A)
    ||| c as u32 == 0x2028
    ||| c as u32 == 0x2029
    ||| c as u32 == 0x202F
    ||| c as u32 == 0x205F
    ||| c as u32 == 0x3000
}

/// `s` without leading whitespace.
pub open spec fn spec_trim_start(s: Seq<char>) -> Seq<char>
    decreases s.len(),
{
    if s.len() > 0 && spec_is_space(s[0]) {
        spec_trim_start(s.subrange(1, s.len() as int))
    } else {
        s
    }
}

/// `s` without trailing whitespace.
pub open spec fn spec_trim_end(s: Seq<char>) -> Seq<char>
    decreases s.len(),
{
    if s.len() > 0 && spec_is_space(s[s.len() - 1]) {
        spec_trim_end(s.drop_last())
    } else {
        s
    }
}

/// `s` without leading and trailing whitespace.
pub open spec fn spec_trim(s: Seq<char>) -> Seq<char> {
    spec_trim_start(spec_trim_end(s))
}

proof fn lemma_trim_end_indexed(s: Seq<char>, end: int)
    requires
        0 <= end <= s.len(),
        forall|j: int| end <= j < s.len() ==> spec_is_space(s[j]),
        end > 0 ==> !spec_is_space(s[end - 1]),
    ensures
        spec_trim_end(s) == s.subrange(0, end),
    decreases s.len(),
{
    if s.len() == 0 {
        assert(s.subrange(0, 0) =~= s);
    } else if spec_is_space(s[s.len() - 1]) {
        assert(end < s.len());
        lemma_trim_end_indexed(s.drop_last(), end);
        assert(s.drop_last().subrange(0, end) =~= s.subrange(0, end));
    } else {
        assert(end == s.len());
        assert(s.subrange(0, end) =~= s);
    }
}

proof fn lemma_trim_start_indexed(s: Seq<char>, start: int)
    requires
        0 <= start <= s.len(),
        forall|j: int| 0 <= j < start ==> spec_is_space(s[j]),
        start < s.len() ==> !spec_is_space(s[start]),
    ensures
        spec_trim_start(s) == s.subrange(start, s.len() as int),
    decreases s.len(),
{
    let n = s.len() as int;
    if s.len() == 0 {
        assert(s.subrange(0, 0) =~= s);
    } else if spec_is_space(s[0]) {
        assert(start > 0);
        let tail = s.subrange(1, n);
        lemma_trim_start_indexed(tail, start - 1);
        assert(tail.subrange(start - 1, tail.len() as int) =~= s.subrange(start, n));
    } else {
        assert(start == 0);
        assert(s.subrange(0, n) =~= s);
    }
}

/// Trims ASCII whitespace from both ends of `label`.
pub fn trim_label(label: &String) -> (r: String)
    ensures
        r@ == spec_trim(label@),
{
    let s = label.as_str();
    let n = s.unicode_len();
    let mut end: usize = n;
    while end > 0 && is_space_char(s.get_char(end - 1))
        invariant
            s@ == label@,
            n == s@.len(),
            0 <= end <= n,
            forall|j: int| end <= j < n ==> spec_is_space(s@[j]),
        decreases end,
    {
        end = end - 1;
    }
    proof {
        lemma_trim_end_indexed(s@, end as int);
    }
    let mut start: usize = 0;
    while start < end && is_space_char(s.get_char(start))
        invariant
            s@ == label@,
            n == s@.len(),
            0 <= start <= end <= n,
            forall|j: int| end <= j < n ==> spec_is_space(s@[j]),
            forall|j: int| 0 <= j < start ==> spec_is_space(s@[j]),
        decreases end - start,
    {
        start = start + 1;
    }
    proof {
        lemma_trim_start_indexed(s@.subrange(0, end as int), start as int);
    }
    let t = s.substring_char(start, end);
    t.to_owned()
}

/// Whether `c` is trimmed from label ends.
pub fn is_space_char(c: char) -> (b: bool)
    ensures
        b == spec_is_space(c),
{
    let u = c as u32;
    c == ' ' || c == '\t' || c == '\n' || c == '\r' || u == 0x0B || u == 0x0C || u == 0x85
        || u == 0xA0 || u == 0x1680 || (0x2000 <= u && u <= 0x200A) || u == 0x2028 || u == 0x2029
        || u == 0x202F || u == 0x205F || u == 0x3000
}

/// The label of a batch "implement all" run: it names the execution
/// slot the run is pinned to, when one of the three slots was chosen.
pub open spec fn spec_implement_all_label(slot: Option<u8>) -> Seq<char> {
    if slot == Some(1u8) {
        "Implement All (Terminal 1)"@
    } else if slot == Some(2u8) {
        "Implement All (Terminal 2)"@
    } else if slot == Some(3u8) {
        "Implement All (Terminal 3)"@
    } else {
        "Implement All"@
    }
}

pub fn implement_all_label(slot: Option<u8>) -> (r: String)
    ensures
        r@ == spec_implement_all_label(slot),
{
    match slot {
        Some(1u8) => "Implement All (Terminal 1)".to_owned(),
        Some(2u8) => "Implement All (Terminal 2)".to_owned(),
        Some(3u8) => "Implement All (Terminal 3)".to_owned(),
        _ => "Implement All".to_owned(),
    }
}

/// The label of a single-project analysis run: `Analysis: ` and the
/// target's file name.
pub open spec fn spec_analysis_label(project_path: Seq<char>) -> Seq<char> {
    "Analysis: "@ + spec_path_file_name(project_path)
}

pub fn analysis_label(project_path: &String) -> (r: String)
    ensures
        r@ == spec_analysis_label(project_path@),
{
    let mut r = "Analysis: ".to_owned();
    let name = path_file_name(project_path);
    r.append(name.as_str());
    r
}

/// The label of a package-manager script run: `npm run ` and the script
/// name.
pub open spec fn spec_npm_label(script_name: Seq<char>) -> Seq<char> {
    "npm run "@ + script_name
}

pub fn npm_label(script_name: &String) -> (r: String)
    ensures
        r@ == spec_npm_label(script_name@),
{
    let mut r = "npm run ".to_owned();
    r.append(script_name.as_str());
    r
}

/// The label of a terminal-agent run: the caller's label trimmed, or
/// `Terminal agent` when nothing usable remains.
pub open spec fn spec_terminal_agent_label(label: Seq<char>) -> Seq<char> {
    if spec_trim(label).len() == 0 {
        "Terminal agent"@
    } else {
        spec_trim(label)
    }
}

pub fn terminal_agent_label(label: &String) -> (r: String)
    ensures
        r@ == spec_terminal_agent_label(label@),
{
    let t = trim_label(label);
    if t.as_str().unicode_len() == 0 {
        "Terminal agent".to_owned()
    } else {
        t
    }
}

/// The label of a multi-project prompt run: the caller's label, or
/// `Manual run` when none was given.
pub open spec fn spec_script_run_label(run_label: Option<Seq<char>>) -> Seq<char> {
    match run_label {
        Some(l) => l,
        None => "Manual run"@,
    }
}

pub fn script_run_label(run_label: Option<String>) -> (r: String)
    ensures
        r@ == spec_script_run_label(match run_label {
            Some(l) => Some(l@),
            None => None,
        }),
{
    match run_label {
        Some(l) => l,
        None => "Manual run".to_owned(),
    }
}

} // verus!
