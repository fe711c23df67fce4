//! Paths as text: joining in the manner of a Unix `PathBuf`, the final
//! component of a path, the check that keeps a requested path inside the area
//! it is joined to, and comparing texts.

use vstd::prelude::*;

verus! {

/// Whether `p` starts at the file-system root (a Unix absolute path).
pub open spec fn is_absolute(p: Seq<char>) -> bool {
    p.len() > 0 && p[0] == '/'
}

/// `base` joined with `p`: an absolute `p` replaces `base`; otherwise a separator
/// is put between them unless `base` is empty or already ends with one.
pub open spec fn spec_join(base: Seq<char>, p: Seq<char>) -> Seq<char> {
    if is_absolute(p) {
        p
    } else if base.len() > 0 && base.last() != '/' {
        base + seq!['/'] + p
    } else {
        base + p
    }
}

/// Whether the two characters `..` stand next to each other somewhere in `s`.
pub open spec fn has_parent_reference(s: Seq<char>) -> bool {
    exists|i: int| 0 <= i && i + 1 < s.len() && s[i] == '.' && #[trigger] s[i + 1] == '.'
}

/// Whether two texts are the same.
pub fn str_eq(a: &str, b: &str) -> (res: bool)
    ensures
        res == (a@ == b@),
{
    let n = a.unicode_len();
    if n != b.unicode_len() {
        return false;
    }
    for i in 0..n
        invariant
            n == a@.len(),
            n == b@.len(),
            forall|j: int| 0 <= j < i ==> a@[j] == b@[j],
    {
        if a.get_char(i) != b.get_char(i) {
            return false;
        }
    }
    assert(a@ =~= b@);
    true
}

/// Joins `p` onto `base` as `Path::join` does on Unix.
pub fn join(base: &str, p: &str) -> (res: String)
    ensures
        res@ == spec_join(base@, p@),
{
    let p_len = p.unicode_len();
    let base_len = base.unicode_len();
    if p_len > 0 && p.get_char(0) == '/' {
        return String::from_str(p);
    }
    let mut res = String::from_str(base);
    if base_len > 0 && base.get_char(base_len - 1) != '/' {
        let sep = "/";
        proof {
            reveal_strlit("/");
        }
        res.append(sep);
    }
    res.append(p);
    res
}

/// Whether `s` holds `..` anywhere.
pub fn contains_parent_reference(s: &str) -> (res: bool)
    ensures
        res == has_parent_reference(s@),
{
    let n = s.unicode_len();
    if n < 2 {
        return false;
    }
    let mut i: usize = 0;
    let mut prev_dot = s.get_char(0) == '.';
    while i + 1 < n
        invariant
            n == s@.len(),
            n >= 2,
            i + 1 <= n,
            prev_dot == (s@[i as int] == '.'),
            forall|j: int| 0 <= j < i ==> !(s@[j] == '.' && #[trigger] s@[j + 1] == '.'),
        decreases n - i,
    {
        let c = s.get_char(i + 1);
        if prev_dot && c == '.' {
            assert(s@[i as int] == '.' && s@[i + 1] == '.');
            return true;
        }
        prev_dot = c == '.';
        i = i + 1;
    }
    false
}

/// The characters after the last separator of `p` (all of `p` without one).
pub open spec fn last_segment(p: Seq<char>) -> Seq<char>
    decreases p.len(),
{
    if p.len() == 0 || p.last() == '/' {
        Seq::empty()
    } else {
        last_segment(p.drop_last()).push(p.last())
    }
}

/// The final component of `p` as `Path::file_name` gives it on Unix:
/// separators at the end and `.` components are passed over; a path that ends
/// in `..`, or that has no component naming a file, has none.
pub open spec fn file_name_of(p: Seq<char>) -> Option<Seq<char>>
    decreases p.len(),
{
    if p.len() == 0 {
        None
    } else if p.last() == '/' {
        file_name_of(p.drop_last())
    } else if last_segment(p) == seq!['.'] {
        file_name_of(p.drop_last())
    } else if last_segment(p) == seq!['.', '.'] {
        None
    } else {
        Some(last_segment(p))
    }
}

/// The last segment of a prefix that ends where a segment ends is the part
/// after its last separator.
proof fn lemma_last_segment(p: Seq<char>, start: int, end: int)
    requires
        0 <= start <= end <= p.len(),
        start == 0 || p[start - 1] == '/',
        forall|j: int| start <= j < end ==> #[trigger] p[j] != '/',
    ensures
        last_segment(p.take(end)) == p.subrange(start, end),
    decreases end - start,
{
    if end == start {
        if end > 0 {
            assert(p.take(end).last() == '/');
        }
        assert(last_segment(p.take(end)) =~= Seq::<char>::empty());
    } else {
        lemma_last_segment(p, start, end - 1);
        assert(p.take(end).drop_last() =~= p.take(end - 1));
        assert(p.subrange(start, end) =~= p.subrange(start, end - 1).push(p[end - 1]));
    }
}

/// The final component of `p`, as `Path::file_name` gives it on Unix.
pub fn file_name(p: &str) -> (res: Option<String>)
    ensures
        res is None <==> file_name_of(p@) is None,
        res matches Some(name) ==> file_name_of(p@) == Some(name@),
{
    let n = p.unicode_len();
    let mut end: usize = n;
    assert(p@.take(n as int) =~= p@);
    loop
        invariant
            n == p@.len(),
            end <= n,
            file_name_of(p@.take(end as int)) == file_name_of(p@),
        decreases end,
    {
        let ghost end0 = end;
        while end > 0 && p.get_char(end - 1) == '/'
            invariant
                n == p@.len(),
                end <= end0 <= n,
                file_name_of(p@.take(end as int)) == file_name_of(p@),
            decreases end,
        {
            assert(p@.take(end as int).drop_last() =~= p@.take(end - 1));
            end = end - 1;
        }
        if end == 0 {
            return None;
        }
        let mut start: usize = end;
        while start > 0 && p.get_char(start - 1) != '/'
            invariant
                n == p@.len(),
                start <= end <= n,
                forall|j: int| start <= j < end ==> #[trigger] p@[j] != '/',
            decreases start,
        {
            start = start - 1;
        }
        proof {
            lemma_last_segment(p@, start as int, end as int);
            assert(p@.take(end as int).last() == p@[end - 1]);
        }
        let ghost q = p@.take(end as int);
        let ghost seg = p@.subrange(start as int, end as int);
        if end - start == 1 && p.get_char(start) == '.' {
            assert(seg =~= seq!['.']);
            assert(q.drop_last() =~= p@.take(end - 1));
            end = end - 1;
        } else if end - start == 2 && p.get_char(start) == '.' && p.get_char(start + 1) == '.' {
            assert(seg =~= seq!['.', '.']);
            return None;
        } else {
            assert(seg != seq!['.']) by {
                if seg == seq!['.'] {
                    assert(seg.len() == 1 && seg[0] == p@[start as int]);
                }
            }
            assert(seg != seq!['.', '.']) by {
                if seg == seq!['.', '.'] {
                    assert(seg.len() == 2 && seg[0] == p@[start as int] && seg[1] == p@[start + 1]);
                }
            }
            let name = p.substring_char(start, end);
            return Some(String::from_str(name));
        }
    }
}

/// `..` is found exactly where two dots stand next to each other: no text of
/// fewer than two characters holds it, `..` itself does, and a text made of
/// two parts holds it where one part does or where the first part ends and
/// the second begins with a dot.
pub proof fn law_parent_reference_is_two_adjacent_dots(a: Seq<char>, b: Seq<char>, c: char)
    ensures
        !has_parent_reference(Seq::<char>::empty()),
        !has_parent_reference(seq![c]),
        has_parent_reference(seq!['.', '.']),
        has_parent_reference(a + b) <==> (has_parent_reference(a) || has_parent_reference(b) || (a.len() > 0
            && b.len() > 0 && a.last() == '.' && b[0] == '.')),
{
    let s = a + b;
    let dots = seq!['.', '.'];
    let first: int = 0;
    assert(dots[first] == '.' && dots[first + 1] == '.');
    if has_parent_reference(a) {
        let i = choose|i: int| 0 <= i && i + 1 < a.len() && a[i] == '.' && #[trigger] a[i + 1] == '.';
        assert(s[i] == '.' && s[i + 1] == '.');
    }
    if has_parent_reference(b) {
        let i = choose|i: int| 0 <= i && i + 1 < b.len() && b[i] == '.' && #[trigger] b[i + 1] == '.';
        assert(s[a.len() + i] == '.' && s[a.len() + i + 1] == '.');
    }
    if a.len() > 0 && b.len() > 0 && a.last() == '.' && b[0] == '.' {
        assert(s[a.len() - 1] == '.' && s[a.len() - 1 + 1] == '.');
    }
    if has_parent_reference(s) {
        let i = choose|i: int| 0 <= i && i + 1 < s.len() && s[i] == '.' && #[trigger] s[i + 1] == '.';
        if i + 1 < a.len() {
            assert(a[i] == '.' && a[i + 1] == '.');
        } else if i >= a.len() {
            let k = i - a.len();
            assert(b[k] == '.' && b[k + 1] == '.');
        } else {
            assert(a.last() == '.' && b[0] == '.');
        }
    }
}

/// The last segment of a text that ends in `name`, with a separator or nothing
/// before it, is `name`, where `name` holds no separator.
proof fn lemma_last_segment_of_suffix(pre: Seq<char>, name: Seq<char>)
    requires
        pre.len() == 0 || pre.last() == '/',
        forall|j: int| 0 <= j < name.len() ==> #[trigger] name[j] != '/',
    ensures
        last_segment(pre + name) == name,
    decreases name.len(),
{
    if name.len() == 0 {
        assert(pre + name =~= pre);
    } else {
        let shorter = name.drop_last();
        lemma_last_segment_of_suffix(pre, shorter);
        assert((pre + name).drop_last() =~= pre + shorter);
        assert(shorter.push(name.last()) =~= name);
    }
}

/// The file name of a path is its final component, of whatever length: for a
/// component `name` that is neither `.` nor `..` and holds no separator, the
/// path `name`, and any path `dir/name`, with or without a separator at the
/// end, have the file name `name`.
pub proof fn law_file_name_is_final_component(dir: Seq<char>, name: Seq<char>)
    requires
        name.len() > 0,
        forall|j: int| 0 <= j < name.len() ==> #[trigger] name[j] != '/',
        name != seq!['.'],
        name != seq!['.', '.'],
    ensures
        file_name_of(name) == Some(name),
        file_name_of(dir + seq!['/'] + name) == Some(name),
        file_name_of(dir + seq!['/'] + name + seq!['/']) == Some(name),
{
    lemma_last_segment_of_suffix(Seq::<char>::empty(), name);
    assert(Seq::<char>::empty() + name =~= name);
    let pre = dir + seq!['/'];
    lemma_last_segment_of_suffix(pre, name);
    let p = pre + name;
    assert(dir + seq!['/'] + name =~= p);
    assert(p.last() == name.last());
    assert((p + seq!['/']).drop_last() =~= p);
}

} // verus!
