//! Small text utilities: decimal rendering and path joining.

use vstd::prelude::*;
use vstd::string::*;

verus! {

/// The ASCII character of a decimal digit.
pub open spec fn digit_char(d: nat) -> char
    recommends
        d < 10,
{
    ((48 + d) as u8) as char
}

/// The decimal representation of `n`, most significant digit first, without
/// leading zeros (zero is `"0"`).
pub open spec fn decimal(n: nat) -> Seq<char>
    decreases n,
{
    if n < 10 {
        seq![digit_char(n)]
    } else {
        decimal(n / 10).push(digit_char(n % 10))
    }
}

/// The number spelled by the decimal digits `s`, most significant first.
pub open spec fn decimal_value(s: Seq<char>) -> nat
    decreases s.len(),
{
    if s.len() == 0 {
        0
    } else {
        decimal_value(s.drop_last()) * 10 + (s.last() as int - 48) as nat
    }
}

/// The decimal representation of `n` is a non-empty run of ASCII digits that
/// reads back as `n`.
pub proof fn lemma_decimal_reads_back(n: nat)
    ensures
        decimal(n).len() > 0,
        forall|i: int| 0 <= i < decimal(n).len() ==> '0' <= #[trigger] decimal(n)[i] <= '9',
        decimal_value(decimal(n)) == n,
    decreases n,
{
    let d = n % 10;
    assert(digit_char(d) as int == 48 + d) by {
        assert(((48 + d) as u8) as int == 48 + d);
    }
    if n >= 10 {
        lemma_decimal_reads_back(n / 10);
        let s = decimal(n);
        assert(s.drop_last() =~= decimal(n / 10));
        assert forall|i: int| 0 <= i < s.len() implies '0' <= #[trigger] s[i] <= '9' by {
            if i < s.len() - 1 {
                assert(s[i] == decimal(n / 10)[i]);
            }
        }
        assert(s.last() == digit_char(d));
        assert(decimal_value(s) == decimal_value(decimal(n / 10)) * 10 + d);
        assert((n / 10) * 10 + d == n);
    } else {
        let s = decimal(n);
        assert(s.drop_last() =~= Seq::<char>::empty());
        assert(s.last() == digit_char(n));
        assert(decimal_value(s) == decimal_value(s.drop_last()) * 10 + (s.last() as int - 48) as nat);
    }
}

/// Distinct numbers have distinct decimal representations.
pub proof fn lemma_decimal_injective(a: nat, b: nat)
    requires
        a != b,
    ensures
        decimal(a) != decimal(b),
{
    lemma_decimal_reads_back(a);
    lemma_decimal_reads_back(b);
}

/// Appends one character to a string (`String::push`).
#[verifier::external_body]
pub(crate) fn string_push(s: &mut String, c: char)
    ensures
        final(s)@ == old(s)@.push(c),
{
    s.push(c);
}

/// Appends the decimal representation of `n` to `s`.
pub fn push_decimal(s: &mut String, n: u64)
    ensures
        final(s)@ == old(s)@ + decimal(n as nat),
    decreases n,
{
    if n >= 10 {
        push_decimal(s, n / 10);
    }
    let d: u8 = (n % 10) as u8;
    let c: char = (48u8 + d) as char;
    string_push(s, c);
    assert(s@ =~= old(s)@ + decimal(n as nat));
}

/// `head` followed by `text`.
pub fn labelled(head: &str, text: &str) -> (s: String)
    ensures
        s@ == head@ + text@,
{
    let mut s = String::from_str(head);
    s.append(text);
    s
}

/// Whether `s` begins with `p`.
pub open spec fn has_prefix(s: Seq<char>, p: Seq<char>) -> bool {
    p.len() <= s.len() && s.take(p.len() as int) == p
}

/// Whether `c` separates path components (`/` everywhere, `\` on Windows too).
pub open spec fn is_separator(c: char, windows: bool) -> bool {
    c == '/' || (windows && c == '\\')
}

/// The separator that joining inserts.
pub open spec fn main_separator(windows: bool) -> char {
    if windows {
        '\\'
    } else {
        '/'
    }
}

/// A bare Windows drive prefix such as `C:`.
pub open spec fn is_drive_prefix(s: Seq<char>) -> bool {
    &&& s.len() == 2
    &&& s[1] == ':'
    &&& ('a' <= s[0] <= 'z' || 'A' <= s[0] <= 'Z')
}

/// A Windows verbatim path (`\\?\...`), in which only `\` separates
/// components.
pub open spec fn is_verbatim(s: Seq<char>) -> bool {
    &&& s.len() >= 4
    &&& s[0] == '\\'
    &&& s[1] == '\\'
    &&& s[2] == '?'
    &&& s[3] == '\\'
}

/// Index of the first `\` in `s`, or its length when it has none.
pub open spec fn first_backslash(s: Seq<char>) -> nat
    decreases s.len(),
{
    if s.len() == 0 || s[0] == '\\' {
        0
    } else {
        1 + first_backslash(s.drop_first())
    }
}

/// Length of the prefix of the verbatim path `s`: `\\?\UNC\server\share`
/// (the share only when non-empty), or `\\?\` followed by everything up to
/// the next `\` (such as `\\?\C:`).
pub open spec fn verbatim_prefix_len(s: Seq<char>) -> int {
    let rest = s.skip(4);
    if rest.len() >= 4 && rest.take(4) == seq!['U', 'N', 'C', '\\'] {
        let r2 = s.skip(8);
        let server = first_backslash(r2) as int;
        if server < r2.len() {
            let share = first_backslash(r2.skip(server + 1)) as int;
            if share > 0 {
                8 + server + 1 + share
            } else {
                8 + server
            }
        } else {
            8 + server
        }
    } else {
        4 + first_backslash(rest) as int
    }
}

/// What follows the prefix of the verbatim path `s`, without the separator
/// (`\` or `/`) that makes it rooted.
pub open spec fn verbatim_body(s: Seq<char>) -> Seq<char> {
    let b = s.skip(verbatim_prefix_len(s));
    if b.len() > 0 && (b[0] == '\\' || b[0] == '/') {
        b.skip(1)
    } else {
        b
    }
}

/// The non-empty `\`-separated components of `body`, each followed by `\`.
pub open spec fn rebuilt_components(body: Seq<char>) -> Seq<char>
    decreases body.len(),
{
    if body.len() == 0 {
        seq![]
    } else {
        let n = first_backslash(body) as int;
        let rest = if n < body.len() {
            body.skip(n + 1)
        } else {
            Seq::<char>::empty()
        };
        (if n > 0 {
            body.take(n).push('\\')
        } else {
            seq![]
        }) + rebuilt_components(rest)
    }
}

/// What a verbatim path becomes before a relative component is appended: it
/// is rebuilt from its components, so its prefix is followed by one `\` and
/// every non-empty component by one `\`.
pub open spec fn verbatim_stem(s: Seq<char>) -> Seq<char> {
    s.take(verbatim_prefix_len(s)).push('\\') + rebuilt_components(verbatim_body(s))
}

/// Whether `base` ends in a separator: `/` on Linux, `\` or `/` on Windows.
pub open spec fn ends_in_separator(base: Seq<char>, windows: bool) -> bool {
    is_separator(base.last(), windows)
}

/// Joining `base` with a relative component inserts a separator unless `base`
/// is empty, already ends in a separator, or (on Windows) is a bare drive.
pub open spec fn needs_separator(base: Seq<char>, windows: bool) -> bool {
    &&& base.len() > 0
    &&& !ends_in_separator(base, windows)
    &&& !(windows && is_drive_prefix(base))
}

/// What `base` becomes before a relative component is appended: a verbatim
/// Windows path is rebuilt from its components; any other path gets a
/// separator if it needs one.
pub open spec fn join_stem(base: Seq<char>, windows: bool) -> Seq<char> {
    if windows && is_verbatim(base) {
        verbatim_stem(base)
    } else if needs_separator(base, windows) {
        base.push(main_separator(windows))
    } else {
        base
    }
}

/// `base` joined with the relative component `comp`.
pub open spec fn join_relative(base: Seq<char>, comp: Seq<char>, windows: bool) -> Seq<char> {
    join_stem(base, windows) + comp
}

/// A component that joining appends rather than substitutes: non-empty and
/// not starting with a separator.
pub open spec fn is_relative_component(comp: Seq<char>, windows: bool) -> bool {
    comp.len() > 0 && !is_separator(comp[0], windows)
}

/// `first_backslash(s)` is the index `k` of the first `\` of `s`, or its
/// length.
proof fn lemma_first_backslash(s: Seq<char>, k: int)
    requires
        0 <= k <= s.len(),
        forall|i: int| 0 <= i < k ==> s[i] != '\\',
        k == s.len() || s[k] == '\\',
    ensures
        first_backslash(s) == k,
    decreases k,
{
    if k > 0 {
        assert forall|i: int| 0 <= i < k - 1 implies s.drop_first()[i] != '\\' by {
            assert(s.drop_first()[i] == s[i + 1]);
        }
        if k < s.len() {
            assert(s.drop_first()[k - 1] == s[k]);
        }
        lemma_first_backslash(s.drop_first(), k - 1);
    }
}

/// The characters of `s`.
fn chars_of(s: &str) -> (v: Vec<char>)
    ensures
        v@ == s@,
{
    let n = s.unicode_len();
    let mut v: Vec<char> = Vec::new();
    let mut i: usize = 0;
    while i < n
        invariant
            n == s@.len(),
            i <= n,
            v@ =~= s@.take(i as int),
        decreases n - i,
    {
        v.push(s.get_char(i));
        i = i + 1;
    }
    v
}

/// Index of the first `\` of `v` at or after `start`, or the length of `v`.
fn find_backslash(v: &Vec<char>, start: usize) -> (e: usize)
    requires
        start <= v.len(),
    ensures
        start <= e <= v.len(),
        e == start + first_backslash(v@.skip(start as int)),
{
    let mut e = start;
    while e < v.len() && v[e] != '\\'
        invariant
            start <= e <= v.len(),
            forall|i: int| start <= i < e ==> v@[i] != '\\',
        decreases v.len() - e,
    {
        e = e + 1;
    }
    proof {
        let t = v@.skip(start as int);
        assert forall|i: int| 0 <= i < e - start implies t[i] != '\\' by {
            assert(t[i] == v@[start + i]);
        }
        if e < v.len() {
            assert(t[e - start] == v@[e as int]);
        }
        lemma_first_backslash(t, e - start);
    }
    e
}

/// Appends `v[from..to]` to `out`.
fn push_range(out: &mut String, v: &Vec<char>, from: usize, to: usize)
    requires
        from <= to <= v.len(),
    ensures
        final(out)@ == old(out)@ + v@.subrange(from as int, to as int),
{
    let mut i = from;
    while i < to
        invariant
            from <= i <= to <= v.len(),
            out@ =~= old(out)@ + v@.subrange(from as int, i as int),
        decreases to - i,
    {
        string_push(out, v[i]);
        i = i + 1;
    }
}

/// The verbatim path `v` rebuilt from its components.
fn verbatim_stem_of(v: &Vec<char>) -> (stem: String)
    requires
        is_verbatim(v@),
    ensures
        stem@ == verbatim_stem(v@),
{
    let len = v.len();
    let ghost s = v@;
    let mut plen: usize;
    if len >= 8 && v[4] == 'U' && v[5] == 'N' && v[6] == 'C' && v[7] == '\\' {
        let server_end = find_backslash(v, 8);
        if server_end < len {
            let share_end = find_backslash(v, server_end + 1);
            if share_end > server_end + 1 {
                plen = share_end;
            } else {
                plen = server_end;
            }
            proof {
                assert(s.skip(8).skip(server_end - 8 + 1) =~= s.skip(server_end + 1));
            }
        } else {
            plen = server_end;
        }
        proof {
            assert(s.skip(4).take(4) =~= seq!['U', 'N', 'C', '\\']);
        }
    } else {
        plen = find_backslash(v, 4);
        proof {
            if s.skip(4).len() >= 4 {
                if s.skip(4).take(4) == seq!['U', 'N', 'C', '\\'] {
                    assert(s.skip(4).take(4)[0] == s[4]);
                    assert(s.skip(4).take(4)[1] == s[5]);
                    assert(s.skip(4).take(4)[2] == s[6]);
                    assert(s.skip(4).take(4)[3] == s[7]);
                }
            }
        }
    }
    assert(plen == verbatim_prefix_len(s));
    let mut out = String::new();
    push_range(&mut out, v, 0, plen);
    string_push(&mut out, '\\');
    assert(out@ =~= s.take(plen as int).push('\\'));
    let mut pos = plen;
    if pos < len && (v[pos] == '\\' || v[pos] == '/') {
        pos = pos + 1;
        assert(s.skip(plen as int).skip(1) =~= s.skip(pos as int));
    }
    assert(verbatim_body(s) == s.skip(pos as int));
    let ghost goal = verbatim_stem(s);
    while pos < len
        invariant
            len == v@.len(),
            s == v@,
            pos <= len,
            out@ + rebuilt_components(s.skip(pos as int)) == goal,
        decreases len - pos,
    {
        let e = find_backslash(v, pos);
        let ghost pre = out@;
        let ghost body = s.skip(pos as int);
        let ghost n = (e - pos) as int;
        proof {
            assert(body.take(n) =~= s.subrange(pos as int, e as int));
            if e < len {
                assert(body.skip(n + 1) =~= s.skip(e + 1));
            } else {
                assert(s.skip(len as int) =~= Seq::<char>::empty());
            }
        }
        if e > pos {
            push_range(&mut out, v, pos, e);
            string_push(&mut out, '\\');
        }
        pos = if e < len {
            e + 1
        } else {
            len
        };
        proof {
            assert(rebuilt_components(body) == (if n > 0 {
                body.take(n).push('\\')
            } else {
                seq![]
            }) + rebuilt_components(s.skip(pos as int)));
            if n > 0 {
                assert(out@ =~= pre + body.take(n).push('\\'));
            } else {
                assert(out@ == pre);
            }
            assert(out@ + rebuilt_components(s.skip(pos as int)) =~= pre + rebuilt_components(body));
        }
    }
    proof {
        assert(s.skip(pos as int) =~= Seq::<char>::empty());
        assert(out@ =~= goal);
    }
    out
}

/// Joins `base` with the relative component `comp`: a verbatim Windows base
/// is rebuilt from its components first; any other base gets a separator if
/// it needs one.
pub fn join_relative_path(base: &str, comp: &str, windows: bool) -> (res: String)
    requires
        is_relative_component(comp@, windows),
    ensures
        res@ == join_relative(base@, comp@, windows),
{
    let n = base.unicode_len();
    let mut verbatim = false;
    if n >= 4 {
        verbatim = base.get_char(0) == '\\' && base.get_char(1) == '\\' && base.get_char(2) == '?'
            && base.get_char(3) == '\\';
    }
    if windows && verbatim {
        let v = chars_of(base);
        let mut res = verbatim_stem_of(&v);
        res.append(comp);
        return res;
    }
    let mut needs_sep = false;
    if n > 0 {
        let last = base.get_char(n - 1);
        let ends_in_sep = last == '/' || (windows && last == '\\');
        let mut drive = false;
        if windows && n == 2 {
            let first = base.get_char(0);
            drive = last == ':' && (('a' <= first && first <= 'z') || ('A' <= first && first <= 'Z'));
        }
        needs_sep = !ends_in_sep && !drive;
    }
    let mut res = String::from_str(base);
    if needs_sep {
        if windows {
            string_push(&mut res, '\\');
        } else {
            string_push(&mut res, '/');
        }
    }
    res.append(comp);
    res
}

} // verus!
