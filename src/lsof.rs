use vstd::prelude::*;

use crate::scan::texts;
use crate::text::{contains_seq, str_contains};

verus! {

/// Whether a character has the Unicode `White_Space` property.
pub open spec fn is_white_space(c: char) -> bool {
    let u = c as u32;
    (0x9 <= u <= 0xd) || u == 0x20 || u == 0x85 || u == 0xa0 || u == 0x1680 || (0x2000 <= u
        <= 0x200a) || u == 0x2028 || u == 0x2029 || u == 0x202f || u == 0x205f || u == 0x3000
}

/// Whether a character has the Unicode `White_Space` property.
pub fn white_space(c: char) -> (r: bool)
    ensures
        r == is_white_space(c),
{
    let u = c as u32;
    (0x9 <= u && u <= 0xd) || u == 0x20 || u == 0x85 || u == 0xa0 || u == 0x1680 || (0x2000 <= u
        && u <= 0x200a) || u == 0x2028 || u == 0x2029 || u == 0x202f || u == 0x205f || u == 0x3000
}

/// The word `cur` being read, as a list of at most one word.
pub open spec fn pending_word(cur: Seq<char>) -> Seq<Seq<char>> {
    if cur.len() > 0 {
        seq![cur]
    } else {
        Seq::empty()
    }
}

/// The words of `s`, the maximal runs of characters other than white space,
/// after a word `cur` already begun.
pub open spec fn words_after(s: Seq<char>, cur: Seq<char>) -> Seq<Seq<char>>
    decreases s.len(),
{
    if s.len() == 0 {
        pending_word(cur)
    } else if is_white_space(s[0]) {
        pending_word(cur) + words_after(s.drop_first(), Seq::empty())
    } else {
        words_after(s.drop_first(), cur.push(s[0]))
    }
}

/// The words of a text.
pub open spec fn words_of(s: Seq<char>) -> Seq<Seq<char>> {
    words_after(s, Seq::empty())
}

/// Words joined by single spaces.
pub open spec fn join_words(ws: Seq<Seq<char>>) -> Seq<char>
    decreases ws.len(),
{
    if ws.len() == 0 {
        Seq::empty()
    } else if ws.len() == 1 {
        ws[0]
    } else {
        join_words(ws.drop_last()) + seq![' '] + ws.last()
    }
}

/// The pieces of a text between line feeds, after a piece `cur` already
/// begun.
pub open spec fn lines_after(s: Seq<char>, cur: Seq<char>) -> Seq<Seq<char>>
    decreases s.len(),
{
    if s.len() == 0 {
        seq![cur]
    } else if s[0] == '\n' {
        seq![cur] + lines_after(s.drop_first(), Seq::empty())
    } else {
        lines_after(s.drop_first(), cur.push(s[0]))
    }
}

/// The directory that a line of `lsof` output gives: on the working-directory
/// entry, the words from the ninth on, joined by spaces.
pub open spec fn cwd_of_line(line: Seq<char>) -> Option<Seq<char>> {
    if contains_seq(line, "cwd"@) && words_of(line).len() >= 9 {
        Some(join_words(words_of(line).subrange(8, words_of(line).len() as int)))
    } else {
        None
    }
}

/// The directory given by the first line that gives one.
pub open spec fn first_cwd(lines: Seq<Seq<char>>) -> Option<Seq<char>>
    decreases lines.len(),
{
    if lines.len() == 0 {
        None
    } else {
        match cwd_of_line(lines[0]) {
            Some(d) => Some(d),
            None => first_cwd(lines.drop_first()),
        }
    }
}

/// The working directory that the `lsof` listing of a process gives.
pub open spec fn lsof_cwd_of(output: Seq<char>) -> Option<Seq<char>> {
    first_cwd(lines_after(output, Seq::empty()))
}

/// Splits a text into its words.
pub fn split_words(s: &str) -> (r: Vec<String>)
    ensures
        texts(r@) == words_of(s@),
{
    let ghost t = s@;
    let n = s.unicode_len();
    let mut out: Vec<String> = Vec::new();
    let mut cur = String::new();
    let mut i: usize = 0;
    assert(t.subrange(0, n as int) =~= t);
    assert(texts(out@) + words_after(t, cur@) =~= words_after(t, Seq::empty()));
    while i < n
        invariant
            n == t.len(),
            t == s@,
            i <= n,
            words_of(t) == texts(out@) + words_after(t.subrange(i as int, n as int), cur@),
        decreases n - i,
    {
        let ghost rest = t.subrange(i as int, n as int);
        let ghost before = texts(out@);
        assert(rest.drop_first() =~= t.subrange(i + 1, n as int));
        let c = s.get_char(i);
        assert(rest[0] == c);
        if white_space(c) {
            if cur.unicode_len() > 0 {
                let ghost w = cur@;
                out.push(cur);
                assert(texts(out@) =~= before.push(w));
                assert(before + (pending_word(w) + words_after(rest.drop_first(), Seq::empty()))
                    =~= texts(out@) + words_after(rest.drop_first(), Seq::empty()));
            } else {
                assert(before + (pending_word(cur@) + words_after(rest.drop_first(), Seq::empty()))
                    =~= texts(out@) + words_after(rest.drop_first(), Seq::empty()));
            }
            cur = String::new();
        } else {
            let one = s.substring_char(i, i + 1);
            assert(one@ =~= seq![c]);
            let ghost old_cur = cur@;
            cur.append(one);
            assert(cur@ =~= old_cur.push(c));
        }
        i = i + 1;
    }
    let ghost before = texts(out@);
    assert(t.subrange(n as int, n as int) =~= Seq::<char>::empty());
    if cur.unicode_len() > 0 {
        let ghost w = cur@;
        out.push(cur);
        assert(texts(out@) =~= before.push(w));
        assert(before + pending_word(w) =~= texts(out@));
    } else {
        assert(before + pending_word(cur@) =~= texts(out@));
    }
    out
}

/// The working directory that one line of `lsof` output gives, if any.
pub fn cwd_from_line(line: &str) -> (r: Option<String>)
    ensures
        match r {
            Some(d) => cwd_of_line(line@) == Some(d@),
            None => cwd_of_line(line@) is None,
        },
{
    if !str_contains(line, "cwd") {
        return None;
    }
    let words = split_words(line);
    let ghost ws = texts(words@);
    if words.len() < 9 {
        return None;
    }
    let mut out = words[8].clone();
    let mut j: usize = 9;
    assert(ws.subrange(8, 9) =~= seq![ws[8]]);
    while j < words.len()
        invariant
            ws == texts(words@),
            9 <= j <= words@.len(),
            out@ == join_words(ws.subrange(8, j as int)),
        decreases words@.len() - j,
    {
        let ghost prev = ws.subrange(8, j as int);
        out.append(" ");
        out.append(words[j].as_str());
        proof {
            reveal_strlit(" ");
            let next = ws.subrange(8, j + 1);
            assert(next.drop_last() =~= prev);
            assert(next.last() == words@[j as int]@);
            assert(out@ =~= join_words(prev) + seq![' '] + next.last());
        }
        j = j + 1;
    }
    Some(out)
}

/// The working directory that the `lsof` listing of a process gives: the
/// first line, between line feeds, that gives one.
pub fn parse_lsof_cwd(output: &str) -> (r: Option<String>)
    ensures
        match r {
            Some(d) => lsof_cwd_of(output@) == Some(d@),
            None => lsof_cwd_of(output@) is None,
        },
{
    let ghost t = output@;
    let n = output.unicode_len();
    let mut start: usize = 0;
    let mut i: usize = 0;
    assert(t.subrange(0, n as int) =~= t);
    assert(t.subrange(0, 0) =~= Seq::<char>::empty());
    while i < n
        invariant
            n == t.len(),
            t == output@,
            start <= i <= n,
            lsof_cwd_of(t) == first_cwd(
                lines_after(t.subrange(i as int, n as int), t.subrange(start as int, i as int)),
            ),
        decreases n - i,
    {
        let ghost rest = t.subrange(i as int, n as int);
        let ghost cur = t.subrange(start as int, i as int);
        assert(rest.drop_first() =~= t.subrange(i + 1, n as int));
        if output.get_char(i) == '\n' {
            let line = output.substring_char(start, i);
            assert(lines_after(rest, cur) =~= seq![cur] + lines_after(rest.drop_first(), Seq::empty()));
            assert((seq![cur] + lines_after(rest.drop_first(), Seq::empty())).drop_first()
                =~= lines_after(rest.drop_first(), Seq::empty()));
            let found = cwd_from_line(line);
            if found.is_some() {
                return found;
            }
            start = i + 1;
            assert(t.subrange(start as int, start as int) =~= Seq::<char>::empty());
        } else {
            assert(cur.push(t[i as int]) =~= t.subrange(start as int, i + 1));
        }
        i = i + 1;
    }
    assert(t.subrange(n as int, n as int) =~= Seq::<char>::empty());
    let ghost cur = t.subrange(start as int, n as int);
    assert(lines_after(Seq::empty(), cur) =~= seq![cur]);
    assert(seq![cur].drop_first() =~= Seq::<Seq<char>>::empty());
    assert(first_cwd(Seq::<Seq<char>>::empty()) is None);
    assert(seq![cur][0] == cur);
    let line = output.substring_char(start, n);
    assert(line@ == cur);
    cwd_from_line(line)
}

/// A text without its leading white space.
pub open spec fn trim_start(s: Seq<char>) -> Seq<char>
    decreases s.len(),
{
    if s.len() > 0 && is_white_space(s[0]) {
        trim_start(s.drop_first())
    } else {
        s
    }
}

/// A text without its trailing white space.
pub open spec fn trim_end(s: Seq<char>) -> Seq<char>
    decreases s.len(),
{
    if s.len() > 0 && is_white_space(s.last()) {
        trim_end(s.drop_last())
    } else {
        s
    }
}

/// Whether a text is one or more ASCII digits.
pub open spec fn all_digits(d: Seq<char>) -> bool {
    d.len() > 0 && forall|i: int| 0 <= i < d.len() ==> '0' <= #[trigger] d[i] <= '9'
}

/// The number that decimal digits write.
pub open spec fn digits_value(d: Seq<char>) -> int
    decreases d.len(),
{
    if d.len() == 0 {
        0
    } else {
        digits_value(d.drop_last()) * 10 + (d.last() as u32 - '0' as u32)
    }
}

/// The number that a text gives as a pid: after its white space is trimmed,
/// an optional `+` and decimal digits, whose value fits in 32 bits.
pub open spec fn pid_of(s: Seq<char>) -> Option<u32> {
    let t = trim_end(trim_start(s));
    let d = if t.len() > 0 && t[0] == '+' {
        t.drop_first()
    } else {
        t
    };
    if all_digits(d) && digits_value(d) <= u32::MAX {
        Some(digits_value(d) as u32)
    } else {
        None
    }
}

proof fn lemma_digits_value_grows(d: Seq<char>, k: int)
    requires
        0 <= k <= d.len(),
        forall|i: int| 0 <= i < d.len() ==> '0' <= #[trigger] d[i] <= '9',
    ensures
        digits_value(d) >= digits_value(d.subrange(0, k)),
        digits_value(d.subrange(0, k)) >= 0,
    decreases d.len(),
{
    if d.len() > 0 {
        if k == d.len() {
            assert(d.subrange(0, k) =~= d);
        } else {
            lemma_digits_value_grows(d.drop_last(), k);
            assert(d.drop_last().subrange(0, k) =~= d.subrange(0, k));
        }
        if k == d.len() {
            lemma_digits_value_grows(d.drop_last(), d.len() - 1);
            assert(d.drop_last().subrange(0, d.len() - 1) =~= d.drop_last());
        }
    } else {
        assert(d.subrange(0, k) =~= d);
    }
}

/// Reads a pid from a line of `ps` or `pgrep` output.
pub fn parse_pid(s: &str) -> (r: Option<u32>)
    ensures
        r == pid_of(s@),
{
    let ghost t0 = s@;
    let n = s.unicode_len();
    let mut start: usize = 0;
    assert(t0.subrange(0, n as int) =~= t0);
    while start < n && white_space(s.get_char(start))
        invariant
            n == t0.len(),
            t0 == s@,
            start <= n,
            trim_start(t0) == trim_start(t0.subrange(start as int, n as int)),
        decreases n - start,
    {
        assert(t0.subrange(start as int, n as int).drop_first() =~= t0.subrange(start + 1, n as int));
        start = start + 1;
    }
    let ghost ts = t0.subrange(start as int, n as int);
    assert(trim_start(ts) == ts);
    let mut end: usize = n;
    while end > start && white_space(s.get_char(end - 1))
        invariant
            n == t0.len(),
            t0 == s@,
            start <= end <= n,
            ts == t0.subrange(start as int, n as int),
            trim_end(ts) == trim_end(t0.subrange(start as int, end as int)),
        decreases end - start,
    {
        assert(t0.subrange(start as int, end as int).drop_last() =~= t0.subrange(
            start as int,
            end - 1,
        ));
        end = end - 1;
    }
    let ghost t = t0.subrange(start as int, end as int);
    assert(trim_end(t) == t);
    assert(t == trim_end(trim_start(t0)));
    let mut i = start;
    if i < end && s.get_char(i) == '+' {
        i = i + 1;
    }
    let ghost d = t0.subrange(i as int, end as int);
    assert(d =~= if t.len() > 0 && t[0] == '+' {
        t.drop_first()
    } else {
        t
    });
    if i == end {
        assert(!all_digits(d));
        return None;
    }
    let mut value: u64 = 0;
    let mut k = i;
    assert(d.subrange(0, 0) =~= Seq::<char>::empty());
    while k < end
        invariant
            t0 == s@,
            i <= k <= end <= t0.len(),
            d == t0.subrange(i as int, end as int),
            t == trim_end(trim_start(t0)),
            d == if t.len() > 0 && t[0] == '+' {
                t.drop_first()
            } else {
                t
            },
            value as int == digits_value(d.subrange(0, k - i)),
            value <= u32::MAX,
            forall|j: int| 0 <= j < k - i ==> '0' <= #[trigger] d[j] <= '9',
        decreases end - k,
    {
        let c = s.get_char(k);
        assert(c == d[k - i]);
        if c < '0' || c > '9' {
            assert(!('0' <= d[k - i] <= '9'));
            assert(!all_digits(d));
            return None;
        }
        let ghost pre = d.subrange(0, k - i + 1);
        assert(pre.drop_last() =~= d.subrange(0, k - i));
        assert(pre.last() == c);
        value = value * 10 + (c as u64 - '0' as u64);
        assert(value as int == digits_value(pre));
        if value > 0xffff_ffff {
            proof {
                if all_digits(d) {
                    lemma_digits_value_grows(d, k - i + 1);
                }
            }
            return None;
        }
        k = k + 1;
    }
    assert(d.subrange(0, d.len() as int) =~= d);
    Some(value as u32)
}

} // verus!
