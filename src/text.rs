use vstd::prelude::*;

verus! {

/// Compares two strings character by character.
pub fn str_eq(a: &str, b: &str) -> (r: bool)
    ensures
        r == (a@ == b@),
{
    let n = a.unicode_len();
    if n != b.unicode_len() {
        return false;
    }
    let mut i: usize = 0;
    while i < n
        invariant
            n == a@.len(),
            n == b@.len(),
            i <= n,
            forall|j: int| 0 <= j < i ==> a@[j] == b@[j],
        decreases n - i,
    {
        if a.get_char(i) != b.get_char(i) {
            return false;
        }
        i = i + 1;
    }
    assert(a@ =~= b@);
    true
}

/// Whether `n` occurs in `h`.
pub open spec fn contains_seq(h: Seq<char>, n: Seq<char>) -> bool {
    exists|i: int| 0 <= i && i + n.len() <= h.len() && #[trigger] h.subrange(i, i + n.len()) == n
}

/// Whether `needle` occurs in `hay`.
pub fn str_contains(hay: &str, needle: &str) -> (r: bool)
    ensures
        r == contains_seq(hay@, needle@),
{
    let h = hay.unicode_len();
    let n = needle.unicode_len();
    if n > h {
        return false;
    }
    let last = h - n;
    let mut i: usize = 0;
    loop
        invariant
            h == hay@.len(),
            n == needle@.len(),
            last == h - n,
            i <= last,
            forall|j: int| 0 <= j < i ==> #[trigger] hay@.subrange(j, j + n) != needle@,
        decreases last - i,
    {
        if str_eq(hay.substring_char(i, i + n), needle) {
            return true;
        }
        if i == last {
            return false;
        }
        i = i + 1;
    }
}

/// The lower-case form of a text.
pub uninterp spec fn lower_of(s: Seq<char>) -> Seq<char>;

/// Relies on `str::to_lowercase`: the lower-case mapping of a text, which
/// depends on the text alone.
#[verifier::external_body]
pub(crate) fn to_lower(s: &str) -> (r: String)
    ensures
        r@ == lower_of(s@),
{
    s.to_lowercase()
}

/// The character of a decimal digit.
pub open spec fn digit_char(d: nat) -> char {
    seq!['0', '1', '2', '3', '4', '5', '6', '7', '8', '9'][d as int]
}

/// The decimal form of a number, without leading zeros.
pub open spec fn decimal_of(n: nat) -> Seq<char>
    decreases n,
{
    if n < 10 {
        seq![digit_char(n)]
    } else {
        decimal_of(n / 10).push(digit_char(n % 10))
    }
}

/// The text of one decimal digit.
fn digit_str(d: u32) -> (r: &'static str)
    requires
        d < 10,
    ensures
        r@ == seq![digit_char(d as nat)],
{
    proof {
        reveal_strlit("0");
        reveal_strlit("1");
        reveal_strlit("2");
        reveal_strlit("3");
        reveal_strlit("4");
        reveal_strlit("5");
        reveal_strlit("6");
        reveal_strlit("7");
        reveal_strlit("8");
        reveal_strlit("9");
    }
    let r = if d == 0 {
        "0"
    } else if d == 1 {
        "1"
    } else if d == 2 {
        "2"
    } else if d == 3 {
        "3"
    } else if d == 4 {
        "4"
    } else if d == 5 {
        "5"
    } else if d == 6 {
        "6"
    } else if d == 7 {
        "7"
    } else if d == 8 {
        "8"
    } else {
        "9"
    };
    assert(r@ =~= seq![digit_char(d as nat)]);
    r
}

/// Writes a number in decimal.
pub fn decimal_string(n: u32) -> (r: String)
    ensures
        r@ == decimal_of(n as nat),
    decreases n,
{
    if n < 10 {
        String::from_str(digit_str(n))
    } else {
        let mut s = decimal_string(n / 10);
        s.append(digit_str(n % 10));
        s
    }
}

/// Whether a template has the placeholder `{}` at position `i`.
pub open spec fn placeholder_at(t: Seq<char>, i: int) -> bool {
    0 <= i && i + 1 < t.len() && t[i] == '{' && t[i + 1] == '}'
}

/// A template with every placeholder `{}`, from left to right, replaced by
/// `v`.
pub open spec fn fill_all(t: Seq<char>, v: Seq<char>) -> Seq<char>
    decreases t.len(),
{
    if t.len() == 0 {
        t
    } else if placeholder_at(t, 0) {
        v + fill_all(t.subrange(2, t.len() as int), v)
    } else {
        seq![t[0]] + fill_all(t.drop_first(), v)
    }
}

/// A template with its first placeholder `{}` replaced by `v`.
pub open spec fn fill_first(t: Seq<char>, v: Seq<char>) -> Seq<char>
    decreases t.len(),
{
    if t.len() == 0 {
        t
    } else if placeholder_at(t, 0) {
        v + t.subrange(2, t.len() as int)
    } else {
        seq![t[0]] + fill_first(t.drop_first(), v)
    }
}

/// What is left of a template to fill: all of it where placeholders remain
/// to fill, as it stands where the one placeholder to fill is done.
spec fn filled_rest(rest: Seq<char>, v: Seq<char>, only_first: bool, done: bool) -> Seq<char> {
    if done {
        rest
    } else if only_first {
        fill_first(rest, v)
    } else {
        fill_all(rest, v)
    }
}

/// Replaces the placeholders `{}` of `template` by `value`: every one, or
/// only the first where `only_first` holds.
pub fn fill_placeholders(template: &str, value: &str, only_first: bool) -> (r: String)
    ensures
        r@ == if only_first {
            fill_first(template@, value@)
        } else {
            fill_all(template@, value@)
        },
{
    let ghost t = template@;
    let ghost v = value@;
    let n = template.unicode_len();
    let mut out = String::new();
    let mut i: usize = 0;
    let mut done = false;
    assert(t.subrange(0, n as int) =~= t);
    assert(out@ + t =~= t);
    while i < n
        invariant
            n == t.len(),
            t == template@,
            v == value@,
            i <= n,
            filled_rest(t, v, only_first, false) == out@ + filled_rest(
                t.subrange(i as int, n as int),
                v,
                only_first,
                done,
            ),
        decreases n - i,
    {
        let ghost rest = t.subrange(i as int, n as int);
        let ghost before = out@;
        if !done && i + 1 < n && template.get_char(i) == '{' && template.get_char(i + 1) == '}' {
            assert(placeholder_at(rest, 0));
            assert(rest.subrange(2, rest.len() as int) =~= t.subrange(i + 2, n as int));
            out.append(value);
            i = i + 2;
            if only_first {
                done = true;
            }
            assert(before + (v + t.subrange(i as int, n as int)) =~= out@ + t.subrange(i as int, n as int));
            assert(before + (v + fill_all(t.subrange(i as int, n as int), v)) =~= out@ + fill_all(t.subrange(i as int, n as int), v));
        } else {
            assert(done || !placeholder_at(rest, 0));
            assert(rest.drop_first() =~= t.subrange(i + 1, n as int));
            assert(rest =~= seq![t[i as int]] + t.subrange(i + 1, n as int));
            let one = template.substring_char(i, i + 1);
            assert(one@ =~= seq![t[i as int]]);
            out.append(one);
            i = i + 1;
            assert(before + (seq![t[i - 1]] + filled_rest(t.subrange(i as int, n as int), v, only_first, done))
                =~= out@ + filled_rest(t.subrange(i as int, n as int), v, only_first, done));
        }
    }
    assert(t.subrange(n as int, n as int) =~= Seq::<char>::empty());
    assert(out@ + Seq::<char>::empty() =~= out@);
    out
}

} // verus!
