use vstd::prelude::*;

use crate::event::{CliEvent, CliMessage, MessageView};
use crate::text::{contains_seq, lower_of, str_contains, to_lower};

verus! {

/// A running tool found by a scan of the process table.
#[derive(Debug, Clone)]
pub struct ProcessInfo {
    pub name: String,
    pub pid: u32,
    pub status: String,
    pub cwd: Option<String>,
}

/// Whether text `a` comes no later than text `b`: compared character by
/// character by code point, a prefix first. On UTF-8 this is the byte order
/// in which `String`s compare.
pub open spec fn text_le(a: Seq<char>, b: Seq<char>) -> bool
    decreases a.len(),
{
    if a.len() == 0 {
        true
    } else if b.len() == 0 {
        false
    } else if a[0] != b[0] {
        (a[0] as u32) < (b[0] as u32)
    } else {
        text_le(a.drop_first(), b.drop_first())
    }
}

/// Whether text `a` comes no later than text `b`.
pub fn str_le(a: &str, b: &str) -> (r: bool)
    ensures
        r == text_le(a@, b@),
{
    let n = a.unicode_len();
    let m = b.unicode_len();
    let mut i: usize = 0;
    assert(a@.subrange(0, n as int) =~= a@);
    assert(b@.subrange(0, m as int) =~= b@);
    while i < n && i < m
        invariant
            n == a@.len(),
            m == b@.len(),
            i <= n,
            i <= m,
            text_le(a@, b@) == text_le(a@.subrange(i as int, n as int), b@.subrange(i as int, m as int)),
        decreases n - i,
    {
        let x = a.get_char(i);
        let y = b.get_char(i);
        let ghost ra = a@.subrange(i as int, n as int);
        let ghost rb = b@.subrange(i as int, m as int);
        assert(ra[0] == x && rb[0] == y);
        if x != y {
            return (x as u32) < (y as u32);
        }
        assert(ra.drop_first() =~= a@.subrange(i + 1, n as int));
        assert(rb.drop_first() =~= b@.subrange(i + 1, m as int));
        i = i + 1;
    }
    i == n
}

/// A run of processes sorted by name, with `p` put after every process
/// whose name comes no later than its own.
pub open spec fn insert_by_name(s: Seq<ProcessInfo>, p: ProcessInfo) -> Seq<ProcessInfo>
    decreases s.len(),
{
    if s.len() == 0 {
        seq![p]
    } else if text_le(s.last().name@, p.name@) {
        s.push(p)
    } else {
        insert_by_name(s.drop_last(), p).push(s.last())
    }
}

/// Processes in the order of their names; processes with equal names keep
/// their order.
pub open spec fn sorted_by_name(s: Seq<ProcessInfo>) -> Seq<ProcessInfo>
    decreases s.len(),
{
    if s.len() == 0 {
        s
    } else {
        insert_by_name(sorted_by_name(s.drop_last()), s.last())
    }
}

/// Processes with each one dropped whose lower-case name equals that of the
/// last one kept before it.
pub open spec fn deduped_by_lower_name(s: Seq<ProcessInfo>) -> Seq<ProcessInfo>
    decreases s.len(),
{
    if s.len() <= 1 {
        s
    } else {
        let d = deduped_by_lower_name(s.drop_last());
        if lower_of(s.last().name@) == lower_of(d.last().name@) {
            d
        } else {
            d.push(s.last())
        }
    }
}

/// Where `insert_by_name` puts `p`: after the processes before `j`, when
/// none from `j` on comes no later than `p` and the one before `j` does.
proof fn lemma_insert_at(s: Seq<ProcessInfo>, p: ProcessInfo, j: int)
    requires
        0 <= j <= s.len(),
        forall|k: int| j <= k < s.len() ==> !text_le(#[trigger] s[k].name@, p.name@),
        j > 0 ==> text_le(s[j - 1].name@, p.name@),
    ensures
        insert_by_name(s, p) == s.subrange(0, j).push(p) + s.subrange(j, s.len() as int),
    decreases s.len(),
{
    if s.len() == 0 {
        assert(seq![p] =~= Seq::<ProcessInfo>::empty().push(p) + Seq::<ProcessInfo>::empty());
    } else if j == s.len() {
        assert(s.subrange(0, j) =~= s);
        assert(s.push(p) =~= s.subrange(0, j).push(p) + s.subrange(j, s.len() as int));
    } else {
        let t = s.drop_last();
        assert forall|k: int| j <= k < t.len() implies !text_le(#[trigger] t[k].name@, p.name@) by {
            assert(t[k] == s[k]);
        }
        lemma_insert_at(t, p, j);
        assert(insert_by_name(t, p).push(s.last()) =~= s.subrange(0, j).push(p) + s.subrange(
            j,
            s.len() as int,
        ));
    }
}

/// Sorts processes by name; processes with equal names keep their order.
pub fn sort_by_name(v: Vec<ProcessInfo>) -> (r: Vec<ProcessInfo>)
    ensures
        r@ == sorted_by_name(v@),
{
    let ghost orig = v@;
    let total = v.len();
    let mut rest = v;
    let mut out: Vec<ProcessInfo> = Vec::new();
    let mut i: usize = 0;
    assert(orig.subrange(0, 0) =~= Seq::<ProcessInfo>::empty());
    assert(orig.subrange(0, orig.len() as int) =~= orig);
    while rest.len() > 0
        invariant
            total == orig.len(),
            i <= orig.len(),
            rest@ == orig.subrange(i as int, orig.len() as int),
            out@ == sorted_by_name(orig.subrange(0, i as int)),
        decreases rest@.len(),
    {
        let p = rest.remove(0);
        assert(p == orig[i as int]);
        let mut j: usize = out.len();
        while j > 0 && !str_le(out[j - 1].name.as_str(), p.name.as_str())
            invariant
                j <= out@.len(),
                forall|k: int| j <= k < out@.len() ==> !text_le(#[trigger] out@[k].name@, p.name@),
            decreases j,
        {
            j = j - 1;
        }
        proof {
            lemma_insert_at(out@, p, j as int);
            let pre = orig.subrange(0, i + 1);
            assert(pre.drop_last() =~= orig.subrange(0, i as int));
            assert(pre.last() == p);
        }
        out.insert(j, p);
        assert(out@ =~= sorted_by_name(orig.subrange(0, i + 1)));
        i = i + 1;
        assert(rest@ =~= orig.subrange(i as int, orig.len() as int));
    }
    assert(orig.subrange(0, i as int) =~= orig);
    out
}

/// Drops each process whose lower-case name equals that of the last one
/// kept before it.
pub fn dedup_by_lower_name(v: Vec<ProcessInfo>) -> (r: Vec<ProcessInfo>)
    ensures
        r@ == deduped_by_lower_name(v@),
{
    let ghost orig = v@;
    let total = v.len();
    let mut rest = v;
    let mut out: Vec<ProcessInfo> = Vec::new();
    let mut last_lower = String::new();
    let mut i: usize = 0;
    assert(orig.subrange(0, 0) =~= Seq::<ProcessInfo>::empty());
    while rest.len() > 0
        invariant
            total == orig.len(),
            i <= orig.len(),
            rest@ == orig.subrange(i as int, orig.len() as int),
            out@ == deduped_by_lower_name(orig.subrange(0, i as int)),
            i > 0 ==> out@.len() > 0 && last_lower@ == lower_of(out@.last().name@),
            i == 0 ==> out@.len() == 0,
        decreases rest@.len(),
    {
        let p = rest.remove(0);
        assert(p == orig[i as int]);
        let lower = to_lower(p.name.as_str());
        let ghost pre = orig.subrange(0, i + 1);
        assert(pre.drop_last() =~= orig.subrange(0, i as int));
        assert(pre.last() == p);
        if i == 0 {
            assert(pre =~= seq![p]);
            out.push(p);
            assert(out@ =~= pre);
            last_lower = lower;
        } else if lower == last_lower {
        } else {
            out.push(p);
            last_lower = lower;
        }
        i = i + 1;
        assert(rest@ =~= orig.subrange(i as int, orig.len() as int));
    }
    assert(orig.subrange(0, i as int) =~= orig);
    out
}

/// Whether a process name, in lower case, is one of `names`.
pub open spec fn is_named(name: Seq<char>, names: Seq<Seq<char>>) -> bool {
    exists|i: int| 0 <= i < names.len() && lower_of(name) == #[trigger] names[i]
}

/// Whether a process name, in lower case, is one of `names`.
pub fn is_cli_process_name(name: &str, names: &Vec<String>) -> (r: bool)
    ensures
        r == is_named(name@, texts(names@)),
{
    let lower = to_lower(name);
    let mut i: usize = 0;
    while i < names.len()
        invariant
            lower@ == lower_of(name@),
            i <= names@.len(),
            forall|j: int| 0 <= j < i ==> lower_of(name@) != #[trigger] texts(names@)[j],
        decreases names@.len() - i,
    {
        if lower == names[i] {
            assert(lower_of(name@) == texts(names@)[i as int]);
            return true;
        }
        i = i + 1;
    }
    false
}

/// The processes of a scan, one per name: sorted by name, and each dropped
/// whose lower-case name equals that of the one kept before it.
pub fn unique_by_name(v: Vec<ProcessInfo>) -> (r: Vec<ProcessInfo>)
    ensures
        r@ == deduped_by_lower_name(sorted_by_name(v@)),
{
    dedup_by_lower_name(sort_by_name(v))
}

/// The characters of each string.
pub open spec fn texts(v: Seq<String>) -> Seq<Seq<char>> {
    v.map_values(|s: String| s@)
}

/// Whether some pattern occurs in `name`.
pub open spec fn contains_any(name: Seq<char>, pats: Seq<Seq<char>>) -> bool {
    exists|i: int| 0 <= i < pats.len() && contains_seq(name, #[trigger] pats[i])
}

/// Whether `key` occurs in some name.
pub open spec fn occurs_in_any(names: Seq<Seq<char>>, key: Seq<char>) -> bool {
    exists|i: int| 0 <= i < names.len() && contains_seq(#[trigger] names[i], key)
}

/// The lower-case names of scanned processes, with their pids.
pub open spec fn seen_of(ps: Seq<ProcessInfo>) -> Seq<(Seq<char>, u32)> {
    ps.map_values(|p: ProcessInfo| (lower_of(p.name@), p.pid))
}

/// A message made up for a tool that no hook reports on.
pub open spec fn synthetic(cli: Seq<char>, event: CliEvent, pid: Option<u32>) -> MessageView {
    MessageView { cli, event, pid, timestamp: None, session_id: None, cwd: None }
}

/// A `Working` message for each scanned process, in order, that no hook
/// reports on and whose name holds no key of the registry.
pub open spec fn start_messages(
    seen: Seq<(Seq<char>, u32)>,
    keys: Seq<Seq<char>>,
    hooked: Seq<Seq<char>>,
) -> Seq<MessageView>
    decreases seen.len(),
{
    if seen.len() == 0 {
        Seq::empty()
    } else {
        let prev = start_messages(seen.drop_last(), keys, hooked);
        let (name, pid) = seen.last();
        if !contains_any(name, hooked) && !contains_any(name, keys) {
            prev.push(synthetic(name, CliEvent::Working, Some(pid)))
        } else {
            prev
        }
    }
}

/// A `SessionEnd` message for each key of the registry, in order, that no
/// hook reports on and that no scanned process name holds.
pub open spec fn end_messages(
    keys: Seq<Seq<char>>,
    names: Seq<Seq<char>>,
    hooked: Seq<Seq<char>>,
) -> Seq<MessageView>
    decreases keys.len(),
{
    if keys.len() == 0 {
        Seq::empty()
    } else {
        let prev = end_messages(keys.drop_last(), names, hooked);
        let k = keys.last();
        if !contains_any(k, hooked) && !occurs_in_any(names, k) {
            prev.push(synthetic(k, CliEvent::SessionEnd, None))
        } else {
            prev
        }
    }
}

/// The views of a run of messages.
pub open spec fn message_views(v: Seq<CliMessage>) -> Seq<MessageView> {
    v.map_values(|m: CliMessage| m@)
}

/// Whether some pattern occurs in `name`.
pub fn contains_any_of(name: &str, pats: &Vec<String>) -> (r: bool)
    ensures
        r == contains_any(name@, texts(pats@)),
{
    let mut i: usize = 0;
    while i < pats.len()
        invariant
            i <= pats@.len(),
            forall|j: int| 0 <= j < i ==> !contains_seq(name@, #[trigger] texts(pats@)[j]),
        decreases pats@.len() - i,
    {
        if str_contains(name, pats[i].as_str()) {
            assert(contains_seq(name@, texts(pats@)[i as int]));
            return true;
        }
        i = i + 1;
    }
    false
}

/// Whether `key` occurs in some name.
pub fn occurs_in_any_of(names: &Vec<String>, key: &str) -> (r: bool)
    ensures
        r == occurs_in_any(texts(names@), key@),
{
    let mut i: usize = 0;
    while i < names.len()
        invariant
            i <= names@.len(),
            forall|j: int| 0 <= j < i ==> !contains_seq(#[trigger] texts(names@)[j], key@),
        decreases names@.len() - i,
    {
        if str_contains(names[i].as_str(), key) {
            assert(contains_seq(texts(names@)[i as int], key@));
            return true;
        }
        i = i + 1;
    }
    false
}

/// The messages that a scan of the process table stands for, for tools
/// whose name holds none of `hooked`: `Working` for a running tool that the
/// registry does not know under any key its name holds, then `SessionEnd`
/// for each key that no running tool's name holds any more.
pub fn fallback_messages(processes: &Vec<ProcessInfo>, keys: &Vec<String>, hooked: &Vec<String>) -> (r:
    Vec<CliMessage>)
    ensures
        message_views(r@) == start_messages(seen_of(processes@), texts(keys@), texts(hooked@))
            + end_messages(texts(keys@), seen_of(processes@).map_values(|s: (Seq<char>, u32)| s.0), texts(hooked@)),
{
    let ghost seen = seen_of(processes@);
    let ghost ks = texts(keys@);
    let ghost hs = texts(hooked@);
    let mut out: Vec<CliMessage> = Vec::new();
    let mut names: Vec<String> = Vec::new();
    let mut i: usize = 0;
    while i < processes.len()
        invariant
            seen == seen_of(processes@),
            ks == texts(keys@),
            hs == texts(hooked@),
            i <= processes@.len(),
            names@.len() == i,
            forall|j: int| 0 <= j < i ==> (#[trigger] names@[j])@ == seen[j].0,
            message_views(out@) == start_messages(seen.subrange(0, i as int), ks, hs),
        decreases processes@.len() - i,
    {
        let name = to_lower(processes[i].name.as_str());
        let ghost prefix = seen.subrange(0, i + 1);
        assert(prefix.drop_last() =~= seen.subrange(0, i as int));
        assert(prefix.last() == seen[i as int]);
        if !contains_any_of(name.as_str(), hooked) && !contains_any_of(name.as_str(), keys) {
            let m = CliMessage {
                cli: name.clone(),
                event: CliEvent::Working,
                pid: Some(processes[i].pid),
                timestamp: None,
                session_id: None,
                cwd: None,
            };
            out.push(m);
            assert(message_views(out@) =~= start_messages(seen.subrange(0, i as int), ks, hs).push(
                synthetic(seen[i as int].0, CliEvent::Working, Some(seen[i as int].1)),
            ));
        } else {
            assert(message_views(out@) =~= start_messages(seen.subrange(0, i as int), ks, hs));
        }
        names.push(name);
        i = i + 1;
    }
    assert(seen.subrange(0, i as int) =~= seen);
    let ghost starts = message_views(out@);
    let ghost ns = seen.map_values(|s: (Seq<char>, u32)| s.0);
    assert(texts(names@) =~= ns);
    let mut k: usize = 0;
    while k < keys.len()
        invariant
            ks == texts(keys@),
            hs == texts(hooked@),
            ns == texts(names@),
            k <= keys@.len(),
            message_views(out@) == starts + end_messages(ks.subrange(0, k as int), ns, hs),
        decreases keys@.len() - k,
    {
        let ghost prefix = ks.subrange(0, k + 1);
        assert(prefix.drop_last() =~= ks.subrange(0, k as int));
        assert(prefix.last() == ks[k as int]);
        let key = keys[k].as_str();
        assert(ks[k as int] == keys@[k as int]@);
        if !contains_any_of(key, hooked) && !occurs_in_any_of(&names, key) {
            let ghost before = out@;
            let m = CliMessage {
                cli: keys[k].clone(),
                event: CliEvent::SessionEnd,
                pid: None,
                timestamp: None,
                session_id: None,
                cwd: None,
            };
            out.push(m);
            assert(out@ == before.push(m));
            assert(message_views(out@) =~= message_views(before).push(m@));
            assert(message_views(out@) =~= starts + end_messages(ks.subrange(0, k as int), ns, hs).push(
                synthetic(ks[k as int], CliEvent::SessionEnd, None),
            ));
        } else {
            assert(message_views(out@) =~= starts + end_messages(ks.subrange(0, k as int), ns, hs));
        }
        k = k + 1;
    }
    assert(ks.subrange(0, k as int) =~= ks);
    out
}

} // verus!
