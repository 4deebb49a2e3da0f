//! Host descriptors built from what the operating system and the address
//! providers report: process count, CPU summary, OS summary, public address.

use vstd::prelude::*;
use vstd::string::*;
use crate::metrics::{CPUInfoWithOutUsage, OsInfo};
use crate::text::{concat3, has_prefix, matches_at, starts_with};

verus! {

pub open spec fn is_ascii_digit(c: char) -> bool {
    '0' <= c && c <= '9'
}

/// The value of a string of decimal digits.
pub open spec fn digits_value(d: Seq<char>) -> int
    decreases d.len(),
{
    if d.len() == 0 {
        0
    } else {
        digits_value(d.drop_last()) * 10 + (d.last() as int - '0' as int)
    }
}

/// `s` without a leading `+`.
pub open spec fn digits_part(s: Seq<char>) -> Seq<char> {
    if s.len() > 0 && s[0] == '+' {
        s.skip(1)
    } else {
        s
    }
}

/// `s` is a decimal `u32`: an optional `+`, then one or more ASCII digits
/// whose value fits in a `u32`.
pub open spec fn is_u32_text(s: Seq<char>) -> bool {
    let d = digits_part(s);
    &&& d.len() > 0
    &&& forall|i: int| 0 <= i < d.len() ==> is_ascii_digit(#[trigger] d[i])
    &&& digits_value(d) <= u32::MAX
}

proof fn lemma_digits_value_grows(d: Seq<char>, k: int)
    requires
        0 <= k <= d.len(),
        forall|i: int| 0 <= i < d.len() ==> is_ascii_digit(#[trigger] d[i]),
    ensures
        digits_value(d.take(k)) <= digits_value(d),
        digits_value(d.take(k)) >= 0,
    decreases d.len(),
{
    if k == d.len() {
        assert(d.take(k) =~= d);
        lemma_digits_value_nonneg(d);
    } else {
        assert(d.drop_last().take(k) =~= d.take(k));
        lemma_digits_value_grows(d.drop_last(), k);
        lemma_digits_value_nonneg(d.drop_last());
    }
}

proof fn lemma_digits_value_nonneg(d: Seq<char>)
    requires
        forall|i: int| 0 <= i < d.len() ==> is_ascii_digit(#[trigger] d[i]),
    ensures
        digits_value(d) >= 0,
    decreases d.len(),
{
    if d.len() > 0 {
        lemma_digits_value_nonneg(d.drop_last());
    }
}

/// Whether `s` is a decimal `u32`, as `is_u32_text` states.
pub fn parses_as_u32(s: &str) -> (r: bool)
    ensures
        r == is_u32_text(s@),
{
    let n = s.unicode_len();
    let start: usize = if n > 0 && s.get_char(0) == '+' {
        1
    } else {
        0
    };
    let ghost d = digits_part(s@);
    assert(d =~= s@.skip(start as int));
    if start >= n {
        return false;
    }
    let mut value: u64 = 0;
    let mut i: usize = start;
    while i < n
        invariant
            n == s@.len(),
            start <= i <= n,
            d =~= s@.skip(start as int),
            d == digits_part(s@),
            forall|j: int| 0 <= j < i - start ==> is_ascii_digit(#[trigger] d[j]),
            value == digits_value(d.take(i - start)),
            value <= u32::MAX,
        decreases n - i,
    {
        let c = s.get_char(i);
        assert(d[i - start] == c);
        if c < '0' || c > '9' {
            assert(!is_ascii_digit(d[i - start]));
            return false;
        }
        let digit = (c as u32 - '0' as u32) as u64;
        proof {
            assert(d.take(i - start + 1).drop_last() =~= d.take(i - start));
            assert(d.take(i - start + 1).last() == c);
        }
        value = value * 10 + digit;
        i = i + 1;
        if value > u32::MAX as u64 {
            proof {
                if forall|j: int| 0 <= j < d.len() ==> is_ascii_digit(#[trigger] d[j]) {
                    lemma_digits_value_grows(d, i - start);
                }
            }
            return false;
        }
    }
    proof {
        assert(d.take(n - start) =~= d);
    }
    true
}

/// How many of `names` are decimal `u32`s.
pub open spec fn pid_count(names: Seq<String>) -> int
    decreases names.len(),
{
    if names.len() == 0 {
        0
    } else {
        pid_count(names.drop_last()) + if is_u32_text(names.last()@) {
            1int
        } else {
            0
        }
    }
}

proof fn lemma_pid_count_bound(names: Seq<String>)
    ensures
        0 <= pid_count(names) <= names.len(),
    decreases names.len(),
{
    if names.len() > 0 {
        lemma_pid_count_bound(names.drop_last());
    }
}

/// The number of processes: the entries of the process directory whose name
/// is a decimal `u32`.
pub fn realtime_process(names: &Vec<String>) -> (r: u64)
    ensures
        r == pid_count(names@),
{
    let mut count: u64 = 0;
    let mut i: usize = 0;
    while i < names.len()
        invariant
            i <= names@.len(),
            count == pid_count(names@.take(i as int)),
        decreases names@.len() - i,
    {
        proof {
            assert(names@.take(i + 1).drop_last() =~= names@.take(i as int));
            lemma_pid_count_bound(names@.take(i as int));
        }
        if parses_as_u32(names[i].as_str()) {
            count = count + 1;
        }
        i = i + 1;
    }
    proof {
        assert(names@.take(names@.len() as int) =~= names@);
    }
    count
}

/// The OS descriptor: the system name and OS version joined by a space (each
/// empty where unknown), the kernel version (`Unknown` where unknown), and the
/// virtualization tag.
pub fn os_info(name: Option<String>, os_version: Option<String>, kernel_version: Option<String>, virtualization: String) -> (r: OsInfo)
    ensures
        r.os@ == (match name {
            Some(n) => n@,
            None => Seq::empty(),
        }) + " "@ + (match os_version {
            Some(v) => v@,
            None => Seq::empty(),
        }),
        r.version@ == (match kernel_version {
            Some(k) => k@,
            None => "Unknown"@,
        }),
        r.virtualization == virtualization,
{
    let n = match name {
        Some(n) => n,
        None => String::new(),
    };
    let v = match os_version {
        Some(v) => v,
        None => String::new(),
    };
    let k = match kernel_version {
        Some(k) => k,
        None => String::from_str("Unknown"),
    };
    OsInfo { os: concat3(n.as_str(), " ", v.as_str()), version: k, virtualization }
}

/// `c` has the Unicode `White_Space` property.
pub open spec fn is_white_space(c: char) -> bool {
    ('\u{9}' <= c && c <= '\u{d}') || c == ' ' || c == '\u{85}' || c == '\u{a0}' || c == '\u{1680}'
        || ('\u{2000}' <= c && c <= '\u{200a}') || c == '\u{2028}' || c == '\u{2029}' || c
        == '\u{202f}' || c == '\u{205f}' || c == '\u{3000}'
}

/// `s` without its leading whitespace.
pub open spec fn trim_start_ws(s: Seq<char>) -> Seq<char>
    decreases s.len(),
{
    if s.len() > 0 && is_white_space(s[0]) {
        trim_start_ws(s.skip(1))
    } else {
        s
    }
}

/// `s` without its trailing whitespace.
pub open spec fn trim_end_ws(s: Seq<char>) -> Seq<char>
    decreases s.len(),
{
    if s.len() > 0 && is_white_space(s.last()) {
        trim_end_ws(s.drop_last())
    } else {
        s
    }
}

/// `s` without leading and trailing whitespace.
pub open spec fn trimmed(s: Seq<char>) -> Seq<char> {
    trim_end_ws(trim_start_ws(s))
}

/// Relies on `str::trim`: `s` without the leading and trailing characters
/// that have the Unicode `White_Space` property.
#[verifier::external_body]
fn trim_whitespace(s: &str) -> (r: String)
    ensures
        r@ == trimmed(s@),
{
    s.trim().to_string()
}

/// The texts of a sequence of strings.
pub open spec fn texts(s: Seq<String>) -> Seq<Seq<char>> {
    s.map_values(|x: String| x@)
}

/// The distinct elements of `s`, each where it first occurs.
pub open spec fn distinct_in_order(s: Seq<Seq<char>>) -> Seq<Seq<char>>
    decreases s.len(),
{
    if s.len() == 0 {
        Seq::empty()
    } else {
        let d = distinct_in_order(s.drop_last());
        if d.contains(s.last()) {
            d
        } else {
            d.push(s.last())
        }
    }
}

/// The elements of `s` joined by `", "`.
pub open spec fn comma_joined(s: Seq<Seq<char>>) -> Seq<char>
    decreases s.len(),
{
    if s.len() == 0 {
        Seq::empty()
    } else if s.len() == 1 {
        s[0]
    } else {
        comma_joined(s.drop_last()) + ", "@ + s.last()
    }
}

fn contains_text(v: &Vec<String>, t: &String) -> (r: bool)
    ensures
        r == texts(v@).contains(t@),
{
    let mut i: usize = 0;
    while i < v.len()
        invariant
            i <= v@.len(),
            forall|j: int| 0 <= j < i ==> v@[j]@ != t@,
        decreases v@.len() - i,
    {
        if v[i] == *t {
            assert(texts(v@)[i as int] == t@);
            return true;
        }
        i = i + 1;
    }
    assert forall|j: int| 0 <= j < texts(v@).len() implies texts(v@)[j] != t@ by {
        assert(v@[j]@ != t@);
    }
    false
}

/// The CPU summary: the core count (zero where it exceeds `u16::MAX`) and
/// the distinct brands of the cores, in order of first appearance, joined by
/// `", "` and trimmed.
pub fn cpu_info_without_usage(brands: &Vec<String>) -> (r: CPUInfoWithOutUsage)
    ensures
        r.cores == (if brands@.len() <= u16::MAX {
            brands@.len() as u16
        } else {
            0
        }),
        r.name@ == trimmed(comma_joined(distinct_in_order(texts(brands@)))),
{
    let mut kept: Vec<String> = Vec::new();
    let mut name = String::new();
    let mut i: usize = 0;
    while i < brands.len()
        invariant
            i <= brands@.len(),
            texts(kept@) == distinct_in_order(texts(brands@).take(i as int)),
            name@ == comma_joined(texts(kept@)),
        decreases brands@.len() - i,
    {
        let b = &brands[i];
        proof {
            assert(texts(brands@).take(i + 1).drop_last() =~= texts(brands@).take(i as int));
            assert(texts(brands@).take(i + 1).last() == b@);
        }
        if !contains_text(&kept, b) {
            if kept.len() > 0 {
                name.append(", ");
            }
            name.append(b.as_str());
            let ghost before = kept@;
            kept.push(b.clone());
            proof {
                assert(texts(kept@) =~= texts(before).push(b@));
                assert(texts(kept@).drop_last() =~= texts(before));
            }
        }
        i = i + 1;
    }
    proof {
        assert(texts(brands@).take(brands@.len() as int) =~= texts(brands@));
    }
    let n = brands.len();
    let cores: u16 = if n <= u16::MAX as usize {
        n as u16
    } else {
        0
    };
    CPUInfoWithOutUsage { name: trim_whitespace(name.as_str()), cores }
}

/// A line without the carriage return that preceded its line feed.
pub open spec fn strip_cr(line: Seq<char>) -> Seq<char> {
    if line.len() > 0 && line.last() == '\r' {
        line.drop_last()
    } else {
        line
    }
}

/// The first line of `cur + s` that starts with `ip=`, where `cur` is the
/// part of the current line already read. Lines end at a line feed, which
/// drops a carriage return before it; the last line needs no line feed.
pub open spec fn ip_line_from(s: Seq<char>, cur: Seq<char>) -> Option<Seq<char>>
    decreases s.len(),
{
    if s.len() == 0 {
        if has_prefix(cur, "ip="@) {
            Some(cur)
        } else {
            None
        }
    } else if s[0] == '\n' {
        if has_prefix(strip_cr(cur), "ip="@) {
            Some(strip_cr(cur))
        } else {
            ip_line_from(s.skip(1), Seq::empty())
        }
    } else {
        ip_line_from(s.skip(1), cur.push(s[0]))
    }
}

/// `s` with every occurrence of `ip=` removed, scanning left to right.
pub open spec fn without_ip_tags(s: Seq<char>) -> Seq<char>
    decreases s.len(),
{
    if s.len() == 0 {
        s
    } else if has_prefix(s, "ip="@) && "ip="@.len() > 0 {
        without_ip_tags(s.skip("ip="@.len() as int))
    } else {
        seq![s[0]] + without_ip_tags(s.skip(1))
    }
}

/// The address in a trace body: the first line that starts with `ip=`, with
/// every `ip=` removed; empty where no line starts so.
pub open spec fn trace_address(body: Seq<char>) -> Seq<char> {
    match ip_line_from(body, Seq::empty()) {
        Some(line) => without_ip_tags(line),
        None => Seq::empty(),
    }
}

fn ip_line(body: &str) -> (r: Option<String>)
    ensures
        match ip_line_from(body@, Seq::empty()) {
            Some(l) => r is Some && r->Some_0@ == l,
            None => r is None,
        },
{
    let n = body.unicode_len();
    let mut cur = String::new();
    let mut i: usize = 0;
    assert(body@.skip(0) =~= body@);
    assert(cur@ =~= Seq::<char>::empty());
    while i < n
        invariant
            n == body@.len(),
            i <= n,
            ip_line_from(body@, Seq::empty()) == ip_line_from(body@.skip(i as int), cur@),
        decreases n - i,
    {
        let ghost rest = body@.skip(i as int);
        assert(rest.skip(1) =~= body@.skip(i + 1));
        let c = body.get_char(i);
        if c == '\n' {
            let line = if cur.unicode_len() > 0 && cur.as_str().get_char(cur.unicode_len() - 1) == '\r' {
                let k = cur.unicode_len() - 1;
                String::from_str(cur.as_str().substring_char(0, k))
            } else {
                cur.clone()
            };
            assert(line@ =~= strip_cr(cur@));
            if starts_with(line.as_str(), "ip=") {
                return Some(line);
            }
            cur = String::new();
        } else {
            let one = body.substring_char(i, i + 1);
            assert(one@ =~= seq![c]);
            let ghost before = cur@;
            cur.append(one);
            assert(cur@ =~= before.push(c));
        }
        i = i + 1;
    }
    assert(body@.skip(n as int) =~= Seq::<char>::empty());
    if starts_with(cur.as_str(), "ip=") {
        Some(cur)
    } else {
        None
    }
}

/// The address in a trace body, as `trace_address` states.
pub fn trace_ip(body: &str) -> (r: String)
    ensures
        r@ == trace_address(body@),
{
    proof {
        reveal_strlit("ip=");
    }
    let line = match ip_line(body) {
        Some(l) => l,
        None => return String::new(),
    };
    let n = line.unicode_len();
    let mut out = String::new();
    let mut i: usize = 0;
    assert(line@.skip(0) =~= line@);
    while i < n
        invariant
            n == line@.len(),
            i <= n,
            "ip="@.len() == 3,
            out@ + without_ip_tags(line@.skip(i as int)) == without_ip_tags(line@),
        decreases n - i,
    {
        let ghost rest = line@.skip(i as int);
        if matches_at(line.as_str(), "ip=", i) {
            assert(rest.subrange(0, 3) =~= line@.subrange(i as int, i + 3));
            assert(rest.skip(3) =~= line@.skip(i + 3));
            i = i + 3;
        } else {
            proof {
                if i + 3 <= n {
                    assert(rest.subrange(0, 3) =~= line@.subrange(i as int, i + 3));
                }
            }
            let one = line.as_str().substring_char(i, i + 1);
            assert(one@ =~= seq![rest[0]]);
            assert(rest.skip(1) =~= line@.skip(i + 1));
            let ghost before = out@;
            out.append(one);
            assert(out@ + without_ip_tags(line@.skip(i + 1)) =~= before + without_ip_tags(rest));
            i = i + 1;
        }
    }
    assert(line@.skip(n as int) =~= Seq::<char>::empty());
    assert(out@ + Seq::<char>::empty() =~= out@);
    out
}

} // verus!
