//! Finding out which sensors a hwmon directory may hold, from the names of its entries.
//!
//! For each kind of sensor, the largest index that an entry of the kind's prefix carries
//! bounds the indices to look at; each index from the kind's first index up to that bound
//! is then inspected.

use crate::hwmon::{spec_all_kinds, spec_kind_first_index, spec_kind_prefix, SensorKind};
use crate::text::{
    decimal, is_digit, lemma_decimal, lemma_parse_unsigned_decimal, parse_unsigned, spec_parse_unsigned,
};
use vstd::prelude::*;
use vstd::string::*;

verus! {

/// `s` without its leading characters that are not ASCII digits.
pub open spec fn spec_trim_non_digits_start(s: Seq<char>) -> Seq<char>
    decreases s.len(),
{
    if s.len() > 0 && !is_digit(s[0]) {
        spec_trim_non_digits_start(s.drop_first())
    } else {
        s
    }
}

/// `s` without its trailing characters that are not ASCII digits.
pub open spec fn spec_trim_non_digits_end(s: Seq<char>) -> Seq<char>
    decreases s.len(),
{
    if s.len() > 0 && !is_digit(s.last()) {
        spec_trim_non_digits_end(s.drop_last())
    } else {
        s
    }
}

/// `s` without the characters that are not ASCII digits at its ends, as
/// `str::trim_matches(|c| !c.is_ascii_digit())` gives it.
pub open spec fn spec_trim_non_digits(s: Seq<char>) -> Seq<char> {
    spec_trim_non_digits_end(spec_trim_non_digits_start(s))
}

/// The index that the entry name `name` carries: the number between its first and its last
/// digit, or 0 where that is not a number (or too large for an index).
pub open spec fn spec_entry_index(name: Seq<char>) -> u16 {
    match spec_parse_unsigned(spec_trim_non_digits(name), u16::MAX as nat) {
        Some(v) => v as u16,
        None => 0,
    }
}

/// Whether `s` starts with `prefix`.
pub open spec fn starts_with(s: Seq<char>, prefix: Seq<char>) -> bool {
    prefix.len() <= s.len() && s.subrange(0, prefix.len() as int) == prefix
}

/// The largest of `start` and the indices that the entries starting with `prefix` carry.
pub open spec fn spec_stop_index(entries: Seq<Seq<char>>, prefix: Seq<char>, start: u16) -> u16
    decreases entries.len(),
{
    if entries.len() == 0 {
        start
    } else {
        let rest = spec_stop_index(entries.drop_last(), prefix, start);
        let last = entries.last();
        if starts_with(last, prefix) && spec_entry_index(last) > rest {
            spec_entry_index(last)
        } else {
            rest
        }
    }
}

/// The indices to inspect for sensors of `kind` in a directory with the given entries:
/// every index from the kind's first index up to the stop index.
pub open spec fn spec_kind_plan(kind: SensorKind, entries: Seq<Seq<char>>) -> Seq<
    (SensorKind, u16),
> {
    let first = spec_kind_first_index(kind);
    let stop = spec_stop_index(entries, spec_kind_prefix(kind), first);
    Seq::new((stop - first + 1) as nat, |j: int| (kind, (first + j) as u16))
}

/// The sensors to inspect for the kinds `kinds`, in order.
pub open spec fn spec_plan_for(kinds: Seq<SensorKind>, entries: Seq<Seq<char>>) -> Seq<
    (SensorKind, u16),
>
    decreases kinds.len(),
{
    if kinds.len() == 0 {
        Seq::empty()
    } else {
        spec_plan_for(kinds.drop_last(), entries) + spec_kind_plan(kinds.last(), entries)
    }
}

/// The sensors to inspect in a hwmon directory with the given entries, kind by kind.
pub open spec fn spec_probe_plan(entries: Seq<Seq<char>>) -> Seq<(SensorKind, u16)> {
    spec_plan_for(spec_all_kinds(), entries)
}

/// The names of `entries` as text.
pub open spec fn entry_names(entries: Seq<String>) -> Seq<Seq<char>> {
    entries.map_values(|e: String| e@)
}

proof fn lemma_trim_non_digits_start_at(s: Seq<char>, i: int)
    requires
        0 <= i <= s.len(),
        forall|k: int| 0 <= k < i ==> !is_digit(#[trigger] s[k]),
        i == s.len() || is_digit(s[i]),
    ensures
        spec_trim_non_digits_start(s) == s.subrange(i, s.len() as int),
    decreases i,
{
    if i == 0 {
        assert(s.subrange(0, s.len() as int) =~= s);
    } else {
        let t = s.drop_first();
        assert forall|k: int| 0 <= k < i - 1 implies !is_digit(#[trigger] t[k]) by {
            assert(t[k] == s[k + 1]);
        }
        lemma_trim_non_digits_start_at(t, i - 1);
        assert(t.subrange(i - 1, t.len() as int) =~= s.subrange(i, s.len() as int));
    }
}

proof fn lemma_trim_non_digits_end_at(s: Seq<char>, j: int)
    requires
        0 <= j <= s.len(),
        forall|k: int| j <= k < s.len() ==> !is_digit(#[trigger] s[k]),
        j == 0 || is_digit(s[j - 1]),
    ensures
        spec_trim_non_digits_end(s) == s.subrange(0, j),
    decreases s.len() - j,
{
    if j == s.len() {
        assert(s.subrange(0, j) =~= s);
    } else {
        let t = s.drop_last();
        assert forall|k: int| j <= k < t.len() implies !is_digit(#[trigger] t[k]) by {
            assert(t[k] == s[k]);
        }
        lemma_trim_non_digits_end_at(t, j);
        assert(t.subrange(0, j) =~= s.subrange(0, j));
    }
}

/// Returns `s` without the characters that are not ASCII digits at its ends.
fn trim_non_digits(s: &str) -> (r: &str)
    ensures
        r@ == spec_trim_non_digits(s@),
{
    let n = s.unicode_len();
    let mut i: usize = 0;
    while i < n && !is_ascii_digit(s.get_char(i))
        invariant
            n == s@.len(),
            i <= n,
            forall|k: int| 0 <= k < i ==> !is_digit(#[trigger] s@[k]),
        decreases n - i,
    {
        i = i + 1;
    }
    let mut j: usize = n;
    while j > i && !is_ascii_digit(s.get_char(j - 1))
        invariant
            n == s@.len(),
            i <= j <= n,
            forall|k: int| j <= k < n ==> !is_digit(#[trigger] s@[k]),
        decreases j,
    {
        j = j - 1;
    }
    proof {
        lemma_trim_non_digits_start_at(s@, i as int);
        let t = s@.subrange(i as int, n as int);
        assert forall|k: int| (j - i) as int <= k < t.len() implies !is_digit(#[trigger] t[k]) by {
            assert(t[k] == s@[k + i]);
        }
        if j > i {
            assert(t[j - i - 1] == s@[j - 1]);
        }
        lemma_trim_non_digits_end_at(t, (j - i) as int);
        assert(t.subrange(0, (j - i) as int) =~= s@.subrange(i as int, j as int));
    }
    s.substring_char(i, j)
}

/// Whether `c` is an ASCII digit.
fn is_ascii_digit(c: char) -> (r: bool)
    ensures
        r == is_digit(c),
{
    '0' <= c && c <= '9'
}

/// Returns the index that the entry name `name` carries.
pub fn entry_index(name: &str) -> (index: u16)
    ensures
        index == spec_entry_index(name@),
{
    let digits = trim_non_digits(name);
    match parse_unsigned(digits, u16::MAX as u64) {
        Some(v) => v as u16,
        None => 0,
    }
}

/// Returns whether `s` starts with `prefix`.
pub fn has_prefix(s: &str, prefix: &str) -> (r: bool)
    ensures
        r == starts_with(s@, prefix@),
{
    let n = prefix.unicode_len();
    if n > s.unicode_len() {
        return false;
    }
    let mut i: usize = 0;
    while i < n
        invariant
            n == prefix@.len(),
            n <= s@.len(),
            i <= n,
            forall|k: int| 0 <= k < i ==> s@[k] == prefix@[k],
        decreases n - i,
    {
        if s.get_char(i) != prefix.get_char(i) {
            assert(s@.subrange(0, n as int)[i as int] != prefix@[i as int]);
            return false;
        }
        i = i + 1;
    }
    assert(s@.subrange(0, n as int) =~= prefix@);
    true
}

/// Returns the largest of `start` and the indices that the entries starting with `prefix`
/// carry.
pub fn stop_index(entries: &Vec<String>, prefix: &str, start: u16) -> (stop: u16)
    ensures
        stop == spec_stop_index(entry_names(entries@), prefix@, start),
{
    let mut stop = start;
    let mut i: usize = 0;
    while i < entries.len()
        invariant
            i <= entries@.len(),
            stop == spec_stop_index(entry_names(entries@).subrange(0, i as int), prefix@, start),
        decreases entries@.len() - i,
    {
        proof {
            let names = entry_names(entries@);
            assert(names.subrange(0, i + 1).drop_last() =~= names.subrange(0, i as int));
            assert(names.subrange(0, i + 1).last() == entries@[i as int]@);
        }
        let name = entries[i].as_str();
        if has_prefix(name, prefix) {
            let index = entry_index(name);
            if index > stop {
                stop = index;
            }
        }
        i = i + 1;
    }
    assert(entry_names(entries@).subrange(0, entries@.len() as int) =~= entry_names(entries@));
    stop
}

proof fn lemma_stop_at_least_start(entries: Seq<Seq<char>>, prefix: Seq<char>, start: u16)
    ensures
        spec_stop_index(entries, prefix, start) >= start,
    decreases entries.len(),
{
    if entries.len() > 0 {
        lemma_stop_at_least_start(entries.drop_last(), prefix, start);
    }
}

/// Every hwmon directory has sensors to inspect: each kind contributes at least its first
/// index.
pub proof fn lemma_plan_not_empty(entries: Seq<Seq<char>>)
    ensures
        spec_probe_plan(entries).len() > 0,
{
    let kinds = spec_all_kinds();
    let last = kinds.last();
    lemma_stop_at_least_start(entries, spec_kind_prefix(last), spec_kind_first_index(last));
    assert(spec_plan_for(kinds, entries).len() >= spec_kind_plan(last, entries).len());
}

/// The sensors to inspect for the kinds `kinds` are at most one per kind and index.
proof fn lemma_plan_for_bounded(kinds: Seq<SensorKind>, entries: Seq<Seq<char>>)
    ensures
        spec_plan_for(kinds, entries).len() <= kinds.len() * 65536,
    decreases kinds.len(),
{
    if kinds.len() > 0 {
        let last = kinds.last();
        lemma_plan_for_bounded(kinds.drop_last(), entries);
        lemma_stop_at_least_start(entries, spec_kind_prefix(last), spec_kind_first_index(last));
        assert(spec_kind_plan(last, entries).len() <= 65536);
        assert((kinds.len() - 1) * 65536 + 65536 == kinds.len() * 65536) by (nonlinear_arith);
    }
}

/// A hwmon directory has at most one sensor to inspect per kind and index, whatever its
/// entries.
pub proof fn lemma_plan_bounded(entries: Seq<Seq<char>>)
    ensures
        spec_probe_plan(entries).len() <= 8 * 65536,
{
    lemma_plan_for_bounded(spec_all_kinds(), entries);
}

/// Text that holds no ASCII digit.
pub open spec fn no_digits(s: Seq<char>) -> bool {
    forall|k: int| 0 <= k < s.len() ==> !is_digit(#[trigger] s[k])
}

/// An entry named by a digit-free stem, the decimal text of `index` and a digit-free
/// ending carries `index`.
pub proof fn lemma_entry_index_of(stem: Seq<char>, index: u16, ending: Seq<char>)
    requires
        no_digits(stem),
        no_digits(ending),
    ensures
        spec_entry_index(stem + decimal(index as nat) + ending) == index,
{
    let d = decimal(index as nat);
    lemma_decimal(index as nat);
    let x = stem + d + ending;
    assert forall|k: int| 0 <= k < stem.len() implies !is_digit(#[trigger] x[k]) by {
        assert(x[k] == stem[k]);
    }
    assert(x[stem.len() as int] == d[0]);
    lemma_trim_non_digits_start_at(x, stem.len() as int);
    let t = x.subrange(stem.len() as int, x.len() as int);
    assert(t =~= d + ending);
    assert forall|k: int| d.len() <= k < t.len() implies !is_digit(#[trigger] t[k]) by {
        assert(t[k] == ending[k - d.len()]);
    }
    assert(t[d.len() - 1] == d[d.len() - 1]);
    lemma_trim_non_digits_end_at(t, d.len() as int);
    assert(t.subrange(0, d.len() as int) =~= d);
    lemma_parse_unsigned_decimal(index as nat, u16::MAX as nat);
}

/// The stop index is at least the index that any entry starting with the prefix carries.
pub proof fn lemma_stop_at_least_entry(entries: Seq<Seq<char>>, prefix: Seq<char>, start: u16, e: Seq<char>)
    requires
        entries.contains(e),
        starts_with(e, prefix),
    ensures
        spec_stop_index(entries, prefix, start) >= spec_entry_index(e),
    decreases entries.len(),
{
    let j = choose|j: int| 0 <= j < entries.len() && entries[j] == e;
    if j < entries.len() - 1 {
        assert(entries.drop_last()[j] == e);
        lemma_stop_at_least_entry(entries.drop_last(), prefix, start, e);
    }
}

/// The sensors to inspect for the kinds `kinds` are those of each of these kinds, from the
/// kind's first index up to its stop index.
proof fn lemma_plan_for_contents(kinds: Seq<SensorKind>, entries: Seq<Seq<char>>, kind: SensorKind, index: u16)
    ensures
        spec_plan_for(kinds, entries).contains((kind, index)) <==> (kinds.contains(kind)
            && spec_kind_first_index(kind) <= index <= spec_stop_index(
            entries,
            spec_kind_prefix(kind),
            spec_kind_first_index(kind),
        )),
    decreases kinds.len(),
{
    if kinds.len() > 0 {
        let front = kinds.drop_last();
        let last = kinds.last();
        let rest = spec_plan_for(front, entries);
        let own = spec_kind_plan(last, entries);
        let first = spec_kind_first_index(last);
        let stop = spec_stop_index(entries, spec_kind_prefix(last), first);
        lemma_plan_for_contents(front, entries, kind, index);
        lemma_stop_at_least_start(entries, spec_kind_prefix(last), first);
        let all = spec_plan_for(kinds, entries);
        assert(all == rest + own);
        if all.contains((kind, index)) {
            let j = choose|j: int| 0 <= j < all.len() && all[j] == (kind, index);
            if j < rest.len() {
                assert(rest[j] == (kind, index));
                assert(rest.contains((kind, index)));
                let m = choose|m: int| 0 <= m < front.len() && front[m] == kind;
                assert(kinds[m] == kind);
            } else {
                assert(own[j - rest.len()] == (kind, index));
                assert(kinds[kinds.len() - 1] == kind);
            }
        }
        if kinds.contains(kind) && spec_kind_first_index(kind) <= index <= spec_stop_index(
            entries,
            spec_kind_prefix(kind),
            spec_kind_first_index(kind),
        ) {
            if kind == last {
                let j = index - first;
                assert(own[j] == (kind, index));
                assert(all[rest.len() + j] == (kind, index));
            } else {
                let m = choose|m: int| 0 <= m < kinds.len() && kinds[m] == kind;
                assert(m < kinds.len() - 1);
                assert(front[m] == kind);
                assert(rest.contains((kind, index)));
                let j = choose|j: int| 0 <= j < rest.len() && rest[j] == (kind, index);
                assert(all[j] == (kind, index));
            }
        }
    }
}

/// The sensors that a hwmon directory with the given entries has to inspect are, for every
/// kind, each index from the kind's first index up to the largest index that an entry
/// starting with the kind's prefix carries.
pub proof fn lemma_plan_contents(entries: Seq<Seq<char>>, kind: SensorKind, index: u16)
    ensures
        spec_probe_plan(entries).contains((kind, index)) <==> spec_kind_first_index(kind) <= index
            <= spec_stop_index(entries, spec_kind_prefix(kind), spec_kind_first_index(kind)),
{
    let kinds = spec_all_kinds();
    lemma_plan_for_contents(kinds, entries, kind, index);
    match kind {
        SensorKind::Current => assert(kinds[0] == kind),
        SensorKind::Energy => assert(kinds[1] == kind),
        SensorKind::Fan => assert(kinds[2] == kind),
        SensorKind::Humidity => assert(kinds[3] == kind),
        SensorKind::Power => assert(kinds[4] == kind),
        SensorKind::Pwm => assert(kinds[5] == kind),
        SensorKind::Temp => assert(kinds[6] == kind),
        SensorKind::Voltage => assert(kinds[7] == kind),
    }
}

/// Every sensor in the plan has at least its kind's first index.
pub proof fn lemma_plan_from_first_index(entries: Seq<Seq<char>>)
    ensures
        forall|j: int|
            0 <= j < spec_probe_plan(entries).len() ==> (#[trigger] spec_probe_plan(entries)[j]).1
                >= spec_kind_first_index(spec_probe_plan(entries)[j].0),
{
    let plan = spec_probe_plan(entries);
    assert forall|j: int| 0 <= j < plan.len() implies (#[trigger] plan[j]).1 >= spec_kind_first_index(
        plan[j].0,
    ) by {
        assert(plan.contains(plan[j]));
        lemma_plan_contents(entries, plan[j].0, plan[j].1);
    }
}

/// Returns the sensors to inspect in a hwmon directory with the given entries, kind by kind
/// in the order of [`SensorKind::all`], and index by index.
pub fn probe_plan(entries: &Vec<String>) -> (plan: Vec<(SensorKind, u16)>)
    ensures
        plan@ == spec_probe_plan(entry_names(entries@)),
{
    let kinds = SensorKind::all();
    let ghost names = entry_names(entries@);
    let mut plan: Vec<(SensorKind, u16)> = Vec::new();
    let mut k: usize = 0;
    while k < kinds.len()
        invariant
            kinds@ == spec_all_kinds(),
            names == entry_names(entries@),
            k <= kinds@.len(),
            plan@ == spec_plan_for(kinds@.subrange(0, k as int), names),
        decreases kinds@.len() - k,
    {
        let kind = kinds[k];
        let first = kind.first_index();
        let stop = stop_index(entries, kind.prefix(), first);
        proof {
            lemma_stop_at_least_start(names, spec_kind_prefix(kind), first);
            assert(kinds@.subrange(0, k + 1).drop_last() =~= kinds@.subrange(0, k as int));
        }
        let ghost before = plan@;
        let mut j: u32 = first as u32;
        while j <= stop as u32
            invariant
                first <= j <= stop as u32 + 1,
                stop == spec_stop_index(names, spec_kind_prefix(kind), first),
                first == spec_kind_first_index(kind),
                plan@ == before + Seq::new((j - first) as nat, |x: int| (kind, (first + x) as u16)),
            decreases stop as u32 + 1 - j,
        {
            plan.push((kind, j as u16));
            proof {
                assert(plan@ =~= before + Seq::new(
                    (j + 1 - first) as nat,
                    |x: int| (kind, (first + x) as u16),
                ));
            }
            j = j + 1;
        }
        assert(plan@ =~= spec_plan_for(kinds@.subrange(0, k + 1), names));
        k = k + 1;
    }
    assert(kinds@.subrange(0, kinds@.len() as int) =~= kinds@);
    plan
}

} // verus!
