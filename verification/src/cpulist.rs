//! Kernel CPU lists (`0-3,8,10-11`), as found in `/sys/devices/system/cpu/present`
//! and `/sys/devices/system/cpu/online`.

use std::collections::BTreeSet;
use vstd::prelude::*;
use vstd::std_specs::iter::IteratorSpec;
use crate::state::{preset_of, CorePreset};
use crate::text::{
    all_digits, has_char, is_digit, is_ws, lemma_decimal_value, lemma_join_chars, lemma_parse_decimal,
    lemma_split_join, lemma_trim_no_ws, pieces_without,
    chars_of, decimal, decimal_string, join, join_strings, parse_u32, parse_u32_exec,
    slice_of, split, split_chars, split_once, split_once_exec, string_views, trim, trimmed, views, wrap,
};

verus! {

broadcast use {vstd::std_specs::btree::group_btree_axioms, vstd::laws_cmp::group_laws_cmp};

/// The CPUs `a..=b`.
pub open spec fn cpu_range(a: u32, b: u32) -> Set<u32> {
    Set::new(|x: u32| a <= x && x <= b)
}

/// The two ends of a list item: `a-b`, or a single CPU `a` standing for `a-a`.
pub open spec fn item_ends(item: Seq<char>) -> (Seq<char>, Seq<char>) {
    match split_once(item, '-') {
        Some((a, b)) => (a, b),
        None => (item, item),
    }
}

/// The numeric ends of a list item, when both ends are `u32` numbers.
pub open spec fn item_bounds(item: Seq<char>) -> Option<(u32, u32)> {
    let (a, b) = item_ends(item);
    match (parse_u32(a), parse_u32(b)) {
        (Some(x), Some(y)) => Some((x, y)),
        _ => None,
    }
}

/// Error for a list whose items are not numbers.
pub open spec fn list_error(raw: Seq<char>) -> Seq<char> {
    "invalid CPU list '"@ + raw + "'"@
}

/// Error for a range whose start exceeds its end.
pub open spec fn range_error(item: Seq<char>) -> Seq<char> {
    "invalid CPU range '"@ + item + "'"@
}

/// The CPUs named by `items` (empty items are skipped); the first bad item
/// decides the error. `raw` is the whole list, quoted by the error.
pub open spec fn cpu_items(items: Seq<Seq<char>>, raw: Seq<char>) -> Result<Set<u32>, Seq<char>>
    decreases items.len(),
{
    if items.len() == 0 {
        Ok(Set::empty())
    } else if items[0].len() == 0 {
        cpu_items(items.drop_first(), raw)
    } else {
        match item_bounds(items[0]) {
            None => Err(list_error(raw)),
            Some((a, b)) => if a > b {
                Err(range_error(items[0]))
            } else {
                match cpu_items(items.drop_first(), raw) {
                    Ok(rest) => Ok(cpu_range(a, b).union(rest)),
                    Err(e) => Err(e),
                }
            },
        }
    }
}

/// The meaning of a kernel CPU list: the trimmed text split at commas, each
/// non-empty item a CPU or an inclusive range.
pub open spec fn cpu_list(raw: Seq<char>) -> Result<Set<u32>, Seq<char>> {
    cpu_items(split(trim(raw), ','), raw)
}

/// Adds the CPUs of `s` in front of a (possibly failed) result.
pub open spec fn with_cpus(s: Set<u32>, r: Result<Set<u32>, Seq<char>>) -> Result<Set<u32>, Seq<char>> {
    match r {
        Ok(t) => Ok(s.union(t)),
        Err(e) => Err(e),
    }
}

/// Inserts `a..=b` into `set`.
fn insert_range(set: &mut BTreeSet<u32>, a: u32, b: u32)
    requires
        a <= b,
    ensures
        final(set)@ == old(set)@.union(cpu_range(a, b)),
{
    let ghost start = set@;
    let mut x = a;
    loop
        invariant_except_break
            set@ == start.union(Set::new(|y: u32| a <= y && y < x)),
        invariant
            a <= x <= b,
        ensures
            set@ == start.union(cpu_range(a, b)),
        decreases b - x,
    {
        set.insert(x);
        if x == b {
            assert(set@ =~= start.union(cpu_range(a, b)));
            break;
        }
        x = x + 1;
        assert(set@ =~= start.union(Set::new(|y: u32| a <= y && y < x)));
    }
}

/// Parses a kernel CPU list such as `0-3,8,10-11` into the set of CPUs it names.
///
/// Surrounding whitespace is ignored and empty items are skipped. An item
/// that is not a number or a `start-end` pair of numbers fails the whole list
/// with `invalid CPU list '<raw>'`; a range whose start exceeds its end fails
/// with `invalid CPU range '<item>'`.
pub fn parse_cpu_list(raw: &str) -> (r: Result<BTreeSet<u32>, String>)
    ensures
        match r {
            Ok(set) => cpu_list(raw@) == Ok::<Set<u32>, Seq<char>>(set@),
            Err(e) => cpu_list(raw@) == Err::<Set<u32>, Seq<char>>(e@),
        },
{
    let chars = chars_of(raw);
    let t = trimmed(&chars);
    let items = split_chars(&t, ',');
    let ghost all = split(trim(raw@), ',');
    assert(views(items@) == all);
    let mut cpus: BTreeSet<u32> = BTreeSet::new();
    let mut i: usize = 0;
    assert(all.skip(0) =~= all);
    assert(with_cpus(Set::empty(), cpu_items(all, raw@)) =~= cpu_items(all, raw@)) by {
        match cpu_items(all, raw@) {
            Ok(t) => {
                assert(Set::<u32>::empty().union(t) =~= t);
            },
            Err(_) => {},
        }
    }
    while i < items.len()
        invariant
            i <= items@.len(),
            views(items@) == all,
            all == split(trim(raw@), ','),
            chars@ == raw@,
            cpu_list(raw@) == with_cpus(cpus@, cpu_items(all.skip(i as int), raw@)),
        decreases items@.len() - i,
    {
        let item = &items[i];
        let ghost rest = all.skip(i as int);
        assert(rest[0] == item@);
        assert(rest.drop_first() =~= all.skip(i + 1));
        if item.len() > 0 {
            let (a, b) = match split_once_exec(item, '-') {
                Some((x, y)) => (x, y),
                None => (slice_of(item, 0, item.len()), slice_of(item, 0, item.len())),
            };
            assert(item@.subrange(0, item@.len() as int) =~= item@);
            assert(item_ends(item@) == (a@, b@));
            let start = parse_u32_exec(&a);
            let end = parse_u32_exec(&b);
            if start.is_none() || end.is_none() {
                return Err(wrap("invalid CPU list '", &chars, "'"));
            }
            let x = start.unwrap();
            let y = end.unwrap();
            if x > y {
                return Err(wrap("invalid CPU range '", item, "'"));
            }
            let ghost before = cpus@;
            insert_range(&mut cpus, x, y);
            assert(with_cpus(before, cpu_items(rest, raw@)) =~= with_cpus(
                cpus@,
                cpu_items(all.skip(i + 1), raw@),
            )) by {
                match cpu_items(all.skip(i + 1), raw@) {
                    Ok(t) => {
                        assert(before.union(cpu_range(x, y).union(t)) =~= before.union(
                            cpu_range(x, y),
                        ).union(t));
                    },
                    Err(_) => {},
                }
            }
        }
        i = i + 1;
    }
    assert(all.skip(items@.len() as int) =~= Seq::<Seq<char>>::empty());
    assert(cpus@.union(Set::empty()) =~= cpus@);
    Ok(cpus)
}

/// The text of a CPU sequence (`1,5,7`).
pub open spec fn cpus_text(m: Seq<u32>) -> Seq<char> {
    join(m.map_values(|c: u32| decimal(c as nat)), ","@)
}

/// The CPUs of `cpus`, comma separated (`0,1,5`).
pub fn format_cpu_list(cpus: &[u32]) -> (s: String)
    ensures
        s@ == cpus_text(cpus@),
{
    let mut parts: Vec<String> = Vec::new();
    let mut i: usize = 0;
    while i < cpus.len()
        invariant
            i <= cpus@.len(),
            string_views(parts@) == cpus@.take(i as int).map_values(|c: u32| decimal(c as nat)),
        decreases cpus@.len() - i,
    {
        let d = decimal_string(cpus[i] as u64);
        let ghost before = string_views(parts@);
        parts.push(d);
        assert(string_views(parts@) =~= before.push(decimal(cpus@[i as int] as nat)));
        assert(cpus@.take(i + 1) =~= cpus@.take(i as int).push(cpus@[i as int]));
        i = i + 1;
        assert(string_views(parts@) =~= cpus@.take(i as int).map_values(
            |c: u32| decimal(c as nat),
        ));
    }
    assert(cpus@.take(cpus@.len() as int) =~= cpus@);
    join_strings(&parts, ",")
}


/// `v` lists the members of `s` in strictly increasing order.
pub open spec fn ascending_members(v: Seq<u32>, s: Set<u32>) -> bool {
    &&& forall|i: int, j: int| 0 <= i < j < v.len() ==> v[i] < v[j]
    &&& forall|x: u32| s.contains(x) <==> v.contains(x)
}

/// The members of `set` in increasing order, as `BTreeSet::iter` yields them.
pub fn ascending(set: &BTreeSet<u32>) -> (v: Vec<u32>)
    ensures
        ascending_members(v@, set@),
{
    let mut v: Vec<u32> = Vec::new();
    for x in it: set.iter()
        invariant
            it.seq() == vstd::std_specs::btree::spec_btree_keys_iter(set).remaining(),
            v@ == it.seq().take(it.index()).map_values(|r: &u32| *r),
    {
        v.push(*x);
        assert(v@ =~= it.seq().take(it.index() + 1).map_values(|r: &u32| *r));
    }
    let ghost keys = vstd::std_specs::btree::spec_btree_keys_iter(set).remaining();
    assert(v@ =~= keys.map_values(|r: &u32| *r));
    assert(keys.unref().to_set() == set@);
    assert(keys.unref() =~= v@);
    assert(vstd::laws_cmp::obeys_cmp::<u32>());
    assert(vstd::laws_cmp::obeys_cmp::<&u32>());
    assert(vstd::std_specs::btree::increasing_seq(keys));
    assert forall|i: int, j: int| 0 <= i < j < v@.len() implies v@[i] < v@[j] by {
        assert(vstd::std_specs::cmp::OrdSpec::cmp_spec(&keys[i], &keys[j]) is Less);
    }
    assert forall|x: u32| set@.contains(x) <==> v@.contains(x) by {
        if v@.contains(x) {
            assert(v@.to_set().contains(x));
        }
        if set@.contains(x) {
            assert(v@.to_set().contains(x));
        }
    }
    v
}


proof fn lemma_items_of_decimals(v: Seq<u32>, raw: Seq<char>)
    ensures
        cpu_items(v.map_values(|c: u32| decimal(c as nat)), raw) == Ok::<Set<u32>, Seq<char>>(
            Set::new(|x: u32| v.contains(x)),
        ),
    decreases v.len(),
{
    let items = v.map_values(|c: u32| decimal(c as nat));
    if v.len() == 0 {
        assert(Set::new(|x: u32| v.contains(x)) =~= Set::<u32>::empty());
    } else {
        let d = decimal(v[0] as nat);
        assert(items[0] == d);
        lemma_decimal_value(v[0] as nat);
        lemma_parse_decimal(v[0]);
        assert(!has_char(d, '-')) by {
            assert forall|i: int| 0 <= i < d.len() implies d[i] != '-' by {
                assert(is_digit(d[i]));
            }
        }
        assert(item_ends(d) == (d, d));
        assert(item_bounds(d) == Some((v[0], v[0])));
        assert(items.drop_first() =~= v.drop_first().map_values(|c: u32| decimal(c as nat)));
        lemma_items_of_decimals(v.drop_first(), raw);
        assert(cpu_range(v[0], v[0]).union(Set::new(|x: u32| v.drop_first().contains(x))) =~= Set::new(
            |x: u32| v.contains(x),
        )) by {
            assert forall|x: u32| v.contains(x) implies (x == v[0] || v.drop_first().contains(x)) by {
                let i = choose|i: int| 0 <= i < v.len() && v[i] == x;
                if i > 0 {
                    assert(v.drop_first()[i - 1] == x);
                }
            }
            assert forall|x: u32| v.drop_first().contains(x) implies v.contains(x) by {
                let i = choose|i: int| 0 <= i < v.drop_first().len() && v.drop_first()[i] == x;
                assert(v[i + 1] == x);
            }
            assert(v.contains(v[0]));
        }
    }
}

/// What `format_cpu_list` writes, `parse_cpu_list` reads back as the same
/// CPUs.
pub proof fn law_cpu_list_round_trip(v: Seq<u32>)
    ensures
        cpu_list(cpus_text(v)) == Ok::<Set<u32>, Seq<char>>(Set::new(|x: u32| v.contains(x))),
{
    reveal_strlit(",");
    assert(","@ =~= seq![',']);
    let parts = v.map_values(|c: u32| decimal(c as nat));
    let t = cpus_text(v);
    let ok = |ch: char| is_digit(ch) || ch == ',';
    assert forall|k: int, i: int| 0 <= k < parts.len() && 0 <= i < parts[k].len() implies ok(
        #[trigger] parts[k][i],
    ) by {
        lemma_decimal_value(v[k] as nat);
        assert(parts[k] == decimal(v[k] as nat));
        assert(is_digit(parts[k][i]));
    }
    lemma_join_chars(parts, ","@, ok);
    assert forall|i: int| 0 <= i < t.len() implies !is_ws(#[trigger] t[i]) by {
        assert(ok(t[i]));
    }
    lemma_trim_no_ws(t);
    lemma_items_of_decimals(v, t);
    if v.len() == 0 {
        assert(t =~= Seq::<char>::empty());
        assert(split(t, ',') =~= seq![Seq::<char>::empty()]);
        assert(seq![Seq::<char>::empty()].drop_first() =~= Seq::<Seq<char>>::empty());
        assert(Set::new(|x: u32| v.contains(x)) =~= Set::<u32>::empty());
        assert(cpu_items(split(t, ','), t) == cpu_items(Seq::<Seq<char>>::empty(), t));
    } else {
        assert(pieces_without(parts, ',')) by {
            assert forall|k: int, i: int| 0 <= k < parts.len() && 0 <= i < parts[k].len() implies #[trigger] parts[k][i] != ',' by {
                lemma_decimal_value(v[k] as nat);
                assert(parts[k] == decimal(v[k] as nat));
                assert(is_digit(parts[k][i]));
            }
        }
        lemma_split_join(parts, ',');
        assert(t == join(parts, seq![',']));
        assert(split(trim(t), ',') == parts);
        assert(cpu_list(t) == cpu_items(parts, t));
    }
}

/// How many members of `s` lie below `n`.
pub open spec fn count_below(s: Set<u32>, n: nat) -> nat
    decreases n,
{
    if n == 0 {
        0
    } else {
        count_below(s, (n - 1) as nat) + if s.contains((n - 1) as u32) {
            1nat
        } else {
            0nat
        }
    }
}

/// At most `n` members lie below `n`, and all `n` do exactly when every
/// number below `n` is a member.
pub proof fn law_count_below_bounds(s: Set<u32>, n: nat)
    requires
        n <= u32::MAX,
    ensures
        count_below(s, n) <= n,
        count_below(s, n) == n <==> (forall|c: u32| c < n ==> s.contains(c)),
        (forall|c: u32| c < n ==> !s.contains(c)) ==> count_below(s, n) == 0,
    decreases n,
{
    if n > 0 {
        law_count_below_bounds(s, (n - 1) as nat);
        let last = (n - 1) as u32;
        if count_below(s, n) == n {
            assert forall|c: u32| c < n implies s.contains(c) by {
                if c < n - 1 {
                } else {
                    assert(c == last);
                }
            }
        }
    }
}

/// How many of the first sixteen threads (`cpu0`–`cpu15`, one per physical
/// core) are in `cpus`.
pub fn first_threads_online(cpus: &BTreeSet<u32>) -> (n: u32)
    ensures
        n == count_below(cpus@, 16),
{
    let mut n: u32 = 0;
    let mut c: u32 = 0;
    while c < 16
        invariant
            c <= 16,
            n <= c,
            n == count_below(cpus@, c as nat),
        decreases 16 - c,
    {
        if cpus.contains(&c) {
            n = n + 1;
        }
        c = c + 1;
    }
    n
}

/// The core preset that the online CPUs show: one core per online thread
/// among `cpu0`–`cpu15`.
pub fn online_core_preset(cpus: &BTreeSet<u32>) -> (p: CorePreset)
    ensures
        p == preset_of(count_below(cpus@, 16) as u32),
{
    CorePreset::from_u32(first_threads_online(cpus))
}

} // verus!
