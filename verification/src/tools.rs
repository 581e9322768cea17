//! The command lines handed to asusctl and ryzenadj, and the parsing of what
//! they print.

use vstd::prelude::*;
use crate::state::{profile_name, PptLimits, Profile};
use crate::text::{
    chars_of, contains, contains_exec, decimal, find_char, first_index, has_char, is_text,
    last_index, lines, lines_of, lower, lower_exec, parse_u32, parse_u32_exec, push_decimal,
    rfind_char, slice_of, split, split_chars, starts_with, starts_with_exec, string_of,
    string_views, trim, trimmed, views,
};

verus! {

// ---------------------------------------------------------------------------
// asusctl profile
// ---------------------------------------------------------------------------

/// `asusctl profile set <name>`: the arguments after the program name.
pub fn profile_set_args(profile: &Profile) -> (args: Vec<String>)
    ensures
        string_views(args@) == seq!["profile"@, "set"@, profile_name(*profile)],
{
    let mut args: Vec<String> = Vec::new();
    args.push(String::from_str("profile"));
    args.push(String::from_str("set"));
    args.push(String::from_str(profile.as_str()));
    assert(string_views(args@) =~= seq!["profile"@, "set"@, profile_name(*profile)]);
    args
}

/// The line of `asusctl profile get` that names the active profile.
pub open spec fn is_active_line(l: Seq<char>) -> bool {
    starts_with(lower(l), "active profile:"@)
}

/// `k` is the first line of `ls` that names the active profile.
pub open spec fn first_active_line(ls: Seq<Seq<char>>, k: int) -> bool {
    &&& 0 <= k < ls.len()
    &&& is_active_line(ls[k])
    &&& forall|j: int| 0 <= j < k ==> !is_active_line(ls[j])
}

/// The profile a name denotes: `quiet` and `performance` (in any ASCII
/// case, surrounding whitespace ignored); anything else reads as balanced.
pub open spec fn profile_from_reported(v: Seq<char>) -> Profile {
    let t = lower(trim(v));
    if t == "quiet"@ {
        Profile::Quiet
    } else if t == "performance"@ {
        Profile::Performance
    } else {
        Profile::Balanced
    }
}

/// A reported profile name (any ASCII case, surrounding whitespace aside)
/// is read as that profile; anything else as Balanced.
pub proof fn law_reported_name_read_as_profile(v: Seq<char>, p: Profile)
    ensures
        lower(trim(v)) == profile_name(p) ==> profile_from_reported(v) == p,
        (lower(trim(v)) != "quiet"@ && lower(trim(v)) != "performance"@) ==> profile_from_reported(v)
            == Profile::Balanced,
{
    reveal_strlit("quiet");
    reveal_strlit("balanced");
    reveal_strlit("performance");
    assert("quiet"@.len() == 5);
    assert("balanced"@.len() == 8);
    assert("performance"@.len() == 11);
}

/// What `asusctl profile get` reports: the text after the first `:` of the
/// first `Active profile:` line (matched in any ASCII case).
pub open spec fn reported_profile(stdout: Seq<char>) -> Option<Profile> {
    let ls = lines(stdout);
    if exists|k: int| first_active_line(ls, k) {
        let k = choose|k: int| first_active_line(ls, k);
        let parts = split(ls[k], ':');
        if parts.len() >= 2 {
            Some(profile_from_reported(parts[1]))
        } else {
            None
        }
    } else {
        None
    }
}

/// Reads the active platform profile from the output of `asusctl profile get`.
pub fn parse_active_profile(stdout: &str) -> (r: Option<Profile>)
    ensures
        r == reported_profile(stdout@),
{
    let chars = chars_of(stdout);
    let ls = lines_of(&chars);
    let key = chars_of("active profile:");
    let mut k: usize = 0;
    while k < ls.len()
        invariant
            k <= ls@.len(),
            views(ls@) == lines(stdout@),
            key@ == "active profile:"@,
            forall|j: int| 0 <= j < k ==> !is_active_line(lines(stdout@)[j]),
        ensures
            k <= ls@.len(),
            forall|j: int| 0 <= j < k ==> !is_active_line(lines(stdout@)[j]),
            k < ls@.len() ==> is_active_line(lines(stdout@)[k as int]),
        decreases ls@.len() - k,
    {
        let l = lower_exec(&ls[k]);
        assert(ls@[k as int]@ == lines(stdout@)[k as int]);
        if starts_with_exec(&l, &key) {
            break;
        }
        k = k + 1;
    }
    let ghost all = lines(stdout@);
    if k == ls.len() {
        assert(!exists|j: int| first_active_line(all, j));
        return None;
    }
    assert(ls@[k as int]@ == all[k as int]);
    assert(first_active_line(all, k as int));
    let ghost c = choose|j: int| first_active_line(all, j);
    assert(c == k) by {
        if c < k {
            assert(!is_active_line(all[c]));
        } else if c > k {
        }
    }
    let parts = split_chars(&ls[k], ':');
    if parts.len() < 2 {
        return None;
    }
    let v = lower_exec(&trimmed(&parts[1]));
    if is_text(&v, "quiet") {
        Some(Profile::Quiet)
    } else if is_text(&v, "performance") {
        Some(Profile::Performance)
    } else {
        Some(Profile::Balanced)
    }
}


// ---------------------------------------------------------------------------
// asusctl fan curves
// ---------------------------------------------------------------------------

/// The asusctl invocations that install a fan curve for `profile`: the same
/// `data` for the CPU fan, then the GPU fan, then enabling custom curves.
pub open spec fn fan_curve_invocations(profile: Profile, data: Seq<char>) -> Seq<Seq<Seq<char>>> {
    seq![
        seq!["fan-curve"@, "--mod-profile"@, profile_name(profile), "--fan"@, "cpu"@, "--data"@, data],
        seq!["fan-curve"@, "--mod-profile"@, profile_name(profile), "--fan"@, "gpu"@, "--data"@, data],
        seq!["fan-curve"@, "--mod-profile"@, profile_name(profile), "--enable-fan-curves"@, "true"@],
    ]
}

fn strings_of(parts: &[&str]) -> (v: Vec<String>)
    ensures
        string_views(v@) == parts@.map_values(|p: &str| p@),
{
    let mut v: Vec<String> = Vec::new();
    let mut i: usize = 0;
    while i < parts.len()
        invariant
            i <= parts@.len(),
            string_views(v@) == parts@.take(i as int).map_values(|p: &str| p@),
        decreases parts@.len() - i,
    {
        let ghost before = string_views(v@);
        v.push(String::from_str(parts[i]));
        assert(string_views(v@) =~= before.push(parts@[i as int]@));
        i = i + 1;
        assert(string_views(v@) =~= parts@.take(i as int).map_values(|p: &str| p@));
    }
    assert(parts@.take(parts@.len() as int) =~= parts@);
    v
}

/// The argument lists of the asusctl calls that install a fan curve, in the
/// order they run; `data` is the curve as `<temp>c:<pwm>,...`.
pub fn fan_curve_arg_sets(profile: &Profile, data: &str) -> (r: Vec<Vec<String>>)
    ensures
        r@.len() == 3,
        forall|i: int| 0 <= i < 3 ==> string_views(#[trigger] r@[i]@) == fan_curve_invocations(
            *profile,
            data@,
        )[i],
{
    let name = profile.as_str();
    let mut r: Vec<Vec<String>> = Vec::new();
    let a = strings_of(&["fan-curve", "--mod-profile", name, "--fan", "cpu", "--data", data]);
    let b = strings_of(&["fan-curve", "--mod-profile", name, "--fan", "gpu", "--data", data]);
    let c = strings_of(&["fan-curve", "--mod-profile", name, "--enable-fan-curves", "true"]);
    r.push(a);
    r.push(b);
    r.push(c);
    assert(string_views(r@[0]@) =~= fan_curve_invocations(*profile, data@)[0]);
    assert(string_views(r@[1]@) =~= fan_curve_invocations(*profile, data@)[1]);
    assert(string_views(r@[2]@) =~= fan_curve_invocations(*profile, data@)[2]);
    r
}

/// Each text, trimmed, is a `u32`; `None` as soon as one is not.
pub open spec fn parse_all_u32(pieces: Seq<Seq<char>>) -> Option<Seq<u32>>
    decreases pieces.len(),
{
    if pieces.len() == 0 {
        Some(Seq::<u32>::empty())
    } else {
        match (parse_all_u32(pieces.drop_last()), parse_u32(trim(pieces.last()))) {
            (Some(v), Some(x)) => Some(v.push(x)),
            _ => None,
        }
    }
}

/// The numbers of a `(a, b, c, ...)` tuple: the comma-separated text between
/// the first `(` and the last `)`.
pub open spec fn paren_numbers(s: Seq<char>) -> Option<Seq<u32>> {
    if has_char(s, '(') && has_char(s, ')') {
        let a = first_index(s, '(');
        let b = last_index(s, ')');
        if b <= a {
            None
        } else {
            parse_all_u32(split(s.subrange(a + 1, b), ','))
        }
    } else {
        None
    }
}

fn paren_numbers_exec(s: &[char]) -> (r: Option<Vec<u32>>)
    ensures
        match r {
            Some(v) => paren_numbers(s@) == Some(v@),
            None => paren_numbers(s@) is None,
        },
{
    let start = match find_char(s, '(') {
        Some(a) => a,
        None => {
            return None;
        },
    };
    let end = match rfind_char(s, ')') {
        Some(b) => b,
        None => {
            return None;
        },
    };
    if end <= start {
        return None;
    }
    let inner = slice_of(s, start + 1, end);
    let pieces = split_chars(&inner, ',');
    let ghost ps = split(s@.subrange(start + 1, end as int), ',');
    assert(views(pieces@) == ps);
    let mut out: Vec<u32> = Vec::new();
    let mut i: usize = 0;
    assert(ps.take(0) =~= Seq::<Seq<char>>::empty());
    assert(paren_numbers(s@) == parse_all_u32(ps));
    while i < pieces.len()
        invariant
            i <= pieces@.len(),
            views(pieces@) == ps,
            paren_numbers(s@) == parse_all_u32(ps),
            parse_all_u32(ps.take(i as int)) == Some(out@),
        decreases pieces@.len() - i,
    {
        assert(ps.take(i + 1).drop_last() =~= ps.take(i as int));
        assert(ps.take(i + 1).last() == pieces@[i as int]@);
        let t = trimmed(&pieces[i]);
        match parse_u32_exec(&t) {
            Some(x) => {
                out.push(x);
            },
            None => {
                assert(parse_all_u32(ps.take(i + 1)) is None);
                proof {
                    lemma_parse_all_prefix_none(ps, i + 1);
                }
                assert(paren_numbers(s@) == parse_all_u32(ps));
                return None;
            },
        }
        i = i + 1;
    }
    assert(ps.take(pieces@.len() as int) =~= ps);
    Some(out)
}

proof fn lemma_parse_all_prefix_none(ps: Seq<Seq<char>>, k: int)
    requires
        0 <= k <= ps.len(),
        parse_all_u32(ps.take(k)) is None,
    ensures
        parse_all_u32(ps) is None,
    decreases ps.len() - k,
{
    if k < ps.len() {
        assert(ps.take(k + 1).drop_last() =~= ps.take(k));
        lemma_parse_all_prefix_none(ps, k + 1);
    } else {
        assert(ps.take(k) =~= ps);
    }
}

/// Reads the numbers of a `(a, b, c, ...)` tuple on one line.
pub fn extract_paren_u32s(s: &str) -> (r: Option<Vec<u32>>)
    ensures
        match r {
            Some(v) => paren_numbers(s@) == Some(v@),
            None => paren_numbers(s@) is None,
        },
{
    let chars = chars_of(s);
    paren_numbers_exec(&chars)
}

/// A line of the fan-curve listing, trimmed and lower-cased, begins with `key`.
pub open spec fn is_keyed(l: Seq<char>, key: Seq<char>) -> bool {
    starts_with(lower(trim(l)), key)
}

/// The header line of the CPU fan's curve.
pub open spec fn is_cpu_header(l: Seq<char>) -> bool {
    is_keyed(l, "fan:"@) && contains(lower(trim(l)), "cpu"@)
}

/// `k` is the first CPU fan header of `ls`.
pub open spec fn first_cpu_header(ls: Seq<Seq<char>>, k: int) -> bool {
    &&& 0 <= k < ls.len()
    &&& is_cpu_header(ls[k])
    &&& forall|j: int| 0 <= j < k ==> !is_cpu_header(ls[j])
}

/// The numbers of the last `temp:` line of `w`, if `w` has one.
pub open spec fn last_temps(w: Seq<Seq<char>>) -> Option<Option<Seq<u32>>>
    decreases w.len(),
{
    if w.len() == 0 {
        None
    } else if is_keyed(w.last(), "temp:"@) {
        Some(paren_numbers(trim(w.last())))
    } else {
        last_temps(w.drop_last())
    }
}

/// The numbers of the last `pwm:` line of `w`, if `w` has one.
pub open spec fn last_pwms(w: Seq<Seq<char>>) -> Option<Option<Seq<u32>>>
    decreases w.len(),
{
    if w.len() == 0 {
        None
    } else if !is_keyed(w.last(), "temp:"@) && is_keyed(w.last(), "pwm:"@) {
        Some(paren_numbers(trim(w.last())))
    } else {
        last_pwms(w.drop_last())
    }
}

/// How many lines at the front of `s` come before the first `fan:` header.
pub open spec fn lines_before_header(s: Seq<Seq<char>>) -> nat
    decreases s.len(),
{
    if s.len() == 0 {
        0
    } else if is_keyed(s[0], "fan:"@) {
        0
    } else {
        1 + lines_before_header(s.drop_first())
    }
}

/// The CPU fan's block of the listing whose first CPU header is line `k`:
/// the lines after the header, up to the next `fan:` header (the next fan's
/// block), and at most to the eighth line from the header.
pub open spec fn cpu_block(ls: Seq<Seq<char>>, k: int) -> Seq<Seq<char>> {
    let end = if k + 8 < ls.len() {
        k + 8
    } else {
        ls.len() as int
    };
    let s = ls.subrange(k + 1, end);
    s.take(lines_before_header(s) as int)
}

/// The CPU fan curve that `asusctl fan-curve --mod-profile <p>` lists, as
/// `(temperature °C, PWM 0-255)` points: the `temp:` and `pwm:` tuples of the
/// CPU fan's block (see [`cpu_block`]), which begins at the first
/// `fan: ... cpu ...` header. Both must be present, of equal and non-zero
/// length.
pub open spec fn cpu_fan_points(output: Seq<char>) -> Option<Seq<(u32, u32)>> {
    let ls = lines(output);
    if exists|k: int| first_cpu_header(ls, k) {
        let k = choose|k: int| first_cpu_header(ls, k);
        let w = cpu_block(ls, k);
        match (last_temps(w), last_pwms(w)) {
            (Some(Some(t)), Some(Some(p))) => if t.len() == p.len() && t.len() > 0 {
                Some(Seq::new(t.len(), |i: int| (t[i], p[i])))
            } else {
                None
            },
            _ => None,
        }
    } else {
        None
    }
}

fn is_keyed_exec(l: &[char], key: &[char]) -> (b: bool)
    ensures
        b == is_keyed(l@, key@),
{
    let t = lower_exec(&trimmed(l));
    starts_with_exec(&t, key)
}

/// Reads the CPU fan curve from `asusctl fan-curve` output as
/// `(temperature °C, PWM 0-255)` points.
pub fn parse_cpu_fan_curve(output: &str) -> (r: Option<Vec<(u32, u32)>>)
    ensures
        match r {
            Some(v) => cpu_fan_points(output@) == Some(v@),
            None => cpu_fan_points(output@) is None,
        },
{
    let chars = chars_of(output);
    let ls = lines_of(&chars);
    let ghost all = lines(output@);
    let fan_key = chars_of("fan:");
    let cpu_key = chars_of("cpu");
    let temp_key = chars_of("temp:");
    let pwm_key = chars_of("pwm:");
    let mut k: usize = 0;
    while k < ls.len()
        invariant
            k <= ls@.len(),
            views(ls@) == all,
            fan_key@ == "fan:"@,
            cpu_key@ == "cpu"@,
            forall|j: int| 0 <= j < k ==> !is_cpu_header(all[j]),
        ensures
            k <= ls@.len(),
            forall|j: int| 0 <= j < k ==> !is_cpu_header(all[j]),
            k < ls@.len() ==> is_cpu_header(all[k as int]),
        decreases ls@.len() - k,
    {
        assert(ls@[k as int]@ == all[k as int]);
        let t = lower_exec(&trimmed(&ls[k]));
        if starts_with_exec(&t, &fan_key) && contains_exec(&t, &cpu_key) {
            break;
        }
        k = k + 1;
    }
    if k == ls.len() {
        assert(!exists|j: int| first_cpu_header(all, j));
        return None;
    }
    assert(first_cpu_header(all, k as int));
    let ghost c = choose|j: int| first_cpu_header(all, j);
    assert(c == k) by {
        if c < k {
            assert(!is_cpu_header(all[c]));
        } else if c > k {
        }
    }
    let end: usize = if ls.len() - k > 8 {
        k + 8
    } else {
        ls.len()
    };
    let start: usize = k + 1;
    let ghost s = all.subrange(start as int, end as int);
    let mut temps: Option<Option<Vec<u32>>> = None;
    let mut pwms: Option<Option<Vec<u32>>> = None;
    let mut j: usize = start;
    assert(s.take(0) =~= Seq::<Seq<char>>::empty());
    assert(s.skip(0) =~= s);
    while j < end
        invariant
            start <= j <= end <= ls@.len(),
            views(ls@) == all,
            s == all.subrange(start as int, end as int),
            fan_key@ == "fan:"@,
            temp_key@ == "temp:"@,
            pwm_key@ == "pwm:"@,
            lines_before_header(s) == (j - start) + lines_before_header(s.skip(j - start)),
            last_temps(s.take(j - start)) == match temps {
                Some(Some(v)) => Some(Some(v@)),
                Some(None) => Some(None::<Seq<u32>>),
                None => None,
            },
            last_pwms(s.take(j - start)) == match pwms {
                Some(Some(v)) => Some(Some(v@)),
                Some(None) => Some(None::<Seq<u32>>),
                None => None,
            },
        ensures
            start <= j <= end,
            lines_before_header(s) == j - start,
            last_temps(s.take(j - start)) == match temps {
                Some(Some(v)) => Some(Some(v@)),
                Some(None) => Some(None::<Seq<u32>>),
                None => None,
            },
            last_pwms(s.take(j - start)) == match pwms {
                Some(Some(v)) => Some(Some(v@)),
                Some(None) => Some(None::<Seq<u32>>),
                None => None,
            },
        decreases end - j,
    {
        let line = &ls[j];
        assert(line@ == s[j - start]);
        let ghost rest = s.skip(j - start);
        assert(rest[0] == line@);
        assert(rest.drop_first() =~= s.skip(j + 1 - start));
        if is_keyed_exec(line, &fan_key) {
            break;
        }
        assert(s.take(j + 1 - start).drop_last() =~= s.take(j - start));
        assert(s.take(j + 1 - start).last() == line@);
        if is_keyed_exec(line, &temp_key) {
            temps = Some(paren_numbers_exec(&trimmed(line)));
        } else if is_keyed_exec(line, &pwm_key) {
            pwms = Some(paren_numbers_exec(&trimmed(line)));
        }
        j = j + 1;
        proof {
            if j == end {
                assert(s.skip(j - start).len() == 0);
            }
        }
    }
    assert(s.take(j - start) =~= cpu_block(all, k as int));
    let t = match temps {
        Some(Some(t)) => t,
        _ => {
            return None;
        },
    };
    let p = match pwms {
        Some(Some(p)) => p,
        _ => {
            return None;
        },
    };
    if t.len() != p.len() || t.len() == 0 {
        return None;
    }
    let mut points: Vec<(u32, u32)> = Vec::new();
    let mut i: usize = 0;
    while i < t.len()
        invariant
            i <= t@.len() == p@.len(),
            points@ == Seq::new(i as nat, |m: int| (t@[m], p@[m])),
        decreases t@.len() - i,
    {
        points.push((t[i], p[i]));
        i = i + 1;
        assert(points@ =~= Seq::new(i as nat, |m: int| (t@[m], p@[m])));
    }
    Some(points)
}


// ---------------------------------------------------------------------------
// ryzenadj
// ---------------------------------------------------------------------------

/// `--<flag>=<value>`.
pub open spec fn flag_arg(flag: Seq<char>, value: u32) -> Seq<char> {
    flag + decimal(value as nat)
}

/// The limit flags passed to ryzenadj: STAPM, fast, slow, and the APU slow
/// limit, which follows the STAPM limit.
pub open spec fn ppt_flags(p: PptLimits) -> Seq<Seq<char>> {
    seq![
        flag_arg("--stapm-limit="@, p.apu_limit),
        flag_arg("--fast-limit="@, p.fast_limit),
        flag_arg("--slow-limit="@, p.slow_limit),
        flag_arg("--apu-slow-limit="@, p.apu_limit),
    ]
}

/// ryzenadj gets the sustained limit as STAPM and as the APU slow limit,
/// the fast limit as the fast limit and the slow limit as the slow limit,
/// each in milliwatts.
pub proof fn law_ppt_flags_carry_limits(p: PptLimits)
    ensures
        ppt_flags(p).len() == 4,
        ppt_flags(p)[0] == "--stapm-limit="@ + decimal(p.apu_limit as nat),
        ppt_flags(p)[1] == "--fast-limit="@ + decimal(p.fast_limit as nat),
        ppt_flags(p)[2] == "--slow-limit="@ + decimal(p.slow_limit as nat),
        ppt_flags(p)[3] == "--apu-slow-limit="@ + decimal(p.apu_limit as nat),
{
}

fn flag_string(flag: &str, value: u32) -> (s: String)
    ensures
        s@ == flag_arg(flag@, value),
{
    let mut s = String::from_str(flag);
    push_decimal(&mut s, value as u64);
    s
}

/// The ryzenadj arguments that set `ppt` (values in mW).
pub fn ryzenadj_args(ppt: &PptLimits) -> (args: Vec<String>)
    ensures
        string_views(args@) == ppt_flags(*ppt),
{
    let mut args: Vec<String> = Vec::new();
    args.push(flag_string("--stapm-limit=", ppt.apu_limit));
    args.push(flag_string("--fast-limit=", ppt.fast_limit));
    args.push(flag_string("--slow-limit=", ppt.slow_limit));
    args.push(flag_string("--apu-slow-limit=", ppt.apu_limit));
    assert(string_views(args@) =~= ppt_flags(*ppt));
    args
}

/// The value cell of a `ryzenadj --info` table row
/// (`|STAPM LIMIT |  15.000| stapm-limit |`): the third `|`-separated
/// field, trimmed.
pub open spec fn value_column(line: Seq<char>) -> Option<Seq<char>> {
    let p = split(line, '|');
    if p.len() >= 3 {
        Some(trim(p[2]))
    } else {
        None
    }
}

/// Which limit a row reports: 0 STAPM, 1 PPT fast, 2 PPT slow, 3 none;
/// matched on the row's ASCII lower case, in that order.
pub open spec fn row_kind(l: Seq<char>) -> int {
    let t = lower(l);
    if contains(t, "stapm limit"@) {
        0
    } else if contains(t, "ppt limit fast"@) {
        1
    } else if contains(t, "ppt limit slow"@) {
        2
    } else {
        3
    }
}

/// The value cell of the last row of `kind` in `ls`; `None` when there is
/// no such row or that row has no value cell.
pub open spec fn last_row_value(ls: Seq<Seq<char>>, kind: int) -> Option<Seq<char>>
    decreases ls.len(),
{
    if ls.len() == 0 {
        None
    } else if row_kind(ls.last()) == kind {
        value_column(ls.last())
    } else {
        last_row_value(ls.drop_last(), kind)
    }
}

/// The value cells (watts, as printed) of the three limits in
/// `ryzenadj --info` output.
#[derive(Debug)]
pub struct PptCells {
    pub apu: Option<String>,
    pub fast: Option<String>,
    pub slow: Option<String>,
}

/// A cell as plain text.
pub open spec fn cell_view(c: Option<String>) -> Option<Seq<char>> {
    match c {
        Some(s) => Some(s@),
        None => None,
    }
}

/// The value cell of one `ryzenadj --info` row.
pub fn ryzenadj_value_cell(line: &[char]) -> (r: Option<String>)
    ensures
        cell_view(r) == value_column(line@),
{
    let p = split_chars(line, '|');
    if p.len() >= 3 {
        let t = trimmed(&p[2]);
        Some(string_of(&t))
    } else {
        None
    }
}

fn row_kind_exec(l: &[char], stapm: &[char], fast: &[char], slow: &[char]) -> (k: u8)
    requires
        stapm@ == "stapm limit"@,
        fast@ == "ppt limit fast"@,
        slow@ == "ppt limit slow"@,
    ensures
        k as int == row_kind(l@),
{
    let t = lower_exec(l);
    if contains_exec(&t, stapm) {
        0
    } else if contains_exec(&t, fast) {
        1
    } else if contains_exec(&t, slow) {
        2
    } else {
        3
    }
}

/// Finds the STAPM, PPT fast and PPT slow value cells in `ryzenadj --info`
/// output; for each limit the last row that reports it counts.
pub fn ryzenadj_info_cells(stdout: &str) -> (r: PptCells)
    ensures
        cell_view(r.apu) == last_row_value(lines(stdout@), 0),
        cell_view(r.fast) == last_row_value(lines(stdout@), 1),
        cell_view(r.slow) == last_row_value(lines(stdout@), 2),
{
    let chars = chars_of(stdout);
    let ls = lines_of(&chars);
    let ghost all = lines(stdout@);
    let stapm = chars_of("stapm limit");
    let fast = chars_of("ppt limit fast");
    let slow = chars_of("ppt limit slow");
    let mut cells = PptCells { apu: None, fast: None, slow: None };
    let mut i: usize = 0;
    assert(all.take(0) =~= Seq::<Seq<char>>::empty());
    while i < ls.len()
        invariant
            i <= ls@.len(),
            views(ls@) == all,
            stapm@ == "stapm limit"@,
            fast@ == "ppt limit fast"@,
            slow@ == "ppt limit slow"@,
            cell_view(cells.apu) == last_row_value(all.take(i as int), 0),
            cell_view(cells.fast) == last_row_value(all.take(i as int), 1),
            cell_view(cells.slow) == last_row_value(all.take(i as int), 2),
        decreases ls@.len() - i,
    {
        let line = &ls[i];
        assert(all.take(i + 1).drop_last() =~= all.take(i as int));
        assert(all.take(i + 1).last() == line@);
        let kind = row_kind_exec(line, &stapm, &fast, &slow);
        if kind == 0 {
            cells.apu = ryzenadj_value_cell(line);
        } else if kind == 1 {
            cells.fast = ryzenadj_value_cell(line);
        } else if kind == 2 {
            cells.slow = ryzenadj_value_cell(line);
        }
        i = i + 1;
    }
    assert(all.take(ls@.len() as int) =~= all);
    cells
}

} // verus!
