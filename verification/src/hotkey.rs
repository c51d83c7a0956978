//! Hotkey string codec.
//!
//! A hotkey is written `Modifier[+Modifier]+Key`, e.g. "Ctrl+F12". The
//! string is split on `+`, tokens are trimmed, the final token must name one
//! of the function keys F1 through F12 and the preceding tokens, rejoined
//! with `+`, must name one of the six supported modifier combinations. All
//! name matching is ASCII-case-insensitive.

use vstd::prelude::*;
use vstd::slice::slice_subrange;

verus! {

/// ASCII case folding on a character's code point: upper-case letters map to
/// their lower-case counterpart, everything else is unchanged.
pub open spec fn fold_char(c: char) -> u32 {
    if 65 <= c as u32 <= 90 {
        (c as u32 + 32) as u32
    } else {
        c as u32
    }
}

/// ASCII-case-insensitive equality of two character sequences.
pub open spec fn ieq(a: Seq<char>, b: Seq<char>) -> bool {
    a.len() == b.len() && (forall|i: int|
        0 <= i < a.len() ==> fold_char(a[i]) == fold_char(b[i]))
}

/// The whitespace trimmed from hotkey tokens: the Unicode whitespace
/// characters, as `str::trim` removes them.
pub open spec fn is_space(c: char) -> bool {
    let u = c as u32;
    ||| 9 <= u <= 13
    ||| u == 32
    ||| u == 0x85
    ||| u == 0xA0
    ||| u == 0x1680
    ||| 0x2000 <= u <= 0x200A
    ||| u == 0x2028
    ||| u == 0x2029
    ||| u == 0x202F
    ||| u == 0x205F
    ||| u == 0x3000
}

/// Characters remaining after leading whitespace is removed.
pub open spec fn trim_start(s: Seq<char>) -> Seq<char>
    decreases s.len(),
{
    if s.len() > 0 && is_space(s[0]) {
        trim_start(s.drop_first())
    } else {
        s
    }
}

/// Characters remaining after trailing whitespace is removed.
pub open spec fn trim_end(s: Seq<char>) -> Seq<char>
    decreases s.len(),
{
    if s.len() > 0 && is_space(s.last()) {
        trim_end(s.drop_last())
    } else {
        s
    }
}

/// Characters remaining after leading and trailing whitespace is removed.
pub open spec fn spec_trim(s: Seq<char>) -> Seq<char> {
    trim_end(trim_start(s))
}

/// The segments of `s` between `+` separators, in order. A string without
/// any `+` is one segment; every `+` starts a new (possibly empty) segment.
pub open spec fn split_plus(s: Seq<char>) -> Seq<Seq<char>>
    decreases s.len(),
{
    if s.len() == 0 {
        seq![Seq::<char>::empty()]
    } else if s[0] == '+' {
        seq![Seq::<char>::empty()] + split_plus(s.drop_first())
    } else {
        let rest = split_plus(s.drop_first());
        seq![seq![s[0]] + rest[0]] + rest.drop_first()
    }
}

/// Splitting always yields at least one segment.
pub proof fn lemma_split_plus_len(s: Seq<char>)
    ensures
        split_plus(s).len() >= 1,
    decreases s.len(),
{
    if s.len() == 0 {
    } else {
        lemma_split_plus_len(s.drop_first());
    }
}

/// The segments joined back together with `+` between them.
pub open spec fn join_plus(ts: Seq<Seq<char>>) -> Seq<char>
    decreases ts.len(),
{
    if ts.len() == 0 {
        Seq::<char>::empty()
    } else if ts.len() == 1 {
        ts[0]
    } else {
        ts[0] + seq!['+'] + join_plus(ts.drop_first())
    }
}

/// The trimmed tokens of a hotkey string.
pub open spec fn tokens_of(s: Seq<char>) -> Seq<Seq<char>> {
    split_plus(s).map_values(|t: Seq<char>| spec_trim(t))
}

/// The virtual-key code a token names, if it is one of F1 through F12
/// (case-insensitively): `F1` maps to 112, each further key one higher, up
/// to `F12` at 123.
pub open spec fn key_token_code(t: Seq<char>) -> Option<u32> {
    if t.len() == 2 && fold_char(t[0]) == 102 && 49 <= t[1] as u32 <= 57 {
        Some((112 + (t[1] as u32 - 49)) as u32)
    } else if t.len() == 3 && fold_char(t[0]) == 102 && t[1] == '1' && 48 <= t[2] as u32 <= 50 {
        Some((121 + (t[2] as u32 - 48)) as u32)
    } else {
        None
    }
}

/// The name of the modifier combination at a table index: Ctrl, Alt, Shift,
/// and the three supported pairs.
pub open spec fn modifier_name(i: int) -> Seq<char> {
    if i == 0 {
        seq!['C', 't', 'r', 'l']
    } else if i == 1 {
        seq!['A', 'l', 't']
    } else if i == 2 {
        seq!['S', 'h', 'i', 'f', 't']
    } else if i == 3 {
        seq!['C', 't', 'r', 'l', '+', 'A', 'l', 't']
    } else if i == 4 {
        seq!['C', 't', 'r', 'l', '+', 'S', 'h', 'i', 'f', 't']
    } else {
        seq!['A', 'l', 't', '+', 'S', 'h', 'i', 'f', 't']
    }
}

/// The modifier bitmask at a table index: Alt is bit 0, Ctrl bit 1, Shift
/// bit 2; pairs are the or of their parts.
pub open spec fn modifier_mask(i: int) -> u32 {
    if i == 0 {
        2
    } else if i == 1 {
        1
    } else if i == 2 {
        4
    } else if i == 3 {
        3
    } else if i == 4 {
        6
    } else {
        5
    }
}

/// The bitmask a rejoined modifier string names, if it matches one of the
/// six table entries case-insensitively.
pub open spec fn modifier_mask_of_name(t: Seq<char>) -> Option<u32> {
    if ieq(t, modifier_name(0)) {
        Some(modifier_mask(0))
    } else if ieq(t, modifier_name(1)) {
        Some(modifier_mask(1))
    } else if ieq(t, modifier_name(2)) {
        Some(modifier_mask(2))
    } else if ieq(t, modifier_name(3)) {
        Some(modifier_mask(3))
    } else if ieq(t, modifier_name(4)) {
        Some(modifier_mask(4))
    } else if ieq(t, modifier_name(5)) {
        Some(modifier_mask(5))
    } else {
        None
    }
}

/// What parsing a hotkey string yields: the modifier bitmask and virtual-key
/// code, or nothing when the string has fewer than two tokens or either
/// lookup fails.
pub open spec fn parse_hotkey_spec(s: Seq<char>) -> Option<(u32, u32)> {
    let parts = tokens_of(s);
    if parts.len() < 2 {
        None
    } else {
        match key_token_code(parts.last()) {
            Some(k) => match modifier_mask_of_name(join_plus(parts.drop_last())) {
                Some(m) => Some((m, k)),
                None => None,
            },
            None => None,
        }
    }
}

/// The characters of a string, in order.
fn str_chars(s: &str) -> (r: Vec<char>)
    ensures
        r@ == s@,
{
    let n = s.unicode_len();
    let mut v: Vec<char> = Vec::new();
    let mut i: usize = 0;
    while i < n
        invariant
            i <= n,
            n == s@.len(),
            v@ == s@.take(i as int),
        decreases n - i,
    {
        let c = s.get_char(i);
        v.push(c);
        proof {
            assert(s@.take(i + 1 as int) =~= s@.take(i as int).push(s@[i as int]));
        }
        i = i + 1;
    }
    proof {
        assert(v@ =~= s@);
    }
    v
}

/// Splits a character sequence on `+`.
fn split_plus_exec(s: &[char]) -> (r: Vec<Vec<char>>)
    ensures
        r.deep_view() == split_plus(s@),
        r.len() >= 1,
    decreases s.len(),
{
    proof {
        lemma_split_plus_len(s@);
    }
    if s.len() == 0 {
        let mut r: Vec<Vec<char>> = Vec::new();
        r.push(Vec::new());
        proof {
            assert(r.deep_view() =~~= split_plus(s@));
        }
        r
    } else if s[0] == '+' {
        let tail = slice_subrange(s, 1, s.len());
        let mut rest = split_plus_exec(tail);
        rest.insert(0, Vec::new());
        proof {
            assert(s@.drop_first() =~= tail@);
            assert(rest.deep_view() =~~= split_plus(s@));
        }
        rest
    } else {
        let tail = slice_subrange(s, 1, s.len());
        let mut rest = split_plus_exec(tail);
        let mut first = rest.remove(0);
        first.insert(0, s[0]);
        rest.insert(0, first);
        proof {
            assert(s@.drop_first() =~= tail@);
            assert(rest.deep_view() =~~= split_plus(s@));
        }
        rest
    }
}

/// Leading whitespace of `s` ends exactly at `i`: everything before is
/// whitespace and `i` is the end or a non-whitespace character.
proof fn lemma_trim_start_skip(s: Seq<char>, i: int)
    requires
        0 <= i <= s.len(),
        forall|j: int| 0 <= j < i ==> is_space(s[j]),
        i < s.len() ==> !is_space(s[i]),
    ensures
        trim_start(s) == s.skip(i),
    decreases i,
{
    if i == 0 {
        assert(s.skip(0) =~= s);
    } else {
        lemma_trim_start_skip(s.drop_first(), i - 1);
        assert(s.drop_first().skip(i - 1) =~= s.skip(i));
    }
}

/// Trailing whitespace of `s` starts exactly at `e`: everything from `e` on
/// is whitespace and `e` is the start or follows a non-whitespace character.
proof fn lemma_trim_end_take(s: Seq<char>, e: int)
    requires
        0 <= e <= s.len(),
        forall|j: int| e <= j < s.len() ==> is_space(s[j]),
        e > 0 ==> !is_space(s[e - 1]),
    ensures
        trim_end(s) == s.take(e),
    decreases s.len(),
{
    if e == s.len() {
        assert(s.take(e) =~= s);
    } else {
        assert(is_space(s.last()));
        lemma_trim_end_take(s.drop_last(), e);
        assert(s.drop_last().take(e) =~= s.take(e));
    }
}

/// Whether a character is token whitespace.
fn is_space_exec(c: char) -> (r: bool)
    ensures
        r == is_space(c),
{
    let u = c as u32;
    (9 <= u && u <= 13) || u == 32 || u == 0x85 || u == 0xA0 || u == 0x1680 || (0x2000 <= u && u
        <= 0x200A) || u == 0x2028 || u == 0x2029 || u == 0x202F || u == 0x205F || u == 0x3000
}

/// Removes leading and trailing whitespace from a token.
fn trim_exec(t: &[char]) -> (r: Vec<char>)
    ensures
        r@ == spec_trim(t@),
{
    let n = t.len();
    let mut start: usize = 0;
    while start < n && is_space_exec(t[start])
        invariant
            0 <= start <= n,
            n == t@.len(),
            forall|j: int| 0 <= j < start ==> is_space(t@[j]),
        decreases n - start,
    {
        start = start + 1;
    }
    let mut end: usize = n;
    while end > start && is_space_exec(t[end - 1])
        invariant
            start <= end <= n,
            n == t@.len(),
            forall|j: int| 0 <= j < start ==> is_space(t@[j]),
            start < n ==> !is_space(t@[start as int]),
            forall|j: int| end <= j < n ==> is_space(t@[j]),
        decreases end,
    {
        end = end - 1;
    }
    let mut r: Vec<char> = Vec::new();
    let mut i: usize = start;
    while i < end
        invariant
            start <= i <= end <= n,
            n == t@.len(),
            r@ == t@.subrange(start as int, i as int),
        decreases end - i,
    {
        r.push(t[i]);
        proof {
            assert(t@.subrange(start as int, i + 1 as int) =~= t@.subrange(
                start as int,
                i as int,
            ).push(t@[i as int]));
        }
        i = i + 1;
    }
    proof {
        lemma_trim_start_skip(t@, start as int);
        if start == end {
            lemma_trim_end_take(t@.skip(start as int), 0);
        } else {
            lemma_trim_end_take(t@.skip(start as int), end - start as int);
        }
        assert(t@.skip(start as int).take(end - start as int) =~= t@.subrange(
            start as int,
            end as int,
        ));
        assert(r@ =~= spec_trim(t@));
    }
    r
}

/// ASCII case folding of one code point.
fn fold_u32(u: u32) -> (r: u32)
    ensures
        65 <= u <= 90 ==> r == u + 32,
        !(65 <= u <= 90) ==> r == u,
{
    if 65 <= u && u <= 90 {
        u + 32
    } else {
        u
    }
}

/// ASCII-case-insensitive comparison of a token against a pattern string.
fn ieq_exec(t: &[char], pat: &str) -> (r: bool)
    ensures
        r == ieq(t@, pat@),
{
    let n = pat.unicode_len();
    if t.len() != n {
        return false;
    }
    let mut i: usize = 0;
    while i < n
        invariant
            0 <= i <= n,
            n == pat@.len(),
            n == t@.len(),
            forall|j: int| 0 <= j < i ==> fold_char(t@[j]) == fold_char(pat@[j]),
        decreases n - i,
    {
        let a = t[i] as u32;
        let b = pat.get_char(i) as u32;
        let fa = fold_u32(a);
        let fb = fold_u32(b);
        if fa != fb {
            proof {
                assert(fold_char(t@[i as int]) != fold_char(pat@[i as int]));
            }
            return false;
        }
        i = i + 1;
    }
    true
}

/// Looks a token up in the function-key table.
fn key_token_code_exec(t: &[char]) -> (r: Option<u32>)
    ensures
        r == key_token_code(t@),
{
    if t.len() == 2 {
        let c0 = t[0] as u32;
        let f0 = fold_u32(c0);
        let c1 = t[1] as u32;
        if f0 == 102 && 49 <= c1 && c1 <= 57 {
            return Some(112 + (c1 - 49));
        }
        return None;
    }
    if t.len() == 3 {
        let c0 = t[0] as u32;
        let f0 = fold_u32(c0);
        let c2 = t[2] as u32;
        if f0 == 102 && t[1] == '1' && 48 <= c2 && c2 <= 50 {
            return Some(121 + (c2 - 48));
        }
        return None;
    }
    None
}

/// Looks a rejoined modifier string up in the modifier table.
fn modifier_mask_exec(t: &[char]) -> (r: Option<u32>)
    ensures
        r == modifier_mask_of_name(t@),
{
    proof {
        reveal_strlit("Ctrl");
        reveal_strlit("Alt");
        reveal_strlit("Shift");
        reveal_strlit("Ctrl+Alt");
        reveal_strlit("Ctrl+Shift");
        reveal_strlit("Alt+Shift");
        assert("Ctrl"@ =~= modifier_name(0));
        assert("Alt"@ =~= modifier_name(1));
        assert("Shift"@ =~= modifier_name(2));
        assert("Ctrl+Alt"@ =~= modifier_name(3));
        assert("Ctrl+Shift"@ =~= modifier_name(4));
        assert("Alt+Shift"@ =~= modifier_name(5));
    }
    if ieq_exec(t, "Ctrl") {
        Some(2)
    } else if ieq_exec(t, "Alt") {
        Some(1)
    } else if ieq_exec(t, "Shift") {
        Some(4)
    } else if ieq_exec(t, "Ctrl+Alt") {
        Some(3)
    } else if ieq_exec(t, "Ctrl+Shift") {
        Some(6)
    } else if ieq_exec(t, "Alt+Shift") {
        Some(5)
    } else {
        None
    }
}

/// Joining one more segment appends a separator (unless it is the first)
/// and the segment.
proof fn lemma_join_push(ts: Seq<Seq<char>>, t: Seq<char>)
    ensures
        ts.len() == 0 ==> join_plus(ts.push(t)) == t,
        ts.len() > 0 ==> join_plus(ts.push(t)) == join_plus(ts) + seq!['+'] + t,
    decreases ts.len(),
{
    if ts.len() == 0 {
        assert(ts.push(t)[0] =~= t);
        assert(join_plus(ts.push(t)) == ts.push(t)[0]);
    } else if ts.len() == 1 {
        let p = ts.push(t);
        assert(p.len() == 2);
        assert(p[0] =~= ts[0]);
        assert(p.drop_first() =~= seq![t]);
        assert(join_plus(p) == p[0] + seq!['+'] + join_plus(p.drop_first()));
        assert(join_plus(seq![t]) == t);
        assert(join_plus(ts) == ts[0]);
    } else {
        let p = ts.push(t);
        lemma_join_push(ts.drop_first(), t);
        assert(p.drop_first() =~= ts.drop_first().push(t));
        assert(p[0] =~= ts[0]);
        assert(join_plus(p) == p[0] + seq!['+'] + join_plus(p.drop_first()));
        assert(join_plus(ts) == ts[0] + seq!['+'] + join_plus(ts.drop_first()));
        assert(ts[0] + seq!['+'] + (join_plus(ts.drop_first()) + seq!['+'] + t) =~= (ts[0]
            + seq!['+'] + join_plus(ts.drop_first())) + seq!['+'] + t);
    }
}

/// Splits a hotkey string on `+` and trims each token.
fn tokenize(s: &str) -> (r: Vec<Vec<char>>)
    ensures
        r.deep_view() == tokens_of(s@),
        r.len() >= 1,
{
    let chars = str_chars(s);
    let raw = split_plus_exec(chars.as_slice());
    let ghost gtokens = tokens_of(s@);
    proof {
        assert(gtokens.len() == raw.deep_view().len());
    }
    let mut parts: Vec<Vec<char>> = Vec::new();
    let mut i: usize = 0;
    while i < raw.len()
        invariant
            0 <= i <= raw.len(),
            raw.deep_view() == split_plus(chars@),
            chars@ == s@,
            gtokens == tokens_of(s@),
            gtokens.len() == raw.deep_view().len(),
            parts.deep_view() == gtokens.take(i as int),
        decreases raw.len() - i,
    {
        proof {
            assert(raw@[i as int].deep_view() =~= raw@[i as int]@);
        }
        let t = trim_exec(raw[i].as_slice());
        parts.push(t);
        proof {
            assert(gtokens[i as int] == spec_trim(raw.deep_view()[i as int]));
            assert(t@ == gtokens[i as int]);
            assert(t.deep_view() =~= t@);
            assert(gtokens.take(i as int).len() == i as int);
            assert(parts@.len() == i + 1);
            assert(parts.deep_view().len() == i + 1);
            assert forall|k: int| 0 <= k <= i as int implies parts.deep_view()[k] == gtokens.take(
                i + 1 as int,
            )[k] by {
                if k < i as int {
                    assert(parts.deep_view()[k] == parts@[k].deep_view());
                } else {
                    assert(parts@[k] == t);
                }
            }
            assert(parts.deep_view() =~= gtokens.take(i + 1 as int));
        }
        i = i + 1;
    }
    proof {
        assert(parts.deep_view() =~~= gtokens);
    }
    parts
}

/// Rejoins all tokens but the last with `+` separators.
fn join_all_but_last(parts: &Vec<Vec<char>>) -> (r: Vec<char>)
    requires
        parts.len() >= 1,
    ensures
        r@ == join_plus(parts.deep_view().drop_last()),
{
    let ghost gtokens = parts.deep_view();
    let last = parts.len() - 1;
    let mut joined: Vec<char> = Vec::new();
    let mut i: usize = 0;
    while i < last
        invariant
            0 <= i <= last,
            last == parts.len() - 1,
            parts.deep_view() == gtokens,
            joined@ == join_plus(gtokens.drop_last().take(i as int)),
        decreases last - i,
    {
        if i > 0 {
            joined.push('+');
        }
        let ti = &parts[i];
        proof {
            assert(parts@[i as int].deep_view() =~= parts@[i as int]@);
            assert(gtokens.drop_last()[i as int] == gtokens[i as int]);
        }
        let m = ti.len();
        let ghost pre = joined@;
        let mut j: usize = 0;
        while j < m
            invariant
                0 <= j <= m,
                m == ti@.len(),
                ti@ == gtokens.drop_last()[i as int],
                joined@ == pre + ti@.take(j as int),
            decreases m - j,
        {
            joined.push(ti[j]);
            proof {
                assert(pre + ti@.take(j + 1 as int) =~= (pre + ti@.take(j as int)).push(
                    ti@[j as int],
                ));
            }
            j = j + 1;
        }
        proof {
            let dl = gtokens.drop_last();
            lemma_join_push(dl.take(i as int), dl[i as int]);
            assert(dl.take(i + 1 as int) =~= dl.take(i as int).push(dl[i as int]));
            assert(pre + ti@.take(m as int) =~= pre + ti@);
            assert(joined@ =~= join_plus(dl.take(i + 1 as int)));
        }
        i = i + 1;
    }
    proof {
        assert(gtokens.drop_last().take(last as int) =~= gtokens.drop_last());
    }
    joined
}

/// Parses a hotkey string like "Ctrl+F12" into its modifier bitmask and
/// virtual-key code, or returns nothing for a string that does not name a
/// supported combination.
pub fn parse_hotkey(hotkey: &str) -> (r: Option<(u32, u32)>)
    ensures
        r == parse_hotkey_spec(hotkey@),
{
    let parts = tokenize(hotkey);
    let ghost gtokens = tokens_of(hotkey@);
    if parts.len() < 2 {
        return None;
    }
    let last = parts.len() - 1;
    proof {
        assert(parts@[last as int].deep_view() =~= parts@[last as int]@);
        assert(parts.deep_view()[last as int] == gtokens.last());
    }
    let k_opt = key_token_code_exec(parts[last].as_slice());
    let k = match k_opt {
        Some(k) => k,
        None => {
            return None;
        },
    };
    let joined = join_all_but_last(&parts);
    match modifier_mask_exec(joined.as_slice()) {
        Some(m) => Some((m, k)),
        None => None,
    }
}

/// The name of the function key at a table index: F1 through F12.
pub open spec fn key_name(i: int) -> Seq<char> {
    if i == 0 {
        seq!['F', '1']
    } else if i == 1 {
        seq!['F', '2']
    } else if i == 2 {
        seq!['F', '3']
    } else if i == 3 {
        seq!['F', '4']
    } else if i == 4 {
        seq!['F', '5']
    } else if i == 5 {
        seq!['F', '6']
    } else if i == 6 {
        seq!['F', '7']
    } else if i == 7 {
        seq!['F', '8']
    } else if i == 8 {
        seq!['F', '9']
    } else if i == 9 {
        seq!['F', '1', '0']
    } else if i == 10 {
        seq!['F', '1', '1']
    } else {
        seq!['F', '1', '2']
    }
}

/// The virtual-key code of the function key at a table index.
pub open spec fn key_code(i: int) -> u32 {
    (112 + i) as u32
}

/// The string a (modifier, key) table-index pair formats to:
/// the modifier name, a `+`, and the key name.
pub open spec fn hotkey_string_spec(m: int, k: int) -> Seq<char> {
    modifier_name(m) + seq!['+'] + key_name(k)
}

/// The modifier name at a table index, as a string slice.
fn modifier_name_str(i: usize) -> (r: &'static str)
    requires
        i < 6,
    ensures
        r@ == modifier_name(i as int),
{
    proof {
        reveal_strlit("Ctrl");
        reveal_strlit("Alt");
        reveal_strlit("Shift");
        reveal_strlit("Ctrl+Alt");
        reveal_strlit("Ctrl+Shift");
        reveal_strlit("Alt+Shift");
        assert("Ctrl"@ =~= modifier_name(0));
        assert("Alt"@ =~= modifier_name(1));
        assert("Shift"@ =~= modifier_name(2));
        assert("Ctrl+Alt"@ =~= modifier_name(3));
        assert("Ctrl+Shift"@ =~= modifier_name(4));
        assert("Alt+Shift"@ =~= modifier_name(5));
    }
    if i == 0 {
        "Ctrl"
    } else if i == 1 {
        "Alt"
    } else if i == 2 {
        "Shift"
    } else if i == 3 {
        "Ctrl+Alt"
    } else if i == 4 {
        "Ctrl+Shift"
    } else {
        "Alt+Shift"
    }
}

/// The function-key name at a table index, as a string slice.
fn key_name_str(i: usize) -> (r: &'static str)
    requires
        i < 12,
    ensures
        r@ == key_name(i as int),
{
    proof {
        reveal_strlit("F1");
        reveal_strlit("F2");
        reveal_strlit("F3");
        reveal_strlit("F4");
        reveal_strlit("F5");
        reveal_strlit("F6");
        reveal_strlit("F7");
        reveal_strlit("F8");
        reveal_strlit("F9");
        reveal_strlit("F10");
        reveal_strlit("F11");
        reveal_strlit("F12");
        assert("F1"@ =~= key_name(0));
        assert("F2"@ =~= key_name(1));
        assert("F3"@ =~= key_name(2));
        assert("F4"@ =~= key_name(3));
        assert("F5"@ =~= key_name(4));
        assert("F6"@ =~= key_name(5));
        assert("F7"@ =~= key_name(6));
        assert("F8"@ =~= key_name(7));
        assert("F9"@ =~= key_name(8));
        assert("F10"@ =~= key_name(9));
        assert("F11"@ =~= key_name(10));
        assert("F12"@ =~= key_name(11));
    }
    if i == 0 {
        "F1"
    } else if i == 1 {
        "F2"
    } else if i == 2 {
        "F3"
    } else if i == 3 {
        "F4"
    } else if i == 4 {
        "F5"
    } else if i == 5 {
        "F6"
    } else if i == 6 {
        "F7"
    } else if i == 7 {
        "F8"
    } else if i == 8 {
        "F9"
    } else if i == 9 {
        "F10"
    } else if i == 10 {
        "F11"
    } else {
        "F12"
    }
}

/// Formats a (modifier, key) pair of table indices as a hotkey string.
pub fn format_hotkey(mod_index: usize, key_index: usize) -> (r: String)
    requires
        mod_index < 6,
        key_index < 12,
    ensures
        r@ == hotkey_string_spec(mod_index as int, key_index as int),
{
    let mut out = String::from_str(modifier_name_str(mod_index));
    out.append("+");
    out.append(key_name_str(key_index));
    proof {
        reveal_strlit("+");
        assert("+"@ =~= seq!['+']);
    }
    out
}

/// The table index of the function key a token names, or the index of F12
/// when it names none.
pub open spec fn key_index_of_token(t: Seq<char>) -> int {
    match key_token_code(t) {
        Some(c) => c - 112,
        None => 11,
    }
}

/// The table index of the modifier combination a rejoined modifier string
/// names, or the index of Ctrl when it names none.
pub open spec fn modifier_index_of_name(t: Seq<char>) -> int {
    if ieq(t, modifier_name(0)) {
        0
    } else if ieq(t, modifier_name(1)) {
        1
    } else if ieq(t, modifier_name(2)) {
        2
    } else if ieq(t, modifier_name(3)) {
        3
    } else if ieq(t, modifier_name(4)) {
        4
    } else if ieq(t, modifier_name(5)) {
        5
    } else {
        0
    }
}

/// The table indices a hotkey string selects, with safe fallbacks: the key
/// from the final token (F12 when unknown), the modifier from the rejoined
/// preceding tokens (Ctrl when unknown or absent).
pub open spec fn spec_find_hotkey_indices(s: Seq<char>) -> (int, int) {
    let parts = tokens_of(s);
    let ki = key_index_of_token(parts.last());
    let mi = if parts.len() >= 2 {
        modifier_index_of_name(join_plus(parts.drop_last()))
    } else {
        0
    };
    (mi, ki)
}

/// The table index a rejoined modifier string selects.
fn modifier_index_exec(t: &[char]) -> (r: usize)
    ensures
        r as int == modifier_index_of_name(t@),
        r < 6,
{
    proof {
        reveal_strlit("Ctrl");
        reveal_strlit("Alt");
        reveal_strlit("Shift");
        reveal_strlit("Ctrl+Alt");
        reveal_strlit("Ctrl+Shift");
        reveal_strlit("Alt+Shift");
        assert("Ctrl"@ =~= modifier_name(0));
        assert("Alt"@ =~= modifier_name(1));
        assert("Shift"@ =~= modifier_name(2));
        assert("Ctrl+Alt"@ =~= modifier_name(3));
        assert("Ctrl+Shift"@ =~= modifier_name(4));
        assert("Alt+Shift"@ =~= modifier_name(5));
    }
    if ieq_exec(t, "Ctrl") {
        0
    } else if ieq_exec(t, "Alt") {
        1
    } else if ieq_exec(t, "Shift") {
        2
    } else if ieq_exec(t, "Ctrl+Alt") {
        3
    } else if ieq_exec(t, "Ctrl+Shift") {
        4
    } else if ieq_exec(t, "Alt+Shift") {
        5
    } else {
        0
    }
}

/// Finds the table indices a hotkey string selects, with safe fallbacks.
pub fn find_hotkey_indices(hotkey: &str) -> (r: (usize, usize))
    ensures
        (r.0 as int, r.1 as int) == spec_find_hotkey_indices(hotkey@),
        r.0 < 6,
        r.1 < 12,
{
    let parts = tokenize(hotkey);
    let ghost gtokens = tokens_of(hotkey@);
    let last = parts.len() - 1;
    proof {
        assert(parts@[last as int].deep_view() =~= parts@[last as int]@);
        assert(parts.deep_view()[last as int] == gtokens.last());
    }
    let ki: usize = match key_token_code_exec(parts[last].as_slice()) {
        Some(c) => (c - 112) as usize,
        None => 11,
    };
    let mi: usize = if parts.len() >= 2 {
        let joined = join_all_but_last(&parts);
        modifier_index_exec(joined.as_slice())
    } else {
        0
    };
    (mi, ki)
}

/// Splitting a sequence without `+` yields that one segment.
proof fn lemma_split_no_plus(a: Seq<char>)
    requires
        forall|i: int| 0 <= i < a.len() ==> a[i] != '+',
    ensures
        split_plus(a) == seq![a],
    decreases a.len(),
{
    if a.len() == 0 {
        assert(seq![Seq::<char>::empty()] =~~= seq![a]);
    } else {
        lemma_split_no_plus(a.drop_first());
        let rest = split_plus(a.drop_first());
        assert(rest[0] == a.drop_first());
        assert(seq![a[0]] + a.drop_first() =~= a);
        assert(rest.drop_first() =~= Seq::<Seq<char>>::empty());
        assert(split_plus(a) =~~= seq![a]);
    }
}

/// Splitting `a + "+" + b` where `a` holds no `+` yields `a` and then the
/// segments of `b`.
proof fn lemma_split_concat(a: Seq<char>, b: Seq<char>)
    requires
        forall|i: int| 0 <= i < a.len() ==> a[i] != '+',
    ensures
        split_plus(a + seq!['+'] + b) == seq![a] + split_plus(b),
    decreases a.len(),
{
    let s = a + seq!['+'] + b;
    if a.len() == 0 {
        assert(s[0] == '+');
        assert(s.drop_first() =~= b);
        assert(split_plus(s) =~~= seq![a] + split_plus(b));
    } else {
        assert(s[0] == a[0]);
        assert(s.drop_first() =~= a.drop_first() + seq!['+'] + b);
        lemma_split_concat(a.drop_first(), b);
        let rest = split_plus(s.drop_first());
        assert(rest == seq![a.drop_first()] + split_plus(b));
        assert(rest[0] == a.drop_first());
        assert(seq![s[0]] + rest[0] =~= a);
        lemma_split_plus_len(b);
        assert(rest.drop_first() =~= split_plus(b));
        assert(split_plus(s) =~~= seq![a] + split_plus(b));
    }
}

/// Trimming a token without surrounding whitespace leaves it unchanged.
proof fn lemma_trim_id(a: Seq<char>)
    requires
        forall|i: int| 0 <= i < a.len() ==> !is_space(a[i]),
    ensures
        spec_trim(a) == a,
{
    assert(trim_start(a) == a);
    assert(trim_end(a) == a);
}

/// Each function-key name resolves to its own code in the key table.
proof fn lemma_key_name_code(k: int)
    requires
        0 <= k < 12,
    ensures
        key_token_code(key_name(k)) == Some(key_code(k)),
        forall|i: int| 0 <= i < key_name(k).len() ==> key_name(k)[i] != '+',
        forall|i: int| 0 <= i < key_name(k).len() ==> !is_space(key_name(k)[i]),
{
}

/// Each modifier name resolves to its own mask and index in the modifier
/// table: the six names have pairwise different lengths, so no entry
/// shadows another.
proof fn lemma_modifier_name_lookup(m: int)
    requires
        0 <= m < 6,
    ensures
        modifier_mask_of_name(modifier_name(m)) == Some(modifier_mask(m)),
        modifier_index_of_name(modifier_name(m)) == m,
{
}

/// Round trip of the hotkey codec: formatting any (modifier, key) pair from
/// the fixed tables and parsing the result yields exactly that pair's
/// bitmask and virtual-key code, and finding indices on it yields the pair
/// itself.
pub proof fn lemma_hotkey_round_trip(m: int, k: int)
    requires
        0 <= m < 6,
        0 <= k < 12,
    ensures
        parse_hotkey_spec(hotkey_string_spec(m, k)) == Some((modifier_mask(m), key_code(k))),
        spec_find_hotkey_indices(hotkey_string_spec(m, k)) == (m, k),
{
    let s = hotkey_string_spec(m, k);
    let mn = modifier_name(m);
    let kn = key_name(k);
    lemma_key_name_code(k);
    lemma_modifier_name_lookup(m);
    if m < 3 {
        assert(forall|i: int| 0 <= i < mn.len() ==> mn[i] != '+');
        assert(forall|i: int| 0 <= i < mn.len() ==> !is_space(mn[i]));
        lemma_split_concat(mn, kn);
        lemma_split_no_plus(kn);
        assert(split_plus(s) == seq![mn] + seq![kn]);
        assert(split_plus(s) =~~= seq![mn, kn]);
        lemma_trim_id(mn);
        lemma_trim_id(kn);
        assert(tokens_of(s) =~~= seq![mn, kn]);
        let parts = tokens_of(s);
        assert(parts.len() == 2);
        assert(parts.last() == kn);
        assert(parts.drop_last() =~= seq![mn]);
        assert(join_plus(seq![mn]) == mn);
    } else {
        let p1 = if m == 5 {
            modifier_name(1)
        } else {
            modifier_name(0)
        };
        let p2 = if m == 3 {
            modifier_name(1)
        } else {
            modifier_name(2)
        };
        assert(mn =~= p1 + seq!['+'] + p2);
        assert(s =~= p1 + seq!['+'] + (p2 + seq!['+'] + kn));
        assert(forall|i: int| 0 <= i < p1.len() ==> p1[i] != '+');
        assert(forall|i: int| 0 <= i < p2.len() ==> p2[i] != '+');
        lemma_split_concat(p1, p2 + seq!['+'] + kn);
        lemma_split_concat(p2, kn);
        lemma_split_no_plus(kn);
        assert(split_plus(s) == seq![p1] + (seq![p2] + seq![kn]));
        assert(split_plus(s) =~~= seq![p1, p2, kn]);
        assert(forall|i: int| 0 <= i < p1.len() ==> !is_space(p1[i]));
        assert(forall|i: int| 0 <= i < p2.len() ==> !is_space(p2[i]));
        lemma_trim_id(p1);
        lemma_trim_id(p2);
        lemma_trim_id(kn);
        assert(tokens_of(s) =~~= seq![p1, p2, kn]);
        let parts = tokens_of(s);
        assert(parts.len() == 3);
        assert(parts.last() == kn);
        assert(parts.drop_last() =~= seq![p1, p2]);
        assert(seq![p1, p2].drop_first() =~= seq![p2]);
        assert(join_plus(seq![p2]) == p2);
        assert(join_plus(seq![p1, p2]) == p1 + seq!['+'] + p2);
        assert(join_plus(parts.drop_last()) == mn);
    }
}

/// The warning shown when registering the global hotkey fails: it names
/// the conflicting combination.
pub fn hotkey_warning_message(hotkey: &str) -> (r: String)
    ensures
        r@ == "Failed to register hotkey: "@ + hotkey@
            + "\nAnother application may already be using this key combination."@,
{
    let mut out = String::from_str("Failed to register hotkey: ");
    out.append(hotkey);
    out.append("\nAnother application may already be using this key combination.");
    out
}

/// Characters with equal case foldings agree on everything the codec
/// inspects: being a separator, being whitespace, and being any digit.
proof fn lemma_fold_char_agree(c1: char, c2: char)
    requires
        fold_char(c1) == fold_char(c2),
    ensures
        (c1 == '+') == (c2 == '+'),
        is_space(c1) == is_space(c2),
        48 <= c1 as u32 <= 57 ==> c1 == c2,
{
}

/// Case-insensitive equality is preserved by dropping the first character
/// of both sequences.
proof fn lemma_ieq_drop_first(s1: Seq<char>, s2: Seq<char>)
    requires
        ieq(s1, s2),
        s1.len() > 0,
    ensures
        ieq(s1.drop_first(), s2.drop_first()),
{
    assert forall|i: int| 0 <= i < s1.drop_first().len() implies fold_char(s1.drop_first()[i])
        == fold_char(s2.drop_first()[i]) by {
        assert(s1.drop_first()[i] == s1[i + 1]);
        assert(s2.drop_first()[i] == s2[i + 1]);
    }
}

/// Splitting respects case-insensitive equality: the token lists have the
/// same length and are pointwise case-insensitively equal.
proof fn lemma_split_ieq(s1: Seq<char>, s2: Seq<char>)
    requires
        ieq(s1, s2),
    ensures
        split_plus(s1).len() == split_plus(s2).len(),
        forall|i: int|
            0 <= i < split_plus(s1).len() ==> ieq(
                #[trigger] split_plus(s1)[i],
                split_plus(s2)[i],
            ),
    decreases s1.len(),
{
    let r1 = split_plus(s1);
    let r2 = split_plus(s2);
    if s1.len() == 0 {
        assert(r1 == seq![Seq::<char>::empty()]);
        assert(r2 == seq![Seq::<char>::empty()]);
    } else {
        lemma_fold_char_agree(s1[0], s2[0]);
        lemma_ieq_drop_first(s1, s2);
        lemma_split_ieq(s1.drop_first(), s2.drop_first());
        let t1 = split_plus(s1.drop_first());
        let t2 = split_plus(s2.drop_first());
        if s1[0] == '+' {
            assert(r1 == seq![Seq::<char>::empty()] + t1);
            assert(r2 == seq![Seq::<char>::empty()] + t2);
            assert forall|i: int| 0 <= i < r1.len() implies ieq(#[trigger] r1[i], r2[i]) by {
                if i > 0 {
                    assert(r1[i] == t1[i - 1]);
                    assert(r2[i] == t2[i - 1]);
                    assert(ieq(t1[i - 1], t2[i - 1]));
                }
            }
        } else {
            lemma_split_plus_len(s1.drop_first());
            lemma_split_plus_len(s2.drop_first());
            assert(r1 == seq![seq![s1[0]] + t1[0]] + t1.drop_first());
            assert(r2 == seq![seq![s2[0]] + t2[0]] + t2.drop_first());
            assert(ieq(t1[0], t2[0]));
            assert forall|i: int| 0 <= i < r1.len() implies ieq(#[trigger] r1[i], r2[i]) by {
                if i == 0 {
                    let a = seq![s1[0]] + t1[0];
                    let b = seq![s2[0]] + t2[0];
                    assert(a.len() == b.len());
                    assert forall|j: int| 0 <= j < a.len() implies fold_char(a[j]) == fold_char(
                        b[j],
                    ) by {
                        if j == 0 {
                            assert(a[0] == s1[0]);
                            assert(b[0] == s2[0]);
                        } else {
                            assert(a[j] == t1[0][j - 1]);
                            assert(b[j] == t2[0][j - 1]);
                        }
                    }
                } else {
                    assert(r1[i] == t1.drop_first()[i - 1]);
                    assert(r2[i] == t2.drop_first()[i - 1]);
                    assert(t1.drop_first()[i - 1] == t1[i]);
                    assert(t2.drop_first()[i - 1] == t2[i]);
                    assert(ieq(t1[i], t2[i]));
                }
            }
        }
    }
}

/// Case-insensitive equality is preserved by dropping the last character
/// of both sequences.
proof fn lemma_ieq_drop_last(s1: Seq<char>, s2: Seq<char>)
    requires
        ieq(s1, s2),
        s1.len() > 0,
    ensures
        ieq(s1.drop_last(), s2.drop_last()),
{
    assert forall|i: int| 0 <= i < s1.drop_last().len() implies fold_char(s1.drop_last()[i])
        == fold_char(s2.drop_last()[i]) by {
        assert(s1.drop_last()[i] == s1[i]);
        assert(s2.drop_last()[i] == s2[i]);
    }
}

/// Trimming respects case-insensitive equality.
proof fn lemma_trim_ieq(s1: Seq<char>, s2: Seq<char>)
    requires
        ieq(s1, s2),
    ensures
        ieq(spec_trim(s1), spec_trim(s2)),
{
    lemma_trim_start_ieq(s1, s2);
    lemma_trim_end_ieq(trim_start(s1), trim_start(s2));
}

proof fn lemma_trim_start_ieq(s1: Seq<char>, s2: Seq<char>)
    requires
        ieq(s1, s2),
    ensures
        ieq(trim_start(s1), trim_start(s2)),
    decreases s1.len(),
{
    if s1.len() > 0 {
        lemma_fold_char_agree(s1[0], s2[0]);
        if is_space(s1[0]) {
            lemma_ieq_drop_first(s1, s2);
            lemma_trim_start_ieq(s1.drop_first(), s2.drop_first());
        }
    }
}

proof fn lemma_trim_end_ieq(s1: Seq<char>, s2: Seq<char>)
    requires
        ieq(s1, s2),
    ensures
        ieq(trim_end(s1), trim_end(s2)),
    decreases s1.len(),
{
    if s1.len() > 0 {
        assert(fold_char(s1.last()) == fold_char(s2.last()));
        lemma_fold_char_agree(s1.last(), s2.last());
        if is_space(s1.last()) {
            lemma_ieq_drop_last(s1, s2);
            lemma_trim_end_ieq(s1.drop_last(), s2.drop_last());
        }
    }
}

/// Case-insensitive equality is transitive across a shared middle term.
proof fn lemma_ieq_trans(a: Seq<char>, b: Seq<char>, c: Seq<char>)
    requires
        ieq(a, b),
    ensures
        ieq(a, c) == ieq(b, c),
{
}

/// The key table respects case-insensitive equality.
proof fn lemma_key_token_code_ieq(t1: Seq<char>, t2: Seq<char>)
    requires
        ieq(t1, t2),
    ensures
        key_token_code(t1) == key_token_code(t2),
{
    if t1.len() == 2 {
        lemma_fold_char_agree(t1[1], t2[1]);
    } else if t1.len() == 3 {
        lemma_fold_char_agree(t1[1], t2[1]);
        lemma_fold_char_agree(t1[2], t2[2]);
    }
}

/// The modifier table respects case-insensitive equality.
proof fn lemma_modifier_mask_ieq(t1: Seq<char>, t2: Seq<char>)
    requires
        ieq(t1, t2),
    ensures
        modifier_mask_of_name(t1) == modifier_mask_of_name(t2),
{
    lemma_ieq_trans(t1, t2, modifier_name(0));
    lemma_ieq_trans(t1, t2, modifier_name(1));
    lemma_ieq_trans(t1, t2, modifier_name(2));
    lemma_ieq_trans(t1, t2, modifier_name(3));
    lemma_ieq_trans(t1, t2, modifier_name(4));
    lemma_ieq_trans(t1, t2, modifier_name(5));
}

/// Joining respects case-insensitive equality of the token lists.
proof fn lemma_join_ieq(ts1: Seq<Seq<char>>, ts2: Seq<Seq<char>>)
    requires
        ts1.len() == ts2.len(),
        forall|i: int| 0 <= i < ts1.len() ==> ieq(#[trigger] ts1[i], ts2[i]),
    ensures
        ieq(join_plus(ts1), join_plus(ts2)),
    decreases ts1.len(),
{
    if ts1.len() == 0 {
    } else if ts1.len() == 1 {
        assert(ieq(ts1[0], ts2[0]));
    } else {
        assert(ieq(ts1[0], ts2[0]));
        assert forall|i: int| 0 <= i < ts1.drop_first().len() implies ieq(
            #[trigger] ts1.drop_first()[i],
            ts2.drop_first()[i],
        ) by {
            assert(ts1.drop_first()[i] == ts1[i + 1]);
            assert(ts2.drop_first()[i] == ts2[i + 1]);
        }
        lemma_join_ieq(ts1.drop_first(), ts2.drop_first());
        let a1 = ts1[0];
        let a2 = ts2[0];
        let b1 = join_plus(ts1.drop_first());
        let b2 = join_plus(ts2.drop_first());
        let j1 = a1 + seq!['+'] + b1;
        let j2 = a2 + seq!['+'] + b2;
        assert forall|i: int| 0 <= i < j1.len() implies fold_char(j1[i]) == fold_char(j2[i]) by {
            if i < a1.len() {
                assert(j1[i] == a1[i]);
                assert(j2[i] == a2[i]);
            } else if i == a1.len() {
                assert(j1[i] == '+');
                assert(j2[i] == '+');
            } else {
                assert(j1[i] == b1[i - a1.len() - 1]);
                assert(j2[i] == b2[i - a2.len() - 1]);
            }
        }
    }
}

/// The codec is case-insensitive: two hotkey strings that are equal up to
/// ASCII letter case parse to the same result.
pub proof fn lemma_parse_case_insensitive(s1: Seq<char>, s2: Seq<char>)
    requires
        ieq(s1, s2),
    ensures
        parse_hotkey_spec(s1) == parse_hotkey_spec(s2),
{
    lemma_split_ieq(s1, s2);
    let p1 = tokens_of(s1);
    let p2 = tokens_of(s2);
    assert(p1.len() == p2.len());
    assert forall|i: int| 0 <= i < p1.len() implies ieq(#[trigger] p1[i], p2[i]) by {
        assert(p1[i] == spec_trim(split_plus(s1)[i]));
        assert(p2[i] == spec_trim(split_plus(s2)[i]));
        lemma_trim_ieq(split_plus(s1)[i], split_plus(s2)[i]);
    }
    if p1.len() >= 2 {
        lemma_split_plus_len(s1);
        assert(ieq(p1.last(), p2.last()));
        lemma_key_token_code_ieq(p1.last(), p2.last());
        assert forall|i: int| 0 <= i < p1.drop_last().len() implies ieq(
            #[trigger] p1.drop_last()[i],
            p2.drop_last()[i],
        ) by {
            assert(p1.drop_last()[i] == p1[i]);
            assert(p2.drop_last()[i] == p2[i]);
        }
        lemma_join_ieq(p1.drop_last(), p2.drop_last());
        lemma_modifier_mask_ieq(join_plus(p1.drop_last()), join_plus(p2.drop_last()));
    }
}

} // verus!



