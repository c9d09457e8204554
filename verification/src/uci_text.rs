//! Character-level scanning shared by the UCI command parsers.
//!
//! The spec functions here describe, on the sequence of characters of a
//! command line, what the parsers recognise: runs of characters of one class,
//! literal keywords, and decimal numbers.
use vstd::prelude::*;

verus! {

/// The classes of characters that the grammar distinguishes.
#[derive(Clone, Copy, PartialEq, Eq, Debug)]
pub enum CharClass {
    /// A space or a horizontal tab.
    Space,
    /// An ASCII decimal digit.
    Digit,
    /// An ASCII letter or digit.
    Alnum,
    /// One of the characters allowed in a FEN field: `/1234567890rnbqkpRNBQKPbw-`.
    Fen,
}

pub open spec fn is_digit(c: char) -> bool {
    '0' <= c && c <= '9'
}

pub open spec fn is_alpha(c: char) -> bool {
    ('a' <= c && c <= 'z') || ('A' <= c && c <= 'Z')
}

pub open spec fn is_fen_char(c: char) -> bool {
    c == '/' || is_digit(c) || c == 'r' || c == 'n' || c == 'b' || c == 'q' || c == 'k' || c
        == 'p' || c == 'R' || c == 'N' || c == 'B' || c == 'Q' || c == 'K' || c == 'P' || c
        == 'w' || c == '-'
}

pub open spec fn in_class(k: CharClass, c: char) -> bool {
    match k {
        CharClass::Space => c == ' ' || c == '\t',
        CharClass::Digit => is_digit(c),
        CharClass::Alnum => is_alpha(c) || is_digit(c),
        CharClass::Fen => is_fen_char(c),
    }
}

/// The end of the longest run of characters of class `k` that starts at `pos`.
pub open spec fn run_end(s: Seq<char>, pos: int, k: CharClass) -> int
    decreases s.len() - pos,
{
    if pos < 0 || pos >= s.len() || !in_class(k, s[pos]) {
        pos
    } else {
        run_end(s, pos + 1, k)
    }
}

/// Whether `t` occurs in `s` starting at `pos`.
pub open spec fn has_prefix_at(s: Seq<char>, pos: int, t: Seq<char>) -> bool {
    0 <= pos && pos + t.len() <= s.len() && s.subrange(pos, pos + t.len()) == t
}

pub open spec fn digit_value(c: char) -> nat {
    (c as int - '0' as int) as nat
}

/// The value of a sequence of decimal digits.
pub open spec fn digits_value(t: Seq<char>) -> nat
    decreases t.len(),
{
    if t.len() == 0 {
        0
    } else {
        digits_value(t.drop_last()) * 10 + digit_value(t.last())
    }
}

/// The characters `s[pos..end]` are all of class `k`.
pub open spec fn all_in_class(s: Seq<char>, pos: int, end: int, k: CharClass) -> bool {
    forall|i: int| pos <= i < end ==> in_class(k, #[trigger] s[i])
}

pub proof fn lemma_run_end_bounds(s: Seq<char>, pos: int, k: CharClass)
    requires
        0 <= pos <= s.len(),
    ensures
        pos <= run_end(s, pos, k) <= s.len(),
        all_in_class(s, pos, run_end(s, pos, k), k),
        run_end(s, pos, k) < s.len() ==> !in_class(k, s[run_end(s, pos, k)]),
    decreases s.len() - pos,
{
    if pos < s.len() && in_class(k, s[pos]) {
        lemma_run_end_bounds(s, pos + 1, k);
    }
}

pub proof fn lemma_digits_value_monotone(t: Seq<char>, k: int)
    requires
        0 <= k <= t.len(),
    ensures
        digits_value(t.subrange(0, k)) <= digits_value(t),
    decreases t.len() - k,
{
    if k < t.len() {
        lemma_digits_value_monotone(t, k + 1);
        assert(t.subrange(0, k + 1).drop_last() =~= t.subrange(0, k));
    } else {
        assert(t.subrange(0, k) =~= t);
    }
}

/// The characters of `s`, one per element.
pub fn chars_of(s: &str) -> (v: Vec<char>)
    ensures
        v@ == s@,
{
    let n = s.unicode_len();
    let mut v: Vec<char> = Vec::new();
    let mut i: usize = 0;
    while i < n
        invariant
            n == s@.len(),
            i <= n,
            v@ == s@.subrange(0, i as int),
        decreases n - i,
    {
        let c = s.get_char(i);
        v.push(c);
        i = i + 1;
        assert(v@ =~= s@.subrange(0, i as int));
    }
    assert(v@ =~= s@);
    v
}

pub fn char_in_class(k: CharClass, c: char) -> (b: bool)
    ensures
        b == in_class(k, c),
{
    match k {
        CharClass::Space => c == ' ' || c == '\t',
        CharClass::Digit => '0' <= c && c <= '9',
        CharClass::Alnum => ('a' <= c && c <= 'z') || ('A' <= c && c <= 'Z') || ('0' <= c && c
            <= '9'),
        CharClass::Fen => c == '/' || ('0' <= c && c <= '9') || c == 'r' || c == 'n' || c == 'b'
            || c == 'q' || c == 'k' || c == 'p' || c == 'R' || c == 'N' || c == 'B' || c == 'Q'
            || c == 'K' || c == 'P' || c == 'w' || c == '-',
    }
}

/// Skips the run of characters of class `k` that starts at `pos`.
pub fn scan_run(v: &Vec<char>, pos: usize, k: CharClass) -> (e: usize)
    requires
        pos <= v@.len(),
    ensures
        e == run_end(v@, pos as int, k),
        pos <= e <= v@.len(),
        all_in_class(v@, pos as int, e as int, k),
{
    proof {
        lemma_run_end_bounds(v@, pos as int, k);
    }
    let mut i = pos;
    while i < v.len() && char_in_class(k, v[i])
        invariant
            pos <= i <= v@.len(),
            run_end(v@, pos as int, k) == run_end(v@, i as int, k),
        decreases v@.len() - i,
    {
        i = i + 1;
    }
    i
}

/// Whether the literal `t` occurs in `v` at `pos`.
pub fn tag_at(v: &Vec<char>, pos: usize, t: &str) -> (b: bool)
    requires
        pos <= v@.len(),
    ensures
        b == has_prefix_at(v@, pos as int, t@),
{
    let n = t.unicode_len();
    let vlen = v.len();
    if n > vlen - pos {
        return false;
    }
    let mut i: usize = 0;
    while i < n
        invariant
            n == t@.len(),
            pos + n <= v@.len(),
            v@.len() <= usize::MAX,
            i <= n,
            forall|j: int| 0 <= j < i ==> v@[pos + j] == t@[j],
        decreases n - i,
    {
        if v[pos + i] != t.get_char(i) {
            assert(v@.subrange(pos as int, pos + n)[i as int] != t@[i as int]);
            return false;
        }
        i = i + 1;
    }
    assert(v@.subrange(pos as int, pos + n) =~= t@);
    true
}

/// The value of the digits `v[start..end]`, when it is at most `u64::MAX`.
pub fn parse_digits_u64(v: &Vec<char>, start: usize, end: usize) -> (r: Option<u64>)
    requires
        start <= end <= v@.len(),
        all_in_class(v@, start as int, end as int, CharClass::Digit),
    ensures
        match r {
            Some(x) => x == digits_value(v@.subrange(start as int, end as int)),
            None => digits_value(v@.subrange(start as int, end as int)) > u64::MAX,
        },
{
    let mut val: u64 = 0;
    let mut i = start;
    assert(v@.subrange(start as int, start as int) =~= Seq::<char>::empty());
    while i < end
        invariant
            start <= i <= end <= v@.len(),
            all_in_class(v@, start as int, end as int, CharClass::Digit),
            val == digits_value(v@.subrange(start as int, i as int)),
        decreases end - i,
    {
        let c = v[i];
        assert(in_class(CharClass::Digit, v@[i as int]));
        let d = ((c as u32) - ('0' as u32)) as u64;
        assert(v@.subrange(start as int, i + 1).drop_last() =~= v@.subrange(start as int, i as int));
        if val > (u64::MAX - d) / 10 {
            proof {
                let t = v@.subrange(start as int, end as int);
                assert(t.subrange(0, i + 1 - start) =~= v@.subrange(start as int, i + 1));
                lemma_digits_value_monotone(t, i + 1 - start);
            }
            return None;
        }
        val = val * 10 + d;
        i = i + 1;
    }
    Some(val)
}


/// The FEN fields `"a b c"` joined by single spaces.
pub open spec fn join_fields(gs: Seq<Seq<char>>) -> Seq<char>
    decreases gs.len(),
{
    if gs.len() == 0 {
        Seq::empty()
    } else if gs.len() == 1 {
        gs[0]
    } else {
        join_fields(gs.drop_last()) + seq![' '] + gs.last()
    }
}

/// `n` fields of FEN characters, each followed by optional spaces, starting at `pos`:
/// the fields and the position after them.
pub open spec fn fen_fields(s: Seq<char>, pos: int, n: nat) -> Option<(Seq<Seq<char>>, int)>
    decreases n,
{
    if n == 0 {
        Some((Seq::empty(), pos))
    } else {
        let e = run_end(s, pos, CharClass::Fen);
        if e == pos {
            None
        } else {
            match fen_fields(s, run_end(s, e, CharClass::Space), (n - 1) as nat) {
                None => None,
                Some((rest, end)) => Some((seq![s.subrange(pos, e)] + rest, end)),
            }
        }
    }
}

/// The moves (runs of letters and digits, each followed by optional spaces)
/// starting at `pos`, and the position after the last of them.
pub open spec fn move_list(s: Seq<char>, pos: int) -> (Seq<Seq<char>>, int)
    decreases s.len() - pos,
{
    if pos < 0 || pos >= s.len() {
        (Seq::empty(), pos)
    } else {
        let e = run_end(s, pos, CharClass::Alnum);
        if e == pos {
            (Seq::empty(), pos)
        } else {
            proof {
                lemma_run_end_bounds(s, pos, CharClass::Alnum);
                lemma_run_end_bounds(s, e, CharClass::Space);
            }
            let rest = move_list(s, run_end(s, e, CharClass::Space));
            (seq![s.subrange(pos, e)] + rest.0, rest.1)
        }
    }
}

/// The keyword `kw`, one or more spaces and one or more digits, starting at
/// `pos`: the value of the digits and the position after them.
pub open spec fn keyword_number(s: Seq<char>, pos: int, kw: Seq<char>) -> Option<(nat, int)> {
    if has_prefix_at(s, pos, kw) {
        let a = pos + kw.len();
        let b = run_end(s, a, CharClass::Space);
        let c = run_end(s, b, CharClass::Digit);
        if b > a && c > b {
            Some((digits_value(s.subrange(b, c)), c))
        } else {
            None
        }
    } else {
        None
    }
}

/// The position after the literal `t` at `pos`, if it occurs there.
pub fn after_tag(v: &Vec<char>, pos: usize, t: &str) -> (r: Option<usize>)
    requires
        pos <= v@.len(),
    ensures
        r is Some <==> has_prefix_at(v@, pos as int, t@),
        r matches Some(e) ==> e == pos + t@.len() && e <= v@.len(),
{
    let n = t.unicode_len();
    let vlen = v.len();
    if tag_at(v, pos, t) {
        assert(pos + n <= vlen);
        Some(pos + n)
    } else {
        None
    }
}

/// Reads `fen_fields(v@, pos, 6)`, returning the fields joined by single spaces.
pub fn scan_fen(s: &str, v: &Vec<char>, pos: usize) -> (r: Option<(String, usize)>)
    requires
        v@ == s@,
        pos <= v@.len(),
    ensures
        match fen_fields(v@, pos as int, 6) {
            None => r is None,
            Some((gs, end)) => r matches Some((text, e)) && text@ == join_fields(gs) && e == end
                && e <= v@.len(),
        },
{
    let mut text = String::new();
    let mut p = pos;
    let mut k: usize = 0;
    let ghost mut gs: Seq<Seq<char>> = Seq::empty();
    while k < 6
        invariant
            v@ == s@,
            pos <= p <= v@.len(),
            k <= 6,
            gs.len() == k,
            text@ == join_fields(gs),
            fen_fields(v@, pos as int, 6) == match fen_fields(v@, p as int, (6 - k) as nat) {
                None => None,
                Some((rest, end)) => Some((gs + rest, end)),
            },
        decreases 6 - k,
    {
        let e = scan_run(v, p, CharClass::Fen);
        if e == p {
            return None;
        }
        let field = s.substring_char(p, e);
        if k > 0 {
            text.append(" ");
        }
        text.append(field);
        let next = scan_run(v, e, CharClass::Space);
        proof {
            let g = v@.subrange(p as int, e as int);
            let gs2 = gs.push(g);
            assert(gs2.drop_last() =~= gs);
            reveal_strlit(" ");
            match fen_fields(v@, next as int, (6 - k - 1) as nat) {
                None => {},
                Some((rest, end)) => {
                    assert(gs + (seq![g] + rest) =~= gs2 + rest);
                },
            }
            gs = gs2;
        }
        p = next;
        k = k + 1;
    }
    assert(gs + Seq::<Seq<char>>::empty() =~= gs);
    Some((text, p))
}

/// Reads `move_list(v@, pos)`.
pub fn scan_moves(s: &str, v: &Vec<char>, pos: usize) -> (r: (Vec<String>, usize))
    requires
        v@ == s@,
        pos <= v@.len(),
    ensures
        r.0@.map_values(|m: String| m@) == move_list(v@, pos as int).0,
        r.1 == move_list(v@, pos as int).1,
        r.1 <= v@.len(),
{
    let mut moves: Vec<String> = Vec::new();
    let mut p = pos;
    while p < v.len()
        invariant
            v@ == s@,
            pos <= p <= v@.len(),
            move_list(v@, pos as int) == (moves@.map_values(|m: String| m@) + move_list(
                v@,
                p as int,
            ).0, move_list(v@, p as int).1),
        ensures
            pos <= p <= v@.len(),
            move_list(v@, pos as int) == (moves@.map_values(|m: String| m@) + move_list(
                v@,
                p as int,
            ).0, move_list(v@, p as int).1),
            move_list(v@, p as int) == (Seq::<Seq<char>>::empty(), p as int),
        decreases v@.len() - p,
    {
        let e = scan_run(v, p, CharClass::Alnum);
        if e == p {
            break;
        }
        let m = s.substring_char(p, e).to_owned();
        let next = scan_run(v, e, CharClass::Space);
        proof {
            let old_moves = moves@;
            let rest = move_list(v@, next as int);
            assert(old_moves.push(m).map_values(|m: String| m@) =~= old_moves.map_values(
                |m: String| m@,
            ).push(m@));
            assert(old_moves.map_values(|m: String| m@) + (seq![v@.subrange(p as int, e as int)]
                + rest.0) =~= old_moves.push(m).map_values(|m: String| m@) + rest.0);
        }
        moves.push(m);
        p = next;
    }
    assert(moves@.map_values(|m: String| m@) + Seq::<Seq<char>>::empty() =~= moves@.map_values(
        |m: String| m@,
    ));
    (moves, p)
}

/// Reads `keyword_number(v@, pos, kw@)`; the inner value is `None` when the
/// number is larger than `u64::MAX`.
pub fn scan_keyword_number(v: &Vec<char>, pos: usize, kw: &str) -> (r: Option<(Option<u64>, usize)>)
    requires
        pos <= v@.len(),
    ensures
        match keyword_number(v@, pos as int, kw@) {
            None => r is None,
            Some((n, end)) => r matches Some((x, e)) && e == end && e <= v@.len() && match x {
                Some(x) => x == n,
                None => n > u64::MAX,
            },
        },
{
    match after_tag(v, pos, kw) {
        None => None,
        Some(a) => {
            let b = scan_run(v, a, CharClass::Space);
            let c = scan_run(v, b, CharClass::Digit);
            if b > a && c > b {
                Some((parse_digits_u64(v, b, c), c))
            } else {
                None
            }
        },
    }
}

/// The decimal digit of `d`, for `d < 10`.
pub open spec fn digit_char(d: nat) -> char {
    ((48 + d) as u8) as char
}

/// The decimal notation of `n`, without leading zeros.
pub open spec fn decimal(n: nat) -> Seq<char>
    decreases n,
{
    if n < 10 {
        seq![digit_char(n)]
    } else {
        decimal(n / 10).push(digit_char(n % 10))
    }
}

/// The decimal notation of `n`, with a minus sign in front when negative.
pub open spec fn signed_decimal(n: int) -> Seq<char> {
    if n < 0 {
        seq!['-'] + decimal((-n) as nat)
    } else {
        decimal(n as nat)
    }
}

/// The decimal notation of `n` is a non-empty run of digits whose value is `n`.
pub proof fn lemma_decimal_reads_back(n: nat)
    ensures
        decimal(n).len() >= 1,
        forall|i: int| 0 <= i < decimal(n).len() ==> is_digit(#[trigger] decimal(n)[i]),
        digits_value(decimal(n)) == n,
    decreases n,
{
    let d = n % 10;
    assert(digit_value(digit_char(d)) == d);
    if n < 10 {
        vstd::arithmetic::div_mod::lemma_small_mod(n, 10);
        assert(seq![digit_char(n)].drop_last() =~= Seq::<char>::empty());
        assert(digits_value(seq![digit_char(n)]) == digits_value(Seq::<char>::empty()) * 10
            + digit_value(digit_char(n)));
    } else {
        lemma_decimal_reads_back(n / 10);
        let t = decimal(n / 10);
        assert(decimal(n).drop_last() =~= t);
        vstd::arithmetic::div_mod::lemma_fundamental_div_mod(n as int, 10);
        assert(digits_value(decimal(n)) == digits_value(t) * 10 + digit_value(digit_char(d)));
        assert forall|i: int| 0 <= i < decimal(n).len() implies is_digit(#[trigger] decimal(n)[i]) by {
            if i < t.len() {
                assert(decimal(n)[i] == t[i]);
            }
        }
    }
}

/// A run of characters of class `k` ends where the characters of class `k`
/// stop.
pub proof fn lemma_run_end_at(s: Seq<char>, pos: int, end: int, k: CharClass)
    requires
        0 <= pos <= end <= s.len(),
        all_in_class(s, pos, end, k),
        end == s.len() || !in_class(k, s[end]),
    ensures
        run_end(s, pos, k) == end,
    decreases end - pos,
{
    if pos < end {
        lemma_run_end_at(s, pos + 1, end, k);
    }
}

/// A literal does not occur where one of its characters differs.
pub proof fn lemma_no_prefix(s: Seq<char>, pos: int, t: Seq<char>, i: int)
    requires
        0 <= i < t.len(),
        0 <= pos,
        pos + i < s.len(),
        s[pos + i] != t[i],
    ensures
        !has_prefix_at(s, pos, t),
{
    if has_prefix_at(s, pos, t) {
        assert(s.subrange(pos, pos + t.len())[i] == s[pos + i]);
    }
}

/// `kw`, a space and the decimal notation of `n`, written from `pos` to
/// `end` and not followed by a digit, read as the keyword with the number `n`.
pub proof fn lemma_keyword_number_reads_back(s: Seq<char>, pos: int, end: int, kw: Seq<char>, n: nat)
    requires
        0 <= pos <= end <= s.len(),
        s.subrange(pos, end) == kw + seq![' '] + decimal(n),
        end == s.len() || !is_digit(s[end]),
        forall|i: int| 0 <= i < kw.len() ==> !in_class(CharClass::Space, #[trigger] kw[i]),
    ensures
        keyword_number(s, pos, kw) == Some((n, end)),
{
    let t = s.subrange(pos, end);
    lemma_decimal_reads_back(n);
    let a = pos + kw.len();
    let b = a + 1;
    assert(t.len() == end - pos);
    assert(t.len() == kw.len() + 1 + decimal(n).len());
    assert(forall|j: int| 0 <= j < t.len() ==> #[trigger] t[j] == s[pos + j]);
    assert(t.subrange(0, kw.len() as int) =~= kw);
    assert(s.subrange(pos, pos + kw.len()) =~= t.subrange(0, kw.len() as int));
    assert(t[kw.len() as int] == ' ');
    assert(s[a] == t[kw.len() as int]);
    assert(t[kw.len() + 1int] == decimal(n)[0]);
    assert(s[b] == decimal(n)[0]);
    assert(!in_class(CharClass::Space, s[b]));
    assert(run_end(s, b, CharClass::Space) == b);
    assert(run_end(s, a, CharClass::Space) == b);
    assert forall|i: int| b <= i < end implies in_class(CharClass::Digit, #[trigger] s[i]) by {
        assert(t[i - pos] == decimal(n)[i - b]);
        assert(s[i] == t[i - pos]);
    }
    lemma_run_end_at(s, b, end, CharClass::Digit);
    assert forall|i: int| 0 <= i < decimal(n).len() implies #[trigger] s.subrange(b, end)[i]
        == decimal(n)[i] by {
        assert(t[b + i - pos] == decimal(n)[i]);
        assert(s[b + i] == t[b + i - pos]);
    }
    assert(s.subrange(b, end) =~= decimal(n));
}

/// Appends the decimal notation of `n` to `s`.
pub fn push_decimal(s: &mut String, n: u64)
    ensures
        final(s)@ == old(s)@ + decimal(n as nat),
    decreases n,
{
    if n >= 10 {
        push_decimal(s, n / 10);
    }
    let d: u8 = (n % 10) as u8;
    crate::chess::push_char(s, (48u8 + d) as char);
    assert(final(s)@ =~= old(s)@ + decimal(n as nat));
}

/// Appends the decimal notation of `n`, with its sign, to `s`.
pub fn push_signed_decimal(s: &mut String, n: i64)
    ensures
        final(s)@ == old(s)@ + signed_decimal(n as int),
{
    if n < 0 {
        crate::chess::push_char(s, '-');
        let m: u64 = if n == i64::MIN {
            9223372036854775808u64
        } else {
            (-n) as u64
        };
        push_decimal(s, m);
        assert(final(s)@ =~= old(s)@ + signed_decimal(n as int));
    } else {
        push_decimal(s, n as u64);
    }
}

/// The strings of `items`, separated by single spaces.
pub fn joined_with_spaces(items: &Vec<String>) -> (r: String)
    ensures
        r@ == join_fields(items@.map_values(|x: String| x@)),
{
    let mut acc = String::new();
    let mut i: usize = 0;
    while i < items.len()
        invariant
            i <= items@.len(),
            acc@ == join_fields(items@.subrange(0, i as int).map_values(|x: String| x@)),
        decreases items@.len() - i,
    {
        let ghost before = items@.subrange(0, i as int).map_values(|x: String| x@);
        if i > 0 {
            crate::chess::push_char(&mut acc, ' ');
        }
        acc = acc.concat(items[i].as_str());
        i = i + 1;
        let ghost after = items@.subrange(0, i as int).map_values(|x: String| x@);
        assert(after.drop_last() =~= before);
        if i == 1 {
            assert(before =~= Seq::<Seq<char>>::empty());
        }
    }
    assert(items@.subrange(0, i as int) =~= items@);
    acc
}

/// Whether `c` has Unicode's `White_Space` property, the property that
/// `char::is_whitespace` tests.
pub open spec fn is_unicode_whitespace(c: char) -> bool {
    ('\u{9}' <= c && c <= '\u{d}') || c == ' ' || c == '\u{85}' || c == '\u{a0}' || c
        == '\u{1680}' || ('\u{2000}' <= c && c <= '\u{200a}') || c == '\u{2028}' || c
        == '\u{2029}' || c == '\u{202f}' || c == '\u{205f}' || c == '\u{3000}'
}

/// `s` without the `White_Space` characters at its end.
pub open spec fn trimmed_end(s: Seq<char>) -> Seq<char>
    decreases s.len(),
{
    if s.len() > 0 && is_unicode_whitespace(s.last()) {
        trimmed_end(s.drop_last())
    } else {
        s
    }
}

/// `str::trim_end`: `s` without its trailing whitespace, where std's
/// documentation defines whitespace by Unicode's `White_Space` property.
#[verifier::external_body]
pub fn trim_end(s: &str) -> (r: &str)
    ensures
        r@ == trimmed_end(s@),
{
    s.trim_end()
}

/// What `trimmed_end` leaves is a prefix of the text that does not end in
/// whitespace, and all it cuts off is whitespace.
pub proof fn law_trimmed_end(s: Seq<char>)
    ensures
        trimmed_end(s).len() <= s.len(),
        trimmed_end(s) == s.subrange(0, trimmed_end(s).len() as int),
        trimmed_end(s).len() == 0 || !is_unicode_whitespace(trimmed_end(s).last()),
        forall|i: int|
            trimmed_end(s).len() <= i < s.len() ==> is_unicode_whitespace(#[trigger] s[i]),
    decreases s.len(),
{
    if s.len() > 0 && is_unicode_whitespace(s.last()) {
        law_trimmed_end(s.drop_last());
        let t = trimmed_end(s.drop_last());
        assert(s.drop_last().subrange(0, t.len() as int) =~= s.subrange(0, t.len() as int));
        assert forall|i: int| t.len() <= i < s.len() implies is_unicode_whitespace(#[trigger] s[i]) by {
            if i < s.len() - 1 {
                assert(s[i] == s.drop_last()[i]);
            }
        }
    } else {
        assert(s.subrange(0, s.len() as int) =~= s);
    }
}

} // verus!
