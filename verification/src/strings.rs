//! Verified string utilities: decimal rendering, equality, prefix and
//! substring tests, ASCII case folding, trimming and splitting.  All contracts
//! are stated over `Seq<char>` views.

use vstd::prelude::*;

verus! {

/// The views of a sequence of strings.
pub open spec fn views_of(ss: Seq<String>) -> Seq<Seq<char>> {
    ss.map_values(|s: String| s@)
}

/// A present, non-empty value replaces the current one; anything else keeps
/// it.
pub open spec fn spec_override_nonempty(cur: Seq<char>, new: Option<String>) -> Seq<char> {
    match new {
        Some(v) => if v@.len() > 0 {
            v@
        } else {
            cur
        },
        None => cur,
    }
}

// ---------------------------------------------------------------------------
// Decimal rendering
// ---------------------------------------------------------------------------

/// The character for one decimal digit.
pub open spec fn spec_digit_char(d: int) -> char
    recommends
        0 <= d < 10,
{
    (48 + d) as char
}

/// The decimal representation of a number, most significant digit first.
pub open spec fn spec_u64_dec(n: nat) -> Seq<char>
    decreases n,
{
    if n < 10 {
        seq![spec_digit_char(n as int)]
    } else {
        spec_u64_dec(n / 10).push(spec_digit_char((n % 10) as int))
    }
}

fn digit_str(d: u64) -> (r: &'static str)
    requires
        d < 10,
    ensures
        r@ == seq![spec_digit_char(d as int)],
{
    proof {
        reveal_strlit("0");
        reveal_strlit("1");
        reveal_strlit("2");
        reveal_strlit("3");
        reveal_strlit("4");
        reveal_strlit("5");
        reveal_strlit("6");
        reveal_strlit("7");
        reveal_strlit("8");
        reveal_strlit("9");
    }
    let r = match d {
        0 => "0",
        1 => "1",
        2 => "2",
        3 => "3",
        4 => "4",
        5 => "5",
        6 => "6",
        7 => "7",
        8 => "8",
        _ => "9",
    };
    proof {
        assert(r@ =~= seq![spec_digit_char(d as int)]);
    }
    r
}

/// A decimal rendering is non-empty and starts with a digit character.
pub proof fn lemma_dec_first_digit(n: nat)
    ensures
        spec_u64_dec(n).len() >= 1,
        48 <= spec_u64_dec(n)[0] as int <= 57,
    decreases n,
{
    if n >= 10 {
        lemma_dec_first_digit(n / 10);
    }
}

/// Render a number in decimal.
pub fn u64_to_string(n: u64) -> (r: String)
    ensures
        r@ == spec_u64_dec(n as nat),
    decreases n,
{
    if n < 10 {
        String::from_str(digit_str(n))
    } else {
        let mut s = u64_to_string(n / 10);
        s.append(digit_str(n % 10));
        proof {
            assert(s@ =~= spec_u64_dec(n as nat));
        }
        s
    }
}

// ---------------------------------------------------------------------------
// Equality, prefix, and substring tests
// ---------------------------------------------------------------------------

/// Character-for-character string equality.
pub fn str_eq(a: &str, b: &str) -> (r: bool)
    ensures
        r == (a@ == b@),
{
    let alen = a.unicode_len();
    let blen = b.unicode_len();
    if alen != blen {
        return false;
    }
    let mut i: usize = 0;
    while i < alen
        invariant
            alen == a@.len(),
            alen == b@.len(),
            i <= alen,
            forall|j: int| 0 <= j < i ==> a@[j] == b@[j],
        decreases alen - i,
    {
        if a.get_char(i) != b.get_char(i) {
            return false;
        }
        i += 1;
    }
    proof {
        assert(a@ =~= b@);
    }
    true
}

/// `p` is a prefix of `s`.
pub open spec fn spec_starts_with(s: Seq<char>, p: Seq<char>) -> bool {
    p.len() <= s.len() && s.subrange(0, p.len() as int) == p
}

/// Prefix test.
pub fn starts_with_str(s: &str, p: &str) -> (r: bool)
    ensures
        r == spec_starts_with(s@, p@),
{
    let slen = s.unicode_len();
    let plen = p.unicode_len();
    if plen > slen {
        return false;
    }
    let mut i: usize = 0;
    while i < plen
        invariant
            slen == s@.len(),
            plen == p@.len(),
            plen <= slen,
            i <= plen,
            forall|j: int| 0 <= j < i ==> s@[j] == p@[j],
        decreases plen - i,
    {
        if s.get_char(i) != p.get_char(i) {
            proof {
                assert(s@.subrange(0, p@.len() as int)[i as int] != p@[i as int]);
            }
            return false;
        }
        i += 1;
    }
    proof {
        assert(s@.subrange(0, p@.len() as int) =~= p@);
    }
    true
}

/// `p` occurs as a contiguous run inside `s`.
pub open spec fn spec_contains_seq(s: Seq<char>, p: Seq<char>) -> bool {
    exists|i: int|
        0 <= i && i + p.len() <= s.len() && #[trigger] s.subrange(i, i + p.len() as int) == p
}

fn match_at(s: &str, p: &str, at: usize) -> (r: bool)
    requires
        at + p@.len() <= s@.len(),
    ensures
        r == (s@.subrange(at as int, at + p@.len() as int) == p@),
{
    let slen = s.unicode_len();
    let plen = p.unicode_len();
    let mut k: usize = 0;
    while k < plen
        invariant
            slen == s@.len(),
            plen == p@.len(),
            at + plen <= slen,
            k <= plen,
            forall|j: int| 0 <= j < k ==> s@[at + j] == p@[j],
        decreases plen - k,
    {
        if s.get_char(at + k) != p.get_char(k) {
            proof {
                assert(s@.subrange(at as int, at + p@.len() as int)[k as int] != p@[k as int]);
            }
            return false;
        }
        k += 1;
    }
    proof {
        assert(s@.subrange(at as int, at + p@.len() as int) =~= p@);
    }
    true
}

/// Substring test.
pub fn contains_str(s: &str, p: &str) -> (r: bool)
    ensures
        r == spec_contains_seq(s@, p@),
{
    let slen = s.unicode_len();
    let plen = p.unicode_len();
    if plen > slen {
        return false;
    }
    if plen == 0 {
        proof {
            assert(spec_contains_seq(s@, p@)) by {
                assert(s@.subrange(0, 0 + p@.len() as int) =~= p@);
            }
        }
        return true;
    }
    let mut i: usize = 0;
    while i <= slen - plen
        invariant
            slen == s@.len(),
            plen == p@.len(),
            0 < plen <= slen,
            i <= slen - plen + 1,
            forall|j: int|
                0 <= j < i ==> #[trigger] s@.subrange(j, j + p@.len() as int) != p@,
        decreases slen - i,
    {
        if match_at(s, p, i) {
            return true;
        }
        i += 1;
    }
    false
}

/// The decimal representation of a number, left-padded with zeros to at least
/// three characters.
pub open spec fn spec_u64_pad3(n: nat) -> Seq<char> {
    if n < 10 {
        seq![spec_digit_char(0), spec_digit_char(0)] + spec_u64_dec(n)
    } else if n < 100 {
        seq![spec_digit_char(0)] + spec_u64_dec(n)
    } else {
        spec_u64_dec(n)
    }
}

/// Render a number in decimal, zero-padded to at least three characters.
pub fn u64_to_string_pad3(n: u64) -> (r: String)
    ensures
        r@ == spec_u64_pad3(n as nat),
{
    proof {
        reveal_strlit("0");
        reveal_strlit("00");
    }
    let mut s = String::new();
    if n < 10 {
        s.append("00");
    } else if n < 100 {
        s.append("0");
    }
    let d = u64_to_string(n);
    s.append(d.as_str());
    proof {
        assert(s@ =~= spec_u64_pad3(n as nat));
    }
    s
}

// ---------------------------------------------------------------------------
// Decimal parsing
// ---------------------------------------------------------------------------

/// A decimal digit character.
pub open spec fn spec_is_digit(c: char) -> bool {
    '0' <= c && c <= '9'
}

/// The value of one digit character.
pub open spec fn spec_digit_val(c: char) -> int {
    c as int - 48
}

/// A non-empty, all-digit sequence.
pub open spec fn spec_all_digits(s: Seq<char>) -> bool {
    s.len() > 0 && forall|i: int| 0 <= i < s.len() ==> spec_is_digit(#[trigger] s[i])
}

/// The value of a digit sequence read in decimal.
pub open spec fn spec_dec_val(s: Seq<char>) -> int
    decreases s.len(),
{
    if s.len() == 0 {
        0
    } else {
        spec_dec_val(s.drop_last()) * 10 + spec_digit_val(s.last())
    }
}

proof fn lemma_dec_val_nonneg(s: Seq<char>)
    requires
        forall|i: int| 0 <= i < s.len() ==> spec_is_digit(#[trigger] s[i]),
    ensures
        spec_dec_val(s) >= 0,
    decreases s.len(),
{
    if s.len() > 0 {
        lemma_dec_val_nonneg(s.drop_last());
    }
}

proof fn lemma_dec_val_prefix_le(s: Seq<char>, i: int, j: int)
    requires
        forall|k: int| 0 <= k < s.len() ==> spec_is_digit(#[trigger] s[k]),
        0 <= i <= j <= s.len(),
    ensures
        spec_dec_val(s.take(i)) <= spec_dec_val(s.take(j)),
    decreases j - i,
{
    if i < j {
        lemma_dec_val_prefix_le(s, i, j - 1);
        assert(s.take(j).drop_last() =~= s.take(j - 1));
        assert(forall|k: int| 0 <= k < s.take(j - 1).len() ==> spec_is_digit(#[trigger] s.take(
            j - 1,
        )[k]));
        lemma_dec_val_nonneg(s.take(j - 1));
    }
}

/// Parse a decimal byte value.  Returns the value exactly when the input is a
/// non-empty run of digits whose value fits in a byte.
pub fn parse_u8_dec(s: &str) -> (r: Option<u8>)
    ensures
        r is Some <==> spec_all_digits(s@) && spec_dec_val(s@) <= 255,
        r is Some ==> r->0 == spec_dec_val(s@),
{
    let n = s.unicode_len();
    if n == 0 {
        return None;
    }
    let mut acc: u32 = 0;
    let mut i: usize = 0;
    while i < n
        invariant
            n == s@.len(),
            0 < n,
            i <= n,
            forall|k: int| 0 <= k < i ==> spec_is_digit(#[trigger] s@[k]),
            acc == spec_dec_val(s@.take(i as int)),
            acc <= 255,
        decreases n - i,
    {
        let c = s.get_char(i);
        let cv = c as u32;
        if cv < 48 || cv > 57 {
            return None;
        }
        let d: u32 = cv - 48;
        let next: u32 = acc * 10 + d;
        proof {
            assert(s@.take(i + 1).drop_last() =~= s@.take(i as int));
            assert(next == spec_dec_val(s@.take(i + 1)));
        }
        if next > 255 {
            proof {
                if spec_all_digits(s@) {
                    lemma_dec_val_prefix_le(s@, i + 1, s@.len() as int);
                    assert(s@.take(s@.len() as int) =~= s@);
                }
            }
            return None;
        }
        acc = next;
        i += 1;
    }
    proof {
        assert(s@.take(n as int) =~= s@);
    }
    Some(acc as u8)
}

// ---------------------------------------------------------------------------
// ASCII case folding
// ---------------------------------------------------------------------------

/// ASCII lower-casing of one character; anything outside `A`..`Z` is kept.
pub open spec fn spec_lower_char(c: char) -> char {
    if 'A' <= c && c <= 'Z' {
        ((c as int) + 32) as char
    } else {
        c
    }
}

/// ASCII lower-casing of a whole sequence.
pub open spec fn spec_lower(s: Seq<char>) -> Seq<char> {
    s.map_values(|c: char| spec_lower_char(c))
}

fn chars_eq_ci(x: char, y: char) -> (r: bool)
    ensures
        r == (spec_lower_char(x) == spec_lower_char(y)),
{
    let xv = x as u32;
    let yv = y as u32;
    let xl: u32 = if 65 <= xv && xv <= 90 { xv + 32 } else { xv };
    let yl: u32 = if 65 <= yv && yv <= 90 { yv + 32 } else { yv };
    xl == yl
}

/// Equality up to ASCII case.
pub fn eq_ignore_ascii_case(a: &str, b: &str) -> (r: bool)
    ensures
        r == (spec_lower(a@) == spec_lower(b@)),
{
    let alen = a.unicode_len();
    let blen = b.unicode_len();
    if alen != blen {
        proof {
            assert(spec_lower(a@).len() != spec_lower(b@).len());
        }
        return false;
    }
    let mut i: usize = 0;
    while i < alen
        invariant
            alen == a@.len(),
            alen == b@.len(),
            i <= alen,
            forall|j: int| 0 <= j < i ==> spec_lower_char(a@[j]) == spec_lower_char(b@[j]),
        decreases alen - i,
    {
        if !chars_eq_ci(a.get_char(i), b.get_char(i)) {
            proof {
                assert(spec_lower(a@)[i as int] != spec_lower(b@)[i as int]);
            }
            return false;
        }
        i += 1;
    }
    proof {
        assert(spec_lower(a@) =~= spec_lower(b@));
    }
    true
}

/// `c` occurs in `s`.
pub open spec fn spec_contains_char(s: Seq<char>, c: char) -> bool {
    exists|i: int| 0 <= i < s.len() && s[i] == c
}

/// Single-character occurrence test.
pub fn contains_char(s: &str, c: char) -> (r: bool)
    ensures
        r == spec_contains_char(s@, c),
{
    let n = s.unicode_len();
    let mut i: usize = 0;
    while i < n
        invariant
            n == s@.len(),
            i <= n,
            forall|j: int| 0 <= j < i ==> s@[j] != c,
        decreases n - i,
    {
        if s.get_char(i) == c {
            return true;
        }
        i += 1;
    }
    false
}

// ---------------------------------------------------------------------------
// Trimming
// ---------------------------------------------------------------------------

/// ASCII whitespace, the characters trimmed from operator input lines.
pub open spec fn spec_is_ws(c: char) -> bool {
    c == ' ' || c == '\t' || c == '\n' || c == '\r'
}

/// Drop leading whitespace.
pub open spec fn spec_trim_front(s: Seq<char>) -> Seq<char>
    decreases s.len(),
{
    if s.len() > 0 && spec_is_ws(s[0]) {
        spec_trim_front(s.drop_first())
    } else {
        s
    }
}

/// Drop trailing whitespace.
pub open spec fn spec_trim_back(s: Seq<char>) -> Seq<char>
    decreases s.len(),
{
    if s.len() > 0 && spec_is_ws(s.last()) {
        spec_trim_back(s.drop_last())
    } else {
        s
    }
}

/// Drop whitespace at both ends.
pub open spec fn spec_trim(s: Seq<char>) -> Seq<char> {
    spec_trim_back(spec_trim_front(s))
}

/// Trim ASCII whitespace from both ends.
pub fn trim_str(s: &str) -> (r: String)
    ensures
        r@ == spec_trim(s@),
{
    let n = s.unicode_len();
    proof {
        assert(s@.subrange(0, n as int) =~= s@);
    }
    let mut i: usize = 0;
    while i < n && is_ws_char(s.get_char(i))
        invariant
            n == s@.len(),
            i <= n,
            spec_trim_front(s@) == spec_trim_front(s@.subrange(i as int, n as int)),
        decreases n - i,
    {
        proof {
            assert(s@.subrange(i as int, n as int).drop_first() =~= s@.subrange(
                i + 1,
                n as int,
            ));
        }
        i += 1;
    }
    proof {
        assert(spec_trim_front(s@) == s@.subrange(i as int, n as int));
    }
    let mut j: usize = n;
    while j > i && is_ws_char(s.get_char(j - 1))
        invariant
            n == s@.len(),
            i <= j <= n,
            spec_trim_front(s@) == s@.subrange(i as int, n as int),
            spec_trim_back(s@.subrange(i as int, n as int)) == spec_trim_back(
                s@.subrange(i as int, j as int),
            ),
        decreases j,
    {
        proof {
            assert(s@.subrange(i as int, j as int).drop_last() =~= s@.subrange(
                i as int,
                j - 1,
            ));
        }
        j -= 1;
    }
    String::from_str(s.substring_char(i, j))
}

fn is_ws_char(c: char) -> (r: bool)
    ensures
        r == spec_is_ws(c),
{
    c == ' ' || c == '\t' || c == '\n' || c == '\r'
}

// ---------------------------------------------------------------------------
// Splitting
// ---------------------------------------------------------------------------

/// Split at every occurrence of `sep`.  An empty input yields one empty
/// piece, and adjacent separators yield empty pieces between them.
pub open spec fn spec_split(s: Seq<char>, sep: char) -> Seq<Seq<char>>
    decreases s.len(),
{
    if s.len() == 0 {
        seq![Seq::<char>::empty()]
    } else {
        let rest = spec_split(s.drop_first(), sep);
        if s[0] == sep {
            seq![Seq::<char>::empty()] + rest
        } else {
            seq![seq![s[0]] + rest[0]] + rest.drop_first()
        }
    }
}

proof fn lemma_split_len(s: Seq<char>, sep: char)
    ensures
        spec_split(s, sep).len() >= 1,
    decreases s.len(),
{
    if s.len() > 0 {
        lemma_split_len(s.drop_first(), sep);
    }
}

/// Splitting a sequence whose head piece runs to the first separator.
proof fn lemma_split_at_sep(s: Seq<char>, sep: char, k: int)
    requires
        0 <= k < s.len(),
        s[k] == sep,
        forall|j: int| 0 <= j < k ==> s[j] != sep,
    ensures
        spec_split(s, sep).len() >= 2,
        spec_split(s, sep)[0] == s.subrange(0, k),
        spec_split(s, sep).drop_first() == spec_split(
            s.subrange(k + 1, s.len() as int),
            sep,
        ),
    decreases s.len(),
{
    lemma_split_len(s.drop_first(), sep);
    if k == 0 {
        assert(s.subrange(0, 0) =~= Seq::<char>::empty());
        assert(s.drop_first() =~= s.subrange(1, s.len() as int));
        assert(spec_split(s, sep).drop_first() =~= spec_split(s.drop_first(), sep));
    } else {
        let t = s.drop_first();
        lemma_split_at_sep(t, sep, k - 1);
        assert(t.subrange(k, t.len() as int) =~= s.subrange(k + 1, s.len() as int));
        assert(seq![s[0]] + t.subrange(0, k - 1) =~= s.subrange(0, k));
        lemma_split_len(t.subrange(k, t.len() as int), sep);
        assert((seq![seq![s[0]] + spec_split(t, sep)[0]] + spec_split(t, sep).drop_first())
            .drop_first() =~= spec_split(t, sep).drop_first());
    }
}

/// Splitting a sequence without the separator yields the sequence alone.
proof fn lemma_split_no_sep(s: Seq<char>, sep: char)
    requires
        forall|j: int| 0 <= j < s.len() ==> s[j] != sep,
    ensures
        spec_split(s, sep) == seq![s],
    decreases s.len(),
{
    if s.len() > 0 {
        lemma_split_no_sep(s.drop_first(), sep);
        assert(seq![s[0]] + s.drop_first() =~= s);
        assert(spec_split(s, sep) =~= seq![s]);
    } else {
        assert(s =~= Seq::<char>::empty());
    }
}

/// Split a string at every occurrence of `sep`.
pub fn split_char(s: &str, sep: char) -> (r: Vec<String>)
    ensures
        views_of(r@) == spec_split(s@, sep),
{
    let n = s.unicode_len();
    let mut acc: Vec<String> = Vec::new();
    proof {
        assert(s@.subrange(0, n as int) =~= s@);
        assert(views_of(acc@) =~= Seq::<Seq<char>>::empty());
        assert(views_of(acc@) + spec_split(s@, sep) =~= spec_split(s@, sep));
    }
    let mut start: usize = 0;
    let mut i: usize = 0;
    while i < n
        invariant
            n == s@.len(),
            start <= i <= n,
            forall|j: int| start <= j < i ==> s@[j] != sep,
            spec_split(s@, sep) == views_of(acc@) + spec_split(
                s@.subrange(start as int, n as int),
                sep,
            ),
        decreases n - i,
    {
        if s.get_char(i) == sep {
            let piece = String::from_str(s.substring_char(start, i));
            proof {
                let tail = s@.subrange(start as int, n as int);
                lemma_split_at_sep(tail, sep, i - start);
                assert(tail.subrange(0, i - start) =~= s@.subrange(start as int, i as int));
                assert(tail.subrange(i - start + 1, tail.len() as int) =~= s@.subrange(
                    i + 1,
                    n as int,
                ));
                assert(spec_split(tail, sep) =~= seq![spec_split(tail, sep)[0]] + spec_split(
                    tail,
                    sep,
                ).drop_first());
                assert(views_of(acc@.push(piece)) =~= views_of(acc@) + seq![piece@]);
                assert(views_of(acc@.push(piece)) + spec_split(
                    s@.subrange(i + 1, n as int),
                    sep,
                ) =~= spec_split(s@, sep));
            }
            acc.push(piece);
            start = i + 1;
        }
        i += 1;
    }
    let piece = String::from_str(s.substring_char(start, n));
    proof {
        let tail = s@.subrange(start as int, n as int);
        lemma_split_no_sep(tail, sep);
        assert(views_of(acc@.push(piece)) =~= views_of(acc@) + seq![piece@]);
        assert(views_of(acc@.push(piece)) =~= spec_split(s@, sep));
    }
    acc.push(piece);
    acc
}

// ---------------------------------------------------------------------------
// Searching
// ---------------------------------------------------------------------------

/// Last index at which `c` occurs.
pub fn find_last_char(s: &str, c: char) -> (r: Option<usize>)
    ensures
        match r {
            Some(i) => i < s@.len() && s@[i as int] == c && forall|j: int|
                i < j < s@.len() ==> s@[j] != c,
            None => forall|j: int| 0 <= j < s@.len() ==> s@[j] != c,
        },
{
    let n = s.unicode_len();
    let mut j: usize = n;
    while j > 0
        invariant
            n == s@.len(),
            j <= n,
            forall|k: int| j <= k < n ==> s@[k] != c,
        decreases j,
    {
        if s.get_char(j - 1) == c {
            return Some(j - 1);
        }
        j -= 1;
    }
    None
}

// ---------------------------------------------------------------------------
// Token lists
// ---------------------------------------------------------------------------

/// `tok` occurs among the argument tokens.
pub open spec fn spec_contains_token(args: Seq<Seq<char>>, tok: Seq<char>) -> bool {
    exists|i: int| 0 <= i < args.len() && args[i] == tok
}

/// Whether any argument token equals `tok`.
pub fn contains_token(args: &Vec<String>, tok: &str) -> (r: bool)
    ensures
        r == spec_contains_token(views_of(args@), tok@),
{
    let n = args.len();
    let mut i: usize = 0;
    while i < n
        invariant
            n == args@.len(),
            i <= n,
            forall|j: int| 0 <= j < i ==> views_of(args@)[j] != tok@,
        decreases n - i,
    {
        if str_eq(args[i].as_str(), tok) {
            proof {
                assert(views_of(args@)[i as int] == tok@);
            }
            return true;
        }
        i += 1;
    }
    false
}

proof fn lemma_views_push(vs: Seq<String>, s: String)
    ensures
        views_of(vs.push(s)) == views_of(vs).push(s@),
{
    assert(views_of(vs.push(s)) =~= views_of(vs).push(s@));
}

/// Append one owned token.
pub fn push_tok(v: &mut Vec<String>, t: String)
    ensures
        views_of(final(v)@) == views_of(old(v)@).push(t@),
{
    let ghost before = v@;
    let ghost gt = t;
    v.push(t);
    proof {
        lemma_views_push(before, gt);
    }
}

/// Append one token copied from a string slice.
pub fn push_lit(v: &mut Vec<String>, s: &str)
    ensures
        views_of(final(v)@) == views_of(old(v)@).push(s@),
{
    push_tok(v, String::from_str(s));
}

/// Append a copy of every token of `src` to `dst`, in order.
pub fn extend_clone(dst: &mut Vec<String>, src: &Vec<String>)
    ensures
        views_of(final(dst)@) == views_of(old(dst)@) + views_of(src@),
{
    let n = src.len();
    proof {
        assert(views_of(old(dst)@) + views_of(src@).take(0) =~= views_of(old(dst)@));
    }
    let mut i: usize = 0;
    while i < n
        invariant
            n == src@.len(),
            i <= n,
            views_of(dst@) == views_of(old(dst)@) + views_of(src@).take(i as int),
        decreases n - i,
    {
        let ghost before = dst@;
        dst.push(src[i].clone());
        proof {
            lemma_views_push(before, src@[i as int]);
            assert(views_of(dst@) =~= views_of(old(dst)@) + views_of(src@).take(i + 1));
        }
        i += 1;
    }
    proof {
        assert(views_of(src@).take(n as int) =~= views_of(src@));
    }
}

} // verus!
