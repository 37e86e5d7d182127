use vstd::prelude::*;

verus! {

/// `char::to_ascii_uppercase`.
pub open spec fn ascii_upper(c: char) -> char {
    if 'a' <= c && c <= 'z' {
        ((c as int) - 32) as char
    } else {
        c
    }
}

/// `char::to_ascii_lowercase`.
pub open spec fn ascii_lower(c: char) -> char {
    if 'A' <= c && c <= 'Z' {
        ((c as int) + 32) as char
    } else {
        c
    }
}

pub open spec fn upper_seq(s: Seq<char>) -> Seq<char> {
    s.map_values(|c: char| ascii_upper(c))
}

pub open spec fn lower_seq(s: Seq<char>) -> Seq<char> {
    s.map_values(|c: char| ascii_lower(c))
}

/// `pat` occurs in `hay` starting at index `i`.
pub open spec fn occurs_at(hay: Seq<char>, pat: Seq<char>, i: int) -> bool {
    &&& 0 <= i
    &&& i + pat.len() <= hay.len()
    &&& hay.subrange(i, i + pat.len()) == pat
}

/// `str::contains` with a string pattern.
pub open spec fn seq_contains(hay: Seq<char>, pat: Seq<char>) -> bool {
    exists|i: int| occurs_at(hay, pat, i)
}

/// `str::starts_with` with a string pattern.
pub open spec fn seq_starts_with(hay: Seq<char>, pat: Seq<char>) -> bool {
    occurs_at(hay, pat, 0)
}

/// ASCII-case-insensitive equality (`str::eq_ignore_ascii_case`).
pub open spec fn eq_ignore_ascii_case(a: Seq<char>, b: Seq<char>) -> bool {
    lower_seq(a) == lower_seq(b)
}

pub fn char_to_ascii_upper(c: char) -> (r: char)
    ensures
        r == ascii_upper(c),
{
    if 'a' <= c && c <= 'z' {
        let b: u8 = c as u8;
        proof {
            assert(b as int == c as int);
        }
        (b - 32) as char
    } else {
        c
    }
}

pub fn char_to_ascii_lower(c: char) -> (r: char)
    ensures
        r == ascii_lower(c),
{
    if 'A' <= c && c <= 'Z' {
        let b: u8 = c as u8;
        proof {
            assert(b as int == c as int);
        }
        (b + 32) as char
    } else {
        c
    }
}

/// The characters of `s`, as a vector.
pub fn chars_of(s: &str) -> (r: Vec<char>)
    ensures
        r@ == s@,
{
    let n = s.unicode_len();
    let mut out: Vec<char> = Vec::new();
    let mut i: usize = 0;
    while i < n
        invariant
            n == s@.len(),
            i <= n,
            out@ == s@.subrange(0, i as int),
        decreases n - i,
    {
        out.push(s.get_char(i));
        i += 1;
        proof {
            assert(out@ =~= s@.subrange(0, i as int));
        }
    }
    proof {
        assert(s@.subrange(0, n as int) =~= s@);
    }
    out
}

/// The ASCII-uppercased characters of `s`.
pub fn upper_chars(s: &str) -> (r: Vec<char>)
    ensures
        r@ == upper_seq(s@),
{
    let n = s.unicode_len();
    let mut out: Vec<char> = Vec::new();
    let mut i: usize = 0;
    while i < n
        invariant
            n == s@.len(),
            i <= n,
            out@ == upper_seq(s@.subrange(0, i as int)),
        decreases n - i,
    {
        out.push(char_to_ascii_upper(s.get_char(i)));
        i += 1;
        proof {
            assert(out@ =~= upper_seq(s@.subrange(0, i as int)));
        }
    }
    proof {
        assert(s@.subrange(0, n as int) =~= s@);
    }
    out
}

/// The ASCII-lowercased characters of `s`.
pub fn lower_chars(s: &str) -> (r: Vec<char>)
    ensures
        r@ == lower_seq(s@),
{
    let n = s.unicode_len();
    let mut out: Vec<char> = Vec::new();
    let mut i: usize = 0;
    while i < n
        invariant
            n == s@.len(),
            i <= n,
            out@ == lower_seq(s@.subrange(0, i as int)),
        decreases n - i,
    {
        out.push(char_to_ascii_lower(s.get_char(i)));
        i += 1;
        proof {
            assert(out@ =~= lower_seq(s@.subrange(0, i as int)));
        }
    }
    proof {
        assert(s@.subrange(0, n as int) =~= s@);
    }
    out
}

/// Whether `pat` occurs in `hay` at index `i`.
pub fn vec_occurs_at(hay: &Vec<char>, pat: &Vec<char>, i: usize) -> (r: bool)
    ensures
        r == occurs_at(hay@, pat@, i as int),
{
    if i > hay.len() || pat.len() > hay.len() - i {
        return false;
    }
    let hl = hay.len();
    let mut j: usize = 0;
    while j < pat.len()
        invariant
            hl == hay@.len(),
            i + pat@.len() <= hay@.len(),
            j <= pat@.len(),
            forall|k: int| 0 <= k < j ==> hay@[i + k] == pat@[k],
        decreases pat@.len() - j,
    {
        if hay[i + j] != pat[j] {
            proof {
                assert(hay@.subrange(i as int, i + pat@.len())[j as int] != pat@[j as int]);
            }
            return false;
        }
        j += 1;
    }
    proof {
        assert(hay@.subrange(i as int, i + pat@.len()) =~= pat@);
    }
    true
}

/// Whether `pat` occurs anywhere in `hay`.
pub fn vec_contains(hay: &Vec<char>, pat: &Vec<char>) -> (r: bool)
    ensures
        r == seq_contains(hay@, pat@),
{
    if pat.len() > hay.len() {
        proof {
            assert forall|i: int| !occurs_at(hay@, pat@, i) by {}
        }
        return false;
    }
    let last = hay.len() - pat.len();
    let mut i: usize = 0;
    let mut found = false;
    loop
        invariant_except_break
            last == hay@.len() - pat@.len(),
            i <= last,
            !found,
            forall|k: int| 0 <= k < i ==> !occurs_at(hay@, pat@, k),
        ensures
            found ==> seq_contains(hay@, pat@),
            !found ==> forall|k: int| 0 <= k <= last ==> !occurs_at(hay@, pat@, k),
            last == hay@.len() - pat@.len(),
        decreases last - i,
    {
        if vec_occurs_at(hay, pat, i) {
            found = true;
            assert(occurs_at(hay@, pat@, i as int));
            break;
        }
        if i == last {
            break;
        }
        i += 1;
    }
    proof {
        if !found {
            assert forall|k: int| !occurs_at(hay@, pat@, k) by {
                if 0 <= k && k + pat@.len() <= hay@.len() {
                    assert(k <= last);
                }
            }
        }
    }
    found
}

/// `a.eq_ignore_ascii_case(b)`.
pub fn str_eq_ignore_ascii_case(a: &str, b: &str) -> (r: bool)
    ensures
        r == eq_ignore_ascii_case(a@, b@),
{
    let la = lower_chars(a);
    let lb = lower_chars(b);
    if la.len() != lb.len() {
        return false;
    }
    let mut i: usize = 0;
    while i < la.len()
        invariant
            la@ == lower_seq(a@),
            lb@ == lower_seq(b@),
            la@.len() == lb@.len(),
            i <= la@.len(),
            forall|k: int| 0 <= k < i ==> la@[k] == lb@[k],
        decreases la@.len() - i,
    {
        if la[i] != lb[i] {
            return false;
        }
        i += 1;
    }
    proof {
        assert(la@ =~= lb@);
    }
    true
}

} // verus!

verus! {

pub open spec fn is_digit(c: char) -> bool {
    '0' <= c && c <= '9'
}

pub open spec fn digit_value(c: char) -> int {
    (c as int) - ('0' as int)
}

/// The value of a string of decimal digits.
pub open spec fn decimal_value(s: Seq<char>) -> int
    decreases s.len(),
{
    if s.len() == 0 {
        0
    } else {
        decimal_value(s.drop_last()) * 10 + digit_value(s.last())
    }
}

pub open spec fn all_digits(s: Seq<char>) -> bool {
    forall|i: int| 0 <= i < s.len() ==> is_digit(#[trigger] s[i])
}

/// What `str::parse::<i32>` accepts: an optional `+` or `-`, then one or more
/// ASCII digits, with the value inside the range of `i32`.
pub open spec fn spec_parse_i32(s: Seq<char>) -> Option<i32> {
    let negative = s.len() > 0 && s[0] == '-';
    let signed = s.len() > 0 && (s[0] == '-' || s[0] == '+');
    let digits = if signed { s.drop_first() } else { s };
    let value = if negative { -decimal_value(digits) } else { decimal_value(digits) };
    if digits.len() > 0 && all_digits(digits) && i32::MIN <= value <= i32::MAX {
        Some(value as i32)
    } else {
        None
    }
}

proof fn lemma_decimal_prefix(s: Seq<char>, k: int)
    requires
        0 <= k <= s.len(),
        all_digits(s),
    ensures
        decimal_value(s) >= decimal_value(s.subrange(0, k)) >= 0,
    decreases s.len(),
{
    if s.len() == 0 {
        assert(s.subrange(0, k) =~= s);
    } else if k == s.len() {
        assert(s.subrange(0, k) =~= s);
        lemma_decimal_prefix(s.drop_last(), 0);
    } else {
        assert(all_digits(s.drop_last()));
        lemma_decimal_prefix(s.drop_last(), k);
        assert(s.drop_last().subrange(0, k) =~= s.subrange(0, k));
        assert(s.drop_last().subrange(0, 0) =~= Seq::<char>::empty());
    }
}

/// `str::parse::<i32>`, as far as whether it succeeds and what it yields.
pub fn parse_i32(s: &str) -> (r: Option<i32>)
    ensures
        r == spec_parse_i32(s@),
{
    let chars = chars_of(s);
    let n = chars.len();
    if n == 0 {
        return None;
    }
    let negative = chars[0] == '-';
    let signed = chars[0] == '-' || chars[0] == '+';
    let start: usize = if signed { 1 } else { 0 };
    let ghost digits = if signed { s@.drop_first() } else { s@ };
    proof {
        assert(digits =~= s@.subrange(start as int, n as int));
    }
    if start == n {
        return None;
    }
    let bound: i64 = if negative { 0x8000_0000 } else { 0x7fff_ffff };
    let mut acc: i64 = 0;
    let mut i: usize = start;
    while i < n
        invariant
            chars@ == s@,
            n == s@.len(),
            start <= i <= n,
            digits == s@.subrange(start as int, n as int),
            all_digits(s@.subrange(start as int, i as int)),
            acc == decimal_value(s@.subrange(start as int, i as int)),
            0 <= acc <= bound,
            bound == (if negative { 0x8000_0000i64 } else { 0x7fff_ffffi64 }),
            n > 0,
            negative == (s@[0] == '-'),
            signed == (s@[0] == '-' || s@[0] == '+'),
            start == (if signed { 1usize } else { 0usize }),
            digits == (if signed { s@.drop_first() } else { s@ }),
        decreases n - i,
    {
        let c = chars[i];
        if !('0' <= c && c <= '9') {
            proof {
                assert(digits[i - start] == c);
                assert(!is_digit(digits[i - start]));
                assert(!all_digits(digits));
            }
            return None;
        }
        let d: i64 = (c as u32 - '0' as u32) as i64;
        let next = acc * 10 + d;
        proof {
            let pre = s@.subrange(start as int, i as int);
            let cur = s@.subrange(start as int, i + 1);
            assert(cur.drop_last() =~= pre);
            assert(cur.last() == c);
            assert(all_digits(cur));
        }
        if next > bound {
            proof {
                let cur = s@.subrange(start as int, i + 1);
                if all_digits(digits) {
                    lemma_decimal_prefix(digits, i + 1 - start);
                    assert(digits.subrange(0, i + 1 - start) =~= cur);
                    assert(decimal_value(digits) > bound);
                    assert(negative == (s@.len() > 0 && s@[0] == '-'));
                }
            }
            return None;
        }
        acc = next;
        i += 1;
    }
    proof {
        assert(s@.subrange(start as int, n as int) =~= digits);
    }
    if negative {
        Some((-acc) as i32)
    } else {
        Some(acc as i32)
    }
}

} // verus!

verus! {

pub open spec fn digit_char(d: int) -> char {
    ((d + 48) as char)
}

/// Decimal text of a natural number, as `Display` writes it.
pub open spec fn spec_decimal(n: nat) -> Seq<char>
    decreases n,
{
    if n < 10 {
        seq![digit_char(n as int)]
    } else {
        spec_decimal(n / 10) + seq![digit_char((n % 10) as int)]
    }
}

/// Decimal text of a signed integer: a minus sign before negative values.
pub open spec fn spec_signed_decimal(v: int) -> Seq<char> {
    if v < 0 {
        seq!['-'] + spec_decimal((-v) as nat)
    } else {
        spec_decimal(v as nat)
    }
}

fn digit_str(d: u64) -> (r: &'static str)
    requires
        d < 10,
    ensures
        r@ == seq![digit_char(d as int)],
{
    proof {
        reveal_strlit("0");
        reveal_strlit("1");
        reveal_strlit("2");
        reveal_strlit("3");
        reveal_strlit("4");
        reveal_strlit("5");
        reveal_strlit("6");
        reveal_strlit("7");
        reveal_strlit("8");
        reveal_strlit("9");
    }
    match d {
        0 => "0",
        1 => "1",
        2 => "2",
        3 => "3",
        4 => "4",
        5 => "5",
        6 => "6",
        7 => "7",
        8 => "8",
        _ => "9",
    }
}

/// Appends the decimal text of `x` to `out`.
pub fn append_decimal(out: &mut String, x: u64)
    ensures
        final(out)@ == old(out)@ + spec_decimal(x as nat),
    decreases x,
{
    if x < 10 {
        out.append(digit_str(x));
    } else {
        append_decimal(out, x / 10);
        out.append(digit_str(x % 10));
        proof {
            assert(old(out)@ + spec_decimal((x / 10) as nat) + seq![digit_char((x % 10) as int)]
                =~= old(out)@ + spec_decimal(x as nat));
        }
    }
}

/// `x.to_string()` for an unsigned integer.
pub fn u64_to_text(x: u64) -> (r: String)
    ensures
        r@ == spec_decimal(x as nat),
{
    let mut s = String::new();
    append_decimal(&mut s, x);
    proof {
        assert(Seq::<char>::empty() + spec_decimal(x as nat) =~= spec_decimal(x as nat));
    }
    s
}

/// `x.to_string()` for a signed integer.
pub fn i64_to_text(x: i64) -> (r: String)
    ensures
        r@ == spec_signed_decimal(x as int),
{
    let mut s = String::new();
    if x < 0 {
        proof {
            reveal_strlit("-");
        }
        s.append("-");
        let magnitude: u64 = if x == i64::MIN {
            0x8000_0000_0000_0000u64
        } else {
            (-x) as u64
        };
        append_decimal(&mut s, magnitude);
    } else {
        append_decimal(&mut s, x as u64);
        proof {
            assert(Seq::<char>::empty() + spec_decimal(x as nat) =~= spec_decimal(x as nat));
        }
    }
    s
}

} // verus!

verus! {

/// The Unicode `White_Space` property, which `char::is_whitespace` tests.
pub open spec fn is_white_space(c: char) -> bool {
    let v = c as int;
    (0x09 <= v <= 0x0d) || v == 0x20 || v == 0x85 || v == 0xa0 || v == 0x1680 || (0x2000 <= v
        <= 0x200a) || v == 0x2028 || v == 0x2029 || v == 0x202f || v == 0x205f || v == 0x3000
}

pub fn char_is_whitespace(c: char) -> (r: bool)
    ensures
        r == is_white_space(c),
{
    let v = c as u32;
    (0x09 <= v && v <= 0x0d) || v == 0x20 || v == 0x85 || v == 0xa0 || v == 0x1680 || (0x2000 <= v
        && v <= 0x200a) || v == 0x2028 || v == 0x2029 || v == 0x202f || v == 0x205f || v == 0x3000
}

/// `str::trim_start`: leading white space removed.
pub open spec fn trim_start_seq(s: Seq<char>) -> Seq<char>
    decreases s.len(),
{
    if s.len() > 0 && is_white_space(s[0]) {
        trim_start_seq(s.drop_first())
    } else {
        s
    }
}

/// `str::trim_end`: trailing white space removed.
pub open spec fn trim_end_seq(s: Seq<char>) -> Seq<char>
    decreases s.len(),
{
    if s.len() > 0 && is_white_space(s.last()) {
        trim_end_seq(s.drop_last())
    } else {
        s
    }
}

/// `str::trim`.
pub open spec fn spec_trim(s: Seq<char>) -> Seq<char> {
    trim_end_seq(trim_start_seq(s))
}

/// `s.trim()`, as an owned string.
pub fn trim_text(s: &str) -> (r: String)
    ensures
        r@ == spec_trim(s@),
{
    let n = s.unicode_len();
    let mut start: usize = 0;
    proof {
        assert(s@.subrange(0, n as int) =~= s@);
    }
    while start < n && char_is_whitespace(s.get_char(start))
        invariant
            n == s@.len(),
            start <= n,
            trim_start_seq(s@) == trim_start_seq(s@.subrange(start as int, n as int)),
        decreases n - start,
    {
        proof {
            let t = s@.subrange(start as int, n as int);
            assert(t.drop_first() =~= s@.subrange(start + 1, n as int));
        }
        start += 1;
    }
    let ghost t = s@.subrange(start as int, n as int);
    proof {
        assert(trim_start_seq(s@) == t);
        assert(t.subrange(0, t.len() as int) =~= t);
    }
    let mut end: usize = n;
    while end > start && char_is_whitespace(s.get_char(end - 1))
        invariant
            n == s@.len(),
            start <= end <= n,
            t == s@.subrange(start as int, n as int),
            trim_end_seq(t) == trim_end_seq(s@.subrange(start as int, end as int)),
        decreases end - start,
    {
        proof {
            let u = s@.subrange(start as int, end as int);
            assert(u.drop_last() =~= s@.subrange(start as int, end - 1));
        }
        end -= 1;
    }
    proof {
        assert(trim_end_seq(t) == s@.subrange(start as int, end as int));
    }
    String::from_str(s.substring_char(start, end))
}

/// Whether two strings hold the same characters.
pub fn str_eq(a: &str, b: &str) -> (r: bool)
    ensures
        r == (a@ == b@),
{
    let la = a.unicode_len();
    if la != b.unicode_len() {
        return false;
    }
    let mut i: usize = 0;
    while i < la
        invariant
            la == a@.len(),
            la == b@.len(),
            i <= la,
            forall|k: int| 0 <= k < i ==> a@[k] == b@[k],
        decreases la - i,
    {
        if a.get_char(i) != b.get_char(i) {
            return false;
        }
        i += 1;
    }
    proof {
        assert(a@ =~= b@);
    }
    true
}

} // verus!

verus! {

proof fn lemma_decimal_digits(n: nat)
    ensures
        spec_decimal(n).len() > 0,
        all_digits(spec_decimal(n)),
        decimal_value(spec_decimal(n)) == n,
    decreases n,
{
    let s = spec_decimal(n);
    if n < 10 {
        assert(s.drop_last() =~= Seq::<char>::empty());
        assert(decimal_value(s.drop_last()) == 0);
        assert(digit_char(n as int) as int == n + 48);
        assert(s.last() == digit_char(n as int));
        assert(digit_value(s.last()) == n);
        assert(decimal_value(s) == n);
    } else {
        lemma_decimal_digits(n / 10);
        let d = (n % 10) as int;
        assert(s.drop_last() =~= spec_decimal(n / 10));
        assert(s.last() == digit_char(d));
        assert(digit_char(d) as int == d + 48);
        assert(n == (n / 10) * 10 + n % 10) by (nonlinear_arith);
        assert(decimal_value(s) == decimal_value(s.drop_last()) * 10 + digit_value(s.last()));
        assert(digit_value(s.last()) == d);
        assert(decimal_value(s) == n);
        assert forall|i: int| 0 <= i < s.len() implies is_digit(#[trigger] s[i]) by {
            if i < s.len() - 1 {
                assert(s[i] == spec_decimal(n / 10)[i]);
            }
        }
    }
}

/// A number written out in decimal, as the editor shows coordinates, parses
/// back to itself.
pub proof fn law_signed_decimal_parses_back(v: i32)
    ensures
        spec_parse_i32(spec_signed_decimal(v as int)) == Some(v),
{
    if v < 0 {
        let m: nat = (-(v as int)) as nat;
        lemma_decimal_digits(m);
        let s = spec_signed_decimal(v as int);
        assert(s.drop_first() =~= spec_decimal(m));
        assert(s[0] == '-');
    } else {
        lemma_decimal_digits(v as nat);
        let s = spec_decimal(v as nat);
        assert(is_digit(s[0]));
    }
}

} // verus!
