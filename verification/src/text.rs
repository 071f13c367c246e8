//! Text helpers shared by the services: whitespace trimming, byte lengths,
//! decimal rendering and character-level building of `String`s.
use vstd::prelude::*;
use vstd::string::*;

verus! {

/// The characters of `s`, in order.
pub fn chars_of(s: &str) -> (v: Vec<char>)
    ensures
        v@ == s@,
{
    let mut v: Vec<char> = Vec::new();
    for c in it: s.chars()
        invariant
            v@ == it.seq().take(it.index() as int),
            it.seq() == s@,
    {
        v.push(c);
    }
    v
}

/// Appends one character to a `String` (std's `String::push`).
#[verifier::external_body]
pub(crate) fn push_char(s: &mut String, c: char)
    ensures
        final(s)@ == old(s)@.push(c),
{
    s.push(c);
}

/// A `String` holding exactly the given characters.
pub fn string_of(cs: &Vec<char>) -> (s: String)
    ensures
        s@ == cs@,
{
    let mut s = String::new();
    let mut i: usize = 0;
    while i < cs.len()
        invariant
            i <= cs.len(),
            s@ == cs@.take(i as int),
        decreases cs.len() - i,
    {
        push_char(&mut s, cs[i]);
        i += 1;
        assert(cs@.take(i as int) == cs@.take((i - 1) as int).push(cs@[i - 1]));
    }
    assert(cs@.take(cs.len() as int) == cs@);
    s
}

/// Appends the characters of `t` to `s`.
pub fn append_text(s: &mut String, t: &str)
    ensures
        final(s)@ == old(s)@ + t@,
{
    s.append(t);
}

/// Whether two strings hold the same characters.
pub fn text_eq(a: &str, b: &str) -> (r: bool)
    ensures
        r == (a@ == b@),
{
    let x = chars_of(a);
    let y = chars_of(b);
    if x.len() != y.len() {
        return false;
    }
    let mut i: usize = 0;
    while i < x.len()
        invariant
            x@ == a@,
            y@ == b@,
            x.len() == y.len(),
            i <= x.len(),
            forall|k: int| 0 <= k < i ==> x@[k] == y@[k],
        decreases x.len() - i,
    {
        if x[i] != y[i] {
            return false;
        }
        i += 1;
    }
    assert(x@ =~= y@);
    true
}

/// Whether `c` occurs in `s`.
pub fn contains_char(s: &str, c: char) -> (r: bool)
    ensures
        r == s@.contains(c),
{
    let x = chars_of(s);
    let mut i: usize = 0;
    while i < x.len()
        invariant
            x@ == s@,
            i <= x.len(),
            forall|k: int| 0 <= k < i ==> x@[k] != c,
        decreases x.len() - i,
    {
        if x[i] == c {
            assert(s@[i as int] == c);
            return true;
        }
        i += 1;
    }
    false
}

/// Unicode `White_Space`: the characters that `str::trim` removes.
pub open spec fn is_white_space_char(c: char) -> bool {
    let u = c as u32;
    ||| 0x09 <= u <= 0x0D
    ||| u == 0x20
    ||| u == 0x85
    ||| u == 0xA0
    ||| u == 0x1680
    ||| 0x2000 <= u <= 0x200A
    ||| u == 0x2028
    ||| u == 0x2029
    ||| u == 0x202F
    ||| u == 0x205F
    ||| u == 0x3000
}

/// Whether `c` is Unicode white space.
pub fn is_white_space(c: char) -> (r: bool)
    ensures
        r == is_white_space_char(c),
{
    let u = c as u32;
    (0x09 <= u && u <= 0x0D) || u == 0x20 || u == 0x85 || u == 0xA0 || u == 0x1680 || (0x2000
        <= u && u <= 0x200A) || u == 0x2028 || u == 0x2029 || u == 0x202F || u == 0x205F || u
        == 0x3000
}

/// Index of the first character of `s` at or after `i` that is not white space
/// (`s.len()` when there is none).
pub open spec fn first_kept(s: Seq<char>, i: int) -> int
    decreases s.len() - i,
{
    if i < 0 || i >= s.len() {
        s.len() as int
    } else if is_white_space_char(s[i]) {
        first_kept(s, i + 1)
    } else {
        i
    }
}

/// One past the last character of `s` before `j` that is not white space, never
/// below `lo`.
pub open spec fn end_kept(s: Seq<char>, lo: int, j: int) -> int
    decreases j - lo,
{
    if j <= lo || j > s.len() {
        lo
    } else if is_white_space_char(s[j - 1]) {
        end_kept(s, lo, j - 1)
    } else {
        j
    }
}

/// `s` without its leading and trailing white space.
pub open spec fn trimmed(s: Seq<char>) -> Seq<char> {
    let a = first_kept(s, 0);
    s.subrange(a, end_kept(s, a, s.len() as int))
}

proof fn lemma_first_kept_bounds(s: Seq<char>, i: int)
    requires
        0 <= i <= s.len(),
    ensures
        i <= first_kept(s, i) <= s.len(),
    decreases s.len() - i,
{
    if i < s.len() && is_white_space_char(s[i]) {
        lemma_first_kept_bounds(s, i + 1);
    }
}

proof fn lemma_end_kept_bounds(s: Seq<char>, lo: int, j: int)
    requires
        0 <= lo <= j <= s.len(),
    ensures
        lo <= end_kept(s, lo, j) <= j,
    decreases j - lo,
{
    if j > lo && is_white_space_char(s[j - 1]) {
        lemma_end_kept_bounds(s, lo, j - 1);
    }
}

/// `s` with leading and trailing white space removed (std's `str::trim`).
pub fn trim(s: &str) -> (r: &str)
    ensures
        r@ == trimmed(s@),
{
    let x = chars_of(s);
    let n = x.len();
    let mut a: usize = 0;
    while a < n && is_white_space(x[a])
        invariant
            x@ == s@,
            n == x.len(),
            a <= n,
            first_kept(s@, a as int) == first_kept(s@, 0),
        decreases n - a,
    {
        a += 1;
    }
    let mut b: usize = n;
    proof {
        lemma_first_kept_bounds(s@, 0);
    }
    while b > a && is_white_space(x[b - 1])
        invariant
            x@ == s@,
            n == x.len(),
            a <= b <= n,
            a as int == first_kept(s@, 0),
            end_kept(s@, a as int, b as int) == end_kept(s@, a as int, n as int),
        decreases b - a,
    {
        b -= 1;
    }
    s.substring_char(a, b)
}

/// The length in bytes of the UTF-8 encoding of `s`, as `str::len` reports it.
pub open spec fn byte_len(s: Seq<char>) -> usize {
    vstd::utf8::encode_utf8(s).len() as usize
}

/// Whether `name`, trimmed, is between 1 and 50 characters long.
pub open spec fn name_len_ok(name: Seq<char>) -> bool {
    let t = trimmed(name);
    0 < t.len() <= 50
}

/// Trims `name` and checks that what is left is 1 to 50 characters long.
pub fn trimmed_name(name: &str) -> (r: Option<&str>)
    ensures
        r matches Some(t) ==> t@ == trimmed(name@),
        r is Some <==> name_len_ok(name@),
{
    let t = trim(name);
    let n = chars_of(t).len();
    if n == 0 || n > 50 {
        None
    } else {
        Some(t)
    }
}

/// The decimal digit for `d`.
pub open spec fn digit_char(d: int) -> char {
    if d == 0 {
        '0'
    } else if d == 1 {
        '1'
    } else if d == 2 {
        '2'
    } else if d == 3 {
        '3'
    } else if d == 4 {
        '4'
    } else if d == 5 {
        '5'
    } else if d == 6 {
        '6'
    } else if d == 7 {
        '7'
    } else if d == 8 {
        '8'
    } else {
        '9'
    }
}

/// The decimal digits of `n`, without leading zeros ("0" for zero).
pub open spec fn digits(n: nat) -> Seq<char>
    decreases n,
{
    if n < 10 {
        seq![digit_char(n as int)]
    } else {
        digits(n / 10).push(digit_char((n % 10) as int))
    }
}

/// `n` written in decimal, as `{}` writes an integer.
pub open spec fn decimal(n: int) -> Seq<char> {
    if n < 0 {
        seq!['-'] + digits((-n) as nat)
    } else {
        digits(n as nat)
    }
}

/// `k` zero characters.
pub open spec fn zeros(k: int) -> Seq<char> {
    Seq::new(if k > 0 { k as nat } else { 0 }, |i: int| '0')
}

/// `n` written in decimal, zero-padded after the sign to at least `w` characters,
/// as `{:0w}` writes an integer.
pub open spec fn zero_padded(n: int, w: int) -> Seq<char> {
    let sign = if n < 0 { seq!['-'] } else { Seq::<char>::empty() };
    let ds = if n < 0 { digits((-n) as nat) } else { digits(n as nat) };
    sign + zeros(w - sign.len() - ds.len()) + ds
}

fn digit_of(d: u64) -> (c: char)
    requires
        d < 10,
    ensures
        c == digit_char(d as int),
{
    if d == 0 {
        '0'
    } else if d == 1 {
        '1'
    } else if d == 2 {
        '2'
    } else if d == 3 {
        '3'
    } else if d == 4 {
        '4'
    } else if d == 5 {
        '5'
    } else if d == 6 {
        '6'
    } else if d == 7 {
        '7'
    } else if d == 8 {
        '8'
    } else {
        '9'
    }
}

proof fn lemma_digits_len(n: nat)
    ensures
        digits(n).len() >= 1,
    decreases n,
{
    if n >= 10 {
        lemma_digits_len(n / 10);
    }
}

/// The decimal digits of `n`.
pub fn digits_of(n: u64) -> (v: Vec<char>)
    ensures
        v@ == digits(n as nat),
    decreases n,
{
    if n < 10 {
        let mut v = Vec::new();
        v.push(digit_of(n));
        assert(v@ =~= seq![digit_char(n as int)]);
        v
    } else {
        let mut v = digits_of(n / 10);
        v.push(digit_of(n % 10));
        v
    }
}

fn magnitude(n: i64) -> (m: u64)
    ensures
        m as int == if n < 0 { -n } else { n as int },
{
    if n < 0 {
        if n == i64::MIN {
            9223372036854775808u64
        } else {
            (-n) as u64
        }
    } else {
        n as u64
    }
}

/// `n` written in decimal (what `n.to_string()` gives).
pub fn decimal_of(n: i64) -> (s: String)
    ensures
        s@ == decimal(n as int),
{
    let ds = digits_of(magnitude(n));
    let mut v: Vec<char> = Vec::new();
    if n < 0 {
        v.push('-');
    }
    let mut i: usize = 0;
    let ghost start = v@;
    while i < ds.len()
        invariant
            i <= ds.len(),
            v@ == start + ds@.take(i as int),
        decreases ds.len() - i,
    {
        v.push(ds[i]);
        i += 1;
        assert(ds@.take(i as int) == ds@.take((i - 1) as int).push(ds@[i - 1]));
    }
    assert(ds@.take(ds.len() as int) == ds@);
    assert(v@ =~= decimal(n as int));
    string_of(&v)
}

/// `n` written in decimal and zero-padded to at least `w` characters
/// (what `format!("{:0w$}", n)` gives).
pub fn zero_padded_of(n: i64, w: usize) -> (s: String)
    ensures
        s@ == zero_padded(n as int, w as int),
{
    let m = magnitude(n);
    let ds = digits_of(m);
    proof {
        lemma_digits_len(m as nat);
    }
    let mut v: Vec<char> = Vec::new();
    let sign_len: usize = if n < 0 { 1 } else { 0 };
    if n < 0 {
        v.push('-');
    }
    let ghost sign = v@;
    let mut pad: usize = if w > sign_len && w - sign_len > ds.len() {
        w - sign_len - ds.len()
    } else {
        0
    };
    let ghost total_pad = pad;
    while pad > 0
        invariant
            pad <= total_pad,
            v@ == sign + zeros(total_pad - pad),
        decreases pad,
    {
        v.push('0');
        pad -= 1;
        assert(zeros(total_pad - pad) =~= zeros(total_pad - pad - 1).push('0'));
    }
    let ghost padded = v@;
    let mut i: usize = 0;
    while i < ds.len()
        invariant
            i <= ds.len(),
            v@ == padded + ds@.take(i as int),
        decreases ds.len() - i,
    {
        v.push(ds[i]);
        i += 1;
        assert(ds@.take(i as int) == ds@.take((i - 1) as int).push(ds@[i - 1]));
    }
    assert(ds@.take(ds.len() as int) == ds@);
    assert(zeros(total_pad as int) =~= zeros(w - sign.len() - ds@.len()));
    assert(v@ =~= zero_padded(n as int, w as int));
    string_of(&v)
}

} // verus!

verus! {

/// A copy of an optional text.
pub fn copy_opt_text(o: &Option<String>) -> (r: Option<String>)
    ensures
        r == *o,
{
    match o {
        Some(s) => Some(s.clone()),
        None => None,
    }
}

/// The view of an optional text.
pub open spec fn opt_view(o: Option<String>) -> Option<Seq<char>> {
    match o {
        Some(s) => Some(s@),
        None => None,
    }
}

} // verus!

verus! {

/// Whether `needle` occurs in `hay` as a run of consecutive characters.
pub open spec fn has_substring(hay: Seq<char>, needle: Seq<char>) -> bool {
    exists|i: int|
        0 <= i && i + needle.len() <= hay.len() && #[trigger] hay.subrange(i, i + needle.len())
            == needle
}

fn matches_at(hay: &Vec<char>, needle: &Vec<char>, i: usize) -> (r: bool)
    requires
        i + needle.len() <= hay.len(),
    ensures
        r == (hay@.subrange(i as int, i + needle.len()) == needle@),
{
    let mut k: usize = 0;
    while k < needle.len()
        invariant
            i + needle.len() <= hay.len(),
            k <= needle.len(),
            forall|j: int| 0 <= j < k ==> hay@[i + j] == needle@[j],
        decreases needle.len() - k,
    {
        if hay[i + k] != needle[k] {
            assert(hay@.subrange(i as int, i + needle.len())[k as int] != needle@[k as int]);
            return false;
        }
        k += 1;
    }
    assert(hay@.subrange(i as int, i + needle.len()) =~= needle@);
    true
}

/// Whether `needle` occurs in `hay` (std's `str::contains` with a string pattern).
pub fn contains_text(hay: &str, needle: &str) -> (r: bool)
    ensures
        r == has_substring(hay@, needle@),
{
    let h = chars_of(hay);
    let n = chars_of(needle);
    if n.len() > h.len() {
        return false;
    }
    let last = h.len() - n.len();
    let mut i: usize = 0;
    loop
        invariant
            h@ == hay@,
            n@ == needle@,
            n.len() <= h.len(),
            last == h.len() - n.len(),
            i <= last,
            forall|j: int| 0 <= j < i ==> #[trigger] hay@.subrange(j, j + needle@.len()) != needle@,
        decreases last - i,
    {
        if matches_at(&h, &n, i) {
            return true;
        }
        if i == last {
            return false;
        }
        i += 1;
    }
}

} // verus!

verus! {

/// Whether `c` is an ASCII decimal digit.
pub open spec fn is_digit(c: char) -> bool {
    '0' <= c && c <= '9'
}

/// The value of the decimal digits `s` (all of which are digits).
pub open spec fn digits_value(s: Seq<char>) -> int
    decreases s.len(),
{
    if s.len() == 0 {
        0
    } else {
        digits_value(s.drop_last()) * 10 + (s.last() as int - '0' as int)
    }
}

/// Whether every character of `s` is a decimal digit.
pub open spec fn all_digits(s: Seq<char>) -> bool {
    forall|i: int| 0 <= i < s.len() ==> is_digit(#[trigger] s[i])
}

/// `s` without a leading `+` or `-`.
pub open spec fn unsigned_part(s: Seq<char>) -> Seq<char> {
    if s.len() > 0 && (s[0] == '-' || s[0] == '+') {
        s.drop_first()
    } else {
        s
    }
}

/// What `str::parse::<i64>` gives for `s`: an optional `+` or `-` followed by at least one
/// decimal digit and nothing else, with a value that fits in an `i64`.
pub open spec fn parsed_i64(s: Seq<char>) -> Option<i64> {
    let body = unsigned_part(s);
    if body.len() == 0 || !all_digits(body) {
        None
    } else {
        let v = if s[0] == '-' {
            -digits_value(body)
        } else {
            digits_value(body)
        };
        if i64::MIN <= v <= i64::MAX {
            Some(v as i64)
        } else {
            None
        }
    }
}

proof fn lemma_digits_value_nonneg(s: Seq<char>)
    requires
        forall|i: int| 0 <= i < s.len() ==> is_digit(#[trigger] s[i]),
    ensures
        digits_value(s) >= 0,
    decreases s.len(),
{
    if s.len() > 0 {
        assert forall|i: int| 0 <= i < s.drop_last().len() implies is_digit(
            #[trigger] s.drop_last()[i],
        ) by {
            assert(s.drop_last()[i] == s[i]);
        }
        lemma_digits_value_nonneg(s.drop_last());
        assert(is_digit(s[s.len() - 1]));
    }
}

/// Parses a decimal `i64` as `str::parse::<i64>` does.
pub fn parse_i64(s: &str) -> (r: Option<i64>)
    ensures
        r == parsed_i64(s@),
{
    let cs = chars_of(s);
    let neg = cs.len() > 0 && cs[0] == '-';
    let start: usize = if cs.len() > 0 && (cs[0] == '-' || cs[0] == '+') {
        1
    } else {
        0
    };
    let ghost body = unsigned_part(s@);
    assert(body =~= cs@.subrange(start as int, cs@.len() as int));
    if start >= cs.len() {
        return None;
    }
    let cap: i128 = 0x1_0000_0000_0000_0000;
    let mut acc: i128 = 0;
    let mut i: usize = start;
    while i < cs.len()
        invariant
            cs@ == s@,
            start <= i <= cs.len(),
            body =~= cs@.subrange(start as int, cs@.len() as int),
            body == unsigned_part(s@),
            neg == (s@.len() > 0 && s@[0] == '-'),
            forall|k: int| 0 <= k < i - start ==> is_digit(#[trigger] body[k]),
            acc == if digits_value(body.take(i - start)) < cap {
                digits_value(body.take(i - start))
            } else {
                cap as int
            },
            cap == 0x1_0000_0000_0000_0000,
            0 <= acc <= cap,
        decreases cs.len() - i,
    {
        let c = cs[i];
        assert(body[i - start] == cs@[i as int]);
        if !('0' <= c && c <= '9') {
            assert(!is_digit(body[i - start]));
            assert(!all_digits(body));
            return None;
        }
        proof {
            assert forall|k: int| 0 <= k < i - start + 1 implies is_digit(
                #[trigger] body.take(i - start + 1)[k],
            ) by {
                assert(body.take(i - start + 1)[k] == body[k]);
            }
            lemma_digits_value_nonneg(body.take(i - start + 1));
        }
        let d = (c as u32 - '0' as u32) as i128;
        proof {
            assert(body.take(i - start + 1).drop_last() =~= body.take(i - start));
            assert(body.take(i - start + 1).last() == c);
        }
        let next = acc * 10 + d;
        acc = if next < cap {
            next
        } else {
            cap
        };
        i += 1;
    }
    assert(body.take(body.len() as int) =~= body);
    assert(body.take((cs.len() - start) as int) =~= body);
    if neg {
        if acc <= 0x8000_0000_0000_0000 {
            Some((-acc) as i64)
        } else {
            None
        }
    } else {
        if acc <= 0x7fff_ffff_ffff_ffff {
            Some(acc as i64)
        } else {
            None
        }
    }
}

/// The decimal digits of `n` are digits, worth `n`.
pub proof fn lemma_digits_value(n: nat)
    ensures
        all_digits(digits(n)),
        digits(n).len() > 0,
        digits_value(digits(n)) == n,
    decreases n,
{
    let d = if n < 10 { n as int } else { (n % 10) as int };
    assert(is_digit(digit_char(d)) && digit_char(d) as int - '0' as int == d);
    if n < 10 {
        assert(digits(n).drop_last() =~= Seq::<char>::empty());
        assert(digits(n).last() == digit_char(d));
        assert(digits_value(digits(n)) == digits_value(digits(n).drop_last()) * 10 + d);
    } else {
        lemma_digits_value(n / 10);
        assert(digits(n).drop_last() =~= digits(n / 10));
        assert(digits(n).last() == digit_char(d));
        vstd::arithmetic::div_mod::lemma_fundamental_div_mod(n as int, 10);
        assert(digits_value(digits(n)) == digits_value(digits(n / 10)) * 10 + d);
        assert((n / 10) as int * 10 == 10 * (n / 10) as int) by (nonlinear_arith);
        assert forall|i: int| 0 <= i < digits(n).len() implies is_digit(#[trigger] digits(n)[i]) by {
            if i < digits(n).len() - 1 {
                assert(digits(n)[i] == digits(n / 10)[i]);
            }
        }
    }
}

/// Parsing an integer written in decimal gives it back.
pub proof fn lemma_decimal_parses(n: i64)
    ensures
        parsed_i64(decimal(n as int)) == Some(n),
{
    if n < 0 {
        let m = (-(n as int)) as nat;
        lemma_digits_value(m);
        assert((seq!['-'] + digits(m)).drop_first() =~= digits(m));
        assert((seq!['-'] + digits(m))[0] == '-');
    } else {
        lemma_digits_value(n as nat);
        assert(is_digit(digits(n as nat)[0]));
    }
}

/// Whether `a` comes before `b` in the order the store compares texts in: at the first
/// character where they differ the smaller one wins, and a proper prefix comes first.
pub open spec fn text_lt(a: Seq<char>, b: Seq<char>) -> bool
    decreases a.len(),
{
    if a.len() == 0 {
        b.len() > 0
    } else if b.len() == 0 {
        false
    } else if a[0] != b[0] {
        a[0] < b[0]
    } else {
        text_lt(a.drop_first(), b.drop_first())
    }
}

/// Texts that start with parts of the same length compare by those parts when the parts
/// differ, and by the rest when they are the same.
pub proof fn lemma_text_lt_parts(x: Seq<char>, y: Seq<char>, a: Seq<char>, b: Seq<char>)
    requires
        x.len() == y.len(),
    ensures
        text_lt(x + a, y + b) == if x == y {
            text_lt(a, b)
        } else {
            text_lt(x, y)
        },
    decreases x.len(),
{
    if x.len() == 0 {
        assert(x =~= y);
        assert(x + a =~= a);
        assert(y + b =~= b);
    } else {
        assert((x + a)[0] == x[0]);
        assert((y + b)[0] == y[0]);
        if x[0] == y[0] {
            assert((x + a).drop_first() =~= x.drop_first() + a);
            assert((y + b).drop_first() =~= y.drop_first() + b);
            lemma_text_lt_parts(x.drop_first(), y.drop_first(), a, b);
            if x.drop_first() == y.drop_first() {
                assert forall|i: int| 0 <= i < x.len() implies x[i] == y[i] by {
                    if i > 0 {
                        assert(x[i] == x.drop_first()[i - 1]);
                        assert(y[i] == y.drop_first()[i - 1]);
                    }
                }
                assert(x =~= y);
            } else {
                assert(x != y) by {
                    if x == y {
                        assert(x.drop_first() =~= y.drop_first());
                    }
                }
            }
        } else {
            assert(x != y);
        }
    }
}

/// Ten to the power `k`.
pub open spec fn pow10(k: nat) -> nat
    decreases k,
{
    if k == 0 {
        1
    } else {
        10 * pow10((k - 1) as nat)
    }
}

/// The last `k` decimal digits of `n`, with leading zeros.
pub open spec fn fixed_digits(n: nat, k: nat) -> Seq<char>
    decreases k,
{
    if k == 0 {
        Seq::empty()
    } else {
        fixed_digits(n / 10, (k - 1) as nat).push(digit_char((n % 10) as int))
    }
}

proof fn lemma_digit_char_order(a: int, b: int)
    requires
        0 <= a <= 9,
        0 <= b <= 9,
    ensures
        (digit_char(a) < digit_char(b)) == (a < b),
        (digit_char(a) == digit_char(b)) == (a == b),
{
    assert(digit_char(a) as int == 48 + a);
    assert(digit_char(b) as int == 48 + b);
}

/// Numbers below `10^k` written with `k` digits compare as texts as they compare as
/// numbers, and are written alike only when equal.
pub proof fn lemma_fixed_digits_order(n: nat, m: nat, k: nat)
    requires
        n < pow10(k),
        m < pow10(k),
    ensures
        fixed_digits(n, k).len() == k,
        text_lt(fixed_digits(n, k), fixed_digits(m, k)) == (n < m),
        (fixed_digits(n, k) == fixed_digits(m, k)) == (n == m),
    decreases k,
{
    if k == 0 {
        assert(fixed_digits(n, k) =~= fixed_digits(m, k));
    } else {
        let j = (k - 1) as nat;
        let p = pow10(j);
        assert(n / 10 < p && m / 10 < p) by (nonlinear_arith)
            requires
                n < 10 * p,
                m < 10 * p,
        ;
        lemma_fixed_digits_order(n / 10, m / 10, j);
        lemma_fixed_digits_order(m / 10, n / 10, j);
        let fa = fixed_digits(n / 10, j);
        let fb = fixed_digits(m / 10, j);
        let ca = digit_char((n % 10) as int);
        let cb = digit_char((m % 10) as int);
        assert(fixed_digits(n, k) =~= fa + seq![ca]);
        assert(fixed_digits(m, k) =~= fb + seq![cb]);
        lemma_text_lt_parts(fa, fb, seq![ca], seq![cb]);
        lemma_digit_char_order((n % 10) as int, (m % 10) as int);
        assert(seq![ca].drop_first() =~= Seq::<char>::empty());
        assert(seq![cb].drop_first() =~= Seq::<char>::empty());
        assert(!text_lt(Seq::<char>::empty(), Seq::<char>::empty()));
        assert(seq![ca][0] == ca && seq![cb][0] == cb);
        assert(text_lt(seq![ca], seq![cb]) == (ca < cb));
        vstd::arithmetic::div_mod::lemma_fundamental_div_mod(n as int, 10);
        vstd::arithmetic::div_mod::lemma_fundamental_div_mod(m as int, 10);
        if fa + seq![ca] == fb + seq![cb] {
            assert((fa + seq![ca]).drop_last() =~= fa);
            assert((fb + seq![cb]).drop_last() =~= fb);
            assert((fa + seq![ca]).last() == ca);
            assert((fb + seq![cb]).last() == cb);
        }
    }
}

proof fn lemma_fixed_digits_of_zero(k: nat)
    ensures
        fixed_digits(0, k) =~= zeros(k as int),
    decreases k,
{
    if k > 0 {
        lemma_fixed_digits_of_zero((k - 1) as nat);
    }
}

/// A number below `10^w` zero-padded to `w` characters is its `w` last digits.
pub proof fn lemma_zero_padded_fixed(n: nat, w: nat)
    requires
        w >= 1,
        n < pow10(w),
    ensures
        zero_padded(n as int, w as int) == fixed_digits(n, w),
    decreases w,
{
    let j = (w - 1) as nat;
    if n < 10 {
        lemma_fixed_digits_of_zero(j);
        assert(zero_padded(n as int, w as int) =~= fixed_digits(n, w));
    } else {
        assert(j >= 1) by {
            if j == 0 {
                reveal_with_fuel(pow10, 2);
                assert(pow10(w) == 10);
            }
        }
        let p = pow10(j);
        assert(n / 10 < p) by (nonlinear_arith)
            requires
                n < 10 * p,
        ;
        lemma_zero_padded_fixed(n / 10, j);
        lemma_digits_len(n / 10);
        assert(digits(n) =~= digits(n / 10).push(digit_char((n % 10) as int)));
        assert(zero_padded(n as int, w as int) =~= fixed_digits(n, w));
    }
}

} // verus!
