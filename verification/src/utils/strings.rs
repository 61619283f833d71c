//! Text primitives with exact contracts, and the two string rules of the
//! service: random short keys and the public host of a request.

use rand::Rng;
use vstd::prelude::*;
use vstd::std_specs::iter::IteratorSpec;
use vstd::string::*;

verus! {

/// `p` is the beginning of `s`.
pub open spec fn has_prefix(s: Seq<char>, p: Seq<char>) -> bool {
    p.len() <= s.len() && s.subrange(0, p.len() as int) == p
}

/// `p` stands in `s` at position `i`.
pub open spec fn occurs_at(s: Seq<char>, p: Seq<char>, i: int) -> bool {
    0 <= i && i + p.len() <= s.len() && s.subrange(i, i + p.len()) == p
}

/// `p` stands somewhere in `s`.
pub open spec fn has_infix(s: Seq<char>, p: Seq<char>) -> bool {
    exists|i: int| occurs_at(s, p, i)
}

/// The view of a string that may be missing.
pub open spec fn opt_view(s: Option<&str>) -> Option<Seq<char>> {
    match s {
        Some(s) => Some(s@),
        None => None,
    }
}

/// The view of an owned string that may be missing.
pub open spec fn opt_string_view(s: Option<String>) -> Option<Seq<char>> {
    match s {
        Some(s) => Some(s@),
        None => None,
    }
}

/// The characters of `s`, in order.
pub fn chars_of(s: &str) -> (v: Vec<char>)
    ensures
        v@ == s@,
{
    let total = s.unicode_len();
    let mut v: Vec<char> = Vec::new();
    let mut chars = s.chars();
    loop
        invariant
            chars.obeys_prophetic_iter_laws(),
            chars.decrease() is Some,
            total == s@.len(),
            v@.len() <= s@.len(),
            chars.remaining() == s@.skip(v@.len() as int),
            v@ == s@.take(v@.len() as int),
        decreases chars.decrease()->0,
    {
        let ghost done = v@.len() as int;
        match chars.next() {
            Some(c) => {
                v.push(c);
                proof {
                    assert(s@.skip(done).drop_first() == s@.skip(done + 1));
                    assert(s@.take(done).push(c) == s@.take(done + 1));
                }
            },
            None => {
                proof {
                    assert(s@.take(done) == s@);
                }
                return v;
            },
        }
    }
}

/// Whether `s[at..]` begins with `p`, on character vectors.
fn matches_at(s: &Vec<char>, p: &Vec<char>, at: usize) -> (b: bool)
    requires
        at + p@.len() <= s@.len(),
    ensures
        b == occurs_at(s@, p@, at as int),
{
    let n = s.len();
    let mut j: usize = 0;
    while j < p.len()
        invariant
            j <= p@.len(),
            at + p@.len() <= s@.len() == n,
            forall|k: int| 0 <= k < j ==> s@[at + k] == p@[k],
        decreases p@.len() - j,
    {
        if s[at + j] != p[j] {
            proof {
                let w = s@.subrange(at as int, at + p@.len());
                assert(w[j as int] == s@[at + j]);
            }
            return false;
        }
        j = j + 1;
    }
    proof {
        assert(s@.subrange(at as int, at + p@.len()) =~= p@);
    }
    true
}

/// Whether `s` begins with `prefix`.
pub fn starts_with(s: &str, prefix: &str) -> (b: bool)
    ensures
        b == has_prefix(s@, prefix@),
{
    let sv = chars_of(s);
    let pv = chars_of(prefix);
    if pv.len() > sv.len() {
        return false;
    }
    matches_at(&sv, &pv, 0)
}

/// Whether `needle` stands somewhere in `s`. The empty needle stands in
/// every string.
pub fn contains(s: &str, needle: &str) -> (b: bool)
    ensures
        b == has_infix(s@, needle@),
{
    let sv = chars_of(s);
    let nv = chars_of(needle);
    if nv.len() > sv.len() {
        return false;
    }
    let last = sv.len() - nv.len();
    let mut i: usize = 0;
    loop
        invariant
            i <= last,
            last == sv@.len() - nv@.len(),
            sv@ == s@,
            nv@ == needle@,
            forall|k: int| 0 <= k < i ==> !occurs_at(s@, needle@, k),
        decreases last - i,
    {
        if matches_at(&sv, &nv, i) {
            return true;
        }
        if i == last {
            return false;
        }
        i = i + 1;
    }
}

/// Whether `a` and `b` hold the same characters.
pub fn str_eq(a: &str, b: &str) -> (equal: bool)
    ensures
        equal == (a@ == b@),
{
    String::from_str(a) == String::from_str(b)
}

/// `head` followed by `tail`.
pub fn join(head: &str, tail: &str) -> (r: String)
    ensures
        r@ == head@ + tail@,
{
    let mut r = String::from_str(head);
    r.append(tail);
    r
}

/// The position of the first `c` in `s`, or the length of `s` where `c`
/// does not occur.
pub open spec fn first_index_of(s: Seq<char>, c: char) -> int
    decreases s.len(),
{
    if s.len() == 0 || s[0] == c {
        0
    } else {
        1 + first_index_of(s.skip(1), c)
    }
}

/// The pieces of `s` between occurrences of `sep`. There is always one piece
/// more than there are separators: the empty string has one empty piece.
pub open spec fn split_on(s: Seq<char>, sep: char) -> Seq<Seq<char>>
    decreases s.len(),
{
    let i = first_index_of(s, sep);
    if 0 <= i < s.len() {
        seq![s.take(i)] + split_on(s.skip(i + 1), sep)
    } else {
        seq![s]
    }
}

/// `first_index_of` finds a separator that nothing before it equals, and the
/// end of a string without one.
pub proof fn lemma_first_index_of(s: Seq<char>, c: char, k: int)
    requires
        0 <= k <= s.len(),
        forall|j: int| 0 <= j < k ==> s[j] != c,
        k < s.len() ==> s[k] == c,
    ensures
        first_index_of(s, c) == k,
    decreases s.len(),
{
    if s.len() == 0 || s[0] == c {
    } else {
        let t = s.skip(1);
        assert forall|j: int| 0 <= j < k - 1 implies t[j] != c by {
            assert(t[j] == s[j + 1]);
        }
        lemma_first_index_of(t, c, k - 1);
    }
}

/// The views of a vector of strings.
pub open spec fn views_of(v: Seq<String>) -> Seq<Seq<char>> {
    v.map_values(|s: String| s@)
}

/// Splits `s` at every `sep`, as `str::split` does for a single character.
pub fn split(s: &str, sep: char) -> (pieces: Vec<String>)
    ensures
        views_of(pieces@) == split_on(s@, sep),
{
    let sv = chars_of(s);
    let n = sv.len();
    let mut pieces: Vec<String> = Vec::new();
    let mut start: usize = 0;
    let mut i: usize = 0;
    proof {
        assert(s@.skip(0) == s@);
        assert(views_of(pieces@) + split_on(s@, sep) == split_on(s@, sep));
    }
    while i < n
        invariant
            start <= i <= n,
            n == sv@.len(),
            sv@ == s@,
            forall|j: int| start <= j < i ==> s@[j] != sep,
            split_on(s@, sep) == views_of(pieces@) + split_on(s@.skip(start as int), sep),
        decreases n - i,
    {
        if sv[i] == sep {
            let piece = String::from_str(s.substring_char(start, i));
            proof {
                let rest = s@.skip(start as int);
                assert forall|j: int| 0 <= j < i - start implies rest[j] != sep by {
                    assert(rest[j] == s@[start + j]);
                }
                lemma_first_index_of(rest, sep, i - start);
                assert(rest.take(i - start) == s@.subrange(start as int, i as int));
                assert(rest.skip(i - start + 1) == s@.skip(i + 1));
                assert(views_of(pieces@.push(piece)) == views_of(pieces@).push(piece@));
                assert(views_of(pieces@).push(piece@) + split_on(s@.skip(i + 1), sep) == views_of(
                    pieces@,
                ) + (seq![piece@] + split_on(s@.skip(i + 1), sep)));
            }
            pieces.push(piece);
            start = i + 1;
        }
        i = i + 1;
    }
    let piece = String::from_str(s.substring_char(start, n));
    proof {
        let rest = s@.skip(start as int);
        assert forall|j: int| 0 <= j < n - start implies rest[j] != sep by {
            assert(rest[j] == s@[start + j]);
        }
        lemma_first_index_of(rest, sep, n - start);
        assert(rest == s@.subrange(start as int, n as int));
        assert(views_of(pieces@.push(piece)) == views_of(pieces@).push(piece@));
        assert(views_of(pieces@).push(piece@) == views_of(pieces@) + seq![piece@]);
    }
    pieces.push(piece);
    pieces
}

/// The decimal digit for `d`, which is below ten.
pub open spec fn digit_char(d: int) -> char {
    if d == 0 {
        '0'
    } else if d == 1 {
        '1'
    } else if d == 2 {
        '2'
    } else if d == 3 {
        '3'
    } else if d == 4 {
        '4'
    } else if d == 5 {
        '5'
    } else if d == 6 {
        '6'
    } else if d == 7 {
        '7'
    } else if d == 8 {
        '8'
    } else {
        '9'
    }
}

/// `n` in decimal, without leading zeros.
pub open spec fn decimal(n: nat) -> Seq<char>
    decreases n,
{
    if n < 10 {
        seq![digit_char(n as int)]
    } else {
        decimal(n / 10).push(digit_char((n % 10) as int))
    }
}

/// `n` in decimal, with a minus sign in front of a negative number.
pub open spec fn signed_decimal(n: int) -> Seq<char> {
    if n < 0 {
        seq!['-'] + decimal((-n) as nat)
    } else {
        decimal(n as nat)
    }
}

/// The one-character string for the digit `d`.
fn digit_str(d: u64) -> (r: &'static str)
    requires
        d < 10,
    ensures
        r@ == seq![digit_char(d as int)],
{
    let digits: &'static str = "0123456789";
    proof {
        reveal_strlit("0123456789");
    }
    let r = digits.substring_char(d as usize, d as usize + 1);
    assert(r@ =~= seq![digit_char(d as int)]);
    r
}

/// Formats `n` in decimal.
pub fn u64_to_string(n: u64) -> (r: String)
    ensures
        r@ == decimal(n as nat),
    decreases n,
{
    if n < 10 {
        String::from_str(digit_str(n))
    } else {
        let mut r = u64_to_string(n / 10);
        r.append(digit_str(n % 10));
        r
    }
}

/// Formats `n` in decimal, with a minus sign where it is negative.
pub fn i64_to_string(n: i64) -> (r: String)
    ensures
        r@ == signed_decimal(n as int),
{
    if n >= 0 {
        u64_to_string(n as u64)
    } else {
        let magnitude: u64 = (-(n + 1)) as u64 + 1;
        proof {
            reveal_strlit("-");
            assert("-"@ =~= seq!['-']);
        }
        let digits = u64_to_string(magnitude);
        join("-", digits.as_str())
    }
}

/// Whether `c` is one of `0` to `9`.
pub open spec fn is_digit(c: char) -> bool {
    '0' <= c && c <= '9'
}

/// The number that the digit `c` stands for.
pub open spec fn digit_value(c: char) -> int {
    c as int - '0' as int
}

/// The number that a string of digits stands for.
pub open spec fn digits_value(s: Seq<char>) -> nat
    decreases s.len(),
{
    if s.len() == 0 {
        0
    } else if is_digit(s.last()) {
        (digits_value(s.drop_last()) * 10 + digit_value(s.last())) as nat
    } else {
        digits_value(s.drop_last()) * 10
    }
}

/// Every character of `s` is a digit.
pub open spec fn all_digits(s: Seq<char>) -> bool {
    forall|i: int| 0 <= i < s.len() ==> is_digit(#[trigger] s[i])
}

/// What a string stands for as a 16-bit unsigned number: an optional `+`,
/// then at least one digit, and a value of at most 65535.
pub open spec fn parse_u16_spec(s: Seq<char>) -> Option<u16> {
    let body = if s.len() > 0 && s[0] == '+' {
        s.skip(1)
    } else {
        s
    };
    if body.len() > 0 && all_digits(body) && digits_value(body) <= 65535 {
        Some(digits_value(body) as u16)
    } else {
        None
    }
}

/// A number grows with every digit appended to it.
pub proof fn lemma_digits_value_grows(s: Seq<char>, k: int)
    requires
        0 <= k <= s.len(),
    ensures
        digits_value(s.take(k)) <= digits_value(s),
    decreases s.len() - k,
{
    if k < s.len() {
        lemma_digits_value_grows(s, k + 1);
        assert(s.take(k + 1).drop_last() == s.take(k));
    } else {
        assert(s.take(k) == s);
    }
}

/// Reads a 16-bit unsigned number as `str::parse::<u16>` does.
pub fn parse_u16(s: &str) -> (r: Option<u16>)
    ensures
        r == parse_u16_spec(s@),
{
    let sv = chars_of(s);
    let n = sv.len();
    let start: usize = if n > 0 && sv[0] == '+' {
        1
    } else {
        0
    };
    if start == n {
        return None;
    }
    let ghost body = s@.skip(start as int);
    proof {
        assert(s@.skip(0) == s@);
    }
    let mut value: u32 = 0;
    let mut i: usize = start;
    while i < n
        invariant
            start <= i <= n,
            start < n,
            n == sv@.len(),
            sv@ == s@,
            body == s@.skip(start as int),
            body == if s@.len() > 0 && s@[0] == '+' {
                s@.skip(1)
            } else {
                s@
            },
            all_digits(body.take(i - start)),
            value == digits_value(body.take(i - start)),
            value <= 65535,
        decreases n - i,
    {
        let c = sv[i];
        proof {
            assert(body[i - start] == c);
            assert(body.take(i - start + 1).drop_last() == body.take(i - start));
            assert(body.take(i - start + 1).last() == c);
        }
        if !(c >= '0' && c <= '9') {
            return None;
        }
        let d: u32 = c as u32 - '0' as u32;
        value = value * 10 + d;
        assert(value == digits_value(body.take(i - start + 1)));
        if value > 65535 {
            proof {
                lemma_digits_value_grows(body, i - start + 1);
            }
            return None;
        }
        proof {
            assert forall|j: int| 0 <= j < i - start + 1 implies is_digit(
                #[trigger] body.take(i - start + 1)[j],
            ) by {
                if j < i - start {
                    assert(body.take(i - start)[j] == body[j]);
                }
            }
        }
        i = i + 1;
    }
    proof {
        assert(body.take(n - start) == body);
    }
    Some(value as u16)
}

/// Whether `c` may stand in a generated key: a lower-case letter or a digit.
pub open spec fn is_key_char(c: char) -> bool {
    ('a' <= c && c <= 'z') || ('0' <= c && c <= '9')
}

/// Draws a number below `bound` by `rand::Rng::gen_range` on the generator of
/// the calling thread, with the range `0..bound`. The contract claims only
/// what holds of every draw: the number lies in the range. An empty range
/// makes `gen_range` panic, so `bound` is positive.
#[verifier::external_body]
fn random_below(bound: usize) -> (r: usize)
    requires
        bound > 0,
    ensures
        r < bound,
{
    rand::thread_rng().gen_range(0..bound)
}

/// The characters that a generated key is made of: the lower-case letters
/// and the digits.
pub open spec fn key_alphabet() -> Seq<char> {
    "abcdefghijklmnopqrstuvwxyz0123456789"@
}

/// Every character of the alphabet may stand in a key, and there are 36.
pub proof fn lemma_key_alphabet()
    ensures
        key_alphabet().len() == 36,
        forall|k: int| 0 <= k < 36 ==> is_key_char(#[trigger] key_alphabet()[k]),
{
    reveal_strlit("abcdefghijklmnopqrstuvwxyz0123456789");
}

/// The key that a sequence of draws stands for: each draw picks the
/// character of the alphabet at its place, counted round the alphabet.
pub open spec fn key_of(picks: Seq<usize>) -> Seq<char> {
    Seq::new(picks.len(), |i: int| key_alphabet()[picks[i] as int % 36])
}

/// See [`key_of`].
pub fn key_of_picks(picks: &Vec<usize>) -> (key: String)
    ensures
        key@ == key_of(picks@),
{
    let alphabet: &'static str = "abcdefghijklmnopqrstuvwxyz0123456789";
    proof {
        lemma_key_alphabet();
    }
    let mut key = String::new();
    let mut n: usize = 0;
    while n < picks.len()
        invariant
            n <= picks@.len(),
            alphabet@ == key_alphabet(),
            alphabet@.len() == 36,
            key@ == key_of(picks@.take(n as int)),
        decreases picks@.len() - n,
    {
        let pick = picks[n] % 36;
        let one = alphabet.substring_char(pick, pick + 1);
        let ghost before = key@;
        key.append(one);
        proof {
            assert(one@ =~= seq![key_alphabet()[pick as int]]);
            assert(key@ =~= key_of(picks@.take(n + 1)));
        }
        n = n + 1;
    }
    proof {
        assert(picks@.take(n as int) == picks@);
    }
    key
}

/// A random string of `length` characters, each a lower-case letter or a
/// digit, every one of the 36 equally likely.
pub fn generate_random_string(length: usize) -> (r: String)
    ensures
        r@.len() == length,
        forall|i: int| 0 <= i < r@.len() ==> is_key_char(#[trigger] r@[i]),
{
    let mut picks: Vec<usize> = Vec::new();
    while picks.len() < length
        invariant
            picks@.len() <= length,
        decreases length - picks@.len(),
    {
        picks.push(random_below(36));
    }
    let r = key_of_picks(&picks);
    proof {
        lemma_key_alphabet();
    }
    r
}

/// The public address of the service as a request's `Host` header gives it.
///
/// Without `add_proto` it is the header as it stands. With it, a host that
/// mentions `localhost` becomes `http://localhost:8080`, one that already
/// begins with `http` stays, and any other gets `https://` in front.
pub open spec fn host_with_proto(host: Seq<char>, add_proto: bool) -> Seq<char> {
    if !add_proto {
        host
    } else if has_infix(host, "localhost"@) {
        "http://localhost:8080"@
    } else if has_prefix(host, "http"@) {
        host
    } else {
        "https://"@ + host
    }
}

/// See [`host_with_proto`].
pub fn get_host_header(host: &str, add_proto: bool) -> (r: String)
    ensures
        r@ == host_with_proto(host@, add_proto),
{
    if !add_proto {
        String::from_str(host)
    } else if contains(host, "localhost") {
        String::from_str("http://localhost:8080")
    } else if starts_with(host, "http") {
        String::from_str(host)
    } else {
        join("https://", host)
    }
}

} // verus!
