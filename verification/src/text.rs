//! Character classes and string shaping shared by the value objects: trimming by
//! Unicode whitespace, ASCII classes, control characters, and the scan for the
//! first character that breaks a rule.

use vstd::prelude::*;

verus! {

/// Unicode `White_Space`, the set that `char::is_whitespace` tests.
pub open spec fn is_ws(c: char) -> bool {
    let x = c as u32;
    (0x9 <= x && x <= 0xD) || x == 0x20 || x == 0x85 || x == 0xA0 || x == 0x1680 || (0x2000 <= x
        && x <= 0x200A) || x == 0x2028 || x == 0x2029 || x == 0x202F || x == 0x205F || x == 0x3000
}

/// General category `Cc`, the set that `char::is_control` tests.
pub open spec fn is_cntrl(c: char) -> bool {
    let x = c as u32;
    x <= 0x1F || (0x7F <= x && x <= 0x9F)
}

pub open spec fn is_lower(c: char) -> bool {
    'a' <= c && c <= 'z'
}

pub open spec fn is_upper(c: char) -> bool {
    'A' <= c && c <= 'Z'
}

pub open spec fn is_digit(c: char) -> bool {
    '0' <= c && c <= '9'
}

pub open spec fn is_alnum(c: char) -> bool {
    is_lower(c) || is_upper(c) || is_digit(c)
}

/// A character of the URL-safe token alphabet `A-Za-z0-9-_`.
pub open spec fn is_token_char(c: char) -> bool {
    is_alnum(c) || c == '-' || c == '_'
}

/// ASCII lowercase of one character; every other character is kept.
pub open spec fn lower_char(c: char) -> char {
    if is_upper(c) {
        ((c as u32) + 32) as char
    } else {
        c
    }
}

pub open spec fn lower_seq(s: Seq<char>) -> Seq<char> {
    s.map_values(|c: char| lower_char(c))
}

/// `s` without its leading whitespace.
pub open spec fn trim_start_seq(s: Seq<char>) -> Seq<char>
    decreases s.len(),
{
    if s.len() > 0 && is_ws(s[0]) {
        trim_start_seq(s.drop_first())
    } else {
        s
    }
}

/// `s` without its trailing whitespace.
pub open spec fn trim_end_seq(s: Seq<char>) -> Seq<char>
    decreases s.len(),
{
    if s.len() > 0 && is_ws(s.last()) {
        trim_end_seq(s.drop_last())
    } else {
        s
    }
}

/// `s` without leading and trailing whitespace (what `str::trim` gives).
pub open spec fn trim_seq(s: Seq<char>) -> Seq<char> {
    trim_end_seq(trim_start_seq(s))
}

/// The first index at or after `from` whose character fails `ok`.
pub open spec fn first_bad(s: Seq<char>, ok: spec_fn(int, char) -> bool, from: nat) -> Option<
    nat,
>
    decreases s.len() - from,
{
    if from >= s.len() {
        None
    } else if !ok(from as int, s[from as int]) {
        Some(from)
    } else {
        first_bad(s, ok, from + 1)
    }
}

pub proof fn lemma_first_bad_none(s: Seq<char>, ok: spec_fn(int, char) -> bool, from: nat)
    requires
        first_bad(s, ok, from) is None,
    ensures
        forall|k: int| from <= k < s.len() ==> #[trigger] ok(k, s[k]),
    decreases s.len() - from,
{
    if from < s.len() {
        lemma_first_bad_none(s, ok, from + 1);
    }
}

pub proof fn lemma_first_bad_some(s: Seq<char>, ok: spec_fn(int, char) -> bool, from: nat)
    requires
        first_bad(s, ok, from) is Some,
    ensures
        from <= first_bad(s, ok, from)->0 < s.len(),
        !ok(first_bad(s, ok, from)->0 as int, s[first_bad(s, ok, from)->0 as int]),
        forall|k: int| from <= k < first_bad(s, ok, from)->0 ==> #[trigger] ok(k, s[k]),
    decreases s.len() - from,
{
    if from < s.len() && ok(from as int, s[from as int]) {
        lemma_first_bad_some(s, ok, from + 1);
    }
}

pub fn is_whitespace(c: char) -> (b: bool)
    ensures
        b == is_ws(c),
{
    let x = c as u32;
    (0x9 <= x && x <= 0xD) || x == 0x20 || x == 0x85 || x == 0xA0 || x == 0x1680 || (0x2000 <= x
        && x <= 0x200A) || x == 0x2028 || x == 0x2029 || x == 0x202F || x == 0x205F || x == 0x3000
}

pub fn is_control(c: char) -> (b: bool)
    ensures
        b == is_cntrl(c),
{
    let x = c as u32;
    x <= 0x1F || (0x7F <= x && x <= 0x9F)
}

pub fn is_ascii_lowercase(c: char) -> (b: bool)
    ensures
        b == is_lower(c),
{
    'a' <= c && c <= 'z'
}

pub fn is_ascii_digit(c: char) -> (b: bool)
    ensures
        b == is_digit(c),
{
    '0' <= c && c <= '9'
}

pub fn is_ascii_alphanumeric(c: char) -> (b: bool)
    ensures
        b == is_alnum(c),
{
    ('a' <= c && c <= 'z') || ('A' <= c && c <= 'Z') || ('0' <= c && c <= '9')
}

/// The characters of `s`, in order.
pub fn chars_of(s: &str) -> (v: Vec<char>)
    ensures
        v@ == s@,
{
    let mut v: Vec<char> = Vec::new();
    for c in it: s.chars()
        invariant
            v@ == it.seq().take(it.index() as int),
            it.seq() == s@,
    {
        v.push(c);
    }
    v
}

proof fn lemma_trim_start_step(s: Seq<char>, i: int)
    requires
        0 <= i < s.len(),
        is_ws(s[i]),
    ensures
        trim_start_seq(s.subrange(i, s.len() as int)) == trim_start_seq(
            s.subrange(i + 1, s.len() as int),
        ),
{
    assert(s.subrange(i, s.len() as int).drop_first() =~= s.subrange(i + 1, s.len() as int));
}

proof fn lemma_trim_end_step(s: Seq<char>, j: int)
    requires
        0 < j <= s.len(),
        is_ws(s[j - 1]),
    ensures
        trim_end_seq(s.subrange(0, j)) == trim_end_seq(s.subrange(0, j - 1)),
{
    assert(s.subrange(0, j).drop_last() =~= s.subrange(0, j - 1));
}

/// `s` without leading and trailing Unicode whitespace.
pub fn trim(s: &str) -> (r: &str)
    ensures
        r@ == trim_seq(s@),
{
    let v = chars_of(s);
    let n = v.len();
    let mut i: usize = 0;
    assert(s@.subrange(0, n as int) =~= s@);
    while i < n && is_whitespace(v[i])
        invariant
            v@ == s@,
            n == v@.len(),
            i <= n,
            trim_start_seq(s@) == trim_start_seq(s@.subrange(i as int, n as int)),
        decreases n - i,
    {
        proof {
            lemma_trim_start_step(s@, i as int);
        }
        i = i + 1;
    }
    let ghost t = s@.subrange(i as int, n as int);
    assert(trim_start_seq(s@) == t);
    let mut j: usize = n;
    while j > i && is_whitespace(v[j - 1])
        invariant
            v@ == s@,
            n == v@.len(),
            i <= j <= n,
            t == s@.subrange(i as int, n as int),
            trim_end_seq(t) == trim_end_seq(s@.subrange(i as int, j as int)),
        decreases j - i,
    {
        proof {
            let u = s@.subrange(i as int, j as int);
            lemma_trim_end_step(u, (j - i) as int);
            assert(u.subrange(0, (j - i) as int) =~= u);
            assert(u.subrange(0, (j - i - 1) as int) =~= s@.subrange(i as int, (j - 1) as int));
        }
        j = j - 1;
    }
    assert(trim_end_seq(s@.subrange(i as int, j as int)) == s@.subrange(i as int, j as int));
    s.substring_char(i, j)
}

/// Whether the characters of `a` are those of `b`.
pub fn str_eq(a: &str, b: &str) -> (r: bool)
    ensures
        r == (a@ == b@),
{
    let va = chars_of(a);
    let vb = chars_of(b);
    if va.len() != vb.len() {
        return false;
    }
    let mut i: usize = 0;
    while i < va.len()
        invariant
            va@ == a@,
            vb@ == b@,
            va@.len() == vb@.len(),
            i <= va@.len(),
            forall|k: int| 0 <= k < i ==> va@[k] == vb@[k],
        decreases va@.len() - i,
    {
        if va[i] != vb[i] {
            return false;
        }
        i = i + 1;
    }
    assert(a@ =~= b@);
    true
}

/// ASCII lowercase of one character.
fn lower_one(c: char) -> (r: char)
    ensures
        r == lower_char(c),
{
    if 'A' <= c && c <= 'Z' {
        ((c as u8) + 32) as char
    } else {
        c
    }
}

/// The ASCII lowercase of a text: `A`..=`Z` become `a`..=`z`, every other
/// character is kept (what `str::to_ascii_lowercase` gives).
pub fn to_ascii_lowercase(s: &str) -> (r: String)
    ensures
        r@ == lower_seq(s@),
{
    let v = chars_of(s);
    let mut r = String::new();
    let mut i: usize = 0;
    while i < v.len()
        invariant
            v@ == s@,
            i <= v.len(),
            r@ == lower_seq(v@.take(i as int)),
        decreases v.len() - i,
    {
        let c = lower_one(v[i]);
        r.push(c);
        assert(v@.take(i as int + 1) == v@.take(i as int).push(v@[i as int]));
        assert(lower_seq(v@.take(i as int + 1)) =~= lower_seq(v@.take(i as int)).push(c));
        i = i + 1;
    }
    assert(v@.take(v.len() as int) == v@);
    r
}

/// ASCII uppercase of one character; every other character is kept.
pub open spec fn upper_char(c: char) -> char {
    if is_lower(c) {
        ((c as u32) - 32) as char
    } else {
        c
    }
}

pub open spec fn upper_seq(s: Seq<char>) -> Seq<char> {
    s.map_values(|c: char| upper_char(c))
}

/// ASCII uppercase of one character.
fn upper_one(c: char) -> (r: char)
    ensures
        r == upper_char(c),
{
    if 'a' <= c && c <= 'z' {
        ((c as u8) - 32) as char
    } else {
        c
    }
}

/// The ASCII uppercase of a text: `a`..=`z` become `A`..=`Z`, every other
/// character is kept (what `str::to_ascii_uppercase` gives).
pub fn to_ascii_uppercase(s: &str) -> (r: String)
    ensures
        r@ == upper_seq(s@),
{
    let v = chars_of(s);
    let mut r = String::new();
    let mut i: usize = 0;
    while i < v.len()
        invariant
            v@ == s@,
            i <= v.len(),
            r@ == upper_seq(v@.take(i as int)),
        decreases v.len() - i,
    {
        let c = upper_one(v[i]);
        r.push(c);
        assert(v@.take(i as int + 1) == v@.take(i as int).push(v@[i as int]));
        assert(upper_seq(v@.take(i as int + 1)) =~= upper_seq(v@.take(i as int)).push(c));
        i = i + 1;
    }
    assert(v@.take(v.len() as int) == v@);
    r
}

/// The decimal digit `d` as a character.
pub open spec fn digit_char(d: nat) -> char {
    (48 + d) as char
}

/// The decimal text of a natural number, without leading zeros.
pub open spec fn decimal_seq(n: nat) -> Seq<char>
    decreases n,
{
    if n < 10 {
        seq![digit_char(n)]
    } else {
        decimal_seq(n / 10).push(digit_char(n % 10))
    }
}

fn digit(d: u8) -> (c: char)
    requires
        d < 10,
    ensures
        c == digit_char(d as nat),
{
    (d + 48) as char
}

/// The decimal text of a number (what `Display` writes for it).
pub fn decimal(n: u128) -> (r: String)
    ensures
        r@ == decimal_seq(n as nat),
    decreases n,
{
    if n < 10 {
        let mut s = String::new();
        s.push(digit(n as u8));
        s
    } else {
        let mut s = decimal(n / 10);
        s.push(digit((n % 10) as u8));
        s
    }
}

/// The whole seconds of a span in nanoseconds, truncated toward zero.
pub open spec fn whole_seconds(nanos: int) -> int {
    if nanos >= 0 {
        nanos / 1_000_000_000
    } else {
        -((-nanos) / 1_000_000_000)
    }
}

/// The decimal text of an integer, with a minus sign where it is negative.
pub open spec fn signed_decimal_seq(n: int) -> Seq<char> {
    if n < 0 {
        seq!['-'] + decimal_seq((-n) as nat)
    } else {
        decimal_seq(n as nat)
    }
}

/// The whole seconds of a span in nanoseconds, as decimal text.
pub fn seconds_text(nanos: i128) -> (r: String)
    ensures
        r@ == signed_decimal_seq(whole_seconds(nanos as int)),
{
    if nanos >= 0 {
        decimal((nanos as u128) / 1_000_000_000)
    } else {
        let m: u128 = ((-(nanos + 1)) as u128) + 1;
        let q = m / 1_000_000_000;
        if q == 0 {
            decimal(0)
        } else {
            let mut s = String::new();
            s.push('-');
            s.push_str(decimal(q).as_str());
            s
        }
    }
}

/// What `Debug` writes for a character: the character quoted, with the
/// escapes of `char::escape_debug`.
pub uninterp spec fn spec_char_debug(c: char) -> Seq<char>;

/// `format!("{c:?}")`, the `Debug` text of a character. The claim: the text is
/// the named function of the character.
#[verifier::external_body]
pub(crate) fn char_debug(c: char) -> (r: String)
    ensures
        r@ == spec_char_debug(c),
{
    format!("{c:?}")
}

/// `String::push` appends one character.
pub assume_specification[ String::push ](s: &mut String, ch: char)
    ensures
        final(s)@ == old(s)@.push(ch),
;

/// `String::push_str` appends a text.
pub assume_specification[ String::push_str ](s: &mut String, string: &str)
    ensures
        final(s)@ == old(s)@ + string@,
;

/// Where every character from `from` on passes `ok`, nothing fails.
pub proof fn lemma_first_bad_all_ok(s: Seq<char>, ok: spec_fn(int, char) -> bool, from: nat)
    requires
        forall|k: int| from <= k < s.len() ==> #[trigger] ok(k, s[k]),
    ensures
        first_bad(s, ok, from) is None,
    decreases s.len() - from,
{
    if from < s.len() {
        lemma_first_bad_all_ok(s, ok, from + 1);
    }
}

/// What is left after the leading whitespace starts with no whitespace.
proof fn lemma_trim_start_clean(s: Seq<char>)
    ensures
        trim_start_seq(s).len() == 0 || !is_ws(trim_start_seq(s)[0]),
        trim_start_seq(s).len() <= s.len(),
    decreases s.len(),
{
    if s.len() > 0 && is_ws(s[0]) {
        lemma_trim_start_clean(s.drop_first());
    }
}

/// What is left after the trailing whitespace is a prefix of the text that
/// ends with no whitespace.
proof fn lemma_trim_end_clean(s: Seq<char>)
    ensures
        trim_end_seq(s).len() <= s.len(),
        trim_end_seq(s) =~= s.subrange(0, trim_end_seq(s).len() as int),
        trim_end_seq(s).len() == 0 || !is_ws(trim_end_seq(s).last()),
    decreases s.len(),
{
    if s.len() > 0 && is_ws(s.last()) {
        lemma_trim_end_clean(s.drop_last());
        let t = trim_end_seq(s.drop_last());
        assert(s.drop_last().subrange(0, t.len() as int) =~= s.subrange(0, t.len() as int));
    }
}

/// A trimmed text has nothing left to trim.
pub proof fn lemma_trim_idempotent(s: Seq<char>)
    ensures
        trim_seq(trim_seq(s)) == trim_seq(s),
{
    let u = trim_start_seq(s);
    let t = trim_end_seq(u);
    lemma_trim_start_clean(s);
    lemma_trim_end_clean(u);
    if t.len() > 0 {
        assert(t[0] == u[0]);
        assert(!is_ws(t[0]));
        assert(!is_ws(t.last()));
    }
    assert(trim_start_seq(t) == t);
    assert(trim_end_seq(t) == t);
}

/// A free text that passes its rule is stored trimmed, and the stored text
/// passes the same rule and is left as it is.
pub proof fn lemma_text_fault_trimmed(s: Seq<char>, max: nat)
    requires
        text_fault(s, max) is None,
    ensures
        text_fault(trim_seq(s), max) is None,
        trim_seq(trim_seq(s)) == trim_seq(s),
{
    lemma_trim_idempotent(s);
}

/// A text of ASCII letters and digits has nothing to trim.
pub proof fn lemma_trim_alnum(s: Seq<char>)
    requires
        forall|k: int| 0 <= k < s.len() ==> #[trigger] is_alnum(s[k]),
    ensures
        trim_seq(s) == s,
{
    if s.len() > 0 {
        assert(is_alnum(s[0]));
        assert(is_alnum(s.last()));
    }
    assert(trim_start_seq(s) == s);
}

/// A text of lowercase ASCII letters and digits is its own trimmed lowercase.
pub proof fn lemma_lower_trim_plain(s: Seq<char>)
    requires
        forall|k: int| 0 <= k < s.len() ==> #[trigger] is_lower(s[k]) || is_digit(s[k]),
    ensures
        lower_seq(trim_seq(s)) == s,
{
    assert forall|k: int| 0 <= k < s.len() implies #[trigger] is_alnum(s[k]) by {
        assert(is_lower(s[k]) || is_digit(s[k]));
    }
    lemma_trim_alnum(s);
    assert forall|k: int| 0 <= k < s.len() implies #[trigger] lower_seq(s)[k] == s[k] by {
        assert(is_lower(s[k]) || is_digit(s[k]));
        assert(!is_upper(s[k]));
    }
    assert(lower_seq(s) =~= s);
}

/// A text that passes the slug rule is its own trimmed lowercase.
pub proof fn lemma_slug_is_normal(n: Seq<char>)
    requires
        first_bad(n, slug_rule(), 0) is None,
    ensures
        lower_seq(trim_seq(n)) == n,
{
    lemma_first_bad_none(n, slug_rule(), 0);
    if n.len() > 0 {
        assert(slug_rule()(0, n[0]));
        assert(slug_rule()(n.len() - 1, n[n.len() - 1]));
        assert(!is_ws(n[0]));
        assert(!is_ws(n.last()));
    }
    assert(trim_start_seq(n) == n);
    assert(trim_end_seq(n) == n);
    assert forall|k: int| 0 <= k < n.len() implies #[trigger] lower_seq(n)[k] == n[k] by {
        assert(slug_rule()(k, n[k]));
        assert(!is_upper(n[k]));
    }
    assert(lower_seq(n) =~= n);
}

/// An index found by [`first_bad`], as a `usize`.
pub open spec fn as_index(o: Option<nat>) -> Option<usize> {
    match o {
        Some(k) => Some(k as usize),
        None => None,
    }
}

/// A parse result, taken by the view of what it parsed.
pub open spec fn view_outcome<T: View, E>(r: Result<T, E>) -> Result<T::V, E> {
    match r {
        Ok(v) => Ok(v@),
        Err(e) => Err(e),
    }
}

/// The rule of handles and slugs: a lowercase Latin letter first, then
/// lowercase letters, digits and `_`.
pub open spec fn slug_rule() -> spec_fn(int, char) -> bool {
    |i: int, c: char|
        if i == 0 {
            is_lower(c)
        } else {
            is_lower(c) || is_digit(c) || c == '_'
        }
}

pub open spec fn alnum_rule() -> spec_fn(int, char) -> bool {
    |i: int, c: char| is_alnum(c)
}

pub open spec fn token_rule() -> spec_fn(int, char) -> bool {
    |i: int, c: char| is_token_char(c)
}

pub open spec fn printable_rule() -> spec_fn(int, char) -> bool {
    |i: int, c: char| !is_cntrl(c)
}

pub open spec fn no_ws_rule() -> spec_fn(int, char) -> bool {
    |i: int, c: char| !is_ws(c)
}

/// The first character of `v` that breaks the handle/slug rule.
pub fn first_bad_slug_char(v: &Vec<char>) -> (r: Option<usize>)
    ensures
        r == as_index(first_bad(v@, slug_rule(), 0)),
{
    let mut i: usize = 0;
    while i < v.len()
        invariant
            i <= v@.len(),
            first_bad(v@, slug_rule(), 0) == first_bad(v@, slug_rule(), i as nat),
        decreases v@.len() - i,
    {
        let c = v[i];
        let ok = if i == 0 {
            is_ascii_lowercase(c)
        } else {
            is_ascii_lowercase(c) || is_ascii_digit(c) || c == '_'
        };
        if !ok {
            return Some(i);
        }
        i = i + 1;
    }
    None
}

/// The first character of `v` that is not ASCII alphanumeric.
pub fn first_bad_alnum_char(v: &Vec<char>) -> (r: Option<usize>)
    ensures
        r == as_index(first_bad(v@, alnum_rule(), 0)),
{
    let mut i: usize = 0;
    while i < v.len()
        invariant
            i <= v@.len(),
            first_bad(v@, alnum_rule(), 0) == first_bad(v@, alnum_rule(), i as nat),
        decreases v@.len() - i,
    {
        if !is_ascii_alphanumeric(v[i]) {
            return Some(i);
        }
        i = i + 1;
    }
    None
}

/// The first character of `v` outside the token alphabet `A-Za-z0-9-_`.
pub fn first_bad_token_char(v: &Vec<char>) -> (r: Option<usize>)
    ensures
        r == as_index(first_bad(v@, token_rule(), 0)),
{
    let mut i: usize = 0;
    while i < v.len()
        invariant
            i <= v@.len(),
            first_bad(v@, token_rule(), 0) == first_bad(v@, token_rule(), i as nat),
        decreases v@.len() - i,
    {
        let c = v[i];
        if !(is_ascii_alphanumeric(c) || c == '-' || c == '_') {
            return Some(i);
        }
        i = i + 1;
    }
    None
}

/// Whether `v` holds a control character.
pub fn has_control_char(v: &Vec<char>) -> (r: bool)
    ensures
        r == (first_bad(v@, printable_rule(), 0) is Some),
{
    let mut i: usize = 0;
    while i < v.len()
        invariant
            i <= v@.len(),
            first_bad(v@, printable_rule(), 0) == first_bad(v@, printable_rule(), i as nat),
        decreases v@.len() - i,
    {
        if is_control(v[i]) {
            return true;
        }
        i = i + 1;
    }
    false
}

/// Whether `v` holds a whitespace character.
pub fn has_whitespace_char(v: &Vec<char>) -> (r: bool)
    ensures
        r == (first_bad(v@, no_ws_rule(), 0) is Some),
{
    let mut i: usize = 0;
    while i < v.len()
        invariant
            i <= v@.len(),
            first_bad(v@, no_ws_rule(), 0) == first_bad(v@, no_ws_rule(), i as nat),
        decreases v@.len() - i,
    {
        if is_whitespace(v[i]) {
            return true;
        }
        i = i + 1;
    }
    false
}

/// Why a free text is refused: nothing is left after trimming, or it is longer
/// than allowed (with its length in characters).
#[derive(Debug, Clone, Copy, PartialEq, Eq, Structural)]
pub enum TextFault {
    Empty,
    TooLong(usize),
}

/// What is wrong with a free text whose trimmed length must be 1..=`max`.
pub open spec fn text_fault(input: Seq<char>, max: nat) -> Option<TextFault> {
    let t = trim_seq(input);
    if t.len() == 0 {
        Some(TextFault::Empty)
    } else if t.len() > max {
        Some(TextFault::TooLong(t.len() as usize))
    } else {
        None
    }
}

/// Trim a free text and check that 1..=`max` characters are left.
pub fn check_text(input: &str, max: usize) -> (r: Result<&str, TextFault>)
    ensures
        match r {
            Ok(t) => text_fault(input@, max as nat) is None && t@ == trim_seq(input@),
            Err(f) => text_fault(input@, max as nat) == Some(f),
        },
{
    let trimmed = trim(input);
    if trimmed.is_empty() {
        return Err(TextFault::Empty);
    }
    let len = trimmed.unicode_len();
    if len > max {
        return Err(TextFault::TooLong(len));
    }
    Ok(trimmed)
}

/// Whether `s` begins with `p`.
pub open spec fn starts_with(s: Seq<char>, p: Seq<char>) -> bool {
    p.len() <= s.len() && s.subrange(0, p.len() as int) == p
}

/// Whether the characters of `v` begin with those of `p`.
pub fn has_prefix(v: &Vec<char>, p: &str) -> (r: bool)
    ensures
        r == starts_with(v@, p@),
{
    let pv = chars_of(p);
    if pv.len() > v.len() {
        return false;
    }
    let mut i: usize = 0;
    while i < pv.len()
        invariant
            pv@ == p@,
            pv@.len() <= v@.len(),
            i <= pv@.len(),
            forall|k: int| 0 <= k < i ==> v@[k] == pv@[k],
        decreases pv@.len() - i,
    {
        if v[i] != pv[i] {
            assert(v@.subrange(0, pv@.len() as int)[i as int] != pv@[i as int]);
            return false;
        }
        i = i + 1;
    }
    assert(v@.subrange(0, pv@.len() as int) =~= pv@);
    true
}

/// Whether `c` occurs in `v` at or after `start`.
pub fn contains_from(v: &Vec<char>, start: usize, c: char) -> (r: bool)
    requires
        start <= v@.len(),
    ensures
        r == v@.skip(start as int).contains(c),
{
    let mut i: usize = start;
    while i < v.len()
        invariant
            start <= i <= v@.len(),
            forall|k: int| start <= k < i ==> v@[k] != c,
        decreases v@.len() - i,
    {
        if v[i] == c {
            assert(v@.skip(start as int)[i - start] == c);
            return true;
        }
        i = i + 1;
    }
    assert forall|k: int| 0 <= k < v@.skip(start as int).len() implies v@.skip(start as int)[k] != c by {
        assert(v@.skip(start as int)[k] == v@[k + start]);
    }
    false
}

} // verus!
