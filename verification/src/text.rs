//! Character-sequence helpers shared by the library: substring search,
//! prefix tests and string building.

use vstd::prelude::*;

verus! {

/// `needle` occurs in `hay` starting at position `i`.
pub open spec fn occurs_at(hay: Seq<char>, needle: Seq<char>, i: int) -> bool {
    0 <= i && i + needle.len() <= hay.len() && hay.subrange(i, i + needle.len()) == needle
}

/// `needle` occurs somewhere in `hay`.
pub open spec fn contains_seq(hay: Seq<char>, needle: Seq<char>) -> bool {
    exists|i: int| occurs_at(hay, needle, i)
}

/// Tests whether `needle` occurs at position `i` of `hay`.
pub fn matches_at(hay: &Vec<char>, needle: &Vec<char>, i: usize) -> (r: bool)
    requires
        i <= hay.len(),
    ensures
        r == occurs_at(hay@, needle@, i as int),
{
    if needle.len() > hay.len() - i {
        return false;
    }
    let mut k: usize = 0;
    while k < needle.len()
        invariant
            k <= needle.len(),
            i + needle.len() <= hay.len(),
            forall|j: int| 0 <= j < k ==> hay@[i + j] == needle@[j],
        decreases needle.len() - k,
    {
        if hay[i + k] != needle[k] {
            assert(hay@.subrange(i as int, i + needle.len())[k as int] != needle@[k as int]);
            return false;
        }
        k = k + 1;
    }
    assert(hay@.subrange(i as int, i + needle.len()) =~= needle@);
    true
}


/// Tests whether `needle` occurs anywhere in `hay`.
pub fn contains_chars(hay: &Vec<char>, needle: &Vec<char>) -> (r: bool)
    ensures
        r == contains_seq(hay@, needle@),
{
    match find_from(hay, needle, 0) {
        Some(i) => true,
        None => false,
    }
}

/// Position of the first occurrence of `needle` in `hay` at or after `start`,
/// as a spec: `None` when there is none.
pub open spec fn first_occurrence_from(hay: Seq<char>, needle: Seq<char>, start: int) -> Option<int> {
    if exists|i: int| start <= i && occurs_at(hay, needle, i) {
        Some(choose|i: int| start <= i && occurs_at(hay, needle, i)
            && forall|j: int| start <= j < i ==> !occurs_at(hay, needle, j))
    } else {
        None
    }
}

/// Finds the first occurrence of `needle` in `hay` at or after `start`.
pub fn find_from(hay: &Vec<char>, needle: &Vec<char>, start: usize) -> (r: Option<usize>)
    ensures
        r matches Some(i) ==> first_occurrence_from(hay@, needle@, start as int) == Some(i as int),
        r is None ==> first_occurrence_from(hay@, needle@, start as int) is None,
        match r {
            Some(i) => start <= i && occurs_at(hay@, needle@, i as int)
                && forall|j: int| start <= j < i ==> !occurs_at(hay@, needle@, j),
            None => forall|j: int| start <= j ==> !occurs_at(hay@, needle@, j),
        },
{
    let r = find_from_impl(hay, needle, start);
    proof {
        if let Some(i) = r {
            let c = choose|c: int| start <= c && occurs_at(hay@, needle@, c)
                && forall|j: int| start <= j < c ==> !occurs_at(hay@, needle@, j);
            assert(start <= i && occurs_at(hay@, needle@, i as int)
                && forall|j: int| start <= j < i ==> !occurs_at(hay@, needle@, j));
            if c < i {
                assert(!occurs_at(hay@, needle@, c));
            }
            if i < c {
                assert(!occurs_at(hay@, needle@, i as int));
            }
        }
    }
    r
}

fn find_from_impl(hay: &Vec<char>, needle: &Vec<char>, start: usize) -> (r: Option<usize>)
    ensures
        match r {
            Some(i) => start <= i && occurs_at(hay@, needle@, i as int)
                && forall|j: int| start <= j < i ==> !occurs_at(hay@, needle@, j),
            None => forall|j: int| start <= j ==> !occurs_at(hay@, needle@, j),
        },
{
    if start > hay.len() {
        return None;
    }
    let mut i: usize = start;
    while i < hay.len()
        invariant
            start <= i <= hay.len(),
            forall|j: int| start <= j < i ==> !occurs_at(hay@, needle@, j),
        decreases hay.len() - i,
    {
        if matches_at(hay, needle, i) {
            return Some(i);
        }
        i = i + 1;
    }
    if matches_at(hay, needle, i) {
        return Some(i);
    }
    None
}

/// `prefix` is a prefix of `s`.
pub open spec fn has_prefix(s: Seq<char>, prefix: Seq<char>) -> bool {
    prefix.len() <= s.len() && s.subrange(0, prefix.len() as int) == prefix
}

/// Tests whether `prefix` is a prefix of `s`.
pub fn starts_with_chars(s: &Vec<char>, prefix: &Vec<char>) -> (r: bool)
    ensures
        r == has_prefix(s@, prefix@),
{
    matches_at(s, prefix, 0)
}

/// The characters of a string slice, in order.
pub fn chars_of(s: &str) -> (v: Vec<char>)
    ensures
        v@ == s@,
{
    let n = s.unicode_len();
    let mut v: Vec<char> = Vec::new();
    let mut i: usize = 0;
    while i < n
        invariant
            n == s@.len(),
            i <= n,
            v@ == s@.subrange(0, i as int),
        decreases n - i,
    {
        let c = s.get_char(i);
        v.push(c);
        i = i + 1;
        assert(v@ =~= s@.subrange(0, i as int));
    }
    assert(v@ =~= s@);
    v
}

/// Appends one character to a string (`String::push`).
#[verifier::external_body]
pub fn push_char(s: &mut String, c: char)
    ensures
        final(s)@ == old(s)@.push(c),
{
    s.push(c);
}

/// Builds a string from its characters.
pub fn string_of(v: &Vec<char>) -> (s: String)
    ensures
        s@ == v@,
{
    let mut s = String::new();
    let mut i: usize = 0;
    while i < v.len()
        invariant
            i <= v.len(),
            s@ == v@.subrange(0, i as int),
        decreases v.len() - i,
    {
        push_char(&mut s, v[i]);
        i = i + 1;
        assert(s@ =~= v@.subrange(0, i as int));
    }
    assert(v@.subrange(0, v.len() as int) =~= v@);
    s
}

/// Builds a string from the characters `v[from..to]`.
pub fn string_of_range(v: &Vec<char>, from: usize, to: usize) -> (s: String)
    requires
        from <= to <= v.len(),
    ensures
        s@ == v@.subrange(from as int, to as int),
{
    let mut s = String::new();
    let mut i: usize = from;
    while i < to
        invariant
            from <= i <= to <= v.len(),
            s@ == v@.subrange(from as int, i as int),
        decreases to - i,
    {
        push_char(&mut s, v[i]);
        i = i + 1;
        assert(s@ =~= v@.subrange(from as int, i as int));
    }
    s
}

/// Builds an owned string from a slice.
pub fn owned(s: &str) -> (r: String)
    ensures
        r@ == s@,
{
    String::from_str(s)
}

/// Decimal rendering of a natural number, most significant digit first.
pub open spec fn decimal(n: nat) -> Seq<char>
    decreases n,
{
    if n < 10 {
        seq![digit_char(n)]
    } else {
        decimal(n / 10).push(digit_char(n % 10))
    }
}

/// The ASCII digit for `d < 10`.
pub open spec fn digit_char(d: nat) -> char {
    if d == 0 { '0' } else if d == 1 { '1' } else if d == 2 { '2' } else if d == 3 { '3' }
    else if d == 4 { '4' } else if d == 5 { '5' } else if d == 6 { '6' } else if d == 7 { '7' }
    else if d == 8 { '8' } else { '9' }
}

fn digit(d: u64) -> (c: char)
    requires
        d < 10,
    ensures
        c == digit_char(d as nat),
{
    if d == 0 { '0' } else if d == 1 { '1' } else if d == 2 { '2' } else if d == 3 { '3' }
    else if d == 4 { '4' } else if d == 5 { '5' } else if d == 6 { '6' } else if d == 7 { '7' }
    else if d == 8 { '8' } else { '9' }
}

/// Appends the decimal rendering of `n` to `out`.
pub fn push_decimal(out: &mut String, n: u64)
    ensures
        final(out)@ == old(out)@ + decimal(n as nat),
    decreases n,
{
    if n < 10 {
        push_char(out, digit(n));
        assert(decimal(n as nat) =~= seq![digit_char(n as nat)]);
    } else {
        push_decimal(out, n / 10);
        push_char(out, digit(n % 10));
    }
}

/// Appends the decimal rendering of a wide `n` to `out`.
pub fn push_decimal_wide(out: &mut String, n: u128)
    ensures
        final(out)@ == old(out)@ + decimal(n as nat),
    decreases n,
{
    if n < 10 {
        push_char(out, digit(n as u64));
        assert(decimal(n as nat) =~= seq![digit_char(n as nat)]);
    } else {
        push_decimal_wide(out, n / 10);
        push_char(out, digit((n % 10) as u64));
    }
}

/// The decimal rendering of `n` as a string.
pub fn decimal_string(n: u64) -> (s: String)
    ensures
        s@ == decimal(n as nat),
{
    let mut s = String::new();
    push_decimal(&mut s, n);
    assert(s@ =~= decimal(n as nat));
    s
}

/// Appends `t` to `out`.
pub fn push_str(out: &mut String, t: &str)
    ensures
        final(out)@ == old(out)@ + t@,
{
    out.append(t);
}


/// Tests two string slices for equality of their characters.
pub fn str_eq(a: &str, b: &str) -> (r: bool)
    ensures
        r == (a@ == b@),
{
    let n = a.unicode_len();
    if n != b.unicode_len() {
        return false;
    }
    let mut i: usize = 0;
    while i < n
        invariant
            n == a@.len(),
            n == b@.len(),
            i <= n,
            forall|j: int| 0 <= j < i ==> a@[j] == b@[j],
        decreases n - i,
    {
        if a.get_char(i) != b.get_char(i) {
            return false;
        }
        i = i + 1;
    }
    assert(a@ =~= b@);
    true
}

/// Whether one of the strings equals `s`.
pub fn contains_str(v: &Vec<String>, s: &str) -> (r: bool)
    ensures
        r == views(v@).contains(s@),
{
    let mut i: usize = 0;
    while i < v.len()
        invariant
            i <= v.len(),
            forall|j: int| 0 <= j < i ==> v@[j]@ != s@,
        decreases v.len() - i,
    {
        if str_eq(v[i].as_str(), s) {
            assert(views(v@)[i as int] == s@);
            return true;
        }
        i = i + 1;
    }
    assert forall|j: int| 0 <= j < views(v@).len() implies views(v@)[j] != s@ by {
        assert(views(v@)[j] == v@[j]@);
    }
    false
}

/// The Unicode lowercase mapping of a string, as `str::to_lowercase`
/// computes it; it depends on the string alone.
pub uninterp spec fn unicode_lowercase(s: Seq<char>) -> Seq<char>;

/// The lowercase form of a string: ASCII lowercasing for an all-ASCII
/// string, otherwise the Unicode mapping, which gives the same for the
/// string as for its ASCII-lowercased form.
pub open spec fn lowercase(s: Seq<char>) -> Seq<char> {
    if all_ascii(s) { ascii_lower(s) } else { unicode_lowercase(ascii_lower(s)) }
}

/// ASCII uppercasing: `a`-`z` become `A`-`Z`, every other character stays.
pub open spec fn ascii_upper(s: Seq<char>) -> Seq<char> {
    s.map_values(|c: char| if 'a' <= c && c <= 'z' { ((c as u32) - 32) as char } else { c })
}

/// ASCII lowercasing: `A`-`Z` become `a`-`z`, every other character stays.
pub open spec fn ascii_lower(s: Seq<char>) -> Seq<char> {
    s.map_values(|c: char| if 'A' <= c && c <= 'Z' { ((c as u32) + 32) as char } else { c })
}

/// Every character is ASCII.
pub open spec fn all_ascii(s: Seq<char>) -> bool {
    forall|i: int| 0 <= i < s.len() ==> (#[trigger] s[i] as u32) < 128
}

/// `str::to_lowercase`. Trusted to return the lowercase mapping of its
/// argument: on an all-ASCII string ASCII lowercasing (as the standard
/// library documents), otherwise the Unicode mapping, a function of the
/// argument's characters alone whose character-by-character table is left
/// unstated. The mapping takes `A`-`Z` to `a`-`z` and leaves `a`-`z` as
/// they are, and both count alike as cased letters in the one rule that
/// looks at neighbouring characters (a final capital sigma), so the
/// mapping of a string is that of its ASCII-lowercased form; the clause
/// states it in that form.
#[verifier::external_body]
pub fn to_lowercase(s: &str) -> (r: String)
    ensures
        all_ascii(s@) ==> r@ == ascii_lower(s@),
        !all_ascii(s@) ==> r@ == unicode_lowercase(ascii_lower(s@)),
{
    s.to_lowercase()
}

/// The characters of an optional string.
pub open spec fn opt_view(o: Option<String>) -> Option<Seq<char>> {
    match o {
        Some(s) => Some(s@),
        None => None,
    }
}

/// The characters of each string of a sequence.
pub open spec fn views(v: Seq<String>) -> Seq<Seq<char>> {
    v.map_values(|s: String| s@)
}

/// `views` of a sequence extended by one string.
pub proof fn lemma_views_push(v: Seq<String>, s: String)
    ensures
        views(v.push(s)) == views(v).push(s@),
{
    assert forall|k: int| 0 <= k < v.len() + 1 implies #[trigger] views(v.push(s))[k] == views(v).push(s@)[k] by {
        if k < v.len() {
            assert(v.push(s)[k] == v[k]);
        }
    }
    assert(views(v.push(s)) =~= views(v).push(s@));
}

/// `views` of a growing prefix.
pub proof fn lemma_views_prefix(v: Seq<String>, i: int)
    requires
        0 <= i < v.len(),
    ensures
        views(v.subrange(0, i + 1)) == views(v.subrange(0, i)).push(v[i]@),
{
    assert(v.subrange(0, i + 1) =~= v.subrange(0, i).push(v[i]));
    lemma_views_push(v.subrange(0, i), v[i]);
}

/// Appends copies of `src` to `dst`.
pub fn extend_strings(dst: &mut Vec<String>, src: &Vec<String>)
    ensures
        views(final(dst)@) == views(old(dst)@) + views(src@),
{
    let ghost d0 = views(dst@);
    let mut i: usize = 0;
    while i < src.len()
        invariant
            i <= src.len(),
            views(dst@) == d0 + views(src@.subrange(0, i as int)),
        decreases src.len() - i,
    {
        let ghost prev = dst@;
        dst.push(src[i].clone());
        proof {
            lemma_views_push(prev, src@[i as int]);
            lemma_views_prefix(src@, i as int);
            assert(d0 + views(src@.subrange(0, i + 1)) =~= (d0 + views(src@.subrange(0, i as int))).push(src@[i as int]@));
        }
        i = i + 1;
    }
    assert(src@.subrange(0, src.len() as int) =~= src@);
}


/// Whether `char::is_whitespace` holds of a character: the Unicode
/// `White_Space` property, a fixed table.
pub uninterp spec fn white_space(c: char) -> bool;

/// `r` is a slice of `s` with only white space before and after it.
pub open spec fn white_space_framed(s: Seq<char>, r: Seq<char>) -> bool {
    exists|i: int, j: int| {
        &&& 0 <= i <= j <= s.len()
        &&& r == s.subrange(i, j)
        &&& forall|k: int| 0 <= k < i ==> white_space(#[trigger] s[k])
        &&& forall|k: int| j <= k < s.len() ==> white_space(#[trigger] s[k])
    }
}

/// `str::trim`. Trusted to return the slice of `s` between its leading and
/// its trailing white space, white space being what `char::is_whitespace`
/// accepts: a slice framed by white space that neither starts nor ends
/// with white space.
#[verifier::external_body]
pub fn trim<'a>(s: &'a str) -> (r: &'a str)
    ensures
        white_space_framed(s@, r@),
        r@.len() > 0 ==> !white_space(r@[0]) && !white_space(r@[r@.len() - 1]),
{
    s.trim()
}

/// Every character is an ASCII digit.
pub open spec fn all_digits(s: Seq<char>) -> bool {
    forall|i: int| 0 <= i < s.len() ==> '0' <= #[trigger] s[i] <= '9'
}

/// The number written by a string of ASCII digits.
pub open spec fn digits_value(s: Seq<char>) -> nat
    decreases s.len(),
{
    if s.len() == 0 {
        0
    } else {
        digits_value(s.drop_last()) * 10 + ((s.last() as u32) - ('0' as u32)) as nat
    }
}

/// What `str::parse::<u32>` makes of a string: an optional `+` followed by
/// at least one ASCII digit, with a value that fits in 32 bits.
pub open spec fn parsed_u32(s: Seq<char>) -> Option<u32> {
    let body = if s.len() > 0 && s[0] == '+' { s.drop_first() } else { s };
    if body.len() > 0 && all_digits(body) && digits_value(body) <= u32::MAX {
        Some(digits_value(body) as u32)
    } else {
        None
    }
}

/// Parses a decimal `u32` as `str::parse` does.
pub fn parse_u32(s: &str) -> (r: Option<u32>)
    ensures
        r == parsed_u32(s@),
{
    let cs = chars_of(s);
    let start: usize = if cs.len() > 0 && cs[0] == '+' { 1 } else { 0 };
    let ghost body = if s@.len() > 0 && s@[0] == '+' { s@.drop_first() } else { s@ };
    assert(body =~= s@.subrange(start as int, s@.len() as int));
    if start >= cs.len() {
        return None;
    }
    let mut value: u64 = 0;
    let mut i: usize = start;
    while i < cs.len()
        invariant
            start <= i <= cs.len(),
            cs@ == s@,
            body == s@.subrange(start as int, s@.len() as int),
            body == (if s@.len() > 0 && s@[0] == '+' { s@.drop_first() } else { s@ }),
            all_digits(s@.subrange(start as int, i as int)),
            value == digits_value(s@.subrange(start as int, i as int)),
            value <= u32::MAX,
        decreases cs.len() - i,
    {
        let c = cs[i];
        let ghost prefix = s@.subrange(start as int, i + 1);
        assert(prefix.drop_last() =~= s@.subrange(start as int, i as int));
        if c < '0' || c > '9' {
            assert(!all_digits(body)) by {
                assert(body[i - start] == c);
            }
            assert(parsed_u32(s@) is None);
            return None;
        }
        let d = (c as u32 - '0' as u32) as u64;
        value = value * 10 + d;
        assert(all_digits(prefix));
        assert(value == digits_value(prefix));
        if value > 0xFFFF_FFFF {
            proof {
                assert(body.subrange(0, i + 1 - start) =~= prefix);
                lemma_digits_value_prefix_bound(body, i + 1 - start);
            }
            assert(parsed_u32(s@) is None);
            return None;
        }
        i = i + 1;
    }
    assert(s@.subrange(start as int, s@.len() as int) =~= body);
    Some(value as u32)
}

/// The value of a digit string is at least the value of any prefix.
proof fn lemma_digits_value_prefix_bound(s: Seq<char>, n: int)
    requires
        0 <= n <= s.len(),
        all_digits(s.subrange(0, n)),
    ensures
        all_digits(s) ==> digits_value(s) >= digits_value(s.subrange(0, n)),
    decreases s.len() - n,
{
    if n < s.len() && all_digits(s) {
        let next = s.subrange(0, n + 1);
        assert(next.drop_last() =~= s.subrange(0, n));
        assert(all_digits(next));
        lemma_digits_value_prefix_bound(s, n + 1);
    } else if n == s.len() {
        assert(s.subrange(0, n) =~= s);
    }
}

/// `r` is `s` without its leading and trailing white space.
pub open spec fn is_trim_of(s: Seq<char>, r: Seq<char>) -> bool {
    white_space_framed(s, r) && (r.len() > 0 ==> !white_space(r[0]) && !white_space(r[r.len() - 1]))
}

/// `s` without its leading and trailing white space.
pub open spec fn trimmed(s: Seq<char>) -> Seq<char> {
    choose|r: Seq<char>| is_trim_of(s, r)
}

/// A string has one trimmed form.
pub proof fn lemma_trim_unique(s: Seq<char>, r1: Seq<char>, r2: Seq<char>)
    requires
        is_trim_of(s, r1),
        is_trim_of(s, r2),
    ensures
        r1 == r2,
{
    let (i1, j1) = choose|i: int, j: int| {
        &&& 0 <= i <= j <= s.len()
        &&& r1 == s.subrange(i, j)
        &&& forall|k: int| 0 <= k < i ==> white_space(#[trigger] s[k])
        &&& forall|k: int| j <= k < s.len() ==> white_space(#[trigger] s[k])
    };
    let (i2, j2) = choose|i: int, j: int| {
        &&& 0 <= i <= j <= s.len()
        &&& r2 == s.subrange(i, j)
        &&& forall|k: int| 0 <= k < i ==> white_space(#[trigger] s[k])
        &&& forall|k: int| j <= k < s.len() ==> white_space(#[trigger] s[k])
    };
    if r1.len() > 0 {
        assert(s[i1] == r1[0]);
        assert(s[j1 - 1] == r1[r1.len() - 1]);
        assert(!white_space(s[i1]));
        assert(!white_space(s[j1 - 1]));
        assert(i2 <= i1);
        assert(j1 <= j2);
        assert(r2.len() > 0);
    }
    if r2.len() > 0 {
        assert(s[i2] == r2[0]);
        assert(s[j2 - 1] == r2[r2.len() - 1]);
        assert(!white_space(s[i2]));
        assert(!white_space(s[j2 - 1]));
        assert(i1 <= i2);
        assert(j2 <= j1);
        assert(r1.len() > 0);
    }
    if r1.len() > 0 {
        assert(r1 =~= r2);
    } else {
        assert(r1 =~= r2);
    }
}

/// `s` without its leading and trailing white space.
pub fn trim_str<'a>(s: &'a str) -> (r: &'a str)
    ensures
        r@ == trimmed(s@),
{
    let r = trim(s);
    proof {
        assert(is_trim_of(s@, r@));
        lemma_trim_unique(s@, r@, trimmed(s@));
    }
    r
}

/// The items separated by `sep`, as `join` writes them.
pub open spec fn joined(items: Seq<Seq<char>>, sep: Seq<char>) -> Seq<char>
    decreases items.len(),
{
    if items.len() == 0 {
        seq![]
    } else if items.len() == 1 {
        items[0]
    } else {
        joined(items.drop_last(), sep) + sep + items.last()
    }
}

/// Joins strings with a separator.
pub fn join(items: &Vec<String>, sep: &str) -> (s: String)
    ensures
        s@ == joined(views(items@), sep@),
{
    let mut s = String::new();
    let mut i: usize = 0;
    while i < items.len()
        invariant
            i <= items.len(),
            s@ == joined(views(items@).subrange(0, i as int), sep@),
        decreases items.len() - i,
    {
        if i > 0 {
            push_str(&mut s, sep);
        }
        push_str(&mut s, items[i].as_str());
        proof {
            let sub = views(items@).subrange(0, i + 1);
            assert(sub.drop_last() =~= views(items@).subrange(0, i as int));
            if i == 0 {
                assert(s@ =~= sub[0]);
            }
        }
        i = i + 1;
    }
    assert(views(items@).subrange(0, items.len() as int) =~= views(items@));
    s
}

/// How `Display` writes a boolean.
pub open spec fn bool_text(b: bool) -> Seq<char> {
    if b { "true"@ } else { "false"@ }
}

/// Appends `true` or `false`.
pub fn push_bool(out: &mut String, b: bool)
    ensures
        final(out)@ == old(out)@ + bool_text(b),
{
    if b { push_str(out, "true"); } else { push_str(out, "false"); }
}

/// The pieces `str::split` cuts a string into at each separator,
/// including empty pieces.
pub open spec fn split_pieces(s: Seq<char>, sep: char) -> Seq<Seq<char>>
    decreases s.len(),
{
    if s.len() == 0 {
        seq![seq![]]
    } else {
        let p = split_pieces(s.drop_last(), sep);
        if s.last() == sep {
            p.push(seq![])
        } else {
            p.update(p.len() - 1, p.last().push(s.last()))
        }
    }
}

proof fn lemma_split_nonempty(s: Seq<char>, sep: char)
    ensures
        split_pieces(s, sep).len() >= 1,
    decreases s.len(),
{
    if s.len() > 0 {
        lemma_split_nonempty(s.drop_last(), sep);
    }
}

/// Splits a string at each separator, trimming each piece.
pub fn split_trimmed(s: &str, sep: char) -> (v: Vec<String>)
    ensures
        views(v@) == split_pieces(s@, sep).map_values(|p: Seq<char>| trimmed(p)),
{
    let cs = chars_of(s);
    let mut pieces: Vec<String> = Vec::new();
    let mut current = String::new();
    let mut i: usize = 0;
    while i < cs.len()
        invariant
            i <= cs.len(),
            cs@ == s@,
            views(pieces@).push(current@) == split_pieces(s@.subrange(0, i as int), sep),
        decreases cs.len() - i,
    {
        let ghost before = views(pieces@).push(current@);
        proof {
            let sub = s@.subrange(0, i + 1);
            assert(sub.drop_last() =~= s@.subrange(0, i as int));
            assert(sub.last() == cs@[i as int]);
        }
        if cs[i] == sep {
            let done = current;
            let ghost pv = pieces@;
            pieces.push(done);
            current = String::new();
            proof {
                lemma_views_push(pv, done);
                assert(views(pieces@).push(current@) =~= before.push(seq![]));
            }
        } else {
            let ghost cv = current@;
            push_char(&mut current, cs[i]);
            proof {
                assert(views(pieces@).push(current@) =~= before.update(before.len() - 1, before.last().push(cs@[i as int])));
            }
        }
        i = i + 1;
    }
    assert(s@.subrange(0, cs.len() as int) =~= s@);
    let ghost all = views(pieces@).push(current@);
    let ghost pv = pieces@;
    pieces.push(current);
    let mut out: Vec<String> = Vec::new();
    let mut k: usize = 0;
    proof {
        lemma_views_push(pv, pieces@[pieces@.len() - 1]);
    }
    while k < pieces.len()
        invariant
            k <= pieces.len(),
            views(pieces@) == all,
            all == split_pieces(s@, sep),
            views(out@) == all.subrange(0, k as int).map_values(|p: Seq<char>| trimmed(p)),
        decreases pieces.len() - k,
    {
        let t = trim_str(pieces[k].as_str());
        let ghost ov = out@;
        let o = owned(t);
        out.push(o);
        proof {
            lemma_views_push(ov, o);
            assert(all[k as int] == pieces@[k as int]@);
            assert(all.subrange(0, k + 1).map_values(|p: Seq<char>| trimmed(p))
                =~= all.subrange(0, k as int).map_values(|p: Seq<char>| trimmed(p)).push(trimmed(all[k as int])));
        }
        k = k + 1;
    }
    assert(all.subrange(0, pieces.len() as int) =~= all);
    out
}

/// What `str::parse::<bool>` makes of a string.
pub open spec fn parsed_bool(s: Seq<char>) -> Option<bool> {
    if s == "true"@ { Some(true) } else if s == "false"@ { Some(false) } else { None }
}

/// Parses `true` or `false` as `str::parse` does.
pub fn parse_bool(s: &str) -> (r: Option<bool>)
    ensures
        r == parsed_bool(s@),
{
    if str_eq(s, "true") { Some(true) } else if str_eq(s, "false") { Some(false) } else { None }
}

} // verus!
