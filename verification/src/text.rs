//! Character-level helpers on strings, each with its meaning as a spec function.
use vstd::prelude::*;

verus! {

/// The characters of `s`, in order.
pub fn chars_of(s: &str) -> (v: Vec<char>)
    ensures
        v@ == s@,
{
    let mut v: Vec<char> = Vec::new();
    for c in it: s.chars()
        invariant
            v@ == it.seq().take(it.index() as int),
            it.seq() == s@,
    {
        v.push(c);
    }
    v
}

/// Appends one character (`String::push`).
#[verifier::external_body]
pub(crate) fn push_char(s: &mut String, c: char)
    ensures
        final(s)@ == old(s)@.push(c),
{
    s.push(c);
}

/// A string holding exactly the given characters.
pub fn string_from_chars(cs: &[char]) -> (s: String)
    ensures
        s@ == cs@,
{
    let mut s = String::new();
    let mut i: usize = 0;
    while i < cs.len()
        invariant
            i <= cs@.len(),
            s@ == cs@.take(i as int),
        decreases cs@.len() - i,
    {
        push_char(&mut s, cs[i]);
        assert(cs@.take(i as int).push(cs@[i as int]) =~= cs@.take(i + 1));
        i = i + 1;
    }
    assert(cs@.take(cs@.len() as int) =~= cs@);
    s
}

/// `char::is_whitespace`: the Unicode `White_Space` property.
pub open spec fn is_white_space(c: char) -> bool {
    ||| '\t' <= c <= '\r'
    ||| c == ' '
    ||| c == '\u{85}'
    ||| c == '\u{a0}'
    ||| c == '\u{1680}'
    ||| '\u{2000}' <= c <= '\u{200a}'
    ||| c == '\u{2028}'
    ||| c == '\u{2029}'
    ||| c == '\u{202f}'
    ||| c == '\u{205f}'
    ||| c == '\u{3000}'
}

pub fn is_white_space_char(c: char) -> (b: bool)
    ensures
        b == is_white_space(c),
{
    ('\t' <= c && c <= '\r') || c == ' ' || c == '\u{85}' || c == '\u{a0}' || c == '\u{1680}'
        || ('\u{2000}' <= c && c <= '\u{200a}') || c == '\u{2028}' || c == '\u{2029}'
        || c == '\u{202f}' || c == '\u{205f}' || c == '\u{3000}'
}

/// `s` without its leading white space.
pub open spec fn trim_start(s: Seq<char>) -> Seq<char>
    decreases s.len(),
{
    if s.len() > 0 && is_white_space(s[0]) {
        trim_start(s.drop_first())
    } else {
        s
    }
}

/// `s` without its trailing white space.
pub open spec fn trim_end(s: Seq<char>) -> Seq<char>
    decreases s.len(),
{
    if s.len() > 0 && is_white_space(s.last()) {
        trim_end(s.drop_last())
    } else {
        s
    }
}

/// `str::trim`: `s` without leading and trailing white space.
pub open spec fn trim(s: Seq<char>) -> Seq<char> {
    trim_end(trim_start(s))
}

/// `true` when `s` holds nothing but white space (its trimmed form is empty).
pub open spec fn is_blank(s: Seq<char>) -> bool {
    trim(s).len() == 0
}

proof fn lemma_trim_start_skip(s: Seq<char>, i: int)
    requires
        0 <= i <= s.len(),
        forall|j: int| 0 <= j < i ==> is_white_space(#[trigger] s[j]),
    ensures
        trim_start(s) == trim_start(s.skip(i)),
    decreases i,
{
    if i > 0 {
        assert(s.drop_first().skip(i - 1) =~= s.skip(i));
        lemma_trim_start_skip(s.drop_first(), i - 1);
    } else {
        assert(s.skip(0) =~= s);
    }
}

proof fn lemma_trim_end_take(s: Seq<char>, i: int)
    requires
        0 <= i <= s.len(),
        forall|j: int| i <= j < s.len() ==> is_white_space(#[trigger] s[j]),
    ensures
        trim_end(s) == trim_end(s.take(i)),
    decreases s.len() - i,
{
    if i < s.len() {
        assert(s.drop_last().take(i) =~= s.take(i));
        lemma_trim_end_take(s.drop_last(), i);
    } else {
        assert(s.take(i) =~= s);
    }
}

proof fn lemma_trim_start_all_blank(s: Seq<char>)
    requires
        forall|j: int| 0 <= j < s.len() ==> is_white_space(#[trigger] s[j]),
    ensures
        trim_start(s).len() == 0,
    decreases s.len(),
{
    if s.len() > 0 {
        assert forall|j: int| 0 <= j < s.drop_first().len() implies is_white_space(
            #[trigger] s.drop_first()[j],
        ) by {
            assert(s.drop_first()[j] == s[j + 1]);
        }
        lemma_trim_start_all_blank(s.drop_first());
    }
}

/// `str::trim`.
pub fn trim_str(s: &str) -> (r: &str)
    ensures
        r@ == trim(s@),
{
    let cs = chars_of(s);
    let n = cs.len();
    let mut start: usize = 0;
    while start < n && is_white_space_char(cs[start])
        invariant
            n == cs@.len(),
            cs@ == s@,
            start <= n,
            forall|j: int| 0 <= j < start ==> is_white_space(#[trigger] s@[j]),
        decreases n - start,
    {
        start = start + 1;
    }
    proof {
        lemma_trim_start_skip(s@, start as int);
    }
    if start == n {
        proof {
            assert(s@.skip(n as int) =~= Seq::<char>::empty());
        }
        return s.substring_char(n, n);
    }
    let mut end: usize = n;
    while end > start && is_white_space_char(cs[end - 1])
        invariant
            n == cs@.len(),
            cs@ == s@,
            start < n,
            start <= end <= n,
            !is_white_space(s@[start as int]),
            forall|j: int| end <= j < n ==> is_white_space(#[trigger] s@[j]),
        decreases end,
    {
        end = end - 1;
    }
    let ghost rest = s@.skip(start as int);
    proof {
        assert(rest.len() > 0 && !is_white_space(rest[0]));
        assert(trim_start(rest) == rest);
        assert forall|j: int| end - start <= j < rest.len() implies is_white_space(
            #[trigger] rest[j],
        ) by {
            assert(rest[j] == s@[j + start]);
        }
        lemma_trim_end_take(rest, end - start);
        assert(rest.take(end - start) =~= s@.subrange(start as int, end as int));
    }
    s.substring_char(start, end)
}

/// `true` when `trim(s)` is empty.
pub fn is_blank_str(s: &str) -> (b: bool)
    ensures
        b == is_blank(s@),
{
    let t = trim_str(s);
    t.unicode_len() == 0
}

/// ASCII upper-case letters mapped to lower case; every other character unchanged.
pub open spec fn ascii_lower(c: char) -> char {
    if 'A' <= c <= 'Z' {
        ((c as u32) + 32) as char
    } else {
        c
    }
}

/// `str::eq_ignore_ascii_case`.
pub open spec fn eq_ignore_ascii_case(a: Seq<char>, b: Seq<char>) -> bool {
    &&& a.len() == b.len()
    &&& forall|i: int| 0 <= i < a.len() ==> ascii_lower(#[trigger] a[i]) == ascii_lower(b[i])
}

/// `a.to_ascii_lowercase().starts_with(b.to_ascii_lowercase())`.
pub open spec fn starts_with_ignore_ascii_case(a: Seq<char>, prefix: Seq<char>) -> bool {
    &&& prefix.len() <= a.len()
    &&& eq_ignore_ascii_case(a.take(prefix.len() as int), prefix)
}

fn ascii_lower_char(c: char) -> (r: char)
    ensures
        r == ascii_lower(c),
{
    if 'A' <= c && c <= 'Z' {
        let u: u8 = (c as u8) + 32u8;
        u as char
    } else {
        c
    }
}

/// Whether `a[from..]` starts with `b`, ignoring ASCII case.
fn region_eq_ignore_ascii_case(a: &[char], from: usize, b: &[char]) -> (r: bool)
    requires
        from + b@.len() <= a@.len(),
    ensures
        r == eq_ignore_ascii_case(a@.subrange(from as int, from + b@.len()), b@),
{
    let mut i: usize = 0;
    while i < b.len()
        invariant
            from + b@.len() <= a@.len(),
            a@.len() == a.len(),
            i <= b@.len(),
            forall|j: int| 0 <= j < i ==> ascii_lower(#[trigger] a@[from + j]) == ascii_lower(b@[j]),
        decreases b@.len() - i,
    {
        if ascii_lower_char(a[from + i]) != ascii_lower_char(b[i]) {
            proof {
                let sub = a@.subrange(from as int, from + b@.len());
                assert(sub[i as int] == a@[from + i]);
            }
            return false;
        }
        i = i + 1;
    }
    proof {
        let sub = a@.subrange(from as int, from + b@.len());
        assert forall|j: int| 0 <= j < sub.len() implies ascii_lower(#[trigger] sub[j])
            == ascii_lower(b@[j]) by {
            assert(sub[j] == a@[from + j]);
        }
    }
    true
}

/// `str::eq_ignore_ascii_case`.
pub fn eq_ignore_ascii_case_str(a: &str, b: &str) -> (r: bool)
    ensures
        r == eq_ignore_ascii_case(a@, b@),
{
    let ca = chars_of(a);
    let cb = chars_of(b);
    if ca.len() != cb.len() {
        return false;
    }
    let r = region_eq_ignore_ascii_case(ca.as_slice(), 0, cb.as_slice());
    proof {
        assert(a@.subrange(0, b@.len() as int) =~= a@);
    }
    r
}

/// `a.to_ascii_lowercase().starts_with(&prefix.to_ascii_lowercase())`.
pub fn starts_with_ignore_ascii_case_str(a: &str, prefix: &str) -> (r: bool)
    ensures
        r == starts_with_ignore_ascii_case(a@, prefix@),
{
    let ca = chars_of(a);
    let cp = chars_of(prefix);
    if cp.len() > ca.len() {
        return false;
    }
    let r = region_eq_ignore_ascii_case(ca.as_slice(), 0, cp.as_slice());
    proof {
        assert(a@.subrange(0, prefix@.len() as int) =~= a@.take(prefix@.len() as int));
    }
    r
}

/// `a + b` as a new string.
pub fn concat_str(a: &str, b: &str) -> (r: String)
    ensures
        r@ == a@ + b@,
{
    let s = a.to_owned();
    s.concat(b)
}

/// The first `n` characters of `s` (all of it when shorter).
pub fn take_chars(s: &str, n: usize) -> (r: &str)
    ensures
        r@ == s@.take(if n < s@.len() { n as int } else { s@.len() as int }),
{
    let len = s.unicode_len();
    let k = if n < len { n } else { len };
    s.substring_char(0, k)
}

/// String equality by characters.
pub fn str_eq(a: &str, b: &str) -> (r: bool)
    ensures
        r == (a@ == b@),
{
    let ca = chars_of(a);
    let cb = chars_of(b);
    if ca.len() != cb.len() {
        return false;
    }
    let mut i: usize = 0;
    while i < ca.len()
        invariant
            ca@ == a@,
            cb@ == b@,
            ca@.len() == cb@.len(),
            i <= ca@.len(),
            forall|j: int| 0 <= j < i ==> ca@[j] == cb@[j],
        decreases ca@.len() - i,
    {
        if ca[i] != cb[i] {
            return false;
        }
        i = i + 1;
    }
    proof {
        assert(a@ =~= b@);
    }
    true
}

/// The decimal digits of `n`, most significant first (`u64::to_string`).
pub open spec fn decimal(n: nat) -> Seq<char>
    decreases n,
{
    if n < 10 {
        seq![digit_char(n)]
    } else {
        decimal(n / 10).push(digit_char(n % 10))
    }
}

/// The ASCII digit for `d < 10`.
pub open spec fn digit_char(d: nat) -> char {
    ((d + 48) as u32) as char
}

fn digit_char_exec(d: u64) -> (c: char)
    requires
        d < 10,
    ensures
        c == digit_char(d as nat),
{
    let c = ((d as u8) + 48u8) as char;
    c
}

/// `n.to_string()`.
pub fn u64_to_decimal(n: u64) -> (s: String)
    ensures
        s@ == decimal(n as nat),
    decreases n,
{
    if n < 10 {
        let mut s = String::new();
        push_char(&mut s, digit_char_exec(n));
        proof {
            assert(s@ =~= decimal(n as nat));
        }
        s
    } else {
        let mut s = u64_to_decimal(n / 10);
        push_char(&mut s, digit_char_exec(n % 10));
        s
    }
}

/// The position of the first `c` in `s`.
pub open spec fn char_index(s: Seq<char>, c: char) -> Option<int>
    decreases s.len(),
{
    if s.len() == 0 {
        None
    } else if s[0] == c {
        Some(0)
    } else {
        match char_index(s.drop_first(), c) {
            Some(i) => Some(i + 1),
            None => None,
        }
    }
}

/// `str::split_once(c)`: the text before and after the first `c`.
pub open spec fn split_once(s: Seq<char>, c: char) -> Option<(Seq<char>, Seq<char>)> {
    match char_index(s, c) {
        Some(i) => Some((s.take(i), s.skip(i + 1))),
        None => None,
    }
}

pub(crate) proof fn lemma_char_index_at(s: Seq<char>, c: char, i: int)
    requires
        0 <= i <= s.len(),
        forall|j: int| 0 <= j < i ==> #[trigger] s[j] != c,
        i < s.len() ==> s[i] == c,
    ensures
        char_index(s, c) == (if i == s.len() {
            None
        } else {
            Some(i)
        }),
    decreases i,
{
    if i > 0 {
        assert forall|j: int| 0 <= j < i - 1 implies #[trigger] s.drop_first()[j] != c by {
            assert(s.drop_first()[j] == s[j + 1]);
        }
        lemma_char_index_at(s.drop_first(), c, i - 1);
    }
}

/// `str::split_once(c)`.
pub fn split_once_str(s: &str, c: char) -> (r: Option<(&str, &str)>)
    ensures
        match r {
            Some((a, b)) => split_once(s@, c) == Some((a@, b@)),
            None => split_once(s@, c) is None,
        },
{
    let cs = chars_of(s);
    let mut i: usize = 0;
    while i < cs.len()
        invariant
            cs@ == s@,
            i <= cs@.len(),
            forall|j: int| 0 <= j < i ==> #[trigger] s@[j] != c,
        decreases cs@.len() - i,
    {
        if cs[i] == c {
            proof {
                lemma_char_index_at(s@, c, i as int);
                assert(s@.subrange(0, i as int) =~= s@.take(i as int));
                assert(s@.subrange(i + 1, s@.len() as int) =~= s@.skip(i + 1));
            }
            return Some((s.substring_char(0, i), s.substring_char(i + 1, cs.len())));
        }
        i = i + 1;
    }
    proof {
        lemma_char_index_at(s@, c, i as int);
    }
    None
}

/// Trimming twice is trimming once.
pub proof fn lemma_trim_idempotent(s: Seq<char>)
    ensures
        trim(trim(s)) == trim(s),
{
    lemma_trim_start_of_trimmed(s);
    lemma_trim_end_idem(trim_start(s));
}

proof fn lemma_trim_end_idem(s: Seq<char>)
    ensures
        trim_end(trim_end(s)) == trim_end(s),
    decreases s.len(),
{
    if s.len() > 0 && is_white_space(s.last()) {
        lemma_trim_end_idem(s.drop_last());
    }
}

proof fn lemma_trim_start_idem(s: Seq<char>)
    ensures
        trim_start(trim_start(s)) == trim_start(s),
    decreases s.len(),
{
    if s.len() > 0 && is_white_space(s[0]) {
        lemma_trim_start_idem(s.drop_first());
    }
}

/// `trim_end` keeps a leading non-blank character.
proof fn lemma_trim_end_keeps_start(s: Seq<char>)
    ensures
        trim_end(s).len() == 0 || trim_end(s) == s.take(trim_end(s).len() as int),
        trim_end(s).len() <= s.len(),
        trim_end(s).len() > 0 ==> trim_end(s)[0] == s[0],
    decreases s.len(),
{
    if s.len() > 0 && is_white_space(s.last()) {
        lemma_trim_end_keeps_start(s.drop_last());
        let t = trim_end(s.drop_last());
        if t.len() > 0 {
            assert(s.drop_last().take(t.len() as int) =~= s.take(t.len() as int));
        }
    } else {
        assert(s.take(s.len() as int) =~= s);
    }
}

proof fn lemma_trim_start_of_trimmed(s: Seq<char>)
    ensures
        trim_start(trim_end(trim_start(s))) == trim_end(trim_start(s)),
{
    let a = trim_start(s);
    lemma_trim_start_idem(s);
    lemma_trim_end_keeps_start(a);
    let b = trim_end(a);
    if b.len() > 0 {
        lemma_trim_start_first(s);
        assert(!is_white_space(b[0]));
    }
}

proof fn lemma_trim_start_first(s: Seq<char>)
    ensures
        trim_start(s).len() > 0 ==> !is_white_space(trim_start(s)[0]),
    decreases s.len(),
{
    if s.len() > 0 && is_white_space(s[0]) {
        lemma_trim_start_first(s.drop_first());
    }
}

/// `Path::join` of a relative or absolute component on a Unix path: an absolute
/// component replaces the base; otherwise it is appended, with a `/` between them when
/// the base is non-empty and does not end in one.
pub open spec fn join_path(base: Seq<char>, comp: Seq<char>) -> Seq<char> {
    if comp.len() > 0 && comp[0] == '/' {
        comp
    } else if base.len() == 0 || base.last() == '/' {
        base + comp
    } else {
        base + seq!['/'] + comp
    }
}

/// `Path::new(base).join(comp)` as text.
pub fn join_path_str(base: &str, comp: &str) -> (r: String)
    ensures
        r@ == join_path(base@, comp@),
{
    let cc = chars_of(comp);
    if cc.len() > 0 && cc[0] == '/' {
        return comp.to_owned();
    }
    let cb = chars_of(base);
    if cb.len() == 0 || cb[cb.len() - 1] == '/' {
        concat_str(base, comp)
    } else {
        let with_sep = concat_str(base, "/");
        proof {
            reveal_strlit("/");
            assert("/"@ =~= seq!['/']);
        }
        with_sep.concat(comp)
    }
}

/// The length of `s` in UTF-8 bytes (`str::len`).
pub open spec fn byte_len(s: Seq<char>) -> nat {
    vstd::utf8::encode_utf8(s).len()
}

/// A string has at least as many bytes as characters.
pub proof fn lemma_byte_len_at_least_chars(s: Seq<char>)
    ensures
        byte_len(s) >= s.len(),
    decreases s.len(),
{
    if s.len() > 0 {
        lemma_byte_len_at_least_chars(s.drop_first());
    }
}

/// `str::len` as a `usize`.
pub open spec fn str_len(s: Seq<char>) -> usize {
    byte_len(s) as usize
}

/// `str::len`.
pub fn byte_len_str(s: &str) -> (n: usize)
    ensures
        n == str_len(s@),
{
    s.len()
}

/// A text that neither starts nor ends with white space is its own trimmed form.
pub proof fn lemma_trim_unpadded(s: Seq<char>)
    requires
        s.len() > 0,
        !is_white_space(s[0]),
        !is_white_space(s.last()),
    ensures
        trim(s) == s,
{
    assert(trim_start(s) == s);
}

proof fn lemma_trim_end_last(s: Seq<char>)
    ensures
        trim_end(s).len() > 0 ==> !is_white_space(trim_end(s).last()),
    decreases s.len(),
{
    if s.len() > 0 && is_white_space(s.last()) {
        lemma_trim_end_last(s.drop_last());
    }
}

/// A non-empty trimmed text starts and ends with non-white-space characters.
pub proof fn lemma_trim_ends(s: Seq<char>)
    ensures
        trim(s).len() > 0 ==> !is_white_space(trim(s)[0]) && !is_white_space(trim(s).last()),
{
    lemma_trim_start_first(s);
    lemma_trim_end_keeps_start(trim_start(s));
    lemma_trim_end_last(trim_start(s));
}


/// Lexicographic order on strings by code point, the order of `str`'s `<`.
pub open spec fn precedes(a: Seq<char>, b: Seq<char>) -> bool
    decreases a.len(),
{
    if a.len() == 0 {
        b.len() > 0
    } else if b.len() == 0 {
        false
    } else if a[0] == b[0] {
        precedes(a.drop_first(), b.drop_first())
    } else {
        a[0] < b[0]
    }
}

/// No string precedes itself.
pub proof fn lemma_precedes_irreflexive(a: Seq<char>)
    ensures
        !precedes(a, a),
    decreases a.len(),
{
    if a.len() > 0 {
        lemma_precedes_irreflexive(a.drop_first());
    }
}

/// Of two different strings, one precedes the other, and never both.
pub proof fn lemma_precedes_total(a: Seq<char>, b: Seq<char>)
    ensures
        a != b ==> (precedes(a, b) || precedes(b, a)),
        !(precedes(a, b) && precedes(b, a)),
    decreases a.len(),
{
    if a.len() > 0 && b.len() > 0 && a[0] == b[0] {
        lemma_precedes_total(a.drop_first(), b.drop_first());
        if a != b {
            assert(a.drop_first() != b.drop_first()) by {
                if a.drop_first() == b.drop_first() {
                    assert(a =~= seq![a[0]] + a.drop_first());
                    assert(b =~= seq![b[0]] + b.drop_first());
                }
            }
        }
    } else if a.len() == 0 && b.len() == 0 {
        assert(a =~= b);
    }
}

/// The order is transitive.
pub proof fn lemma_precedes_transitive(a: Seq<char>, b: Seq<char>, c: Seq<char>)
    requires
        precedes(a, b),
        precedes(b, c),
    ensures
        precedes(a, c),
    decreases a.len(),
{
    if a.len() > 0 && b.len() > 0 && c.len() > 0 && a[0] == b[0] && b[0] == c[0] {
        lemma_precedes_transitive(a.drop_first(), b.drop_first(), c.drop_first());
    }
}

/// Strings that agree on their first `i` characters are ordered as their rests are.
proof fn lemma_precedes_common_prefix(a: Seq<char>, b: Seq<char>, i: int)
    requires
        0 <= i <= a.len(),
        i <= b.len(),
        a.take(i) == b.take(i),
    ensures
        precedes(a, b) == precedes(a.skip(i), b.skip(i)),
    decreases i,
{
    if i > 0 {
        assert(a[0] == a.take(i)[0]);
        assert(b[0] == b.take(i)[0]);
        assert(a.drop_first().take(i - 1) =~= a.take(i).drop_first());
        assert(b.drop_first().take(i - 1) =~= b.take(i).drop_first());
        lemma_precedes_common_prefix(a.drop_first(), b.drop_first(), i - 1);
        assert(a.drop_first().skip(i - 1) =~= a.skip(i));
        assert(b.drop_first().skip(i - 1) =~= b.skip(i));
    } else {
        assert(a.skip(0) =~= a);
        assert(b.skip(0) =~= b);
    }
}

/// Whether `a` comes before `b` in code-point order.
pub fn str_precedes(a: &str, b: &str) -> (r: bool)
    ensures
        r == precedes(a@, b@),
{
    let ca = chars_of(a);
    let cb = chars_of(b);
    let mut i: usize = 0;
    while i < ca.len() && i < cb.len()
        invariant
            ca@ == a@,
            cb@ == b@,
            i <= ca@.len(),
            i <= cb@.len(),
            ca@.take(i as int) == cb@.take(i as int),
        decreases ca@.len() - i,
    {
        if ca[i] != cb[i] {
            proof {
                lemma_precedes_common_prefix(a@, b@, i as int);
                assert(a@.skip(i as int)[0] == ca@[i as int]);
                assert(b@.skip(i as int)[0] == cb@[i as int]);
            }
            return ca[i] < cb[i];
        }
        proof {
            assert(ca@.take(i + 1) =~= ca@.take(i as int).push(ca@[i as int]));
            assert(cb@.take(i + 1) =~= cb@.take(i as int).push(cb@[i as int]));
        }
        i = i + 1;
    }
    proof {
        lemma_precedes_common_prefix(a@, b@, i as int);
    }
    i < cb.len()
}

/// The first `c` is in bounds, and no `c` comes before it.
pub proof fn lemma_char_index_bound(s: Seq<char>, c: char)
    ensures
        char_index(s, c) matches Some(i) ==> 0 <= i < s.len() && s[i] == c && forall|j: int|
            0 <= j < i ==> s[j] != c,
    decreases s.len(),
{
    if s.len() > 0 && s[0] != c {
        lemma_char_index_bound(s.drop_first(), c);
        if let Some(i) = char_index(s.drop_first(), c) {
            assert forall|j: int| 0 <= j < i + 1 implies s[j] != c by {
                if j > 0 {
                    assert(s[j] == s.drop_first()[j - 1]);
                }
            }
        }
    }
}

/// A line without the `\r` of a `\r\n` line ending.
pub open spec fn strip_cr(line: Seq<char>) -> Seq<char> {
    if line.len() > 0 && line.last() == '\r' {
        line.drop_last()
    } else {
        line
    }
}

/// `str::lines`: the text split at `\n` (and `\r\n`) line endings; a final line ending
/// adds no empty line.
pub open spec fn text_lines(s: Seq<char>) -> Seq<Seq<char>>
    decreases s.len(),
{
    if s.len() == 0 {
        seq![]
    } else {
        match char_index(s, '\n') {
            Some(i) => {
                proof {
                    lemma_char_index_bound(s, '\n');
                }
                seq![strip_cr(s.take(i))] + text_lines(s.skip(i + 1))
            },
            None => seq![s],
        }
    }
}

/// Whether `needle` occurs in `hay`.
pub open spec fn contains_seq(hay: Seq<char>, needle: Seq<char>) -> bool {
    exists|i: int| 0 <= i <= hay.len() - needle.len() && #[trigger] hay.subrange(i, i + needle.len()) == needle
}

/// Whether some line of `text` contains `needle`.
pub open spec fn some_line_contains(text: Seq<char>, needle: Seq<char>) -> bool {
    exists|k: int| 0 <= k < text_lines(text).len() && contains_seq(#[trigger] text_lines(text)[k], needle)
}

/// `str::contains` for a string pattern.
pub fn str_contains(hay: &str, needle: &str) -> (r: bool)
    ensures
        r == contains_seq(hay@, needle@),
{
    let h = chars_of(hay);
    let n = chars_of(needle);
    if n.len() > h.len() {
        return false;
    }
    if n.len() == 0 {
        proof {
            assert(hay@.subrange(0int, 0int + needle@.len()) =~= needle@);
        }
        return true;
    }
    let hl = h.len();
    let last = hl - n.len();
    let mut i: usize = 0;
    while i <= last
        invariant
            hl == h@.len(),
            h@ == hay@,
            n@ == needle@,
            last == h@.len() - n@.len(),
            0 < n@.len() <= h@.len(),
            i <= last + 1,
            forall|k: int| 0 <= k < i ==> #[trigger] hay@.subrange(k, k + needle@.len()) != needle@,
        decreases last + 1 - i,
    {
        let mut j: usize = 0;
        let mut same = true;
        while j < n.len()
            invariant
                hl == h@.len(),
                h@ == hay@,
                n@ == needle@,
                last == h@.len() - n@.len(),
                0 < n@.len() <= h@.len(),
                i <= last,
                j <= n@.len(),
                same ==> forall|t: int| 0 <= t < j ==> h@[i + t] == n@[t],
                !same ==> hay@.subrange(i as int, i + needle@.len()) != needle@,
            decreases n@.len() - j,
        {
            if same && h[i + j] != n[j] {
                proof {
                    assert(hay@.subrange(i as int, i + needle@.len())[j as int] == h@[i + j]);
                }
                same = false;
            }
            j = j + 1;
        }
        if same {
            proof {
                assert(hay@.subrange(i as int, i + needle@.len()) =~= needle@);
            }
            return true;
        }
        i = i + 1;
    }
    false
}

/// `line` without a final `\r`.
pub fn strip_cr_str(line: &str) -> (r: &str)
    ensures
        r@ == strip_cr(line@),
{
    let len = line.unicode_len();
    if len > 0 && line.get_char(len - 1) == '\r' {
        line.substring_char(0, len - 1)
    } else {
        line
    }
}

proof fn lemma_some_line_contains_unfold(s: Seq<char>, needle: Seq<char>)
    requires
        s.len() > 0,
    ensures
        split_once(s, '\n') matches Some((line, rest)) ==> (some_line_contains(s, needle) == (
        contains_seq(strip_cr(line), needle) || some_line_contains(rest, needle))),
        split_once(s, '\n') is None ==> (some_line_contains(s, needle) == contains_seq(s, needle)),
{
    lemma_char_index_bound(s, '\n');
    if let Some((line, rest)) = split_once(s, '\n') {
        let ls = text_lines(s);
        let lr = text_lines(rest);
        assert(ls == seq![strip_cr(line)] + lr);
        if some_line_contains(rest, needle) {
            let k = choose|k: int| 0 <= k < lr.len() && contains_seq(#[trigger] lr[k], needle);
            assert(ls[k + 1] == lr[k]);
        }
        if some_line_contains(s, needle) {
            let k = choose|k: int| 0 <= k < ls.len() && contains_seq(#[trigger] ls[k], needle);
            if k > 0 {
                assert(ls[k] == lr[k - 1]);
            }
        }
        if contains_seq(strip_cr(line), needle) {
            assert(ls[0] == strip_cr(line));
        }
    } else {
        assert(text_lines(s) == seq![s]);
        if contains_seq(s, needle) {
            assert(text_lines(s)[0] == s);
        }
    }
}

/// Whether some line of `text` (as `str::lines` splits it) contains `needle`.
pub fn any_line_contains(text: &str, needle: &str) -> (r: bool)
    ensures
        r == some_line_contains(text@, needle@),
{
    let mut rest: &str = text;
    while rest.unicode_len() > 0
        invariant
            some_line_contains(text@, needle@) == some_line_contains(rest@, needle@),
        decreases rest@.len(),
    {
        proof {
            lemma_some_line_contains_unfold(rest@, needle@);
            lemma_char_index_bound(rest@, '\n');
        }
        match split_once_str(rest, '\n') {
            Some((line, after)) => {
                if str_contains(strip_cr_str(line), needle) {
                    return true;
                }
                rest = after;
            },
            None => {
                return str_contains(rest, needle);
            },
        }
    }
    proof {
        assert(text_lines(rest@) == Seq::<Seq<char>>::empty());
    }
    false
}

/// Whether `c` is an ASCII digit.
pub open spec fn is_digit(c: char) -> bool {
    '0' <= c <= '9'
}

/// The number written by a string of ASCII digits.
pub open spec fn digits_value(d: Seq<char>) -> nat
    decreases d.len(),
{
    if d.len() == 0 {
        0
    } else {
        digits_value(d.drop_last()) * 10 + (d.last() as nat - '0' as nat) as nat
    }
}

/// `s` without one leading `+`.
pub open spec fn unsigned_digits(s: Seq<char>) -> Seq<char> {
    if s.len() > 0 && s[0] == '+' {
        s.drop_first()
    } else {
        s
    }
}

/// `str::parse::<u32>`: an optional `+` and one or more ASCII digits whose value fits
/// in a `u32`.
pub open spec fn parse_u32(s: Seq<char>) -> Option<u32> {
    let d = unsigned_digits(s);
    if d.len() > 0 && (forall|i: int| 0 <= i < d.len() ==> is_digit(#[trigger] d[i]))
        && digits_value(d) <= u32::MAX {
        Some(digits_value(d) as u32)
    } else {
        None
    }
}

proof fn lemma_digits_value_grows(d: Seq<char>, i: int)
    requires
        0 <= i <= d.len(),
        forall|k: int| 0 <= k < d.len() ==> is_digit(#[trigger] d[k]),
    ensures
        digits_value(d.take(i)) <= digits_value(d),
    decreases d.len() - i,
{
    if i < d.len() {
        lemma_digits_value_grows(d, i + 1);
        assert(d.take(i + 1).drop_last() =~= d.take(i));
    } else {
        assert(d.take(i) =~= d);
    }
}

/// `str::parse::<u32>` (see `parse_u32`).
pub fn parse_u32_str(s: &str) -> (r: Option<u32>)
    ensures
        r == parse_u32(s@),
{
    let cs = chars_of(s);
    let start: usize = if cs.len() > 0 && cs[0] == '+' {
        1
    } else {
        0
    };
    let ghost d = unsigned_digits(s@);
    proof {
        assert(d =~= s@.skip(start as int));
    }
    if start >= cs.len() {
        return None;
    }
    let mut value: u64 = 0;
    let mut i: usize = start;
    while i < cs.len()
        invariant
            cs@ == s@,
            d == s@.skip(start as int),
            d == unsigned_digits(s@),
            d.len() > 0,
            start <= i <= cs@.len(),
            forall|k: int| 0 <= k < i - start ==> is_digit(#[trigger] d[k]),
            value == digits_value(d.take(i - start)),
            value <= u32::MAX,
        decreases cs@.len() - i,
    {
        let c = cs[i];
        if !('0' <= c && c <= '9') {
            proof {
                assert(d[i - start] == c);
                assert(!is_digit(d[i - start]));
            }
            return None;
        }
        let digit = (c as u32 - '0' as u32) as u64;
        proof {
            assert(d.take(i - start + 1).drop_last() =~= d.take(i - start));
            assert(d.take(i - start + 1).last() == c);
        }
        value = value * 10 + digit;
        proof {
            assert(is_digit(d[i - start]));
            assert(value == digits_value(d.take(i - start + 1)));
        }
        if value > 0xffff_ffff {
            proof {
                if forall|k: int| 0 <= k < d.len() ==> is_digit(#[trigger] d[k]) {
                    lemma_digits_value_grows(d, i - start + 1);
                }
            }
            return None;
        }
        i = i + 1;
    }
    proof {
        assert(d.take(i - start) =~= d);
    }
    Some(value as u32)
}
} // verus!
