use vstd::prelude::*;

verus! {

/// Appends one character to a string (`String::push`).
#[verifier::external_body]
pub(crate) fn push_char(s: &mut String, c: char)
    ensures
        final(s)@ == old(s)@.push(c),
{
    s.push(c);
}

/// The characters of a string slice, in order.
pub fn chars_of(s: &str) -> (v: Vec<char>)
    ensures
        v@ == s@,
{
    let mut v: Vec<char> = Vec::new();
    for c in it: s.chars()
        invariant
            v@ == it.history(),
    {
        v.push(c);
    }
    v
}

/// A string made of the given characters, in order.
pub fn string_from_chars(cs: &[char]) -> (s: String)
    ensures
        s@ == cs@,
{
    let mut s = String::new();
    let n: usize = cs.len();
    for i in 0..n
        invariant
            n == cs@.len(),
            s@ == cs@.take(i as int),
    {
        push_char(&mut s, cs[i]);
        assert(cs@.take(i + 1) == cs@.take(i as int).push(cs@[i as int]));
    }
    assert(cs@.take(n as int) == cs@);
    s
}

/// Whether two character sequences are equal.
pub fn chars_eq(a: &[char], b: &[char]) -> (r: bool)
    ensures
        r == (a@ == b@),
{
    if a.len() != b.len() {
        return false;
    }
    let n: usize = a.len();
    for i in 0..n
        invariant
            n == a@.len(),
            n == b@.len(),
            forall|j: int| 0 <= j < i ==> a@[j] == b@[j],
    {
        if a[i] != b[i] {
            return false;
        }
    }
    assert(a@ =~= b@);
    true
}

/// Whether a character sequence spells the given string.
pub fn chars_eq_str(a: &[char], s: &str) -> (r: bool)
    ensures
        r == (a@ == s@),
{
    let b = chars_of(s);
    chars_eq(a, b.as_slice())
}

/// Whether two string slices hold the same characters.
pub fn str_eq(a: &str, b: &str) -> (r: bool)
    ensures
        r == (a@ == b@),
{
    let x = chars_of(a);
    let y = chars_of(b);
    chars_eq(x.as_slice(), y.as_slice())
}

/// The concatenation of two string slices.
pub fn concat_str(a: &str, b: &str) -> (s: String)
    ensures
        s@ == a@ + b@,
{
    let mut v = chars_of(a);
    let w = chars_of(b);
    let n: usize = w.len();
    for i in 0..n
        invariant
            n == w@.len(),
            v@ == a@ + w@.take(i as int),
    {
        v.push(w[i]);
        assert(w@.take(i + 1) == w@.take(i as int).push(w@[i as int]));
    }
    assert(w@.take(n as int) == w@);
    string_from_chars(v.as_slice())
}

/// An ASCII letter (`char::is_ascii_alphabetic`).
pub open spec fn is_ascii_alpha(c: char) -> bool {
    ('a' <= c && c <= 'z') || ('A' <= c && c <= 'Z')
}

/// The upper-case form of an ASCII letter; any other character is kept
/// (`char::to_ascii_uppercase`).
pub open spec fn ascii_upper(c: char) -> char {
    if 'a' <= c && c <= 'z' {
        ((c as u32) - 32) as char
    } else {
        c
    }
}

/// The lower-case form of an ASCII letter; any other character is kept
/// (`char::to_ascii_lowercase`).
pub open spec fn ascii_lower(c: char) -> char {
    if 'A' <= c && c <= 'Z' {
        ((c as u32) + 32) as char
    } else {
        c
    }
}

/// Whether a character is an ASCII letter.
pub fn is_ascii_alpha_char(c: char) -> (r: bool)
    ensures
        r == is_ascii_alpha(c),
{
    ('a' <= c && c <= 'z') || ('A' <= c && c <= 'Z')
}

/// The upper-case form of an ASCII letter; any other character is kept.
pub fn to_ascii_upper(c: char) -> (r: char)
    ensures
        r == ascii_upper(c),
{
    if 'a' <= c && c <= 'z' {
        let b: u8 = (c as u32 - 32) as u8;
        b as char
    } else {
        c
    }
}


/// A decimal digit.
pub open spec fn is_digit(c: char) -> bool {
    '0' <= c && c <= '9'
}

/// Every character is a decimal digit.
pub open spec fn all_digits(s: Seq<char>) -> bool {
    forall|i: int| 0 <= i < s.len() ==> is_digit(#[trigger] s[i])
}

/// The number that a string of decimal digits spells.
pub open spec fn digits_value(s: Seq<char>) -> nat
    decreases s.len(),
{
    if s.len() == 0 {
        0
    } else {
        digits_value(s.drop_last()) * 10 + ((s.last() as u32) - ('0' as u32)) as nat
    }
}

/// An unsigned decimal number: an optional `+`, then one or more digits.
pub open spec fn unsigned_digits(s: Seq<char>) -> Seq<char> {
    if s.len() > 0 && s[0] == '+' {
        s.skip(1)
    } else {
        s
    }
}

/// What `str::parse::<u32>` gives: the value of an optional `+` followed by one or
/// more decimal digits, when it fits in a `u32`.
pub open spec fn parse_u32_spec(s: Seq<char>) -> Option<u32> {
    let d = unsigned_digits(s);
    if d.len() > 0 && all_digits(d) && digits_value(d) <= u32::MAX {
        Some(digits_value(d) as u32)
    } else {
        None
    }
}

/// What `str::parse::<i32>` gives: an optional sign followed by one or more decimal
/// digits, when the value fits in an `i32`.
pub open spec fn parse_i32_spec(s: Seq<char>) -> Option<i32> {
    if s.len() > 0 && s[0] == '-' {
        let d = s.skip(1);
        if d.len() > 0 && all_digits(d) && digits_value(d) <= 0x8000_0000 {
            Some((0 - digits_value(d)) as i32)
        } else {
            None
        }
    } else {
        let d = unsigned_digits(s);
        if d.len() > 0 && all_digits(d) && digits_value(d) <= i32::MAX {
            Some(digits_value(d) as i32)
        } else {
            None
        }
    }
}

/// A longer string of digits is worth at least as much as any of its prefixes.
pub proof fn lemma_digits_value_prefix(s: Seq<char>, i: int)
    requires
        0 <= i <= s.len(),
        all_digits(s),
    ensures
        digits_value(s.take(i)) <= digits_value(s),
    decreases s.len(),
{
    if i < s.len() {
        assert(s.drop_last().take(i) == s.take(i));
        lemma_digits_value_prefix(s.drop_last(), i);
    } else {
        assert(s.take(i) == s);
    }
}

/// The value of a string of decimal digits, if it fits in a `u64` and is at most `limit`.
fn digits_value_upto(d: &[char], start: usize, limit: u64) -> (r: Option<u64>)
    requires
        start <= d@.len(),
        9 <= limit,
    ensures
        match r {
            Some(v) => all_digits(d@.skip(start as int)) && v == digits_value(d@.skip(start as int))
                && v <= limit,
            None => !(all_digits(d@.skip(start as int)) && digits_value(d@.skip(start as int))
                <= limit),
        },
{
    let ghost t = d@.skip(start as int);
    let mut v: u64 = 0;
    let n: usize = d.len();
    let mut i: usize = start;
    while i < n
        invariant
            start <= i <= n,
            n == d@.len(),
            t == d@.skip(start as int),
            all_digits(t.take(i - start)),
            v == digits_value(t.take(i - start)),
            v <= limit,
            9 <= limit,
        decreases n - i,
    {
        let c = d[i];
        let ghost k: int = i - start;
        assert(t[k] == c);
        if !('0' <= c && c <= '9') {
            assert(!all_digits(t));
            return None;
        }
        let dv: u64 = (c as u32 - '0' as u32) as u64;
        assert(t.take(k + 1).drop_last() == t.take(k));
        assert(all_digits(t.take(k + 1)));
        if v > (limit - dv) / 10 {
            proof {
                assert(digits_value(t.take(k + 1)) == v * 10 + dv);
                assert(v * 10 + dv > limit) by (nonlinear_arith)
                    requires
                        v > (limit - dv) / 10,
                        dv <= limit,
                ;
                if all_digits(t) {
                    lemma_digits_value_prefix(t, k + 1);
                }
            }
            return None;
        }
        assert(v * 10 + dv <= limit) by (nonlinear_arith)
            requires
                v <= (limit - dv) / 10,
                dv <= limit,
        ;
        v = v * 10 + dv;
        i = i + 1;
    }
    assert(t.take(n - start) == t);
    Some(v)
}


/// Parses an unsigned decimal number as `str::parse::<u32>` does.
pub fn parse_u32(cs: &[char]) -> (r: Option<u32>)
    ensures
        r == parse_u32_spec(cs@),
{
    let start: usize = if cs.len() > 0 && cs[0] == '+' { 1 } else { 0 };
    assert(cs@.skip(start as int) == unsigned_digits(cs@));
    if start >= cs.len() {
        return None;
    }
    match digits_value_upto(cs, start, 0xFFFF_FFFF) {
        Some(v) => Some(v as u32),
        None => None,
    }
}

/// Parses a signed decimal number as `str::parse::<i32>` does.
pub fn parse_i32(cs: &[char]) -> (r: Option<i32>)
    ensures
        r == parse_i32_spec(cs@),
{
    if cs.len() > 0 && cs[0] == '-' {
        if cs.len() == 1 {
            return None;
        }
        match digits_value_upto(cs, 1, 0x8000_0000) {
            Some(v) => {
                let m: i64 = 0 - (v as i64);
                Some(m as i32)
            },
            None => None,
        }
    } else {
        let start: usize = if cs.len() > 0 && cs[0] == '+' { 1 } else { 0 };
        assert(cs@.skip(start as int) == unsigned_digits(cs@));
        if start >= cs.len() {
            return None;
        }
        match digits_value_upto(cs, start, 0x7FFF_FFFF) {
            Some(v) => Some(v as i32),
            None => None,
        }
    }
}


/// Lexicographic order of character strings, character by character (the order of
/// `String`'s `cmp`): `a` comes before `b` or equals it.
pub open spec fn chars_le(a: Seq<char>, b: Seq<char>) -> bool
    decreases a.len(),
{
    if a.len() == 0 {
        true
    } else if b.len() == 0 {
        false
    } else if a[0] != b[0] {
        a[0] < b[0]
    } else {
        chars_le(a.skip(1), b.skip(1))
    }
}

/// Any two texts are ordered one way or the other.
pub proof fn lemma_chars_le_total(a: Seq<char>, b: Seq<char>)
    ensures
        chars_le(a, b) || chars_le(b, a),
    decreases a.len(),
{
    if a.len() > 0 && b.len() > 0 {
        if a[0] == b[0] {
            lemma_chars_le_total(a.skip(1), b.skip(1));
        }
    }
}

/// Two texts that each come before or equal the other are equal.
pub proof fn lemma_chars_le_antisymmetric(a: Seq<char>, b: Seq<char>)
    requires
        chars_le(a, b),
        chars_le(b, a),
    ensures
        a == b,
    decreases a.len(),
{
    if a.len() > 0 && b.len() > 0 {
        lemma_chars_le_antisymmetric(a.skip(1), b.skip(1));
        assert(a =~= seq![a[0]] + a.skip(1));
        assert(b =~= seq![b[0]] + b.skip(1));
    }
}

/// The lexicographic order is transitive.
pub proof fn lemma_chars_le_transitive(a: Seq<char>, b: Seq<char>, c: Seq<char>)
    requires
        chars_le(a, b),
        chars_le(b, c),
    ensures
        chars_le(a, c),
    decreases a.len(),
{
    if a.len() > 0 && b.len() > 0 && c.len() > 0 && a[0] == b[0] && b[0] == c[0] {
        lemma_chars_le_transitive(a.skip(1), b.skip(1), c.skip(1));
    }
}

/// Whether `a` comes before `b` in lexicographic order, or equals it.
pub fn chars_le_exec(a: &[char], b: &[char]) -> (r: bool)
    ensures
        r == chars_le(a@, b@),
{
    let n: usize = a.len();
    let m: usize = b.len();
    let mut i: usize = 0;
    assert(a@.skip(0) == a@);
    assert(b@.skip(0) == b@);
    while i < n && i < m && a[i] == b[i]
        invariant
            i <= n,
            i <= m,
            n == a@.len(),
            m == b@.len(),
            chars_le(a@, b@) == chars_le(a@.skip(i as int), b@.skip(i as int)),
        decreases n - i,
    {
        assert(a@.skip(i as int).skip(1) == a@.skip(i + 1));
        assert(b@.skip(i as int).skip(1) == b@.skip(i + 1));
        i = i + 1;
    }
    if i == n {
        true
    } else if i == m {
        false
    } else {
        a[i] < b[i]
    }
}


/// Every text comes before or equals itself.
pub proof fn lemma_chars_le_reflexive(a: Seq<char>)
    ensures
        chars_le(a, a),
    decreases a.len(),
{
    if a.len() > 0 {
        lemma_chars_le_reflexive(a.skip(1));
    }
}

/// The Unicode lower-case form of a string, as `str::to_lowercase` gives it.
pub uninterp spec fn lowercase(s: Seq<char>) -> Seq<char>;

/// The lower-case form of a string (`str::to_lowercase`).
#[verifier::external_body]
pub(crate) fn to_lowercase(s: &str) -> (r: String)
    ensures
        r@ == lowercase(s@),
{
    s.to_lowercase()
}

/// Item `a` at input position `ia` goes before item `b` at input position `ib`
/// when sorting by the keys `ka`, `kb` and keeping the order of equal keys.
pub open spec fn goes_before(ka: Seq<char>, ia: int, kb: Seq<char>, ib: int) -> bool {
    (chars_le(ka, kb) && ka != kb) || (ka == kb && ia < ib)
}

/// `perm` shows that `out` is `items` sorted by lower-case form, with items of equal
/// lower-case form in their input order: `out[i]` is `items[perm[i]]`.
pub open spec fn is_lowercase_sort_witness(
    items: Seq<Seq<char>>,
    out: Seq<Seq<char>>,
    perm: Seq<int>,
) -> bool {
    &&& out.len() == items.len()
    &&& perm.len() == items.len()
    &&& forall|i: int| 0 <= i < perm.len() ==> 0 <= #[trigger] perm[i] < items.len()
    &&& forall|i: int| 0 <= i < out.len() ==> #[trigger] out[i] == items[perm[i]]
    &&& forall|i: int, j: int| 0 <= i < perm.len() && 0 <= j < perm.len() && i != j ==> perm[i] != perm[j]
    &&& forall|i: int, j: int|
        0 <= i < j < out.len() ==> goes_before(lowercase(out[i]), perm[i], lowercase(out[j]), perm[j])
}

/// `out` is `items` sorted by lower-case form, items of equal lower-case form keeping
/// their order (a stable sort, as `sort_by` on the lower-case forms gives).
pub open spec fn sorted_by_lowercase(items: Seq<Seq<char>>, out: Seq<Seq<char>>) -> bool {
    exists|perm: Seq<int>| is_lowercase_sort_witness(items, out, perm)
}

/// The characters of each string.
pub open spec fn string_views(v: Seq<String>) -> Seq<Seq<char>> {
    v.map_values(|s: String| s@)
}

/// Sorts strings by their lower-case forms, keeping the order of strings whose
/// lower-case forms are equal.
pub fn sort_by_lowercase(items: &Vec<String>) -> (out: Vec<String>)
    ensures
        sorted_by_lowercase(string_views(items@), string_views(out@)),
{
    let ghost it = string_views(items@);
    let mut out: Vec<String> = Vec::new();
    let mut keys: Vec<Vec<char>> = Vec::new();
    let ghost mut perm: Seq<int> = Seq::empty();
    let n: usize = items.len();
    for m in 0..n
        invariant
            n == items@.len(),
            it == string_views(items@),
            out@.len() == m,
            keys@.len() == m,
            perm.len() == m,
            forall|i: int| 0 <= i < m ==> #[trigger] keys@[i]@ == lowercase(out@[i]@),
            forall|i: int| 0 <= i < m ==> 0 <= #[trigger] perm[i] < m,
            forall|i: int| 0 <= i < m ==> #[trigger] out@[i]@ == it[perm[i]],
            forall|i: int, j: int| 0 <= i < m && 0 <= j < m && i != j ==> perm[i] != perm[j],
            forall|i: int, j: int|
                0 <= i < j < m ==> goes_before(keys@[i]@, perm[i], keys@[j]@, perm[j]),
    {
        let low = to_lowercase(items[m].as_str());
        let key = chars_of(low.as_str());
        let mut p: usize = 0;
        while p < keys.len() && chars_le_exec(keys[p].as_slice(), key.as_slice())
            invariant
                p <= keys@.len(),
                forall|j: int| 0 <= j < p ==> chars_le(#[trigger] keys@[j]@, key@),
            decreases keys@.len() - p,
        {
            p = p + 1;
        }
        proof {
            assert forall|j: int| p <= j < m implies chars_le(key@, #[trigger] keys@[j]@) && key@
                != keys@[j]@ by {
                if j > p {
                    assert(goes_before(keys@[p as int]@, perm[p as int], keys@[j]@, perm[j]));
                    if keys@[p as int]@ == keys@[j]@ {
                        lemma_chars_le_reflexive(keys@[j]@);
                    }
                    if chars_le(keys@[j]@, key@) {
                        lemma_chars_le_transitive(keys@[p as int]@, keys@[j]@, key@);
                    }
                }
                lemma_chars_le_total(key@, keys@[j]@);
                if key@ == keys@[j]@ {
                    lemma_chars_le_reflexive(key@);
                }
            }
        }
        let ghost old_out = out@;
        let ghost old_keys = keys@;
        let ghost old_perm = perm;
        out.insert(p, items[m].clone());
        keys.insert(p, key);
        proof {
            perm = perm.insert(p as int, m as int);
            assert forall|i: int| 0 <= i < m + 1 implies #[trigger] keys@[i]@ == lowercase(out@[i]@) by {
                if i < p {
                    assert(keys@[i] == old_keys[i]);
                    assert(out@[i] == old_out[i]);
                } else if i > p {
                    assert(keys@[i] == old_keys[i - 1]);
                    assert(out@[i] == old_out[i - 1]);
                }
            }
            assert forall|i: int| 0 <= i < m + 1 implies 0 <= #[trigger] perm[i] < m + 1 by {
                if i < p {
                    assert(perm[i] == old_perm[i]);
                } else if i > p {
                    assert(perm[i] == old_perm[i - 1]);
                }
            }
            assert forall|i: int| 0 <= i < m + 1 implies #[trigger] out@[i]@ == it[perm[i]] by {
                if i < p {
                    assert(perm[i] == old_perm[i]);
                    assert(out@[i] == old_out[i]);
                } else if i > p {
                    assert(perm[i] == old_perm[i - 1]);
                    assert(out@[i] == old_out[i - 1]);
                }
            }
            assert forall|i: int, j: int| 0 <= i < m + 1 && 0 <= j < m + 1 && i != j implies perm[i]
                != perm[j] by {
                if i != p && j != p {
                    let oi = if i < p { i } else { i - 1 };
                    let oj = if j < p { j } else { j - 1 };
                    assert(perm[i] == old_perm[oi]);
                    assert(perm[j] == old_perm[oj]);
                } else if i == p {
                    let oj = if j < p { j } else { j - 1 };
                    assert(perm[j] == old_perm[oj]);
                } else {
                    let oi = if i < p { i } else { i - 1 };
                    assert(perm[i] == old_perm[oi]);
                }
            }
            assert forall|i: int, j: int| 0 <= i < j < m + 1 implies goes_before(
                keys@[i]@,
                perm[i],
                keys@[j]@,
                perm[j],
            ) by {
                if i != p && j != p {
                    let oi = if i < p { i } else { i - 1 };
                    let oj = if j < p { j } else { j - 1 };
                    assert(perm[i] == old_perm[oi]);
                    assert(perm[j] == old_perm[oj]);
                    assert(keys@[i] == old_keys[oi]);
                    assert(keys@[j] == old_keys[oj]);
                } else if i == p {
                    assert(perm[j] == old_perm[j - 1]);
                    assert(keys@[j] == old_keys[j - 1]);
                    assert(chars_le(key@, old_keys[j - 1]@));
                } else {
                    assert(perm[i] == old_perm[i]);
                    assert(keys@[i] == old_keys[i]);
                    assert(chars_le(old_keys[i]@, key@));
                }
            }
        }
    }
    proof {
        let o = string_views(out@);
        assert forall|i: int, j: int| 0 <= i < j < o.len() implies goes_before(
            lowercase(o[i]),
            perm[i],
            lowercase(o[j]),
            perm[j],
        ) by {
            assert(keys@[i]@ == lowercase(out@[i]@));
            assert(keys@[j]@ == lowercase(out@[j]@));
        }
        assert(is_lowercase_sort_witness(it, o, perm));
    }
    out
}


/// A Unicode white-space character (`char::is_whitespace`).
pub open spec fn is_white_space(c: char) -> bool {
    ||| ('\t' <= c && c <= '\r')
    ||| c == ' '
    ||| c == '\u{85}'
    ||| c == '\u{A0}'
    ||| c == '\u{1680}'
    ||| ('\u{2000}' <= c && c <= '\u{200A}')
    ||| c == '\u{2028}'
    ||| c == '\u{2029}'
    ||| c == '\u{202F}'
    ||| c == '\u{205F}'
    ||| c == '\u{3000}'
}

/// Whether a character is white space (`char::is_whitespace`).
pub fn is_white_space_char(c: char) -> (r: bool)
    ensures
        r == is_white_space(c),
{
    ('\t' <= c && c <= '\r') || c == ' ' || c == '\u{85}' || c == '\u{A0}' || c == '\u{1680}' || ('\u{2000}'
        <= c && c <= '\u{200A}') || c == '\u{2028}' || c == '\u{2029}' || c == '\u{202F}' || c == '\u{205F}'
        || c == '\u{3000}'
}

/// A string without its leading white space.
pub open spec fn trim_start_spec(s: Seq<char>) -> Seq<char>
    decreases s.len(),
{
    if s.len() > 0 && is_white_space(s[0]) {
        trim_start_spec(s.skip(1))
    } else {
        s
    }
}

/// A string without its trailing white space.
pub open spec fn trim_end_spec(s: Seq<char>) -> Seq<char>
    decreases s.len(),
{
    if s.len() > 0 && is_white_space(s.last()) {
        trim_end_spec(s.drop_last())
    } else {
        s
    }
}

/// A string without its leading and trailing white space (`str::trim`).
pub open spec fn trim_spec(s: Seq<char>) -> Seq<char> {
    trim_end_spec(trim_start_spec(s))
}

/// The characters `from..to` of a slice.
pub fn chars_between(cs: &[char], from: usize, to: usize) -> (r: Vec<char>)
    requires
        from <= to <= cs@.len(),
    ensures
        r@ == cs@.subrange(from as int, to as int),
{
    let mut r: Vec<char> = Vec::new();
    let mut k: usize = from;
    while k < to
        invariant
            from <= k <= to,
            to <= cs@.len(),
            r@ == cs@.subrange(from as int, k as int),
        decreases to - k,
    {
        r.push(cs[k]);
        assert(cs@.subrange(from as int, k + 1) == cs@.subrange(from as int, k as int).push(cs@[k as int]));
        k = k + 1;
    }
    r
}

/// A string without its leading and trailing white space (`str::trim`).
pub fn trim_chars(cs: &[char]) -> (r: Vec<char>)
    ensures
        r@ == trim_spec(cs@),
{
    let n: usize = cs.len();
    let mut a: usize = 0;
    assert(cs@.skip(0) == cs@);
    while a < n && is_white_space_char(cs[a])
        invariant
            a <= n,
            n == cs@.len(),
            trim_start_spec(cs@) == trim_start_spec(cs@.skip(a as int)),
        decreases n - a,
    {
        assert(cs@.skip(a as int).skip(1) == cs@.skip(a + 1));
        a = a + 1;
    }
    let ghost t = cs@.skip(a as int);
    assert(trim_start_spec(cs@) == t);
    let mut b: usize = n;
    assert(t.take(n - a) == t);
    while b > a && is_white_space_char(cs[b - 1])
        invariant
            a <= b <= n,
            n == cs@.len(),
            t == cs@.skip(a as int),
            trim_end_spec(t) == trim_end_spec(t.take(b - a)),
        decreases b,
    {
        assert(t.take(b - a).drop_last() == t.take(b - 1 - a));
        assert(t.take(b - a).last() == cs@[b - 1]);
        b = b - 1;
    }
    assert(t.take(b - a) == cs@.subrange(a as int, b as int));
    chars_between(cs, a, b)
}


/// The pieces of a string between the occurrences of `sep` (`str::split`): always at
/// least one.
pub open spec fn split_on(s: Seq<char>, sep: char) -> Seq<Seq<char>>
    decreases s.len(),
{
    if s.len() == 0 {
        seq![Seq::<char>::empty()]
    } else {
        let parts = split_on(s.drop_last(), sep);
        if s.last() == sep {
            parts.push(Seq::<char>::empty())
        } else {
            parts.update(parts.len() - 1, parts.last().push(s.last()))
        }
    }
}

/// Splitting a text always gives at least one piece.
pub proof fn lemma_split_on_nonempty(s: Seq<char>, sep: char)
    ensures
        split_on(s, sep).len() >= 1,
    decreases s.len(),
{
    if s.len() > 0 {
        lemma_split_on_nonempty(s.drop_last(), sep);
    }
}

} // verus!
