use vstd::prelude::*;

verus! {

/// The bytes of an ASCII text given as characters.
pub open spec fn ascii(cs: Seq<char>) -> Seq<u8> {
    cs.map_values(|c: char| c as u8)
}

/// A byte with ASCII upper case mapped to lower case.
pub open spec fn lower_byte(b: u8) -> u8 {
    if 65 <= b <= 90 {
        (b + 32) as u8
    } else {
        b
    }
}

/// A byte string with ASCII upper case mapped to lower case.
pub open spec fn ascii_lowered(s: Seq<u8>) -> Seq<u8> {
    s.map_values(|b: u8| lower_byte(b))
}

/// `needle` occurs in `hay` starting at position `i`.
pub open spec fn occurs_at(hay: Seq<u8>, needle: Seq<u8>, i: int) -> bool {
    0 <= i && i + needle.len() <= hay.len() && hay.subrange(i, i + needle.len()) == needle
}

/// `needle` occurs somewhere in `hay`.
pub open spec fn holds_sub(hay: Seq<u8>, needle: Seq<u8>) -> bool {
    exists|i: int| occurs_at(hay, needle, i)
}

pub open spec fn is_digit(b: u8) -> bool {
    48 <= b <= 57
}

pub open spec fn all_digits(s: Seq<u8>) -> bool {
    forall|i: int| 0 <= i < s.len() ==> is_digit(#[trigger] s[i])
}

/// The value of a string of decimal digits, most significant first.
pub open spec fn digits_value(s: Seq<u8>) -> int
    decreases s.len(),
{
    if s.len() == 0 {
        0
    } else {
        digits_value(s.drop_last()) * 10 + (s.last() - 48)
    }
}

/// `s` without a leading `+` or `-`.
pub open spec fn unsigned_part(s: Seq<u8>) -> Seq<u8> {
    if s.len() > 0 && (s[0] == 45 || s[0] == 43) {
        s.drop_first()
    } else {
        s
    }
}

/// A decimal integer with an optional `+` or `-` sign, at least one digit and
/// no other character, if its value fits in an `i32`.
pub open spec fn decimal_i32(s: Seq<u8>) -> Option<i32> {
    let body = unsigned_part(s);
    let v = if s.len() > 0 && s[0] == 45 {
        -digits_value(body)
    } else {
        digits_value(body)
    };
    if body.len() == 0 || !all_digits(body) || v < i32::MIN || v > i32::MAX {
        None
    } else {
        Some(v as i32)
    }
}

proof fn lemma_digits_nonneg(s: Seq<u8>)
    requires
        all_digits(s),
    ensures
        digits_value(s) >= 0,
    decreases s.len(),
{
    if s.len() > 0 {
        assert(is_digit(s[s.len() - 1]));
        lemma_digits_nonneg(s.drop_last());
    }
}

proof fn lemma_digits_prefix_le(s: Seq<u8>, i: int)
    requires
        all_digits(s),
        0 <= i <= s.len(),
    ensures
        digits_value(s.subrange(0, i)) <= digits_value(s),
    decreases s.len(),
{
    if i < s.len() {
        let t = s.drop_last();
        assert(is_digit(s[s.len() - 1]));
        lemma_digits_prefix_le(t, i);
        lemma_digits_nonneg(t);
        assert(t.subrange(0, i) =~= s.subrange(0, i));
    } else {
        assert(s.subrange(0, i) =~= s);
    }
}

/// Reads a decimal `i32` as `str::parse` does: an optional sign and at least
/// one digit, nothing else, and a value in range.
pub fn parse_i32(s: &[u8]) -> (r: Option<i32>)
    ensures
        r == decimal_i32(s@),
{
    let n = s.len();
    let neg = n > 0 && s[0] == 45;
    let start: usize = if n > 0 && (s[0] == 45 || s[0] == 43) {
        1
    } else {
        0
    };
    let ghost body = s@.subrange(start as int, n as int);
    assert(body =~= unsigned_part(s@));
    if start == n {
        return None;
    }
    let limit: i64 = 2147483648;
    let mut acc: i64 = 0;
    let mut k: usize = start;
    while k < n
        invariant
            n == s@.len(),
            start <= k <= n,
            start < n,
            body == s@.subrange(start as int, n as int),
            body == unsigned_part(s@),
            neg == (s@.len() > 0 && s@[0] == 45),
            all_digits(body.subrange(0, k - start)),
            acc == digits_value(body.subrange(0, k - start)),
            0 <= acc <= limit,
            limit == 2147483648,
        decreases n - k,
    {
        let b = s[k];
        if b < 48 || b > 57 {
            assert(!is_digit(body[k - start]));
            assert(!all_digits(body));
            return None;
        }
        let next = acc * 10 + (b - 48) as i64;
        proof {
            let p = body.subrange(0, k + 1 - start);
            assert(p.drop_last() =~= body.subrange(0, k - start));
            assert(p.last() == b);
            assert(all_digits(p));
            assert(digits_value(p) == next);
        }
        if next > limit {
            proof {
                let p = body.subrange(0, k + 1 - start);
                if all_digits(body) {
                    lemma_digits_prefix_le(body, k + 1 - start);
                    assert(digits_value(body) > 2147483648);
                }
            }
            return None;
        }
        acc = next;
        k += 1;
    }
    assert(body.subrange(0, n - start) =~= body);
    if neg {
        Some((0 - acc) as i32)
    } else if acc > 2147483647 {
        None
    } else {
        Some(acc as i32)
    }
}

/// Whether the bytes `b` spell the ASCII text `cs`.
pub fn equals_ascii(b: &[u8], cs: &[char]) -> (r: bool)
    ensures
        r == (b@ == ascii(cs@)),
{
    if b.len() != cs.len() {
        assert(b@.len() != ascii(cs@).len());
        return false;
    }
    let mut i: usize = 0;
    while i < b.len()
        invariant
            b@.len() == cs@.len(),
            0 <= i <= b@.len(),
            forall|j: int| 0 <= j < i ==> b@[j] == cs@[j] as u8,
        decreases b@.len() - i,
    {
        if b[i] != cs[i] as u8 {
            assert(b@[i as int] != ascii(cs@)[i as int]);
            return false;
        }
        i += 1;
    }
    assert(b@ =~= ascii(cs@));
    true
}

/// A copy of `s` with ASCII upper case mapped to lower case.
pub fn lowercase_ascii(s: &[u8]) -> (r: Vec<u8>)
    ensures
        r@ == ascii_lowered(s@),
{
    let mut r: Vec<u8> = Vec::new();
    let mut i: usize = 0;
    while i < s.len()
        invariant
            0 <= i <= s@.len(),
            r@ =~= ascii_lowered(s@.subrange(0, i as int)),
        decreases s@.len() - i,
    {
        let b = s[i];
        let l: u8 = if 65 <= b && b <= 90 {
            b + 32
        } else {
            b
        };
        r.push(l);
        i += 1;
        assert(r@ =~= ascii_lowered(s@.subrange(0, i as int)));
    }
    assert(s@.subrange(0, s@.len() as int) =~= s@);
    r
}

/// Whether `needle` occurs in `hay`.
pub fn contains_bytes(hay: &[u8], needle: &[u8]) -> (r: bool)
    ensures
        r == holds_sub(hay@, needle@),
{
    if needle.len() > hay.len() {
        return false;
    }
    if needle.len() == 0 {
        assert(hay@.subrange(0, 0) =~= needle@);
        assert(occurs_at(hay@, needle@, 0));
        return true;
    }
    let last: usize = hay.len() - needle.len();
    let mut i: usize = 0;
    while i <= last
        invariant
            last == hay@.len() - needle@.len(),
            needle@.len() > 0,
            hay@.len() <= usize::MAX,
            0 <= i <= last + 1,
            forall|k: int| 0 <= k < i ==> !occurs_at(hay@, needle@, k),
        decreases last + 1 - i,
    {
        let mut j: usize = 0;
        let mut same = true;
        while j < needle.len()
            invariant
                last == hay@.len() - needle@.len(),
                needle@.len() > 0,
                hay@.len() <= usize::MAX,
                0 <= i <= last,
                0 <= j <= needle@.len(),
                same == (forall|m: int| 0 <= m < j ==> hay@[i + m] == needle@[m]),
            decreases needle@.len() - j,
        {
            if hay[i + j] != needle[j] {
                same = false;
            }
            j += 1;
        }
        if same {
            assert(hay@.subrange(i as int, i + needle@.len()) =~= needle@);
            assert(occurs_at(hay@, needle@, i as int));
            return true;
        }
        assert(!occurs_at(hay@, needle@, i as int)) by {
            if occurs_at(hay@, needle@, i as int) {
                assert(forall|m: int|
                    0 <= m < needle@.len() ==> hay@[i + m] == #[trigger] needle@[m]) by {
                    assert forall|m: int| 0 <= m < needle@.len() implies hay@[i + m]
                        == #[trigger] needle@[m] by {
                        assert(hay@.subrange(i as int, i + needle@.len())[m] == hay@[i + m]);
                    }
                }
            }
        }
        i += 1;
    }
    false
}

/// Whether the ASCII text `needle` occurs in `hay`.
pub fn contains_ascii(hay: &[u8], needle: &[char]) -> (r: bool)
    ensures
        r == holds_sub(hay@, ascii(needle@)),
{
    let mut bytes: Vec<u8> = Vec::new();
    let mut i: usize = 0;
    while i < needle.len()
        invariant
            0 <= i <= needle@.len(),
            bytes@ =~= ascii(needle@.subrange(0, i as int)),
        decreases needle@.len() - i,
    {
        bytes.push(needle[i] as u8);
        i += 1;
        assert(bytes@ =~= ascii(needle@.subrange(0, i as int)));
    }
    assert(needle@.subrange(0, needle@.len() as int) =~= needle@);
    contains_bytes(hay, bytes.as_slice())
}

} // verus!
