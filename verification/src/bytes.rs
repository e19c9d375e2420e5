use vstd::prelude::*;

verus! {

/// ASCII whitespace, as `char::is_whitespace` classifies the ASCII
/// range: space, tab, line feed, vertical tab, form feed, carriage
/// return.
pub open spec fn is_ascii_space(b: u8) -> bool {
    b == 32 || (9 <= b && b <= 13)
}

/// The sequence with ASCII whitespace removed from both ends.
pub open spec fn spec_trim(s: Seq<u8>) -> Seq<u8>
    decreases s.len(),
{
    if s.len() > 0 && is_ascii_space(s[0]) {
        spec_trim(s.subrange(1, s.len() as int))
    } else if s.len() > 0 && is_ascii_space(s[s.len() - 1]) {
        spec_trim(s.subrange(0, s.len() - 1))
    } else {
        s
    }
}

/// A trim keeps exactly the bytes between the first and last non-space
/// positions: if everything before `lo` and everything from `hi` on is
/// space, and the ends at `lo` and `hi - 1` are not, the trim is the
/// subrange `[lo, hi)`.
proof fn lemma_trim_range(s: Seq<u8>, lo: int, hi: int)
    requires
        0 <= lo <= hi <= s.len(),
        forall|k: int| 0 <= k < lo ==> is_ascii_space(s[k]),
        forall|k: int| hi <= k < s.len() ==> is_ascii_space(s[k]),
        lo < hi ==> !is_ascii_space(s[lo]),
        lo < hi ==> !is_ascii_space(s[hi - 1]),
    ensures
        spec_trim(s) == s.subrange(lo, hi),
    decreases s.len(),
{
    if s.len() == 0 {
        assert(spec_trim(s) =~= s.subrange(lo, hi));
    } else if is_ascii_space(s[0]) {
        // lo cannot sit at 0 next to a non-space start, so either the
        // whole sequence is space or the trim drops the first byte.
        let t = s.subrange(1, s.len() as int);
        if lo == hi {
            // everything is space
            lemma_trim_range(t, 0, 0);
            assert(t.subrange(0, 0) =~= s.subrange(lo, hi));
        } else {
            assert(lo >= 1);
            lemma_trim_range(t, lo - 1, hi - 1);
            assert(t.subrange(lo - 1, hi - 1) =~= s.subrange(lo, hi));
        }
    } else if is_ascii_space(s[s.len() - 1]) {
        let t = s.subrange(0, s.len() - 1);
        if lo == hi {
            // s[0] is not space, yet lo == hi makes every byte space
            assert(is_ascii_space(s[0]));
            assert(false);
        } else {
            assert(hi <= s.len() - 1);
            lemma_trim_range(t, lo, hi);
            assert(t.subrange(lo, hi) =~= s.subrange(lo, hi));
        }
    } else {
        assert(lo == 0);
        assert(hi == s.len());
        assert(spec_trim(s) =~= s.subrange(lo, hi));
    }
}

/// Whether one byte is ASCII whitespace, decided at run time.
pub fn is_space_byte(b: u8) -> (r: bool)
    ensures
        r == is_ascii_space(b),
{
    b == 32 || (9 <= b && b <= 13)
}

/// Copies `s` with ASCII whitespace removed from both ends.
pub fn trim_ascii(s: &Vec<u8>) -> (r: Vec<u8>)
    ensures
        r@ == spec_trim(s@),
{
    let n = s.len();
    let mut lo: usize = 0;
    while lo < n && is_space_byte(s[lo])
        invariant
            n == s@.len(),
            lo <= n,
            forall|k: int| 0 <= k < lo ==> is_ascii_space(s@[k]),
        decreases n - lo,
    {
        lo += 1;
    }
    let mut hi: usize = n;
    while hi > lo && is_space_byte(s[hi - 1])
        invariant
            n == s@.len(),
            lo <= hi <= n,
            forall|k: int| hi <= k < n ==> is_ascii_space(s@[k]),
        decreases hi,
    {
        hi -= 1;
    }
    let mut r: Vec<u8> = Vec::new();
    let mut i: usize = lo;
    while i < hi
        invariant
            n == s@.len(),
            lo <= i <= hi <= n,
            r@ == s@.subrange(lo as int, i as int),
        decreases hi - i,
    {
        let b = s[i];
        r.push(b);
        proof {
            assert(r@ =~= s@.subrange(lo as int, i + 1 as int));
        }
        i += 1;
    }
    proof {
        lemma_trim_range(s@, lo as int, hi as int);
    }
    r
}

/// `needle` occurs in `hay` starting at offset `i`.
pub open spec fn match_at(hay: Seq<u8>, needle: Seq<u8>, i: int) -> bool {
    &&& 0 <= i
    &&& i + needle.len() <= hay.len()
    &&& forall|j: int| 0 <= j < needle.len() ==> hay[i + j] == needle[j]
}

/// `needle` occurs somewhere in `hay` as a contiguous run.
pub open spec fn contains_seq(hay: Seq<u8>, needle: Seq<u8>) -> bool {
    exists|i: int| match_at(hay, needle, i)
}

/// `prefix` is an initial run of `s`.
pub open spec fn starts_with_seq(s: Seq<u8>, prefix: Seq<u8>) -> bool {
    match_at(s, prefix, 0)
}

/// Naive substring search, the run-time side of `contains_seq`.
pub fn contains_bytes(hay: &Vec<u8>, needle: &Vec<u8>) -> (r: bool)
    ensures
        r == contains_seq(hay@, needle@),
{
    let n = hay.len();
    let m = needle.len();
    if m > n {
        assert(forall|i: int| !match_at(hay@, needle@, i));
        return false;
    }
    let mut i: usize = 0;
    while i <= n - m
        invariant
            n == hay@.len(),
            m == needle@.len(),
            m <= n,
            i <= n - m + 1,
            forall|k: int| 0 <= k < i ==> !match_at(hay@, needle@, k),
        decreases n - m + 1 - i,
    {
        let mut j: usize = 0;
        while j < m && hay[i + j] == needle[j]
            invariant
                n == hay@.len(),
                m == needle@.len(),
                i + m <= n,
                j <= m,
                forall|l: int| 0 <= l < j ==> hay@[i + l] == needle@[l],
            decreases m - j,
        {
            j += 1;
        }
        if j == m {
            assert(match_at(hay@, needle@, i as int));
            return true;
        }
        assert(!match_at(hay@, needle@, i as int)) by {
            assert(hay@[i + j] != needle@[j as int]);
        }
        i += 1;
    }
    assert forall|k: int| !match_at(hay@, needle@, k) by {
        if 0 <= k < i {
            assert(!match_at(hay@, needle@, k));
        }
    }
    false
}

/// Prefix test, the run-time side of `starts_with_seq`.
pub fn starts_with_bytes(s: &Vec<u8>, prefix: &Vec<u8>) -> (r: bool)
    ensures
        r == starts_with_seq(s@, prefix@),
{
    let m = prefix.len();
    if m > s.len() {
        return false;
    }
    let mut j: usize = 0;
    while j < m && s[j] == prefix[j]
        invariant
            m == prefix@.len(),
            m <= s@.len(),
            j <= m,
            forall|l: int| 0 <= l < j ==> s@[l] == prefix@[l],
        decreases m - j,
    {
        j += 1;
    }
    if j == m {
        assert(match_at(s@, prefix@, 0));
        true
    } else {
        assert(!match_at(s@, prefix@, 0)) by {
            assert(s@[j as int] != prefix@[j as int]);
        }
        false
    }
}

/// Every byte of `s` is an ASCII decimal digit.
pub open spec fn all_digits(s: Seq<u8>) -> bool {
    forall|i: int| 0 <= i < s.len() ==> 48 <= s[i] && s[i] <= 57
}

/// The integer a digit string denotes, most significant digit first.
pub open spec fn digits_value(s: Seq<u8>) -> int
    decreases s.len(),
{
    if s.len() == 0 {
        0
    } else {
        digits_value(s.drop_last()) * 10 + (s.last() - 48)
    }
}

/// What a signed decimal string (already trimmed) denotes, read as
/// `i32::from_str` reads digits: one optional `+` or `-`, then at least
/// one digit and nothing else. `None` where the shape is wrong; the
/// range check against `i32` comes separately.
pub open spec fn spec_parse_signed(t: Seq<u8>) -> Option<int> {
    let neg = t.len() > 0 && t[0] == 45;
    let ds = if t.len() > 0 && (t[0] == 43 || t[0] == 45) {
        t.subrange(1, t.len() as int)
    } else {
        t
    };
    if ds.len() == 0 || !all_digits(ds) {
        Option::None
    } else if neg {
        Option::Some(-digits_value(ds))
    } else {
        Option::Some(digits_value(ds))
    }
}

/// The millidegree value a sensor file's contents denote: the contents
/// trimmed of ASCII whitespace, then read as a signed decimal that must
/// fit in `i32`. `None` on any malformed or out-of-range input.
pub open spec fn spec_parse_i32(s: Seq<u8>) -> Option<int> {
    match spec_parse_signed(spec_trim(s)) {
        Option::None => Option::None,
        Option::Some(v) => if -0x8000_0000 <= v && v <= 0x7fff_ffff {
            Option::Some(v)
        } else {
            Option::None
        },
    }
}

/// A digit string denotes a nonnegative value.
proof fn lemma_digits_value_nonneg(s: Seq<u8>)
    requires
        all_digits(s),
    ensures
        digits_value(s) >= 0,
    decreases s.len(),
{
    if s.len() > 0 {
        assert(all_digits(s.drop_last()));
        lemma_digits_value_nonneg(s.drop_last());
    }
}

/// Reading more digits never shrinks the value: a prefix of a digit
/// string denotes at most what the whole string denotes.
proof fn lemma_digits_prefix_le(s: Seq<u8>, i: int)
    requires
        all_digits(s),
        0 <= i <= s.len(),
    ensures
        digits_value(s.subrange(0, i)) <= digits_value(s),
    decreases s.len() - i,
{
    if i == s.len() {
        assert(s.subrange(0, i) =~= s);
    } else {
        let p = s.subrange(0, i);
        let q = s.subrange(0, i + 1);
        assert(q.drop_last() =~= p);
        assert(all_digits(p));
        lemma_digits_value_nonneg(p);
        assert(digits_value(q) == digits_value(p) * 10 + (s[i] - 48));
        assert(digits_value(p) <= digits_value(p) * 10) by (nonlinear_arith)
            requires digits_value(p) >= 0;
        lemma_digits_prefix_le(s, i + 1);
    }
}

/// Parses a sensor file's contents as a millidegree count: trim, then a
/// signed decimal that must fit in `i32`. Returns exactly the value
/// `spec_parse_i32` denotes, `None` where it denotes none.
pub fn parse_millidegrees(s: &Vec<u8>) -> (r: Option<i32>)
    ensures
        match spec_parse_i32(s@) {
            Option::Some(v) => r matches Some(x) && x as int == v,
            Option::None => r is None,
        },
{
    let t = trim_ascii(s);
    let n = t.len();
    if n == 0 {
        return None;
    }
    let b0 = t[0];
    let neg: bool = b0 == 45;
    let start: usize = if b0 == 43 || b0 == 45 {
        1
    } else {
        0
    };
    let ghost ds: Seq<u8> = if b0 == 43 || b0 == 45 {
        t@.subrange(1, n as int)
    } else {
        t@
    };
    proof {
        assert(ds =~= t@.subrange(start as int, n as int));
    }
    if start >= n {
        // a bare sign with no digits
        assert(ds.len() == 0);
        return None;
    }
    let mut acc: i64 = 0;
    let mut i: usize = start;
    while i < n
        invariant
            n == t@.len(),
            t@ == spec_trim(s@),
            start <= i <= n,
            start <= 1,
            start < n,
            neg == (t@[0] == 45),
            (start == 1) == (t@[0] == 43 || t@[0] == 45),
            ds == t@.subrange(start as int, n as int),
            forall|k: int| start <= k < i ==> 48 <= t@[k] && t@[k] <= 57,
            acc == digits_value(t@.subrange(start as int, i as int)),
            0 <= acc <= 0x8000_0000,
        decreases n - i,
    {
        let b = t[i];
        if b < 48 || b > 57 {
            // not a digit anywhere in the run: the string is malformed
            assert(ds[i - start] == t@[i as int]);
            assert(!all_digits(ds));
            return None;
        }
        let d: i64 = (b - 48) as i64;
        let next: i64 = acc * 10 + d;
        proof {
            let p = t@.subrange(start as int, i as int);
            let q = t@.subrange(start as int, i + 1 as int);
            assert(q.drop_last() =~= p);
            assert(digits_value(q) == acc * 10 + d);
        }
        if next > 0x8000_0000 {
            // too large for either sign of i32 already; whatever follows,
            // the denoted value (if the rest are digits at all) only grows
            proof {
                let q = t@.subrange(start as int, i + 1 as int);
                assert(t@.subrange(0, n as int) =~= t@);
                if all_digits(ds) {
                    let j = i + 1 - start;
                    assert(ds.subrange(0, j as int) =~= q);
                    lemma_digits_prefix_le(ds, j as int);
                    assert(digits_value(q) <= digits_value(ds));
                    assert(digits_value(ds) > 0x8000_0000);
                } else {
                    assert(spec_parse_signed(t@) is None);
                }
                assert(spec_parse_i32(s@) is None);
            }
            return None;
        }
        acc = next;
        i += 1;
    }
    proof {
        assert(t@.subrange(0, n as int) =~= t@);
        assert(ds =~= t@.subrange(start as int, n as int));
        assert(all_digits(ds));
        assert(digits_value(ds) == acc);
    }
    if neg {
        let v: i64 = -acc;
        assert(-0x8000_0000 <= v <= 0);
        Some(v as i32)
    } else {
        if acc > 0x7fff_ffff {
            return None;
        }
        Some(acc as i32)
    }
}

} // verus!
