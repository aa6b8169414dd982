//! Small verified string helpers: equality of string slices, rendering a
//! number in decimal, and parsing decimal numbers.
use vstd::prelude::*;
use vstd::string::*;

verus! {

/// Character-by-character equality of two string slices.
pub fn str_eq(a: &str, b: &str) -> (r: bool)
    ensures
        r == (a@ == b@),
{
    let n = a.unicode_len();
    if n != b.unicode_len() {
        assert(a@.len() != b@.len());
        return false;
    }
    let mut i: usize = 0;
    while i < n
        invariant
            n == a@.len(),
            n == b@.len(),
            i <= n,
            forall|j: int| 0 <= j < i ==> a@[j] == b@[j],
        decreases n - i,
    {
        if a.get_char(i) != b.get_char(i) {
            return false;
        }
        i += 1;
    }
    assert(a@ =~= b@);
    true
}

/// The character for one decimal digit.
pub open spec fn digit_char(d: nat) -> char {
    if d == 0 {
        '0'
    } else if d == 1 {
        '1'
    } else if d == 2 {
        '2'
    } else if d == 3 {
        '3'
    } else if d == 4 {
        '4'
    } else if d == 5 {
        '5'
    } else if d == 6 {
        '6'
    } else if d == 7 {
        '7'
    } else if d == 8 {
        '8'
    } else {
        '9'
    }
}

/// The decimal rendering of a natural number, most significant digit first.
pub open spec fn dec_str(n: nat) -> Seq<char>
    decreases n,
{
    if n < 10 {
        seq![digit_char(n)]
    } else {
        dec_str(n / 10) + seq![digit_char(n % 10)]
    }
}

fn append_digit(s: &mut String, d: u64)
    requires
        d < 10,
    ensures
        final(s)@ == old(s)@ + seq![digit_char(d as nat)],
{
    if d == 0 {
        proof { reveal_strlit("0"); }
        s.append("0");
        assert(final(s)@ =~= old(s)@ + seq![digit_char(d as nat)]);
    } else if d == 1 {
        proof { reveal_strlit("1"); }
        s.append("1");
        assert(final(s)@ =~= old(s)@ + seq![digit_char(d as nat)]);
    } else if d == 2 {
        proof { reveal_strlit("2"); }
        s.append("2");
        assert(final(s)@ =~= old(s)@ + seq![digit_char(d as nat)]);
    } else if d == 3 {
        proof { reveal_strlit("3"); }
        s.append("3");
        assert(final(s)@ =~= old(s)@ + seq![digit_char(d as nat)]);
    } else if d == 4 {
        proof { reveal_strlit("4"); }
        s.append("4");
        assert(final(s)@ =~= old(s)@ + seq![digit_char(d as nat)]);
    } else if d == 5 {
        proof { reveal_strlit("5"); }
        s.append("5");
        assert(final(s)@ =~= old(s)@ + seq![digit_char(d as nat)]);
    } else if d == 6 {
        proof { reveal_strlit("6"); }
        s.append("6");
        assert(final(s)@ =~= old(s)@ + seq![digit_char(d as nat)]);
    } else if d == 7 {
        proof { reveal_strlit("7"); }
        s.append("7");
        assert(final(s)@ =~= old(s)@ + seq![digit_char(d as nat)]);
    } else if d == 8 {
        proof { reveal_strlit("8"); }
        s.append("8");
        assert(final(s)@ =~= old(s)@ + seq![digit_char(d as nat)]);
    } else {
        proof { reveal_strlit("9"); }
        s.append("9");
        assert(final(s)@ =~= old(s)@ + seq![digit_char(d as nat)]);
    }
}

/// Renders a number in decimal, without leading zeros.
pub fn u64_to_string(n: u64) -> (r: String)
    ensures
        r@ == dec_str(n as nat),
    decreases n,
{
    if n < 10 {
        let mut s = String::new();
        append_digit(&mut s, n);
        assert(s@ =~= dec_str(n as nat));
        s
    } else {
        let mut s = u64_to_string(n / 10);
        append_digit(&mut s, n % 10);
        assert(s@ =~= dec_str(n as nat));
        s
    }
}

/// True when `c` is a decimal digit.
pub open spec fn is_digit(c: char) -> bool {
    '0' <= c <= '9'
}

/// The numeric value of a digit character.
pub open spec fn digit_val(c: char) -> nat {
    (c as nat - '0' as nat) as nat
}

/// True when every character of `s` is a decimal digit.
pub open spec fn all_digits(s: Seq<char>) -> bool {
    forall|i: int| 0 <= i < s.len() ==> is_digit(s[i])
}

/// The value of a digit string, most significant digit first.
pub open spec fn dec_val(s: Seq<char>) -> nat
    decreases s.len(),
{
    if s.len() == 0 {
        0
    } else {
        dec_val(s.drop_last()) * 10 + digit_val(s.last())
    }
}

proof fn lemma_dec_val_prefix_le(s: Seq<char>, i: int)
    requires
        0 <= i <= s.len(),
    ensures
        dec_val(s.subrange(0, i)) <= dec_val(s),
    decreases s.len() - i,
{
    if i < s.len() {
        lemma_dec_val_prefix_le(s, i + 1);
        assert(s.subrange(0, i + 1).drop_last() =~= s.subrange(0, i));
        assert(dec_val(s.subrange(0, i)) <= dec_val(s.subrange(0, i + 1)));
    } else {
        assert(s.subrange(0, i) =~= s);
    }
}


/// Lexicographic order on character sequences, by code point; a prefix
/// sorts before its extensions. This is the order Rust's own string
/// comparison gives, since UTF-8 byte order follows code-point order.
pub open spec fn lex_leq(a: Seq<char>, b: Seq<char>) -> bool
    decreases a.len(),
{
    if a.len() == 0 {
        true
    } else if b.len() == 0 {
        false
    } else if a[0] != b[0] {
        (a[0] as int) < (b[0] as int)
    } else {
        lex_leq(a.drop_first(), b.drop_first())
    }
}

/// The order is reflexive.
pub proof fn lemma_lex_refl(a: Seq<char>)
    ensures
        lex_leq(a, a),
    decreases a.len(),
{
    if a.len() > 0 {
        lemma_lex_refl(a.drop_first());
    }
}

/// Any two sequences compare one way or the other.
pub proof fn lemma_lex_total(a: Seq<char>, b: Seq<char>)
    ensures
        lex_leq(a, b) || lex_leq(b, a),
    decreases a.len(),
{
    if a.len() == 0 {
    } else if b.len() == 0 {
    } else if a[0] != b[0] {
    } else {
        lemma_lex_total(a.drop_first(), b.drop_first());
    }
}

/// The order is transitive.
pub proof fn lemma_lex_trans(a: Seq<char>, b: Seq<char>, c: Seq<char>)
    requires
        lex_leq(a, b),
        lex_leq(b, c),
    ensures
        lex_leq(a, c),
    decreases a.len(),
{
    if a.len() == 0 {
    } else if b.len() == 0 {
    } else if c.len() == 0 {
    } else if a[0] == b[0] && b[0] == c[0] {
        lemma_lex_trans(a.drop_first(), b.drop_first(), c.drop_first());
    }
}

/// Lexicographic comparison of two string slices.
pub fn str_lex_leq(a: &str, b: &str) -> (r: bool)
    ensures
        r == lex_leq(a@, b@),
{
    let la = a.unicode_len();
    let lb = b.unicode_len();
    let mut i: usize = 0;
    proof {
        assert(a@.skip(0) =~= a@);
        assert(b@.skip(0) =~= b@);
    }
    while i < la && i < lb
        invariant
            la == a@.len(),
            lb == b@.len(),
            i <= la,
            i <= lb,
            lex_leq(a@, b@) == lex_leq(a@.skip(i as int), b@.skip(i as int)),
        decreases la - i,
    {
        let ca = a.get_char(i);
        let cb = b.get_char(i);
        proof {
            assert(a@.skip(i as int)[0] == a@[i as int]);
            assert(b@.skip(i as int)[0] == b@[i as int]);
            assert(a@.skip(i as int).drop_first() =~= a@.skip(i + 1));
            assert(b@.skip(i as int).drop_first() =~= b@.skip(i + 1));
        }
        if ca != cb {
            return ca < cb;
        }
        i += 1;
    }
    proof {
        if i >= la {
            assert(a@.skip(i as int).len() == 0);
        } else {
            assert(b@.skip(i as int).len() == 0);
            assert(a@.skip(i as int).len() > 0);
        }
    }
    la <= lb
}

/// What lowercasing a string yields. Lowercasing is Unicode case
/// mapping, far too wide to state here; the name stands for its result,
/// which depends on the characters alone.
pub uninterp spec fn lower_of(s: Seq<char>) -> Seq<char>;

/// Relies on str::to_lowercase: the result depends on the characters
/// alone, so equal strings lower equally.
#[verifier::external_body]
pub(crate) fn lowercase(s: &str) -> (r: String)
    ensures
        r@ == lower_of(s@),
{
    s.to_lowercase()
}

/// True when `needle` occurs contiguously inside `hay`.
pub open spec fn seq_contains(hay: Seq<char>, needle: Seq<char>) -> bool {
    exists|i: int|
        0 <= i <= hay.len() - needle.len() && #[trigger] hay.subrange(i, i + needle.len())
            == needle
}

/// Substring search, character by character.
pub fn str_contains(hay: &str, needle: &str) -> (r: bool)
    ensures
        r == seq_contains(hay@, needle@),
{
    let h = hay.unicode_len();
    let n = needle.unicode_len();
    if n > h {
        assert(!seq_contains(hay@, needle@));
        return false;
    }
    let mut i: usize = 0;
    while i <= h - n
        invariant
            h == hay@.len(),
            n == needle@.len(),
            n <= h,
            i <= h,
            forall|j: int| 0 <= j < i ==> #[trigger] hay@.subrange(j, j + n) != needle@,
        decreases h - i,
    {
        let mut k: usize = 0;
        let mut matched = true;
        while k < n && matched
            invariant
                h == hay@.len(),
                n == needle@.len(),
                i + n <= h,
                k <= n,
                matched ==> forall|l: int| 0 <= l < k ==> hay@[i + l] == needle@[l],
                !matched ==> exists|l: int| 0 <= l < n && hay@[i + l] != needle@[l],
            decreases n - k,
        {
            if hay.get_char(i + k) != needle.get_char(k) {
                assert(hay@[i + k] != needle@[k as int]);
                matched = false;
            }
            k += 1;
        }
        if matched {
            proof {
                assert(hay@.subrange(i as int, i + n) =~= needle@);
            }
            return true;
        }
        proof {
            let l = choose|l: int| 0 <= l < n && hay@[i + l] != needle@[l];
            assert(hay@.subrange(i as int, i + n)[l] == hay@[i + l]);
            assert(hay@.subrange(i as int, i + n) != needle@);
        }
        i += 1;
    }
    proof {
        assert forall|j: int|
            0 <= j <= hay@.len() - needle@.len() implies #[trigger] hay@.subrange(
            j,
            j + needle@.len(),
        ) != needle@ by {
            assert(j < i);
        }
    }
    false
}

/// Parses a decimal digit string to a wide integer. Returns the value
/// when the string is non-empty, all digits, and the value fits in
/// `u64`; `None` otherwise.
pub fn parse_u64(s: &str) -> (r: Option<u64>)
    ensures
        match r {
            Some(v) => s@.len() > 0 && all_digits(s@) && dec_val(s@) == v as nat,
            None => s@.len() == 0 || !all_digits(s@) || dec_val(s@) > u64::MAX,
        },
{
    let n = s.unicode_len();
    if n == 0 {
        return None;
    }
    let mut i: usize = 0;
    let mut val: u64 = 0;
    while i < n
        invariant
            n == s@.len(),
            0 < n,
            i <= n,
            all_digits(s@.subrange(0, i as int)),
            val as nat == dec_val(s@.subrange(0, i as int)),
        decreases n - i,
    {
        let c = s.get_char(i);
        if c < '0' || c > '9' {
            assert(!is_digit(s@[i as int]));
            return None;
        }
        let d: u64 = (c as u64) - ('0' as u64);
        assert(d == digit_val(s@[i as int]));
        let wide: u128 = (val as u128) * 10 + (d as u128);
        proof {
            assert(s@.subrange(0, i + 1).drop_last() =~= s@.subrange(0, i as int));
            assert(s@.subrange(0, i + 1).last() == s@[i as int]);
        }
        if wide > u64::MAX as u128 {
            proof {
                lemma_dec_val_prefix_le(s@, i + 1);
            }
            return None;
        }
        val = wide as u64;
        i += 1;
    }
    proof {
        assert(s@.subrange(0, n as int) =~= s@);
    }
    Some(val)
}

/// Parses a decimal digit string. Returns the value when the string is
/// non-empty, all digits, and the value fits in `u16`; `None` otherwise.
pub fn parse_u16(s: &str) -> (r: Option<u16>)
    ensures
        match r {
            Some(v) => s@.len() > 0 && all_digits(s@) && dec_val(s@) == v as nat,
            None => s@.len() == 0 || !all_digits(s@) || dec_val(s@) > u16::MAX,
        },
{
    let n = s.unicode_len();
    if n == 0 {
        return None;
    }
    let mut i: usize = 0;
    let mut val: u32 = 0;
    while i < n
        invariant
            n == s@.len(),
            0 < n,
            i <= n,
            all_digits(s@.subrange(0, i as int)),
            val as nat == dec_val(s@.subrange(0, i as int)),
            val <= u16::MAX,
        decreases n - i,
    {
        let c = s.get_char(i);
        if c < '0' || c > '9' {
            assert(!is_digit(s@[i as int]));
            return None;
        }
        let d: u32 = (c as u32) - ('0' as u32);
        assert(d == digit_val(s@[i as int]));
        let next: u32 = val * 10 + d;
        proof {
            assert(s@.subrange(0, i + 1).drop_last() =~= s@.subrange(0, i as int));
            assert(s@.subrange(0, i + 1).last() == s@[i as int]);
        }
        if next > u16::MAX as u32 {
            proof {
                lemma_dec_val_prefix_le(s@, i + 1);
            }
            return None;
        }
        val = next;
        i += 1;
    }
    proof {
        assert(s@.subrange(0, n as int) =~= s@);
    }
    Some(val as u16)
}

} // verus!
