//! Verified text utilities: decimal numbers, string equality, suffix tests,
//! and the dotted-quad address check used by the general settings stage.

use vstd::prelude::*;

verus! {

/// A decimal digit.
pub open spec fn is_digit(c: char) -> bool {
    48 <= c as u32 <= 57
}

/// The numeric value of a digit character.
pub open spec fn digit_val(c: char) -> int {
    c as u32 - 48
}

/// The digit character for a value between 0 and 9.
pub open spec fn digit_char(d: int) -> char {
    if d == 0 {
        '0'
    } else if d == 1 {
        '1'
    } else if d == 2 {
        '2'
    } else if d == 3 {
        '3'
    } else if d == 4 {
        '4'
    } else if d == 5 {
        '5'
    } else if d == 6 {
        '6'
    } else if d == 7 {
        '7'
    } else if d == 8 {
        '8'
    } else {
        '9'
    }
}

/// Every character of the sequence is a decimal digit.
pub open spec fn all_digits(s: Seq<char>) -> bool {
    forall|i: int| 0 <= i < s.len() ==> is_digit(s[i])
}

/// The value of a digit sequence read as a decimal number.
pub open spec fn dec_value(s: Seq<char>) -> int
    decreases s.len(),
{
    if s.len() == 0 {
        0
    } else {
        dec_value(s.drop_last()) * 10 + digit_val(s.last())
    }
}

/// Ten to the power `w`.
pub open spec fn pow10(w: nat) -> int
    decreases w,
{
    if w == 0 {
        1
    } else {
        10 * pow10((w - 1) as nat)
    }
}

/// The plain decimal representation of `n`: no sign, no leading zeros
/// (a single zero for zero itself).
pub open spec fn dec_rep(n: nat) -> Seq<char>
    decreases n,
{
    if n < 10 {
        seq![digit_char(n as int)]
    } else {
        dec_rep(n / 10) + seq![digit_char((n % 10) as int)]
    }
}

/// The decimal representation of `n` padded with leading zeros to exactly
/// `w` characters. Only the lowest `w` digits of `n` are kept.
pub open spec fn fixed_dec(n: nat, w: nat) -> Seq<char>
    decreases w,
{
    if w == 0 {
        Seq::empty()
    } else {
        fixed_dec(n / 10, (w - 1) as nat) + seq![digit_char((n % 10) as int)]
    }
}

/// A digit's character maps back to its value.
proof fn lemma_digit_char_val(d: int)
    requires
        0 <= d <= 9,
    ensures
        is_digit(digit_char(d)),
        digit_val(digit_char(d)) == d,
{
}

/// Appending one digit multiplies the value by ten and adds the digit.
proof fn lemma_dec_value_snoc(s: Seq<char>, c: char)
    ensures
        dec_value(s.push(c)) == dec_value(s) * 10 + digit_val(c),
{
    assert(s.push(c).drop_last() =~= s);
    assert(s.push(c).last() == c);
}

/// A digit sequence's value is nonnegative and below ten to its length.
pub proof fn lemma_dec_value_bound(s: Seq<char>)
    requires
        all_digits(s),
    ensures
        0 <= dec_value(s) < pow10(s.len()),
    decreases s.len(),
{
    if s.len() > 0 {
        assert(all_digits(s.drop_last()));
        lemma_dec_value_bound(s.drop_last());
        assert(is_digit(s.last()));
        assert(pow10(s.len()) == 10 * pow10((s.len() - 1) as nat));
    }
}

/// The value of a digit prefix never exceeds the value of the whole.
pub proof fn lemma_dec_value_prefix(s: Seq<char>, k: int)
    requires
        all_digits(s),
        0 <= k <= s.len(),
    ensures
        dec_value(s.subrange(0, k)) <= dec_value(s),
    decreases s.len() - k,
{
    if k == s.len() {
        assert(s.subrange(0, k) =~= s);
    } else {
        let a = s.subrange(0, k);
        let b = s.subrange(0, k + 1);
        assert(b.drop_last() =~= a);
        assert(is_digit(b.last()));
        assert(all_digits(a)) by {
            assert(forall|i: int| 0 <= i < a.len() ==> a[i] == s[i]);
        }
        lemma_dec_value_bound(a);
        lemma_dec_value_prefix(s, k + 1);
    }
}

/// The fixed-width representation has exactly `w` digit characters, and for
/// numbers below ten to the `w` it evaluates back to the number itself.
pub proof fn lemma_fixed_dec(n: nat, w: nat)
    ensures
        fixed_dec(n, w).len() == w,
        all_digits(fixed_dec(n, w)),
        n < pow10(w) ==> dec_value(fixed_dec(n, w)) == n,
    decreases w,
{
    if w > 0 {
        lemma_fixed_dec(n / 10, (w - 1) as nat);
        let inner = fixed_dec(n / 10, (w - 1) as nat);
        let c = digit_char((n % 10) as int);
        lemma_digit_char_val((n % 10) as int);
        assert(fixed_dec(n, w) =~= inner.push(c));
        assert(all_digits(inner.push(c))) by {
            assert(forall|i: int|
                0 <= i < inner.len() ==> #[trigger] inner.push(c)[i] == inner[i]);
        }
        lemma_dec_value_snoc(inner, c);
        if n < pow10(w) {
            assert(pow10(w) == 10 * pow10((w - 1) as nat));
            assert(n / 10 < pow10((w - 1) as nat)) by {
                let p = pow10((w - 1) as nat);
                lemma_pow10_pos((w - 1) as nat);
                assert(n < 10 * p);
                assert(n / 10 < p) by (nonlinear_arith)
                    requires
                        n < 10 * p,
                        p > 0,
                ;
            }
            assert(n == 10 * (n / 10) + n % 10) by (nonlinear_arith);
        }
    }
}

/// Ten to any power is positive.
pub proof fn lemma_pow10_pos(w: nat)
    ensures
        pow10(w) >= 1,
    decreases w,
{
    if w > 0 {
        lemma_pow10_pos((w - 1) as nat);
    }
}

/// Larger widths give at least as large a bound.
pub proof fn lemma_pow10_mono(a: nat, b: nat)
    requires
        a <= b,
    ensures
        pow10(a) <= pow10(b),
    decreases b,
{
    if a < b {
        lemma_pow10_mono(a, (b - 1) as nat);
        lemma_pow10_pos((b - 1) as nat);
    }
}

/// The single-character string for a digit value.
fn digit_str(d: u32) -> (r: &'static str)
    requires
        d < 10,
    ensures
        r@ =~= seq![digit_char(d as int)],
{
    proof {
        reveal_strlit("0");
        reveal_strlit("1");
        reveal_strlit("2");
        reveal_strlit("3");
        reveal_strlit("4");
        reveal_strlit("5");
        reveal_strlit("6");
        reveal_strlit("7");
        reveal_strlit("8");
        reveal_strlit("9");
    }
    match d {
        0 => "0",
        1 => "1",
        2 => "2",
        3 => "3",
        4 => "4",
        5 => "5",
        6 => "6",
        7 => "7",
        8 => "8",
        _ => "9",
    }
}

/// Format a number as plain decimal text.
pub fn u32_to_string(n: u32) -> (r: String)
    ensures
        r@ == dec_rep(n as nat),
    decreases n,
{
    if n < 10 {
        let mut s = String::new();
        s.append(digit_str(n));
        proof {
            assert(s@ =~= dec_rep(n as nat));
        }
        s
    } else {
        let mut s = u32_to_string(n / 10);
        s.append(digit_str(n % 10));
        proof {
            assert(s@ =~= dec_rep(n as nat));
        }
        s
    }
}

/// Format a number as decimal text padded with leading zeros to `w` digits.
pub fn fixed_dec_string(n: u64, w: usize) -> (r: String)
    ensures
        r@ == fixed_dec(n as nat, w as nat),
    decreases w,
{
    if w == 0 {
        let s = String::new();
        proof {
            assert(s@ =~= fixed_dec(n as nat, 0));
        }
        s
    } else {
        let mut s = fixed_dec_string(n / 10, w - 1);
        s.append(digit_str((n % 10) as u32));
        proof {
            assert(s@ =~= fixed_dec(n as nat, w as nat));
        }
        s
    }
}

/// Parse a plain decimal number. Returns a value exactly when the text is
/// nonempty, consists of digits only, and the value fits in the type.
pub fn parse_u32(s: &str) -> (r: Option<u32>)
    ensures
        r is Some <==> s@.len() > 0 && all_digits(s@) && dec_value(s@) <= u32::MAX,
        r matches Some(v) ==> v as int == dec_value(s@),
{
    let len = s.unicode_len();
    if len == 0 {
        return None;
    }
    let mut acc: u64 = 0;
    let mut k: usize = 0;
    while k < len
        invariant
            0 <= k <= len,
            len == s@.len(),
            all_digits(s@.subrange(0, k as int)),
            acc as int == dec_value(s@.subrange(0, k as int)),
            acc <= u32::MAX,
        decreases len - k,
    {
        let c = s.get_char(k);
        let cv = c as u32;
        if cv < 48 || cv > 57 {
            proof {
                assert(!is_digit(s@[k as int]));
            }
            return None;
        }
        let d = (cv - 48) as u64;
        proof {
            assert(s@.subrange(0, k + 1).drop_last() =~= s@.subrange(0, k as int));
            lemma_dec_value_snoc(s@.subrange(0, k as int), s@[k as int]);
            assert(s@.subrange(0, k + 1) =~= s@.subrange(0, k as int).push(s@[k as int]));
        }
        let next = acc * 10 + d;
        if next > u32::MAX as u64 {
            proof {
                if all_digits(s@) && dec_value(s@) <= u32::MAX {
                    lemma_dec_value_prefix(s@, k + 1);
                }
            }
            return None;
        }
        acc = next;
        k += 1;
    }
    proof {
        assert(s@.subrange(0, len as int) =~= s@);
    }
    Some(acc as u32)
}

/// Parse exactly `w` digits starting at character position `i`, returning
/// the value and the position after them. Returns nothing when fewer than
/// `w` characters remain or one of them is not a digit.
pub fn parse_fixed(s: &str, i: usize, w: usize) -> (r: Option<(u128, usize)>)
    requires
        i <= s@.len(),
        w <= 20,
    ensures
        r is Some <==> i + w <= s@.len() && all_digits(s@.subrange(i as int, i + w)),
        r matches Some((v, j)) ==> {
            &&& j == i + w
            &&& v as int == dec_value(s@.subrange(i as int, i + w))
        },
{
    let len = s.unicode_len();
    if w > len - i {
        return None;
    }
    let mut acc: u128 = 0;
    let mut k: usize = 0;
    proof {
        lemma_pow10_pos(0);
    }
    while k < w
        invariant
            0 <= k <= w <= 20,
            i + w <= len,
            len == s@.len(),
            all_digits(s@.subrange(i as int, i + k)),
            acc as int == dec_value(s@.subrange(i as int, i + k)),
            acc < pow10(k as nat),
        decreases w - k,
    {
        let c = s.get_char(i + k);
        let cv = c as u32;
        if cv < 48 || cv > 57 {
            proof {
                assert(!is_digit(s@[i + k]));
                assert(s@.subrange(i as int, i + w)[k as int] == s@[i + k]);
            }
            return None;
        }
        let d = cv - 48;
        proof {
            let pre = s@.subrange(i as int, i + k);
            assert(s@.subrange(i as int, i + k + 1).drop_last() =~= pre);
            lemma_dec_value_snoc(pre, s@[i + k]);
            assert(s@.subrange(i as int, i + k + 1) =~= pre.push(s@[i + k]));
            lemma_pow10_mono(k as nat, 20);
            assert(pow10(20) == 100000000000000000000) by {
                reveal_with_fuel(pow10, 21);
            }
            assert(pow10((k + 1) as nat) == 10 * pow10(k as nat));
        }
        acc = acc * 10 + (d as u128);
        k += 1;
    }
    proof {
        assert(s@.subrange(i as int, i + w) =~= s@.subrange(i as int, i + k));
    }
    Some((acc, i + w))
}

/// Character-for-character string equality.
pub fn str_eq(a: &str, b: &str) -> (r: bool)
    ensures
        r == (a@ == b@),
{
    let la = a.unicode_len();
    let lb = b.unicode_len();
    if la != lb {
        proof {
            if a@ == b@ {
                assert(a@.len() == b@.len());
            }
        }
        return false;
    }
    let mut k: usize = 0;
    while k < la
        invariant
            0 <= k <= la,
            la == a@.len(),
            la == b@.len(),
            forall|m: int| 0 <= m < k ==> a@[m] == b@[m],
        decreases la - k,
    {
        if a.get_char(k) != b.get_char(k) {
            proof {
                if a@ == b@ {
                    assert(a@[k as int] == b@[k as int]);
                }
            }
            return false;
        }
        k += 1;
    }
    proof {
        assert(a@ =~= b@);
    }
    true
}

/// What `str::to_lowercase` returns on a given text: the Unicode lowercase
/// mapping, a function of the characters alone.
pub uninterp spec fn lowercase_of(s: Seq<char>) -> Seq<char>;

/// Relies on `str::to_lowercase`: the result depends on the characters
/// alone, and an empty text stays empty.
#[verifier::external_body]
pub fn to_lowercase(s: &str) -> (r: String)
    ensures
        r@ == lowercase_of(s@),
        s@.len() == 0 ==> r@.len() == 0,
{
    s.to_lowercase()
}

/// The sequence ends with the given suffix.
pub open spec fn has_suffix(s: Seq<char>, suffix: Seq<char>) -> bool {
    s.len() >= suffix.len() && s.subrange(s.len() - suffix.len(), s.len() as int) == suffix
}

/// Whether the string ends with the given suffix.
pub fn ends_with(s: &str, suffix: &str) -> (r: bool)
    ensures
        r == has_suffix(s@, suffix@),
{
    let ls = s.unicode_len();
    let lf = suffix.unicode_len();
    if lf > ls {
        return false;
    }
    let base = ls - lf;
    let mut k: usize = 0;
    while k < lf
        invariant
            0 <= k <= lf <= ls,
            base == ls - lf,
            ls == s@.len(),
            lf == suffix@.len(),
            forall|m: int| 0 <= m < k ==> s@[base + m] == suffix@[m],
        decreases lf - k,
    {
        if s.get_char(base + k) != suffix.get_char(k) {
            proof {
                let tail = s@.subrange(s@.len() - suffix@.len(), s@.len() as int);
                if tail == suffix@ {
                    assert(tail[k as int] == suffix@[k as int]);
                }
            }
            return false;
        }
        k += 1;
    }
    proof {
        assert(s@.subrange(s@.len() - suffix@.len(), s@.len() as int) =~= suffix@);
    }
    true
}

/// One octet of a dotted-quad address: one to three digits, value at most
/// 255, and no leading zero (a single zero stands alone).
pub open spec fn is_octet(s: Seq<char>) -> bool {
    &&& 1 <= s.len() <= 3
    &&& all_digits(s)
    &&& dec_value(s) <= 255
    &&& (s.len() > 1 ==> s[0] != '0')
}

/// The text splits at its first dot into an octet and a remainder that
/// itself consists of `parts - 1` further dot-separated octets.
pub open spec fn quad_rec(s: Seq<char>, parts: nat) -> bool
    decreases parts,
{
    if parts <= 1 {
        is_octet(s)
    } else {
        exists|i: int|
            {
                &&& 0 <= i < s.len()
                &&& #[trigger] s[i] == '.'
                &&& (forall|m: int| 0 <= m < i ==> s[m] != '.')
                &&& is_octet(s.subrange(0, i))
                &&& quad_rec(s.subrange(i + 1, s.len() as int), (parts - 1) as nat)
            }
    }
}

/// A dotted-quad address: four octets separated by single dots.
pub open spec fn is_dotted_quad(s: Seq<char>) -> bool {
    quad_rec(s, 4)
}

/// The position of the first dot at or after `from`, if any.
fn find_dot(s: &str, from: usize) -> (r: Option<usize>)
    requires
        from <= s@.len(),
    ensures
        r matches Some(j) ==> from <= j < s@.len() && s@[j as int] == '.' && (forall|m: int|
            from <= m < j ==> s@[m] != '.'),
        r is None ==> forall|m: int| from <= m < s@.len() ==> s@[m] != '.',
{
    let len = s.unicode_len();
    let mut k: usize = from;
    while k < len
        invariant
            from <= k <= len,
            len == s@.len(),
            forall|m: int| from <= m < k ==> s@[m] != '.',
        decreases len - k,
    {
        if s.get_char(k) == '.' {
            return Some(k);
        }
        k += 1;
    }
    None
}

/// Whether the characters from `lo` (inclusive) to `hi` (exclusive) form
/// one octet.
fn check_octet(s: &str, lo: usize, hi: usize) -> (r: bool)
    requires
        lo <= hi <= s@.len(),
    ensures
        r == is_octet(s@.subrange(lo as int, hi as int)),
{
    let seg_len = hi - lo;
    if seg_len < 1 || seg_len > 3 {
        return false;
    }
    let mut acc: u32 = 0;
    let mut k: usize = 0;
    while k < seg_len
        invariant
            0 <= k <= seg_len <= 3,
            seg_len == hi - lo,
            lo <= hi <= s@.len(),
            all_digits(s@.subrange(lo as int, lo + k)),
            acc as int == dec_value(s@.subrange(lo as int, lo + k)),
            acc <= 999,
        decreases seg_len - k,
    {
        let c = s.get_char(lo + k);
        let cv = c as u32;
        if cv < 48 || cv > 57 {
            proof {
                assert(!is_digit(s@[lo + k]));
                assert(s@.subrange(lo as int, hi as int)[k as int] == s@[lo + k]);
            }
            return false;
        }
        proof {
            let pre = s@.subrange(lo as int, lo + k);
            assert(s@.subrange(lo as int, lo + k + 1).drop_last() =~= pre);
            lemma_dec_value_snoc(pre, s@[lo + k]);
            assert(s@.subrange(lo as int, lo + k + 1) =~= pre.push(s@[lo + k]));
            lemma_dec_value_bound(s@.subrange(lo as int, lo + k + 1));
            assert(pow10(3) == 1000) by {
                reveal_with_fuel(pow10, 4);
            }
            lemma_pow10_mono((k + 1) as nat, 3);
        }
        acc = acc * 10 + (cv - 48);
        k += 1;
    }
    proof {
        assert(s@.subrange(lo as int, lo + seg_len) =~= s@.subrange(lo as int, hi as int));
    }
    if acc > 255 {
        return false;
    }
    if seg_len > 1 && s.get_char(lo) == '0' {
        proof {
            assert(s@.subrange(lo as int, hi as int)[0] == s@[lo as int]);
        }
        return false;
    }
    true
}

/// Whether the characters from `from` to the end form `parts` octets
/// separated by single dots.
fn quad_parts(s: &str, from: usize, parts: usize) -> (r: bool)
    requires
        1 <= parts,
        from <= s@.len(),
    ensures
        r == quad_rec(s@.subrange(from as int, s@.len() as int), parts as nat),
    decreases parts,
{
    let len = s.unicode_len();
    let ghost t = s@.subrange(from as int, s@.len() as int);
    if parts == 1 {
        return check_octet(s, from, len);
    }
    match find_dot(s, from) {
        None => {
            proof {
                assert(!quad_rec(t, parts as nat)) by {
                    if quad_rec(t, parts as nat) {
                        let i = choose|i: int|
                            {
                                &&& 0 <= i < t.len()
                                &&& #[trigger] t[i] == '.'
                                &&& (forall|m: int| 0 <= m < i ==> t[m] != '.')
                                &&& is_octet(t.subrange(0, i))
                                &&& quad_rec(
                                    t.subrange(i + 1, t.len() as int),
                                    (parts - 1) as nat,
                                )
                            };
                        assert(s@[from + i] == '.');
                    }
                }
            }
            false
        },
        Some(j) => {
            let ghost jj = j - from;
            if !check_octet(s, from, j) {
                proof {
                    assert(!quad_rec(t, parts as nat)) by {
                        if quad_rec(t, parts as nat) {
                            let i = choose|i: int|
                                {
                                    &&& 0 <= i < t.len()
                                    &&& #[trigger] t[i] == '.'
                                    &&& (forall|m: int| 0 <= m < i ==> t[m] != '.')
                                    &&& is_octet(t.subrange(0, i))
                                    &&& quad_rec(
                                        t.subrange(i + 1, t.len() as int),
                                        (parts - 1) as nat,
                                    )
                                };
                            // the witness must be the first dot
                            assert(t[jj] == '.');
                            if i < jj {
                                assert(s@[from + i] == '.');
                            }
                            if i > jj {
                                assert(t[jj] != '.');
                            }
                            assert(i == jj);
                            assert(t.subrange(0, jj) =~= s@.subrange(from as int, j as int));
                        }
                    }
                }
                false
            } else {
                let r = quad_parts(s, j + 1, parts - 1);
                proof {
                    let u = s@.subrange(j + 1, s@.len() as int);
                    assert(t.subrange(jj + 1, t.len() as int) =~= u);
                    assert(t.subrange(0, jj) =~= s@.subrange(from as int, j as int));
                    if r {
                        // the first dot is a witness
                        assert(t[jj] == '.');
                        assert(forall|m: int| 0 <= m < jj ==> t[m] != '.');
                        assert(quad_rec(t, parts as nat));
                    } else {
                        assert(!quad_rec(t, parts as nat)) by {
                            if quad_rec(t, parts as nat) {
                                let i = choose|i: int|
                                    {
                                        &&& 0 <= i < t.len()
                                        &&& #[trigger] t[i] == '.'
                                        &&& (forall|m: int| 0 <= m < i ==> t[m] != '.')
                                        &&& is_octet(t.subrange(0, i))
                                        &&& quad_rec(
                                            t.subrange(i + 1, t.len() as int),
                                            (parts - 1) as nat,
                                        )
                                    };
                                assert(t[jj] == '.');
                                if i < jj {
                                    assert(s@[from + i] == '.');
                                }
                                if i > jj {
                                    assert(t[jj] != '.');
                                }
                                assert(i == jj);
                            }
                        }
                    }
                }
                r
            }
        },
    }
}

/// Whether the text is a dotted-quad address such as `127.0.0.1`.
pub fn check_dotted_quad(s: &str) -> (r: bool)
    ensures
        r == is_dotted_quad(s@),
{
    let r = quad_parts(s, 0, 4);
    proof {
        assert(s@.subrange(0, s@.len() as int) =~= s@);
    }
    r
}

/// An accepted SQLite database file name: it ends in `.db`.
pub open spec fn is_sqlite_file_name(s: Seq<char>) -> bool {
    has_suffix(s, seq!['.', 'd', 'b'])
}

/// Whether the text is an accepted SQLite database file name.
pub fn check_sqlite_file_name(s: &str) -> (r: bool)
    ensures
        r == is_sqlite_file_name(s@),
{
    proof {
        reveal_strlit(".db");
        assert(".db"@ =~= seq!['.', 'd', 'b']);
    }
    ends_with(s, ".db")
}

/// An accepted TLS key file name: it ends in `.pem`, `.PEM`, `.asn1`
/// or `.ASN1`.
pub open spec fn is_key_file_name(s: Seq<char>) -> bool {
    ||| has_suffix(s, seq!['.', 'p', 'e', 'm'])
    ||| has_suffix(s, seq!['.', 'P', 'E', 'M'])
    ||| has_suffix(s, seq!['.', 'a', 's', 'n', '1'])
    ||| has_suffix(s, seq!['.', 'A', 'S', 'N', '1'])
}

/// Whether the text is an accepted TLS key file name.
pub fn check_key_file_name(s: &str) -> (r: bool)
    ensures
        r == is_key_file_name(s@),
{
    proof {
        reveal_strlit(".pem");
        reveal_strlit(".PEM");
        reveal_strlit(".asn1");
        reveal_strlit(".ASN1");
        assert(".pem"@ =~= seq!['.', 'p', 'e', 'm']);
        assert(".PEM"@ =~= seq!['.', 'P', 'E', 'M']);
        assert(".asn1"@ =~= seq!['.', 'a', 's', 'n', '1']);
        assert(".ASN1"@ =~= seq!['.', 'A', 'S', 'N', '1']);
    }
    ends_with(s, ".pem") || ends_with(s, ".PEM") || ends_with(s, ".asn1") || ends_with(
        s,
        ".ASN1",
    )
}

} // verus!
