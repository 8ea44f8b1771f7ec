//! Small verified string utilities: equality, searching, splitting, and
//! decimal formatting/parsing, all specified over `Seq<char>` views.

use vstd::prelude::*;

verus! {

/// Compares two string slices character by character.
pub fn str_eq(a: &str, b: &str) -> (r: bool)
    ensures
        r == (a@ == b@),
{
    let a_len = a.unicode_len();
    let b_len = b.unicode_len();
    if a_len != b_len {
        assert(a@.len() != b@.len());
        return false;
    }
    let mut i: usize = 0;
    while i < a_len
        invariant
            a_len == a@.len(),
            b_len == b@.len(),
            a@.len() == b@.len(),
            i <= a_len,
            forall|j: int| 0 <= j < i ==> a@[j] == b@[j],
        decreases a_len - i,
    {
        if a.get_char(i) != b.get_char(i) {
            return false;
        }
        i += 1;
    }
    proof {
        assert(a@ =~= b@);
    }
    true
}

/// The character for a single decimal digit value.
pub open spec fn digit_char(d: int) -> char {
    ((48 + d) as u8) as char
}

/// Whether a character is an ASCII decimal digit.
pub open spec fn is_digit(c: char) -> bool {
    48 <= c as int <= 57
}

/// The numeric value of an ASCII decimal digit character.
pub open spec fn digit_val(c: char) -> int {
    c as int - 48
}

/// The decimal representation of a natural number, most significant digit
/// first, with no leading zeros (a single `'0'` for zero).
pub open spec fn dec_digits(n: nat) -> Seq<char>
    decreases n,
{
    if n < 10 {
        seq![digit_char(n as int)]
    } else {
        dec_digits(n / 10).push(digit_char((n % 10) as int))
    }
}

/// The decimal representation of a signed number: a `'-'` sign followed by
/// the magnitude when negative.
pub open spec fn int_digits(n: int) -> Seq<char> {
    if n < 0 {
        seq!['-'].add(dec_digits((-n) as nat))
    } else {
        dec_digits(n as nat)
    }
}

proof fn lemma_digit_string_table()
    ensures
        "0123456789"@.len() == 10,
        forall|d: int| 0 <= d < 10 ==> "0123456789"@[d] == digit_char(d),
{
    reveal_strlit("0123456789");
    assert forall|d: int| 0 <= d < 10 implies "0123456789"@[d] == digit_char(d) by {
        if d == 0 {
            assert("0123456789"@[0] == '0');
        } else if d == 1 {
            assert("0123456789"@[1] == '1');
        } else if d == 2 {
            assert("0123456789"@[2] == '2');
        } else if d == 3 {
            assert("0123456789"@[3] == '3');
        } else if d == 4 {
            assert("0123456789"@[4] == '4');
        } else if d == 5 {
            assert("0123456789"@[5] == '5');
        } else if d == 6 {
            assert("0123456789"@[6] == '6');
        } else if d == 7 {
            assert("0123456789"@[7] == '7');
        } else if d == 8 {
            assert("0123456789"@[8] == '8');
        } else {
            assert("0123456789"@[9] == '9');
        }
    }
}

/// Returns the one-character string for a digit value.
fn digit_str(d: u64) -> (r: &'static str)
    requires
        d < 10,
    ensures
        r@ =~= seq![digit_char(d as int)],
        r.is_ascii(),
{
    let table = "0123456789";
    proof {
        lemma_digit_string_table();
        reveal_strlit("0123456789");
        assert(vstd::string::is_ascii(table));
    }
    let r = table.substring_ascii(d as usize, d as usize + 1);
    proof {
        assert(r@ =~= seq![digit_char(d as int)]);
    }
    r
}

/// Formats an unsigned number in decimal.
pub fn u64_to_string(n: u64) -> (r: String)
    ensures
        r@ == dec_digits(n as nat),
    decreases n,
{
    let d = digit_str(n % 10);
    if n < 10 {
        let r = d.to_owned();
        proof {
            assert(r@ =~= dec_digits(n as nat));
        }
        r
    } else {
        let r = u64_to_string(n / 10).concat(d);
        proof {
            assert(r@ =~= dec_digits(n as nat));
        }
        r
    }
}

/// Formats a signed number in decimal.
pub fn i64_to_string(n: i64) -> (r: String)
    ensures
        r@ == int_digits(n as int),
{
    if n >= 0 {
        u64_to_string(n as u64)
    } else {
        let mag: u64 = ((-(n + 1)) as u64) + 1;
        assert(mag == -(n as int));
        let r = "-".to_owned().concat(u64_to_string(mag).as_str());
        proof {
            reveal_strlit("-");
            assert(r@ =~= int_digits(n as int));
        }
        r
    }
}

/// Whether every character of a sequence is an ASCII decimal digit.
pub open spec fn all_digits(s: Seq<char>) -> bool {
    forall|i: int| 0 <= i < s.len() ==> is_digit(s[i])
}

/// The numeric value of a sequence of decimal digit characters, read most
/// significant digit first. Empty sequences denote zero.
pub open spec fn digits_val(s: Seq<char>) -> int
    decreases s.len(),
{
    if s.len() == 0 {
        0
    } else {
        digits_val(s.drop_last()) * 10 + digit_val(s.last())
    }
}

proof fn lemma_digits_val_bounds(s: Seq<char>)
    requires
        all_digits(s),
    ensures
        digits_val(s) >= 0,
        s.len() > 0 ==> digits_val(s) >= digits_val(s.drop_last()),
    decreases s.len(),
{
    if s.len() > 0 {
        assert(all_digits(s.drop_last()));
        lemma_digits_val_bounds(s.drop_last());
    }
}

/// The numeric value of a digit string never shrinks as further digits are
/// appended: a prefix's value bounds the whole from below.
proof fn lemma_digits_val_prefix(s: Seq<char>, i: int)
    requires
        all_digits(s),
        0 <= i <= s.len(),
    ensures
        digits_val(s.take(i)) <= digits_val(s),
    decreases s.len() - i,
{
    if i < s.len() {
        lemma_digits_val_prefix(s, i + 1);
        let t = s.take(i + 1);
        assert(t.drop_last() =~= s.take(i));
        assert(all_digits(t));
        lemma_digits_val_bounds(t);
    } else {
        assert(s.take(i) =~= s);
    }
}

/// The well-formed inputs of unsigned decimal parsing: one or more digits.
pub open spec fn parse_u64_spec(s: Seq<char>) -> Option<u64> {
    if s.len() > 0 && all_digits(s) && digits_val(s) <= u64::MAX {
        Some(digits_val(s) as u64)
    } else {
        None
    }
}

/// Parses an unsigned decimal number, as `str::parse::<u64>` accepts it
/// without a sign: one or more digits whose value fits in the type.
pub fn parse_u64(s: &str) -> (r: Option<u64>)
    ensures
        r == parse_u64_spec(s@),
{
    let len = s.unicode_len();
    if len == 0 {
        return None;
    }
    let mut acc: u64 = 0;
    let mut i: usize = 0;
    while i < len
        invariant
            len == s@.len(),
            0 < len,
            i <= len,
            all_digits(s@.take(i as int)),
            acc == digits_val(s@.take(i as int)),
        decreases len - i,
    {
        let c = s.get_char(i);
        let cv = c as u32;
        if cv < 48 || cv > 57 {
            assert(!is_digit(s@[i as int]));
            return None;
        }
        let d = (cv - 48) as u64;
        let acc10 = match acc.checked_mul(10) {
            Some(v) => v,
            None => {
                proof {
                    overflow_means_out_of_range(s@, i as int);
                }
                return None;
            },
        };
        let next = match acc10.checked_add(d) {
            Some(v) => v,
            None => {
                proof {
                    overflow_means_out_of_range(s@, i as int);
                }
                return None;
            },
        };
        acc = next;
        i += 1;
        proof {
            assert(s@.take(i as int).drop_last() =~= s@.take(i as int - 1));
        }
    }
    proof {
        assert(s@.take(len as int) =~= s@);
    }
    Some(acc)
}

/// If the value of the digits read so far already exceeds `u64::MAX` after
/// taking one more digit, the whole string's value does too.
proof fn overflow_means_out_of_range(s: Seq<char>, i: int)
    requires
        0 <= i < s.len(),
        all_digits(s.take(i)),
        is_digit(s[i]),
        digits_val(s.take(i)) * 10 + digit_val(s[i]) > u64::MAX,
    ensures
        !all_digits(s) || digits_val(s) > u64::MAX,
{
    if all_digits(s) {
        let t = s.take(i + 1);
        assert(t.drop_last() =~= s.take(i));
        assert(digits_val(t) > u64::MAX);
        lemma_digits_val_prefix(s, i + 1);
    }
}

/// The signed decimal grammar of `str::parse::<i64>`: an optional sign
/// followed by one or more digits.
pub open spec fn parse_i64_spec(s: Seq<char>) -> Option<i64> {
    let signed = s.len() > 0 && (s[0] == '+' || s[0] == '-');
    let body = if signed {
        s.skip(1)
    } else {
        s
    };
    let negative = s.len() > 0 && s[0] == '-';
    if body.len() > 0 && all_digits(body) {
        let mag = digits_val(body);
        let value = if negative {
            -mag
        } else {
            mag
        };
        if i64::MIN <= value <= i64::MAX {
            Some(value as i64)
        } else {
            None
        }
    } else {
        None
    }
}

/// Parses a signed decimal number as `str::parse::<i64>` does: an optional
/// `+` or `-` sign, then one or more digits, rejecting anything else and
/// values out of range.
pub fn parse_i64(s: &str) -> (r: Option<i64>)
    ensures
        r == parse_i64_spec(s@),
{
    let len = s.unicode_len();
    if len == 0 {
        return None;
    }
    let first = s.get_char(0);
    let signed = first == '+' || first == '-';
    let negative = first == '-';
    let body = if signed {
        s.substring_char(1, len)
    } else {
        s
    };
    proof {
        if signed {
            assert(body@ =~= s@.skip(1));
        }
    }
    let ghost b = if signed {
        s@.skip(1)
    } else {
        s@
    };
    assert(body@ == b);
    match parse_u64(body) {
        None => {
            proof {
                if b.len() > 0 && all_digits(b) {
                    lemma_digits_val_bounds(b);
                    assert(digits_val(b) > u64::MAX);
                }
            }
            None
        },
        Some(mag) => {
            proof {
                assert(b.len() > 0 && all_digits(b));
                lemma_digits_val_bounds(b);
                assert(digits_val(b) == mag);
            }
            if negative {
                if mag <= 9223372036854775807u64 {
                    Some(-(mag as i64))
                } else if mag == 9223372036854775808u64 {
                    Some(i64::MIN)
                } else {
                    None
                }
            } else {
                if mag <= 9223372036854775807u64 {
                    Some(mag as i64)
                } else {
                    None
                }
            }
        },
    }
}

/// Finds the first occurrence of a character.
pub fn find_char(s: &str, c: char) -> (r: Option<usize>)
    ensures
        match r {
            Some(i) => i < s@.len() && s@[i as int] == c && forall|j: int| 0 <= j < i ==> s@[j] != c,
            None => forall|j: int| 0 <= j < s@.len() ==> s@[j] != c,
        },
{
    let len = s.unicode_len();
    let mut i: usize = 0;
    while i < len
        invariant
            len == s@.len(),
            i <= len,
            forall|j: int| 0 <= j < i ==> s@[j] != c,
        decreases len - i,
    {
        if s.get_char(i) == c {
            return Some(i);
        }
        i += 1;
    }
    None
}

/// Splits a sequence at every occurrence of a separator, as `str::split`
/// does with a `char` pattern: an empty input yields one empty segment, and
/// adjacent separators yield empty segments.
pub open spec fn split_char(s: Seq<char>, sep: char) -> Seq<Seq<char>>
    decreases s.len(),
{
    if s.len() == 0 {
        seq![Seq::<char>::empty()]
    } else if s[0] == sep {
        seq![Seq::<char>::empty()].add(split_char(s.skip(1), sep))
    } else {
        let rest = split_char(s.skip(1), sep);
        seq![seq![s[0]].add(rest[0])].add(rest.skip(1))
    }
}

/// Splitting yields at least one segment.
pub proof fn lemma_split_char_len(s: Seq<char>, sep: char)
    ensures
        split_char(s, sep).len() >= 1,
    decreases s.len(),
{
    if s.len() > 0 {
        lemma_split_char_len(s.skip(1), sep);
    }
}

/// Splitting at the first separator occurrence: everything before it is the
/// first segment, and the rest splits on its own.
proof fn lemma_split_char_at_first(s: Seq<char>, sep: char, i: int)
    requires
        0 <= i <= s.len(),
        forall|j: int| 0 <= j < i ==> s[j] != sep,
        i < s.len() ==> s[i] == sep,
    ensures
        i < s.len() ==> split_char(s, sep) =~= seq![s.take(i)].add(split_char(s.skip(i + 1), sep)),
        i == s.len() ==> split_char(s, sep) =~= seq![s],
    decreases i,
{
    lemma_split_char_len(s, sep);
    if i == 0 {
        if 0 < s.len() {
            assert(s.take(0) =~= Seq::<char>::empty());
        } else {
            assert(s =~= Seq::<char>::empty());
        }
    } else {
        let t = s.skip(1);
        lemma_split_char_len(t, sep);
        lemma_split_char_at_first(t, sep, i - 1);
        let rest = split_char(t, sep);
        if i < s.len() {
            assert(t.skip(i) =~= s.skip(i + 1));
            assert(rest =~= seq![t.take(i - 1)].add(split_char(t.skip(i), sep)));
            assert(seq![s[0]].add(rest[0]) =~= s.take(i));
            assert(rest.skip(1) =~= split_char(s.skip(i + 1), sep));
        } else {
            assert(rest =~= seq![t]);
            assert(seq![s[0]].add(rest[0]) =~= s);
        }
    }
}

/// Splits a string at every occurrence of a separator character.
pub fn split_str(s: &str, sep: char) -> (r: Vec<String>)
    ensures
        r@.map_values(|t: String| t@) =~= split_char(s@, sep),
    decreases s@.len(),
{
    let len = s.unicode_len();
    match find_char(s, sep) {
        None => {
            let mut r: Vec<String> = Vec::new();
            r.push(s.to_owned());
            proof {
                lemma_split_char_at_first(s@, sep, s@.len() as int);
                assert(r@.map_values(|t: String| t@) =~= seq![s@]);
            }
            r
        },
        Some(i) => {
            let head = s.substring_char(0, i);
            let tail = s.substring_char(i + 1, len);
            proof {
                assert(tail@ =~= s@.skip(i + 1));
                assert(head@ =~= s@.take(i as int));
            }
            let mut r: Vec<String> = Vec::new();
            r.push(head.to_owned());
            let mut rest = split_str(tail, sep);
            let ghost rest_seq = rest@;
            r.append(&mut rest);
            proof {
                lemma_split_char_at_first(s@, sep, i as int);
                assert(r@.map_values(|t: String| t@) =~= seq![s@.take(i as int)].add(
                    rest_seq.map_values(|t: String| t@),
                ));
            }
            r
        },
    }
}

/// Glob matching with `*` as the only metacharacter, matching any run of
/// characters; every other character matches only itself.
pub open spec fn glob_matches(p: Seq<char>, s: Seq<char>) -> bool
    decreases p.len() + s.len(),
{
    if p.len() == 0 {
        s.len() == 0
    } else if p[0] == '*' {
        glob_matches(p.skip(1), s) || (s.len() > 0 && glob_matches(p, s.skip(1)))
    } else {
        s.len() > 0 && p[0] == s[0] && glob_matches(p.skip(1), s.skip(1))
    }
}

fn glob_matches_from(p: &str, s: &str, pi: usize, si: usize) -> (r: bool)
    requires
        pi <= p@.len(),
        si <= s@.len(),
    ensures
        r == glob_matches(p@.skip(pi as int), s@.skip(si as int)),
    decreases p@.len() + s@.len() - pi - si,
{
    let p_len = p.unicode_len();
    let s_len = s.unicode_len();
    let ghost pv = p@.skip(pi as int);
    let ghost sv = s@.skip(si as int);
    if pi == p_len {
        proof {
            assert(pv.len() == 0);
        }
        si == s_len
    } else {
        proof {
            assert(pv[0] == p@[pi as int]);
            assert(pv.skip(1) =~= p@.skip(pi as int + 1));
        }
        let pc = p.get_char(pi);
        if pc == '*' {
            if glob_matches_from(p, s, pi + 1, si) {
                true
            } else if si < s_len {
                proof {
                    assert(sv.skip(1) =~= s@.skip(si as int + 1));
                }
                glob_matches_from(p, s, pi, si + 1)
            } else {
                false
            }
        } else if si < s_len {
            proof {
                assert(sv[0] == s@[si as int]);
                assert(sv.skip(1) =~= s@.skip(si as int + 1));
            }
            if s.get_char(si) == pc {
                glob_matches_from(p, s, pi + 1, si + 1)
            } else {
                false
            }
        } else {
            false
        }
    }
}

/// Whether a key matches a glob pattern whose only metacharacter is `*`.
pub fn glob_match(pattern: &str, key: &str) -> (r: bool)
    ensures
        r == glob_matches(pattern@, key@),
{
    let r = glob_matches_from(pattern, key, 0, 0);
    proof {
        assert(pattern@.skip(0) =~= pattern@);
        assert(key@.skip(0) =~= key@);
    }
    r
}

} // verus!
