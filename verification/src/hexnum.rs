//! Reading the hex-string-encoded vendor and model ids that OS device
//! notifications carry (for example `"3384"` or `"000a"`).

use vstd::prelude::*;

verus! {

/// Whether `c` is an ASCII hexadecimal digit, either case.
pub open spec fn is_hex_digit(c: char) -> bool {
    ('0' as int <= c as int && c as int <= '9' as int) || ('a' as int <= c as int && c as int
        <= 'f' as int) || ('A' as int <= c as int && c as int <= 'F' as int)
}

/// Numeric value of a hexadecimal digit; 0 for any other character.
pub open spec fn hex_digit_val(c: char) -> int {
    if '0' as int <= c as int && c as int <= '9' as int {
        c as int - '0' as int
    } else if 'a' as int <= c as int && c as int <= 'f' as int {
        c as int - 'a' as int + 10
    } else if 'A' as int <= c as int && c as int <= 'F' as int {
        c as int - 'A' as int + 10
    } else {
        0
    }
}

/// The value of a digit string read in base 16, most significant digit first.
pub open spec fn hex_seq_val(s: Seq<char>) -> int
    decreases s.len(),
{
    if s.len() == 0 {
        0
    } else {
        hex_seq_val(s.drop_last()) * 16 + hex_digit_val(s.last())
    }
}

/// Whether `s` is a well-formed hex numeral whose value fits in a `u32`:
/// non-empty, hexadecimal digits throughout, value at most `u32::MAX`.
pub open spec fn parses_as_hex_u32(s: Seq<char>) -> bool {
    &&& s.len() > 0
    &&& (forall|i: int| 0 <= i < s.len() ==> is_hex_digit(s[i]))
    &&& hex_seq_val(s) <= u32::MAX
}

proof fn lemma_hex_val_nonneg(s: Seq<char>)
    ensures
        hex_seq_val(s) >= 0,
    decreases s.len(),
{
    if s.len() > 0 {
        lemma_hex_val_nonneg(s.drop_last());
    }
}

/// A prefix of a digit string never exceeds the whole string's value.
proof fn lemma_hex_prefix_bound(s: Seq<char>, i: int)
    requires
        0 <= i <= s.len(),
    ensures
        hex_seq_val(s.take(i)) <= hex_seq_val(s),
    decreases s.len() - i,
{
    if i == s.len() {
        assert(s.take(i) =~= s);
    } else {
        lemma_hex_prefix_bound(s, i + 1);
        let p = s.take(i + 1);
        assert(p.drop_last() =~= s.take(i));
        assert(p.last() == s[i]);
        lemma_hex_val_nonneg(s.take(i));
    }
}

/// Read a hex numeral into a `u32`. Succeeds exactly on non-empty strings of
/// hexadecimal digits whose value fits; there is no sign, prefix, or
/// whitespace handling.
pub fn parse_hex_u32(s: &str) -> (r: Option<u32>)
    ensures
        r is Some <==> parses_as_hex_u32(s@),
        r is Some ==> r.unwrap() == hex_seq_val(s@),
{
    let n = s.unicode_len();
    if n == 0 {
        return None;
    }
    let mut acc: u64 = 0;
    let mut i: usize = 0;
    while i < n
        invariant
            n == s@.len(),
            0 <= i <= n,
            forall|j: int| 0 <= j < i ==> is_hex_digit(s@[j]),
            acc == hex_seq_val(s@.take(i as int)),
            acc <= u32::MAX,
        decreases n - i,
    {
        let c = s.get_char(i);
        let cv: u32 = c as u32;
        let d: u64 = if 0x30 <= cv && cv <= 0x39 {
            (cv - 0x30) as u64
        } else if 0x61 <= cv && cv <= 0x66 {
            (cv - 0x61 + 10) as u64
        } else if 0x41 <= cv && cv <= 0x46 {
            (cv - 0x41 + 10) as u64
        } else {
            assert(!is_hex_digit(s@[i as int]));
            return None;
        };
        assert(is_hex_digit(s@[i as int]) && d == hex_digit_val(s@[i as int]));
        let next: u64 = acc * 16 + d;
        proof {
            assert(s@.take(i + 1).drop_last() =~= s@.take(i as int));
            assert(s@.take(i + 1).last() == s@[i as int]);
            assert(next == hex_seq_val(s@.take(i + 1)));
        }
        if next > u32::MAX as u64 {
            proof {
                lemma_hex_prefix_bound(s@, i + 1);
            }
            return None;
        }
        acc = next;
        i += 1;
    }
    proof {
        assert(s@.take(n as int) =~= s@);
    }
    Some(acc as u32)
}

} // verus!
