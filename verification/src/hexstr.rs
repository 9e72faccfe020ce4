use vstd::prelude::*;

verus! {

/// Lower-case hex digit of a nibble value.
pub open spec fn nibble_char(v: u8) -> char {
    if v < 10 {
        ((48 + v) as u8) as char
    } else {
        ((87 + v) as u8) as char
    }
}

/// Value of one hex digit, lower-case letters only.
pub open spec fn nibble_val(c: char) -> Option<u8> {
    if 48 <= c as u32 <= 57 {
        Some(((c as u32) - 48) as u8)
    } else if 97 <= c as u32 <= 102 {
        Some(((c as u32) - 87) as u8)
    } else {
        None
    }
}

/// The hex text of a byte string: two lower-case digits per byte.
pub open spec fn hex_seq(b: Seq<u8>) -> Seq<char>
    decreases b.len(),
{
    if b.len() == 0 {
        Seq::empty()
    } else {
        hex_seq(b.drop_last()) + seq![
            nibble_char(b.last() / 16),
            nibble_char(b.last() % 16),
        ]
    }
}

/// The bytes a hex text denotes: `None` for odd length or any character
/// that is not a lower-case hex digit.
pub open spec fn unhex_seq(s: Seq<char>) -> Option<Seq<u8>>
    decreases s.len(),
{
    if s.len() % 2 != 0 {
        None
    } else if s.len() == 0 {
        Some(Seq::empty())
    } else {
        let hi = nibble_val(s[s.len() - 2]);
        let lo = nibble_val(s[s.len() - 1]);
        match unhex_seq(s.take(s.len() - 2)) {
            Some(rest) => {
                if hi is Some && lo is Some {
                    Some(rest.push((hi->0 * 16 + lo->0) as u8))
                } else {
                    None
                }
            },
            None => None,
        }
    }
}

/// Reading back the hex text of any byte string gives the bytes again.
pub proof fn lemma_unhex_hex(b: Seq<u8>)
    ensures
        hex_seq(b).len() == 2 * b.len(),
        unhex_seq(hex_seq(b)) == Some(b),
    decreases b.len(),
{
    if b.len() == 0 {
        assert(unhex_seq(hex_seq(b)) == Some(b));
    } else {
        lemma_unhex_hex(b.drop_last());
        let s = hex_seq(b);
        let x = b.last();
        assert(s.take(s.len() - 2) =~= hex_seq(b.drop_last()));
        assert(s[s.len() - 2] == nibble_char(x / 16));
        assert(s[s.len() - 1] == nibble_char(x % 16));
        assert(nibble_val(nibble_char(x / 16)) == Some((x / 16) as u8));
        assert(nibble_val(nibble_char(x % 16)) == Some((x % 16) as u8));
        assert((x / 16) * 16 + x % 16 == x) by (nonlinear_arith);
        assert(b.drop_last().push(x) =~= b);
    }
}

/// A character that is no lower-case hex digit poisons the whole text:
/// the bytes of a text holding one cannot be read back.
pub proof fn lemma_unhex_bad(s: Seq<char>, k: int)
    requires
        s.len() % 2 == 0,
        0 <= k < s.len(),
        nibble_val(s[k]) is None,
    ensures
        unhex_seq(s) is None,
    decreases s.len(),
{
    if s.len() >= 2 {
        if k < s.len() - 2 {
            assert(s.take(s.len() - 2)[k] == s[k]);
            lemma_unhex_bad(s.take(s.len() - 2), k);
        }
    }
}


/// Writing back the bytes a hex text denotes gives the same text: hex
/// text of this shape is canonical.
pub proof fn lemma_hex_unhex(s: Seq<char>)
    requires
        unhex_seq(s) is Some,
    ensures
        hex_seq(unhex_seq(s)->0) =~= s,
    decreases s.len(),
{
    if s.len() > 0 {
        let rest = s.take(s.len() - 2);
        lemma_hex_unhex(rest);
        let hi = nibble_val(s[s.len() - 2])->0;
        let lo = nibble_val(s[s.len() - 1])->0;
        let b = (hi * 16 + lo) as u8;
        assert(b / 16 == hi && b % 16 == lo) by (nonlinear_arith)
            requires
                0 <= hi < 16,
                0 <= lo < 16,
                b == hi * 16 + lo,
        ;
        lemma_nibble_roundtrip(s[s.len() - 2]);
        lemma_nibble_roundtrip(s[s.len() - 1]);
        let bs = unhex_seq(s)->0;
        assert(bs.drop_last() =~= unhex_seq(rest)->0);
    }
}

/// A lower-case hex digit survives the value-and-back conversion.
proof fn lemma_nibble_roundtrip(c: char)
    requires
        nibble_val(c) is Some,
    ensures
        nibble_char(nibble_val(c)->0) == c,
{
}

/// One hex digit as a one-character text.
fn nibble_str(v: u8) -> (r: &'static str)
    requires
        v < 16,
    ensures
        r@ =~= seq![nibble_char(v)],
{
    proof {
        reveal_strlit("0");
        reveal_strlit("1");
        reveal_strlit("2");
        reveal_strlit("3");
        reveal_strlit("4");
        reveal_strlit("5");
        reveal_strlit("6");
        reveal_strlit("7");
        reveal_strlit("8");
        reveal_strlit("9");
        reveal_strlit("a");
        reveal_strlit("b");
        reveal_strlit("c");
        reveal_strlit("d");
        reveal_strlit("e");
        reveal_strlit("f");
    }
    match v {
        0 => "0",
        1 => "1",
        2 => "2",
        3 => "3",
        4 => "4",
        5 => "5",
        6 => "6",
        7 => "7",
        8 => "8",
        9 => "9",
        10 => "a",
        11 => "b",
        12 => "c",
        13 => "d",
        14 => "e",
        _ => "f",
    }
}

/// Writes a byte string as lower-case hex text.
pub fn hex_of_bytes(b: &[u8]) -> (r: String)
    ensures
        r@ == hex_seq(b@),
{
    let mut out = String::new();
    let n = b.len();
    let mut i: usize = 0;
    while i < n
        invariant
            0 <= i <= n == b@.len(),
            out@ =~= hex_seq(b@.take(i as int)),
        decreases n - i,
    {
        let x = b[i];
        let hi = nibble_str(x / 16);
        let lo = nibble_str(x % 16);
        out.append(hi);
        out.append(lo);
        proof {
            assert(b@.take(i + 1int).drop_last() =~= b@.take(i as int));
            assert(b@.take(i + 1int).last() == b@[i as int]);
        }
        i = i + 1;
    }
    proof {
        assert(b@.take(n as int) =~= b@);
    }
    out
}

/// Reads lower-case hex text back into bytes; odd length or any other
/// character is refused.
pub fn bytes_of_hex(s: &str) -> (r: Option<Vec<u8>>)
    ensures
        r is Some <==> unhex_seq(s@) is Some,
        r is Some ==> r->0@ == unhex_seq(s@)->0,
{
    let n = s.unicode_len();
    if n % 2 != 0 {
        return None;
    }
    let mut out: Vec<u8> = Vec::new();
    let mut i: usize = 0;
    while i < n
        invariant
            0 <= i <= n == s@.len(),
            i % 2 == 0,
            n % 2 == 0,
            unhex_seq(s@.take(i as int)) == Some(out@),
        decreases n - i,
    {
        let c_hi = s.get_char(i);
        let c_lo = s.get_char(i + 1);
        let hu = c_hi as u32;
        let lu = c_lo as u32;
        let hi: u8 = if 48 <= hu && hu <= 57 {
            (hu - 48) as u8
        } else if 97 <= hu && hu <= 102 {
            (hu - 87) as u8
        } else {
            proof {
                lemma_unhex_bad(s@, i as int);
            }
            return None;
        };
        let lo: u8 = if 48 <= lu && lu <= 57 {
            (lu - 48) as u8
        } else if 97 <= lu && lu <= 102 {
            (lu - 87) as u8
        } else {
            proof {
                lemma_unhex_bad(s@, i + 1int);
            }
            return None;
        };
        out.push(hi * 16 + lo);
        proof {
            let t = s@.take(i + 2int);
            assert(t.take(t.len() - 2) =~= s@.take(i as int));
            assert(t[t.len() - 2] == s@[i as int]);
            assert(t[t.len() - 1] == s@[i + 1int]);
        }
        i = i + 2;
    }
    proof {
        assert(s@.take(n as int) =~= s@);
    }
    Some(out)
}

} // verus!
