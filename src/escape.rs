use vstd::prelude::*;

verus! {

/// The lower-case hexadecimal digit of a value below 16.
pub open spec fn hex_digit(d: u8) -> u8 {
    if d < 10 {
        (48 + d) as u8
    } else {
        (87 + d) as u8
    }
}

pub open spec fn is_hex(b: u8) -> bool {
    (48 <= b <= 57) || (97 <= b <= 102)
}

pub open spec fn hex_value(b: u8) -> u8 {
    if b <= 57 {
        (b - 48) as u8
    } else {
        (b - 87) as u8
    }
}

/// How one byte of a string is written between the quotes of a JSON string.
pub open spec fn escape_byte(c: u8) -> Seq<u8> {
    if c == 34 {
        seq![92u8, 34]
    } else if c == 92 {
        seq![92u8, 92]
    } else if c == 8 {
        seq![92u8, 98]
    } else if c == 9 {
        seq![92u8, 116]
    } else if c == 10 {
        seq![92u8, 110]
    } else if c == 12 {
        seq![92u8, 102]
    } else if c == 13 {
        seq![92u8, 114]
    } else if c < 32 {
        seq![92u8, 117, 48, 48, hex_digit(c / 16), hex_digit(c % 16)]
    } else {
        seq![c]
    }
}

/// The body of the JSON string that holds the bytes `s`.
pub open spec fn escape(s: Seq<u8>) -> Seq<u8>
    decreases s.len(),
{
    if s.len() == 0 {
        Seq::empty()
    } else {
        escape_byte(s[0]) + escape(s.drop_first())
    }
}

/// The byte that the escape sequence or plain byte at `i` stands for, and where the next one
/// starts; `None` at a quote, a raw control byte or a malformed escape.
pub open spec fn token(b: Seq<u8>, i: int) -> Option<(u8, int)> {
    if i < 0 || i >= b.len() || b[i] == 34 {
        None
    } else if b[i] == 92 {
        if i + 1 >= b.len() {
            None
        } else {
            let e = b[i + 1];
            if e == 34 {
                Some((34u8, i + 2))
            } else if e == 92 {
                Some((92u8, i + 2))
            } else if e == 98 {
                Some((8u8, i + 2))
            } else if e == 116 {
                Some((9u8, i + 2))
            } else if e == 110 {
                Some((10u8, i + 2))
            } else if e == 102 {
                Some((12u8, i + 2))
            } else if e == 114 {
                Some((13u8, i + 2))
            } else if e == 117 && i + 5 < b.len() && b[i + 2] == 48 && b[i + 3] == 48 && is_hex(
                b[i + 4],
            ) && is_hex(b[i + 5]) {
                Some(((hex_value(b[i + 4]) * 16 + hex_value(b[i + 5])) as u8, i + 6))
            } else {
                None
            }
        }
    } else if b[i] < 32 {
        None
    } else {
        Some((b[i], i + 1))
    }
}

/// Reads string bytes from `i` up to the closing quote: the bytes and the quote's position.
pub open spec fn scan(b: Seq<u8>, i: int) -> Option<(Seq<u8>, int)>
    decreases b.len() - i,
{
    if i < 0 || i >= b.len() {
        None
    } else if b[i] == 34 {
        Some((Seq::empty(), i))
    } else {
        match token(b, i) {
            Some((c, n)) => if i < n <= b.len() {
                match scan(b, n) {
                    Some((t, e)) => Some((seq![c] + t, e)),
                    None => None,
                }
            } else {
                None
            },
            None => None,
        }
    }
}

pub open spec fn prepend(p: Seq<u8>, x: Option<(Seq<u8>, int)>) -> Option<(Seq<u8>, int)> {
    match x {
        Some((t, e)) => Some((p + t, e)),
        None => None,
    }
}

proof fn lemma_token_of_escape(c: u8, b: Seq<u8>, i: int)
    requires
        0 <= i,
        i + escape_byte(c).len() <= b.len(),
        b.subrange(i, i + escape_byte(c).len()) == escape_byte(c),
    ensures
        token(b, i) == Some((c, i + escape_byte(c).len())),
        b[i] != 34,
{
    let e = escape_byte(c);
    assert forall|k: int| 0 <= k < e.len() implies b[i + k] == e[k] by {
        assert(b.subrange(i, i + e.len())[k] == b[i + k]);
    }
    assert(b[i] == e[0]);
    if e.len() >= 2 {
        assert(b[i + 1] == e[1]);
    }
    if c < 32 && c != 8 && c != 9 && c != 10 && c != 12 && c != 13 {
        assert(b[i + 4] == hex_digit(c / 16));
        assert(b[i + 5] == hex_digit(c % 16));
        assert(hex_value(hex_digit(c / 16)) == c / 16);
        assert(hex_value(hex_digit(c % 16)) == c % 16);
        assert((c / 16) * 16 + c % 16 == c);
    }
}

proof fn lemma_escape_nonempty(c: u8)
    ensures
        escape_byte(c).len() >= 1,
{
}

/// Reading the escaped form of `s`, followed by a quote, gives back `s` and stops at the quote.
pub proof fn lemma_scan_escape(s: Seq<u8>, b: Seq<u8>, i: int, j: int)
    requires
        0 <= i <= j < b.len(),
        b.subrange(i, j) == escape(s),
        b[j] == 34,
    ensures
        scan(b, i) == Some((s, j)),
    decreases s.len(),
{
    if s.len() == 0 {
        assert(i == j);
    } else {
        let e = escape_byte(s[0]);
        let k = e.len();
        lemma_escape_nonempty(s[0]);
        assert(escape(s) == e + escape(s.drop_first()));
        assert(b.subrange(i, i + k) =~= e) by {
            assert(b.subrange(i, i + k) =~= b.subrange(i, j).subrange(0, k as int));
        }
        lemma_token_of_escape(s[0], b, i);
        assert(b.subrange(i + k, j) =~= escape(s.drop_first())) by {
            assert(b.subrange(i + k, j) =~= b.subrange(i, j).subrange(k as int, j - i));
        }
        lemma_scan_escape(s.drop_first(), b, i + k, j);
        assert(seq![s[0]] + s.drop_first() =~= s);
    }
}

/// Reads the plain byte or escape sequence at `i`.
fn read_token(b: &[u8], i: usize) -> (r: Option<(u8, usize)>)
    requires
        i < b@.len(),
    ensures
        match token(b@, i as int) {
            Some((c, n)) => r == Some((c, n as usize)),
            None => r is None,
        },
{
    let x = b[i];
    if x == 34 {
        None
    } else if x == 92 {
        if i + 1 >= b.len() {
            return None;
        }
        let e = b[i + 1];
        if e == 34 {
            Some((34u8, i + 2))
        } else if e == 92 {
            Some((92u8, i + 2))
        } else if e == 98 {
            Some((8u8, i + 2))
        } else if e == 116 {
            Some((9u8, i + 2))
        } else if e == 110 {
            Some((10u8, i + 2))
        } else if e == 102 {
            Some((12u8, i + 2))
        } else if e == 114 {
            Some((13u8, i + 2))
        } else if e == 117 && b.len() - i > 5 && b[i + 2] == 48 && b[i + 3] == 48 && is_hex_byte(
            b[i + 4],
        ) && is_hex_byte(b[i + 5]) {
            let hi = hex_value_of(b[i + 4]);
            let lo = hex_value_of(b[i + 5]);
            Some((hi * 16 + lo, i + 6))
        } else {
            None
        }
    } else if x < 32 {
        None
    } else {
        Some((x, i + 1))
    }
}

fn is_hex_byte(b: u8) -> (r: bool)
    ensures
        r == is_hex(b),
{
    (48 <= b && b <= 57) || (97 <= b && b <= 102)
}

fn hex_value_of(b: u8) -> (r: u8)
    requires
        is_hex(b),
    ensures
        r == hex_value(b),
        r < 16,
{
    if b <= 57 {
        b - 48
    } else {
        b - 87
    }
}

/// Reads the bytes of a JSON string body from `start` up to its closing quote.
pub fn unescape_until_quote(b: &[u8], start: usize) -> (r: Option<(Vec<u8>, usize)>)
    requires
        start <= b@.len(),
    ensures
        match scan(b@, start as int) {
            Some((t, e)) => r matches Some((v, e2)) && v@ == t && e2 == e,
            None => r is None,
        },
{
    let mut out: Vec<u8> = Vec::new();
    let mut i: usize = start;
    assert(out@ + Seq::<u8>::empty() =~= out@);
    loop
        invariant
            start <= i <= b@.len(),
            scan(b@, start as int) == prepend(out@, scan(b@, i as int)),
        decreases b@.len() - i,
    {
        if i >= b.len() {
            return None;
        }
        if b[i] == 34 {
            assert(out@ + Seq::<u8>::empty() =~= out@);
            return Some((out, i));
        }
        match read_token(b, i) {
            Some((c, n)) => {
                if n <= i || n > b.len() {
                    return None;
                }
                proof {
                    match scan(b@, n as int) {
                        Some((t, e)) => {
                            assert(out@.push(c) + t =~= out@ + (seq![c] + t));
                        },
                        None => {},
                    }
                }
                out.push(c);
                i = n;
            },
            None => {
                return None;
            },
        }
    }
}

/// Appends the escaped form of `s`.
pub fn push_escaped(out: &mut Vec<u8>, s: &[u8])
    ensures
        final(out)@ == old(out)@ + escape(s@),
{
    let mut pieces: Vec<u8> = Vec::new();
    let mut k: usize = 0;
    assert(s@.subrange(0, 0) =~= Seq::<u8>::empty());
    while k < s.len()
        invariant
            0 <= k <= s@.len(),
            pieces@ == escape(s@.subrange(0, k as int)),
        decreases s@.len() - k,
    {
        let c = s[k];
        proof {
            lemma_escape_append(s@.subrange(0, k as int), c);
            assert(s@.subrange(0, k + 1) =~= s@.subrange(0, k as int).push(c));
        }
        push_escaped_byte(&mut pieces, c);
        k = k + 1;
    }
    assert(s@.subrange(0, k as int) =~= s@);
    crate::json::push_all(out, pieces.as_slice());
}

pub proof fn lemma_escape_append(s: Seq<u8>, c: u8)
    ensures
        escape(s.push(c)) == escape(s) + escape_byte(c),
    decreases s.len(),
{
    if s.len() == 0 {
        assert(s.push(c).drop_first() =~= Seq::<u8>::empty());
        assert(s.push(c)[0] == c);
        assert(escape(Seq::<u8>::empty()) == Seq::<u8>::empty());
        assert(escape(s) == Seq::<u8>::empty());
        assert(escape_byte(c) + Seq::<u8>::empty() =~= escape_byte(c));
        assert(Seq::<u8>::empty() + escape_byte(c) =~= escape_byte(c));
    } else {
        assert(s.push(c)[0] == s[0]);
        lemma_escape_append(s.drop_first(), c);
        assert(s.push(c).drop_first() =~= s.drop_first().push(c));
        assert(escape_byte(s[0]) + (escape(s.drop_first()) + escape_byte(c)) =~= (escape_byte(s[0])
            + escape(s.drop_first())) + escape_byte(c));
    }
}

fn hex_digit_of(d: u8) -> (r: u8)
    requires
        d < 16,
    ensures
        r == hex_digit(d),
{
    if d < 10 {
        48 + d
    } else {
        87 + d
    }
}

fn push_escaped_byte(out: &mut Vec<u8>, c: u8)
    ensures
        final(out)@ == old(out)@ + escape_byte(c),
{
    if c == 34 || c == 92 {
        out.push(92);
        out.push(c);
    } else if c == 8 {
        out.push(92);
        out.push(98);
    } else if c == 9 {
        out.push(92);
        out.push(116);
    } else if c == 10 {
        out.push(92);
        out.push(110);
    } else if c == 12 {
        out.push(92);
        out.push(102);
    } else if c == 13 {
        out.push(92);
        out.push(114);
    } else if c < 32 {
        out.push(92);
        out.push(117);
        out.push(48);
        out.push(48);
        out.push(hex_digit_of(c / 16));
        out.push(hex_digit_of(c % 16));
    } else {
        out.push(c);
    }
    assert(out@ =~= old(out)@ + escape_byte(c));
}

} // verus!
