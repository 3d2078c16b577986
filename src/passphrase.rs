use vstd::prelude::*;
use vstd::string::StringSliceAdditionalSpecFns;

use rand::seq::SliceRandom;

use crate::errors::IrisError;
use crate::json::{digits_value, is_digit, parse_digits};
use crate::message::RoomIdentifier;

verus! {

/// Relies on rand's `SliceRandom::choose` over `thread_rng()`: one element of the slice picked
/// at random, and none only for an empty slice.
#[verifier::external_body]
fn pick_one<T>(items: &[T]) -> (r: Option<&T>)
    ensures
        r is Some <==> items@.len() > 0,
        r matches Some(x) ==> items@.contains(*x),
{
    items.choose(&mut rand::thread_rng())
}

/// Three words joined by dashes.
pub open spec fn three_words(a: Seq<char>, b: Seq<char>, c: Seq<char>) -> Seq<char> {
    a + seq!['-'] + b + seq!['-'] + c
}

/// A passphrase of three words drawn at random from the list, joined by dashes.
pub fn get_passphrase_from_str_wordlist(wordlist: &[&str]) -> (r: String)
    requires
        wordlist@.len() > 0,
    ensures
        exists|i: int, j: int, k: int|
            0 <= i < wordlist@.len() && 0 <= j < wordlist@.len() && 0 <= k < wordlist@.len()
                && r@ == three_words(wordlist@[i]@, wordlist@[j]@, wordlist@[k]@),
{
    let a = *pick_one(wordlist).unwrap();
    let b = *pick_one(wordlist).unwrap();
    let c = *pick_one(wordlist).unwrap();
    let dash = "-";
    proof {
        reveal_strlit("-");
    }
    let mut out = String::new();
    out.append(a);
    out.append(dash);
    out.append(b);
    out.append(dash);
    out.append(c);
    assert(out@ =~= three_words(a@, b@, c@));
    out
}

/// A passphrase of three words drawn at random from the list, joined by dashes.
pub fn get_passphrase_from_string_wordlist(wordlist: &[String]) -> (r: String)
    requires
        wordlist@.len() > 0,
    ensures
        exists|i: int, j: int, k: int|
            0 <= i < wordlist@.len() && 0 <= j < wordlist@.len() && 0 <= k < wordlist@.len()
                && r@ == three_words(wordlist@[i]@, wordlist@[j]@, wordlist@[k]@),
{
    let a = pick_one(wordlist).unwrap();
    let b = pick_one(wordlist).unwrap();
    let c = pick_one(wordlist).unwrap();
    let dash = "-";
    proof {
        reveal_strlit("-");
    }
    let mut out = String::new();
    out.append(a.as_str());
    out.append(dash);
    out.append(b.as_str());
    out.append(dash);
    out.append(c.as_str());
    assert(out@ =~= three_words(a@, b@, c@));
    out
}

/// The position of the first `-` byte.
pub open spec fn first_dash(b: Seq<u8>) -> Option<int> {
    if exists|i: int| 0 <= i < b.len() && b[i] == 45 {
        Some(choose|i: int| 0 <= i < b.len() && b[i] == 45 && forall|j: int| 0 <= j < i ==> b[j] != 45)
    } else {
        None
    }
}

/// Whether the bytes before the first dash spell a room: one to twenty digits whose value
/// fits in a `u16`.
pub open spec fn room_digits_ok(p: Seq<u8>) -> bool {
    &&& 0 < p.len() <= 20
    &&& forall|i: int| 0 <= i < p.len() ==> is_digit(#[trigger] p[i])
    &&& digits_value(p) <= 65535
}

/// Splits a passphrase `<room>-<secret>` at its first dash: the room and the secret; a
/// passphrase without a dash or with no room number before it is `InvalidPassphrase`.
pub fn parse_passphrase(passphrase: &str) -> (r: Result<(RoomIdentifier, String), IrisError>)
    ensures
        match first_dash(passphrase.spec_bytes()) {
            Some(d) => {
                let room = passphrase.spec_bytes().subrange(0, d);
                let rest = passphrase.spec_bytes().subrange(d + 1, passphrase.spec_bytes().len() as int);
                if room_digits_ok(room) {
                    r matches Ok((id, secret)) && id as nat == digits_value(room)
                        && vstd::utf8::encode_utf8(secret@) == rest
                } else {
                    r == Err::<(RoomIdentifier, String), IrisError>(IrisError::InvalidPassphrase)
                }
            },
            None => r == Err::<(RoomIdentifier, String), IrisError>(IrisError::InvalidPassphrase),
        },
{
    let b = passphrase.as_bytes();
    proof {
        vstd::utf8::encode_utf8_valid_utf8(passphrase@);
    }
    let mut d: usize = 0;
    while d < b.len() && b[d] != 45
        invariant
            0 <= d <= b@.len(),
            forall|j: int| 0 <= j < d ==> b@[j] != 45,
        decreases b@.len() - d,
    {
        d = d + 1;
    }
    if d == b.len() {
        return Err(IrisError::InvalidPassphrase);
    }
    proof {
        let w = choose|i: int| 0 <= i < b@.len() && b@[i] == 45 && forall|j: int| 0 <= j < i ==> b@[j] != 45;
        assert(0 <= d < b@.len() && b@[d as int] == 45 && forall|j: int| 0 <= j < d ==> b@[j] != 45);
        if w < d {
            assert(b@[w] != 45);
        }
        if w > d {
            assert(b@[d as int] != 45);
        }
        assert(w == d);
    }
    let (value, end) = parse_digits(b, 0);
    let ghost room = b@.subrange(0, d as int);
    if end != d || d == 0 || d > 20 || value > 65535 {
        proof {
            if room_digits_ok(room) {
                if end < d {
                    assert(is_digit(room[end as int]));
                }
                if end > d {
                    assert(is_digit(b@[d as int]));
                }
                assert(end == d);
                assert(b@.subrange(0, end as int) == room);
            }
        }
        return Err(IrisError::InvalidPassphrase);
    }
    proof {
        assert(b@.subrange(0, end as int) == room);
        assert forall|i: int| 0 <= i < room.len() implies is_digit(#[trigger] room[i]) by {
            assert(room[i] == b@[i]);
        }
    }
    let mut rest: Vec<u8> = Vec::new();
    crate::json::push_all(&mut rest, &b[d + 1..b.len()]);
    let ghost rest_bytes = rest@;
    proof {
        // What follows a `-` in UTF-8 is UTF-8 again.
        vstd::utf8::is_char_boundary_iff_is_leading_byte(b@, d as int);
        vstd::utf8::valid_utf8_split(b@, d as int);
        let c = b@.subrange(d as int, b@.len() as int);
        assert(c[0] == 45);
        assert(vstd::utf8::pop_first_scalar(c) =~= rest_bytes);
    }
    match crate::files::string_from_utf8(rest) {
        Some(secret) => {
            proof {
                vstd::utf8::decode_utf8_encode_utf8(rest_bytes);
            }
            Ok((value as u16, secret))
        },
        None => Err(IrisError::InvalidPassphrase),
    }
}

} // verus!
