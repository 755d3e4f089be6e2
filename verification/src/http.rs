//! Reading a dependency's raw HTTP/1.1 answer: its status code and body.
use vstd::prelude::*;

verus! {

/// Whether `raw` holds the blank line `\r\n\r\n` that ends the head at `i`.
pub open spec fn is_break_at(raw: Seq<u8>, i: int) -> bool {
    &&& 0 <= i
    &&& i + 4 <= raw.len()
    &&& raw[i] == 13 && raw[i + 1] == 10 && raw[i + 2] == 13 && raw[i + 3] == 10
}

/// Whether `i` is where the first blank line of `raw` starts.
pub open spec fn is_first_break(raw: Seq<u8>, i: int) -> bool {
    is_break_at(raw, i) && forall|j: int| 0 <= j < i ==> !#[trigger] is_break_at(raw, j)
}

/// Whether `p` is the first space of `raw`: the one after the HTTP version.
pub open spec fn is_first_space(raw: Seq<u8>, p: int) -> bool {
    0 <= p < raw.len() && raw[p] == 32 && forall|j: int| 0 <= j < p ==> #[trigger] raw[j] != 32
}

pub open spec fn is_digit(b: u8) -> bool {
    48 <= b <= 57
}

/// Whether the three bytes after `p` are the decimal status code, followed by
/// a space or the end of the status line.
pub open spec fn is_status_at(raw: Seq<u8>, p: int) -> bool {
    &&& 0 <= p
    &&& p + 4 < raw.len()
    &&& is_digit(raw[p + 1]) && is_digit(raw[p + 2]) && is_digit(raw[p + 3])
    &&& raw[p + 4] == 32 || raw[p + 4] == 13
}

/// The three digits after `p`, read as a number.
pub open spec fn status_value(raw: Seq<u8>, p: int) -> int {
    (raw[p + 1] - 48) * 100 + (raw[p + 2] - 48) * 10 + (raw[p + 3] - 48)
}

/// The status and body of the HTTP answer `raw`: the status code is the
/// three digits after the first space, which stands in the head; the body
/// is everything after the first blank line. `None` where `raw` has no blank
/// line, no space before it, or no three-digit code there.
pub open spec fn answer_view(raw: Seq<u8>) -> Option<(u16, Seq<u8>)> {
    if exists|i: int| is_first_break(raw, i) {
        let i = choose|i: int| is_first_break(raw, i);
        if exists|p: int| is_first_space(raw, p) {
            let p = choose|p: int| is_first_space(raw, p);
            if p + 4 <= i && is_status_at(raw, p) {
                Some((status_value(raw, p) as u16, raw.subrange(i + 4, raw.len() as int)))
            } else {
                None
            }
        } else {
            None
        }
    } else {
        None
    }
}

/// The status and body of a dependency's raw HTTP/1.1 answer, as
/// [`answer_view`] reads them.
pub fn parse_answer(raw: &[u8]) -> (r: Option<(u16, Vec<u8>)>)
    ensures
        match r {
            Some((status, body)) => answer_view(raw@) == Some((status, body@)),
            None => answer_view(raw@) is None,
        },
{
    let n = raw.len();
    // The first blank line.
    let mut i: usize = 0;
    let mut found_break = false;
    while n >= 4 && i <= n - 4
        invariant_except_break
            !found_break,
        invariant
            n == raw@.len(),
            i <= n,
            forall|j: int| 0 <= j < i ==> !#[trigger] is_break_at(raw@, j),
        ensures
            found_break ==> is_first_break(raw@, i as int),
            !found_break ==> forall|j: int| !#[trigger] is_break_at(raw@, j),
        decreases n - i,
    {
        if raw[i] == 13 && raw[i + 1] == 10 && raw[i + 2] == 13 && raw[i + 3] == 10 {
            found_break = true;
            break;
        }
        i = i + 1;
    }
    if !found_break {
        assert forall|j: int| !is_first_break(raw@, j) by {
            assert(!is_break_at(raw@, j));
        }
        return None;
    }
    proof {
        assert forall|k: int| #[trigger] is_first_break(raw@, k) implies k == i by {
            if k < i {
                assert(!is_break_at(raw@, k));
            } else if k > i {
                assert(!is_break_at(raw@, i as int));
            }
        }
    }
    // The first space.
    let mut p: usize = 0;
    let mut found_space = false;
    while p < n
        invariant_except_break
            !found_space,
        invariant
            n == raw@.len(),
            p <= n,
            forall|j: int| 0 <= j < p ==> #[trigger] raw@[j] != 32,
        ensures
            found_space ==> is_first_space(raw@, p as int),
            !found_space ==> forall|j: int| 0 <= j < n ==> #[trigger] raw@[j] != 32,
        decreases n - p,
    {
        if raw[p] == 32 {
            found_space = true;
            break;
        }
        p = p + 1;
    }
    if !found_space {
        assert forall|q: int| !is_first_space(raw@, q) by {
            if 0 <= q < n {
                assert(raw@[q] != 32);
            }
        }
        return None;
    }
    proof {
        assert forall|q: int| #[trigger] is_first_space(raw@, q) implies q == p by {
            if q < p {
                assert(raw@[q] != 32);
            } else if q > p {
                assert(raw@[p as int] != 32);
            }
        }
    }
    if p >= i || i - p < 4 {
        return None;
    }
    let d1 = raw[p + 1];
    let d2 = raw[p + 2];
    let d3 = raw[p + 3];
    let after = raw[p + 4];
    if !(48 <= d1 && d1 <= 57 && 48 <= d2 && d2 <= 57 && 48 <= d3 && d3 <= 57) || !(after == 32 || after == 13) {
        return None;
    }
    let status: u16 = ((d1 - 48) as u16) * 100 + ((d2 - 48) as u16) * 10 + ((d3 - 48) as u16);
    let mut body: Vec<u8> = Vec::new();
    let mut k: usize = i + 4;
    while k < n
        invariant
            n == raw@.len(),
            i + 4 <= k <= n,
            body@ == raw@.subrange(i + 4, k as int),
        decreases n - k,
    {
        body.push(raw[k]);
        k = k + 1;
        assert(body@ =~= raw@.subrange(i + 4, k as int));
    }
    Some((status, body))
}

} // verus!
