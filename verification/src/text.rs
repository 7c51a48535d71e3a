//! Text building blocks shared by the backends: decimal numbers, addresses,
//! comma-separated lists, and the test whether one text occurs inside another.

use vstd::prelude::*;

verus! {

/// The character that writes the digit `d`.
pub open spec fn digit(d: nat) -> char {
    if d == 0 {
        '0'
    } else if d == 1 {
        '1'
    } else if d == 2 {
        '2'
    } else if d == 3 {
        '3'
    } else if d == 4 {
        '4'
    } else if d == 5 {
        '5'
    } else if d == 6 {
        '6'
    } else if d == 7 {
        '7'
    } else if d == 8 {
        '8'
    } else {
        '9'
    }
}

/// The decimal notation of `n`, without sign or leading zeros.
pub open spec fn decimal(n: nat) -> Seq<char>
    decreases n,
{
    if n < 10 {
        seq![digit(n)]
    } else {
        decimal(n / 10).push(digit(n % 10))
    }
}

/// A host and a port as one address: the host, a colon, the port in decimal.
pub open spec fn address(host: Seq<char>, port: u16) -> Seq<char> {
    host + ":"@ + decimal(port as nat)
}

/// The number of characters of `s` that stand before its first comma: the
/// length of `s` if it has none.
pub open spec fn before_comma(s: Seq<char>) -> nat
    decreases s.len(),
{
    if s.len() == 0 || s[0] == ',' {
        0
    } else {
        1 + before_comma(s.drop_first())
    }
}

/// The pieces of `s` that its commas separate, in order: what stands before
/// the first comma, then the pieces of what follows it. A text without a comma
/// is one piece, the empty text included.
pub open spec fn split_commas(s: Seq<char>) -> Seq<Seq<char>>
    decreases s.len(),
{
    let n = before_comma(s);
    if n >= s.len() {
        seq![s]
    } else {
        seq![s.take(n as int)] + split_commas(s.skip(n as int + 1))
    }
}

/// The pieces written one after another with a comma between neighbours.
pub open spec fn join_commas(pieces: Seq<Seq<char>>) -> Seq<char>
    decreases pieces.len(),
{
    if pieces.len() == 0 {
        Seq::empty()
    } else if pieces.len() == 1 {
        pieces[0]
    } else {
        pieces[0] + seq![','] + join_commas(pieces.drop_first())
    }
}

/// Whether `part` occurs in `whole` as a contiguous run of characters.
pub open spec fn occurs_in(part: Seq<char>, whole: Seq<char>) -> bool {
    exists|at: int|
        0 <= at && at + part.len() <= whole.len() && #[trigger] whole.subrange(
            at,
            at + part.len(),
        ) == part
}

fn digit_text(d: u16) -> (r: &'static str)
    requires
        d < 10,
    ensures
        r@ == seq![digit(d as nat)],
{
    proof {
        reveal_strlit("0");
        reveal_strlit("1");
        reveal_strlit("2");
        reveal_strlit("3");
        reveal_strlit("4");
        reveal_strlit("5");
        reveal_strlit("6");
        reveal_strlit("7");
        reveal_strlit("8");
        reveal_strlit("9");
    }
    let r = if d == 0 {
        "0"
    } else if d == 1 {
        "1"
    } else if d == 2 {
        "2"
    } else if d == 3 {
        "3"
    } else if d == 4 {
        "4"
    } else if d == 5 {
        "5"
    } else if d == 6 {
        "6"
    } else if d == 7 {
        "7"
    } else if d == 8 {
        "8"
    } else {
        "9"
    };
    assert(r@ =~= seq![digit(d as nat)]);
    r
}

/// Writes `n` in decimal notation.
pub fn decimal_text(n: u16) -> (r: String)
    ensures
        r@ == decimal(n as nat),
    decreases n,
{
    if n < 10 {
        String::from_str(digit_text(n))
    } else {
        let mut r = decimal_text(n / 10);
        r.append(digit_text(n % 10));
        assert(r@ =~= decimal(n as nat));
        r
    }
}

/// Writes a host and a port as one address.
pub fn address_text(host: &str, port: u16) -> (r: String)
    ensures
        r@ == address(host@, port),
{
    let mut r = String::from_str(host);
    r.append(":");
    r.append(decimal_text(port).as_str());
    r
}

/// Up to its first comma a text holds no comma, and the count stops at one.
pub proof fn before_comma_bounds(s: Seq<char>)
    ensures
        before_comma(s) <= s.len(),
        before_comma(s) < s.len() ==> s[before_comma(s) as int] == ',',
        forall|i: int| 0 <= i < before_comma(s) ==> s[i] != ',',
    decreases s.len(),
{
    if s.len() == 0 || s[0] == ',' {
    } else {
        before_comma_bounds(s.drop_first());
        assert forall|i: int| 0 <= i < before_comma(s) implies s[i] != ',' by {
            if i > 0 {
                assert(s[i] == s.drop_first()[i - 1]);
            }
        }
    }
}

/// A text without a comma is a single piece: itself.
pub proof fn split_without_comma(s: Seq<char>)
    requires
        !s.contains(','),
    ensures
        split_commas(s) == seq![s],
{
    before_comma_bounds(s);
    if before_comma(s) < s.len() {
        assert(s.contains(s[before_comma(s) as int]));
    }
}

/// Splitting loses nothing and leaves no comma behind: there is at least one
/// piece, no piece holds a comma, and the pieces joined by commas are the text
/// that was split.
pub proof fn split_then_join(s: Seq<char>)
    ensures
        split_commas(s).len() >= 1,
        forall|i: int| 0 <= i < split_commas(s).len() ==> !(#[trigger] split_commas(s)[i]).contains(
            ',',
        ),
        join_commas(split_commas(s)) == s,
    decreases s.len(),
{
    before_comma_bounds(s);
    let n = before_comma(s);
    if n >= s.len() {
        assert(!s.contains(',')) by {
            if s.contains(',') {
                let i = choose|i: int| 0 <= i < s.len() && s[i] == ',';
                assert(s[i] != ',');
            }
        }
    } else {
        let head = s.take(n as int);
        let tail = s.skip(n as int + 1);
        let rest = split_commas(tail);
        let all = split_commas(s);
        split_then_join(tail);
        assert(all =~= seq![head] + rest);
        assert(!head.contains(',')) by {
            if head.contains(',') {
                let i = choose|i: int| 0 <= i < head.len() && head[i] == ',';
                assert(s[i] == head[i]);
            }
        }
        assert forall|i: int| 0 <= i < all.len() implies !(#[trigger] all[i]).contains(',') by {
            if i > 0 {
                assert(all[i] == rest[i - 1]);
            }
        }
        assert(all.drop_first() =~= rest);
        assert(head + seq![','] + tail =~= s);
    }
}

/// A comma-free text followed by a comma and more text is split after the
/// comma-free part.
proof fn before_comma_of_prefix(head: Seq<char>, tail: Seq<char>)
    requires
        forall|i: int| 0 <= i < head.len() ==> head[i] != ',',
        tail.len() == 0 || tail[0] == ',',
    ensures
        before_comma(head + tail) == head.len(),
    decreases head.len(),
{
    if head.len() == 0 {
        assert(head + tail =~= tail);
    } else {
        assert((head + tail)[0] == head[0]);
        assert((head + tail).drop_first() =~= head.drop_first() + tail);
        before_comma_of_prefix(head.drop_first(), tail);
    }
}

/// Splits `s` at its commas.
pub fn split_at_commas(s: &str) -> (pieces: Vec<String>)
    ensures
        pieces.deep_view() == split_commas(s@),
{
    let mut pieces: Vec<String> = Vec::new();
    let mut start: usize = 0;
    let mut at: usize = 0;
    let total = s.unicode_len();
    proof {
        assert(s@.skip(0) =~= s@);
        assert(pieces.deep_view() + split_commas(s@) =~= split_commas(s@));
    }
    for c in it: s.chars()
        invariant
            it.seq() == s@,
            total == s@.len(),
            at == it.index(),
            start <= at <= total,
            forall|i: int| start <= i < at ==> s@[i] != ',',
            pieces.deep_view() + split_commas(s@.skip(start as int)) == split_commas(s@),
    {
        if c == ',' {
            let piece = String::from_str(s.substring_char(start, at));
            proof {
                let rest = s@.skip(start as int);
                before_comma_of_prefix(rest.take(at - start), rest.skip(at - start));
                assert(rest.take(at - start) + rest.skip(at - start) =~= rest);
                assert(rest.take(at - start) =~= s@.subrange(start as int, at as int));
                assert(rest.skip(at - start + 1) =~= s@.skip(at + 1));
                assert(pieces.deep_view().push(piece@) + split_commas(s@.skip(at + 1))
                    =~= pieces.deep_view() + split_commas(rest));
            }
            let ghost before = pieces.deep_view();
            pieces.push(piece);
            assert(pieces.deep_view() =~= before.push(piece@));
            start = at + 1;
        }
        at = at + 1;
    }
    let piece = String::from_str(s.substring_char(start, total));
    proof {
        let rest = s@.skip(start as int);
        before_comma_of_prefix(rest, Seq::<char>::empty());
        assert(rest + Seq::<char>::empty() =~= rest);
        assert(rest =~= s@.subrange(start as int, total as int));
    }
    let ghost before = pieces.deep_view();
    pieces.push(piece);
    assert(pieces.deep_view() =~= before.push(piece@));
    pieces
}

} // verus!
