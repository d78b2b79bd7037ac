//! Text building blocks for the platform file: decimal numbers and
//! separator-joined lists.
use vstd::prelude::*;
use vstd::string::StringExecFns;

verus! {

pub open spec fn digit_char(d: nat) -> char {
    seq!['0', '1', '2', '3', '4', '5', '6', '7', '8', '9'][d as int]
}

/// The decimal digits of `n`, most significant first, without leading zeros.
pub open spec fn decimal(n: nat) -> Seq<char>
    decreases n,
{
    if n < 10 {
        seq![digit_char(n)]
    } else {
        decimal(n / 10).push(digit_char(n % 10))
    }
}

/// The items of `items` with a `sep` between each two neighbours.
pub open spec fn joined_with(items: Seq<Seq<char>>, sep: char) -> Seq<char>
    decreases items.len(),
{
    if items.len() == 0 {
        Seq::empty()
    } else if items.len() == 1 {
        items[0]
    } else {
        joined_with(items.drop_last(), sep).push(sep) + items.last()
    }
}

fn digit_str(d: u64) -> (r: &'static str)
    requires
        d < 10,
    ensures
        r@ == seq![digit_char(d as nat)],
{
    proof {
        reveal_strlit("0");
        reveal_strlit("1");
        reveal_strlit("2");
        reveal_strlit("3");
        reveal_strlit("4");
        reveal_strlit("5");
        reveal_strlit("6");
        reveal_strlit("7");
        reveal_strlit("8");
        reveal_strlit("9");
    }
    let r = if d == 0 {
        "0"
    } else if d == 1 {
        "1"
    } else if d == 2 {
        "2"
    } else if d == 3 {
        "3"
    } else if d == 4 {
        "4"
    } else if d == 5 {
        "5"
    } else if d == 6 {
        "6"
    } else if d == 7 {
        "7"
    } else if d == 8 {
        "8"
    } else {
        "9"
    };
    assert(r@ =~= seq![digit_char(d as nat)]);
    r
}

/// Appends the decimal digits of `n`.
pub fn push_decimal(s: &mut String, n: u64)
    ensures
        final(s)@ == old(s)@ + decimal(n as nat),
    decreases n,
{
    if n >= 10 {
        push_decimal(s, n / 10);
    }
    let d = digit_str(n % 10);
    s.append(d);
    proof {
        if n >= 10 {
            assert(decimal(n as nat) == decimal((n / 10) as nat).push(digit_char((n % 10) as nat)));
        }
        assert(final(s)@ =~= old(s)@ + decimal(n as nat));
    }
}

/// Appends `items` with a `sep` between each two neighbours.
pub fn push_joined(s: &mut String, items: &Vec<String>, sep: &str)
    requires
        sep@.len() == 1,
    ensures
        final(s)@ == old(s)@ + joined_with(items.deep_view(), sep@[0]),
{
    let ghost start = s@;
    let ghost all = items.deep_view();
    let mut i: usize = 0;
    while i < items.len()
        invariant
            i <= items.len(),
            all == items.deep_view(),
            sep@.len() == 1,
            s@ == start + joined_with(all.subrange(0, i as int), sep@[0]),
        decreases items.len() - i,
    {
        let ghost before = s@;
        if i > 0 {
            s.append(sep);
        }
        s.append(items[i].as_str());
        proof {
            let pre = all.subrange(0, i as int);
            let next = all.subrange(0, i + 1);
            assert(next.drop_last() =~= pre);
            assert(next.last() == items[i as int]@);
            if i == 0 {
                assert(s@ =~= start + joined_with(next, sep@[0]));
            } else {
                assert(sep@ =~= seq![sep@[0]]);
                assert(s@ =~= start + joined_with(next, sep@[0]));
            }
        }
        i = i + 1;
    }
    proof {
        assert(all.subrange(0, items.len() as int) =~= all);
    }
}

pub open spec fn hex_char(d: nat) -> char {
    seq!['0', '1', '2', '3', '4', '5', '6', '7', '8', '9', 'a', 'b', 'c', 'd', 'e', 'f'][d as int]
}

/// How one character stands inside a JSON string: quote and backslash are
/// preceded by a backslash, control characters are written as `\u00XX`, and
/// every other character stands as it is.
pub open spec fn json_escaped_char(c: char) -> Seq<char> {
    if c == '"' {
        seq!['\\', '"']
    } else if c == '\\' {
        seq!['\\', '\\']
    } else if (c as u32) < 32 {
        seq!['\\', 'u', '0', '0', hex_char((c as u32 / 16) as nat), hex_char((c as u32 % 16) as nat)]
    } else {
        seq![c]
    }
}

/// `t` written as the contents of a JSON string.
pub open spec fn json_escaped(t: Seq<char>) -> Seq<char>
    decreases t.len(),
{
    if t.len() == 0 {
        Seq::empty()
    } else {
        json_escaped(t.drop_last()) + json_escaped_char(t.last())
    }
}

fn hex_str(d: u32) -> (r: &'static str)
    requires
        d < 16,
    ensures
        r@ == seq![hex_char(d as nat)],
{
    if d < 10 {
        let r = digit_str(d as u64);
        assert(seq!['0', '1', '2', '3', '4', '5', '6', '7', '8', '9'][d as int]
            == seq!['0', '1', '2', '3', '4', '5', '6', '7', '8', '9', 'a', 'b', 'c', 'd', 'e', 'f'][d as int]);
        return r;
    }
    proof {
        reveal_strlit("a");
        reveal_strlit("b");
        reveal_strlit("c");
        reveal_strlit("d");
        reveal_strlit("e");
        reveal_strlit("f");
    }
    let r = if d == 10 {
        "a"
    } else if d == 11 {
        "b"
    } else if d == 12 {
        "c"
    } else if d == 13 {
        "d"
    } else if d == 14 {
        "e"
    } else {
        "f"
    };
    assert(r@ =~= seq![hex_char(d as nat)]);
    r
}

/// Appends `c` as it stands inside a JSON string; `one` is the text of `c`
/// alone.
fn push_escaped_char(s: &mut String, c: char, one: &str)
    requires
        one@ == seq![c],
    ensures
        final(s)@ == old(s)@ + json_escaped_char(c),
{
    proof {
        reveal_strlit("\\\"");
        reveal_strlit("\\\\");
        reveal_strlit("\\u00");
    }
    if c == '"' {
        s.append("\\\"");
    } else if c == '\\' {
        s.append("\\\\");
    } else if (c as u32) < 32 {
        s.append("\\u00");
        s.append(hex_str(c as u32 / 16));
        s.append(hex_str(c as u32 % 16));
    } else {
        s.append(one);
    }
    proof {
        assert(final(s)@ =~= old(s)@ + json_escaped_char(c));
    }
}

/// Appends `t` written as the contents of a JSON string.
pub fn push_json_escaped(s: &mut String, t: &str)
    ensures
        final(s)@ == old(s)@ + json_escaped(t@),
{
    let ghost start = s@;
    let n = t.unicode_len();
    let mut i: usize = 0;
    while i < n
        invariant
            n == t@.len(),
            i <= n,
            s@ == start + json_escaped(t@.subrange(0, i as int)),
        decreases n - i,
    {
        let c = t.get_char(i);
        let one = t.substring_char(i, i + 1);
        assert(one@ =~= seq![c]);
        push_escaped_char(s, c, one);
        proof {
            let next = t@.subrange(0, i + 1);
            assert(next.drop_last() =~= t@.subrange(0, i as int));
            assert(next.last() == c);
            assert(s@ =~= start + json_escaped(next));
        }
        i = i + 1;
    }
    proof {
        assert(t@.subrange(0, n as int) =~= t@);
    }
}

} // verus!
