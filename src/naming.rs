use vstd::prelude::*;

verus! {

/// The character of a decimal digit.
pub open spec fn digit_char(d: nat) -> char
    recommends
        d < 10,
{
    seq!['0', '1', '2', '3', '4', '5', '6', '7', '8', '9'][d as int]
}

/// The decimal representation of `n`, without leading zeros.
pub open spec fn decimal(n: nat) -> Seq<char>
    decreases n,
{
    if n < 10 {
        seq![digit_char(n)]
    } else {
        decimal(n / 10).push(digit_char(n % 10))
    }
}

/// The name of the text file that holds channel `c`'s result for an input
/// with stem `stem`.
pub open spec fn channel_name(stem: Seq<char>, c: nat) -> Seq<char> {
    stem + "_channel_"@ + decimal(c) + ".txt"@
}

proof fn lemma_decimal_nonempty(n: nat)
    ensures
        decimal(n).len() >= 1,
    decreases n,
{
    if n >= 10 {
        lemma_decimal_nonempty(n / 10);
    }
}

proof fn lemma_digit_char_injective(a: nat, b: nat)
    requires
        a < 10,
        b < 10,
        digit_char(a) == digit_char(b),
    ensures
        a == b,
{
}

/// Different numbers have different decimal representations.
pub proof fn lemma_decimal_injective(a: nat, b: nat)
    requires
        decimal(a) == decimal(b),
    ensures
        a == b,
    decreases a,
{
    if a < 10 && b < 10 {
        assert(decimal(a)[0] == digit_char(a));
        assert(decimal(b)[0] == digit_char(b));
        lemma_digit_char_injective(a, b);
    } else if a < 10 {
        lemma_decimal_nonempty(b / 10);
        assert(decimal(b).len() >= 2);
    } else if b < 10 {
        lemma_decimal_nonempty(a / 10);
        assert(decimal(a).len() >= 2);
    } else {
        let da = decimal(a);
        let db = decimal(b);
        assert(da.last() == digit_char(a % 10));
        assert(db.last() == digit_char(b % 10));
        lemma_digit_char_injective(a % 10, b % 10);
        assert(da.drop_last() =~= decimal(a / 10));
        assert(db.drop_last() =~= decimal(b / 10));
        lemma_decimal_injective(a / 10, b / 10);
    }
}

/// Two channels of one input never share an output file name.
pub proof fn lemma_channel_names_distinct(stem: Seq<char>, a: nat, b: nat)
    requires
        a != b,
    ensures
        channel_name(stem, a) != channel_name(stem, b),
{
    if channel_name(stem, a) == channel_name(stem, b) {
        let p = stem + "_channel_"@;
        let x = ".txt"@;
        let na = channel_name(stem, a);
        let nb = channel_name(stem, b);
        assert(na.len() == p.len() + decimal(a).len() + x.len());
        assert(nb.len() == p.len() + decimal(b).len() + x.len());
        assert(na.subrange(p.len() as int, (p.len() + decimal(a).len()) as int) =~= decimal(a));
        assert(nb.subrange(p.len() as int, (p.len() + decimal(b).len()) as int) =~= decimal(b));
        lemma_decimal_injective(a, b);
    }
}

/// Appends the decimal digits of `n` to `s`.
fn push_decimal(s: &mut String, n: usize)
    ensures
        final(s)@ == old(s)@ + decimal(n as nat),
    decreases n,
{
    if n >= 10 {
        push_decimal(s, n / 10);
    }
    let d = n % 10;
    let digit = if d == 0 {
        "0"
    } else if d == 1 {
        "1"
    } else if d == 2 {
        "2"
    } else if d == 3 {
        "3"
    } else if d == 4 {
        "4"
    } else if d == 5 {
        "5"
    } else if d == 6 {
        "6"
    } else if d == 7 {
        "7"
    } else if d == 8 {
        "8"
    } else {
        "9"
    };
    proof {
        reveal_strlit("0");
        reveal_strlit("1");
        reveal_strlit("2");
        reveal_strlit("3");
        reveal_strlit("4");
        reveal_strlit("5");
        reveal_strlit("6");
        reveal_strlit("7");
        reveal_strlit("8");
        reveal_strlit("9");
    }
    assert(digit@ =~= seq![digit_char(d as nat)]);
    s.append(digit);
}

/// The output file name of channel `channel` for an input with stem `stem`:
/// `<stem>_channel_<channel>.txt`.
pub fn channel_file_name(stem: &str, channel: usize) -> (r: String)
    ensures
        r@ == channel_name(stem@, channel as nat),
{
    let mut s = stem.to_owned();
    s.append("_channel_");
    push_decimal(&mut s, channel);
    s.append(".txt");
    s
}

/// The output file names of all `channels` channels of one input, one per
/// channel, in channel order.
pub fn channel_file_names(stem: &str, channels: usize) -> (r: Vec<String>)
    ensures
        r.len() == channels,
        forall|c: int| 0 <= c < channels ==> #[trigger] r[c]@ == channel_name(stem@, c as nat),
{
    let mut r: Vec<String> = Vec::new();
    let mut c: usize = 0;
    while c < channels
        invariant
            c <= channels,
            r.len() == c,
            forall|d: int| 0 <= d < c ==> #[trigger] r[d]@ == channel_name(stem@, d as nat),
        decreases channels - c,
    {
        r.push(channel_file_name(stem, c));
        c = c + 1;
    }
    r
}

} // verus!
