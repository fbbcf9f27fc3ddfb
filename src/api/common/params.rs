use vstd::prelude::*;

verus! {

/// A query parameter list as text pairs.
pub open spec fn pairs_view(v: Seq<(String, String)>) -> Seq<(Seq<char>, Seq<char>)> {
    v.map_values(|p: (String, String)| (p.0@, p.1@))
}

/// The decimal digit for `d` (below ten).
pub open spec fn digit(d: nat) -> char {
    if d == 0 { '0' } else if d == 1 { '1' } else if d == 2 { '2' } else if d == 3 { '3' }
    else if d == 4 { '4' } else if d == 5 { '5' } else if d == 6 { '6' } else if d == 7 { '7' }
    else if d == 8 { '8' } else { '9' }
}

/// `n` in decimal, without sign or leading zeros.
pub open spec fn decimal(n: nat) -> Seq<char>
    decreases n,
{
    if n < 10 {
        seq![digit(n)]
    } else {
        decimal(n / 10).push(digit(n % 10))
    }
}

/// The text of an optional text field.
pub open spec fn opt_view(value: Option<String>) -> Option<Seq<char>> {
    match value {
        Some(v) => Some(v@),
        None => None,
    }
}

/// One pair `(name, value)` where the field is set, none where it is not.
pub open spec fn text_pair(name: Seq<char>, value: Option<Seq<char>>) -> Seq<(Seq<char>, Seq<char>)> {
    match value {
        Some(v) => seq![(name, v)],
        None => Seq::empty(),
    }
}

/// One pair `(name, decimal value)` where the field is set, none where it is not.
pub open spec fn num_pair(name: Seq<char>, value: Option<u64>) -> Seq<(Seq<char>, Seq<char>)> {
    match value {
        Some(v) => seq![(name, decimal(v as nat))],
        None => Seq::empty(),
    }
}

pub open spec fn widen_u8(v: Option<u8>) -> Option<u64> {
    match v {
        Some(x) => Some(x as u64),
        None => None,
    }
}

pub open spec fn widen_u32(v: Option<u32>) -> Option<u64> {
    match v {
        Some(x) => Some(x as u64),
        None => None,
    }
}

/// One pair `(name, "1" or "0")` where the flag is set, none where it is not.
pub open spec fn flag_pair(name: Seq<char>, value: Option<bool>) -> Seq<(Seq<char>, Seq<char>)> {
    match value {
        Some(b) => seq![(name, if b { "1"@ } else { "0"@ })],
        None => Seq::empty(),
    }
}

/// The `gzip` pair for a compression level in `1..=5`; none for any other.
pub open spec fn level_pair(level: Option<u8>) -> Seq<(Seq<char>, Seq<char>)> {
    match level {
        Some(l) => if 1 <= l <= 5 {
            seq![("gzip"@, decimal(l as nat))]
        } else {
            Seq::empty()
        },
        None => Seq::empty(),
    }
}

/// `u` and `v` have the same length and agree at every index but `j`.
#[verifier::opaque]
pub open spec fn agree_but<T>(u: Seq<T>, v: Seq<T>, j: int) -> bool {
    &&& u.len() == v.len()
    &&& 0 <= j < u.len()
    &&& forall|i: int| 0 <= i < u.len() && i != j ==> u[i] == v[i]
}

/// Appending the same list to two lists keeps where they agree and the
/// values at the index where they may not.
pub proof fn lemma_agree_but_one<T>(u: Seq<T>, v: Seq<T>, t: Seq<T>, j: int)
    requires
        agree_but(u, v, j),
    ensures
        agree_but(u + t, v + t, j),
        (u + t)[j] == u[j],
        (v + t)[j] == v[j],
{
    reveal(agree_but);
    assert forall|i: int| 0 <= i < (u + t).len() && i != j implies (u + t)[i] == (v + t)[i] by {
        if i < u.len() {
            assert(u[i] == v[i]);
        }
    }
}

/// The text of one decimal digit.
fn digit_text(d: u64) -> (r: &'static str)
    requires
        d < 10,
    ensures
        r@ == seq![digit(d as nat)],
{
    proof {
        reveal_strlit("0");
        reveal_strlit("1");
        reveal_strlit("2");
        reveal_strlit("3");
        reveal_strlit("4");
        reveal_strlit("5");
        reveal_strlit("6");
        reveal_strlit("7");
        reveal_strlit("8");
        reveal_strlit("9");
    }
    if d == 0 {
        "0"
    } else if d == 1 {
        "1"
    } else if d == 2 {
        "2"
    } else if d == 3 {
        "3"
    } else if d == 4 {
        "4"
    } else if d == 5 {
        "5"
    } else if d == 6 {
        "6"
    } else if d == 7 {
        "7"
    } else if d == 8 {
        "8"
    } else {
        "9"
    }
}

/// `n` in decimal.
pub fn decimal_text(n: u64) -> (r: String)
    ensures
        r@ == decimal(n as nat),
    decreases n,
{
    if n < 10 {
        digit_text(n).to_string()
    } else {
        let mut s = decimal_text(n / 10);
        let d = digit_text(n % 10);
        s.append(d);
        assert(s@ =~= decimal((n / 10) as nat).push(digit((n % 10) as nat)));
        s
    }
}

/// Appends the pair `(name, value)`.
pub fn push_pair(params: &mut Vec<(String, String)>, name: &str, value: String)
    ensures
        pairs_view(final(params)@) == pairs_view(old(params)@) + seq![(name@, value@)],
{
    params.push((name.to_string(), value));
    assert(pairs_view(final(params)@) =~= pairs_view(old(params)@) + seq![(name@, value@)]);
}

/// Appends `(name, value)` where `value` is set.
pub fn push_text(params: &mut Vec<(String, String)>, name: &str, value: &Option<String>)
    ensures
        pairs_view(final(params)@) == pairs_view(old(params)@) + text_pair(name@, opt_view(*value)),
{
    match value {
        Some(v) => push_pair(params, name, v.clone()),
        None => {
            assert(pairs_view(old(params)@) + text_pair(name@, opt_view(*value)) =~= pairs_view(old(params)@));
        },
    }
}

/// Appends `(name, value in decimal)` where `value` is set.
pub fn push_num(params: &mut Vec<(String, String)>, name: &str, value: Option<u64>)
    ensures
        pairs_view(final(params)@) == pairs_view(old(params)@) + num_pair(name@, value),
{
    match value {
        Some(v) => push_pair(params, name, decimal_text(v)),
        None => {
            assert(pairs_view(old(params)@) + num_pair(name@, value) =~= pairs_view(old(params)@));
        },
    }
}

pub fn push_u8(params: &mut Vec<(String, String)>, name: &str, value: Option<u8>)
    ensures
        pairs_view(final(params)@) == pairs_view(old(params)@) + num_pair(name@, widen_u8(value)),
{
    push_num(params, name, match value { Some(v) => Some(v as u64), None => None });
}

pub fn push_u32(params: &mut Vec<(String, String)>, name: &str, value: Option<u32>)
    ensures
        pairs_view(final(params)@) == pairs_view(old(params)@) + num_pair(name@, widen_u32(value)),
{
    push_num(params, name, match value { Some(v) => Some(v as u64), None => None });
}

/// Appends `(name, "1" or "0")` where the flag is set.
pub fn push_flag(params: &mut Vec<(String, String)>, name: &str, value: Option<bool>)
    ensures
        pairs_view(final(params)@) == pairs_view(old(params)@) + flag_pair(name@, value),
{
    match value {
        Some(b) => push_pair(params, name, if b { "1".to_string() } else { "0".to_string() }),
        None => {
            assert(pairs_view(old(params)@) + flag_pair(name@, value) =~= pairs_view(old(params)@));
        },
    }
}

/// Whether a gzip level is sent, and so whether the answer comes compressed.
pub fn level_sent(level: Option<u8>) -> (r: bool)
    ensures
        r == (level_pair(level).len() > 0),
{
    match level {
        Some(l) => 1 <= l && l <= 5,
        None => false,
    }
}

/// Appends the `gzip` pair where the level is in `1..=5`.
pub fn push_level(params: &mut Vec<(String, String)>, level: Option<u8>)
    ensures
        pairs_view(final(params)@) == pairs_view(old(params)@) + level_pair(level),
{
    match level {
        Some(l) => if 1 <= l && l <= 5 {
            push_pair(params, "gzip", decimal_text(l as u64));
        } else {
            assert(pairs_view(old(params)@) + level_pair(level) =~= pairs_view(old(params)@));
        },
        None => {
            assert(pairs_view(old(params)@) + level_pair(level) =~= pairs_view(old(params)@));
        },
    }
}

} // verus!
