use vstd::prelude::*;

verus! {

// ASCII bytes used by the renderers, by name.
pub const SP: u8 = 32; // ' '
pub const LF: u8 = 10; // '\n'
pub const CR: u8 = 13; // '\r'
pub const LT: u8 = 60; // '<'
pub const GT: u8 = 62; // '>'
pub const SLASH: u8 = 47; // '/'
pub const BANG: u8 = 33; // '!'
pub const DASH: u8 = 45; // '-'
pub const EQ: u8 = 61; // '='
pub const QUOTE: u8 = 34; // '"'
pub const LBRACE: u8 = 123; // '{'
pub const RBRACE: u8 = 125; // '}'
pub const PERCENT: u8 = 37; // '%'
pub const HASH: u8 = 35; // '#'
pub const CARET: u8 = 94; // '^'
pub const BAR: u8 = 124; // '|'

/// Appends every byte of `src` to `out`, in order.
pub fn push_all(out: &mut Vec<u8>, src: &Vec<u8>)
    ensures
        final(out)@ == old(out)@ + src@,
{
    let mut i: usize = 0;
    while i < src.len()
        invariant
            i <= src.len(),
            out@ == old(out)@ + src@.subrange(0, i as int),
        decreases src.len() - i,
    {
        out.push(src[i]);
        proof {
            assert(out@ =~= old(out)@ + src@.subrange(0, i + 1));
        }
        i = i + 1;
    }
    proof {
        assert(src@.subrange(0, src@.len() as int) =~= src@);
    }
}

/// The ASCII digit byte for `n` in `0..10`.
pub open spec fn dec_digit(n: int) -> u8 {
    (48 + n) as u8
}

/// The decimal representation of `n`, most significant digit first, with no
/// leading zeros (a single `0` for zero).
pub open spec fn dec_rep(n: nat) -> Seq<u8>
    decreases n,
{
    if n < 10 {
        seq![dec_digit(n as int)]
    } else {
        dec_rep(n / 10) + seq![dec_digit((n % 10) as int)]
    }
}

/// Appends the decimal representation of `n` to `out`.
pub fn push_decimal(out: &mut Vec<u8>, n: usize)
    ensures
        final(out)@ == old(out)@ + dec_rep(n as nat),
    decreases n,
{
    if n < 10 {
        out.push(48 + n as u8);
        proof {
            assert(out@ =~= old(out)@ + dec_rep(n as nat));
        }
    } else {
        push_decimal(out, n / 10);
        out.push(48 + (n % 10) as u8);
        proof {
            assert(out@ =~= old(out)@ + dec_rep(n as nat));
        }
    }
}

/// A run of `n` ASCII space bytes.
pub open spec fn spaces(n: int) -> Seq<u8>
    decreases n,
{
    if n <= 0 {
        Seq::empty()
    } else {
        spaces(n - 1) + seq![SP]
    }
}

/// Appends `n` space bytes to `out`.
pub fn push_spaces(out: &mut Vec<u8>, n: usize)
    ensures
        final(out)@ == old(out)@ + spaces(n as int),
{
    let mut i: usize = 0;
    while i < n
        invariant
            i <= n,
            out@ == old(out)@ + spaces(i as int),
        decreases n - i,
    {
        out.push(SP);
        proof {
            assert(out@ =~= old(out)@ + spaces(i + 1));
        }
        i = i + 1;
    }
}

} // verus!
