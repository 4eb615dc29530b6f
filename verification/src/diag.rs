//! The diagnostic attribute attached to every fetch span: the input URL with
//! its character sequence reversed. The derivation is deliberately arbitrary
//! and is preserved exactly for compatibility.

use vstd::prelude::*;

verus! {

/// The input string with its characters in reverse order.
pub fn reversed(s: &str) -> (r: String)
    ensures
        r@ == s@.reverse(),
{
    let n: usize = s.unicode_len();
    let mut out: String = String::new();
    let mut i: usize = n;
    while i > 0
        invariant
            i <= n,
            n == s@.len(),
            out@ =~= s@.subrange(i as int, n as int).reverse(),
        decreases i,
    {
        i = i - 1;
        let piece = s.substring_char(i, i + 1);
        out.append(piece);
    }
    proof {
        assert(s@.subrange(0, n as int) =~= s@);
    }
    out
}

/// Reversal loses nothing: two inputs with the same reversed character
/// sequence were the same to begin with. Spans tagged with the reversed
/// diagnostic of different URLs therefore never carry the same tag.
pub proof fn lemma_reverse_injective(a: Seq<char>, b: Seq<char>)
    requires
        a.reverse() == b.reverse(),
    ensures
        a == b,
{
    assert(a.reverse().reverse() =~= a);
    assert(b.reverse().reverse() =~= b);
}

} // verus!
