//! Decimal notation of the numbers shown on the head-up display.

use vstd::prelude::*;
use vstd::string::StringExecFns;

verus! {

/// The character of a decimal digit (0 to 9).
pub open spec fn caractere_digito(d: nat) -> char {
    ((d + 48) as u32) as char
}

/// The decimal notation of `n`: its digits, most significant first, with no
/// leading zero (zero itself is written `0`).
pub open spec fn decimal(n: nat) -> Seq<char>
    decreases n,
{
    if n < 10 {
        seq![caractere_digito(n)]
    } else {
        decimal(n / 10).push(caractere_digito(n % 10))
    }
}

/// Whether a character is one of `0` to `9`.
pub open spec fn eh_digito(c: char) -> bool {
    '0' <= c && c <= '9'
}

/// The number that a string of decimal digits stands for.
pub open spec fn valor_decimal(s: Seq<char>) -> int
    decreases s.len(),
{
    if s.len() == 0 {
        0
    } else {
        valor_decimal(s.drop_last()) * 10 + (s.last() as int - 48)
    }
}

/// The decimal notation is sound and canonical: it is made of digits only,
/// reads back as the number written, and starts with a zero only when the
/// number is zero.
pub proof fn lei_decimal(n: nat)
    ensures
        decimal(n).len() >= 1,
        forall|i: int| 0 <= i < decimal(n).len() ==> eh_digito(#[trigger] decimal(n)[i]),
        valor_decimal(decimal(n)) == n,
        decimal(n)[0] == '0' <==> n == 0,
        decimal(n).last() as int == 48 + n % 10,
        n < 10 ==> decimal(n).len() == 1,
        n >= 10 ==> decimal(n).drop_last() == decimal(n / 10),
    decreases n,
{
    if n < 10 {
        assert(decimal(n) =~= seq![caractere_digito(n)]);
        assert(decimal(n).drop_last() =~= Seq::<char>::empty());
        assert(valor_decimal(Seq::<char>::empty()) == 0);
        assert(caractere_digito(n) as int == n + 48);
    } else {
        lei_decimal(n / 10);
        let s = decimal(n);
        assert(s.drop_last() =~= decimal(n / 10));
        assert(caractere_digito(n % 10) as int == n % 10 + 48);
        assert forall|i: int| 0 <= i < s.len() implies eh_digito(#[trigger] s[i]) by {
            if i < s.len() - 1 {
                assert(s[i] == decimal(n / 10)[i]);
            }
        }
        assert(s[0] == decimal(n / 10)[0]);
    }
}

/// The one-character text of the digit `d`.
fn texto_digito(d: u32) -> (r: &'static str)
    requires
        d < 10,
    ensures
        r@ == seq![caractere_digito(d as nat)],
{
    proof {
        reveal_strlit("0");
        reveal_strlit("1");
        reveal_strlit("2");
        reveal_strlit("3");
        reveal_strlit("4");
        reveal_strlit("5");
        reveal_strlit("6");
        reveal_strlit("7");
        reveal_strlit("8");
        reveal_strlit("9");
    }
    match d {
        0 => "0",
        1 => "1",
        2 => "2",
        3 => "3",
        4 => "4",
        5 => "5",
        6 => "6",
        7 => "7",
        8 => "8",
        _ => "9",
    }
}

/// Appends the decimal notation of `n` to `s`.
pub fn anexar_decimal(s: &mut String, n: u32)
    ensures
        final(s)@ == old(s)@ + decimal(n as nat),
    decreases n,
{
    if n >= 10 {
        anexar_decimal(s, n / 10);
    }
    s.append(texto_digito(n % 10));
    proof {
        if n >= 10 {
            assert(decimal(n as nat) =~= decimal((n / 10) as nat) + seq![caractere_digito((n % 10) as nat)]);
        }
    }
}

} // verus!
