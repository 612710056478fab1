use vstd::prelude::*;
use vstd::string::StringSliceAdditionalSpecFns;

verus! {

/// Whether a byte is one of the ten decimal digits in ASCII.
pub open spec fn es_digito(b: u8) -> bool {
    48 <= b <= 57
}

/// Whether every byte is a decimal digit.
pub open spec fn son_digitos(texto: Seq<u8>) -> bool {
    forall|i: int| 0 <= i < texto.len() ==> es_digito(#[trigger] texto[i])
}

/// The number that a run of decimal digits writes; 0 for the empty run.
pub open spec fn valor_decimal(digitos: Seq<u8>) -> nat
    decreases digitos.len(),
{
    if digitos.len() == 0 {
        0
    } else {
        valor_decimal(digitos.drop_last()) * 10 + (digitos.last() - 48) as nat
    }
}

/// What a text denotes as an unsigned decimal numeral: an optional `+`, then
/// one digit or more, and nothing else.
pub open spec fn natural_de(texto: Seq<u8>) -> Option<nat> {
    let digitos = if texto.len() > 0 && texto[0] == 43 {
        texto.skip(1)
    } else {
        texto
    };
    if digitos.len() > 0 && son_digitos(digitos) {
        Some(valor_decimal(digitos))
    } else {
        None
    }
}

/// What a text denotes as a signed decimal numeral: an optional `+` or `-`,
/// then one digit or more, and nothing else.
pub open spec fn entero_de(texto: Seq<u8>) -> Option<int> {
    if texto.len() > 0 && texto[0] == 45 {
        let digitos = texto.skip(1);
        if digitos.len() > 0 && son_digitos(digitos) {
            Some(-(valor_decimal(digitos) as int))
        } else {
            None
        }
    } else {
        match natural_de(texto) {
            Some(n) => Some(n as int),
            None => None,
        }
    }
}

/// A run of digits writes no less than any of its beginnings.
proof fn lema_prefijo_no_mayor(digitos: Seq<u8>, j: int)
    requires
        son_digitos(digitos),
        0 <= j <= digitos.len(),
    ensures
        valor_decimal(digitos.subrange(0, j)) <= valor_decimal(digitos),
    decreases digitos.len(),
{
    if j == digitos.len() {
        assert(digitos.subrange(0, j) =~= digitos);
    } else {
        let antes = digitos.drop_last();
        assert(son_digitos(antes)) by {
            assert forall|i: int| 0 <= i < antes.len() implies es_digito(#[trigger] antes[i]) by {
                assert(antes[i] == digitos[i]);
            }
        }
        lema_prefijo_no_mayor(antes, j);
        assert(antes.subrange(0, j) =~= digitos.subrange(0, j));
        assert(es_digito(digitos[digitos.len() - 1]));
    }
}

/// Reads the digits that run from position `desde` to the end of `texto`, as
/// long as the number they write is at most `limite`.
fn leer_digitos(texto: &[u8], desde: usize, limite: u64) -> (r: Option<u64>)
    requires
        desde <= texto@.len(),
    ensures
        r == ({
            let digitos = texto@.skip(desde as int);
            if digitos.len() > 0 && son_digitos(digitos) && valor_decimal(digitos) <= limite {
                Some(valor_decimal(digitos) as u64)
            } else {
                None
            }
        }),
{
    let ghost digitos = texto@.skip(desde as int);
    if desde == texto.len() {
        return None;
    }
    let mut acumulado: u64 = 0;
    let mut i: usize = desde;
    assert(texto@.subrange(desde as int, i as int) =~= Seq::<u8>::empty());
    while i < texto.len()
        invariant
            desde <= i <= texto@.len(),
            digitos == texto@.skip(desde as int),
            son_digitos(texto@.subrange(desde as int, i as int)),
            acumulado == valor_decimal(texto@.subrange(desde as int, i as int)),
            acumulado <= limite,
        decreases texto@.len() - i,
    {
        let b = texto[i];
        if b < 48 || b > 57 {
            assert(digitos[i - desde] == b);
            return None;
        }
        let ghost leidos = texto@.subrange(desde as int, i as int);
        let ghost con_este = texto@.subrange(desde as int, i + 1);
        assert(con_este.drop_last() =~= leidos);
        assert(con_este.last() == b);
        assert(son_digitos(con_este)) by {
            assert forall|k: int| 0 <= k < con_este.len() implies es_digito(
                #[trigger] con_este[k],
            ) by {
                if k < leidos.len() {
                    assert(con_este[k] == leidos[k]);
                }
            }
        }
        let siguiente: u128 = acumulado as u128 * 10 + (b - 48) as u128;
        if siguiente > limite as u128 {
            proof {
                if son_digitos(digitos) {
                    lema_prefijo_no_mayor(digitos, i + 1 - desde);
                    assert(digitos.subrange(0, i + 1 - desde) =~= con_este);
                }
            }
            return None;
        }
        acumulado = siguiente as u64;
        i = i + 1;
    }
    assert(texto@.subrange(desde as int, i as int) =~= digitos);
    Some(acumulado)
}

/// Reads an unsigned decimal numeral: an optional `+`, then one digit or
/// more, and nothing else. A number too large for `usize` is no numeral.
pub fn parsear_usize(texto: &str) -> (r: Option<usize>)
    ensures
        r == (match natural_de(texto.spec_bytes()) {
            Some(n) => if n <= usize::MAX {
                Some(n as usize)
            } else {
                None
            },
            None => None,
        }),
{
    let bytes = texto.as_bytes();
    let desde: usize = if bytes.len() > 0 && bytes[0] == 43 {
        1
    } else {
        0
    };
    assert(bytes@.skip(0) =~= bytes@);
    match leer_digitos(bytes, desde, usize::MAX as u64) {
        Some(n) => Some(n as usize),
        None => None,
    }
}

/// Reads a signed decimal numeral: an optional `+` or `-`, then one digit or
/// more, and nothing else. A number outside the range of `i32` is no numeral.
pub fn parsear_i32(texto: &str) -> (r: Option<i32>)
    ensures
        r == (match entero_de(texto.spec_bytes()) {
            Some(n) => if i32::MIN <= n <= i32::MAX {
                Some(n as i32)
            } else {
                None
            },
            None => None,
        }),
{
    let bytes = texto.as_bytes();
    assert(bytes@.skip(0) =~= bytes@);
    if bytes.len() > 0 && bytes[0] == 45 {
        match leer_digitos(bytes, 1, 2147483648) {
            Some(n) => Some((0 - n as i64) as i32),
            None => None,
        }
    } else {
        let desde: usize = if bytes.len() > 0 && bytes[0] == 43 {
            1
        } else {
            0
        };
        match leer_digitos(bytes, desde, 2147483647) {
            Some(n) => Some(n as i32),
            None => None,
        }
    }
}

/// The character that writes a digit.
pub open spec fn cifra(d: nat) -> char {
    if d == 0 {
        '0'
    } else if d == 1 {
        '1'
    } else if d == 2 {
        '2'
    } else if d == 3 {
        '3'
    } else if d == 4 {
        '4'
    } else if d == 5 {
        '5'
    } else if d == 6 {
        '6'
    } else if d == 7 {
        '7'
    } else if d == 8 {
        '8'
    } else {
        '9'
    }
}

/// The decimal numeral of a number: no sign, no leading zero but for 0 itself.
pub open spec fn cifras(n: nat) -> Seq<char>
    decreases n,
{
    if n < 10 {
        seq![cifra(n)]
    } else {
        cifras(n / 10).push(cifra(n % 10))
    }
}

/// The text of one digit.
fn cifra_texto(d: usize) -> (r: &'static str)
    requires
        d < 10,
    ensures
        r@ == seq![cifra(d as nat)],
{
    proof {
        reveal_strlit("0");
        reveal_strlit("1");
        reveal_strlit("2");
        reveal_strlit("3");
        reveal_strlit("4");
        reveal_strlit("5");
        reveal_strlit("6");
        reveal_strlit("7");
        reveal_strlit("8");
        reveal_strlit("9");
    }
    let r = if d == 0 {
        "0"
    } else if d == 1 {
        "1"
    } else if d == 2 {
        "2"
    } else if d == 3 {
        "3"
    } else if d == 4 {
        "4"
    } else if d == 5 {
        "5"
    } else if d == 6 {
        "6"
    } else if d == 7 {
        "7"
    } else if d == 8 {
        "8"
    } else {
        "9"
    };
    assert(r@ =~= seq![cifra(d as nat)]);
    r
}

/// Writes a number as its decimal numeral.
pub fn decimal(n: usize) -> (r: String)
    ensures
        r@ == cifras(n as nat),
    decreases n,
{
    if n < 10 {
        cifra_texto(n).to_owned()
    } else {
        let mut r = decimal(n / 10);
        r.append(cifra_texto(n % 10));
        assert(r@ =~= cifras(n as nat));
        r
    }
}

} // verus!
