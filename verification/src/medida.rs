//! Tamanhos em bytes do jeito que a tela os escreve: o número vira ponto flutuante de 64 bits (53 bits de
//! mantissa) antes de ser dividido por uma potência de 2, divisão que é exata, e arredondado na formatação,
//! que leva o empate para o dígito par.

use vstd::prelude::*;
use vstd::arithmetic::div_mod::{lemma_div_denominator, lemma_fundamental_div_mod};

verus! {

pub open spec fn potencia2(k: nat) -> nat
    decreases k,
{
    if k == 0 {
        1
    } else {
        2 * potencia2((k - 1) as nat)
    }
}

/// 2^53: abaixo disso todo inteiro cabe exato num `f64`.
pub open spec fn mantissa() -> nat {
    0x20_0000_0000_0000
}

/// Quantos bits de `b` ficam além da mantissa.
pub open spec fn expoente(b: nat) -> nat
    decreases b,
{
    if b < mantissa() {
        0
    } else {
        1 + expoente(b / 2)
    }
}

/// `x / u` arredondado para o inteiro mais próximo, e no empate para o par.
pub open spec fn arredonda_par(x: nat, u: nat) -> nat {
    let q = x / u;
    let r = x % u;
    if 2 * r > u || (2 * r == u && q % 2 == 1) {
        q + 1
    } else {
        q
    }
}

/// O inteiro que `b as f64` guarda: `b` arredondado a 53 bits significativos, no empate para o par.
pub open spec fn como_f64(b: nat) -> nat {
    arredonda_par(b, potencia2(expoente(b))) * potencia2(expoente(b))
}

proof fn lema_potencia2_positiva(k: nat)
    ensures
        potencia2(k) >= 1,
    decreases k,
{
    if k > 0 {
        lema_potencia2_positiva((k - 1) as nat);
    }
}

pub fn como_f64_exec(b: u64) -> (r: u128)
    ensures
        r == como_f64(b as nat),
        r <= b + 0x1000,
{
    let mut x: u64 = b;
    let mut u: u128 = 1;
    let ghost mut k: nat = 0;
    while x >= 0x20_0000_0000_0000
        invariant
            u == potencia2(k),
            u >= 1,
            x as nat == b as nat / u as nat,
            expoente(b as nat) == k + expoente(x as nat),
            u * x <= b,
            u == 1 || x >= 0x10_0000_0000_0000,
        decreases x,
    {
        proof {
            lemma_div_denominator(b as int, u as int, 2);
            assert(u * x >= u * 0x20_0000_0000_0000) by (nonlinear_arith)
                requires
                    x >= 0x20_0000_0000_0000,
                    u >= 1,
            ;
            assert(expoente(x as nat) == 1 + expoente(x as nat / 2));
            assert(u <= 0x800) by (nonlinear_arith)
                requires
                    u * x <= b,
                    x >= 0x20_0000_0000_0000,
                    b < 0x1_0000_0000_0000_0000,
            ;
        }
        let ghost x0 = x;
        x = x / 2;
        u = u * 2;
        proof {
            k = k + 1;
            assert(u * x <= b) by (nonlinear_arith)
                requires
                    x as int == x0 as int / 2,
                    u as int == 2 * (u as int / 2),
                    (u as int / 2) * x0 <= b,
            {
            }
        }
    }
    let q: u128 = (b as u128) / u;
    let r: u128 = (b as u128) % u;
    proof {
        lemma_fundamental_div_mod(b as int, u as int);
        assert(expoente(x as nat) == 0);
        assert(q * u <= b) by (nonlinear_arith)
            requires
                b as int == u * q + r,
                r >= 0,
        ;
        assert(u <= 0x1000) by (nonlinear_arith)
            requires
                u * x <= b,
                b < 0x1_0000_0000_0000_0000,
                u >= 1,
                u == 1 || x >= 0x10_0000_0000_0000,
        {
        }
    }
    let n: u128 = if 2 * r > u || (2 * r == u && q % 2 == 1) {
        q + 1
    } else {
        q
    };
    assert(n * u <= b + u) by (nonlinear_arith)
        requires
            q * u <= b,
            n <= q + 1,
    ;
    n * u
}

/// O inteiro mais próximo de `bytes / 2^20` (o "MB" da tela), com o número passado antes por `f64`.
pub open spec fn mb_arredondado(bytes: nat) -> nat {
    arredonda_par(como_f64(bytes), 0x10_0000)
}

/// Os décimos mais próximos de `bytes / 2^30` (o "GB" da tela), com o número passado antes por `f64`.
pub open spec fn decimos_de_gb(bytes: nat) -> nat {
    arredonda_par(como_f64(bytes) * 10, 0x4000_0000)
}

pub fn mb_arredondado_exec(bytes: u64) -> (r: u64)
    ensures
        r == mb_arredondado(bytes as nat),
{
    let v = como_f64_exec(bytes);
    let q = v / 0x10_0000;
    let r = v % 0x10_0000;
    let n = if 2 * r > 0x10_0000 || (2 * r == 0x10_0000 && q % 2 == 1) {
        q + 1
    } else {
        q
    };
    assert(n <= 0x1_0000_0000_0000);
    n as u64
}

pub fn decimos_de_gb_exec(bytes: u64) -> (r: u64)
    ensures
        r == decimos_de_gb(bytes as nat),
{
    let v = como_f64_exec(bytes) * 10;
    let q = v / 0x4000_0000;
    let r = v % 0x4000_0000;
    let n = if 2 * r > 0x4000_0000 || (2 * r == 0x4000_0000 && q % 2 == 1) {
        q + 1
    } else {
        q
    };
    assert(n <= 0x100_0000_0000);
    n as u64
}

} // verus!
