//! Filtragem de Teclas e Teclas de Aderência ligadas sem querer. O estado é um campo de bits e só o bit 0 diz
//! LIGADO: o resto são as escolhas da pessoa sobre atalho, som e aviso, e ficam como estão.

use vstd::prelude::*;
use crate::texto::{chars_of, decimal, decimal_string, parse_u32, parse_u32_exec, trim, trim_chars};

verus! {

broadcast use vstd::string::group_string_axioms;

/// As chaves de `HKCU` com o campo `Flags`, e o nome que a pessoa conhece.
pub open spec fn spec_chaves() -> Seq<(Seq<char>, Seq<char>)> {
    seq![
        ("Control Panel\\Accessibility\\Keyboard Response"@, "Filtragem de Teclas"@),
        ("Control Panel\\Accessibility\\StickyKeys"@, "Teclas de Aderência"@),
        ("Control Panel\\Accessibility\\ToggleKeys"@, "Teclas Alternadas"@),
    ]
}

/// `MouseKeys` fica de fora: não atrapalha quem não usa, e desligar não devolve desempenho.
pub fn chaves() -> (r: Vec<(&'static str, &'static str)>)
    ensures
        r@.len() == spec_chaves().len(),
        forall|i: int| 0 <= i < r@.len() ==> (#[trigger] r@[i]).0@ == spec_chaves()[i].0 && r@[i].1@
            == spec_chaves()[i].1,
{
    vec![
        ("Control Panel\\Accessibility\\Keyboard Response", "Filtragem de Teclas"),
        ("Control Panel\\Accessibility\\StickyKeys", "Teclas de Aderência"),
        ("Control Panel\\Accessibility\\ToggleKeys", "Teclas Alternadas"),
    ]
}

/// O valor do campo, se ele é um número.
pub open spec fn valor_de(flags: Seq<char>) -> Option<u32> {
    parse_u32(trim(flags))
}

pub open spec fn spec_esta_ligado(flags: Seq<char>) -> Option<bool> {
    match valor_de(flags) {
        Some(v) => Some(v & 1u32 != 0),
        None => None,
    }
}

/// O novo valor, com só o bit 0 apagado; nada quando já estava desligado ou não dá para ler.
pub open spec fn spec_desligado(flags: Seq<char>) -> Option<Seq<char>> {
    match valor_de(flags) {
        Some(v) => if v & 1u32 == 0 {
            None
        } else {
            Some(decimal((v & !1u32) as nat))
        },
        None => None,
    }
}

fn valor(flags: &str) -> (r: Option<u32>)
    ensures
        r == valor_de(flags@),
{
    let v = chars_of(flags);
    let t = trim_chars(v.as_slice());
    parse_u32_exec(t.as_slice())
}

pub fn esta_ligado(flags: &str) -> (r: Option<bool>)
    ensures
        r == spec_esta_ligado(flags@),
{
    match valor(flags) {
        Some(v) => Some(v & 1u32 != 0),
        None => None,
    }
}

/// `None` quando já está desligado: não se grava o valor que já estava lá.
pub fn desligado(flags: &str) -> (r: Option<String>)
    ensures
        match r {
            Some(s) => spec_desligado(flags@) == Some(s@),
            None => spec_desligado(flags@) is None,
        },
{
    let v = valor(flags)?;
    if v & 1u32 == 0 {
        return None;
    }
    Some(decimal_string((v & !1u32) as u64))
}

/// Desligar nunca mexe noutro bit que não o 0, e deixa o campo desligado.
pub proof fn lei_desligar_so_apaga_o_bit_zero(v: u32)
    requires
        v & 1u32 != 0,
    ensures
        (v & !1u32) & 1u32 == 0,
        forall|b: u32| 1 <= b < 32 ==> ((v & !1u32) >> b) & 1u32 == (v >> b) & 1u32,
{
    assert((v & !1u32) & 1u32 == 0) by (bit_vector);
    assert forall|b: u32| 1 <= b < 32 implies ((v & !1u32) >> b) & 1u32 == (v >> b) & 1u32 by {
        assert(1 <= b < 32 ==> ((v & !1u32) >> b) & 1u32 == (v >> b) & 1u32) by (bit_vector);
    }
}

/// O texto que `desligado` manda gravar, lido de volta, é o valor com o bit 0 apagado: o campo fica desligado.
pub proof fn lei_o_que_se_grava_le_desligado(flags: Seq<char>)
    ensures
        spec_desligado(flags) matches Some(novo) ==> valor_de(novo) == Some(valor_de(flags)->0 & !1u32)
            && spec_esta_ligado(novo) == Some(false),
{
    if let Some(v) = valor_de(flags) {
        if v & 1u32 != 0 {
            let w = v & !1u32;
            crate::texto::lemma_ler_o_decimal(w as nat);
            assert((v & !1u32) & 1u32 == 0) by (bit_vector);
        }
    }
}

/// O que a leitura de uma chave manda gravar nela.
pub open spec fn plano_de(lido: Option<String>) -> Option<Seq<char>> {
    match lido {
        Some(f) => spec_desligado(f@),
        None => None,
    }
}

/// A leitura de uma chave diz que ela está ligada.
pub open spec fn lida_ligada(lido: Option<String>) -> bool {
    match lido {
        Some(f) => spec_esta_ligado(f@) == Some(true),
        None => false,
    }
}

/// O plano de escrita: para cada chave lida ligada, o novo valor do campo. `flags_lidos[i]` é o que a leitura da
/// chave `i` devolveu (nada quando não deu para ler).
pub fn desligar(flags_lidos: &[Option<String>]) -> (r: Vec<(usize, String)>)
    ensures
        r@.len() <= flags_lidos@.len(),
        forall|k: int| 0 <= k < r@.len() ==> {
            let (i, novo) = #[trigger] r@[k];
            &&& i < flags_lidos@.len()
            &&& plano_de(flags_lidos@[i as int]) == Some(novo@)
        },
        forall|i: int|
            0 <= i < flags_lidos@.len() ==> (exists|k: int| 0 <= k < r@.len() && (#[trigger] r@[k]).0 == i)
                == plano_de(flags_lidos@[i]) is Some,
        forall|a: int, b: int| 0 <= a < b < r@.len() ==> r@[a].0 < r@[b].0,
{
    let mut r: Vec<(usize, String)> = Vec::new();
    let mut i: usize = 0;
    while i < flags_lidos.len()
        invariant
            0 <= i <= flags_lidos@.len(),
            r@.len() <= i,
            forall|k: int| 0 <= k < r@.len() ==> {
                let (j, novo) = #[trigger] r@[k];
                &&& j < i
                &&& plano_de(flags_lidos@[j as int]) == Some(novo@)
            },
            forall|j: int|
                0 <= j < i ==> (exists|k: int| 0 <= k < r@.len() && (#[trigger] r@[k]).0 == j)
                    == plano_de(flags_lidos@[j]) is Some,
            forall|a: int, b: int| 0 <= a < b < r@.len() ==> r@[a].0 < r@[b].0,
        decreases flags_lidos@.len() - i,
    {
        let ghost antes = r@;
        if let Some(f) = &flags_lidos[i] {
            if let Some(novo) = desligado(f.as_str()) {
                r.push((i, novo));
                proof {
                    assert forall|j: int| 0 <= j < i + 1 implies (exists|k: int|
                        0 <= k < r@.len() && (#[trigger] r@[k]).0 == j) == plano_de(flags_lidos@[j]) is Some by {
                        if j < i {
                            if exists|k: int| 0 <= k < antes.len() && (#[trigger] antes[k]).0 == j {
                                let k = choose|k: int| 0 <= k < antes.len() && (#[trigger] antes[k]).0 == j;
                                assert(r@[k] == antes[k]);
                            }
                            if exists|k: int| 0 <= k < r@.len() && (#[trigger] r@[k]).0 == j {
                                let k = choose|k: int| 0 <= k < r@.len() && (#[trigger] r@[k]).0 == j;
                                assert(k < antes.len());
                                assert(antes[k] == r@[k]);
                            }
                        } else {
                            assert(r@[r@.len() - 1].0 == j);
                        }
                    }
                }
            } else {
                proof {
                    assert forall|j: int| 0 <= j < i + 1 implies (exists|k: int|
                        0 <= k < r@.len() && (#[trigger] r@[k]).0 == j) == plano_de(flags_lidos@[j]) is Some by {
                        if j == i {
                            if exists|k: int| 0 <= k < r@.len() && (#[trigger] r@[k]).0 == j {
                                let k = choose|k: int| 0 <= k < r@.len() && (#[trigger] r@[k]).0 == j;
                                assert(r@[k].0 < i);
                            }
                        }
                    }
                }
            }
        } else {
            proof {
                assert forall|j: int| 0 <= j < i + 1 implies (exists|k: int|
                    0 <= k < r@.len() && (#[trigger] r@[k]).0 == j) == plano_de(flags_lidos@[j]) is Some by {
                    if j == i {
                        if exists|k: int| 0 <= k < r@.len() && (#[trigger] r@[k]).0 == j {
                            let k = choose|k: int| 0 <= k < r@.len() && (#[trigger] r@[k]).0 == j;
                            assert(r@[k].0 < i);
                        }
                    }
                }
            }
        }
        i = i + 1;
    }
    r
}

/// Os nomes das teclas ligadas entre as `n` primeiras chaves, na ordem de `chaves()`.
pub open spec fn ligadas_ate(lidos: Seq<Option<String>>, n: nat) -> Seq<Seq<char>>
    decreases n,
{
    if n == 0 {
        seq![]
    } else {
        let i = (n - 1) as int;
        let antes = ligadas_ate(lidos, (n - 1) as nat);
        if i < lidos.len() && lida_ligada(lidos[i]) {
            antes.push(spec_chaves()[i].1)
        } else {
            antes
        }
    }
}

/// Os nomes das teclas ligadas agora. `flags_lidos[i]` é o que a leitura da chave `i` de `chaves()` devolveu.
pub fn ligadas(flags_lidos: &[Option<String>]) -> (r: Vec<&'static str>)
    ensures
        r@.map_values(|s: &'static str| s@) == ligadas_ate(flags_lidos@, spec_chaves().len()),
{
    let todas = chaves();
    let mut r: Vec<&'static str> = Vec::new();
    let mut i: usize = 0;
    while i < todas.len()
        invariant
            0 <= i <= todas@.len(),
            todas@.len() == spec_chaves().len(),
            forall|t: int| 0 <= t < todas@.len() ==> (#[trigger] todas@[t]).0@ == spec_chaves()[t].0
                && todas@[t].1@ == spec_chaves()[t].1,
            r@.map_values(|s: &'static str| s@) == ligadas_ate(flags_lidos@, i as nat),
        decreases todas@.len() - i,
    {
        let ghost antes = r@;
        let mut liga = false;
        if i < flags_lidos.len() {
            if let Some(f) = &flags_lidos[i] {
                if let Some(true) = esta_ligado(f.as_str()) {
                    liga = true;
                }
            }
        }
        if liga {
            r.push(todas[i].1);
            assert(r@.map_values(|s: &'static str| s@) =~= antes.map_values(|s: &'static str| s@).push(
                spec_chaves()[i as int].1,
            ));
        }
        i = i + 1;
    }
    r
}

} // verus!
