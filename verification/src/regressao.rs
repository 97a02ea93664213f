//! O produto olhando o próprio trabalho: quais partidas ficam de cada lado da comparação entre antes e depois
//! das otimizações, e o desfecho dela.

use vstd::prelude::*;
use crate::ordem::textos;
use crate::texto::{chars_of, eq_ignore_ascii_case, eq_ignore_ascii_case_exec};

verus! {

#[derive(Debug, Clone, PartialEq, Eq, Structural)]
pub enum Desfecho {
    /// NÃO é "está tudo bem": é "ainda não dá para dizer", com essas palavras.
    SemAmostra,
    Igual,
    Melhorou,
    Piorou,
    /// O único que interrompe o cliente em vez de esperar ele abrir a tela.
    PiorouMuito,
}

/// Duas, e não três: o cliente que perdeu FPS percebe em dez minutos, não depois de uma hora de jogo.
pub const AMOSTRAS_MINIMAS: usize = 2;

/// O que a comparação lê de uma partida medida para escolher o lado dela.
pub struct PartidaDaRegressao {
    /// O processo medido (`FiveM_b3258_GTAProcess.exe`...).
    pub jogo: String,
    /// Falso com amostra curta demais para o 1% pior significar algo.
    pub confiavel: bool,
    /// Quantas otimizações estavam aplicadas na hora da partida.
    pub mudancas_aplicadas: usize,
}

/// A partida conta para `jogo`: é dele, sem olhar maiúsculas, e a amostra foi longa o bastante.
pub open spec fn conta(p: PartidaDaRegressao, jogo: Seq<char>) -> bool {
    p.confiavel && eq_ignore_ascii_case(p.jogo@, jogo)
}

/// A partida cai do lado de depois quando já tinha todas as otimizações de hoje aplicadas.
pub open spec fn do_lado(p: PartidaDaRegressao, jogo: Seq<char>, aplicadas_hoje: int, depois: bool) -> bool {
    conta(p, jogo) && (p.mudancas_aplicadas >= aplicadas_hoje) == depois
}

/// Os índices, em ordem, das partidas de `ps` que ficam do lado pedido.
pub open spec fn indices_do_lado(ps: Seq<PartidaDaRegressao>, jogo: Seq<char>, aplicadas_hoje: int, depois: bool) -> Seq<
    usize,
>
    decreases ps.len(),
{
    if ps.len() == 0 {
        seq![]
    } else {
        let r = indices_do_lado(ps.drop_last(), jogo, aplicadas_hoje, depois);
        if do_lado(ps.last(), jogo, aplicadas_hoje, depois) {
            r.push((ps.len() - 1) as usize)
        } else {
            r
        }
    }
}

/// Os lados da comparação de `jogo`, como índices em `partidas`: as de antes das otimizações de hoje e as de
/// depois, cada lado na ordem em que as partidas estão. A separação é pela quantidade de otimizações aplicadas
/// na hora da partida, que já é gravada com ela.
pub fn lados(jogo: &str, partidas: &[PartidaDaRegressao], aplicadas_hoje: usize) -> (r: (Vec<usize>, Vec<usize>))
    ensures
        r.0@ == indices_do_lado(partidas@, jogo@, aplicadas_hoje as int, false),
        r.1@ == indices_do_lado(partidas@, jogo@, aplicadas_hoje as int, true),
{
    let alvo = chars_of(jogo);
    let mut antes: Vec<usize> = Vec::new();
    let mut depois: Vec<usize> = Vec::new();
    let mut i: usize = 0;
    while i < partidas.len()
        invariant
            i <= partidas@.len(),
            alvo@ == jogo@,
            antes@ == indices_do_lado(partidas@.take(i as int), jogo@, aplicadas_hoje as int, false),
            depois@ == indices_do_lado(partidas@.take(i as int), jogo@, aplicadas_hoje as int, true),
        decreases partidas@.len() - i,
    {
        let p = &partidas[i];
        let nome = chars_of(p.jogo.as_str());
        let conta_aqui = p.confiavel && eq_ignore_ascii_case_exec(nome.as_slice(), alvo.as_slice());
        proof {
            assert(partidas@.take(i + 1).drop_last() =~= partidas@.take(i as int));
            assert(partidas@.take(i + 1).last() == partidas@[i as int]);
        }
        if conta_aqui {
            if p.mudancas_aplicadas >= aplicadas_hoje {
                depois.push(i);
            } else {
                antes.push(i);
            }
        }
        i = i + 1;
    }
    assert(partidas@.take(partidas@.len() as int) =~= partidas@);
    (antes, depois)
}

/// A partida `k` está num lado exatamente quando conta para o jogo e tem a quantidade de otimizações daquele
/// lado; por isso nenhuma partida está nos dois.
pub proof fn lei_lado_pelas_mudancas(
    ps: Seq<PartidaDaRegressao>,
    jogo: Seq<char>,
    aplicadas_hoje: int,
    depois: bool,
    k: usize,
)
    requires
        ps.len() <= usize::MAX,
    ensures
        indices_do_lado(ps, jogo, aplicadas_hoje, depois).contains(k) <==> k < ps.len() && do_lado(
            ps[k as int],
            jogo,
            aplicadas_hoje,
            depois,
        ),
        !(indices_do_lado(ps, jogo, aplicadas_hoje, false).contains(k) && indices_do_lado(
            ps,
            jogo,
            aplicadas_hoje,
            true,
        ).contains(k)),
    decreases ps.len(),
{
    broadcast use vstd::seq_lib::group_seq_properties;

    if ps.len() > 0 {
        let n = (ps.len() - 1) as usize;
        let d = ps.drop_last();
        lei_lado_pelas_mudancas(d, jogo, aplicadas_hoje, depois, k);
        lei_lado_pelas_mudancas(d, jogo, aplicadas_hoje, !depois, k);
        lema_indices_abaixo(d, jogo, aplicadas_hoje, depois);
        lema_indices_abaixo(d, jogo, aplicadas_hoje, !depois);
        if k < n {
            assert(d[k as int] == ps[k as int]);
        }
        let r = indices_do_lado(d, jogo, aplicadas_hoje, depois);
        let o = indices_do_lado(d, jogo, aplicadas_hoje, !depois);
        if k == n {
            assert(!r.contains(k)) by {
                if r.contains(k) {
                    let j = choose|j: int| 0 <= j < r.len() && r[j] == k;
                    assert(r[j] < d.len());
                }
            }
            assert(!o.contains(k)) by {
                if o.contains(k) {
                    let j = choose|j: int| 0 <= j < o.len() && o[j] == k;
                    assert(o[j] < d.len());
                }
            }
        }
        if do_lado(ps.last(), jogo, aplicadas_hoje, depois) {
            assert(indices_do_lado(ps, jogo, aplicadas_hoje, depois) == r.push(n));
            assert(r.push(n)[r.len() as int] == n);
        }
        if do_lado(ps.last(), jogo, aplicadas_hoje, !depois) {
            assert(indices_do_lado(ps, jogo, aplicadas_hoje, !depois) == o.push(n));
            assert(o.push(n)[o.len() as int] == n);
        }
    }
}

proof fn lema_indices_abaixo(ps: Seq<PartidaDaRegressao>, jogo: Seq<char>, aplicadas_hoje: int, depois: bool)
    requires
        ps.len() <= usize::MAX,
    ensures
        forall|j: int|
            0 <= j < indices_do_lado(ps, jogo, aplicadas_hoje, depois).len() ==> #[trigger] indices_do_lado(
                ps,
                jogo,
                aplicadas_hoje,
                depois,
            )[j] < ps.len(),
    decreases ps.len(),
{
    if ps.len() > 0 {
        let d = ps.drop_last();
        lema_indices_abaixo(d, jogo, aplicadas_hoje, depois);
        let r = indices_do_lado(d, jogo, aplicadas_hoje, depois);
        let n = (ps.len() - 1) as usize;
        if do_lado(ps.last(), jogo, aplicadas_hoje, depois) {
            assert(indices_do_lado(ps, jogo, aplicadas_hoje, depois) == r.push(n));
            assert forall|j: int| 0 <= j < r.len() + 1 implies #[trigger] r.push(n)[j] < ps.len() by {
                if j < r.len() {
                    assert(r.push(n)[j] == r[j]);
                }
            }
        }
    }
}

/// `r` já tem um jogo igual a `j` sem olhar maiúsculas.
pub open spec fn ja_tem(r: Seq<Seq<char>>, j: Seq<char>) -> bool {
    exists|k: int| 0 <= k < r.len() && eq_ignore_ascii_case(#[trigger] r[k], j)
}

/// Os jogos das partidas, cada um uma vez, na grafia da primeira partida em que aparece.
pub open spec fn jogos_distintos(ps: Seq<PartidaDaRegressao>) -> Seq<Seq<char>>
    decreases ps.len(),
{
    if ps.len() == 0 {
        seq![]
    } else {
        let r = jogos_distintos(ps.drop_last());
        if ja_tem(r, ps.last().jogo@) {
            r
        } else {
            r.push(ps.last().jogo@)
        }
    }
}

/// Cada jogo medido uma vez, sem olhar maiúsculas, na ordem em que aparece pela primeira vez.
pub fn jogos(partidas: &[PartidaDaRegressao]) -> (r: Vec<String>)
    ensures
        textos(r@) == jogos_distintos(partidas@),
{
    let mut r: Vec<String> = Vec::new();
    let mut i: usize = 0;
    while i < partidas.len()
        invariant
            i <= partidas@.len(),
            textos(r@) == jogos_distintos(partidas@.take(i as int)),
        decreases partidas@.len() - i,
    {
        let nome = chars_of(partidas[i].jogo.as_str());
        let mut achou = false;
        let mut k: usize = 0;
        while k < r.len()
            invariant
                k <= r@.len(),
                nome@ == partidas@[i as int].jogo@,
                achou <==> exists|q: int| 0 <= q < k && eq_ignore_ascii_case(#[trigger] textos(r@)[q], nome@),
            decreases r@.len() - k,
        {
            let outro = chars_of(r[k].as_str());
            if eq_ignore_ascii_case_exec(outro.as_slice(), nome.as_slice()) {
                achou = true;
            }
            assert(textos(r@)[k as int] == r@[k as int]@);
            k = k + 1;
        }
        proof {
            assert(partidas@.take(i + 1).drop_last() =~= partidas@.take(i as int));
            assert(partidas@.take(i + 1).last() == partidas@[i as int]);
        }
        if !achou {
            let ghost antes = textos(r@);
            r.push(partidas[i].jogo.clone());
            assert(textos(r@) =~= antes.push(partidas@[i as int].jogo@));
        }
        i = i + 1;
    }
    assert(partidas@.take(partidas@.len() as int) =~= partidas@);
    r
}

} // verus!
