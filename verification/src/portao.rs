//! O portão "nunca menos FPS": todo ajuste de jogo fica em vigília até haver partidas medidas dos dois lados.
//! Aqui ficam a lista de vigílias e a marca de cada partida do governador.

use vstd::prelude::*;
use crate::texto::{chars_of, minusculas, same_chars, string_of, to_lowercase};

verus! {

broadcast use vstd::string::group_string_axioms;

pub const MINIMO_POR_LADO: usize = 3;

/// Os mais próximos do ajuste.
pub const MAXIMO_POR_LADO: usize = 6;

#[derive(Debug, Clone, PartialEq)]
pub struct Vigiado {
    pub id: String,
    pub nome: String,
    /// Casa com o nome do processo do jogo, em minúsculas.
    pub processo: String,
    pub aplicado_em: u64,
}

pub open spec fn ids(v: Seq<Vigiado>) -> Seq<Seq<char>> {
    v.map_values(|x: Vigiado| x.id@)
}

#[derive(Debug, Clone, Copy, PartialEq, Eq, Structural)]
pub enum GovernadorNaPartida {
    Acalmou,
    Absteve,
}

/// Estado que mudou no meio da medição não serve a nenhum dos lados.
pub fn marcar(inicio: Option<GovernadorNaPartida>, fim: Option<GovernadorNaPartida>) -> (r: Option<
    GovernadorNaPartida,
>)
    ensures
        r == (if inicio == fim { inicio } else { None }),
{
    let igual = match (inicio, fim) {
        (Some(a), Some(b)) => a == b,
        (None, None) => true,
        _ => false,
    };
    if igual {
        inicio
    } else {
        None
    }
}

fn tem_id(vigiados: &Vec<Vigiado>, id: &[char]) -> (r: bool)
    ensures
        r == ids(vigiados@).contains(id@),
{
    let mut i: usize = 0;
    while i < vigiados.len()
        invariant
            0 <= i <= vigiados@.len(),
            forall|k: int| 0 <= k < i ==> (#[trigger] vigiados@[k]).id@ != id@,
        decreases vigiados@.len() - i,
    {
        let c = chars_of(vigiados[i].id.as_str());
        if same_chars(c.as_slice(), id) {
            assert(ids(vigiados@)[i as int] == id@);
            return true;
        }
        i = i + 1;
    }
    assert forall|k: int| 0 <= k < ids(vigiados@).len() implies ids(vigiados@)[k] != id@ by {
        assert(ids(vigiados@)[k] == vigiados@[k].id@);
    }
    false
}

/// `depois` é a lista de vigília depois de pôr `id` nela: igual se o id já estava; senão, com o ajuste novo no fim.
pub open spec fn vigiado_depois(
    antes: Seq<Vigiado>,
    depois: Seq<Vigiado>,
    id: Seq<char>,
    nome: Seq<char>,
    processo: Seq<char>,
    agora: u64,
) -> bool {
    &&& ids(antes).contains(id) ==> depois == antes
    &&& !ids(antes).contains(id) ==> {
        &&& depois.len() == antes.len() + 1
        &&& depois.take(antes.len() as int) == antes
        &&& depois.last().id@ == id
        &&& depois.last().nome@ == nome
        &&& depois.last().processo@ == minusculas(processo)
        &&& depois.last().aplicado_em == agora
    }
}

/// Pôr o mesmo ajuste em vigília duas vezes é o mesmo que pôr uma: a segunda não muda a lista, e o horário que
/// fica é o da primeira.
pub proof fn lei_vigiar_duas_vezes_e_uma(
    a: Seq<Vigiado>,
    b: Seq<Vigiado>,
    c: Seq<Vigiado>,
    id: Seq<char>,
    nome: Seq<char>,
    processo: Seq<char>,
    agora: u64,
    depois_agora: u64,
)
    requires
        vigiado_depois(a, b, id, nome, processo, agora),
        vigiado_depois(b, c, id, nome, processo, depois_agora),
    ensures
        c == b,
        ids(b).contains(id),
{
    if !ids(a).contains(id) {
        assert(ids(b)[b.len() - 1] == b.last().id@);
    }
}

/// Põe o ajuste em vigília. Mantém o horário ORIGINAL: o "antes" é antes do primeiro ajuste, e uma segunda
/// aplicação do mesmo id não mexe na lista.
pub fn vigiar(vigiados: &mut Vec<Vigiado>, id: &str, nome: &str, processo: &str, agora: u64)
    ensures
        vigiado_depois(old(vigiados)@, final(vigiados)@, id@, nome@, processo@, agora),
{
    let alvo = chars_of(id);
    if tem_id(vigiados, alvo.as_slice()) {
        return;
    }
    let p = chars_of(processo);
    let minusculo = to_lowercase(p.as_slice());
    vigiados.push(
        Vigiado {
            id: id.to_string(),
            nome: nome.to_string(),
            processo: string_of(minusculo.as_slice()),
            aplicado_em: agora,
        },
    );
    assert(vigiados@.take(old(vigiados)@.len() as int) =~= old(vigiados)@);
}

/// Esquecer só muda a lista quando algum ajuste tem aquele id: sem ele, nada há para gravar.
pub proof fn lei_esquecer_muda_so_com_o_id(vs: Seq<Vigiado>, id: Seq<char>)
    ensures
        vs.filter(|v: Vigiado| v.id@ != id).len() != vs.len() <==> exists|k: int|
            0 <= k < vs.len() && (#[trigger] vs[k]).id@ == id,
    decreases vs.len(),
{
    reveal(Seq::filter);
    if vs.len() > 0 {
        let d = vs.drop_last();
        lei_esquecer_muda_so_com_o_id(d, id);
        d.lemma_filter_len(|v: Vigiado| v.id@ != id);
        if exists|k: int| 0 <= k < d.len() && (#[trigger] d[k]).id@ == id {
            let k = choose|k: int| 0 <= k < d.len() && (#[trigger] d[k]).id@ == id;
            assert(vs[k] == d[k]);
        }
        if exists|k: int| 0 <= k < vs.len() && (#[trigger] vs[k]).id@ == id {
            let k = choose|k: int| 0 <= k < vs.len() && (#[trigger] vs[k]).id@ == id;
            if k < d.len() {
                assert(d[k] == vs[k]);
            }
        }
    }
}

/// Tira da vigília todo ajuste com este id; diz se a lista mudou (só então vale gravar).
pub fn esquecer(vigiados: &mut Vec<Vigiado>, id: &str) -> (mudou: bool)
    ensures
        final(vigiados)@ == old(vigiados)@.filter(|v: Vigiado| v.id@ != id@),
        mudou == (final(vigiados)@.len() != old(vigiados)@.len()),
{
    let alvo = chars_of(id);
    let antes = vigiados.len();
    let mut ficam: Vec<Vigiado> = Vec::new();
    let mut i: usize = 0;
    let ghost entrada = vigiados@;
    while i < vigiados.len()
        invariant
            0 <= i <= vigiados@.len(),
            vigiados@ == entrada,
            alvo@ == id@,
            ficam@ == entrada.take(i as int).filter(|v: Vigiado| v.id@ != id@),
        decreases vigiados@.len() - i,
    {
        proof {
            assert(entrada.take(i + 1).drop_last() =~= entrada.take(i as int));
            reveal(Seq::filter);
        }
        let c = chars_of(vigiados[i].id.as_str());
        if !same_chars(c.as_slice(), alvo.as_slice()) {
            let v = &vigiados[i];
            ficam.push(
                Vigiado {
                    id: v.id.clone(),
                    nome: v.nome.clone(),
                    processo: v.processo.clone(),
                    aplicado_em: v.aplicado_em,
                },
            );
        }
        i = i + 1;
    }
    assert(entrada.take(i as int) =~= entrada);
    *vigiados = ficam;
    vigiados.len() != antes
}

/// Uma partida medida automaticamente, como o portão a lê: de que jogo, quando, e o estado do governador nela.
pub struct PartidaMedida {
    pub jogo: String,
    pub quando: u64,
    pub governador: Option<GovernadorNaPartida>,
}

/// `i` vem antes de `j` no lado: a mais recente primeiro (ou a mais antiga, com `recente_primeiro` falso); no
/// empate, a ordem em que vieram.
pub open spec fn vem_antes_no_lado(q: Seq<u64>, recente_primeiro: bool, i: int, j: int) -> bool {
    ||| (recente_primeiro && q[i] > q[j])
    ||| (!recente_primeiro && q[i] < q[j])
    ||| (q[i] == q[j] && i < j)
}

/// `idx` são as até `limite` primeiras partidas elegíveis, na ordem do lado.
pub open spec fn lado_certo(q: Seq<u64>, e: Seq<bool>, recente_primeiro: bool, limite: nat, idx: Seq<int>) -> bool {
    &&& idx.len() <= limite
    &&& forall|k: int| 0 <= k < idx.len() ==> 0 <= #[trigger] idx[k] < q.len() && e[idx[k]]
    &&& forall|a: int, b: int|
        0 <= a < b < idx.len() ==> vem_antes_no_lado(q, recente_primeiro, #[trigger] idx[a], #[trigger] idx[b])
    &&& forall|w: int|
        0 <= w < q.len() && e[w] ==> idx.contains(w) || (idx.len() == limite && forall|k: int|
            0 <= k < idx.len() ==> vem_antes_no_lado(q, recente_primeiro, #[trigger] idx[k], w))
}

pub open spec fn como_int(v: Seq<usize>) -> Seq<int> {
    v.map_values(|k: usize| k as int)
}

/// Escolhe, entre as partidas elegíveis, as até `limite` primeiras na ordem do lado.
fn escolher(q: &Vec<u64>, e: &Vec<bool>, recente_primeiro: bool, limite: usize) -> (idx: Vec<usize>)
    requires
        q@.len() == e@.len(),
    ensures
        lado_certo(q@, e@, recente_primeiro, limite as nat, como_int(idx@)),
{
    let n = q.len();
    let mut idx: Vec<usize> = Vec::new();
    let mut acabou = false;
    while idx.len() < limite && !acabou
        invariant
            n == q@.len(),
            n == e@.len(),
            idx@.len() <= limite,
            forall|k: int| 0 <= k < idx@.len() ==> (#[trigger] idx@[k]) < n && e@[idx@[k] as int],
            forall|a: int, b: int|
                0 <= a < b < idx@.len() ==> vem_antes_no_lado(
                    q@,
                    recente_primeiro,
                    #[trigger] idx@[a] as int,
                    #[trigger] idx@[b] as int,
                ),
            forall|w: int|
                0 <= w < n && e@[w] ==> como_int(idx@).contains(w) || forall|k: int|
                    0 <= k < idx@.len() ==> vem_antes_no_lado(q@, recente_primeiro, #[trigger] idx@[k] as int, w),
            acabou ==> forall|w: int| 0 <= w < n && e@[w] ==> como_int(idx@).contains(w),
        decreases limite - idx@.len() + (if acabou { 0int } else { 1int }),
    {
        let tem_ultimo = idx.len() > 0;
        let ultimo: usize = if tem_ultimo { idx[idx.len() - 1] } else { 0 };
        let mut melhor: Option<usize> = None;
        let mut j: usize = 0;
        while j < n
            invariant
                0 <= j <= n,
                n == q@.len(),
                n == e@.len(),
                tem_ultimo == (idx@.len() > 0),
                tem_ultimo ==> ultimo == idx@[idx@.len() - 1] && ultimo < n,
                match melhor {
                    Some(m) => m < j && e@[m as int] && (!tem_ultimo || vem_antes_no_lado(
                        q@,
                        recente_primeiro,
                        ultimo as int,
                        m as int,
                    )) && forall|t: int|
                        0 <= t < j && e@[t] && (!tem_ultimo || vem_antes_no_lado(q@, recente_primeiro, ultimo as int, t))
                            ==> t == m || vem_antes_no_lado(q@, recente_primeiro, m as int, t),
                    None => forall|t: int|
                        0 <= t < j && e@[t] ==> !(!tem_ultimo || vem_antes_no_lado(
                            q@,
                            recente_primeiro,
                            ultimo as int,
                            t,
                        )),
                },
            decreases n - j,
        {
            let depois_do_ultimo = !tem_ultimo || (recente_primeiro && q[ultimo] > q[j]) || (!recente_primeiro
                && q[ultimo] < q[j]) || (q[ultimo] == q[j] && ultimo < j);
            if e[j] && depois_do_ultimo {
                match melhor {
                    Some(m) => {
                        let antes = (recente_primeiro && q[j] > q[m]) || (!recente_primeiro && q[j] < q[m]) || (q[j]
                            == q[m] && j < m);
                        if antes {
                            melhor = Some(j);
                        }
                    },
                    None => {
                        melhor = Some(j);
                    },
                }
            }
            j = j + 1;
        }
        match melhor {
            Some(m) => {
                let ghost velho = idx@;
                idx.push(m);
                proof {
                    assert(idx@ == velho.push(m));
                    assert forall|w: int| 0 <= w < n && e@[w] implies como_int(idx@).contains(w) || forall|k: int|
                        0 <= k < idx@.len() ==> vem_antes_no_lado(q@, recente_primeiro, #[trigger] idx@[k] as int, w) by {
                        assert(como_int(idx@)[velho.len() as int] == m as int);
                        if como_int(velho).contains(w) {
                            let t = choose|t: int| 0 <= t < velho.len() && #[trigger] como_int(velho)[t] == w;
                            assert(como_int(idx@)[t] == w);
                        } else if w != m as int {
                            if tem_ultimo {
                                assert(vem_antes_no_lado(q@, recente_primeiro, velho[velho.len() - 1] as int, w));
                            }
                        }
                    }
                }
            },
            None => {
                proof {
                    assert forall|w: int| 0 <= w < n && e@[w] implies como_int(idx@).contains(w) by {
                        if !como_int(idx@).contains(w) {
                            if tem_ultimo {
                                assert(vem_antes_no_lado(q@, recente_primeiro, idx@[idx@.len() - 1] as int, w));
                            }
                        }
                    }
                }
                acabou = true;
            },
        }
    }
    proof {
        let s = como_int(idx@);
        assert forall|a: int, b: int| 0 <= a < b < s.len() implies vem_antes_no_lado(
            q@,
            recente_primeiro,
            #[trigger] s[a],
            #[trigger] s[b],
        ) by {
            assert(s[a] == idx@[a] as int && s[b] == idx@[b] as int);
        }
        assert forall|w: int| 0 <= w < q@.len() && e@[w] implies s.contains(w) || (s.len() == limite && forall|k: int|
            0 <= k < s.len() ==> vem_antes_no_lado(q@, recente_primeiro, #[trigger] s[k], w)) by {
            if !s.contains(w) {
                assert forall|k: int| 0 <= k < s.len() implies vem_antes_no_lado(q@, recente_primeiro, #[trigger] s[k], w) by {
                    assert(s[k] == idx@[k] as int);
                }
            }
        }
    }
    idx
}

pub open spec fn quandos(ms: Seq<PartidaMedida>) -> Seq<u64> {
    ms.map_values(|m: PartidaMedida| m.quando)
}

/// A partida é do jogo: o nome do processo medido, em minúsculas, começa pelo do jogo vigiado.
pub open spec fn e_do_jogo(m: PartidaMedida, processo: Seq<char>) -> bool {
    crate::texto::starts_with(minusculas(m.jogo@), processo)
}

pub open spec fn do_lado(ms: Seq<PartidaMedida>, processo: Seq<char>, qual: GovernadorNaPartida) -> Seq<bool> {
    ms.map_values(|m: PartidaMedida| e_do_jogo(m, processo) && m.governador == Some(qual))
}

fn elegiveis(ms: &[PartidaMedida], processo: &str, qual: GovernadorNaPartida) -> (r: (Vec<u64>, Vec<bool>))
    ensures
        r.0@ == quandos(ms@),
        r.1@ == do_lado(ms@, processo@, qual),
{
    let p = chars_of(processo);
    let mut q: Vec<u64> = Vec::new();
    let mut e: Vec<bool> = Vec::new();
    let mut i: usize = 0;
    while i < ms.len()
        invariant
            i <= ms@.len(),
            p@ == processo@,
            q@ == quandos(ms@.take(i as int)),
            e@ == do_lado(ms@.take(i as int), processo@, qual),
        decreases ms@.len() - i,
    {
        let m = &ms[i];
        let jogo = chars_of(m.jogo.as_str());
        let minusculo = to_lowercase(jogo.as_slice());
        let mesmo = match m.governador {
            Some(g) => g == qual,
            None => false,
        };
        let sim = crate::texto::starts_with_exec(minusculo.as_slice(), p.as_slice()) && mesmo;
        q.push(m.quando);
        e.push(sim);
        assert(quandos(ms@.take(i + 1)) =~= quandos(ms@.take(i as int)).push(m.quando));
        assert(do_lado(ms@.take(i + 1), processo@, qual) =~= do_lado(ms@.take(i as int), processo@, qual).push(sim));
        i = i + 1;
    }
    assert(ms@.take(ms@.len() as int) =~= ms@);
    (q, e)
}

/// Os dois lados do governador num jogo, como índices em `medicoes`: as partidas em que ele se absteve e as em
/// que agiu, cada lado com as até 6 mais recentes, da mais recente para a mais antiga.
pub fn lados_do_governador(processo: &str, medicoes: &[PartidaMedida]) -> (r: (Vec<usize>, Vec<usize>))
    ensures
        lado_certo(
            quandos(medicoes@),
            do_lado(medicoes@, processo@, GovernadorNaPartida::Absteve),
            true,
            MAXIMO_POR_LADO as nat,
            como_int(r.0@),
        ),
        lado_certo(
            quandos(medicoes@),
            do_lado(medicoes@, processo@, GovernadorNaPartida::Acalmou),
            true,
            MAXIMO_POR_LADO as nat,
            como_int(r.1@),
        ),
{
    let (q, sem) = elegiveis(medicoes, processo, GovernadorNaPartida::Absteve);
    let (_, com) = elegiveis(medicoes, processo, GovernadorNaPartida::Acalmou);
    (escolher(&q, &sem, true, MAXIMO_POR_LADO), escolher(&q, &com, true, MAXIMO_POR_LADO))
}

pub open spec fn antes_do_ajuste(ms: Seq<PartidaMedida>, v: Vigiado) -> Seq<bool> {
    ms.map_values(|m: PartidaMedida| e_do_jogo(m, v.processo@) && m.quando < v.aplicado_em)
}

pub open spec fn depois_do_ajuste(ms: Seq<PartidaMedida>, v: Vigiado) -> Seq<bool> {
    ms.map_values(|m: PartidaMedida| e_do_jogo(m, v.processo@) && m.quando > v.aplicado_em)
}

/// Os dois lados de um ajuste em vigília, como índices em `medicoes`: as até 6 partidas do jogo mais próximas
/// do ajuste de cada lado (antes, da mais recente para trás; depois, da mais antiga para a frente). Partida no
/// mesmo segundo do ajuste não é de nenhum lado.
pub fn lados_do_ajuste(v: &Vigiado, medicoes: &[PartidaMedida]) -> (r: (Vec<usize>, Vec<usize>))
    ensures
        lado_certo(quandos(medicoes@), antes_do_ajuste(medicoes@, *v), true, MAXIMO_POR_LADO as nat, como_int(r.0@)),
        lado_certo(
            quandos(medicoes@),
            depois_do_ajuste(medicoes@, *v),
            false,
            MAXIMO_POR_LADO as nat,
            como_int(r.1@),
        ),
{
    let p = chars_of(v.processo.as_str());
    let mut q: Vec<u64> = Vec::new();
    let mut antes: Vec<bool> = Vec::new();
    let mut depois: Vec<bool> = Vec::new();
    let mut i: usize = 0;
    while i < medicoes.len()
        invariant
            i <= medicoes@.len(),
            p@ == v.processo@,
            q@ == quandos(medicoes@.take(i as int)),
            antes@ == antes_do_ajuste(medicoes@.take(i as int), *v),
            depois@ == depois_do_ajuste(medicoes@.take(i as int), *v),
        decreases medicoes@.len() - i,
    {
        let m = &medicoes[i];
        let jogo = chars_of(m.jogo.as_str());
        let minusculo = to_lowercase(jogo.as_slice());
        let do_jogo = crate::texto::starts_with_exec(minusculo.as_slice(), p.as_slice());
        let a = do_jogo && m.quando < v.aplicado_em;
        let d = do_jogo && m.quando > v.aplicado_em;
        q.push(m.quando);
        antes.push(a);
        depois.push(d);
        assert(quandos(medicoes@.take(i + 1)) =~= quandos(medicoes@.take(i as int)).push(m.quando));
        assert(antes_do_ajuste(medicoes@.take(i + 1), *v) =~= antes_do_ajuste(medicoes@.take(i as int), *v).push(a));
        assert(depois_do_ajuste(medicoes@.take(i + 1), *v) =~= depois_do_ajuste(medicoes@.take(i as int), *v).push(d));
        i = i + 1;
    }
    assert(medicoes@.take(medicoes@.len() as int) =~= medicoes@);
    (escolher(&q, &antes, true, MAXIMO_POR_LADO), escolher(&q, &depois, false, MAXIMO_POR_LADO))
}

/// Quantas partidas são elegíveis.
pub open spec fn contagem(e: Seq<bool>) -> nat
    decreases e.len(),
{
    if e.len() == 0 {
        0
    } else {
        contagem(e.drop_last()) + if e.last() {
            1nat
        } else {
            0
        }
    }
}

pub open spec fn elegiveis_set(e: Seq<bool>) -> Set<int> {
    Set::new(|i: int| 0 <= i < e.len() && e[i])
}

proof fn lema_contagem_conjunto(e: Seq<bool>)
    ensures
        elegiveis_set(e).finite(),
        elegiveis_set(e).len() == contagem(e),
    decreases e.len(),
{
    broadcast use vstd::set::group_set_axioms;
    if e.len() == 0 {
        assert(elegiveis_set(e) =~= Set::<int>::empty());
    } else {
        let d = e.drop_last();
        let n = e.len() - 1;
        lema_contagem_conjunto(d);
        if e.last() {
            assert(elegiveis_set(e) =~= elegiveis_set(d).insert(n));
            assert(!elegiveis_set(d).contains(n));
        } else {
            assert(elegiveis_set(e) =~= elegiveis_set(d));
        }
    }
}

/// Um lado tem tantas partidas quantas são elegíveis, até o limite.
pub proof fn lema_tamanho_do_lado(q: Seq<u64>, e: Seq<bool>, recente_primeiro: bool, limite: nat, idx: Seq<int>)
    requires
        lado_certo(q, e, recente_primeiro, limite, idx),
        q.len() == e.len(),
    ensures
        idx.len() == if contagem(e) < limite { contagem(e) } else { limite },
{
    broadcast use vstd::set::group_set_axioms;
    lema_contagem_conjunto(e);
    let conj = elegiveis_set(e);
    assert(idx.no_duplicates()) by {
        assert forall|a: int, b: int| 0 <= a < idx.len() && 0 <= b < idx.len() && a != b implies idx[a] != idx[b] by {
            if a < b {
                assert(vem_antes_no_lado(q, recente_primeiro, idx[a], idx[b]));
            } else {
                assert(vem_antes_no_lado(q, recente_primeiro, idx[b], idx[a]));
            }
        }
    }
    idx.unique_seq_to_set();
    assert(idx.to_set().subset_of(conj)) by {
        assert forall|w: int| idx.to_set().contains(w) implies conj.contains(w) by {
            let k = choose|k: int| 0 <= k < idx.len() && idx[k] == w;
            assert(0 <= idx[k] < q.len() && e[idx[k]]);
        }
    }
    vstd::set_lib::lemma_len_subset(idx.to_set(), conj);
    if idx.len() < limite {
        assert(conj.subset_of(idx.to_set())) by {
            assert forall|w: int| conj.contains(w) implies idx.to_set().contains(w) by {
                assert(idx.contains(w));
            }
        }
        assert(conj =~= idx.to_set());
    }
}

/// O que o governador faz nesta partida.
#[derive(Debug, Clone, PartialEq, Eq)]
pub enum Rodada {
    Agir,
    /// Partida de comparação: ele se abstém, para haver o lado sem ele.
    Comparar,
    /// Ele derrubou o FPS e fica parado neste jogo.
    Reprovado,
    /// Sem medição não há como provar que ele não tira FPS.
    SemMedicao(String),
}

/// A vigília do governador num jogo como a rodada a lê: o veredito, quando já houve (reprovado ou não), e as
/// sessões em que ele agiu.
pub struct VigiliaComVeredito {
    pub processo: String,
    pub reprovado: Option<bool>,
    pub sessoes_agindo: Vec<u64>,
}

/// Partida curta demais ou medição que falha não pode virar governador agindo sem prova indefinidamente.
pub const SESSOES_AGINDO_SEM_MEDICAO: usize = 3;

pub open spec fn primeira_vigilia(vs: Seq<VigiliaComVeredito>, processo: Seq<char>, i: int) -> Option<int>
    decreases vs.len() - i,
{
    if i < 0 || i >= vs.len() {
        None
    } else if vs[i].processo@ == processo {
        Some(i)
    } else {
        primeira_vigilia(vs, processo, i + 1)
    }
}

/// A hora da última partida do jogo com a marca do governador (zero sem nenhuma).
pub open spec fn ultima_marca(ms: Seq<PartidaMedida>, processo: Seq<char>) -> u64
    decreases ms.len(),
{
    if ms.len() == 0 {
        0
    } else {
        let r = ultima_marca(ms.drop_last(), processo);
        let m = ms.last();
        if e_do_jogo(m, processo) && m.governador is Some && m.quando > r {
            m.quando
        } else {
            r
        }
    }
}

/// Quantas sessões ele agiu depois da última partida marcada.
pub open spec fn depois_da_marca(s: Seq<u64>, marca: u64) -> nat
    decreases s.len(),
{
    if s.len() == 0 {
        0
    } else {
        depois_da_marca(s.drop_last(), marca) + if s.last() > marca {
            1nat
        } else {
            0
        }
    }
}

pub open spec fn tamanho_do_lado(e: Seq<bool>) -> nat {
    if contagem(e) < MAXIMO_POR_LADO {
        contagem(e)
    } else {
        MAXIMO_POR_LADO as nat
    }
}

pub open spec fn sem_registro() -> Seq<char> {
    "não consegui ler o registro do portão, onde fica o veredito dele"@
}

pub open spec fn sem_medir() -> Seq<char> {
    "a medição automática de quadros está desligada ou sem administrador, e sem medir não dá para provar que ele não tira FPS"@
}

pub open spec fn sem_partidas() -> Seq<char> {
    "não consegui ler as medições das partidas anteriores para conferir o efeito dele"@
}

/// A rodada, sem o estado ilegível e sem veredito: compara quando o lado sem ele não é maior que o lado com ele
/// (no empate, a comparação começa, porque o lado sem ele é a referência), ou quando ele já agiu três sessões
/// sem nenhuma partida marcada depois.
pub open spec fn compara(vs: Seq<VigiliaComVeredito>, processo: Seq<char>, ms: Seq<PartidaMedida>) -> bool {
    let agindo = match primeira_vigilia(vs, processo, 0) {
        Some(i) => depois_da_marca(vs[i].sessoes_agindo@, ultima_marca(ms, processo)),
        None => 0,
    };
    tamanho_do_lado(do_lado(ms, processo, GovernadorNaPartida::Absteve)) <= tamanho_do_lado(
        do_lado(ms, processo, GovernadorNaPartida::Acalmou),
    ) || agindo >= SESSOES_AGINDO_SEM_MEDICAO
}

fn achar_vigilia(vs: &[VigiliaComVeredito], processo: &[char]) -> (r: Option<usize>)
    ensures
        match r {
            Some(i) => primeira_vigilia(vs@, processo@, 0) == Some(i as int) && i < vs@.len(),
            None => primeira_vigilia(vs@, processo@, 0) is None,
        },
{
    let mut i: usize = 0;
    while i < vs.len()
        invariant
            i <= vs@.len(),
            primeira_vigilia(vs@, processo@, 0) == primeira_vigilia(vs@, processo@, i as int),
        decreases vs@.len() - i,
    {
        let c = chars_of(vs[i].processo.as_str());
        if same_chars(c.as_slice(), processo) {
            return Some(i);
        }
        i = i + 1;
    }
    None
}

fn marca_mais_recente(ms: &[PartidaMedida], processo: &[char]) -> (r: u64)
    ensures
        r == ultima_marca(ms@, processo@),
{
    let mut r: u64 = 0;
    let mut i: usize = 0;
    while i < ms.len()
        invariant
            i <= ms@.len(),
            r == ultima_marca(ms@.take(i as int), processo@),
        decreases ms@.len() - i,
    {
        assert(ms@.take(i + 1).drop_last() =~= ms@.take(i as int));
        let m = &ms[i];
        let jogo = chars_of(m.jogo.as_str());
        let minusculo = to_lowercase(jogo.as_slice());
        if crate::texto::starts_with_exec(minusculo.as_slice(), processo) && m.governador.is_some() && m.quando > r {
            r = m.quando;
        }
        i = i + 1;
    }
    assert(ms@.take(ms@.len() as int) =~= ms@);
    r
}

fn contar_depois(s: &[u64], marca: u64) -> (r: usize)
    ensures
        r == depois_da_marca(s@, marca),
{
    let mut r: usize = 0;
    let mut i: usize = 0;
    while i < s.len()
        invariant
            i <= s@.len(),
            r == depois_da_marca(s@.take(i as int), marca),
            r <= i,
        decreases s@.len() - i,
    {
        assert(s@.take(i + 1).drop_last() =~= s@.take(i as int));
        if s[i] > marca {
            r = r + 1;
        }
        i = i + 1;
    }
    assert(s@.take(s@.len() as int) =~= s@);
    r
}

/// O que o governador faz nesta partida. Estado ilegível (o veredito pode estar lá), medição desligada ou
/// partidas ilegíveis: ele não age. Com veredito, age se passou e fica parado se foi reprovado.
pub fn rodada_do_governador(
    estado: Option<&[VigiliaComVeredito]>,
    processo: &str,
    medicoes: Option<&[PartidaMedida]>,
    medindo: bool,
) -> (r: Rodada)
    ensures
        match estado {
            None => r matches Rodada::SemMedicao(m) && m@ == sem_registro(),
            Some(vs) => {
                let vig = primeira_vigilia(vs@, processo@, 0);
                if vig matches Some(i) && vs@[i].reprovado is Some {
                    if vs@[vig->0].reprovado == Some(true) {
                        r == Rodada::Reprovado
                    } else {
                        r == Rodada::Agir
                    }
                } else if !medindo {
                    r matches Rodada::SemMedicao(m) && m@ == sem_medir()
                } else {
                    match medicoes {
                        None => r matches Rodada::SemMedicao(m) && m@ == sem_partidas(),
                        Some(ms) => if compara(vs@, processo@, ms@) {
                            r == Rodada::Comparar
                        } else {
                            r == Rodada::Agir
                        },
                    }
                }
            },
        },
{
    let vs = match estado {
        None => return Rodada::SemMedicao("não consegui ler o registro do portão, onde fica o veredito dele".to_string()),
        Some(vs) => vs,
    };
    let p = chars_of(processo);
    let vig = achar_vigilia(vs, p.as_slice());
    match vig {
        Some(i) => match vs[i].reprovado {
            Some(true) => return Rodada::Reprovado,
            Some(false) => return Rodada::Agir,
            None => {},
        },
        None => {},
    }
    if !medindo {
        return Rodada::SemMedicao(
            "a medição automática de quadros está desligada ou sem administrador, e sem medir não dá para provar que ele não tira FPS".to_string(),
        );
    }
    let ms = match medicoes {
        None => return Rodada::SemMedicao(
            "não consegui ler as medições das partidas anteriores para conferir o efeito dele".to_string(),
        ),
        Some(ms) => ms,
    };
    let (sem, com) = lados_do_governador(processo, ms);
    proof {
        lema_tamanho_do_lado(
            quandos(ms@),
            do_lado(ms@, processo@, GovernadorNaPartida::Absteve),
            true,
            MAXIMO_POR_LADO as nat,
            como_int(sem@),
        );
        lema_tamanho_do_lado(
            quandos(ms@),
            do_lado(ms@, processo@, GovernadorNaPartida::Acalmou),
            true,
            MAXIMO_POR_LADO as nat,
            como_int(com@),
        );
    }
    let marca = marca_mais_recente(ms, p.as_slice());
    let agindo: usize = match vig {
        Some(i) => contar_depois(vs[i].sessoes_agindo.as_slice(), marca),
        None => 0,
    };
    if sem.len() <= com.len() || agindo >= SESSOES_AGINDO_SEM_MEDICAO {
        Rodada::Comparar
    } else {
        Rodada::Agir
    }
}

/// As sessões guardadas de governador agindo sem medição.
pub const SESSOES_GUARDADAS: usize = 10;

/// A vigília do governador num jogo, na parte que cada sessão observada atualiza.
pub struct VigiliaDoGovernador {
    pub processo: String,
    pub nome: String,
    pub desde: u64,
    pub sessoes_agindo: Vec<u64>,
}

pub open spec fn posicao(vs: Seq<VigiliaDoGovernador>, processo: Seq<char>, i: int) -> Option<int>
    decreases vs.len() - i,
{
    if i < 0 || i >= vs.len() {
        None
    } else if vs[i].processo@ == processo {
        Some(i)
    } else {
        posicao(vs, processo, i + 1)
    }
}

/// As últimas `n` de uma lista.
pub open spec fn ultimas(s: Seq<u64>, n: nat) -> Seq<u64> {
    if s.len() > n {
        s.skip(s.len() - n)
    } else {
        s
    }
}

pub open spec fn sessoes_depois(antes: Seq<u64>, agora: u64, agindo: bool) -> Seq<u64> {
    if agindo {
        ultimas(antes.push(agora), SESSOES_GUARDADAS as nat)
    } else {
        antes
    }
}

proof fn lema_posicao(vs: Seq<VigiliaDoGovernador>, processo: Seq<char>, k: int)
    requires
        0 <= k,
    ensures
        posicao(vs, processo, k) matches Some(i) ==> k <= i < vs.len() && vs[i].processo@ == processo,
    decreases vs.len() - k,
{
    if k < vs.len() && vs[k].processo@ != processo {
        lema_posicao(vs, processo, k + 1);
    }
}

fn achar(vs: &Vec<VigiliaDoGovernador>, processo: &[char]) -> (r: Option<usize>)
    ensures
        match r {
            Some(i) => posicao(vs@, processo@, 0) == Some(i as int),
            None => posicao(vs@, processo@, 0) is None,
        },
{
    let mut i: usize = 0;
    while i < vs.len()
        invariant
            i <= vs@.len(),
            posicao(vs@, processo@, 0) == posicao(vs@, processo@, i as int),
        decreases vs@.len() - i,
    {
        let c = chars_of(vs[i].processo.as_str());
        if same_chars(c.as_slice(), processo) {
            return Some(i);
        }
        i = i + 1;
    }
    None
}

fn guardar_ultimas(antes: &Vec<u64>, agora: u64) -> (r: Vec<u64>)
    ensures
        r@ == ultimas(antes@.push(agora), SESSOES_GUARDADAS as nat),
{
    let mut todas = antes.clone();
    todas.push(agora);
    let n = todas.len();
    let inicio: usize = if n > SESSOES_GUARDADAS { n - SESSOES_GUARDADAS } else { 0 };
    let mut r: Vec<u64> = Vec::new();
    let mut k: usize = inicio;
    while k < n
        invariant
            inicio <= k <= n,
            n == todas@.len(),
            todas@ == antes@.push(agora),
            r@ == todas@.subrange(inicio as int, k as int),
        decreases n - k,
    {
        r.push(todas[k]);
        k = k + 1;
        assert(r@ =~= todas@.subrange(inicio as int, k as int));
    }
    assert(todas@.subrange(inicio as int, n as int) =~= ultimas(todas@, SESSOES_GUARDADAS as nat));
    r
}

/// Anota uma sessão do governador num jogo: a primeira vez cria a vigília, desde agora; agindo, guarda a hora da
/// sessão, ficando só as 10 últimas. As outras vigílias não mudam.
pub fn observar_governador(vigilias: &mut Vec<VigiliaDoGovernador>, processo: &str, nome: &str, agora: u64, agindo: bool)
    ensures
        ({
            let i = match posicao(old(vigilias)@, processo@, 0) {
                Some(i) => i,
                None => old(vigilias)@.len() as int,
            };
            &&& final(vigilias)@.len() == if posicao(old(vigilias)@, processo@, 0) is None {
                old(vigilias)@.len() + 1int
            } else {
                old(vigilias)@.len() as int
            }
            &&& forall|j: int| 0 <= j < old(vigilias)@.len() && j != i ==> final(vigilias)@[j] == old(vigilias)@[j]
            &&& posicao(old(vigilias)@, processo@, 0) is None ==> {
                &&& final(vigilias)@[i].processo@ == processo@
                &&& final(vigilias)@[i].nome@ == nome@
                &&& final(vigilias)@[i].desde == agora
                &&& final(vigilias)@[i].sessoes_agindo@ == sessoes_depois(seq![], agora, agindo)
            }
            &&& posicao(old(vigilias)@, processo@, 0) is Some ==> {
                &&& final(vigilias)@[i].processo@ == old(vigilias)@[i].processo@
                &&& final(vigilias)@[i].nome@ == old(vigilias)@[i].nome@
                &&& final(vigilias)@[i].desde == old(vigilias)@[i].desde
                &&& final(vigilias)@[i].sessoes_agindo@ == sessoes_depois(
                    old(vigilias)@[i].sessoes_agindo@,
                    agora,
                    agindo,
                )
            }
        }),
{
    let p = chars_of(processo);
    proof {
        lema_posicao(vigilias@, processo@, 0);
    }
    let i = match achar(vigilias, p.as_slice()) {
        Some(i) => i,
        None => {
            vigilias.push(
                VigiliaDoGovernador {
                    processo: processo.to_string(),
                    nome: nome.to_string(),
                    desde: agora,
                    sessoes_agindo: Vec::new(),
                },
            );
            vigilias.len() - 1
        },
    };
    if agindo {
        let g = &vigilias[i];
        let novas = guardar_ultimas(&g.sessoes_agindo, agora);
        let nova = VigiliaDoGovernador {
            processo: g.processo.clone(),
            nome: g.nome.clone(),
            desde: g.desde,
            sessoes_agindo: novas,
        };
        vigilias.set(i, nova);
    }
}

} // verus!
