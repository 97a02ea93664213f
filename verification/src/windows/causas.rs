//! Por que o FPS está baixo: suspeitos conhecidos, cada um com uma leitura que o confirma. Sem leitura não há
//! suspeito (vira lacuna, nem absolvição nem silêncio); a ordem é a da força da evidência; cada causa diz como
//! confirmar.

use vstd::prelude::*;
use crate::ordem::textos;
use crate::texto::{anexar, chars_of, decimal, is_digit, parse_u32, parse_u32_exec, push_decimal, str_eq, string_of, views};
use crate::windows::achados::Confianca;

verus! {

broadcast use {vstd::string::group_string_axioms, vstd::seq_lib::group_seq_properties};

#[derive(Debug, Clone, PartialEq)]
pub struct Suspeito {
    pub id: String,
    pub titulo: String,
    /// Nunca vazio: afirmação sem número medido é o que este produto não faz.
    pub medido: String,
    pub porque: String,
    pub como_confirmar: String,
    pub confianca: Confianca,
}

#[derive(Debug, Clone, Default, PartialEq)]
pub struct Investigacao {
    /// Vazio quando nada foi encontrado, e a tela diz isso com palavras.
    pub suspeitos: Vec<Suspeito>,
    /// Suspeito ausente NÃO significa máquina limpa.
    pub lacunas: Vec<String>,
}

/// A largura do enlace PCI Express da placa de vídeo, como a leitura a encontrou.
#[derive(Debug, Clone, PartialEq, Eq)]
pub enum Faixas {
    Completo { largura: u32 },
    Estreito { atual: u32, maxima: u32 },
    NaoDeuParaLer { motivo: String },
}

/// O suspeito visto como textos: id, título, o que foi medido, por quê, como confirmar, e a confiança.
pub open spec fn ficha(s: Suspeito) -> (Seq<char>, Seq<char>, Seq<char>, Seq<char>, Seq<char>, Confianca) {
    (s.id@, s.titulo@, s.medido@, s.porque@, s.como_confirmar@, s.confianca)
}

/// `xs` unidos por `sep`, como `join` faz.
pub open spec fn unidos(xs: Seq<Seq<char>>, sep: Seq<char>) -> Seq<char>
    decreases xs.len(),
{
    if xs.len() == 0 {
        seq![]
    } else if xs.len() == 1 {
        xs[0]
    } else {
        unidos(xs.drop_last(), sep) + sep + xs.last()
    }
}

fn unir(xs: &[String], sep: &str) -> (r: Vec<char>)
    ensures
        r@ == unidos(textos(xs@), sep@),
{
    let mut r: Vec<char> = Vec::new();
    let mut i: usize = 0;
    while i < xs.len()
        invariant
            0 <= i <= xs@.len(),
            r@ == unidos(textos(xs@).take(i as int), sep@),
        decreases xs@.len() - i,
    {
        let ghost antes = textos(xs@).take(i as int);
        assert(textos(xs@).take(i + 1).drop_last() =~= antes);
        assert(textos(xs@).take(i + 1).last() == xs@[i as int]@);
        if i > 0 {
            anexar(&mut r, sep);
        }
        anexar(&mut r, xs[i].as_str());
        if i == 0 {
            assert(r@ =~= unidos(textos(xs@).take(1), sep@));
        }
        i = i + 1;
    }
    assert(textos(xs@).take(xs@.len() as int) =~= textos(xs@));
    r
}

pub open spec fn porque_disco() -> Seq<char> {
    "O jogo lê textura e modelo o tempo todo enquanto a pessoa anda pelo mapa. \
     Um disco de prato não entrega isso na velocidade que o jogo pede, e o \
     sintoma é travada ao virar a esquina. Nenhum ajuste de software conserta \
     — o limite é o disco."@
}

pub open spec fn confirmar_disco() -> Seq<char> {
    "Com o jogo aberto, abra o Gerenciador de Tarefas na aba Desempenho \
     e olhe o disco onde o jogo está: se ele fica em 100% de tempo \
     ativo durante as travadas, é isto. O que resolve é passar o jogo \
     para o SSD."@
}

/// Os jogos instalados em disco mecânico.
pub fn suspeito_do_disco(jogos_no_hd: &[String]) -> (r: Option<Suspeito>)
    ensures
        jogos_no_hd@.len() == 0 <==> r is None,
        r matches Some(s) ==> ficha(s) == (
            "jogo_em_disco_mecanico"@,
            "O jogo está num disco mecânico"@,
            "Em disco de prato: "@ + unidos(textos(jogos_no_hd@), ", "@) + "."@,
            porque_disco(),
            confirmar_disco(),
            Confianca::Medido,
        ),
{
    if jogos_no_hd.len() == 0 {
        return None;
    }
    let mut medido: Vec<char> = chars_of("Em disco de prato: ");
    let mut lista = unir(jogos_no_hd, ", ");
    medido.append(&mut lista);
    anexar(&mut medido, ".");
    Some(
        Suspeito {
            id: "jogo_em_disco_mecanico".to_string(),
            titulo: "O jogo está num disco mecânico".to_string(),
            medido: string_of(medido.as_slice()),
            porque: "O jogo lê textura e modelo o tempo todo enquanto a pessoa anda pelo mapa. \
                     Um disco de prato não entrega isso na velocidade que o jogo pede, e o \
                     sintoma é travada ao virar a esquina. Nenhum ajuste de software conserta \
                     — o limite é o disco.".to_string(),
            como_confirmar: "Com o jogo aberto, abra o Gerenciador de Tarefas na aba Desempenho \
                             e olhe o disco onde o jogo está: se ele fica em 100% de tempo \
                             ativo durante as travadas, é isto. O que resolve é passar o jogo \
                             para o SSD.".to_string(),
            confianca: Confianca::Medido,
        },
    )
}

pub open spec fn porque_faixas() -> Seq<char> {
    "As faixas são o caminho entre a placa e o processador. Com menos faixas, \
     tudo que o jogo manda para a placa passa por um cano mais estreito. É \
     físico: não há ajuste de software que resolva."@
}

pub open spec fn confirmar_faixas() -> Seq<char> {
    "Confira no manual da placa-mãe quais slots dividem faixas com os \
     encaixes de SSD M.2 — é a causa mais comum. Depois disso, verifique \
     se a placa está no slot de cima e bem encostada, e se não há cabo \
     de extensão no caminho."@
}

/// Só o enlace estreito é suspeito; completo ou ilegível não.
pub fn suspeito_das_faixas(faixas: &Faixas) -> (r: Option<Suspeito>)
    ensures
        !(faixas is Estreito) <==> r is None,
        r matches Some(s) ==> ficha(s) == (
            "pcie_estreito"@,
            "A placa de vídeo está com menos faixas do que suporta"@,
            decimal(faixas->atual as nat) + " faixas de PCI Express em uso, de "@ + decimal(faixas->maxima as nat)
                + " que a placa tem."@,
            porque_faixas(),
            confirmar_faixas(),
            Confianca::Medido,
        ),
{
    let (atual, maxima) = match faixas {
        Faixas::Estreito { atual, maxima } => (*atual, *maxima),
        _ => return None,
    };
    let mut medido: Vec<char> = Vec::new();
    push_decimal(&mut medido, atual as u64);
    anexar(&mut medido, " faixas de PCI Express em uso, de ");
    push_decimal(&mut medido, maxima as u64);
    anexar(&mut medido, " que a placa tem.");
    Some(
        Suspeito {
            id: "pcie_estreito".to_string(),
            titulo: "A placa de vídeo está com menos faixas do que suporta".to_string(),
            medido: string_of(medido.as_slice()),
            porque: "As faixas são o caminho entre a placa e o processador. Com menos faixas, \
                     tudo que o jogo manda para a placa passa por um cano mais estreito. É \
                     físico: não há ajuste de software que resolva.".to_string(),
            como_confirmar: "Confira no manual da placa-mãe quais slots dividem faixas com os \
                             encaixes de SSD M.2 — é a causa mais comum. Depois disso, verifique \
                             se a placa está no slot de cima e bem encostada, e se não há cabo \
                             de extensão no caminho.".to_string(),
            confianca: Confianca::Medido,
        },
    )
}

pub open spec fn porque_memoria() -> Seq<char> {
    "Jogo preso no processador — e o FiveM é o caso extremo disso — depende da \
     velocidade com que a memória responde. Canal único corta essa entrega pela \
     metade, e memória abaixo da velocidade nominal é desempenho comprado e não \
     usado."@
}

pub open spec fn confirmar_memoria() -> Seq<char> {
    "A velocidade se liga na BIOS, no perfil XMP (Intel) ou EXPO (AMD) — \
     e é uma opção só. O canal único se resolve mudando os pentes de \
     encaixe, seguindo o manual da placa-mãe: em placa de quatro \
     encaixes, costuma ser o segundo e o quarto. Nada disso é \
     atualização de BIOS, e nada disso o Otimiza faz sozinho."@
}

/// As partes da frase sobre a memória: a velocidade abaixo do nominal e o canal único, nessa ordem.
pub open spec fn partes_da_memoria(canal_unico: bool, abaixo: Option<(u32, u32)>) -> Seq<Seq<char>> {
    (match abaixo {
        Some(p) => seq![
            "a memória roda a "@ + decimal(p.0 as nat) + " MHz e os pentes são de "@ + decimal(p.1 as nat)
                + " MHz"@,
        ],
        None => seq![],
    }) + if canal_unico {
        seq!["a memória está em canal único"@]
    } else {
        seq![]
    }
}

/// Os dois problemas da memória numa frase só.
pub fn suspeito_da_memoria(canal_unico: bool, abaixo_do_nominal: Option<(u32, u32)>) -> (r: Option<Suspeito>)
    ensures
        (!canal_unico && abaixo_do_nominal is None) <==> r is None,
        r matches Some(s) ==> ficha(s) == (
            "memoria_abaixo_do_que_tem"@,
            "A memória não está entregando o que ela tem"@,
            "Nesta máquina, "@ + unidos(partes_da_memoria(canal_unico, abaixo_do_nominal), " e "@) + "."@,
            porque_memoria(),
            confirmar_memoria(),
            Confianca::Medido,
        ),
{
    let mut partes: Vec<String> = Vec::new();
    match abaixo_do_nominal {
        Some((atual, nominal)) => {
            let mut v: Vec<char> = chars_of("a memória roda a ");
            push_decimal(&mut v, atual as u64);
            anexar(&mut v, " MHz e os pentes são de ");
            push_decimal(&mut v, nominal as u64);
            anexar(&mut v, " MHz");
            partes.push(string_of(v.as_slice()));
        },
        None => {},
    }
    if canal_unico {
        partes.push("a memória está em canal único".to_string());
    }
    assert(textos(partes@) =~= partes_da_memoria(canal_unico, abaixo_do_nominal));
    if partes.len() == 0 {
        return None;
    }
    let mut medido: Vec<char> = chars_of("Nesta máquina, ");
    let mut juntas = unir(partes.as_slice(), " e ");
    medido.append(&mut juntas);
    anexar(&mut medido, ".");
    Some(
        Suspeito {
            id: "memoria_abaixo_do_que_tem".to_string(),
            titulo: "A memória não está entregando o que ela tem".to_string(),
            medido: string_of(medido.as_slice()),
            porque: "Jogo preso no processador — e o FiveM é o caso extremo disso — depende da \
                     velocidade com que a memória responde. Canal único corta essa entrega pela \
                     metade, e memória abaixo da velocidade nominal é desempenho comprado e não \
                     usado.".to_string(),
            como_confirmar: "A velocidade se liga na BIOS, no perfil XMP (Intel) ou EXPO (AMD) — \
                             e é uma opção só. O canal único se resolve mudando os pentes de \
                             encaixe, seguindo o manual da placa-mãe: em placa de quatro \
                             encaixes, costuma ser o segundo e o quarto. Nada disso é \
                             atualização de BIOS, e nada disso o Otimiza faz sozinho.".to_string(),
            confianca: Confianca::Medido,
        },
    )
}

pub open spec fn porque_limite() -> Seq<char> {
    "Com um limite ativo, a peça não chega à frequência que ela alcança. O FPS \
     fica abaixo do que a máquina daria, e piora conforme ela esquenta — por \
     isso o jogo começa bom e vai caindo."@
}

pub open spec fn confirmar_limite() -> Seq<char> {
    "Jogue por vinte minutos e veja se o FPS cai com o tempo. Se cair, é \
     temperatura: limpeza do cooler e pasta térmica resolvem mais que \
     qualquer ajuste de software. O Otimiza NUNCA desliga proteção \
     térmica — a proteção é o que impede a peça de se danificar."@
}

/// Um limite de frequência que o Windows declara ativo.
pub fn suspeito_do_limite(causa: Option<&str>) -> (r: Option<Suspeito>)
    ensures
        causa is None <==> r is None,
        r matches Some(s) ==> ficha(s) == (
            "limite_ativo"@,
            "Alguma coisa está segurando a frequência"@,
            "O Windows registra um limite ativo: "@ + causa->0@ + "."@,
            porque_limite(),
            confirmar_limite(),
            Confianca::Declarado,
        ),
{
    let causa = match causa {
        Some(c) => c,
        None => return None,
    };
    let mut medido: Vec<char> = chars_of("O Windows registra um limite ativo: ");
    anexar(&mut medido, causa);
    anexar(&mut medido, ".");
    Some(
        Suspeito {
            id: "limite_ativo".to_string(),
            titulo: "Alguma coisa está segurando a frequência".to_string(),
            medido: string_of(medido.as_slice()),
            porque: "Com um limite ativo, a peça não chega à frequência que ela alcança. O FPS \
                     fica abaixo do que a máquina daria, e piora conforme ela esquenta — por \
                     isso o jogo começa bom e vai caindo.".to_string(),
            como_confirmar: "Jogue por vinte minutos e veja se o FPS cai com o tempo. Se cair, é \
                             temperatura: limpeza do cooler e pasta térmica resolvem mais que \
                             qualquer ajuste de software. O Otimiza NUNCA desliga proteção \
                             térmica — a proteção é o que impede a peça de se danificar.".to_string(),
            confianca: Confianca::Declarado,
        },
    )
}

/// A força da evidência de cada suspeito: quanto menor, mais cedo aparece. O próprio Otimiza vem primeiro: se ele
/// pode ser a causa, o cliente lê isso antes dos defeitos da máquina dele.
pub open spec fn peso(id: Seq<char>) -> nat {
    if id == "foi_o_otimiza"@ {
        0
    } else if id == "limite_ativo"@ {
        1
    } else if id == "vram_curta"@ {
        2
    } else if id == "jogo_em_disco_mecanico"@ {
        3
    } else if id == "pcie_estreito"@ {
        4
    } else if id == "memoria_abaixo_do_que_tem"@ {
        5
    } else {
        9
    }
}

fn peso_exec(id: &str) -> (r: u8)
    ensures
        r as nat == peso(id@),
{
    if str_eq(id, "foi_o_otimiza") {
        0
    } else if str_eq(id, "limite_ativo") {
        1
    } else if str_eq(id, "vram_curta") {
        2
    } else if str_eq(id, "jogo_em_disco_mecanico") {
        3
    } else if str_eq(id, "pcie_estreito") {
        4
    } else if str_eq(id, "memoria_abaixo_do_que_tem") {
        5
    } else {
        9
    }
}

/// Os suspeitos de um peso, na ordem em que vieram.
pub open spec fn do_peso(ss: Seq<Suspeito>, w: nat) -> Seq<Suspeito>
    decreases ss.len(),
{
    if ss.len() == 0 {
        seq![]
    } else if peso(ss.last().id@) == w {
        do_peso(ss.drop_last(), w).push(ss.last())
    } else {
        do_peso(ss.drop_last(), w)
    }
}

/// Do suspeito de evidência mais forte para o de mais fraca, sem trocar a ordem entre os de mesmo peso.
pub open spec fn por_evidencia(ss: Seq<Suspeito>) -> Seq<Suspeito> {
    do_peso(ss, 0) + do_peso(ss, 1) + do_peso(ss, 2) + do_peso(ss, 3) + do_peso(ss, 4) + do_peso(ss, 5)
        + do_peso(ss, 9)
}

pub open spec fn soma_dos_pesos(ss: Seq<Suspeito>) -> vstd::multiset::Multiset<Suspeito> {
    do_peso(ss, 0).to_multiset().add(do_peso(ss, 1).to_multiset()).add(do_peso(ss, 2).to_multiset()).add(
        do_peso(ss, 3).to_multiset(),
    ).add(do_peso(ss, 4).to_multiset()).add(do_peso(ss, 5).to_multiset()).add(do_peso(ss, 9).to_multiset())
}

proof fn lema_soma_dos_pesos(ss: Seq<Suspeito>)
    ensures
        soma_dos_pesos(ss) =~= ss.to_multiset(),
    decreases ss.len(),
{
    broadcast use vstd::seq_lib::group_to_multiset_ensures, vstd::multiset::group_multiset_axioms;

    if ss.len() == 0 {
        assert(ss.to_multiset() =~= vstd::multiset::Multiset::empty());
    } else {
        let d = ss.drop_last();
        let x = ss.last();
        lema_soma_dos_pesos(d);
        assert(ss =~= d.push(x));
    }
}

proof fn lema_do_peso_so_tem_o_peso(ss: Seq<Suspeito>, w: nat)
    ensures
        forall|k: int| 0 <= k < do_peso(ss, w).len() ==> peso((#[trigger] do_peso(ss, w)[k]).id@) == w,
        (exists|k: int| 0 <= k < ss.len() && peso((#[trigger] ss[k]).id@) == w) ==> do_peso(ss, w).len() > 0,
    decreases ss.len(),
{
    if ss.len() > 0 {
        let d = ss.drop_last();
        lema_do_peso_so_tem_o_peso(d, w);
        if peso(ss.last().id@) == w {
            assert forall|k: int| 0 <= k < do_peso(ss, w).len() implies peso((#[trigger] do_peso(ss, w)[k]).id@) == w by {
                if k < do_peso(d, w).len() {
                    assert(do_peso(ss, w)[k] == do_peso(d, w)[k]);
                }
            }
        } else {
            if exists|k: int| 0 <= k < ss.len() && peso((#[trigger] ss[k]).id@) == w {
                let k = choose|k: int| 0 <= k < ss.len() && peso((#[trigger] ss[k]).id@) == w;
                assert(k < d.len());
                assert(d[k] == ss[k]);
            }
        }
    }
}

/// Ordenar não perde nem inventa suspeito (é uma permutação), e quando o próprio Otimiza é suspeito ele vem
/// primeiro: a medição de antes e depois é a evidência mais forte.
pub proof fn lei_ordenar_permuta_e_otimiza_primeiro(ss: Seq<Suspeito>)
    ensures
        por_evidencia(ss).to_multiset() == ss.to_multiset(),
        (exists|k: int| 0 <= k < ss.len() && (#[trigger] ss[k]).id@ == "foi_o_otimiza"@) ==> por_evidencia(ss)[0].id@
            == "foi_o_otimiza"@,
{
    broadcast use vstd::seq_lib::lemma_multiset_commutative;

    lema_soma_dos_pesos(ss);
    let a0 = do_peso(ss, 0);
    let a1 = do_peso(ss, 1);
    let a2 = do_peso(ss, 2);
    let a3 = do_peso(ss, 3);
    let a4 = do_peso(ss, 4);
    let a5 = do_peso(ss, 5);
    let a9 = do_peso(ss, 9);
    vstd::seq_lib::lemma_multiset_commutative(a0, a1);
    vstd::seq_lib::lemma_multiset_commutative(a0 + a1, a2);
    vstd::seq_lib::lemma_multiset_commutative(a0 + a1 + a2, a3);
    vstd::seq_lib::lemma_multiset_commutative(a0 + a1 + a2 + a3, a4);
    vstd::seq_lib::lemma_multiset_commutative(a0 + a1 + a2 + a3 + a4, a5);
    vstd::seq_lib::lemma_multiset_commutative(a0 + a1 + a2 + a3 + a4 + a5, a9);
    lema_do_peso_so_tem_o_peso(ss, 0);
    if exists|k: int| 0 <= k < ss.len() && (#[trigger] ss[k]).id@ == "foi_o_otimiza"@ {
        let k = choose|k: int| 0 <= k < ss.len() && (#[trigger] ss[k]).id@ == "foi_o_otimiza"@;
        assert(peso(ss[k].id@) == 0);
        assert(a0.len() > 0);
        assert(por_evidencia(ss)[0] == a0[0]);
        assert(peso(a0[0].id@) == 0);
    }
}

/// Os ids de suspeito com posição fixa, do de evidência mais forte para o de mais fraca.
pub open spec fn ids_em_ordem() -> Seq<Seq<char>> {
    seq![
        "foi_o_otimiza"@,
        "limite_ativo"@,
        "vram_curta"@,
        "jogo_em_disco_mecanico"@,
        "pcie_estreito"@,
        "memoria_abaixo_do_que_tem"@,
    ]
}

proof fn lema_pesos_dos_ids()
    ensures
        forall|i: int| 0 <= i < 6 ==> peso(#[trigger] ids_em_ordem()[i]) == i,
{
    reveal_strlit("foi_o_otimiza");
    reveal_strlit("limite_ativo");
    reveal_strlit("vram_curta");
    reveal_strlit("jogo_em_disco_mecanico");
    reveal_strlit("pcie_estreito");
    reveal_strlit("memoria_abaixo_do_que_tem");
    let o = ids_em_ordem();
    assert(o[0] == "foi_o_otimiza"@ && o[0].len() == 13);
    assert(o[1] == "limite_ativo"@ && o[1].len() == 12);
    assert(o[2] == "vram_curta"@ && o[2].len() == 10);
    assert(o[3] == "jogo_em_disco_mecanico"@ && o[3].len() == 22);
    assert(o[4] == "pcie_estreito"@ && o[4].len() == 13);
    assert(o[5] == "memoria_abaixo_do_que_tem"@ && o[5].len() == 25);
    assert(o[1] != o[0]);
    assert(o[2] != o[0] && o[2] != o[1]);
    assert(o[3] != o[0] && o[3] != o[1] && o[3] != o[2]);
    assert(o[4][0] != o[0][0]);
    assert(o[4] != o[0] && o[4] != o[1] && o[4] != o[2] && o[4] != o[3]);
    assert(o[5] != o[0] && o[5] != o[1] && o[5] != o[2] && o[5] != o[3] && o[5] != o[4]);
    assert(peso(o[0]) == 0);
    assert(peso(o[1]) == 1);
    assert(peso(o[2]) == 2);
    assert(peso(o[3]) == 3);
    assert(peso(o[4]) == 4);
    assert(peso(o[5]) == 5);
}

proof fn lema_fora_da_lista_pesa_nove(id: Seq<char>)
    requires
        !ids_em_ordem().contains(id),
    ensures
        peso(id) == 9,
{
    let o = ids_em_ordem();
    assert(id != o[0] && id != o[1] && id != o[2] && id != o[3] && id != o[4] && id != o[5]) by {
        if id == o[0] { assert(o.contains(id)); }
        if id == o[1] { assert(o.contains(id)); }
        if id == o[2] { assert(o.contains(id)); }
        if id == o[3] { assert(o.contains(id)); }
        if id == o[4] { assert(o.contains(id)); }
        if id == o[5] { assert(o.contains(id)); }
    }
}

proof fn lema_pesos_crescem(ss: Seq<Suspeito>)
    ensures
        forall|a: int, b: int|
            0 <= a < b < por_evidencia(ss).len() ==> peso((#[trigger] por_evidencia(ss)[a]).id@) <= peso(
                (#[trigger] por_evidencia(ss)[b]).id@,
            ),
{
    let a0 = do_peso(ss, 0);
    let a1 = do_peso(ss, 1);
    let a2 = do_peso(ss, 2);
    let a3 = do_peso(ss, 3);
    let a4 = do_peso(ss, 4);
    let a5 = do_peso(ss, 5);
    let a9 = do_peso(ss, 9);
    lema_do_peso_so_tem_o_peso(ss, 0);
    lema_do_peso_so_tem_o_peso(ss, 1);
    lema_do_peso_so_tem_o_peso(ss, 2);
    lema_do_peso_so_tem_o_peso(ss, 3);
    lema_do_peso_so_tem_o_peso(ss, 4);
    lema_do_peso_so_tem_o_peso(ss, 5);
    lema_do_peso_so_tem_o_peso(ss, 9);
    let r = por_evidencia(ss);
    let n0 = a0.len() as int;
    let n1 = n0 + a1.len();
    let n2 = n1 + a2.len();
    let n3 = n2 + a3.len();
    let n4 = n3 + a4.len();
    let n5 = n4 + a5.len();
    assert forall|i: int| 0 <= i < r.len() implies peso((#[trigger] r[i]).id@) == if i < n0 {
        0int
    } else if i < n1 {
        1int
    } else if i < n2 {
        2int
    } else if i < n3 {
        3int
    } else if i < n4 {
        4int
    } else if i < n5 {
        5int
    } else {
        9int
    } by {
        if i < n0 {
            assert(r[i] == a0[i]);
        } else if i < n1 {
            assert(r[i] == a1[i - n0]);
        } else if i < n2 {
            assert(r[i] == a2[i - n1]);
        } else if i < n3 {
            assert(r[i] == a3[i - n2]);
        } else if i < n4 {
            assert(r[i] == a4[i - n3]);
        } else if i < n5 {
            assert(r[i] == a5[i - n4]);
        } else {
            assert(r[i] == a9[i - n5]);
        }
    }
}

/// A ordem dos suspeitos é a da força da evidência, fixa: o próprio Otimiza, depois o limite ativo, a memória de
/// vídeo curta, o jogo em disco mecânico, o PCIe estreito, a memória abaixo do que tem, e por último qualquer
/// outro. Nenhum suspeito aparece depois de um que vem mais abaixo nessa lista, e nenhum ordenar perde ou
/// inventa suspeito.
pub proof fn lei_ordem_fixa_dos_suspeitos(ss: Seq<Suspeito>)
    ensures
        por_evidencia(ss).to_multiset() == ss.to_multiset(),
        ({
            let o = seq![
                "foi_o_otimiza"@,
                "limite_ativo"@,
                "vram_curta"@,
                "jogo_em_disco_mecanico"@,
                "pcie_estreito"@,
                "memoria_abaixo_do_que_tem"@,
            ];
            &&& forall|a: int, b: int, i: int, j: int|
                0 <= a < b < por_evidencia(ss).len() && 0 <= i < j < 6 ==> !((#[trigger] por_evidencia(ss)[a]).id@
                    == #[trigger] o[j] && (#[trigger] por_evidencia(ss)[b]).id@ == #[trigger] o[i])
            &&& forall|a: int, b: int|
                0 <= a < b < por_evidencia(ss).len() && !o.contains((#[trigger] por_evidencia(ss)[a]).id@) ==> !o.contains(
                    (#[trigger] por_evidencia(ss)[b]).id@,
                )
        }),
{
    assert(ids_em_ordem() =~= seq![
        "foi_o_otimiza"@,
        "limite_ativo"@,
        "vram_curta"@,
        "jogo_em_disco_mecanico"@,
        "pcie_estreito"@,
        "memoria_abaixo_do_que_tem"@,
    ]);
    lei_ordenar_permuta_e_otimiza_primeiro(ss);
    lema_pesos_crescem(ss);
    lema_pesos_dos_ids();
    let r = por_evidencia(ss);
    assert forall|a: int, b: int|
        0 <= a < b < r.len() && !ids_em_ordem().contains((#[trigger] r[a]).id@) implies !ids_em_ordem().contains(
        (#[trigger] r[b]).id@,
    ) by {
        lema_fora_da_lista_pesa_nove(r[a].id@);
        if ids_em_ordem().contains(r[b].id@) {
            let k = choose|k: int| 0 <= k < ids_em_ordem().len() && ids_em_ordem()[k] == r[b].id@;
            assert(peso(ids_em_ordem()[k]) == k);
        }
    }
}

pub fn ordenar(suspeitos: Vec<Suspeito>) -> (r: Vec<Suspeito>)
    ensures
        r@ == por_evidencia(suspeitos@),
{
    let ghost entrada = suspeitos@;
    let mut resto = suspeitos;
    let total = resto.len();
    let mut p0: Vec<Suspeito> = Vec::new();
    let mut p1: Vec<Suspeito> = Vec::new();
    let mut p2: Vec<Suspeito> = Vec::new();
    let mut p3: Vec<Suspeito> = Vec::new();
    let mut p4: Vec<Suspeito> = Vec::new();
    let mut p5: Vec<Suspeito> = Vec::new();
    let mut p9: Vec<Suspeito> = Vec::new();
    let mut feitos: usize = 0;
    while resto.len() > 0
        invariant
            total == entrada.len(),
            feitos + resto@.len() == entrada.len(),
            resto@ == entrada.skip(feitos as int),
            p0@ == do_peso(entrada.take(feitos as int), 0),
            p1@ == do_peso(entrada.take(feitos as int), 1),
            p2@ == do_peso(entrada.take(feitos as int), 2),
            p3@ == do_peso(entrada.take(feitos as int), 3),
            p4@ == do_peso(entrada.take(feitos as int), 4),
            p5@ == do_peso(entrada.take(feitos as int), 5),
            p9@ == do_peso(entrada.take(feitos as int), 9),
        decreases resto@.len(),
    {
        assert(entrada.take(feitos + 1).drop_last() =~= entrada.take(feitos as int));
        assert(entrada.take(feitos + 1).last() == entrada[feitos as int]);
        assert(resto@[0] == entrada[feitos as int]);
        let s = resto.remove(0);
        assert(resto@ =~= entrada.skip(feitos + 1));
        let w = peso_exec(s.id.as_str());
        if w == 0 {
            p0.push(s);
        } else if w == 1 {
            p1.push(s);
        } else if w == 2 {
            p2.push(s);
        } else if w == 3 {
            p3.push(s);
        } else if w == 4 {
            p4.push(s);
        } else if w == 5 {
            p5.push(s);
        } else {
            p9.push(s);
        }
        feitos = feitos + 1;
    }
    assert(entrada.take(entrada.len() as int) =~= entrada);
    p0.append(&mut p1);
    p0.append(&mut p2);
    p0.append(&mut p3);
    p0.append(&mut p4);
    p0.append(&mut p5);
    p0.append(&mut p9);
    assert(p0@ =~= por_evidencia(entrada));
    p0
}

/// "Não é está tudo bem: é não achei nenhuma destas causas", e com lacuna a lista se declara incompleta.
pub open spec fn spec_nada_encontrado(lacunas: nat) -> Seq<char> {
    "Nenhuma das causas conhecidas de FPS baixo foi encontrada aqui: memória de vídeo \
     curta, jogo em disco mecânico, faixas de PCI Express estreitas, memória abaixo da \
     velocidade nominal ou em canal único, e limite de temperatura ou energia ativo. \
     Isso não quer dizer que o FPS esteja bom — quer dizer que o motivo não é nenhum \
     destes cinco."@ + if lacunas > 0 {
        " E "@ + decimal(lacunas) + " verificação"@ + (if lacunas == 1 {
            ""@
        } else {
            "ões"@
        }) + " não pôde ser feita nesta máquina, então a lista \
             acima não é completa."@
    } else {
        seq![]
    }
}

pub fn nada_encontrado(lacunas: usize) -> (r: String)
    ensures
        r@ == spec_nada_encontrado(lacunas as nat),
{
    let mut v: Vec<char> = chars_of(
        "Nenhuma das causas conhecidas de FPS baixo foi encontrada aqui: memória de vídeo \
         curta, jogo em disco mecânico, faixas de PCI Express estreitas, memória abaixo da \
         velocidade nominal ou em canal único, e limite de temperatura ou energia ativo. \
         Isso não quer dizer que o FPS esteja bom — quer dizer que o motivo não é nenhum \
         destes cinco.",
    );
    if lacunas > 0 {
        anexar(&mut v, " E ");
        push_decimal(&mut v, lacunas as u64);
        anexar(&mut v, " verificação");
        if lacunas == 1 {
            anexar(&mut v, "");
        } else {
            anexar(&mut v, "ões");
        }
        anexar(
            &mut v,
            " não pôde ser feita nesta máquina, então a lista \
             acima não é completa.",
        );
    }
    assert(v@ =~= spec_nada_encontrado(lacunas as nat));
    string_of(v.as_slice())
}

/// Os trechos de algarismos ASCII de `s`, a partir do trecho `cur` já começado: o que sobra de dividir o texto
/// em todo caractere que não é algarismo e jogar fora os pedaços vazios.
pub open spec fn trechos_acc(s: Seq<char>, cur: Seq<char>) -> Seq<Seq<char>>
    decreases s.len(),
{
    if s.len() == 0 {
        if cur.len() == 0 {
            seq![]
        } else {
            seq![cur]
        }
    } else if !is_digit(s[0]) {
        (if cur.len() == 0 {
            seq![]
        } else {
            seq![cur]
        }) + trechos_acc(s.drop_first(), seq![])
    } else {
        trechos_acc(s.drop_first(), cur.push(s[0]))
    }
}

pub open spec fn trechos(s: Seq<char>) -> Seq<Seq<char>> {
    trechos_acc(s, seq![])
}

/// Os trechos que se leem como `u32`, na ordem.
pub open spec fn numeros(ts: Seq<Seq<char>>) -> Seq<u32>
    decreases ts.len(),
{
    if ts.len() == 0 {
        seq![]
    } else {
        match parse_u32(ts.last()) {
            Some(n) => numeros(ts.drop_last()).push(n),
            None => numeros(ts.drop_last()),
        }
    }
}

fn trechos_exec(s: &[char]) -> (r: Vec<Vec<char>>)
    ensures
        views(r@) == trechos(s@),
{
    let mut res: Vec<Vec<char>> = Vec::new();
    let mut cur: Vec<char> = Vec::new();
    let mut i: usize = 0;
    assert(s@.skip(0) =~= s@);
    assert(views(res@) =~= Seq::<Seq<char>>::empty());
    while i < s.len()
        invariant
            0 <= i <= s@.len(),
            trechos(s@) == views(res@) + trechos_acc(s@.skip(i as int), cur@),
        decreases s@.len() - i,
    {
        let ghost rest = s@.skip(i as int);
        let ghost old_res = res@;
        let ghost old_cur = cur@;
        assert(rest.drop_first() =~= s@.skip(i + 1));
        assert(rest[0] == s@[i as int]);
        if !('0' <= s[i] && s[i] <= '9') {
            assert(trechos_acc(rest, old_cur) == (if old_cur.len() == 0 {
                Seq::<Seq<char>>::empty()
            } else {
                seq![old_cur]
            }) + trechos_acc(s@.skip(i + 1), seq![]));
            if cur.len() > 0 {
                res.push(cur);
                assert(views(res@) =~= views(old_res).push(old_cur));
                assert(views(old_res) + (seq![old_cur] + trechos_acc(s@.skip(i + 1), seq![])) =~= views(res@)
                    + trechos_acc(s@.skip(i + 1), seq![]));
            } else {
                assert(views(old_res) + (Seq::<Seq<char>>::empty() + trechos_acc(s@.skip(i + 1), seq![]))
                    =~= views(res@) + trechos_acc(s@.skip(i + 1), seq![]));
            }
            cur = Vec::new();
        } else {
            cur.push(s[i]);
            assert(trechos_acc(rest, old_cur) == trechos_acc(s@.skip(i + 1), cur@));
        }
        i = i + 1;
    }
    assert(s@.skip(i as int) =~= Seq::<char>::empty());
    if cur.len() > 0 {
        let ghost old_res = res@;
        let ghost c = cur@;
        res.push(cur);
        assert(views(res@) =~= views(old_res).push(c));
        assert(views(old_res) + seq![c] =~= views(res@));
    } else {
        assert(views(res@) + Seq::<Seq<char>>::empty() =~= views(res@));
    }
    res
}

pub open spec fn spec_dois_numeros(texto: Seq<char>) -> Option<(u32, u32)> {
    let ns = numeros(trechos(texto));
    if ns.len() >= 2 {
        Some((ns[0], ns[1]))
    } else {
        None
    }
}

/// Os dois primeiros números de uma frase ("Rodando a 2133 MHz; o pente é de 3200 MHz.").
pub fn dois_numeros(texto: &str) -> (r: Option<(u32, u32)>)
    ensures
        r == spec_dois_numeros(texto@),
{
    let cs = chars_of(texto);
    let ts = trechos_exec(cs.as_slice());
    let ghost vs = views(ts@);
    let mut ns: Vec<u32> = Vec::new();
    let mut i: usize = 0;
    while i < ts.len()
        invariant
            0 <= i <= ts@.len(),
            vs == views(ts@),
            ns@ == numeros(vs.take(i as int)),
        decreases ts@.len() - i,
    {
        assert(vs.take(i + 1).drop_last() =~= vs.take(i as int));
        assert(vs.take(i + 1).last() == ts@[i as int]@);
        match parse_u32_exec(ts[i].as_slice()) {
            Some(n) => ns.push(n),
            None => {},
        }
        i = i + 1;
    }
    assert(vs.take(ts@.len() as int) =~= vs);
    if ns.len() >= 2 {
        Some((ns[0], ns[1]))
    } else {
        None
    }
}

} // verus!
