//! Tempo de inicialização e quem o atrasou, medidos pelo próprio Windows (eventos 100 e 101), lidos pelos campos
//! estruturados e nunca pela mensagem traduzida. Log vazio ou sem administrador não é "seu boot está ótimo".

use vstd::prelude::*;
use crate::ordem::{antes, lema_antes_irreflexivo, lema_antes_total, lema_antes_transitivo, vem_antes};
use crate::texto::{anexar, chars_of, decimal, parse_u32, parse_u32_exec, push_decimal, same_chars, string_of, trim, trim_chars};

verus! {

broadcast use {vstd::string::group_string_axioms, vstd::seq_lib::group_seq_properties};

#[derive(Debug, Clone)]
pub struct BootMeasurement {
    pub when: String,
    pub total_ms: u64,
    pub main_path_ms: u64,
    /// Quase sempre a maior fatia: "liga mas não dá para usar".
    pub post_boot_ms: u64,
    pub instance: u32,
    pub degraded: bool,
}

#[derive(Debug, Clone)]
pub struct BootCulprit {
    pub name: String,
    pub path: String,
    pub total_ms: u64,
    pub degradation_ms: u64,
}

/// O tipo de cada inicialização, legível SEM administrador; responde "reiniciei e não melhorou".
#[derive(Debug, Clone, Copy, PartialEq, Eq, Structural)]
pub enum BootType {
    Full,
    /// O Windows não desligou: hibernou o núcleo e restaurou. Nada que dependa de reiniciar vale aqui.
    FastStartup,
    Resume,
}

#[derive(Debug, Clone)]
pub struct BootReport {
    pub needs_admin: bool,
    pub last: Option<BootMeasurement>,
    pub history: Vec<BootMeasurement>,
    pub culprits: Vec<BootCulprit>,
    pub recent_types: Vec<(String, BootType)>,
    /// `false` quando a leitura falhou: aí "nenhum programa atrasando" não pode ser dito.
    pub culpados_lidos: bool,
    pub note: String,
    pub firmware_ms: Option<u64>,
}

/// Caractere de controle: a categoria `Cc` do Unicode, como `char::is_control` a testa.
pub open spec fn eh_controle(c: char) -> bool {
    c <= '\u{1f}' || ('\u{7f}' <= c && c <= '\u{9f}')
}

/// Os caracteres que não são de controle, na ordem.
pub open spec fn sem_controle(s: Seq<char>) -> Seq<char>
    decreases s.len(),
{
    if s.len() == 0 {
        seq![]
    } else if eh_controle(s.last()) {
        sem_controle(s.drop_last())
    } else {
        sem_controle(s.drop_last()).push(s.last())
    }
}

pub open spec fn no_maximo(s: Seq<char>, n: nat) -> Seq<char> {
    if s.len() > n {
        s.take(n as int)
    } else {
        s
    }
}

/// Nome e empresa do executável são texto arbitrário e vão para a tela e o relatório: sem caractere de controle,
/// no máximo 80 caracteres, sem branco nas pontas.
pub open spec fn spec_limpar(bruto: Seq<char>) -> Seq<char> {
    trim(no_maximo(sem_controle(bruto), 80))
}

proof fn lema_sem_controle_cresce(s: Seq<char>, i: int)
    requires
        0 <= i < s.len(),
    ensures
        sem_controle(s.take(i + 1)) == if eh_controle(s[i]) {
            sem_controle(s.take(i))
        } else {
            sem_controle(s.take(i)).push(s[i])
        },
{
    assert(s.take(i + 1).drop_last() =~= s.take(i));
}

proof fn lema_sem_controle_prefixo(s: Seq<char>, i: int, j: int)
    requires
        0 <= i <= j <= s.len(),
    ensures
        sem_controle(s.take(i)).len() <= sem_controle(s.take(j)).len(),
        sem_controle(s.take(j)).take(sem_controle(s.take(i)).len() as int) == sem_controle(s.take(i)),
    decreases j - i,
{
    if i < j {
        lema_sem_controle_prefixo(s, i, j - 1);
        lema_sem_controle_cresce(s, j - 1);
        let a = sem_controle(s.take(i));
        let b = sem_controle(s.take(j - 1));
        assert(b.push(s[j - 1]).take(a.len() as int) =~= b.take(a.len() as int));
    }
}

proof fn lema_sem_controle_limpo(s: Seq<char>)
    ensures
        sem_controle(s).len() <= s.len(),
        forall|k: int| 0 <= k < sem_controle(s).len() ==> !eh_controle(#[trigger] sem_controle(s)[k]),
    decreases s.len(),
{
    if s.len() > 0 {
        lema_sem_controle_limpo(s.drop_last());
    }
}

/// O que `limpar` devolve não tem caractere de controle, tem no máximo 80 caracteres e já está sem branco nas
/// pontas.
pub proof fn lei_limpo_e_curto_e_aparado(bruto: Seq<char>)
    ensures
        spec_limpar(bruto).len() <= 80,
        forall|k: int| 0 <= k < spec_limpar(bruto).len() ==> !eh_controle(#[trigger] spec_limpar(bruto)[k]),
        crate::texto::trim(spec_limpar(bruto)) == spec_limpar(bruto),
{
    let c = sem_controle(bruto);
    lema_sem_controle_limpo(bruto);
    let m = no_maximo(c, 80);
    crate::texto::lemma_trim_sem_pontas(m);
    let t = crate::texto::trim(m);
    let i = choose|i: int| 0 <= i <= m.len() - t.len() && t == #[trigger] m.subrange(i, i + t.len());
    assert forall|k: int| 0 <= k < t.len() implies !eh_controle(#[trigger] t[k]) by {
        assert(t[k] == m[i + k]);
        assert(m[i + k] == c[i + k]);
    }
}

pub fn limpar(bruto: &str) -> (r: String)
    ensures
        r@ == spec_limpar(bruto@),
{
    let cs = chars_of(bruto);
    let mut v: Vec<char> = Vec::new();
    let mut i: usize = 0;
    while i < cs.len() && v.len() < 80
        invariant
            0 <= i <= cs@.len(),
            cs@ == bruto@,
            v@ == sem_controle(cs@.take(i as int)),
            v@.len() <= 80,
        decreases cs@.len() - i,
    {
        proof {
            lema_sem_controle_cresce(cs@, i as int);
        }
        let c = cs[i];
        if !(c <= '\u{1f}' || ('\u{7f}' <= c && c <= '\u{9f}')) {
            v.push(c);
        }
        i = i + 1;
    }
    proof {
        assert(cs@.take(cs@.len() as int) =~= cs@);
        lema_sem_controle_prefixo(cs@, i as int, cs@.len() as int);
        if i < cs@.len() {
            assert(v@.len() == 80);
            assert(no_maximo(sem_controle(bruto@), 80) =~= v@);
        } else {
            assert(no_maximo(sem_controle(bruto@), 80) =~= v@);
        }
    }
    let t = trim_chars(v.as_slice());
    string_of(t.as_slice())
}

pub open spec fn spec_tipo_do_codigo(codigo: u32) -> Option<BootType> {
    if codigo == 0 {
        Some(BootType::Full)
    } else if codigo == 1 {
        Some(BootType::FastStartup)
    } else if codigo == 2 {
        Some(BootType::Resume)
    } else {
        None
    }
}

pub fn tipo_do_codigo(codigo: u32) -> (r: Option<BootType>)
    ensures
        r == spec_tipo_do_codigo(codigo),
{
    match codigo {
        0 => Some(BootType::Full),
        1 => Some(BootType::FastStartup),
        2 => Some(BootType::Resume),
        _ => None,
    }
}

pub open spec fn nota_sem_admin() -> Seq<char> {
    "O Windows guarda o tempo de inicialização num log protegido, que só \
     pode ser lido como administrador. Reabra o Otimiza com permissão para \
     ver quanto o seu PC demora para ligar e quais programas atrasam."@
}

pub open spec fn nota_sem_medicao() -> Seq<char> {
    "O Windows não registrou nenhuma medição de inicialização nesta \
     máquina. Acontece: o coletor de desempenho de boot para de gravar \
     em parte dos PCs, e não há como forçá-lo. Não temos como dizer \
     quanto o seu boot demora, e não vamos inventar um número."@
}

pub open spec fn aviso_rapida_sem_medicao() -> Seq<char> {
    " Também vale saber que a Inicialização Rápida está ligada aqui, e ela \
     reduz o que o Windows mede."@
}

pub open spec fn nota_medida() -> Seq<char> {
    "Números medidos pelo próprio Windows a cada inicialização, não estimados por nós."@
}

/// " Atenção: {rapidas} das últimas {total} inicializações foram por Inicialização Rápida, ...".
pub open spec fn aviso_rapidas(rapidas: nat, total: nat) -> Seq<char> {
    " Atenção: "@ + decimal(rapidas) + " das últimas "@ + decimal(total)
        + " inicializações foram por Inicialização Rápida, \
         em que o Windows não desliga de fato — ele guarda o núcleo do sistema e \
         restaura. Por isso mudança que exige reiniciar às vezes só vale depois de um \
         desligamento completo."@
}

/// Ausência de dado é dita como é, nunca como boa notícia.
pub open spec fn spec_nota(elevado: bool, tem_medicao: bool, rapidas: nat, total_tipos: nat) -> Seq<char> {
    if !elevado {
        nota_sem_admin()
    } else if !tem_medicao {
        nota_sem_medicao() + if rapidas > 0 {
            aviso_rapida_sem_medicao()
        } else {
            seq![]
        }
    } else {
        nota_medida() + if rapidas > 0 && total_tipos > 0 {
            aviso_rapidas(rapidas, total_tipos)
        } else {
            seq![]
        }
    }
}

pub fn montar_nota(elevado: bool, tem_medicao: bool, rapidas: usize, total_tipos: usize) -> (r: String)
    ensures
        r@ == spec_nota(elevado, tem_medicao, rapidas as nat, total_tipos as nat),
{
    if !elevado {
        return "O Windows guarda o tempo de inicialização num log protegido, que só \
                pode ser lido como administrador. Reabra o Otimiza com permissão para \
                ver quanto o seu PC demora para ligar e quais programas atrasam.".to_string();
    }
    let mut v: Vec<char> = Vec::new();
    if !tem_medicao {
        anexar(
            &mut v,
            "O Windows não registrou nenhuma medição de inicialização nesta \
             máquina. Acontece: o coletor de desempenho de boot para de gravar \
             em parte dos PCs, e não há como forçá-lo. Não temos como dizer \
             quanto o seu boot demora, e não vamos inventar um número.",
        );
        if rapidas > 0 {
            anexar(
                &mut v,
                " Também vale saber que a Inicialização Rápida está ligada aqui, e ela \
                 reduz o que o Windows mede.",
            );
        }
        assert(v@ =~= spec_nota(elevado, tem_medicao, rapidas as nat, total_tipos as nat));
        return string_of(v.as_slice());
    }
    anexar(&mut v, "Números medidos pelo próprio Windows a cada inicialização, não estimados por nós.");
    if rapidas > 0 && total_tipos > 0 {
        anexar(&mut v, " Atenção: ");
        push_decimal(&mut v, rapidas as u64);
        anexar(&mut v, " das últimas ");
        push_decimal(&mut v, total_tipos as u64);
        anexar(
            &mut v,
            " inicializações foram por Inicialização Rápida, \
             em que o Windows não desliga de fato — ele guarda o núcleo do sistema e \
             restaura. Por isso mudança que exige reiniciar às vezes só vale depois de um \
             desligamento completo.",
        );
    }
    assert(v@ =~= spec_nota(elevado, tem_medicao, rapidas as nat, total_tipos as nat));
    string_of(v.as_slice())
}

/// Um evento 27 (tipo de inicialização) como os campos estruturados o trazem.
#[derive(Debug, Clone)]
pub struct TipoLido {
    pub when: Option<String>,
    pub kind: Option<String>,
}

/// Um evento 100 (uma inicialização medida), com os tempos já lidos como número.
#[derive(Debug, Clone)]
pub struct BootLido {
    pub when: Option<String>,
    pub total_ms: u64,
    pub main_path_ms: u64,
    pub post_boot_ms: u64,
    pub instance: u64,
    pub degradation: Option<String>,
}

/// Um evento 101 (um programa que atrasou a inicialização), com os tempos já lidos como número.
#[derive(Debug, Clone)]
pub struct CulpadoLido {
    pub name: Option<String>,
    pub path: Option<String>,
    pub total_ms: u64,
    pub degradation_ms: u64,
}

pub open spec fn texto_ou_vazio(o: Option<String>) -> Seq<char> {
    match o {
        Some(s) => s@,
        None => seq![],
    }
}

/// O tipo de um evento, quando o código se lê e é conhecido.
pub open spec fn tipo_lido(t: TipoLido) -> Option<BootType> {
    match t.kind {
        Some(k) => match parse_u32(trim(k@)) {
            Some(codigo) => spec_tipo_do_codigo(codigo),
            None => None,
        },
        None => None,
    }
}

/// Os tipos legíveis, na ordem dos eventos.
pub open spec fn tipos(lidos: Seq<TipoLido>) -> Seq<(Seq<char>, BootType)>
    decreases lidos.len(),
{
    if lidos.len() == 0 {
        seq![]
    } else {
        let antes = tipos(lidos.drop_last());
        match tipo_lido(lidos.last()) {
            Some(t) => antes.push((texto_ou_vazio(lidos.last().when), t)),
            None => antes,
        }
    }
}

pub open spec fn tipos_vistos(v: Seq<(String, BootType)>) -> Seq<(Seq<char>, BootType)> {
    v.map_values(|p: (String, BootType)| (p.0@, p.1))
}

fn texto_de(o: &Option<String>) -> (r: String)
    ensures
        r@ == texto_ou_vazio(*o),
{
    match o {
        Some(s) => s.clone(),
        None => String::new(),
    }
}

/// Os tipos das inicializações recentes que se deixam ler.
pub fn tipos_recentes(lidos: &[TipoLido]) -> (r: Vec<(String, BootType)>)
    ensures
        tipos_vistos(r@) == tipos(lidos@),
{
    let mut r: Vec<(String, BootType)> = Vec::new();
    let mut i: usize = 0;
    while i < lidos.len()
        invariant
            0 <= i <= lidos@.len(),
            tipos_vistos(r@) == tipos(lidos@.take(i as int)),
        decreases lidos@.len() - i,
    {
        assert(lidos@.take(i + 1).drop_last() =~= lidos@.take(i as int));
        assert(lidos@.take(i + 1).last() == lidos@[i as int]);
        let t = &lidos[i];
        let tipo = match &t.kind {
            Some(k) => {
                let kc = chars_of(k.as_str());
                let limpo = trim_chars(kc.as_slice());
                match parse_u32_exec(limpo.as_slice()) {
                    Some(codigo) => tipo_do_codigo(codigo),
                    None => None,
                }
            },
            None => None,
        };
        match tipo {
            Some(b) => {
                let ghost velho = tipos_vistos(r@);
                let quando = texto_de(&t.when);
                r.push((quando, b));
                assert(tipos_vistos(r@) =~= velho.push((texto_ou_vazio(t.when), b)));
            },
            None => {},
        }
        i = i + 1;
    }
    assert(lidos@.take(lidos@.len() as int) =~= lidos@);
    r
}

/// Quantas das inicializações foram por Inicialização Rápida.
pub open spec fn rapidas(ts: Seq<(Seq<char>, BootType)>) -> nat
    decreases ts.len(),
{
    if ts.len() == 0 {
        0
    } else {
        rapidas(ts.drop_last()) + if ts.last().1 == BootType::FastStartup {
            1nat
        } else {
            0nat
        }
    }
}

fn contar_rapidas(ts: &Vec<(String, BootType)>) -> (r: usize)
    ensures
        r == rapidas(tipos_vistos(ts@)),
{
    let ghost vs = tipos_vistos(ts@);
    let mut n: usize = 0;
    let mut i: usize = 0;
    while i < ts.len()
        invariant
            0 <= i <= ts@.len(),
            vs == tipos_vistos(ts@),
            n == rapidas(vs.take(i as int)),
            n <= i,
        decreases ts@.len() - i,
    {
        assert(vs.take(i + 1).drop_last() =~= vs.take(i as int));
        assert(vs.take(i + 1).last() == vs[i as int]);
        if ts[i].1 == BootType::FastStartup {
            n = n + 1;
        }
        i = i + 1;
    }
    assert(vs.take(ts@.len() as int) =~= vs);
    n
}

/// A medição que um evento 100 vira: sem tempo total não há medição, e zero não é medição.
pub open spec fn medicao_certa(m: BootMeasurement, b: BootLido) -> bool {
    &&& m.when@ == texto_ou_vazio(b.when)
    &&& m.total_ms == b.total_ms
    &&& m.main_path_ms == b.main_path_ms
    &&& m.post_boot_ms == b.post_boot_ms
    &&& m.instance == b.instance as u32
    &&& m.degraded == (b.degradation is Some && b.degradation->0@ == "true"@)
}

/// Os eventos com tempo total, na ordem lida.
pub open spec fn com_tempo(lidos: Seq<BootLido>) -> Seq<BootLido>
    decreases lidos.len(),
{
    if lidos.len() == 0 {
        seq![]
    } else if lidos.last().total_ms == 0 {
        com_tempo(lidos.drop_last())
    } else {
        com_tempo(lidos.drop_last()).push(lidos.last())
    }
}

/// O histórico de inicializações medidas.
pub fn historico(lidos: &[BootLido]) -> (r: Vec<BootMeasurement>)
    ensures
        r@.len() == com_tempo(lidos@).len(),
        forall|k: int| 0 <= k < r@.len() ==> medicao_certa(#[trigger] r@[k], com_tempo(lidos@)[k]),
{
    let mut r: Vec<BootMeasurement> = Vec::new();
    let mut i: usize = 0;
    while i < lidos.len()
        invariant
            0 <= i <= lidos@.len(),
            r@.len() == com_tempo(lidos@.take(i as int)).len(),
            forall|k: int| 0 <= k < r@.len() ==> medicao_certa(#[trigger] r@[k], com_tempo(lidos@.take(i as int))[k]),
        decreases lidos@.len() - i,
    {
        assert(lidos@.take(i + 1).drop_last() =~= lidos@.take(i as int));
        assert(lidos@.take(i + 1).last() == lidos@[i as int]);
        let b = &lidos[i];
        if b.total_ms > 0 {
            let degraded = match &b.degradation {
                Some(d) => {
                    let dc = chars_of(d.as_str());
                    let verdade = chars_of("true");
                    same_chars(dc.as_slice(), verdade.as_slice())
                },
                None => false,
            };
            let m = BootMeasurement {
                when: texto_de(&b.when),
                total_ms: b.total_ms,
                main_path_ms: b.main_path_ms,
                post_boot_ms: b.post_boot_ms,
                instance: b.instance as u32,
                degraded,
            };
            r.push(m);
        }
        i = i + 1;
    }
    assert(lidos@.take(lidos@.len() as int) =~= lidos@);
    r
}

fn copia_medicao(m: &BootMeasurement) -> (r: BootMeasurement)
    ensures
        r == *m,
{
    BootMeasurement {
        when: m.when.clone(),
        total_ms: m.total_ms,
        main_path_ms: m.main_path_ms,
        post_boot_ms: m.post_boot_ms,
        instance: m.instance,
        degraded: m.degraded,
    }
}

fn copia_culpado(c: &BootCulprit) -> (r: BootCulprit)
    ensures
        r == *c,
{
    BootCulprit { name: c.name.clone(), path: c.path.clone(), total_ms: c.total_ms, degradation_ms: c.degradation_ms }
}

/// O culpado que um evento 101 vira, quando tem tempo e nome.
pub open spec fn candidato(c: CulpadoLido) -> Option<(Seq<char>, Seq<char>, u64, u64)> {
    let nome = spec_limpar(texto_ou_vazio(c.name));
    if c.total_ms == 0 || nome.len() == 0 {
        None
    } else {
        Some((nome, spec_limpar(texto_ou_vazio(c.path)), c.total_ms, c.degradation_ms))
    }
}

pub open spec fn candidatos(lidos: Seq<CulpadoLido>) -> Seq<(Seq<char>, Seq<char>, u64, u64)>
    decreases lidos.len(),
{
    if lidos.len() == 0 {
        seq![]
    } else {
        match candidato(lidos.last()) {
            Some(c) => candidatos(lidos.drop_last()).push(c),
            None => candidatos(lidos.drop_last()),
        }
    }
}

pub open spec fn visto(c: BootCulprit) -> (Seq<char>, Seq<char>, u64, u64) {
    (c.name@, c.path@, c.total_ms, c.degradation_ms)
}

pub open spec fn vistos(cs: Seq<BootCulprit>) -> Seq<(Seq<char>, Seq<char>, u64, u64)> {
    cs.map_values(|c: BootCulprit| visto(c))
}

fn lista_candidatos(lidos: &[CulpadoLido]) -> (r: Vec<BootCulprit>)
    ensures
        vistos(r@) == candidatos(lidos@),
{
    let mut r: Vec<BootCulprit> = Vec::new();
    let mut i: usize = 0;
    while i < lidos.len()
        invariant
            0 <= i <= lidos@.len(),
            vistos(r@) == candidatos(lidos@.take(i as int)),
        decreases lidos@.len() - i,
    {
        assert(lidos@.take(i + 1).drop_last() =~= lidos@.take(i as int));
        assert(lidos@.take(i + 1).last() == lidos@[i as int]);
        let c = &lidos[i];
        let nome_bruto = texto_de(&c.name);
        let name = limpar(nome_bruto.as_str());
        let name_chars = chars_of(name.as_str());
        if c.total_ms > 0 && name_chars.len() > 0 {
            let caminho_bruto = texto_de(&c.path);
            let path = limpar(caminho_bruto.as_str());
            let ghost velho = vistos(r@);
            let novo = BootCulprit { name, path, total_ms: c.total_ms, degradation_ms: c.degradation_ms };
            r.push(novo);
            assert(vistos(r@) =~= velho.push(visto(novo)));
        }
        i = i + 1;
    }
    assert(lidos@.take(lidos@.len() as int) =~= lidos@);
    r
}

/// Fica o pior caso de cada programa, que é o que o cliente sente no dia ruim: o de maior tempo entre os do mesmo
/// caminho, e o primeiro deles no empate. Sem caminho não há como juntar, e cada um fica.
pub open spec fn vence(c: Seq<(Seq<char>, Seq<char>, u64, u64)>, i: int) -> bool {
    c[i].1.len() == 0 || forall|j: int|
        0 <= j < c.len() && #[trigger] c[j].1 == c[i].1 ==> (c[j].2 < c[i].2 || (c[j].2 == c[i].2 && i <= j))
}

/// `i` aparece antes de `j` na lista final: maior tempo primeiro; no empate, o caminho em ordem alfabética; e,
/// com o mesmo caminho, a ordem em que vieram.
pub open spec fn vem_primeiro(c: Seq<(Seq<char>, Seq<char>, u64, u64)>, i: int, j: int) -> bool {
    ||| c[i].2 > c[j].2
    ||| (c[i].2 == c[j].2 && antes(c[i].1, c[j].1))
    ||| (c[i].2 == c[j].2 && c[i].1 == c[j].1 && i < j)
}

/// Os até 12 piores, um por programa, do pior para o menor.
pub open spec fn selecao_certa(c: Seq<(Seq<char>, Seq<char>, u64, u64)>, idx: Seq<int>) -> bool {
    &&& idx.len() <= 12
    &&& forall|k: int| 0 <= k < idx.len() ==> 0 <= #[trigger] idx[k] < c.len() && vence(c, idx[k])
    &&& forall|a: int, b: int| 0 <= a < b < idx.len() ==> vem_primeiro(c, #[trigger] idx[a], #[trigger] idx[b])
    &&& forall|w: int|
        0 <= w < c.len() && vence(c, w) ==> idx.contains(w) || (idx.len() == 12 && forall|k: int|
            0 <= k < idx.len() ==> vem_primeiro(c, #[trigger] idx[k], w))
}

proof fn lema_ordem_estrita(c: Seq<(Seq<char>, Seq<char>, u64, u64)>, i: int, j: int, k: int)
    ensures
        !vem_primeiro(c, i, i),
        vem_primeiro(c, i, j) && vem_primeiro(c, j, k) ==> vem_primeiro(c, i, k),
        i != j ==> vem_primeiro(c, i, j) || vem_primeiro(c, j, i),
        vem_primeiro(c, i, j) ==> !vem_primeiro(c, j, i),
{
    lema_antes_irreflexivo(c[i].1);
    if c[i].1 != c[j].1 {
        lema_antes_total(c[i].1, c[j].1);
    }
    if antes(c[i].1, c[j].1) && antes(c[j].1, c[i].1) {
        lema_antes_transitivo(c[i].1, c[j].1, c[i].1);
    }
    if antes(c[i].1, c[j].1) && antes(c[j].1, c[k].1) {
        lema_antes_transitivo(c[i].1, c[j].1, c[k].1);
    }
}

fn vence_exec(c: &Vec<BootCulprit>, i: usize) -> (r: bool)
    requires
        i < c@.len(),
    ensures
        r == vence(vistos(c@), i as int),
{
    let ghost v = vistos(c@);
    let pi = chars_of(c[i].path.as_str());
    assert(v[i as int] == visto(c@[i as int]));
    if pi.len() == 0 {
        return true;
    }
    let mut j: usize = 0;
    while j < c.len()
        invariant
            0 <= j <= c@.len(),
            i < c@.len(),
            v == vistos(c@),
            pi@ == v[i as int].1,
            pi@.len() > 0,
            forall|t: int| 0 <= t < j && #[trigger] v[t].1 == v[i as int].1 ==> (v[t].2 < v[i as int].2 || (v[t].2
                == v[i as int].2 && i <= t)),
        decreases c@.len() - j,
    {
        let pj = chars_of(c[j].path.as_str());
        assert(v[j as int] == visto(c@[j as int]));
        if same_chars(pj.as_slice(), pi.as_slice()) {
            if c[j].total_ms > c[i].total_ms || (c[j].total_ms == c[i].total_ms && j < i) {
                assert(v[j as int] == visto(c@[j as int]) && v[i as int] == visto(c@[i as int]));
                assert(v[j as int].1 == v[i as int].1);
                assert(v[i as int].1.len() != 0);
                assert(!(v[j as int].2 < v[i as int].2 || (v[j as int].2 == v[i as int].2 && i <= j)));
                return false;
            }
        }
        j = j + 1;
    }
    true
}

fn vem_primeiro_exec(c: &Vec<BootCulprit>, i: usize, j: usize) -> (r: bool)
    requires
        i < c@.len(),
        j < c@.len(),
    ensures
        r == vem_primeiro(vistos(c@), i as int, j as int),
{
    let ghost v = vistos(c@);
    assert(v[i as int] == visto(c@[i as int]) && v[j as int] == visto(c@[j as int]));
    if c[i].total_ms != c[j].total_ms {
        return c[i].total_ms > c[j].total_ms;
    }
    let pi = chars_of(c[i].path.as_str());
    let pj = chars_of(c[j].path.as_str());
    if vem_antes(pi.as_slice(), pj.as_slice()) {
        return true;
    }
    same_chars(pi.as_slice(), pj.as_slice()) && i < j
}

pub open spec fn como_int(v: Seq<usize>) -> Seq<int> {
    v.map_values(|k: usize| k as int)
}

/// Os índices dos culpados que ficam, do pior para o menor, no máximo 12.
fn selecionar(c: &Vec<BootCulprit>) -> (idx: Vec<usize>)
    ensures
        selecao_certa(vistos(c@), como_int(idx@)),
{
    let ghost v = vistos(c@);
    let n = c.len();
    let mut venc: Vec<bool> = Vec::new();
    let mut i: usize = 0;
    while i < n
        invariant
            0 <= i <= n,
            n == c@.len(),
            v == vistos(c@),
            venc@.len() == i,
            forall|k: int| 0 <= k < i ==> venc@[k] == vence(v, k),
        decreases n - i,
    {
        venc.push(vence_exec(c, i));
        i = i + 1;
    }
    let mut idx: Vec<usize> = Vec::new();
    let mut acabou = false;
    while idx.len() < 12 && !acabou
        invariant
            n == c@.len(),
            v == vistos(c@),
            venc@.len() == n,
            forall|k: int| 0 <= k < n ==> venc@[k] == vence(v, k),
            idx@.len() <= 12,
            forall|k: int| 0 <= k < idx@.len() ==> (#[trigger] idx@[k]) < n && vence(v, idx@[k] as int),
            forall|a: int, b: int| 0 <= a < b < idx@.len() ==> vem_primeiro(v, #[trigger] idx@[a] as int, #[trigger] idx@[b] as int),
            forall|w: int| 0 <= w < n && vence(v, w) ==> como_int(idx@).contains(w) || forall|k: int|
                0 <= k < idx@.len() ==> vem_primeiro(v, #[trigger] idx@[k] as int, w),
            acabou ==> forall|w: int| 0 <= w < n && vence(v, w) ==> como_int(idx@).contains(w),
        decreases 12 - idx@.len() + (if acabou { 0int } else { 1int }),
    {
        let tem_ultimo = idx.len() > 0;
        let ultimo: usize = if tem_ultimo { idx[idx.len() - 1] } else { 0 };
        let mut melhor: Option<usize> = None;
        let mut j: usize = 0;
        while j < n
            invariant
                0 <= j <= n,
                n == c@.len(),
                v == vistos(c@),
                venc@.len() == n,
                forall|k: int| 0 <= k < n ==> venc@[k] == vence(v, k),
                tem_ultimo == (idx@.len() > 0),
                tem_ultimo ==> ultimo == idx@[idx@.len() - 1] && ultimo < n,
                match melhor {
                    Some(m) => m < j && vence(v, m as int) && (!tem_ultimo || vem_primeiro(v, ultimo as int, m as int))
                        && forall|t: int|
                        0 <= t < j && vence(v, t) && (!tem_ultimo || vem_primeiro(v, ultimo as int, t)) ==> t == m
                            || vem_primeiro(v, m as int, t),
                    None => forall|t: int|
                        0 <= t < j && vence(v, t) ==> !(!tem_ultimo || vem_primeiro(v, ultimo as int, t)),
                },
            decreases n - j,
        {
            let elegivel = venc[j] && (!tem_ultimo || vem_primeiro_exec(c, ultimo, j));
            if elegivel {
                match melhor {
                    Some(m) => {
                        if vem_primeiro_exec(c, j, m) {
                            proof {
                                assert forall|t: int|
                                    0 <= t < j + 1 && vence(v, t) && (!tem_ultimo || vem_primeiro(v, ultimo as int, t))
                                        implies t == j || vem_primeiro(v, j as int, t) by {
                                    lema_ordem_estrita(v, j as int, m as int, t);
                                }
                            }
                            melhor = Some(j);
                        } else {
                            proof {
                                lema_ordem_estrita(v, j as int, m as int, 0);
                            }
                        }
                    },
                    None => {
                        melhor = Some(j);
                    },
                }
            }
            j = j + 1;
        }
        match melhor {
            Some(m) => {
                proof {
                    let ghost antes_idx = idx@;
                    assert forall|a: int| 0 <= a < antes_idx.len() implies vem_primeiro(v, #[trigger] antes_idx[a] as int, m as int) by {
                        if a < antes_idx.len() - 1 {
                            lema_ordem_estrita(v, antes_idx[a] as int, ultimo as int, m as int);
                        }
                    }
                }
                let ghost velho = idx@;
                idx.push(m);
                proof {
                    assert(idx@ == velho.push(m));
                    assert forall|w: int| 0 <= w < n && vence(v, w) implies como_int(idx@).contains(w)
                        || forall|k: int| 0 <= k < idx@.len() ==> vem_primeiro(v, #[trigger] idx@[k] as int, w) by {
                        assert(como_int(idx@)[velho.len() as int] == m as int);
                        if como_int(velho).contains(w) {
                            let t = choose|t: int| 0 <= t < velho.len() && #[trigger] como_int(velho)[t] == w;
                            assert(como_int(idx@)[t] == w);
                        } else if w != m as int {
                            assert(!tem_ultimo || vem_primeiro(v, ultimo as int, w)) by {
                                if tem_ultimo {
                                    assert(vem_primeiro(v, velho[velho.len() - 1] as int, w));
                                }
                            }
                            lema_ordem_estrita(v, m as int, w, 0);
                            assert forall|k: int| 0 <= k < idx@.len() implies vem_primeiro(v, #[trigger] idx@[k] as int, w) by {
                                if k < velho.len() {
                                    lema_ordem_estrita(v, idx@[k] as int, m as int, w);
                                }
                            }
                        }
                    }
                }
            },
            None => {
                proof {
                    assert forall|w: int| 0 <= w < n && vence(v, w) implies como_int(idx@).contains(w) by {
                        if !como_int(idx@).contains(w) {
                            if tem_ultimo {
                                assert(vem_primeiro(v, idx@[idx@.len() - 1] as int, w));
                            }
                        }
                    }
                }
                acabou = true;
            },
        }
    }
    proof {
        let s = como_int(idx@);
        assert forall|a: int, b: int| 0 <= a < b < s.len() implies vem_primeiro(v, #[trigger] s[a], #[trigger] s[b]) by {
            assert(s[a] == idx@[a] as int && s[b] == idx@[b] as int);
        }
        assert forall|w: int| 0 <= w < v.len() && vence(v, w) implies s.contains(w) || (s.len() == 12 && forall|k: int|
            0 <= k < s.len() ==> vem_primeiro(v, #[trigger] s[k], w)) by {
            if !s.contains(w) {
                assert forall|k: int| 0 <= k < s.len() implies vem_primeiro(v, #[trigger] s[k], w) by {
                    assert(s[k] == idx@[k] as int);
                }
            }
        }
    }
    idx
}

/// Os programas que atrasaram a inicialização: um por caminho (o pior caso), do maior atraso para o menor, no
/// máximo 12.
pub fn culpados(lidos: &[CulpadoLido]) -> (r: Vec<BootCulprit>)
    ensures
        exists|idx: Seq<int>|
            selecao_certa(candidatos(lidos@), idx) && vistos(r@) == idx.map_values(|k: int| candidatos(lidos@)[k]),
{
    let c = lista_candidatos(lidos);
    let idx = selecionar(&c);
    let ghost v = vistos(c@);
    let ghost s = como_int(idx@);
    let mut r: Vec<BootCulprit> = Vec::new();
    let mut k: usize = 0;
    while k < idx.len()
        invariant
            0 <= k <= idx@.len(),
            v == vistos(c@),
            s == como_int(idx@),
            selecao_certa(v, s),
            vistos(r@) == s.take(k as int).map_values(|t: int| v[t]),
        decreases idx@.len() - k,
    {
        assert(s[k as int] == idx@[k as int] as int);
        let i = idx[k];
        let copia = copia_culpado(&c[i]);
        let ghost velho = vistos(r@);
        r.push(copia);
        assert(vistos(r@) =~= velho.push(v[i as int]));
        assert(s.take(k + 1).map_values(|t: int| v[t]) =~= s.take(k as int).map_values(|t: int| v[t]).push(v[i as int]));
        k = k + 1;
    }
    assert(s.take(idx@.len() as int) =~= s);
    assert(vistos(r@) == s.map_values(|t: int| candidatos(lidos@)[t]));
    r
}

/// O que os eventos dizem sobre o histórico: só com administrador, e só as inicializações com tempo.
pub open spec fn historico_certo(h: Seq<BootMeasurement>, boots: Seq<BootLido>) -> bool {
    &&& h.len() == com_tempo(boots).len()
    &&& forall|k: int| 0 <= k < h.len() ==> medicao_certa(#[trigger] h[k], com_tempo(boots)[k])
}

pub open spec fn culpados_certos(r: Seq<BootCulprit>, lidos: Seq<CulpadoLido>) -> bool {
    exists|idx: Seq<int>| selecao_certa(candidatos(lidos), idx) && vistos(r) == idx.map_values(|k: int| candidatos(lidos)[k])
}

proof fn lema_candidatos_com_tempo_e_nome(lidos: Seq<CulpadoLido>)
    ensures
        forall|k: int|
            0 <= k < candidatos(lidos).len() ==> (#[trigger] candidatos(lidos)[k]).2 > 0 && candidatos(
                lidos,
            )[k].0.len() > 0,
    decreases lidos.len(),
{
    if lidos.len() > 0 {
        let d = candidatos(lidos.drop_last());
        lema_candidatos_com_tempo_e_nome(lidos.drop_last());
        match candidato(lidos.last()) {
            Some(x) => {
                assert forall|k: int| 0 <= k < d.push(x).len() implies (#[trigger] d.push(x)[k]).2 > 0 && d.push(
                    x,
                )[k].0.len() > 0 by {
                    if k < d.len() {
                        assert(d.push(x)[k] == d[k]);
                    }
                }
            },
            None => {},
        }
    }
}

/// Os culpados são no máximo 12, do maior atraso para o menor, cada um com tempo e nome, sem dois com o mesmo
/// caminho; e sem eventos lidos não há culpado.
pub proof fn lei_culpados_poucos_em_ordem_e_sem_caminho_repetido(r: Seq<BootCulprit>, lidos: Seq<CulpadoLido>)
    requires
        culpados_certos(r, lidos),
    ensures
        r.len() <= 12,
        forall|a: int, b: int| 0 <= a < b < r.len() ==> (#[trigger] r[a]).total_ms >= (#[trigger] r[b]).total_ms,
        forall|k: int| 0 <= k < r.len() ==> (#[trigger] r[k]).total_ms > 0 && r[k].name@.len() > 0,
        forall|a: int, b: int|
            0 <= a < r.len() && 0 <= b < r.len() && a != b && (#[trigger] r[a]).path@.len() > 0 ==> r[a].path@
                != (#[trigger] r[b]).path@,
        lidos.len() == 0 ==> r.len() == 0,
{
    let c = candidatos(lidos);
    let idx = choose|idx: Seq<int>| selecao_certa(c, idx) && vistos(r) == idx.map_values(|k: int| c[k]);
    lema_candidatos_com_tempo_e_nome(lidos);
    assert(vistos(r).len() == r.len());
    assert forall|k: int| 0 <= k < r.len() implies visto(#[trigger] r[k]) == c[idx[k]] by {
        assert(vistos(r)[k] == visto(r[k]));
    }
    assert forall|a: int, b: int| 0 <= a < b < r.len() implies (#[trigger] r[a]).total_ms >= (
    #[trigger] r[b]).total_ms by {
        assert(visto(r[a]) == c[idx[a]] && visto(r[b]) == c[idx[b]]);
        assert(vem_primeiro(c, idx[a], idx[b]));
    }
    assert forall|k: int| 0 <= k < r.len() implies (#[trigger] r[k]).total_ms > 0 && r[k].name@.len() > 0 by {
        assert(visto(r[k]) == c[idx[k]]);
        assert(0 <= idx[k] < c.len());
    }
    assert forall|a: int, b: int|
        0 <= a < r.len() && 0 <= b < r.len() && a != b && (#[trigger] r[a]).path@.len() > 0 implies r[a].path@
            != (#[trigger] r[b]).path@ by {
        assert(visto(r[a]) == c[idx[a]] && visto(r[b]) == c[idx[b]]);
        let i = idx[a];
        let j = idx[b];
        if a < b {
            assert(vem_primeiro(c, idx[a], idx[b]));
        } else {
            assert(vem_primeiro(c, idx[b], idx[a]));
        }
        lema_ordem_estrita(c, i, j, i);
        lema_ordem_estrita(c, j, i, j);
        assert(i != j);
        assert(vence(c, i) && vence(c, j));
        if c[i].1 == c[j].1 {
            assert(c[j].2 < c[i].2 || (c[j].2 == c[i].2 && i <= j));
            assert(c[i].2 < c[j].2 || (c[i].2 == c[j].2 && j <= i));
        }
    }
    if lidos.len() == 0 {
        assert(c.len() == 0);
        if idx.len() > 0 {
            assert(0 <= idx[0] < c.len());
        }
    }
}

/// O relatório de inicialização a partir do que os eventos trouxeram: sem administrador, só o tipo das
/// inicializações (o único log legível assim), e nada de culpado nem de medição.
pub fn analyze(
    elevado: bool,
    tipos_lidos: &[TipoLido],
    boots: Option<Vec<BootLido>>,
    culpados_lidos: Option<Vec<CulpadoLido>>,
    firmware: Option<u32>,
) -> (r: BootReport)
    ensures
        r.needs_admin == !elevado,
        tipos_vistos(r.recent_types@) == tipos(tipos_lidos@),
        historico_certo(r.history@, if elevado && boots is Some { boots->0@ } else { seq![] }),
        r.last == if r.history@.len() > 0 { Some(r.history@[0]) } else { None },
        culpados_certos(r.culprits@, if elevado && culpados_lidos is Some { culpados_lidos->0@ } else { seq![] }),
        r.culpados_lidos == (elevado && culpados_lidos is Some),
        r.note@ == spec_nota(
            elevado,
            r.history@.len() > 0,
            rapidas(tipos(tipos_lidos@)),
            tipos(tipos_lidos@).len(),
        ),
        r.firmware_ms == match firmware {
            Some(ms) => if ms > 0 { Some(ms as u64) } else { None },
            None => None,
        },
        !elevado ==> r.last is None && r.culprits@.len() == 0 && !r.culpados_lidos,
        r.culprits@.len() <= 12,
        forall|a: int, b: int|
            0 <= a < b < r.culprits@.len() ==> (#[trigger] r.culprits@[a]).total_ms >= (
            #[trigger] r.culprits@[b]).total_ms,
        r.note@.len() > 0,
{
    // O tipo de boot vem primeiro: é o único que funciona sem elevação.
    let recent_types = tipos_recentes(tipos_lidos);
    let n_rapidas = contar_rapidas(&recent_types);
    let vazio_b: Vec<BootLido> = Vec::new();
    let history = match &boots {
        Some(b) => if elevado { historico(b.as_slice()) } else { historico(vazio_b.as_slice()) },
        None => historico(vazio_b.as_slice()),
    };
    let vazio_c: Vec<CulpadoLido> = Vec::new();
    let lidos = elevado && culpados_lidos.is_some();
    let culprits = match &culpados_lidos {
        Some(l) => if elevado { culpados(l.as_slice()) } else { culpados(vazio_c.as_slice()) },
        None => culpados(vazio_c.as_slice()),
    };
    let note = montar_nota(elevado, history.len() > 0, n_rapidas, recent_types.len());
    let last = if history.len() > 0 { Some(copia_medicao(&history[0])) } else { None };
    let firmware_ms = match firmware {
        Some(ms) => if ms > 0 { Some(ms as u64) } else { None },
        None => None,
    };
    proof {
        assert(tipos_vistos(recent_types@).len() == recent_types@.len());
        reveal_strlit("O Windows guarda o tempo de inicialização num log protegido, que só \
     pode ser lido como administrador. Reabra o Otimiza com permissão para \
     ver quanto o seu PC demora para ligar e quais programas atrasam.");
        reveal_strlit("O Windows não registrou nenhuma medição de inicialização nesta \
     máquina. Acontece: o coletor de desempenho de boot para de gravar \
     em parte dos PCs, e não há como forçá-lo. Não temos como dizer \
     quanto o seu boot demora, e não vamos inventar um número.");
        reveal_strlit("Números medidos pelo próprio Windows a cada inicialização, não estimados por nós.");
        lei_culpados_poucos_em_ordem_e_sem_caminho_repetido(
            culprits@,
            if elevado && culpados_lidos is Some { culpados_lidos->0@ } else { seq![] },
        );
    }
    BootReport {
        needs_admin: !elevado,
        last,
        history,
        culprits,
        recent_types,
        culpados_lidos: lidos,
        note,
        firmware_ms,
    }
}

} // verus!
