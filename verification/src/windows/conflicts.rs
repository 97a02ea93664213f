//! Dois programas fazendo a mesma coisa: antivírus varrendo um ao outro, sobreposições no mesmo jogo,
//! otimizadores desfazendo um ao outro. Aqui não se desinstala nada: mostra o conflito pelo nome, e a pessoa
//! escolhe.

use vstd::prelude::*;
use crate::ordem::{crescente, inserir_ordenado, lema_crescente_conta, ordenar_sem_repetir, textos};
use crate::texto::{chars_of, contains, contains_exec, minusculas, same_chars, string_of, to_lowercase, trim, trim_str};
use crate::windows::achados::FindingSeverity;

verus! {

broadcast use {vstd::string::group_string_axioms, vstd::seq_lib::group_seq_properties, vstd::set::group_set_axioms};

#[derive(Debug, Clone)]
pub struct Conflict {
    pub id: String,
    pub title: String,
    pub found: Vec<String>,
    pub explanation: String,
    pub advice: String,
    pub severity: FindingSeverity,
}

#[derive(Debug, Clone)]
pub struct ConflictReport {
    pub conflicts: Vec<Conflict>,
    /// `None` quando a lista não se leu: "0 examinados" seria um número falso.
    pub programs_scanned: Option<usize>,
    /// Com qualquer coisa aqui, a ausência de conflito não é afirmada.
    pub lacunas: Vec<String>,
}

/// Um antivírus como a Central de Segurança o descreve.
#[derive(Debug, Clone)]
pub struct AntivirusLido {
    pub display_name: Option<String>,
    pub product_state: Option<u32>,
}

/// Os nomes dos programas instalados, lidos das chaves de desinstalação: sem branco nas pontas, sem nome vazio e
/// sem repetição, na ordem em que apareceram.
pub open spec fn programas_unicos(lidos: Seq<Seq<char>>) -> Seq<Seq<char>>
    decreases lidos.len(),
{
    if lidos.len() == 0 {
        seq![]
    } else {
        let antes = programas_unicos(lidos.drop_last());
        let nome = trim(lidos.last());
        if nome.len() > 0 && !antes.contains(nome) {
            antes.push(nome)
        } else {
            antes
        }
    }
}

/// Junta os `DisplayName` lidos das três chaves de desinstalação (64 bits, 32 bits e só deste usuário).
pub fn juntar_programas(lidos: &[String]) -> (r: Vec<String>)
    ensures
        textos(r@) == programas_unicos(textos(lidos@)),
{
    let ghost ls = textos(lidos@);
    let mut r: Vec<String> = Vec::new();
    let mut i: usize = 0;
    while i < lidos.len()
        invariant
            0 <= i <= lidos@.len(),
            ls == textos(lidos@),
            textos(r@) == programas_unicos(ls.take(i as int)),
        decreases lidos@.len() - i,
    {
        assert(ls.take(i + 1).drop_last() =~= ls.take(i as int));
        assert(ls.take(i + 1).last() == lidos@[i as int]@);
        let nome = trim_str(lidos[i].as_str());
        if nome.len() > 0 && !ja_tem(&r, nome.as_slice()) {
            let ghost velho = textos(r@);
            let s = string_of(nome.as_slice());
            r.push(s);
            assert(textos(r@) =~= velho.push(nome@));
        }
        i = i + 1;
    }
    assert(ls.take(lidos@.len() as int) =~= ls);
    r
}

/// `v` já traz o texto `n`.
fn ja_tem(v: &Vec<String>, n: &[char]) -> (r: bool)
    ensures
        r == textos(v@).contains(n@),
{
    let mut i: usize = 0;
    while i < v.len()
        invariant
            0 <= i <= v@.len(),
            forall|k: int| 0 <= k < i ==> textos(v@)[k] != n@,
        decreases v@.len() - i,
    {
        let c = chars_of(v[i].as_str());
        if same_chars(c.as_slice(), n) {
            assert(textos(v@)[i as int] == n@);
            return true;
        }
        i = i + 1;
    }
    false
}

/// Algum dos termos aparece no nome em minúsculas.
pub open spec fn casa(nome: Seq<char>, termos: Seq<&'static str>) -> bool {
    exists|t: int| 0 <= t < termos.len() && contains(minusculas(nome), (#[trigger] termos[t])@)
}

/// Os programas que casam com algum termo.
pub open spec fn casados(programas: Seq<Seq<char>>, termos: Seq<&'static str>) -> Set<Seq<char>> {
    programas.to_set().filter(|p: Seq<char>| casa(p, termos))
}

fn casa_exec(baixo: &[char], termos: &[&'static str]) -> (r: bool)
    ensures
        r == exists|t: int| 0 <= t < termos@.len() && contains(baixo@, (#[trigger] termos@[t])@),
{
    let mut t: usize = 0;
    while t < termos.len()
        invariant
            0 <= t <= termos@.len(),
            forall|k: int| 0 <= k < t ==> !contains(baixo@, (#[trigger] termos@[k])@),
        decreases termos@.len() - t,
    {
        let termo = chars_of(termos[t]);
        if contains_exec(baixo, termo.as_slice()) {
            return true;
        }
        t = t + 1;
    }
    false
}

/// Os programas cujo nome, em minúsculas, contém algum dos termos: em ordem alfabética e sem repetição.
pub fn casar(programas: &[String], termos: &[&'static str]) -> (r: Vec<String>)
    ensures
        crescente(textos(r@)),
        textos(r@).to_set() == casados(textos(programas@), termos@),
{
    let ghost ps = textos(programas@);
    let mut r: Vec<String> = Vec::new();
    let mut i: usize = 0;
    assert(casados(ps.take(0), termos@) =~= Set::<Seq<char>>::empty());
    while i < programas.len()
        invariant
            0 <= i <= programas@.len(),
            ps == textos(programas@),
            crescente(textos(r@)),
            textos(r@).to_set() == casados(ps.take(i as int), termos@),
        decreases programas@.len() - i,
    {
        let ghost p = ps[i as int];
        proof {
            ps.take(i as int).lemma_push_to_set_commute(p);
            assert(ps.take(i + 1) =~= ps.take(i as int).push(p));
        }
        let nome = chars_of(programas[i].as_str());
        let baixo = to_lowercase(nome.as_slice());
        if casa_exec(baixo.as_slice(), termos) {
            assert(casa(p, termos@));
            inserir_ordenado(&mut r, programas[i].clone());
            assert(casados(ps.take(i + 1), termos@) =~= casados(ps.take(i as int), termos@).insert(p));
        } else {
            assert(!casa(p, termos@));
            assert(casados(ps.take(i + 1), termos@) =~= casados(ps.take(i as int), termos@));
        }
        i = i + 1;
    }
    assert(ps.take(programas@.len() as int) =~= ps);
    r
}

/// Os rótulos dos alvos entre os primeiros `n` cujo executável está entre os processos.
pub open spec fn presentes(processos: Seq<Seq<char>>, alvos: Seq<(&'static str, &'static str)>, n: int) -> Set<
    Seq<char>,
> {
    Set::new(
        |rotulo: Seq<char>|
            exists|k: int|
                0 <= k < n && k < alvos.len() && (#[trigger] alvos[k]).1@ == rotulo && processos.contains(
                    alvos[k].0@,
                ),
    )
}

/// Os rótulos dos alvos que estão rodando, em ordem alfabética e sem repetição. O executável tem de ser igual ao
/// nome do processo, que já vem em minúsculas.
pub fn casar_processos(processos: &[String], alvos: &[(&'static str, &'static str)]) -> (r: Vec<String>)
    ensures
        crescente(textos(r@)),
        textos(r@).to_set() == presentes(textos(processos@), alvos@, alvos@.len() as int),
{
    let ghost ps = textos(processos@);
    let mut r: Vec<String> = Vec::new();
    let mut i: usize = 0;
    assert(presentes(ps, alvos@, 0) =~= Set::<Seq<char>>::empty());
    while i < alvos.len()
        invariant
            0 <= i <= alvos@.len(),
            ps == textos(processos@),
            crescente(textos(r@)),
            textos(r@).to_set() == presentes(ps, alvos@, i as int),
        decreases alvos@.len() - i,
    {
        let (executavel, rotulo) = alvos[i];
        let exe = chars_of(executavel);
        if ja_tem_slice(processos, exe.as_slice()) {
            inserir_ordenado(&mut r, rotulo.to_string());
            assert(presentes(ps, alvos@, i + 1) =~= presentes(ps, alvos@, i as int).insert(rotulo@));
        } else {
            assert(presentes(ps, alvos@, i + 1) =~= presentes(ps, alvos@, i as int));
        }
        i = i + 1;
    }
    r
}

fn ja_tem_slice(v: &[String], n: &[char]) -> (r: bool)
    ensures
        r == textos(v@).contains(n@),
{
    let mut i: usize = 0;
    while i < v.len()
        invariant
            0 <= i <= v@.len(),
            forall|k: int| 0 <= k < i ==> textos(v@)[k] != n@,
        decreases v@.len() - i,
    {
        let c = chars_of(v[i].as_str());
        if same_chars(c.as_slice(), n) {
            assert(textos(v@)[i as int] == n@);
            return true;
        }
        i = i + 1;
    }
    false
}

/// Os nomes dos processos em minúsculas, em ordem alfabética e sem repetição.
pub fn nomes_de_processos(nomes: &[String]) -> (r: Vec<String>)
    ensures
        crescente(textos(r@)),
        textos(r@).to_set() == textos(nomes@).map_values(|n: Seq<char>| minusculas(n)).to_set(),
{
    let mut baixos: Vec<String> = Vec::new();
    let mut i: usize = 0;
    while i < nomes.len()
        invariant
            0 <= i <= nomes@.len(),
            textos(baixos@) == textos(nomes@).take(i as int).map_values(|n: Seq<char>| minusculas(n)),
        decreases nomes@.len() - i,
    {
        let c = chars_of(nomes[i].as_str());
        let b = to_lowercase(c.as_slice());
        let ghost velho = textos(baixos@);
        assert(c@ == textos(nomes@)[i as int]);
        baixos.push(string_of(b.as_slice()));
        assert(textos(baixos@) =~= velho.push(b@));
        assert(textos(nomes@).take(i + 1).map_values(|n: Seq<char>| minusculas(n)) =~= textos(nomes@).take(
            i as int,
        ).map_values(|n: Seq<char>| minusculas(n)).push(minusculas(textos(nomes@)[i as int])));
        i = i + 1;
    }
    assert(textos(nomes@).take(nomes@.len() as int) =~= textos(nomes@));
    ordenar_sem_repetir(baixos.as_slice())
}

/// TESTA O BIT, não igualdade: o Defender ativo é 0x061100, byte do meio 0x11.
pub fn tempo_real_ligado(product_state: u32) -> (r: bool)
    ensures
        r == (product_state & 0x1000u32 != 0),
{
    product_state & 0x1000u32 != 0
}

/// Algum antivírus veio sem o estado.
pub open spec fn estado_ilegivel(lidos: Seq<AntivirusLido>) -> bool {
    exists|i: int| 0 <= i < lidos.len() && (#[trigger] lidos[i]).product_state is None
}

/// Os nomes dos antivírus com o tempo real ligado, na ordem lida.
pub open spec fn nomes_ativos(lidos: Seq<AntivirusLido>) -> Seq<Seq<char>>
    decreases lidos.len(),
{
    if lidos.len() == 0 {
        seq![]
    } else {
        let antes = nomes_ativos(lidos.drop_last());
        let a = lidos.last();
        if a.product_state is Some && a.product_state->0 & 0x1000u32 != 0 && a.display_name is Some {
            antes.push(a.display_name->0@)
        } else {
            antes
        }
    }
}

pub open spec fn msg_estado_ilegivel() -> Seq<char> {
    "A Central de Segurança do Windows respondeu sem o estado de um dos antivírus, então não dá para dizer quantos estão varrendo ao mesmo tempo nesta máquina."@
}

/// Os antivírus com proteção em tempo real LIGADA: quase toda máquina tem o Defender instalado, e é o tempo real
/// que pesa. Estado ilegível é erro: virar 0 fazia o antivírus sumir calado, justamente com dois varrendo juntos.
pub fn antivirus_ativos(lidos: &[AntivirusLido]) -> (r: Result<Vec<String>, String>)
    ensures
        match r {
            Ok(v) => !estado_ilegivel(lidos@) && textos(v@) == nomes_ativos(lidos@),
            Err(m) => estado_ilegivel(lidos@) && m@ == msg_estado_ilegivel(),
        },
{
    let mut ativos: Vec<String> = Vec::new();
    let mut i: usize = 0;
    while i < lidos.len()
        invariant
            0 <= i <= lidos@.len(),
            !estado_ilegivel(lidos@.take(i as int)),
            textos(ativos@) == nomes_ativos(lidos@.take(i as int)),
        decreases lidos@.len() - i,
    {
        assert(lidos@.take(i + 1).drop_last() =~= lidos@.take(i as int));
        assert(lidos@.take(i + 1).last() == lidos@[i as int]);
        let a = &lidos[i];
        let estado = match a.product_state {
            Some(e) => e,
            None => {
                assert(lidos@[i as int].product_state is None);
                return Err(
                    "A Central de Segurança do Windows respondeu sem o estado de um dos antivírus, então não dá para dizer quantos estão varrendo ao mesmo tempo nesta máquina.".to_string(),
                );
            },
        };
        if tempo_real_ligado(estado) {
            match &a.display_name {
                Some(nome) => {
                    let ghost velho = textos(ativos@);
                    ativos.push(nome.clone());
                    assert(textos(ativos@) =~= velho.push(nome@));
                },
                None => {},
            }
        }
        assert(!estado_ilegivel(lidos@.take(i + 1))) by {
            if estado_ilegivel(lidos@.take(i + 1)) {
                let k = choose|k: int| 0 <= k < i + 1 && (#[trigger] lidos@.take(i + 1)[k]).product_state is None;
                assert(lidos@.take(i + 1)[k] == lidos@[k]);
                if k < i {
                    assert(lidos@.take(i as int)[k] == lidos@[k]);
                }
            }
        }
        i = i + 1;
    }
    assert(lidos@.take(lidos@.len() as int) =~= lidos@);
    Ok(ativos)
}

pub open spec fn otimizadores() -> Seq<&'static str> {
    seq![
        "driver booster",
        "iobit",
        "advanced systemcare",
        "ccleaner",
        "avast cleanup",
        "avg tuneup",
        "wise care",
        "glary utilities",
        "razer cortex",
        "itop",
    ]
}

pub fn lista_otimizadores() -> (r: Vec<&'static str>)
    ensures
        r@ == otimizadores(),
{
    let r = vec![
        "driver booster",
        "iobit",
        "advanced systemcare",
        "ccleaner",
        "avast cleanup",
        "avg tuneup",
        "wise care",
        "glary utilities",
        "razer cortex",
        "itop",
    ];
    assert(r@ =~= otimizadores());
    r
}

pub open spec fn sobreposicoes() -> Seq<(&'static str, &'static str)> {
    seq![
        ("discord.exe", "Discord"),
        ("nvcontainer.exe", "NVIDIA App / GeForce Experience"),
        ("rtss.exe", "RivaTuner Statistics Server"),
        ("msiafterburner.exe", "MSI Afterburner"),
        ("gameoverlayui.exe", "Sobreposição do Steam"),
        ("gamebar.exe", "Xbox Game Bar"),
    ]
}

pub fn lista_sobreposicoes() -> (r: Vec<(&'static str, &'static str)>)
    ensures
        r@ == sobreposicoes(),
{
    let r = vec![
        ("discord.exe", "Discord"),
        ("nvcontainer.exe", "NVIDIA App / GeForce Experience"),
        ("rtss.exe", "RivaTuner Statistics Server"),
        ("msiafterburner.exe", "MSI Afterburner"),
        ("gameoverlayui.exe", "Sobreposição do Steam"),
        ("gamebar.exe", "Xbox Game Bar"),
    ];
    assert(r@ =~= sobreposicoes());
    r
}

pub open spec fn nuvem() -> Seq<(&'static str, &'static str)> {
    seq![
        ("onedrive.exe", "OneDrive"),
        ("googledrivefs.exe", "Google Drive"),
        ("dropbox.exe", "Dropbox"),
        ("megasync.exe", "MEGAsync"),
        ("icloudservices.exe", "iCloud"),
    ]
}

pub fn lista_nuvem() -> (r: Vec<(&'static str, &'static str)>)
    ensures
        r@ == nuvem(),
{
    let r = vec![
        ("onedrive.exe", "OneDrive"),
        ("googledrivefs.exe", "Google Drive"),
        ("dropbox.exe", "Dropbox"),
        ("megasync.exe", "MEGAsync"),
        ("icloudservices.exe", "iCloud"),
    ];
    assert(r@ =~= nuvem());
    r
}

/// Os conflitos de uma severidade, na ordem em que vieram.
pub open spec fn da_severidade(cs: Seq<Conflict>, k: FindingSeverity) -> Seq<Conflict>
    decreases cs.len(),
{
    if cs.len() == 0 {
        seq![]
    } else {
        let antes = da_severidade(cs.drop_last(), k);
        if cs.last().severity == k {
            antes.push(cs.last())
        } else {
            antes
        }
    }
}

/// Do mais grave para o menos, sem mudar a ordem dentro de cada severidade.
pub open spec fn por_severidade(cs: Seq<Conflict>) -> Seq<Conflict> {
    da_severidade(cs, FindingSeverity::Critical) + da_severidade(cs, FindingSeverity::Important) + da_severidade(
        cs,
        FindingSeverity::AllGood,
    )
}

/// O achado verde de "nenhum conflito".
pub open spec fn eh_nenhum(c: Conflict) -> bool {
    &&& c.id@ == "none"@
    &&& c.title@ == "Nenhum conflito entre programas"@
    &&& c.found@.len() == 0
    &&& c.explanation@ == "Não há dois programas disputando a mesma função nesta máquina."@
    &&& c.advice@.len() == 0
    &&& c.severity == FindingSeverity::AllGood
}

/// O "nenhum conflito" só entra quando tudo foi lido: fabricado com a leitura falha, ele inflava a contagem de
/// verificações aprovadas. Depois, do mais grave para o menos.
pub fn fechar(conflitos: Vec<Conflict>, lacunas: &[String]) -> (r: Vec<Conflict>)
    ensures
        conflitos@.len() == 0 && lacunas@.len() == 0 ==> r@.len() == 1 && eh_nenhum(r@[0]),
        !(conflitos@.len() == 0 && lacunas@.len() == 0) ==> r@ == por_severidade(conflitos@),
{
    if conflitos.len() == 0 && lacunas.len() == 0 {
        let mut r: Vec<Conflict> = Vec::new();
        r.push(
            Conflict {
                id: "none".to_string(),
                title: "Nenhum conflito entre programas".to_string(),
                found: Vec::new(),
                explanation: "Não há dois programas disputando a mesma função nesta máquina.".to_string(),
                advice: String::new(),
                severity: FindingSeverity::AllGood,
            },
        );
        return r;
    }
    let ghost entrada = conflitos@;
    let mut resto = conflitos;
    let mut criticos: Vec<Conflict> = Vec::new();
    let mut importantes: Vec<Conflict> = Vec::new();
    let mut bons: Vec<Conflict> = Vec::new();
    let mut feitos: usize = 0;
    let total = resto.len();
    while resto.len() > 0
        invariant
            total == entrada.len(),
            feitos + resto@.len() == entrada.len(),
            resto@ == entrada.skip(feitos as int),
            criticos@ == da_severidade(entrada.take(feitos as int), FindingSeverity::Critical),
            importantes@ == da_severidade(entrada.take(feitos as int), FindingSeverity::Important),
            bons@ == da_severidade(entrada.take(feitos as int), FindingSeverity::AllGood),
        decreases resto@.len(),
    {
        assert(entrada.take(feitos + 1).drop_last() =~= entrada.take(feitos as int));
        assert(entrada.take(feitos + 1).last() == entrada[feitos as int]);
        assert(resto@[0] == entrada[feitos as int]);
        let c = resto.remove(0);
        assert(resto@ =~= entrada.skip(feitos + 1));
        match c.severity {
            FindingSeverity::Critical => criticos.push(c),
            FindingSeverity::Important => importantes.push(c),
            FindingSeverity::AllGood => bons.push(c),
        }
        feitos = feitos + 1;
    }
    assert(entrada.take(entrada.len() as int) =~= entrada);
    let ghost a = criticos@;
    let ghost b = importantes@;
    criticos.append(&mut importantes);
    criticos.append(&mut bons);
    assert(criticos@ =~= por_severidade(entrada));
    criticos
}

/// Com a lista já do mais grave para o menos, `por_severidade` não mexe em nada.
pub open spec fn peso(k: FindingSeverity) -> int {
    match k {
        FindingSeverity::Critical => 0,
        FindingSeverity::Important => 1,
        FindingSeverity::AllGood => 2,
    }
}

pub open spec fn em_ordem_de_severidade(cs: Seq<Conflict>) -> bool {
    forall|i: int, j: int| 0 <= i < j < cs.len() ==> peso((#[trigger] cs[i]).severity) <= peso((#[trigger] cs[j]).severity)
}

proof fn lema_sem_a_severidade(cs: Seq<Conflict>, k: FindingSeverity)
    requires
        forall|i: int| 0 <= i < cs.len() ==> (#[trigger] cs[i]).severity != k,
    ensures
        da_severidade(cs, k) == Seq::<Conflict>::empty(),
    decreases cs.len(),
{
    if cs.len() > 0 {
        lema_sem_a_severidade(cs.drop_last(), k);
    }
}

/// Uma lista que já vem do mais grave para o menos sai de `fechar` como entrou.
pub proof fn lei_fechar_preserva_o_que_ja_esta_em_ordem(cs: Seq<Conflict>)
    requires
        em_ordem_de_severidade(cs),
    ensures
        por_severidade(cs) == cs,
    decreases cs.len(),
{
    if cs.len() > 0 {
        let init = cs.drop_last();
        let x = cs.last();
        assert(em_ordem_de_severidade(init));
        lei_fechar_preserva_o_que_ja_esta_em_ordem(init);
        assert forall|i: int| 0 <= i < init.len() implies peso((#[trigger] init[i]).severity) <= peso(x.severity) by {
            assert(init[i] == cs[i]);
        }
        match x.severity {
            FindingSeverity::Critical => {
                lema_sem_a_severidade(init, FindingSeverity::Important);
                lema_sem_a_severidade(init, FindingSeverity::AllGood);
            },
            FindingSeverity::Important => {
                lema_sem_a_severidade(init, FindingSeverity::AllGood);
            },
            FindingSeverity::AllGood => {},
        }
        assert(por_severidade(cs) =~= por_severidade(init).push(x));
    }
}

proof fn lema_da_severidade(cs: Seq<Conflict>, k: FindingSeverity)
    ensures
        forall|i: int| 0 <= i < da_severidade(cs, k).len() ==> (#[trigger] da_severidade(cs, k)[i]).severity == k,
    decreases cs.len(),
{
    if cs.len() > 0 {
        let d = da_severidade(cs.drop_last(), k);
        lema_da_severidade(cs.drop_last(), k);
        if cs.last().severity == k {
            assert forall|i: int| 0 <= i < d.push(cs.last()).len() implies (#[trigger] d.push(cs.last())[i]).severity
                == k by {
                if i < d.len() {
                    assert(d.push(cs.last())[i] == d[i]);
                }
            }
        }
    }
}

proof fn lema_soma_das_severidades(cs: Seq<Conflict>)
    ensures
        da_severidade(cs, FindingSeverity::Critical).to_multiset().add(
            da_severidade(cs, FindingSeverity::Important).to_multiset(),
        ).add(da_severidade(cs, FindingSeverity::AllGood).to_multiset()) =~= cs.to_multiset(),
    decreases cs.len(),
{
    broadcast use vstd::seq_lib::group_to_multiset_ensures, vstd::multiset::group_multiset_axioms;

    if cs.len() == 0 {
        assert(cs.to_multiset() =~= vstd::multiset::Multiset::empty());
    } else {
        lema_soma_das_severidades(cs.drop_last());
        assert(cs =~= cs.drop_last().push(cs.last()));
    }
}

/// `fechar` não perde nem inventa conflito (com algo lido ou alguma lacuna, é uma permutação da lista e nenhum
/// "nenhum conflito" é acrescentado) e deixa a lista do mais grave para o menos.
pub proof fn lei_fechar_permuta_e_ordena(cs: Seq<Conflict>)
    ensures
        por_severidade(cs).to_multiset() == cs.to_multiset(),
        em_ordem_de_severidade(por_severidade(cs)),
{
    let a = da_severidade(cs, FindingSeverity::Critical);
    let b = da_severidade(cs, FindingSeverity::Important);
    let c = da_severidade(cs, FindingSeverity::AllGood);
    lema_soma_das_severidades(cs);
    vstd::seq_lib::lemma_multiset_commutative(a, b);
    vstd::seq_lib::lemma_multiset_commutative(a + b, c);
    lema_da_severidade(cs, FindingSeverity::Critical);
    lema_da_severidade(cs, FindingSeverity::Important);
    lema_da_severidade(cs, FindingSeverity::AllGood);
    let r = por_severidade(cs);
    assert forall|i: int| 0 <= i < r.len() implies peso((#[trigger] r[i]).severity) == if i < a.len() {
        0int
    } else if i < a.len() + b.len() {
        1int
    } else {
        2int
    } by {
        if i < a.len() {
            assert(r[i] == a[i]);
        } else if i < a.len() + b.len() {
            assert(r[i] == b[i - a.len()]);
        } else {
            assert(r[i] == c[i - a.len() - b.len()]);
        }
    }
}

pub open spec fn titulo(id: Seq<char>) -> Seq<char> {
    if id == "antivirus"@ {
        "Mais de um antivírus com proteção em tempo real"@
    } else if id == "optimizers"@ {
        "Outro programa de otimização instalado"@
    } else if id == "overlays"@ {
        "Várias sobreposições ativas ao mesmo tempo"@
    } else {
        "Mais de um sincronizador de nuvem rodando"@
    }
}

pub open spec fn explicacao(id: Seq<char>) -> Seq<char> {
    if id == "antivirus"@ {
        "Cada antivírus verifica todo arquivo aberto. Com dois ligados, cada \
         leitura de disco é verificada duas vezes — e um passa a inspecionar o \
         outro, porque ambos mexem em arquivos o tempo todo."@
    } else if id == "optimizers"@ {
        "Duas ferramentas mexendo nas mesmas configurações desfazem o trabalho \
         uma da outra. Várias delas também instalam serviço próprio, tarefa \
         agendada e aviso de renovação — que consomem justamente o que \
         prometem liberar."@
    } else if id == "overlays"@ {
        "Cada sobreposição injeta código dentro do jogo para desenhar por cima \
         dele. Uma custa pouco; três disputam o mesmo ponto de entrada e é uma \
         causa conhecida de engasgo e de fechamento inesperado."@
    } else {
        "Cada cliente de nuvem vigia pastas e lê disco continuamente. Em PC com \
         disco mecânico ou com pouca memória, dois ou três somam bastante."@
    }
}

pub open spec fn conselho(id: Seq<char>) -> Seq<char> {
    if id == "antivirus"@ {
        "Escolha um e desinstale o outro pelo Painel de Controle. É a mudança que \
         mais devolve desempenho num PC nessa situação, e nenhum ajuste de sistema \
         substitui. Manter dois não protege mais: eles atrapalham um ao outro."@
    } else if id == "optimizers"@ {
        "Não dá para os dois gerenciarem o mesmo PC. Escolha um. Se ficar com o \
         Otimiza, desinstale o outro para que o plano de energia e os ajustes de \
         sistema parem de ser revertidos pelas costas."@
    } else if id == "overlays"@ {
        "Deixe ligada a que você realmente usa e desligue as outras nas opções de \
         cada programa. Não precisa desinstalar — basta desativar a sobreposição."@
    } else {
        "Mantenha rodando o que você usa de verdade e feche os demais na inicialização. \
         A aba Sistema mostra quais deles sobem com o Windows."@
    }
}

/// O conflito traz o título, a explicação e o conselho do seu tipo.
pub open spec fn com_os_textos(c: Conflict) -> bool {
    &&& c.title@ == titulo(c.id@)
    &&& c.explanation@ == explicacao(c.id@)
    &&& c.advice@ == conselho(c.id@)
}

/// O que cada tipo de conflito lista: os antivírus na ordem lida; os demais em ordem alfabética, sem repetição.
pub open spec fn lista_certa(
    c: Conflict,
    av: Seq<Seq<char>>,
    otim: Set<Seq<char>>,
    sob: Set<Seq<char>>,
    nuv: Set<Seq<char>>,
) -> bool {
    if c.id@ == "antivirus"@ {
        textos(c.found@) == av && c.severity == FindingSeverity::Critical && com_os_textos(c)
    } else if c.id@ == "optimizers"@ {
        crescente(textos(c.found@)) && textos(c.found@).to_set() == otim && c.severity
            == FindingSeverity::Important && com_os_textos(c)
    } else if c.id@ == "overlays"@ {
        crescente(textos(c.found@)) && textos(c.found@).to_set() == sob && c.severity
            == FindingSeverity::Important && com_os_textos(c)
    } else if c.id@ == "cloud"@ {
        crescente(textos(c.found@)) && textos(c.found@).to_set() == nuv && c.severity
            == FindingSeverity::Important && com_os_textos(c)
    } else {
        eh_nenhum(c)
    }
}

pub open spec fn se(b: bool, id: Seq<char>) -> Seq<Seq<char>> {
    if b {
        seq![id]
    } else {
        seq![]
    }
}

/// Os conflitos que a leitura aponta, na ordem da tela: dois antivírus; um otimizador; três sobreposições; duas
/// nuvens. Sem nenhum e com tudo lido, o "nenhum conflito".
pub open spec fn ids_esperados(
    av: Seq<Seq<char>>,
    otim: Set<Seq<char>>,
    sob: Set<Seq<char>>,
    nuv: Set<Seq<char>>,
    sem_lacuna: bool,
) -> Seq<Seq<char>> {
    let achados = se(av.len() > 1, "antivirus"@) + se(otim.len() > 0, "optimizers"@) + se(
        sob.len() > 2,
        "overlays"@,
    ) + se(nuv.len() > 1, "cloud"@);
    if achados.len() == 0 && sem_lacuna {
        seq!["none"@]
    } else {
        achados
    }
}

pub open spec fn res_textos(r: Result<Vec<String>, String>) -> Result<Seq<Seq<char>>, Seq<char>> {
    match r {
        Ok(v) => Ok(textos(v@)),
        Err(e) => Err(e@),
    }
}

pub open spec fn lacunas_de(programas: Result<Seq<Seq<char>>, Seq<char>>, antivirus: Result<Seq<Seq<char>>, Seq<char>>) -> Seq<Seq<char>> {
    (match programas {
        Ok(_) => seq![],
        Err(e) => seq!["Programas instalados: "@ + e],
    }) + (match antivirus {
        Ok(_) => seq![],
        Err(e) => seq![e],
    })
}

/// O relatório diz o que a leitura mostrou, e o que não se leu fica como lacuna.
pub open spec fn relatorio_certo(
    r: ConflictReport,
    programas: Result<Seq<Seq<char>>, Seq<char>>,
    processos: Seq<Seq<char>>,
    antivirus: Result<Seq<Seq<char>>, Seq<char>>,
) -> bool {
    let av = match antivirus {
        Ok(v) => v,
        Err(_) => seq![],
    };
    let otim = match programas {
        Ok(p) => casados(p, otimizadores()),
        Err(_) => Set::empty(),
    };
    let sob = presentes(processos, sobreposicoes(), 6);
    let nuv = presentes(processos, nuvem(), 5);
    let lacunas = lacunas_de(programas, antivirus);
    let ids = ids_esperados(av, otim, sob, nuv, lacunas.len() == 0);
    &&& textos(r.lacunas@) == lacunas
    &&& r.programs_scanned == match programas {
        Ok(p) => Some(p.len() as usize),
        Err(_) => None::<usize>,
    }
    &&& r.conflicts@.len() == ids.len()
    &&& forall|i: int| 0 <= i < ids.len() ==> (#[trigger] r.conflicts@[i]).id@ == ids[i]
    &&& forall|i: int| 0 <= i < ids.len() ==> lista_certa(#[trigger] r.conflicts@[i], av, otim, sob, nuv)
}

pub open spec fn todos_certos(
    cs: Seq<Conflict>,
    ids: Seq<Seq<char>>,
    av: Seq<Seq<char>>,
    otim: Set<Seq<char>>,
    sob: Set<Seq<char>>,
    nuv: Set<Seq<char>>,
) -> bool {
    &&& cs.len() == ids.len()
    &&& forall|i: int| 0 <= i < ids.len() ==> (#[trigger] cs[i]).id@ == ids[i]
    &&& forall|i: int| 0 <= i < ids.len() ==> lista_certa(#[trigger] cs[i], av, otim, sob, nuv)
}

proof fn lema_empurra(
    cs: Seq<Conflict>,
    ids: Seq<Seq<char>>,
    c: Conflict,
    av: Seq<Seq<char>>,
    otim: Set<Seq<char>>,
    sob: Set<Seq<char>>,
    nuv: Set<Seq<char>>,
)
    requires
        todos_certos(cs, ids, av, otim, sob, nuv),
        lista_certa(c, av, otim, sob, nuv),
    ensures
        todos_certos(cs.push(c), ids.push(c.id@), av, otim, sob, nuv),
{
    assert forall|i: int| 0 <= i < ids.len() + 1 implies lista_certa(#[trigger] cs.push(c)[i], av, otim, sob, nuv) by {
        if i < ids.len() {
            assert(cs.push(c)[i] == cs[i]);
        }
    }
}

/// Os tipos de conflito têm nomes diferentes entre si.
proof fn lema_ids_distintos()
    ensures
        "antivirus"@ != "optimizers"@,
        "antivirus"@ != "overlays"@,
        "antivirus"@ != "cloud"@,
        "antivirus"@ != "none"@,
        "optimizers"@ != "overlays"@,
        "optimizers"@ != "cloud"@,
        "optimizers"@ != "none"@,
        "overlays"@ != "cloud"@,
        "overlays"@ != "none"@,
        "cloud"@ != "none"@,
{
    reveal_strlit("antivirus");
    reveal_strlit("optimizers");
    reveal_strlit("overlays");
    reveal_strlit("cloud");
    reveal_strlit("none");
    assert("antivirus"@.len() == 9);
    assert("optimizers"@.len() == 10);
    assert("overlays"@.len() == 8);
    assert("cloud"@.len() == 5);
    assert("none"@.len() == 4);
}

fn juntar(a: &str, b: &str) -> (r: String)
    ensures
        r@ == a@ + b@,
{
    let mut v = chars_of(a);
    let mut w = chars_of(b);
    v.append(&mut w);
    string_of(v.as_slice())
}

fn novo_conflito(id: &str, found: Vec<String>, severity: FindingSeverity) -> (c: Conflict)
    requires
        id@ == "antivirus"@ || id@ == "optimizers"@ || id@ == "overlays"@ || id@ == "cloud"@,
    ensures
        c.id@ == id@,
        c.found@ == found@,
        c.severity == severity,
        com_os_textos(c),
{
    let (title, explanation, advice) = if str_eq_lit(id, "antivirus") {
        (
            "Mais de um antivírus com proteção em tempo real",
            "Cada antivírus verifica todo arquivo aberto. Com dois ligados, cada \
             leitura de disco é verificada duas vezes — e um passa a inspecionar o \
             outro, porque ambos mexem em arquivos o tempo todo.",
            "Escolha um e desinstale o outro pelo Painel de Controle. É a mudança que \
             mais devolve desempenho num PC nessa situação, e nenhum ajuste de sistema \
             substitui. Manter dois não protege mais: eles atrapalham um ao outro.",
        )
    } else if str_eq_lit(id, "optimizers") {
        (
            "Outro programa de otimização instalado",
            "Duas ferramentas mexendo nas mesmas configurações desfazem o trabalho \
             uma da outra. Várias delas também instalam serviço próprio, tarefa \
             agendada e aviso de renovação — que consomem justamente o que \
             prometem liberar.",
            "Não dá para os dois gerenciarem o mesmo PC. Escolha um. Se ficar com o \
             Otimiza, desinstale o outro para que o plano de energia e os ajustes de \
             sistema parem de ser revertidos pelas costas.",
        )
    } else if str_eq_lit(id, "overlays") {
        (
            "Várias sobreposições ativas ao mesmo tempo",
            "Cada sobreposição injeta código dentro do jogo para desenhar por cima \
             dele. Uma custa pouco; três disputam o mesmo ponto de entrada e é uma \
             causa conhecida de engasgo e de fechamento inesperado.",
            "Deixe ligada a que você realmente usa e desligue as outras nas opções de \
             cada programa. Não precisa desinstalar — basta desativar a sobreposição.",
        )
    } else {
        (
            "Mais de um sincronizador de nuvem rodando",
            "Cada cliente de nuvem vigia pastas e lê disco continuamente. Em PC com \
             disco mecânico ou com pouca memória, dois ou três somam bastante.",
            "Mantenha rodando o que você usa de verdade e feche os demais na inicialização. \
             A aba Sistema mostra quais deles sobem com o Windows.",
        )
    };
    Conflict {
        id: id.to_string(),
        title: title.to_string(),
        found,
        explanation: explanation.to_string(),
        advice: advice.to_string(),
        severity,
    }
}

fn str_eq_lit(a: &str, b: &str) -> (r: bool)
    ensures
        r == (a@ == b@),
{
    let va = chars_of(a);
    let vb = chars_of(b);
    same_chars(va.as_slice(), vb.as_slice())
}

/// Monta o relatório a partir do que foi lido: os programas instalados (ou por que não se leram), os processos
/// em execução já normalizados, e os antivírus com tempo real ligado (ou por que não se leram).
pub fn analyze(
    programas: Result<Vec<String>, String>,
    processos: &[String],
    antivirus: Result<Vec<String>, String>,
) -> (r: ConflictReport)
    ensures
        relatorio_certo(r, res_textos(programas), textos(processos@), res_textos(antivirus)),
{
    proof {
        lema_ids_distintos();
    }
    let ghost prog_v = res_textos(programas);
    let ghost av_v = res_textos(antivirus);
    let ghost procs = textos(processos@);
    let mut lacunas: Vec<String> = Vec::new();
    let lista = match programas {
        Ok(p) => Some(p),
        Err(erro) => {
            lacunas.push(juntar("Programas instalados: ", erro.as_str()));
            None
        },
    };
    let antivirus_ativos = match antivirus {
        Ok(a) => a,
        Err(erro) => {
            lacunas.push(erro);
            Vec::new()
        },
    };
    assert(textos(lacunas@) =~= lacunas_de(prog_v, av_v));
    let ghost av = textos(antivirus_ativos@);
    let ghost otim_set = match prog_v {
        Ok(p) => casados(p, otimizadores()),
        Err(_) => Set::<Seq<char>>::empty(),
    };
    let ghost sob_set = presentes(procs, sobreposicoes(), 6);
    let ghost nuv_set = presentes(procs, nuvem(), 5);
    let mut conflitos: Vec<Conflict> = Vec::new();
    let ghost mut ids: Seq<Seq<char>> = seq![];
    assert(todos_certos(conflitos@, ids, av, otim_set, sob_set, nuv_set));
    if antivirus_ativos.len() > 1 {
        let c = novo_conflito("antivirus", antivirus_ativos, FindingSeverity::Critical);
        proof {
            assert(lista_certa(c, av, otim_set, sob_set, nuv_set));
            lema_empurra(conflitos@, ids, c, av, otim_set, sob_set, nuv_set);
            ids = ids.push("antivirus"@);
        }
        conflitos.push(c);
    }
    assert(todos_certos(conflitos@, ids, av, otim_set, sob_set, nuv_set));
    let termos = lista_otimizadores();
    let otimizadores_achados = match &lista {
        Some(p) => casar(p.as_slice(), termos.as_slice()),
        None => Vec::new(),
    };
    proof {
        lema_crescente_conta(textos(otimizadores_achados@));
        if lista is None {
            assert(textos(otimizadores_achados@).to_set() =~= otim_set);
        }
        assert(textos(otimizadores_achados@).to_set() == otim_set);
        assert(crescente(textos(otimizadores_achados@)));
    }
    if otimizadores_achados.len() > 0 {
        let c = novo_conflito("optimizers", otimizadores_achados, FindingSeverity::Important);
        proof {
            assert(lista_certa(c, av, otim_set, sob_set, nuv_set));
            lema_empurra(conflitos@, ids, c, av, otim_set, sob_set, nuv_set);
            ids = ids.push("optimizers"@);
        }
        conflitos.push(c);
    }
    assert(todos_certos(conflitos@, ids, av, otim_set, sob_set, nuv_set));
    let alvos_sobre = lista_sobreposicoes();
    let sobre = casar_processos(processos, alvos_sobre.as_slice());
    proof {
        lema_crescente_conta(textos(sobre@));
        assert(alvos_sobre@.len() == 6);
        assert(textos(sobre@).to_set() == sob_set);
    }
    if sobre.len() > 2 {
        let c = novo_conflito("overlays", sobre, FindingSeverity::Important);
        proof {
            assert(lista_certa(c, av, otim_set, sob_set, nuv_set));
            lema_empurra(conflitos@, ids, c, av, otim_set, sob_set, nuv_set);
            ids = ids.push("overlays"@);
        }
        conflitos.push(c);
    }
    assert(todos_certos(conflitos@, ids, av, otim_set, sob_set, nuv_set));
    let alvos_nuvem = lista_nuvem();
    let nuv = casar_processos(processos, alvos_nuvem.as_slice());
    proof {
        lema_crescente_conta(textos(nuv@));
        assert(alvos_nuvem@.len() == 5);
        assert(textos(nuv@).to_set() == nuv_set);
    }
    if nuv.len() > 1 {
        let c = novo_conflito("cloud", nuv, FindingSeverity::Important);
        proof {
            assert(lista_certa(c, av, otim_set, sob_set, nuv_set));
            lema_empurra(conflitos@, ids, c, av, otim_set, sob_set, nuv_set);
            ids = ids.push("cloud"@);
        }
        conflitos.push(c);
    }
    assert(todos_certos(conflitos@, ids, av, otim_set, sob_set, nuv_set));
    proof {
        assert(ids =~= se(av.len() > 1, "antivirus"@) + se(otim_set.len() > 0, "optimizers"@) + se(
            sob_set.len() > 2,
            "overlays"@,
        ) + se(nuv_set.len() > 1, "cloud"@));
        assert(em_ordem_de_severidade(conflitos@));
        lei_fechar_preserva_o_que_ja_esta_em_ordem(conflitos@);
    }
    let scanned = match &lista {
        Some(p) => Some(p.len()),
        None => None,
    };
    let conflicts = fechar(conflitos, lacunas.as_slice());
    let r = ConflictReport { conflicts, programs_scanned: scanned, lacunas };
    assert(textos(r.lacunas@) == lacunas_de(prog_v, av_v));
    assert(r.programs_scanned == match prog_v {
        Ok(p) => Some(p.len() as usize),
        Err(_) => None::<usize>,
    });
    assert(r.conflicts@.len() == ids_esperados(av, otim_set, sob_set, nuv_set, lacunas_de(prog_v, av_v).len() == 0).len());
    r
}

} // verus!
