//! Anticheat: onde o Otimiza RECUSA trabalho, com o motivo na tela. Cliente banido é pior que PC travado. Três
//! evidências, só leitura: processo rodando, serviço no boot e driver instalado.

use vstd::prelude::*;
use crate::texto::{chars_of, minusculas, same_chars, to_lowercase};

verus! {

broadcast use vstd::string::group_string_axioms;

#[derive(Debug, Clone, Copy, PartialEq, Eq, Structural)]
pub enum AntiCheat {
    Vanguard,
    EasyAntiCheat,
    BattlEye,
    Vac,
    FaceIt,
}

pub open spec fn spec_nome(a: AntiCheat) -> Seq<char> {
    match a {
        AntiCheat::Vanguard => "Riot Vanguard"@,
        AntiCheat::EasyAntiCheat => "Easy Anti-Cheat"@,
        AntiCheat::BattlEye => "BattlEye"@,
        AntiCheat::Vac => "Valve Anti-Cheat"@,
        AntiCheat::FaceIt => "FACEIT Anti-Cheat"@,
    }
}

/// Kernel é a linha entre "melhor não" e "nunca".
pub open spec fn spec_e_de_kernel(a: AntiCheat) -> bool {
    match a {
        AntiCheat::Vanguard | AntiCheat::EasyAntiCheat | AntiCheat::BattlEye => true,
        AntiCheat::Vac | AntiCheat::FaceIt => false,
    }
}

impl AntiCheat {
    pub fn nome(self) -> (r: &'static str)
        ensures
            r@ == spec_nome(self),
    {
        match self {
            AntiCheat::Vanguard => "Riot Vanguard",
            AntiCheat::EasyAntiCheat => "Easy Anti-Cheat",
            AntiCheat::BattlEye => "BattlEye",
            AntiCheat::Vac => "Valve Anti-Cheat",
            AntiCheat::FaceIt => "FACEIT Anti-Cheat",
        }
    }

    pub fn e_de_kernel(self) -> (r: bool)
        ensures
            r == spec_e_de_kernel(self),
    {
        match self {
            AntiCheat::Vanguard | AntiCheat::EasyAntiCheat | AntiCheat::BattlEye => true,
            AntiCheat::Vac | AntiCheat::FaceIt => false,
        }
    }
}

#[derive(Debug, Clone)]
pub enum Evidencia {
    ProcessoRodando(String),
    ServicoNoBoot(String, u32),
    DriverInstalado(String),
}

#[derive(Debug, Clone)]
pub struct Presenca {
    pub qual: AntiCheat,
    pub evidencia: Evidencia,
    pub ativo_agora: bool,
}

/// A evidência como texto e número, para os contratos.
pub ghost enum EvidenciaV {
    ProcessoRodando(Seq<char>),
    ServicoNoBoot(Seq<char>, u32),
    DriverInstalado(Seq<char>),
}

pub open spec fn ev_view(e: Evidencia) -> EvidenciaV {
    match e {
        Evidencia::ProcessoRodando(s) => EvidenciaV::ProcessoRodando(s@),
        Evidencia::ServicoNoBoot(s, n) => EvidenciaV::ServicoNoBoot(s@, n),
        Evidencia::DriverInstalado(s) => EvidenciaV::DriverInstalado(s@),
    }
}

pub open spec fn pview(p: Presenca) -> (AntiCheat, EvidenciaV, bool) {
    (p.qual, ev_view(p.evidencia), p.ativo_agora)
}

pub open spec fn pviews(ps: Seq<Presenca>) -> Seq<(AntiCheat, EvidenciaV, bool)> {
    ps.map_values(|p: Presenca| pview(p))
}

/// Os executáveis de cada anticheat, em minúsculas.
pub open spec fn executaveis() -> Seq<(Seq<char>, AntiCheat)> {
    seq![
        ("vgc.exe"@, AntiCheat::Vanguard),
        ("vgtray.exe"@, AntiCheat::Vanguard),
        ("easyanticheat.exe"@, AntiCheat::EasyAntiCheat),
        ("easyanticheat_eos.exe"@, AntiCheat::EasyAntiCheat),
        ("beservice.exe"@, AntiCheat::BattlEye),
        ("bedaisy.exe"@, AntiCheat::BattlEye),
        ("faceitclient.exe"@, AntiCheat::FaceIt),
        ("faceitservice.exe"@, AntiCheat::FaceIt),
    ]
}

/// Os serviços de cada anticheat, na ordem em que `detectar` os consulta.
pub open spec fn servicos() -> Seq<(Seq<char>, AntiCheat)> {
    seq![
        ("vgc"@, AntiCheat::Vanguard),
        ("vgk"@, AntiCheat::Vanguard),
        ("EasyAntiCheat"@, AntiCheat::EasyAntiCheat),
        ("EasyAntiCheat_EOS"@, AntiCheat::EasyAntiCheat),
        ("BEService"@, AntiCheat::BattlEye),
        ("FACEIT"@, AntiCheat::FaceIt),
    ]
}

fn tabela_executaveis() -> (r: Vec<(&'static str, AntiCheat)>)
    ensures
        r@.len() == executaveis().len(),
        forall|i: int| 0 <= i < r@.len() ==> (#[trigger] r@[i]).0@ == executaveis()[i].0 && r@[i].1
            == executaveis()[i].1,
{
    vec![
        ("vgc.exe", AntiCheat::Vanguard),
        ("vgtray.exe", AntiCheat::Vanguard),
        ("easyanticheat.exe", AntiCheat::EasyAntiCheat),
        ("easyanticheat_eos.exe", AntiCheat::EasyAntiCheat),
        ("beservice.exe", AntiCheat::BattlEye),
        ("bedaisy.exe", AntiCheat::BattlEye),
        ("faceitclient.exe", AntiCheat::FaceIt),
        ("faceitservice.exe", AntiCheat::FaceIt),
    ]
}

/// Os nomes dos serviços de anticheat, na ordem em que `detectar` espera o valor `Start` de cada um.
pub fn tabela_servicos() -> (r: Vec<(&'static str, AntiCheat)>)
    ensures
        r@.len() == servicos().len(),
        forall|i: int| 0 <= i < r@.len() ==> (#[trigger] r@[i]).0@ == servicos()[i].0 && r@[i].1
            == servicos()[i].1,
{
    vec![
        ("vgc", AntiCheat::Vanguard),
        ("vgk", AntiCheat::Vanguard),
        ("EasyAntiCheat", AntiCheat::EasyAntiCheat),
        ("EasyAntiCheat_EOS", AntiCheat::EasyAntiCheat),
        ("BEService", AntiCheat::BattlEye),
        ("FACEIT", AntiCheat::FaceIt),
    ]
}

#[derive(Debug, Clone, Copy, PartialEq, Eq, Structural)]
pub enum Acao {
    AfinidadeNoJogo,
    EscreverIfeo,
    PlanoDeEnergia,
    MedirQuadros,
}

#[derive(Debug, Clone)]
pub enum Permissao {
    Pode,
    Recusado(String),
}

impl Permissao {
    pub fn pode(&self) -> (r: bool)
        ensures
            r == (*self is Pode),
    {
        match self {
            Permissao::Pode => true,
            Permissao::Recusado(_) => false,
        }
    }

    pub fn motivo(&self) -> (r: Option<&str>)
        ensures
            match *self {
                Permissao::Pode => r is None,
                Permissao::Recusado(t) => r matches Some(m) && m@ == t@,
            },
    {
        match self {
            Permissao::Pode => None,
            Permissao::Recusado(texto) => Some(texto.as_str()),
        }
    }
}

/// A primeira presença, a partir de `i`, que satisfaz o critério.
pub open spec fn primeira_ativa(ps: Seq<Presenca>, i: int) -> Option<int>
    decreases ps.len() - i,
{
    if i >= ps.len() || i < 0 {
        None
    } else if ps[i].ativo_agora {
        Some(i)
    } else {
        primeira_ativa(ps, i + 1)
    }
}

pub open spec fn primeira_de_kernel(ps: Seq<Presenca>, i: int) -> Option<int>
    decreases ps.len() - i,
{
    if i >= ps.len() || i < 0 {
        None
    } else if spec_e_de_kernel(ps[i].qual) {
        Some(i)
    } else {
        primeira_de_kernel(ps, i + 1)
    }
}

pub open spec fn recusa_afinidade(nome: Seq<char>) -> Seq<char> {
    "Não mexi nos núcleos do jogo: o "@ + nome
        + " está ativo, e alterar o processo do jogo com ele rodando é risco desnecessário. Nenhum ganho de núcleo vale uma conta banida."@
}

pub open spec fn recusa_ifeo(nome: Seq<char>) -> Seq<char> {
    "Não gravei a prioridade permanente: esta máquina tem "@ + nome
        + " instalado. A chave do registro que guarda essa configuração é a mesma usada por programas que sequestram a execução de outros, e um anticheat de núcleo tem todo o direito de estranhar."@
}

/// A regra: medir quadros e plano de energia sempre; mexer no processo do jogo só sem anticheat ativo; gravar IFEO
/// só sem anticheat de kernel instalado. O motivo nomeia o primeiro anticheat da lista que impede.
pub open spec fn spec_permite(acao: Acao, ps: Seq<Presenca>) -> Option<Seq<char>> {
    match acao {
        Acao::PlanoDeEnergia | Acao::MedirQuadros => None,
        Acao::AfinidadeNoJogo => match primeira_ativa(ps, 0) {
            Some(i) => Some(recusa_afinidade(spec_nome(ps[i].qual))),
            None => None,
        },
        Acao::EscreverIfeo => match primeira_de_kernel(ps, 0) {
            Some(i) => Some(recusa_ifeo(spec_nome(ps[i].qual))),
            None => None,
        },
    }
}

fn achar_ativa(ps: &[Presenca]) -> (r: Option<usize>)
    ensures
        match r {
            Some(i) => primeira_ativa(ps@, 0) == Some(i as int) && i < ps@.len(),
            None => primeira_ativa(ps@, 0) is None,
        },
{
    let mut i: usize = ps.len();
    let mut achado: Option<usize> = None;
    while i > 0
        invariant
            i <= ps@.len(),
            match achado {
                Some(k) => primeira_ativa(ps@, i as int) == Some(k as int) && k < ps@.len(),
                None => primeira_ativa(ps@, i as int) is None,
            },
        decreases i,
    {
        i = i - 1;
        if ps[i].ativo_agora {
            achado = Some(i);
        }
    }
    achado
}

fn achar_de_kernel(ps: &[Presenca]) -> (r: Option<usize>)
    ensures
        match r {
            Some(i) => primeira_de_kernel(ps@, 0) == Some(i as int) && i < ps@.len(),
            None => primeira_de_kernel(ps@, 0) is None,
        },
{
    let mut i: usize = ps.len();
    let mut achado: Option<usize> = None;
    while i > 0
        invariant
            i <= ps@.len(),
            match achado {
                Some(k) => primeira_de_kernel(ps@, i as int) == Some(k as int) && k < ps@.len(),
                None => primeira_de_kernel(ps@, i as int) is None,
            },
        decreases i,
    {
        i = i - 1;
        if ps[i].qual.e_de_kernel() {
            achado = Some(i);
        }
    }
    achado
}

/// A regra de risco mais importante do produto.
pub fn permite(acao: Acao, presencas: &[Presenca]) -> (r: Permissao)
    ensures
        match spec_permite(acao, presencas@) {
            None => r is Pode,
            Some(m) => r matches Permissao::Recusado(t) && t@ == m,
        },
{
    match acao {
        Acao::PlanoDeEnergia | Acao::MedirQuadros => Permissao::Pode,
        Acao::AfinidadeNoJogo => match achar_ativa(presencas) {
            Some(i) => {
                let mut t = "Não mexi nos núcleos do jogo: o ".to_string();
                t.append(presencas[i].qual.nome());
                t.append(
                    " está ativo, e alterar o processo do jogo com ele rodando é risco desnecessário. Nenhum ganho de núcleo vale uma conta banida.",
                );
                Permissao::Recusado(t)
            },
            None => Permissao::Pode,
        },
        Acao::EscreverIfeo => match achar_de_kernel(presencas) {
            Some(i) => {
                let mut t = "Não gravei a prioridade permanente: esta máquina tem ".to_string();
                t.append(presencas[i].qual.nome());
                t.append(
                    " instalado. A chave do registro que guarda essa configuração é a mesma usada por programas que sequestram a execução de outros, e um anticheat de núcleo tem todo o direito de estranhar.",
                );
                Permissao::Recusado(t)
            },
            None => Permissao::Pode,
        },
    }
}

/// Medir quadros e mudar o plano de energia nunca são recusados, haja o anticheat que houver.
pub proof fn lei_medir_e_plano_sempre_podem(ps: Seq<Presenca>)
    ensures
        spec_permite(Acao::MedirQuadros, ps) is None,
        spec_permite(Acao::PlanoDeEnergia, ps) is None,
{
}

proof fn lema_primeiras(ps: Seq<Presenca>, i: int)
    requires
        0 <= i <= ps.len(),
    ensures
        primeira_ativa(ps, i) is None <==> forall|j: int| i <= j < ps.len() ==> !(#[trigger] ps[j]).ativo_agora,
        primeira_ativa(ps, i) matches Some(k) ==> i <= k < ps.len() && ps[k].ativo_agora && forall|j: int|
            i <= j < k ==> !(#[trigger] ps[j]).ativo_agora,
        primeira_de_kernel(ps, i) is None <==> forall|j: int| i <= j < ps.len() ==> !spec_e_de_kernel((#[trigger] ps[j]).qual),
        primeira_de_kernel(ps, i) matches Some(k) ==> i <= k < ps.len() && spec_e_de_kernel(ps[k].qual) && forall|j: int|
            i <= j < k ==> !spec_e_de_kernel((#[trigger] ps[j]).qual),
    decreases ps.len() - i,
{
    if i < ps.len() {
        lema_primeiras(ps, i + 1);
    }
}

/// A regra de cada ação: afinidade no jogo só sem anticheat ativo agora; gravar IFEO só sem anticheat de kernel na
/// lista, ativo ou não; e a recusa nomeia o primeiro da lista que impede.
pub proof fn lei_regra_de_cada_acao(ps: Seq<Presenca>)
    ensures
        spec_permite(Acao::AfinidadeNoJogo, ps) is None <==> forall|j: int| 0 <= j < ps.len() ==> !(#[trigger] ps[j]).ativo_agora,
        spec_permite(Acao::EscreverIfeo, ps) is None <==> forall|j: int|
            0 <= j < ps.len() ==> !spec_e_de_kernel((#[trigger] ps[j]).qual),
        spec_permite(Acao::AfinidadeNoJogo, ps) matches Some(m) ==> exists|k: int|
            0 <= k < ps.len() && (#[trigger] ps[k]).ativo_agora && m == recusa_afinidade(spec_nome(ps[k].qual))
                && forall|j: int| 0 <= j < k ==> !(#[trigger] ps[j]).ativo_agora,
        spec_permite(Acao::EscreverIfeo, ps) matches Some(m) ==> exists|k: int|
            0 <= k < ps.len() && spec_e_de_kernel((#[trigger] ps[k]).qual) && m == recusa_ifeo(spec_nome(ps[k].qual))
                && forall|j: int| 0 <= j < k ==> !spec_e_de_kernel((#[trigger] ps[j]).qual),
{
    lema_primeiras(ps, 0);
}

proof fn lemma_sem_presenca(ps: Seq<Presenca>, i: int)
    requires
        ps.len() == 0,
    ensures
        primeira_ativa(ps, i) is None,
        primeira_de_kernel(ps, i) is None,
{
}

/// Máquina sem anticheat pode tudo: recusar sem motivo é o outro erro.
pub proof fn lei_maquina_limpa_pode_tudo(acao: Acao)
    ensures
        spec_permite(acao, Seq::<Presenca>::empty()) is None,
{
    lemma_sem_presenca(Seq::<Presenca>::empty(), 0);
}

/// O primeiro anticheat da tabela cujo executável é o nome dado, já em minúsculas.
pub open spec fn qual_processo(m: Seq<char>, k: int) -> Option<AntiCheat>
    decreases executaveis().len() - k,
{
    if k < 0 || k >= executaveis().len() {
        None
    } else if executaveis()[k].0 == m {
        Some(executaveis()[k].1)
    } else {
        qual_processo(m, k + 1)
    }
}

/// As presenças vistas pelos processos, na ordem da lista.
pub open spec fn pelos_processos(nomes: Seq<Seq<char>>) -> Seq<(AntiCheat, EvidenciaV, bool)>
    decreases nomes.len(),
{
    if nomes.len() == 0 {
        seq![]
    } else {
        let antes = pelos_processos(nomes.drop_last());
        match qual_processo(minusculas(nomes.last()), 0) {
            Some(q) => antes.push((q, EvidenciaV::ProcessoRodando(nomes.last()), true)),
            None => antes,
        }
    }
}

/// Já há uma presença ativa deste anticheat.
pub open spec fn ja_ativo(ps: Seq<(AntiCheat, EvidenciaV, bool)>, q: AntiCheat) -> bool {
    exists|i: int| 0 <= i < ps.len() && (#[trigger] ps[i]).0 == q && ps[i].2
}

/// Acrescenta os serviços `0..n`: sobe no boot (`Start` abaixo de 3) e não repete anticheat já ativo.
pub open spec fn com_servicos(
    base: Seq<(AntiCheat, EvidenciaV, bool)>,
    inicios: Seq<Option<u32>>,
    n: nat,
) -> Seq<(AntiCheat, EvidenciaV, bool)>
    decreases n,
{
    if n == 0 {
        base
    } else {
        let i = (n - 1) as int;
        let antes = com_servicos(base, inicios, (n - 1) as nat);
        let (servico, q) = servicos()[i];
        let lido: Option<u32> = if i < inicios.len() { inicios[i] } else { None };
        match lido {
            Some(inicio) => if inicio < 3 && !ja_ativo(antes, q) {
                antes.push((q, EvidenciaV::ServicoNoBoot(servico, inicio), inicio == 0))
            } else {
                antes
            },
            None => antes,
        }
    }
}

pub open spec fn strings(v: Seq<String>) -> Seq<Seq<char>> {
    v.map_values(|s: String| s@)
}

fn qual_exec(m: &[char], tabela: &Vec<(&'static str, AntiCheat)>) -> (r: Option<AntiCheat>)
    requires
        tabela@.len() == executaveis().len(),
        forall|i: int| 0 <= i < tabela@.len() ==> (#[trigger] tabela@[i]).0@ == executaveis()[i].0
            && tabela@[i].1 == executaveis()[i].1,
    ensures
        r == qual_processo(m@, 0),
{
    let mut k: usize = tabela.len();
    let mut r: Option<AntiCheat> = None;
    while k > 0
        invariant
            k <= tabela@.len(),
            tabela@.len() == executaveis().len(),
            forall|i: int| 0 <= i < tabela@.len() ==> (#[trigger] tabela@[i]).0@ == executaveis()[i].0
                && tabela@[i].1 == executaveis()[i].1,
            r == qual_processo(m@, k as int),
        decreases k,
    {
        k = k - 1;
        let exe = chars_of(tabela[k].0);
        if same_chars(exe.as_slice(), m) {
            r = Some(tabela[k].1);
        }
    }
    r
}

fn tem_ativo(ps: &Vec<Presenca>, q: AntiCheat) -> (r: bool)
    ensures
        r == ja_ativo(pviews(ps@), q),
{
    let mut i: usize = 0;
    while i < ps.len()
        invariant
            0 <= i <= ps@.len(),
            forall|k: int| 0 <= k < i ==> !((#[trigger] ps@[k]).qual == q && ps@[k].ativo_agora),
        decreases ps@.len() - i,
    {
        if ps[i].qual == q && ps[i].ativo_agora {
            assert(pviews(ps@)[i as int].0 == q && pviews(ps@)[i as int].2);
            return true;
        }
        i = i + 1;
    }
    assert forall|k: int| 0 <= k < pviews(ps@).len() implies !((#[trigger] pviews(ps@)[k]).0 == q
        && pviews(ps@)[k].2) by {
        assert(pviews(ps@)[k] == pview(ps@[k]));
    }
    false
}

/// `processos` são os nomes dos processos abertos; `inicio_dos_servicos[i]` é o valor `Start` do serviço `i` de
/// `tabela_servicos()` (nada quando a chave não existe ou não se lê).
/// Presença vinda de um serviço que sobe no boot, ativa só com `Start` 0.
pub open spec fn servico_no_boot(x: (AntiCheat, EvidenciaV, bool)) -> bool {
    match x.1 {
        EvidenciaV::ServicoNoBoot(_, inicio) => inicio < 3 && x.2 == (inicio == 0),
        _ => false,
    }
}

proof fn lema_servicos_depois(base: Seq<(AntiCheat, EvidenciaV, bool)>, inicios: Seq<Option<u32>>, n: nat)
    requires
        n <= servicos().len(),
    ensures
        base.len() <= com_servicos(base, inicios, n).len(),
        com_servicos(base, inicios, n).take(base.len() as int) == base,
        forall|k: int|
            base.len() <= k < com_servicos(base, inicios, n).len() ==> servico_no_boot(
                #[trigger] com_servicos(base, inicios, n)[k],
            ),
    decreases n,
{
    if n > 0 {
        let antes = com_servicos(base, inicios, (n - 1) as nat);
        lema_servicos_depois(base, inicios, (n - 1) as nat);
        let r = com_servicos(base, inicios, n);
        if r.len() > antes.len() {
            assert(r.take(base.len() as int) =~= antes.take(base.len() as int));
            assert forall|k: int| base.len() <= k < r.len() implies servico_no_boot(#[trigger] r[k]) by {
                if k < antes.len() {
                    assert(r[k] == antes[k]);
                }
            }
        }
    }
}

proof fn lema_processos_rodando(nomes: Seq<Seq<char>>)
    ensures
        forall|k: int|
            0 <= k < pelos_processos(nomes).len() ==> (#[trigger] pelos_processos(nomes)[k]).1 is ProcessoRodando
                && pelos_processos(nomes)[k].2,
    decreases nomes.len(),
{
    if nomes.len() > 0 {
        let antes = pelos_processos(nomes.drop_last());
        lema_processos_rodando(nomes.drop_last());
        assert forall|k: int| 0 <= k < pelos_processos(nomes).len() implies (#[trigger] pelos_processos(
            nomes,
        )[k]).1 is ProcessoRodando && pelos_processos(nomes)[k].2 by {
            if k < antes.len() {
                assert(pelos_processos(nomes)[k] == antes[k]);
            }
        }
    }
}

/// O que `detectar` devolve vem nesta ordem: primeiro os processos em execução (ativos agora), na ordem em que
/// foram listados; depois os serviços que sobem no boot (`Start` abaixo de 3), ativos só com `Start` 0.
pub proof fn lei_processos_antes_dos_servicos(nomes: Seq<Seq<char>>, inicios: Seq<Option<u32>>)
    ensures
        ({
            let b = pelos_processos(nomes);
            let r = com_servicos(b, inicios, servicos().len());
            &&& b.len() <= r.len()
            &&& r.take(b.len() as int) == b
            &&& forall|k: int| 0 <= k < b.len() ==> (#[trigger] r[k]).1 is ProcessoRodando && r[k].2
            &&& forall|k: int|
                b.len() <= k < r.len() ==> servico_no_boot(#[trigger] r[k])
        }),
{
    let b = pelos_processos(nomes);
    lema_servicos_depois(b, inicios, servicos().len());
    lema_processos_rodando(nomes);
    let r = com_servicos(b, inicios, servicos().len());
    assert forall|k: int| 0 <= k < b.len() implies (#[trigger] r[k]).1 is ProcessoRodando && r[k].2 by {
        assert(r.take(b.len() as int)[k] == r[k]);
    }
}

pub fn detectar(processos: &[String], inicio_dos_servicos: &[Option<u32>]) -> (r: Vec<Presenca>)
    ensures
        pviews(r@) == com_servicos(pelos_processos(strings(processos@)), inicio_dos_servicos@, servicos().len()),
{
    let tabela = tabela_executaveis();
    let mut achados: Vec<Presenca> = Vec::new();
    let mut i: usize = 0;
    while i < processos.len()
        invariant
            0 <= i <= processos@.len(),
            tabela@.len() == executaveis().len(),
            forall|t: int| 0 <= t < tabela@.len() ==> (#[trigger] tabela@[t]).0@ == executaveis()[t].0
                && tabela@[t].1 == executaveis()[t].1,
            pviews(achados@) == pelos_processos(strings(processos@).take(i as int)),
        decreases processos@.len() - i,
    {
        let ghost antes = achados@;
        let nome = chars_of(processos[i].as_str());
        let minusculo = to_lowercase(nome.as_slice());
        let qual = qual_exec(minusculo.as_slice(), &tabela);
        proof {
            assert(strings(processos@).take(i + 1).drop_last() =~= strings(processos@).take(i as int));
            assert(strings(processos@).take(i + 1).last() == processos@[i as int]@);
        }
        if let Some(q) = qual {
            achados.push(
                Presenca {
                    qual: q,
                    evidencia: Evidencia::ProcessoRodando(processos[i].clone()),
                    ativo_agora: true,
                },
            );
            assert(pviews(achados@) =~= pviews(antes).push(
                (q, EvidenciaV::ProcessoRodando(processos@[i as int]@), true),
            ));
        }
        i = i + 1;
    }
    assert(strings(processos@).take(i as int) =~= strings(processos@));
    let ghost base = pviews(achados@);
    let servs = tabela_servicos();
    let mut j: usize = 0;
    while j < servs.len()
        invariant
            0 <= j <= servs@.len(),
            servs@.len() == servicos().len(),
            forall|t: int| 0 <= t < servs@.len() ==> (#[trigger] servs@[t]).0@ == servicos()[t].0
                && servs@[t].1 == servicos()[t].1,
            pviews(achados@) == com_servicos(base, inicio_dos_servicos@, j as nat),
        decreases servs@.len() - j,
    {
        let ghost antes = achados@;
        let q = servs[j].1;
        if j < inicio_dos_servicos.len() {
            if let Some(inicio) = inicio_dos_servicos[j] {
                if inicio < 3 && !tem_ativo(&achados, q) {
                    achados.push(
                        Presenca {
                            qual: q,
                            evidencia: Evidencia::ServicoNoBoot(servs[j].0.to_string(), inicio),
                            ativo_agora: inicio == 0,
                        },
                    );
                    assert(pviews(achados@) =~= pviews(antes).push(
                        (q, EvidenciaV::ServicoNoBoot(servicos()[j as int].0, inicio), inicio == 0),
                    ));
                }
            }
        }
        j = j + 1;
    }
    achados
}


/// Gravar IFEO é recusado exatamente quando a lista tem Vanguard, Easy Anti-Cheat ou BattlEye, ativo agora ou
/// não; VAC e FACEIT não impedem.
pub proof fn lei_ifeo_recusado_com_anticheat_de_kernel(ps: Seq<Presenca>)
    ensures
        spec_permite(Acao::EscreverIfeo, ps) is Some <==> exists|k: int|
            0 <= k < ps.len() && ((#[trigger] ps[k]).qual == AntiCheat::Vanguard || ps[k].qual == AntiCheat::EasyAntiCheat
                || ps[k].qual == AntiCheat::BattlEye),
{
    lei_regra_de_cada_acao(ps);
    if exists|k: int|
        0 <= k < ps.len() && ((#[trigger] ps[k]).qual == AntiCheat::Vanguard || ps[k].qual == AntiCheat::EasyAntiCheat
            || ps[k].qual == AntiCheat::BattlEye) {
        let k = choose|k: int|
            0 <= k < ps.len() && ((#[trigger] ps[k]).qual == AntiCheat::Vanguard || ps[k].qual == AntiCheat::EasyAntiCheat
                || ps[k].qual == AntiCheat::BattlEye);
        assert(spec_e_de_kernel(ps[k].qual));
    }
    if spec_permite(Acao::EscreverIfeo, ps) is Some {
        let k = choose|k: int| 0 <= k < ps.len() && spec_e_de_kernel((#[trigger] ps[k]).qual);
        assert(0 <= k < ps.len() && spec_e_de_kernel(ps[k].qual));
    }
}

} // verus!
