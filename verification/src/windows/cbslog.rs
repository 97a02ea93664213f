//! O resultado do `sfc` lido pelas marcas `[SR]` do CBS.log, que não são traduzidas; a saída do console é, e
//! compará-la quebraria em outro idioma.

use vstd::prelude::*;
use crate::texto::{
    chars_of, contains, contains_exec, last_occ, lemma_last_occ, lines, lines_exec, rfind, same_chars,
    skip_chars, sub_chars, trim_end, trim_end_chars, views,
};

verus! {

broadcast use {
    vstd::string::group_string_axioms,
    vstd::seq_lib::group_seq_properties,
    vstd::set::group_set_axioms,
};

#[derive(Debug, Clone, PartialEq, Eq)]
pub enum ResultadoSfc {
    SemCorrupcao,
    Corrigiu { quantos: usize },
    /// Sobrou corrupção sem conserto: `Corrigiu` esconderia que é preciso reparar a imagem do Windows.
    CorrigiuEmParte { corrigidos: usize, restantes: usize },
    NaoConseguiu { quantos: usize },
    /// Os nomes legíveis foram consertados, mas houve linhas de falha sem nome: não se sabe se sobrou corrupção nelas.
    CorrigiuComRessalva { quantos: usize, linhas_ilegiveis: usize },
    /// NUNCA vira `SemCorrupcao`.
    NaoSei { motivo: String },
}

/// O tom com que a tela mostra o resultado, decidido aqui pelo dado e não pelo texto.
#[derive(Debug, Clone, Copy, PartialEq, Eq, Structural)]
pub enum Severidade {
    TudoBem,
    Atencao,
    Erro,
}

/// O resultado como números e texto, para os contratos.
pub ghost enum VereditoSfc {
    SemCorrupcao,
    Corrigiu(nat),
    CorrigiuEmParte(nat, nat),
    NaoConseguiu(nat),
    CorrigiuComRessalva(nat, nat),
    NaoSei(Seq<char>),
}

pub open spec fn visto(r: ResultadoSfc) -> VereditoSfc {
    match r {
        ResultadoSfc::SemCorrupcao => VereditoSfc::SemCorrupcao,
        ResultadoSfc::Corrigiu { quantos } => VereditoSfc::Corrigiu(quantos as nat),
        ResultadoSfc::CorrigiuEmParte { corrigidos, restantes } => VereditoSfc::CorrigiuEmParte(
            corrigidos as nat,
            restantes as nat,
        ),
        ResultadoSfc::NaoConseguiu { quantos } => VereditoSfc::NaoConseguiu(quantos as nat),
        ResultadoSfc::CorrigiuComRessalva { quantos, linhas_ilegiveis } => VereditoSfc::CorrigiuComRessalva(
            quantos as nat,
            linhas_ilegiveis as nat,
        ),
        ResultadoSfc::NaoSei { motivo } => VereditoSfc::NaoSei(motivo@),
    }
}

/// Os dois "corrigiu em parte" e "não conseguiu" deixaram corrupção; separa-os o progresso (zero corrigidos é
/// `Erro`: reparar a imagem vira o único caminho). Incerteza é tom intermediário, nunca o pior sem prova e nunca
/// o de sucesso.
pub open spec fn spec_severidade(r: ResultadoSfc) -> Severidade {
    match r {
        ResultadoSfc::SemCorrupcao | ResultadoSfc::Corrigiu { .. } => Severidade::TudoBem,
        ResultadoSfc::CorrigiuEmParte { .. } => Severidade::Atencao,
        ResultadoSfc::NaoConseguiu { .. } => Severidade::Erro,
        ResultadoSfc::NaoSei { .. } => Severidade::Atencao,
        ResultadoSfc::CorrigiuComRessalva { .. } => Severidade::Atencao,
    }
}

impl ResultadoSfc {
    pub fn severidade(&self) -> (r: Severidade)
        ensures
            r == spec_severidade(*self),
    {
        match self {
            ResultadoSfc::SemCorrupcao | ResultadoSfc::Corrigiu { .. } => Severidade::TudoBem,
            ResultadoSfc::CorrigiuEmParte { .. } => Severidade::Atencao,
            ResultadoSfc::NaoConseguiu { .. } => Severidade::Erro,
            ResultadoSfc::NaoSei { .. } => Severidade::Atencao,
            ResultadoSfc::CorrigiuComRessalva { .. } => Severidade::Atencao,
        }
    }
}

/// Só o que não deixou corrupção nem dúvida recebe o tom de sucesso.
pub proof fn lei_so_o_limpo_tem_tom_de_sucesso(r: ResultadoSfc)
    ensures
        spec_severidade(r) == Severidade::TudoBem <==> (r is SemCorrupcao || r is Corrigiu),
        spec_severidade(r) == Severidade::Erro <==> r is NaoConseguiu,
{
}

pub open spec fn inicio_da_passagem() -> Seq<char> {
    "Beginning Verify and Repair transaction"@
}

pub open spec fn marca() -> Seq<char> {
    "[SR]"@
}

pub open spec fn frase_de_falha() -> Seq<char> {
    "Cannot repair member file"@
}

pub open spec fn frase_de_reparo() -> Seq<char> {
    "Repairing corrupted file"@
}

pub open spec fn sem_inicio() -> Seq<char> {
    "o registro do Windows não marca onde a última verificação começou"@
}

pub open spec fn sem_verificacao() -> Seq<char> {
    "o registro do Windows não trouxe nenhuma verificação"@
}

pub open spec fn sem_nome() -> Seq<char> {
    "o registro do Windows mostra arquivos sem reparo, mas nenhuma linha veio no formato esperado para dizer qual"@
}

/// A ÚLTIMA execução: o CBS.log guarda todas, e somar o arquivo dava contagens de execução nenhuma sob o rótulo
/// "a última verificação".
pub open spec fn ultima_passagem(c: Seq<char>) -> Option<Seq<char>> {
    if contains(c, inicio_da_passagem()) {
        Some(c.skip(last_occ(c, inicio_da_passagem())))
    } else {
        None
    }
}

/// A posição do último apóstrofo, ou -1.
pub open spec fn ultima_aspa(s: Seq<char>) -> int
    decreases s.len(),
{
    if s.len() == 0 {
        -1
    } else if s.last() == '\'' {
        s.len() - 1
    } else {
        ultima_aspa(s.drop_last())
    }
}

/// A posição da última barra, invertida ou não, ou -1.
pub open spec fn ultima_barra(s: Seq<char>) -> int
    decreases s.len(),
{
    if s.len() == 0 {
        -1
    } else if s.last() == '\\' || s.last() == '/' {
        s.len() - 1
    } else {
        ultima_barra(s.drop_last())
    }
}

/// O nome entre o último par de apóstrofos. `None` sem o par: inventar nome poderia esconder uma falha ou inflar
/// `restantes` para sempre.
pub open spec fn nome_nao_reparado(l: Seq<char>) -> Option<Seq<char>> {
    let fim = ultima_aspa(l);
    if fim < 0 {
        None
    } else {
        let inicio = ultima_aspa(l.take(fim));
        if inicio < 0 || inicio + 1 >= fim {
            None
        } else {
            Some(l.subrange(inicio + 1, fim))
        }
    }
}

/// O que vem depois da última barra, sem o branco do fim. Barra invertida ou não: nada garante o formato em todas
/// as versões.
pub open spec fn nome_reparado(l: Seq<char>) -> Option<Seq<char>> {
    let t = trim_end(l);
    let nome = t.skip(ultima_barra(t) + 1);
    if nome.len() > 0 {
        Some(nome)
    } else {
        None
    }
}

pub open spec fn eh_marca(l: Seq<char>) -> bool {
    contains(l, marca())
}

pub open spec fn eh_falha(l: Seq<char>) -> bool {
    eh_marca(l) && contains(l, frase_de_falha())
}

pub open spec fn eh_reparo(l: Seq<char>) -> bool {
    eh_marca(l) && contains(l, frase_de_reparo())
}

pub open spec fn tem_marca(ls: Seq<Seq<char>>) -> bool {
    exists|i: int| 0 <= i < ls.len() && eh_marca(#[trigger] ls[i])
}

pub open spec fn tem_falha(ls: Seq<Seq<char>>) -> bool {
    exists|i: int| 0 <= i < ls.len() && eh_falha(#[trigger] ls[i])
}

/// Os arquivos que alguma linha de falha nomeia, por NOME: o `sfc` registra a mesma falha duas vezes antes de
/// consertar por outra fonte.
pub open spec fn nao_reparados(ls: Seq<Seq<char>>) -> Set<Seq<char>>
    decreases ls.len(),
{
    if ls.len() == 0 {
        Set::empty()
    } else {
        let antes = nao_reparados(ls.drop_last());
        if eh_falha(ls.last()) && nome_nao_reparado(ls.last()) is Some {
            antes.insert(nome_nao_reparado(ls.last())->0)
        } else {
            antes
        }
    }
}

/// Os arquivos que alguma linha de reparo nomeia.
pub open spec fn reparados(ls: Seq<Seq<char>>) -> Set<Seq<char>>
    decreases ls.len(),
{
    if ls.len() == 0 {
        Set::empty()
    } else {
        let antes = reparados(ls.drop_last());
        if eh_reparo(ls.last()) && nome_reparado(ls.last()) is Some {
            antes.insert(nome_reparado(ls.last())->0)
        } else {
            antes
        }
    }
}

/// Quantas linhas de falha não trazem nome legível.
pub open spec fn ilegiveis(ls: Seq<Seq<char>>) -> nat
    decreases ls.len(),
{
    if ls.len() == 0 {
        0
    } else {
        ilegiveis(ls.drop_last()) + if eh_falha(ls.last()) && nome_nao_reparado(ls.last()) is None {
            1nat
        } else {
            0nat
        }
    }
}

/// O veredito das linhas da última passagem.
pub open spec fn veredito_das_linhas(ls: Seq<Seq<char>>) -> VereditoSfc {
    let nao = nao_reparados(ls);
    let consertados = nao.intersect(reparados(ls)).len();
    let restantes = nao.len() - consertados;
    if !tem_marca(ls) {
        VereditoSfc::NaoSei(sem_verificacao())
    } else if !tem_falha(ls) {
        VereditoSfc::SemCorrupcao
    } else if nao.len() == 0 {
        // Falha no log sem nenhum nome legível: não é "sem corrupção", é "não consegui nomear".
        VereditoSfc::NaoSei(sem_nome())
    } else if consertados == 0 {
        VereditoSfc::NaoConseguiu(nao.len())
    } else if restantes == 0 {
        if ilegiveis(ls) > 0 {
            VereditoSfc::CorrigiuComRessalva(consertados, ilegiveis(ls))
        } else {
            VereditoSfc::Corrigiu(consertados)
        }
    } else {
        VereditoSfc::CorrigiuEmParte(consertados, restantes as nat)
    }
}

/// O veredito do CBS.log inteiro: só a última passagem conta.
pub open spec fn spec_interpretar(c: Seq<char>) -> VereditoSfc {
    match ultima_passagem(c) {
        None => VereditoSfc::NaoSei(if contains(c, marca()) { sem_inicio() } else { sem_verificacao() }),
        Some(p) => veredito_das_linhas(lines(p)),
    }
}

/// Só a última passagem conta; nada que tenha linha de falha vira "sem corrupção", "sem corrupção" exige ao
/// menos uma linha `[SR]` nessa passagem, e o que não tem verificação nunca vira resultado.
pub proof fn lei_falha_nunca_vira_sem_corrupcao(c: Seq<char>)
    ensures
        ultima_passagem(c) matches Some(p) ==> spec_interpretar(c) == veredito_das_linhas(lines(p)),
        spec_interpretar(c) is SemCorrupcao ==> ultima_passagem(c) is Some && !tem_falha(
            lines(ultima_passagem(c)->0),
        ) && tem_marca(lines(ultima_passagem(c)->0)),
        !contains(c, inicio_da_passagem()) ==> spec_interpretar(c) is NaoSei,
{
}

fn ultima_aspa_exec(s: &[char]) -> (r: Option<usize>)
    ensures
        match r {
            Some(i) => i == ultima_aspa(s@) && i < s@.len(),
            None => ultima_aspa(s@) < 0,
        },
{
    let mut k: usize = s.len();
    assert(s@.take(k as int) =~= s@);
    while k > 0
        invariant
            k <= s@.len(),
            ultima_aspa(s@) == ultima_aspa(s@.take(k as int)),
        decreases k,
    {
        if s[k - 1] == '\'' {
            return Some(k - 1);
        }
        assert(s@.take(k as int).drop_last() =~= s@.take(k - 1));
        k = k - 1;
    }
    None
}

fn ultima_barra_exec(s: &[char]) -> (r: Option<usize>)
    ensures
        match r {
            Some(i) => i == ultima_barra(s@) && i < s@.len(),
            None => ultima_barra(s@) < 0,
        },
{
    let mut k: usize = s.len();
    assert(s@.take(k as int) =~= s@);
    while k > 0
        invariant
            k <= s@.len(),
            ultima_barra(s@) == ultima_barra(s@.take(k as int)),
        decreases k,
    {
        if s[k - 1] == '\\' || s[k - 1] == '/' {
            return Some(k - 1);
        }
        assert(s@.take(k as int).drop_last() =~= s@.take(k - 1));
        k = k - 1;
    }
    None
}

proof fn lema_ultima_aspa(s: Seq<char>)
    ensures
        -1 <= ultima_aspa(s) < s.len(),
    decreases s.len(),
{
    if s.len() > 0 {
        lema_ultima_aspa(s.drop_last());
    }
}

proof fn lema_ultima_barra(s: Seq<char>)
    ensures
        -1 <= ultima_barra(s) < s.len(),
    decreases s.len(),
{
    if s.len() > 0 {
        lema_ultima_barra(s.drop_last());
    }
}

pub open spec fn opt_view(o: Option<Vec<char>>) -> Option<Seq<char>> {
    match o {
        Some(v) => Some(v@),
        None => None,
    }
}

fn nome_nao_reparado_exec(l: &[char]) -> (r: Option<Vec<char>>)
    ensures
        opt_view(r) == nome_nao_reparado(l@),
{
    proof {
        lema_ultima_aspa(l@);
    }
    let fim = match ultima_aspa_exec(l) {
        Some(f) => f,
        None => return None,
    };
    let antes = sub_chars(l, 0, fim);
    assert(antes@ =~= l@.take(fim as int));
    proof {
        lema_ultima_aspa(antes@);
    }
    let inicio = match ultima_aspa_exec(antes.as_slice()) {
        Some(i) => i,
        None => return None,
    };
    if inicio + 1 >= fim {
        return None;
    }
    Some(sub_chars(l, inicio + 1, fim))
}

fn nome_reparado_exec(l: &[char]) -> (r: Option<Vec<char>>)
    ensures
        opt_view(r) == nome_reparado(l@),
{
    let t = trim_end_chars(l);
    proof {
        lema_ultima_barra(t@);
    }
    let nome = match ultima_barra_exec(t.as_slice()) {
        Some(b) => {
            let n = t.len();
            assert(b < n);
            skip_chars(t.as_slice(), b + 1)
        },
        None => {
            assert(t@.skip(0) =~= t@);
            t
        },
    };
    if nome.len() > 0 {
        Some(nome)
    } else {
        None
    }
}

/// `v` já traz `n`.
fn tem(v: &Vec<Vec<char>>, n: &[char]) -> (r: bool)
    ensures
        r == views(v@).contains(n@),
{
    let mut i: usize = 0;
    while i < v.len()
        invariant
            0 <= i <= v@.len(),
            forall|k: int| 0 <= k < i ==> views(v@)[k] != n@,
        decreases v@.len() - i,
    {
        if same_chars(v[i].as_slice(), n) {
            assert(views(v@)[i as int] == n@);
            return true;
        }
        i = i + 1;
    }
    false
}

proof fn lema_prefixo(vs: Seq<Seq<char>>, i: int)
    requires
        0 <= i < vs.len(),
    ensures
        tem_marca(vs.take(i + 1)) == (tem_marca(vs.take(i)) || eh_marca(vs[i])),
        tem_falha(vs.take(i + 1)) == (tem_falha(vs.take(i)) || eh_falha(vs[i])),
        vs.take(i + 1).drop_last() == vs.take(i),
        vs.take(i + 1).last() == vs[i],
{
    let antes = vs.take(i);
    let depois = vs.take(i + 1);
    assert(depois.drop_last() =~= antes);
    assert(depois[i] == vs[i]);
    if tem_marca(depois) && !eh_marca(vs[i]) {
        let k = choose|k: int| 0 <= k < depois.len() && eh_marca(#[trigger] depois[k]);
        assert(antes[k] == depois[k]);
    }
    if tem_marca(antes) {
        let k = choose|k: int| 0 <= k < antes.len() && eh_marca(#[trigger] antes[k]);
        assert(antes[k] == depois[k]);
    }
    if tem_falha(depois) && !eh_falha(vs[i]) {
        let k = choose|k: int| 0 <= k < depois.len() && eh_falha(#[trigger] depois[k]);
        assert(antes[k] == depois[k]);
    }
    if tem_falha(antes) {
        let k = choose|k: int| 0 <= k < antes.len() && eh_falha(#[trigger] antes[k]);
        assert(antes[k] == depois[k]);
    }
}

/// O que as linhas trazem: se há marca, se há falha, os nomes sem reparo (sem repetição), os nomes reparados e
/// quantas falhas vieram sem nome.
fn varrer(ls: &Vec<Vec<char>>) -> (r: (bool, bool, Vec<Vec<char>>, Vec<Vec<char>>, usize))
    ensures
        r.0 == tem_marca(views(ls@)),
        r.1 == tem_falha(views(ls@)),
        views(r.2@).no_duplicates(),
        views(r.2@).to_set() == nao_reparados(views(ls@)),
        views(r.3@).to_set() == reparados(views(ls@)),
        r.4 == ilegiveis(views(ls@)),
{
    let ghost vs = views(ls@);
    let marca_v = chars_of("[SR]");
    let falha_v = chars_of("Cannot repair member file");
    let reparo_v = chars_of("Repairing corrupted file");
    let mut viu_marca = false;
    let mut viu_falha = false;
    let mut nao: Vec<Vec<char>> = Vec::new();
    let mut rep: Vec<Vec<char>> = Vec::new();
    let mut ileg: usize = 0;
    let mut i: usize = 0;
    while i < ls.len()
        invariant
            0 <= i <= ls@.len(),
            vs == views(ls@),
            marca_v@ == marca(),
            falha_v@ == frase_de_falha(),
            reparo_v@ == frase_de_reparo(),
            viu_marca == tem_marca(vs.take(i as int)),
            viu_falha == tem_falha(vs.take(i as int)),
            views(nao@).no_duplicates(),
            views(nao@).to_set() == nao_reparados(vs.take(i as int)),
            views(rep@).to_set() == reparados(vs.take(i as int)),
            ileg == ilegiveis(vs.take(i as int)),
            ileg <= i,
        decreases ls@.len() - i,
    {
        proof {
            lema_prefixo(vs, i as int);
        }
        let l = ls[i].as_slice();
        assert(l@ == vs[i as int]);
        let e_marca = contains_exec(l, marca_v.as_slice());
        let e_falha = e_marca && contains_exec(l, falha_v.as_slice());
        let e_reparo = e_marca && contains_exec(l, reparo_v.as_slice());
        viu_marca = viu_marca || e_marca;
        viu_falha = viu_falha || e_falha;
        if e_falha {
            match nome_nao_reparado_exec(l) {
                Some(n) => {
                    if !tem(&nao, n.as_slice()) {
                        let ghost velho = views(nao@);
                        let ghost nv = n@;
                        nao.push(n);
                        assert(views(nao@) =~= velho.push(nv));
                    } else {
                        assert(views(nao@).to_set().insert(n@) =~= views(nao@).to_set());
                    }
                },
                None => {
                    ileg = ileg + 1;
                },
            }
        }
        if e_reparo {
            match nome_reparado_exec(l) {
                Some(n) => {
                    let ghost velho = views(rep@);
                    let ghost nv = n@;
                    rep.push(n);
                    assert(views(rep@) =~= velho.push(nv));
                },
                None => {},
            }
        }
        i = i + 1;
    }
    assert(vs.take(ls@.len() as int) =~= vs);
    (viu_marca, viu_falha, nao, rep, ileg)
}

/// Quantos nomes de `nao` também estão em `rep`: a interseção dos dois conjuntos, contada sobre os nomes únicos.
fn conta_comuns(nao: &Vec<Vec<char>>, rep: &Vec<Vec<char>>) -> (r: usize)
    requires
        views(nao@).no_duplicates(),
    ensures
        r == views(nao@).to_set().intersect(views(rep@).to_set()).len(),
        r <= nao@.len(),
{
    let ghost rep_set = views(rep@).to_set();
    let mut k: usize = 0;
    let mut consertados: usize = 0;
    let ghost mut comuns: Seq<Seq<char>> = Seq::empty();
    while k < nao.len()
        invariant
            0 <= k <= nao@.len(),
            views(nao@).no_duplicates(),
            rep_set == views(rep@).to_set(),
            comuns.no_duplicates(),
            comuns.to_set() == views(nao@).take(k as int).to_set().intersect(rep_set),
            forall|t: int| 0 <= t < comuns.len() ==> views(nao@).take(k as int).contains(#[trigger] comuns[t]),
            consertados == comuns.len(),
            consertados <= k,
        decreases nao@.len() - k,
    {
        let ghost nk = views(nao@)[k as int];
        let ghost antes = views(nao@).take(k as int);
        let ghost depois = views(nao@).take(k + 1);
        assert(depois =~= antes.push(nk));
        assert(!antes.contains(nk));
        proof {
            antes.lemma_push_to_set_commute(nk);
        }
        assert(depois.to_set() =~= antes.to_set().insert(nk));
        let achou = tem(rep, nao[k].as_slice());
        proof {
            assert forall|t: int| 0 <= t < comuns.len() implies depois.contains(#[trigger] comuns[t]) by {
                let j = choose|j: int| 0 <= j < antes.len() && antes[j] == comuns[t];
                assert(depois[j] == comuns[t]);
            }
            if achou {
                assert(rep_set.contains(nk));
                let velho = comuns;
                comuns = comuns.push(nk);
                velho.lemma_push_to_set_commute(nk);
                assert(comuns.to_set() =~= depois.to_set().intersect(rep_set));
                assert forall|t: int| 0 <= t < comuns.len() implies depois.contains(#[trigger] comuns[t]) by {
                    if t < velho.len() {
                        assert(comuns[t] == velho[t]);
                    } else {
                        assert(depois[k as int] == nk);
                    }
                }
            } else {
                assert(!rep_set.contains(nk));
                assert(depois.to_set().intersect(rep_set) =~= antes.to_set().intersect(rep_set));
            }
        }
        if achou {
            consertados = consertados + 1;
        }
        k = k + 1;
    }
    proof {
        assert(views(nao@).take(nao@.len() as int) =~= views(nao@));
        comuns.unique_seq_to_set();
    }
    consertados
}

fn veredito_exec(ls: &Vec<Vec<char>>) -> (r: ResultadoSfc)
    ensures
        visto(r) == veredito_das_linhas(views(ls@)),
{
    let (viu_marca, viu_falha, nao, rep, ileg) = varrer(ls);
    proof {
        views(nao@).unique_seq_to_set();
    }
    if !viu_marca {
        return ResultadoSfc::NaoSei { motivo: "o registro do Windows não trouxe nenhuma verificação".to_string() };
    }
    if !viu_falha {
        return ResultadoSfc::SemCorrupcao;
    }
    if nao.len() == 0 {
        return ResultadoSfc::NaoSei {
            motivo: "o registro do Windows mostra arquivos sem reparo, mas nenhuma linha veio no formato esperado para dizer qual".to_string(),
        };
    }
    let consertados = conta_comuns(&nao, &rep);
    let restantes = nao.len() - consertados;
    if consertados == 0 {
        ResultadoSfc::NaoConseguiu { quantos: nao.len() }
    } else if restantes == 0 {
        if ileg > 0 {
            ResultadoSfc::CorrigiuComRessalva { quantos: consertados, linhas_ilegiveis: ileg }
        } else {
            ResultadoSfc::Corrigiu { quantos: consertados }
        }
    } else {
        ResultadoSfc::CorrigiuEmParte { corrigidos: consertados, restantes }
    }
}

/// Interpreta o conteúdo do CBS.log.
pub fn interpretar(conteudo: &str) -> (r: ResultadoSfc)
    ensures
        visto(r) == spec_interpretar(conteudo@),
{
    let c = chars_of(conteudo);
    let inicio = chars_of("Beginning Verify and Repair transaction");
    match rfind(c.as_slice(), inicio.as_slice()) {
        None => {
            // Log sem `sfc` e log sem início identificável são causas diferentes; as duas são `NaoSei`.
            let marca_v = chars_of("[SR]");
            if contains_exec(c.as_slice(), marca_v.as_slice()) {
                ResultadoSfc::NaoSei {
                    motivo: "o registro do Windows não marca onde a última verificação começou".to_string(),
                }
            } else {
                ResultadoSfc::NaoSei {
                    motivo: "o registro do Windows não trouxe nenhuma verificação".to_string(),
                }
            }
        },
        Some(i) => {
            proof {
                lemma_last_occ(c@, inicio@, i as int);
            }
            let passagem = skip_chars(c.as_slice(), i);
            let ls = lines_exec(passagem.as_slice());
            veredito_exec(&ls)
        },
    }
}

} // verus!
