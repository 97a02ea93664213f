//! As decisões da coleta do painel sobre o que os contadores entregaram: que volumes e interfaces entram na
//! soma, quando uma taxa pode ser publicada e quando ela é ausência de dado. A leitura dos contadores e as
//! contas em ponto flutuante ficam com o aplicativo.

use vstd::prelude::*;
use crate::ordem::textos;
use crate::texto::{chars_of, same_chars};

verus! {

broadcast use vstd::string::group_string_axioms;

/// As duas listas têm os mesmos textos.
pub fn mesmo_conjunto(a: &[String], b: &[String]) -> (r: bool)
    ensures
        r == (textos(a@).to_set() == textos(b@).to_set()),
{
    let r = contidos(a, b) && contidos(b, a);
    proof {
        if r {
            assert(textos(a@).to_set() =~= textos(b@).to_set());
        } else if contidos_spec(a@, b@) {
            assert(!contidos_spec(b@, a@));
            let k = choose|k: int| 0 <= k < b@.len() && !textos(a@).contains(#[trigger] textos(b@)[k]);
            assert(textos(b@).to_set().contains(textos(b@)[k]));
        } else {
            let k = choose|k: int| 0 <= k < a@.len() && !textos(b@).contains(#[trigger] textos(a@)[k]);
            assert(textos(a@).to_set().contains(textos(a@)[k]));
        }
    }
    r
}

pub open spec fn contidos_spec(a: Seq<String>, b: Seq<String>) -> bool {
    forall|k: int| 0 <= k < a.len() ==> textos(b).contains(#[trigger] textos(a)[k])
}

fn contidos(a: &[String], b: &[String]) -> (r: bool)
    ensures
        r == contidos_spec(a@, b@),
{
    let mut i: usize = 0;
    while i < a.len()
        invariant
            i <= a@.len(),
            forall|k: int| 0 <= k < i ==> textos(b@).contains(#[trigger] textos(a@)[k]),
        decreases a@.len() - i,
    {
        let x = chars_of(a[i].as_str());
        let mut achou = false;
        let mut j: usize = 0;
        while j < b.len() && !achou
            invariant
                j <= b@.len(),
                i < a@.len(),
                x@ == a@[i as int]@,
                achou ==> textos(b@).contains(textos(a@)[i as int]),
                !achou ==> forall|t: int| 0 <= t < j ==> textos(b@)[t] != textos(a@)[i as int],
            decreases b@.len() - j + (if achou { 0int } else { 1int }),
        {
            let y = chars_of(b[j].as_str());
            if same_chars(x.as_slice(), y.as_slice()) {
                assert(textos(b@)[j as int] == textos(a@)[i as int]);
                achou = true;
            } else {
                j = j + 1;
            }
        }
        if !achou {
            assert(!textos(b@).contains(textos(a@)[i as int]));
            return false;
        }
        i = i + 1;
    }
    true
}

/// Guarda a lista vista agora no lugar da anterior e diz se ela mudou: sem lista anterior, não mudou.
pub fn trocar_vistos(vistos: &mut Option<Vec<String>>, agora: Vec<String>) -> (mudou: bool)
    ensures
        *final(vistos) == Some(agora),
        mudou == match *old(vistos) {
            Some(antes) => textos(antes@).to_set() != textos(agora@).to_set(),
            None => false,
        },
{
    let mudou = match vistos {
        Some(antes) => !mesmo_conjunto(antes.as_slice(), agora.as_slice()),
        None => false,
    };
    *vistos = Some(agora);
    mudou
}

/// Um volume como o sistema o lista.
pub struct VolumeLido {
    pub ponto: String,
    pub removivel: bool,
    pub somente_leitura: bool,
    pub total: u64,
    pub disponivel: u64,
    /// Bytes lidos e escritos desde a leitura anterior.
    pub lidos: u64,
    pub escritos: u64,
}

/// Entra na capacidade: volume fixo e gravável (um ISO montado está sempre cheio e não diz nada da máquina), e
/// só a primeira vez que o mesmo ponto aparece.
pub open spec fn conta_na_capacidade(vs: Seq<VolumeLido>, i: int) -> bool {
    &&& !vs[i].removivel
    &&& !vs[i].somente_leitura
    &&& forall|j: int| 0 <= j < i && !vs[j].removivel && !vs[j].somente_leitura ==> #[trigger] vs[j].ponto@ != vs[i].ponto@
}

pub open spec fn usado(v: VolumeLido) -> nat {
    if v.total >= v.disponivel {
        (v.total - v.disponivel) as nat
    } else {
        0
    }
}

/// Capacidade total e usada dos volumes que contam, entre os `n` primeiros.
pub open spec fn capacidade(vs: Seq<VolumeLido>, n: int) -> (nat, nat)
    decreases n,
{
    if n <= 0 {
        (0, 0)
    } else {
        let (t, u) = capacidade(vs, n - 1);
        if conta_na_capacidade(vs, n - 1) {
            (t + vs[n - 1].total as nat, u + usado(vs[n - 1]))
        } else {
            (t, u)
        }
    }
}

/// Bytes lidos e escritos de todos os volumes, entre os `n` primeiros.
pub open spec fn movimento(vs: Seq<VolumeLido>, n: int) -> (nat, nat)
    decreases n,
{
    if n <= 0 {
        (0, 0)
    } else {
        let (l, e) = movimento(vs, n - 1);
        (l + vs[n - 1].lidos as nat, e + vs[n - 1].escritos as nat)
    }
}

pub open spec fn pontos(vs: Seq<VolumeLido>) -> Seq<Seq<char>> {
    vs.map_values(|v: VolumeLido| v.ponto@)
}

/// O que a leitura dos volumes soma.
pub struct SomaDosVolumes {
    pub total: u64,
    pub usado: u64,
    pub lidos: u64,
    pub escritos: u64,
    /// Todos os pontos de montagem vistos, para saber se a lista mudou entre duas leituras.
    pub pontos: Vec<String>,
}

proof fn lema_capacidade_cresce(vs: Seq<VolumeLido>, a: int, b: int)
    requires
        0 <= a <= b,
    ensures
        capacidade(vs, a).0 <= capacidade(vs, b).0,
        capacidade(vs, a).1 <= capacidade(vs, b).1,
        movimento(vs, a).0 <= movimento(vs, b).0,
        movimento(vs, a).1 <= movimento(vs, b).1,
    decreases b - a,
{
    if a < b {
        lema_capacidade_cresce(vs, a, b - 1);
    }
}

fn ja_contado(vs: &[VolumeLido], i: usize) -> (r: bool)
    requires
        i < vs@.len(),
    ensures
        r == exists|j: int| 0 <= j < i && !vs@[j].removivel && !vs@[j].somente_leitura && #[trigger] vs@[j].ponto@ == vs@[i as int].ponto@,
{
    let p = chars_of(vs[i].ponto.as_str());
    let mut j: usize = 0;
    while j < i
        invariant
            j <= i,
            i < vs@.len(),
            p@ == vs@[i as int].ponto@,
            forall|t: int| 0 <= t < j && !vs@[t].removivel && !vs@[t].somente_leitura ==> #[trigger] vs@[t].ponto@ != vs@[i as int].ponto@,
        decreases i - j,
    {
        if !vs[j].removivel && !vs[j].somente_leitura {
            let q = chars_of(vs[j].ponto.as_str());
            if same_chars(q.as_slice(), p.as_slice()) {
                return true;
            }
        }
        j = j + 1;
    }
    false
}

/// Soma os volumes: lidos e escritos de todos; capacidade só dos que contam.
pub fn somar_volumes(vs: &[VolumeLido]) -> (r: SomaDosVolumes)
    requires
        capacidade(vs@, vs@.len() as int).0 <= u64::MAX,
        movimento(vs@, vs@.len() as int).0 <= u64::MAX,
        movimento(vs@, vs@.len() as int).1 <= u64::MAX,
    ensures
        (r.total as nat, r.usado as nat) == capacidade(vs@, vs@.len() as int),
        (r.lidos as nat, r.escritos as nat) == movimento(vs@, vs@.len() as int),
        textos(r.pontos@) == pontos(vs@),
{
    let n = vs.len();
    let mut total: u64 = 0;
    let mut usado_total: u64 = 0;
    let mut lidos: u64 = 0;
    let mut escritos: u64 = 0;
    let mut ps: Vec<String> = Vec::new();
    let mut i: usize = 0;
    while i < n
        invariant
            i <= n,
            n == vs@.len(),
            capacidade(vs@, n as int).0 <= u64::MAX,
            movimento(vs@, n as int).0 <= u64::MAX,
            movimento(vs@, n as int).1 <= u64::MAX,
            (total as nat, usado_total as nat) == capacidade(vs@, i as int),
            (lidos as nat, escritos as nat) == movimento(vs@, i as int),
            textos(ps@) == pontos(vs@.take(i as int)),
        decreases n - i,
    {
        proof {
            lema_capacidade_cresce(vs@, i + 1, n as int);
            assert(capacidade(vs@, i + 1).1 <= capacidade(vs@, i + 1).0) by {
                lema_usado_cabe(vs@, i + 1);
            }
        }
        let v = &vs[i];
        lidos = lidos + v.lidos;
        escritos = escritos + v.escritos;
        if !v.removivel && !v.somente_leitura && !ja_contado(vs, i) {
            total = total + v.total;
            let u = if v.total >= v.disponivel { v.total - v.disponivel } else { 0 };
            usado_total = usado_total + u;
        }
        ps.push(v.ponto.clone());
        assert(pontos(vs@.take(i + 1)) =~= pontos(vs@.take(i as int)).push(v.ponto@));
        i = i + 1;
    }
    assert(vs@.take(n as int) =~= vs@);
    SomaDosVolumes { total, usado: usado_total, lidos, escritos, pontos: ps }
}

proof fn lema_usado_cabe(vs: Seq<VolumeLido>, n: int)
    ensures
        capacidade(vs, n).1 <= capacidade(vs, n).0,
    decreases n,
{
    if n > 0 {
        lema_usado_cabe(vs, n - 1);
    }
}

pub open spec fn primeira_leitura() -> Seq<char> {
    "primeira leitura da sessão: taxa é diferença entre duas leituras"@
}

/// Sem contador avançando, não é "0 MB/s": o sysinfo devolve zero tanto para disco parado quanto para leitura
/// que falhou. `Ok` quando a taxa pode ser publicada (o aplicativo divide os bytes pelo intervalo).
pub fn taxa_de_disco(tem_intervalo: bool, lista_mudou: bool, lidos: u64, escritos: u64) -> (r: Result<(), &'static str>)
    ensures
        !tem_intervalo ==> (r matches Err(m) && m@ == primeira_leitura()),
        tem_intervalo && lista_mudou ==> (r matches Err(m) && m@ == "a lista de volumes mudou entre as duas leituras"@),
        tem_intervalo && !lista_mudou && lidos == 0 && escritos == 0 ==> (r matches Err(m) && m@
            == "nenhum contador de E/S avançou; o sysinfo não distingue disco parado de leitura que falhou"@),
        r is Ok <==> tem_intervalo && !lista_mudou && (lidos != 0 || escritos != 0),
{
    if !tem_intervalo {
        return Err("primeira leitura da sessão: taxa é diferença entre duas leituras");
    }
    if lista_mudou {
        return Err("a lista de volumes mudou entre as duas leituras");
    }
    if lidos == 0 && escritos == 0 {
        return Err("nenhum contador de E/S avançou; o sysinfo não distingue disco parado de leitura que falhou");
    }
    Ok(())
}

/// Uma interface de rede como o sistema a lista.
pub struct InterfaceLida {
    pub nome: String,
    pub total_recebido: u64,
    pub total_enviado: u64,
    /// Bytes desde a leitura anterior.
    pub recebido: u64,
    pub enviado: u64,
}

pub open spec fn trafego(is: Seq<InterfaceLida>, n: int) -> (nat, nat, nat, nat)
    decreases n,
{
    if n <= 0 {
        (0, 0, 0, 0)
    } else {
        let (a, b, c, d) = trafego(is, n - 1);
        let x = is[n - 1];
        (a + x.total_recebido as nat, b + x.total_enviado as nat, c + x.recebido as nat, d + x.enviado as nat)
    }
}

proof fn lema_trafego_cresce(is: Seq<InterfaceLida>, a: int, b: int)
    requires
        0 <= a <= b,
    ensures
        trafego(is, a).0 <= trafego(is, b).0,
        trafego(is, a).1 <= trafego(is, b).1,
        trafego(is, a).2 <= trafego(is, b).2,
        trafego(is, a).3 <= trafego(is, b).3,
    decreases b - a,
{
    if a < b {
        lema_trafego_cresce(is, a, b - 1);
    }
}

pub open spec fn nomes(is: Seq<InterfaceLida>) -> Seq<Seq<char>> {
    is.map_values(|x: InterfaceLida| x.nome@)
}

pub struct SomaDaRede {
    pub total_recebido: u64,
    pub total_enviado: u64,
    pub recebido: u64,
    pub enviado: u64,
    pub nomes: Vec<String>,
}

/// Soma o tráfego de todas as interfaces e guarda os nomes, para saber se a lista mudou.
pub fn somar_interfaces(is: &[InterfaceLida]) -> (r: SomaDaRede)
    requires
        trafego(is@, is@.len() as int).0 <= u64::MAX,
        trafego(is@, is@.len() as int).1 <= u64::MAX,
        trafego(is@, is@.len() as int).2 <= u64::MAX,
        trafego(is@, is@.len() as int).3 <= u64::MAX,
    ensures
        (r.total_recebido as nat, r.total_enviado as nat, r.recebido as nat, r.enviado as nat) == trafego(
            is@,
            is@.len() as int,
        ),
        textos(r.nomes@) == nomes(is@),
{
    let n = is.len();
    let mut a: u64 = 0;
    let mut b: u64 = 0;
    let mut c: u64 = 0;
    let mut d: u64 = 0;
    let mut ns: Vec<String> = Vec::new();
    let mut i: usize = 0;
    while i < n
        invariant
            i <= n,
            n == is@.len(),
            trafego(is@, n as int).0 <= u64::MAX,
            trafego(is@, n as int).1 <= u64::MAX,
            trafego(is@, n as int).2 <= u64::MAX,
            trafego(is@, n as int).3 <= u64::MAX,
            (a as nat, b as nat, c as nat, d as nat) == trafego(is@, i as int),
            textos(ns@) == nomes(is@.take(i as int)),
        decreases n - i,
    {
        proof {
            lema_trafego_cresce(is@, i + 1, n as int);
        }
        let x = &is[i];
        a = a + x.total_recebido;
        b = b + x.total_enviado;
        c = c + x.recebido;
        d = d + x.enviado;
        ns.push(x.nome.clone());
        assert(nomes(is@.take(i + 1)) =~= nomes(is@.take(i as int)).push(x.nome@));
        i = i + 1;
    }
    assert(is@.take(n as int) =~= is@);
    SomaDaRede { total_recebido: a, total_enviado: b, recebido: c, enviado: d, nomes: ns }
}

/// Interface que falha some da lista em vez de reportar zero: a taxa vale se houve intervalo e a lista não mudou.
pub fn taxa_de_rede(tem_intervalo: bool, lista_mudou: bool) -> (r: Result<(), &'static str>)
    ensures
        lista_mudou ==> (r matches Err(m) && m@ == "a lista de interfaces mudou entre as duas leituras"@),
        !lista_mudou && !tem_intervalo ==> (r matches Err(m) && m@ == primeira_leitura()),
        r is Ok <==> tem_intervalo && !lista_mudou,
{
    if lista_mudou {
        return Err("a lista de interfaces mudou entre as duas leituras");
    }
    if !tem_intervalo {
        return Err("primeira leitura da sessão: taxa é diferença entre duas leituras");
    }
    Ok(())
}

/// O que a sonda de rede disse sobre perda de pacotes.
#[derive(Debug, Clone, Copy, PartialEq, Eq, Structural)]
pub enum PerdaLida {
    Medida { enviados: u32, perdidos: u32 },
    NaoMedi,
    /// O servidor descarta ping mas aceita conexão na porta do jogo.
    NaoRespondePing,
    PingLimitado,
}

pub open spec fn sem_pacote() -> Seq<char> {
    "nenhum pacote saiu: não é 0% de perda nem 100%, é ausência de dado"@
}

pub open spec fn descarta_ping() -> Seq<char> {
    "o servidor descarta ping mas aceita conexão na porta do jogo: \
     não dá para saber se houve perda real"@
}

pub open spec fn limita_ping() -> Seq<char> {
    "o servidor limita a taxa de ping: não dá para saber se houve perda real"@
}

/// Só a medida com pacotes enviados é medição (perdidos e enviados, para a porcentagem); o resto é a sonda
/// dizendo que não sabe, e por quê.
pub fn perda_de_pacotes(perda: PerdaLida) -> (r: Result<(u32, u32), &'static str>)
    ensures
        match perda {
            PerdaLida::Medida { enviados, perdidos } => if enviados > 0 {
                r == Ok::<(u32, u32), &'static str>((perdidos, enviados))
            } else {
                r matches Err(m) && m@ == sem_pacote()
            },
            PerdaLida::NaoMedi => r matches Err(m) && m@ == sem_pacote(),
            PerdaLida::NaoRespondePing => r matches Err(m) && m@ == descarta_ping(),
            PerdaLida::PingLimitado => r matches Err(m) && m@ == limita_ping(),
        },
{
    match perda {
        PerdaLida::Medida { enviados, perdidos } => {
            if enviados > 0 {
                Ok((perdidos, enviados))
            } else {
                Err("nenhum pacote saiu: não é 0% de perda nem 100%, é ausência de dado")
            }
        },
        PerdaLida::NaoMedi => Err("nenhum pacote saiu: não é 0% de perda nem 100%, é ausência de dado"),
        PerdaLida::NaoRespondePing => Err(
            "o servidor descarta ping mas aceita conexão na porta do jogo: \
             não dá para saber se houve perda real",
        ),
        PerdaLida::PingLimitado => Err("o servidor limita a taxa de ping: não dá para saber se houve perda real"),
    }
}

/// Com poucos trancos, uma proporção não diz nada: "67% com disco" de três buracos são dois.
pub const TRANCOS_MINIMOS: usize = 8;

pub open spec fn spec_trancos(tem_proporcao: bool, medidos: Option<usize>) -> Result<usize, Seq<char>> {
    match medidos {
        Some(total) => if tem_proporcao && total >= TRANCOS_MINIMOS {
            Ok(total)
        } else {
            Err("só "@ + crate::texto::decimal(total as nat) + " trancos na partida: poucos para uma proporção"@)
        },
        None => Err("esta medição é de uma versão anterior, que não cruzava trancos com o disco"@),
    }
}

/// A proporção de trancos cruzados com o disco só é publicada com pelo menos oito trancos medidos (`Ok` com o
/// total, para o texto); medição antiga não tinha o cruzamento.
pub fn trancos_com_disco(tem_proporcao: bool, medidos: Option<usize>) -> (r: Result<usize, String>)
    ensures
        match r {
            Ok(t) => spec_trancos(tem_proporcao, medidos) == Ok::<usize, Seq<char>>(t),
            Err(m) => spec_trancos(tem_proporcao, medidos) == Err::<usize, Seq<char>>(m@),
        },
{
    match medidos {
        Some(total) => {
            if tem_proporcao && total >= TRANCOS_MINIMOS {
                Ok(total)
            } else {
                let mut s = chars_of("só ");
                crate::texto::push_decimal(&mut s, total as u64);
                crate::texto::anexar(&mut s, " trancos na partida: poucos para uma proporção");
                Err(crate::texto::string_of(s.as_slice()))
            }
        },
        None => Err("esta medição é de uma versão anterior, que não cruzava trancos com o disco".to_string()),
    }
}


/// Passada meia hora, a medição de quadros guardada já não descreve a partida de agora.
pub const VALIDADE_DOS_QUADROS_S: u64 = 1800;

/// Uma idade como `Duration` a guarda: segundos inteiros e os nanossegundos que sobram.
pub open spec fn passou_de(idade: (u64, u32), limite_s: u64) -> bool {
    idade.0 > limite_s || (idade.0 == limite_s && idade.1 > 0)
}

fn passou_de_exec(idade: (u64, u32), limite_s: u64) -> (r: bool)
    ensures
        r == passou_de(idade, limite_s),
{
    idade.0 > limite_s || (idade.0 == limite_s && idade.1 > 0)
}

pub open spec fn sem_quadros() -> Seq<char> {
    "ainda não há medição de quadros guardada nesta máquina"@
}

pub open spec fn amostra_curta() -> Seq<char> {
    "a amostra foi curta demais para a cauda da distribuição significar algo"@
}

pub open spec fn sem_contexto() -> Seq<char> {
    "esta medição é de uma versão anterior, que não guardava o contexto"@
}

pub open spec fn sem_distribuicao() -> Seq<char> {
    "esta medição é de uma versão anterior, que não guardava a distribuição"@
}

/// O motivo de uma medição velha: os minutos inteiros desde ela, e o jogo medido.
pub open spec fn quadros_velhos(idade_s: u64, jogo: Seq<char>) -> Seq<char> {
    "a última medição de quadros é de "@ + crate::texto::decimal((idade_s / 60) as nat) + " min atrás, em "@
        + jogo
}

/// `None` é métrica com valor (a medição, com a idade); `Some` é métrica desconhecida, com o motivo.
pub open spec fn vistos(v: Seq<(&'static str, Option<String>)>) -> Seq<(Seq<char>, Option<Seq<char>>)> {
    v.map_values(
        |p: (&'static str, Option<String>)|
            (
                p.0@,
                match p.1 {
                    Some(m) => Some(m@),
                    None => None,
                },
            ),
    )
}

pub open spec fn presente_ou(id: Seq<char>, presente: bool, motivo: Seq<char>) -> (Seq<char>, Option<Seq<char>>) {
    (id, if presente { None } else { Some(motivo) })
}

/// O que se publica de uma medição de quadros guardada, métrica a métrica e nesta ordem. `idade` é a idade
/// da medição (`None` sem medição guardada); `presentes` diz se a medição traz o uso de processador, o uso da
/// placa, e o tempo de quadro médio, P95 e P99.
pub open spec fn spec_estado_dos_quadros(
    idade: Option<(u64, u32)>,
    jogo: Seq<char>,
    confiavel: bool,
    presentes: Seq<bool>,
    trancos_medidos: Option<usize>,
    tem_proporcao: bool,
) -> Seq<(Seq<char>, Option<Seq<char>>)> {
    match idade {
        None => seq![("fps.average"@, Some(sem_quadros()))],
        Some(idade) => if passou_de(idade, VALIDADE_DOS_QUADROS_S) {
            seq![
                ("fps.average"@, Some(quadros_velhos(idade.0, jogo))),
                ("fps.low_1pct"@, Some(quadros_velhos(idade.0, jogo))),
            ]
        } else if !confiavel {
            seq![
                ("fps.average"@, None),
                ("fps.low_1pct"@, Some(amostra_curta())),
                ("frametime.stutters_per_minute"@, Some(amostra_curta())),
            ]
        } else {
            seq![
                ("fps.average"@, None),
                ("fps.low_1pct"@, None),
                ("frametime.stutters_per_minute"@, None),
                (
                    "frametime.stutters_with_disk"@,
                    match spec_trancos(tem_proporcao, trancos_medidos) {
                        Ok(_) => None,
                        Err(m) => Some(m),
                    },
                ),
                presente_ou("match.cpu_usage"@, presentes[0], sem_contexto()),
                presente_ou("match.gpu_usage"@, presentes[1], sem_contexto()),
                presente_ou("frametime.mean"@, presentes[2], sem_distribuicao()),
                presente_ou("frametime.p95"@, presentes[3], sem_distribuicao()),
                presente_ou("frametime.p99"@, presentes[4], sem_distribuicao()),
            ]
        },
    }
}

fn com_motivo(presente: bool, motivo: &str) -> (r: Option<String>)
    ensures
        match r {
            Some(m) => !presente && m@ == motivo@,
            None => presente,
        },
{
    if presente {
        None
    } else {
        Some(motivo.to_string())
    }
}

/// O estado de cada métrica de quadros a partir da medição guardada pelo vigia: velha demais, amostra curta
/// (o 1% pior e os engasgos ficam de fora), poucos trancos para a proporção com o disco, e campo que a versão
/// que mediu não guardava. Os números da medição passam direto para o painel; aqui só se decide o que vale.
pub fn estado_dos_quadros(
    idade: Option<(u64, u32)>,
    jogo: &str,
    confiavel: bool,
    presentes: [bool; 5],
    trancos_medidos: Option<usize>,
    tem_proporcao: bool,
) -> (r: Vec<(&'static str, Option<String>)>)
    ensures
        vistos(r@) == spec_estado_dos_quadros(idade, jogo@, confiavel, presentes@, trancos_medidos, tem_proporcao),
{
    let mut r: Vec<(&'static str, Option<String>)> = Vec::new();
    let guardada = idade;
    let idade = match guardada {
        None => {
            r.push(("fps.average", Some("ainda não há medição de quadros guardada nesta máquina".to_string())));
            assert(vistos(r@) =~= spec_estado_dos_quadros(
                guardada,
                jogo@,
                confiavel,
                presentes@,
                trancos_medidos,
                tem_proporcao,
            ));
            return r;
        },
        Some(i) => i,
    };
    if passou_de_exec(idade, VALIDADE_DOS_QUADROS_S) {
        let mut v = chars_of("a última medição de quadros é de ");
        crate::texto::push_decimal(&mut v, idade.0 / 60);
        crate::texto::anexar(&mut v, " min atrás, em ");
        crate::texto::anexar(&mut v, jogo);
        let velha = crate::texto::string_of(v.as_slice());
        let outra = crate::texto::string_of(v.as_slice());
        r.push(("fps.average", Some(velha)));
        r.push(("fps.low_1pct", Some(outra)));
        assert(vistos(r@) =~= spec_estado_dos_quadros(
            guardada,
            jogo@,
            confiavel,
            presentes@,
            trancos_medidos,
            tem_proporcao,
        ));
        return r;
    }
    r.push(("fps.average", None));
    if !confiavel {
        r.push(("fps.low_1pct", Some("a amostra foi curta demais para a cauda da distribuição significar algo".to_string())));
        r.push((
            "frametime.stutters_per_minute",
            Some("a amostra foi curta demais para a cauda da distribuição significar algo".to_string()),
        ));
        assert(vistos(r@) =~= spec_estado_dos_quadros(
            guardada,
            jogo@,
            confiavel,
            presentes@,
            trancos_medidos,
            tem_proporcao,
        ));
        return r;
    }
    r.push(("fps.low_1pct", None));
    r.push(("frametime.stutters_per_minute", None));
    let disco = match trancos_com_disco(tem_proporcao, trancos_medidos) {
        Ok(_) => None,
        Err(m) => Some(m),
    };
    r.push(("frametime.stutters_with_disk", disco));
    r.push(("match.cpu_usage", com_motivo(presentes[0], "esta medição é de uma versão anterior, que não guardava o contexto")));
    r.push(("match.gpu_usage", com_motivo(presentes[1], "esta medição é de uma versão anterior, que não guardava o contexto")));
    r.push(("frametime.mean", com_motivo(presentes[2], "esta medição é de uma versão anterior, que não guardava a distribuição")));
    r.push(("frametime.p95", com_motivo(presentes[3], "esta medição é de uma versão anterior, que não guardava a distribuição")));
    r.push(("frametime.p99", com_motivo(presentes[4], "esta medição é de uma versão anterior, que não guardava a distribuição")));
    assert(vistos(r@) =~= spec_estado_dos_quadros(
        guardada,
        jogo@,
        confiavel,
        presentes@,
        trancos_medidos,
        tem_proporcao,
    ));
    r
}

/// Uma medição de rede por minuto: cada uma manda pacotes ao servidor do jogo.
pub const INTERVALO_DA_REDE_S: u64 = 60;

/// Passados cinco minutos o cliente pode ter trocado de servidor ou saído do jogo.
pub const VALIDADE_DA_REDE_S: u64 = 300;

/// O que a medição de rede guardada vale agora.
#[derive(Debug, Clone, Copy, PartialEq, Eq, Structural)]
pub enum EstadoDaRede {
    /// A primeira medição ainda não voltou.
    SemMedicao,
    /// Velha demais; os minutos inteiros desde ela, para o motivo.
    Velha { minutos: u64 },
    /// Vale.
    Valida,
}

pub open spec fn precisa_medir(idade: Option<(u64, u32)>) -> bool {
    match idade {
        None => true,
        Some(i) => i.0 >= INTERVALO_DA_REDE_S,
    }
}

pub open spec fn spec_estado_da_rede(idade: Option<(u64, u32)>) -> EstadoDaRede {
    match idade {
        None => EstadoDaRede::SemMedicao,
        Some(i) => if passou_de(i, VALIDADE_DA_REDE_S) {
            EstadoDaRede::Velha { minutos: i.0 / 60 }
        } else {
            EstadoDaRede::Valida
        },
    }
}

/// Um passo da vigília de rede. `idade` é a idade (segundos e nanossegundos que sobram) da última medição (`None` sem nenhuma) e `em_curso` diz se
/// uma medição já está rodando. Devolve se é para disparar outra (sem medição, ou a última com um intervalo ou
/// mais, e nenhuma em curso: duas ao mesmo tempo mediriam uma à outra) e o que a guardada vale.
pub fn passo_da_rede(idade: Option<(u64, u32)>, em_curso: bool) -> (r: (bool, EstadoDaRede))
    ensures
        r.0 == (precisa_medir(idade) && !em_curso),
        r.1 == spec_estado_da_rede(idade),
{
    match idade {
        None => (!em_curso, EstadoDaRede::SemMedicao),
        Some(i) => {
            let medir = i.0 >= INTERVALO_DA_REDE_S && !em_curso;
            if passou_de_exec(i, VALIDADE_DA_REDE_S) {
                (medir, EstadoDaRede::Velha { minutos: i.0 / 60 })
            } else {
                (medir, EstadoDaRede::Valida)
            }
        },
    }
}

pub open spec fn primeira_rede() -> Seq<char> {
    "a primeira medição de rede ainda não voltou"@
}

pub open spec fn rede_velha(minutos: u64) -> Seq<char> {
    "a última medição de rede tem "@ + crate::texto::decimal(minutos as nat)
        + " min: o servidor ou a rota podem ter mudado"@
}

/// O motivo que as três métricas de rede levam quando a medição guardada não vale; `None` quando vale.
pub fn motivo_da_rede(estado: EstadoDaRede) -> (r: Option<String>)
    ensures
        match estado {
            EstadoDaRede::SemMedicao => r matches Some(m) && m@ == primeira_rede(),
            EstadoDaRede::Velha { minutos } => r matches Some(m) && m@ == rede_velha(minutos),
            EstadoDaRede::Valida => r is None,
        },
{
    match estado {
        EstadoDaRede::SemMedicao => Some("a primeira medição de rede ainda não voltou".to_string()),
        EstadoDaRede::Velha { minutos } => {
            let mut v = chars_of("a última medição de rede tem ");
            crate::texto::push_decimal(&mut v, minutos);
            crate::texto::anexar(&mut v, " min: o servidor ou a rota podem ter mudado");
            Some(crate::texto::string_of(v.as_slice()))
        },
        EstadoDaRede::Valida => None,
    }
}

} // verus!
