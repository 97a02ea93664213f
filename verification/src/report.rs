//! O relatório técnico que o técnico entrega com o computador: estado real, cada mudança com o valor de antes,
//! e que tudo pode ser desfeito. Regras: nenhum número inventado, veredito como saiu (inclusive "piorou"),
//! nenhum símbolo decorativo, e texto de terceiro sempre escapado.

use vstd::prelude::*;
use chrono::{Datelike, TimeZone, Timelike};
use crate::ordem::textos;
use crate::texto::{anexar, chars_of, decimal, digit_char, push_decimal, string_of};

verus! {

broadcast use vstd::string::group_string_axioms;

/// O que um caractere vira no HTML.
pub open spec fn escapa_char(c: char) -> Seq<char> {
    if c == '&' {
        "&amp;"@
    } else if c == '<' {
        "&lt;"@
    } else if c == '>' {
        "&gt;"@
    } else if c == '"' {
        "&quot;"@
    } else if c == '\'' {
        "&#39;"@
    } else {
        seq![c]
    }
}

pub open spec fn escapado(s: Seq<char>) -> Seq<char>
    decreases s.len(),
{
    if s.len() == 0 {
        seq![]
    } else {
        escapado(s.drop_last()) + escapa_char(s.last())
    }
}

proof fn lema_entidades()
    ensures
        "&amp;"@ =~= seq!['&', 'a', 'm', 'p', ';'],
        "&lt;"@ =~= seq!['&', 'l', 't', ';'],
        "&gt;"@ =~= seq!['&', 'g', 't', ';'],
        "&quot;"@ =~= seq!['&', 'q', 'u', 'o', 't', ';'],
        "&#39;"@ =~= seq!['&', '#', '3', '9', ';'],
{
    reveal_strlit("&amp;");
    reveal_strlit("&lt;");
    reveal_strlit("&gt;");
    reveal_strlit("&quot;");
    reveal_strlit("&#39;");
}

/// Nenhum caractere que abre marcação ou atributo sobra no texto escapado.
pub open spec fn sem_marcacao(s: Seq<char>) -> bool {
    !s.contains('<') && !s.contains('>') && !s.contains('"') && !s.contains('\'')
}

/// Nome de programa instalado é texto de terceiro: escapado, nada nele abre marcação no documento.
pub proof fn lei_escapado_nao_abre_marcacao(s: Seq<char>)
    ensures
        sem_marcacao(escapado(s)),
    decreases s.len(),
{
    if s.len() > 0 {
        lei_escapado_nao_abre_marcacao(s.drop_last());
        lema_entidades();
        let a = escapado(s.drop_last());
        let b = escapa_char(s.last());
        assert(sem_marcacao(b));
        assert forall|c: char| (a + b).contains(c) implies a.contains(c) || b.contains(c) by {
            let i = choose|i: int| 0 <= i < (a + b).len() && (a + b)[i] == c;
            if i < a.len() {
                assert(a[i] == c);
            } else {
                assert(b[i - a.len()] == c);
            }
        }
    }
}

/// Nome de programa instalado é texto de terceiro: sem escapar, um `<script>` no nome executaria em quem abrir.
pub fn escape(raw: &str) -> (r: String)
    ensures
        r@ == escapado(raw@),
        sem_marcacao(r@),
{
    let cs = chars_of(raw);
    let mut out: Vec<char> = Vec::new();
    let mut i: usize = 0;
    while i < cs.len()
        invariant
            i <= cs@.len(),
            cs@ == raw@,
            out@ == escapado(cs@.take(i as int)),
        decreases cs@.len() - i,
    {
        assert(cs@.take(i + 1).drop_last() =~= cs@.take(i as int));
        let c = cs[i];
        if c == '&' {
            anexar(&mut out, "&amp;");
        } else if c == '<' {
            anexar(&mut out, "&lt;");
        } else if c == '>' {
            anexar(&mut out, "&gt;");
        } else if c == '"' {
            anexar(&mut out, "&quot;");
        } else if c == '\'' {
            anexar(&mut out, "&#39;");
        } else {
            out.push(c);
        }
        i = i + 1;
    }
    assert(cs@.take(cs@.len() as int) =~= cs@);
    proof {
        lei_escapado_nao_abre_marcacao(raw@);
    }
    string_of(out.as_slice())
}

/// O veredito de uma grandeza medida antes e depois.
#[derive(Debug, Clone, Copy, PartialEq, Eq, Structural)]
pub enum Verdict {
    Improved,
    Worsened,
    NoMeasurableChange,
    TooNoisyToJudge,
}

pub open spec fn spec_verdict_label(v: Verdict) -> (Seq<char>, Seq<char>) {
    match v {
        Verdict::Improved => ("melhorou"@, "bom"@),
        Verdict::Worsened => ("piorou"@, "ruim"@),
        Verdict::NoMeasurableChange => ("sem diferença medível"@, "neutro"@),
        Verdict::TooNoisyToJudge => ("só referência"@, "neutro"@),
    }
}

/// O rótulo e a classe de cor: piora sai como piora.
pub fn verdict_label(verdict: &Verdict) -> (r: (&'static str, &'static str))
    ensures
        (r.0@, r.1@) == spec_verdict_label(*verdict),
{
    match verdict {
        Verdict::Improved => ("melhorou", "bom"),
        Verdict::Worsened => ("piorou", "ruim"),
        Verdict::NoMeasurableChange => ("sem diferença medível", "neutro"),
        Verdict::TooNoisyToJudge => ("só referência", "neutro"),
    }
}

pub open spec fn spec_secao(numero: u8, titulo: Seq<char>, corpo: Seq<char>) -> Seq<char> {
    "<section class=\"sec\"><h2><span class=\"num\">"@ + decimal(numero as nat) + "</span>"@ + escapado(titulo)
        + "</h2>"@ + corpo + "</section>"@
}

pub fn secao(numero: u8, titulo: &str, corpo: &str) -> (r: String)
    ensures
        r@ == spec_secao(numero, titulo@, corpo@),
{
    let mut s = chars_of("<section class=\"sec\"><h2><span class=\"num\">");
    push_decimal(&mut s, numero as u64);
    anexar(&mut s, "</span>");
    let t = escape(titulo);
    anexar(&mut s, t.as_str());
    anexar(&mut s, "</h2>");
    anexar(&mut s, corpo);
    anexar(&mut s, "</section>");
    string_of(s.as_slice())
}

pub open spec fn spec_aviso(texto: Seq<char>) -> Seq<char> {
    "<p class=\"aviso\">"@ + escapado(texto) + "</p>"@
}

pub fn aviso(texto: &str) -> (r: String)
    ensures
        r@ == spec_aviso(texto@),
{
    let mut s = chars_of("<p class=\"aviso\">");
    let t = escape(texto);
    anexar(&mut s, t.as_str());
    anexar(&mut s, "</p>");
    string_of(s.as_slice())
}

/// Junta os textos na ordem.
pub open spec fn juntos(v: Seq<Seq<char>>) -> Seq<char>
    decreases v.len(),
{
    if v.len() == 0 {
        seq![]
    } else {
        juntos(v.drop_last()) + v.last()
    }
}

fn juntar(v: &[String]) -> (r: Vec<char>)
    ensures
        r@ == juntos(textos(v@)),
{
    let mut out: Vec<char> = Vec::new();
    let mut i: usize = 0;
    while i < v.len()
        invariant
            i <= v@.len(),
            out@ == juntos(textos(v@.take(i as int))),
        decreases v@.len() - i,
    {
        assert(textos(v@.take(i + 1)).drop_last() =~= textos(v@.take(i as int)));
        anexar(&mut out, v[i].as_str());
        i = i + 1;
    }
    assert(v@.take(v@.len() as int) =~= v@);
    out
}

/// A comparação antes e depois como o relatório a recebe: o resumo, e uma linha de tabela pronta por grandeza
/// (as linhas levam números decimais medidos, formatados fora daqui).
pub struct Medicao {
    pub summary: String,
    pub linhas: Vec<String>,
}

pub open spec fn sem_medicao() -> Seq<char> {
    "Não foi realizada medição comparativa antes e depois neste atendimento. Sem \
     as duas medidas não há como afirmar ganho, e este relatório não estima \
     números que não foram medidos."@
}

pub open spec fn spec_secao_medicao(comparison: Option<(Seq<char>, Seq<char>)>) -> Seq<char> {
    match comparison {
        None => spec_secao(9, "Medição de desempenho"@, spec_aviso(sem_medicao())),
        Some((resumo, linhas)) => spec_secao(
            9,
            "Medição de desempenho"@,
            "<p>"@ + escapado(resumo) + "</p>\
             <table><thead><tr><th>Grandeza</th><th>Antes</th><th>Depois</th>\
             <th>Variação</th><th>Leitura</th></tr></thead><tbody>"@ + linhas
                + "</tbody></table>\
             <p class=\"nota\">As grandezas marcadas como \"só referência\" apresentam \
             variação natural superior ao efeito que se pretende medir, e por isso são \
             exibidas sem veredito. Vereditos desfavoráveis, quando ocorrem, constam nesta \
             tabela como qualquer outro.</p>"@,
        ),
    }
}

pub open spec fn vista_medicao(comparison: Option<&Medicao>) -> Option<(Seq<char>, Seq<char>)> {
    match comparison {
        None => None,
        Some(c) => Some((c.summary@, juntos(textos(c.linhas@)))),
    }
}

/// Sem medição, o relatório diz isso em voz alta em vez de estimar.
pub fn secao_medicao(comparison: Option<&Medicao>) -> (r: String)
    ensures
        r@ == spec_secao_medicao(vista_medicao(comparison)),
{
    match comparison {
        None => {
            let a = aviso(
                "Não foi realizada medição comparativa antes e depois neste atendimento. Sem \
                 as duas medidas não há como afirmar ganho, e este relatório não estima \
                 números que não foram medidos.",
            );
            secao(9, "Medição de desempenho", a.as_str())
        },
        Some(c) => {
            let mut corpo = chars_of("<p>");
            let resumo = escape(c.summary.as_str());
            anexar(&mut corpo, resumo.as_str());
            anexar(
                &mut corpo,
                "</p>\
                 <table><thead><tr><th>Grandeza</th><th>Antes</th><th>Depois</th>\
                 <th>Variação</th><th>Leitura</th></tr></thead><tbody>",
            );
            let mut linhas = juntar(c.linhas.as_slice());
            corpo.append(&mut linhas);
            anexar(
                &mut corpo,
                "</tbody></table>\
                 <p class=\"nota\">As grandezas marcadas como \"só referência\" apresentam \
                 variação natural superior ao efeito que se pretende medir, e por isso são \
                 exibidas sem veredito. Vereditos desfavoráveis, quando ocorrem, constam nesta \
                 tabela como qualquer outro.</p>",
            );
            let corpo = string_of(corpo.as_slice());
            secao(9, "Medição de desempenho", corpo.as_str())
        },
    }
}

/// O ano, o mês, o dia, a hora e o minuto de `ts` no fuso desta máquina, pelos campos da data que
/// `chrono::Local.timestamp_opt(ts, 0).single()` devolve (`Datelike::year/month/day`, `Timelike::hour/minute`);
/// `None` quando o chrono não representa o instante ou ele é ambíguo no fuso. Os valores dependem do fuso
/// configurado na máquina: o contrato só diz em que faixa cada campo está, como a documentação do chrono os define.
#[verifier::external_body]
fn data_local(ts: u64) -> (r: Option<(i32, u32, u32, u32, u32)>)
    ensures
        r matches Some((_a, m, d, h, mi)) ==> 1 <= m <= 12 && 1 <= d <= 31 && h < 24 && mi < 60,
{
    chrono::Local
        .timestamp_opt(ts as i64, 0)
        .single()
        .map(|d| (d.year(), d.month(), d.day(), d.hour(), d.minute()))
}

pub open spec fn sem_data() -> Seq<char> {
    "sem data"@
}

/// Dois algarismos, com zero à esquerda.
pub open spec fn dois(n: int) -> Seq<char> {
    seq![digit_char((n / 10) as nat), digit_char((n % 10) as nat)]
}

/// Quatro algarismos, com zeros à esquerda.
pub open spec fn quatro(n: int) -> Seq<char> {
    seq![
        digit_char((n / 1000) as nat),
        digit_char((n / 100 % 10) as nat),
        digit_char((n / 10 % 10) as nat),
        digit_char((n % 10) as nat),
    ]
}

/// O ano como o `%Y` do chrono o escreve: quatro algarismos de 0 a 9999; fora disso, com sinal e pelo menos
/// quatro algarismos.
pub open spec fn ano(a: int) -> Seq<char> {
    if 0 <= a <= 9999 {
        quatro(a)
    } else if a > 9999 {
        "+"@ + decimal(a as nat)
    } else if -a <= 9999 {
        "-"@ + quatro(-a)
    } else {
        "-"@ + decimal((-a) as nat)
    }
}

/// "dd/mm/aaaa hh:mm".
pub open spec fn texto_da_data(a: int, m: int, d: int, h: int, mi: int) -> Seq<char> {
    dois(d) + "/"@ + dois(m) + "/"@ + ano(a) + " "@ + dois(h) + ":"@ + dois(mi)
}

/// Um texto que `data_de(ts)` pode dar: "sem data" para o histórico sem hora; para os outros, "sem data" quando o
/// instante não se representa no fuso, ou a data de algum instante com os campos nas faixas de calendário.
pub open spec fn data_possivel(ts: u64, s: Seq<char>) -> bool {
    if ts == 0 {
        s == sem_data()
    } else {
        s == sem_data() || exists|a: i32, m: u32, d: u32, h: u32, mi: u32|
            1 <= m <= 12 && 1 <= d <= 31 && h < 24 && mi < 60 && s == #[trigger] texto_da_data(
                a as int,
                m as int,
                d as int,
                h as int,
                mi as int,
            )
    }
}

fn push_digito(out: &mut Vec<char>, d: u32)
    requires
        d < 10,
    ensures
        final(out)@ == old(out)@.push(digit_char(d as nat)),
{
    let c: char = ((d as u8) + 48) as char;
    out.push(c);
}

fn push_dois(out: &mut Vec<char>, n: u32)
    requires
        n < 100,
    ensures
        final(out)@ == old(out)@ + dois(n as int),
{
    push_digito(out, n / 10);
    push_digito(out, n % 10);
    assert(final(out)@ =~= old(out)@ + dois(n as int));
}

fn push_quatro(out: &mut Vec<char>, n: u32)
    requires
        n < 10000,
    ensures
        final(out)@ == old(out)@ + quatro(n as int),
{
    push_digito(out, n / 1000);
    push_digito(out, n / 100 % 10);
    push_digito(out, n / 10 % 10);
    push_digito(out, n % 10);
    assert(final(out)@ =~= old(out)@ + quatro(n as int));
}

/// "dd/mm/aaaa hh:mm", o ano como o `%Y` do chrono.
pub fn texto_da_data_exec(a: i32, m: u32, d: u32, h: u32, mi: u32) -> (r: String)
    requires
        1 <= m <= 12,
        1 <= d <= 31,
        h < 24,
        mi < 60,
    ensures
        r@ == texto_da_data(a as int, m as int, d as int, h as int, mi as int),
{
    proof {
        reveal_strlit("+");
        reveal_strlit("-");
        reveal_strlit("/");
        reveal_strlit(" ");
        reveal_strlit(":");
    }
    let mut s: Vec<char> = Vec::new();
    push_dois(&mut s, d);
    s.push('/');
    push_dois(&mut s, m);
    s.push('/');
    let ghost antes_do_ano = s@;
    if 0 <= a && a <= 9999 {
        push_quatro(&mut s, a as u32);
        assert(s@ =~= antes_do_ano + ano(a as int));
    } else if a > 9999 {
        s.push('+');
        push_decimal(&mut s, a as u64);
        assert(s@ =~= antes_do_ano + ano(a as int));
    } else {
        s.push('-');
        let positivo: u64 = (0i64 - (a as i64)) as u64;
        assert(positivo == -(a as int));
        if positivo <= 9999 {
            push_quatro(&mut s, positivo as u32);
        } else {
            push_decimal(&mut s, positivo);
        }
        assert(s@ =~= antes_do_ano + ano(a as int));
    }
    assert(s@ =~= antes_do_ano + ano(a as int));
    s.push(' ');
    push_dois(&mut s, h);
    s.push(':');
    push_dois(&mut s, mi);
    assert(s@ =~= texto_da_data(a as int, m as int, d as int, h as int, mi as int));
    string_of(s.as_slice())
}

/// `0` é histórico antigo sem hora, e aparece como tal em vez de 01/01/1970. Os outros saem como
/// "dd/mm/aaaa hh:mm" no fuso desta máquina, ou "sem data" quando o instante não se representa nele.
pub fn data_de(ts: u64) -> (r: String)
    ensures
        data_possivel(ts, r@),
{
    if ts == 0 {
        return "sem data".to_string();
    }
    match data_local(ts) {
        Some((a, m, d, h, mi)) => {
            let r = texto_da_data_exec(a, m, d, h, mi);
            assert(texto_da_data(a as int, m as int, d as int, h as int, mi as int) == r@);
            r
        },
        None => "sem data".to_string(),
    }
}

/// Uma alteração como o relatório a mostra: a descrição com o valor que existia antes e, quando dá para ler, o
/// valor de agora.
pub struct Alteracao {
    pub descricao: String,
    pub valor_novo: Option<String>,
}

/// Uma otimização aplicada, com as alterações que fez.
pub struct OtimizacaoAplicada {
    pub optimization_id: String,
    pub name: String,
    /// Segundos desde 1970; `0` no histórico antigo, que não guardava a hora.
    pub timestamp: u64,
    pub changes: Vec<Alteracao>,
}

/// Aspas dobradas e quebra de linha virando espaço: o campo nunca quebra a linha do CSV.
pub open spec fn campo_char(c: char) -> Seq<char> {
    if c == '"' {
        seq!['"', '"']
    } else if c == '\n' || c == '\r' {
        seq![' ']
    } else {
        seq![c]
    }
}

pub open spec fn campo_miolo(s: Seq<char>) -> Seq<char>
    decreases s.len(),
{
    if s.len() == 0 {
        seq![]
    } else {
        campo_miolo(s.drop_last()) + campo_char(s.last())
    }
}

pub open spec fn campo(s: Seq<char>) -> Seq<char> {
    seq!['"'] + campo_miolo(s) + seq!['"']
}

/// Nenhum campo do CSV quebra a linha, qualquer que seja o texto.
pub proof fn lei_campo_nao_quebra_linha(s: Seq<char>)
    ensures
        !campo(s).contains('\n'),
        !campo(s).contains('\r'),
    decreases s.len(),
{
    if s.len() > 0 {
        lei_campo_nao_quebra_linha(s.drop_last());
    }
    let m = campo_miolo(s);
    assert forall|i: int| 0 <= i < m.len() implies m[i] != '\n' && m[i] != '\r' by {
        lema_miolo_sem_quebra(s, i);
    }
    let c = campo(s);
    assert forall|i: int| 0 <= i < c.len() implies c[i] != '\n' && c[i] != '\r' by {
        if 0 < i < c.len() - 1 {
            assert(c[i] == m[i - 1]);
        }
    }
}

proof fn lema_miolo_sem_quebra(s: Seq<char>, i: int)
    requires
        0 <= i < campo_miolo(s).len(),
    ensures
        campo_miolo(s)[i] != '\n' && campo_miolo(s)[i] != '\r',
    decreases s.len(),
{
    if s.len() > 0 {
        let a = campo_miolo(s.drop_last());
        if i < a.len() {
            lema_miolo_sem_quebra(s.drop_last(), i);
        }
    }
}

pub fn campo_csv(s: &str) -> (r: String)
    ensures
        r@ == campo(s@),
{
    let cs = chars_of(s);
    let mut out: Vec<char> = Vec::new();
    out.push('"');
    let mut i: usize = 0;
    while i < cs.len()
        invariant
            i <= cs@.len(),
            cs@ == s@,
            out@ == seq!['"'] + campo_miolo(cs@.take(i as int)),
        decreases cs@.len() - i,
    {
        assert(cs@.take(i + 1).drop_last() =~= cs@.take(i as int));
        let c = cs[i];
        if c == '"' {
            out.push('"');
            out.push('"');
        } else if c == '\n' || c == '\r' {
            out.push(' ');
        } else {
            out.push(c);
        }
        assert(out@ =~= seq!['"'] + campo_miolo(cs@.take(i + 1)));
        i = i + 1;
    }
    assert(cs@.take(cs@.len() as int) =~= cs@);
    out.push('"');
    string_of(out.as_slice())
}

pub open spec fn desfazer() -> Seq<char> {
    "pelo Otimiza, item a item ou Desfazer tudo"@
}

pub open spec fn novo_ou_vazio(v: Option<String>) -> Seq<char> {
    match v {
        Some(s) => s@,
        None => seq![],
    }
}

/// Uma linha do CSV: data, id, ajuste, alteração com o valor anterior, valor novo, e como desfazer.
pub open spec fn linha_csv(data: Seq<char>, o: OtimizacaoAplicada, c: Alteracao) -> Seq<char> {
    campo(data) + ";"@ + campo(o.optimization_id@) + ";"@ + campo(o.name@) + ";"@ + campo(c.descricao@) + ";"@
        + campo(novo_ou_vazio(c.valor_novo)) + ";"@ + campo(desfazer()) + "\r\n"@
}

/// As linhas das primeiras `n` alterações de uma otimização.
pub open spec fn linhas_csv(data: Seq<char>, o: OtimizacaoAplicada, n: int) -> Seq<char>
    decreases n,
{
    if n <= 0 {
        seq![]
    } else {
        linhas_csv(data, o, n - 1) + linha_csv(data, o, o.changes@[n - 1])
    }
}

pub open spec fn corpo_csv(os: Seq<OtimizacaoAplicada>, datas: Seq<Seq<char>>) -> Seq<char>
    decreases os.len(),
{
    if os.len() == 0 {
        seq![]
    } else {
        corpo_csv(os.drop_last(), datas.take(os.len() - 1)) + linhas_csv(
            datas[os.len() - 1],
            os.last(),
            os.last().changes@.len() as int,
        )
    }
}

/// Separador ";" e marca de ordem de bytes no começo, para o Excel em português não embaralhar acento nem coluna.
pub open spec fn cabecalho_csv() -> Seq<char> {
    "\u{FEFF}data;id;ajuste;alteracao_e_valor_anterior;valor_novo;desfazer\r\n"@
}

pub open spec fn spec_csv(os: Seq<OtimizacaoAplicada>, datas: Seq<Seq<char>>) -> Seq<char> {
    cabecalho_csv() + corpo_csv(os, datas)
}

pub open spec fn datas_validas(os: Seq<OtimizacaoAplicada>, datas: Seq<Seq<char>>) -> bool {
    &&& datas.len() == os.len()
    &&& forall|i: int| 0 <= i < os.len() ==> data_possivel(#[trigger] os[i].timestamp, datas[i])
}

fn linhas_de(data: &str, o: &OtimizacaoAplicada, out: &mut Vec<char>)
    ensures
        final(out)@ == old(out)@ + linhas_csv(data@, *o, o.changes@.len() as int),
{
    let d = campo_csv(data);
    let id = campo_csv(o.optimization_id.as_str());
    let nome = campo_csv(o.name.as_str());
    let como = campo_csv("pelo Otimiza, item a item ou Desfazer tudo");
    let mut k: usize = 0;
    while k < o.changes.len()
        invariant
            k <= o.changes@.len(),
            d@ == campo(data@),
            id@ == campo(o.optimization_id@),
            nome@ == campo(o.name@),
            como@ == campo(desfazer()),
            out@ == old(out)@ + linhas_csv(data@, *o, k as int),
        decreases o.changes@.len() - k,
    {
        let c = &o.changes[k];
        let desc = campo_csv(c.descricao.as_str());
        let novo = match &c.valor_novo {
            Some(v) => campo_csv(v.as_str()),
            None => campo_csv(""),
        };
        proof {
            reveal_strlit("");
        }
        let ghost antes = out@;
        anexar(out, d.as_str());
        anexar(out, ";");
        anexar(out, id.as_str());
        anexar(out, ";");
        anexar(out, nome.as_str());
        anexar(out, ";");
        anexar(out, desc.as_str());
        anexar(out, ";");
        anexar(out, novo.as_str());
        anexar(out, ";");
        anexar(out, como.as_str());
        anexar(out, "\r\n");
        assert(out@ =~= antes + linha_csv(data@, *o, o.changes@[k as int]));
        k = k + 1;
    }
}

/// O CSV de alterações com a data de cada otimização já escrita: uma linha por alteração, com o valor de antes.
pub fn csv_com_datas(aplicadas: &[OtimizacaoAplicada], datas: &[String]) -> (r: String)
    requires
        datas.len() == aplicadas.len(),
    ensures
        r@ == spec_csv(aplicadas@, textos(datas@)),
{
    let mut s = chars_of("\u{FEFF}data;id;ajuste;alteracao_e_valor_anterior;valor_novo;desfazer\r\n");
    let mut i: usize = 0;
    while i < aplicadas.len()
        invariant
            i <= aplicadas@.len(),
            datas@.len() == aplicadas@.len(),
            s@ == cabecalho_csv() + corpo_csv(aplicadas@.take(i as int), textos(datas@).take(i as int)),
        decreases aplicadas@.len() - i,
    {
        proof {
            let os = aplicadas@.take(i + 1);
            assert(os.drop_last() =~= aplicadas@.take(i as int));
            assert(textos(datas@).take(i + 1).take(i as int) =~= textos(datas@).take(i as int));
            assert(os.last() == aplicadas@[i as int]);
        }
        linhas_de(datas[i].as_str(), &aplicadas[i], &mut s);
        i = i + 1;
    }
    assert(aplicadas@.take(aplicadas@.len() as int) =~= aplicadas@);
    assert(textos(datas@).take(aplicadas@.len() as int) =~= textos(datas@));
    string_of(s.as_slice())
}

/// A data de cada otimização, na ordem.
fn datas_de(aplicadas: &[OtimizacaoAplicada]) -> (r: Vec<String>)
    ensures
        datas_validas(aplicadas@, textos(r@)),
{
    let mut r: Vec<String> = Vec::new();
    let mut i: usize = 0;
    while i < aplicadas.len()
        invariant
            i <= aplicadas@.len(),
            r@.len() == i,
            forall|j: int| 0 <= j < i ==> data_possivel(#[trigger] aplicadas@[j].timestamp, r@[j]@),
        decreases aplicadas@.len() - i,
    {
        let d = data_de(aplicadas[i].timestamp);
        r.push(d);
        i = i + 1;
    }
    r
}

/// O CSV de alterações para o Excel. A data de cada otimização sai no fuso desta máquina: o contrato fixa o
/// "sem data" do histórico sem hora e, para as outras, que é "sem data" ou "dd/mm/aaaa hh:mm".
pub fn csv_das_alteracoes(aplicadas: &[OtimizacaoAplicada]) -> (r: String)
    ensures
        exists|datas: Seq<Seq<char>>| datas_validas(aplicadas@, datas) && r@ == spec_csv(aplicadas@, datas),
{
    let datas = datas_de(aplicadas);
    let r = csv_com_datas(aplicadas, datas.as_slice());
    assert(datas_validas(aplicadas@, textos(datas@)) && r@ == spec_csv(aplicadas@, textos(datas@)));
    r
}

/// Os blocos de cada otimização: o nome, a data, e uma linha por alteração com o valor de antes.
pub open spec fn itens(o: OtimizacaoAplicada, n: int) -> Seq<char>
    decreases n,
{
    if n <= 0 {
        seq![]
    } else {
        itens(o, n - 1) + "<li>"@ + escapado(o.changes@[n - 1].descricao@) + "</li>"@
    }
}

pub open spec fn bloco(o: OtimizacaoAplicada, data: Seq<char>) -> Seq<char> {
    "<article class=\"mud\"><h4>"@ + escapado(o.name@) + " <small>("@ + escapado(data) + ")</small></h4><ul>"@
        + itens(o, o.changes@.len() as int) + "</ul></article>"@
}

pub open spec fn blocos(os: Seq<OtimizacaoAplicada>, datas: Seq<Seq<char>>) -> Seq<char>
    decreases os.len(),
{
    if os.len() == 0 {
        seq![]
    } else {
        blocos(os.drop_last(), datas.take(os.len() - 1)) + bloco(os.last(), datas[os.len() - 1])
    }
}

pub open spec fn total_de_alteracoes(os: Seq<OtimizacaoAplicada>) -> nat
    decreases os.len(),
{
    if os.len() == 0 {
        0
    } else {
        total_de_alteracoes(os.drop_last()) + os.last().changes@.len()
    }
}

proof fn lema_total_prefixo(os: Seq<OtimizacaoAplicada>, n: int)
    requires
        0 <= n <= os.len(),
    ensures
        total_de_alteracoes(os.take(n)) <= total_de_alteracoes(os),
    decreases os.len() - n,
{
    if n < os.len() {
        lema_total_prefixo(os, n + 1);
        assert(os.take(n + 1).drop_last() =~= os.take(n));
    } else {
        assert(os.take(n) =~= os);
    }
}

pub open spec fn nenhuma_aplicada() -> Seq<char> {
    "Nenhuma otimização do Otimiza está aplicada nesta máquina no momento."@
}

pub open spec fn spec_secao_mudancas(os: Seq<OtimizacaoAplicada>, datas: Seq<Seq<char>>) -> Seq<char> {
    if os.len() == 0 {
        spec_secao(10, "Alterações aplicadas"@, spec_aviso(nenhuma_aplicada()))
    } else {
        spec_secao(
            10,
            "Alterações aplicadas"@,
            "<p>"@ + decimal(os.len()) + " otimização(oes), "@ + decimal(total_de_alteracoes(os)) + " alteração(oes) no total. Cada item indica o valor que \
             existia antes da mudança. E esse valor que retorna caso a alteração seja \
             desfeita.</p>"@ + blocos(os, datas),
        )
    }
}

fn bloco_de(o: &OtimizacaoAplicada, data: &str, out: &mut Vec<char>)
    ensures
        final(out)@ == old(out)@ + bloco(*o, data@),
{
    let ghost antes = out@;
    anexar(out, "<article class=\"mud\"><h4>");
    let nome = escape(o.name.as_str());
    anexar(out, nome.as_str());
    anexar(out, " <small>(");
    let d = escape(data);
    anexar(out, d.as_str());
    anexar(out, ")</small></h4><ul>");
    let ghost meio = out@;
    let mut k: usize = 0;
    while k < o.changes.len()
        invariant
            k <= o.changes@.len(),
            out@ == meio + itens(*o, k as int),
        decreases o.changes@.len() - k,
    {
        anexar(out, "<li>");
        let e = escape(o.changes[k].descricao.as_str());
        anexar(out, e.as_str());
        anexar(out, "</li>");
        k = k + 1;
    }
    anexar(out, "</ul></article>");
    assert(out@ =~= antes + bloco(*o, data@));
}

/// A seção das alterações aplicadas, quantas otimizações e quantas alterações ao todo.
pub fn secao_mudancas_com_datas(aplicadas: &[OtimizacaoAplicada], datas: &[String]) -> (r: (String, usize, usize))
    requires
        datas.len() == aplicadas.len(),
        total_de_alteracoes(aplicadas@) <= usize::MAX,
    ensures
        r.0@ == spec_secao_mudancas(aplicadas@, textos(datas@)),
        r.1 == aplicadas.len(),
        r.2 == total_de_alteracoes(aplicadas@),
{
    if aplicadas.len() == 0 {
        let a = aviso("Nenhuma otimização do Otimiza está aplicada nesta máquina no momento.");
        return (secao(10, "Alterações aplicadas", a.as_str()), 0, 0);
    }
    let mut total: usize = 0;
    let mut blocos_v: Vec<char> = Vec::new();
    let mut i: usize = 0;
    while i < aplicadas.len()
        invariant
            i <= aplicadas@.len(),
            datas@.len() == aplicadas@.len(),
            total_de_alteracoes(aplicadas@) <= usize::MAX,
            total == total_de_alteracoes(aplicadas@.take(i as int)),
            blocos_v@ == blocos(aplicadas@.take(i as int), textos(datas@).take(i as int)),
        decreases aplicadas@.len() - i,
    {
        proof {
            let os = aplicadas@.take(i + 1);
            assert(os.drop_last() =~= aplicadas@.take(i as int));
            assert(textos(datas@).take(i + 1).take(i as int) =~= textos(datas@).take(i as int));
            lema_total_prefixo(aplicadas@, i + 1);
        }
        total = total + aplicadas[i].changes.len();
        bloco_de(&aplicadas[i], datas[i].as_str(), &mut blocos_v);
        i = i + 1;
    }
    assert(aplicadas@.take(aplicadas@.len() as int) =~= aplicadas@);
    assert(textos(datas@).take(aplicadas@.len() as int) =~= textos(datas@));
    let mut corpo = chars_of("<p>");
    push_decimal(&mut corpo, aplicadas.len() as u64);
    anexar(&mut corpo, " otimização(oes), ");
    push_decimal(&mut corpo, total as u64);
    anexar(&mut corpo, " alteração(oes) no total. Cada item indica o valor que \
             existia antes da mudança. E esse valor que retorna caso a alteração seja \
             desfeita.</p>");
    corpo.append(&mut blocos_v);
    let corpo = string_of(corpo.as_slice());
    (secao(10, "Alterações aplicadas", corpo.as_str()), aplicadas.len(), total)
}

pub open spec fn spec_recusas() -> Seq<char> {
    spec_secao(11, "Procedimentos deliberadamente não executados"@, "<p>As práticas abaixo produzem ganho de desempenho e são adotadas por parte do \
         mercado. O Otimiza não as executa, e o motivo de cada uma consta a seguir para \
         registro.</p>\
         <ul class=\"recusas\">\
         <li><b>Desativar as mitigacoes de Spectre e Meltdown.</b> Produz ganho mensurável em \
         processadores mais antigos ao custo de reabrir vulnerabilidades conhecidas de \
         execução especulativa.</li>\
         <li><b>Desativar Windows Update, Windows Defender ou firewall.</b> Reduz processos em \
         segundo plano e remove camadas de proteção cuja ausência não e percebida até ser \
         explorada.</li>\
         <li><b>Limpeza de registro.</b> Não há ganho de desempenho demonstrável na remoção de \
         chaves órfãs, e há risco documentado de inutilizar software instalado.</li>\
         <li><b>Liberação forçada de memória.</b> Esvazia o conjunto de trabalho dos processos, \
         melhorando o indicador exibido e degradando o desempenho real, já que os dados \
         precisam ser relidos do disco.</li>\
         <li><b>Escrita em firmware.</b> Em placas de consumo, as configuracoes residem em área \
         proprietaria da NVRAM; erro de escrita inutiliza a placa-mae de forma permanente.</li>\
         </ul>"@)
}

/// O que o Otimiza deliberadamente não faz, e por quê: fica registrado no documento.
pub fn secao_recusas() -> (r: String)
    ensures
        r@ == spec_recusas(),
{
    secao(
        11,
        "Procedimentos deliberadamente não executados",
        "<p>As práticas abaixo produzem ganho de desempenho e são adotadas por parte do \
         mercado. O Otimiza não as executa, e o motivo de cada uma consta a seguir para \
         registro.</p>\
         <ul class=\"recusas\">\
         <li><b>Desativar as mitigacoes de Spectre e Meltdown.</b> Produz ganho mensurável em \
         processadores mais antigos ao custo de reabrir vulnerabilidades conhecidas de \
         execução especulativa.</li>\
         <li><b>Desativar Windows Update, Windows Defender ou firewall.</b> Reduz processos em \
         segundo plano e remove camadas de proteção cuja ausência não e percebida até ser \
         explorada.</li>\
         <li><b>Limpeza de registro.</b> Não há ganho de desempenho demonstrável na remoção de \
         chaves órfãs, e há risco documentado de inutilizar software instalado.</li>\
         <li><b>Liberação forçada de memória.</b> Esvazia o conjunto de trabalho dos processos, \
         melhorando o indicador exibido e degradando o desempenho real, já que os dados \
         precisam ser relidos do disco.</li>\
         <li><b>Escrita em firmware.</b> Em placas de consumo, as configuracoes residem em área \
         proprietaria da NVRAM; erro de escrita inutiliza a placa-mae de forma permanente.</li>\
         </ul>",
    )
}

pub const ESTILO: &'static str = r#"
@page { size: A4; margin: 20mm 18mm 22mm; }
:root { color-scheme: light }
* { box-sizing: border-box }
body {
  margin: 0; color: #14130f; background: #fff;
  font: 10.5pt/1.55 "Georgia", "Cambria", "Times New Roman", serif;
  -webkit-print-color-adjust: exact; print-color-adjust: exact;
}
.doc { max-width: 174mm; margin: 0 auto }

header.capa { border-bottom: 2.5pt solid #14130f; padding-bottom: 9mm; margin-bottom: 9mm }
.marca { font: 700 9pt/1 "Consolas", monospace; letter-spacing: .34em; text-transform: uppercase }
h1 { margin: 3mm 0 1.5mm; font-size: 21pt; font-weight: 400; letter-spacing: -.015em }
.sub { color: #55524b; font-size: 9.5pt }
.meta { margin-top: 5mm; font: 8.5pt/1.5 "Consolas", monospace; color: #55524b }
.meta b { color: #14130f; font-weight: 700 }

.sec { margin-top: 9mm; break-inside: avoid }
h2 {
  font: 700 11pt/1.3 "Consolas", monospace; letter-spacing: .1em; text-transform: uppercase;
  border-bottom: 1pt solid #14130f; padding-bottom: 2mm; margin-bottom: 4mm;
}
h2 .num {
  display: inline-block; min-width: 9mm; color: #8b8880; font-weight: 400;
}
h3 { margin: 6mm 0 2.5mm; font-size: 11pt; font-weight: 700 }
h4 { margin: 0 0 1.5mm; font-size: 10pt; font-weight: 700 }
p { margin: 0 0 3mm }

table { width: 100%; border-collapse: collapse; margin: 3mm 0 4mm; font-size: 9.5pt }
thead th {
  text-align: left; font: 700 8pt/1.4 "Consolas", monospace; letter-spacing: .07em;
  text-transform: uppercase; color: #55524b; padding: 1.6mm 2mm;
  border-bottom: 1pt solid #14130f; white-space: nowrap;
}
td, tbody th { padding: 1.8mm 2mm; border-bottom: .4pt solid #ddd9d1; vertical-align: top }
tbody th { text-align: left; font-weight: 400; width: 62% }
tbody tr:last-child td, tbody tr:last-child th { border-bottom: 0 }
.dados { max-width: 120mm }
td.num, th.num { text-align: right; font-family: "Consolas", monospace; font-size: 9pt;
  font-variant-numeric: tabular-nums; white-space: nowrap }
td.cam { font-family: "Consolas", monospace; font-size: 7.5pt; color: #55524b;
  word-break: break-all }
.v { text-align: right; font-weight: 700; font-size: 8.5pt; text-transform: uppercase;
  font-family: "Consolas", monospace; letter-spacing: .05em }
.v.bom { color: #1a6b45 } .v.ruim { color: #a3221c } .v.atencao { color: #8a6212 }
.v.neutro { color: #55524b }

.achado { border-left: 2.5pt solid #14130f; padding: 2.5mm 0 2.5mm 4mm; margin: 4mm 0 }
.aviso { border-left: 2.5pt solid #8a6212; background: #fbf7ec; padding: 3mm 4mm; margin: 3mm 0 }
/* A conclusão do laudo. Único texto do documento acima do corpo normal — se
   mais alguma coisa crescer para este tamanho, ela deixa de ser a conclusão. */
.veredicto { font-size: 13pt; line-height: 1.35; margin: 0 0 3mm }
.nota { font-size: 9pt; color: #55524b }
.mud { margin: 3mm 0; padding: 3mm 4mm; background: #f7f6f3; break-inside: avoid }
.mud ul { margin: 0; padding-left: 5mm }
.mud li { font: 8pt/1.6 "Consolas", monospace; color: #3d3a34 }
.recusas { margin: 0; padding-left: 5mm }
.recusas li { margin-bottom: 2.5mm }

footer.fim { margin-top: 10mm; padding-top: 4mm; border-top: 1pt solid #14130f; font-size: 9pt }
footer.fim p { margin-bottom: 2.5mm }
.rodape {
  position: fixed; bottom: -14mm; left: 0; right: 0;
  border-top: .4pt solid #ddd9d1; padding-top: 1.5mm;
  font: 7.5pt/1 "Consolas", monospace; color: #8b8880;
  display: flex; justify-content: space-between;
}
"#;

/// As seções que dependem das leituras da máquina, já montadas: conclusão, identificação da máquina e o
/// diagnóstico (inicialização, processador, saúde do disco, memória, navegadores, programas que abrem com o
/// Windows). Vazias quando não houve leitura.
pub struct ReportData {
    pub conclusao: String,
    pub maquina: String,
    pub diagnostico: String,
}

impl Default for ReportData {
    fn default() -> (r: ReportData)
        ensures
            r.conclusao@.len() == 0,
            r.maquina@.len() == 0,
            r.diagnostico@.len() == 0,
    {
        ReportData { conclusao: String::new(), maquina: String::new(), diagnostico: String::new() }
    }
}

pub open spec fn spec_html(
    mudancas: Seq<char>,
    comparison: Option<(Seq<char>, Seq<char>)>,
    dados: ReportData,
    data: Seq<char>,
) -> Seq<char> {
    "<!doctype html><html lang=\"pt-BR\"><head><meta charset=\"utf-8\">\
         <title>Otimiza — relatório técnico de atendimento</title><style>"@ + ESTILO@ + "</style></head>\
         <body><div class=\"doc\">\
         <div class=\"rodape\"><span>OTIMIZA - Relatório técnico de atendimento</span>\
         <span>"@ + escapado(data) + "</span></div>\
         <header class=\"capa\">\
         <p class=\"marca\">Otimiza</p>\
         <h1>Relatório técnico de atendimento</h1>\
         <p class=\"sub\">Levantamento do estado da máquina, alterações executadas e \
         resultado medido.</p>\
         <p class=\"meta\">Emitido em <b>"@ + escapado(data) + "</b><br>\
         Todos os valores deste documento foram lidos do sistema operacional no momento da \
         emissao. Nenhum foi estimado.</p>\
         </header>\
         "@ + dados.conclusao@
        + dados.maquina@ + dados.diagnostico@ + spec_secao_medicao(comparison) + mudancas + spec_recusas()
        + "\
         <footer class=\"fim\">\
         <p><b>Reversibilidade.</b> Cada alteração registra o valor anterior antes da escrita. \
         A funcao de desfazer restaura exatamente o valor entrada, e não um valor equivalente. \
         As excecoes são a exclusao de arquivos temporarios, a limpeza do cache de atualizacoes \
         e a limpeza de cache de navegador, identificadas como irreversiveis no próprio \
         programa e executadas apenas mediante confirmacao.</p>\
         <p><b>Escopo.</b> Este relatório apresenta somente o que foi efetivamente executado e \
         medido nesta máquina. Secoes que informam ausência de dado indicam que a medição não \
         estava disponivel, e não que o item esteja em conformidade.</p>\
         </footer>\
         </div></body></html>"@
}

/// O documento é autossuficiente desde a primeira linha: começa com `<!doctype html>` e declara o português do
/// Brasil, qualquer que seja o histórico de alterações.
pub proof fn lei_documento_comeca_em_html_pt_br(
    mudancas: Seq<char>,
    comparison: Option<(Seq<char>, Seq<char>)>,
    dados: ReportData,
    data: Seq<char>,
)
    ensures
        crate::texto::starts_with(spec_html(mudancas, comparison, dados, data), "<!doctype html>"@),
        crate::texto::occurs_at(spec_html(mudancas, comparison, dados, data), "lang=\"pt-BR\""@, 21),
{
    reveal_strlit("<!doctype html><html lang=\"pt-BR\"><head><meta charset=\"utf-8\">\
         <title>Otimiza — relatório técnico de atendimento</title><style>");
    reveal_strlit("<!doctype html>");
    reveal_strlit("lang=\"pt-BR\"");
    let h = spec_html(mudancas, comparison, dados, data);
    let l = "<!doctype html><html lang=\"pt-BR\"><head><meta charset=\"utf-8\">\
         <title>Otimiza — relatório técnico de atendimento</title><style>"@;
    assert(h.subrange(0, 15) =~= l.subrange(0, 15));
    assert(h.subrange(21, 33) =~= l.subrange(21, 33));
    assert(l.subrange(0, 15) =~= "<!doctype html>"@);
    assert(l.subrange(21, 33) =~= "lang=\"pt-BR\""@);
}

/// O documento inteiro, com as datas de cada otimização já escritas.
pub fn build_html_com_datas(
    aplicadas: &[OtimizacaoAplicada],
    datas: &[String],
    comparison: Option<&Medicao>,
    dados: &ReportData,
    data: &str,
) -> (r: String)
    requires
        datas.len() == aplicadas.len(),
        total_de_alteracoes(aplicadas@) <= usize::MAX,
    ensures
        r@ == spec_html(spec_secao_mudancas(aplicadas@, textos(datas@)), vista_medicao(comparison), *dados, data@),
{
    let (mudancas, _, _) = secao_mudancas_com_datas(aplicadas, datas);
    let d = escape(data);
    let mut s = chars_of("<!doctype html><html lang=\"pt-BR\"><head><meta charset=\"utf-8\">\
         <title>Otimiza — relatório técnico de atendimento</title><style>");
    anexar(&mut s, ESTILO);
    anexar(&mut s, "</style></head>\
         <body><div class=\"doc\">\
         <div class=\"rodape\"><span>OTIMIZA - Relatório técnico de atendimento</span>\
         <span>");
    anexar(&mut s, d.as_str());
    anexar(&mut s, "</span></div>\
         <header class=\"capa\">\
         <p class=\"marca\">Otimiza</p>\
         <h1>Relatório técnico de atendimento</h1>\
         <p class=\"sub\">Levantamento do estado da máquina, alterações executadas e \
         resultado medido.</p>\
         <p class=\"meta\">Emitido em <b>");
    anexar(&mut s, d.as_str());
    anexar(&mut s, "</b><br>\
         Todos os valores deste documento foram lidos do sistema operacional no momento da \
         emissao. Nenhum foi estimado.</p>\
         </header>\
         ");
    anexar(&mut s, dados.conclusao.as_str());
    anexar(&mut s, dados.maquina.as_str());
    anexar(&mut s, dados.diagnostico.as_str());
    let m = secao_medicao(comparison);
    anexar(&mut s, m.as_str());
    anexar(&mut s, mudancas.as_str());
    let rec = secao_recusas();
    anexar(&mut s, rec.as_str());
    anexar(&mut s, "\
         <footer class=\"fim\">\
         <p><b>Reversibilidade.</b> Cada alteração registra o valor anterior antes da escrita. \
         A funcao de desfazer restaura exatamente o valor entrada, e não um valor equivalente. \
         As excecoes são a exclusao de arquivos temporarios, a limpeza do cache de atualizacoes \
         e a limpeza de cache de navegador, identificadas como irreversiveis no próprio \
         programa e executadas apenas mediante confirmacao.</p>\
         <p><b>Escopo.</b> Este relatório apresenta somente o que foi efetivamente executado e \
         medido nesta máquina. Secoes que informam ausência de dado indicam que a medição não \
         estava disponivel, e não que o item esteja em conformidade.</p>\
         </footer>\
         </div></body></html>");
    string_of(s.as_slice())
}

/// O documento inteiro. A data de cada otimização sai no fuso desta máquina.
pub fn build_html(aplicadas: &[OtimizacaoAplicada], comparison: Option<&Medicao>, dados: &ReportData, data: &str) -> (r: String)
    requires
        total_de_alteracoes(aplicadas@) <= usize::MAX,
    ensures
        exists|datas: Seq<Seq<char>>|
            datas_validas(aplicadas@, datas) && r@ == spec_html(
                spec_secao_mudancas(aplicadas@, datas),
                vista_medicao(comparison),
                *dados,
                data@,
            ),
{
    let datas = datas_de(aplicadas);
    let r = build_html_com_datas(aplicadas, datas.as_slice(), comparison, dados, data);
    assert(datas_validas(aplicadas@, textos(datas@)));
    r
}

pub open spec fn edge_x86() -> Seq<char> {
    "C:\\Program Files (x86)\\Microsoft\\Edge\\Application\\msedge.exe"@
}

pub open spec fn edge_nativo() -> Seq<char> {
    "C:\\Program Files\\Microsoft\\Edge\\Application\\msedge.exe"@
}

/// O Edge que imprime o PDF: primeiro o da pasta de 32 bits, depois o da de 64, o primeiro que existir.
pub fn caminho_do_edge(existe_x86: bool, existe_nativo: bool) -> (r: Option<&'static str>)
    ensures
        existe_x86 ==> (r matches Some(p) && p@ == edge_x86()),
        !existe_x86 && existe_nativo ==> (r matches Some(p) && p@ == edge_nativo()),
        !existe_x86 && !existe_nativo ==> r is None,
{
    if existe_x86 {
        Some("C:\\Program Files (x86)\\Microsoft\\Edge\\Application\\msedge.exe")
    } else if existe_nativo {
        Some("C:\\Program Files\\Microsoft\\Edge\\Application\\msedge.exe")
    } else {
        None
    }
}

pub open spec fn barra_normal(c: char) -> char {
    if c == '\\' {
        '/'
    } else {
        c
    }
}

/// A URL do arquivo para o Edge: o Chromium não aceita barra invertida.
pub open spec fn spec_url(caminho: Seq<char>) -> Seq<char> {
    "file:///"@ + caminho.map_values(|c: char| barra_normal(c))
}

pub fn url_do_arquivo(caminho: &str) -> (r: String)
    ensures
        r@ == spec_url(caminho@),
{
    let cs = chars_of(caminho);
    let mut out = chars_of("file:///");
    let ghost inicio = out@;
    let mut i: usize = 0;
    while i < cs.len()
        invariant
            i <= cs@.len(),
            cs@ == caminho@,
            out@ == inicio + cs@.take(i as int).map_values(|c: char| barra_normal(c)),
        decreases cs@.len() - i,
    {
        let c = cs[i];
        if c == '\\' {
            out.push('/');
        } else {
            out.push(c);
        }
        assert(cs@.take(i + 1).map_values(|c: char| barra_normal(c)) =~= cs@.take(i as int).map_values(
            |c: char| barra_normal(c),
        ).push(barra_normal(c)));
        i = i + 1;
    }
    assert(cs@.take(cs@.len() as int) =~= cs@);
    string_of(out.as_slice())
}

/// Onde o relatório foi gravado, se saiu em PDF, quantas otimizações e alterações levou, e o aviso quando o PDF
/// não saiu.
#[derive(Debug, Clone, PartialEq, Eq)]
pub struct ReportSaved {
    pub path: String,
    pub is_pdf: bool,
    pub optimizations: usize,
    pub changes: usize,
    pub note: String,
}

pub open spec fn nota_sem_pdf(motivo: Seq<char>) -> Seq<char> {
    "O relatório foi gravado em HTML porque não foi possível gerar o PDF: "@ + motivo + ". \
     O arquivo abre em qualquer navegador e pode ser impresso ou salvo como \
     PDF pelo menu de impressao."@
}

/// O que fica gravado depois de tentar o PDF: com PDF, só ele (dois arquivos deixariam o cliente sem saber qual
/// abrir); sem PDF, o HTML e o motivo, dito ao usuário.
pub fn relatorio_salvo(
    caminho_html: &str,
    caminho_pdf: &str,
    pdf: Result<(), String>,
    optimizations: usize,
    changes: usize,
) -> (r: ReportSaved)
    ensures
        r.optimizations == optimizations,
        r.changes == changes,
        r.is_pdf == pdf is Ok,
        pdf is Ok ==> r.path@ == caminho_pdf@ && r.note@.len() == 0,
        pdf matches Err(motivo) ==> r.path@ == caminho_html@ && r.note@ == nota_sem_pdf(motivo@),
{
    match pdf {
        Ok(()) => ReportSaved {
            path: caminho_pdf.to_string(),
            is_pdf: true,
            optimizations,
            changes,
            note: String::new(),
        },
        Err(motivo) => {
            let mut nota = chars_of("O relatório foi gravado em HTML porque não foi possível gerar o PDF: ");
            anexar(&mut nota, motivo.as_str());
            anexar(
                &mut nota,
                ". \
                 O arquivo abre em qualquer navegador e pode ser impresso ou salvo como \
                 PDF pelo menu de impressao.",
            );
            ReportSaved {
                path: caminho_html.to_string(),
                is_pdf: false,
                optimizations,
                changes,
                note: string_of(nota.as_slice()),
            }
        },
    }
}

} // verus!
