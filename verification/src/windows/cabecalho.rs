//! O cabeçalho do registro: em QUE máquina aconteceu (elevado? notebook? build? plano ativo?). Vai no arquivo,
//! para quando o cliente manda o arquivo inteiro. Nada que identifique a pessoa: sem nome de usuário, caminho de
//! perfil ou número de série.

use vstd::prelude::*;
use crate::ordem::textos;
use crate::texto::{anexar, chars_of, decimal, push_decimal, string_of, trim, trim_str};

verus! {

broadcast use vstd::string::group_string_axioms;

/// A máquina como o cabeçalho a descreve.
pub struct Maquina {
    pub notebook: bool,
    pub tem_bateria: bool,
    /// O fabricante, pelo nome (`Intel`, `Amd`...).
    pub fabricante_da_cpu: String,
    pub cpu: String,
    pub nucleos_logicos: usize,
    pub modern_standby: bool,
}

pub struct Dados {
    pub versao: String,
    pub windows: String,
    pub build: String,
    pub edicao: String,
    pub arquitetura_do_windows: String,
    pub arquitetura_do_processo: &'static str,
    pub elevado: bool,
    pub maquina: Maquina,
    pub nucleos_fisicos: Option<usize>,
    pub gpu: String,
    /// A memória instalada já escrita, com uma casa decimal (`7.9 GB`).
    pub memoria: String,
    pub plano_ativo: Option<String>,
    pub nome_do_plano_ativo: Option<String>,
}

pub open spec fn nao_lido() -> Seq<char> {
    "(não deu para ler)"@
}

pub open spec fn spec_ou_nao_lido(valor: Option<String>) -> Seq<char> {
    match valor {
        Some(v) => if trim(v@).len() > 0 {
            v@
        } else {
            nao_lido()
        },
        None => nao_lido(),
    }
}

/// `None`, ou só espaço, vira "não deu para ler": campo em branco faz o atendimento supor o benigno, que é o
/// errado.
pub fn ou_nao_lido(valor: &Option<String>) -> (r: &str)
    ensures
        r@ == spec_ou_nao_lido(*valor),
{
    match valor {
        Some(v) => {
            let t = trim_str(v.as_str());
            if t.len() > 0 {
                v.as_str()
            } else {
                "(não deu para ler)"
            }
        },
        None => "(não deu para ler)",
    }
}

pub open spec fn spec_sim_ou_nao(valor: bool) -> Seq<char> {
    if valor {
        "sim"@
    } else {
        "não"@
    }
}

pub fn sim_ou_nao(valor: bool) -> (r: &'static str)
    ensures
        r@ == spec_sim_ou_nao(valor),
{
    if valor {
        "sim"
    } else {
        "não"
    }
}

/// O rótulo alinhado em 24 colunas, seguido do valor.
pub open spec fn campo(rotulo: Seq<char>, valor: Seq<char>) -> Seq<char> {
    rotulo + Seq::new(if rotulo.len() < 24 {
        (24 - rotulo.len()) as nat
    } else {
        0
    }, |i: int| ' ') + valor
}

fn campo_exec(rotulo: &str, valor: &str) -> (r: String)
    ensures
        r@ == campo(rotulo@, valor@),
{
    let mut s = chars_of(rotulo);
    let n = s.len();
    let ghost r = rotulo@;
    let mut k: usize = n;
    while k < 24
        invariant
            n == r.len(),
            n <= k <= 24 || (k == n && n >= 24),
            s@ == r + Seq::new((k - n) as nat, |i: int| ' '),
        decreases 24 - k,
    {
        s.push(' ');
        k = k + 1;
        assert(s@ =~= r + Seq::new((k - n) as nat, |i: int| ' '));
    }
    assert(s@ =~= r + Seq::new(if r.len() < 24 {
        (24 - r.len()) as nat
    } else {
        0
    }, |i: int| ' '));
    anexar(&mut s, valor);
    string_of(s.as_slice())
}

pub open spec fn faixa() -> Seq<char> {
    "=============================="@
}

pub open spec fn nucleos_fisicos_texto(n: Option<usize>) -> Seq<char> {
    match n {
        Some(k) => decimal(k as nat),
        None => nao_lido(),
    }
}

/// As linhas do cabeçalho, na ordem em que saem.
pub open spec fn spec_linhas(d: Dados) -> Seq<Seq<char>> {
    seq![
        faixa(),
        "OTIMIZA — RELATÓRIO DO SISTEMA"@,
        faixa(),
        campo("Versão do Otimiza"@, d.versao@),
        campo("Windows"@, d.windows@),
        campo("Build"@, d.build@),
        campo("Edição"@, d.edicao@),
        campo("Arquitetura do Windows"@, d.arquitetura_do_windows@),
        campo("Arquitetura do processo"@, d.arquitetura_do_processo@),
        campo("Administrador"@, spec_sim_ou_nao(d.elevado)),
        campo("Processador"@, d.maquina.cpu@),
        campo("Fabricante da CPU"@, d.maquina.fabricante_da_cpu@),
        campo("Núcleos físicos"@, nucleos_fisicos_texto(d.nucleos_fisicos)),
        campo("Processadores lógicos"@, decimal(d.maquina.nucleos_logicos as nat)),
        campo("Placa de vídeo"@, d.gpu@),
        campo("Memória"@, d.memoria@),
        campo("Tipo de máquina"@, if d.maquina.notebook {
            "notebook"@
        } else {
            "desktop"@
        }),
        campo("Bateria"@, spec_sim_ou_nao(d.maquina.tem_bateria)),
        campo("Modern Standby"@, spec_sim_ou_nao(d.maquina.modern_standby)),
        campo("Plano de energia"@, spec_ou_nao_lido(d.nome_do_plano_ativo)),
        campo("GUID do plano"@, spec_ou_nao_lido(d.plano_ativo)),
        faixa(),
    ]
}

/// As linhas unidas por quebra de linha.
pub open spec fn unidas(v: Seq<Seq<char>>) -> Seq<char>
    decreases v.len(),
{
    if v.len() == 0 {
        seq![]
    } else if v.len() == 1 {
        v[0]
    } else {
        unidas(v.drop_last()) + seq!['\n'] + v.last()
    }
}

fn unir(v: &Vec<String>) -> (r: String)
    ensures
        r@ == unidas(textos(v@)),
{
    let mut s: Vec<char> = Vec::new();
    let mut i: usize = 0;
    while i < v.len()
        invariant
            i <= v@.len(),
            s@ == unidas(textos(v@.take(i as int))),
        decreases v@.len() - i,
    {
        assert(textos(v@.take(i + 1)).drop_last() =~= textos(v@.take(i as int)));
        if i > 0 {
            s.push('\n');
        }
        anexar(&mut s, v[i].as_str());
        i = i + 1;
    }
    assert(v@.take(v@.len() as int) =~= v@);
    string_of(s.as_slice())
}

pub fn montar(d: &Dados) -> (r: String)
    ensures
        r@ == unidas(spec_linhas(*d)),
{
    let mut linhas: Vec<String> = Vec::new();
    linhas.push("==============================".to_string());
    linhas.push("OTIMIZA — RELATÓRIO DO SISTEMA".to_string());
    linhas.push("==============================".to_string());
    linhas.push(campo_exec("Versão do Otimiza", d.versao.as_str()));
    linhas.push(campo_exec("Windows", d.windows.as_str()));
    linhas.push(campo_exec("Build", d.build.as_str()));
    linhas.push(campo_exec("Edição", d.edicao.as_str()));
    linhas.push(campo_exec("Arquitetura do Windows", d.arquitetura_do_windows.as_str()));
    // As duas arquiteturas: processo de 32 bits num Windows de 64 lê o `WOW6432Node` e enxerga outra máquina.
    linhas.push(campo_exec("Arquitetura do processo", d.arquitetura_do_processo));
    linhas.push(campo_exec("Administrador", sim_ou_nao(d.elevado)));
    linhas.push(campo_exec("Processador", d.maquina.cpu.as_str()));
    linhas.push(campo_exec("Fabricante da CPU", d.maquina.fabricante_da_cpu.as_str()));
    let fisicos = match d.nucleos_fisicos {
        Some(n) => crate::texto::decimal_string(n as u64),
        None => "(não deu para ler)".to_string(),
    };
    linhas.push(campo_exec("Núcleos físicos", fisicos.as_str()));
    let logicos = crate::texto::decimal_string(d.maquina.nucleos_logicos as u64);
    linhas.push(campo_exec("Processadores lógicos", logicos.as_str()));
    linhas.push(campo_exec("Placa de vídeo", d.gpu.as_str()));
    linhas.push(campo_exec("Memória", d.memoria.as_str()));
    linhas.push(campo_exec("Tipo de máquina", if d.maquina.notebook {
        "notebook"
    } else {
        "desktop"
    }));
    linhas.push(campo_exec("Bateria", sim_ou_nao(d.maquina.tem_bateria)));
    linhas.push(campo_exec("Modern Standby", sim_ou_nao(d.maquina.modern_standby)));
    linhas.push(campo_exec("Plano de energia", ou_nao_lido(&d.nome_do_plano_ativo)));
    linhas.push(campo_exec("GUID do plano", ou_nao_lido(&d.plano_ativo)));
    linhas.push("==============================".to_string());
    assert(textos(linhas@) =~= spec_linhas(*d));
    unir(&linhas)
}

} // verus!
