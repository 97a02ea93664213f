//! A operação em andamento: antes de aplicar ou desfazer, a intenção e os valores anteriores ficam registrados,
//! para uma interrupção no meio não deixar mudança pela metade sem rastro.

use vstd::prelude::*;
use crate::texto::{decimal, push_decimal, string_of};

verus! {

broadcast use vstd::string::group_string_axioms;

pub const SCHEMA_VERSION: u32 = 1;

#[derive(Debug, Clone, Copy, PartialEq, Eq, Structural)]
pub enum Intencao {
    Aplicar,
    Reverter,
}

/// O que estava sendo feito quando o Otimiza foi interrompido; `R` é o registro de cada mudança, com o valor
/// anterior.
#[derive(Debug, Clone, PartialEq)]
pub struct Pendencia<R> {
    pub schema_version: u32,
    pub id: String,
    pub nome: String,
    pub intencao: Intencao,
    pub quando: u64,
    pub mudancas: Vec<R>,
}

pub open spec fn verbo(i: Intencao) -> Seq<char> {
    match i {
        Intencao::Aplicar => "aplicava"@,
        Intencao::Reverter => "desfazia"@,
    }
}

pub open spec fn spec_explicacao(intencao: Intencao, nome: Seq<char>, n: nat) -> Seq<char> {
    "O Otimiza foi interrompido enquanto "@ + verbo(intencao) + " `"@ + nome + "`. "@ + decimal(n)
        + " mudança(s) podem ter ficado pela metade, e os valores anteriores estão guardados."@
}

impl<R> Pendencia<R> {
    pub fn nova(id: &str, nome: &str, intencao: Intencao, quando: u64, mudancas: Vec<R>) -> (r: Self)
        ensures
            r.schema_version == SCHEMA_VERSION,
            r.id@ == id@,
            r.nome@ == nome@,
            r.intencao == intencao,
            r.quando == quando,
            r.mudancas@ == mudancas@,
    {
        Pendencia {
            schema_version: SCHEMA_VERSION,
            id: id.to_string(),
            nome: nome.to_string(),
            intencao,
            quando,
            mudancas,
        }
    }

    pub fn explicacao(&self) -> (r: String)
        ensures
            r@ == spec_explicacao(self.intencao, self.nome@, self.mudancas@.len()),
    {
        let mut r = "O Otimiza foi interrompido enquanto ".to_string();
        r.append(
            match self.intencao {
                Intencao::Aplicar => "aplicava",
                Intencao::Reverter => "desfazia",
            },
        );
        r.append(" `");
        r.append(self.nome.as_str());
        r.append("`. ");
        let mut v: Vec<char> = Vec::new();
        push_decimal(&mut v, self.mudancas.len() as u64);
        assert(v@ =~= decimal(self.mudancas@.len()));
        r.append(string_of(v.as_slice()).as_str());
        r.append(" mudança(s) podem ter ficado pela metade, e os valores anteriores estão guardados.");
        r
    }
}

/// Uma pendência lida do disco só serve se foi escrita neste formato; outro formato é erro, com o número dele.
pub open spec fn spec_aceita(versao: u32) -> bool {
    versao == SCHEMA_VERSION
}

pub open spec fn erro_de_formato(versao: u32) -> Seq<char> {
    "há um diário interrompido no formato "@ + decimal(versao as nat) + ", que esta versão não sabe ler"@
}

/// Confere o formato de uma pendência lida: outro formato vira erro que diz qual era.
pub fn conferir<R>(p: Pendencia<R>) -> (r: Result<Pendencia<R>, String>)
    ensures
        match r {
            Ok(q) => spec_aceita(p.schema_version) && q == p,
            Err(e) => !spec_aceita(p.schema_version) && e@ == erro_de_formato(p.schema_version),
        },
{
    if p.schema_version != SCHEMA_VERSION {
        let mut v: Vec<char> = Vec::new();
        push_decimal(&mut v, p.schema_version as u64);
        assert(v@ =~= decimal(p.schema_version as nat));
        let mut e = "há um diário interrompido no formato ".to_string();
        e.append(string_of(v.as_slice()).as_str());
        e.append(", que esta versão não sabe ler");
        return Err(e);
    }
    Ok(p)
}

/// O que a leitura do arquivo do diário deu.
pub enum LeituraDoDiario<R> {
    /// Não há arquivo: nada foi interrompido.
    NaoExiste,
    /// O arquivo existe e não deu para ler; o texto é o erro do sistema.
    Falhou(String),
    /// O arquivo foi lido e não é uma pendência; o texto é o erro da leitura do JSON.
    Ilegivel(String),
    Lida(Pendencia<R>),
}

/// A pendência deixada por uma operação interrompida. Arquivo ilegível é erro, nunca "não há pendência": ele só
/// existe porque algo foi interrompido.
pub fn pendente<R>(leitura: LeituraDoDiario<R>) -> (r: Result<Option<Pendencia<R>>, String>)
    ensures
        match leitura {
            LeituraDoDiario::NaoExiste => r matches Ok(None),
            LeituraDoDiario::Falhou(e) => r matches Err(m) && m@ == "não consegui ler o diário: "@ + e@,
            LeituraDoDiario::Ilegivel(e) => r matches Err(m) && m@ == "há um diário interrompido, mas ele está ilegível: "@
                + e@,
            LeituraDoDiario::Lida(p) => if spec_aceita(p.schema_version) {
                r == Ok::<Option<Pendencia<R>>, String>(Some(p))
            } else {
                r matches Err(m) && m@ == erro_de_formato(p.schema_version)
            },
        },
{
    match leitura {
        LeituraDoDiario::NaoExiste => Ok(None),
        LeituraDoDiario::Falhou(e) => {
            let mut m = "não consegui ler o diário: ".to_string();
            m.append(e.as_str());
            Err(m)
        },
        LeituraDoDiario::Ilegivel(e) => {
            let mut m = "há um diário interrompido, mas ele está ilegível: ".to_string();
            m.append(e.as_str());
            Err(m)
        },
        LeituraDoDiario::Lida(p) => match conferir(p) {
            Ok(q) => Ok(Some(q)),
            Err(e) => Err(e),
        },
    }
}

/// O que a remoção do arquivo do diário deu.
pub enum Remocao {
    Removido,
    /// Já não existia: o que se queria (o diário fechado) já vale.
    NaoExistia,
    Falhou(String),
}

/// Fechar o diário ao fim da operação; falha tratada também fecha, porque o diário é sobre o processo morrer.
pub fn concluir(remocao: Remocao) -> (r: Result<(), String>)
    ensures
        match remocao {
            Remocao::Falhou(e) => r matches Err(m) && m@ == "não consegui fechar o diário: "@ + e@,
            _ => r is Ok,
        },
{
    match remocao {
        Remocao::Falhou(e) => {
            let mut m = "não consegui fechar o diário: ".to_string();
            m.append(e.as_str());
            Err(m)
        },
        _ => Ok(()),
    }
}

/// Deixar a pendência como está é escolha do cliente: por isso o nome não disfarça, DESCARTAR.
pub fn descartar(remocao: Remocao) -> (r: Result<(), String>)
    ensures
        match remocao {
            Remocao::Falhou(e) => r matches Err(m) && m@ == "não consegui descartar a pendência: "@ + e@,
            _ => r is Ok,
        },
{
    match remocao {
        Remocao::Falhou(e) => {
            let mut m = "não consegui descartar a pendência: ".to_string();
            m.append(e.as_str());
            Err(m)
        },
        _ => Ok(()),
    }
}

} // verus!
