//! O vocabulário comum de achados: sintomas da mesma causa vindos de módulos diferentes, com a causa física e a
//! confiança na evidência.

use vstd::prelude::*;

verus! {

#[derive(Debug, Clone, Copy, PartialEq, Eq, Structural)]
pub enum FindingSeverity {
    Critical,
    Important,
    /// Dizer o que está certo evita vender conserto de coisa boa.
    AllGood,
}

/// Para o produto não fingir que conserta o que só se resolve trocando peça ou na BIOS.
#[derive(Debug, Clone, Copy, PartialEq, Eq, Structural)]
pub enum FixLocation {
    Software,
    Bios,
    Hardware,
    Nowhere,
}

#[derive(Debug, Clone, Copy, PartialEq, Eq, Hash, Structural)]
pub enum Origem {
    Memoria,
    Firmware,
    Saude,
    Conflitos,
    Prontidao,
    Gargalo,
    Termico,
    Boot,
    Disco,
    Monitor,
    ConfigDoJogo,
    PlacaDeVideo,
    Pressao,
    /// A única evidência que o cliente confere sozinho, no Visualizador de Eventos.
    Esgotamento,
}

#[derive(Debug, Clone, Copy, PartialEq, Eq, Hash, Structural)]
pub enum Causa {
    Memoria,
    Armazenamento,
    Refrigeracao,
    Configuracao,
    Conflito,
    /// Sintoma medido com mais de uma causa possível: mostra o fato sem inventar o motivo.
    Indefinida,
}

/// Quem persiste (marca d'água, log) vence a foto do instante.
#[derive(Debug, Clone, Copy, PartialEq, Eq, Structural)]
pub enum Confianca {
    Declarado,
    Medido,
    Historico,
    /// Nunca sustenta sozinho uma afirmação sobre travamento.
    Inferido,
}

/// `None` na maioria: memória, disco e BIOS não são coisas que um programa conserte.
#[derive(Debug, Clone)]
pub struct Acao {
    pub comando: String,
    pub argumento: Option<String>,
    /// Verbo no infinitivo, sem promessa de resultado.
    pub rotulo: String,
    pub exige_admin: bool,
}

#[derive(Debug, Clone)]
pub struct Achado {
    pub id: String,
    pub origem: Origem,
    pub causa: Causa,
    pub title: String,
    /// Nunca vazio: afirmação sem número medido é o que este produto não faz.
    pub measured: String,
    pub advice: String,
    pub severity: FindingSeverity,
    pub fix_location: FixLocation,
    pub confianca: Confianca,
    pub acao: Option<Acao>,
}

/// "Não medimos" nunca vira "está tudo bem": silêncio é indistinguível de aprovação.
#[derive(Debug, Clone)]
pub struct Lacuna {
    pub origem: Origem,
    pub o_que: String,
    pub por_que: String,
}

/// Cada relatório que alimenta um painel também se escreve como achados.
pub trait EmAchados {
    fn achados(&self) -> Vec<Achado>;
}

/// A ordem de gravidade, do pior para o melhor.
pub open spec fn spec_peso_severidade(s: FindingSeverity) -> u8 {
    match s {
        FindingSeverity::Critical => 0,
        FindingSeverity::Important => 1,
        FindingSeverity::AllGood => 2,
    }
}

/// A ordem de confiança: quanto menor, mais a evidência persiste.
pub open spec fn spec_peso_confianca(c: Confianca) -> u8 {
    match c {
        Confianca::Declarado => 0,
        Confianca::Historico => 1,
        Confianca::Medido => 2,
        Confianca::Inferido => 3,
    }
}

pub fn peso_severidade(s: FindingSeverity) -> (r: u8)
    ensures
        r == spec_peso_severidade(s),
{
    match s {
        FindingSeverity::Critical => 0,
        FindingSeverity::Important => 1,
        FindingSeverity::AllGood => 2,
    }
}

pub fn peso_confianca(c: Confianca) -> (r: u8)
    ensures
        r == spec_peso_confianca(c),
{
    match c {
        Confianca::Declarado => 0,
        Confianca::Historico => 1,
        Confianca::Medido => 2,
        Confianca::Inferido => 3,
    }
}

/// Pesos distintos para gravidades distintas: ordenar por peso nunca empata duas gravidades.
pub proof fn lei_peso_severidade_injetivo(a: FindingSeverity, b: FindingSeverity)
    ensures
        spec_peso_severidade(a) == spec_peso_severidade(b) <==> a == b,
{
}

/// Pesos distintos para confianças distintas.
pub proof fn lei_peso_confianca_injetivo(a: Confianca, b: Confianca)
    ensures
        spec_peso_confianca(a) == spec_peso_confianca(b) <==> a == b,
{
}

} // verus!
