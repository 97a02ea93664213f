//! Quantas vezes medir cada coisa, e por quanto tempo, antes de dizer que algo mudou.

use vstd::prelude::*;

verus! {

pub const REPETICOES_MINIMAS: usize = 3;

/// O tipo de carga de uma medição.
#[derive(Debug, Clone, Copy, PartialEq, Eq, Structural)]
pub enum Perfil {
    Ocioso,
    AreaDeTrabalho,
    Cpu,
    Gpu,
    Disco,
    Jogo,
}

#[derive(Debug, Clone, Copy, PartialEq, Eq, Structural)]
pub struct Protocolo {
    pub repeticoes: usize,
    pub segundos_por_repeticao: u64,
    /// A primeira roda com cache frio e shader compilando. Descartar precisa ser DITO.
    pub descarta_primeira: bool,
}

pub open spec fn spec_execucoes(p: Protocolo) -> int {
    p.repeticoes + if p.descarta_primeira { 1int } else { 0int }
}

impl Protocolo {
    pub fn execucoes(&self) -> (r: usize)
        requires
            self.repeticoes < usize::MAX,
        ensures
            r == spec_execucoes(*self),
    {
        self.repeticoes + if self.descarta_primeira { 1 } else { 0 }
    }

    /// Para a tela avisar ANTES: benchmark que prende a máquina sem avisar é cancelado no meio.
    pub fn duracao_estimada_s(&self) -> (r: u64)
        requires
            self.repeticoes < usize::MAX,
            spec_execucoes(*self) * self.segundos_por_repeticao <= u64::MAX,
        ensures
            r == spec_execucoes(*self) * self.segundos_por_repeticao,
    {
        (self.execucoes() as u64) * self.segundos_por_repeticao
    }
}

/// Ocioso: cinco curtas. CPU, placa e disco: quatro mais longas, descartando a primeira. Jogo: três de vinte
/// segundos, descartando a primeira.
pub open spec fn spec_protocolo(perfil: Perfil) -> Protocolo {
    match perfil {
        Perfil::Ocioso | Perfil::AreaDeTrabalho => Protocolo {
            repeticoes: 5,
            segundos_por_repeticao: 3,
            descarta_primeira: false,
        },
        Perfil::Cpu | Perfil::Gpu | Perfil::Disco => Protocolo {
            repeticoes: 4,
            segundos_por_repeticao: 8,
            descarta_primeira: true,
        },
        Perfil::Jogo => Protocolo { repeticoes: 3, segundos_por_repeticao: 20, descarta_primeira: true },
    }
}

pub fn protocolo(perfil: Perfil) -> (r: Protocolo)
    ensures
        r == spec_protocolo(perfil),
{
    match perfil {
        Perfil::Ocioso | Perfil::AreaDeTrabalho => Protocolo {
            repeticoes: 5,
            segundos_por_repeticao: 3,
            descarta_primeira: false,
        },
        Perfil::Cpu | Perfil::Gpu | Perfil::Disco => Protocolo {
            repeticoes: 4,
            segundos_por_repeticao: 8,
            descarta_primeira: true,
        },
        Perfil::Jogo => Protocolo { repeticoes: 3, segundos_por_repeticao: 20, descarta_primeira: true },
    }
}

/// Todo protocolo alcança o mínimo de repetições, e quem tem carga descarta a primeira.
pub proof fn lei_protocolo_minimo(perfil: Perfil)
    ensures
        spec_protocolo(perfil).repeticoes >= REPETICOES_MINIMAS,
        spec_protocolo(perfil).descarta_primeira <==> !(perfil == Perfil::Ocioso || perfil
            == Perfil::AreaDeTrabalho),
{
}

} // verus!
