//! Laboratório de streaming de assets: a mídia em que o jogo está instalado e o veredito sobre os trancos.

use vstd::prelude::*;

verus! {

#[derive(Debug, Clone, Copy, PartialEq, Eq, Structural)]
pub enum Midia {
    Ssd,
    Mecanico,
    NaoDeuParaLer,
}

/// O que a coincidência dos trancos com o disco mostrou.
#[derive(Debug, Clone, Copy, PartialEq, Eq, Structural)]
pub enum Veredito {
    SemMedicao,
    SemEngasgos,
    /// Fecha a porta do disco e devolve a pergunta ao gargalo.
    NaoEODisco,
    TrocaDeMemoria,
    AssetsDeMidiaLenta,
    OutraCoisaNoDisco,
}


/// O que cada medição da partida disse, já comparado com o seu limite: `None` é não medido; `Some(true)` é acima
/// do limite (trancos que se sentem, trancos caindo com o disco ocupado, memória no ponto de trocar página,
/// disco respondendo devagar).
pub struct Leituras {
    pub engasgos: Option<bool>,
    pub coincidencia: Option<bool>,
    pub memoria_troca_pagina: Option<bool>,
    pub latencia_lenta: Option<bool>,
    pub midia: Option<Midia>,
}

/// O veredito e o que faltou medir. Sem trancos medidos, nada; sem trancos que se sentem, nada a investigar; sem
/// o cruzamento com o disco, nada; trancos fora do disco, não é o disco; com a memória no fim, é troca de página,
/// antes de olhar a mídia; disco lento medido ou disco mecânico, é a mídia; senão, outra coisa usa o disco.
pub open spec fn spec_veredito(l: Leituras) -> (Veredito, Seq<&'static str>) {
    match l.engasgos {
        None => (Veredito::SemMedicao, seq!["frametime.stutters_per_minute"]),
        Some(false) => (Veredito::SemEngasgos, seq![]),
        Some(true) => match l.coincidencia {
            None => (Veredito::SemMedicao, seq!["frametime.stutters_with_disk"]),
            Some(false) => (Veredito::NaoEODisco, seq![]),
            Some(true) => if l.memoria_troca_pagina == Some(true) {
                (Veredito::TrocaDeMemoria, seq![])
            } else {
                let falta_memoria: Seq<&'static str> = if l.memoria_troca_pagina is None {
                    seq!["ram.usage"]
                } else {
                    seq![]
                };
                if l.latencia_lenta == Some(true) || l.midia == Some(Midia::Mecanico) {
                    (Veredito::AssetsDeMidiaLenta, falta_memoria)
                } else {
                    (
                        Veredito::OutraCoisaNoDisco,
                        falta_memoria + (if l.latencia_lenta is None {
                            seq!["storage.latency"]
                        } else {
                            seq![]
                        }) + (if l.midia is None {
                            seq!["o disco onde o jogo está instalado"]
                        } else {
                            seq![]
                        }),
                    )
                }
            },
        },
    }
}

/// A mídia nunca conclui sozinha: só entra depois da coincidência medida.
pub fn veredito(l: &Leituras) -> (r: (Veredito, Vec<&'static str>))
    ensures
        r.0 == spec_veredito(*l).0,
        r.1@ == spec_veredito(*l).1,
{
    let mut falta: Vec<&'static str> = Vec::new();
    match l.engasgos {
        None => {
            falta.push("frametime.stutters_per_minute");
            return (Veredito::SemMedicao, falta);
        },
        Some(false) => {
            return (Veredito::SemEngasgos, falta);
        },
        Some(true) => {},
    }
    match l.coincidencia {
        None => {
            falta.push("frametime.stutters_with_disk");
            return (Veredito::SemMedicao, falta);
        },
        Some(false) => {
            return (Veredito::NaoEODisco, falta);
        },
        Some(true) => {},
    }
    if l.memoria_troca_pagina == Some(true) {
        return (Veredito::TrocaDeMemoria, falta);
    }
    if l.memoria_troca_pagina.is_none() {
        falta.push("ram.usage");
    }
    let lenta = match l.midia {
        Some(Midia::Mecanico) => true,
        _ => false,
    };
    if l.latencia_lenta == Some(true) || lenta {
        assert(falta@ =~= spec_veredito(*l).1);
        return (Veredito::AssetsDeMidiaLenta, falta);
    }
    if l.latencia_lenta.is_none() {
        falta.push("storage.latency");
    }
    if l.midia.is_none() {
        falta.push("o disco onde o jogo está instalado");
    }
    assert(falta@ =~= spec_veredito(*l).1);
    (Veredito::OutraCoisaNoDisco, falta)
}

/// Com a memória no ponto de trocar página, o veredito é troca de memória, seja qual for a mídia; e a mídia sozinha
/// nunca decide sem trancos medidos caindo com o disco.
pub proof fn lei_memoria_antes_da_midia(l: Leituras)
    ensures
        l.engasgos == Some(true) && l.coincidencia == Some(true) && l.memoria_troca_pagina == Some(true)
            ==> spec_veredito(l).0 == Veredito::TrocaDeMemoria,
        spec_veredito(l).0 == Veredito::AssetsDeMidiaLenta ==> l.engasgos == Some(true) && l.coincidencia == Some(
            true,
        ),
{
}


/// Com trancos que se sentem caindo com o disco ocupado e a memória longe de trocar página (ou não medida), o
/// disco mecânico basta para apontar a mídia, seja qual for a latência lida; a latência medida lenta também basta,
/// seja qual for a mídia. Sem nenhuma das duas, é outra coisa usando o disco.
pub proof fn lei_midia_mecanica_ou_disco_lento_apontam_a_midia(l: Leituras)
    requires
        l.engasgos == Some(true),
        l.coincidencia == Some(true),
        l.memoria_troca_pagina != Some(true),
    ensures
        l.midia == Some(Midia::Mecanico) ==> spec_veredito(l).0 == Veredito::AssetsDeMidiaLenta,
        l.latencia_lenta == Some(true) ==> spec_veredito(l).0 == Veredito::AssetsDeMidiaLenta,
        l.midia != Some(Midia::Mecanico) && l.latencia_lenta != Some(true) ==> spec_veredito(l).0
            == Veredito::OutraCoisaNoDisco,
{
}


/// Antes da coincidência com o disco nada se conclui sobre ele: sem trancos medidos falta medir os quadros; com
/// trancos abaixo do que se sente não há o que investigar; sem o cruzamento com o disco falta medi-lo; com os
/// trancos fora do disco, não é o disco. A mídia e a memória não mudam nenhum destes.
pub proof fn lei_sem_coincidencia_nada_se_conclui_do_disco(l: Leituras)
    ensures
        l.engasgos is None ==> spec_veredito(l) == (Veredito::SemMedicao, seq!["frametime.stutters_per_minute"]),
        l.engasgos == Some(false) ==> spec_veredito(l) == (Veredito::SemEngasgos, Seq::<&'static str>::empty()),
        l.engasgos == Some(true) && l.coincidencia is None ==> spec_veredito(l) == (
            Veredito::SemMedicao,
            seq!["frametime.stutters_with_disk"],
        ),
        l.engasgos == Some(true) && l.coincidencia == Some(false) ==> spec_veredito(l) == (
            Veredito::NaoEODisco,
            Seq::<&'static str>::empty(),
        ),
{
}

} // verus!
