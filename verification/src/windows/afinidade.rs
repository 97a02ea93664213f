//! Afinidade é do processo aberto, não configuração do Windows: fechou o jogo, acabou. Por isso não entra no
//! histórico. A máscara é conferida antes, para o erro do Windows virar frase; quem fala com o Windows é o
//! aplicativo, e entrega aqui o que leu.

use vstd::prelude::*;
use crate::texto::{anexar, chars_of, decimal, push_decimal, string_of};
use crate::windows::anticheat::{permite, spec_permite, Acao, Permissao, Presenca};

verus! {

broadcast use vstd::string::group_string_axioms;

pub open spec fn acesso_negado() -> Seq<char> {
    "o Windows negou acesso a este processo. Jogos com anticheat costumam \
     bloquear isso, e alguns exigem que o Otimiza rode como administrador."@
}

pub open spec fn processo_fechou() -> Seq<char> {
    "o processo não existe mais — ele fechou entre a leitura e agora."@
}

pub open spec fn spec_erro_ao_abrir(codigo: u32) -> Seq<char> {
    if codigo == 5 {
        acesso_negado()
    } else if codigo == 87 {
        processo_fechou()
    } else {
        "não consegui abrir o processo (erro "@ + decimal(codigo as nat) + ")."@
    }
}

/// O erro do Windows ao abrir o processo, em frase: 5 é acesso negado (outro usuário, mais privilégio, ou
/// anticheat); 87 é processo que fechou entre listar e abrir.
pub fn erro_ao_abrir(codigo: u32) -> (r: String)
    ensures
        r@ == spec_erro_ao_abrir(codigo),
{
    if codigo == 5 {
        "o Windows negou acesso a este processo. Jogos com anticheat costumam \
         bloquear isso, e alguns exigem que o Otimiza rode como administrador."
            .to_string()
    } else if codigo == 87 {
        "o processo não existe mais — ele fechou entre a leitura e agora.".to_string()
    } else {
        let mut s = chars_of("não consegui abrir o processo (erro ");
        push_decimal(&mut s, codigo as u64);
        anexar(&mut s, ").");
        string_of(s.as_slice())
    }
}

pub open spec fn mascara_vazia() -> Seq<char> {
    "uma máscara sem nenhum núcleo pararia o processo."@
}

pub open spec fn fora_do_grupo() -> Seq<char> {
    "a seleção inclui núcleo que este processo não pode usar. Em máquina com mais de \
     64 núcleos lógicos, o Windows divide os processadores em grupos e um processo só \
     enxerga o grupo dele."@
}

/// A conferência antes de escrever, na ordem: o anticheat (vale em todo caminho que escreve), a máscara vazia, a
/// leitura da máscara do sistema, e núcleo que o processo não enxerga.
pub open spec fn spec_conferir(presencas: Seq<Presenca>, mascara: u64, do_sistema: Result<u64, Seq<char>>) -> Result<
    (),
    Seq<char>,
> {
    match spec_permite(Acao::AfinidadeNoJogo, presencas) {
        Some(m) => Err(m),
        None => if mascara == 0 {
            Err(mascara_vazia())
        } else {
            match do_sistema {
                Err(e) => Err(e),
                Ok(s) => if mascara & !s != 0 {
                    Err(fora_do_grupo())
                } else {
                    Ok(())
                },
            }
        },
    }
}

pub open spec fn vista_leitura(r: Result<u64, String>) -> Result<u64, Seq<char>> {
    match r {
        Ok(s) => Ok(s),
        Err(e) => Err(e@),
    }
}

pub open spec fn vista_resultado(r: Result<(), String>) -> Result<(), Seq<char>> {
    match r {
        Ok(()) => Ok(()),
        Err(e) => Err(e@),
    }
}

/// Pode escrever `mascara` no processo? `do_sistema` é a máscara do sistema lida do processo, ou o erro da
/// leitura.
pub fn conferir(presencas: &[Presenca], mascara: u64, do_sistema: Result<u64, String>) -> (r: Result<(), String>)
    ensures
        vista_resultado(r) == spec_conferir(presencas@, mascara, vista_leitura(do_sistema)),
{
    match permite(Acao::AfinidadeNoJogo, presencas) {
        Permissao::Recusado(m) => return Err(m),
        Permissao::Pode => {},
    }
    if mascara == 0 {
        return Err("uma máscara sem nenhum núcleo pararia o processo.".to_string());
    }
    match do_sistema {
        Err(e) => Err(e),
        Ok(s) => {
            if mascara & !s != 0 {
                Err(
                    "a seleção inclui núcleo que este processo não pode usar. Em máquina com mais de \
                     64 núcleos lógicos, o Windows divide os processadores em grupos e um processo só \
                     enxerga o grupo dele."
                        .to_string(),
                )
            } else {
                Ok(())
            }
        },
    }
}

pub open spec fn spec_soltar(presencas: Seq<Presenca>, lida: Result<(u64, u64), Seq<char>>) -> Result<u64, Seq<char>> {
    match lida {
        Err(e) => Err(e),
        Ok((_, s)) => match spec_conferir(presencas, s, Ok(s)) {
            Ok(()) => Ok(s),
            Err(e) => Err(e),
        },
    }
}

pub open spec fn vista_afinidade(r: Result<(u64, u64), String>) -> Result<(u64, u64), Seq<char>> {
    match r {
        Ok(p) => Ok(p),
        Err(e) => Err(e@),
    }
}

pub open spec fn vista_mascara(r: Result<u64, String>) -> Result<u64, Seq<char>> {
    match r {
        Ok(m) => Ok(m),
        Err(e) => Err(e@),
    }
}

/// O desfazer: a máscara do sistema é o valor entrada de qualquer processo, e não há estado a guardar. A partir
/// da afinidade lida (a do processo e a do sistema), a máscara a escrever de volta, já conferida.
pub fn soltar(presencas: &[Presenca], lida: Result<(u64, u64), String>) -> (r: Result<u64, String>)
    ensures
        vista_mascara(r) == spec_soltar(presencas@, vista_afinidade(lida)),
{
    match lida {
        Err(e) => Err(e),
        Ok((_, s)) => match conferir(presencas, s, Ok(s)) {
            Ok(()) => Ok(s),
            Err(e) => Err(e),
        },
    }
}

/// Soltar nunca esbarra na própria máscara: com a leitura feita, sem anticheat ativo e com algum núcleo no
/// sistema, a máscara do sistema volta inteira.
pub proof fn lei_soltar_devolve_a_mascara_do_sistema(presencas: Seq<Presenca>, processo: u64, sistema: u64)
    requires
        spec_permite(Acao::AfinidadeNoJogo, presencas) is None,
        sistema != 0,
    ensures
        spec_soltar(presencas, Ok((processo, sistema))) == Ok::<u64, Seq<char>>(sistema),
{
    assert(sistema & !sistema == 0) by (bit_vector);
}

} // verus!
