//! As preferências de quem usa: o padrão protege, e um intervalo inválido volta ao padrão.

use vstd::prelude::*;

verus! {

/// Um intervalo de 0 ocuparia a CPU que o programa deveria liberar.
pub open spec fn intervalo_valido(s: u32) -> bool {
    s == 1 || s == 2 || s == 5
}

#[derive(Debug, Clone, PartialEq, Eq, Structural)]
pub struct Preferences {
    pub restore_point_before_batch: bool,
    pub metrics_interval_seconds: u32,
    /// DESLIGADO por padrão: mudar o sistema sem a pessoa pedir é o que este produto critica nos outros.
    pub auto_game_mode: bool,
    pub show_unavailable: bool,
    /// LIGADO por padrão, ao contrário do modo jogo: medir só escuta os eventos do Windows e não muda nada.
    pub medir_quadros_sozinho: bool,
}

pub open spec fn padrao() -> Preferences {
    Preferences {
        restore_point_before_batch: true,
        metrics_interval_seconds: 2,
        auto_game_mode: false,
        show_unavailable: true,
        medir_quadros_sozinho: true,
    }
}

impl Default for Preferences {
    fn default() -> (r: Self)
        ensures
            r == padrao(),
    {
        Preferences {
            restore_point_before_batch: true,
            metrics_interval_seconds: 2,
            auto_game_mode: false,
            show_unavailable: true,
            medir_quadros_sozinho: true,
        }
    }
}

/// O que `sanitize` devolve: o mesmo, com o intervalo fora de 1, 2 ou 5 segundos trocado pelo padrão.
pub open spec fn spec_sanitize(p: Preferences) -> Preferences {
    if intervalo_valido(p.metrics_interval_seconds) {
        p
    } else {
        Preferences { metrics_interval_seconds: 2, ..p }
    }
}

impl Preferences {
    /// O arquivo pode ter sido editado à mão: intervalo fora de 1, 2 ou 5 segundos volta ao padrão, e o resto fica.
    pub fn sanitize(self) -> (r: Self)
        ensures
            r == spec_sanitize(self),
    {
        let mut p = self;
        let s = p.metrics_interval_seconds;
        if !(s == 1 || s == 2 || s == 5) {
            p.metrics_interval_seconds = 2;
        }
        p
    }
}

/// Limpar duas vezes é o mesmo que limpar uma, e o que sai tem sempre um intervalo válido.
pub proof fn lei_sanitize_idempotente(p: Preferences)
    ensures
        spec_sanitize(spec_sanitize(p)) == spec_sanitize(p),
        intervalo_valido(spec_sanitize(p).metrics_interval_seconds),
{
}

/// O padrão é válido: não há o que limpar nele.
pub proof fn lei_padrao_valido()
    ensures
        spec_sanitize(padrao()) == padrao(),
{
}

} // verus!
