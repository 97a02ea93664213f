//! A memória da placa de vídeo durante o jogo: o estado que a leitura encontrou.

use vstd::prelude::*;

verus! {

#[derive(Debug, Clone, Copy, PartialEq, Eq, Structural)]
pub enum Estado {
    NaoAvaliado,
    PlacaIntegrada,
    Folgada,
    /// O estado normal depois de um tempo de jogo; dito ao cliente, evita o ajuste desnecessário.
    CacheCheio,
    Transbordando,
    /// Outra coisa usando memória compartilhada (captura, navegador): o módulo não atribui ao jogo.
    DerramaSemPressao,
}

} // verus!
