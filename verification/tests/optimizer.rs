use pc_optimizer::optimizer::{
    ActionStatus, OQuePodeCustar, OptimizationOutcome, RiscoDeFps, RiscoNaTela,
};

#[test]
fn cada_coisa_que_pode_ser_custada_tem_rotulo_proprio() {
    let todos = [
        OQuePodeCustar::FpsMedio,
        OQuePodeCustar::UmPorCentoPior,
        OQuePodeCustar::Engasgo,
        OQuePodeCustar::Boost,
    ];

    let mut rotulos: Vec<&str> = todos.iter().map(|o| o.rotulo()).collect();
    let antes = rotulos.len();
    rotulos.sort();
    rotulos.dedup();

    assert_eq!(rotulos.len(), antes, "dois deles dizem a mesma frase ao cliente");

    for o in todos {
        assert!(!o.rotulo().trim().is_empty(), "{o:?} sem rótulo");
    }
}

#[test]
fn todo_risco_declarado_e_reconhecido_como_risco() {
    assert!(RiscoDeFps::custa(OQuePodeCustar::Boost, "x").pode_custar());
    assert!(RiscoDeFps::custa(OQuePodeCustar::Engasgo, "x").pode_custar());
    assert!(!RiscoDeFps::Nenhum.pode_custar());
}

#[test]
fn o_risco_na_tela_leva_a_frase_e_o_caso() {
    let r = RiscoNaTela::de(&RiscoDeFps::custa(OQuePodeCustar::Engasgo, "em disco lento"));
    assert_eq!(
        r,
        RiscoNaTela::PodeCustar {
            o_que: OQuePodeCustar::Engasgo,
            rotulo: "pode causar engasgo".to_string(),
            quando: "em disco lento".to_string(),
        }
    );
    assert_eq!(RiscoNaTela::de(&RiscoDeFps::Nenhum), RiscoNaTela::Nenhum);
}

#[test]
fn so_falhas_de_verdade_contam_como_falha() {
    assert!(ActionStatus::Verified.deu_certo());
    assert!(ActionStatus::Skipped.deu_certo());
    assert!(!ActionStatus::Failed.deu_certo());
    assert!(!ActionStatus::VerificationFailed.deu_certo());
    assert!(!ActionStatus::BlockedByPolicy.deu_certo());
}

#[test]
fn resultado_de_falha_nao_aplicou_nada() {
    let o = OptimizationOutcome::failed("x", "Nome", "deu errado".to_string());
    assert_eq!(o.id, "x");
    assert_eq!(o.message, "deu errado");
    assert!(!o.success && !o.applied);
    assert_eq!(o.changes_count, 0);
    assert!(o.changes.is_empty());
}
