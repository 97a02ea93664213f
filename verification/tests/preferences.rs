use pc_optimizer::preferences::Preferences;

#[test]
fn padrao_protege_o_usuario() {
    let padrao = Preferences::default();

    assert!(padrao.restore_point_before_batch);
    assert!(padrao.show_unavailable);
    assert!(!padrao.auto_game_mode);
    assert!(padrao.medir_quadros_sozinho);
}

#[test]
fn intervalo_invalido_volta_ao_padrao() {
    let mut p = Preferences::default();

    p.metrics_interval_seconds = 0;
    assert_eq!(p.clone().sanitize().metrics_interval_seconds, 2);

    p.metrics_interval_seconds = 999;
    assert_eq!(p.clone().sanitize().metrics_interval_seconds, 2);
}

#[test]
fn intervalos_da_lista_sao_preservados() {
    for intervalo in [1u32, 2, 5] {
        let mut p = Preferences::default();
        p.metrics_interval_seconds = intervalo;
        assert_eq!(p.sanitize().metrics_interval_seconds, intervalo);
    }
}
