use pc_optimizer::windows::acessibilidade::{chaves, desligado, desligar, esta_ligado, ligadas};

#[test]
fn o_padrao_do_windows_esta_desligado() {
    assert_eq!(esta_ligado("126"), Some(false));
    assert_eq!(esta_ligado("510"), Some(false));
    assert_eq!(esta_ligado("62"), Some(false));
}

#[test]
fn o_bit_zero_ligado_e_reconhecido() {
    assert_eq!(esta_ligado("127"), Some(true));
    assert_eq!(esta_ligado("511"), Some(true));
}

#[test]
fn desligar_preserva_as_preferencias_do_usuario() {
    assert_eq!(desligado("127").as_deref(), Some("126"));
    assert_eq!(desligado("511").as_deref(), Some("510"));
    assert_eq!(desligado("63").as_deref(), Some("62"));
}

#[test]
fn ja_desligado_nao_gera_escrita() {
    assert_eq!(desligado("126"), None);
    assert_eq!(desligado("510"), None);
}

#[test]
fn valor_ilegivel_nao_vira_palpite() {
    assert_eq!(esta_ligado("nao é numero"), None);
    assert_eq!(desligado(""), None);
}

#[test]
fn espacos_em_volta_do_numero_sao_ignorados() {
    assert_eq!(esta_ligado(" 127\n"), Some(true));
    assert_eq!(desligado("  3 ").as_deref(), Some("2"));
    assert_eq!(esta_ligado("4294967296"), None, "não cabe em 32 bits");
}

#[test]
fn o_plano_so_grava_nas_chaves_ligadas() {
    let lidos = vec![Some("127".to_string()), None, Some("62".to_string())];
    assert_eq!(desligar(&lidos), vec![(0usize, "126".to_string())]);
    assert_eq!(ligadas(&lidos), vec!["Filtragem de Teclas"]);
    assert_eq!(chaves().len(), 3);
}

#[test]
fn o_que_se_grava_le_desligado_de_volta() {
    for flags in ["127", " 511 ", "1", "4294967295"] {
        let novo = desligado(flags).expect("estava ligado");
        assert_eq!(esta_ligado(&novo), Some(false), "{flags} -> {novo}");
    }
}
