use pc_optimizer::windows::afinidade::{conferir, erro_ao_abrir, soltar};
use pc_optimizer::windows::anticheat::{AntiCheat, Evidencia, Presenca};

#[test]
fn mascara_vazia_e_recusada_antes_de_chegar_no_windows() {
    let erro = conferir(&[], 0, Ok(0b1111)).expect_err("tem de recusar");

    assert!(erro.contains("nenhum núcleo"), "{erro}");
}

#[test]
fn nucleo_que_nao_existe_e_recusado_com_explicacao() {
    let sistema = 0b1111u64;
    let impossivel = 1u64 << 63;
    assert_eq!(sistema & impossivel, 0);

    let erro = conferir(&[], impossivel, Ok(sistema)).expect_err("tem de recusar");
    assert!(erro.contains("não pode usar"), "{erro}");
}

#[test]
fn prender_e_soltar_funciona_no_proprio_processo() {
    let sistema = 0b1111u64;
    assert!(conferir(&[], 0b1, Ok(sistema)).is_ok());
    assert_eq!(soltar(&[], Ok((0b1, sistema))), Ok(sistema));
}

#[test]
fn com_anticheat_ativo_nada_e_escrito() {
    let vanguard = Presenca { qual: AntiCheat::Vanguard, evidencia: Evidencia::ProcessoRodando("vgc.exe".into()), ativo_agora: true };
    let erro = conferir(&[vanguard], 0b1, Ok(0b1111)).expect_err("tem de recusar");
    assert!(erro.contains("Vanguard"), "{erro}");
}

#[test]
fn erro_de_leitura_chega_como_veio() {
    assert_eq!(conferir(&[], 0b1, Err("falhou".into())), Err("falhou".to_string()));
    assert_eq!(soltar(&[], Err("falhou".into())), Err("falhou".to_string()));
}

#[test]
fn os_erros_do_windows_viram_frase() {
    assert!(erro_ao_abrir(5).contains("negou acesso"));
    assert!(erro_ao_abrir(87).contains("não existe mais"));
    assert_eq!(erro_ao_abrir(1234), "não consegui abrir o processo (erro 1234).");
}
