use pc_optimizer::regressao::{jogos, lados, PartidaDaRegressao, AMOSTRAS_MINIMAS};

fn partida(jogo: &str, confiavel: bool, aplicadas: usize) -> PartidaDaRegressao {
    PartidaDaRegressao { jogo: jogo.to_string(), confiavel, mudancas_aplicadas: aplicadas }
}

#[test]
fn a_partida_curta_fica_fora_dos_dois_lados() {
    let partidas = vec![
        partida("fivem.exe", true, 0),
        partida("fivem.exe", true, 0),
        partida("fivem.exe", true, 14),
        partida("fivem.exe", true, 14),
        partida("fivem.exe", false, 14),
    ];

    let (antes, depois) = lados("fivem.exe", &partidas, 14);

    assert_eq!(antes, vec![0, 1]);
    assert_eq!(depois, vec![2, 3]);
}

#[test]
fn outro_jogo_fica_fora_dos_lados() {
    let partidas = vec![
        partida("fivem.exe", true, 0),
        partida("fivem.exe", true, 0),
        partida("cs2.exe", true, 0),
        partida("cs2.exe", true, 0),
        partida("fivem.exe", true, 5),
        partida("fivem.exe", true, 5),
    ];

    let (antes, depois) = lados("fivem.exe", &partidas, 5);

    assert_eq!(antes, vec![0, 1]);
    assert_eq!(depois, vec![4, 5]);
}

#[test]
fn o_jogo_e_o_mesmo_sem_olhar_maiusculas() {
    let partidas = vec![partida("FiveM.exe", true, 0), partida("fivem.EXE", true, 3), partida("fivem.ex", true, 3)];

    let (antes, depois) = lados("FIVEM.exe", &partidas, 3);

    assert_eq!(antes, vec![0]);
    assert_eq!(depois, vec![1]);
}

#[test]
fn mais_otimizacoes_que_hoje_tambem_e_depois() {
    let partidas = vec![partida("x.exe", true, 2), partida("x.exe", true, 9), partida("x.exe", true, 4)];

    let (antes, depois) = lados("x.exe", &partidas, 4);

    assert_eq!(antes, vec![0]);
    assert_eq!(depois, vec![1, 2]);
}

#[test]
fn um_lado_precisa_de_duas_partidas() {
    assert_eq!(AMOSTRAS_MINIMAS, 2);
}

#[test]
fn cada_jogo_aparece_uma_vez_na_grafia_da_primeira_partida() {
    let partidas = vec![
        partida("Bom.exe", true, 0),
        partida("ruim.exe", false, 0),
        partida("bom.EXE", true, 6),
        partida("RUIM.exe", true, 6),
        partida("outro.exe", true, 6),
    ];

    assert_eq!(jogos(&partidas), vec!["Bom.exe".to_string(), "ruim.exe".to_string(), "outro.exe".to_string()]);
}

#[test]
fn sem_partidas_nao_ha_jogo() {
    assert!(jogos(&[]).is_empty());
}
