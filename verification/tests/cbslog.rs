use pc_optimizer::windows::cbslog::{interpretar, ResultadoSfc, Severidade};


const SEM_CORRUPCAO: &str = "\
2026-08-31 11:59:59, Info CSI 00000000 [SR] Beginning Verify and Repair transaction
2026-08-31 12:00:01, Info CSI 00000001 [SR] Verifying 100 (0x00000064) components
2026-08-31 12:00:02, Info CSI 00000002 [SR] Verify complete
2026-08-31 12:00:03, Info CSI 00000003 [SR] Repairing 0 components";

const CORRIGIU: &str = "\
2026-08-31 11:59:59, Info CSI 00000000 [SR] Beginning Verify and Repair transaction
2026-08-31 12:00:01, Info CSI 00000001 [SR] Cannot repair member file [l:20]'ntdll.dll'
2026-08-31 12:00:02, Info CSI 00000002 [SR] Repairing corrupted file \\??\\C:\\Windows\\ntdll.dll
2026-08-31 12:00:03, Info CSI 00000003 [SR] Repair complete";

const NAO_CONSEGUIU: &str = "\
2026-08-31 11:59:59, Info CSI 00000000 [SR] Beginning Verify and Repair transaction
2026-08-31 12:00:01, Info CSI 00000001 [SR] Cannot repair member file [l:20]'ntdll.dll'
2026-08-31 12:00:02, Info CSI 00000002 [SR] Cannot repair member file [l:18]'user32.dll'";

const CORRIGIU_PARCIAL: &str = "\
2026-08-31 11:59:59, Info CSI 00000000 [SR] Beginning Verify and Repair transaction
2026-08-31 12:00:01, Info CSI 00000001 [SR] Cannot repair member file [l:20]'kernel32.dll'
2026-08-31 12:00:02, Info CSI 00000002 [SR] Repairing corrupted file \\??\\C:\\Windows\\kernel32.dll
2026-08-31 12:00:03, Info CSI 00000003 [SR] Cannot repair member file [l:18]'gdi32.dll'
2026-08-31 12:00:04, Info CSI 00000004 [SR] Repairing corrupted file \\??\\C:\\Windows\\gdi32.dll
2026-08-31 12:00:05, Info CSI 00000005 [SR] Cannot repair member file [l:18]'user32.dll'";

#[test]
fn log_limpo_e_sem_corrupcao() {
    assert_eq!(interpretar(SEM_CORRUPCAO), ResultadoSfc::SemCorrupcao);
}

#[test]
fn reparo_concluido_e_corrigiu() {
    assert_eq!(interpretar(CORRIGIU), ResultadoSfc::Corrigiu { quantos: 1 });
}

#[test]
fn sem_reparo_concluido_e_nao_conseguiu() {
    assert_eq!(
        interpretar(NAO_CONSEGUIU),
        ResultadoSfc::NaoConseguiu { quantos: 2 }
    );
}

#[test]
fn reparo_misto_nunca_vira_corrigiu_total() {
    assert_eq!(
        interpretar(CORRIGIU_PARCIAL),
        ResultadoSfc::CorrigiuEmParte {
            corrigidos: 2,
            restantes: 1
        }
    );
}

#[test]
fn duas_execucoes_no_mesmo_log_contam_so_a_ultima() {
    let historico = format!("{}\n{}", NAO_CONSEGUIU, CORRIGIU);

    assert_eq!(
        interpretar(&historico),
        ResultadoSfc::Corrigiu { quantos: 1 },
        "somou a execucao de tres meses atras na de agora"
    );
}

#[test]
fn a_passagem_anterior_nao_contamina_a_atual_no_sentido_contrario() {
    // Uma execução limpa antiga não apaga a corrupção deixada pela última.
    let historico = format!("{}\n{}", CORRIGIU, NAO_CONSEGUIU);

    assert_eq!(
        interpretar(&historico),
        ResultadoSfc::NaoConseguiu { quantos: 2 }
    );
}

#[test]
fn log_com_marcas_mas_sem_inicio_de_passagem_e_nao_sei() {
    let orfao = "2026-08-31 12:00:01, Info CSI 00000001 [SR] Verify complete";

    match interpretar(orfao) {
        ResultadoSfc::NaoSei { motivo } => {
            assert!(motivo.contains("começou"), "motivo errado: {}", motivo);
        }
        outro => panic!("esperava NaoSei, veio {:?}", outro),
    }
}

#[test]
fn log_vazio_e_nao_sei_e_nunca_sem_corrupcao() {
    assert!(matches!(interpretar(""), ResultadoSfc::NaoSei { .. }));
}

#[test]
fn corrigiu_em_parte_nunca_recebe_o_tom_de_sucesso() {
    let parcial = ResultadoSfc::CorrigiuEmParte {
        corrigidos: 2,
        restantes: 1,
    };

    assert_ne!(parcial.severidade(), Severidade::TudoBem);
    assert_eq!(parcial.severidade(), Severidade::Atencao);
}

#[test]
fn nao_conseguiu_e_mais_grave_que_corrigiu_em_parte() {
    assert_eq!(
        ResultadoSfc::NaoConseguiu { quantos: 3 }.severidade(),
        Severidade::Erro
    );
}

#[test]
fn sucesso_total_e_ausencia_de_corrupcao_recebem_o_tom_de_sucesso() {
    assert_eq!(ResultadoSfc::SemCorrupcao.severidade(), Severidade::TudoBem);
    assert_eq!(
        ResultadoSfc::Corrigiu { quantos: 4 }.severidade(),
        Severidade::TudoBem
    );
}

#[test]
fn nao_sei_recebe_o_tom_intermediario_e_nao_o_pior() {
    let ns = ResultadoSfc::NaoSei {
        motivo: "teste".into(),
    };

    assert_eq!(ns.severidade(), Severidade::Atencao);
}

#[test]
fn o_mesmo_arquivo_falhando_duas_vezes_conta_uma() {
    let log = "\
2026-09-02 10:00:00, Info CSI 00000001 [SR] Beginning Verify and Repair transaction
2026-09-02 10:00:01, Info CSI 00000002 [SR] Cannot repair member file [l:10]'ntdll.dll'
2026-09-02 10:00:02, Info CSI 00000003 [SR] Cannot repair member file [l:10]'ntdll.dll'
2026-09-02 10:00:03, Info CSI 00000004 [SR] Repairing corrupted file \\??\\C:\\Windows\\ntdll.dll
2026-09-02 10:00:04, Info CSI 00000005 [SR] Repair complete";

    assert_eq!(
        interpretar(log),
        ResultadoSfc::Corrigiu { quantos: 1 },
        "duas tentativas do mesmo arquivo viraram um arquivo ainda quebrado"
    );
}

#[test]
fn linha_sem_nome_extraivel_nao_e_contada_nem_inventada() {
    let log = "\
2026-09-02 10:00:00, Info CSI 00000001 [SR] Beginning Verify and Repair transaction
2026-09-02 10:00:01, Info CSI 00000002 [SR] Cannot repair member file sem aspas nenhuma
2026-09-02 10:00:02, Info CSI 00000003 [SR] Cannot repair member file [l:20]'ntdll.dll'";

    assert_eq!(
        interpretar(log),
        ResultadoSfc::NaoConseguiu { quantos: 1 },
        "linha sem nome extraivel foi contada como arquivo distinto"
    );
}

#[test]
fn falha_sem_nenhum_nome_extraivel_nunca_vira_sem_corrupcao() {
    let log = "\
2026-09-02 10:00:00, Info CSI 00000001 [SR] Beginning Verify and Repair transaction
2026-09-02 10:00:01, Info CSI 00000002 [SR] Cannot repair member file sem aspas nenhuma
2026-09-02 10:00:02, Info CSI 00000003 [SR] Cannot repair member file tambem sem aspas";

    match interpretar(log) {
        ResultadoSfc::NaoSei { motivo } => {
            assert!(!motivo.is_empty(), "motivo vazio nao ajuda o cliente");
        }
        outro => panic!("esperava NaoSei, veio {:?} — log com falha virou 'sem corrupcao'", outro),
    }
}

#[test]
fn reparo_com_falhas_ilegiveis_nao_le_como_sucesso() {
    let log = "\
[SR] Beginning Verify and Repair transaction
[SR] Cannot repair member file [l:10]'ntdll.dll'
[SR] Cannot repair member file
[SR] Cannot repair member file
[SR] Cannot repair member file
[SR] Cannot repair member file
[SR] Repairing corrupted file \\??\\C:\\Windows\\ntdll.dll";

    let r = interpretar(log);
    assert!(
        !matches!(r, ResultadoSfc::Corrigiu { .. }),
        "quatro falhas ilegíveis viraram sucesso limpo: {:?}",
        r
    );
}

#[test]
fn falha_ilegivel_com_reparo_completo_fica_com_ressalva() {
    let log = "\
[SR] Beginning Verify and Repair transaction
[SR] Cannot repair member file [l:10]'ntdll.dll'
[SR] Cannot repair member file
[SR] Repairing corrupted file \\??\\C:\\Windows\\ntdll.dll";

    assert_eq!(
        interpretar(log),
        ResultadoSfc::CorrigiuComRessalva { quantos: 1, linhas_ilegiveis: 1 }
    );
    assert_eq!(interpretar(log).severidade(), Severidade::Atencao);
}

#[test]
fn reparo_com_barra_normal_e_espaco_no_fim_tambem_conta() {
    let log = "[SR] Beginning Verify and Repair transaction\r\n[SR] Cannot repair member file [l:10]'a.dll'\r\n[SR] Repairing corrupted file C:/Windows/a.dll   \r\n";

    assert_eq!(interpretar(log), ResultadoSfc::Corrigiu { quantos: 1 });
}

#[test]
fn passagem_sem_linha_marcada_e_nao_sei() {
    match interpretar("Beginning Verify and Repair transaction") {
        ResultadoSfc::NaoSei { motivo } => assert!(motivo.contains("nenhuma verificação")),
        outro => panic!("esperava NaoSei, veio {:?}", outro),
    }
}

#[test]
fn aspas_vazias_nao_viram_nome() {
    let log = "\
[SR] Beginning Verify and Repair transaction
[SR] Cannot repair member file [l:0]''";

    assert!(matches!(interpretar(log), ResultadoSfc::NaoSei { .. }));
}
