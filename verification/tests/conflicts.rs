use pc_optimizer::windows::achados::FindingSeverity;
use pc_optimizer::windows::conflicts::{
    analyze, antivirus_ativos, casar, casar_processos, fechar, juntar_programas, lista_nuvem,
    lista_otimizadores, lista_sobreposicoes, nomes_de_processos, tempo_real_ligado, AntivirusLido,
    Conflict,
};

fn conflito(id: &str, severity: FindingSeverity) -> Conflict {
    Conflict {
        id: id.to_string(),
        title: String::new(),
        found: Vec::new(),
        explanation: String::new(),
        advice: String::new(),
        severity,
    }
}

#[test]
fn nenhum_conflito_so_aparece_quando_tudo_foi_lido() {
    let tudo_lido = fechar(Vec::new(), &[]);
    assert_eq!(tudo_lido.len(), 1);
    assert_eq!(tudo_lido[0].id, "none");

    let com_lacuna = fechar(Vec::new(), &["Programas instalados: acesso negado".to_string()]);
    assert!(com_lacuna.is_empty(), "leitura falha virou achado verde");
}

#[test]
fn le_o_bit_de_protecao_em_tempo_real() {
    assert!(tempo_real_ligado(0x061100), "Defender ativo");
    assert!(tempo_real_ligado(0x041000), "antivírus de terceiro ativo");

    assert!(!tempo_real_ligado(0x060000), "instalado, tempo real desligado");
    assert!(!tempo_real_ligado(0x040000), "instalado, sem proteção ativa");
    assert!(!tempo_real_ligado(0));
}

#[test]
fn casar_encontra_por_pedaco_do_nome() {
    let programas = vec![
        "IObit Driver Booster 12".to_string(),
        "Microsoft Edge".to_string(),
        "CCleaner".to_string(),
    ];

    let achados = casar(&programas, &lista_otimizadores());
    assert!(achados.iter().any(|p| p.contains("Driver Booster")));
    assert!(achados.iter().any(|p| p == "CCleaner"));
    assert!(!achados.iter().any(|p| p.contains("Edge")));
}

#[test]
fn casar_nao_repete_o_mesmo_programa() {
    let programas = vec!["IObit Driver Booster".to_string()];
    assert_eq!(casar(&programas, &lista_otimizadores()).len(), 1);
}

#[test]
fn sem_conflito_o_relatorio_ainda_diz_algo() {
    let vazio: Vec<String> = Vec::new();
    assert!(casar(&vazio, &lista_otimizadores()).is_empty());
}

// Casos a mais.

#[test]
fn casar_devolve_em_ordem_alfabetica() {
    let programas = vec![
        "CCleaner".to_string(),
        "Advanced SystemCare".to_string(),
        "CCleaner".to_string(),
    ];
    assert_eq!(casar(&programas, &lista_otimizadores()), vec!["Advanced SystemCare", "CCleaner"]);
}

#[test]
fn fechar_poe_o_critico_na_frente_sem_trocar_a_ordem_dos_outros() {
    let lista = vec![
        conflito("a", FindingSeverity::Important),
        conflito("b", FindingSeverity::AllGood),
        conflito("c", FindingSeverity::Critical),
        conflito("d", FindingSeverity::Important),
    ];
    let ids: Vec<String> = fechar(lista, &[]).into_iter().map(|c| c.id).collect();
    assert_eq!(ids, vec!["c", "a", "d", "b"]);
}

#[test]
fn estado_ilegivel_e_erro_e_nao_antivirus_desligado() {
    let lidos = vec![
        AntivirusLido { display_name: Some("Windows Defender".to_string()), product_state: Some(0x061100) },
        AntivirusLido { display_name: Some("Outro".to_string()), product_state: None },
    ];
    assert!(antivirus_ativos(&lidos).is_err());
}

#[test]
fn so_entra_antivirus_com_tempo_real_ligado() {
    let lidos = vec![
        AntivirusLido { display_name: Some("Windows Defender".to_string()), product_state: Some(0x061100) },
        AntivirusLido { display_name: Some("Desligado".to_string()), product_state: Some(0x060000) },
        AntivirusLido { display_name: Some("Terceiro".to_string()), product_state: Some(0x041000) },
    ];
    assert_eq!(antivirus_ativos(&lidos).unwrap(), vec!["Windows Defender", "Terceiro"]);
}

#[test]
fn programas_lidos_perdem_o_branco_e_a_repeticao() {
    let lidos = vec![
        "  Steam ".to_string(),
        "".to_string(),
        "Steam".to_string(),
        "Discord".to_string(),
        "   ".to_string(),
    ];
    assert_eq!(juntar_programas(&lidos), vec!["Steam", "Discord"]);
}

#[test]
fn processos_ficam_em_minusculas_em_ordem_e_sem_repeticao() {
    let nomes = vec!["Discord.exe".to_string(), "RTSS.exe".to_string(), "discord.exe".to_string()];
    assert_eq!(nomes_de_processos(&nomes), vec!["discord.exe", "rtss.exe"]);
}

#[test]
fn sobreposicoes_pelo_nome_do_processo() {
    let processos = vec!["discord.exe".to_string(), "rtss.exe".to_string(), "gamebar.exe".to_string()];
    assert_eq!(
        casar_processos(&processos, &lista_sobreposicoes()),
        vec!["Discord", "RivaTuner Statistics Server", "Xbox Game Bar"]
    );
    assert!(casar_processos(&processos, &lista_nuvem()).is_empty());
}

#[test]
fn relatorio_com_dois_antivirus_e_tres_sobreposicoes() {
    let processos = nomes_de_processos(&[
        "Discord.exe".to_string(),
        "rtss.exe".to_string(),
        "GameBar.exe".to_string(),
        "onedrive.exe".to_string(),
    ]);
    let r = analyze(
        Ok(vec!["CCleaner".to_string(), "Steam".to_string()]),
        &processos,
        Ok(vec!["Windows Defender".to_string(), "Avast".to_string()]),
    );
    let ids: Vec<&str> = r.conflicts.iter().map(|c| c.id.as_str()).collect();
    assert_eq!(ids, vec!["antivirus", "optimizers", "overlays"]);
    assert_eq!(r.conflicts[0].severity, FindingSeverity::Critical);
    assert_eq!(r.programs_scanned, Some(2));
    assert!(r.lacunas.is_empty());
}

#[test]
fn relatorio_sem_leitura_nao_afirma_ausencia_de_conflito() {
    let r = analyze(Err("acesso negado".to_string()), &[], Err("sem resposta".to_string()));
    assert!(r.conflicts.is_empty());
    assert_eq!(r.programs_scanned, None);
    assert_eq!(r.lacunas, vec!["Programas instalados: acesso negado", "sem resposta"]);

    let limpo = analyze(Ok(Vec::new()), &[], Ok(Vec::new()));
    assert_eq!(limpo.conflicts.len(), 1);
    assert_eq!(limpo.conflicts[0].id, "none");
    assert_eq!(limpo.programs_scanned, Some(0));
}
