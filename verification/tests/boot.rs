use pc_optimizer::windows::boot::{
    analyze, culpados, limpar, montar_nota, tipo_do_codigo, tipos_recentes, BootLido, BootType,
    CulpadoLido, TipoLido,
};

#[test]
fn metadado_hostil_de_terceiro_e_limpo() {
    let sujo = "Programa\u{0}\u{1}\tRuim\r\n";
    let limpo = limpar(sujo);

    assert!(!limpo.contains('\u{0}'));
    assert!(!limpo.contains('\r'));
    assert!(limpo.starts_with("Programa"));

    assert!(limpar(&"a".repeat(500)).chars().count() <= 80);
}

#[test]
fn tipo_de_boot_vem_do_numero() {
    assert_eq!(tipo_do_codigo(0), Some(BootType::Full));
    assert_eq!(tipo_do_codigo(1), Some(BootType::FastStartup));
    assert_eq!(tipo_do_codigo(2), Some(BootType::Resume));
    assert_eq!(tipo_do_codigo(9), None);
}

#[test]
fn sem_elevacao_a_nota_explica_em_vez_de_dar_boa_noticia() {
    let nota = montar_nota(false, false, 0, 0);

    assert!(nota.contains("administrador"));
    assert!(!nota.to_lowercase().contains("ótimo"));
    assert!(!nota.to_lowercase().contains("rápido"));
}

#[test]
fn elevado_e_sem_dado_admite_que_nao_sabe() {
    let nota = montar_nota(true, false, 0, 5);

    assert!(nota.contains("não vamos inventar"));
    assert!(nota.contains("não temos como dizer") || nota.contains("Não temos como dizer"));
}

#[test]
fn inicializacao_rapida_e_avisada_quando_ha_medicao() {
    let nota = montar_nota(true, true, 4, 10);

    assert!(nota.contains("Inicialização Rápida"));
    assert!(nota.contains("4 das últimas 10"));
}

// Casos a mais.

fn culpado(nome: &str, caminho: &str, total: u64) -> CulpadoLido {
    CulpadoLido {
        name: Some(nome.to_string()),
        path: Some(caminho.to_string()),
        total_ms: total,
        degradation_ms: 0,
    }
}

#[test]
fn limpar_tira_o_branco_das_pontas_depois_de_cortar() {
    assert_eq!(limpar("  \u{7f}Steam\u{9f}  "), "Steam");
    assert_eq!(limpar(""), "");
}

#[test]
fn fica_o_pior_caso_de_cada_programa_do_maior_para_o_menor() {
    let lidos = vec![
        culpado("Steam", "c:\\steam.exe", 800),
        culpado("Discord", "c:\\discord.exe", 1200),
        culpado("Steam", "c:\\steam.exe", 3000),
        culpado("", "c:\\sem_nome.exe", 9000),
        culpado("Zero", "c:\\zero.exe", 0),
        culpado("Sem caminho", "", 500),
        culpado("Outro sem caminho", "", 500),
    ];
    let r = culpados(&lidos);
    let vistos: Vec<(&str, u64)> = r.iter().map(|c| (c.name.as_str(), c.total_ms)).collect();
    assert_eq!(
        vistos,
        vec![("Steam", 3000), ("Discord", 1200), ("Sem caminho", 500), ("Outro sem caminho", 500)]
    );
}

#[test]
fn no_maximo_doze_culpados() {
    let lidos: Vec<CulpadoLido> =
        (0..20).map(|i| culpado(&format!("P{i}"), &format!("c:\\p{i}.exe"), 100 + i)).collect();
    let r = culpados(&lidos);
    assert_eq!(r.len(), 12);
    assert_eq!(r[0].total_ms, 119);
    assert!(r.windows(2).all(|p| p[0].total_ms >= p[1].total_ms));
}

#[test]
fn tipos_ilegiveis_ficam_de_fora() {
    let lidos = vec![
        TipoLido { when: Some("2026-01-01".to_string()), kind: Some(" 1 ".to_string()) },
        TipoLido { when: None, kind: Some("7".to_string()) },
        TipoLido { when: None, kind: Some("x".to_string()) },
        TipoLido { when: None, kind: Some("0".to_string()) },
    ];
    let r = tipos_recentes(&lidos);
    assert_eq!(
        r,
        vec![("2026-01-01".to_string(), BootType::FastStartup), (String::new(), BootType::Full)]
    );
}

#[test]
fn sem_administrador_nada_de_medicao_nem_culpado() {
    let boots = vec![BootLido {
        when: None,
        total_ms: 30_000,
        main_path_ms: 10_000,
        post_boot_ms: 20_000,
        instance: 1,
        degradation: None,
    }];
    let r = analyze(false, &[], Some(boots), Some(vec![culpado("Steam", "c:\\s.exe", 10)]), Some(0));
    assert!(r.needs_admin);
    assert!(r.last.is_none());
    assert!(r.culprits.is_empty());
    assert!(!r.culpados_lidos);
    assert!(r.note.contains("administrador"));
    assert_eq!(r.firmware_ms, None);
}

#[test]
fn com_administrador_a_ultima_medicao_e_a_primeira() {
    let boots = vec![
        BootLido {
            when: Some("hoje".to_string()),
            total_ms: 30_000,
            main_path_ms: 10_000,
            post_boot_ms: 20_000,
            instance: 7,
            degradation: Some("true".to_string()),
        },
        BootLido { when: None, total_ms: 0, main_path_ms: 0, post_boot_ms: 0, instance: 0, degradation: None },
    ];
    let tipos = vec![TipoLido { when: None, kind: Some("1".to_string()) }];
    let r = analyze(true, &tipos, Some(boots), Some(Vec::new()), Some(4200));
    assert_eq!(r.history.len(), 1);
    let ultimo = r.last.unwrap();
    assert_eq!(ultimo.when, "hoje");
    assert!(ultimo.degraded);
    assert_eq!(ultimo.instance, 7);
    assert!(r.culpados_lidos);
    assert!(r.note.contains("1 das últimas 1"));
    assert_eq!(r.firmware_ms, Some(4200));
}

#[test]
fn o_nome_limpo_nao_tem_controle_nem_branco_nas_pontas() {
    let r = limpar("  \u{1}Programa\u{7f} Ruim\t\n");
    assert_eq!(r, "Programa Ruim");
    assert!(!r.chars().any(char::is_control));
    assert_eq!(r, r.trim());
    assert!(limpar(&"b".repeat(500)).chars().count() <= 80);
}
