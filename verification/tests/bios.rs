use pc_optimizer::windows::bios::{ler, montar, BiosLida, Fase, Leitura};

fn leitura_padrao() -> Leitura {
    Leitura {
        placa_mae: Some("Micro-Star International Co., Ltd. PRO H410M-B(MS-7D82)".to_string()),
        versao_da_bios: Some("1.20".to_string()),
        data_da_bios: Some("20220522210000.000000+000".to_string()),
        uefi: Some(true),
        secure_boot: Some(true),
        lacunas: Vec::new(),
    }
}

#[test]
fn os_passos_saem_em_ordem_de_risco() {
    let passos = montar(&leitura_padrao(), true, true, true);

    let fases: Vec<Fase> = passos.iter().map(|p| p.fase).collect();
    let mut ordenadas = fases.clone();
    ordenadas.sort();

    assert_eq!(fases, ordenadas, "as fases saíram fora de ordem");
    assert_eq!(passos[0].fase, Fase::UsarOQueTem);
}

#[test]
fn o_curve_optimizer_nunca_vem_com_numero() {
    let passos = montar(&leitura_padrao(), false, false, true);
    let curve = passos.iter().find(|p| p.id == "curve_optimizer").unwrap();

    assert!(curve.risco_e_volta.contains("NÃO DÁ NÚMERO"));

    let texto = format!("{} {} {}", curve.titulo, curve.o_que_faz, curve.risco_e_volta);
    for proibido in ["-5", "-10", "-15", "-20", "-25", "-30"] {
        assert!(!texto.contains(proibido), "apareceu o valor {proibido} no texto");
    }
}

#[test]
fn a_atualizacao_de_bios_e_recusada_por_escrito() {
    let passos = montar(&leitura_padrao(), false, false, false);
    let bios = passos.iter().find(|p| p.id == "atualizar_bios").unwrap();

    assert_eq!(bios.fase, Fase::UltimoRecurso);
    assert!(bios.risco_e_volta.contains("NUNCA FAZ ISSO E NUNCA VAI FAZER"));
    assert!(bios.risco_e_volta.contains("sem ligar"), "precisa dizer o pior caso");
}

#[test]
fn pbo_e_curve_optimizer_so_aparecem_em_amd() {
    let intel = montar(&leitura_padrao(), false, false, false);

    assert!(!intel.iter().any(|p| p.id == "pbo"));
    assert!(!intel.iter().any(|p| p.id == "curve_optimizer"));

    let amd = montar(&leitura_padrao(), false, false, true);
    assert!(amd.iter().any(|p| p.id == "pbo"));
}

#[test]
fn o_passo_do_legacy_so_aparece_em_legacy_e_avisa_do_disco() {
    let uefi = montar(&leitura_padrao(), false, false, false);
    assert!(!uefi.iter().any(|p| p.id == "csm"));

    let legacy = Leitura { uefi: Some(false), ..leitura_padrao() };
    let passos = montar(&legacy, false, false, false);
    let csm = passos.iter().find(|p| p.id == "csm").expect("precisa aparecer");

    assert!(csm.risco_e_volta.contains("não iniciar"));
    assert!(csm.risco_e_volta.contains("mbr2gpt"), "precisa nomear a ferramenta");
    assert!(csm.risco_e_volta.contains("backup") || csm.risco_e_volta.contains("cópia"));
}

#[test]
fn uefi_desconhecido_nao_vira_passo_de_legacy() {
    let sem_saber = Leitura { uefi: None, ..leitura_padrao() };
    assert!(!montar(&sem_saber, false, false, false).iter().any(|p| p.id == "csm"));
}

#[test]
fn o_que_foi_medido_aqui_e_marcado() {
    let com_achado = montar(&leitura_padrao(), true, true, false);

    assert!(com_achado.iter().find(|p| p.id == "xmp").unwrap().medido_aqui);
    assert!(com_achado.iter().find(|p| p.id == "rebar").unwrap().medido_aqui);

    let sem_achado = montar(&leitura_padrao(), false, false, false);
    assert!(!sem_achado.iter().find(|p| p.id == "xmp").unwrap().medido_aqui);
}

#[test]
fn todo_passo_diz_o_risco_e_como_voltar() {
    for passo in montar(&leitura_padrao(), true, true, true) {
        assert!(passo.risco_e_volta.len() >= 120, "`{}` não explica o risco nem a volta", passo.id);
        assert!(!passo.onde.trim().is_empty(), "`{}` não diz onde procurar", passo.id);
    }
}

#[test]
fn o_modelo_da_placa_aparece_onde_importa() {
    let passos = montar(&leitura_padrao(), false, false, false);
    let bios = passos.iter().find(|p| p.id == "atualizar_bios").unwrap();

    assert!(bios.onde.contains("PRO H410M-B"));
}

#[test]
fn sem_o_modelo_a_frase_continua_inteira() {
    let sem = Leitura { placa_mae: None, ..leitura_padrao() };
    let passos = montar(&sem, false, false, false);
    let bios = passos.iter().find(|p| p.id == "atualizar_bios").unwrap();

    assert!(bios.onde.ends_with("modelo exato."));
}

#[test]
fn toda_fase_se_explica() {
    for fase in [Fase::UsarOQueTem, Fase::Documentado, Fase::ExigeTeste, Fase::NaoOrientamos, Fase::UltimoRecurso] {
        assert!(fase.explicacao().len() >= 100, "{:?} sem explicação", fase);
        assert!(fase.titulo().starts_with("Fase "));
    }
}

// Casos a mais.

#[test]
fn sem_resposta_do_firmware_a_leitura_vira_lacuna() {
    let l = ler(None);
    assert!(l.placa_mae.is_none());
    assert_eq!(l.lacunas.len(), 1);
    assert!(l.lacunas[0].contains("placa-mãe"));
}

#[test]
fn a_leitura_apara_a_placa_e_descarta_o_vazio() {
    let l = ler(Some(BiosLida {
        placa: Some("  ASUS PRIME B450M  ".to_string()),
        versao: Some("   ".to_string()),
        data: Some("20220101".to_string()),
        uefi: None,
        secure: Some(false),
    }));
    assert_eq!(l.placa_mae.as_deref(), Some("ASUS PRIME B450M"));
    assert!(l.versao_da_bios.is_none());
    assert_eq!(l.data_da_bios.as_deref(), Some("20220101"));
    assert_eq!(l.secure_boot, Some(false));
    assert_eq!(l.lacunas, vec!["Não deu para saber se esta máquina inicia em modo UEFI ou Legacy."]);
}

#[test]
fn com_tudo_ligado_sao_sete_passos() {
    let legacy = Leitura { uefi: Some(false), ..leitura_padrao() };
    let ids: Vec<String> = montar(&legacy, false, false, true).into_iter().map(|p| p.id).collect();
    assert_eq!(
        ids,
        vec!["xmp", "rebar", "csm", "pbo", "curve_optimizer", "overclock_manual", "atualizar_bios"]
    );
}
