use pc_optimizer::optimizer::{ExpectedGain, OptimizationState, RiscoDeFps};
use pc_optimizer::windows::catalog::{
    catalog, classe, entra_no_lote, entra_no_lote_se, find, lista_condicionais, lista_expert,
    lista_fora_do_lote, lista_retirados, retirado, Action, Classe, Condicao, RegValue, Requirement,
};
use std::collections::HashSet;

#[test]
fn efeitos_visuais_escrevem_a_mascara_que_realmente_governa() {
    let spec = find("visual_effects_performance").expect("otimização deveria existir");

    assert!(
        spec.actions.iter().any(|acao| matches!(
            acao,
            Action::Registry { name, value: RegValue::Binary(_), .. }
                if *name == "UserPreferencesMask"
        )),
        "sem UserPreferencesMask a otimização muda o rótulo e não o comportamento"
    );
}

#[test]
fn efeitos_visuais_desligam_o_arrasto_de_janela_cheia() {
    let spec = find("visual_effects_performance").expect("otimização deveria existir");

    assert!(spec.actions.iter().any(|acao| matches!(
        acao,
        Action::Registry { name, value: RegValue::Text("0"), .. }
            if *name == "DragFullWindows"
    )));
}

#[test]
fn desligar_vbs_tambem_impede_o_hipervisor_de_subir() {
    let spec = find("disable_vbs").expect("otimização deveria existir");

    assert!(
        spec.actions.iter().any(|acao| matches!(acao, Action::DisableHypervisor)),
        "sem desligar o hipervisor, o cliente perde a proteção e não ganha o desempenho"
    );
}

#[test]
fn catalog_ids_are_unique() {
    let cat = catalog();
    let ids: HashSet<&str> = cat.iter().map(|spec| spec.id).collect();
    assert_eq!(ids.len(), cat.len(), "ids duplicados tornam o rollback ambíguo");
}

#[test]
fn every_optimization_has_an_honest_effect() {
    for spec in catalog() {
        assert!(!spec.honest_effect.trim().is_empty(), "{} não descreve o ganho real", spec.id);
    }
}

#[test]
fn nenhum_ajuste_cobra_seguranca_sem_entregar_nada() {
    for spec in catalog() {
        assert!(
            !(spec.security_tradeoff && spec.expected_gain == ExpectedGain::NoGain),
            "`{}` pede segurança em troca de ganho declarado nulo",
            spec.id
        );
    }
}

#[test]
fn no_optimization_touches_windows_update_or_defender() {
    let forbidden = ["wuauserv", "BITS", "WinDefend", "mpssvc", "SecurityHealthService"];

    for spec in catalog() {
        for action in spec.actions {
            if let Action::DisableService { name } = action {
                assert!(
                    !forbidden.iter().any(|f| f.eq_ignore_ascii_case(name)),
                    "{} desativa serviço proibido: {}",
                    spec.id,
                    name
                );
            }
        }
    }
}

#[test]
fn only_file_deletion_is_irreversible() {
    let mut irreversible: Vec<&str> =
        catalog().iter().filter(|spec| !spec.reversible).map(|spec| spec.id).collect();
    irreversible.sort();

    assert!(irreversible.is_empty(), "{:?}", irreversible);
}

#[test]
fn irreversible_optimizations_say_so_to_the_user() {
    for spec in catalog().iter().filter(|spec| !spec.reversible) {
        let text = spec.honest_effect.to_lowercase();
        assert!(
            text.contains("não pode ser desfeita") || text.contains("não volta"),
            "{} não avisa que é irreversível",
            spec.id
        );
    }
}

#[test]
fn quem_nao_promete_ganho_diz_isso_na_cara() {
    for spec in catalog().iter().filter(|s| s.expected_gain == ExpectedGain::NoGain) {
        let texto = spec.honest_effect.to_lowercase();

        assert!(
            texto.contains("não muda desempenho")
                || texto.contains("não muda absolutamente nada")
                || texto.contains("não ganha um quadro"),
            "`{}` está marcado como sem ganho e não diz isso ao cliente: {:?}",
            spec.id,
            spec.honest_effect
        );
    }
}

#[test]
fn nada_que_promete_fps_entra_como_sem_ganho() {
    for spec in catalog().iter().filter(|s| s.expected_gain == ExpectedGain::NoGain) {
        let texto = format!("{} {}", spec.description, spec.honest_effect).to_lowercase();

        assert!(
            !texto.contains("mais fps") && !texto.contains("aumenta o fps"),
            "`{}` promete FPS e está classificado como sem ganho",
            spec.id
        );
    }
}

#[test]
fn nada_que_pode_custar_fps_entra_no_lote_automatico() {
    for spec in catalog() {
        if spec.risco_de_fps.pode_custar() {
            assert!(
                !entra_no_lote(&spec),
                "`{}` pode custar FPS e ainda assim entra no \"Otimizar agora\".",
                spec.id
            );
        }
    }
}

#[test]
fn todo_risco_de_fps_diz_em_que_caso_ele_custa() {
    for spec in catalog() {
        if let RiscoDeFps::PodeCustar { quando, .. } = &spec.risco_de_fps {
            assert!(
                quando.len() >= 80,
                "`{}`: o risco precisa dizer em que caso ele custa quadro, não só que pode",
                spec.id
            );
        }
    }
}

#[test]
fn os_ajustes_do_incidente_continuam_fora_do_lote() {
    for id in ["gpu_hardware_scheduling", "disable_memory_compression"] {
        let spec = catalog()
            .into_iter()
            .find(|s| s.id == id)
            .unwrap_or_else(|| panic!("`{id}` sumiu do catálogo"));

        assert!(
            spec.risco_de_fps.pode_custar(),
            "`{id}` voltou a ser tratado como se não pudesse custar FPS"
        );
        assert!(!entra_no_lote(&spec), "`{id}` voltou para o lote automático");
    }
}

#[test]
fn aplicativos_em_segundo_plano_nao_entram_no_lote() {
    let item = find("background_apps_off").expect("o item continua existindo, um a um");

    assert!(!entra_no_lote(&item), "`background_apps_off` voltou a entrar no lote");
    assert!(item.reversible);
    assert!(
        item.honest_effect.contains("não entra no \"Otimizar agora\""),
        "o texto não diz ao cliente que o item fica fora do lote"
    );
}

#[test]
fn todo_id_fora_do_lote_existe_no_catalogo() {
    for id in lista_fora_do_lote() {
        assert!(find(id).is_some(), "`{}` está em FORA_DO_LOTE e não existe no catálogo", id);
    }
}

#[test]
fn o_lote_continua_sem_irreversivel_e_sem_troca_de_seguranca() {
    for spec in catalog().iter().filter(|s| !s.reversible || s.security_tradeoff) {
        assert!(!entra_no_lote(spec), "`{}` entraria no lote", spec.id);
    }
}

#[test]
fn toda_classe_aponta_para_um_item_do_catalogo() {
    let expert = lista_expert();
    let condicionais = lista_condicionais();
    for id in expert.iter().chain(condicionais.iter().map(|(i, _)| i)) {
        let spec = find(id).unwrap_or_else(|| panic!("`{id}` classificado e fora do catálogo"));
        assert!(!retirado(id), "`{id}` foi retirado e ainda está classificado");
        let _ = spec;
    }
    for id in &expert {
        assert!(!condicionais.iter().any(|(i, _)| i == id), "`{id}` em duas classes");
    }
}

#[test]
fn expert_e_so_se_pedir_nunca_entram_em_lote_nem_com_tudo_atendido() {
    for spec in catalog() {
        let nunca = matches!(classe(spec.id), Classe::Expert | Classe::Condicional(Condicao::SoSePedir));
        if nunca {
            assert!(!entra_no_lote_se(&spec, |_| true), "`{}` entraria num lote", spec.id);
        }
    }
}

#[test]
fn condicional_so_entra_no_lote_com_a_condicao_medida() {
    let dvr = find("disable_gamedvr").unwrap();
    assert!(!entra_no_lote(&dvr), "sem medir, o Game DVR não pode entrar");
    assert!(entra_no_lote_se(&dvr, |c| c == Condicao::GameDvrLigado));
    assert!(!entra_no_lote_se(&dvr, |c| c != Condicao::GameDvrLigado));
}

#[test]
fn toda_condicao_explica_por_que_o_item_aparece() {
    for (_, c) in lista_condicionais() {
        assert!(c.quando().len() >= 40, "{:?} sem explicação", c);
    }
}

#[test]
fn find_returns_known_optimization() {
    assert!(find("plano_otimiza").is_some());
    assert!(find("does_not_exist").is_none());
}

// Casos a mais.

#[test]
fn medir_mais_condicoes_nunca_tira_item_do_lote() {
    for spec in catalog() {
        if entra_no_lote(&spec) {
            assert!(entra_no_lote_se(&spec, |_| true), "`{}` saiu do lote ao medir", spec.id);
        }
    }
}

#[test]
fn retirado_nunca_entra_no_lote() {
    let base = find("plano_otimiza").unwrap();
    assert!(entra_no_lote(&base));
    for id in lista_retirados() {
        assert!(retirado(id));
        let mut copia = base;
        copia.id = id;
        assert!(!entra_no_lote_se(&copia, |_| true), "`{id}` voltaria pelo lote");
    }
    assert!(!retirado("plano_otimiza"));
}

#[test]
fn classe_de_cada_lista() {
    assert_eq!(classe("disable_vbs"), Classe::Expert);
    assert_eq!(classe("disable_hibernation"), Classe::Condicional(Condicao::PoucoEspaco));
    assert_eq!(classe("plano_otimiza"), Classe::Essencial);
    assert_eq!(classe("qualquer_outra_coisa"), Classe::Essencial);
}

#[test]
fn a_ficha_mostra_classe_condicao_e_risco() {
    let dvr = find("disable_gamedvr").unwrap();
    let info = dvr.to_info(OptimizationState::Available, Some("medido".to_string()), true);
    assert_eq!(info.id, "disable_gamedvr");
    assert!(!info.expert);
    assert!(!info.retirado);
    assert_eq!(info.condicao.as_deref(), Some(Condicao::GameDvrLigado.quando()));
    assert_eq!(info.detail.as_deref(), Some("medido"));
    assert!(info.recommended);
    assert_eq!(info.state, OptimizationState::Available);

    let vbs = find("disable_vbs").unwrap();
    let info = vbs.to_info(OptimizationState::Applied, None, false);
    assert!(info.expert);
    assert!(info.condicao.is_none());
}

#[test]
fn requisito_nao_atendido_explica_o_motivo() {
    assert!(Requirement::SsdSystemDrive.unmet_reason().contains("SSD"));
    assert!(Requirement::MinRamGb(12).unmet_reason().contains("memória RAM"));
    assert!(Requirement::MinWddm(2700).unmet_reason().contains("WDDM 2.7"));
}
