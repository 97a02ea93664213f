use pc_optimizer::windows::bloatware::{
    analyze, classificar, comando_de_remocao, lista_apps_da_loja, lista_padroes, protegido,
    resultado_da_remocao, AppLido, BloatKind, ProgramaInstalado,
};

#[test]
fn driver_nunca_e_marcado_como_lixo() {
    let drivers = [
        ("NVIDIA Graphics Driver 566.36", "NVIDIA Corporation"),
        ("Realtek High Definition Audio Driver", "Realtek"),
        ("Intel Chipset Device Software", "Intel"),
        ("AMD Radeon Software", "Advanced Micro Devices"),
        ("Microsoft Visual C++ 2015-2022 Redistributable", "Microsoft"),
        (".NET Runtime 8.0.11", "Microsoft"),
        ("DirectX Runtime", "Microsoft"),
    ];

    for (nome, editor) in drivers {
        assert!(classificar(nome, editor).is_none(), "marcou como lixo o que é essencial: {}", nome);
    }
}

#[test]
fn utilitario_de_fabricante_e_marcado() {
    for (nome, editor) in [
        ("HP Support Assistant", "HP Inc."),
        ("Dell SupportAssist", "Dell Inc."),
        ("Lenovo Vantage", "Lenovo"),
    ] {
        let achado = classificar(nome, editor);
        assert!(achado.is_some(), "não marcou {}", nome);
        assert_eq!(achado.unwrap().0, BloatKind::OemUtility);
    }
}

#[test]
fn antivirus_de_fabrica_e_marcado_como_teste() {
    let (kind, motivo) = classificar("McAfee LiveSafe", "McAfee, LLC").unwrap();
    assert_eq!(kind, BloatKind::TrialSecurity);
    assert!(motivo.to_lowercase().contains("defender"));
}

#[test]
fn a_protecao_vence_o_padrao() {
    assert!(classificar("McAfee Firewall Driver", "McAfee").is_none());
}

#[test]
fn todo_padrao_tem_motivo_escrito() {
    for (termo, _, motivo) in lista_padroes() {
        assert!(!motivo.trim().is_empty(), "padrão `{}` marca sem explicar o porquê", termo);
    }
    for (id, motivo) in lista_apps_da_loja() {
        assert!(!motivo.trim().is_empty(), "app `{}` sem motivo", id);
    }
}

#[test]
fn recusa_identificador_de_pacote_com_comando_embutido() {
    assert!(comando_de_remocao("").is_err());
    assert!(comando_de_remocao("App'; Remove-Item C:\\ -Recurse; '").is_err());
    assert!(comando_de_remocao("App Nome Com Espaco").is_err());
}

#[test]
fn nada_de_programa_comum_e_removido_por_aqui() {
    let programas = vec![
        ProgramaInstalado { nome: "HP Support Assistant".into(), editor: "HP Inc.".into(), tamanho_kb: 2048 },
        ProgramaInstalado { nome: "McAfee LiveSafe".into(), editor: "McAfee".into(), tamanho_kb: 0 },
    ];
    let apps = vec![AppLido {
        name: Some("Microsoft.BingNews".into()),
        package_full_name: Some("Microsoft.BingNews_1.0_x64".into()),
    }];
    let r = analyze(&programas, Ok(apps));
    for item in r.items.iter().filter(|i| i.kind != BloatKind::StoreApp) {
        assert!(!item.removable_here, "{} não pode ser removido pelo Otimiza", item.name);
    }
    assert!(r.items.iter().any(|i| i.kind == BloatKind::StoreApp && i.removable_here));
}

// Casos a mais.

#[test]
fn comando_aceito_leva_o_pacote_entre_aspas() {
    assert_eq!(
        comando_de_remocao("Microsoft.BingNews_4.2.1_x64__8wekyb3d8bbwe").unwrap(),
        "Remove-AppxPackage -Package 'Microsoft.BingNews_4.2.1_x64__8wekyb3d8bbwe' -ErrorAction Stop"
    );
}

#[test]
fn resultado_da_remocao_fala_da_loja_ou_do_erro() {
    assert!(resultado_da_remocao(Ok(())).unwrap().contains("Microsoft Store"));
    assert_eq!(resultado_da_remocao(Err("negado".into())).unwrap_err(), "Não foi possível remover: negado");
}

#[test]
fn protecao_olha_nome_e_editor_juntos() {
    assert!(protegido("Qualquer Coisa", "Realtek Semiconductor"));
    assert!(!protegido("Steam", "Valve"));
}

#[test]
fn maiores_primeiro_e_sem_tamanho_no_fim() {
    let programas = vec![
        ProgramaInstalado { nome: "Lenovo Now".into(), editor: "Lenovo".into(), tamanho_kb: 100 },
        ProgramaInstalado { nome: "ExpressVPN".into(), editor: "ExpressVPN".into(), tamanho_kb: 0 },
        ProgramaInstalado { nome: "Norton 360".into(), editor: "Gen".into(), tamanho_kb: 5000 },
        ProgramaInstalado { nome: "Steam".into(), editor: "Valve".into(), tamanho_kb: 9000 },
        ProgramaInstalado { nome: "Acer Jumpstart".into(), editor: "Acer".into(), tamanho_kb: 100 },
    ];
    let r = analyze(&programas, Err("Loja sem resposta".into()));
    let nomes: Vec<&str> = r.items.iter().map(|i| i.name.as_str()).collect();
    assert_eq!(nomes, vec!["Norton 360", "Lenovo Now", "Acer Jumpstart", "ExpressVPN"]);
    assert_eq!(r.unmeasured, 1);
    assert_eq!(r.programs_scanned, 5);
    assert_eq!(r.lacunas, vec!["Loja sem resposta"]);
}
