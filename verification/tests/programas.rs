use pc_optimizer::programas::{catalogo, esta_instalado, montar, por_id, Categoria};

#[test]
fn nao_ha_id_repetido() {
    let mut ids: Vec<&str> = catalogo().iter().map(|p| p.id).collect();
    let antes = ids.len();
    ids.sort_unstable();
    ids.dedup();

    assert_eq!(ids.len(), antes, "id repetido");
}

#[test]
fn nao_ha_pacote_repetido() {
    let mut pacotes: Vec<&str> = catalogo().iter().map(|p| p.winget).collect();
    let antes = pacotes.len();
    pacotes.sort_unstable();
    pacotes.dedup();

    assert_eq!(pacotes.len(), antes, "pacote repetido");
}

#[test]
fn todo_pacote_tem_forma_de_identificador() {
    for p in catalogo() {
        assert!(
            p.winget.contains('.') && !p.winget.contains(' '),
            "{} não parece identificador de winget: {}",
            p.id,
            p.winget
        );
    }
}

#[test]
fn todo_programa_sabe_se_reconhecer_instalado() {
    for p in catalogo() {
        assert!(!p.instalado_como.is_empty(), "{} não tem como ser reconhecido instalado", p.id);
        for nome in p.instalado_como {
            assert_eq!(*nome, nome.to_lowercase(), "{} com maiúscula", p.id);
        }
    }
}

#[test]
fn todo_programa_diz_para_que_serve() {
    for p in catalogo() {
        assert!(!p.descricao.is_empty(), "{} sem descrição", p.id);
        assert!(p.descricao.ends_with('.'), "{}: a descrição é uma frase", p.id);
    }
}

#[test]
fn reconhece_o_que_esta_instalado() {
    let instalados = vec![
        "7-Zip 24.09 (x64)".to_string(),
        "Google Chrome".to_string(),
        "Microsoft Visual C++ 2015-2022 Redistributable (x64) - 14.40".to_string(),
    ];

    assert!(esta_instalado(&por_id("7zip").unwrap(), &instalados));
    assert!(esta_instalado(&por_id("chrome").unwrap(), &instalados));
    assert!(esta_instalado(&por_id("vcredist").unwrap(), &instalados));
    assert!(!esta_instalado(&por_id("vlc").unwrap(), &instalados));
}

#[test]
fn registro_ilegivel_deixa_todos_em_desconhecido() {
    let lista = montar(None);

    assert_eq!(lista.len(), catalogo().len());
    assert!(
        lista.iter().all(|p| p.instalado.is_none()),
        "sem a leitura do registro, ninguém pode ser dado como não instalado"
    );
}

#[test]
fn com_a_leitura_todos_tem_resposta() {
    let lista = montar(Some(&["7-Zip 24.09".to_string()]));

    assert!(lista.iter().all(|p| p.instalado.is_some()));
    assert_eq!(lista.iter().find(|p| p.id == "7zip").unwrap().instalado, Some(true));
}

#[test]
fn nenhuma_categoria_fica_vazia() {
    for c in [
        Categoria::Sistema,
        Categoria::Base,
        Categoria::Plataformas,
        Categoria::Monitoramento,
        Categoria::Web,
        Categoria::Midia,
    ] {
        assert!(catalogo().iter().any(|p| p.categoria == c), "categoria {:?} sem nenhum programa", c);
    }
}

#[test]
fn id_desconhecido_nao_acha_programa() {
    assert!(por_id("nao-existe").is_none());
    assert_eq!(por_id("vlc").unwrap().nome, "VLC");
    assert_eq!(montar(None)[0].categoria, "Sistema");
}

#[test]
fn por_id_devolve_o_programa_com_aquele_id() {
    for p in catalogo() {
        assert_eq!(por_id(p.id).map(|q| q.id), Some(p.id));
    }
    assert!(por_id("nao_existe").is_none());
}
