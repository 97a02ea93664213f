use pc_optimizer::windows::browsers::{
    chave_de_traducao, lista_cache_descartavel, lista_dado_de_aplicativo, montar_nota,
    navegador_padrao, ordem_de_locales, parece_id_de_extensao, traduzir_no_json, achar_nos_pares, extensao_lida, versao_ativa, Manifesto,
};

const MIB: u64 = 1_048_576;

#[test]
fn chave_de_traducao_e_extraida() {
    assert_eq!(chave_de_traducao("__MSG_extName__").as_deref(), Some("extName"));
    assert_eq!(chave_de_traducao("__MSG_appName__").as_deref(), Some("appName"));
    assert_eq!(chave_de_traducao("Google Docs Offline"), None);
    assert_eq!(chave_de_traducao("__MSG_"), None);
}

#[test]
fn traducao_ignora_maiusculas_da_chave() {
    let json = r#"{ "extName": { "message": "Bloqueador de Anúncios" } }"#;

    assert_eq!(traduzir_no_json(json, "extname").as_deref(), Some("Bloqueador de Anúncios"));
    assert_eq!(traduzir_no_json(json, "extName").as_deref(), Some("Bloqueador de Anúncios"));
    assert_eq!(traduzir_no_json(json, "outra"), None);
}

#[test]
fn acento_sobrevive_a_traducao() {
    let json = r#"{ "n": { "message": "Tradução — versãoção" } }"#;
    assert_eq!(traduzir_no_json(json, "n").as_deref(), Some("Tradução — versãoção"));
}

#[test]
fn portugues_vem_antes_do_ingles() {
    let ordem = ordem_de_locales(Some("de"));

    let pos = |s: &str| ordem.iter().position(|x| x == s).unwrap();

    assert!(pos("pt_BR") < pos("en_US"));
    assert!(pos("de") < pos("en_US"));
}

#[test]
fn dado_de_aplicativo_nunca_entra_no_que_se_apaga() {
    let cache = lista_cache_descartavel();
    let dado = lista_dado_de_aplicativo();
    for protegido in &dado {
        assert!(!cache.contains(protegido), "`{}` apareceu na lista do que se apaga", protegido);
    }

    assert!(dado.contains(&"IndexedDB"));
    assert!(dado.contains(&"Local Storage"));
}

#[test]
fn nota_avisa_as_duas_contrapartidas() {
    let nota = montar_nota(800 * MIB, 1700 * MIB, true);

    assert!(nota.contains("mais devagar na primeira vez"));
    assert!(nota.contains("desloga você"));
    assert!(nota.contains("não oferece limpar"));
    assert!(nota.contains("Feche o navegador"));
}

#[test]
fn sem_navegador_a_nota_nao_fica_vazia() {
    let nota = montar_nota(0, 0, false);
    assert!(!nota.is_empty());
}

// Casos a mais.

#[test]
fn o_numero_da_nota_e_o_que_a_formatacao_do_mb_escreveria() {
    for bytes in [
        MIB,
        MIB + MIB / 2,
        2 * MIB + MIB / 2,
        3 * MIB + MIB / 2 + 1,
        800 * MIB,
        5 * MIB - 1,
        123_456_789,
        (1u64 << 60) + (1 << 19) - 1,
        u64::MAX,
    ] {
        let esperado = format!("{:.0} MB de cache", bytes as f64 / 1_048_576.0);
        let nota = montar_nota(bytes, 0, false);
        assert!(nota.starts_with(&esperado), "{bytes}: {nota}");
    }
}

#[test]
fn menos_de_um_mb_nao_vira_aviso() {
    assert_eq!(montar_nota(MIB - 1, MIB - 1, false), "Nenhum navegador conhecido encontrado com dados nesta máquina.");
}

#[test]
fn json_que_nao_e_objeto_nao_traduz() {
    assert_eq!(traduzir_no_json("[1, 2]", "n"), None);
    assert_eq!(traduzir_no_json("nem json", "n"), None);
    assert_eq!(traduzir_no_json(r#"{ "n": { "texto": "sem message" } }"#, "n"), None);
}

#[test]
fn navegador_padrao_pelo_executavel() {
    assert_eq!(
        navegador_padrao(Some(r#""C:\Program Files\Google\Chrome\Application\CHROME.EXE" -- "%1""#)).as_deref(),
        Some("chrome.exe")
    );
    assert_eq!(navegador_padrao(Some("notepad.exe %1")), None);
    assert_eq!(navegador_padrao(None), None);
}

#[test]
fn id_de_extensao_tem_32_letras_minusculas() {
    assert!(parece_id_de_extensao("ghbmnnjooekpmoecnnnilnnbdlolhkhi"));
    assert!(!parece_id_de_extensao("Temp"));
    assert!(!parece_id_de_extensao("ghbmnnjooekpmoecnnnilnnbdlolhkh1"));
}

#[test]
fn a_chave_e_achada_nos_pares_sem_olhar_maiusculas() {
    let pares = vec![
        ("appDesc".to_string(), Some("Descrição".to_string())),
        ("extName".to_string(), Some("Meu Bloqueador".to_string())),
        ("EXTNAME".to_string(), Some("Segundo".to_string())),
    ];

    assert_eq!(achar_nos_pares(&pares, "extname").as_deref(), Some("Meu Bloqueador"));
    assert_eq!(achar_nos_pares(&pares, "outra"), None);
}

#[test]
fn chave_sem_message_nao_vira_texto() {
    let pares = vec![("extName".to_string(), None), ("extname".to_string(), Some("Depois".to_string()))];

    assert_eq!(achar_nos_pares(&pares, "EXTNAME"), None);
}

fn manifesto(name: Option<&str>, version: Option<&str>, permissions: usize, host_permissions: usize) -> Manifesto {
    Manifesto {
        name: name.map(|s| s.to_string()),
        version: version.map(|s| s.to_string()),
        default_locale: None,
        permissions,
        host_permissions,
    }
}

#[test]
fn a_versao_ativa_e_a_de_maior_nome() {
    let nomes = vec!["1.2.0_0".to_string(), "1.10.0_0".to_string(), "1.9.9_0".to_string()];
    assert_eq!(versao_ativa(&nomes), Some((2, 2)));
    assert_eq!(versao_ativa(&["5.0_0".to_string()]), Some((0, 0)));
    assert_eq!(versao_ativa(&[]), None);
}

#[test]
fn nome_traduzido_vem_da_primeira_traducao_lida() {
    let m = manifesto(Some("__MSG_appName__"), Some("3.1"), 2, 3);
    let traducoes = vec![None, Some("Meu Bloqueador".to_string()), Some("Outro".to_string())];
    assert_eq!(
        extensao_lida(ID, &m, &traducoes),
        ("Meu Bloqueador".to_string(), "3.1".to_string(), 5)
    );
    assert_eq!(extensao_lida(ID, &m, &[None, None]).0, ID);
}

#[test]
fn nome_sem_chave_vale_como_esta_e_vazio_vira_id() {
    assert_eq!(extensao_lida(ID, &manifesto(Some("uBlock Origin"), None, 0, 0), &[]).0, "uBlock Origin");
    assert_eq!(extensao_lida(ID, &manifesto(Some("   "), None, 0, 0), &[]).0, ID);
    assert_eq!(extensao_lida(ID, &manifesto(None, None, 0, 0), &[]), (ID.to_string(), String::new(), 0));
}

const ID: &str = "cjpalhdlnbpafiamejdnhcphjbkeiagm";
