use pc_optimizer::windows::cabecalho::{montar, ou_nao_lido, Dados, Maquina};

fn dados_de_teste() -> Dados {
    Dados {
        versao: "2.0.0".to_string(),
        windows: "Windows 10 Pro".to_string(),
        build: "19045.4046".to_string(),
        edicao: "Professional".to_string(),
        arquitetura_do_windows: "AMD64".to_string(),
        arquitetura_do_processo: "64 bits",
        elevado: true,
        maquina: Maquina {
            notebook: false,
            tem_bateria: false,
            fabricante_da_cpu: "Intel".to_string(),
            cpu: "Intel(R) Core(TM) i3-10100F".to_string(),
            nucleos_logicos: 8,
            modern_standby: false,
        },
        nucleos_fisicos: Some(4),
        gpu: "NVIDIA GeForce GTX 1650".to_string(),
        memoria: "7.9 GB".to_string(),
        plano_ativo: Some("381b4222-f694-41f0-9685-ff5bb260df2e".to_string()),
        nome_do_plano_ativo: Some("Equilibrado".to_string()),
    }
}

#[test]
fn o_cabecalho_traz_o_que_o_atendimento_precisa() {
    let texto = montar(&dados_de_teste());

    for esperado in [
        "2.0.0",
        "Windows 10 Pro",
        "19045.4046",
        "Professional",
        "AMD64",
        "64 bits",
        "Intel(R) Core(TM) i3-10100F",
        "NVIDIA GeForce GTX 1650",
        "7.9 GB",
        "desktop",
        "Equilibrado",
        "381b4222-f694-41f0-9685-ff5bb260df2e",
    ] {
        assert!(texto.contains(esperado), "o cabeçalho não traz `{}`:\n{}", esperado, texto);
    }
}

#[test]
fn as_duas_arquiteturas_aparecem_separadas() {
    let texto = montar(&dados_de_teste());

    assert!(texto.contains("Arquitetura do Windows"));
    assert!(texto.contains("Arquitetura do processo"));
}

#[test]
fn leitura_que_falhou_aparece_escrita() {
    let mut d = dados_de_teste();
    d.nome_do_plano_ativo = None;
    d.plano_ativo = None;
    d.nucleos_fisicos = None;

    let texto = montar(&d);

    assert_eq!(texto.matches("(não deu para ler)").count(), 3);
}

#[test]
fn campo_vazio_conta_como_nao_lido() {
    assert_eq!(ou_nao_lido(&Some("  ".to_string())), "(não deu para ler)");
    assert_eq!(ou_nao_lido(&Some("Pro".to_string())), "Pro");
    assert_eq!(ou_nao_lido(&None), "(não deu para ler)");
}

#[test]
fn o_cabecalho_nao_leva_nada_que_identifique_a_pessoa() {
    let texto = montar(&dados_de_teste());

    for proibido in ["\\Users\\", "C:\\Users", "USERNAME", "USERPROFILE"] {
        assert!(!texto.contains(proibido), "o cabeçalho carrega `{}`", proibido);
    }
}

#[test]
fn notebook_aparece_com_bateria_e_modern_standby() {
    let mut d = dados_de_teste();
    d.maquina.notebook = true;
    d.maquina.tem_bateria = true;
    d.maquina.modern_standby = true;

    let texto = montar(&d);

    assert!(texto.contains("notebook"));
    assert!(texto.contains("Bateria                 sim"));
    assert!(texto.contains("Modern Standby          sim"));
}

#[test]
fn o_alinhamento_e_o_da_formatacao_em_24_colunas() {
    let texto = montar(&dados_de_teste());
    let linha = texto.lines().find(|l| l.starts_with("Núcleos físicos")).unwrap();
    assert_eq!(linha, format!("{:<24}{}", "Núcleos físicos", 4));
    assert!(texto.starts_with("==============================\nOTIMIZA — RELATÓRIO DO SISTEMA\n"));
    assert!(texto.ends_with("\n=============================="));
}
