use pc_optimizer::mouse::{mediana_em_dobro, INTERVALOS_PARA_A_TAXA, achados_na_tela, avaliar, Achado};

#[test]
fn todo_achado_tem_texto() {
    for a in [
        Achado::AceleracaoLigada,
        Achado::BarraAbaixoDoMeio,
        Achado::BarraAcimaDoMeio,
    ] {
        assert!(!a.titulo().is_empty(), "{a:?} sem título");
        assert!(!a.explicacao().is_empty(), "{a:?} sem explicação");
        assert!(!a.onde_mexer().is_empty(), "{a:?} sem onde mexer");
    }
}

#[test]
fn a_lista_de_achados_sai_com_o_texto_embutido() {
    let na_tela = achados_na_tela(&[Achado::AceleracaoLigada, Achado::BarraAbaixoDoMeio]);

    assert_eq!(na_tela.len(), 2);
    assert_eq!(na_tela[0].achado, Achado::AceleracaoLigada);
    assert_eq!(na_tela[0].titulo, Achado::AceleracaoLigada.titulo());
    assert!(na_tela[1].onde_mexer.contains("meio"));
}

#[test]
fn cada_achado_explica_o_seu_mecanismo() {
    assert!(Achado::AceleracaoLigada.explicacao().contains("velocidade"));
    assert!(Achado::AceleracaoLigada.onde_mexer().contains("Aprimorar"));
    assert!(Achado::BarraAbaixoDoMeio.explicacao().contains("DESCARTA"));
    assert!(Achado::BarraAcimaDoMeio.explicacao().contains("MULTIPLICA"));
}

#[test]
fn os_achados_saem_com_o_texto_embutido() {
    let c = avaliar(Some("1"), Some("3"), false);
    let na_tela = c.achados_na_tela();

    assert_eq!(na_tela.len(), 2);
    assert_eq!(na_tela[0].achado, Achado::AceleracaoLigada);
    assert_eq!(na_tela[0].titulo, Achado::AceleracaoLigada.titulo());
    assert!(na_tela[1].onde_mexer.contains("meio"));
}

#[test]
fn caminho_limpo_nao_tem_achado() {
    let c = avaliar(Some("0"), Some("6"), false);

    assert_eq!(c.aceleracao, Some(false));
    assert_eq!(c.barra, Some(6));
    assert!(c.achados.is_empty());
}

#[test]
fn aceleracao_ligada_e_achado() {
    let c = avaliar(Some("1"), Some("6"), false);

    assert_eq!(c.achados, vec![Achado::AceleracaoLigada]);
    assert!(c.achados[0].explicacao().contains("velocidade"));
    assert!(c.achados[0].onde_mexer().contains("Aprimorar"));
}

#[test]
fn barra_abaixo_do_meio_descarta_contagem() {
    let c = avaliar(Some("0"), Some("4"), false);

    assert_eq!(c.achados, vec![Achado::BarraAbaixoDoMeio]);
    assert!(c.achados[0].explicacao().contains("DESCARTA"));
}

#[test]
fn barra_acima_do_meio_pula_pixel() {
    let c = avaliar(Some("0"), Some("12"), false);

    assert_eq!(c.achados, vec![Achado::BarraAcimaDoMeio]);
    assert!(c.achados[0].explicacao().contains("MULTIPLICA"));
}

#[test]
fn ausencia_nao_e_absolvicao() {
    let c = avaliar(None, None, false);

    assert_eq!(c.aceleracao, None);
    assert_eq!(c.barra, None);
    assert!(c.achados.is_empty(), "não olhou, não acusa");
    assert_eq!(c.falta.len(), 3, "{:?}", c.falta);
}

#[test]
fn valor_estragado_e_ausencia_e_nao_zero() {
    let c = avaliar(Some("sim"), Some("rápido"), false);

    assert_eq!(c.aceleracao, None);
    assert_eq!(c.barra, None);
}

#[test]
fn barra_fora_da_faixa_e_leitura_estragada() {
    assert_eq!(avaliar(Some("0"), Some("0"), false).barra, None);
    assert_eq!(avaliar(Some("0"), Some("57"), false).barra, None);
}

#[test]
fn a_taxa_medida_sai_da_lista_de_faltas() {
    let c = avaliar(Some("0"), Some("6"), true);

    assert!(c.falta.is_empty(), "{:?}", c.falta);
}

#[test]
fn o_registro_com_espacos_e_sinal_e_lido_como_numero() {
    assert_eq!(avaliar(Some(" -1 "), Some(" +6 "), true).aceleracao, Some(true));
    assert_eq!(avaliar(Some("-0"), Some("6"), true).aceleracao, Some(false));
    assert_eq!(avaliar(Some("99999999999999999999"), Some("6"), true).aceleracao, None);
    assert_eq!(avaliar(Some("-"), Some("6"), true).aceleracao, None);
}

#[test]
fn poucos_intervalos_nao_viram_taxa() {
    let poucos = vec![1000u64; INTERVALOS_PARA_A_TAXA - 1];

    assert_eq!(mediana_em_dobro(&poucos), None);
}

#[test]
fn mil_hertz_saem_de_intervalos_de_um_milissegundo() {
    let intervalos = vec![1000u64; INTERVALOS_PARA_A_TAXA];

    let dobro = mediana_em_dobro(&intervalos).expect("taxa");
    assert_eq!(dobro, 2000);
    let hz = 1_000_000.0 / (dobro as f64 / 2.0);
    assert!((hz - 1000.0).abs() < 0.001, "{hz}");
}

#[test]
fn relato_atrasado_nao_derruba_a_taxa() {
    let mut intervalos = vec![1000u64; INTERVALOS_PARA_A_TAXA];
    for i in intervalos.iter_mut().take(INTERVALOS_PARA_A_TAXA / 10) {
        *i = 2000;
    }

    let hz = 1_000_000.0 / (mediana_em_dobro(&intervalos).expect("taxa") as f64 / 2.0);
    assert!(
        (hz - 1000.0).abs() < 0.001,
        "a mediana devia ignorar os atrasados: {hz}"
    );

    let media: f64 = intervalos.iter().sum::<u64>() as f64 / intervalos.len() as f64;
    assert!(1_000_000.0 / media < 920.0);
}

#[test]
fn intervalo_zero_nao_vira_taxa_infinita() {
    let zeros = vec![0u64; INTERVALOS_PARA_A_TAXA * 2];

    assert_eq!(mediana_em_dobro(&zeros), None);
}

#[test]
fn a_mediana_de_quantidade_par_soma_os_dois_do_meio() {
    let mut intervalos: Vec<u64> = (1..=INTERVALOS_PARA_A_TAXA as u64).rev().collect();
    intervalos.push(0);
    intervalos.push(0);

    assert_eq!(mediana_em_dobro(&intervalos), Some(100 + 101));
}

#[test]
fn a_mediana_de_quantidade_impar_e_o_do_meio() {
    let mut intervalos: Vec<u64> = (1..=INTERVALOS_PARA_A_TAXA as u64 + 1).collect();
    intervalos.swap(0, 150);

    assert_eq!(mediana_em_dobro(&intervalos), Some(2 * 101));
}

#[test]
fn intervalos_enormes_nao_transbordam() {
    let intervalos = vec![u64::MAX; INTERVALOS_PARA_A_TAXA];

    assert_eq!(mediana_em_dobro(&intervalos), Some(2 * u64::MAX as u128));
}
