use pc_optimizer::windows::configjogo::{aplicar_no_texto_com, legivel, prever, taxa_a_corrigir_com, trocar, valor, Perfil};

const CONFIG_REAL: &str = r#"<?xml version="1.0" encoding="UTF-8"?>
<Settings>
  <graphics>
    <Tessellation value="1" />
    <ShadowQuality value="1" />
    <ReflectionQuality value="0" />
    <SSAO value="1" />
    <MSAA value="4" />
    <TextureQuality value="0" />
    <GrassQuality value="0" />
    <ShaderQuality value="0" />
  </graphics>
</Settings>"#;

/// Um `settings.xml` completo com os valores de quem nunca mexeu em nada.
const CONFIG_CHEIA: &str = r#"<?xml version="1.0" encoding="UTF-8"?>
<Settings>
  <graphics>
    <Tessellation value="2" />
    <LodScale value="1.000000" />
    <PedLodBias value="1.000000" />
    <VehicleLodBias value="1.000000" />
    <ShadowQuality value="2" />
    <ReflectionQuality value="2" />
    <ReflectionMSAA value="4" />
    <SSAO value="2" />
    <AnisotropicFiltering value="16" />
    <MSAA value="4" />
    <MotionBlurStrength value="1.000000" />
    <DoF value="true" />
    <HdStreamingInFlight value="true" />
    <TextureQuality value="2" />
    <ParticleQuality value="2" />
    <GrassQuality value="3" />
    <ShaderQuality value="2" />
    <WaterQuality value="2" />
    <PostFX value="3" />
  </graphics>
  <video>
    <VSync value="1" />
    <Windowed value="2" />
  </video>
</Settings>"#;

/// A memória de vídeo é curta abaixo de 6 GB; sem leitura, não é.
fn curta(vram_gb: Option<f64>) -> bool {
    matches!(vram_gb, Some(gb) if gb < 6.0)
}

#[test]
fn o_competitivo_alcanca_o_que_e_caro_num_arquivo_completo() {
    let (_, mexidas) = aplicar_no_texto_com(CONFIG_CHEIA, Perfil::Competitivo, curta(None), None);

    for esperado in [
        "MSAA:",
        "ReflectionMSAA:",
        "GrassQuality:",
        "ShaderQuality:",
        "LodScale:",
        "PedLodBias:",
        "VehicleLodBias:",
        "PostFX:",
        "DoF:",
        "MotionBlurStrength:",
        "HdStreamingInFlight:",
    ] {
        assert!(
            mexidas.iter().any(|m| m.starts_with(esperado)),
            "o perfil competitivo não alcançou `{}`:\n{:?}",
            esperado,
            mexidas
        );
    }
}

#[test]
fn o_filtro_anisotropico_nunca_e_mexido() {
    for vram in [None, Some(4.0), Some(12.0)] {
        let (_, mexidas) = aplicar_no_texto_com(CONFIG_CHEIA, Perfil::Competitivo, curta(vram), None);

        assert!(
            !mexidas.iter().any(|m| m.starts_with("AnisotropicFiltering:")),
            "filtro anisotrópico mexido com vram {:?}",
            vram
        );
    }
}

#[test]
fn a_textura_so_cai_quando_a_memoria_de_video_nao_cabe() {
    let (_, com_placa_boa) = aplicar_no_texto_com(CONFIG_CHEIA, Perfil::Competitivo, curta(Some(12.0)), None);
    assert!(!com_placa_boa.iter().any(|m| m.starts_with("TextureQuality:")));

    let (_, com_placa_apertada) = aplicar_no_texto_com(CONFIG_CHEIA, Perfil::Competitivo, curta(Some(4.0)), None);
    assert!(com_placa_apertada.iter().any(|m| m.starts_with("TextureQuality:")));

    let (_, sem_saber) = aplicar_no_texto_com(CONFIG_CHEIA, Perfil::Competitivo, curta(None), None);
    assert!(!sem_saber.iter().any(|m| m.starts_with("TextureQuality:")));
}

#[test]
fn a_tela_cheia_nao_entra_no_perfil_sem_custo() {
    assert!(!Perfil::SemTeto.mudancas_para(false).iter().any(|m| m.chave == "Windowed"));
    assert!(Perfil::Equilibrado.mudancas_para(false).iter().any(|m| m.chave == "Windowed"));

    let tela = Perfil::Equilibrado.mudancas_para(false).into_iter().find(|m| m.chave == "Windowed").unwrap();
    assert!(!tela.custo.is_empty());
}

#[test]
fn chave_que_nao_existe_no_arquivo_nao_faz_nada() {
    let (saida, mexidas) = aplicar_no_texto_com(CONFIG_REAL, Perfil::Competitivo, false, None);

    for inexistente in ["ReflectionMSAA", "DoF", "LodScale", "PedLodBias"] {
        assert!(!saida.contains(inexistente), "`{}` não está no arquivo e mesmo assim foi escrito", inexistente);
        assert!(!mexidas.iter().any(|m| m.starts_with(inexistente)));
    }

    assert!(mexidas.iter().any(|m| m.starts_with("MSAA:")), "{:?}", mexidas);
}

#[test]
fn a_grama_entra_no_perfil_competitivo() {
    let competitivo: Vec<&str> = Perfil::Competitivo.mudancas_para(false).iter().map(|m| m.chave).collect();
    assert!(competitivo.contains(&"GrassQuality"), "{:?}", competitivo);

    let equilibrado: Vec<&str> = Perfil::Equilibrado.mudancas_para(false).iter().map(|m| m.chave).collect();
    assert!(!equilibrado.contains(&"GrassQuality"));
}

#[test]
fn o_equilibrado_nao_cobra_custo_visual_grande() {
    const SO_NO_COMPETITIVO: &[&str] = &["GrassQuality", "ShadowQuality", "ReflectionQuality", "ShaderQuality", "PostFX"];

    for chave in Perfil::Equilibrado.mudancas_para(false).iter().map(|m| m.chave) {
        assert!(!SO_NO_COMPETITIVO.contains(&chave), "`{}` muda a cara do jogo", chave);
    }
}

#[test]
fn os_ajustes_que_aliviam_o_processador_existem() {
    let competitivo: Vec<&str> = Perfil::Competitivo.mudancas_para(false).iter().map(|m| m.chave).collect();

    for chave in ["LodScale", "PedLodBias", "VehicleLodBias"] {
        assert!(competitivo.contains(&chave), "faltou `{}`", chave);
    }
}

#[test]
fn todo_ajuste_com_custo_visual_diz_qual_e() {
    let sem_teto: Vec<&str> = Perfil::SemTeto.mudancas_para(false).iter().map(|m| m.chave).collect();
    for m in Perfil::Competitivo.mudancas_para(true) {
        let sem_custo_visual = m.chave == "HdStreamingInFlight" || sem_teto.contains(&m.chave);

        if !sem_custo_visual {
            assert!(!m.custo.is_empty(), "`{}` muda a imagem e não diz o que o cliente perde", m.chave);
        }
    }
}

#[test]
fn trocar_mexe_so_na_chave_pedida() {
    let novo = trocar(CONFIG_REAL, "MSAA", "0").expect("MSAA existe no arquivo");

    assert_eq!(valor(&novo, "MSAA").as_deref(), Some("0"));

    assert_eq!(novo.len(), CONFIG_REAL.len());
    assert_eq!(valor(&novo, "Tessellation"), valor(CONFIG_REAL, "Tessellation"));
    assert_eq!(valor(&novo, "ShadowQuality"), valor(CONFIG_REAL, "ShadowQuality"));

    assert!(novo.starts_with("<?xml"));
}

#[test]
fn trocar_nao_cria_chave_que_o_jogo_nao_tem() {
    assert!(trocar(CONFIG_REAL, "NaoExisteEssaChave", "0").is_none());
}

#[test]
fn jogo_em_60hz_com_monitor_de_180_e_corrigido() {
    const ARQUIVO: &str = r#"<Settings>
  <video>
    <RefreshRate value="60" />
  </video>
</Settings>"#;

    let (atual, alvo) = taxa_a_corrigir_com(ARQUIVO, 180).expect("60 num monitor de 180 é trava");

    assert_eq!(atual, "60");
    assert_eq!(alvo, 180);
}

#[test]
fn jogo_ja_na_taxa_do_monitor_nao_vira_mudanca() {
    const ARQUIVO: &str = r#"<RefreshRate value="180" />"#;

    assert!(taxa_a_corrigir_com(ARQUIVO, 180).is_none());
}

#[test]
fn nunca_baixa_a_taxa_do_jogo() {
    const ARQUIVO: &str = r#"<RefreshRate value="240" />"#;

    assert!(taxa_a_corrigir_com(ARQUIVO, 60).is_none());
}

#[test]
fn arquivo_sem_taxa_nao_recebe_a_chave() {
    assert!(taxa_a_corrigir_com("<Settings/>", 180).is_none());
}

#[test]
fn sem_teto_nao_toca_em_nada_visual() {
    for m in Perfil::SemTeto.mudancas_para(false) {
        assert!(m.custo.is_empty(), "`{}` está no perfil sem custo visual e cobra `{}`", m.chave, m.custo);
    }

    assert!(!Perfil::SemTeto.mudancas_para(false).iter().any(|m| m.chave == "MSAA"));
}

#[test]
fn aplicar_no_arquivo_real_derruba_o_msaa() {
    let (novo, mudou) = aplicar_no_texto_com(CONFIG_REAL, Perfil::Equilibrado, false, None);

    assert_eq!(valor(&novo, "MSAA").as_deref(), Some("0"));
    assert!(mudou.iter().any(|m| m.starts_with("MSAA: 4 → 0")), "o que mudou não foi relatado: {:?}", mudou);

    assert!(!mudou.iter().any(|m| m.starts_with("ShaderQuality")));
}

#[test]
fn aplicar_e_idempotente() {
    let (uma, _) = aplicar_no_texto_com(CONFIG_REAL, Perfil::Competitivo, false, None);
    let (duas, mudou) = aplicar_no_texto_com(&uma, Perfil::Competitivo, false, None);

    assert_eq!(uma, duas);
    assert!(mudou.is_empty(), "a segunda aplicação achou o que mudar: {:?}", mudou);
}

#[test]
fn prever_lista_chave_valor_e_custo() {
    let previsto = prever(CONFIG_REAL, Perfil::Equilibrado, None, false);

    let msaa = previsto.iter().find(|(chave, ..)| chave == "MSAA").expect("o MSAA precisa aparecer na previsão");

    assert_eq!(msaa.1, "4");
    assert_eq!(msaa.2, "0");
    assert!(!msaa.3.is_empty());
}

#[test]
fn le_o_formato_do_jogo() {
    assert_eq!(valor(CONFIG_REAL, "MSAA").as_deref(), Some("4"));
    assert_eq!(valor(CONFIG_REAL, "TextureQuality").as_deref(), Some("0"));
    assert_eq!(valor(CONFIG_REAL, "NaoExiste"), None);
    assert_eq!(valor(CONFIG_REAL, "MSA"), None);
}

#[test]
fn a_taxa_do_monitor_entra_antes_do_perfil() {
    let arquivo = "<Settings>\n  <RefreshRate value=\"60\" />\n  <VSync value=\"1\" />\n</Settings>";
    let (saida, mexidas) = aplicar_no_texto_com(arquivo, Perfil::SemTeto, false, Some(144));

    assert_eq!(
        mexidas,
        vec!["RefreshRate: 60 → 144".to_string(), "VSync: 1 → 0".to_string()]
    );
    assert_eq!(valor(&saida, "RefreshRate").as_deref(), Some("144"));

    let previsto = prever(arquivo, Perfil::SemTeto, Some(144), false);
    assert_eq!(previsto[0], ("RefreshRate".to_string(), "60".to_string(), "144".to_string(), ""));
    assert_eq!(previsto.len(), 2);
}

#[test]
fn o_que_se_troca_e_o_que_se_le() {
    let novo = trocar(CONFIG_REAL, "ShadowQuality", "3").unwrap();
    assert_eq!(valor(&novo, "ShadowQuality").as_deref(), Some("3"));
    assert_ne!(novo, CONFIG_REAL);
}

#[test]
fn o_nome_legivel_das_chaves() {
    assert_eq!(legivel("MSAA"), "suavização de serrilhado (MSAA)");
    assert_eq!(legivel("SSAO"), "oclusão de ambiente");
    assert_eq!(legivel("WaterQuality"), "WaterQuality");
}

#[test]
fn valor_com_espacos_ja_certo_nao_e_previsto() {
    let arquivo = "<MSAA value=\" 0 \" /><VSync value=\"0\" />";
    assert!(prever(arquivo, Perfil::Equilibrado, None, false).is_empty());
}
