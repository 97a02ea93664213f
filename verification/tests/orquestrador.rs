use pc_optimizer::orquestrador::{
    planejar, Classe, Conclusao, Decisao, Diagnostico, NaoVerificado, Perfil, Plano,
};
use pc_optimizer::streaming::Veredito;
use pc_optimizer::vram::Estado;

#[test]
fn cada_perfil_tem_nome_de_arquivo() {
    assert_eq!(Perfil::SemTeto.nome(), "sem_teto");
    assert_eq!(Perfil::Equilibrado.nome(), "equilibrado");
    assert_eq!(Perfil::Competitivo.nome(), "competitivo");
}

fn diagnostico(conclusao: Conclusao, classes: &[Classe]) -> Diagnostico {
    Diagnostico {
        conclusao,
        achados: classes.to_vec(),
        nao_verificado: vec![NaoVerificado {
            classe: "Engasgo de shader".to_string(),
            falta: "não há sinal que separe shader de memória".to_string(),
        }],
    }
}

fn plano(d: &Diagnostico, vram: Estado, streaming: Veredito, tem_arquivo: bool) -> Plano {
    let derramado = if vram == Estado::Transbordando { Some("1.4") } else { None };
    planejar(d, vram, derramado, streaming, tem_arquivo)
}

#[test]
fn sem_medicao_nao_recomenda_nada() {
    let p = plano(&diagnostico(Conclusao::SemEvidencia, &[]), Estado::Folgada, Veredito::SemEngasgos, true);

    assert_eq!(p.decisao, Decisao::SemEvidencia);
    assert!(!p.exige_baseline, "nada a aplicar, nada a medir antes");
}

#[test]
fn maquina_parada_nao_autoriza_mexer_no_arquivo() {
    let p = plano(&diagnostico(Conclusao::SemCarga, &[]), Estado::Folgada, Veredito::SemEngasgos, true);

    assert_eq!(p.decisao, Decisao::SemEvidencia);
}

#[test]
fn sem_o_arquivo_do_jogo_nao_ha_alavanca() {
    let p = plano(&diagnostico(Conclusao::Encontrado, &[Classe::Gpu]), Estado::Folgada, Veredito::SemEngasgos, false);

    assert_eq!(p.decisao, Decisao::SemEvidencia);
}

#[test]
fn gargalo_no_processador_recusa_o_ajuste_grafico() {
    let p = plano(
        &diagnostico(Conclusao::Encontrado, &[Classe::CpuUmNucleo]),
        Estado::Folgada,
        Veredito::SemEngasgos,
        true,
    );

    assert_eq!(p.decisao, Decisao::NaoResolveAqui);
    assert!(p.contra.iter().any(|c| c.contains("mais feio")), "{:?}", p.contra);
}

#[test]
fn limite_de_firmware_ganha_de_tudo() {
    let p = plano(
        &diagnostico(Conclusao::Encontrado, &[Classe::LimiteTermico, Classe::Gpu]),
        Estado::Folgada,
        Veredito::SemEngasgos,
        true,
    );

    assert_eq!(p.decisao, Decisao::NaoResolveAqui);
    assert!(p.porque.iter().any(|x| x.contains("físico")), "{:?}", p.porque);
}

#[test]
fn esperando_o_disco_nao_se_resolve_com_sombra_mais_baixa() {
    let p = plano(
        &diagnostico(Conclusao::Encontrado, &[Classe::Gpu]),
        Estado::Folgada,
        Veredito::AssetsDeMidiaLenta,
        true,
    );

    assert_eq!(p.decisao, Decisao::NaoResolveAqui);
    assert!(p.contra.iter().any(|c| c.contains("streaming")), "{:?}", p.contra);
}

#[test]
fn teto_de_quadros_vale_ate_com_o_processador_no_limite() {
    let p = plano(
        &diagnostico(Conclusao::Encontrado, &[Classe::TetoDeQuadros, Classe::CpuTodosNucleos]),
        Estado::Folgada,
        Veredito::SemEngasgos,
        true,
    );

    assert_eq!(p.decisao, Decisao::Aplicar(Perfil::SemTeto));
    assert!(p.exige_baseline);
}

#[test]
fn transbordo_de_memoria_de_video_pede_o_equilibrado() {
    let p = plano(&diagnostico(Conclusao::Encontrado, &[]), Estado::Transbordando, Veredito::SemEngasgos, true);

    assert_eq!(p.decisao, Decisao::Aplicar(Perfil::Equilibrado));
    assert!(p.porque.iter().any(|x| x.contains("1.4 GB")), "{:?}", p.porque);
    assert!(p.contra.iter().any(|c| c.contains("média")), "{:?}", p.contra);
}

#[test]
fn cache_cheio_nao_pede_ajuste_de_textura() {
    let p = plano(&diagnostico(Conclusao::NadaNoLimite, &[]), Estado::CacheCheio, Veredito::SemEngasgos, true);

    assert_eq!(p.decisao, Decisao::NaoResolveAqui);
}

#[test]
fn placa_no_limite_e_o_caso_do_ajuste_grafico() {
    let p = plano(&diagnostico(Conclusao::Encontrado, &[Classe::Gpu]), Estado::Folgada, Veredito::SemEngasgos, true);

    assert_eq!(p.decisao, Decisao::Aplicar(Perfil::Competitivo));
    assert!(p.exige_baseline);
    assert!(p.contra.iter().any(|c| c.contains("medir")), "{:?}", p.contra);
}

#[test]
fn o_plano_carrega_o_que_nao_foi_verificado() {
    let p = plano(&diagnostico(Conclusao::Encontrado, &[Classe::Gpu]), Estado::Folgada, Veredito::SemEngasgos, true);

    assert!(p.nao_verificado.iter().any(|n| n.contains("shader")), "{:?}", p.nao_verificado);
    assert_eq!(p.nao_verificado[0], "Engasgo de shader: não há sinal que separe shader de memória");
}

// Casos a mais.

#[test]
fn transbordo_sem_numero_nao_inventa_quantidade() {
    let p = planejar(
        &diagnostico(Conclusao::Encontrado, &[]),
        Estado::Transbordando,
        None,
        Veredito::SemEngasgos,
        true,
    );
    assert_eq!(p.porque, vec!["a memória da placa está transbordando para a memória do sistema"]);
}

#[test]
fn so_um_nucleo_no_limite_explica_a_simulacao() {
    let p = plano(
        &diagnostico(Conclusao::Encontrado, &[Classe::CpuUmNucleo]),
        Estado::Folgada,
        Veredito::SemEngasgos,
        true,
    );
    assert_eq!(p.porque.len(), 2);
    let todos = plano(
        &diagnostico(Conclusao::Encontrado, &[Classe::CpuTodosNucleos]),
        Estado::Folgada,
        Veredito::SemEngasgos,
        true,
    );
    assert_eq!(todos.porque.len(), 1);
}

#[test]
fn nada_no_limite_nao_e_tudo_bem() {
    let p = plano(&diagnostico(Conclusao::NadaNoLimite, &[]), Estado::Folgada, Veredito::SemEngasgos, true);
    assert_eq!(p.decisao, Decisao::NaoResolveAqui);
    assert!(!p.exige_baseline);
    assert!(p.contra[0].contains("não é o mesmo que estar tudo bem"));
}
