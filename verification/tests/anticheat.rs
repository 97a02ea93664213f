use pc_optimizer::windows::anticheat::{
    detectar, permite, tabela_servicos, Acao, AntiCheat, Evidencia, Presenca,
};

fn rodando(qual: AntiCheat) -> Presenca {
    Presenca {
        qual,
        evidencia: Evidencia::ProcessoRodando("teste.exe".to_string()),
        ativo_agora: true,
    }
}

fn instalado(qual: AntiCheat) -> Presenca {
    Presenca {
        qual,
        evidencia: Evidencia::DriverInstalado("teste.sys".to_string()),
        ativo_agora: false,
    }
}

#[test]
fn maquina_limpa_pode_tudo() {
    for acao in [
        Acao::AfinidadeNoJogo,
        Acao::EscreverIfeo,
        Acao::PlanoDeEnergia,
        Acao::MedirQuadros,
    ] {
        assert!(permite(acao, &[]).pode(), "{:?} recusada sem motivo", acao);
    }
}

#[test]
fn medir_quadros_e_plano_de_energia_nunca_sao_recusados() {
    let todos: Vec<Presenca> = [
        AntiCheat::Vanguard,
        AntiCheat::EasyAntiCheat,
        AntiCheat::BattlEye,
        AntiCheat::Vac,
    ]
    .into_iter()
    .map(rodando)
    .collect();

    assert!(permite(Acao::MedirQuadros, &todos).pode());
    assert!(permite(Acao::PlanoDeEnergia, &todos).pode());
}

#[test]
fn ifeo_e_recusado_mesmo_com_o_jogo_fechado() {
    let p = permite(Acao::EscreverIfeo, &[instalado(AntiCheat::Vanguard)]);

    assert!(!p.pode());
    assert!(p.motivo().unwrap().contains("sequestram a execução"));
}

#[test]
fn reconhece_o_processo_do_vanguard() {
    let achados = detectar(&["vgc.exe".to_string(), "bloco-de-notas.exe".to_string()], &[]);

    assert_eq!(achados.len(), 1);
    assert_eq!(achados[0].qual, AntiCheat::Vanguard);
    assert!(achados[0].ativo_agora);
}

#[test]
fn o_nome_do_processo_e_comparado_sem_caixa() {
    let achados = detectar(&["EasyAntiCheat.exe".to_string()], &[]);
    assert_eq!(achados.len(), 1);
    assert_eq!(achados[0].qual, AntiCheat::EasyAntiCheat);
}

#[test]
fn servico_no_boot_conta_e_nao_repete_anticheat_ja_ativo() {
    assert_eq!(tabela_servicos()[1].0, "vgk");
    // vgc parado (Start 3), vgk no boot (Start 0), BEService automático (Start 2).
    let inicios = [Some(3), Some(0), None, None, Some(2), None];
    let achados = detectar(&[], &inicios);
    assert_eq!(achados.len(), 2);
    assert_eq!(achados[0].qual, AntiCheat::Vanguard);
    assert!(achados[0].ativo_agora, "Start=0 é de pé agora");
    assert!(matches!(&achados[0].evidencia, Evidencia::ServicoNoBoot(s, 0) if s == "vgk"));
    assert_eq!(achados[1].qual, AntiCheat::BattlEye);
    assert!(!achados[1].ativo_agora);

    let com_processo = detectar(&["vgc.exe".to_string()], &inicios);
    assert_eq!(com_processo.len(), 2, "o Vanguard já estava ativo pelo processo");
}

#[test]
fn afinidade_e_recusada_com_o_anticheat_ativo_e_nomeia_quem() {
    let p = permite(Acao::AfinidadeNoJogo, &[instalado(AntiCheat::Vac), rodando(AntiCheat::FaceIt)]);
    assert!(!p.pode());
    assert!(p.motivo().unwrap().contains("FACEIT Anti-Cheat"));
    assert!(permite(Acao::AfinidadeNoJogo, &[instalado(AntiCheat::Vanguard)]).pode());
    assert!(permite(Acao::EscreverIfeo, &[rodando(AntiCheat::Vac)]).pode());
}
