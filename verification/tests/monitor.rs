use pc_optimizer::monitor::{
    estado_dos_quadros, mesmo_conjunto, motivo_da_rede, passo_da_rede, EstadoDaRede, VALIDADE_DOS_QUADROS_S, perda_de_pacotes, somar_interfaces, somar_volumes, taxa_de_disco, taxa_de_rede, trancos_com_disco,
    trocar_vistos, InterfaceLida, PerdaLida, VolumeLido,
};

fn vol(ponto: &str, removivel: bool, so_leitura: bool, total: u64, livre: u64, lidos: u64) -> VolumeLido {
    VolumeLido {
        ponto: ponto.into(),
        removivel,
        somente_leitura: so_leitura,
        total,
        disponivel: livre,
        lidos,
        escritos: 1,
    }
}

#[test]
fn iso_e_volume_repetido_nao_entram_na_capacidade() {
    let vs = vec![
        vol("C:\\", false, false, 100, 40, 5),
        vol("D:\\", false, true, 50, 0, 7),
        vol("C:\\", false, false, 100, 40, 3),
        vol("E:\\", true, false, 30, 10, 1),
        vol("F:\\", false, false, 10, 20, 0),
    ];
    let s = somar_volumes(&vs);
    assert_eq!((s.total, s.usado), (110, 60));
    assert_eq!((s.lidos, s.escritos), (16, 5));
    assert_eq!(s.pontos.len(), 5);
}

#[test]
fn disco_parado_nao_vira_zero_mb_por_segundo() {
    assert!(taxa_de_disco(false, false, 10, 10).unwrap_err().starts_with("primeira leitura"));
    assert_eq!(taxa_de_disco(true, true, 10, 10), Err("a lista de volumes mudou entre as duas leituras"));
    assert!(taxa_de_disco(true, false, 0, 0).unwrap_err().contains("nenhum contador de E/S avançou"));
    assert_eq!(taxa_de_disco(true, false, 0, 1), Ok(()));
}

#[test]
fn lista_de_interfaces_que_muda_nao_vira_taxa() {
    assert_eq!(taxa_de_rede(false, true), Err("a lista de interfaces mudou entre as duas leituras"));
    assert!(taxa_de_rede(false, false).unwrap_err().starts_with("primeira leitura"));
    assert_eq!(taxa_de_rede(true, false), Ok(()));
}

#[test]
fn a_lista_mudou_so_quando_o_conjunto_muda() {
    let mut vistos: Option<Vec<String>> = None;
    assert!(!trocar_vistos(&mut vistos, vec!["a".into(), "b".into()]));
    assert!(!trocar_vistos(&mut vistos, vec!["b".into(), "a".into(), "a".into()]));
    assert!(trocar_vistos(&mut vistos, vec!["a".into()]));
    assert_eq!(vistos, Some(vec!["a".to_string()]));
    assert!(mesmo_conjunto(&["x".to_string()], &["x".to_string(), "x".to_string()]));
    assert!(!mesmo_conjunto(&["x".to_string()], &["y".to_string()]));
}

#[test]
fn trafego_soma_todas_as_interfaces() {
    let is = vec![
        InterfaceLida { nome: "eth0".into(), total_recebido: 10, total_enviado: 20, recebido: 1, enviado: 2 },
        InterfaceLida { nome: "wlan0".into(), total_recebido: 5, total_enviado: 5, recebido: 3, enviado: 4 },
    ];
    let s = somar_interfaces(&is);
    assert_eq!((s.total_recebido, s.total_enviado, s.recebido, s.enviado), (15, 25, 4, 6));
    assert_eq!(s.nomes, vec!["eth0".to_string(), "wlan0".to_string()]);
}

#[test]
fn so_a_medida_com_pacotes_e_perda() {
    assert_eq!(perda_de_pacotes(PerdaLida::Medida { enviados: 20, perdidos: 1 }), Ok((1, 20)));
    assert!(perda_de_pacotes(PerdaLida::Medida { enviados: 0, perdidos: 0 }).unwrap_err().contains("ausência de dado"));
    assert!(perda_de_pacotes(PerdaLida::NaoRespondePing).unwrap_err().contains("descarta ping"));
    assert!(perda_de_pacotes(PerdaLida::PingLimitado).unwrap_err().contains("limita a taxa"));
}

#[test]
fn poucos_trancos_nao_viram_proporcao() {
    assert_eq!(trancos_com_disco(true, Some(8)), Ok(8));
    assert_eq!(trancos_com_disco(true, Some(3)), Err("só 3 trancos na partida: poucos para uma proporção".to_string()));
    assert!(trancos_com_disco(false, None).unwrap_err().contains("versão anterior"));
}

#[test]
fn sem_medicao_guardada_so_o_fps_diz_por_que() {
    let r = estado_dos_quadros(None, "", true, [true; 5], None, false);
    assert_eq!(
        r,
        vec![("fps.average", Some("ainda não há medição de quadros guardada nesta máquina".to_string()))]
    );
}

#[test]
fn medicao_velha_diz_os_minutos_e_o_jogo() {
    let r = estado_dos_quadros(Some((VALIDADE_DOS_QUADROS_S + 1, 0)), "FiveM.exe", true, [true; 5], Some(20), true);
    let velha = Some("a última medição de quadros é de 30 min atrás, em FiveM.exe".to_string());
    assert_eq!(r, vec![("fps.average", velha.clone()), ("fps.low_1pct", velha)]);
}

#[test]
fn meia_hora_em_ponto_ainda_vale() {
    let r = estado_dos_quadros(Some((VALIDADE_DOS_QUADROS_S, 0)), "x.exe", true, [true; 5], Some(20), true);
    assert_eq!(r.len(), 9);
    assert!(r.iter().all(|(_, motivo)| motivo.is_none()), "{r:?}");
}

#[test]
fn amostra_curta_esconde_a_cauda() {
    let curta = Some("a amostra foi curta demais para a cauda da distribuição significar algo".to_string());
    let r = estado_dos_quadros(Some((1, 0)), "x.exe", false, [true; 5], Some(20), true);
    assert_eq!(
        r,
        vec![("fps.average", None), ("fps.low_1pct", curta.clone()), ("frametime.stutters_per_minute", curta)]
    );
}

#[test]
fn medicao_antiga_sem_campos_diz_qual_versao_faltou() {
    let r = estado_dos_quadros(Some((1, 0)), "x.exe", true, [false, true, true, false, true], Some(3), true);
    let ids: Vec<&str> = r.iter().map(|(id, _)| *id).collect();
    assert_eq!(
        ids,
        vec![
            "fps.average",
            "fps.low_1pct",
            "frametime.stutters_per_minute",
            "frametime.stutters_with_disk",
            "match.cpu_usage",
            "match.gpu_usage",
            "frametime.mean",
            "frametime.p95",
            "frametime.p99",
        ]
    );
    assert_eq!(r[3].1.as_deref(), Some("só 3 trancos na partida: poucos para uma proporção"));
    assert_eq!(r[4].1.as_deref(), Some("esta medição é de uma versão anterior, que não guardava o contexto"));
    assert_eq!(r[5].1, None);
    assert_eq!(r[7].1.as_deref(), Some("esta medição é de uma versão anterior, que não guardava a distribuição"));
    assert_eq!(r[8].1, None);
}

#[test]
fn a_rede_mede_de_novo_so_sem_outra_em_curso() {
    assert_eq!(passo_da_rede(None, false), (true, EstadoDaRede::SemMedicao));
    assert_eq!(passo_da_rede(None, true), (false, EstadoDaRede::SemMedicao));
    assert_eq!(passo_da_rede(Some((59, 999_999_999)), false), (false, EstadoDaRede::Valida));
    assert_eq!(passo_da_rede(Some((60, 0)), false), (true, EstadoDaRede::Valida));
    assert_eq!(passo_da_rede(Some((300, 0)), true), (false, EstadoDaRede::Valida));
    assert_eq!(passo_da_rede(Some((300, 1)), false), (true, EstadoDaRede::Velha { minutos: 5 }));
}

#[test]
fn meia_hora_e_meio_milissegundo_ja_e_velha() {
    let r = estado_dos_quadros(Some((VALIDADE_DOS_QUADROS_S, 500_000)), "x.exe", true, [true; 5], Some(20), true);
    let velha = Some("a última medição de quadros é de 30 min atrás, em x.exe".to_string());
    assert_eq!(r, vec![("fps.average", velha.clone()), ("fps.low_1pct", velha)]);
}

#[test]
fn o_motivo_da_rede_velha_diz_os_minutos() {
    assert_eq!(
        motivo_da_rede(EstadoDaRede::Velha { minutos: 7 }).as_deref(),
        Some("a última medição de rede tem 7 min: o servidor ou a rota podem ter mudado")
    );
    assert_eq!(
        motivo_da_rede(EstadoDaRede::SemMedicao).as_deref(),
        Some("a primeira medição de rede ainda não voltou")
    );
    assert_eq!(motivo_da_rede(EstadoDaRede::Valida), None);
}
