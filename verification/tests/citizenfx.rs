use pc_optimizer::windows::citizenfx::{
    estado_do_pool, explicar_falha, ler_chave, montar_nota, pool_sizes_de, pools_dos_pares, PoolAjustado, teto_conhecido, Falha,
    PoolSizesIncrease,
};

const INI_DO_DONO: &str = "[Game]\r\n\
IVPath=\r\n\
DefaultBuild=\r\n\
SavedBuildNumber=3570\r\n\
UpdateChannel=production\r\n\
PoolSizesIncrease=\r\n\
\r\n\
[Addons]\r\n\
";

#[test]
fn falha_de_leitura_nunca_vira_estado_vazio() {
    let falhou = estado_do_pool(Err(()));
    assert!(falhou.is_none(), "uma leitura que falhou virou um estado conhecido: {:?}", falhou);

    let vazio_de_verdade = estado_do_pool(Ok(INI_DO_DONO));
    assert_eq!(vazio_de_verdade, Some(PoolSizesIncrease::Vazio));
}

#[test]
fn arquivo_do_dono_hoje_esta_vazio() {
    assert_eq!(pool_sizes_de(INI_DO_DONO), PoolSizesIncrease::Vazio);
}

#[test]
fn chave_ausente_da_secao_tambem_e_vazio() {
    let ini = "[Game]\r\nDefaultBuild=\r\n";
    assert_eq!(pool_sizes_de(ini), PoolSizesIncrease::Vazio);
}

#[test]
fn valor_fora_do_json_nao_vira_vazio() {
    let ini = "[Game]\r\nPoolSizesIncrease=isto nao e json\r\n";

    match pool_sizes_de(ini) {
        PoolSizesIncrease::Invalido { bruto } => {
            assert_eq!(bruto, "isto nao e json");
        }
        outro => panic!("valor não parseável virou {:?}, não Invalido", outro),
    }
}

#[test]
fn pools_configurados_saem_com_teto_conhecido_quando_existe() {
    let ini = r#"[Game]
PoolSizesIncrease={"CMoveObject": 600, "FragmentStore": 30000, "PoolQueNaoConhecemos": 10}
"#;

    match pool_sizes_de(ini) {
        PoolSizesIncrease::Configurado { pools } => {
            assert_eq!(pools.len(), 3);

            let cmove = pools.iter().find(|p| p.nome == "CMoveObject").unwrap();
            assert_eq!(cmove.aumento, 600);
            assert_eq!(cmove.teto_conhecido, Some(600));

            let desconhecido = pools.iter().find(|p| p.nome == "PoolQueNaoConhecemos").unwrap();
            assert_eq!(desconhecido.aumento, 10);
            assert_eq!(desconhecido.teto_conhecido, None);
        }
        outro => panic!("pools configurados viraram {:?}", outro),
    }
}

#[test]
fn le_apenas_a_secao_pedida() {
    let ini = "[Addons]\r\nPoolSizesIncrease={\"CMoveObject\": 999}\r\n\r\n[Game]\r\nPoolSizesIncrease=\r\n";
    assert_eq!(pool_sizes_de(ini), PoolSizesIncrease::Vazio);
}

#[test]
fn nota_do_vazio_nao_sugere_aumentar_nada() {
    let nota = montar_nota(&Some(PoolSizesIncrease::Vazio), None);

    assert!(!nota.to_lowercase().contains("aumente"));
    assert!(!nota.to_lowercase().contains("recomendo"));
    assert!(nota.contains("normal") || nota.contains("não é um problema"));
}

#[test]
fn nota_do_invalido_diz_que_nao_entendeu_em_vez_de_ficar_calada() {
    let nota = montar_nota(&Some(PoolSizesIncrease::Invalido { bruto: "x".to_string() }), None);

    assert!(nota.contains("não") && (nota.contains("interpretar") || nota.contains("entend")));
}

// Casos a mais.

#[test]
fn mapa_vazio_e_nada_configurado() {
    assert_eq!(pool_sizes_de("[Game]\nPoolSizesIncrease={}\n"), PoolSizesIncrease::Vazio);
}

#[test]
fn numero_negativo_nao_e_o_formato_esperado() {
    assert!(matches!(
        pool_sizes_de("[Game]\nPoolSizesIncrease={\"CMoveObject\": -5}\n"),
        PoolSizesIncrease::Invalido { .. }
    ));
}

#[test]
fn a_nota_da_falha_diz_o_erro_real() {
    let nota = montar_nota(&None, Some(Falha::DadoInvalido));
    assert!(nota.starts_with("Não consegui ler o CitizenFX.ini. O arquivo não está em UTF-8"));
    assert!(nota.ends_with(" O arquivo não foi tocado."));
    assert_eq!(explicar_falha(Falha::Outra), "Não consegui abrir o arquivo.");
    let sem_motivo = montar_nota(&None, None);
    assert!(sem_motivo.contains("Não consegui abrir o arquivo."));
}

#[test]
fn a_nota_conta_os_pools_configurados() {
    let p = pool_sizes_de("[Game]\nPoolSizesIncrease={\"TxdStore\": 100, \"A\": 1}\n");
    assert!(montar_nota(&Some(p), None).starts_with("2 pool(s) com acréscimo"));
}

#[test]
fn ler_chave_apara_o_valor_e_respeita_a_secao() {
    let ini = "  [Outra]  \nChave=1\n[Game]\n  Chave =2\n  Chave=  valor com espaço  \n";
    assert_eq!(ler_chave(ini, "Game", "Chave").as_deref(), Some("valor com espaço"));
    assert_eq!(ler_chave(ini, "Nenhuma", "Chave"), None);
    assert_eq!(teto_conhecido("TxdStore"), Some(50_000));
    assert_eq!(teto_conhecido("txdstore"), None);
}

#[test]
fn os_pares_lidos_viram_pools_com_teto() {
    let r = pools_dos_pares(
        "{\"TxdStore\":1000,\"Outro\":5}".to_string(),
        Some(vec![("TxdStore".to_string(), 1000), ("Outro".to_string(), 5)]),
    );

    assert_eq!(
        r,
        PoolSizesIncrease::Configurado {
            pools: vec![
                PoolAjustado { nome: "TxdStore".to_string(), aumento: 1000, teto_conhecido: Some(50_000) },
                PoolAjustado { nome: "Outro".to_string(), aumento: 5, teto_conhecido: None },
            ]
        }
    );
}

#[test]
fn mapa_vazio_e_nada_e_sem_mapa_e_invalido() {
    assert_eq!(pools_dos_pares("{}".to_string(), Some(vec![])), PoolSizesIncrease::Vazio);
    assert_eq!(
        pools_dos_pares("lixo".to_string(), None),
        PoolSizesIncrease::Invalido { bruto: "lixo".to_string() }
    );
}
