use pc_optimizer::windows::achados::Confianca;
use pc_optimizer::windows::causas::{
    dois_numeros, nada_encontrado, ordenar, suspeito_da_memoria, suspeito_das_faixas,
    suspeito_do_disco, suspeito_do_limite, Faixas, Suspeito,
};

#[test]
fn le_os_dois_numeros_da_frase_do_firmware() {
    assert_eq!(dois_numeros("Rodando a 2133 MHz; o pente é de 3200 MHz."), Some((2133, 3200)));
    assert_eq!(dois_numeros("sem número nenhum"), None);
    assert_eq!(dois_numeros("só 1600"), None);
}

#[test]
fn a_memoria_junta_os_dois_problemas_numa_frase_so() {
    let s = suspeito_da_memoria(true, Some((2133, 3200))).expect("dois problemas");

    assert!(s.medido.contains("2133") && s.medido.contains("3200"));
    assert!(s.medido.contains("canal único"));
    assert!(s.como_confirmar.contains("XMP") && s.como_confirmar.contains("EXPO"));
}

#[test]
fn memoria_no_lugar_nao_vira_suspeito() {
    assert!(suspeito_da_memoria(false, None).is_none());
}

#[test]
fn o_limite_termico_nunca_manda_desligar_protecao() {
    let s = suspeito_do_limite(Some("limite de temperatura")).unwrap();

    assert!(s.como_confirmar.contains("NUNCA desliga proteção térmica"));
    assert!(!s.como_confirmar.to_lowercase().contains("desative o limite"));
}

#[test]
fn nada_encontrado_nao_e_atestado_de_saude() {
    let frase = nada_encontrado(0);

    assert!(frase.contains("não quer dizer que o FPS esteja bom"));
    assert!(frase.contains("memória de vídeo"), "precisa dizer o que foi procurado");
}

#[test]
fn com_lacuna_a_lista_se_declara_incompleta() {
    let frase = nada_encontrado(2);
    assert!(frase.contains("não é completa"));
}

#[test]
fn faixas_completas_nao_viram_suspeito() {
    assert!(suspeito_das_faixas(&Faixas::Completo { largura: 16 }).is_none());
    assert!(suspeito_das_faixas(&Faixas::NaoDeuParaLer { motivo: "sem driver".to_string() }).is_none());
}

// Casos a mais.

fn suspeito(id: &str) -> Suspeito {
    Suspeito {
        id: id.to_string(),
        titulo: String::new(),
        medido: String::new(),
        porque: String::new(),
        como_confirmar: String::new(),
        confianca: Confianca::Medido,
    }
}

#[test]
fn a_ordem_segue_a_forca_da_evidencia() {
    let lista = ordenar(vec![
        suspeito("memoria_abaixo_do_que_tem"),
        suspeito("desconhecido"),
        suspeito("jogo_em_disco_mecanico"),
        suspeito("foi_o_otimiza"),
        suspeito("limite_ativo"),
    ]);
    let ids: Vec<&str> = lista.iter().map(|s| s.id.as_str()).collect();
    assert_eq!(
        ids,
        vec!["foi_o_otimiza", "limite_ativo", "jogo_em_disco_mecanico", "memoria_abaixo_do_que_tem", "desconhecido"]
    );
}

#[test]
fn disco_mecanico_lista_os_jogos() {
    assert!(suspeito_do_disco(&[]).is_none());
    let s = suspeito_do_disco(&["GTA V".to_string(), "FiveM".to_string()]).unwrap();
    assert_eq!(s.medido, "Em disco de prato: GTA V, FiveM.");
    assert_eq!(s.id, "jogo_em_disco_mecanico");
}

#[test]
fn faixas_estreitas_dizem_os_dois_numeros() {
    let s = suspeito_das_faixas(&Faixas::Estreito { atual: 4, maxima: 16 }).unwrap();
    assert_eq!(s.medido, "4 faixas de PCI Express em uso, de 16 que a placa tem.");
}

#[test]
fn a_contagem_de_lacunas_aparece_na_ressalva() {
    assert!(nada_encontrado(1).contains(" E 1 verificação não pôde"));
    assert!(nada_encontrado(3).contains(" E 3 verificaçãoões não pôde"));
    assert!(!nada_encontrado(0).contains(" E 0"));
}

#[test]
fn numero_grande_demais_e_pulado() {
    assert_eq!(dois_numeros("99999999999 e 12 e 7"), Some((12, 7)));
}
