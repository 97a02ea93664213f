use pc_optimizer::nucleos::{
    conselho, indices_de, mascara_de, mascara_de_desempenho, Classe, NucleoLogico, Topologia,
};

fn nucleo(indice: u32, fisico: u32, classe: Classe) -> NucleoLogico {
    NucleoLogico { indice, fisico, classe }
}

fn hibrido() -> Topologia {
    let mut nucleos = vec![
        nucleo(0, 0, Classe::Desempenho),
        nucleo(1, 0, Classe::Desempenho),
        nucleo(2, 1, Classe::Desempenho),
        nucleo(3, 1, Classe::Desempenho),
    ];
    for i in 0..4 {
        nucleos.push(nucleo(4 + i, 2 + i, Classe::Eficiencia));
    }

    Topologia { nucleos, hibrido: true }
}

fn uniforme(quantos: u32) -> Topologia {
    Topologia {
        nucleos: (0..quantos).map(|i| nucleo(i, i / 2, Classe::Uniforme)).collect(),
        hibrido: false,
    }
}

#[test]
fn a_mascara_liga_o_bit_de_cada_nucleo() {
    assert_eq!(mascara_de(&[0]), Some(0b1));
    assert_eq!(mascara_de(&[0, 1]), Some(0b11));
    assert_eq!(mascara_de(&[3]), Some(0b1000));
    assert_eq!(mascara_de(&[0, 2, 4]), Some(0b10101));
}

#[test]
fn mascara_sem_nucleo_e_recusada() {
    assert_eq!(mascara_de(&[]), None);
}

#[test]
fn indice_fora_do_alcance_e_recusado() {
    assert_eq!(mascara_de(&[64]), None);
    assert_eq!(mascara_de(&[0, 1, 100]), None);
    assert_eq!(mascara_de(&[63]), Some(1u64 << 63), "63 ainda cabe");
}

#[test]
fn a_volta_da_mascara_devolve_os_mesmos_nucleos() {
    for indices in [vec![0u32], vec![0, 1, 2, 3], vec![5, 11, 30, 63]] {
        let m = mascara_de(&indices).expect("máscara");
        assert_eq!(indices_de(m), indices);
    }
}

#[test]
fn a_topologia_conta_logicos_e_fisicos() {
    let t = hibrido();

    assert_eq!(t.quantos(), 8);
    assert_eq!(t.fisicos(), 6, "2 de desempenho com SMT + 4 de eficiência");
}

#[test]
fn a_mascara_de_desempenho_pega_so_os_rapidos() {
    let m = mascara_de_desempenho(&hibrido()).expect("máscara");

    assert_eq!(indices_de(m), vec![0, 1, 2, 3]);
}

#[test]
fn processador_uniforme_nao_ganha_mascara() {
    assert_eq!(mascara_de_desempenho(&uniforme(8)), None);

    let c = conselho(&uniforme(8));
    assert!(!c.cabe);
    assert!(c.explicacao.contains("todos iguais"), "{}", c.explicacao);
}

#[test]
fn o_conselho_do_hibrido_diz_o_que_corrige_e_o_que_nao_dura() {
    let c = conselho(&hibrido());

    assert!(c.cabe);
    assert!(c.explicacao.contains("4 núcleos lógicos de desempenho"));
    assert!(c.explicacao.contains("some quando o jogo fechar"));
}

#[test]
fn o_conselho_uniforme_diz_quantos_nucleos() {
    let c = conselho(&uniforme(12));
    assert!(c.explicacao.starts_with("Este processador tem 12 núcleos lógicos"));
}

#[test]
fn mascara_repetida_liga_o_mesmo_bit_uma_vez() {
    assert_eq!(mascara_de(&[2, 2, 0]), Some(0b101));
    assert_eq!(indices_de(0), Vec::<u32>::new());
    assert_eq!(indices_de(u64::MAX).len(), 64);
}
