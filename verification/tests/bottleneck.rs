use pc_optimizer::windows::bottleneck::{memoria_de_video, memoria_de_video_total, Limite};

#[test]
fn maquina_parada_recebe_o_conselho_de_medir_com_o_jogo_aberto() {
    assert!(Limite::SemCarga.conselho().contains("seria chute"));
}

#[test]
fn placa_no_limite_e_boa_noticia_em_jogo_no_conselho() {
    assert!(Limite::Gpu.conselho().contains("boa notícia"));
}

#[test]
fn um_nucleo_so_pede_nucleo_mais_rapido() {
    assert!(Limite::CpuUmNucleo.conselho().contains("núcleo mais rápido"));
}

#[test]
fn o_tamanho_gravado_pelo_driver_e_lido_em_little_endian() {
    let quatro_gb = 4u64 << 30;
    assert_eq!(memoria_de_video(&quatro_gb.to_le_bytes()), Some(quatro_gb));
    assert_eq!(memoria_de_video(&[0, 0, 0, 0, 1, 0, 0, 0, 9]), Some(1 << 32));
    assert_eq!(memoria_de_video(&[1, 2, 3]), None);
    assert_eq!(memoria_de_video(&[0; 8]), None);
}

#[test]
fn vale_a_primeira_entrada_do_driver_com_tamanho() {
    let leituras = vec![None, Some(vec![0u8; 8]), Some(2048u64.to_le_bytes().to_vec()), Some(vec![1, 0, 0, 0, 0, 0, 0, 0])];
    assert_eq!(memoria_de_video_total(&leituras), Some(2048));
    assert_eq!(memoria_de_video_total(&[None, None]), None);
}
