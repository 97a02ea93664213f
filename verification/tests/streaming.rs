use pc_optimizer::streaming::{veredito, Leituras, Midia, Veredito};

fn leituras(
    engasgos: Option<bool>,
    coincidencia: Option<bool>,
    memoria: Option<bool>,
    latencia: Option<bool>,
    midia: Option<Midia>,
) -> Leituras {
    Leituras { engasgos, coincidencia, memoria_troca_pagina: memoria, latencia_lenta: latencia, midia }
}

#[test]
fn sem_quadros_medidos_nao_ha_veredito() {
    assert_eq!(
        veredito(&leituras(None, Some(true), Some(true), Some(true), Some(Midia::Mecanico))),
        (Veredito::SemMedicao, vec!["frametime.stutters_per_minute"])
    );
}

#[test]
fn hd_sem_trancos_nao_e_acusado() {
    assert_eq!(
        veredito(&leituras(Some(false), Some(true), Some(false), Some(true), Some(Midia::Mecanico))).0,
        Veredito::SemEngasgos
    );
    assert_eq!(
        veredito(&leituras(Some(true), None, None, None, Some(Midia::Mecanico))),
        (Veredito::SemMedicao, vec!["frametime.stutters_with_disk"])
    );
    assert_eq!(
        veredito(&leituras(Some(true), Some(false), None, None, Some(Midia::Mecanico))).0,
        Veredito::NaoEODisco
    );
}

#[test]
fn memoria_no_fim_vem_antes_da_midia() {
    assert_eq!(
        veredito(&leituras(Some(true), Some(true), Some(true), Some(true), Some(Midia::Mecanico))),
        (Veredito::TrocaDeMemoria, vec![])
    );
}

#[test]
fn midia_lenta_e_outra_coisa_dizem_o_que_faltou() {
    assert_eq!(
        veredito(&leituras(Some(true), Some(true), None, None, Some(Midia::Mecanico))),
        (Veredito::AssetsDeMidiaLenta, vec!["ram.usage"])
    );
    assert_eq!(
        veredito(&leituras(Some(true), Some(true), Some(false), Some(true), Some(Midia::Ssd))).0,
        Veredito::AssetsDeMidiaLenta
    );
    assert_eq!(
        veredito(&leituras(Some(true), Some(true), None, None, None)),
        (Veredito::OutraCoisaNoDisco, vec!["ram.usage", "storage.latency", "o disco onde o jogo está instalado"])
    );
}
