use pc_optimizer::telemetry::{catalogo, id_do_nucleo, resumir, Quality, Unit};

#[test]
fn os_tres_fps_sao_ids_separados() {
    let ids: Vec<&str> = catalogo().iter().map(|(id, _)| *id).collect();

    for id in ["fps.rendered", "fps.generated", "fps.displayed"] {
        assert!(ids.contains(&id), "{id} sumiu do catálogo");
    }
}

#[test]
fn catalogo_nao_tem_id_repetido() {
    let mut ids: Vec<&str> = catalogo().iter().map(|(id, _)| *id).collect();
    let antes = ids.len();
    ids.sort_unstable();
    ids.dedup();

    assert_eq!(antes, ids.len(), "id repetido no catálogo sobrescreveria o anterior");
}

#[test]
fn id_de_nucleo_tem_o_formato_das_series() {
    assert_eq!(id_do_nucleo(1), "cpu.core.1.usage");
    assert_eq!(id_do_nucleo(15), "cpu.core.15.usage");
}

#[test]
fn o_resumo_conta_cada_qualidade() {
    let r = resumir(&[Quality::Measured, Quality::Unknown, Quality::Unknown, Quality::Estimated]);
    assert_eq!((r.measured, r.estimated, r.unknown, r.total), (1, 1, 2, 4));
    assert!(catalogo().iter().any(|(id, u)| *id == "system.uptime" && *u == Unit::Hours));
}
