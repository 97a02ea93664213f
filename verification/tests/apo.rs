use pc_optimizer::windows::apo::{achados, driver_presente, processador_validado, windows_11};

#[test]
fn reconhece_a_lista_da_intel() {
    assert!(processador_validado("Intel(R) Core(TM) i9-14900K"));
    assert!(processador_validado("13th Gen Intel(R) Core(TM) i7-14700KF"));
    assert!(processador_validado("Intel(R) Core(TM) Ultra 9 285K"));
    assert!(processador_validado("Intel(R) Core(TM) Ultra 7 270K Plus"));
    assert!(!processador_validado("Intel(R) Core(TM) i5-14600"), "sem K não está na lista");
    assert!(!processador_validado("Intel(R) Core(TM) i5-14400F"));
    assert!(!processador_validado("Intel(R) Core(TM) Ultra 7 270K"), "270K só como Plus");
    assert!(!processador_validado("Intel(R) Core(TM) i3-10100F CPU @ 3.60GHz"));
    assert!(!processador_validado("AMD Ryzen 7 7800X3D 8-Core Processor"));
}

#[test]
fn so_acusa_com_o_driver_lido_e_ausente_no_windows_11() {
    let cpu = "Intel(R) Core(TM) i9-14900K";
    assert_eq!(achados(cpu, true, Some(false)).len(), 1);
    assert!(achados(cpu, true, Some(true)).is_empty());
    assert!(achados(cpu, true, None).is_empty(), "leitura falha não vira acusação");
    assert!(achados(cpu, false, Some(false)).is_empty(), "o APO exige Windows 11");
}

#[test]
fn o_achado_nomeia_o_processador_sem_os_brancos() {
    let a = achados("  Intel(R) Core(TM) i9-14900K \n", true, Some(false));
    assert!(a[0].medido.starts_with("O Intel(R) Core(TM) i9-14900K está na lista"));
    assert_eq!(a[0].id, "apo_sem_driver");
}

#[test]
fn windows_11_e_a_resposta_do_driver_vem_dos_textos_lidos() {
    assert!(windows_11(Some("22631")));
    assert!(!windows_11(Some("19045")));
    assert!(!windows_11(Some("x")));
    assert!(!windows_11(None));
    assert_eq!(driver_presente(Some("sim\r\n")), Some(true));
    assert_eq!(driver_presente(Some("nao")), Some(false));
    assert_eq!(driver_presente(Some("erro")), None);
    assert_eq!(driver_presente(None), None);
}
