use pc_optimizer::windows::catalog::catalog;
use pc_optimizer::windows::conflitos::{entre, lista_conhecidos, Tipo};

#[test]
fn todo_conflito_aponta_para_ajustes_que_existem() {
    let cat = catalog();
    for c in lista_conhecidos() {
        for id in [c.um, c.outro] {
            assert!(
                cat.iter().any(|s| s.id == id),
                "o conflito `{}` cita `{id}`, que não existe no catálogo",
                c.id
            );
        }
    }
}

#[test]
fn todo_conflito_diz_o_mecanismo_e_nao_um_palpite() {
    for c in lista_conhecidos() {
        assert!(c.mecanismo.len() >= 180, "`{}` não explica o mecanismo, só rotula", c.id);

        let baixo = c.mecanismo.to_lowercase();
        assert!(
            !baixo.contains("podem interferir") && !baixo.contains("pode interferir"),
            "`{}` usa a frase que se escreve quando não se sabe o mecanismo",
            c.id
        );
    }
}

#[test]
fn todo_conselho_diz_qual_escolher_e_por_que() {
    for c in lista_conhecidos() {
        assert!(c.conselho.len() >= 100, "`{}` sem conselho de verdade", c.id);

        let baixo = c.conselho.to_lowercase();
        assert!(!baixo.starts_with("escolha um"), "`{}` devolve a decisão sem ajudar a tomá-la", c.id);
    }
}

#[test]
fn nenhum_conflito_e_de_um_ajuste_com_ele_mesmo() {
    for c in lista_conhecidos() {
        assert_ne!(c.um, c.outro, "`{}` é um ajuste brigando consigo", c.id);
    }
}

#[test]
fn nenhum_par_esta_repetido() {
    let mut pares: Vec<(&str, &str)> = lista_conhecidos()
        .iter()
        .map(|c| if c.um < c.outro { (c.um, c.outro) } else { (c.outro, c.um) })
        .collect();

    let antes = pares.len();
    pares.sort();
    pares.dedup();

    assert_eq!(pares.len(), antes, "há par repetido, com dois conselhos diferentes");
}

#[test]
fn acha_o_conflito_numa_selecao() {
    let selecao = vec![
        "disable_memory_compression".to_string(),
        "disable_sysmain".to_string(),
        "disable_transparency".to_string(),
    ];

    let achados = entre(&selecao);

    assert_eq!(achados.len(), 1);
    assert_eq!(achados[0].id, "compressao_e_sysmain");
}

#[test]
fn um_dos_dois_sozinho_nao_e_conflito() {
    let so_um = vec!["disable_memory_compression".to_string()];
    assert!(entre(&so_um).is_empty());
}

#[test]
fn selecao_vazia_nao_inventa_conflito() {
    assert!(entre(&[]).is_empty());
}

#[test]
fn cada_tipo_tem_rotulo_proprio() {
    let mut rotulos = [
        Tipo::MesmoLugar.rotulo(),
        Tipo::SeAnulam.rotulo(),
        Tipo::DependeDoOutro.rotulo(),
        Tipo::JuntosCustamCaro.rotulo(),
    ]
    .to_vec();

    let antes = rotulos.len();
    rotulos.sort();
    rotulos.dedup();

    assert_eq!(rotulos.len(), antes);
}

#[test]
fn escolher_mais_ajustes_nao_esconde_conflito() {
    let poucos = vec!["plano_otimiza".to_string(), "disable_power_throttling".to_string()];
    let mut muitos = poucos.clone();
    muitos.push("gpu_hardware_scheduling".to_string());
    muitos.push("gpu_msi_mode".to_string());

    let ids: Vec<&str> = entre(&muitos).iter().map(|c| c.id).collect();
    assert_eq!(entre(&poucos).len(), 1);
    assert_eq!(ids, vec!["hags_e_msi", "plano_e_throttling"]);
}
