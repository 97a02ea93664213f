use pc_optimizer::windows::contadousuario::{comparar, explicar, ler_duas_linhas, quantos_sao_por_conta, verificar, Conta};

#[test]
fn a_mesma_conta_e_reconhecida() {
    assert_eq!(
        comparar("SNYX-PC\\User", "SNYX-PC\\User"),
        Conta::Mesma { usuario: "SNYX-PC\\User".to_string() }
    );
}

#[test]
fn a_caixa_das_letras_nao_cria_conta_diferente() {
    assert!(matches!(comparar("SNYX-PC\\User", "snyx-pc\\user"), Conta::Mesma { .. }));
}

#[test]
fn contas_diferentes_sao_apontadas() {
    let c = comparar("PC\\Admin", "PC\\Eduardo");

    assert_eq!(
        c,
        Conta::Diferente { processo: "PC\\Admin".to_string(), shell: "PC\\Eduardo".to_string() }
    );
    assert_eq!(c.ajustes_de_usuario_valem(), Some(false));
}

#[test]
fn sem_explorer_o_produto_nao_presume_que_esta_tudo_bem() {
    let c = ler_duas_linhas("PC\\Admin\n");

    assert!(matches!(c, Conta::NaoDeuParaLer { .. }));
    assert_eq!(c.ajustes_de_usuario_valem(), None, "não sei não é não");
}

#[test]
fn saida_vazia_nao_vira_conta_igual() {
    assert!(matches!(ler_duas_linhas(""), Conta::NaoDeuParaLer { .. }));
    assert!(matches!(comparar("", "PC\\Eduardo"), Conta::NaoDeuParaLer { .. }));
}

#[test]
fn le_as_duas_linhas_da_saida() {
    let c = ler_duas_linhas("PC\\Admin\r\nPC\\Eduardo\r\n");

    assert_eq!(
        c,
        Conta::Diferente { processo: "PC\\Admin".to_string(), shell: "PC\\Eduardo".to_string() }
    );
}

#[test]
fn o_aviso_diz_o_que_fazer_e_o_que_continua_valendo() {
    let frase = explicar(
        &Conta::Diferente { processo: "PC\\Admin".to_string(), shell: "PC\\Eduardo".to_string() },
        21,
    );

    assert!(frase.contains("21"), "precisa dizer quantos ajustes são afetados");
    assert!(frase.contains("PC\\Eduardo administrador"), "falta o conserto");
    assert!(frase.contains("não são afetados"), "precisa dizer que plano de energia e serviços continuam valendo");
    assert!(
        frase.contains("vai dizer que conferiu e vai estar certo"),
        "a parte mais importante: a verificação está certa e a resposta é errada"
    );
}

#[test]
fn a_lacuna_nao_soa_como_aprovacao() {
    let frase = explicar(&Conta::NaoDeuParaLer { motivo: "sem shell.".to_string() }, 21);

    assert!(frase.contains("não quer dizer que esteja tudo bem"));
}

#[test]
fn linhas_em_branco_e_espacos_nao_contam() {
    let c = ler_duas_linhas("\n  PC\\Admin  \n\n pc\\admin\n");
    assert_eq!(c, Conta::Mesma { usuario: "PC\\Admin".to_string() });
    assert!(matches!(ler_duas_linhas("a\nb\nc"), Conta::NaoDeuParaLer { .. }));
    assert!(explicar(&c, 3).starts_with("O Otimiza está rodando pela conta PC\\Admin, que é a mesma"));
}

#[test]
fn a_contagem_de_ajustes_por_conta_vem_do_catalogo() {
    let n = quantos_sao_por_conta();

    assert!(n >= 5, "só {n} ajustes por conta? a contagem provavelmente quebrou");
    assert!(n < pc_optimizer::windows::catalog::catalog().len());
}

#[test]
fn sem_resposta_do_windows_nao_da_para_ler() {
    match verificar(None) {
        Conta::NaoDeuParaLer { motivo } => assert!(motivo.contains("não deu para perguntar")),
        outra => panic!("{:?}", outra),
    }
    assert_eq!(verificar(Some("PC\\ana\nPC\\ana")), ler_duas_linhas("PC\\ana\nPC\\ana"));
}
