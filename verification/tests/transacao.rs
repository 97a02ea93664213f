use pc_optimizer::transacao::{concluir, conferir, descartar, pendente, Intencao, LeituraDoDiario, Pendencia, Remocao, SCHEMA_VERSION};

#[test]
fn a_explicacao_diz_o_que_fazia_e_quantas_mudancas() {
    let p = Pendencia::nova("mouse_precision", "Precisão do mouse", Intencao::Reverter, 1_700_000_000, vec![1u8, 2]);
    assert_eq!(p.schema_version, SCHEMA_VERSION);
    assert!(p.explicacao().contains("desfazia"));
    assert_eq!(
        p.explicacao(),
        "O Otimiza foi interrompido enquanto desfazia `Precisão do mouse`. 2 mudança(s) podem ter ficado pela metade, e os valores anteriores estão guardados."
    );
}

#[test]
fn formato_desconhecido_tambem_e_erro() {
    let mut p = Pendencia::nova("x", "X", Intencao::Aplicar, 1, Vec::<u8>::new());
    assert!(conferir(p.clone()).is_ok());
    p.schema_version = 99;
    let erro = conferir(p).expect_err("versão desconhecida");
    assert!(erro.contains("99"), "{erro}");
}

#[test]
fn diario_ilegivel_e_erro_e_nao_ausencia() {
    let r = pendente::<u8>(LeituraDoDiario::Ilegivel("expected value".into()));
    assert_eq!(r, Err("há um diário interrompido, mas ele está ilegível: expected value".to_string()));
    assert_eq!(pendente::<u8>(LeituraDoDiario::NaoExiste), Ok(None));
    assert_eq!(
        pendente::<u8>(LeituraDoDiario::Falhou("acesso negado".into())),
        Err("não consegui ler o diário: acesso negado".to_string())
    );
}

#[test]
fn pendencia_no_formato_certo_volta_inteira() {
    let p = Pendencia::nova("x", "Ajuste", Intencao::Reverter, 7, vec![1u8, 2]);
    assert_eq!(pendente(LeituraDoDiario::Lida(p.clone())), Ok(Some(p)));
}

#[test]
fn descartar_e_uma_escolha_separada_de_concluir() {
    assert_eq!(concluir(Remocao::NaoExistia), Ok(()));
    assert_eq!(descartar(Remocao::Removido), Ok(()));
    assert_eq!(concluir(Remocao::Falhou("x".into())), Err("não consegui fechar o diário: x".to_string()));
    assert_eq!(descartar(Remocao::Falhou("x".into())), Err("não consegui descartar a pendência: x".to_string()));
}
