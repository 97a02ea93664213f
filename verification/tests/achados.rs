use pc_optimizer::windows::achados::{peso_confianca, peso_severidade, Confianca, FindingSeverity};

#[test]
fn severidade_ordena_do_pior_para_o_melhor() {
    assert!(peso_severidade(FindingSeverity::Critical) < peso_severidade(FindingSeverity::Important));
    assert!(peso_severidade(FindingSeverity::Important) < peso_severidade(FindingSeverity::AllGood));
}

#[test]
fn evidencia_que_persiste_pesa_mais_que_foto_do_instante() {
    assert!(peso_confianca(Confianca::Declarado) < peso_confianca(Confianca::Historico));
    assert!(peso_confianca(Confianca::Historico) < peso_confianca(Confianca::Medido));
    assert!(peso_confianca(Confianca::Medido) < peso_confianca(Confianca::Inferido));
}

#[test]
fn pesos_exatos_de_cada_gravidade_e_confianca() {
    assert_eq!(peso_severidade(FindingSeverity::Critical), 0);
    assert_eq!(peso_severidade(FindingSeverity::AllGood), 2);
    assert_eq!(peso_confianca(Confianca::Inferido), 3);
}
