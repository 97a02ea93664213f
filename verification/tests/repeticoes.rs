use pc_optimizer::repeticoes::{protocolo, Perfil, REPETICOES_MINIMAS};

#[test]
fn o_protocolo_de_jogo_e_mais_curto_e_descarta_o_aquecimento() {
    let jogo = protocolo(Perfil::Jogo);
    let ocioso = protocolo(Perfil::Ocioso);

    assert!(jogo.descarta_primeira, "a primeira roda com shader compilando");
    assert!(!ocioso.descarta_primeira, "máquina parada não tem aquecimento");

    assert!(jogo.repeticoes < ocioso.repeticoes);
    assert_eq!(jogo.execucoes(), 4, "três úteis mais a descartada");
    assert_eq!(jogo.duracao_estimada_s(), 80);
}

#[test]
fn todo_protocolo_alcanca_o_minimo_de_repeticoes() {
    for perfil in [
        Perfil::Ocioso,
        Perfil::AreaDeTrabalho,
        Perfil::Cpu,
        Perfil::Gpu,
        Perfil::Jogo,
        Perfil::Disco,
    ] {
        let p = protocolo(perfil);
        assert!(p.repeticoes >= REPETICOES_MINIMAS, "{perfil:?} pede {} repetições", p.repeticoes);
    }
}

#[test]
fn a_duracao_de_cada_protocolo() {
    assert_eq!(protocolo(Perfil::Ocioso).duracao_estimada_s(), 15);
    assert_eq!(protocolo(Perfil::Cpu).duracao_estimada_s(), 40);
}
