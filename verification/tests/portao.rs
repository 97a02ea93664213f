use pc_optimizer::portao::{esquecer, lados_do_ajuste, lados_do_governador, marcar, observar_governador, rodada_do_governador, vigiar, GovernadorNaPartida, PartidaMedida, Rodada, VigiliaComVeredito, VigiliaDoGovernador, Vigiado};

#[test]
fn marca_que_muda_no_meio_nao_vale() {
    assert_eq!(marcar(Some(GovernadorNaPartida::Acalmou), Some(GovernadorNaPartida::Acalmou)), Some(GovernadorNaPartida::Acalmou));
    assert_eq!(marcar(None, Some(GovernadorNaPartida::Acalmou)), None);
    assert_eq!(marcar(Some(GovernadorNaPartida::Absteve), Some(GovernadorNaPartida::Acalmou)), None);
}

#[test]
fn vigiar_mantem_o_horario_original() {
    let mut vs: Vec<Vigiado> = Vec::new();
    vigiar(&mut vs, "config_x", "X", "X-Win64-Shipping", 1000);
    vigiar(&mut vs, "config_x", "X", "X-Win64-Shipping", 5000);
    assert_eq!(vs.len(), 1);
    assert_eq!(vs[0].aplicado_em, 1000, "o antes é antes do primeiro ajuste");
    assert_eq!(vs[0].processo, "x-win64-shipping");
}

#[test]
fn esquecer_tira_so_o_id_pedido() {
    let mut vs: Vec<Vigiado> = Vec::new();
    vigiar(&mut vs, "a", "A", "a.exe", 1);
    vigiar(&mut vs, "b", "B", "b.exe", 2);
    assert!(esquecer(&mut vs, "a"));
    assert_eq!(vs.len(), 1);
    assert_eq!(vs[0].id, "b");
    assert!(!esquecer(&mut vs, "nao-existe"), "nada mudou, nada a gravar");
}

fn partida(jogo: &str, quando: u64, governador: Option<GovernadorNaPartida>) -> PartidaMedida {
    PartidaMedida { jogo: jogo.into(), quando, governador }
}

fn vig_x() -> Vigiado {
    Vigiado { id: "config_unreal_x".into(), nome: "X".into(), processo: "x-win64".into(), aplicado_em: 1000 }
}

#[test]
fn cada_lado_do_ajuste_fica_com_as_partidas_do_proprio_jogo() {
    let ms = vec![partida("X-Win64-Shipping.exe", 10, None), partida("X-Win64-Shipping.exe", 2000, None)];
    assert_eq!(lados_do_ajuste(&vig_x(), &ms), (vec![0], vec![1]));

    let mut outros = Vec::new();
    for i in 0..4 {
        outros.push(partida("Outro.exe", 100 + i, None));
        outros.push(partida("Outro.exe", 2000 + i, None));
    }
    assert_eq!(lados_do_ajuste(&vig_x(), &outros), (vec![], vec![]));
}

#[test]
fn os_lados_do_ajuste_ficam_com_as_seis_mais_proximas() {
    let ms: Vec<PartidaMedida> = (0..10u64)
        .map(|i| partida("X-Win64-Shipping.exe", 100 + i, None))
        .chain((0..10u64).map(|i| partida("X-Win64-Shipping.exe", 2000 + i, None)))
        .chain([partida("X-Win64-Shipping.exe", 1000, None)])
        .collect();
    let (antes, depois) = lados_do_ajuste(&vig_x(), &ms);
    assert_eq!(antes, vec![9, 8, 7, 6, 5, 4]);
    assert_eq!(depois, vec![10, 11, 12, 13, 14, 15]);
}

#[test]
fn partida_sem_marca_nao_entra_em_lado_nenhum_do_governador() {
    let ms: Vec<PartidaMedida> = (0..8).map(|i| partida("FiveM_b3258_GTAProcess.exe", i, None)).collect();
    assert_eq!(lados_do_governador("fivem_", &ms), (vec![], vec![]));
}

#[test]
fn os_lados_do_governador_vem_do_mais_recente() {
    let ms = vec![
        partida("FiveM_b3258_GTAProcess.exe", 10, Some(GovernadorNaPartida::Absteve)),
        partida("FiveM_b3258_GTAProcess.exe", 30, Some(GovernadorNaPartida::Absteve)),
        partida("FiveM_b3258_GTAProcess.exe", 20, Some(GovernadorNaPartida::Acalmou)),
        partida("FiveM_b3258_GTAProcess.exe", 30, Some(GovernadorNaPartida::Absteve)),
        partida("Outro.exe", 40, Some(GovernadorNaPartida::Acalmou)),
    ];
    assert_eq!(lados_do_governador("fivem_", &ms), (vec![1, 3, 0], vec![2]));
}

#[test]
fn sessoes_do_governador_guardam_so_as_dez_ultimas() {
    let mut vs: Vec<VigiliaDoGovernador> = Vec::new();
    observar_governador(&mut vs, "fivem_", "FiveM", 5, false);
    assert_eq!(vs.len(), 1);
    assert_eq!(vs[0].desde, 5);
    assert!(vs[0].sessoes_agindo.is_empty());
    for t in 0..12u64 {
        observar_governador(&mut vs, "fivem_", "outro nome", 100 + t, true);
    }
    assert_eq!(vs.len(), 1);
    assert_eq!(vs[0].nome, "FiveM");
    assert_eq!(vs[0].sessoes_agindo, (102..112u64).collect::<Vec<_>>());
    observar_governador(&mut vs, "cs2", "CS2", 7, true);
    assert_eq!(vs.len(), 2);
    assert_eq!(vs[1].sessoes_agindo, vec![7]);
}

fn gp(quando: u64, lado: GovernadorNaPartida) -> PartidaMedida {
    partida("FiveM_b3258_GTAProcess.exe", quando, Some(lado))
}

fn vigilia(reprovado: Option<bool>, sessoes: Vec<u64>) -> Vec<VigiliaComVeredito> {
    vec![VigiliaComVeredito { processo: "fivem_".into(), reprovado, sessoes_agindo: sessoes }]
}

#[test]
fn rodadas_alternam_para_encher_o_lado_menor() {
    let vazio: Vec<VigiliaComVeredito> = Vec::new();
    assert_eq!(rodada_do_governador(Some(&vazio), "fivem_", Some(&[]), true), Rodada::Comparar, "começa pela referência");
    let ms = vec![gp(1, GovernadorNaPartida::Absteve)];
    assert_eq!(rodada_do_governador(Some(&vazio), "fivem_", Some(&ms), true), Rodada::Agir);
    let ms = vec![gp(1, GovernadorNaPartida::Absteve), gp(2, GovernadorNaPartida::Acalmou)];
    assert_eq!(rodada_do_governador(Some(&vazio), "fivem_", Some(&ms), true), Rodada::Comparar);
}

#[test]
fn sem_medicao_o_governador_nao_age() {
    let vazio: Vec<VigiliaComVeredito> = Vec::new();
    assert!(matches!(rodada_do_governador(Some(&vazio), "fivem_", Some(&[]), false), Rodada::SemMedicao(_)));
    assert!(matches!(rodada_do_governador(Some(&vazio), "fivem_", None, true), Rodada::SemMedicao(_)));
}

#[test]
fn reprovado_fica_parado_e_aprovado_age() {
    let reprovado = vigilia(Some(true), Vec::new());
    assert_eq!(rodada_do_governador(Some(&reprovado), "fivem_", Some(&[]), true), Rodada::Reprovado);
    let aprovado = vigilia(Some(false), Vec::new());
    assert_eq!(rodada_do_governador(Some(&aprovado), "fivem_", Some(&[]), true), Rodada::Agir);
}

#[test]
fn portao_ilegivel_nao_solta_o_governador() {
    assert!(matches!(rodada_do_governador(None, "fivem_", Some(&[]), true), Rodada::SemMedicao(_)));
}

#[test]
fn agir_sem_medicao_que_conte_tem_limite() {
    let ms = vec![gp(100, GovernadorNaPartida::Absteve)];
    assert_eq!(rodada_do_governador(Some(&vigilia(None, vec![200, 300])), "fivem_", Some(&ms), true), Rodada::Agir);
    let travado = vigilia(None, vec![200, 300, 400]);
    assert_eq!(rodada_do_governador(Some(&travado), "fivem_", Some(&ms), true), Rodada::Comparar);
    let ms2 = vec![gp(100, GovernadorNaPartida::Absteve), gp(500, GovernadorNaPartida::Absteve)];
    assert_eq!(rodada_do_governador(Some(&travado), "fivem_", Some(&ms2), true), Rodada::Agir);
    assert_eq!(rodada_do_governador(Some(&vigilia(None, vec![10, 20, 30])), "fivem_", Some(&ms), true), Rodada::Agir);
}
