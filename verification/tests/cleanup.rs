use pc_optimizer::windows::cleanup::{
    estimate, estimate_update_cache, format_size, run, run_update_cache, servicos_a_parar_e_religar, passos_do_cache, PassoDoCache, CleanupResult,
    Desfecho, PastaDeAtualizacoes,
};

/// O que a formatação do `f64` escreveria para o mesmo número.
fn como_a_tela_escreve(bytes: u64) -> String {
    const GB: f64 = 1_073_741_824.0;
    const MB: f64 = 1_048_576.0;
    let b = bytes as f64;
    if b >= GB {
        format!("{:.1} GB", b / GB)
    } else {
        format!("{:.0} MB", b / MB)
    }
}

#[test]
fn formats_sizes_for_humans() {
    assert_eq!(format_size(524_288_000), "500 MB");
    assert_eq!(format_size(2_147_483_648), "2.0 GB");
}

#[test]
fn estimate_reads_without_deleting() {
    let pastas = [1_000u64, 0, 52_000];
    let before = estimate(&pastas);
    let after = estimate(&pastas);
    assert_eq!(before > 0, after > 0);
    assert_eq!(before, 53_000);
}

#[test]
fn o_tamanho_bate_com_a_formatacao_em_ponto_flutuante() {
    let gib: u64 = 1 << 30;
    let mib: u64 = 1 << 20;
    for bytes in [
        0,
        1,
        mib / 2,
        mib + mib / 2,
        2 * mib + mib / 2,
        gib - 1,
        gib,
        gib + gib / 20,
        gib + 3 * gib / 20,
        gib / 4 * 5,
        123_456_789_012,
        (1u64 << 53) + 1,
        (1u64 << 60) + (1 << 27) - 1,
        (1u64 << 63) + 3 * (1 << 28) - 1,
        u64::MAX,
    ] {
        assert_eq!(format_size(bytes), como_a_tela_escreve(bytes), "{bytes}");
    }
}

#[test]
fn arquivo_travado_e_pulado_e_a_limpeza_segue() {
    let r = run(&[Desfecho::Removido(100), Desfecho::Pulado, Desfecho::Removido(50), Desfecho::Pulado]);
    assert_eq!(r, CleanupResult { bytes_freed: 150, files_removed: 2, files_skipped: 2 });
}

#[test]
fn sem_pasta_do_windows_nao_ha_limpeza_de_atualizacoes() {
    assert_eq!(
        run_update_cache(PastaDeAtualizacoes::SemPastaDoWindows, &[]),
        Err("Não foi possível localizar a pasta do Windows.".to_string())
    );
    assert_eq!(
        run_update_cache(PastaDeAtualizacoes::NaoExiste, &[Desfecho::Removido(7)]),
        Ok(CleanupResult { bytes_freed: 0, files_removed: 0, files_skipped: 0 })
    );
    assert_eq!(
        run_update_cache(PastaDeAtualizacoes::Existe, &[Desfecho::Removido(7)]),
        Ok(CleanupResult { bytes_freed: 7, files_removed: 1, files_skipped: 0 })
    );
}

#[test]
fn so_volta_o_servico_que_estava_rodando() {
    assert_eq!(servicos_a_parar_e_religar([true, false]), vec!["wuauserv"]);
    assert_eq!(servicos_a_parar_e_religar([false, true]), vec!["bits"]);
    assert!(servicos_a_parar_e_religar([false, false]).is_empty());
}

#[test]
fn cache_de_atualizacoes_sem_pasta_estima_zero() {
    assert_eq!(estimate_update_cache(None), 0);
    assert_eq!(estimate_update_cache(Some(42)), 42);
}

#[test]
fn so_o_que_rodava_para_e_volta_depois_da_limpeza() {
    let passos: Vec<String> = passos_do_cache([true, true])
        .into_iter()
        .map(|p| match p {
            PassoDoCache::Parar(s) => format!("parar {s}"),
            PassoDoCache::Limpar => "limpar".to_string(),
            PassoDoCache::Religar(s) => format!("religar {s}"),
        })
        .collect();
    assert_eq!(passos, vec!["parar wuauserv", "parar bits", "limpar", "religar wuauserv", "religar bits"]);

    let so_bits = passos_do_cache([false, true]);
    assert_eq!(so_bits.len(), 3);
    assert!(matches!(so_bits[0], PassoDoCache::Parar("bits")));
    assert!(matches!(so_bits[1], PassoDoCache::Limpar));
    assert!(matches!(so_bits[2], PassoDoCache::Religar("bits")));

    let nada = passos_do_cache([false, false]);
    assert_eq!(nada.len(), 1);
    assert!(matches!(nada[0], PassoDoCache::Limpar));
}
