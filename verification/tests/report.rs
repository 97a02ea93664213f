use pc_optimizer::report::{
    build_html, caminho_do_edge, campo_csv, csv_das_alteracoes, data_de, escape, texto_da_data_exec, relatorio_salvo, secao_medicao,
    secao_mudancas_com_datas, url_do_arquivo, verdict_label, Alteracao, Medicao, OtimizacaoAplicada, ReportData,
    Verdict,
};

fn doc_vazio() -> String {
    build_html(&[], None, &ReportData::default(), "31/07/2026 as 14:00")
}

#[test]
fn o_csv_tem_uma_linha_por_alteracao_e_escapa_aspas() {
    let aplicadas = vec![OtimizacaoAplicada {
        optimization_id: "x".into(),
        name: "Ajuste \"com aspas\"".into(),
        timestamp: 0,
        changes: vec![
            Alteracao { descricao: "Plano de energia (antes: a)".into(), valor_novo: Some("1".into()) },
            Alteracao { descricao: "Hibernação (antes: ligada)".into(), valor_novo: Some("1".into()) },
        ],
    }];
    let csv = csv_das_alteracoes(&aplicadas);
    let linhas: Vec<&str> = csv.trim_end().split("\r\n").collect();
    assert_eq!(linhas.len(), 3, "{csv}");
    assert!(linhas[0].starts_with('\u{FEFF}'));
    assert!(linhas[1].contains("\"Ajuste \"\"com aspas\"\"\""));
    assert!(linhas[1].contains("\"sem data\""));
}

#[test]
fn nome_de_programa_com_html_nao_vira_codigo() {
    let escapado = escape("<script>alert('x')</script> & \"aspas\"");

    assert!(!escapado.contains('<'));
    assert!(!escapado.contains('>'));
    assert!(escapado.contains("&lt;script&gt;"));
    assert!(escapado.contains("&amp;"));
}

#[test]
fn sem_medicao_o_relatorio_admite_em_vez_de_estimar() {
    let secao = secao_medicao(None);

    assert!(secao.contains("Não foi realizada medição"));
    assert!(secao.contains("não estima números que não foram medidos"));
    assert!(!secao.contains('%'));
}

#[test]
fn veredito_ruim_chega_ao_cliente() {
    let (rotulo, classe) = verdict_label(&Verdict::Worsened);
    assert_eq!(rotulo, "piorou");
    assert_eq!(classe, "ruim");
}

#[test]
fn documento_nao_tem_simbolo_decorativo() {
    let html = doc_vazio();

    for c in html.chars() {
        let cp = c as u32;
        let decorativo =
            (0x1F300..=0x1FAFF).contains(&cp) || (0x2600..=0x27BF).contains(&cp) || (0xFE00..=0xFE0F).contains(&cp);

        assert!(!decorativo, "simbolo decorativo no documento: {:?}", c);
    }
}

#[test]
fn documento_e_autossuficiente() {
    let html = doc_vazio();

    assert!(html.starts_with("<!doctype html>"));
    assert!(html.contains("lang=\"pt-BR\""));

    assert!(!html.contains("http://"));
    assert!(!html.contains("https://"));
    assert!(!html.contains("<script"));

    assert!(html.contains("@page"));
    assert!(html.contains("size: A4"));

    assert!(html.contains("Reversibilidade"));
    assert!(html.contains("Procedimentos deliberadamente não executados"));
}

#[test]
fn ausencia_de_dado_nao_e_lida_como_conformidade() {
    let html = doc_vazio();

    assert!(html.contains("não que o item esteja em conformidade"));
}

#[test]
fn edge_esta_disponivel_para_gerar_pdf() {
    assert_eq!(
        caminho_do_edge(true, true),
        Some(r"C:\Program Files (x86)\Microsoft\Edge\Application\msedge.exe")
    );
    assert_eq!(caminho_do_edge(false, true), Some(r"C:\Program Files\Microsoft\Edge\Application\msedge.exe"));
    assert_eq!(caminho_do_edge(false, false), None);
}

#[test]
fn historico_sem_hora_aparece_sem_data() {
    assert_eq!(data_de(0), "sem data");
    assert!(!data_de(1_700_000_000).is_empty());
}

#[test]
fn campo_do_csv_dobra_aspas_e_nao_quebra_linha() {
    assert_eq!(campo_csv("a\"b\nc\rd"), "\"a\"\"b c d\"");
}

#[test]
fn sem_alteracao_a_secao_diz_que_nada_esta_aplicado() {
    let (html, n, total) = secao_mudancas_com_datas(&[], &[]);
    assert_eq!((n, total), (0, 0));
    assert!(html.contains("Nenhuma otimização do Otimiza está aplicada nesta máquina no momento."));
}

#[test]
fn cada_alteracao_aparece_com_o_nome_escapado() {
    let aplicadas = vec![
        OtimizacaoAplicada {
            optimization_id: "a".into(),
            name: "<b>A</b>".into(),
            timestamp: 0,
            changes: vec![Alteracao { descricao: "x < y".into(), valor_novo: None }],
        },
        OtimizacaoAplicada { optimization_id: "b".into(), name: "B".into(), timestamp: 0, changes: vec![] },
    ];
    let (html, n, total) = secao_mudancas_com_datas(&aplicadas, &["d1".to_string(), "d2".to_string()]);
    assert_eq!((n, total), (2, 1));
    assert!(html.contains("<p>2 otimização(oes), 1 alteração(oes) no total."));
    assert!(html.contains("<h4>&lt;b&gt;A&lt;/b&gt; <small>(d1)</small></h4><ul><li>x &lt; y</li></ul>"));
}

#[test]
fn medicao_entra_com_as_linhas_prontas() {
    let m = Medicao { summary: "FPS subiu".into(), linhas: vec!["<tr><td>FPS</td></tr>".into()] };
    let s = secao_medicao(Some(&m));
    assert!(s.contains("<p>FPS subiu</p>"));
    assert!(s.contains("<tbody><tr><td>FPS</td></tr></tbody>"));
}

#[test]
fn sem_pdf_o_relatorio_fica_em_html_e_diz_por_que() {
    let r = relatorio_salvo("r.html", "r.pdf", Err("sem Edge".into()), 2, 5);
    assert!(!r.is_pdf);
    assert_eq!(r.path, "r.html");
    assert!(r.note.starts_with("O relatório foi gravado em HTML porque não foi possível gerar o PDF: sem Edge."));
    let r = relatorio_salvo("r.html", "r.pdf", Ok(()), 2, 5);
    assert!(r.is_pdf);
    assert_eq!(r.path, "r.pdf");
    assert!(r.note.is_empty());
}

#[test]
fn a_url_do_arquivo_usa_barra_normal() {
    assert_eq!(url_do_arquivo(r"C:\Users\a\r.html"), "file:///C:/Users/a/r.html");
}

#[test]
fn a_data_sai_com_dia_mes_ano_hora_e_minuto() {
    assert_eq!(texto_da_data_exec(2026, 7, 31, 14, 0), "31/07/2026 14:00");
    assert_eq!(texto_da_data_exec(987, 1, 2, 3, 4), "02/01/0987 03:04");
}

#[test]
fn o_ano_fora_de_quatro_algarismos_leva_sinal() {
    assert_eq!(texto_da_data_exec(12026, 12, 9, 23, 59), "09/12/+12026 23:59");
    assert_eq!(texto_da_data_exec(-5, 12, 9, 0, 0), "09/12/-0005 00:00");
    assert_eq!(texto_da_data_exec(-262143, 1, 1, 0, 0), "01/01/-262143 00:00");
}

#[test]
fn a_data_local_tem_o_formato_do_relatorio() {
    let d: Vec<char> = data_de(1_700_000_000).chars().collect();
    assert_eq!(d.len(), 16, "{d:?}");
    assert_eq!((d[2], d[5], d[10], d[13]), ('/', '/', ' ', ':'));
    assert!(d.iter().enumerate().all(|(i, c)| [2, 5, 10, 13].contains(&i) || c.is_ascii_digit()));
}
