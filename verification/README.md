# pc_optimizer

Biblioteca do Otimiza, o otimizador de PC para jogos, escrita em Verus: as regras, os textos, os analisadores e
as decisões do programa, cada função pública com o seu contrato provado.

- `src/` — a biblioteca verificada. Os módulos do topo tratam do catálogo de otimizações, do plano
  (`orquestrador`), do portão que compara partidas antes e depois, do relatório técnico (`report`), das decisões do
  painel (`monitor`, `telemetry`) e do texto (`texto`); `src/windows/` traz as análises de cada parte do Windows
  (inicialização, BIOS, navegadores, conflitos, limpeza, configuração do jogo e outras).
- `app/` — o que fica em volta: leitura de arquivos e contadores do sistema, execução de comandos, relógio, e as
  contas em ponto flutuante sobre o que foi medido. Entrega à biblioteca valores simples e usa as decisões dela.
- `tests/` — os testes, que chamam a biblioteca como qualquer usuário.

As chamadas a crates de fora (`serde_json`, `chrono`) ficam em poucas funções de confiança, cada uma com um
comentário que diz o que o contrato afirma da função chamada.
