//! Regras do Otimiza: o que cada diagnóstico conclui a partir do que foi lido na máquina.

pub mod medida;
pub mod monitor;
pub mod mouse;
pub mod nucleos;
pub mod optimizer;
pub mod ordem;
pub mod orquestrador;
pub mod portao;
pub mod preferences;
pub mod programas;
pub mod regressao;
pub mod report;
pub mod repeticoes;
pub mod safety;
pub mod streaming;
pub mod telemetry;
pub mod texto;
pub mod transacao;
pub mod vram;
pub mod windows;
