pub mod acessibilidade;
pub mod achados;
pub mod afinidade;
pub mod anticheat;
pub mod apo;
pub mod bios;
pub mod bloatware;
pub mod boot;
pub mod bottleneck;
pub mod cabecalho;
pub mod browsers;
pub mod catalog;
pub mod causas;
pub mod citizenfx;
pub mod cleanup;
pub mod cbslog;
pub mod configjogo;
pub mod conflicts;
pub mod conflitos;
pub mod contadousuario;
