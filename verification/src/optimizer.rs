//! O vocabulário de cada otimização: categoria, ganho esperado, o risco de custar quadros e o resultado de cada
//! passo aplicado.

use vstd::prelude::*;

verus! {

broadcast use vstd::string::group_string_axioms;

#[derive(Debug, Clone, Copy, PartialEq, Eq, Structural)]
pub enum Category {
    System,
    Gaming,
    Network,
    Startup,
    Privacy,
}

#[derive(Debug, Clone, Copy, PartialEq, Eq, Structural)]
pub enum ExpectedGain {
    Measurable,
    Situational,
    Responsiveness,
    NoGain,
}

/// Quando um ajuste pode custar quadros, e em que caso.
#[derive(Debug, Clone, Copy, PartialEq, Eq)]
pub enum RiscoDeFps {
    Nenhum,
    PodeCustar { o_que: OQuePodeCustar, quando: &'static str },
}

#[derive(Debug, Clone, Copy, PartialEq, Eq, Structural)]
pub enum OQuePodeCustar {
    FpsMedio,
    UmPorCentoPior,
    Engasgo,
    Boost,
}

pub open spec fn spec_rotulo(o: OQuePodeCustar) -> Seq<char> {
    match o {
        OQuePodeCustar::FpsMedio => "pode custar FPS"@,
        OQuePodeCustar::UmPorCentoPior => "pode piorar os quadros ruins"@,
        OQuePodeCustar::Engasgo => "pode causar engasgo"@,
        OQuePodeCustar::Boost => "pode segurar o turbo do processador"@,
    }
}

impl OQuePodeCustar {
    pub fn rotulo(self) -> (r: &'static str)
        ensures
            r@ == spec_rotulo(self),
    {
        match self {
            OQuePodeCustar::FpsMedio => "pode custar FPS",
            OQuePodeCustar::UmPorCentoPior => "pode piorar os quadros ruins",
            OQuePodeCustar::Engasgo => "pode causar engasgo",
            OQuePodeCustar::Boost => "pode segurar o turbo do processador",
        }
    }
}

/// Cada coisa que pode ser custada tem uma frase própria para o cliente.
pub proof fn lei_rotulos_distintos(a: OQuePodeCustar, b: OQuePodeCustar)
    requires
        a != b,
    ensures
        spec_rotulo(a) != spec_rotulo(b),
{
    reveal_strlit("pode custar FPS");
    reveal_strlit("pode piorar os quadros ruins");
    reveal_strlit("pode causar engasgo");
    reveal_strlit("pode segurar o turbo do processador");
    assert(spec_rotulo(a).len() != spec_rotulo(b).len() || spec_rotulo(a)[4] != spec_rotulo(b)[4]
        || spec_rotulo(a)[12] != spec_rotulo(b)[12]);
}

impl RiscoDeFps {
    pub fn custa(o_que: OQuePodeCustar, quando: &'static str) -> (r: Self)
        ensures
            r == (RiscoDeFps::PodeCustar { o_que, quando }),
    {
        RiscoDeFps::PodeCustar { o_que, quando }
    }

    pub fn pode_custar(&self) -> (r: bool)
        ensures
            r == (*self is PodeCustar),
    {
        match self {
            RiscoDeFps::PodeCustar { .. } => true,
            RiscoDeFps::Nenhum => false,
        }
    }
}

/// O risco como a tela o mostra: com a frase do que pode ser custado.
#[derive(Debug, Clone, PartialEq)]
pub enum RiscoNaTela {
    Nenhum,
    PodeCustar { o_que: OQuePodeCustar, rotulo: String, quando: String },
}

/// `r` é o risco `risco` com a frase do que ele pode custar.
pub open spec fn mostra(risco: RiscoDeFps, r: RiscoNaTela) -> bool {
    match (risco, r) {
        (RiscoDeFps::Nenhum, RiscoNaTela::Nenhum) => true,
        (
            RiscoDeFps::PodeCustar { o_que, quando },
            RiscoNaTela::PodeCustar { o_que: o, rotulo, quando: q },
        ) => o == o_que && rotulo@ == spec_rotulo(o_que) && q@ == quando@,
        _ => false,
    }
}

impl RiscoNaTela {
    /// O risco do catálogo com a frase pronta para a tela.
    pub fn de(risco: &RiscoDeFps) -> (r: RiscoNaTela)
        ensures
            mostra(*risco, r),
    {
        if let RiscoDeFps::PodeCustar { o_que, quando } = risco {
            RiscoNaTela::PodeCustar {
                o_que: *o_que,
                rotulo: o_que.rotulo().to_string(),
                quando: (*quando).to_string(),
            }
        } else {
            RiscoNaTela::Nenhum
        }
    }
}

#[derive(Debug, Clone, Copy, PartialEq, Eq, Structural)]
pub enum OptimizationState {
    Applied,
    AlreadyOptimal,
    Available,
    Unavailable,
    Unknown,
}

#[derive(Debug, Clone)]
pub struct OptimizationInfo {
    pub id: String,
    pub name: String,
    pub description: String,
    pub honest_effect: String,
    pub category: Category,
    pub expected_gain: ExpectedGain,
    pub risco_de_fps: RiscoNaTela,
    pub requires_admin: bool,
    pub requires_restart: bool,
    pub reversible: bool,
    pub security_tradeoff: bool,
    pub recommended: bool,
    pub retirado: bool,
    pub expert: bool,
    pub condicao: Option<String>,
    pub state: OptimizationState,
    pub detail: Option<String>,
}

/// Cada passo de uma otimização, com o que havia antes e o que ficou.
#[derive(Debug, Clone, Default)]
pub struct ActionResult {
    pub name: String,
    pub status: ActionStatus,
    pub message: String,
    pub before_value: Option<String>,
    pub expected_value: Option<String>,
    pub after_value: Option<String>,
    pub exit_code: Option<i32>,
    pub stdout: String,
    pub stderr: String,
    pub duration_ms: u64,
    pub unsupported_reason: Option<String>,
}

#[derive(Debug, Clone, Copy, Default, PartialEq, Eq, Structural)]
pub enum ActionStatus {
    #[default]
    Verified,
    AlreadyOptimized,
    Unsupported,
    Failed,
    VerificationFailed,
    NotConfirmed,
    BlockedByPolicy,
    UserOrOemManaged,
    Skipped,
}

/// Os estados que não são falha: confirmados, já estavam certos, ou não se aplicam aqui.
pub open spec fn spec_deu_certo(s: ActionStatus) -> bool {
    match s {
        ActionStatus::Verified | ActionStatus::AlreadyOptimized | ActionStatus::Unsupported
        | ActionStatus::UserOrOemManaged | ActionStatus::NotConfirmed | ActionStatus::Skipped => true,
        ActionStatus::Failed | ActionStatus::VerificationFailed | ActionStatus::BlockedByPolicy => false,
    }
}

impl ActionStatus {
    pub fn deu_certo(&self) -> (r: bool)
        ensures
            r == spec_deu_certo(*self),
    {
        match self {
            ActionStatus::Verified | ActionStatus::AlreadyOptimized | ActionStatus::Unsupported
            | ActionStatus::UserOrOemManaged | ActionStatus::NotConfirmed | ActionStatus::Skipped => true,
            _ => false,
        }
    }
}

#[derive(Debug, Clone, Default)]
pub struct OptimizationOutcome {
    pub id: String,
    pub name: String,
    pub success: bool,
    pub applied: bool,
    pub message: String,
    pub requires_restart: bool,
    pub requires_logoff: bool,
    pub duration_ms: u64,
    pub changes_count: usize,
    pub changes: Vec<String>,
    pub actions: Vec<ActionResult>,
}

/// Um resultado que ainda não aplicou nada: sem sucesso, sem mudança, só a mensagem.
pub open spec fn resultado_vazio(o: OptimizationOutcome, id: Seq<char>, name: Seq<char>, message: Seq<char>) -> bool {
    &&& o.id@ == id
    &&& o.name@ == name
    &&& o.message@ == message
    &&& !o.success
    &&& !o.applied
    &&& !o.requires_restart
    &&& !o.requires_logoff
    &&& o.duration_ms == 0
    &&& o.changes_count == 0
    &&& o.changes@.len() == 0
    &&& o.actions@.len() == 0
}

impl OptimizationOutcome {
    pub fn novo(id: &str, name: &str, message: String) -> (r: Self)
        ensures
            resultado_vazio(r, id@, name@, message@),
    {
        OptimizationOutcome {
            id: id.to_string(),
            name: name.to_string(),
            success: false,
            applied: false,
            message,
            requires_restart: false,
            requires_logoff: false,
            duration_ms: 0,
            changes_count: 0,
            changes: Vec::new(),
            actions: Vec::new(),
        }
    }

    pub fn failed(id: &str, name: &str, error: String) -> (r: Self)
        ensures
            resultado_vazio(r, id@, name@, error@),
    {
        Self::novo(id, name, error)
    }
}

#[derive(Debug, Clone)]
pub struct BatchStep {
    pub index: usize,
    pub total: usize,
    pub name: String,
    pub stage: &'static str,
    pub message: String,
    pub changes: Vec<String>,
    pub success: bool,
}

} // verus!
