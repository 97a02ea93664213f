//! O formato de toda medição do produto: valor opcional, unidade, origem, qualidade e motivo. O catálogo diz o
//! que a plataforma se propõe a olhar, e uma coleta nasce com todo ele em UNKNOWN.

use vstd::prelude::*;
use crate::texto::{decimal, push_decimal, string_of};

verus! {

broadcast use vstd::string::group_string_axioms;

/// Versão desconhecida é motivo para a tela não desenhar, não para adivinhar.
pub const SCHEMA_VERSION: u32 = 1;

pub const SEM_PROVEDOR: &'static str = "sem provedor de medição nesta versão";

#[derive(Debug, Clone, Copy, PartialEq, Eq, Structural)]
pub enum Quality {
    Measured,
    Estimated,
    Unknown,
}

/// Tipo, não texto: milissegundo comparado com segundo não dá erro, dá conclusão errada.
#[derive(Debug, Clone, Copy, PartialEq, Eq, Structural)]
pub enum Unit {
    Percent,
    Megahertz,
    Hertz,
    Celsius,
    Gigabytes,
    MegabytesPerSecond,
    Milliseconds,
    Fps,
    Watts,
    Hours,
    Count,
    /// Para "está em throttling?" poder ser UNKNOWN: um `bool` obrigaria a responder sem medir.
    Boolean,
}

/// No contrato, e não recalculado pela tela, para painel e backend não discordarem.
#[derive(Debug, Clone, Copy, Default, PartialEq, Eq, Structural)]
pub struct Summary {
    pub measured: usize,
    pub estimated: usize,
    pub unknown: usize,
    pub total: usize,
}

/// Quantas medidas, estimadas e desconhecidas há numa coleta.
pub open spec fn conta(qs: Seq<Quality>) -> (nat, nat, nat)
    decreases qs.len(),
{
    if qs.len() == 0 {
        (0, 0, 0)
    } else {
        let (m, e, u) = conta(qs.drop_last());
        match qs.last() {
            Quality::Measured => (m + 1, e, u),
            Quality::Estimated => (m, e + 1, u),
            Quality::Unknown => (m, e, u + 1),
        }
    }
}

proof fn lemma_conta_total(qs: Seq<Quality>)
    ensures
        conta(qs).0 + conta(qs).1 + conta(qs).2 == qs.len(),
    decreases qs.len(),
{
    if qs.len() > 0 {
        lemma_conta_total(qs.drop_last());
    }
}

/// O resumo de uma coleta a partir da qualidade de cada métrica.
pub fn resumir(qualidades: &[Quality]) -> (r: Summary)
    ensures
        r.measured == conta(qualidades@).0,
        r.estimated == conta(qualidades@).1,
        r.unknown == conta(qualidades@).2,
        r.total == qualidades@.len(),
{
    let mut r = Summary { measured: 0, estimated: 0, unknown: 0, total: 0 };
    let mut i: usize = 0;
    while i < qualidades.len()
        invariant
            0 <= i <= qualidades@.len(),
            r.measured == conta(qualidades@.take(i as int)).0,
            r.estimated == conta(qualidades@.take(i as int)).1,
            r.unknown == conta(qualidades@.take(i as int)).2,
            r.total == i,
        decreases qualidades@.len() - i,
    {
        proof {
            assert(qualidades@.take(i + 1).drop_last() =~= qualidades@.take(i as int));
            lemma_conta_total(qualidades@.take(i as int));
        }
        match qualidades[i] {
            Quality::Measured => r.measured = r.measured + 1,
            Quality::Estimated => r.estimated = r.estimated + 1,
            Quality::Unknown => r.unknown = r.unknown + 1,
        }
        r.total = r.total + 1;
        i = i + 1;
    }
    assert(qualidades@.take(i as int) =~= qualidades@);
    r
}

/// As três contagens somam o total: nenhuma métrica fica fora do resumo.
pub proof fn lei_resumo_fecha(qs: Seq<Quality>)
    ensures
        conta(qs).0 + conta(qs).1 + conta(qs).2 == qs.len(),
{
    lemma_conta_total(qs);
}

pub open spec fn spec_id_do_nucleo(indice: nat) -> Seq<char> {
    "cpu.core."@ + decimal(indice) + ".usage"@
}

pub fn id_do_nucleo(indice: usize) -> (r: String)
    ensures
        r@ == spec_id_do_nucleo(indice as nat),
{
    let mut v: Vec<char> = Vec::new();
    push_decimal(&mut v, indice as u64);
    let mut r = "cpu.core.".to_string();
    r.append(string_of(v.as_slice()).as_str());
    r.append(".usage");
    r
}

/// O catálogo de métricas: o id e a unidade de cada uma.
pub open spec fn spec_catalogo() -> Seq<(Seq<char>, Unit)> {
    seq![
        ("fps.rendered"@, Unit::Fps),
        ("fps.generated"@, Unit::Fps),
        ("fps.displayed"@, Unit::Fps),
        ("fps.average"@, Unit::Fps),
        ("fps.low_1pct"@, Unit::Fps),
        ("fps.low_01pct"@, Unit::Fps),
        ("frametime.mean"@, Unit::Milliseconds),
        ("frametime.p95"@, Unit::Milliseconds),
        ("frametime.p99"@, Unit::Milliseconds),
        ("frametime.stutters_per_minute"@, Unit::Count),
        ("match.cpu_usage"@, Unit::Percent),
        ("match.gpu_usage"@, Unit::Percent),
        ("frametime.stutters_with_disk"@, Unit::Percent),
        ("cpu.usage.overall"@, Unit::Percent),
        ("cpu.cores.logical"@, Unit::Count),
        ("cpu.clock.reported"@, Unit::Megahertz),
        ("cpu.clock.effective"@, Unit::Megahertz),
        ("cpu.temperature"@, Unit::Celsius),
        ("cpu.package_power"@, Unit::Watts),
        ("cpu.throttling.thermal"@, Unit::Boolean),
        ("cpu.throttling.power"@, Unit::Boolean),
        ("cpu.performance_limit"@, Unit::Percent),
        ("cpu.cores.parked"@, Unit::Count),
        ("ram.total"@, Unit::Gigabytes),
        ("ram.used"@, Unit::Gigabytes),
        ("ram.available"@, Unit::Gigabytes),
        ("ram.cached"@, Unit::Gigabytes),
        ("ram.usage"@, Unit::Percent),
        ("gpu.usage"@, Unit::Percent),
        ("gpu.clock"@, Unit::Megahertz),
        ("gpu.temperature"@, Unit::Celsius),
        ("gpu.power"@, Unit::Watts),
        ("vram.used"@, Unit::Gigabytes),
        ("vram.total"@, Unit::Gigabytes),
        ("vram.usage"@, Unit::Percent),
        ("vram.shared_used"@, Unit::Gigabytes),
        ("storage.read_rate"@, Unit::MegabytesPerSecond),
        ("storage.write_rate"@, Unit::MegabytesPerSecond),
        ("storage.busy"@, Unit::Percent),
        ("storage.latency"@, Unit::Milliseconds),
        ("storage.capacity_used"@, Unit::Percent),
        ("network.download_rate"@, Unit::MegabytesPerSecond),
        ("network.upload_rate"@, Unit::MegabytesPerSecond),
        ("network.latency"@, Unit::Milliseconds),
        ("network.jitter"@, Unit::Milliseconds),
        ("network.packet_loss"@, Unit::Percent),
        ("input.mouse_polling"@, Unit::Hertz),
        ("input.consistency"@, Unit::Percent),
        ("display.refresh"@, Unit::Hertz),
        ("input.polling_rate"@, Unit::Hertz),
        ("system.uptime"@, Unit::Hours),
    ]
}

/// A lista vem do que a plataforma se propõe a olhar, não do que mede hoje.
pub fn catalogo() -> (r: Vec<(&'static str, Unit)>)
    ensures
        r@.len() == spec_catalogo().len(),
        forall|i: int| 0 <= i < r@.len() ==> (#[trigger] r@[i]).0@ == spec_catalogo()[i].0 && r@[i].1
            == spec_catalogo()[i].1,
{
    vec![
        ("fps.rendered", Unit::Fps),
        ("fps.generated", Unit::Fps),
        ("fps.displayed", Unit::Fps),
        ("fps.average", Unit::Fps),
        ("fps.low_1pct", Unit::Fps),
        ("fps.low_01pct", Unit::Fps),
        ("frametime.mean", Unit::Milliseconds),
        ("frametime.p95", Unit::Milliseconds),
        ("frametime.p99", Unit::Milliseconds),
        ("frametime.stutters_per_minute", Unit::Count),
        ("match.cpu_usage", Unit::Percent),
        ("match.gpu_usage", Unit::Percent),
        ("frametime.stutters_with_disk", Unit::Percent),
        ("cpu.usage.overall", Unit::Percent),
        ("cpu.cores.logical", Unit::Count),
        ("cpu.clock.reported", Unit::Megahertz),
        ("cpu.clock.effective", Unit::Megahertz),
        ("cpu.temperature", Unit::Celsius),
        ("cpu.package_power", Unit::Watts),
        ("cpu.throttling.thermal", Unit::Boolean),
        ("cpu.throttling.power", Unit::Boolean),
        ("cpu.performance_limit", Unit::Percent),
        ("cpu.cores.parked", Unit::Count),
        ("ram.total", Unit::Gigabytes),
        ("ram.used", Unit::Gigabytes),
        ("ram.available", Unit::Gigabytes),
        ("ram.cached", Unit::Gigabytes),
        ("ram.usage", Unit::Percent),
        ("gpu.usage", Unit::Percent),
        ("gpu.clock", Unit::Megahertz),
        ("gpu.temperature", Unit::Celsius),
        ("gpu.power", Unit::Watts),
        ("vram.used", Unit::Gigabytes),
        ("vram.total", Unit::Gigabytes),
        ("vram.usage", Unit::Percent),
        ("vram.shared_used", Unit::Gigabytes),
        ("storage.read_rate", Unit::MegabytesPerSecond),
        ("storage.write_rate", Unit::MegabytesPerSecond),
        ("storage.busy", Unit::Percent),
        ("storage.latency", Unit::Milliseconds),
        ("storage.capacity_used", Unit::Percent),
        ("network.download_rate", Unit::MegabytesPerSecond),
        ("network.upload_rate", Unit::MegabytesPerSecond),
        ("network.latency", Unit::Milliseconds),
        ("network.jitter", Unit::Milliseconds),
        ("network.packet_loss", Unit::Percent),
        ("input.mouse_polling", Unit::Hertz),
        ("input.consistency", Unit::Percent),
        ("display.refresh", Unit::Hertz),
        ("input.polling_rate", Unit::Hertz),
        ("system.uptime", Unit::Hours),
    ]
}

} // verus!
