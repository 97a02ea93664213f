//! Limpeza de arquivos temporários: a única operação do catálogo que não se desfaz. Por isso só pastas de
//! temporários, nenhum arquivo travado derruba o lote, e o resultado diz quanto foi realmente liberado. Quem
//! percorre e apaga as pastas é o aplicativo; aqui estão as contas e as decisões sobre o que ele viu.

use vstd::prelude::*;
use crate::medida::{como_f64, decimos_de_gb, decimos_de_gb_exec, mb_arredondado, mb_arredondado_exec};
use crate::texto::{anexar, decimal, push_decimal, string_of};

verus! {

broadcast use vstd::string::group_string_axioms;

#[derive(Debug, Clone, Copy, PartialEq, Eq, Structural)]
pub struct CleanupResult {
    pub bytes_freed: u64,
    pub files_removed: usize,
    /// Arquivos em uso por programas abertos. Não é erro: são pulados.
    pub files_skipped: usize,
}

/// O que aconteceu com um item da pasta: removido (com o tamanho medido antes de apagar) ou pulado, porque
/// estava em uso ou não deu para ler.
#[derive(Debug, Clone, Copy, PartialEq, Eq, Structural)]
pub enum Desfecho {
    Removido(u64),
    Pulado,
}

pub open spec fn bytes_removidos(ds: Seq<Desfecho>) -> nat
    decreases ds.len(),
{
    if ds.len() == 0 {
        0
    } else {
        bytes_removidos(ds.drop_last()) + match ds.last() {
            Desfecho::Removido(b) => b as nat,
            Desfecho::Pulado => 0,
        }
    }
}

pub open spec fn quantos_removidos(ds: Seq<Desfecho>) -> nat
    decreases ds.len(),
{
    if ds.len() == 0 {
        0
    } else {
        quantos_removidos(ds.drop_last()) + if ds.last() is Removido {
            1nat
        } else {
            0
        }
    }
}

pub open spec fn quantos_pulados(ds: Seq<Desfecho>) -> nat
    decreases ds.len(),
{
    if ds.len() == 0 {
        0
    } else {
        quantos_pulados(ds.drop_last()) + if ds.last() is Pulado {
            1nat
        } else {
            0
        }
    }
}

proof fn lema_contagem(ds: Seq<Desfecho>)
    ensures
        quantos_removidos(ds) + quantos_pulados(ds) == ds.len(),
    decreases ds.len(),
{
    if ds.len() > 0 {
        lema_contagem(ds.drop_last());
    }
}

impl CleanupResult {
    pub fn vazio() -> (r: CleanupResult)
        ensures
            r.bytes_freed == 0,
            r.files_removed == 0,
            r.files_skipped == 0,
    {
        CleanupResult { bytes_freed: 0, files_removed: 0, files_skipped: 0 }
    }

    /// Soma o que saiu; o pulado só conta como pulado.
    pub fn anotar(&mut self, d: Desfecho)
        requires
            d matches Desfecho::Removido(b) ==> old(self).bytes_freed + b <= u64::MAX,
            d is Removido ==> old(self).files_removed < usize::MAX,
            d is Pulado ==> old(self).files_skipped < usize::MAX,
        ensures
            final(self).bytes_freed == old(self).bytes_freed + match d {
                Desfecho::Removido(b) => b as int,
                Desfecho::Pulado => 0,
            },
            final(self).files_removed == old(self).files_removed + if d is Removido {
                1int
            } else {
                0
            },
            final(self).files_skipped == old(self).files_skipped + if d is Pulado {
                1int
            } else {
                0
            },
    {
        match d {
            Desfecho::Removido(b) => {
                self.bytes_freed = self.bytes_freed + b;
                self.files_removed = self.files_removed + 1;
            },
            Desfecho::Pulado => {
                self.files_skipped = self.files_skipped + 1;
            },
        }
    }
}

/// O resultado de uma limpeza a partir do desfecho de cada item: arquivo travado é pulado e a limpeza segue,
/// e só o que saiu de fato entra no total liberado.
pub fn run(desfechos: &[Desfecho]) -> (r: CleanupResult)
    requires
        bytes_removidos(desfechos@) <= u64::MAX,
    ensures
        r.bytes_freed == bytes_removidos(desfechos@),
        r.files_removed == quantos_removidos(desfechos@),
        r.files_skipped == quantos_pulados(desfechos@),
        r.files_removed + r.files_skipped == desfechos.len(),
{
    let mut r = CleanupResult::vazio();
    let mut i: usize = 0;
    while i < desfechos.len()
        invariant
            i <= desfechos.len(),
            bytes_removidos(desfechos@) <= u64::MAX,
            r.bytes_freed == bytes_removidos(desfechos@.take(i as int)),
            r.files_removed == quantos_removidos(desfechos@.take(i as int)),
            r.files_skipped == quantos_pulados(desfechos@.take(i as int)),
        decreases desfechos.len() - i,
    {
        proof {
            let t = desfechos@.take(i + 1);
            assert(t.drop_last() =~= desfechos@.take(i as int));
            lema_contagem(desfechos@.take(i as int));
            lema_prefixo_nao_passa(desfechos@, i + 1);
        }
        r.anotar(desfechos[i]);
        i = i + 1;
    }
    proof {
        assert(desfechos@.take(desfechos.len() as int) =~= desfechos@);
        lema_contagem(desfechos@);
    }
    r
}

proof fn lema_prefixo_nao_passa(ds: Seq<Desfecho>, n: int)
    requires
        0 <= n <= ds.len(),
    ensures
        bytes_removidos(ds.take(n)) <= bytes_removidos(ds),
    decreases ds.len() - n,
{
    if n < ds.len() {
        lema_prefixo_nao_passa(ds, n + 1);
        assert(ds.take(n + 1).drop_last() =~= ds.take(n));
    } else {
        assert(ds.take(n) =~= ds);
    }
}

pub open spec fn soma(tamanhos: Seq<u64>) -> nat
    decreases tamanhos.len(),
{
    if tamanhos.len() == 0 {
        0
    } else {
        soma(tamanhos.drop_last()) + tamanhos.last() as nat
    }
}

proof fn lema_soma_prefixo(t: Seq<u64>, n: int)
    requires
        0 <= n <= t.len(),
    ensures
        soma(t.take(n)) <= soma(t),
    decreases t.len() - n,
{
    if n < t.len() {
        lema_soma_prefixo(t, n + 1);
        assert(t.take(n + 1).drop_last() =~= t.take(n));
    } else {
        assert(t.take(n) =~= t);
    }
}

/// Quanto dá para limpar, somando o tamanho de cada pasta de temporários lida, sem apagar nada.
pub fn estimate(tamanhos_das_pastas: &[u64]) -> (r: u64)
    requires
        soma(tamanhos_das_pastas@) <= u64::MAX,
    ensures
        r == soma(tamanhos_das_pastas@),
{
    let mut total: u64 = 0;
    let mut i: usize = 0;
    while i < tamanhos_das_pastas.len()
        invariant
            i <= tamanhos_das_pastas.len(),
            soma(tamanhos_das_pastas@) <= u64::MAX,
            total == soma(tamanhos_das_pastas@.take(i as int)),
        decreases tamanhos_das_pastas.len() - i,
    {
        proof {
            assert(tamanhos_das_pastas@.take(i + 1).drop_last() =~= tamanhos_das_pastas@.take(i as int));
            lema_soma_prefixo(tamanhos_das_pastas@, i + 1);
        }
        total = total + tamanhos_das_pastas[i];
        i = i + 1;
    }
    assert(tamanhos_das_pastas@.take(tamanhos_das_pastas.len() as int) =~= tamanhos_das_pastas@);
    total
}

/// O cache de instaladores de atualização: sem a pasta, nada a limpar.
pub fn estimate_update_cache(tamanho_da_pasta: Option<u64>) -> (r: u64)
    ensures
        r == match tamanho_da_pasta {
            Some(t) => t,
            None => 0,
        },
{
    match tamanho_da_pasta {
        Some(t) => t,
        None => 0,
    }
}

/// Onde está a pasta de instaladores de atualização (`SoftwareDistribution\Download`).
#[derive(Debug, Clone, Copy, PartialEq, Eq, Structural)]
pub enum PastaDeAtualizacoes {
    /// Não deu para saber onde o Windows está.
    SemPastaDoWindows,
    NaoExiste,
    Existe,
}

pub open spec fn sem_windows() -> Seq<char> {
    "Não foi possível localizar a pasta do Windows."@
}

/// Sem a pasta do Windows, erro; sem a pasta de instaladores, nada a limpar; com ela, o que a limpeza fez.
pub fn run_update_cache(pasta: PastaDeAtualizacoes, desfechos: &[Desfecho]) -> (r: Result<CleanupResult, String>)
    requires
        bytes_removidos(desfechos@) <= u64::MAX,
    ensures
        pasta == PastaDeAtualizacoes::SemPastaDoWindows <==> r is Err,
        r matches Err(e) ==> e@ == sem_windows(),
        pasta == PastaDeAtualizacoes::NaoExiste ==> r == Ok::<CleanupResult, String>(
            CleanupResult { bytes_freed: 0, files_removed: 0, files_skipped: 0 },
        ),
        pasta == PastaDeAtualizacoes::Existe ==> (r matches Ok(c) && c.bytes_freed == bytes_removidos(desfechos@)
            && c.files_removed == quantos_removidos(desfechos@) && c.files_skipped == quantos_pulados(desfechos@)),
{
    match pasta {
        PastaDeAtualizacoes::SemPastaDoWindows => Err("Não foi possível localizar a pasta do Windows.".to_string()),
        PastaDeAtualizacoes::NaoExiste => Ok(CleanupResult::vazio()),
        PastaDeAtualizacoes::Existe => Ok(run(desfechos)),
    }
}

/// Os serviços que param durante a limpeza do cache de atualizações, na ordem.
pub open spec fn servicos() -> Seq<&'static str> {
    seq!["wuauserv", "bits"]
}

/// Os serviços que estavam rodando, na ordem de `servicos()`.
pub open spec fn spec_mexidos(estavam_rodando: Seq<bool>) -> Seq<&'static str> {
    (if estavam_rodando[0] {
        seq!["wuauserv"]
    } else {
        seq![]
    }) + (if estavam_rodando[1] {
        seq!["bits"]
    } else {
        seq![]
    })
}

/// Param só os que estavam rodando, e são exatamente esses que voltam no fim: o que o usuário tinha desligado
/// continua desligado.
pub fn servicos_a_parar_e_religar(estavam_rodando: [bool; 2]) -> (r: Vec<&'static str>)
    ensures
        r@ == spec_mexidos(estavam_rodando@),
{
    let mut r: Vec<&'static str> = Vec::new();
    if estavam_rodando[0] {
        r.push("wuauserv");
    }
    if estavam_rodando[1] {
        r.push("bits");
    }
    assert(r@ =~= (if estavam_rodando[0] {
        seq!["wuauserv"]
    } else {
        seq![]
    }) + (if estavam_rodando[1] {
        seq!["bits"]
    } else {
        seq![]
    }));
    r
}

/// 2^30: o "GB" da tela.
pub open spec fn gib() -> nat {
    0x4000_0000
}

/// O tamanho para gente ler: a partir de 1 GB, com uma casa decimal; abaixo, MB sem casas.
pub open spec fn spec_format_size(bytes: nat) -> Seq<char> {
    if como_f64(bytes) >= gib() {
        decimal(decimos_de_gb(bytes) / 10) + "."@ + decimal(decimos_de_gb(bytes) % 10) + " GB"@
    } else {
        decimal(mb_arredondado(bytes)) + " MB"@
    }
}

pub fn format_size(bytes: u64) -> (r: String)
    ensures
        r@ == spec_format_size(bytes as nat),
{
    let v = crate::medida::como_f64_exec(bytes);
    let mut s: Vec<char> = Vec::new();
    if v >= 0x4000_0000 {
        let t = decimos_de_gb_exec(bytes);
        push_decimal(&mut s, t / 10);
        anexar(&mut s, ".");
        push_decimal(&mut s, t % 10);
        anexar(&mut s, " GB");
    } else {
        push_decimal(&mut s, mb_arredondado_exec(bytes));
        anexar(&mut s, " MB");
    }
    string_of(s.as_slice())
}


/// Um passo da limpeza do cache de atualizações.
#[derive(Debug, Clone, Copy)]
pub enum PassoDoCache {
    Parar(&'static str),
    Limpar,
    Religar(&'static str),
}

pub open spec fn paradas(ss: Seq<&'static str>) -> Seq<PassoDoCache> {
    ss.map_values(|s: &'static str| PassoDoCache::Parar(s))
}

pub open spec fn religadas(ss: Seq<&'static str>) -> Seq<PassoDoCache> {
    ss.map_values(|s: &'static str| PassoDoCache::Religar(s))
}

/// A ordem da limpeza do cache de atualizações: param os serviços que estavam rodando, a pasta é limpa, e os
/// mesmos serviços voltam, na mesma ordem. O que o usuário tinha desligado não é tocado.
pub fn passos_do_cache(estavam_rodando: [bool; 2]) -> (r: Vec<PassoDoCache>)
    ensures
        r@ == paradas(spec_mexidos(estavam_rodando@)) + seq![PassoDoCache::Limpar] + religadas(
            spec_mexidos(estavam_rodando@),
        ),
{
    let mexidos = servicos_a_parar_e_religar(estavam_rodando);
    let mut r: Vec<PassoDoCache> = Vec::new();
    let mut i: usize = 0;
    while i < mexidos.len()
        invariant
            i <= mexidos@.len(),
            mexidos@ == spec_mexidos(estavam_rodando@),
            r@ == paradas(mexidos@.take(i as int)),
        decreases mexidos@.len() - i,
    {
        r.push(PassoDoCache::Parar(mexidos[i]));
        assert(paradas(mexidos@.take(i + 1)) =~= paradas(mexidos@.take(i as int)).push(PassoDoCache::Parar(mexidos@[i as int])));
        i = i + 1;
    }
    assert(mexidos@.take(mexidos@.len() as int) =~= mexidos@);
    r.push(PassoDoCache::Limpar);
    let ghost antes = r@;
    let mut j: usize = 0;
    while j < mexidos.len()
        invariant
            j <= mexidos@.len(),
            mexidos@ == spec_mexidos(estavam_rodando@),
            r@ == antes + religadas(mexidos@.take(j as int)),
        decreases mexidos@.len() - j,
    {
        r.push(PassoDoCache::Religar(mexidos[j]));
        assert(religadas(mexidos@.take(j + 1)) =~= religadas(mexidos@.take(j as int)).push(PassoDoCache::Religar(mexidos@[j as int])));
        assert(r@ =~= antes + religadas(mexidos@.take(j + 1)));
        j = j + 1;
    }
    assert(mexidos@.take(mexidos@.len() as int) =~= mexidos@);
    assert(r@ =~= paradas(spec_mexidos(estavam_rodando@)) + seq![PassoDoCache::Limpar] + religadas(
        spec_mexidos(estavam_rodando@),
    ));
    r
}

/// Todo serviço parado volta depois da limpeza e nenhum outro é religado: o `k`-ésimo religado é o `k`-ésimo
/// parado, e a limpeza fica entre as paradas e as religadas.
pub proof fn lei_religa_o_que_parou(estavam_rodando: Seq<bool>)
    requires
        estavam_rodando.len() == 2,
    ensures
        ({
            let m = spec_mexidos(estavam_rodando);
            let p = paradas(m) + seq![PassoDoCache::Limpar] + religadas(m);
            &&& p.len() == 2 * m.len() + 1
            &&& p[m.len() as int] == PassoDoCache::Limpar
            &&& forall|k: int| 0 <= k < m.len() ==> p[k] == PassoDoCache::Parar(m[k]) && #[trigger] p[m.len() + 1 + k]
                == PassoDoCache::Religar(m[k])
        }),
{
}

} // verus!
