//! A configuração do jogo (GTA V / FiveM), no formato rígido que o próprio jogo grava: `<Chave value="..." />`.
//! A escrita mexe só entre as aspas da chave pedida, e chave que o arquivo não tem nunca é criada. `RefreshRate`
//! abaixo da taxa do monitor é corrigido em todo perfil, porque não muda como o jogo se parece.

use vstd::prelude::*;
use crate::ordem::textos;
use crate::texto::{
    anexar, chars_of, contains, decimal, find, first_occ, lemma_first_occ, lemma_primeira_existe, occurs_at, parse_u32, parse_u32_exec,
    push_decimal, same_chars, skip_chars, string_of, sub_chars, trim, trim_chars,
};

verus! {

broadcast use vstd::string::group_string_axioms;

/// O começo da chave no arquivo: `<Chave value="`.
pub open spec fn abertura(chave: Seq<char>) -> Seq<char> {
    "<"@ + chave + " value=\""@
}

pub open spec fn aspas() -> Seq<char> {
    seq!['"']
}

/// Onde começa o valor da chave (logo depois da primeira abertura), e onde ele termina (a aspa seguinte).
pub open spec fn limites(c: Seq<char>, chave: Seq<char>) -> Option<(int, int)> {
    let a = abertura(chave);
    if contains(c, a) {
        let ini = first_occ(c, a) + a.len();
        let resto = c.skip(ini);
        if contains(resto, aspas()) {
            Some((ini, ini + first_occ(resto, aspas())))
        } else {
            None
        }
    } else {
        None
    }
}

/// O valor da primeira ocorrência da chave.
pub open spec fn spec_valor(c: Seq<char>, chave: Seq<char>) -> Option<Seq<char>> {
    match limites(c, chave) {
        Some((ini, fim)) => Some(c.subrange(ini, fim)),
        None => None,
    }
}

/// O arquivo com o valor da chave trocado: só os caracteres entre as aspas mudam.
pub open spec fn spec_trocar(c: Seq<char>, chave: Seq<char>, novo: Seq<char>) -> Option<Seq<char>> {
    match limites(c, chave) {
        Some((ini, fim)) => Some(c.take(ini) + novo + c.skip(fim)),
        None => None,
    }
}

pub open spec fn opt_texto(o: Option<String>) -> Option<Seq<char>> {
    match o {
        Some(s) => Some(s@),
        None => None,
    }
}

proof fn lema_limites(c: Seq<char>, chave: Seq<char>)
    ensures
        limites(c, chave) matches Some((ini, fim)) ==> 0 <= ini <= fim < c.len() && c[fim] == '"'
            && forall|k: int| ini <= k < fim ==> c[k] != '"',
{
    let a = abertura(chave);
    if contains(c, a) {
        let p0 = choose|i: int| occurs_at(c, a, i);
        lemma_primeira_existe(c, a, p0);
        let p = first_occ(c, a);
        let ini = p + a.len();
        let resto = c.skip(ini);
        if contains(resto, aspas()) {
            let q0 = choose|i: int| occurs_at(resto, aspas(), i);
            lemma_primeira_existe(resto, aspas(), q0);
            let q = first_occ(resto, aspas());
            assert(resto.subrange(q, q + 1)[0] == resto[q]);
            assert forall|k: int| ini <= k < ini + q implies c[k] != '"' by {
                assert(!occurs_at(resto, aspas(), k - ini));
                assert(resto[k - ini] == c[k]);
                if c[k] == '"' {
                    assert(resto.subrange(k - ini, k - ini + 1) =~= aspas());
                }
            }
        }
    }
}

/// Os limites do valor, calculados.
fn limites_exec(c: &[char], chave: &str) -> (r: Option<(usize, usize)>)
    ensures
        match r {
            Some((ini, fim)) => limites(c@, chave@) == Some((ini as int, fim as int)),
            None => limites(c@, chave@) is None,
        },
{
    let mut a = chars_of("<");
    anexar(&mut a, chave);
    anexar(&mut a, " value=\"");
    let p = match find(c, a.as_slice()) {
        Some(p) => p,
        None => return None,
    };
    proof {
        lemma_first_occ(c@, a@, p as int);
    }
    let n = c.len();
    assert(occurs_at(c@, a@, p as int));
    assert(p + a@.len() <= n);
    let ini = p + a.len();
    let resto = skip_chars(c, ini);
    let aspa = vec!['"'];
    assert(aspa@ =~= aspas());
    let q = match find(resto.as_slice(), aspa.as_slice()) {
        Some(q) => q,
        None => return None,
    };
    proof {
        lemma_first_occ(resto@, aspas(), q as int);
    }
    assert(occurs_at(resto@, aspa@, q as int));
    assert(resto@.len() == n - ini);
    assert(q + ini < n);
    Some((ini, ini + q))
}

/// O valor da chave, num formato rígido que o jogo gera (sem biblioteca de XML).
pub fn valor(conteudo: &str, chave: &str) -> (r: Option<String>)
    ensures
        opt_texto(r) == spec_valor(conteudo@, chave@),
{
    let c = chars_of(conteudo);
    match limites_exec(c.as_slice(), chave) {
        Some((ini, fim)) => {
            proof {
                lema_limites(c@, chave@);
            }
            let v = sub_chars(c.as_slice(), ini, fim);
            Some(string_of(v.as_slice()))
        },
        None => None,
    }
}

/// Troca só os caracteres entre as aspas daquela chave: reescrever o arquivo perderia comentários, ordem,
/// indentação e chaves de versões futuras. `None` sem a chave: inventar a linha escreveria o que o jogo talvez
/// nem leia.
pub fn trocar(conteudo: &str, chave: &str, novo: &str) -> (r: Option<String>)
    ensures
        opt_texto(r) == spec_trocar(conteudo@, chave@, novo@),
{
    let c = chars_of(conteudo);
    match limites_exec(c.as_slice(), chave) {
        Some((ini, fim)) => {
            proof {
                lema_limites(c@, chave@);
            }
            let mut saida = sub_chars(c.as_slice(), 0, ini);
            anexar(&mut saida, novo);
            let mut depois = skip_chars(c.as_slice(), fim);
            saida.append(&mut depois);
            assert(c@.subrange(0, ini as int) =~= c@.take(ini as int));
            Some(string_of(saida.as_slice()))
        },
        None => None,
    }
}

/// Trocar o que vem depois da abertura não muda onde a abertura aparece primeiro.
proof fn lema_abertura_fica(c: Seq<char>, a: Seq<char>, p: int, t: Seq<char>)
    requires
        occurs_at(c, a, p),
        forall|j: int| 0 <= j < p ==> !occurs_at(c, a, j),
        t.len() >= p + a.len(),
        t.subrange(0, p + a.len()) == c.subrange(0, p + a.len()),
    ensures
        occurs_at(t, a, p),
        forall|j: int| 0 <= j < p ==> !occurs_at(t, a, j),
{
    assert(t.subrange(p, p + a.len()) =~= c.subrange(p, p + a.len())) by {
        assert forall|k: int| 0 <= k < a.len() implies #[trigger] t.subrange(p, p + a.len())[k] == c.subrange(p, p + a.len())[k] by {
            assert(t[p + k] == t.subrange(0, p + a.len())[p + k]);
            assert(c[p + k] == c.subrange(0, p + a.len())[p + k]);
        }
    }
    assert forall|j: int| 0 <= j < p implies !occurs_at(t, a, j) by {
        assert(!occurs_at(c, a, j));
        assert(t.subrange(j, j + a.len()) =~= c.subrange(j, j + a.len())) by {
            assert forall|k: int| 0 <= k < a.len() implies #[trigger] t.subrange(j, j + a.len())[k] == c.subrange(j, j + a.len())[k] by {
                assert(t[j + k] == t.subrange(0, p + a.len())[j + k]);
                assert(c[j + k] == c.subrange(0, p + a.len())[j + k]);
            }
        }
    }
}

/// Num valor sem aspas seguido de uma aspa, a primeira aspa é a que vem logo depois do valor.
proof fn lema_aspa_depois(novo: Seq<char>, resto: Seq<char>)
    requires
        !novo.contains('"'),
        resto.len() > novo.len(),
        resto.subrange(0, novo.len() as int) == novo,
        resto[novo.len() as int] == '"',
    ensures
        occurs_at(resto, aspas(), novo.len() as int),
        forall|j: int| 0 <= j < novo.len() ==> !occurs_at(resto, aspas(), j),
{
    let n = novo.len() as int;
    assert(resto.subrange(n, n + 1) =~= aspas());
    assert forall|j: int| 0 <= j < n implies !occurs_at(resto, aspas(), j) by {
        assert(resto[j] == resto.subrange(0, n)[j]);
        if occurs_at(resto, aspas(), j) {
            assert(resto.subrange(j, j + 1)[0] == resto[j]);
            assert(novo[j] == '"');
            assert(novo.contains(novo[j]));
        }
    }
}

/// Os limites, quando se sabe onde está a primeira abertura e a primeira aspa depois dela.
proof fn lema_limites_em(c: Seq<char>, chave: Seq<char>, p: int, q: int)
    requires
        occurs_at(c, abertura(chave), p),
        forall|j: int| 0 <= j < p ==> !occurs_at(c, abertura(chave), j),
        occurs_at(c.skip(p + abertura(chave).len()), aspas(), q),
        forall|j: int| 0 <= j < q ==> !#[trigger] occurs_at(c.skip(p + abertura(chave).len()), aspas(), j),
    ensures
        limites(c, chave) == Some((p + abertura(chave).len(), p + abertura(chave).len() + q)),
{
    let a = abertura(chave);
    lemma_first_occ(c, a, p);
    lemma_first_occ(c.skip(p + a.len()), aspas(), q);
}

/// O que se escreve com `trocar` é o que `valor` lê depois, desde que o valor novo não tenha aspas.
pub proof fn lei_le_o_que_trocou(c: Seq<char>, chave: Seq<char>, novo: Seq<char>)
    requires
        spec_trocar(c, chave, novo) is Some,
        !novo.contains('"'),
    ensures
        spec_valor(spec_trocar(c, chave, novo)->0, chave) == Some(novo),
{
    let a = abertura(chave);
    let p0 = choose|i: int| occurs_at(c, a, i);
    lemma_primeira_existe(c, a, p0);
    let p = first_occ(c, a);
    let ini = p + a.len();
    let resto_c = c.skip(ini);
    let q0 = choose|i: int| occurs_at(resto_c, aspas(), i);
    lemma_primeira_existe(resto_c, aspas(), q0);
    let q = first_occ(resto_c, aspas());
    lema_limites_em(c, chave, p, q);
    let fim = ini + q;
    lema_limites(c, chave);
    let t = c.take(ini) + novo + c.skip(fim);
    assert(spec_trocar(c, chave, novo)->0 == t);
    assert(t.subrange(0, ini) =~= c.subrange(0, ini));
    lema_abertura_fica(c, a, p, t);
    let resto = t.skip(ini);
    let n = novo.len() as int;
    assert(resto.subrange(0, n) =~= novo);
    assert(resto[n] == c[fim]);
    lema_aspa_depois(novo, resto);
    lema_limites_em(t, chave, p, n);
    assert(t.subrange(ini, ini + n) =~= novo);
}

/// A taxa que o arquivo pede e a do monitor, quando o arquivo pede MENOS: só sobe, porque se o arquivo pede mais,
/// quem pode estar errada é a nossa leitura do monitor.
pub open spec fn spec_taxa_a_corrigir(c: Seq<char>, hz_do_monitor: u32) -> Option<(Seq<char>, u32)> {
    match spec_valor(c, "RefreshRate"@) {
        Some(atual) => match parse_u32(trim(atual)) {
            Some(n) => if n < hz_do_monitor {
                Some((atual, hz_do_monitor))
            } else {
                None
            },
            None => None,
        },
        None => None,
    }
}

pub fn taxa_a_corrigir_com(conteudo: &str, hz_do_monitor: u32) -> (r: Option<(String, u32)>)
    ensures
        match r {
            Some((atual, alvo)) => spec_taxa_a_corrigir(conteudo@, hz_do_monitor) == Some((atual@, alvo)),
            None => spec_taxa_a_corrigir(conteudo@, hz_do_monitor) is None,
        },
{
    let atual = match valor(conteudo, "RefreshRate") {
        Some(a) => a,
        None => return None,
    };
    let ac = chars_of(atual.as_str());
    let limpo = trim_chars(ac.as_slice());
    let numero = match parse_u32_exec(limpo.as_slice()) {
        Some(n) => n,
        None => return None,
    };
    if numero >= hz_do_monitor {
        return None;
    }
    Some((atual, hz_do_monitor))
}

/// Ordem pelo custo real, não pelo menu.
#[derive(Debug, Clone, Copy, PartialEq, Eq, Structural)]
pub enum Perfil {
    /// Preço visual zero, e costuma ser o maior ganho.
    SemTeto,
    Equilibrado,
    /// "Máximo de FPS" na tela; o nome interno fica para o histórico continuar desfazendo.
    Competitivo,
}

/// Uma chave, o valor que o perfil escreve, e o que se perde visualmente (vazio quando nada).
#[derive(Debug, Clone, Copy, PartialEq, Eq)]
pub struct Mudanca {
    pub chave: &'static str,
    pub valor: &'static str,
    pub custo: &'static str,
}

/// Um teto escrito num arquivo, não da placa: tirá-lo devolve na hora o que a máquina já entregava.
pub open spec fn sem_teto() -> Seq<Mudanca> {
    seq![
        Mudanca { chave: "VSync", valor: "0", custo: "" },
        Mudanca { chave: "VSyncMode", valor: "0", custo: "" },
        Mudanca { chave: "FPSLimit", valor: "0", custo: "" },
        Mudanca { chave: "MaxFPS", valor: "0", custo: "" },
    ]
}

fn lista_sem_teto() -> (r: Vec<Mudanca>)
    ensures
        r@ == sem_teto(),
{
    let r = vec![
        Mudanca { chave: "VSync", valor: "0", custo: "" },
        Mudanca { chave: "VSyncMode", valor: "0", custo: "" },
        Mudanca { chave: "FPSLimit", valor: "0", custo: "" },
        Mudanca { chave: "MaxFPS", valor: "0", custo: "" },
    ];
    assert(r@ =~= sem_teto());
    r
}

/// Caros e pouco visíveis; chave que não existe é ignorada.
pub open spec fn caros_e_pouco_visiveis() -> Seq<Mudanca> {
    seq![
        Mudanca { chave: "MSAA", valor: "0", custo: "serrilhado nas bordas" },
        Mudanca { chave: "ReflectionMSAA", valor: "0", custo: "reflexos um pouco mais serrilhados" },
        Mudanca { chave: "Tessellation", valor: "0", custo: "relevo em algumas superfícies" },
        Mudanca { chave: "SSAO", valor: "0", custo: "sombra suave nos cantos" },
        Mudanca { chave: "MotionBlurStrength", valor: "0.000000", custo: "sem desfoque de movimento" },
        Mudanca { chave: "DoF", valor: "false", custo: "fundo sempre nítido" },
        Mudanca { chave: "HdStreamingInFlight", valor: "false", custo: "" },
    ]
}

fn lista_caros_e_pouco_visiveis() -> (r: Vec<Mudanca>)
    ensures
        r@ == caros_e_pouco_visiveis(),
{
    let r = vec![
        Mudanca { chave: "MSAA", valor: "0", custo: "serrilhado nas bordas" },
        Mudanca { chave: "ReflectionMSAA", valor: "0", custo: "reflexos um pouco mais serrilhados" },
        Mudanca { chave: "Tessellation", valor: "0", custo: "relevo em algumas superfícies" },
        Mudanca { chave: "SSAO", valor: "0", custo: "sombra suave nos cantos" },
        Mudanca { chave: "MotionBlurStrength", valor: "0.000000", custo: "sem desfoque de movimento" },
        Mudanca { chave: "DoF", valor: "false", custo: "fundo sempre nítido" },
        Mudanca { chave: "HdStreamingInFlight", valor: "false", custo: "" },
    ];
    assert(r@ =~= caros_e_pouco_visiveis());
    r
}

/// Tela cheia exclusiva: alternar de janela fica mais lento. `0` tela cheia, `1` janela, `2` sem borda.
pub open spec fn tela_cheia() -> Seq<Mudanca> {
    seq![
        Mudanca { chave: "Windowed", valor: "0", custo: "alternar para outra janela fica mais lento" },
    ]
}

fn lista_tela_cheia() -> (r: Vec<Mudanca>)
    ensures
        r@ == tela_cheia(),
{
    let r = vec![
        Mudanca { chave: "Windowed", valor: "0", custo: "alternar para outra janela fica mais lento" },
    ];
    assert(r@ =~= tela_cheia());
    r
}

/// Só quando a memória de vídeo não cabe: textura quase não custa quadro até transbordar.
pub open spec fn textura_quando_a_vram_nao_cabe() -> Seq<Mudanca> {
    seq![
        Mudanca { chave: "TextureQuality", valor: "0", custo: "texturas menos detalhadas de perto" },
    ]
}

fn lista_textura_quando_a_vram_nao_cabe() -> (r: Vec<Mudanca>)
    ensures
        r@ == textura_quando_a_vram_nao_cabe(),
{
    let r = vec![
        Mudanca { chave: "TextureQuality", valor: "0", custo: "texturas menos detalhadas de perto" },
    ];
    assert(r@ =~= textura_quando_a_vram_nao_cabe());
    r
}

/// O resto que custa, incluindo o que alivia o processador (distância de detalhe).
pub open spec fn o_resto_que_custa() -> Seq<Mudanca> {
    seq![
        Mudanca { chave: "ReflectionQuality", valor: "0", custo: "reflexos mais simples" },
        Mudanca { chave: "ShadowQuality", valor: "0", custo: "sombras mais duras" },
        Mudanca { chave: "WaterQuality", valor: "0", custo: "água mais simples" },
        Mudanca { chave: "ParticleQuality", valor: "0", custo: "efeitos mais simples" },
        Mudanca { chave: "PostFX", valor: "0", custo: "menos brilho e desfoque" },
        Mudanca { chave: "GrassQuality", valor: "0", custo: "grama mais rala e mais curta" },
        Mudanca { chave: "ShaderQuality", valor: "0", custo: "materiais menos detalhados" },
        Mudanca { chave: "LodScale", valor: "0.000000", custo: "detalhe some mais perto" },
        Mudanca { chave: "PedLodBias", valor: "0.000000", custo: "pessoas distantes mais simples" },
        Mudanca { chave: "VehicleLodBias", valor: "0.000000", custo: "carros distantes mais simples" },
    ]
}

fn lista_o_resto_que_custa() -> (r: Vec<Mudanca>)
    ensures
        r@ == o_resto_que_custa(),
{
    let r = vec![
        Mudanca { chave: "ReflectionQuality", valor: "0", custo: "reflexos mais simples" },
        Mudanca { chave: "ShadowQuality", valor: "0", custo: "sombras mais duras" },
        Mudanca { chave: "WaterQuality", valor: "0", custo: "água mais simples" },
        Mudanca { chave: "ParticleQuality", valor: "0", custo: "efeitos mais simples" },
        Mudanca { chave: "PostFX", valor: "0", custo: "menos brilho e desfoque" },
        Mudanca { chave: "GrassQuality", valor: "0", custo: "grama mais rala e mais curta" },
        Mudanca { chave: "ShaderQuality", valor: "0", custo: "materiais menos detalhados" },
        Mudanca { chave: "LodScale", valor: "0.000000", custo: "detalhe some mais perto" },
        Mudanca { chave: "PedLodBias", valor: "0.000000", custo: "pessoas distantes mais simples" },
        Mudanca { chave: "VehicleLodBias", valor: "0.000000", custo: "carros distantes mais simples" },
    ];
    assert(r@ =~= o_resto_que_custa());
    r
}

/// O que cada perfil muda: sempre tirar o teto; no equilibrado e no competitivo, o caro e pouco visível e a tela
/// cheia; no competitivo, o resto que custa, e a textura só quando a memória de vídeo não cabe (`vram_curta`).
pub open spec fn spec_mudancas(perfil: Perfil, vram_curta: bool) -> Seq<Mudanca> {
    sem_teto() + (if perfil != Perfil::SemTeto {
        caros_e_pouco_visiveis() + tela_cheia()
    } else {
        seq![]
    }) + (if perfil == Perfil::Competitivo {
        o_resto_que_custa() + if vram_curta {
            textura_quando_a_vram_nao_cabe()
        } else {
            seq![]
        }
    } else {
        seq![]
    })
}

impl Perfil {
    /// `vram_curta` diz se a memória de vídeo é menor que 6 GB: decide a textura. Sem saber, não mexe nela.
    pub fn mudancas_para(self, vram_curta: bool) -> (r: Vec<Mudanca>)
        ensures
            r@ == spec_mudancas(self, vram_curta),
    {
        let mut lista = lista_sem_teto();
        if self != Perfil::SemTeto {
            let mut a = lista_caros_e_pouco_visiveis();
            let mut b = lista_tela_cheia();
            lista.append(&mut a);
            lista.append(&mut b);
        }
        if self == Perfil::Competitivo {
            let mut c = lista_o_resto_que_custa();
            lista.append(&mut c);
            if vram_curta {
                let mut d = lista_textura_quando_a_vram_nao_cabe();
                lista.append(&mut d);
            }
        }
        assert(lista@ =~= spec_mudancas(self, vram_curta));
        lista
    }
}

/// A mudança que um item do perfil faria no texto: só chaves que EXISTEM e diferem.
pub open spec fn muda(c: Seq<char>, m: Mudanca) -> Option<Seq<char>> {
    match spec_valor(c, m.chave@) {
        Some(atual) => if trim(atual) != m.valor@ {
            Some(atual)
        } else {
            None
        },
        None => None,
    }
}

pub type Previsao = (Seq<char>, Seq<char>, Seq<char>, Seq<char>);

/// O que o perfil mudaria, item a item, sobre o mesmo texto.
pub open spec fn previsoes(c: Seq<char>, ms: Seq<Mudanca>) -> Seq<Previsao>
    decreases ms.len(),
{
    if ms.len() == 0 {
        seq![]
    } else {
        let antes = previsoes(c, ms.drop_last());
        let m = ms.last();
        match muda(c, m) {
            Some(atual) => antes.push((m.chave@, atual, m.valor@, m.custo@)),
            None => antes,
        }
    }
}

pub open spec fn spec_prever(c: Seq<char>, perfil: Perfil, hz_do_monitor: Option<u32>, vram_curta: bool) -> Seq<Previsao> {
    (match hz_do_monitor {
        Some(h) => match spec_taxa_a_corrigir(c, h) {
            Some((atual, alvo)) => seq![("RefreshRate"@, atual, decimal(alvo as nat), ""@)],
            None => seq![],
        },
        None => seq![],
    }) + previsoes(c, spec_mudancas(perfil, vram_curta))
}

pub open spec fn previsoes_vistas(v: Seq<(String, String, String, &'static str)>) -> Seq<Previsao> {
    v.map_values(|p: (String, String, String, &'static str)| (p.0@, p.1@, p.2@, p.3@))
}

fn muda_exec(c: &str, m: Mudanca) -> (r: Option<String>)
    ensures
        opt_texto(r) == muda(c@, m),
{
    let atual = match valor(c, m.chave) {
        Some(a) => a,
        None => return None,
    };
    let ac = chars_of(atual.as_str());
    let limpo = trim_chars(ac.as_slice());
    let alvo = chars_of(m.valor);
    if same_chars(limpo.as_slice(), alvo.as_slice()) {
        None
    } else {
        Some(atual)
    }
}

/// Só chaves que EXISTEM e diferem: listar as que já estão certas prometeria ganho que não vem. A taxa do monitor
/// entra em todo perfil (`hz_do_monitor` é a maior taxa lida, `None` sem monitor legível).
pub fn prever(conteudo: &str, perfil: Perfil, hz_do_monitor: Option<u32>, vram_curta: bool) -> (r: Vec<(String, String, String, &'static str)>)
    ensures
        previsoes_vistas(r@) == spec_prever(conteudo@, perfil, hz_do_monitor, vram_curta),
{
    let mut previsto: Vec<(String, String, String, &'static str)> = Vec::new();
    match hz_do_monitor {
        Some(h) => match taxa_a_corrigir_com(conteudo, h) {
            Some((atual, alvo)) => {
                previsto.push(("RefreshRate".to_string(), atual, crate::texto::decimal_string(alvo as u64), ""));
            },
            None => {},
        },
        None => {},
    }
    let ghost inicio = previsoes_vistas(previsto@);
    let ms = perfil.mudancas_para(vram_curta);
    let mut i: usize = 0;
    while i < ms.len()
        invariant
            0 <= i <= ms@.len(),
            ms@ == spec_mudancas(perfil, vram_curta),
            previsoes_vistas(previsto@) == inicio + previsoes(conteudo@, ms@.take(i as int)),
        decreases ms@.len() - i,
    {
        assert(ms@.take(i + 1).drop_last() =~= ms@.take(i as int));
        assert(ms@.take(i + 1).last() == ms@[i as int]);
        let m = ms[i];
        match muda_exec(conteudo, m) {
            Some(atual) => {
                let ghost velho = previsoes_vistas(previsto@);
                let ghost a = atual@;
                previsto.push((m.chave.to_string(), atual, m.valor.to_string(), m.custo));
                assert(previsoes_vistas(previsto@) =~= velho.push((m.chave@, a, m.valor@, m.custo@)));
            },
            None => {},
        }
        i = i + 1;
    }
    assert(ms@.take(ms@.len() as int) =~= ms@);
    previsto
}

/// Um passo da aplicação: troca a chave se ela existe e difere, e conta o que mudou.
pub open spec fn aplicar_um(estado: (Seq<char>, Seq<Seq<char>>), m: Mudanca) -> (Seq<char>, Seq<Seq<char>>) {
    match muda(estado.0, m) {
        Some(atual) => match spec_trocar(estado.0, m.chave@, m.valor@) {
            Some(novo) => (novo, estado.1.push(m.chave@ + ": "@ + atual + " → "@ + m.valor@)),
            None => estado,
        },
        None => estado,
    }
}

pub open spec fn aplicar_todos(estado: (Seq<char>, Seq<Seq<char>>), ms: Seq<Mudanca>) -> (Seq<char>, Seq<Seq<char>>)
    decreases ms.len(),
{
    if ms.len() == 0 {
        estado
    } else {
        aplicar_um(aplicar_todos(estado, ms.drop_last()), ms.last())
    }
}

/// A taxa primeiro, corrigida para a do monitor quando o arquivo pede menos.
pub open spec fn com_a_taxa(c: Seq<char>, hz_do_monitor: Option<u32>) -> (Seq<char>, Seq<Seq<char>>) {
    match hz_do_monitor {
        Some(h) => match spec_taxa_a_corrigir(c, h) {
            Some((atual, alvo)) => match spec_trocar(c, "RefreshRate"@, decimal(alvo as nat)) {
                Some(novo) => (novo, seq!["RefreshRate: "@ + atual + " → "@ + decimal(alvo as nat)]),
                None => (c, seq![]),
            },
            None => (c, seq![]),
        },
        None => (c, seq![]),
    }
}

pub open spec fn spec_aplicar(c: Seq<char>, perfil: Perfil, vram_curta: bool, hz_do_monitor: Option<u32>) -> (Seq<char>, Seq<Seq<char>>) {
    aplicar_todos(com_a_taxa(c, hz_do_monitor), spec_mudancas(perfil, vram_curta))
}

/// Um passo: troca a chave se ela existe e difere, e anota "chave: antes → depois".
fn aplicar_passo(saida: String, mexidas: &mut Vec<String>, m: Mudanca) -> (r: String)
    ensures
        (r@, textos(final(mexidas)@)) == aplicar_um((saida@, textos(old(mexidas)@)), m),
{
    match muda_exec(saida.as_str(), m) {
        Some(atual) => match trocar(saida.as_str(), m.chave, m.valor) {
            Some(novo) => {
                let mut linha = chars_of(m.chave);
                anexar(&mut linha, ": ");
                anexar(&mut linha, atual.as_str());
                anexar(&mut linha, " → ");
                anexar(&mut linha, m.valor);
                let ghost velho = textos(mexidas@);
                let ghost l = linha@;
                mexidas.push(string_of(linha.as_slice()));
                assert(textos(mexidas@) =~= velho.push(l));
                novo
            },
            None => saida,
        },
        None => saida,
    }
}

/// O texto depois do perfil, e o que mudou ("chave: antes → depois"). Sem mudança, o conteúdo sai idêntico e a
/// lista vazia: quem chama não grava.
pub fn aplicar_no_texto_com(conteudo: &str, perfil: Perfil, vram_curta: bool, hz_do_monitor: Option<u32>) -> (r: (String, Vec<String>))
    ensures
        (r.0@, textos(r.1@)) == spec_aplicar(conteudo@, perfil, vram_curta, hz_do_monitor),
{
    let mut saida: String = conteudo.to_string();
    let mut mexidas: Vec<String> = Vec::new();
    match hz_do_monitor {
        Some(h) => match taxa_a_corrigir_com(saida.as_str(), h) {
            Some((atual, alvo)) => {
                let alvo_txt = crate::texto::decimal_string(alvo as u64);
                match trocar(saida.as_str(), "RefreshRate", alvo_txt.as_str()) {
                    Some(novo) => {
                        let mut linha = chars_of("RefreshRate: ");
                        anexar(&mut linha, atual.as_str());
                        anexar(&mut linha, " → ");
                        anexar(&mut linha, alvo_txt.as_str());
                        mexidas.push(string_of(linha.as_slice()));
                        saida = novo;
                    },
                    None => {},
                }
            },
            None => {},
        },
        None => {},
    }
    assert((saida@, textos(mexidas@)) == com_a_taxa(conteudo@, hz_do_monitor));
    let ghost inicio = (saida@, textos(mexidas@));
    let ms = perfil.mudancas_para(vram_curta);
    let mut i: usize = 0;
    while i < ms.len()
        invariant
            0 <= i <= ms@.len(),
            ms@ == spec_mudancas(perfil, vram_curta),
            (saida@, textos(mexidas@)) == aplicar_todos(inicio, ms@.take(i as int)),
        decreases ms@.len() - i,
    {
        assert(ms@.take(i + 1).drop_last() =~= ms@.take(i as int));
        assert(ms@.take(i + 1).last() == ms@[i as int]);
        let m = ms[i];
        saida = aplicar_passo(saida, &mut mexidas, m);
        i = i + 1;
    }
    assert(ms@.take(ms@.len() as int) =~= ms@);
    (saida, mexidas)
}

proof fn lema_passo_sem_linha_nao_muda(estado: (Seq<char>, Seq<Seq<char>>), m: Mudanca)
    ensures
        aplicar_um(estado, m).1.len() >= estado.1.len(),
        aplicar_um(estado, m).1.len() == estado.1.len() ==> aplicar_um(estado, m) == estado,
{
}

proof fn lema_todos_sem_linha_nao_mudam(estado: (Seq<char>, Seq<Seq<char>>), ms: Seq<Mudanca>)
    ensures
        aplicar_todos(estado, ms).1.len() >= estado.1.len(),
        aplicar_todos(estado, ms).1.len() == estado.1.len() ==> aplicar_todos(estado, ms) == estado,
    decreases ms.len(),
{
    if ms.len() > 0 {
        lema_todos_sem_linha_nao_mudam(estado, ms.drop_last());
        lema_passo_sem_linha_nao_muda(aplicar_todos(estado, ms.drop_last()), ms.last());
    }
}

/// Sem nada a relatar, o texto sai idêntico: quem chama não grava.
pub proof fn lei_sem_mudanca_o_texto_fica(c: Seq<char>, perfil: Perfil, vram_curta: bool, hz_do_monitor: Option<u32>)
    ensures
        spec_aplicar(c, perfil, vram_curta, hz_do_monitor).1.len() == 0 ==> spec_aplicar(
            c,
            perfil,
            vram_curta,
            hz_do_monitor,
        ).0 == c,
{
    let inicio = com_a_taxa(c, hz_do_monitor);
    lema_todos_sem_linha_nao_mudam(inicio, spec_mudancas(perfil, vram_curta));
}

/// O nome legível de cada chave que o diagnóstico aponta; as outras aparecem como são.
pub open spec fn spec_legivel(chave: Seq<char>) -> Seq<char> {
    if chave == "MSAA"@ {
        "suavização de serrilhado (MSAA)"@
    } else if chave == "Tessellation"@ {
        "tesselação"@
    } else if chave == "SSAO"@ {
        "oclusão de ambiente"@
    } else if chave == "ShadowQuality"@ {
        "qualidade das sombras"@
    } else if chave == "ReflectionQuality"@ {
        "qualidade dos reflexos"@
    } else {
        chave
    }
}

pub fn legivel(chave: &str) -> (r: String)
    ensures
        r@ == spec_legivel(chave@),
{
    if crate::texto::str_eq(chave, "MSAA") {
        "suavização de serrilhado (MSAA)".to_string()
    } else if crate::texto::str_eq(chave, "Tessellation") {
        "tesselação".to_string()
    } else if crate::texto::str_eq(chave, "SSAO") {
        "oclusão de ambiente".to_string()
    } else if crate::texto::str_eq(chave, "ShadowQuality") {
        "qualidade das sombras".to_string()
    } else if crate::texto::str_eq(chave, "ReflectionQuality") {
        "qualidade dos reflexos".to_string()
    } else {
        chave.to_string()
    }
}

} // verus!
