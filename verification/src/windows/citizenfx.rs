//! Lê o `CitizenFX.ini`, o motor do cliente FiveM. NUNCA escreve: a chave é `PoolSizesIncrease` na seção
//! `[Game]`, com um mapa JSON de pool para acréscimo, e sem estouro de pool observado não há o que sugerir.
//! "Nada configurado" é bom e comum.

use vstd::prelude::*;
use crate::texto::{
    anexar, chars_of, decimal, lines, lines_exec, push_decimal, same_chars, skip_chars, str_eq, string_of, trim,
    trim_chars, views,
};

verus! {

broadcast use {vstd::string::group_string_axioms, vstd::seq_lib::group_seq_properties};

#[derive(Debug, Clone, PartialEq)]
pub struct PoolAjustado {
    pub nome: String,
    pub aumento: u64,
    /// `None`: fora do recorte estático, não conferido aqui.
    pub teto_conhecido: Option<u64>,
}

#[derive(Debug, Clone, PartialEq)]
pub enum PoolSizesIncrease {
    Vazio,
    Configurado { pools: Vec<PoolAjustado> },
    /// Dito explicitamente: tratar como vazio esconderia um arquivo num formato que não se entende.
    Invalido { bruto: String },
}

/// Por que a leitura do arquivo falhou, pelo erro real.
#[derive(Debug, Clone, Copy, PartialEq, Eq, Structural)]
pub enum Falha {
    PermissaoNegada,
    NaoEncontrado,
    /// O arquivo não está em UTF-8.
    DadoInvalido,
    Outra,
}

/// Recorte ESTÁTICO da tabela pública de limites de pool do FiveM: não é buscado em execução, e o teto aqui é só
/// referência.
pub open spec fn tetos_conhecidos() -> Seq<(&'static str, u64)> {
    seq![("CMoveObject", 600u64), ("FragmentStore", 30_000u64), ("TxdStore", 50_000u64)]
}

/// O teto do primeiro pool da tabela, a partir da posição `k`, com esse nome.
pub open spec fn spec_teto(pool: Seq<char>, k: int) -> Option<u64>
    decreases tetos_conhecidos().len() - k,
{
    if k < 0 || k >= tetos_conhecidos().len() {
        None
    } else if tetos_conhecidos()[k].0@ == pool {
        Some(tetos_conhecidos()[k].1)
    } else {
        spec_teto(pool, k + 1)
    }
}

pub fn teto_conhecido(pool: &str) -> (r: Option<u64>)
    ensures
        r == spec_teto(pool@, 0),
{
    let tabela = vec![("CMoveObject", 600u64), ("FragmentStore", 30_000u64), ("TxdStore", 50_000u64)];
    assert(tabela@ =~= tetos_conhecidos());
    let mut k: usize = 0;
    while k < tabela.len()
        invariant
            0 <= k <= tabela@.len(),
            tabela@ == tetos_conhecidos(),
            spec_teto(pool@, 0) == spec_teto(pool@, k as int),
        decreases tabela@.len() - k,
    {
        let (nome, teto) = tabela[k];
        if str_eq(nome, pool) {
            return Some(teto);
        }
        k = k + 1;
    }
    None
}

/// A linha (já sem branco nas pontas) abre uma seção: começa com `[` e termina com `]`.
pub open spec fn abre_secao(l: Seq<char>) -> bool {
    l.len() > 0 && l[0] == '[' && l.last() == ']'
}

/// O valor da chave nas linhas restantes, sabendo se já se está dentro da seção pedida. A primeira ocorrência
/// dentro da seção vale; chave solta em outra seção não conta.
pub open spec fn valor_nas_linhas(linhas: Seq<Seq<char>>, secao: Seq<char>, prefixo: Seq<char>, dentro: bool) -> Option<
    Seq<char>,
>
    decreases linhas.len(),
{
    if linhas.len() == 0 {
        None
    } else {
        let l = trim(linhas[0]);
        if abre_secao(l) {
            valor_nas_linhas(linhas.drop_first(), secao, prefixo, l == secao)
        } else if dentro && l.len() >= prefixo.len() && l.take(prefixo.len() as int) == prefixo {
            Some(trim(l.skip(prefixo.len() as int)))
        } else {
            valor_nas_linhas(linhas.drop_first(), secao, prefixo, dentro)
        }
    }
}

/// O valor de `chave=` na seção `[secao]`, sem branco nas pontas.
pub open spec fn spec_ler_chave(conteudo: Seq<char>, secao: Seq<char>, chave: Seq<char>) -> Option<Seq<char>> {
    valor_nas_linhas(lines(conteudo), "["@ + secao + "]"@, chave + "="@, false)
}

pub open spec fn opt_texto(o: Option<String>) -> Option<Seq<char>> {
    match o {
        Some(s) => Some(s@),
        None => None,
    }
}

/// Lê uma chave de uma seção do INI, sem biblioteca: só lê.
pub fn ler_chave(conteudo: &str, secao: &str, chave: &str) -> (r: Option<String>)
    ensures
        opt_texto(r) == spec_ler_chave(conteudo@, secao@, chave@),
{
    let mut alvo = chars_of("[");
    anexar(&mut alvo, secao);
    anexar(&mut alvo, "]");
    let mut prefixo = chars_of(chave);
    anexar(&mut prefixo, "=");
    let cs = chars_of(conteudo);
    let ls = lines_exec(cs.as_slice());
    let ghost vs = views(ls@);
    let mut dentro = false;
    let mut i: usize = 0;
    assert(vs.skip(0) =~= vs);
    while i < ls.len()
        invariant
            0 <= i <= ls@.len(),
            vs == views(ls@),
            vs == lines(conteudo@),
            alvo@ == "["@ + secao@ + "]"@,
            prefixo@ == chave@ + "="@,
            spec_ler_chave(conteudo@, secao@, chave@) == valor_nas_linhas(vs.skip(i as int), alvo@, prefixo@, dentro),
        decreases ls@.len() - i,
    {
        let ghost resto = vs.skip(i as int);
        assert(resto[0] == ls@[i as int]@);
        assert(resto.drop_first() =~= vs.skip(i + 1));
        let l = trim_chars(ls[i].as_slice());
        let n = l.len();
        if n > 0 && l[0] == '[' && l[n - 1] == ']' {
            dentro = same_chars(l.as_slice(), alvo.as_slice());
        } else if dentro && n >= prefixo.len() {
            let cabeca = crate::texto::sub_chars(l.as_slice(), 0, prefixo.len());
            if same_chars(cabeca.as_slice(), prefixo.as_slice()) {
                let depois = skip_chars(l.as_slice(), prefixo.len());
                let valor = trim_chars(depois.as_slice());
                return Some(string_of(valor.as_slice()));
            }
        }
        i = i + 1;
    }
    None
}

/// O nome do que `serde_json` lê como mapa de texto para inteiro sem sinal de 64 bits: `None` quando o texto não
/// é um objeto JSON nesse formato; senão os pares, na ordem do mapa (a das chaves).
pub uninterp spec fn mapa_json(bruto: Seq<char>) -> Option<Seq<(Seq<char>, u64)>>;

pub open spec fn pares_vistos(v: Seq<(String, u64)>) -> Seq<(Seq<char>, u64)> {
    v.map_values(|p: (String, u64)| (p.0@, p.1))
}

/// Lê o texto com `serde_json::from_str` como `BTreeMap<String, u64>` e devolve os pares.
///
/// O contrato só dá nome ao resultado: ele depende apenas do texto, e a gramática do JSON não é escrita aqui.
#[verifier::external_body]
fn ler_mapa(bruto: &str) -> (r: Option<Vec<(String, u64)>>)
    ensures
        match r {
            Some(v) => mapa_json(bruto@) == Some(pares_vistos(v@)),
            None => mapa_json(bruto@) is None,
        },
{
    serde_json::from_str::<std::collections::BTreeMap<String, u64>>(bruto).ok().map(|m| m.into_iter().collect())
}

pub open spec fn pool_visto(a: PoolAjustado) -> (Seq<char>, u64, Option<u64>) {
    (a.nome@, a.aumento, a.teto_conhecido)
}

/// O par lido, com o teto conhecido do pool.
pub open spec fn com_teto(p: (Seq<char>, u64)) -> (Seq<char>, u64, Option<u64>) {
    (p.0, p.1, spec_teto(p.0, 0))
}

/// O estado visto como valores.
pub ghost enum EstadoV {
    Vazio,
    Configurado(Seq<(Seq<char>, u64, Option<u64>)>),
    Invalido(Seq<char>),
}

pub open spec fn estado_visto(p: PoolSizesIncrease) -> EstadoV {
    match p {
        PoolSizesIncrease::Vazio => EstadoV::Vazio,
        PoolSizesIncrease::Configurado { pools } => EstadoV::Configurado(
            pools@.map_values(|a: PoolAjustado| pool_visto(a)),
        ),
        PoolSizesIncrease::Invalido { bruto } => EstadoV::Invalido(bruto@),
    }
}

/// O que o valor de `PoolSizesIncrease` diz: ausente ou vazio é nada configurado; um mapa vazio também; um mapa
/// com pools lista cada um com o teto conhecido; o resto é um valor que não se entende.
pub open spec fn spec_pool_sizes(conteudo: Seq<char>) -> EstadoV {
    let bruto = trim(
        match spec_ler_chave(conteudo, "Game"@, "PoolSizesIncrease"@) {
            Some(v) => v,
            None => seq![],
        },
    );
    if bruto.len() == 0 {
        EstadoV::Vazio
    } else {
        spec_pools_dos_pares(bruto, mapa_json(bruto))
    }
}

/// Um mapa vazio é nada configurado; um mapa com pools lista cada um com o teto conhecido; sem mapa, o valor
/// bruto não se entende.
pub open spec fn spec_pools_dos_pares(bruto: Seq<char>, pares: Option<Seq<(Seq<char>, u64)>>) -> EstadoV {
    match pares {
        Some(pares) => if pares.len() == 0 {
            EstadoV::Vazio
        } else {
            EstadoV::Configurado(pares.map_values(|p: (Seq<char>, u64)| com_teto(p)))
        },
        None => EstadoV::Invalido(bruto),
    }
}

pub open spec fn opt_pares_vistos(pares: Option<Vec<(String, u64)>>) -> Option<Seq<(Seq<char>, u64)>> {
    match pares {
        Some(v) => Some(pares_vistos(v@)),
        None => None,
    }
}

pub fn pool_sizes_de(conteudo: &str) -> (r: PoolSizesIncrease)
    ensures
        estado_visto(r) == spec_pool_sizes(conteudo@),
{
    let valor = match ler_chave(conteudo, "Game", "PoolSizesIncrease") {
        Some(v) => chars_of(v.as_str()),
        None => Vec::new(),
    };
    let bruto_v = trim_chars(valor.as_slice());
    if bruto_v.len() == 0 {
        return PoolSizesIncrease::Vazio;
    }
    let bruto = string_of(bruto_v.as_slice());
    let pares = ler_mapa(bruto.as_str());
    pools_dos_pares(bruto, pares)
}

/// O estado a partir do valor bruto de `PoolSizesIncrease` e do mapa lido dele (`None` quando não é um mapa de
/// nomes para números).
pub fn pools_dos_pares(bruto: String, pares: Option<Vec<(String, u64)>>) -> (r: PoolSizesIncrease)
    ensures
        estado_visto(r) == spec_pools_dos_pares(bruto@, opt_pares_vistos(pares)),
{
    let pares = match pares {
        Some(p) => p,
        None => return PoolSizesIncrease::Invalido { bruto },
    };
    if pares.len() == 0 {
        return PoolSizesIncrease::Vazio;
    }
    let ghost pv = pares_vistos(pares@);
    let mut pools: Vec<PoolAjustado> = Vec::new();
    let mut i: usize = 0;
    while i < pares.len()
        invariant
            0 <= i <= pares@.len(),
            pv == pares_vistos(pares@),
            pools@.map_values(|a: PoolAjustado| pool_visto(a)) == pv.take(
                i as int,
            ).map_values(|p: (Seq<char>, u64)| com_teto(p)),
        decreases pares@.len() - i,
    {
        let nome = pares[i].0.clone();
        let aumento = pares[i].1;
        let teto = teto_conhecido(nome.as_str());
        let ghost velho = pools@.map_values(|a: PoolAjustado| pool_visto(a));
        assert(pv[i as int] == (nome@, aumento));
        let novo = PoolAjustado { nome, aumento, teto_conhecido: teto };
        assert(pool_visto(novo) == com_teto(pv[i as int]));
        pools.push(novo);
        assert(pools@.map_values(|a: PoolAjustado| pool_visto(a)) =~= velho.push(pool_visto(novo)));
        assert(pools@.map_values(|a: PoolAjustado| pool_visto(a)) =~= pv.take(
            i + 1,
        ).map_values(|p: (Seq<char>, u64)| com_teto(p)));
        i = i + 1;
    }
    assert(pv.take(pares@.len() as int) =~= pv);
    PoolSizesIncrease::Configurado { pools }
}

/// O estado do pool a partir da leitura do arquivo: leitura que falhou é "não sei" (`None`), nunca "vazio".
pub fn estado_do_pool(leitura: Result<&str, ()>) -> (r: Option<PoolSizesIncrease>)
    ensures
        match leitura {
            Ok(c) => r matches Some(p) && estado_visto(p) == spec_pool_sizes(c@),
            Err(_) => r is None,
        },
{
    match leitura {
        Ok(c) => Some(pool_sizes_de(c)),
        Err(()) => None,
    }
}

pub open spec fn spec_explicar_falha(f: Falha) -> Seq<char> {
    match f {
        Falha::PermissaoNegada => "O Windows negou acesso ao arquivo — feche o FiveM e tente de novo."@,
        Falha::NaoEncontrado => "O arquivo sumiu entre a checagem e a leitura, o que costuma ser o FiveM \
                                 reescrevendo-o no mesmo instante. Tente de novo."@,
        Falha::DadoInvalido => "O arquivo não está em UTF-8 — costuma ser acento no caminho do jogo gravado na \
                                codificação antiga do Windows. Não é problema no seu PC, e não há o que fazer: \
                                o Otimiza simplesmente não lê este arquivo."@,
        Falha::Outra => "Não consegui abrir o arquivo."@,
    }
}

/// A explicação da falha pelo erro REAL: o arquivo em codificação antiga é o caso mais comum, não a permissão.
pub fn explicar_falha(f: Falha) -> (r: &'static str)
    ensures
        r@ == spec_explicar_falha(f),
{
    match f {
        Falha::PermissaoNegada => "O Windows negou acesso ao arquivo — feche o FiveM e tente de novo.",
        Falha::NaoEncontrado => "O arquivo sumiu entre a checagem e a leitura, o que costuma ser o FiveM \
                                 reescrevendo-o no mesmo instante. Tente de novo.",
        Falha::DadoInvalido => "O arquivo não está em UTF-8 — costuma ser acento no caminho do jogo gravado na \
                                codificação antiga do Windows. Não é problema no seu PC, e não há o que fazer: \
                                o Otimiza simplesmente não lê este arquivo.",
        Falha::Outra => "Não consegui abrir o arquivo.",
    }
}

pub open spec fn nota_vazio() -> Seq<char> {
    "Nenhum pool com acréscimo configurado. É o normal — a maioria das instalações de \
     FiveM nunca precisa mexer aqui, e isto não é um problema para resolver."@
}

pub open spec fn nota_invalido() -> Seq<char> {
    "O CitizenFX.ini tem um valor em PoolSizesIncrease que não é o JSON esperado (um \
     mapa de pool para acréscimo). Não consigo interpretar este valor — pode ter sido \
     escrito por outra ferramenta ou editado à mão. O arquivo não foi tocado."@
}

/// A nota da tela. Não sugere aumentar nada: não há evidência de pool estourado.
pub open spec fn spec_nota(p: Option<EstadoV>, falha: Option<Falha>) -> Seq<char> {
    match p {
        None => "Não consegui ler o CitizenFX.ini. "@ + (match falha {
            Some(f) => spec_explicar_falha(f),
            None => "Não consegui abrir o arquivo."@,
        }) + " O arquivo não foi tocado."@,
        Some(EstadoV::Vazio) => nota_vazio(),
        Some(EstadoV::Invalido(_)) => nota_invalido(),
        Some(EstadoV::Configurado(pools)) => decimal(pools.len()) + " pool(s) com acréscimo já configurado nesta máquina. Pode ter sido você ou \
                 outra ferramenta — o Otimiza só está mostrando o que já está lá."@,
    }
}

pub fn montar_nota(pool_sizes: &Option<PoolSizesIncrease>, falha: Option<Falha>) -> (r: String)
    ensures
        r@ == spec_nota(
            match *pool_sizes {
                Some(p) => Some(estado_visto(p)),
                None => None,
            },
            falha,
        ),
{
    match pool_sizes {
        None => {
            let mut v = chars_of("Não consegui ler o CitizenFX.ini. ");
            match falha {
                Some(f) => anexar(&mut v, explicar_falha(f)),
                None => anexar(&mut v, "Não consegui abrir o arquivo."),
            }
            anexar(&mut v, " O arquivo não foi tocado.");
            string_of(v.as_slice())
        },
        Some(PoolSizesIncrease::Vazio) => {
            "Nenhum pool com acréscimo configurado. É o normal — a maioria das instalações de \
             FiveM nunca precisa mexer aqui, e isto não é um problema para resolver.".to_string()
        },
        Some(PoolSizesIncrease::Invalido { .. }) => {
            "O CitizenFX.ini tem um valor em PoolSizesIncrease que não é o JSON esperado (um \
             mapa de pool para acréscimo). Não consigo interpretar este valor — pode ter sido \
             escrito por outra ferramenta ou editado à mão. O arquivo não foi tocado.".to_string()
        },
        Some(PoolSizesIncrease::Configurado { pools }) => {
            let mut v: Vec<char> = Vec::new();
            push_decimal(&mut v, pools.len() as u64);
            anexar(
                &mut v,
                " pool(s) com acréscimo já configurado nesta máquina. Pode ter sido você ou \
                 outra ferramenta — o Otimiza só está mostrando o que já está lá.",
            );
            string_of(v.as_slice())
        },
    }
}

} // verus!
