//! O navegador. De fora NÃO dá para medir memória por extensão (várias dividem um processo): o número honesto é o
//! do navegador inteiro. Lê manifesto, traduções e TAMANHO de pastas; nunca abre histórico, cookies, senhas,
//! favoritos ou sessões, nem para contar. Do `IndexedDB` só o total: os nomes das subpastas revelam os sites.

use vstd::prelude::*;
use crate::medida::{mb_arredondado, mb_arredondado_exec};
use crate::ordem::{antes, lema_antes_irreflexivo, lema_antes_total, lema_antes_transitivo, textos, vem_antes};
use crate::texto::{
    anexar, chars_of, contains, contains_exec, decimal, ends_with, ends_with_exec, minusculas, push_decimal,
    same_chars, starts_with, starts_with_exec, string_of, sub_chars, to_lowercase, trim, trim_chars,
};

verus! {

broadcast use {vstd::string::group_string_axioms, vstd::seq_lib::group_seq_properties};

/// Lista fechada, cada pasta conferida: o critério não é "parece cache pelo nome".
pub open spec fn cache_descartavel() -> Seq<&'static str> {
    seq!["Cache", "Code Cache", "GPUCache", "DawnGraphiteCache", "DawnWebGPUCache", "Shared Dictionary"]
}

pub fn lista_cache_descartavel() -> (r: Vec<&'static str>)
    ensures
        r@ == cache_descartavel(),
{
    let r = vec!["Cache", "Code Cache", "GPUCache", "DawnGraphiteCache", "DawnWebGPUCache", "Shared Dictionary"];
    assert(r@ =~= cache_descartavel());
    r
}

/// Dado de aplicativo (WhatsApp Web, e-mail offline, editor online): apagar desloga de tudo. Medido e mostrado,
/// nunca oferecido para limpeza.
pub open spec fn dado_de_aplicativo() -> Seq<&'static str> {
    seq!["IndexedDB", "Local Storage", "Local Extension Settings"]
}

pub fn lista_dado_de_aplicativo() -> (r: Vec<&'static str>)
    ensures
        r@ == dado_de_aplicativo(),
{
    let r = vec!["IndexedDB", "Local Storage", "Local Extension Settings"];
    assert(r@ =~= dado_de_aplicativo());
    r
}

/// Nenhuma pasta de dado de aplicativo está entre as que se apagam.
pub proof fn lei_dado_de_aplicativo_nunca_e_apagado(i: int, j: int)
    requires
        0 <= i < dado_de_aplicativo().len(),
        0 <= j < cache_descartavel().len(),
    ensures
        dado_de_aplicativo()[i]@ != cache_descartavel()[j]@,
{
    reveal_strlit("Cache");
    reveal_strlit("Code Cache");
    reveal_strlit("GPUCache");
    reveal_strlit("DawnGraphiteCache");
    reveal_strlit("DawnWebGPUCache");
    reveal_strlit("Shared Dictionary");
    reveal_strlit("IndexedDB");
    reveal_strlit("Local Storage");
    reveal_strlit("Local Extension Settings");
    assert("Cache"@.len() == 5);
    assert("Code Cache"@.len() == 10);
    assert("GPUCache"@.len() == 8);
    assert("DawnGraphiteCache"@.len() == 17);
    assert("DawnWebGPUCache"@.len() == 15);
    assert("Shared Dictionary"@.len() == 17);
    assert("IndexedDB"@.len() == 9);
    assert("Local Storage"@.len() == 13);
    assert("Local Extension Settings"@.len() == 24);
}

/// `__MSG_chave__` → `chave`.
pub open spec fn spec_chave_de_traducao(nome: Seq<char>) -> Option<Seq<char>> {
    if starts_with(nome, "__MSG_"@) {
        let resto = nome.skip(6);
        if ends_with(resto, "__"@) {
            Some(resto.take(resto.len() - 2))
        } else {
            None
        }
    } else {
        None
    }
}

pub open spec fn opt_texto(o: Option<String>) -> Option<Seq<char>> {
    match o {
        Some(s) => Some(s@),
        None => None,
    }
}

/// A chave de tradução de um nome de extensão, quando ele é uma.
pub fn chave_de_traducao(nome: &str) -> (r: Option<String>)
    ensures
        opt_texto(r) == spec_chave_de_traducao(nome@),
{
    proof {
        reveal_strlit("__MSG_");
        reveal_strlit("__");
    }
    let cs = chars_of(nome);
    let prefixo = chars_of("__MSG_");
    if !starts_with_exec(cs.as_slice(), prefixo.as_slice()) {
        return None;
    }
    let resto = sub_chars(cs.as_slice(), 6, cs.len());
    assert(resto@ =~= nome@.skip(6));
    let sufixo = chars_of("__");
    if !ends_with_exec(resto.as_slice(), sufixo.as_slice()) {
        return None;
    }
    let chave = sub_chars(resto.as_slice(), 0, resto.len() - 2);
    assert(chave@ =~= resto@.take(resto@.len() - 2));
    Some(string_of(chave.as_slice()))
}

/// O nome do que `serde_json` lê de um `messages.json`: `None` quando o texto não é um objeto JSON; senão cada
/// chave do objeto, na ordem em que o mapa as percorre, com o texto do campo `message` dela quando há um.
pub uninterp spec fn mensagens_json(conteudo: Seq<char>) -> Option<Seq<(Seq<char>, Option<Seq<char>>)>>;

pub open spec fn pares_vistos(v: Seq<(String, Option<String>)>) -> Seq<(Seq<char>, Option<Seq<char>>)> {
    v.map_values(|p: (String, Option<String>)| (p.0@, opt_texto(p.1)))
}

/// Lê o objeto JSON com `serde_json::from_str` e devolve cada chave com o texto de `message`.
///
/// O contrato só dá nome ao resultado: ele depende apenas do texto, e a gramática do JSON não é escrita aqui.
#[verifier::external_body]
fn ler_mensagens(conteudo: &str) -> (r: Option<Vec<(String, Option<String>)>>)
    ensures
        match r {
            Some(v) => mensagens_json(conteudo@) == Some(pares_vistos(v@)),
            None => mensagens_json(conteudo@) is None,
        },
{
    let raiz: serde_json::Value = serde_json::from_str(conteudo).ok()?;
    let objeto = raiz.as_object()?;
    Some(
        objeto
            .iter()
            .map(|(k, v)| (k.clone(), v.get("message").and_then(|m| m.as_str()).map(|s| s.to_string())))
            .collect(),
    )
}

/// A mensagem da primeira chave, a partir da posição `k`, igual à procurada sem olhar maiúsculas.
pub open spec fn achar_mensagem(pares: Seq<(Seq<char>, Option<Seq<char>>)>, alvo: Seq<char>, k: int) -> Option<
    Seq<char>,
>
    decreases pares.len() - k,
{
    if k < 0 || k >= pares.len() {
        None
    } else if minusculas(pares[k].0) == alvo {
        pares[k].1
    } else {
        achar_mensagem(pares, alvo, k + 1)
    }
}

/// Insensível a maiúsculas, como a especificação do Chrome: há `extname` no manifesto e `extName` nas mensagens.
pub open spec fn spec_traduzir(conteudo: Seq<char>, chave: Seq<char>) -> Option<Seq<char>> {
    match mensagens_json(conteudo) {
        Some(pares) => achar_mensagem(pares, minusculas(chave), 0),
        None => None,
    }
}

/// A mensagem da chave entre os pares já lidos de um `messages.json` (cada chave com o texto de `message`): o
/// primeiro par cuja chave, em minúsculas, é a chave pedida em minúsculas.
pub fn achar_nos_pares(pares: &[(String, Option<String>)], chave: &str) -> (r: Option<String>)
    ensures
        opt_texto(r) == achar_mensagem(pares_vistos(pares@), minusculas(chave@), 0),
{
    let ghost pv = pares_vistos(pares@);
    let kc = chars_of(chave);
    let alvo = to_lowercase(kc.as_slice());
    let mut k: usize = 0;
    while k < pares.len()
        invariant
            0 <= k <= pares@.len(),
            pv == pares_vistos(pares@),
            alvo@ == minusculas(chave@),
            achar_mensagem(pv, alvo@, 0) == achar_mensagem(pv, alvo@, k as int),
        decreases pares@.len() - k,
    {
        let nome = chars_of(pares[k].0.as_str());
        let baixo = to_lowercase(nome.as_slice());
        assert(pv[k as int] == (pares@[k as int].0@, opt_texto(pares@[k as int].1)));
        if same_chars(baixo.as_slice(), alvo.as_slice()) {
            assert(achar_mensagem(pv, alvo@, k as int) == pv[k as int].1);
            let r = match &pares[k].1 {
                Some(m) => Some(m.clone()),
                None => None,
            };
            return r;
        }
        k = k + 1;
    }
    None
}

/// A tradução da chave num `messages.json`.
pub fn traduzir_no_json(conteudo: &str, chave: &str) -> (r: Option<String>)
    ensures
        opt_texto(r) == spec_traduzir(conteudo@, chave@),
{
    match ler_mensagens(conteudo) {
        Some(p) => achar_nos_pares(p.as_slice(), chave),
        None => None,
    }
}

/// O que o manifesto de uma versão de extensão diz: o nome (às vezes uma chave de tradução), a versão, o
/// idioma padrão e quantas permissões pede, em `permissions` e em `host_permissions`.
pub struct Manifesto {
    pub name: Option<String>,
    pub version: Option<String>,
    pub default_locale: Option<String>,
    pub permissions: usize,
    pub host_permissions: usize,
}

/// A primeira tradução achada, na ordem em que os arquivos de idioma foram lidos.
pub open spec fn primeira_traducao(ts: Seq<Option<Seq<char>>>) -> Option<Seq<char>>
    decreases ts.len(),
{
    if ts.len() == 0 {
        None
    } else if ts[0] is Some {
        ts[0]
    } else {
        primeira_traducao(ts.drop_first())
    }
}

pub open spec fn opt_textos(ts: Seq<Option<String>>) -> Seq<Option<Seq<char>>> {
    ts.map_values(|t: Option<String>| opt_texto(t))
}

pub open spec fn texto_ou_vazio(o: Option<String>) -> Seq<char> {
    match o {
        Some(s) => s@,
        None => seq![],
    }
}

/// Sem tradução, o id: o técnico pesquisa o id, não desfaz um palpite. Um nome que não é chave de tradução vale
/// como está, se não for só branco. `traducoes` são as traduções da chave em cada arquivo de idioma, na ordem em
/// que foram lidos (`None` onde o arquivo não se leu ou não traz a chave).
pub open spec fn spec_nome_legivel(id: Seq<char>, name: Option<String>, traducoes: Seq<Option<Seq<char>>>) -> Seq<char> {
    let bruto = texto_ou_vazio(name);
    match spec_chave_de_traducao(bruto) {
        None => if trim(bruto).len() == 0 {
            id
        } else {
            bruto
        },
        Some(_) => match primeira_traducao(traducoes) {
            Some(t) => t,
            None => id,
        },
    }
}

fn primeira_traducao_exec(ts: &[Option<String>]) -> (r: Option<String>)
    ensures
        opt_texto(r) == primeira_traducao(opt_textos(ts@)),
{
    let ghost v = opt_textos(ts@);
    let mut k: usize = 0;
    while k < ts.len()
        invariant
            k <= ts@.len(),
            v == opt_textos(ts@),
            primeira_traducao(v) == primeira_traducao(v.skip(k as int)),
        decreases ts@.len() - k,
    {
        assert(v.skip(k as int)[0] == opt_texto(ts@[k as int]));
        assert(v.skip(k as int).drop_first() =~= v.skip(k + 1));
        match &ts[k] {
            Some(t) => {
                return Some(t.clone());
            },
            None => {},
        }
        k = k + 1;
    }
    assert(v.skip(k as int).len() == 0);
    None
}

/// O nome, a versão e o número de permissões de uma extensão, a partir do manifesto da versão ativa e das
/// traduções lidas para o nome.
pub fn extensao_lida(id: &str, manifesto: &Manifesto, traducoes: &[Option<String>]) -> (r: (String, String, usize))
    requires
        manifesto.permissions + manifesto.host_permissions <= usize::MAX,
    ensures
        r.0@ == spec_nome_legivel(id@, manifesto.name, opt_textos(traducoes@)),
        r.1@ == texto_ou_vazio(manifesto.version),
        r.2 == manifesto.permissions + manifesto.host_permissions,
{
    let bruto = match &manifesto.name {
        Some(n) => n.clone(),
        None => String::new(),
    };
    let nome = match chave_de_traducao(bruto.as_str()) {
        None => {
            let cs = chars_of(bruto.as_str());
            if trim_chars(cs.as_slice()).len() == 0 {
                id.to_string()
            } else {
                bruto
            }
        },
        Some(_) => match primeira_traducao_exec(traducoes) {
            Some(t) => t,
            None => id.to_string(),
        },
    };
    let versao = match &manifesto.version {
        Some(v) => v.clone(),
        None => String::new(),
    };
    (nome, versao, manifesto.permissions + manifesto.host_permissions)
}

/// `i` é a versão ativa: a maior pelo nome, e a última delas se houver nomes iguais (as outras ficam para trás).
pub open spec fn e_a_ativa(nomes: Seq<Seq<char>>, i: int) -> bool {
    &&& 0 <= i < nomes.len()
    &&& forall|j: int| 0 <= j < i ==> !antes(nomes[i], #[trigger] nomes[j])
    &&& forall|j: int| i < j < nomes.len() ==> antes(#[trigger] nomes[j], nomes[i])
}

/// O Chromium deixa as versões antigas em disco depois de atualizar: a ativa é a de maior nome, e as outras
/// contam como velhas. `None` sem nenhuma versão com manifesto.
pub fn versao_ativa(nomes: &[String]) -> (r: Option<(usize, usize)>)
    ensures
        r is None <==> nomes@.len() == 0,
        r matches Some((i, velhas)) ==> e_a_ativa(textos(nomes@), i as int) && velhas == nomes@.len() - 1,
{
    if nomes.len() == 0 {
        return None;
    }
    let ghost s = textos(nomes@);
    let mut melhor: usize = 0;
    let mut melhor_c = chars_of(nomes[0].as_str());
    let mut k: usize = 1;
    while k < nomes.len()
        invariant
            1 <= k <= nomes@.len(),
            s == textos(nomes@),
            melhor < k,
            melhor_c@ == s[melhor as int],
            forall|j: int| 0 <= j < melhor ==> !antes(s[melhor as int], #[trigger] s[j]),
            forall|j: int| melhor < j < k ==> antes(#[trigger] s[j], s[melhor as int]),
        decreases nomes@.len() - k,
    {
        let c = chars_of(nomes[k].as_str());
        assert(c@ == s[k as int]);
        if vem_antes(c.as_slice(), melhor_c.as_slice()) {
            k = k + 1;
        } else {
            proof {
                let b = s[melhor as int];
                let n = s[k as int];
                assert forall|j: int| 0 <= j < k implies !antes(n, #[trigger] s[j]) by {
                    if j != melhor && antes(n, s[j]) {
                        if j > melhor {
                            lema_antes_transitivo(n, s[j], b);
                        } else if s[j] == b {
                        } else {
                            lema_antes_total(s[j], b);
                            lema_antes_transitivo(n, s[j], b);
                        }
                    }
                }
            }
            melhor = k;
            melhor_c = c;
            k = k + 1;
        }
    }
    Some((melhor, nomes.len() - 1))
}

/// Português, o padrão da extensão, inglês: sem isso um terço aparecia como `__MSG_appName__`.
pub open spec fn spec_ordem_de_locales(padrao: Option<Seq<char>>) -> Seq<Seq<char>> {
    seq!["pt_BR"@, "pt"@] + (match padrao {
        Some(p) => seq![p],
        None => seq![],
    }) + seq!["en_US"@, "en"@]
}

pub fn ordem_de_locales(default_locale: Option<&str>) -> (r: Vec<String>)
    ensures
        textos(r@) == spec_ordem_de_locales(
            match default_locale {
                Some(p) => Some(p@),
                None => None,
            },
        ),
{
    let mut ordem: Vec<String> = Vec::new();
    ordem.push("pt_BR".to_string());
    ordem.push("pt".to_string());
    match default_locale {
        Some(p) => ordem.push(p.to_string()),
        None => {},
    }
    ordem.push("en_US".to_string());
    ordem.push("en".to_string());
    assert(textos(ordem@) =~= spec_ordem_de_locales(
        match default_locale {
            Some(p) => Some(p@),
            None => None,
        },
    ));
    ordem
}

/// Id de extensão: 32 letras minúsculas.
pub open spec fn spec_parece_id(id: Seq<char>) -> bool {
    id.len() == 32 && forall|i: int| 0 <= i < 32 ==> 'a' <= #[trigger] id[i] && id[i] <= 'z'
}

pub fn parece_id_de_extensao(id: &str) -> (r: bool)
    ensures
        r == spec_parece_id(id@),
{
    let cs = chars_of(id);
    if cs.len() != 32 {
        return false;
    }
    let mut i: usize = 0;
    while i < 32
        invariant
            0 <= i <= 32,
            cs@ == id@,
            cs@.len() == 32,
            forall|k: int| 0 <= k < i ==> 'a' <= #[trigger] cs@[k] && cs@[k] <= 'z',
        decreases 32 - i,
    {
        if !('a' <= cs[i] && cs[i] <= 'z') {
            return false;
        }
        i = i + 1;
    }
    true
}

pub open spec fn executaveis_de_navegador() -> Seq<&'static str> {
    seq!["chrome.exe", "msedge.exe", "brave.exe", "vivaldi.exe", "opera.exe", "firefox.exe"]
}

/// O primeiro executável conhecido, a partir da posição `k`, que aparece no comando em minúsculas.
pub open spec fn executavel_no_comando(comando: Seq<char>, k: int) -> Option<Seq<char>>
    decreases executaveis_de_navegador().len() - k,
{
    if k < 0 || k >= executaveis_de_navegador().len() {
        None
    } else if contains(comando, executaveis_de_navegador()[k]@) {
        Some(executaveis_de_navegador()[k]@)
    } else {
        executavel_no_comando(comando, k + 1)
    }
}

/// O navegador padrão pelo nome do executável no comando que abre `https` (o nome amigável vem traduzido).
/// `None` quando o comando não se leu ou não cita nenhum navegador conhecido.
pub fn navegador_padrao(comando: Option<&str>) -> (r: Option<String>)
    ensures
        opt_texto(r) == match comando {
            Some(c) => executavel_no_comando(minusculas(c@), 0),
            None => None,
        },
{
    let cmd = match comando {
        Some(c) => c,
        None => return None,
    };
    let cs = chars_of(cmd);
    let minusculo = to_lowercase(cs.as_slice());
    let lista = vec!["chrome.exe", "msedge.exe", "brave.exe", "vivaldi.exe", "opera.exe", "firefox.exe"];
    assert(lista@ =~= executaveis_de_navegador());
    let mut k: usize = 0;
    while k < lista.len()
        invariant
            0 <= k <= lista@.len(),
            lista@ == executaveis_de_navegador(),
            comando == Some(cmd),
            minusculo@ == minusculas(cmd@),
            executavel_no_comando(minusculo@, 0) == executavel_no_comando(minusculo@, k as int),
        decreases lista@.len() - k,
    {
        let exe = chars_of(lista[k]);
        if contains_exec(minusculo.as_slice(), exe.as_slice()) {
            assert(executavel_no_comando(minusculo@, k as int) == Some(lista@[k as int]@));
            let e: &str = lista[k];
            return Some(e.to_string());
        }
        k = k + 1;
    }
    None
}

/// Um MiB, a unidade em que os tamanhos aparecem como "MB".
pub open spec fn mib() -> nat {
    1048576
}

pub open spec fn aviso_cache(mb: nat) -> Seq<char> {
    decimal(mb) + " MB de cache dá para apagar. Vale saber a contrapartida: os sites que \
     você usa vão carregar mais devagar na primeira vez depois da limpeza, porque \
     precisam baixar tudo de novo. "@
}

pub open spec fn aviso_dado(mb: nat) -> Seq<char> {
    "Outros "@ + decimal(mb) + " MB são dado de aplicativo — conversa de WhatsApp Web, e-mail \
     guardado para uso sem internet, arquivo de editor online. Parece cache pelo \
     tamanho e não é: apagar desloga você de tudo e o que estiver ali some. O \
     Otimiza mede e mostra, mas não oferece limpar. "@
}

pub open spec fn aviso_aberto() -> Seq<char> {
    "Feche o navegador antes de limpar: com ele aberto os arquivos ficam travados."@
}

/// As duas contrapartidas: o primeiro carregamento fica mais lento, e dado de aplicativo não é lixo. A partir de
/// 1 MB cada uma aparece; sem nada a dizer, a nota diz que nada foi encontrado.
pub open spec fn spec_nota(cache_bytes: nat, dado_bytes: nat, algum_aberto: bool) -> Seq<char> {
    let corpo = (if cache_bytes >= mib() {
        aviso_cache(mb_arredondado(cache_bytes))
    } else {
        seq![]
    }) + (if dado_bytes >= mib() {
        aviso_dado(mb_arredondado(dado_bytes))
    } else {
        seq![]
    }) + (if algum_aberto {
        aviso_aberto()
    } else {
        seq![]
    });
    if corpo.len() == 0 {
        "Nenhum navegador conhecido encontrado com dados nesta máquina."@
    } else {
        corpo
    }
}

/// A nota do relatório de navegadores, com os tamanhos em bytes.
pub fn montar_nota(cache_bytes: u64, app_data_bytes: u64, algum_aberto: bool) -> (r: String)
    ensures
        r@ == spec_nota(cache_bytes as nat, app_data_bytes as nat, algum_aberto),
{
    proof {
        reveal_strlit("Feche o navegador antes de limpar: com ele aberto os arquivos ficam travados.");
    }
    let mut nota: Vec<char> = Vec::new();
    if cache_bytes >= 1048576 {
        push_decimal(&mut nota, mb_arredondado_exec(cache_bytes));
        anexar(
            &mut nota,
            " MB de cache dá para apagar. Vale saber a contrapartida: os sites que \
             você usa vão carregar mais devagar na primeira vez depois da limpeza, porque \
             precisam baixar tudo de novo. ",
        );
    }
    if app_data_bytes >= 1048576 {
        anexar(&mut nota, "Outros ");
        push_decimal(&mut nota, mb_arredondado_exec(app_data_bytes));
        anexar(
            &mut nota,
            " MB são dado de aplicativo — conversa de WhatsApp Web, e-mail \
             guardado para uso sem internet, arquivo de editor online. Parece cache pelo \
             tamanho e não é: apagar desloga você de tudo e o que estiver ali some. O \
             Otimiza mede e mostra, mas não oferece limpar. ",
        );
    }
    if algum_aberto {
        anexar(&mut nota, "Feche o navegador antes de limpar: com ele aberto os arquivos ficam travados.");
    }
    let ghost corpo = nota@;
    assert(corpo =~= (if cache_bytes >= mib() {
        aviso_cache(mb_arredondado(cache_bytes as nat))
    } else {
        seq![]
    }) + (if app_data_bytes >= mib() {
        aviso_dado(mb_arredondado(app_data_bytes as nat))
    } else {
        seq![]
    }) + (if algum_aberto {
        aviso_aberto()
    } else {
        seq![]
    }));
    if nota.len() == 0 {
        return "Nenhum navegador conhecido encontrado com dados nesta máquina.".to_string();
    }
    string_of(nota.as_slice())
}

} // verus!
