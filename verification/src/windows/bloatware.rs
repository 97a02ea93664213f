//! Programas de fábrica. Aqui o risco é invertido: errar é marcar o driver de vídeo como lixo e o cliente
//! desinstalar. Por isso PRIMEIRO o que nunca pode ser marcado, depois o resto. Nada é desinstalado escondido:
//! programa comum abre o desinstalador do fabricante; app da Loja sai pela chamada do Windows e volta pela Loja.

use vstd::prelude::*;
use crate::ordem::textos;
use crate::texto::{anexar, chars_of, contains, contains_exec, minusculas, str_eq, string_of, to_lowercase};

verus! {

broadcast use {vstd::string::group_string_axioms, vstd::seq_lib::group_seq_properties};

#[derive(Debug, Clone, Copy, PartialEq, Eq, Structural)]
pub enum BloatKind {
    OemUtility,
    TrialSecurity,
    Sponsored,
    StoreApp,
}

/// Um programa da lista de desinstalação, com o tamanho que ele declara em KB (0 quando não declara).
#[derive(Debug, Clone)]
pub struct ProgramaInstalado {
    pub nome: String,
    pub editor: String,
    pub tamanho_kb: u32,
}

/// Um app da Loja como o Windows o lista.
#[derive(Debug, Clone)]
pub struct AppLido {
    pub name: Option<String>,
    pub package_full_name: Option<String>,
}

#[derive(Debug, Clone)]
pub struct BloatItem {
    pub name: String,
    pub publisher: String,
    pub kind: BloatKind,
    /// `None` para apps da Loja (pasta protegida) e para quem não declara tamanho: "0 MB" daria a impressão de
    /// que não ocupam espaço.
    pub size_kb: Option<u32>,
    /// Sempre presente: marcar sem explicar é o que faz o cliente desinstalar coisa errada.
    pub reason: String,
    pub package: Option<String>,
    pub removable_here: bool,
}

#[derive(Debug, Clone)]
pub struct BloatReport {
    pub items: Vec<BloatItem>,
    pub unmeasured: usize,
    pub programs_scanned: usize,
    /// Com o serviço da Loja desligado, a lista saía sem nenhum app da Loja e sem uma palavra sobre isso.
    pub lacunas: Vec<String>,
}

/// Consultada ANTES de qualquer regra: driver, runtime e biblioteca de sistema jamais aparecem como lixo.
pub open spec fn nunca_marcar() -> Seq<&'static str> {
    seq![
        "driver",
        "chipset",
        "audio",
        "realtek",
        "graphics",
        "geforce",
        "radeon",
        "runtime",
        "redistributable",
        "redistributável",
        "framework",
        ".net",
        "visual c++",
        "directx",
        "update for",
        "security update",
        "hotfix",
        "service pack",
    ]
}

pub fn lista_nunca_marcar() -> (r: Vec<&'static str>)
    ensures
        r@ == nunca_marcar(),
{
    let r = vec![
        "driver",
        "chipset",
        "audio",
        "realtek",
        "graphics",
        "geforce",
        "radeon",
        "runtime",
        "redistributable",
        "redistributável",
        "framework",
        ".net",
        "visual c++",
        "directx",
        "update for",
        "security update",
        "hotfix",
        "service pack",
    ];
    assert(r@ =~= nunca_marcar());
    r
}

/// Nome e editor juntos, em minúsculas: é nisso que os termos são procurados.
pub open spec fn alvo(nome: Seq<char>, editor: Seq<char>) -> Seq<char> {
    minusculas(nome + " "@ + editor)
}

pub open spec fn spec_protegido(nome: Seq<char>, editor: Seq<char>) -> bool {
    exists|i: int| 0 <= i < nunca_marcar().len() && contains(alvo(nome, editor), (#[trigger] nunca_marcar()[i])@)
}

fn alvo_exec(nome: &str, editor: &str) -> (r: Vec<char>)
    ensures
        r@ == alvo(nome@, editor@),
{
    let mut v = chars_of(nome);
    anexar(&mut v, " ");
    anexar(&mut v, editor);
    to_lowercase(v.as_slice())
}

/// Algum dos termos da lista aparece no texto.
fn algum_termo(alvo: &[char], termos: &Vec<&'static str>) -> (r: bool)
    ensures
        r == exists|i: int| 0 <= i < termos@.len() && contains(alvo@, (#[trigger] termos@[i])@),
{
    let mut i: usize = 0;
    while i < termos.len()
        invariant
            0 <= i <= termos@.len(),
            forall|k: int| 0 <= k < i ==> !contains(alvo@, (#[trigger] termos@[k])@),
        decreases termos@.len() - i,
    {
        let t = chars_of(termos[i]);
        if contains_exec(alvo, t.as_slice()) {
            return true;
        }
        i = i + 1;
    }
    false
}

pub fn protegido(nome: &str, editor: &str) -> (r: bool)
    ensures
        r == spec_protegido(nome@, editor@),
{
    let a = alvo_exec(nome, editor);
    algum_termo(a.as_slice(), &lista_nunca_marcar())
}

pub open spec fn padroes() -> Seq<(&'static str, BloatKind, &'static str)> {
    seq![
        ("hp support assistant", BloatKind::OemUtility, "Utilitário da HP que roda em segundo plano procurando atualizações."),
        ("hp jumpstart", BloatKind::OemUtility, "Assistente de configuração da HP, útil só na primeira semana de uso."),
        ("hp documentation", BloatKind::OemUtility, "Manuais da HP, disponíveis no site da fabricante."),
        ("dell supportassist", BloatKind::OemUtility, "Utilitário da Dell que roda em segundo plano verificando o computador."),
        ("dell digital delivery", BloatKind::OemUtility, "Entregador de software da Dell, usado só na primeira configuração."),
        ("dell customer connect", BloatKind::OemUtility, "Canal de comunicação comercial da Dell."),
        ("lenovo vantage", BloatKind::OemUtility, "Painel da Lenovo com atualizações e propaganda de acessórios."),
        ("lenovo now", BloatKind::OemUtility, "Ofertas da Lenovo apresentadas dentro do Windows."),
        ("acer care center", BloatKind::OemUtility, "Painel da Acer que roda em segundo plano."),
        ("acer jumpstart", BloatKind::OemUtility, "Assistente inicial da Acer."),
        ("asus giftbox", BloatKind::OemUtility, "Vitrine de aplicativos patrocinados da ASUS."),
        ("asus webstorage", BloatKind::OemUtility, "Armazenamento em nuvem da ASUS, em teste."),
        ("mcafee", BloatKind::TrialSecurity, "Antivírus em teste que veio de fábrica. Expira e passa a pedir renovação — e brigar com o Defender enquanto isso."),
        ("norton security", BloatKind::TrialSecurity, "Antivírus em teste que veio de fábrica."),
        ("norton 360", BloatKind::TrialSecurity, "Antivírus em teste que veio de fábrica."),
        ("avast free", BloatKind::TrialSecurity, "Antivírus de terceiro rodando junto com o Defender."),
        ("avg antivirus", BloatKind::TrialSecurity, "Antivírus de terceiro rodando junto com o Defender."),
        ("wildtangent", BloatKind::Sponsored, "Plataforma de jogos patrocinada, pré-instalada de fábrica."),
        ("wild tangent", BloatKind::Sponsored, "Plataforma de jogos patrocinada, pré-instalada de fábrica."),
        ("booking.com", BloatKind::Sponsored, "Atalho comercial pré-instalado."),
        ("keeper password", BloatKind::Sponsored, "Gerenciador de senhas em teste, pré-instalado de fábrica."),
        ("expressvpn", BloatKind::Sponsored, "VPN em teste, pré-instalada de fábrica."),
    ]
}

pub fn lista_padroes() -> (r: Vec<(&'static str, BloatKind, &'static str)>)
    ensures
        r@ == padroes(),
{
    let r = vec![
        ("hp support assistant", BloatKind::OemUtility, "Utilitário da HP que roda em segundo plano procurando atualizações."),
        ("hp jumpstart", BloatKind::OemUtility, "Assistente de configuração da HP, útil só na primeira semana de uso."),
        ("hp documentation", BloatKind::OemUtility, "Manuais da HP, disponíveis no site da fabricante."),
        ("dell supportassist", BloatKind::OemUtility, "Utilitário da Dell que roda em segundo plano verificando o computador."),
        ("dell digital delivery", BloatKind::OemUtility, "Entregador de software da Dell, usado só na primeira configuração."),
        ("dell customer connect", BloatKind::OemUtility, "Canal de comunicação comercial da Dell."),
        ("lenovo vantage", BloatKind::OemUtility, "Painel da Lenovo com atualizações e propaganda de acessórios."),
        ("lenovo now", BloatKind::OemUtility, "Ofertas da Lenovo apresentadas dentro do Windows."),
        ("acer care center", BloatKind::OemUtility, "Painel da Acer que roda em segundo plano."),
        ("acer jumpstart", BloatKind::OemUtility, "Assistente inicial da Acer."),
        ("asus giftbox", BloatKind::OemUtility, "Vitrine de aplicativos patrocinados da ASUS."),
        ("asus webstorage", BloatKind::OemUtility, "Armazenamento em nuvem da ASUS, em teste."),
        ("mcafee", BloatKind::TrialSecurity, "Antivírus em teste que veio de fábrica. Expira e passa a pedir renovação — e brigar com o Defender enquanto isso."),
        ("norton security", BloatKind::TrialSecurity, "Antivírus em teste que veio de fábrica."),
        ("norton 360", BloatKind::TrialSecurity, "Antivírus em teste que veio de fábrica."),
        ("avast free", BloatKind::TrialSecurity, "Antivírus de terceiro rodando junto com o Defender."),
        ("avg antivirus", BloatKind::TrialSecurity, "Antivírus de terceiro rodando junto com o Defender."),
        ("wildtangent", BloatKind::Sponsored, "Plataforma de jogos patrocinada, pré-instalada de fábrica."),
        ("wild tangent", BloatKind::Sponsored, "Plataforma de jogos patrocinada, pré-instalada de fábrica."),
        ("booking.com", BloatKind::Sponsored, "Atalho comercial pré-instalado."),
        ("keeper password", BloatKind::Sponsored, "Gerenciador de senhas em teste, pré-instalado de fábrica."),
        ("expressvpn", BloatKind::Sponsored, "VPN em teste, pré-instalada de fábrica."),
    ];
    assert(r@ =~= padroes());
    r
}

/// O primeiro padrão, a partir da posição `k`, cujo termo aparece no texto.
pub open spec fn primeiro_padrao(a: Seq<char>, k: int) -> Option<(BloatKind, Seq<char>)>
    decreases padroes().len() - k,
{
    if k < 0 || k >= padroes().len() {
        None
    } else if contains(a, padroes()[k].0@) {
        Some((padroes()[k].1, padroes()[k].2@))
    } else {
        primeiro_padrao(a, k + 1)
    }
}

/// A proteção vem primeiro: com "driver" no nome, nenhuma regra seguinte avalia.
pub open spec fn spec_classificar(nome: Seq<char>, editor: Seq<char>) -> Option<(BloatKind, Seq<char>)> {
    if spec_protegido(nome, editor) {
        None
    } else {
        primeiro_padrao(alvo(nome, editor), 0)
    }
}

pub open spec fn classificacao_vista(r: Option<(BloatKind, String)>) -> Option<(BloatKind, Seq<char>)> {
    match r {
        Some((k, m)) => Some((k, m@)),
        None => None,
    }
}

proof fn lema_primeiro_padrao(a: Seq<char>, k: int)
    requires
        0 <= k <= padroes().len(),
    ensures
        primeiro_padrao(a, k) matches Some(r) ==> exists|j: int|
            k <= j < padroes().len() && contains(a, (#[trigger] padroes()[j]).0@) && r == (padroes()[j].1, padroes()[j].2@)
                && forall|t: int| k <= t < j ==> !contains(a, (#[trigger] padroes()[t]).0@),
        primeiro_padrao(a, k) is None <==> forall|j: int| k <= j < padroes().len() ==> !contains(
            a,
            (#[trigger] padroes()[j]).0@,
        ),
    decreases padroes().len() - k,
{
    if k < padroes().len() {
        lema_primeiro_padrao(a, k + 1);
    }
}

/// A proteção vence qualquer padrão; sem ela, vale o primeiro padrão da lista cujo termo aparece em
/// "nome editor" em minúsculas, e nenhum quando nenhum aparece.
pub proof fn lei_protecao_vence_e_o_primeiro_padrao_decide(nome: Seq<char>, editor: Seq<char>)
    ensures
        spec_protegido(nome, editor) ==> spec_classificar(nome, editor) is None,
        !spec_protegido(nome, editor) ==> {
            &&& spec_classificar(nome, editor) matches Some(r) ==> exists|j: int|
                0 <= j < padroes().len() && contains(alvo(nome, editor), (#[trigger] padroes()[j]).0@) && r == (
                padroes()[j].1,
                padroes()[j].2@,
            ) && forall|t: int| 0 <= t < j ==> !contains(alvo(nome, editor), (#[trigger] padroes()[t]).0@)
            &&& spec_classificar(nome, editor) is None <==> forall|j: int|
                0 <= j < padroes().len() ==> !contains(alvo(nome, editor), (#[trigger] padroes()[j]).0@)
        },
{
    lema_primeiro_padrao(alvo(nome, editor), 0);
}

pub fn classificar(nome: &str, editor: &str) -> (r: Option<(BloatKind, String)>)
    ensures
        classificacao_vista(r) == spec_classificar(nome@, editor@),
{
    if protegido(nome, editor) {
        return None;
    }
    let a = alvo_exec(nome, editor);
    let pads = lista_padroes();
    let mut k: usize = pads.len();
    let mut achado: Option<(BloatKind, &'static str)> = None;
    while k > 0
        invariant
            k <= pads@.len(),
            pads@ == padroes(),
            a@ == alvo(nome@, editor@),
            match achado {
                Some((b, m)) => primeiro_padrao(a@, k as int) == Some((b, m@)),
                None => primeiro_padrao(a@, k as int) is None,
            },
        decreases k,
    {
        k = k - 1;
        let (termo, kind, motivo) = pads[k];
        let t = chars_of(termo);
        if contains_exec(a.as_slice(), t.as_slice()) {
            achado = Some((kind, motivo));
        }
    }
    match achado {
        Some((b, m)) => Some((b, m.to_string())),
        None => None,
    }
}

/// Curta e conservadora: nada que alguém use de verdade.
pub open spec fn apps_da_loja() -> Seq<(&'static str, &'static str)> {
    seq![
        ("Microsoft.BingNews", "Notícias da Microsoft, pré-instalado."),
        ("Microsoft.BingWeather", "Previsão do tempo da Microsoft, pré-instalado."),
        ("Microsoft.GetHelp", "Assistente de suporte da Microsoft."),
        ("Microsoft.Getstarted", "Tour de boas-vindas do Windows."),
        ("Microsoft.MicrosoftSolitaireCollection", "Coleção de paciência, com anúncios."),
        ("Microsoft.MicrosoftOfficeHub", "Atalho para comprar o Office."),
        ("Microsoft.MixedReality.Portal", "Portal de realidade mista, sem uso sem o óculos."),
        ("Microsoft.People", "Agenda de contatos, substituída pelo Outlook."),
        ("Microsoft.SkypeApp", "Skype pré-instalado, descontinuado pela Microsoft."),
        ("Clipchamp.Clipchamp", "Editor de vídeo pré-instalado."),
    ]
}

pub fn lista_apps_da_loja() -> (r: Vec<(&'static str, &'static str)>)
    ensures
        r@ == apps_da_loja(),
{
    let r = vec![
        ("Microsoft.BingNews", "Notícias da Microsoft, pré-instalado."),
        ("Microsoft.BingWeather", "Previsão do tempo da Microsoft, pré-instalado."),
        ("Microsoft.GetHelp", "Assistente de suporte da Microsoft."),
        ("Microsoft.Getstarted", "Tour de boas-vindas do Windows."),
        ("Microsoft.MicrosoftSolitaireCollection", "Coleção de paciência, com anúncios."),
        ("Microsoft.MicrosoftOfficeHub", "Atalho para comprar o Office."),
        ("Microsoft.MixedReality.Portal", "Portal de realidade mista, sem uso sem o óculos."),
        ("Microsoft.People", "Agenda de contatos, substituída pelo Outlook."),
        ("Microsoft.SkypeApp", "Skype pré-instalado, descontinuado pela Microsoft."),
        ("Clipchamp.Clipchamp", "Editor de vídeo pré-instalado."),
    ];
    assert(r@ =~= apps_da_loja());
    r
}

/// Os caracteres que um identificador de pacote pode ter: letras e algarismos ASCII, ponto, sublinhado e hífen.
pub open spec fn caractere_de_pacote(c: char) -> bool {
    ('0' <= c && c <= '9') || ('a' <= c && c <= 'z') || ('A' <= c && c <= 'Z') || c == '.' || c == '_' || c == '-'
}

pub open spec fn pacote_valido(p: Seq<char>) -> bool {
    p.len() > 0 && forall|i: int| 0 <= i < p.len() ==> caractere_de_pacote(#[trigger] p[i])
}

/// O comando que remove o app da Loja, ou a recusa: o nome entra num comando do PowerShell, e só passam os
/// caracteres que um pacote pode ter.
pub fn comando_de_remocao(package: &str) -> (r: Result<String, String>)
    ensures
        match r {
            Ok(cmd) => pacote_valido(package@) && cmd@ == "Remove-AppxPackage -Package '"@ + package@
                + "' -ErrorAction Stop"@,
            Err(m) => !pacote_valido(package@) && m@ == "Identificador de pacote inválido."@,
        },
{
    let cs = chars_of(package);
    let mut i: usize = 0;
    let mut ok = cs.len() > 0;
    while i < cs.len() && ok
        invariant
            0 <= i <= cs@.len(),
            cs@ == package@,
            ok ==> cs@.len() > 0,
            ok ==> forall|k: int| 0 <= k < i ==> caractere_de_pacote(#[trigger] cs@[k]),
            !ok ==> !pacote_valido(package@),
        decreases cs@.len() - i + (if ok { 1int } else { 0int }),
    {
        let c = cs[i];
        if !(('0' <= c && c <= '9') || ('a' <= c && c <= 'z') || ('A' <= c && c <= 'Z') || c == '.' || c == '_'
            || c == '-') {
            assert(!caractere_de_pacote(cs@[i as int]));
            ok = false;
        } else {
            i = i + 1;
        }
    }
    if !ok {
        return Err("Identificador de pacote inválido.".to_string());
    }
    let mut v = chars_of("Remove-AppxPackage -Package '");
    anexar(&mut v, package);
    anexar(&mut v, "' -ErrorAction Stop");
    Ok(string_of(v.as_slice()))
}

/// A resposta à remoção, dado o que o comando devolveu.
pub fn resultado_da_remocao(saida: Result<(), String>) -> (r: Result<String, String>)
    ensures
        match saida {
            Ok(_) => r matches Ok(m) && m@ == "Aplicativo removido. Ele pode ser reinstalado pela Microsoft Store."@,
            Err(e) => r matches Err(m) && m@ == "Não foi possível remover: "@ + e@,
        },
{
    match saida {
        Ok(()) => Ok("Aplicativo removido. Ele pode ser reinstalado pela Microsoft Store.".to_string()),
        Err(e) => {
            let mut v = chars_of("Não foi possível remover: ");
            anexar(&mut v, e.as_str());
            Err(string_of(v.as_slice()))
        },
    }
}

/// O item visto como valores: nome, editor, tipo, tamanho em KB, motivo, pacote e se sai por aqui.
pub type ItemVisto = (Seq<char>, Seq<char>, BloatKind, Option<u32>, Seq<char>, Option<Seq<char>>, bool);

pub open spec fn opt_texto(o: Option<String>) -> Option<Seq<char>> {
    match o {
        Some(s) => Some(s@),
        None => None,
    }
}

pub open spec fn item_visto(x: BloatItem) -> ItemVisto {
    (x.name@, x.publisher@, x.kind, x.size_kb, x.reason@, opt_texto(x.package), x.removable_here)
}

pub open spec fn itens_vistos(xs: Seq<BloatItem>) -> Seq<ItemVisto> {
    xs.map_values(|x: BloatItem| item_visto(x))
}

/// O tamanho como chave de ordem: quem declara tamanho vem antes de quem não declara, e o maior primeiro.
pub open spec fn chave(x: ItemVisto) -> int {
    match x.3 {
        Some(k) => k as int + 1,
        None => 0,
    }
}

/// Os itens de uma chave, na ordem em que aparecem.
pub open spec fn com_chave(s: Seq<ItemVisto>, k: int) -> Seq<ItemVisto>
    decreases s.len(),
{
    if s.len() == 0 {
        seq![]
    } else if chave(s.last()) == k {
        com_chave(s.drop_last(), k).push(s.last())
    } else {
        com_chave(s.drop_last(), k)
    }
}

pub open spec fn maiores_primeiro(r: Seq<ItemVisto>) -> bool {
    forall|i: int, j: int| 0 <= i < j < r.len() ==> chave(#[trigger] r[i]) >= chave(#[trigger] r[j])
}

/// `r` é `s` com os maiores primeiro, sem trocar a ordem entre itens de mesmo tamanho.
pub open spec fn ordenado_de(r: Seq<ItemVisto>, s: Seq<ItemVisto>) -> bool {
    &&& maiores_primeiro(r)
    &&& forall|k: int| #[trigger] com_chave(r, k) == com_chave(s, k)
}

proof fn lema_com_chave_soma(a: Seq<ItemVisto>, b: Seq<ItemVisto>, k: int)
    ensures
        com_chave(a + b, k) == com_chave(a, k) + com_chave(b, k),
    decreases b.len(),
{
    if b.len() == 0 {
        assert(a + b =~= a);
    } else {
        lema_com_chave_soma(a, b.drop_last(), k);
        assert((a + b).drop_last() =~= a + b.drop_last());
        assert((a + b).last() == b.last());
    }
}

proof fn lema_com_chave_vazio(s: Seq<ItemVisto>, k: int)
    requires
        forall|i: int| 0 <= i < s.len() ==> chave(#[trigger] s[i]) != k,
    ensures
        com_chave(s, k) == Seq::<ItemVisto>::empty(),
    decreases s.len(),
{
    if s.len() > 0 {
        lema_com_chave_vazio(s.drop_last(), k);
    }
}

/// Coloca `x` depois de todos os itens de tamanho maior ou igual.
proof fn lema_insercao(r: Seq<ItemVisto>, x: ItemVisto, p: int, k: int)
    requires
        0 <= p <= r.len(),
        maiores_primeiro(r),
        forall|i: int| 0 <= i < p ==> chave(#[trigger] r[i]) >= chave(x),
        p < r.len() ==> chave(r[p]) < chave(x),
    ensures
        maiores_primeiro(r.insert(p, x)),
        com_chave(r.insert(p, x), k) == if k == chave(x) {
            com_chave(r, k).push(x)
        } else {
            com_chave(r, k)
        },
{
    let a = r.take(p);
    let b = r.skip(p);
    assert(r =~= a + b);
    assert(r.insert(p, x) =~= a + seq![x] + b);
    assert forall|i: int| 0 <= i < b.len() implies chave(#[trigger] b[i]) < chave(x) by {
        assert(b[i] == r[p + i]);
        if i > 0 {
            assert(chave(r[p]) >= chave(r[p + i]));
        }
    }
    lema_com_chave_soma(a + seq![x], b, k);
    lema_com_chave_soma(a, seq![x], k);
    lema_com_chave_soma(a, b, k);
    assert(seq![x].drop_last() =~= Seq::<ItemVisto>::empty());
    if k == chave(x) {
        lema_com_chave_vazio(b, k);
        assert(com_chave(r, k) =~= com_chave(a, k));
    }
    let n = r.insert(p, x);
    assert forall|i: int, j: int| 0 <= i < j < n.len() implies chave(#[trigger] n[i]) >= chave(#[trigger] n[j]) by {
        if j < p {
            assert(n[i] == r[i] && n[j] == r[j]);
        } else if j == p {
            assert(n[i] == r[i]);
        } else if i == p {
            assert(n[j] == b[j - p - 1]);
        } else if i < p {
            assert(n[i] == r[i] && n[j] == r[j - 1]);
        } else {
            assert(n[i] == r[i - 1] && n[j] == r[j - 1]);
        }
    }
}

fn chave_exec(x: &BloatItem) -> (r: u64)
    ensures
        r == chave(item_visto(*x)),
{
    match x.size_kb {
        Some(k) => k as u64 + 1,
        None => 0,
    }
}

/// Os de tamanho desconhecido vão para o fim: não dá para afirmar que são pequenos.
fn ordenar_por_tamanho(itens: Vec<BloatItem>) -> (r: Vec<BloatItem>)
    ensures
        ordenado_de(itens_vistos(r@), itens_vistos(itens@)),
{
    let ghost entrada = itens_vistos(itens@);
    let mut resto = itens;
    let total = resto.len();
    let mut r: Vec<BloatItem> = Vec::new();
    let mut feitos: usize = 0;
    while resto.len() > 0
        invariant
            total == entrada.len(),
            feitos + resto@.len() == entrada.len(),
            itens_vistos(resto@) == entrada.skip(feitos as int),
            maiores_primeiro(itens_vistos(r@)),
            forall|k: int| #[trigger] com_chave(itens_vistos(r@), k) == com_chave(entrada.take(feitos as int), k),
        decreases resto@.len(),
    {
        let ghost rv = itens_vistos(r@);
        assert(entrada.take(feitos + 1).drop_last() =~= entrada.take(feitos as int));
        assert(entrada.take(feitos + 1).last() == entrada[feitos as int]);
        assert(itens_vistos(resto@)[0] == entrada[feitos as int]);
        let x = resto.remove(0);
        assert(itens_vistos(resto@) =~= entrada.skip(feitos + 1));
        let ghost xv = item_visto(x);
        let kx = chave_exec(&x);
        let mut p: usize = 0;
        while p < r.len() && chave_exec(&r[p]) >= kx
            invariant
                0 <= p <= r@.len(),
                rv == itens_vistos(r@),
                kx == chave(xv),
                forall|i: int| 0 <= i < p ==> chave(#[trigger] rv[i]) >= chave(xv),
            decreases r@.len() - p,
        {
            assert(rv[p as int] == item_visto(r@[p as int]));
            p = p + 1;
        }
        proof {
            if p < rv.len() {
                assert(rv[p as int] == item_visto(r@[p as int]));
            }
            assert forall|k: int| #[trigger] com_chave(rv.insert(p as int, xv), k) == com_chave(
                entrada.take(feitos + 1),
                k,
            ) by {
                lema_insercao(rv, xv, p as int, k);
            }
            lema_insercao(rv, xv, p as int, 0);
        }
        r.insert(p, x);
        assert(itens_vistos(r@) =~= rv.insert(p as int, xv));
        feitos = feitos + 1;
    }
    assert(entrada.take(entrada.len() as int) =~= entrada);
    r
}

/// O item que um programa instalado vira, quando um padrão o marca. Programa comum nunca sai por aqui: abrir o
/// desinstalador oficial é mais seguro que imitá-lo.
pub open spec fn item_do_programa(p: ProgramaInstalado) -> Option<ItemVisto> {
    match spec_classificar(p.nome@, p.editor@) {
        Some((kind, reason)) => Some(
            (p.nome@, p.editor@, kind, if p.tamanho_kb > 0 { Some(p.tamanho_kb) } else { None }, reason, None, false),
        ),
        None => None,
    }
}

pub open spec fn itens_dos_programas(ps: Seq<ProgramaInstalado>) -> Seq<ItemVisto>
    decreases ps.len(),
{
    if ps.len() == 0 {
        seq![]
    } else {
        match item_do_programa(ps.last()) {
            Some(x) => itens_dos_programas(ps.drop_last()).push(x),
            None => itens_dos_programas(ps.drop_last()),
        }
    }
}

/// O motivo do primeiro app da lista, a partir da posição `k`, com esse nome.
pub open spec fn motivo_do_app(nome: Seq<char>, k: int) -> Option<Seq<char>>
    decreases apps_da_loja().len() - k,
{
    if k < 0 || k >= apps_da_loja().len() {
        None
    } else if apps_da_loja()[k].0@ == nome {
        Some(apps_da_loja()[k].1@)
    } else {
        motivo_do_app(nome, k + 1)
    }
}

/// App da Loja sai pela chamada do Windows e volta pela Loja.
pub open spec fn item_do_app(a: AppLido) -> Option<ItemVisto> {
    match a.name {
        Some(n) => match motivo_do_app(n@, 0) {
            Some(m) => Some(
                (
                    n@,
                    "Microsoft Store"@,
                    BloatKind::StoreApp,
                    None,
                    m + " Pode ser reinstalado pela Loja quando quiser."@,
                    opt_texto(a.package_full_name),
                    true,
                ),
            ),
            None => None,
        },
        None => None,
    }
}

pub open spec fn itens_dos_apps(apps: Seq<AppLido>) -> Seq<ItemVisto>
    decreases apps.len(),
{
    if apps.len() == 0 {
        seq![]
    } else {
        match item_do_app(apps.last()) {
            Some(x) => itens_dos_apps(apps.drop_last()).push(x),
            None => itens_dos_apps(apps.drop_last()),
        }
    }
}

pub open spec fn sem_tamanho(xs: Seq<ItemVisto>) -> nat
    decreases xs.len(),
{
    if xs.len() == 0 {
        0
    } else {
        sem_tamanho(xs.drop_last()) + if xs.last().3 is None {
            1nat
        } else {
            0nat
        }
    }
}

fn copia_opt(o: &Option<String>) -> (r: Option<String>)
    ensures
        r == *o,
{
    match o {
        Some(s) => Some(s.clone()),
        None => None,
    }
}

fn motivo_do_app_exec(nome: &str) -> (r: Option<&'static str>)
    ensures
        match r {
            Some(m) => motivo_do_app(nome@, 0) == Some(m@),
            None => motivo_do_app(nome@, 0) is None,
        },
{
    let lista = lista_apps_da_loja();
    let mut k: usize = lista.len();
    let mut achado: Option<&'static str> = None;
    while k > 0
        invariant
            k <= lista@.len(),
            lista@ == apps_da_loja(),
            match achado {
                Some(m) => motivo_do_app(nome@, k as int) == Some(m@),
                None => motivo_do_app(nome@, k as int) is None,
            },
        decreases k,
    {
        k = k - 1;
        if str_eq(lista[k].0, nome) {
            achado = Some(lista[k].1);
        }
    }
    achado
}

/// O relatório de programas de fábrica: `programas` são os da lista de desinstalação (lidos), `apps` os da Loja
/// ou por que não se leram.
pub fn analyze(programas: &[ProgramaInstalado], apps: Result<Vec<AppLido>, String>) -> (r: BloatReport)
    ensures
        ordenado_de(
            itens_vistos(r.items@),
            itens_dos_programas(programas@) + match apps {
                Ok(a) => itens_dos_apps(a@),
                Err(_) => seq![],
            },
        ),
        r.unmeasured == sem_tamanho(itens_vistos(r.items@)),
        r.programs_scanned == programas@.len(),
        textos(r.lacunas@) == match apps {
            Ok(_) => Seq::<Seq<char>>::empty(),
            Err(e) => seq![e@],
        },
{
    let mut items: Vec<BloatItem> = Vec::new();
    let mut i: usize = 0;
    while i < programas.len()
        invariant
            0 <= i <= programas@.len(),
            itens_vistos(items@) == itens_dos_programas(programas@.take(i as int)),
        decreases programas@.len() - i,
    {
        assert(programas@.take(i + 1).drop_last() =~= programas@.take(i as int));
        assert(programas@.take(i + 1).last() == programas@[i as int]);
        let p = &programas[i];
        match classificar(p.nome.as_str(), p.editor.as_str()) {
            Some((kind, reason)) => {
                let ghost velho = itens_vistos(items@);
                let x = BloatItem {
                    name: p.nome.clone(),
                    publisher: p.editor.clone(),
                    kind,
                    size_kb: if p.tamanho_kb > 0 { Some(p.tamanho_kb) } else { None },
                    reason,
                    package: None,
                    removable_here: false,
                };
                items.push(x);
                assert(itens_vistos(items@) =~= velho.push(item_visto(x)));
            },
            None => {},
        }
        i = i + 1;
    }
    assert(programas@.take(programas@.len() as int) =~= programas@);
    let ghost dos_programas = itens_vistos(items@);
    let mut lacunas: Vec<String> = Vec::new();
    let lista_apps = match apps {
        Ok(a) => a,
        Err(erro) => {
            lacunas.push(erro);
            Vec::new()
        },
    };
    let mut j: usize = 0;
    while j < lista_apps.len()
        invariant
            0 <= j <= lista_apps@.len(),
            itens_vistos(items@) == dos_programas + itens_dos_apps(lista_apps@.take(j as int)),
        decreases lista_apps@.len() - j,
    {
        assert(lista_apps@.take(j + 1).drop_last() =~= lista_apps@.take(j as int));
        assert(lista_apps@.take(j + 1).last() == lista_apps@[j as int]);
        let a = &lista_apps[j];
        match &a.name {
            Some(nome) => {
                match motivo_do_app_exec(nome.as_str()) {
                    Some(motivo) => {
                        let ghost velho = itens_vistos(items@);
                        let mut reason = chars_of(motivo);
                        anexar(&mut reason, " Pode ser reinstalado pela Loja quando quiser.");
                        let x = BloatItem {
                            name: nome.clone(),
                            publisher: "Microsoft Store".to_string(),
                            kind: BloatKind::StoreApp,
                            size_kb: None,
                            reason: string_of(reason.as_slice()),
                            package: copia_opt(&a.package_full_name),
                            removable_here: true,
                        };
                        items.push(x);
                        assert(itens_vistos(items@) =~= velho.push(item_visto(x)));
                    },
                    None => {},
                }
            },
            None => {},
        }
        j = j + 1;
    }
    assert(lista_apps@.take(lista_apps@.len() as int) =~= lista_apps@);
    let items = ordenar_por_tamanho(items);
    let ghost vs = itens_vistos(items@);
    let mut unmeasured: usize = 0;
    let mut k: usize = 0;
    while k < items.len()
        invariant
            0 <= k <= items@.len(),
            vs == itens_vistos(items@),
            unmeasured == sem_tamanho(vs.take(k as int)),
            unmeasured <= k,
        decreases items@.len() - k,
    {
        assert(vs.take(k + 1).drop_last() =~= vs.take(k as int));
        assert(vs.take(k + 1).last() == item_visto(items@[k as int]));
        if items[k].size_kb.is_none() {
            unmeasured = unmeasured + 1;
        }
        k = k + 1;
    }
    assert(vs.take(items@.len() as int) =~= vs);
    proof {
        assert(textos(lacunas@) =~= match apps {
            Ok(_) => Seq::<Seq<char>>::empty(),
            Err(e) => seq![e@],
        });
    }
    BloatReport { items, unmeasured, programs_scanned: programas.len(), lacunas }
}

} // verus!
