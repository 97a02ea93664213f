//! Programas úteis instalados pelo winget, da fonte oficial de cada fabricante. Identificador errado instala outro
//! programa: todos foram conferidos contra o repositório público. O que está instalado sai do registro, e a lista
//! funciona sem winget, só sem instalar.

use vstd::prelude::*;
use crate::texto::{chars_of, contains, contains_exec, minusculas, to_lowercase};

verus! {

broadcast use vstd::string::group_string_axioms;

#[derive(Debug, Clone, Copy, PartialEq, Eq, PartialOrd, Ord, Structural)]
pub enum Categoria {
    Sistema,
    Base,
    Plataformas,
    Monitoramento,
    Web,
    Midia,
}

pub open spec fn spec_nome(c: Categoria) -> Seq<char> {
    match c {
        Categoria::Sistema => "Sistema"@,
        Categoria::Base => "Base"@,
        Categoria::Plataformas => "Plataformas"@,
        Categoria::Monitoramento => "Monitoramento"@,
        Categoria::Web => "Navegador"@,
        Categoria::Midia => "Mídia"@,
    }
}

impl Categoria {
    pub fn nome(self) -> (r: &'static str)
        ensures
            r@ == spec_nome(self),
    {
        match self {
            Categoria::Sistema => "Sistema",
            Categoria::Base => "Base",
            Categoria::Plataformas => "Plataformas",
            Categoria::Monitoramento => "Monitoramento",
            Categoria::Web => "Navegador",
            Categoria::Midia => "Mídia",
        }
    }
}

#[derive(Debug, Clone, Copy, PartialEq, Eq)]
pub struct Programa {
    pub id: &'static str,
    pub nome: &'static str,
    /// Sem adjetivo de propaganda.
    pub descricao: &'static str,
    /// CONFERIDO contra o repositório público.
    pub winget: &'static str,
    pub categoria: Categoria,
    /// Vários porque o nome muda com a versão e com o idioma; todos em minúsculas.
    pub instalado_como: &'static [&'static str],
}

/// O catálogo de programas, na ordem em que a tela os mostra.
pub open spec fn spec_catalogo() -> Seq<Programa> {
    seq![
        Programa {
            id: "7zip",
            nome: "7-Zip",
            descricao: "Abre e cria arquivos compactados.",
            winget: "7zip.7zip",
            categoria: Categoria::Sistema,
            instalado_como: &["7-zip"],
        },
        Programa {
            id: "winrar",
            nome: "WinRAR",
            descricao: "Abre .rar. Pago depois do período de avaliação.",
            winget: "RARLab.WinRAR",
            categoria: Categoria::Sistema,
            instalado_como: &["winrar"],
        },
        Programa {
            id: "everything",
            nome: "Everything",
            descricao: "Acha qualquer arquivo do disco na hora, pelo nome.",
            winget: "voidtools.Everything",
            categoria: Categoria::Sistema,
            instalado_como: &["everything"],
        },
        Programa {
            id: "notepadpp",
            nome: "Notepad++",
            descricao: "Editor de texto para mexer em arquivo de configuração.",
            winget: "Notepad++.Notepad++",
            categoria: Categoria::Sistema,
            instalado_como: &["notepad++"],
        },
        Programa {
            id: "procexp",
            nome: "Process Explorer",
            descricao: "Gerenciador de tarefas da Microsoft, com o que o do Windows esconde.",
            winget: "Microsoft.Sysinternals.ProcessExplorer",
            categoria: Categoria::Sistema,
            instalado_como: &["process explorer"],
        },
        Programa {
            id: "autoruns",
            nome: "Autoruns",
            descricao: "Mostra tudo que o Windows abre sozinho — bem além da aba Inicializar.",
            winget: "Microsoft.Sysinternals.Autoruns",
            categoria: Categoria::Sistema,
            instalado_como: &["autoruns"],
        },
        Programa {
            id: "geek",
            nome: "Geek Uninstaller",
            descricao: "Desinstala e varre o que o desinstalador do programa deixou para trás.",
            winget: "GeekUninstaller.GeekUninstaller",
            categoria: Categoria::Sistema,
            instalado_como: &["geek uninstaller"],
        },
        Programa {
            id: "openshell",
            nome: "Open-Shell",
            descricao: "Devolve o menu Iniciar clássico.",
            winget: "Open-Shell.Open-Shell-Menu",
            categoria: Categoria::Sistema,
            instalado_como: &["open-shell", "open shell"],
        },
        Programa {
            id: "vcredist",
            nome: "Visual C++ 2015-2022 (x64)",
            descricao: "Runtime que a maior parte dos jogos exige. Faltando, o jogo fecha na abertura.",
            winget: "Microsoft.VCRedist.2015+.x64",
            categoria: Categoria::Base,
            instalado_como: &["visual c++ 2015", "visual c++ 2017", "visual c++ 2019", "visual c++ 2022"],
        },
        Programa {
            id: "dotnet8",
            nome: ".NET Desktop Runtime 8",
            descricao: "Runtime exigido por programas e alguns jogos mais novos.",
            winget: "Microsoft.DotNet.DesktopRuntime.8",
            categoria: Categoria::Base,
            instalado_como: &["windows desktop runtime - 8"],
        },
        Programa {
            id: "java",
            nome: "Java Runtime",
            descricao: "Necessário para Minecraft Java e para alguns utilitários.",
            winget: "Oracle.JavaRuntimeEnvironment",
            categoria: Categoria::Base,
            instalado_como: &["java 8", "java(tm)", "java se"],
        },
        Programa {
            id: "steam",
            nome: "Steam",
            descricao: "Loja e biblioteca da Valve.",
            winget: "Valve.Steam",
            categoria: Categoria::Plataformas,
            instalado_como: &["steam"],
        },
        Programa {
            id: "epic",
            nome: "Epic Games Launcher",
            descricao: "Loja e biblioteca da Epic.",
            winget: "EpicGames.EpicGamesLauncher",
            categoria: Categoria::Plataformas,
            instalado_como: &["epic games launcher"],
        },
        Programa {
            id: "discord",
            nome: "Discord",
            descricao: "Voz e texto. A sobreposição dele custa quadros em máquina fraca.",
            winget: "Discord.Discord",
            categoria: Categoria::Plataformas,
            instalado_como: &["discord"],
        },
        Programa {
            id: "hwinfo",
            nome: "HWiNFO",
            descricao: "Lê os sensores que o Windows não publica: temperatura, clock e potência.",
            winget: "REALiX.HWiNFO",
            categoria: Categoria::Monitoramento,
            instalado_como: &["hwinfo"],
        },
        Programa {
            id: "crystaldiskinfo",
            nome: "CrystalDiskInfo",
            descricao: "Saúde do disco pelo S.M.A.R.T. É onde se vê um SSD morrendo.",
            winget: "CrystalDewWorld.CrystalDiskInfo",
            categoria: Categoria::Monitoramento,
            instalado_como: &["crystaldiskinfo"],
        },
        Programa {
            id: "gpuz",
            nome: "GPU-Z",
            descricao: "Identifica a placa de vídeo e mostra o que o driver expõe dela.",
            winget: "TechPowerUp.GPU-Z",
            categoria: Categoria::Monitoramento,
            instalado_como: &["gpu-z"],
        },
        Programa {
            id: "afterburner",
            nome: "MSI Afterburner",
            descricao: "Curva de ventoinha e limite de potência da placa. Mexer aqui exige cuidado.",
            winget: "Guru3D.Afterburner",
            categoria: Categoria::Monitoramento,
            instalado_como: &["msi afterburner"],
        },
        Programa {
            id: "chrome",
            nome: "Google Chrome",
            descricao: "Navegador.",
            winget: "Google.Chrome",
            categoria: Categoria::Web,
            instalado_como: &["google chrome"],
        },
        Programa {
            id: "brave",
            nome: "Brave",
            descricao: "Navegador com bloqueio de anúncio embutido.",
            winget: "Brave.Brave",
            categoria: Categoria::Web,
            instalado_como: &["brave"],
        },
        Programa {
            id: "vlc",
            nome: "VLC",
            descricao: "Toca praticamente qualquer vídeo, sem pacote de codec.",
            winget: "VideoLAN.VLC",
            categoria: Categoria::Midia,
            instalado_como: &["vlc media player"],
        },
        Programa {
            id: "obs",
            nome: "OBS Studio",
            descricao: "Grava e transmite. Gravando, ele mesmo custa quadros.",
            winget: "OBSProject.OBSStudio",
            categoria: Categoria::Midia,
            instalado_como: &["obs studio"],
        },
    ]
}

pub fn catalogo() -> (r: Vec<Programa>)
    ensures
        r@ == spec_catalogo(),
{
    let r = vec![
        Programa {
            id: "7zip",
            nome: "7-Zip",
            descricao: "Abre e cria arquivos compactados.",
            winget: "7zip.7zip",
            categoria: Categoria::Sistema,
            instalado_como: &["7-zip"],
        },
        Programa {
            id: "winrar",
            nome: "WinRAR",
            descricao: "Abre .rar. Pago depois do período de avaliação.",
            winget: "RARLab.WinRAR",
            categoria: Categoria::Sistema,
            instalado_como: &["winrar"],
        },
        Programa {
            id: "everything",
            nome: "Everything",
            descricao: "Acha qualquer arquivo do disco na hora, pelo nome.",
            winget: "voidtools.Everything",
            categoria: Categoria::Sistema,
            instalado_como: &["everything"],
        },
        Programa {
            id: "notepadpp",
            nome: "Notepad++",
            descricao: "Editor de texto para mexer em arquivo de configuração.",
            winget: "Notepad++.Notepad++",
            categoria: Categoria::Sistema,
            instalado_como: &["notepad++"],
        },
        Programa {
            id: "procexp",
            nome: "Process Explorer",
            descricao: "Gerenciador de tarefas da Microsoft, com o que o do Windows esconde.",
            winget: "Microsoft.Sysinternals.ProcessExplorer",
            categoria: Categoria::Sistema,
            instalado_como: &["process explorer"],
        },
        Programa {
            id: "autoruns",
            nome: "Autoruns",
            descricao: "Mostra tudo que o Windows abre sozinho — bem além da aba Inicializar.",
            winget: "Microsoft.Sysinternals.Autoruns",
            categoria: Categoria::Sistema,
            instalado_como: &["autoruns"],
        },
        Programa {
            id: "geek",
            nome: "Geek Uninstaller",
            descricao: "Desinstala e varre o que o desinstalador do programa deixou para trás.",
            winget: "GeekUninstaller.GeekUninstaller",
            categoria: Categoria::Sistema,
            instalado_como: &["geek uninstaller"],
        },
        Programa {
            id: "openshell",
            nome: "Open-Shell",
            descricao: "Devolve o menu Iniciar clássico.",
            winget: "Open-Shell.Open-Shell-Menu",
            categoria: Categoria::Sistema,
            instalado_como: &["open-shell", "open shell"],
        },
        Programa {
            id: "vcredist",
            nome: "Visual C++ 2015-2022 (x64)",
            descricao: "Runtime que a maior parte dos jogos exige. Faltando, o jogo fecha na abertura.",
            winget: "Microsoft.VCRedist.2015+.x64",
            categoria: Categoria::Base,
            instalado_como: &["visual c++ 2015", "visual c++ 2017", "visual c++ 2019", "visual c++ 2022"],
        },
        Programa {
            id: "dotnet8",
            nome: ".NET Desktop Runtime 8",
            descricao: "Runtime exigido por programas e alguns jogos mais novos.",
            winget: "Microsoft.DotNet.DesktopRuntime.8",
            categoria: Categoria::Base,
            instalado_como: &["windows desktop runtime - 8"],
        },
        Programa {
            id: "java",
            nome: "Java Runtime",
            descricao: "Necessário para Minecraft Java e para alguns utilitários.",
            winget: "Oracle.JavaRuntimeEnvironment",
            categoria: Categoria::Base,
            instalado_como: &["java 8", "java(tm)", "java se"],
        },
        Programa {
            id: "steam",
            nome: "Steam",
            descricao: "Loja e biblioteca da Valve.",
            winget: "Valve.Steam",
            categoria: Categoria::Plataformas,
            instalado_como: &["steam"],
        },
        Programa {
            id: "epic",
            nome: "Epic Games Launcher",
            descricao: "Loja e biblioteca da Epic.",
            winget: "EpicGames.EpicGamesLauncher",
            categoria: Categoria::Plataformas,
            instalado_como: &["epic games launcher"],
        },
        Programa {
            id: "discord",
            nome: "Discord",
            descricao: "Voz e texto. A sobreposição dele custa quadros em máquina fraca.",
            winget: "Discord.Discord",
            categoria: Categoria::Plataformas,
            instalado_como: &["discord"],
        },
        Programa {
            id: "hwinfo",
            nome: "HWiNFO",
            descricao: "Lê os sensores que o Windows não publica: temperatura, clock e potência.",
            winget: "REALiX.HWiNFO",
            categoria: Categoria::Monitoramento,
            instalado_como: &["hwinfo"],
        },
        Programa {
            id: "crystaldiskinfo",
            nome: "CrystalDiskInfo",
            descricao: "Saúde do disco pelo S.M.A.R.T. É onde se vê um SSD morrendo.",
            winget: "CrystalDewWorld.CrystalDiskInfo",
            categoria: Categoria::Monitoramento,
            instalado_como: &["crystaldiskinfo"],
        },
        Programa {
            id: "gpuz",
            nome: "GPU-Z",
            descricao: "Identifica a placa de vídeo e mostra o que o driver expõe dela.",
            winget: "TechPowerUp.GPU-Z",
            categoria: Categoria::Monitoramento,
            instalado_como: &["gpu-z"],
        },
        Programa {
            id: "afterburner",
            nome: "MSI Afterburner",
            descricao: "Curva de ventoinha e limite de potência da placa. Mexer aqui exige cuidado.",
            winget: "Guru3D.Afterburner",
            categoria: Categoria::Monitoramento,
            instalado_como: &["msi afterburner"],
        },
        Programa {
            id: "chrome",
            nome: "Google Chrome",
            descricao: "Navegador.",
            winget: "Google.Chrome",
            categoria: Categoria::Web,
            instalado_como: &["google chrome"],
        },
        Programa {
            id: "brave",
            nome: "Brave",
            descricao: "Navegador com bloqueio de anúncio embutido.",
            winget: "Brave.Brave",
            categoria: Categoria::Web,
            instalado_como: &["brave"],
        },
        Programa {
            id: "vlc",
            nome: "VLC",
            descricao: "Toca praticamente qualquer vídeo, sem pacote de codec.",
            winget: "VideoLAN.VLC",
            categoria: Categoria::Midia,
            instalado_como: &["vlc media player"],
        },
        Programa {
            id: "obs",
            nome: "OBS Studio",
            descricao: "Grava e transmite. Gravando, ele mesmo custa quadros.",
            winget: "OBSProject.OBSStudio",
            categoria: Categoria::Midia,
            instalado_como: &["obs studio"],
        },
    ];
    assert(r@ =~= spec_catalogo());
    r
}

/// O primeiro programa do catálogo com este id.
pub open spec fn spec_por_id(id: Seq<char>, k: int) -> Option<Programa>
    decreases spec_catalogo().len() - k,
{
    if k < 0 || k >= spec_catalogo().len() {
        None
    } else if spec_catalogo()[k].id@ == id {
        Some(spec_catalogo()[k])
    } else {
        spec_por_id(id, k + 1)
    }
}

proof fn lema_por_id_a_partir(id: Seq<char>, k: int)
    requires
        0 <= k <= spec_catalogo().len(),
    ensures
        spec_por_id(id, k) matches Some(p) ==> p.id@ == id && exists|j: int|
            k <= j < spec_catalogo().len() && spec_catalogo()[j] == p && forall|t: int|
                k <= t < j ==> (#[trigger] spec_catalogo()[t]).id@ != id,
        spec_por_id(id, k) is None <==> forall|j: int| k <= j < spec_catalogo().len() ==> (
        #[trigger] spec_catalogo()[j]).id@ != id,
    decreases spec_catalogo().len() - k,
{
    if k < spec_catalogo().len() {
        lema_por_id_a_partir(id, k + 1);
    }
}

/// `por_id` acha o programa pelo id: o que devolve tem esse id e é o primeiro do catálogo com ele; `None` só quando
/// nenhum programa do catálogo tem o id.
pub proof fn lei_por_id_acha_o_primeiro_com_o_id(id: Seq<char>)
    ensures
        spec_por_id(id, 0) matches Some(p) ==> p.id@ == id && exists|j: int|
            0 <= j < spec_catalogo().len() && spec_catalogo()[j] == p && forall|t: int|
                0 <= t < j ==> (#[trigger] spec_catalogo()[t]).id@ != id,
        spec_por_id(id, 0) is None <==> forall|j: int| 0 <= j < spec_catalogo().len() ==> (
        #[trigger] spec_catalogo()[j]).id@ != id,
{
    lema_por_id_a_partir(id, 0);
}

pub fn por_id(id: &str) -> (r: Option<Programa>)
    ensures
        r == spec_por_id(id@, 0),
{
    let cat = catalogo();
    let alvo = chars_of(id);
    let mut k: usize = cat.len();
    let mut r: Option<Programa> = None;
    while k > 0
        invariant
            k <= cat@.len(),
            cat@ == spec_catalogo(),
            alvo@ == id@,
            r == spec_por_id(id@, k as int),
        decreases k,
    {
        k = k - 1;
        let c = chars_of(cat[k].id);
        if crate::texto::same_chars(c.as_slice(), alvo.as_slice()) {
            r = Some(cat[k]);
        }
    }
    r
}

#[derive(Debug, Clone, PartialEq)]
pub struct NaLista {
    pub id: String,
    pub nome: String,
    pub descricao: String,
    pub categoria: String,
    /// `None`: AUSENTE NÃO É "NÃO INSTALADO"; o botão "instalar" faria instalar de novo por cima.
    pub instalado: Option<bool>,
}

/// Algum nome instalado, em minúsculas, contém algum dos nomes pelos quais o programa se reconhece.
pub open spec fn spec_esta_instalado(p: Programa, instalados: Seq<Seq<char>>) -> bool {
    exists|i: int, j: int|
        0 <= i < instalados.len() && 0 <= j < p.instalado_como@.len() && contains(
            minusculas(#[trigger] instalados[i]),
            (#[trigger] p.instalado_como@[j])@,
        )
}

pub open spec fn strings(v: Seq<String>) -> Seq<Seq<char>> {
    v.map_values(|s: String| s@)
}

pub fn esta_instalado(programa: &Programa, instalados: &[String]) -> (r: bool)
    ensures
        r == spec_esta_instalado(*programa, strings(instalados@)),
{
    let mut i: usize = 0;
    while i < instalados.len()
        invariant
            0 <= i <= instalados@.len(),
            forall|a: int, b: int|
                0 <= a < i && 0 <= b < programa.instalado_como@.len() ==> !contains(
                    minusculas(#[trigger] strings(instalados@)[a]),
                    (#[trigger] programa.instalado_como@[b])@,
                ),
        decreases instalados@.len() - i,
    {
        let nome = chars_of(instalados[i].as_str());
        let n = to_lowercase(nome.as_slice());
        assert(strings(instalados@)[i as int] == instalados@[i as int]@);
        let mut j: usize = 0;
        while j < programa.instalado_como.len()
            invariant
                0 <= j <= programa.instalado_como@.len(),
                i < instalados@.len(),
                n@ == minusculas(strings(instalados@)[i as int]),
                forall|b: int|
                    0 <= b < j ==> !contains(n@, (#[trigger] programa.instalado_como@[b])@),
            decreases programa.instalado_como@.len() - j,
        {
            let p = chars_of(programa.instalado_como[j]);
            if contains_exec(n.as_slice(), p.as_slice()) {
                assert(contains(
                    minusculas(strings(instalados@)[i as int]),
                    programa.instalado_como@[j as int]@,
                ));
                return true;
            }
            j = j + 1;
        }
        i = i + 1;
    }
    false
}

/// O programa como a lista o mostra; `instalados` é `None` quando o registro não pôde ser lido.
pub open spec fn na_lista(p: Programa, instalados: Option<Seq<Seq<char>>>, n: NaLista) -> bool {
    &&& n.id@ == p.id@
    &&& n.nome@ == p.nome@
    &&& n.descricao@ == p.descricao@
    &&& n.categoria@ == spec_nome(p.categoria)
    &&& n.instalado == match instalados {
        Some(l) => Some(spec_esta_instalado(p, l)),
        None => None,
    }
}

pub open spec fn opt_strings(v: Option<&[String]>) -> Option<Seq<Seq<char>>> {
    match v {
        Some(l) => Some(strings(l@)),
        None => None,
    }
}

pub fn montar(instalados: Option<&[String]>) -> (r: Vec<NaLista>)
    ensures
        r@.len() == spec_catalogo().len(),
        forall|k: int| 0 <= k < r@.len() ==> na_lista(spec_catalogo()[k], opt_strings(instalados), #[trigger] r@[k]),
{
    let cat = catalogo();
    let mut r: Vec<NaLista> = Vec::new();
    let mut k: usize = 0;
    while k < cat.len()
        invariant
            0 <= k <= cat@.len(),
            cat@ == spec_catalogo(),
            r@.len() == k,
            forall|t: int| 0 <= t < r@.len() ==> na_lista(spec_catalogo()[t], opt_strings(instalados), #[trigger] r@[t]),
        decreases cat@.len() - k,
    {
        let p = cat[k];
        let instalado = match instalados {
            Some(lista) => Some(esta_instalado(&p, lista)),
            None => None,
        };
        r.push(
            NaLista {
                id: p.id.to_string(),
                nome: p.nome.to_string(),
                descricao: p.descricao.to_string(),
                categoria: p.categoria.nome().to_string(),
                instalado,
            },
        );
        k = k + 1;
    }
    r
}

/// Sem a leitura do registro, ninguém é dado como não instalado; com ela, todos têm resposta.
pub proof fn lei_ausente_nao_e_nao_instalado(p: Programa, n: NaLista, instalados: Option<Seq<Seq<char>>>)
    requires
        na_lista(p, instalados, n),
    ensures
        n.instalado is None <==> instalados is None,
{
}

} // verus!
