//! Qual perfil de configuração de jogo o que foi medido autoriza: nenhum ajuste genérico antes da classificação
//! do gargalo. O valor está nas RECUSAS, onde baixar gráfico é placebo: gargalo no processador (a placa já sobra),
//! limite de firmware (físico) e esperando o disco. Teto de quadros é o caso sem custo visual. Não aplica nada:
//! devolve um plano, que exige linha de base sempre que muda algo.

use vstd::prelude::*;
use crate::ordem::textos;
use crate::streaming::Veredito;
use crate::texto::{anexar, chars_of, string_of};
use crate::vram::Estado;

verus! {

#[derive(Debug, Clone, Copy, PartialEq, Eq, Structural)]
pub enum Perfil {
    SemTeto,
    Equilibrado,
    Competitivo,
}

pub open spec fn spec_nome(p: Perfil) -> Seq<char> {
    match p {
        Perfil::SemTeto => "sem_teto"@,
        Perfil::Equilibrado => "equilibrado"@,
        Perfil::Competitivo => "competitivo"@,
    }
}

impl Perfil {
    pub fn nome(self) -> (r: &'static str)
        ensures
            r@ == spec_nome(self),
    {
        match self {
            Perfil::SemTeto => "sem_teto",
            Perfil::Equilibrado => "equilibrado",
            Perfil::Competitivo => "competitivo",
        }
    }
}

#[derive(Debug, Clone, PartialEq, Eq, Structural)]
pub enum Decisao {
    SemEvidencia,
    NaoResolveAqui,
    Aplicar(Perfil),
}

#[derive(Debug, Clone, PartialEq)]
pub struct Plano {
    pub decisao: Decisao,
    pub porque: Vec<String>,
    pub contra: Vec<String>,
    pub nao_verificado: Vec<String>,
    pub exige_baseline: bool,
}

/// A conclusão do diagnóstico de gargalo.
#[derive(Debug, Clone, Copy, PartialEq, Eq, Structural)]
pub enum Conclusao {
    SemEvidencia,
    SemCarga,
    NadaNoLimite,
    Encontrado,
}

/// As classes de gargalo que o plano lê.
#[derive(Debug, Clone, Copy, PartialEq, Eq, Structural)]
pub enum Classe {
    LimiteTermico,
    LimiteEletrico,
    TetoDeQuadros,
    CpuTodosNucleos,
    CpuUmNucleo,
    Gpu,
}

/// Uma classe que o diagnóstico não conseguiu avaliar, e o que faltou para isso.
#[derive(Debug, Clone, PartialEq)]
pub struct NaoVerificado {
    pub classe: String,
    pub falta: String,
}

/// O diagnóstico de gargalo como o plano o lê: a conclusão, as classes achadas e o que ficou sem verificar.
#[derive(Debug, Clone, PartialEq)]
pub struct Diagnostico {
    pub conclusao: Conclusao,
    pub achados: Vec<Classe>,
    pub nao_verificado: Vec<NaoVerificado>,
}

pub open spec fn tem(d: Diagnostico, c: Classe) -> bool {
    d.achados@.contains(c)
}

/// A decisão que o que foi medido autoriza, na ordem em que as recusas valem: sem arquivo não há alavanca; sem
/// medição nada se mexe; o limite de firmware ganha de tudo; esperando o disco, sombra mais baixa não ajuda; o
/// teto de quadros vale até com o processador no limite; com o processador no limite, ajuste gráfico é placebo;
/// transbordo de memória de vídeo pede o equilibrado; a placa no limite é o caso do ajuste gráfico.
pub open spec fn spec_decisao(d: Diagnostico, vram: Estado, streaming: Veredito, tem_arquivo: bool) -> Decisao {
    if !tem_arquivo {
        Decisao::SemEvidencia
    } else if d.conclusao == Conclusao::SemEvidencia || d.conclusao == Conclusao::SemCarga {
        Decisao::SemEvidencia
    } else if tem(d, Classe::LimiteTermico) || tem(d, Classe::LimiteEletrico) {
        Decisao::NaoResolveAqui
    } else if streaming == Veredito::AssetsDeMidiaLenta {
        Decisao::NaoResolveAqui
    } else if tem(d, Classe::TetoDeQuadros) {
        Decisao::Aplicar(Perfil::SemTeto)
    } else if tem(d, Classe::CpuTodosNucleos) || tem(d, Classe::CpuUmNucleo) {
        Decisao::NaoResolveAqui
    } else if vram == Estado::Transbordando {
        Decisao::Aplicar(Perfil::Equilibrado)
    } else if tem(d, Classe::Gpu) {
        Decisao::Aplicar(Perfil::Competitivo)
    } else {
        Decisao::NaoResolveAqui
    }
}

pub open spec fn p_sem_arquivo() -> Seq<char> {
    "o arquivo de configuração do jogo não foi encontrado nesta máquina"@
}

pub open spec fn p_sem_medicao() -> Seq<char> {
    "nenhum recurso foi medido; sem classificação de gargalo não há ajuste a \
     recomendar"@
}

pub open spec fn p_parada() -> Seq<char> {
    "a máquina está parada; medir com o jogo aberto é o que diz qual ajuste cabe"@
}

pub open spec fn p_firmware() -> Seq<char> {
    "o Windows está segurando o processador por temperatura ou por energia; o limite \
     é físico e nenhuma linha de arquivo de configuração muda refrigeração"@
}

pub open spec fn c_firmware() -> Seq<char> {
    "Enquanto o firmware estiver segurando, qualquer ganho de configuração some \
     dentro do mesmo limite."@
}

pub open spec fn p_disco() -> Seq<char> {
    "os trancos medidos caem junto com atividade de disco, e o disco está entregando \
     devagar; o jogo está esperando o arquivo chegar"@
}

pub open spec fn c_disco() -> Seq<char> {
    "Sombra mais baixa não faz o asset chegar mais rápido: o jogo continua esperando \
     o mesmo arquivo. Veja o laboratório de streaming."@
}

pub open spec fn p_teto() -> Seq<char> {
    "os quadros estão colados na taxa do monitor, o que é sinal de teto escrito no \
     arquivo do jogo ou de sincronia ligada"@
}

pub open spec fn c_teto() -> Seq<char> {
    "Se a sincronia com a tela estiver ligada dentro do jogo, o teto volta: essa é a \
     única parte que o arquivo não controla."@
}

pub open spec fn p_cpu() -> Seq<char> {
    "o processador é que está no limite, e não a placa de vídeo"@
}

pub open spec fn p_um_nucleo() -> Seq<char> {
    "um núcleo no talo com os outros sobrando é o retrato de simulação pesada, que \
     nenhuma configuração gráfica alivia"@
}

pub open spec fn c_cpu() -> Seq<char> {
    "Baixar textura, sombra e reflexo tira trabalho da placa de vídeo. Com a placa já \
     sobrando, o jogo fica mais feio e o número não sai do lugar."@
}

/// O porquê do transbordo, com os GB derramados quando se sabe quantos (o número já vem escrito com uma casa).
pub open spec fn p_transbordo(derramado_gb: Option<Seq<char>>) -> Seq<char> {
    match derramado_gb {
        Some(gb) => "a memória da placa acabou e "@ + gb + " GB de textura foram parar na memória do \
                     sistema (vram.shared_used)"@,
        None => "a memória da placa está transbordando para a memória do sistema"@,
    }
}

pub open spec fn c_transbordo() -> Seq<char> {
    "O ganho aqui é o fim dos trancos ao entrar em área nova, e não um número maior de \
     quadros na média."@
}

pub open spec fn p_gpu() -> Seq<char> {
    "a placa de vídeo está no limite medido, e é dela que a configuração gráfica tira \
     trabalho"@
}

pub open spec fn c_gpu() -> Seq<char> {
    "Quanto isso rende nesta máquina não dá para saber antes de medir. Guarde a linha de \
     base, aplique e compare com repetição."@
}

pub open spec fn p_nada() -> Seq<char> {
    "há carga e nenhum recurso medido encostou no limite; não há gargalo que uma \
     configuração gráfica resolva"@
}

pub open spec fn c_nada() -> Seq<char> {
    "Isto não é o mesmo que estar tudo bem: veja o que não foi verificado antes de \
     concluir."@
}

/// O porquê e a contrapartida de cada decisão, na mesma ordem de `spec_decisao`.
pub open spec fn spec_razoes(
    d: Diagnostico,
    vram: Estado,
    derramado_gb: Option<Seq<char>>,
    streaming: Veredito,
    tem_arquivo: bool,
) -> (Seq<Seq<char>>, Seq<Seq<char>>) {
    if !tem_arquivo {
        (seq![p_sem_arquivo()], seq![])
    } else if d.conclusao == Conclusao::SemEvidencia {
        (seq![p_sem_medicao()], seq![])
    } else if d.conclusao == Conclusao::SemCarga {
        (seq![p_parada()], seq![])
    } else if tem(d, Classe::LimiteTermico) || tem(d, Classe::LimiteEletrico) {
        (seq![p_firmware()], seq![c_firmware()])
    } else if streaming == Veredito::AssetsDeMidiaLenta {
        (seq![p_disco()], seq![c_disco()])
    } else if tem(d, Classe::TetoDeQuadros) {
        (seq![p_teto()], seq![c_teto()])
    } else if tem(d, Classe::CpuTodosNucleos) || tem(d, Classe::CpuUmNucleo) {
        (if tem(d, Classe::CpuUmNucleo) {
            seq![p_cpu(), p_um_nucleo()]
        } else {
            seq![p_cpu()]
        }, seq![c_cpu()])
    } else if vram == Estado::Transbordando {
        (seq![p_transbordo(derramado_gb)], seq![c_transbordo()])
    } else if tem(d, Classe::Gpu) {
        (seq![p_gpu()], seq![c_gpu()])
    } else {
        (seq![p_nada()], seq![c_nada()])
    }
}

/// "classe: o que faltou", para cada classe não verificada.
pub open spec fn nao_verificados(ns: Seq<NaoVerificado>) -> Seq<Seq<char>> {
    ns.map_values(|n: NaoVerificado| n.classe@ + ": "@ + n.falta@)
}

pub open spec fn opt_texto(o: Option<&str>) -> Option<Seq<char>> {
    match o {
        Some(s) => Some(s@),
        None => None,
    }
}

fn tem_exec(d: &Diagnostico, c: Classe) -> (r: bool)
    ensures
        r == tem(*d, c),
{
    let mut i: usize = 0;
    while i < d.achados.len()
        invariant
            0 <= i <= d.achados@.len(),
            forall|k: int| 0 <= k < i ==> d.achados@[k] != c,
        decreases d.achados@.len() - i,
    {
        if d.achados[i] == c {
            assert(d.achados@[i as int] == c);
            return true;
        }
        i = i + 1;
    }
    false
}

fn lista(a: &str) -> (r: Vec<String>)
    ensures
        textos(r@) == seq![a@],
{
    let mut v: Vec<String> = Vec::new();
    v.push(a.to_string());
    assert(textos(v@) =~= seq![a@]);
    v
}

/// O plano para o que foi medido. Sem o arquivo de configuração do jogo (`tem_arquivo`) não há alavanca, e
/// recomendar seria recomendar o impossível. `derramado_gb` é quanto transbordou da memória de vídeo, já escrito
/// com uma casa decimal, quando se sabe.
pub fn planejar(
    gargalo: &Diagnostico,
    vram: Estado,
    derramado_gb: Option<&str>,
    streaming: Veredito,
    tem_arquivo: bool,
) -> (r: Plano)
    ensures
        r.decisao == spec_decisao(*gargalo, vram, streaming, tem_arquivo),
        textos(r.porque@) == spec_razoes(*gargalo, vram, opt_texto(derramado_gb), streaming, tem_arquivo).0,
        textos(r.contra@) == spec_razoes(*gargalo, vram, opt_texto(derramado_gb), streaming, tem_arquivo).1,
        textos(r.nao_verificado@) == nao_verificados(gargalo.nao_verificado@),
        r.exige_baseline == (r.decisao is Aplicar),
{
    let mut nao_verificado: Vec<String> = Vec::new();
    let mut i: usize = 0;
    while i < gargalo.nao_verificado.len()
        invariant
            0 <= i <= gargalo.nao_verificado@.len(),
            textos(nao_verificado@) == nao_verificados(gargalo.nao_verificado@.take(i as int)),
        decreases gargalo.nao_verificado@.len() - i,
    {
        let n = &gargalo.nao_verificado[i];
        let mut v = chars_of(n.classe.as_str());
        anexar(&mut v, ": ");
        anexar(&mut v, n.falta.as_str());
        let ghost velho = textos(nao_verificado@);
        nao_verificado.push(string_of(v.as_slice()));
        assert(textos(nao_verificado@) =~= velho.push(v@));
        assert(nao_verificados(gargalo.nao_verificado@.take(i + 1)) =~= nao_verificados(
            gargalo.nao_verificado@.take(i as int),
        ).push(v@));
        i = i + 1;
    }
    assert(gargalo.nao_verificado@.take(gargalo.nao_verificado@.len() as int) =~= gargalo.nao_verificado@);
    let vazio: Vec<String> = Vec::new();
    assert(textos(vazio@) =~= Seq::<Seq<char>>::empty());
    if !tem_arquivo {
        return Plano {
            decisao: Decisao::SemEvidencia,
            porque: lista("o arquivo de configuração do jogo não foi encontrado nesta máquina"),
            contra: vazio,
            nao_verificado,
            exige_baseline: false,
        };
    }
    // Sem medição, nada de mexer em arquivo do cliente.
    match gargalo.conclusao {
        Conclusao::SemEvidencia => {
            return Plano {
                decisao: Decisao::SemEvidencia,
                porque: lista(
                    "nenhum recurso foi medido; sem classificação de gargalo não há ajuste a \
                     recomendar",
                ),
                contra: vazio,
                nao_verificado,
                exige_baseline: false,
            };
        },
        Conclusao::SemCarga => {
            return Plano {
                decisao: Decisao::SemEvidencia,
                porque: lista("a máquina está parada; medir com o jogo aberto é o que diz qual ajuste cabe"),
                contra: vazio,
                nao_verificado,
                exige_baseline: false,
            };
        },
        Conclusao::NadaNoLimite | Conclusao::Encontrado => {},
    }
    // Antes de tudo: é o único caso em que nem a melhor configuração muda o resultado.
    if tem_exec(gargalo, Classe::LimiteTermico) || tem_exec(gargalo, Classe::LimiteEletrico) {
        return Plano {
            decisao: Decisao::NaoResolveAqui,
            porque: lista(
                "o Windows está segurando o processador por temperatura ou por energia; o limite \
                 é físico e nenhuma linha de arquivo de configuração muda refrigeração",
            ),
            contra: lista(
                "Enquanto o firmware estiver segurando, qualquer ganho de configuração some \
                 dentro do mesmo limite.",
            ),
            nao_verificado,
            exige_baseline: false,
        };
    }
    if streaming == Veredito::AssetsDeMidiaLenta {
        return Plano {
            decisao: Decisao::NaoResolveAqui,
            porque: lista(
                "os trancos medidos caem junto com atividade de disco, e o disco está entregando \
                 devagar; o jogo está esperando o arquivo chegar",
            ),
            contra: lista(
                "Sombra mais baixa não faz o asset chegar mais rápido: o jogo continua esperando \
                 o mesmo arquivo. Veja o laboratório de streaming.",
            ),
            nao_verificado,
            exige_baseline: false,
        };
    }
    // Antes da recusa do processador: o teto é um número num arquivo, não um limite de hardware.
    if tem_exec(gargalo, Classe::TetoDeQuadros) {
        return Plano {
            decisao: Decisao::Aplicar(Perfil::SemTeto),
            porque: lista(
                "os quadros estão colados na taxa do monitor, o que é sinal de teto escrito no \
                 arquivo do jogo ou de sincronia ligada",
            ),
            contra: lista(
                "Se a sincronia com a tela estiver ligada dentro do jogo, o teto volta: essa é a \
                 única parte que o arquivo não controla.",
            ),
            nao_verificado,
            exige_baseline: true,
        };
    }
    let um_nucleo = tem_exec(gargalo, Classe::CpuUmNucleo);
    if tem_exec(gargalo, Classe::CpuTodosNucleos) || um_nucleo {
        let mut porque_cpu = lista("o processador é que está no limite, e não a placa de vídeo");
        if um_nucleo {
            let ghost velho = textos(porque_cpu@);
            porque_cpu.push(
                "um núcleo no talo com os outros sobrando é o retrato de simulação pesada, que \
                 nenhuma configuração gráfica alivia".to_string(),
            );
            assert(textos(porque_cpu@) =~= velho.push(p_um_nucleo()));
        }
        return Plano {
            decisao: Decisao::NaoResolveAqui,
            porque: porque_cpu,
            contra: lista(
                "Baixar textura, sombra e reflexo tira trabalho da placa de vídeo. Com a placa já \
                 sobrando, o jogo fica mais feio e o número não sai do lugar.",
            ),
            nao_verificado,
            exige_baseline: false,
        };
    }
    // O único caso em que baixar textura se apoia numa medição direta.
    if vram == Estado::Transbordando {
        let texto = match derramado_gb {
            Some(gb) => {
                let mut v = chars_of("a memória da placa acabou e ");
                anexar(&mut v, gb);
                anexar(
                    &mut v,
                    " GB de textura foram parar na memória do \
                     sistema (vram.shared_used)",
                );
                string_of(v.as_slice())
            },
            None => "a memória da placa está transbordando para a memória do sistema".to_string(),
        };
        let mut porque: Vec<String> = Vec::new();
        let ghost t = texto@;
        porque.push(texto);
        assert(textos(porque@) =~= seq![t]);
        return Plano {
            decisao: Decisao::Aplicar(Perfil::Equilibrado),
            porque,
            contra: lista(
                "O ganho aqui é o fim dos trancos ao entrar em área nova, e não um número maior de \
                 quadros na média.",
            ),
            nao_verificado,
            exige_baseline: true,
        };
    }
    if tem_exec(gargalo, Classe::Gpu) {
        return Plano {
            decisao: Decisao::Aplicar(Perfil::Competitivo),
            porque: lista(
                "a placa de vídeo está no limite medido, e é dela que a configuração gráfica tira \
                 trabalho",
            ),
            contra: lista(
                "Quanto isso rende nesta máquina não dá para saber antes de medir. Guarde a linha de \
                 base, aplique e compare com repetição.",
            ),
            nao_verificado,
            exige_baseline: true,
        };
    }
    Plano {
        decisao: Decisao::NaoResolveAqui,
        porque: lista(
            "há carga e nenhum recurso medido encostou no limite; não há gargalo que uma \
             configuração gráfica resolva",
        ),
        contra: lista(
            "Isto não é o mesmo que estar tudo bem: veja o que não foi verificado antes de \
             concluir.",
        ),
        nao_verificado,
        exige_baseline: false,
    }
}

/// Com o firmware segurando o processador, nenhum perfil é aplicado, meça-se o que for.
pub proof fn lei_limite_de_firmware_ganha_de_tudo(d: Diagnostico, vram: Estado, streaming: Veredito, tem_arquivo: bool)
    requires
        tem(d, Classe::LimiteTermico) || tem(d, Classe::LimiteEletrico),
    ensures
        !(spec_decisao(d, vram, streaming, tem_arquivo) is Aplicar),
{
}

/// Sem o arquivo do jogo, ou sem medição com carga, o plano não mexe em nada.
pub proof fn lei_sem_arquivo_ou_sem_medicao_nada_se_aplica(d: Diagnostico, vram: Estado, streaming: Veredito, tem_arquivo: bool)
    requires
        !tem_arquivo || d.conclusao == Conclusao::SemEvidencia || d.conclusao == Conclusao::SemCarga,
    ensures
        spec_decisao(d, vram, streaming, tem_arquivo) == Decisao::SemEvidencia,
{
}

/// Com o processador no limite e sem teto de quadros, baixar gráfico é placebo: o plano recusa.
pub proof fn lei_processador_no_limite_recusa_o_ajuste_grafico(d: Diagnostico, vram: Estado, streaming: Veredito, tem_arquivo: bool)
    requires
        tem(d, Classe::CpuTodosNucleos) || tem(d, Classe::CpuUmNucleo),
        !tem(d, Classe::TetoDeQuadros),
    ensures
        !(spec_decisao(d, vram, streaming, tem_arquivo) is Aplicar),
{
}

/// Esperando o disco, sombra mais baixa não resolve: nada se aplica.
pub proof fn lei_esperando_o_disco_nada_se_aplica(d: Diagnostico, vram: Estado, tem_arquivo: bool)
    ensures
        !(spec_decisao(d, vram, Veredito::AssetsDeMidiaLenta, tem_arquivo) is Aplicar),
{
}


/// Com o arquivo do jogo, medição com carga, nenhum limite de firmware, o disco não esperando asset, sem teto de
/// quadros e sem o processador no limite, o transbordo da memória de vídeo decide: o perfil equilibrado, com o
/// transbordo como motivo, haja a placa no limite ou não. Sem transbordo, a placa no limite pede o competitivo, e
/// sem nenhum dos dois nada se aplica.
pub proof fn lei_transbordo_vem_antes_da_placa(
    d: Diagnostico,
    vram: Estado,
    derramado_gb: Option<Seq<char>>,
    streaming: Veredito,
)
    requires
        d.conclusao == Conclusao::Encontrado || d.conclusao == Conclusao::NadaNoLimite,
        !d.achados@.contains(Classe::LimiteTermico),
        !d.achados@.contains(Classe::LimiteEletrico),
        streaming != Veredito::AssetsDeMidiaLenta,
        !d.achados@.contains(Classe::TetoDeQuadros),
        !d.achados@.contains(Classe::CpuTodosNucleos),
        !d.achados@.contains(Classe::CpuUmNucleo),
    ensures
        vram == Estado::Transbordando ==> spec_decisao(d, vram, streaming, true) == Decisao::Aplicar(Perfil::Equilibrado)
            && spec_razoes(d, vram, derramado_gb, streaming, true).0 == seq![p_transbordo(derramado_gb)],
        vram != Estado::Transbordando && d.achados@.contains(Classe::Gpu) ==> spec_decisao(d, vram, streaming, true)
            == Decisao::Aplicar(Perfil::Competitivo),
        vram != Estado::Transbordando && !d.achados@.contains(Classe::Gpu) ==> spec_decisao(d, vram, streaming, true)
            == Decisao::NaoResolveAqui,
{
}


/// O teto de quadros vale até com o processador no limite: com o arquivo, medição com carga, sem limite de
/// firmware e sem o disco esperando asset, ele decide pelo perfil sem teto, seja qual for o resto do diagnóstico
/// ou a memória de vídeo.
pub proof fn lei_teto_de_quadros_vem_antes_do_processador(d: Diagnostico, vram: Estado, streaming: Veredito)
    requires
        d.conclusao == Conclusao::Encontrado || d.conclusao == Conclusao::NadaNoLimite,
        !d.achados@.contains(Classe::LimiteTermico),
        !d.achados@.contains(Classe::LimiteEletrico),
        streaming != Veredito::AssetsDeMidiaLenta,
        d.achados@.contains(Classe::TetoDeQuadros),
    ensures
        spec_decisao(d, vram, streaming, true) == Decisao::Aplicar(Perfil::SemTeto),
{
}

} // verus!
