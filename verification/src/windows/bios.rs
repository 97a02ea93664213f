//! O que olhar na BIOS, em fases. ESTE MÓDULO NÃO ESCREVE NADA, e isso é a decisão central dele: o Windows não
//! tem como alterar a configuração de firmware de um PC de mesa, e uma ferramenta que achasse um jeito seria capaz
//! de deixar a máquina sem ligar. Monta a lista do que vale olhar, EM ORDEM DE RISCO, com o modelo da placa-mãe ao
//! lado. Fase 1: ligar o que já foi comprado. Fase 2: o que o fabricante documenta. Fase 3: o que exige teste de
//! estabilidade. Fase 4: overclock manual, que o Otimiza não orienta. Fase 5: atualizar a BIOS, nunca
//! automaticamente. E nunca um número de Curve Optimizer: cada chip aceita um limite diferente.

use vstd::prelude::*;
use crate::texto::{anexar, chars_of, string_of, trim, trim_str};

verus! {

broadcast use {vstd::string::group_string_axioms, vstd::seq_lib::group_seq_properties};

/// O que o Windows conseguiu ler do firmware.
#[derive(Debug, Clone, Default, PartialEq)]
pub struct Leitura {
    /// Fabricante e modelo da placa-mãe: o que permite achar o manual certo.
    pub placa_mae: Option<String>,
    pub versao_da_bios: Option<String>,
    /// Data de lançamento da BIOS, como o Windows a declara.
    pub data_da_bios: Option<String>,
    /// `Some(true)` para UEFI, `Some(false)` para Legacy/CSM. `None` é não sei.
    pub uefi: Option<bool>,
    pub secure_boot: Option<bool>,
    pub lacunas: Vec<String>,
}

/// As fases, em ordem de risco crescente e de reversibilidade decrescente.
#[derive(Debug, Clone, Copy, PartialEq, Eq, PartialOrd, Ord, Structural)]
pub enum Fase {
    /// Ligar o que já foi comprado.
    UsarOQueTem,
    /// Documentado pelo fabricante, reverte num clique.
    Documentado,
    /// Exige teste de estabilidade.
    ExigeTeste,
    /// Overclock manual. O produto não orienta.
    NaoOrientamos,
    /// Atualizar a BIOS. Nunca automático.
    UltimoRecurso,
}

/// A posição da fase na ordem de risco, de 1 a 5.
pub open spec fn ordem(f: Fase) -> int {
    match f {
        Fase::UsarOQueTem => 1,
        Fase::Documentado => 2,
        Fase::ExigeTeste => 3,
        Fase::NaoOrientamos => 4,
        Fase::UltimoRecurso => 5,
    }
}

pub open spec fn spec_titulo(f: Fase) -> Seq<char> {
    match f {
        Fase::UsarOQueTem => "Fase 1 — ligar o que você já comprou"@,
        Fase::Documentado => "Fase 2 — o que o fabricante documenta"@,
        Fase::ExigeTeste => "Fase 3 — exige teste de estabilidade"@,
        Fase::NaoOrientamos => "Fase 4 — overclock manual"@,
        Fase::UltimoRecurso => "Fase 5 — atualizar a BIOS"@,
    }
}

pub open spec fn spec_explicacao(f: Fase) -> Seq<char> {
    match f {
        Fase::UsarOQueTem => "Nada aqui é overclock: é usar a peça na velocidade que está escrita na \
                 caixa dela. É onde está a maior parte do ganho disponível, e quem parar \
                 nesta fase fez o que a maioria deveria fazer."@,
        Fase::Documentado => "Opções que o fabricante da placa documenta no manual e que voltam ao que \
                 eram num clique. O pior caso é não mudar nada."@,
        Fase::ExigeTeste => "A falha destes ajustes NÃO aparece na hora. Ela aparece como travada \
                 aleatória três semanas depois, quando ninguém mais lembra do que mexeu. \
                 Só entre aqui se você estiver disposto a testar estabilidade por horas e \
                 a desfazer ao primeiro sinal."@,
        Fase::NaoOrientamos => "O Otimiza não dá números de overclock manual. Não é cautela decorativa: \
                 cada processador aceita um limite diferente, e um número copiado de um \
                 vídeo produz uma máquina que passa em teste e trava no jogo."@,
        Fase::UltimoRecurso => "Atualizar a BIOS resolve problema NOMEADO — compatibilidade com um \
                 processador novo, um defeito que o fabricante corrigiu. Não é manutenção \
                 de rotina, e uma queda de energia no meio do processo deixa a máquina sem \
                 ligar. O Otimiza nunca faz isso, e nunca vai fazer."@,
    }
}

impl Fase {
    pub fn titulo(self) -> (r: &'static str)
        ensures
            r@ == spec_titulo(self),
    {
        match self {
            Fase::UsarOQueTem => "Fase 1 — ligar o que você já comprou",
            Fase::Documentado => "Fase 2 — o que o fabricante documenta",
            Fase::ExigeTeste => "Fase 3 — exige teste de estabilidade",
            Fase::NaoOrientamos => "Fase 4 — overclock manual",
            Fase::UltimoRecurso => "Fase 5 — atualizar a BIOS",
        }
    }

    pub fn explicacao(self) -> (r: &'static str)
        ensures
            r@ == spec_explicacao(self),
    {
        match self {
            Fase::UsarOQueTem => "Nada aqui é overclock: é usar a peça na velocidade que está escrita na \
                 caixa dela. É onde está a maior parte do ganho disponível, e quem parar \
                 nesta fase fez o que a maioria deveria fazer.",
            Fase::Documentado => "Opções que o fabricante da placa documenta no manual e que voltam ao que \
                 eram num clique. O pior caso é não mudar nada.",
            Fase::ExigeTeste => "A falha destes ajustes NÃO aparece na hora. Ela aparece como travada \
                 aleatória três semanas depois, quando ninguém mais lembra do que mexeu. \
                 Só entre aqui se você estiver disposto a testar estabilidade por horas e \
                 a desfazer ao primeiro sinal.",
            Fase::NaoOrientamos => "O Otimiza não dá números de overclock manual. Não é cautela decorativa: \
                 cada processador aceita um limite diferente, e um número copiado de um \
                 vídeo produz uma máquina que passa em teste e trava no jogo.",
            Fase::UltimoRecurso => "Atualizar a BIOS resolve problema NOMEADO — compatibilidade com um \
                 processador novo, um defeito que o fabricante corrigiu. Não é manutenção \
                 de rotina, e uma queda de energia no meio do processo deixa a máquina sem \
                 ligar. O Otimiza nunca faz isso, e nunca vai fazer.",
        }
    }
}

/// Um item para olhar na BIOS.
#[derive(Debug, Clone, PartialEq)]
pub struct Passo {
    pub id: String,
    pub fase: Fase,
    pub titulo: String,
    /// Onde a opção costuma estar: o nome muda de placa para placa, e é por isso que o modelo da placa aparece.
    pub onde: String,
    pub o_que_faz: String,
    /// O que pode dar errado, e como voltar. Nunca vazio.
    pub risco_e_volta: String,
    /// Verdadeiro quando o Otimiza MEDIU alguma coisa que torna este passo relevante nesta máquina.
    pub medido_aqui: bool,
}

/// O passo visto como valores: id, fase, título, onde, o que faz, risco e volta, e se foi medido aqui.
pub type PassoVisto = (Seq<char>, Fase, Seq<char>, Seq<char>, Seq<char>, Seq<char>, bool);

pub open spec fn visto(p: Passo) -> PassoVisto {
    (p.id@, p.fase, p.titulo@, p.onde@, p.o_que_faz@, p.risco_e_volta@, p.medido_aqui)
}

pub open spec fn vistos(ps: Seq<Passo>) -> Seq<PassoVisto> {
    ps.map_values(|p: Passo| visto(p))
}

pub open spec fn passo_xmp(medido: bool) -> PassoVisto {
    (
        "xmp"@,
        Fase::UsarOQueTem,
        "Perfil de velocidade da memória (XMP, EXPO ou DOCP)"@,
        "Costuma estar na primeira tela do modo avançado, ou em \"OC\" / \"Ai Tweaker\" \
               / \"Extreme Tweaker\", como uma lista com \"Disabled\" e \"Profile 1\"."@,
        "Os pentes de memória são vendidos com uma velocidade na embalagem e \
                    ligam numa velocidade menor, padrão do processador. O perfil é a \
                    instrução que o próprio pente carrega para rodar no que foi anunciado. \
                    Ligar isso não é overclock: é parar de usar abaixo do que foi pago."@,
        "Em pente vendido em par, quase nunca dá problema. Se a máquina não \
                        ligar, ela volta sozinha para o padrão depois de algumas tentativas \
                        — e dá para forçar tirando a bateria da placa-mãe por um minuto, com \
                        o computador desligado da tomada."@,
        medido,
    )
}

pub open spec fn passo_rebar(medido: bool) -> PassoVisto {
    (
        "rebar"@,
        Fase::UsarOQueTem,
        "Resizable BAR / Smart Access Memory"@,
        "Em \"PCI Subsystem Settings\" ou \"Advanced\". Exige \"Above 4G Decoding\" \
               ligado junto, e a placa precisa estar em modo UEFI."@,
        "Deixa o processador enxergar a memória da placa de vídeo inteira de uma \
                    vez, em vez de em pedaços de 256 MB. Em parte dos jogos rende alguns por \
                    cento; em outros não muda nada, e em alguns poucos custa."@,
        "É uma opção de ligar e desligar, e volta do mesmo jeito. Como o ganho \
                        varia por jogo, meça antes e depois — o Otimiza guarda as duas \
                        medições."@,
        medido,
    )
}

pub open spec fn passo_csm() -> PassoVisto {
    (
        "csm"@,
        Fase::UsarOQueTem,
        "Sair do modo Legacy (CSM)"@,
        "Em \"Boot\", como \"CSM\" ou \"Compatibility Support Module\"."@,
        "Esta máquina está iniciando em modo de compatibilidade com BIOS \
                        antiga. Nesse modo o Resizable BAR não funciona, o Secure Boot não \
                        liga, e recursos de segurança do Windows 11 ficam indisponíveis."@,
        "ESTE É O PASSO MAIS DELICADO DA FASE 1: se o Windows foi \
                            instalado em modo Legacy, mudar para UEFI sem converter o disco \
                            faz a máquina não iniciar. A conversão existe e é feita pela \
                            ferramenta `mbr2gpt` do próprio Windows, mas ela pede backup \
                            antes. Não faça isso com pressa, e não faça sem cópia dos seus \
                            arquivos."@,
        true,
    )
}

pub open spec fn passo_pbo() -> PassoVisto {
    (
        "pbo"@,
        Fase::Documentado,
        "Precision Boost Overdrive (PBO) em Auto"@,
        "Em \"AMD Overclocking\" → \"Precision Boost Overdrive\"."@,
        "Deixa o processador usar a folga térmica e elétrica que a placa \
                        oferece, dentro dos limites que a própria AMD define. Em Auto, quem \
                        decide continua sendo o processador — o que muda é o teto que ele \
                        pode usar."@,
        "Em Auto é reversível numa opção e não força tensão nenhuma. Ele \
                            esquenta mais e consome mais, então num gabinete mal ventilado o \
                            ganho pode virar zero. Meça a temperatura depois."@,
        false,
    )
}

pub open spec fn passo_curve() -> PassoVisto {
    (
        "curve_optimizer"@,
        Fase::ExigeTeste,
        "Curve Optimizer"@,
        "Dentro do PBO, como \"Curve Optimizer\", por núcleo ou para todos."@,
        "Reduz a tensão que o processador pede em cada ponto da curva de \
                        frequência. Menos tensão é menos calor, e menos calor costuma virar \
                        frequência mais alta sustentada. É o ajuste com melhor relação entre \
                        esforço e ganho nos Ryzen — e o mais fácil de fazer errado."@,
        "O OTIMIZA NÃO DÁ NÚMERO AQUI, e isso é deliberado: cada chip \
                            aceita um limite diferente, e um valor copiado de um vídeo \
                            produz uma máquina que passa em teste de estresse e trava no \
                            jogo, semanas depois, sem ninguém ligar as duas coisas. Se for \
                            fazer: comece conservador, teste horas, e desfaça ao primeiro \
                            travamento — inclusive os que parecerem não ter relação."@,
        false,
    )
}

pub open spec fn passo_overclock() -> PassoVisto {
    (
        "overclock_manual"@,
        Fase::NaoOrientamos,
        "Overclock manual de processador ou memória"@,
        "Não se aplica: o Otimiza não orienta este caminho."@,
        "Fixar frequência e tensão à mão, acima do que o fabricante garante."@,
        "Não damos números porque não existe número genérico que sirva. O que \
                        dá para dizer com honestidade: num PC de jogo moderno, overclock \
                        manual de processador rende pouco perto do que o próprio turbo já \
                        faz, e cobra em calor, consumo e estabilidade. Se o seu objetivo é \
                        FPS, as fases 1 e 2 têm mais a entregar."@,
        false,
    )
}

pub open spec fn passo_atualizar(placa: Option<Seq<char>>) -> PassoVisto {
    (
        "atualizar_bios"@,
        Fase::UltimoRecurso,
        "Atualizar a BIOS"@,
        onde_atualizar(placa),
        "Corrige defeitos e acrescenta compatibilidade. Não é manutenção de \
                    rotina e raramente muda desempenho."@,
        "O OTIMIZA NUNCA FAZ ISSO E NUNCA VAI FAZER. Uma queda de energia no \
                        meio do processo deixa a máquina sem ligar, e a recuperação depende \
                        de a placa ter um recurso que nem toda placa tem. Só atualize com um \
                        motivo nomeado, com o arquivo baixado do site do fabricante da SUA \
                        placa, e nunca com o computador ligado só na tomada da parede sem \
                        nobreak."@,
        false,
    )
}

/// "No site do fabricante da placa, procurando pelo modelo exato — o desta máquina é ..." quando se sabe o modelo.
pub open spec fn onde_atualizar(placa: Option<Seq<char>>) -> Seq<char> {
    "No site do fabricante da placa, procurando pelo modelo exato"@ + match placa {
        Some(p) => " — o desta máquina é "@ + p,
        None => seq![],
    } + "."@
}

pub open spec fn opt_texto(o: Option<String>) -> Option<Seq<char>> {
    match o {
        Some(s) => Some(s@),
        None => None,
    }
}

/// A lista de passos, em ordem de risco: o passo do modo Legacy só quando a máquina ESTÁ em Legacy, os passos de
/// AMD só em AMD, e as fases 4 e 5 sempre, porque a recusa é parte da orientação.
pub open spec fn spec_passos(leitura: Leitura, memoria_abaixo_do_nominal: bool, rebar_desligado: bool, amd: bool) -> Seq<PassoVisto> {
    seq![passo_xmp(memoria_abaixo_do_nominal), passo_rebar(rebar_desligado)]
        + (if leitura.uefi == Some(false) { seq![passo_csm()] } else { seq![] })
        + (if amd { seq![passo_pbo(), passo_curve()] } else { seq![] })
        + seq![passo_overclock(), passo_atualizar(opt_texto(leitura.placa_mae))]
}

fn novo_passo(
    id: &str,
    fase: Fase,
    titulo: &str,
    onde: String,
    o_que_faz: &str,
    risco_e_volta: &str,
    medido_aqui: bool,
) -> (r: Passo)
    ensures
        visto(r) == (id@, fase, titulo@, onde@, o_que_faz@, risco_e_volta@, medido_aqui),
{
    Passo {
        id: id.to_string(),
        fase,
        titulo: titulo.to_string(),
        onde,
        o_que_faz: o_que_faz.to_string(),
        risco_e_volta: risco_e_volta.to_string(),
        medido_aqui,
    }
}

/// Monta a lista. `memoria_abaixo_do_nominal` e `rebar_desligado` vêm de quem já mede essas coisas: este módulo
/// não remede nada, porque duas leituras da mesma coisa acabam mostrando dois números para o mesmo fato.
pub fn montar(leitura: &Leitura, memoria_abaixo_do_nominal: bool, rebar_desligado: bool, amd: bool) -> (r: Vec<Passo>)
    ensures
        vistos(r@) == spec_passos(*leitura, memoria_abaixo_do_nominal, rebar_desligado, amd),
{
    let mut passos: Vec<Passo> = Vec::new();
    let ghost mut esperado: Seq<PassoVisto> = seq![];
    {
        let p = novo_passo(
            "xmp",
            Fase::UsarOQueTem,
            "Perfil de velocidade da memória (XMP, EXPO ou DOCP)",
            "Costuma estar na primeira tela do modo avançado, ou em \"OC\" / \"Ai Tweaker\" \
               / \"Extreme Tweaker\", como uma lista com \"Disabled\" e \"Profile 1\".".to_string(),
            "Os pentes de memória são vendidos com uma velocidade na embalagem e \
                    ligam numa velocidade menor, padrão do processador. O perfil é a \
                    instrução que o próprio pente carrega para rodar no que foi anunciado. \
                    Ligar isso não é overclock: é parar de usar abaixo do que foi pago.",
            "Em pente vendido em par, quase nunca dá problema. Se a máquina não \
                        ligar, ela volta sozinha para o padrão depois de algumas tentativas \
                        — e dá para forçar tirando a bateria da placa-mãe por um minuto, com \
                        o computador desligado da tomada.",
            memoria_abaixo_do_nominal,
        );
        let ghost velho = vistos(passos@);
        passos.push(p);
        proof {
            assert(vistos(passos@) =~= velho.push(passo_xmp(memoria_abaixo_do_nominal)));
            esperado = esperado.push(passo_xmp(memoria_abaixo_do_nominal));
        }
    }
    assert(vistos(passos@) == esperado);
    {
        let p = novo_passo(
            "rebar",
            Fase::UsarOQueTem,
            "Resizable BAR / Smart Access Memory",
            "Em \"PCI Subsystem Settings\" ou \"Advanced\". Exige \"Above 4G Decoding\" \
               ligado junto, e a placa precisa estar em modo UEFI.".to_string(),
            "Deixa o processador enxergar a memória da placa de vídeo inteira de uma \
                    vez, em vez de em pedaços de 256 MB. Em parte dos jogos rende alguns por \
                    cento; em outros não muda nada, e em alguns poucos custa.",
            "É uma opção de ligar e desligar, e volta do mesmo jeito. Como o ganho \
                        varia por jogo, meça antes e depois — o Otimiza guarda as duas \
                        medições.",
            rebar_desligado,
        );
        let ghost velho = vistos(passos@);
        passos.push(p);
        proof {
            assert(vistos(passos@) =~= velho.push(passo_rebar(rebar_desligado)));
            esperado = esperado.push(passo_rebar(rebar_desligado));
        }
    }
    assert(vistos(passos@) == esperado);
    if uefi_desligado(leitura) {
        let p = novo_passo(
            "csm",
            Fase::UsarOQueTem,
            "Sair do modo Legacy (CSM)",
            "Em \"Boot\", como \"CSM\" ou \"Compatibility Support Module\".".to_string(),
            "Esta máquina está iniciando em modo de compatibilidade com BIOS \
                        antiga. Nesse modo o Resizable BAR não funciona, o Secure Boot não \
                        liga, e recursos de segurança do Windows 11 ficam indisponíveis.",
            "ESTE É O PASSO MAIS DELICADO DA FASE 1: se o Windows foi \
                            instalado em modo Legacy, mudar para UEFI sem converter o disco \
                            faz a máquina não iniciar. A conversão existe e é feita pela \
                            ferramenta `mbr2gpt` do próprio Windows, mas ela pede backup \
                            antes. Não faça isso com pressa, e não faça sem cópia dos seus \
                            arquivos.",
            true,
        );
        let ghost velho = vistos(passos@);
        passos.push(p);
        proof {
            assert(vistos(passos@) =~= velho.push(passo_csm()));
            esperado = esperado.push(passo_csm());
        }
    }
    assert(vistos(passos@) == esperado);
    if amd {
        let p = novo_passo(
            "pbo",
            Fase::Documentado,
            "Precision Boost Overdrive (PBO) em Auto",
            "Em \"AMD Overclocking\" → \"Precision Boost Overdrive\".".to_string(),
            "Deixa o processador usar a folga térmica e elétrica que a placa \
                        oferece, dentro dos limites que a própria AMD define. Em Auto, quem \
                        decide continua sendo o processador — o que muda é o teto que ele \
                        pode usar.",
            "Em Auto é reversível numa opção e não força tensão nenhuma. Ele \
                            esquenta mais e consome mais, então num gabinete mal ventilado o \
                            ganho pode virar zero. Meça a temperatura depois.",
            false,
        );
        let ghost velho = vistos(passos@);
        passos.push(p);
        proof {
            assert(vistos(passos@) =~= velho.push(passo_pbo()));
            esperado = esperado.push(passo_pbo());
        }
    }
    assert(vistos(passos@) == esperado);
    if amd {
        let p = novo_passo(
            "curve_optimizer",
            Fase::ExigeTeste,
            "Curve Optimizer",
            "Dentro do PBO, como \"Curve Optimizer\", por núcleo ou para todos.".to_string(),
            "Reduz a tensão que o processador pede em cada ponto da curva de \
                        frequência. Menos tensão é menos calor, e menos calor costuma virar \
                        frequência mais alta sustentada. É o ajuste com melhor relação entre \
                        esforço e ganho nos Ryzen — e o mais fácil de fazer errado.",
            "O OTIMIZA NÃO DÁ NÚMERO AQUI, e isso é deliberado: cada chip \
                            aceita um limite diferente, e um valor copiado de um vídeo \
                            produz uma máquina que passa em teste de estresse e trava no \
                            jogo, semanas depois, sem ninguém ligar as duas coisas. Se for \
                            fazer: comece conservador, teste horas, e desfaça ao primeiro \
                            travamento — inclusive os que parecerem não ter relação.",
            false,
        );
        let ghost velho = vistos(passos@);
        passos.push(p);
        proof {
            assert(vistos(passos@) =~= velho.push(passo_curve()));
            esperado = esperado.push(passo_curve());
        }
    }
    assert(vistos(passos@) == esperado);
    {
        let p = novo_passo(
            "overclock_manual",
            Fase::NaoOrientamos,
            "Overclock manual de processador ou memória",
            "Não se aplica: o Otimiza não orienta este caminho.".to_string(),
            "Fixar frequência e tensão à mão, acima do que o fabricante garante.",
            "Não damos números porque não existe número genérico que sirva. O que \
                        dá para dizer com honestidade: num PC de jogo moderno, overclock \
                        manual de processador rende pouco perto do que o próprio turbo já \
                        faz, e cobra em calor, consumo e estabilidade. Se o seu objetivo é \
                        FPS, as fases 1 e 2 têm mais a entregar.",
            false,
        );
        let ghost velho = vistos(passos@);
        passos.push(p);
        proof {
            assert(vistos(passos@) =~= velho.push(passo_overclock()));
            esperado = esperado.push(passo_overclock());
        }
    }
    assert(vistos(passos@) == esperado);
    {
        let p = novo_passo(
            "atualizar_bios",
            Fase::UltimoRecurso,
            "Atualizar a BIOS",
            onde_da_atualizacao(&leitura.placa_mae),
            "Corrige defeitos e acrescenta compatibilidade. Não é manutenção de \
                    rotina e raramente muda desempenho.",
            "O OTIMIZA NUNCA FAZ ISSO E NUNCA VAI FAZER. Uma queda de energia no \
                        meio do processo deixa a máquina sem ligar, e a recuperação depende \
                        de a placa ter um recurso que nem toda placa tem. Só atualize com um \
                        motivo nomeado, com o arquivo baixado do site do fabricante da SUA \
                        placa, e nunca com o computador ligado só na tomada da parede sem \
                        nobreak.",
            false,
        );
        let ghost velho = vistos(passos@);
        passos.push(p);
        proof {
            assert(vistos(passos@) =~= velho.push(passo_atualizar(opt_texto(leitura.placa_mae))));
            esperado = esperado.push(passo_atualizar(opt_texto(leitura.placa_mae)));
        }
    }
    assert(vistos(passos@) == esperado);
    assert(esperado =~= spec_passos(*leitura, memoria_abaixo_do_nominal, rebar_desligado, amd));
    passos
}

fn uefi_desligado(leitura: &Leitura) -> (r: bool)
    ensures
        r == (leitura.uefi == Some(false)),
{
    match leitura.uefi {
        Some(u) => !u,
        None => false,
    }
}

fn onde_da_atualizacao(placa: &Option<String>) -> (r: String)
    ensures
        r@ == onde_atualizar(opt_texto(*placa)),
{
    let mut v = chars_of("No site do fabricante da placa, procurando pelo modelo exato");
    match placa {
        Some(p) => {
            anexar(&mut v, " — o desta máquina é ");
            anexar(&mut v, p.as_str());
        },
        None => {},
    }
    anexar(&mut v, ".");
    string_of(v.as_slice())
}

/// As fases saem em ordem de risco crescente: o cliente encontra o barato antes do caro.
pub proof fn lei_passos_em_ordem_de_risco(leitura: Leitura, memoria: bool, rebar: bool, amd: bool, i: int, j: int)
    requires
        0 <= i < j < spec_passos(leitura, memoria, rebar, amd).len(),
    ensures
        ordem(spec_passos(leitura, memoria, rebar, amd)[i].1) <= ordem(spec_passos(leitura, memoria, rebar, amd)[j].1),
{
}

/// Não saber se é UEFI não vira passo de Legacy, e os passos de AMD só aparecem em AMD.
pub proof fn lei_so_o_que_vale_para_esta_maquina(leitura: Leitura, memoria: bool, rebar: bool, amd: bool, i: int)
    requires
        0 <= i < spec_passos(leitura, memoria, rebar, amd).len(),
    ensures
        spec_passos(leitura, memoria, rebar, amd)[i].0 == "csm"@ ==> leitura.uefi == Some(false),
        (spec_passos(leitura, memoria, rebar, amd)[i].0 == "pbo"@ || spec_passos(leitura, memoria, rebar, amd)[i].0
            == "curve_optimizer"@) ==> amd,
{
    reveal_strlit("csm");
    reveal_strlit("pbo");
    reveal_strlit("curve_optimizer");
    reveal_strlit("xmp");
    reveal_strlit("rebar");
    reveal_strlit("overclock_manual");
    reveal_strlit("atualizar_bios");
    assert("csm"@.len() == 3 && "pbo"@.len() == 3 && "xmp"@.len() == 3);
    assert("csm"@[0] != "pbo"@[0] && "csm"@[0] != "xmp"@[0] && "pbo"@[0] != "xmp"@[0]);
    assert("curve_optimizer"@.len() == 15 && "rebar"@.len() == 5 && "overclock_manual"@.len() == 16);
    assert("atualizar_bios"@.len() == 14);
}

/// O que a leitura do firmware trouxe, já como valores.
#[derive(Debug, Clone, Default)]
pub struct BiosLida {
    pub placa: Option<String>,
    pub versao: Option<String>,
    pub data: Option<String>,
    pub uefi: Option<bool>,
    pub secure: Option<bool>,
}

pub open spec fn msg_sem_leitura() -> Seq<char> {
    "Não deu para ler a placa-mãe nem a versão da BIOS desta máquina. Sem isso, o \
     passo a passo abaixo continua valendo, mas você vai precisar descobrir o modelo \
     da placa de outro jeito para achar o manual certo."@
}

pub open spec fn msg_sem_uefi() -> Seq<char> {
    "Não deu para saber se esta máquina inicia em modo UEFI ou Legacy."@
}

/// Texto sem branco nas pontas, e nada quando fica vazio.
pub open spec fn sem_vazio_aparado(o: Option<String>) -> Option<Seq<char>> {
    match o {
        Some(s) => if trim(s@).len() > 0 { Some(trim(s@)) } else { None },
        None => None,
    }
}

/// Texto como veio, e nada quando só tem branco.
pub open spec fn sem_vazio(o: Option<String>) -> Option<Seq<char>> {
    match o {
        Some(s) => if trim(s@).len() > 0 { Some(s@) } else { None },
        None => None,
    }
}

pub open spec fn textos(v: Seq<String>) -> Seq<Seq<char>> {
    v.map_values(|s: String| s@)
}

/// A leitura do firmware a partir do que o Windows respondeu (`None` quando não respondeu).
pub fn ler(bruto: Option<BiosLida>) -> (r: Leitura)
    ensures
        match bruto {
            None => {
                &&& r.placa_mae is None && r.versao_da_bios is None && r.data_da_bios is None
                &&& r.uefi is None && r.secure_boot is None
                &&& textos(r.lacunas@) == seq![msg_sem_leitura()]
            },
            Some(b) => {
                &&& opt_texto(r.placa_mae) == sem_vazio_aparado(b.placa)
                &&& opt_texto(r.versao_da_bios) == sem_vazio(b.versao)
                &&& opt_texto(r.data_da_bios) == sem_vazio(b.data)
                &&& r.uefi == b.uefi && r.secure_boot == b.secure
                &&& textos(r.lacunas@) == if b.uefi is None { seq![msg_sem_uefi()] } else { seq![] }
            },
        },
{
    let b = match bruto {
        Some(b) => b,
        None => {
            let mut lacunas: Vec<String> = Vec::new();
            lacunas.push(
                "Não deu para ler a placa-mãe nem a versão da BIOS desta máquina. Sem isso, o \
                 passo a passo abaixo continua valendo, mas você vai precisar descobrir o modelo \
                 da placa de outro jeito para achar o manual certo.".to_string(),
            );
            assert(textos(lacunas@) =~= seq![msg_sem_leitura()]);
            return Leitura {
                placa_mae: None,
                versao_da_bios: None,
                data_da_bios: None,
                uefi: None,
                secure_boot: None,
                lacunas,
            };
        },
    };
    let placa_mae = match &b.placa {
        Some(p) => {
            let t = trim_str(p.as_str());
            if t.len() > 0 {
                Some(string_of(t.as_slice()))
            } else {
                None
            }
        },
        None => None,
    };
    let versao_da_bios = match &b.versao {
        Some(v) => {
            let t = trim_str(v.as_str());
            if t.len() > 0 {
                Some(v.clone())
            } else {
                None
            }
        },
        None => None,
    };
    let data_da_bios = match &b.data {
        Some(d) => {
            let t = trim_str(d.as_str());
            if t.len() > 0 {
                Some(d.clone())
            } else {
                None
            }
        },
        None => None,
    };
    let mut lacunas: Vec<String> = Vec::new();
    if b.uefi.is_none() {
        lacunas.push("Não deu para saber se esta máquina inicia em modo UEFI ou Legacy.".to_string());
    }
    assert(textos(lacunas@) =~= if b.uefi is None { seq![msg_sem_uefi()] } else { Seq::<Seq<char>>::empty() });
    Leitura { placa_mae, versao_da_bios, data_da_bios, uefi: b.uefi, secure_boot: b.secure, lacunas }
}

} // verus!
