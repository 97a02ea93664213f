//! Dois AJUSTES do próprio Otimiza que se anulam, se somam mal ou só fazem sentido juntos (dois PROGRAMAS
//! brigando é o módulo `conflicts`). Entra só com o MECANISMO escrito, não "podem interferir". Só avisa: a
//! decisão continua de quem usa.
//!
//! Quais conflitos atravessam grupos de ajustes (e que grupos cada um liga) depende da tabela que põe cada ajuste
//! num grupo, e essa tabela não faz parte desta biblioteca: essas duas perguntas não são respondidas aqui.

use vstd::prelude::*;
use crate::ordem::textos;
use crate::texto::{chars_of, same_chars};

verus! {

broadcast use vstd::string::group_string_axioms;

#[derive(Debug, Clone, Copy, PartialEq, Eq, Structural)]
pub enum Tipo {
    /// O último a rodar ganha: o resultado depende da ORDEM.
    MesmoLugar,
    SeAnulam,
    DependeDoOutro,
    JuntosCustamCaro,
}

pub open spec fn spec_rotulo(t: Tipo) -> Seq<char> {
    match t {
        Tipo::MesmoLugar => "escrevem no mesmo lugar"@,
        Tipo::SeAnulam => "um anula o outro"@,
        Tipo::DependeDoOutro => "um depende do outro"@,
        Tipo::JuntosCustamCaro => "juntos custam caro"@,
    }
}

impl Tipo {
    pub fn rotulo(self) -> (r: &'static str)
        ensures
            r@ == spec_rotulo(self),
    {
        match self {
            Tipo::MesmoLugar => "escrevem no mesmo lugar",
            Tipo::SeAnulam => "um anula o outro",
            Tipo::DependeDoOutro => "um depende do outro",
            Tipo::JuntosCustamCaro => "juntos custam caro",
        }
    }
}

/// Cada tipo tem rótulo próprio.
pub proof fn lei_rotulos_distintos(a: Tipo, b: Tipo)
    requires
        a != b,
    ensures
        spec_rotulo(a) != spec_rotulo(b),
{
    reveal_strlit("escrevem no mesmo lugar");
    reveal_strlit("um anula o outro");
    reveal_strlit("um depende do outro");
    reveal_strlit("juntos custam caro");
    assert("escrevem no mesmo lugar"@.len() == 23);
    assert("um anula o outro"@.len() == 16);
    assert("um depende do outro"@.len() == 19);
    assert("juntos custam caro"@.len() == 18);
}

#[derive(Debug, Clone, Copy, PartialEq, Eq)]
pub struct Conflito {
    pub id: &'static str,
    pub um: &'static str,
    pub outro: &'static str,
    pub tipo: Tipo,
    pub mecanismo: &'static str,
    /// Nunca "escolha um": qual escolher, e por quê.
    pub conselho: &'static str,
}

pub open spec fn conhecidos() -> Seq<Conflito> {
    seq![
Conflito {
        id: "hpet_e_boot",
        um: "remove_forced_hpet",
        outro: "clear_boot_limits",
        tipo: Tipo::MesmoLugar,
        mecanismo: "Os dois escrevem na configuração de inicialização pelo `bcdedit`, e os \
                    dois exigem reiniciar. Aplicados na mesma sessão, o resultado final \
                    depende de qual rodou por último — e como os dois só valem depois do \
                    reinício, uma medição feita antes dele mede a máquina de antes, sem \
                    nenhum dos dois.",
        conselho: "Não é problema aplicar os dois: eles escrevem valores diferentes e não \
                   se sobrepõem. O cuidado é com a MEDIÇÃO — reinicie antes de medir, senão \
                   o teste do grupo H vai comparar duas vezes a mesma configuração.",
    },
    Conflito {
        id: "compressao_e_sysmain",
        um: "disable_memory_compression",
        outro: "disable_sysmain",
        tipo: Tipo::JuntosCustamCaro,
        mecanismo: "Os dois tiram muletas de memória ao mesmo tempo. Sem a compressão, o \
                    que não cabe vai para o disco; sem o SysMain, o Windows para de \
                    adiantar leitura do que costuma ser usado. Cada um sozinho é uma troca \
                    defensável em máquina com folga — juntos, numa máquina apertada, \
                    somam-se e o sintoma é engasgo de carregamento no meio da partida.",
        conselho: "Com 16 GB ou menos, aplique no máximo um dos dois e meça. Se o jogo está \
                   num disco mecânico, NÃO desligue o SysMain: é justamente nesse disco que \
                   ele adianta leitura.",
    },
    Conflito {
        id: "prioridade_e_mmcss",
        um: "foreground_priority",
        outro: "mmcss_games",
        tipo: Tipo::MesmoLugar,
        mecanismo: "Os dois mexem em quem ganha processador, por caminhos diferentes: o \
                    primeiro muda a fatia da janela em primeiro plano, e o segundo eleva a \
                    prioridade das tarefas de jogo pelo agendador de multimídia. Aplicados \
                    juntos, o efeito de um esconde o do outro numa medição — e se o FPS \
                    piorar, não dá para saber qual dos dois foi.",
        conselho: "Os dois estão no MESMO grupo do protocolo (B) justamente por isso: eles \
                   são testados juntos ou nenhum, e o veredito é do par. Testar um de cada \
                   vez aqui daria uma resposta que não se confirma.",
    },
    Conflito {
        id: "hags_e_msi",
        um: "gpu_hardware_scheduling",
        outro: "gpu_msi_mode",
        tipo: Tipo::MesmoLugar,
        mecanismo: "Os dois mudam como o trabalho chega à placa de vídeo — um passa a fila \
                    para a própria GPU gerenciar, o outro muda como ela avisa o processador \
                    de que terminou. Os dois exigem reiniciar e os dois são dos que mais \
                    variam entre máquinas. Aplicados juntos e o FPS caindo, o culpado é um \
                    dos dois e não há como saber qual sem desfazer um.",
        conselho: "Estão no mesmo grupo (C) e são testados juntos. Se o grupo C piorar, \
                   desfaça o agendamento por hardware primeiro: ele é o que tem o histórico \
                   de custar quadro em combinação de placa e driver.",
    },
    Conflito {
        id: "plano_e_throttling",
        um: "plano_otimiza",
        outro: "disable_power_throttling",
        tipo: Tipo::DependeDoOutro,
        mecanismo: "A limitação de energia por processo age sobre programas que o Windows \
                    considera de segundo plano. Com o plano OTIMIZA ativo — estado mínimo \
                    em 100% e preferência de desempenho no máximo —, boa parte do que ela \
                    faria já não acontece. Desligá-la sem o plano ativo tem efeito bem \
                    maior do que com ele.",
        conselho: "Aplique o plano primeiro e meça. Se o grupo A já resolveu, a limitação \
                   por processo vira um ajuste sem efeito visível nesta máquina — e saber \
                   disso é melhor que aplicar e achar que ajudou.",
    },

    ]
}

/// Os conflitos conhecidos entre ajustes do catálogo.
pub fn lista_conhecidos() -> (r: Vec<Conflito>)
    ensures
        r@ == conhecidos(),
{
    let r = vec![
Conflito {
        id: "hpet_e_boot",
        um: "remove_forced_hpet",
        outro: "clear_boot_limits",
        tipo: Tipo::MesmoLugar,
        mecanismo: "Os dois escrevem na configuração de inicialização pelo `bcdedit`, e os \
                    dois exigem reiniciar. Aplicados na mesma sessão, o resultado final \
                    depende de qual rodou por último — e como os dois só valem depois do \
                    reinício, uma medição feita antes dele mede a máquina de antes, sem \
                    nenhum dos dois.",
        conselho: "Não é problema aplicar os dois: eles escrevem valores diferentes e não \
                   se sobrepõem. O cuidado é com a MEDIÇÃO — reinicie antes de medir, senão \
                   o teste do grupo H vai comparar duas vezes a mesma configuração.",
    },
    Conflito {
        id: "compressao_e_sysmain",
        um: "disable_memory_compression",
        outro: "disable_sysmain",
        tipo: Tipo::JuntosCustamCaro,
        mecanismo: "Os dois tiram muletas de memória ao mesmo tempo. Sem a compressão, o \
                    que não cabe vai para o disco; sem o SysMain, o Windows para de \
                    adiantar leitura do que costuma ser usado. Cada um sozinho é uma troca \
                    defensável em máquina com folga — juntos, numa máquina apertada, \
                    somam-se e o sintoma é engasgo de carregamento no meio da partida.",
        conselho: "Com 16 GB ou menos, aplique no máximo um dos dois e meça. Se o jogo está \
                   num disco mecânico, NÃO desligue o SysMain: é justamente nesse disco que \
                   ele adianta leitura.",
    },
    Conflito {
        id: "prioridade_e_mmcss",
        um: "foreground_priority",
        outro: "mmcss_games",
        tipo: Tipo::MesmoLugar,
        mecanismo: "Os dois mexem em quem ganha processador, por caminhos diferentes: o \
                    primeiro muda a fatia da janela em primeiro plano, e o segundo eleva a \
                    prioridade das tarefas de jogo pelo agendador de multimídia. Aplicados \
                    juntos, o efeito de um esconde o do outro numa medição — e se o FPS \
                    piorar, não dá para saber qual dos dois foi.",
        conselho: "Os dois estão no MESMO grupo do protocolo (B) justamente por isso: eles \
                   são testados juntos ou nenhum, e o veredito é do par. Testar um de cada \
                   vez aqui daria uma resposta que não se confirma.",
    },
    Conflito {
        id: "hags_e_msi",
        um: "gpu_hardware_scheduling",
        outro: "gpu_msi_mode",
        tipo: Tipo::MesmoLugar,
        mecanismo: "Os dois mudam como o trabalho chega à placa de vídeo — um passa a fila \
                    para a própria GPU gerenciar, o outro muda como ela avisa o processador \
                    de que terminou. Os dois exigem reiniciar e os dois são dos que mais \
                    variam entre máquinas. Aplicados juntos e o FPS caindo, o culpado é um \
                    dos dois e não há como saber qual sem desfazer um.",
        conselho: "Estão no mesmo grupo (C) e são testados juntos. Se o grupo C piorar, \
                   desfaça o agendamento por hardware primeiro: ele é o que tem o histórico \
                   de custar quadro em combinação de placa e driver.",
    },
    Conflito {
        id: "plano_e_throttling",
        um: "plano_otimiza",
        outro: "disable_power_throttling",
        tipo: Tipo::DependeDoOutro,
        mecanismo: "A limitação de energia por processo age sobre programas que o Windows \
                    considera de segundo plano. Com o plano OTIMIZA ativo — estado mínimo \
                    em 100% e preferência de desempenho no máximo —, boa parte do que ela \
                    faria já não acontece. Desligá-la sem o plano ativo tem efeito bem \
                    maior do que com ele.",
        conselho: "Aplique o plano primeiro e meça. Se o grupo A já resolveu, a limitação \
                   por processo vira um ajuste sem efeito visível nesta máquina — e saber \
                   disso é melhor que aplicar e achar que ajudou.",
    },

    ];
    assert(r@ =~= conhecidos());
    r
}

/// Os dois ajustes do conflito estão na seleção.
pub open spec fn nos_dois(c: Conflito, ids: Seq<Seq<char>>) -> bool {
    ids.contains(c.um@) && ids.contains(c.outro@)
}

/// Os conflitos cujos dois ajustes estão entre os `n` primeiros conhecidos, na ordem da lista.
pub open spec fn conflitos_entre(ids: Seq<Seq<char>>, cs: Seq<Conflito>) -> Seq<Conflito>
    decreases cs.len(),
{
    if cs.len() == 0 {
        seq![]
    } else {
        let antes = conflitos_entre(ids, cs.drop_last());
        if nos_dois(cs.last(), ids) {
            antes.push(cs.last())
        } else {
            antes
        }
    }
}

fn tem_id(ids: &[String], alvo: &str) -> (r: bool)
    ensures
        r == textos(ids@).contains(alvo@),
{
    let a = chars_of(alvo);
    let mut i: usize = 0;
    while i < ids.len()
        invariant
            0 <= i <= ids@.len(),
            a@ == alvo@,
            forall|k: int| 0 <= k < i ==> textos(ids@)[k] != alvo@,
        decreases ids@.len() - i,
    {
        let c = chars_of(ids[i].as_str());
        if same_chars(c.as_slice(), a.as_slice()) {
            assert(textos(ids@)[i as int] == alvo@);
            return true;
        }
        i = i + 1;
    }
    false
}

/// Os conflitos conhecidos cujos DOIS ajustes estão na seleção; um dos dois sozinho não é conflito.
pub fn entre(ids: &[String]) -> (r: Vec<Conflito>)
    ensures
        r@ == conflitos_entre(textos(ids@), conhecidos()),
{
    let todos = lista_conhecidos();
    let mut r: Vec<Conflito> = Vec::new();
    let mut i: usize = 0;
    while i < todos.len()
        invariant
            0 <= i <= todos@.len(),
            todos@ == conhecidos(),
            r@ == conflitos_entre(textos(ids@), conhecidos().take(i as int)),
        decreases todos@.len() - i,
    {
        assert(conhecidos().take(i + 1).drop_last() =~= conhecidos().take(i as int));
        let c = todos[i];
        if tem_id(ids, c.um) && tem_id(ids, c.outro) {
            r.push(c);
        }
        i = i + 1;
    }
    assert(conhecidos().take(todos@.len() as int) =~= conhecidos());
    r
}

/// Um conflito sai na lista exatamente quando seus dois ajustes foram escolhidos.
pub proof fn lei_conflito_aparece_com_os_dois(ids: Seq<Seq<char>>, cs: Seq<Conflito>, c: Conflito)
    ensures
        conflitos_entre(ids, cs).contains(c) <==> (cs.contains(c) && nos_dois(c, ids)),
    decreases cs.len(),
{
    if cs.len() > 0 {
        let init = cs.drop_last();
        let x = cs.last();
        let a = conflitos_entre(ids, init);
        lei_conflito_aparece_com_os_dois(ids, init, c);
        lema_contem_push(init, x, c);
        assert(cs =~= init.push(x));
        if nos_dois(x, ids) {
            lema_contem_push(a, x, c);
        }
    }
}

proof fn lema_contem_push(s: Seq<Conflito>, x: Conflito, c: Conflito)
    ensures
        s.push(x).contains(c) <==> (s.contains(c) || c == x),
{
    if s.push(x).contains(c) {
        let k = choose|k: int| 0 <= k < s.push(x).len() && s.push(x)[k] == c;
        if k < s.len() {
            assert(s[k] == c);
        }
    }
    if s.contains(c) {
        let k = choose|k: int| 0 <= k < s.len() && s[k] == c;
        assert(s.push(x)[k] == c);
    }
    if c == x {
        assert(s.push(x)[s.len() as int] == x);
    }
}

/// Escolher mais ajustes nunca esconde um conflito que já aparecia.
pub proof fn lei_escolher_mais_nao_esconde(ids: Seq<Seq<char>>, mais: Seq<Seq<char>>, cs: Seq<Conflito>, c: Conflito)
    requires
        forall|x: Seq<char>| ids.contains(x) ==> mais.contains(x),
        conflitos_entre(ids, cs).contains(c),
    ensures
        conflitos_entre(mais, cs).contains(c),
{
    lei_conflito_aparece_com_os_dois(ids, cs, c);
    lei_conflito_aparece_com_os_dois(mais, cs, c);
}

} // verus!
