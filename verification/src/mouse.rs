//! O caminho do mouse até o pixel: a aceleração do ponteiro e a barra de velocidade fora do meio. Cada achado
//! carrega o próprio texto, para a tela e o relatório dizerem a mesma coisa.

use vstd::prelude::*;
use crate::ordem::textos;
use crate::texto::{parse_i64, parse_i64_exec, parse_u32, parse_u32_exec, trim, trim_str};

verus! {

broadcast use vstd::string::group_string_axioms;

/// Seis, de vinte: o padrão, e o único ponto 1:1.
pub const BARRA_UM_PARA_UM: u32 = 6;

/// A 1 kHz é um quinto de segundo de movimento, o bastante para a mediana não depender de relatos atrasados.
pub const INTERVALOS_PARA_A_TAXA: usize = 200;

#[derive(Debug, Clone, Copy, PartialEq, Eq, Structural)]
pub enum Achado {
    AceleracaoLigada,
    BarraAbaixoDoMeio,
    BarraAcimaDoMeio,
}

pub open spec fn spec_titulo(a: Achado) -> Seq<char> {
    match a {
        Achado::AceleracaoLigada => "Aceleração do ponteiro ligada"@,
        Achado::BarraAbaixoDoMeio => "Barra de velocidade abaixo do meio"@,
        Achado::BarraAcimaDoMeio => "Barra de velocidade acima do meio"@,
    }
}

pub open spec fn spec_explicacao(a: Achado) -> Seq<char> {
    match a {
        Achado::AceleracaoLigada => "A \"precisão aprimorada do ponteiro\" está ligada. Com ela, o mesmo movimento de mão percorre distâncias diferentes conforme a velocidade — o gesto que hoje chega no alvo não chega amanhã se a mão for um pouco mais devagar."@,
        Achado::BarraAbaixoDoMeio => "A barra de velocidade do ponteiro está abaixo do meio. Aí o Windows DESCARTA contagem do mouse: movimentos pequenos da mão podem não mover nada, e dois gestos iguais podem terminar em lugares diferentes."@,
        Achado::BarraAcimaDoMeio => "A barra de velocidade do ponteiro está acima do meio. Aí o Windows MULTIPLICA as contagens e pula pixels: o ponteiro anda aos saltos, e a precisão que o sensor do mouse tem se perde no caminho."@,
    }
}

pub open spec fn spec_onde_mexer(a: Achado) -> Seq<char> {
    match a {
        Achado::AceleracaoLigada => "Configurações do Windows → Bluetooth e dispositivos → Mouse → Configurações adicionais do mouse → Opções do ponteiro → desmarcar \"Aprimorar precisão do ponteiro\". O Otimiza também faz isso, e o desfazer devolve como estava."@,
        Achado::BarraAbaixoDoMeio | Achado::BarraAcimaDoMeio => "Na mesma tela, em Opções do ponteiro, deixe a barra de velocidade exatamente no meio — é o único ponto em que uma contagem do mouse vira um passo do ponteiro. Para mudar a sensibilidade, use o ajuste DENTRO do jogo, que não descarta contagem."@,
    }
}

impl Achado {
    pub fn titulo(self) -> (r: &'static str)
        ensures
            r@ == spec_titulo(self),
    {
        match self {
            Achado::AceleracaoLigada => "Aceleração do ponteiro ligada",
            Achado::BarraAbaixoDoMeio => "Barra de velocidade abaixo do meio",
            Achado::BarraAcimaDoMeio => "Barra de velocidade acima do meio",
        }
    }

    pub fn explicacao(self) -> (r: &'static str)
        ensures
            r@ == spec_explicacao(self),
    {
        match self {
            Achado::AceleracaoLigada => "A \"precisão aprimorada do ponteiro\" está ligada. Com ela, o mesmo movimento de mão percorre distâncias diferentes conforme a velocidade — o gesto que hoje chega no alvo não chega amanhã se a mão for um pouco mais devagar.",
            Achado::BarraAbaixoDoMeio => "A barra de velocidade do ponteiro está abaixo do meio. Aí o Windows DESCARTA contagem do mouse: movimentos pequenos da mão podem não mover nada, e dois gestos iguais podem terminar em lugares diferentes.",
            Achado::BarraAcimaDoMeio => "A barra de velocidade do ponteiro está acima do meio. Aí o Windows MULTIPLICA as contagens e pula pixels: o ponteiro anda aos saltos, e a precisão que o sensor do mouse tem se perde no caminho.",
        }
    }

    pub fn onde_mexer(self) -> (r: &'static str)
        ensures
            r@ == spec_onde_mexer(self),
    {
        match self {
            Achado::AceleracaoLigada => "Configurações do Windows → Bluetooth e dispositivos → Mouse → Configurações adicionais do mouse → Opções do ponteiro → desmarcar \"Aprimorar precisão do ponteiro\". O Otimiza também faz isso, e o desfazer devolve como estava.",
            Achado::BarraAbaixoDoMeio | Achado::BarraAcimaDoMeio => "Na mesma tela, em Opções do ponteiro, deixe a barra de velocidade exatamente no meio — é o único ponto em que uma contagem do mouse vira um passo do ponteiro. Para mudar a sensibilidade, use o ajuste DENTRO do jogo, que não descarta contagem.",
        }
    }
}

#[derive(Debug, Clone, PartialEq)]
pub struct AchadoNaTela {
    pub achado: Achado,
    pub titulo: String,
    pub explicacao: String,
    pub onde_mexer: String,
}

/// Cada achado com o texto embutido, na mesma ordem.
pub fn achados_na_tela(achados: &[Achado]) -> (r: Vec<AchadoNaTela>)
    ensures
        r@.len() == achados@.len(),
        forall|i: int| 0 <= i < r@.len() ==> {
            let a = #[trigger] r@[i];
            &&& a.achado == achados@[i]
            &&& a.titulo@ == spec_titulo(achados@[i])
            &&& a.explicacao@ == spec_explicacao(achados@[i])
            &&& a.onde_mexer@ == spec_onde_mexer(achados@[i])
        },
{
    let mut r: Vec<AchadoNaTela> = Vec::new();
    let mut i: usize = 0;
    while i < achados.len()
        invariant
            0 <= i <= achados@.len(),
            r@.len() == i,
            forall|k: int| 0 <= k < r@.len() ==> {
                let a = #[trigger] r@[k];
                &&& a.achado == achados@[k]
                &&& a.titulo@ == spec_titulo(achados@[k])
                &&& a.explicacao@ == spec_explicacao(achados@[k])
                &&& a.onde_mexer@ == spec_onde_mexer(achados@[k])
            },
        decreases achados@.len() - i,
    {
        let a = achados[i];
        r.push(
            AchadoNaTela {
                achado: a,
                titulo: a.titulo().to_string(),
                explicacao: a.explicacao().to_string(),
                onde_mexer: a.onde_mexer().to_string(),
            },
        );
        i = i + 1;
    }
    r
}

/// O caminho do mouse lido nesta máquina (a taxa de varredura, um número decimal medido, vai junto no
/// aplicativo). `None` quando não se leu: absolver o que ninguém olhou é o defeito que este produto não comete.
#[derive(Debug, Clone, PartialEq)]
pub struct Caminho {
    pub aceleracao: Option<bool>,
    pub barra: Option<u32>,
    pub achados: Vec<Achado>,
    pub falta: Vec<String>,
}

pub open spec fn spec_aceleracao(mouse_speed: Option<Seq<char>>) -> Option<bool> {
    match mouse_speed {
        Some(t) => match parse_i64(trim(t)) {
            Some(v) => Some(v != 0),
            None => None,
        },
        None => None,
    }
}

/// Fora de 1 a 20 é leitura estragada.
pub open spec fn spec_barra(sensibilidade: Option<Seq<char>>) -> Option<u32> {
    match sensibilidade {
        Some(t) => match parse_u32(trim(t)) {
            Some(v) => if 1 <= v <= 20 {
                Some(v)
            } else {
                None
            },
            None => None,
        },
        None => None,
    }
}

pub open spec fn spec_achados(aceleracao: Option<bool>, barra: Option<u32>) -> Seq<Achado> {
    (if aceleracao == Some(true) {
        seq![Achado::AceleracaoLigada]
    } else {
        seq![]
    }) + match barra {
        Some(v) => if v < BARRA_UM_PARA_UM {
            seq![Achado::BarraAbaixoDoMeio]
        } else if v > BARRA_UM_PARA_UM {
            seq![Achado::BarraAcimaDoMeio]
        } else {
            seq![]
        },
        None => seq![],
    }
}

pub open spec fn falta_aceleracao() -> Seq<char> {
    "a chave da precisão aprimorada do ponteiro não pôde ser lida"@
}

pub open spec fn falta_barra() -> Seq<char> {
    "a posição da barra de velocidade do ponteiro não pôde ser lida"@
}

pub open spec fn falta_taxa() -> Seq<char> {
    "a taxa de varredura do mouse exige capturar entrada bruta na janela do aplicativo, \
     que ainda não está ligada"@
}

pub open spec fn spec_falta(aceleracao: Option<bool>, barra: Option<u32>, tem_taxa: bool) -> Seq<Seq<char>> {
    (if aceleracao is None {
        seq![falta_aceleracao()]
    } else {
        seq![]
    }) + (if barra is None {
        seq![falta_barra()]
    } else {
        seq![]
    }) + (if !tem_taxa {
        seq![falta_taxa()]
    } else {
        seq![]
    })
}

pub open spec fn opt_view(o: Option<&str>) -> Option<Seq<char>> {
    match o {
        Some(s) => Some(s@),
        None => None,
    }
}

/// `MouseSpeed` e `MouseSensitivity` são texto no registro; texto que não é número vira ausente, nunca zero.
/// `tem_taxa` diz se a taxa de varredura foi medida.
pub fn avaliar(mouse_speed: Option<&str>, sensibilidade: Option<&str>, tem_taxa: bool) -> (r: Caminho)
    ensures
        r.aceleracao == spec_aceleracao(opt_view(mouse_speed)),
        r.barra == spec_barra(opt_view(sensibilidade)),
        r.achados@ == spec_achados(r.aceleracao, r.barra),
        textos(r.falta@) == spec_falta(r.aceleracao, r.barra, tem_taxa),
{
    let mut achados: Vec<Achado> = Vec::new();
    let mut falta: Vec<String> = Vec::new();
    let aceleracao: Option<bool> = match mouse_speed {
        Some(t) => {
            let limpo = trim_str(t);
            match parse_i64_exec(limpo.as_slice()) {
                Some(v) => Some(v != 0),
                None => None,
            }
        },
        None => None,
    };
    if aceleracao.is_none() {
        falta.push("a chave da precisão aprimorada do ponteiro não pôde ser lida".to_string());
    }
    if aceleracao == Some(true) {
        achados.push(Achado::AceleracaoLigada);
    }
    let barra: Option<u32> = match sensibilidade {
        Some(t) => {
            let limpo = trim_str(t);
            match parse_u32_exec(limpo.as_slice()) {
                Some(v) => if 1 <= v && v <= 20 {
                    Some(v)
                } else {
                    None
                },
                None => None,
            }
        },
        None => None,
    };
    match barra {
        Some(v) => {
            if v < BARRA_UM_PARA_UM {
                achados.push(Achado::BarraAbaixoDoMeio);
            } else if v > BARRA_UM_PARA_UM {
                achados.push(Achado::BarraAcimaDoMeio);
            }
        },
        None => {
            falta.push("a posição da barra de velocidade do ponteiro não pôde ser lida".to_string());
        },
    }
    if !tem_taxa {
        falta.push(
            "a taxa de varredura do mouse exige capturar entrada bruta na janela do aplicativo, \
             que ainda não está ligada"
                .to_string(),
        );
    }
    assert(achados@ =~= spec_achados(aceleracao, barra));
    assert(textos(falta@) =~= spec_falta(aceleracao, barra, tem_taxa));
    Caminho { aceleracao, barra, achados, falta }
}

impl Caminho {
    /// Os achados deste caminho, cada um com o texto embutido.
    pub fn achados_na_tela(&self) -> (r: Vec<AchadoNaTela>)
        ensures
            r@.len() == self.achados@.len(),
            forall|i: int| 0 <= i < r@.len() ==> {
                let a = #[trigger] r@[i];
                &&& a.achado == self.achados@[i]
                &&& a.titulo@ == spec_titulo(self.achados@[i])
                &&& a.explicacao@ == spec_explicacao(self.achados@[i])
                &&& a.onde_mexer@ == spec_onde_mexer(self.achados@[i])
            },
    {
        achados_na_tela(self.achados.as_slice())
    }
}


/// Só intervalos positivos contam: zero é relato repetido, não movimento.
pub open spec fn positivo() -> spec_fn(u64) -> bool {
    |i: u64| i > 0
}

pub open spec fn crescente() -> spec_fn(u64, u64) -> bool {
    |a: u64, b: u64| a <= b
}

/// Os intervalos válidos, do menor para o maior.
pub open spec fn em_ordem(intervalos: Seq<u64>) -> Seq<u64> {
    intervalos.filter(positivo()).sort_by(crescente())
}

/// O dobro da mediana dos intervalos válidos, para não perder a metade quando a quantidade é par; nenhum valor
/// abaixo de `INTERVALOS_PARA_A_TAXA` intervalos válidos.
pub open spec fn spec_mediana_em_dobro(intervalos: Seq<u64>) -> Option<int> {
    let t = em_ordem(intervalos);
    let meio = (t.len() / 2) as int;
    if t.len() < INTERVALOS_PARA_A_TAXA {
        None
    } else if t.len() % 2 == 0 {
        Some(t[meio - 1] + t[meio])
    } else {
        Some(2 * t[meio])
    }
}

proof fn lema_crescente_e_ordem_total()
    ensures
        vstd::relations::total_ordering(crescente()),
{
}

/// MEDIANA: um relato perdido dobra um intervalo, e a média daria uma taxa que o mouse nunca teve. A taxa em
/// hertz é um milhão dividido pela metade deste valor.
pub fn mediana_em_dobro(intervalos_us: &[u64]) -> (r: Option<u128>)
    ensures
        match r {
            Some(m) => spec_mediana_em_dobro(intervalos_us@) == Some(m as int),
            None => spec_mediana_em_dobro(intervalos_us@) is None,
        },
        r matches Some(m) ==> m > 0,
{
    let ghost s = intervalos_us@;
    let mut validos: Vec<u64> = Vec::new();
    let mut i: usize = 0;
    while i < intervalos_us.len()
        invariant
            i <= s.len(),
            s == intervalos_us@,
            validos@ == s.take(i as int).filter(positivo()),
        decreases s.len() - i,
    {
        proof {
            assert(s.take(i + 1).drop_last() =~= s.take(i as int));
            assert(s.take(i + 1).last() == s[i as int]);
            reveal_with_fuel(Seq::filter, 1);
        }
        let v = intervalos_us[i];
        if v > 0 {
            validos.push(v);
        }
        i = i + 1;
    }
    assert(s.take(s.len() as int) =~= s);
    let ghost f = validos@;
    // Inserção: cada intervalo entra antes do primeiro maior que ele.
    let mut t: Vec<u64> = Vec::new();
    let mut j: usize = 0;
    assert(f.take(0) =~= t@);
    while j < validos.len()
        invariant
            j <= f.len(),
            f == validos@,
            f == s.filter(positivo()),
            vstd::relations::sorted_by(t@, crescente()),
            t@.to_multiset() == f.take(j as int).to_multiset(),
            forall|k: int| 0 <= k < t@.len() ==> t@[k] > 0,
            t@.len() == j,
        decreases f.len() - j,
    {
        let x = validos[j];
        proof {
            s.lemma_filter_pred(positivo(), j as int);
        }
        let mut p: usize = 0;
        while p < t.len() && t[p] <= x
            invariant
                p <= t@.len(),
                forall|k: int| 0 <= k < p ==> t@[k] <= x,
            decreases t@.len() - p,
        {
            p = p + 1;
        }
        let ghost antes = t@;
        t.insert(p, x);
        proof {
            broadcast use vstd::seq_lib::group_to_multiset_ensures;
            assert(t@ =~= antes.insert(p as int, x));
            assert(f.take(j + 1) =~= f.take(j as int).push(x));
            assert forall|a: int, b: int| 0 <= a < b < t@.len() implies #[trigger] crescente()(
                t@[a],
                t@[b],
            ) by {
                if b < p {
                    assert(crescente()(antes[a], antes[b]));
                } else if b == p {
                } else if a == p {
                    assert(crescente()(antes[p as int], antes[b - 1]));
                } else if a < p {
                    assert(crescente()(antes[a], antes[b - 1]));
                } else {
                    assert(crescente()(antes[a - 1], antes[b - 1]));
                }
            }
        }
        j = j + 1;
    }
    proof {
        assert(f.take(f.len() as int) =~= f);
        lema_crescente_e_ordem_total();
        f.lemma_sort_by_ensures(crescente());
        vstd::seq_lib::lemma_sorted_unique(t@, f.sort_by(crescente()), crescente());
    }
    let n = t.len();
    if n < INTERVALOS_PARA_A_TAXA {
        return None;
    }
    let meio = n / 2;
    if n % 2 == 0 {
        Some(t[meio - 1] as u128 + t[meio] as u128)
    } else {
        Some(2 * (t[meio] as u128))
    }
}

} // verus!
