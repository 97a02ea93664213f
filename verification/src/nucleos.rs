//! Núcleos e a máscara de afinidade. Em processador híbrido, jogo nos núcleos de eficiência entrega menos quadro;
//! a conta da máscara é exata, porque errar um deslocamento prende o jogo no núcleo errado.

use vstd::prelude::*;
use crate::texto::{decimal, decimal_string};

verus! {

broadcast use vstd::string::group_string_axioms;

#[derive(Debug, Clone, Copy, PartialEq, Eq, Structural)]
pub enum Classe {
    Desempenho,
    Eficiencia,
    /// NÃO é "não descobri": é a resposta certa para um processador comum.
    Uniforme,
}

#[derive(Debug, Clone, Copy, PartialEq, Eq, Structural)]
pub struct NucleoLogico {
    pub indice: u32,
    /// Dois lógicos no mesmo físico são irmãos de SMT.
    pub fisico: u32,
    pub classe: Classe,
}

#[derive(Debug, Clone, PartialEq)]
pub struct Topologia {
    pub nucleos: Vec<NucleoLogico>,
    pub hibrido: bool,
}

/// O bit `b` da máscara está ligado.
pub open spec fn bit(m: u64, b: u32) -> bool {
    (m >> b) & 1u64 == 1u64
}

/// Os índices dos bits ligados entre 0 e `n`, em ordem crescente.
pub open spec fn bits_ate(m: u64, n: nat) -> Seq<u32>
    decreases n,
{
    if n == 0 {
        seq![]
    } else {
        let anterior = bits_ate(m, (n - 1) as nat);
        if bit(m, (n - 1) as u32) {
            anterior.push((n - 1) as u32)
        } else {
            anterior
        }
    }
}

/// Os índices dos núcleos de uma classe, na ordem da topologia.
pub open spec fn da_classe_spec(ns: Seq<NucleoLogico>, c: Classe) -> Seq<u32>
    decreases ns.len(),
{
    if ns.len() == 0 {
        seq![]
    } else {
        let anterior = da_classe_spec(ns.drop_last(), c);
        if ns.last().classe == c {
            anterior.push(ns.last().indice)
        } else {
            anterior
        }
    }
}

/// Quantos núcleos físicos distintos a topologia tem.
pub open spec fn fisicos_spec(ns: Seq<NucleoLogico>) -> nat {
    ns.map_values(|n: NucleoLogico| n.fisico).to_set().len()
}

/// Crescente sem repetição.
pub open spec fn estritamente_crescente(s: Seq<u32>) -> bool {
    forall|i: int, j: int| 0 <= i < j < s.len() ==> s[i] < s[j]
}

/// A máscara de uma lista de núcleos: recusada vazia ou com índice acima de 63; senão liga exatamente os bits
/// dos índices da lista.
pub open spec fn mascara_valida(indices: Seq<u32>) -> bool {
    indices.len() > 0 && forall|k: int| 0 <= k < indices.len() ==> #[trigger] indices[k] < 64
}

pub open spec fn liga_exatamente(m: u64, indices: Seq<u32>) -> bool {
    forall|b: u32| b < 64 ==> (bit(m, b) <==> indices.contains(b))
}

proof fn lemma_bit_or(m: u64, x: u32, b: u32)
    requires
        x < 64,
        b < 64,
    ensures
        bit(m | (1u64 << x), b) <==> (bit(m, b) || b == x),
{
    assert(((m | (1u64 << x)) >> b) & 1u64 == 1u64 <==> (((m >> b) & 1u64 == 1u64) || b == x))
        by (bit_vector)
        requires
            x < 64,
            b < 64,
    ;
}

proof fn lemma_bit_zero(b: u32)
    requires
        b < 64,
    ensures
        !bit(0u64, b),
{
    assert((0u64 >> b) & 1u64 != 1u64) by (bit_vector)
        requires
            b < 64,
    ;
}

proof fn lemma_bit_exec(m: u64, b: u32)
    requires
        b < 64,
    ensures
        (m & (1u64 << b) != 0) <==> bit(m, b),
{
    assert((m & (1u64 << b) != 0) <==> ((m >> b) & 1u64 == 1u64)) by (bit_vector)
        requires
            b < 64,
    ;
}

impl Topologia {
    pub fn quantos(&self) -> (r: usize)
        ensures
            r == self.nucleos@.len(),
    {
        self.nucleos.len()
    }

    /// Núcleos físicos distintos.
    pub fn fisicos(&self) -> (r: usize)
        ensures
            r == fisicos_spec(self.nucleos@),
    {
        let ghost fs = self.nucleos@.map_values(|n: NucleoLogico| n.fisico);
        let mut vistos: Vec<u32> = Vec::new();
        let mut i: usize = 0;
        while i < self.nucleos.len()
            invariant
                0 <= i <= self.nucleos@.len(),
                fs == self.nucleos@.map_values(|n: NucleoLogico| n.fisico),
                vistos@.no_duplicates(),
                forall|x: u32| vistos@.contains(x) <==> #[trigger] fs.take(i as int).contains(x),
            decreases self.nucleos@.len() - i,
        {
            let f = self.nucleos[i].fisico;
            let mut ja = false;
            let mut k: usize = 0;
            while k < vistos.len()
                invariant
                    0 <= k <= vistos@.len(),
                    ja == vistos@.take(k as int).contains(f),
                decreases vistos@.len() - k,
            {
                proof {
                    assert(vistos@.take(k + 1) =~= vistos@.take(k as int).push(vistos@[k as int]));
                    vstd::seq_lib::lemma_seq_contains_after_push(vistos@.take(k as int), vistos@[k as int], f);
                }
                if vistos[k] == f {
                    ja = true;
                }
                k = k + 1;
            }
            proof {
                assert(vistos@.take(k as int) =~= vistos@);
                assert(fs.take(i + 1) =~= fs.take(i as int).push(f));
                assert forall|x: u32| #[trigger] fs.take(i + 1).contains(x) <==> (fs.take(i as int).contains(x) || x == f) by {
                    vstd::seq_lib::lemma_seq_contains_after_push(fs.take(i as int), f, x);
                }
            }
            if !ja {
                let ghost antes = vistos@;
                vistos.push(f);
                proof {
                    assert forall|x: u32| #[trigger] vistos@.contains(x) <==> (antes.contains(x) || x == f) by {
                        vstd::seq_lib::lemma_seq_contains_after_push(antes, f, x);
                    }
                    assert forall|a: int, b: int| 0 <= a < vistos@.len() && 0 <= b < vistos@.len() && a != b
                        implies vistos@[a] != vistos@[b] by {
                        if b == vistos@.len() - 1 {
                            assert(antes[a] == vistos@[a]);
                            assert(antes.contains(vistos@[a]));
                        } else if a == vistos@.len() - 1 {
                            assert(antes[b] == vistos@[b]);
                            assert(antes.contains(vistos@[b]));
                        } else {
                            assert(antes[a] == vistos@[a] && antes[b] == vistos@[b]);
                        }
                    }
                }
            }
            i = i + 1;
        }
        proof {
            assert(fs.take(i as int) =~= fs);
            assert(vistos@.to_set() =~= fs.to_set());
            vistos@.unique_seq_to_set();
        }
        vistos.len()
    }

    /// Os índices dos núcleos da classe, na ordem da topologia.
    pub fn da_classe(&self, classe: Classe) -> (r: Vec<u32>)
        ensures
            r@ == da_classe_spec(self.nucleos@, classe),
    {
        let mut r: Vec<u32> = Vec::new();
        let mut i: usize = 0;
        while i < self.nucleos.len()
            invariant
                0 <= i <= self.nucleos@.len(),
                r@ == da_classe_spec(self.nucleos@.take(i as int), classe),
            decreases self.nucleos@.len() - i,
        {
            assert(self.nucleos@.take(i + 1).drop_last() =~= self.nucleos@.take(i as int));
            if self.nucleos[i].classe == classe {
                r.push(self.nucleos[i].indice);
            }
            i = i + 1;
        }
        assert(self.nucleos@.take(i as int) =~= self.nucleos@);
        r
    }
}

/// A máscara de afinidade dos núcleos dados.
pub fn mascara_de(indices: &[u32]) -> (r: Option<u64>)
    ensures
        match r {
            Some(m) => mascara_valida(indices@) && liga_exatamente(m, indices@),
            None => !mascara_valida(indices@),
        },
{
    if indices.len() == 0 {
        return None;
    }
    let mut i: usize = 0;
    while i < indices.len()
        invariant
            0 <= i <= indices@.len(),
            forall|k: int| 0 <= k < i ==> #[trigger] indices@[k] < 64,
        decreases indices@.len() - i,
    {
        if indices[i] >= 64 {
            return None;
        }
        i = i + 1;
    }
    let mut m: u64 = 0;
    let mut j: usize = 0;
    proof {
        assert forall|b: u32| b < 64 implies (bit(m, b) <==> #[trigger] indices@.take(0).contains(b)) by {
            lemma_bit_zero(b);
        }
    }
    while j < indices.len()
        invariant
            0 <= j <= indices@.len(),
            forall|k: int| 0 <= k < indices@.len() ==> #[trigger] indices@[k] < 64,
            forall|b: u32| b < 64 ==> (bit(m, b) <==> indices@.take(j as int).contains(b)),
        decreases indices@.len() - j,
    {
        let x = indices[j];
        proof {
            assert(indices@.take(j + 1) =~= indices@.take(j as int).push(x));
            assert forall|b: u32| b < 64 implies (bit(m | (1u64 << x), b) <==> #[trigger] indices@.take(j + 1).contains(b)) by {
                lemma_bit_or(m, x, b);
                vstd::seq_lib::lemma_seq_contains_after_push(indices@.take(j as int), x, b);
            }
        }
        m = m | (1u64 << x);
        j = j + 1;
    }
    proof {
        assert(indices@.take(j as int) =~= indices@);
    }
    Some(m)
}

/// Os índices ligados na máscara, em ordem crescente.
pub fn indices_de(mascara: u64) -> (r: Vec<u32>)
    ensures
        r@ == bits_ate(mascara, 64),
{
    let mut r: Vec<u32> = Vec::new();
    let mut i: u32 = 0;
    while i < 64
        invariant
            i <= 64,
            r@ == bits_ate(mascara, i as nat),
        decreases 64 - i,
    {
        proof {
            lemma_bit_exec(mascara, i);
        }
        if mascara & (1u64 << i) != 0 {
            r.push(i);
        }
        i = i + 1;
    }
    r
}

/// A máscara dos núcleos de desempenho; em processador uniforme não há núcleo melhor, e não há máscara.
pub fn mascara_de_desempenho(t: &Topologia) -> (r: Option<u64>)
    ensures
        ({
            let rapidos = da_classe_spec(t.nucleos@, Classe::Desempenho);
            match r {
                Some(m) => t.hibrido && mascara_valida(rapidos) && liga_exatamente(m, rapidos),
                None => !t.hibrido || !mascara_valida(rapidos),
            }
        }),
{
    if !t.hibrido {
        return None;
    }
    let rapidos = t.da_classe(Classe::Desempenho);
    mascara_de(rapidos.as_slice())
}

/// Sai junto da máscara: quem lê o número de núcleos precisa ler que isso some quando o jogo fechar.
#[derive(Debug, Clone, PartialEq)]
pub struct Conselho {
    pub cabe: bool,
    pub explicacao: String,
}

pub open spec fn texto_uniforme(quantos: nat) -> Seq<char> {
    "Este processador tem "@ + decimal(quantos)
        + " núcleos lógicos, todos iguais. Não existe \"núcleo melhor\" para prender o jogo: tirar núcleos dele só reduziria o que a máquina entrega. Aqui a afinidade não tem o que resolver."@
}

pub open spec fn texto_hibrido(rapidos: nat, lentos: nat) -> Seq<char> {
    "Este processador é híbrido: "@ + decimal(rapidos) + " núcleos lógicos de desempenho e "@ + decimal(lentos)
        + " de eficiência. Um jogo que cai nos de eficiência entrega bem menos quadro, e nada na tela do Windows diz que foi isso. Prender o jogo nos de desempenho corrige esse caso — e só ele. A mudança vale para o processo aberto e some quando o jogo fechar."@
}

pub fn conselho(t: &Topologia) -> (r: Conselho)
    ensures
        r.cabe == t.hibrido,
        !t.hibrido ==> r.explicacao@ == texto_uniforme(t.nucleos@.len()),
        t.hibrido ==> r.explicacao@ == texto_hibrido(
            da_classe_spec(t.nucleos@, Classe::Desempenho).len(),
            da_classe_spec(t.nucleos@, Classe::Eficiencia).len(),
        ),
{
    if !t.hibrido {
        let mut explicacao = "Este processador tem ".to_string();
        explicacao.append(decimal_string(t.quantos() as u64).as_str());
        explicacao.append(
            " núcleos lógicos, todos iguais. Não existe \"núcleo melhor\" para prender o jogo: tirar núcleos dele só reduziria o que a máquina entrega. Aqui a afinidade não tem o que resolver.",
        );
        return Conselho { cabe: false, explicacao };
    }
    let rapidos = t.da_classe(Classe::Desempenho).len();
    let lentos = t.da_classe(Classe::Eficiencia).len();
    let mut explicacao = "Este processador é híbrido: ".to_string();
    explicacao.append(decimal_string(rapidos as u64).as_str());
    explicacao.append(" núcleos lógicos de desempenho e ");
    explicacao.append(decimal_string(lentos as u64).as_str());
    explicacao.append(
        " de eficiência. Um jogo que cai nos de eficiência entrega bem menos quadro, e nada na tela do Windows diz que foi isso. Prender o jogo nos de desempenho corrige esse caso — e só ele. A mudança vale para o processo aberto e some quando o jogo fechar.",
    );
    Conselho { cabe: true, explicacao }
}


proof fn lemma_bits_ate(m: u64, n: nat)
    requires
        n <= 64,
    ensures
        estritamente_crescente(bits_ate(m, n)),
        forall|k: int| 0 <= k < bits_ate(m, n).len() ==> #[trigger] bits_ate(m, n)[k] < n,
        forall|b: u32| #[trigger] bits_ate(m, n).contains(b) <==> (b < n && bit(m, b)),
    decreases n,
{
    if n > 0 {
        let a = bits_ate(m, (n - 1) as nat);
        lemma_bits_ate(m, (n - 1) as nat);
        let x = (n - 1) as u32;
        if bit(m, x) {
            assert forall|b: u32| #[trigger] bits_ate(m, n).contains(b) <==> (b < n && bit(m, b)) by {
                vstd::seq_lib::lemma_seq_contains_after_push(a, x, b);
            }
        }
    }
}

proof fn lemma_crescentes_iguais(a: Seq<u32>, b: Seq<u32>)
    requires
        estritamente_crescente(a),
        estritamente_crescente(b),
        forall|x: u32| a.contains(x) <==> b.contains(x),
    ensures
        a == b,
    decreases a.len(),
{
    if a.len() == 0 {
        if b.len() > 0 {
            assert(b.contains(b[0]));
        }
        assert(a =~= b);
    } else {
        assert(a.contains(a[0]));
        assert(b.len() > 0);
        assert(b.contains(b[0]));
        let ia = choose|i: int| 0 <= i < a.len() && a[i] == b[0];
        let ib = choose|i: int| 0 <= i < b.len() && b[i] == a[0];
        if ia > 0 {
            assert(a[0] < a[ia]);
        }
        if ib > 0 {
            assert(b[0] < b[ib]);
        }
        assert(a[0] == b[0]);
        let a2 = a.drop_first();
        let b2 = b.drop_first();
        assert forall|x: u32| a2.contains(x) <==> b2.contains(x) by {
            if a2.contains(x) {
                let i = choose|i: int| 0 <= i < a2.len() && a2[i] == x;
                assert(a[i + 1] == x);
                assert(a.contains(x));
                assert(x != a[0]);
                let j = choose|j: int| 0 <= j < b.len() && b[j] == x;
                assert(j != 0);
                assert(b2[j - 1] == x);
            }
            if b2.contains(x) {
                let i = choose|i: int| 0 <= i < b2.len() && b2[i] == x;
                assert(b[i + 1] == x);
                assert(b.contains(x));
                assert(x != b[0]);
                let j = choose|j: int| 0 <= j < a.len() && a[j] == x;
                assert(j != 0);
                assert(a2[j - 1] == x);
            }
        }
        lemma_crescentes_iguais(a2, b2);
        assert(a =~= seq![a[0]] + a2);
        assert(b =~= seq![b[0]] + b2);
    }
}

/// Ida e volta: a máscara de uma lista crescente de núcleos devolve, lida de volta, a mesma lista.
pub proof fn lei_ida_e_volta(indices: Seq<u32>, m: u64)
    requires
        estritamente_crescente(indices),
        mascara_valida(indices),
        liga_exatamente(m, indices),
    ensures
        bits_ate(m, 64) == indices,
{
    lemma_bits_ate(m, 64);
    assert forall|x: u32| bits_ate(m, 64).contains(x) <==> indices.contains(x) by {
        if indices.contains(x) {
            let k = choose|k: int| 0 <= k < indices.len() && indices[k] == x;
            assert(indices[k] < 64);
        }
    }
    lemma_crescentes_iguais(bits_ate(m, 64), indices);
}

/// Toda máscara lida de volta sai crescente e só com índices abaixo de 64.
pub proof fn lei_indices_crescentes(m: u64)
    ensures
        estritamente_crescente(bits_ate(m, 64)),
        forall|k: int| 0 <= k < bits_ate(m, 64).len() ==> #[trigger] bits_ate(m, 64)[k] < 64,
{
    lemma_bits_ate(m, 64);
}


proof fn lema_sem_bit_ligado_e_zero(x: u64)
    requires
        forall|b: u32| b < 64 ==> #[trigger] bit(x, b) == false,
    ensures
        x == 0,
{
    assert(!bit(x, 0u32));
    assert(!bit(x, 1u32));
    assert(!bit(x, 2u32));
    assert(!bit(x, 3u32));
    assert(!bit(x, 4u32));
    assert(!bit(x, 5u32));
    assert(!bit(x, 6u32));
    assert(!bit(x, 7u32));
    assert(!bit(x, 8u32));
    assert(!bit(x, 9u32));
    assert(!bit(x, 10u32));
    assert(!bit(x, 11u32));
    assert(!bit(x, 12u32));
    assert(!bit(x, 13u32));
    assert(!bit(x, 14u32));
    assert(!bit(x, 15u32));
    assert(!bit(x, 16u32));
    assert(!bit(x, 17u32));
    assert(!bit(x, 18u32));
    assert(!bit(x, 19u32));
    assert(!bit(x, 20u32));
    assert(!bit(x, 21u32));
    assert(!bit(x, 22u32));
    assert(!bit(x, 23u32));
    assert(!bit(x, 24u32));
    assert(!bit(x, 25u32));
    assert(!bit(x, 26u32));
    assert(!bit(x, 27u32));
    assert(!bit(x, 28u32));
    assert(!bit(x, 29u32));
    assert(!bit(x, 30u32));
    assert(!bit(x, 31u32));
    assert(!bit(x, 32u32));
    assert(!bit(x, 33u32));
    assert(!bit(x, 34u32));
    assert(!bit(x, 35u32));
    assert(!bit(x, 36u32));
    assert(!bit(x, 37u32));
    assert(!bit(x, 38u32));
    assert(!bit(x, 39u32));
    assert(!bit(x, 40u32));
    assert(!bit(x, 41u32));
    assert(!bit(x, 42u32));
    assert(!bit(x, 43u32));
    assert(!bit(x, 44u32));
    assert(!bit(x, 45u32));
    assert(!bit(x, 46u32));
    assert(!bit(x, 47u32));
    assert(!bit(x, 48u32));
    assert(!bit(x, 49u32));
    assert(!bit(x, 50u32));
    assert(!bit(x, 51u32));
    assert(!bit(x, 52u32));
    assert(!bit(x, 53u32));
    assert(!bit(x, 54u32));
    assert(!bit(x, 55u32));
    assert(!bit(x, 56u32));
    assert(!bit(x, 57u32));
    assert(!bit(x, 58u32));
    assert(!bit(x, 59u32));
    assert(!bit(x, 60u32));
    assert(!bit(x, 61u32));
    assert(!bit(x, 62u32));
    assert(!bit(x, 63u32));
    assert(x == 0) by (bit_vector)
        requires
            (x >> 0u32) & 1u64 != 1u64 &&
            (x >> 1u32) & 1u64 != 1u64 &&
            (x >> 2u32) & 1u64 != 1u64 &&
            (x >> 3u32) & 1u64 != 1u64 &&
            (x >> 4u32) & 1u64 != 1u64 &&
            (x >> 5u32) & 1u64 != 1u64 &&
            (x >> 6u32) & 1u64 != 1u64 &&
            (x >> 7u32) & 1u64 != 1u64 &&
            (x >> 8u32) & 1u64 != 1u64 &&
            (x >> 9u32) & 1u64 != 1u64 &&
            (x >> 10u32) & 1u64 != 1u64 &&
            (x >> 11u32) & 1u64 != 1u64 &&
            (x >> 12u32) & 1u64 != 1u64 &&
            (x >> 13u32) & 1u64 != 1u64 &&
            (x >> 14u32) & 1u64 != 1u64 &&
            (x >> 15u32) & 1u64 != 1u64 &&
            (x >> 16u32) & 1u64 != 1u64 &&
            (x >> 17u32) & 1u64 != 1u64 &&
            (x >> 18u32) & 1u64 != 1u64 &&
            (x >> 19u32) & 1u64 != 1u64 &&
            (x >> 20u32) & 1u64 != 1u64 &&
            (x >> 21u32) & 1u64 != 1u64 &&
            (x >> 22u32) & 1u64 != 1u64 &&
            (x >> 23u32) & 1u64 != 1u64 &&
            (x >> 24u32) & 1u64 != 1u64 &&
            (x >> 25u32) & 1u64 != 1u64 &&
            (x >> 26u32) & 1u64 != 1u64 &&
            (x >> 27u32) & 1u64 != 1u64 &&
            (x >> 28u32) & 1u64 != 1u64 &&
            (x >> 29u32) & 1u64 != 1u64 &&
            (x >> 30u32) & 1u64 != 1u64 &&
            (x >> 31u32) & 1u64 != 1u64 &&
            (x >> 32u32) & 1u64 != 1u64 &&
            (x >> 33u32) & 1u64 != 1u64 &&
            (x >> 34u32) & 1u64 != 1u64 &&
            (x >> 35u32) & 1u64 != 1u64 &&
            (x >> 36u32) & 1u64 != 1u64 &&
            (x >> 37u32) & 1u64 != 1u64 &&
            (x >> 38u32) & 1u64 != 1u64 &&
            (x >> 39u32) & 1u64 != 1u64 &&
            (x >> 40u32) & 1u64 != 1u64 &&
            (x >> 41u32) & 1u64 != 1u64 &&
            (x >> 42u32) & 1u64 != 1u64 &&
            (x >> 43u32) & 1u64 != 1u64 &&
            (x >> 44u32) & 1u64 != 1u64 &&
            (x >> 45u32) & 1u64 != 1u64 &&
            (x >> 46u32) & 1u64 != 1u64 &&
            (x >> 47u32) & 1u64 != 1u64 &&
            (x >> 48u32) & 1u64 != 1u64 &&
            (x >> 49u32) & 1u64 != 1u64 &&
            (x >> 50u32) & 1u64 != 1u64 &&
            (x >> 51u32) & 1u64 != 1u64 &&
            (x >> 52u32) & 1u64 != 1u64 &&
            (x >> 53u32) & 1u64 != 1u64 &&
            (x >> 54u32) & 1u64 != 1u64 &&
            (x >> 55u32) & 1u64 != 1u64 &&
            (x >> 56u32) & 1u64 != 1u64 &&
            (x >> 57u32) & 1u64 != 1u64 &&
            (x >> 58u32) & 1u64 != 1u64 &&
            (x >> 59u32) & 1u64 != 1u64 &&
            (x >> 60u32) & 1u64 != 1u64 &&
            (x >> 61u32) & 1u64 != 1u64 &&
            (x >> 62u32) & 1u64 != 1u64 &&
            (x >> 63u32) & 1u64 != 1u64,
    ;
}

/// Cada lista de núcleos tem uma máscara só: duas máscaras que ligam exatamente os mesmos núcleos são iguais. Por
/// isso a máscara de desempenho de uma CPU híbrida é a `mascara_de` dos seus núcleos de desempenho.
pub proof fn lei_a_mascara_e_unica(m1: u64, m2: u64, indices: Seq<u32>)
    requires
        liga_exatamente(m1, indices),
        liga_exatamente(m2, indices),
    ensures
        m1 == m2,
{
    let x = m1 ^ m2;
    assert forall|b: u32| b < 64 implies #[trigger] bit(x, b) == false by {
        assert(bit(m1, b) == bit(m2, b));
        assert(((m1 >> b) & 1u64 == 1u64) == ((m2 >> b) & 1u64 == 1u64) && b < 64 ==> ((m1 ^ m2) >> b) & 1u64 != 1u64)
            by (bit_vector);
    }
    lema_sem_bit_ligado_e_zero(x);
    assert(m1 ^ m2 == 0u64 ==> m1 == m2) by (bit_vector);
}

} // verus!
