//! Gargalo: qual recurso chegou ao limite (processador num núcleo, em todos, placa, memória de vídeo, memória,
//! disco), e o que fazer com isso. Sem carga não há gargalo: o veredito é "não identificamos", nunca o palpite
//! mais vendável. As medições são decimais e a decisão sobre elas fica no aplicativo; aqui ficam os limites, o
//! conselho de cada um e a leitura do tamanho da memória de vídeo que o driver grava.

use vstd::prelude::*;

verus! {

broadcast use vstd::string::group_string_axioms;

#[derive(Debug, Clone, Copy, PartialEq, Eq, Structural)]
pub enum Limite {
    CpuUmNucleo,
    CpuTodos,
    Gpu,
    MemoriaVideo,
    MemoriaRam,
    Disco,
    NaoIdentificado,
    SemCarga,
}

pub open spec fn spec_conselho(limite: Limite) -> Seq<char> {
    match limite {
        Limite::SemCarga => "Para descobrir o que limita o desempenho é preciso medir com o jogo aberto e \
             rodando de verdade. Com o PC ocioso não há limite nenhum a encontrar, e apontar \
             um seria chute."@,
        Limite::CpuUmNucleo => "Esta é a situação mais comum em FiveM e GTA V, e a mais mal interpretada. O \
             Gerenciador de Tarefas mostra a média — algo como 25% — e dá a impressão de que \
             sobra máquina. Sobra, mas na parte errada: o jogo depende de um núcleo e esse \
             está no talo.\n\nO que muda isso é um processador com núcleo mais rápido, não um \
             com mais núcleos. Placa de vídeo melhor também não resolve, porque ela já está \
             esperando. É uma informação cara de descobrir errado."@,
        Limite::CpuTodos => "Diferente do caso de um núcleo só, aqui a máquina está inteira ocupada. Vale \
             conferir na aba Painel se algum programa em segundo plano está consumindo o que \
             deveria ir para o jogo, antes de pensar em trocar peça."@,
        Limite::Gpu => "Em jogo, isso costuma ser boa notícia: significa que o resto da máquina está \
             entregando tudo que a placa consegue consumir, e nenhum ajuste de sistema vai \
             além disso. Para mais quadros, o caminho é baixar as configurações gráficas ou \
             a resolução — ou trocar a placa."@,
        Limite::MemoriaVideo => "Quando ela enche, a placa passa a buscar dados na memória do sistema, que é bem \
             mais lenta, e o resultado são engasgos fortes e irregulares. Reduzir a qualidade \
             das texturas costuma resolver na hora, e é de graça."@,
        Limite::MemoriaRam => "Com a memória no fim o Windows passa a usar o disco no lugar dela, e disco é \
             ordens de grandeza mais lento. É a causa mais comum de travadas de vários \
             segundos. Feche o que não estiver usando — a aba Painel mostra quem está \
             consumindo — e considere aumentar a memória, que costuma ser a peça mais barata \
             com maior efeito."@,
        Limite::Disco => "O disco estar ocupado durante o jogo aponta para carregamento constante ou para \
             algo trabalhando em segundo plano. Vale conferir a saúde do disco na aba \
             Diagnóstico: disco mecânico ou com desgaste avançado se comporta assim, e nesse \
             caso nenhum ajuste de software resolve."@,
        Limite::NaoIdentificado => "Isso significa que, no momento da medição, nada estava segurando a máquina. Se \
             você sente travadas, elas podem ser curtas demais para aparecer numa média — a \
             aba Resultado mede engasgos, que é a medida certa para esse caso. Preferimos \
             dizer que não encontramos a apontar um culpado provável."@,
    }
}

impl Limite {
    /// O que fazer com este limite (a frase de resumo, que leva os números medidos, é montada junto com eles).
    pub fn conselho(self) -> (r: &'static str)
        ensures
            r@ == spec_conselho(self),
    {
        match self {
            Limite::SemCarga => "Para descobrir o que limita o desempenho é preciso medir com o jogo aberto e \
             rodando de verdade. Com o PC ocioso não há limite nenhum a encontrar, e apontar \
             um seria chute.",
            Limite::CpuUmNucleo => "Esta é a situação mais comum em FiveM e GTA V, e a mais mal interpretada. O \
             Gerenciador de Tarefas mostra a média — algo como 25% — e dá a impressão de que \
             sobra máquina. Sobra, mas na parte errada: o jogo depende de um núcleo e esse \
             está no talo.\n\nO que muda isso é um processador com núcleo mais rápido, não um \
             com mais núcleos. Placa de vídeo melhor também não resolve, porque ela já está \
             esperando. É uma informação cara de descobrir errado.",
            Limite::CpuTodos => "Diferente do caso de um núcleo só, aqui a máquina está inteira ocupada. Vale \
             conferir na aba Painel se algum programa em segundo plano está consumindo o que \
             deveria ir para o jogo, antes de pensar em trocar peça.",
            Limite::Gpu => "Em jogo, isso costuma ser boa notícia: significa que o resto da máquina está \
             entregando tudo que a placa consegue consumir, e nenhum ajuste de sistema vai \
             além disso. Para mais quadros, o caminho é baixar as configurações gráficas ou \
             a resolução — ou trocar a placa.",
            Limite::MemoriaVideo => "Quando ela enche, a placa passa a buscar dados na memória do sistema, que é bem \
             mais lenta, e o resultado são engasgos fortes e irregulares. Reduzir a qualidade \
             das texturas costuma resolver na hora, e é de graça.",
            Limite::MemoriaRam => "Com a memória no fim o Windows passa a usar o disco no lugar dela, e disco é \
             ordens de grandeza mais lento. É a causa mais comum de travadas de vários \
             segundos. Feche o que não estiver usando — a aba Painel mostra quem está \
             consumindo — e considere aumentar a memória, que costuma ser a peça mais barata \
             com maior efeito.",
            Limite::Disco => "O disco estar ocupado durante o jogo aponta para carregamento constante ou para \
             algo trabalhando em segundo plano. Vale conferir a saúde do disco na aba \
             Diagnóstico: disco mecânico ou com desgaste avançado se comporta assim, e nesse \
             caso nenhum ajuste de software resolve.",
            Limite::NaoIdentificado => "Isso significa que, no momento da medição, nada estava segurando a máquina. Se \
             você sente travadas, elas podem ser curtas demais para aparecer numa média — a \
             aba Resultado mede engasgos, que é a medida certa para esse caso. Preferimos \
             dizer que não encontramos a apontar um culpado provável.",
        }
    }
}

/// O valor de 8 bytes em ordem little-endian.
pub open spec fn little_endian(b: Seq<u8>) -> nat
    decreases b.len(),
{
    if b.len() == 0 {
        0
    } else {
        b[0] as nat + 256 * little_endian(b.drop_first())
    }
}

pub open spec fn pot256(n: nat) -> nat
    decreases n,
{
    if n == 0 {
        1
    } else {
        256 * pot256((n - 1) as nat)
    }
}

proof fn lema_little_endian_cabe(b: Seq<u8>)
    ensures
        little_endian(b) < pot256(b.len()),
    decreases b.len(),
{
    if b.len() > 0 {
        lema_little_endian_cabe(b.drop_first());
        let r = little_endian(b.drop_first());
        let p = pot256(b.drop_first().len());
        assert(b[0] as nat + 256 * r < 256 * p) by (nonlinear_arith)
            requires
                r < p,
                b[0] < 256,
        ;
    }
}

/// O tamanho da memória de vídeo em `HardwareInformation.qwMemorySize`, que o driver grava em 8 bytes:
/// o `AdapterRAM` é de 32 bits e estoura em placa de 4 GB ou mais. Zero é "não sabemos", nunca "placa fraca".
pub open spec fn spec_memoria_de_video(bytes: Seq<u8>) -> Option<nat> {
    if bytes.len() >= 8 && little_endian(bytes.take(8)) > 0 {
        Some(little_endian(bytes.take(8)))
    } else {
        None
    }
}

pub fn memoria_de_video(bytes: &[u8]) -> (r: Option<u64>)
    ensures
        match r {
            Some(t) => spec_memoria_de_video(bytes@) == Some(t as nat),
            None => spec_memoria_de_video(bytes@) is None,
        },
{
    if bytes.len() < 8 {
        return None;
    }
    let ghost oito = bytes@.take(8);
    let mut v: u64 = 0;
    let mut i: usize = 8;
    proof {
        assert(oito.subrange(8, 8) =~= Seq::<u8>::empty());
    }
    while i > 0
        invariant
            i <= 8,
            8 <= bytes@.len(),
            oito == bytes@.take(8),
            v == little_endian(oito.subrange(i as int, 8)),
        decreases i,
    {
        proof {
            lema_little_endian_cabe(oito.subrange(i as int, 8));
            assert(pot256((8 - i) as nat) <= pot256(7)) by {
                lema_pot256_cresce((8 - i) as nat, 7);
            }
            assert(pot256(7) == 0x100_0000_0000_0000) by {
                reveal_with_fuel(pot256, 8);
            }
            let s = oito.subrange(i - 1, 8);
            assert(s.drop_first() =~= oito.subrange(i as int, 8));
            assert(s[0] == bytes@[i - 1]);
        }
        i = i - 1;
        v = v * 256 + bytes[i] as u64;
    }
    assert(oito.subrange(0, 8) =~= oito);
    if v > 0 {
        Some(v)
    } else {
        None
    }
}

proof fn lema_pot256_cresce(a: nat, b: nat)
    requires
        a <= b,
    ensures
        pot256(a) <= pot256(b),
    decreases b,
{
    if a < b {
        lema_pot256_cresce(a, (b - 1) as nat);
    }
}

/// O driver é procurado nas entradas 0000 a 0007 da classe de vídeo: vale a primeira com o tamanho gravado.
pub open spec fn spec_primeira_memoria(leituras: Seq<Option<Seq<u8>>>, i: int) -> Option<nat>
    decreases leituras.len() - i,
{
    if i < 0 || i >= leituras.len() {
        None
    } else {
        match leituras[i] {
            Some(b) => match spec_memoria_de_video(b) {
                Some(t) => Some(t),
                None => spec_primeira_memoria(leituras, i + 1),
            },
            None => spec_primeira_memoria(leituras, i + 1),
        }
    }
}

pub open spec fn vistas_binarias(v: Seq<Option<Vec<u8>>>) -> Seq<Option<Seq<u8>>> {
    v.map_values(|o: Option<Vec<u8>>| match o {
        Some(b) => Some(b@),
        None => None,
    })
}

/// A memória de vídeo total, em bytes, a partir do que cada entrada do driver tinha gravado (`None` onde não havia
/// valor binário).
pub fn memoria_de_video_total(leituras: &[Option<Vec<u8>>]) -> (r: Option<u64>)
    ensures
        match r {
            Some(t) => spec_primeira_memoria(vistas_binarias(leituras@), 0) == Some(t as nat),
            None => spec_primeira_memoria(vistas_binarias(leituras@), 0) is None,
        },
{
    let ghost vs = vistas_binarias(leituras@);
    let mut i: usize = 0;
    while i < leituras.len()
        invariant
            i <= leituras@.len(),
            vs == vistas_binarias(leituras@),
            spec_primeira_memoria(vs, 0) == spec_primeira_memoria(vs, i as int),
        decreases leituras@.len() - i,
    {
        match &leituras[i] {
            Some(b) => {
                match memoria_de_video(b.as_slice()) {
                    Some(t) => return Some(t),
                    None => {},
                }
            },
            None => {},
        }
        i = i + 1;
    }
    None
}

} // verus!
