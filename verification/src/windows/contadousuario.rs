//! A conta que vai jogar e a conta que roda o Otimiza. Os ajustes de `HKEY_CURRENT_USER` vão para a conta do
//! PROCESSO: elevado com a senha de outra conta, vão para um perfil que ninguém usa. O produto AVISA e não tenta
//! escrever no perfil de outra conta.

use vstd::prelude::*;
use crate::windows::catalog::{catalog, spec_catalogo, Action, OptimizationSpec};
use crate::texto::{
    chars_of, decimal, eq_ignore_ascii_case, eq_ignore_ascii_case_exec, lines, lines_exec, push_decimal,
    string_of, trim, trim_chars, views,
};

verus! {

broadcast use vstd::string::group_string_axioms;

#[derive(Debug, Clone, PartialEq, Eq)]
pub enum Conta {
    Mesma { usuario: String },
    Diferente { processo: String, shell: String },
    /// NÃO é "está tudo bem": é uma verificação que não aconteceu.
    NaoDeuParaLer { motivo: String },
}

/// A conta como texto, para os contratos.
pub ghost enum ContaV {
    Mesma(Seq<char>),
    Diferente(Seq<char>, Seq<char>),
    NaoDeuParaLer(Seq<char>),
}

pub open spec fn cview(c: Conta) -> ContaV {
    match c {
        Conta::Mesma { usuario } => ContaV::Mesma(usuario@),
        Conta::Diferente { processo, shell } => ContaV::Diferente(processo@, shell@),
        Conta::NaoDeuParaLer { motivo } => ContaV::NaoDeuParaLer(motivo@),
    }
}

impl Conta {
    /// `None` e não `false`: "está errado" e "não sei" mandam a pessoa fazer coisas diferentes.
    pub fn ajustes_de_usuario_valem(&self) -> (r: Option<bool>)
        ensures
            r == match *self {
                Conta::Mesma { .. } => Some(true),
                Conta::Diferente { .. } => Some(false),
                Conta::NaoDeuParaLer { .. } => None::<bool>,
            },
    {
        match self {
            Conta::Mesma { .. } => Some(true),
            Conta::Diferente { .. } => Some(false),
            Conta::NaoDeuParaLer { .. } => None,
        }
    }
}

pub open spec fn motivo_sem_nome() -> Seq<char> {
    "o Windows não respondeu o nome de uma das contas."@
}

/// Sem diferença de caixa: o Windows não distingue, e acusar contas diferentes aí é o alarme falso mais fácil.
pub open spec fn spec_comparar(processo: Seq<char>, shell: Seq<char>) -> ContaV {
    let p = trim(processo);
    let s = trim(shell);
    if p.len() == 0 || s.len() == 0 {
        ContaV::NaoDeuParaLer(motivo_sem_nome())
    } else if eq_ignore_ascii_case(p, s) {
        ContaV::Mesma(p)
    } else {
        ContaV::Diferente(p, s)
    }
}

fn comparar_chars(processo: &[char], shell: &[char]) -> (r: Conta)
    ensures
        cview(r) == spec_comparar(processo@, shell@),
{
    let p = trim_chars(processo);
    let s = trim_chars(shell);
    if p.len() == 0 || s.len() == 0 {
        return Conta::NaoDeuParaLer { motivo: "o Windows não respondeu o nome de uma das contas.".to_string() };
    }
    if eq_ignore_ascii_case_exec(p.as_slice(), s.as_slice()) {
        Conta::Mesma { usuario: string_of(p.as_slice()) }
    } else {
        Conta::Diferente { processo: string_of(p.as_slice()), shell: string_of(s.as_slice()) }
    }
}

pub fn comparar(processo: &str, shell: &str) -> (r: Conta)
    ensures
        cview(r) == spec_comparar(processo@, shell@),
{
    let p = chars_of(processo);
    let s = chars_of(shell);
    comparar_chars(p.as_slice(), s.as_slice())
}

/// As linhas não vazias depois de tirar os brancos das pontas, na ordem.
pub open spec fn nao_vazias(ls: Seq<Seq<char>>) -> Seq<Seq<char>>
    decreases ls.len(),
{
    if ls.len() == 0 {
        seq![]
    } else {
        let antes = nao_vazias(ls.drop_last());
        let t = trim(ls.last());
        if t.len() == 0 {
            antes
        } else {
            antes.push(t)
        }
    }
}

pub open spec fn motivo_sem_explorer() -> Seq<char> {
    "não há um Explorer rodando nesta sessão, então não dá para saber que conta está na frente da máquina."@
}

pub open spec fn motivo_ilegivel() -> Seq<char> {
    "o Windows respondeu de um jeito que não deu para ler."@
}

/// Uma linha só = `explorer.exe` não encontrado: `NaoDeuParaLer`, nunca "as contas são iguais".
pub open spec fn spec_ler_duas_linhas(saida: Seq<char>) -> ContaV {
    let ls = nao_vazias(lines(saida));
    if ls.len() == 2 {
        spec_comparar(ls[0], ls[1])
    } else if ls.len() == 1 {
        ContaV::NaoDeuParaLer(motivo_sem_explorer())
    } else {
        ContaV::NaoDeuParaLer(motivo_ilegivel())
    }
}

pub fn ler_duas_linhas(saida: &str) -> (r: Conta)
    ensures
        cview(r) == spec_ler_duas_linhas(saida@),
{
    let texto = chars_of(saida);
    let todas = lines_exec(texto.as_slice());
    let mut ls: Vec<Vec<char>> = Vec::new();
    let mut i: usize = 0;
    while i < todas.len()
        invariant
            0 <= i <= todas@.len(),
            views(todas@) == lines(saida@),
            views(ls@) == nao_vazias(views(todas@).take(i as int)),
        decreases todas@.len() - i,
    {
        let ghost antes = ls@;
        proof {
            assert(views(todas@).take(i + 1).drop_last() =~= views(todas@).take(i as int));
            assert(views(todas@).take(i + 1).last() == todas@[i as int]@);
        }
        let t = trim_chars(todas[i].as_slice());
        if t.len() > 0 {
            ls.push(t);
            assert(views(ls@) =~= views(antes).push(trim(todas@[i as int]@)));
        }
        i = i + 1;
    }
    assert(views(todas@).take(i as int) =~= views(todas@));
    if ls.len() == 2 {
        assert(views(ls@)[0] == ls@[0]@ && views(ls@)[1] == ls@[1]@);
        comparar_chars(ls[0].as_slice(), ls[1].as_slice())
    } else if ls.len() == 1 {
        Conta::NaoDeuParaLer {
            motivo: "não há um Explorer rodando nesta sessão, então não dá para saber que conta está na frente da máquina.".to_string(),
        }
    } else {
        Conta::NaoDeuParaLer { motivo: "o Windows respondeu de um jeito que não deu para ler.".to_string() }
    }
}

pub open spec fn sem_resposta() -> Seq<char> {
    "não deu para perguntar ao Windows quem está com a sessão aberta."@
}

/// A conta do processo e a da sessão, a partir da saída do PowerShell que pergunta as duas (`None` quando a
/// pergunta falhou).
pub fn verificar(saida: Option<&str>) -> (r: Conta)
    ensures
        cview(r) == match saida {
            Some(s) => spec_ler_duas_linhas(s@),
            None => ContaV::NaoDeuParaLer(sem_resposta()),
        },
{
    match saida {
        Some(s) => ler_duas_linhas(s),
        None => Conta::NaoDeuParaLer {
            motivo: "não deu para perguntar ao Windows quem está com a sessão aberta.".to_string(),
        },
    }
}

pub open spec fn texto_mesma(usuario: Seq<char>) -> Seq<char> {
    "O Otimiza está rodando pela conta "@ + usuario
        + ", que é a mesma que está usando o computador. Os ajustes que dependem da conta — mouse, transparência, notificações — vão para o lugar certo."@
}

pub open spec fn texto_diferente(processo: Seq<char>, shell: Seq<char>, n: nat) -> Seq<char> {
    "ATENÇÃO: o Otimiza está rodando pela conta "@ + processo + ", e quem está usando o computador é "@ + shell
        + ". Isso acontece quando a senha digitada na tela de administrador é de outra conta.\n\n"@ + decimal(n)
        + " ajustes deste catálogo são por CONTA, e não pela máquina — mouse, transparência, notificações, aplicativos em segundo plano. Aplicados assim, eles vão para o perfil de "@
        + processo + " e não vão surtir efeito nenhum para "@ + shell
        + ". O Otimiza vai dizer que conferiu e vai estar certo: ele confere a conta que está gravando, que é a errada.\n\nO que resolve: feche o Otimiza, torne "@
        + shell
        + " administrador do computador, e abra de novo por essa conta. Os ajustes que valem para a máquina inteira — plano de energia, serviços, placa de vídeo — funcionam do mesmo jeito e não são afetados por isto."@
}

pub open spec fn texto_nao_leu(motivo: Seq<char>, n: nat) -> Seq<char> {
    "Não deu para saber se o Otimiza está rodando pela mesma conta que está usando o computador: "@ + motivo
        + " Isso importa porque "@ + decimal(n)
        + " ajustes são por conta, e elevados por outra eles iriam para o perfil errado. Esta verificação não aconteceu — o que não quer dizer que esteja tudo bem."@
}

pub open spec fn spec_explicar(c: ContaV, n: nat) -> Seq<char> {
    match c {
        ContaV::Mesma(u) => texto_mesma(u),
        ContaV::Diferente(p, s) => texto_diferente(p, s, n),
        ContaV::NaoDeuParaLer(m) => texto_nao_leu(m, n),
    }
}

fn numero(n: usize) -> (r: String)
    ensures
        r@ == decimal(n as nat),
{
    let mut v: Vec<char> = Vec::new();
    push_decimal(&mut v, n as u64);
    assert(v@ =~= decimal(n as nat));
    string_of(v.as_slice())
}

pub fn explicar(conta: &Conta, quantos_ajustes: usize) -> (r: String)
    ensures
        r@ == spec_explicar(cview(*conta), quantos_ajustes as nat),
{
    match conta {
        Conta::Mesma { usuario } => {
            let mut r = "O Otimiza está rodando pela conta ".to_string();
            r.append(usuario.as_str());
            r.append(
                ", que é a mesma que está usando o computador. Os ajustes que dependem da conta — mouse, transparência, notificações — vão para o lugar certo.",
            );
            r
        },
        Conta::Diferente { processo, shell } => {
            let mut r = "ATENÇÃO: o Otimiza está rodando pela conta ".to_string();
            r.append(processo.as_str());
            r.append(", e quem está usando o computador é ");
            r.append(shell.as_str());
            r.append(
                ". Isso acontece quando a senha digitada na tela de administrador é de outra conta.\n\n",
            );
            r.append(numero(quantos_ajustes).as_str());
            r.append(
                " ajustes deste catálogo são por CONTA, e não pela máquina — mouse, transparência, notificações, aplicativos em segundo plano. Aplicados assim, eles vão para o perfil de ",
            );
            r.append(processo.as_str());
            r.append(" e não vão surtir efeito nenhum para ");
            r.append(shell.as_str());
            r.append(
                ". O Otimiza vai dizer que conferiu e vai estar certo: ele confere a conta que está gravando, que é a errada.\n\nO que resolve: feche o Otimiza, torne ",
            );
            r.append(shell.as_str());
            r.append(
                " administrador do computador, e abra de novo por essa conta. Os ajustes que valem para a máquina inteira — plano de energia, serviços, placa de vídeo — funcionam do mesmo jeito e não são afetados por isto.",
            );
            r
        },
        Conta::NaoDeuParaLer { motivo } => {
            let mut r = "Não deu para saber se o Otimiza está rodando pela mesma conta que está usando o computador: ".to_string();
            r.append(motivo.as_str());
            r.append(" Isso importa porque ");
            r.append(numero(quantos_ajustes).as_str());
            r.append(
                " ajustes são por conta, e elevados por outra eles iriam para o perfil errado. Esta verificação não aconteceu — o que não quer dizer que esteja tudo bem.",
            );
            r
        },
    }
}

/// Saída com menos ou mais de duas linhas nunca vira "as contas são iguais".
pub proof fn lei_sem_duas_linhas_nao_ha_conta(saida: Seq<char>)
    requires
        nao_vazias(lines(saida)).len() != 2,
    ensures
        spec_ler_duas_linhas(saida) is NaoDeuParaLer,
{
}

/// Nome vazio de qualquer lado nunca vira conta igual nem diferente.
pub proof fn lei_nome_vazio_nao_compara(processo: Seq<char>, shell: Seq<char>)
    requires
        trim(processo).len() == 0 || trim(shell).len() == 0,
    ensures
        spec_comparar(processo, shell) is NaoDeuParaLer,
{
}

/// A ação escreve no registro em `HKCU`, o perfil da conta que roda o Otimiza.
pub open spec fn registro_da_conta(a: Action) -> bool {
    match a {
        Action::Registry { hive, .. } => eq_ignore_ascii_case(hive@, "HKCU"@),
        _ => false,
    }
}

/// O ajuste escreve no perfil da conta.
pub open spec fn escreve_na_conta(s: OptimizationSpec) -> bool {
    exists|i: int| 0 <= i < s.actions@.len() && registro_da_conta(#[trigger] s.actions@[i])
}

/// Quantos dos ajustes dados escrevem no perfil da conta.
pub open spec fn quantos_por_conta(cs: Seq<OptimizationSpec>) -> nat
    decreases cs.len(),
{
    if cs.len() == 0 {
        0
    } else {
        quantos_por_conta(cs.drop_last()) + if escreve_na_conta(cs.last()) {
            1nat
        } else {
            0nat
        }
    }
}

fn escreve_na_conta_exec(s: &OptimizationSpec) -> (r: bool)
    ensures
        r == escreve_na_conta(*s),
{
    let hkcu = chars_of("HKCU");
    let mut i: usize = 0;
    while i < s.actions.len()
        invariant
            0 <= i <= s.actions@.len(),
            hkcu@ == "HKCU"@,
            forall|k: int| 0 <= k < i ==> !registro_da_conta(#[trigger] s.actions@[k]),
        decreases s.actions@.len() - i,
    {
        match s.actions[i] {
            Action::Registry { hive, .. } => {
                let h = chars_of(hive);
                if eq_ignore_ascii_case_exec(h.as_slice(), hkcu.as_slice()) {
                    assert(registro_da_conta(s.actions@[i as int]));
                    return true;
                }
            },
            _ => {},
        }
        i = i + 1;
    }
    false
}

/// Contado do catálogo, e não escrito à mão: quantos ajustes valem só para a conta que roda o Otimiza.
pub fn quantos_sao_por_conta() -> (r: usize)
    ensures
        r == quantos_por_conta(spec_catalogo()),
{
    let cat = catalog();
    let mut n: usize = 0;
    let mut i: usize = 0;
    while i < cat.len()
        invariant
            0 <= i <= cat@.len(),
            cat@ == spec_catalogo(),
            n == quantos_por_conta(spec_catalogo().take(i as int)),
            n <= i,
        decreases cat@.len() - i,
    {
        assert(spec_catalogo().take(i + 1).drop_last() =~= spec_catalogo().take(i as int));
        assert(spec_catalogo().take(i + 1).last() == cat@[i as int]);
        if escreve_na_conta_exec(&cat[i]) {
            n = n + 1;
        }
        i = i + 1;
    }
    assert(spec_catalogo().take(cat@.len() as int) =~= spec_catalogo());
    n
}

} // verus!
