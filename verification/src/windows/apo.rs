//! Intel Application Optimization. A Intel valida o APO numa lista fechada de processadores, no Windows 11, e ele
//! chega pelo driver Intel Dynamic Tuning. Só lê e aponta; não instala driver.

use vstd::prelude::*;
use crate::texto::{
    alnum_prefix, alnum_prefix_exec, chars_of, contains, contains_exec, find, first_occ, lemma_first_occ,
    minusculas, one_of, parse_u32, parse_u32_exec, same_chars, skip_chars, to_lowercase, trim, trim_chars,
    views, words, words_exec,
};
use super::achados::{FindingSeverity, FixLocation};

verus! {

broadcast use vstd::string::group_string_axioms;

/// Modelos da lista "verified" da Intel, sem o prefixo de família.
pub open spec fn validados() -> Seq<Seq<char>> {
    seq![
        "14900ks"@, "14900k"@, "14900kf"@, "14700k"@, "14700kf"@, "14600k"@, "14600kf"@, "14900hx"@,
        "14700hx"@, "285k"@, "265k"@, "265kf"@, "245k"@, "245kf"@, "285hx"@, "275hx"@, "265hx"@, "255hx"@,
        "245hx"@, "235hx"@, "356h"@, "386h"@,
    ]
}

/// Os "Plus", validados só com a palavra no nome.
pub open spec fn validados_plus() -> Seq<Seq<char>> {
    seq!["270k"@, "250k"@, "250kf"@, "290hx"@, "270hx"@]
}

fn lista_validados() -> (r: Vec<&'static str>)
    ensures
        r@.map_values(|s: &'static str| s@) == validados(),
{
    let r = vec![
        "14900ks", "14900k", "14900kf", "14700k", "14700kf", "14600k", "14600kf", "14900hx", "14700hx",
        "285k", "265k", "265kf", "245k", "245kf", "285hx", "275hx", "265hx", "255hx", "245hx", "235hx",
        "356h", "386h",
    ];
    assert(r@.map_values(|s: &'static str| s@) =~= validados());
    r
}

fn lista_validados_plus() -> (r: Vec<&'static str>)
    ensures
        r@.map_values(|s: &'static str| s@) == validados_plus(),
{
    let r = vec!["270k", "250k", "250kf", "290hx", "270hx"];
    assert(r@.map_values(|s: &'static str| s@) =~= validados_plus());
    r
}

/// O que vem depois do nome da família: a primeira de "i9-", "i7-" e "i5-" que aparecer, senão a segunda
/// palavra depois de "ultra ".
pub open spec fn depois_da_familia(n: Seq<char>) -> Option<Seq<char>> {
    if contains(n, "i9-"@) {
        Some(n.skip(first_occ(n, "i9-"@) + 3))
    } else if contains(n, "i7-"@) {
        Some(n.skip(first_occ(n, "i7-"@) + 3))
    } else if contains(n, "i5-"@) {
        Some(n.skip(first_occ(n, "i5-"@) + 3))
    } else if contains(n, "ultra "@) {
        let ws = words(n.skip(first_occ(n, "ultra "@) + 6));
        if ws.len() > 1 {
            Some(ws[1])
        } else {
            None
        }
    } else {
        None
    }
}

/// O modelo depois da família: "Intel(R) Core(TM) i9-14900K" → "14900k"; "Intel(R) Core(TM) Ultra 9 285K" → "285k".
pub open spec fn spec_modelo(cpu: Seq<char>) -> Option<Seq<char>> {
    match depois_da_familia(minusculas(cpu)) {
        Some(d) => if alnum_prefix(d).len() > 0 {
            Some(alnum_prefix(d))
        } else {
            None
        },
        None => None,
    }
}

/// O processador está na lista validada da Intel.
pub open spec fn spec_validado(cpu: Seq<char>) -> bool {
    let n = minusculas(cpu);
    contains(n, "intel"@) && match spec_modelo(cpu) {
        Some(m) => if contains(n, "plus"@) {
            validados_plus().contains(m)
        } else {
            validados().contains(m)
        },
        None => false,
    }
}

fn depois_de(n: &[char], padrao: &str, tamanho: usize) -> (r: Option<Vec<char>>)
    requires
        padrao@.len() == tamanho,
    ensures
        match r {
            Some(d) => contains(n@, padrao@) && d@ == n@.skip(first_occ(n@, padrao@) + tamanho),
            None => !contains(n@, padrao@),
        },
{
    let p = chars_of(padrao);
    match find(n, p.as_slice()) {
        Some(i) => {
            proof {
                lemma_first_occ(n@, padrao@, i as int);
            }
            assert(i + tamanho <= n@.len());
            assert(n@.len() == n.len());
            Some(skip_chars(n, i + tamanho))
        },
        None => None,
    }
}

fn segunda_palavra(resto: &[char]) -> (r: Option<Vec<char>>)
    ensures
        match r {
            Some(w) => words(resto@).len() > 1 && w@ == words(resto@)[1],
            None => words(resto@).len() <= 1,
        },
{
    let ws = words_exec(resto);
    if ws.len() <= 1 {
        return None;
    }
    assert(views(ws@)[1] == ws@[1]@);
    let mut w: Vec<char> = Vec::new();
    let mut k: usize = 0;
    while k < ws[1].len()
        invariant
            ws@.len() > 1,
            0 <= k <= ws@[1]@.len(),
            w@ == ws@[1]@.take(k as int),
        decreases ws@[1]@.len() - k,
    {
        w.push(ws[1][k]);
        k = k + 1;
        assert(w@ =~= ws@[1]@.take(k as int));
    }
    assert(ws@[1]@.take(k as int) =~= ws@[1]@);
    Some(w)
}

fn familia(n: &[char]) -> (r: Option<Vec<char>>)
    ensures
        match r {
            Some(d) => depois_da_familia(n@) == Some(d@),
            None => depois_da_familia(n@) is None,
        },
{
    proof {
        reveal_strlit("i9-");
        reveal_strlit("i7-");
        reveal_strlit("i5-");
        reveal_strlit("ultra ");
    }
    if let Some(d) = depois_de(n, "i9-", 3) {
        return Some(d);
    }
    if let Some(d) = depois_de(n, "i7-", 3) {
        return Some(d);
    }
    if let Some(d) = depois_de(n, "i5-", 3) {
        return Some(d);
    }
    match depois_de(n, "ultra ", 6) {
        Some(resto) => segunda_palavra(resto.as_slice()),
        None => None,
    }
}

fn modelo_de(n: &[char]) -> (r: Option<Vec<char>>)
    ensures
        match r {
            Some(m) => match depois_da_familia(n@) {
                Some(d) => alnum_prefix(d).len() > 0 && m@ == alnum_prefix(d),
                None => false,
            },
            None => match depois_da_familia(n@) {
                Some(d) => alnum_prefix(d).len() == 0,
                None => true,
            },
        },
{
    match familia(n) {
        Some(d) => {
            let m = alnum_prefix_exec(d.as_slice());
            if m.len() > 0 {
                Some(m)
            } else {
                None
            }
        },
        None => None,
    }
}

pub fn processador_validado(cpu: &str) -> (r: bool)
    ensures
        r == spec_validado(cpu@),
{
    let c = chars_of(cpu);
    let n = to_lowercase(c.as_slice());
    let intel = chars_of("intel");
    if !contains_exec(n.as_slice(), intel.as_slice()) {
        return false;
    }
    let m = match modelo_de(n.as_slice()) {
        Some(m) => m,
        None => return false,
    };
    let plus = chars_of("plus");
    let lista = if contains_exec(n.as_slice(), plus.as_slice()) {
        lista_validados_plus()
    } else {
        lista_validados()
    };
    let r = one_of(m.as_slice(), &lista);
    proof {
        let vs = lista@.map_values(|s: &'static str| s@);
        if r {
            let i = choose|i: int| 0 <= i < lista@.len() && (#[trigger] lista@[i])@ == m@;
            assert(vs[i] == m@);
        } else {
            assert forall|i: int| 0 <= i < vs.len() implies vs[i] != m@ by {
                assert(vs[i] == lista@[i]@);
            }
        }
    }
    r
}

#[derive(Debug, Clone, PartialEq)]
pub struct Achado {
    pub id: &'static str,
    pub titulo: String,
    pub medido: String,
    pub conselho: String,
    pub severidade: FindingSeverity,
    pub onde: FixLocation,
}

pub open spec fn texto_medido(cpu: Seq<char>) -> Seq<char> {
    "O "@ + trim(cpu)
        + " está na lista validada da Intel, e o driver Intel Dynamic Tuning não aparece no Gerenciador de Dispositivos."@
}

pub open spec fn texto_conselho() -> Seq<char> {
    "O APO chega pelo driver Intel Dynamic Tuning Technology (11405 ou mais novo), baixado do site da sua placa-mãe, com a opção ligada na BIOS. A Intel diz que ele rende nos jogos da lista dela; nos outros não muda nada. O Otimiza não instala driver."@
}

/// Só acusa no Windows 11, com o processador da lista e o driver LIDO e ausente: leitura falha não vira acusação.
pub fn achados(cpu: &str, windows_11: bool, driver_presente: Option<bool>) -> (r: Vec<Achado>)
    ensures
        (windows_11 && spec_validado(cpu@) && driver_presente == Some(false)) ==> {
            &&& r@.len() == 1
            &&& r@[0].id@ == "apo_sem_driver"@
            &&& r@[0].titulo@ == "Intel Application Optimization disponível e não instalado"@
            &&& r@[0].medido@ == texto_medido(cpu@)
            &&& r@[0].conselho@ == texto_conselho()
            &&& r@[0].severidade == FindingSeverity::Important
            &&& r@[0].onde == FixLocation::Software
        },
        !(windows_11 && spec_validado(cpu@) && driver_presente == Some(false)) ==> r@.len() == 0,
{
    let sem_driver = match driver_presente {
        Some(false) => true,
        _ => false,
    };
    if !windows_11 || !processador_validado(cpu) || !sem_driver {
        return Vec::new();
    }
    let c = chars_of(cpu);
    let t = trim_chars(c.as_slice());
    let mut medido = "O ".to_string();
    medido.append(crate::texto::string_of(t.as_slice()).as_str());
    medido.append(
        " está na lista validada da Intel, e o driver Intel Dynamic Tuning não aparece no Gerenciador de Dispositivos.",
    );
    vec![
        Achado {
            id: "apo_sem_driver",
            titulo: "Intel Application Optimization disponível e não instalado".to_string(),
            medido,
            conselho: "O APO chega pelo driver Intel Dynamic Tuning Technology (11405 ou mais novo), baixado do site da sua placa-mãe, com a opção ligada na BIOS. A Intel diz que ele rende nos jogos da lista dela; nos outros não muda nada. O Otimiza não instala driver.".to_string(),
            severidade: FindingSeverity::Important,
            onde: FixLocation::Software,
        },
    ]
}

/// Windows 11 começa no build 22000; `build` é o `CurrentBuildNumber` lido do registro.
pub fn windows_11(build: Option<&str>) -> (r: bool)
    ensures
        r == match build {
            Some(b) => match parse_u32(trim(b@)) {
                Some(n) => n >= 22000,
                None => false,
            },
            None => false,
        },
{
    match build {
        Some(b) => {
            let c = chars_of(b);
            let t = trim_chars(c.as_slice());
            match parse_u32_exec(t.as_slice()) {
                Some(n) => n >= 22000,
                None => false,
            }
        },
        None => false,
    }
}

/// O driver aparece no Gerenciador de Dispositivos, pela resposta da consulta ("sim" ou "nao"); `None`: a consulta
/// falhou ou respondeu outra coisa.
pub fn driver_presente(saida: Option<&str>) -> (r: Option<bool>)
    ensures
        r == match saida {
            Some(s) => if trim(s@) == "sim"@ {
                Some(true)
            } else if trim(s@) == "nao"@ {
                Some(false)
            } else {
                None
            },
            None => None,
        },
{
    proof {
        reveal_strlit("sim");
        reveal_strlit("nao");
    }
    match saida {
        Some(s) => {
            let c = chars_of(s);
            let t = trim_chars(c.as_slice());
            let sim = chars_of("sim");
            let nao = chars_of("nao");
            if same_chars(t.as_slice(), sim.as_slice()) {
                Some(true)
            } else if same_chars(t.as_slice(), nao.as_slice()) {
                Some(false)
            } else {
                None
            }
        },
        None => None,
    }
}

} // verus!
