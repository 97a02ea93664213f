//! A ordem alfabética de textos (a de `String`, caractere a caractere pelo código) e listas de textos em ordem e
//! sem repetição, como `sort` seguido de `dedup` as deixa.

use vstd::prelude::*;
use crate::texto::{chars_of, same_chars};

verus! {

broadcast use {vstd::string::group_string_axioms, vstd::seq_lib::group_seq_properties};

/// `a` vem antes de `b`: a ordem de `String`, que compara os bytes em UTF-8 e por isso segue o código de cada
/// caractere.
pub open spec fn antes(a: Seq<char>, b: Seq<char>) -> bool
    decreases a.len(),
{
    if a.len() == 0 {
        b.len() > 0
    } else if b.len() == 0 {
        false
    } else if a[0] != b[0] {
        (a[0] as int) < (b[0] as int)
    } else {
        antes(a.drop_first(), b.drop_first())
    }
}

/// Cada texto vem antes do seguinte: em ordem e sem repetição.
pub open spec fn crescente(s: Seq<Seq<char>>) -> bool {
    forall|i: int, j: int| 0 <= i < j < s.len() ==> antes(#[trigger] s[i], #[trigger] s[j])
}

pub open spec fn textos(v: Seq<String>) -> Seq<Seq<char>> {
    v.map_values(|s: String| s@)
}

pub proof fn lema_antes_irreflexivo(a: Seq<char>)
    ensures
        !antes(a, a),
    decreases a.len(),
{
    if a.len() > 0 {
        lema_antes_irreflexivo(a.drop_first());
    }
}

pub proof fn lema_antes_transitivo(a: Seq<char>, b: Seq<char>, c: Seq<char>)
    requires
        antes(a, b),
        antes(b, c),
    ensures
        antes(a, c),
    decreases a.len(),
{
    if a.len() > 0 && b.len() > 0 && c.len() > 0 && a[0] == b[0] && b[0] == c[0] {
        lema_antes_transitivo(a.drop_first(), b.drop_first(), c.drop_first());
    }
}

pub proof fn lema_antes_total(a: Seq<char>, b: Seq<char>)
    requires
        a != b,
    ensures
        antes(a, b) || antes(b, a),
    decreases a.len(),
{
    if a.len() > 0 && b.len() > 0 {
        if a[0] == b[0] {
            if a.drop_first() == b.drop_first() {
                assert(a =~= seq![a[0]] + a.drop_first());
                assert(b =~= seq![b[0]] + b.drop_first());
            }
            lema_antes_total(a.drop_first(), b.drop_first());
        }
    } else if a.len() == 0 && b.len() == 0 {
        assert(a =~= b);
    }
}

proof fn lema_antes_prefixo(a: Seq<char>, b: Seq<char>, i: int)
    requires
        0 <= i <= a.len(),
        i <= b.len(),
        forall|k: int| 0 <= k < i ==> a[k] == b[k],
    ensures
        antes(a, b) == antes(a.skip(i), b.skip(i)),
    decreases i,
{
    if i == 0 {
        assert(a.skip(0) =~= a);
        assert(b.skip(0) =~= b);
    } else {
        assert forall|k: int| 0 <= k < i - 1 implies a.drop_first()[k] == b.drop_first()[k] by {
            assert(a[k + 1] == b[k + 1]);
        }
        lema_antes_prefixo(a.drop_first(), b.drop_first(), i - 1);
        assert(a.drop_first().skip(i - 1) =~= a.skip(i));
        assert(b.drop_first().skip(i - 1) =~= b.skip(i));
    }
}

/// Uma lista em ordem estrita não repete nada, e tem tantos itens quanto o conjunto deles.
pub proof fn lema_crescente_conta(s: Seq<Seq<char>>)
    requires
        crescente(s),
    ensures
        s.no_duplicates(),
        s.to_set().len() == s.len(),
{
    assert forall|i: int, j: int| 0 <= i < s.len() && 0 <= j < s.len() && i != j implies s[i] != s[j] by {
        if i < j {
            assert(antes(s[i], s[j]));
        } else {
            assert(antes(s[j], s[i]));
        }
        lema_antes_irreflexivo(s[i]);
    }
    s.unique_seq_to_set();
}

/// `a` vem antes de `b`.
pub fn vem_antes(a: &[char], b: &[char]) -> (r: bool)
    ensures
        r == antes(a@, b@),
{
    let mut i: usize = 0;
    while i < a.len() && i < b.len() && a[i] == b[i]
        invariant
            0 <= i <= a@.len(),
            i <= b@.len(),
            forall|k: int| 0 <= k < i ==> a@[k] == b@[k],
        decreases a@.len() - i,
    {
        i = i + 1;
    }
    proof {
        lema_antes_prefixo(a@, b@, i as int);
    }
    let ghost sa = a@.skip(i as int);
    let ghost sb = b@.skip(i as int);
    if i == a.len() {
        assert(sa.len() == 0);
        i < b.len()
    } else if i == b.len() {
        assert(sb.len() == 0 && sa.len() > 0);
        false
    } else {
        assert(sa[0] == a@[i as int] && sb[0] == b@[i as int]);
        a[i] < b[i]
    }
}

/// Põe `s` no lugar dele numa lista em ordem e sem repetição; se já está lá, a lista não muda.
pub fn inserir_ordenado(v: &mut Vec<String>, s: String)
    requires
        crescente(textos(old(v)@)),
    ensures
        crescente(textos(final(v)@)),
        textos(final(v)@).to_set() == textos(old(v)@).to_set().insert(s@),
{
    let ghost antigo = textos(v@);
    let cs = chars_of(s.as_str());
    let mut i: usize = 0;
    let mut achou_lugar = false;
    while i < v.len() && !achou_lugar
        invariant
            0 <= i <= v@.len(),
            textos(v@) == antigo,
            crescente(antigo),
            cs@ == s@,
            forall|k: int| 0 <= k < i ==> antes(#[trigger] antigo[k], s@),
            achou_lugar ==> i < antigo.len() && !antes(antigo[i as int], s@) && antigo[i as int] != s@,
        decreases v@.len() - i + (if achou_lugar { 0int } else { 1int }),
    {
        let vi = chars_of(v[i].as_str());
        assert(vi@ == antigo[i as int]);
        if !vem_antes(vi.as_slice(), cs.as_slice()) {
            if same_chars(vi.as_slice(), cs.as_slice()) {
                assert(antigo.to_set().insert(s@) =~= antigo.to_set());
                return;
            }
            achou_lugar = true;
        } else {
            i = i + 1;
        }
    }
    proof {
        if i < antigo.len() {
            lema_antes_total(antigo[i as int], s@);
        }
    }
    v.insert(i, s);
    let ghost novo = textos(v@);
    assert(novo =~= antigo.insert(i as int, s@));
    proof {
        assert forall|a: int, b: int| 0 <= a < b < novo.len() implies antes(#[trigger] novo[a], #[trigger] novo[b]) by {
            if b < i {
                assert(novo[a] == antigo[a] && novo[b] == antigo[b]);
            } else if b == i {
                assert(novo[a] == antigo[a]);
            } else if a == i {
                assert(novo[b] == antigo[b - 1]);
                if b - 1 > i {
                    assert(antes(antigo[i as int], antigo[b - 1]));
                    lema_antes_transitivo(s@, antigo[i as int], antigo[b - 1]);
                }
            } else if a < i {
                assert(novo[a] == antigo[a] && novo[b] == antigo[b - 1]);
            } else {
                assert(novo[a] == antigo[a - 1] && novo[b] == antigo[b - 1]);
            }
        }
        assert forall|x: Seq<char>| novo.to_set().contains(x) <==> antigo.to_set().insert(s@).contains(x) by {
            if novo.contains(x) {
                let k = choose|k: int| 0 <= k < novo.len() && novo[k] == x;
                if k < i {
                    assert(antigo[k] == x);
                } else if k > i {
                    assert(antigo[k - 1] == x);
                }
            }
            if antigo.contains(x) {
                let k = choose|k: int| 0 <= k < antigo.len() && antigo[k] == x;
                if k < i {
                    assert(novo[k] == x);
                } else {
                    assert(novo[k + 1] == x);
                }
            }
            if x == s@ {
                assert(novo[i as int] == x);
            }
        }
        assert(novo.to_set() =~= antigo.to_set().insert(s@));
    }
}

/// A lista em ordem alfabética e sem repetição: o que `sort` e depois `dedup` deixam.
pub fn ordenar_sem_repetir(v: &[String]) -> (r: Vec<String>)
    ensures
        crescente(textos(r@)),
        textos(r@).to_set() == textos(v@).to_set(),
{
    let mut r: Vec<String> = Vec::new();
    let ghost entrada = textos(v@);
    let mut i: usize = 0;
    assert(textos(r@).to_set() =~= entrada.take(0).to_set());
    while i < v.len()
        invariant
            0 <= i <= v@.len(),
            textos(v@) == entrada,
            crescente(textos(r@)),
            textos(r@).to_set() == entrada.take(i as int).to_set(),
        decreases v@.len() - i,
    {
        let s = v[i].clone();
        inserir_ordenado(&mut r, s);
        proof {
            entrada.take(i as int).lemma_push_to_set_commute(entrada[i as int]);
            assert(entrada.take(i + 1) =~= entrada.take(i as int).push(entrada[i as int]));
        }
        i = i + 1;
    }
    assert(entrada.take(v@.len() as int) =~= entrada);
    r
}

} // verus!
