//! Utilidades de texto sobre secuencias de caracteres.

use vstd::prelude::*;

verus! {

/// Agrega un carácter al final de un `String` (`String::push` de std).
/// Se confía en que el resultado es el texto anterior seguido del carácter.
#[verifier::external_body]
pub(crate) fn agregar_caracter(s: &mut String, c: char)
    ensures
        final(s)@ == old(s)@.push(c),
{
    s.push(c)
}

/// Copia los caracteres de un texto en un vector.
pub fn caracteres(s: &str) -> (v: Vec<char>)
    ensures
        v@ == s@,
{
    broadcast use vstd::string::group_string_axioms;
    let mut v: Vec<char> = Vec::new();
    for c in it: s.chars()
        invariant
            it.seq() == s@,
            v@ == it.seq().take(it.index()),
    {
        v.push(c);
    }
    v
}

/// Construye un `String` con los caracteres `v[desde..hasta]`.
pub fn texto_de(v: &Vec<char>, desde: usize, hasta: usize) -> (r: String)
    requires
        desde <= hasta <= v.len(),
    ensures
        r@ == v@.subrange(desde as int, hasta as int),
{
    let mut r = String::new();
    let mut i = desde;
    while i < hasta
        invariant
            desde <= i <= hasta <= v.len(),
            r@ == v@.subrange(desde as int, i as int),
        decreases hasta - i,
    {
        agregar_caracter(&mut r, v[i]);
        i = i + 1;
    }
    r
}

/// Copia un texto en un `String` nuevo.
pub fn copiar(s: &str) -> (r: String)
    ensures
        r@ == s@,
{
    let v = caracteres(s);
    let r = texto_de(&v, 0, v.len());
    assert(v@.subrange(0, v@.len() as int) =~= v@);
    r
}

/// Compara dos textos carácter a carácter.
pub fn iguales(a: &str, b: &str) -> (r: bool)
    ensures
        r == (a@ == b@),
{
    let va = caracteres(a);
    let vb = caracteres(b);
    if va.len() != vb.len() {
        return false;
    }
    let mut i: usize = 0;
    while i < va.len()
        invariant
            va@ == a@,
            vb@ == b@,
            va.len() == vb.len(),
            i <= va.len(),
            forall|j: int| 0 <= j < i ==> va@[j] == vb@[j],
        decreases va.len() - i,
    {
        if va[i] != vb[i] {
            return false;
        }
        i = i + 1;
    }
    assert(va@ =~= vb@);
    true
}

/// `patron` aparece dentro de `s` a partir de la posición `i`.
pub open spec fn aparece_en(s: Seq<char>, patron: Seq<char>, i: int) -> bool {
    0 <= i && i + patron.len() <= s.len() && s.subrange(i, i + patron.len()) == patron
}

/// `patron` aparece en alguna posición de `s`.
pub open spec fn contiene_texto(s: Seq<char>, patron: Seq<char>) -> bool {
    exists|i: int| aparece_en(s, patron, i)
}

/// Busca `patron` dentro de `s` (como `str::contains` con un patrón de texto).
pub fn contiene(s: &str, patron: &str) -> (r: bool)
    ensures
        r == contiene_texto(s@, patron@),
{
    let vs = caracteres(s);
    let vp = caracteres(patron);
    if vp.len() > vs.len() {
        assert forall|i: int| !aparece_en(s@, patron@, i) by {}
        return false;
    }
    let tope = vs.len() - vp.len();
    let mut i: usize = 0;
    while i <= tope
        invariant
            vs@ == s@,
            vp@ == patron@,
            tope == vs.len() - vp.len(),
            vp.len() <= vs.len(),
            i <= tope + 1,
            forall|k: int| 0 <= k < i ==> !aparece_en(s@, patron@, k),
        decreases tope + 1 - i,
    {
        let mut j: usize = 0;
        let mut coincide = true;
        while j < vp.len()
            invariant
                vs@ == s@,
                vp@ == patron@,
                i <= tope,
                tope == vs.len() - vp.len(),
                j <= vp.len(),
                coincide == (forall|t: int| 0 <= t < j ==> vs@[i + t] == vp@[t]),
            decreases vp.len() - j,
        {
            if vs[i + j] != vp[j] {
                coincide = false;
            }
            j = j + 1;
        }
        if coincide {
            assert(s@.subrange(i as int, i + patron@.len()) =~= patron@);
            assert(aparece_en(s@, patron@, i as int));
            return true;
        }
        assert(!aparece_en(s@, patron@, i as int)) by {
            if aparece_en(s@, patron@, i as int) {
                let t = choose|t: int| 0 <= t < vp.len() && vs@[i + t] != vp@[t];
                assert(s@.subrange(i as int, i + patron@.len())[t] == patron@[t]);
            }
        }
        if i == tope {
            assert forall|k: int| !aparece_en(s@, patron@, k) by {
                if 0 <= k && k <= tope {
                }
            }
            return false;
        }
        i = i + 1;
    }
    false
}

} // verus!
