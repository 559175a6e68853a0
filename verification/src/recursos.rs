//! Rutas de los activos estáticos, tipo de contenido y nombres de plantillas.

use vstd::prelude::*;
use crate::texto::{caracteres, texto_de};

verus! {

pub open spec fn prefijo_static() -> Seq<char> {
    "static/"@
}

/// `s` sin el prefijo `static/`, si lo tiene (`str::strip_prefix`).
pub open spec fn sin_prefijo_static(s: Seq<char>) -> Seq<char> {
    if s.len() >= 7 && s.take(7) == prefijo_static() {
        s.skip(7)
    } else {
        s
    }
}

/// `s` sin ninguna de sus barras iniciales (`str::trim_start_matches('/')`).
pub open spec fn sin_barras_iniciales(s: Seq<char>) -> Seq<char>
    decreases s.len(),
{
    if s.len() > 0 && s[0] == '/' {
        sin_barras_iniciales(s.drop_first())
    } else {
        s
    }
}

proof fn lema_barras(s: Seq<char>, k: int)
    requires
        0 <= k <= s.len(),
        forall|j: int| 0 <= j < k ==> s[j] == '/',
    ensures
        sin_barras_iniciales(s) == sin_barras_iniciales(s.skip(k)),
    decreases k,
{
    if k > 0 {
        assert(s.drop_first().skip(k - 1) =~= s.skip(k));
        lema_barras(s.drop_first(), k - 1);
    } else {
        assert(s.skip(0) =~= s);
    }
}

/// Ruta de un activo dentro del directorio de estáticos: sin el prefijo
/// `static/` y sin barras iniciales.
pub fn ruta_estatica(ruta: &str) -> (r: String)
    ensures
        r@ == sin_barras_iniciales(sin_prefijo_static(ruta@)),
        r@.len() > 0 ==> r@[0] != '/',
{
    broadcast use vstd::string::group_string_axioms;
    proof {
        reveal_strlit("static/");
    }
    let v = caracteres(ruta);
    let n = v.len();
    let con_prefijo = n >= 7 && v[0] == 's' && v[1] == 't' && v[2] == 'a' && v[3] == 't' && v[4]
        == 'i' && v[5] == 'c' && v[6] == '/';
    assert(con_prefijo == (ruta@.len() >= 7 && ruta@.take(7) == prefijo_static())) by {
        let p = prefijo_static();
        assert(p.len() == 7);
        assert(p[0] == 's' && p[1] == 't' && p[2] == 'a' && p[3] == 't');
        assert(p[4] == 'i' && p[5] == 'c' && p[6] == '/');
        if ruta@.len() >= 7 && ruta@.take(7) == p {
            let t = ruta@.take(7);
            assert(t[0] == p[0] && t[1] == p[1] && t[2] == p[2] && t[3] == p[3]);
            assert(t[4] == p[4] && t[5] == p[5] && t[6] == p[6]);
        }
        if con_prefijo {
            assert(ruta@.take(7) =~= p);
        }
    }
    let inicio: usize = if con_prefijo { 7 } else { 0 };
    let ghost base = sin_prefijo_static(ruta@);
    assert(base =~= v@.skip(inicio as int));
    let mut k: usize = inicio;
    while k < n && v[k] == '/'
        invariant
            v@ == ruta@,
            n == v.len(),
            inicio <= k <= n,
            base == v@.skip(inicio as int),
            forall|j: int| inicio <= j < k ==> v@[j] == '/',
        decreases n - k,
    {
        k = k + 1;
    }
    proof {
        lema_barras(base, k - inicio);
        assert(base.skip(k - inicio) =~= v@.subrange(k as int, n as int));
        let resto = v@.subrange(k as int, n as int);
        assert(resto.len() > 0 ==> resto[0] == v@[k as int]);
    }
    texto_de(&v, k, n)
}

pub open spec fn sufijo_html() -> Seq<char> {
    ".html"@
}

/// `s` sin ninguno de sus sufijos `.html` (`str::trim_end_matches(".html")`).
pub open spec fn sin_sufijos_html(s: Seq<char>) -> Seq<char>
    decreases s.len(),
{
    if s.len() >= 5 && s.skip(s.len() - 5) == sufijo_html() {
        sin_sufijos_html(s.take(s.len() - 5))
    } else {
        s
    }
}

/// Nombre con el que se registra una plantilla: su ruta de archivo sin la
/// extensión `.html`.
pub fn nombre_plantilla(archivo: &str) -> (r: String)
    ensures
        r@ == sin_sufijos_html(archivo@),
        !(r@.len() >= 5 && r@.skip(r@.len() - 5) == sufijo_html()),
{
    broadcast use vstd::string::group_string_axioms;
    proof {
        reveal_strlit(".html");
    }
    let v = caracteres(archivo);
    let mut fin: usize = v.len();
    assert(v@.take(fin as int) =~= archivo@);
    loop
        invariant
            v@ == archivo@,
            fin <= v.len(),
            sin_sufijos_html(archivo@) == sin_sufijos_html(v@.take(fin as int)),
        decreases fin,
    {
        let ghost s = v@.take(fin as int);
        let termina = fin >= 5 && v[fin - 5] == '.' && v[fin - 4] == 'h' && v[fin - 3] == 't' && v[fin
            - 2] == 'm' && v[fin - 1] == 'l';
        assert(termina == (s.len() >= 5 && s.skip(s.len() - 5) == sufijo_html())) by {
            broadcast use vstd::string::group_string_axioms;
            reveal_strlit(".html");
            let h = sufijo_html();
            assert(h.len() == 5);
            assert(h[0] == '.' && h[1] == 'h' && h[2] == 't' && h[3] == 'm' && h[4] == 'l');
            if s.len() >= 5 && s.skip(s.len() - 5) == h {
                let t = s.skip(s.len() - 5);
                assert(t[0] == h[0] && t[1] == h[1] && t[2] == h[2] && t[3] == h[3] && t[4] == h[4]);
            }
            if termina {
                assert(s.skip(s.len() - 5) =~= h);
            }
        }
        if !termina {
            assert(v@.subrange(0, fin as int) =~= s);
            return texto_de(&v, 0, fin);
        }
        assert(s.take(s.len() - 5) =~= v@.take(fin - 5));
        fin = fin - 5;
    }
}

/// El tipo de contenido (MIME) que `mime_guess` adivina para una ruta por su
/// extensión, o `application/octet-stream` si no la reconoce.
pub uninterp spec fn tipo_mime_de_ruta(ruta: Seq<char>) -> Seq<char>;

/// `mime_guess::from_path(ruta).first_or_octet_stream()` como texto. Se confía
/// en que el texto es el nombrado por `tipo_mime_de_ruta` y en que una ruta sin
/// ningún punto, que no tiene extensión, da `application/octet-stream`; la
/// tabla de extensiones de `mime_guess` no se describe.
#[verifier::external_body]
fn adivinar_tipo_mime(ruta: &str) -> (r: String)
    ensures
        r@ == tipo_mime_de_ruta(ruta@),
        !ruta@.contains('.') ==> r@ == "application/octet-stream"@,
{
    mime_guess::from_path(ruta).first_or_octet_stream().to_string()
}

/// Tipo de contenido con el que se sirve un activo estático.
pub fn tipo_contenido(ruta: &str) -> (r: String)
    ensures
        r@ == tipo_mime_de_ruta(ruta@),
        !ruta@.contains('.') ==> r@ == "application/octet-stream"@,
{
    adivinar_tipo_mime(ruta)
}

} // verus!
