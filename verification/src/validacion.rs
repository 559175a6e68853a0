//! Reglas de validación y saneamiento de los datos que envía el ciudadano.

use vstd::prelude::*;
use crate::texto::{agregar_caracter, caracteres};

verus! {

// ---------------------------------------------------------------------------
// Correo electrónico
// ---------------------------------------------------------------------------

/// `p` es la posición de la primera aparición de `c` en `s`.
pub open spec fn primera_aparicion(s: Seq<char>, c: char, p: int) -> bool {
    &&& 0 <= p < s.len()
    &&& s[p] == c
    &&& forall|j: int| 0 <= j < p ==> s[j] != c
}

/// Lo que sigue a la arroba: no vacío, con algún punto y sin terminar en punto.
pub open spec fn dominio_valido(d: Seq<char>) -> bool {
    &&& d.len() > 0
    &&& d.contains('.')
    &&& d.last() != '.'
}

/// Validez sintáctica básica de un correo: la primera arroba no está al
/// principio y lo que la sigue es un dominio válido.
pub open spec fn email_valido(s: Seq<char>) -> bool {
    exists|p: int|
        #![trigger primera_aparicion(s, '@', p)]
        primera_aparicion(s, '@', p) && p > 0 && dominio_valido(s.subrange(p + 1, s.len() as int))
}

/// Valida de manera básica la estructura sintáctica de una dirección de correo.
pub fn es_email_valido(email: &str) -> (r: bool)
    ensures
        r == email_valido(email@),
{
    let v = caracteres(email);
    let n = v.len();
    let mut p: usize = 0;
    while p < n && v[p] != '@'
        invariant
            v@ == email@,
            n == v.len(),
            p <= n,
            forall|j: int| 0 <= j < p ==> v@[j] != '@',
        decreases n - p,
    {
        p = p + 1;
    }
    if p == n {
        assert forall|q: int| !primera_aparicion(email@, '@', q) by {}
        return false;
    }
    assert(primera_aparicion(email@, '@', p as int));
    let ghost dom = email@.subrange(p + 1, n as int);
    // Unicidad de la primera aparición.
    assert forall|q: int| primera_aparicion(email@, '@', q) implies q == p by {
        if q < p {
            assert(v@[q] != '@');
        }
        if q > p {
            assert(email@[p as int] != '@');
        }
    }
    if p == 0 {
        return false;
    }
    if p + 1 == n {
        assert(dom.len() == 0);
        return false;
    }
    // Busca un punto después de la arroba.
    let mut k: usize = p + 1;
    let mut hay_punto = false;
    while k < n
        invariant
            v@ == email@,
            n == v.len(),
            p + 1 <= k <= n,
            dom == email@.subrange(p + 1, n as int),
            hay_punto == (exists|t: int| p + 1 <= t < k && v@[t] == '.'),
        decreases n - k,
    {
        if v[k] == '.' {
            hay_punto = true;
        }
        k = k + 1;
    }
    assert(hay_punto == dom.contains('.')) by {
        if hay_punto {
            let t = choose|t: int| p + 1 <= t < n && v@[t] == '.';
            assert(dom[t - p - 1] == '.');
        }
        if dom.contains('.') {
            let t = choose|t: int| 0 <= t < dom.len() && dom[t] == '.';
            assert(v@[t + p + 1] == '.');
        }
    }
    let resultado = hay_punto && v[n - 1] != '.';
    assert(dom.last() == v@[n - 1]);
    resultado
}

// ---------------------------------------------------------------------------
// Saneamiento de documento y teléfono
// ---------------------------------------------------------------------------

/// Caracteres que se eliminan del número de documento.
pub open spec fn separador_dni(c: char) -> bool {
    c == '.' || c == '-' || c == ' '
}

/// Caracteres que se eliminan del número de teléfono.
pub open spec fn separador_telefono(c: char) -> bool {
    c == '-' || c == ' '
}

/// `s` sin los caracteres que cumplen `quitar`, en el mismo orden.
pub open spec fn sin_caracteres(s: Seq<char>, quitar: spec_fn(char) -> bool) -> Seq<char> {
    s.filter(|c: char| !quitar(c))
}

/// Quita del documento los puntos, guiones y espacios.
pub fn sanear_dni(dni: &str) -> (r: String)
    ensures
        r@ == sin_caracteres(dni@, |c: char| separador_dni(c)),
        forall|i: int| 0 <= i < r@.len() ==> !separador_dni(#[trigger] r@[i]),
{
    let v = caracteres(dni);
    let mut r = String::new();
    let ghost quitar = |c: char| separador_dni(c);
    let ghost conservar = |c: char| !quitar(c);
    let mut i: usize = 0;
    while i < v.len()
        invariant
            v@ == dni@,
            i <= v.len(),
            conservar == (|c: char| !quitar(c)),
            quitar == (|c: char| separador_dni(c)),
            r@ == v@.take(i as int).filter(conservar),
        decreases v.len() - i,
    {
        proof {
            reveal_with_fuel(Seq::<_>::filter, 1);
            assert(v@.take(i + 1).drop_last() =~= v@.take(i as int));
        }
        let c = v[i];
        if !(c == '.' || c == '-' || c == ' ') {
            agregar_caracter(&mut r, c);
        }
        i = i + 1;
    }
    assert(v@.take(v.len() as int) =~= v@);
    proof {
        broadcast use vstd::seq_lib::group_filter_ensures;
    }
    r
}

/// Quita del teléfono los guiones y espacios.
pub fn sanear_telefono(telefono: &str) -> (r: String)
    ensures
        r@ == sin_caracteres(telefono@, |c: char| separador_telefono(c)),
        forall|i: int| 0 <= i < r@.len() ==> !separador_telefono(#[trigger] r@[i]),
{
    let v = caracteres(telefono);
    let mut r = String::new();
    let ghost quitar = |c: char| separador_telefono(c);
    let ghost conservar = |c: char| !quitar(c);
    let mut i: usize = 0;
    while i < v.len()
        invariant
            v@ == telefono@,
            i <= v.len(),
            conservar == (|c: char| !quitar(c)),
            quitar == (|c: char| separador_telefono(c)),
            r@ == v@.take(i as int).filter(conservar),
        decreases v.len() - i,
    {
        proof {
            reveal_with_fuel(Seq::<_>::filter, 1);
            assert(v@.take(i + 1).drop_last() =~= v@.take(i as int));
        }
        let c = v[i];
        if !(c == '-' || c == ' ') {
            agregar_caracter(&mut r, c);
        }
        i = i + 1;
    }
    assert(v@.take(v.len() as int) =~= v@);
    proof {
        broadcast use vstd::seq_lib::group_filter_ensures;
    }
    r
}

// ---------------------------------------------------------------------------
// Números y bloques horarios
// ---------------------------------------------------------------------------

pub open spec fn es_digito(c: char) -> bool {
    '0' <= c && c <= '9'
}

/// Valor decimal de una secuencia de dígitos.
pub open spec fn valor_decimal(ds: Seq<char>) -> nat
    decreases ds.len(),
{
    if ds.len() == 0 {
        0
    } else {
        valor_decimal(ds.drop_last()) * 10 + ((ds.last() as int - 48) as nat)
    }
}

/// Los dígitos de un número sin signo: sin el `+` inicial, si lo hay.
pub open spec fn digitos_sin_signo(s: Seq<char>) -> Seq<char> {
    if s.len() > 0 && s[0] == '+' {
        s.drop_first()
    } else {
        s
    }
}

/// Lo que `str::parse::<u32>` devuelve: un `+` opcional seguido de al menos un
/// dígito decimal, sin nada más, cuyo valor cabe en `u32`.
pub open spec fn u32_de_texto(s: Seq<char>) -> Option<u32> {
    let ds = digitos_sin_signo(s);
    if ds.len() > 0 && (forall|i: int| 0 <= i < ds.len() ==> es_digito(#[trigger] ds[i]))
        && valor_decimal(ds) <= u32::MAX {
        Some(valor_decimal(ds) as u32)
    } else {
        None
    }
}

/// `str::parse::<u32>().unwrap_or(0)`.
pub open spec fn u32_o_cero(s: Seq<char>) -> u32 {
    match u32_de_texto(s) {
        Some(n) => n,
        None => 0,
    }
}

proof fn lema_valor_creciente(ds: Seq<char>, k: int)
    requires
        0 <= k <= ds.len(),
        forall|i: int| 0 <= i < ds.len() ==> es_digito(#[trigger] ds[i]),
    ensures
        valor_decimal(ds.take(k)) <= valor_decimal(ds),
    decreases ds.len() - k,
{
    if k < ds.len() {
        lema_valor_creciente(ds, k + 1);
        assert(ds.take(k + 1).drop_last() =~= ds.take(k));
    } else {
        assert(ds.take(k) =~= ds);
    }
}

/// Lee un número decimal sin signo como `str::parse::<u32>`.
pub fn leer_u32(v: &Vec<char>, desde: usize, hasta: usize) -> (r: Option<u32>)
    requires
        desde <= hasta <= v.len(),
    ensures
        r == u32_de_texto(v@.subrange(desde as int, hasta as int)),
{
    let ghost s = v@.subrange(desde as int, hasta as int);
    let inicio: usize = if desde < hasta && v[desde] == '+' { desde + 1 } else { desde };
    let ghost ds = v@.subrange(inicio as int, hasta as int);
    assert(ds =~= digitos_sin_signo(s));
    if inicio == hasta {
        return None;
    }
    let mut valor: u64 = 0;
    let mut i: usize = inicio;
    while i < hasta
        invariant
            desde <= inicio <= i <= hasta <= v.len(),
            inicio < hasta,
            ds == v@.subrange(inicio as int, hasta as int),
            ds == digitos_sin_signo(v@.subrange(desde as int, hasta as int)),
            ds.len() > 0,
            forall|t: int| 0 <= t < i - inicio ==> es_digito(#[trigger] ds[t]),
            valor == valor_decimal(ds.take(i - inicio)),
            valor <= u32::MAX,
        decreases hasta - i,
    {
        let c = v[i];
        assert(ds[i - inicio] == c);
        if !('0' <= c && c <= '9') {
            assert(!es_digito(ds[i - inicio]));
            return None;
        }
        let d: u64 = (c as u32 - 48) as u64;
        let nuevo: u64 = valor * 10 + d;
        assert(ds.take(i - inicio + 1).drop_last() =~= ds.take(i - inicio));
        assert(nuevo == valor_decimal(ds.take(i - inicio + 1)));
        if nuevo > 4294967295u64 {
            proof {
                if forall|t: int| 0 <= t < ds.len() ==> es_digito(#[trigger] ds[t]) {
                    lema_valor_creciente(ds, i - inicio + 1);
                }
            }
            return None;
        }
        valor = nuevo;
        i = i + 1;
    }
    assert(ds.take(ds.len() as int) =~= ds);
    Some(valor as u32)
}

/// `p` es la posición del único `:` de `s`.
pub open spec fn separador_unico(s: Seq<char>, p: int) -> bool {
    &&& 0 <= p < s.len()
    &&& s[p] == ':'
    &&& forall|j: int| 0 <= j < s.len() && j != p ==> s[j] != ':'
}

/// Hora y minuto de un texto `H:M`, leídos como
/// `split(':')` seguido de `parse::<u32>().unwrap_or(0)` en cada parte, cuando
/// la división da exactamente dos partes.
pub open spec fn partes_hora(s: Seq<char>) -> Option<(u32, u32)> {
    if exists|p: int| separador_unico(s, p) {
        let p = choose|p: int| separador_unico(s, p);
        Some((u32_o_cero(s.take(p)), u32_o_cero(s.skip(p + 1))))
    } else {
        None
    }
}

/// Divide un bloque horario `H:M` en hora y minuto.
pub fn componentes_hora(hora: &str) -> (r: Option<(u32, u32)>)
    ensures
        r == partes_hora(hora@),
{
    let v = caracteres(hora);
    let n = v.len();
    let mut cantidad: usize = 0;
    let mut pos: usize = 0;
    let mut i: usize = 0;
    while i < n
        invariant
            v@ == hora@,
            n == v.len(),
            i <= n,
            cantidad <= i,
            cantidad == 0 ==> forall|j: int| 0 <= j < i ==> v@[j] != ':',
            cantidad >= 1 ==> pos < i && v@[pos as int] == ':',
            cantidad == 1 ==> forall|j: int| 0 <= j < i && j != pos ==> v@[j] != ':',
            cantidad >= 2 ==> exists|a: int, b: int|
                0 <= a < b < i && v@[a] == ':' && v@[b] == ':',
        decreases n - i,
    {
        if v[i] == ':' {
            if cantidad == 0 {
                pos = i;
            } else {
                assert(0 <= pos < i && v@[pos as int] == ':' && v@[i as int] == ':');
            }
            cantidad = cantidad + 1;
        }
        i = i + 1;
    }
    if cantidad != 1 {
        assert forall|p: int| !separador_unico(hora@, p) by {
            if cantidad >= 2 && separador_unico(hora@, p) {
                let (a, b) = choose|a: int, b: int|
                    0 <= a < b < n && v@[a] == ':' && v@[b] == ':';
                assert(a == p || hora@[a] != ':');
                assert(b == p || hora@[b] != ':');
            }
        }
        return None;
    }
    assert(separador_unico(hora@, pos as int));
    let ghost elegido = choose|p: int| separador_unico(hora@, p);
    assert(elegido == pos) by {
        if elegido != pos {
            assert(hora@[pos as int] != ':');
        }
    }
    let h = match leer_u32(&v, 0, pos) {
        Some(x) => x,
        None => 0,
    };
    let m = match leer_u32(&v, pos + 1, n) {
        Some(x) => x,
        None => 0,
    };
    assert(v@.subrange(0, pos as int) =~= hora@.take(pos as int));
    assert(v@.subrange(pos + 1, n as int) =~= hora@.skip(pos + 1));
    Some((h, m))
}

/// El bloque `hora_bloque:minuto_bloque` ya empezó (o empieza ahora) respecto de
/// `hora:minuto`.
pub open spec fn bloque_expirado(hora_bloque: u32, minuto_bloque: u32, hora: u32, minuto: u32) -> bool {
    hora_bloque < hora || (hora_bloque == hora && minuto_bloque <= minuto)
}

/// Compara un bloque horario con la hora actual.
pub fn esta_expirado(hora_bloque: u32, minuto_bloque: u32, hora: u32, minuto: u32) -> (r: bool)
    ensures
        r == bloque_expirado(hora_bloque, minuto_bloque, hora, minuto),
{
    hora_bloque < hora || (hora_bloque == hora && minuto_bloque <= minuto)
}

} // verus!
