//! Propiedades del turnero que relacionan varias de sus reglas.

use vstd::prelude::*;
use crate::admin::sesion_valida;
use crate::calendario::{
    Fecha, Momento, fecha_anterior, es_fin_de_semana, fecha_leida, dias_desde_1970, es_bisiesto,
    dias_del_mes, fecha_valida, ANIO_MINIMO, ANIO_MAXIMO,
};
use vstd::arithmetic::div_mod::{lemma_fundamental_div_mod, lemma_fundamental_div_mod_converse};
use crate::formulario::{
    lema_partes_de_bloque, bloques, es_bloque, estado_bloque, dia_no_habil, fecha_mostrada, reservado, CANTIDAD_BLOQUES,
};
use crate::recursos::{prefijo_static, sin_barras_iniciales, sin_prefijo_static};
use crate::modelos::{DatosTurno, ErroresFormulario};
use crate::solicitud::{campos_correctos, errores_de_campos, Cronologia, cronologia, dia_de, dni_saneado, telefono_saneado};
use crate::validacion::{
    sin_caracteres, email_valido, primera_aparicion, dominio_valido, partes_hora, bloque_expirado, separador_dni, separador_telefono};

verus! {

/// Sanear un documento ya saneado no lo cambia.
pub proof fn ley_dni_saneado_estable(dni: Seq<char>)
    ensures
        dni_saneado(dni_saneado(dni)) == dni_saneado(dni),
{
    broadcast use vstd::seq_lib::group_filter_ensures;
    let q = |c: char| separador_dni(c);
    let s = sin_caracteres(dni, q);
    assert forall|i: int| 0 <= i < s.len() implies !q(#[trigger] s[i]) by {}
    lema_sin_caracteres_estable(s, q);
}

/// Sanear un teléfono ya saneado no lo cambia.
pub proof fn ley_telefono_saneado_estable(telefono: Seq<char>)
    ensures
        telefono_saneado(telefono_saneado(telefono)) == telefono_saneado(telefono),
{
    broadcast use vstd::seq_lib::group_filter_ensures;
    let q = |c: char| separador_telefono(c);
    let s = sin_caracteres(telefono, q);
    assert forall|i: int| 0 <= i < s.len() implies !q(#[trigger] s[i]) by {}
    lema_sin_caracteres_estable(s, q);
}

proof fn lema_sin_caracteres_estable(s: Seq<char>, q: spec_fn(char) -> bool)
    requires
        forall|i: int| 0 <= i < s.len() ==> !q(#[trigger] s[i]),
    ensures
        sin_caracteres(s, q) == s,
    decreases s.len(),
{
    reveal_with_fuel(Seq::<_>::filter, 1);
    if s.len() > 0 {
        lema_sin_caracteres_estable(s.drop_last(), q);
        assert(s.drop_last().push(s.last()) =~= s);
    } else {
        assert(sin_caracteres(s, q) =~= s);
    }
}

/// Ningún bloque de un día no hábil (pasado o fin de semana) se ofrece como
/// disponible.
pub proof fn ley_dia_no_habil_sin_bloques(
    b: Seq<char>,
    reservados: Seq<String>,
    es_hoy: bool,
    hora: u32,
    minuto: u32,
)
    ensures
        !estado_bloque(b, true, reservados, es_hoy, hora, minuto).0,
{
}

/// Una solicitud solo supera la validación cronológica para un día hábil que no
/// pasó y, si es para hoy, para un bloque que todavía no empezó.
pub proof fn ley_admision_cronologica(f: Fecha, numero_dia: u32, hora: Seq<char>, ahora: Momento)
    requires
        cronologia(Some(f), numero_dia, hora, ahora) is Admitida,
    ensures
        !fecha_anterior(f, ahora.fecha),
        !es_fin_de_semana(numero_dia),
        f == ahora.fecha ==> !(partes_hora(hora) matches Some((h, m)) && bloque_expirado(
            h,
            m,
            ahora.hora,
            ahora.minuto,
        )),
{
}

/// Un bloque que la vista pública ofrece como disponible para una fecha
/// consultada supera la validación de fecha y hora de una solicitud por esa
/// fecha y ese bloque en el mismo instante.
pub proof fn ley_bloque_ofrecido_es_admitido(
    fecha: Seq<char>,
    ahora: Momento,
    reservados: Seq<String>,
    i: int,
)
    requires
        ahora.valido(),
        0 <= i < CANTIDAD_BLOQUES,
        estado_bloque(
            bloques()[i],
            dia_no_habil(fecha, ahora),
            reservados,
            fecha_mostrada(fecha, ahora) == ahora.fecha,
            ahora.hora,
            ahora.minuto,
        ).0,
    ensures
        cronologia(fecha_leida(fecha), dia_de(fecha_leida(fecha)), bloques()[i], ahora) is Admitida,
{
    assert(es_bloque(bloques()[i]));
}

/// Más reservas nunca liberan un bloque: si toda hora reservada en `antes`
/// también lo está en `despues`, lo que se ofrece con `despues` ya se ofrecía
/// con `antes`.
pub proof fn ley_reservas_no_liberan_bloques(
    b: Seq<char>,
    no_habil: bool,
    antes: Seq<String>,
    despues: Seq<String>,
    es_hoy: bool,
    hora: u32,
    minuto: u32,
)
    requires
        forall|x: Seq<char>| reservado(antes, x) ==> reservado(despues, x),
    ensures
        estado_bloque(b, no_habil, despues, es_hoy, hora, minuto).0 ==> estado_bloque(
            b,
            no_habil,
            antes,
            es_hoy,
            hora,
            minuto,
        ).0,
{
}

/// Pedir un activo como `static/x`, `/x` o `x` da la misma ruta, si `x` no
/// empieza por `static/`.
pub proof fn ley_rutas_de_un_mismo_activo(x: Seq<char>)
    requires
        !(x.len() >= 7 && x.take(7) == prefijo_static()),
    ensures
        sin_barras_iniciales(sin_prefijo_static(prefijo_static() + x)) == sin_barras_iniciales(
            sin_prefijo_static(x),
        ),
        sin_barras_iniciales(sin_prefijo_static(seq!['/'] + x)) == sin_barras_iniciales(
            sin_prefijo_static(x),
        ),
{
    broadcast use vstd::string::group_string_axioms;
    reveal_strlit("static/");
    let p = prefijo_static();
    assert((p + x).take(7) =~= p);
    assert((p + x).skip(7) =~= x);
    let y = seq!['/'] + x;
    assert(y[0] == '/');
    assert(!(y.len() >= 7 && y.take(7) == p)) by {
        if y.len() >= 7 && y.take(7) == p {
            assert(y.take(7)[0] == p[0]);
        }
    }
    assert(y.drop_first() =~= x);
    // `x` no tiene prefijo, así que sin_barras(x) es la ruta de `x`.
    assert(sin_prefijo_static(x) == x);
    assert(sin_barras_iniciales(y) == sin_barras_iniciales(y.drop_first()));
}

/// Una solicitud rechazada por sus campos siempre señala al menos un campo.
pub proof fn ley_rechazo_con_motivo(c: DatosTurno, e: ErroresFormulario)
    requires
        !campos_correctos(c),
        errores_de_campos(c, e),
    ensures
        !e.sin_errores(),
{
}

/// Solo el token de sesión abre el panel administrativo: `sesion_valida`, que
/// es lo que exigen `sesion_activa`, `destino_admin` e `id_a_borrar`, acepta la
/// cookie con el token (si no es vacío) y rechaza cualquier otro valor, la
/// cookie vacía que deja el cierre de sesión y la falta de cookie.
pub proof fn ley_solo_el_token_abre_el_panel(token: Seq<char>, otro: Seq<char>)
    ensures
        token.len() > 0 ==> sesion_valida(Some(token), token),
        otro != token ==> !sesion_valida(Some(otro), token),
        !sesion_valida(Some(Seq::<char>::empty()), token),
        !sesion_valida(None, token),
{
}

/// Con minutos entre 0 y 59, un bloque está vencido exactamente cuando su
/// comienzo, contado en minutos desde la medianoche, no es posterior al
/// minuto actual.
pub proof fn ley_bloque_vencido_en_minutos(hora_bloque: u32, minuto_bloque: u32, hora: u32, minuto: u32)
    requires
        minuto_bloque < 60,
        minuto < 60,
    ensures
        bloque_expirado(hora_bloque, minuto_bloque, hora, minuto) <==> hora_bloque * 60 + minuto_bloque
            <= hora * 60 + minuto,
{
}

/// Hoy, un bloque de atención que empezó antes o en este minuto no se ofrece
/// como disponible, y una solicitud para hoy con ese bloque no se admite.
pub proof fn ley_bloque_empezado_no_se_ofrece_ni_admite(
    i: int,
    no_habil: bool,
    reservados: Seq<String>,
    ahora: Momento,
    numero_dia: u32,
)
    requires
        0 <= i < CANTIDAD_BLOQUES,
        ahora.valido(),
        (8 + i / 2) * 60 + (i % 2) * 30 <= ahora.hora * 60 + ahora.minuto,
    ensures
        !estado_bloque(bloques()[i], no_habil, reservados, true, ahora.hora, ahora.minuto).0,
        !(cronologia(Some(ahora.fecha), numero_dia, bloques()[i], ahora) is Admitida),
{
    lema_partes_de_bloque(i);
    let h = (8 + i / 2) as u32;
    let m = ((i % 2) * 30) as u32;
    ley_bloque_vencido_en_minutos(h, m, ahora.hora, ahora.minuto);
}

/// Hoy, un bloque de atención que empieza después del minuto actual no está
/// vencido.
pub proof fn ley_bloque_futuro_no_vencido(i: int, ahora: Momento)
    requires
        0 <= i < CANTIDAD_BLOQUES,
        ahora.valido(),
        (8 + i / 2) * 60 + (i % 2) * 30 > ahora.hora * 60 + ahora.minuto,
    ensures
        partes_hora(bloques()[i]) matches Some((h, m)) && !bloque_expirado(h, m, ahora.hora, ahora.minuto),
{
    lema_partes_de_bloque(i);
    let h = (8 + i / 2) as u32;
    let m = ((i % 2) * 30) as u32;
    ley_bloque_vencido_en_minutos(h, m, ahora.hora, ahora.minuto);
}

/// Un correo cuya parte posterior a la primera arroba no tiene ningún punto se
/// rechaza, haya o no puntos antes de la arroba.
pub proof fn ley_email_sin_punto_en_el_dominio(s: Seq<char>, p: int)
    requires
        0 <= p < s.len(),
        s[p] == '@',
        forall|j: int| 0 <= j < p ==> s[j] != '@',
        forall|j: int| p < j < s.len() ==> s[j] != '.',
    ensures
        !email_valido(s),
{
    if email_valido(s) {
        let q = choose|q: int| primera_aparicion(s, '@', q) && q > 0 && dominio_valido(s.subrange(q + 1, s.len() as int));
        assert(q == p) by {
            if q < p { assert(s[q] != '@'); }
            if q > p { assert(s[p] != '@'); }
        }
        let d = s.subrange(p + 1, s.len() as int);
        let t = choose|t: int| 0 <= t < d.len() && d[t] == '.';
        assert(s[p + 1 + t] == '.');
    }
}

/// Un correo sin arroba, con la primera arroba al principio o que termina en
/// punto se rechaza.
pub proof fn ley_email_rechazos(s: Seq<char>)
    ensures
        (forall|j: int| 0 <= j < s.len() ==> s[j] != '@') ==> !email_valido(s),
        (s.len() > 0 && s[0] == '@') ==> !email_valido(s),
        (s.len() > 0 && s[s.len() - 1] == '.') ==> !email_valido(s),
{
    if email_valido(s) {
        let q = choose|q: int| primera_aparicion(s, '@', q) && q > 0 && dominio_valido(s.subrange(q + 1, s.len() as int));
        assert(s[q] == '@');
        if s.len() > 0 && s[0] == '@' {
            assert(s[0] != '@');
        }
        let d = s.subrange(q + 1, s.len() as int);
        assert(d.last() == s[s.len() - 1]);
    }
}

/// Un correo se acepta cuando su primera arroba no está al principio y lo que la
/// sigue tiene algún punto y no termina en punto.
pub proof fn ley_email_aceptado(s: Seq<char>, p: int, q: int)
    requires
        0 < p < s.len(),
        s[p] == '@',
        forall|j: int| 0 <= j < p ==> s[j] != '@',
        p < q < s.len(),
        s[q] == '.',
        s[s.len() - 1] != '.',
    ensures
        email_valido(s),
{
    let d = s.subrange(p + 1, s.len() as int);
    assert(d[q - p - 1] == '.');
    assert(d.contains('.'));
    assert(d.last() == s[s.len() - 1]);
    assert(primera_aparicion(s, '@', p));
}

/// Sanear un documento quita los puntos, guiones y espacios y conserva todo lo
/// demás en orden: partido en dos trozos, se sanea cada uno; un carácter que no
/// es separador, en particular un dígito, se conserva, y un separador desaparece.
pub proof fn ley_dni_conserva_lo_que_no_es_separador(a: Seq<char>, b: Seq<char>, c: char)
    ensures
        dni_saneado(a + b) == dni_saneado(a) + dni_saneado(b),
        c != '.' && c != '-' && c != ' ' ==> dni_saneado(seq![c]) == seq![c],
        (c == '.' || c == '-' || c == ' ') ==> dni_saneado(seq![c]).len() == 0,
        '0' <= c <= '9' ==> dni_saneado(seq![c]) == seq![c],
{
    reveal_with_fuel(Seq::<_>::filter, 2);
    let q = |x: char| separador_dni(x);
    Seq::filter_distributes_over_add(a, b, |x: char| !q(x));
    assert(seq![c].drop_last() =~= Seq::<char>::empty());
}

/// Un documento hecho solo de dígitos queda igual al sanearlo.
pub proof fn ley_dni_de_digitos_no_cambia(s: Seq<char>)
    requires
        forall|i: int| 0 <= i < s.len() ==> '0' <= #[trigger] s[i] <= '9',
    ensures
        dni_saneado(s) == s,
{
    let q = |c: char| separador_dni(c);
    assert forall|i: int| 0 <= i < s.len() implies !q(#[trigger] s[i]) by {}
    lema_sin_caracteres_estable(s, q);
}

/// Sanear un teléfono quita guiones y espacios y conserva todo lo demás en
/// orden; en particular, sus dígitos y sus puntos.
pub proof fn ley_telefono_conserva_lo_que_no_es_separador(a: Seq<char>, b: Seq<char>, c: char)
    ensures
        telefono_saneado(a + b) == telefono_saneado(a) + telefono_saneado(b),
        c != '-' && c != ' ' ==> telefono_saneado(seq![c]) == seq![c],
        (c == '-' || c == ' ') ==> telefono_saneado(seq![c]).len() == 0,
        ('0' <= c <= '9' || c == '.') ==> telefono_saneado(seq![c]) == seq![c],
{
    reveal_with_fuel(Seq::<_>::filter, 2);
    let q = |x: char| separador_telefono(x);
    Seq::filter_distributes_over_add(a, b, |x: char| !q(x));
    assert(seq![c].drop_last() =~= Seq::<char>::empty());
}

/// El orden entre fechas es estricto y total.
pub proof fn ley_orden_de_fechas(a: Fecha, b: Fecha, c: Fecha)
    ensures
        !fecha_anterior(a, a),
        fecha_anterior(a, b) && fecha_anterior(b, c) ==> fecha_anterior(a, c),
        a == b || fecha_anterior(a, b) || fecha_anterior(b, a),
        !(fecha_anterior(a, b) && fecha_anterior(b, a)),
{
}

// ---------------------------------------------------------------------------
// Cuenta de días y calendario
// ---------------------------------------------------------------------------

/// Días desde el comienzo de la era de 400 años que contiene al año `a`
/// (contando años que empiezan en marzo), más los días de las eras anteriores.
spec fn dias_hasta_marzo(a: int) -> int {
    let era = a / 400;
    let anio_de_era = a - era * 400;
    era * 146097 + anio_de_era * 365 + anio_de_era / 4 - anio_de_era / 100
}

/// Días del año (que empieza en marzo) antes del mes `mes_desde_marzo`.
spec fn dias_antes_del_mes(mes_desde_marzo: int) -> int {
    (153 * mes_desde_marzo + 2) / 5
}

proof fn lema_dias_por_partes(anio: int, mes: int, dia: int)
    requires
        1 <= mes <= 12,
    ensures
        dias_desde_1970(anio, mes, dia) == dias_hasta_marzo(if mes <= 2 { anio - 1 } else { anio })
            + dias_antes_del_mes(if mes > 2 { mes - 3 } else { mes + 9 }) + dia - 1 - 719468,
{
}

/// Del 1 de marzo del año anterior al 1 de marzo del año `y` hay 365 días, o
/// 366 si `y` es bisiesto.
proof fn lema_anio_de_marzo(y: int)
    ensures
        dias_hasta_marzo(y) == dias_hasta_marzo(y - 1) + 365 + (if es_bisiesto(y) { 1int } else { 0int }),
{
    let era = y / 400;
    let r = y % 400;
    lemma_fundamental_div_mod(y, 400);
    assert(y == era * 400 + r);
    assert(0 <= r < 400);
    assert(y % 4 == r % 4 && y % 100 == r % 100) by {
        lemma_fundamental_div_mod_converse(y, 4, era * 100 + r / 4, r % 4);
        lemma_fundamental_div_mod_converse(y, 100, era * 4 + r / 100, r % 100);
    }
    if r >= 1 {
        lemma_fundamental_div_mod_converse(y - 1, 400, era, r - 1);
        assert(dias_hasta_marzo(y) == era * 146097 + r * 365 + r / 4 - r / 100);
        assert(dias_hasta_marzo(y - 1) == era * 146097 + (r - 1) * 365 + (r - 1) / 4 - (r - 1) / 100);
        assert(r / 4 - (r - 1) / 4 == (if r % 4 == 0 { 1int } else { 0int }));
        assert(r / 100 - (r - 1) / 100 == (if r % 100 == 0 { 1int } else { 0int }));
        assert(es_bisiesto(y) == (r % 4 == 0 && r % 100 != 0)) by {
            assert(y % 400 == r);
        }
    } else {
        lemma_fundamental_div_mod_converse(y - 1, 400, era - 1, 399);
        assert(dias_hasta_marzo(y) == era * 146097);
        assert(dias_hasta_marzo(y - 1) == (era - 1) * 146097 + 399int * 365 + 399int / 4 - 399int / 100);
        assert(y % 400 == 0);
    }
}

/// Primer día del mes siguiente a `mes` del año `anio`.
pub open spec fn primero_del_mes_siguiente(anio: int, mes: int) -> int {
    if mes == 12 {
        dias_desde_1970(anio + 1, 1, 1)
    } else {
        dias_desde_1970(anio, mes + 1, 1)
    }
}

/// Cada mes dura lo que dice `dias_del_mes`: del primer día de un mes al primer
/// día del siguiente hay exactamente esos días en la cuenta de días.
proof fn lema_largo_del_mes(anio: int, mes: int)
    requires
        1 <= mes <= 12,
    ensures
        primero_del_mes_siguiente(anio, mes) == dias_desde_1970(anio, mes, 1) + dias_del_mes(anio, mes),
{
    lema_dias_por_partes(anio, mes, 1);
    if mes == 12 {
        lema_dias_por_partes(anio + 1, 1, 1);
    } else {
        lema_dias_por_partes(anio, mes + 1, 1);
    }
    if mes == 2 {
        lema_anio_de_marzo(anio);
    }
}

/// Los días de un mes siguen a los anteriores en la cuenta de días.
proof fn lema_dia_del_mes(anio: int, mes: int, dia: int)
    requires
        1 <= mes <= 12,
    ensures
        dias_desde_1970(anio, mes, dia) == dias_desde_1970(anio, mes, 1) + dia - 1,
{
    lema_dias_por_partes(anio, mes, dia);
    lema_dias_por_partes(anio, mes, 1);
}

proof fn lema_meses_crecientes(anio: int, m1: int, m2: int)
    requires
        1 <= m1 < m2 <= 12,
    ensures
        dias_desde_1970(anio, m1, 1) + dias_del_mes(anio, m1) <= dias_desde_1970(anio, m2, 1),
    decreases m2 - m1,
{
    lema_largo_del_mes(anio, m1);
    if m1 + 1 < m2 {
        lema_meses_crecientes(anio, m1 + 1, m2);
        lema_largo_del_mes(anio, m1 + 1);
    }
}

proof fn lema_anios_crecientes(y1: int, y2: int)
    requires
        y1 < y2,
    ensures
        dias_desde_1970(y1, 12, 31) < dias_desde_1970(y2, 1, 1),
    decreases y2 - y1,
{
    lema_largo_del_mes(y1, 12);
    lema_dia_del_mes(y1, 12, 31);
    if y1 + 1 < y2 {
        lema_anios_crecientes(y1 + 1, y2);
        lema_dia_del_mes(y1 + 1, 12, 31);
        lema_meses_crecientes(y1 + 1, 1, 12);
    }
}

/// Una fecha válida cae entre el 1 de enero y el 31 de diciembre de su año en la
/// cuenta de días.
proof fn lema_dentro_del_anio(f: Fecha)
    requires
        f.valida(),
    ensures
        dias_desde_1970(f.anio as int, 1, 1) <= dias_desde_1970(f.anio as int, f.mes as int, f.dia as int),
        dias_desde_1970(f.anio as int, f.mes as int, f.dia as int) <= dias_desde_1970(f.anio as int, 12, 31),
{
    let (y, m, d) = (f.anio as int, f.mes as int, f.dia as int);
    lema_dia_del_mes(y, m, d);
    lema_dia_del_mes(y, 12, 31);
    lema_dia_del_mes(y, 1, 1);
    if m > 1 {
        lema_meses_crecientes(y, 1, m);
    }
    if m < 12 {
        lema_meses_crecientes(y, m, 12);
    }
}

pub open spec fn dias_de(f: Fecha) -> int {
    dias_desde_1970(f.anio as int, f.mes as int, f.dia as int)
}

proof fn lema_anterior_implica_menos_dias(a: Fecha, b: Fecha)
    requires
        a.valida(),
        b.valida(),
        fecha_anterior(a, b),
    ensures
        dias_de(a) < dias_de(b),
{
    lema_dentro_del_anio(a);
    lema_dentro_del_anio(b);
    if a.anio < b.anio {
        lema_anios_crecientes(a.anio as int, b.anio as int);
    } else if a.mes < b.mes {
        lema_dia_del_mes(a.anio as int, a.mes as int, a.dia as int);
        lema_dia_del_mes(b.anio as int, b.mes as int, b.dia as int);
        lema_meses_crecientes(a.anio as int, a.mes as int, b.mes as int);
    } else {
        lema_dia_del_mes(a.anio as int, a.mes as int, a.dia as int);
        lema_dia_del_mes(b.anio as int, b.mes as int, b.dia as int);
    }
}

/// Entre fechas válidas, una es anterior a otra exactamente cuando le faltan
/// días para llegar a ella: el orden de las fechas es el del calendario.
pub proof fn ley_orden_por_cuenta_de_dias(a: Fecha, b: Fecha)
    requires
        a.valida(),
        b.valida(),
    ensures
        fecha_anterior(a, b) <==> dias_de(a) < dias_de(b),
        a == b <==> dias_de(a) == dias_de(b),
{
    if fecha_anterior(a, b) {
        lema_anterior_implica_menos_dias(a, b);
    } else if fecha_anterior(b, a) {
        lema_anterior_implica_menos_dias(b, a);
    }
}

/// Un día existe en el calendario exactamente cuando cae dentro de su mes en la
/// cuenta de días: entre el primero del mes y el primero del mes siguiente.
/// Así, los meses tienen 31, 30, 29 o 28 días según el calendario gregoriano.
pub proof fn ley_dias_de_cada_mes(anio: i32, mes: u32, dia: u32)
    requires
        ANIO_MINIMO <= anio <= ANIO_MAXIMO,
        1 <= mes <= 12,
    ensures
        fecha_valida(anio as int, mes as int, dia as int) <==> 1 <= dia && dias_desde_1970(
            anio as int,
            mes as int,
            dia as int,
        ) < primero_del_mes_siguiente(anio as int, mes as int),
{
    lema_largo_del_mes(anio as int, mes as int);
    lema_dia_del_mes(anio as int, mes as int, dia as int);
}

} // verus!
