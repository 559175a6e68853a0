//! Disponibilidad horaria y contexto de la vista pública del formulario.

use vstd::prelude::*;
use crate::calendario::{
    Fecha, Momento, fecha_anterior, es_fin_de_semana, dia_de_semana, fecha_leida, texto_de_fecha,
    leer_fecha, dia_semana, escribir_fecha, texto_iso, fecha_valida,
};
use crate::modelos::{ContextoFormulario, ErroresFormulario, Horario};
use crate::texto::{copiar, iguales};
use crate::validacion::{
    partes_hora, bloque_expirado, componentes_hora, esta_expirado, es_digito, u32_de_texto,
    digitos_sin_signo, valor_decimal, separador_unico,
};

verus! {

/// Cantidad de bloques horarios de atención.
pub const CANTIDAD_BLOQUES: usize = 13;

/// Los bloques de atención, de 08:00 a 14:00 cada media hora.
pub open spec fn bloques() -> Seq<Seq<char>> {
    seq![
        "08:00"@, "08:30"@, "09:00"@, "09:30"@, "10:00"@, "10:30"@, "11:00"@,
        "11:30"@, "12:00"@, "12:30"@, "13:00"@, "13:30"@, "14:00"@,
    ]
}

/// El bloque número `i`.
pub fn bloque(i: usize) -> (r: &'static str)
    requires
        i < CANTIDAD_BLOQUES,
    ensures
        r@ == bloques()[i as int],
{
    match i {
        0 => "08:00",
        1 => "08:30",
        2 => "09:00",
        3 => "09:30",
        4 => "10:00",
        5 => "10:30",
        6 => "11:00",
        7 => "11:30",
        8 => "12:00",
        9 => "12:30",
        10 => "13:00",
        11 => "13:30",
        _ => "14:00",
    }
}

/// `hora` es el texto de uno de los bloques de atención.
pub open spec fn es_bloque(hora: Seq<char>) -> bool {
    bloques().contains(hora)
}

/// Busca `hora` entre los bloques de atención.
pub fn es_bloque_de_atencion(hora: &str) -> (r: bool)
    ensures
        r == es_bloque(hora@),
{
    let mut i: usize = 0;
    while i < CANTIDAD_BLOQUES
        invariant
            i <= CANTIDAD_BLOQUES,
            forall|j: int| 0 <= j < i ==> bloques()[j] != hora@,
        decreases CANTIDAD_BLOQUES - i,
    {
        if iguales(hora, bloque(i)) {
            assert(bloques()[i as int] == hora@);
            return true;
        }
        i = i + 1;
    }
    assert(bloques().len() == CANTIDAD_BLOQUES);
    false
}

/// Hora y minuto de un texto `HH:MM` de dígitos.
pub open spec fn valor_hhmm(s: Seq<char>) -> (u32, u32) {
    (
        ((s[0] as int - 48) * 10 + (s[1] as int - 48)) as u32,
        ((s[3] as int - 48) * 10 + (s[4] as int - 48)) as u32,
    )
}

proof fn lema_dos_digitos(t: Seq<char>)
    requires
        t.len() == 2,
        es_digito(t[0]),
        es_digito(t[1]),
    ensures
        u32_de_texto(t) == Some(((t[0] as int - 48) * 10 + (t[1] as int - 48)) as u32),
{
    assert(digitos_sin_signo(t) == t);
    assert(t.drop_last().drop_last().len() == 0);
    assert(valor_decimal(t.drop_last().drop_last()) == 0);
    assert(t.drop_last().last() == t[0]);
    assert(valor_decimal(t.drop_last()) == (t[0] as int - 48));
    assert(valor_decimal(t) == (t[0] as int - 48) * 10 + (t[1] as int - 48));
}

/// Un texto `HH:MM` de dígitos se divide en su hora y su minuto.
proof fn lema_hhmm(s: Seq<char>)
    requires
        s.len() == 5,
        s[2] == ':',
        es_digito(s[0]),
        es_digito(s[1]),
        es_digito(s[3]),
        es_digito(s[4]),
    ensures
        partes_hora(s) == Some(valor_hhmm(s)),
{
    assert(separador_unico(s, 2));
    let p = choose|p: int| separador_unico(s, p);
    assert(p == 2) by {
        if p != 2 {
            assert(s[2] != ':');
        }
    }
    let a = s.take(2);
    let b = s.skip(3);
    assert(a[0] == s[0] && a[1] == s[1]);
    assert(b[0] == s[3] && b[1] == s[4]);
    lema_dos_digitos(a);
    lema_dos_digitos(b);
}

/// Cada bloque de atención se divide en su hora (de 8 a 14) y su minuto (0 o 30).
pub proof fn lema_partes_de_bloque(i: int)
    requires
        0 <= i < CANTIDAD_BLOQUES,
    ensures
        partes_hora(bloques()[i]) == Some(((8 + i / 2) as u32, ((i % 2) * 30) as u32)),
{
    broadcast use vstd::string::group_string_axioms;
    reveal_strlit("08:00");
    reveal_strlit("08:30");
    reveal_strlit("09:00");
    reveal_strlit("09:30");
    reveal_strlit("10:00");
    reveal_strlit("10:30");
    reveal_strlit("11:00");
    reveal_strlit("11:30");
    reveal_strlit("12:00");
    reveal_strlit("12:30");
    reveal_strlit("13:00");
    reveal_strlit("13:30");
    reveal_strlit("14:00");
    let s = bloques()[i];
    assert(s.len() == 5);
    lema_hhmm(s);
}

pub open spec fn msg_no_disponible() -> Seq<char> {
    "(No disponible)"@
}

pub open spec fn msg_reservado() -> Seq<char> {
    "(Reservado)"@
}

pub open spec fn msg_disponible() -> Seq<char> {
    "(Disponible)"@
}

/// Algún turno ya reservado para la fecha ocupa el bloque `b`.
pub open spec fn reservado(reservados: Seq<String>, b: Seq<char>) -> bool {
    exists|i: int| 0 <= i < reservados.len() && (#[trigger] reservados[i])@ == b
}

/// Disponibilidad y leyenda de un bloque: ningún bloque de un día no hábil
/// (pasado o fin de semana) está disponible; luego se excluyen los reservados
/// y, si se consulta el día de hoy, los que ya empezaron.
pub open spec fn estado_bloque(
    b: Seq<char>,
    no_habil: bool,
    reservados: Seq<String>,
    es_hoy: bool,
    hora: u32,
    minuto: u32,
) -> (bool, Seq<char>) {
    if no_habil {
        (false, msg_no_disponible())
    } else if reservado(reservados, b) {
        (false, msg_reservado())
    } else if es_hoy && (partes_hora(b) matches Some((h, m)) && bloque_expirado(h, m, hora, minuto)) {
        (false, msg_no_disponible())
    } else {
        (true, msg_disponible())
    }
}

/// `x` describe el bloque `b` según `estado_bloque`.
pub open spec fn horario_de(
    x: Horario,
    b: Seq<char>,
    no_habil: bool,
    reservados: Seq<String>,
    es_hoy: bool,
    hora: u32,
    minuto: u32,
) -> bool {
    let e = estado_bloque(b, no_habil, reservados, es_hoy, hora, minuto);
    &&& x.hora@ == b
    &&& x.disponible == e.0
    &&& x.mensaje@ == e.1
}

/// Busca `b` entre las horas reservadas.
fn esta_reservado(reservados: &Vec<String>, b: &str) -> (r: bool)
    ensures
        r == reservado(reservados@, b@),
{
    let mut i: usize = 0;
    while i < reservados.len()
        invariant
            i <= reservados.len(),
            forall|j: int| 0 <= j < i ==> (#[trigger] reservados@[j])@ != b@,
        decreases reservados.len() - i,
    {
        if iguales(reservados[i].as_str(), b) {
            return true;
        }
        i = i + 1;
    }
    false
}

/// Calcula la disponibilidad de todos los bloques de una fecha: `no_habil`
/// indica que la fecha ya pasó o cae en fin de semana, `reservados` las horas ya
/// tomadas, `es_hoy` que se consulta el día de hoy y `hora:minuto` la hora actual.
pub fn calcular_horarios(
    no_habil: bool,
    reservados: &Vec<String>,
    es_hoy: bool,
    hora: u32,
    minuto: u32,
) -> (r: Vec<Horario>)
    ensures
        r@.len() == CANTIDAD_BLOQUES,
        forall|i: int|
            0 <= i < CANTIDAD_BLOQUES ==> horario_de(
                #[trigger] r@[i],
                bloques()[i],
                no_habil,
                reservados@,
                es_hoy,
                hora,
                minuto,
            ),
{
    let mut lista: Vec<Horario> = Vec::new();
    let mut i: usize = 0;
    while i < CANTIDAD_BLOQUES
        invariant
            i <= CANTIDAD_BLOQUES,
            lista@.len() == i,
            forall|j: int|
                0 <= j < i ==> horario_de(
                    #[trigger] lista@[j],
                    bloques()[j],
                    no_habil,
                    reservados@,
                    es_hoy,
                    hora,
                    minuto,
                ),
        decreases CANTIDAD_BLOQUES - i,
    {
        let b = bloque(i);
        let x = if no_habil {
            Horario { hora: copiar(b), disponible: false, mensaje: copiar("(No disponible)") }
        } else if esta_reservado(reservados, b) {
            Horario { hora: copiar(b), disponible: false, mensaje: copiar("(Reservado)") }
        } else {
            let expirado = if es_hoy {
                match componentes_hora(b) {
                    Some((h, m)) => esta_expirado(h, m, hora, minuto),
                    None => false,
                }
            } else {
                false
            };
            if expirado {
                Horario { hora: copiar(b), disponible: false, mensaje: copiar("(No disponible)") }
            } else {
                Horario { hora: copiar(b), disponible: true, mensaje: copiar("(Disponible)") }
            }
        };
        lista.push(x);
        i = i + 1;
    }
    lista
}

/// `c` es el contexto de la vista para la fecha consultada `fecha`, con `hoy`
/// el texto de la fecha actual, `no_habil` y `fin_de_semana` el estado del día
/// mostrado, `es_hoy` si ese día es hoy, y los bloques calculados con
/// `reservados` y la hora actual.
pub open spec fn contexto_de(
    c: ContextoFormulario,
    fecha: Seq<char>,
    hoy: Seq<char>,
    no_habil: bool,
    fin_de_semana: bool,
    reservados: Seq<String>,
    es_hoy: bool,
    hora: u32,
    minuto: u32,
) -> bool {
    &&& c.old_fecha@ == fecha
    &&& c.min_fecha@ == hoy
    &&& c.old_hora@.len() == 0
    &&& c.old_nombre@.len() == 0
    &&& c.old_apellido@.len() == 0
    &&& c.old_dni@.len() == 0
    &&& c.old_telefono@.len() == 0
    &&& c.old_email@.len() == 0
    &&& c.errores.sin_errores()
    &&& c.es_fin_de_semana == fin_de_semana
    &&& c.horarios@.len() == CANTIDAD_BLOQUES
    &&& forall|i: int|
        0 <= i < CANTIDAD_BLOQUES ==> horario_de(
            #[trigger] c.horarios@[i],
            bloques()[i],
            no_habil,
            reservados,
            es_hoy,
            hora,
            minuto,
        )
}

/// La fecha que se muestra: la leída o, si no se leyó ninguna, hoy.
pub open spec fn fecha_mostrada_de(leida: Option<Fecha>, ahora: Momento) -> Fecha {
    match leida {
        Some(f) => f,
        None => ahora.fecha,
    }
}

/// No se ofrece ningún bloque si la fecha no se leyó, si la fecha mostrada ya
/// pasó o si cae en fin de semana (`numero_dia` es su día de la semana).
pub open spec fn sin_bloques(leida: Option<Fecha>, numero_dia: u32, ahora: Momento) -> bool {
    leida is None || fecha_anterior(fecha_mostrada_de(leida, ahora), ahora.fecha)
        || es_fin_de_semana(numero_dia)
}

/// Arma el contexto de la vista a partir de la fecha consultada, el texto de
/// hoy, la fecha leída de la consulta (si se leyó), el número de día de la
/// semana de la fecha mostrada, las horas reservadas y el instante actual. Los
/// bloques que ya empezaron se descartan cuando la fecha mostrada es hoy.
pub fn armar_contexto(
    fecha: String,
    hoy: String,
    leida: Option<Fecha>,
    numero_dia: u32,
    reservados: &Vec<String>,
    ahora: &Momento,
) -> (r: ContextoFormulario)
    ensures
        contexto_de(
            r,
            fecha@,
            hoy@,
            sin_bloques(leida, numero_dia, *ahora),
            es_fin_de_semana(numero_dia),
            reservados@,
            fecha_mostrada_de(leida, *ahora) == ahora.fecha,
            ahora.hora,
            ahora.minuto,
        ),
{
    let mostrada = match leida {
        Some(f) => f,
        None => ahora.fecha,
    };
    let fin_de_semana = numero_dia == 6 || numero_dia == 7;
    let no_habil = leida.is_none() || mostrada.anterior_a(&ahora.fecha) || fin_de_semana;
    let es_hoy = mostrada.misma_que(&ahora.fecha);
    let horarios = calcular_horarios(no_habil, reservados, es_hoy, ahora.hora, ahora.minuto);
    ContextoFormulario {
        old_fecha: fecha,
        min_fecha: hoy,
        old_hora: String::new(),
        old_nombre: String::new(),
        old_apellido: String::new(),
        old_dni: String::new(),
        old_telefono: String::new(),
        old_email: String::new(),
        horarios,
        errores: ErroresFormulario::vacios(),
        es_fin_de_semana: fin_de_semana,
    }
}

/// Texto de la fecha de hoy.
pub open spec fn texto_hoy(ahora: Momento) -> Seq<char> {
    texto_de_fecha(ahora.fecha.anio, ahora.fecha.mes, ahora.fecha.dia)
}

/// La fecha que se muestra: la leída del texto consultado o, si no se lee, hoy.
pub open spec fn fecha_mostrada(fecha: Seq<char>, ahora: Momento) -> Fecha {
    fecha_mostrada_de(fecha_leida(fecha), ahora)
}

/// Día de la semana de la fecha mostrada.
pub open spec fn dia_mostrado(fecha: Seq<char>, ahora: Momento) -> u32 {
    let f = fecha_mostrada(fecha, ahora);
    dia_de_semana(f.anio, f.mes, f.dia)
}

/// Para el texto consultado no se ofrece ningún bloque: no se lee como fecha,
/// o la fecha ya pasó o cae en fin de semana.
pub open spec fn dia_no_habil(fecha: Seq<char>, ahora: Momento) -> bool {
    sin_bloques(fecha_leida(fecha), dia_mostrado(fecha, ahora), ahora)
}

/// El bloque `i` que se ofrece como disponible para `fecha` es de un día hábil
/// que no pasó, no está reservado y, si es para hoy, todavía no empezó.
pub open spec fn bloque_ofrecible(fecha: Seq<char>, ahora: Momento, reservados: Seq<String>, i: int) -> bool {
    &&& fecha_leida(fecha) matches Some(f)
    &&& !fecha_anterior(f, ahora.fecha)
    &&& !es_fin_de_semana(dia_de_semana(f.anio, f.mes, f.dia))
    &&& !reservado(reservados, bloques()[i])
    &&& (f == ahora.fecha ==> (partes_hora(bloques()[i]) matches Some((h, m)) && !bloque_expirado(
        h,
        m,
        ahora.hora,
        ahora.minuto,
    )))
}

/// La fecha que se consulta: la pedida o, si no se pidió ninguna, la de hoy.
pub fn fecha_consultada(pedida: Option<String>, ahora: &Momento) -> (r: String)
    requires
        ahora.valido(),
    ensures
        r@ == match pedida {
            Some(p) => p@,
            None => texto_hoy(*ahora),
        },
{
    match pedida {
        Some(p) => p,
        None => escribir_fecha(&ahora.fecha),
    }
}

/// Prepara el contexto de la vista pública para la fecha consultada `fecha`,
/// las horas ya reservadas para ella y el instante actual.
pub fn preparar_formulario(fecha: String, ahora: &Momento, reservados: &Vec<String>) -> (r: ContextoFormulario)
    requires
        ahora.valido(),
    ensures
        contexto_de(
            r,
            fecha@,
            texto_hoy(*ahora),
            dia_no_habil(fecha@, *ahora),
            es_fin_de_semana(dia_mostrado(fecha@, *ahora)),
            reservados@,
            fecha_mostrada(fecha@, *ahora) == ahora.fecha,
            ahora.hora,
            ahora.minuto,
        ),
        forall|i: int|
            0 <= i < CANTIDAD_BLOQUES && (#[trigger] r.horarios@[i]).disponible ==> bloque_ofrecible(
                fecha@,
                *ahora,
                reservados@,
                i,
            ),
        0 <= ahora.fecha.anio <= 9999 && fecha@ == texto_hoy(*ahora) ==> fecha_leida(fecha@) == Some(
            ahora.fecha,
        ),
        forall|a: i32, m: u32, d: u32|
            #![trigger texto_iso(a as int, m as int, d as int)]
            0 <= a <= 9999 && fecha_valida(a as int, m as int, d as int) && fecha@ == texto_iso(
                a as int,
                m as int,
                d as int,
            ) ==> fecha_leida(fecha@) == Some(Fecha { anio: a, mes: m, dia: d }),
{
    let hoy = escribir_fecha(&ahora.fecha);
    let leida = leer_fecha(fecha.as_str());
    let mostrada = match leida {
        Some(f) => f,
        None => ahora.fecha,
    };
    let numero_dia = dia_semana(&mostrada);
    let r = armar_contexto(fecha, hoy, leida, numero_dia, reservados, ahora);
    assert forall|i: int|
        0 <= i < CANTIDAD_BLOQUES && (#[trigger] r.horarios@[i]).disponible implies bloque_ofrecible(
            r.old_fecha@,
            *ahora,
            reservados@,
            i,
        ) by {
        lema_partes_de_bloque(i);
    }
    r
}

} // verus!
