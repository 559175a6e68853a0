//! Fechas del calendario gregoriano proléptico y el instante local en que se
//! atiende una solicitud. Las operaciones de calendario que hace `chrono`
//! (leer una fecha con el formato `%Y-%m-%d`, escribirla y calcular el día de
//! la semana) se llaman a través de envoltorios de confianza.

use vstd::prelude::*;
use chrono::{Datelike, NaiveDate};

verus! {

/// Primer año que admite `chrono::NaiveDate`.
pub const ANIO_MINIMO: i32 = -262143;

/// Último año que admite `chrono::NaiveDate`.
pub const ANIO_MAXIMO: i32 = 262142;

pub open spec fn es_bisiesto(anio: int) -> bool {
    (anio % 4 == 0 && anio % 100 != 0) || anio % 400 == 0
}

pub open spec fn dias_del_mes(anio: int, mes: int) -> int {
    if mes == 2 {
        if es_bisiesto(anio) { 29 } else { 28 }
    } else if mes == 4 || mes == 6 || mes == 9 || mes == 11 {
        30
    } else {
        31
    }
}

/// La terna (año, mes, día) nombra un día que existe y que `chrono` representa.
pub open spec fn fecha_valida(anio: int, mes: int, dia: int) -> bool {
    &&& ANIO_MINIMO <= anio <= ANIO_MAXIMO
    &&& 1 <= mes <= 12
    &&& 1 <= dia <= dias_del_mes(anio, mes)
}

/// Una fecha del calendario.
#[derive(Clone, Copy, Debug, PartialEq, Eq)]
pub struct Fecha {
    pub anio: i32,
    pub mes: u32,
    pub dia: u32,
}

/// Un instante local: fecha, hora y minuto.
#[derive(Clone, Copy, Debug, PartialEq, Eq)]
pub struct Momento {
    pub fecha: Fecha,
    pub hora: u32,
    pub minuto: u32,
}

/// Orden cronológico estricto entre dos fechas válidas.
pub open spec fn fecha_anterior(a: Fecha, b: Fecha) -> bool {
    ||| a.anio < b.anio
    ||| a.anio == b.anio && a.mes < b.mes
    ||| a.anio == b.anio && a.mes == b.mes && a.dia < b.dia
}

impl Fecha {
    pub open spec fn valida(self) -> bool {
        fecha_valida(self.anio as int, self.mes as int, self.dia as int)
    }

    /// Construye la fecha si existe en el calendario.
    pub fn nueva(anio: i32, mes: u32, dia: u32) -> (r: Option<Fecha>)
        ensures
            r is Some <==> fecha_valida(anio as int, mes as int, dia as int),
            r matches Some(f) ==> f.anio == anio && f.mes == mes && f.dia == dia,
    {
        if anio < ANIO_MINIMO || anio > ANIO_MAXIMO || mes < 1 || mes > 12 || dia < 1 {
            return None;
        }
        // Desplazamiento por un múltiplo de 400 que vuelve positivo el año
        // sin cambiar su divisibilidad por 4, 100 y 400.
        let a: u32 = (anio as i64 + 400000i64) as u32;
        let bisiesto = (a % 4 == 0 && a % 100 != 0) || a % 400 == 0;
        assert(bisiesto == es_bisiesto(anio as int)) by {
            let k = anio as int;
            assert(a as int == k + 400000);
            assert((k + 400000) % 4 == k % 4) by (nonlinear_arith);
            assert((k + 400000) % 100 == k % 100) by (nonlinear_arith);
            assert((k + 400000) % 400 == k % 400) by (nonlinear_arith);
        }
        let maximo: u32 = if mes == 2 {
            if bisiesto { 29 } else { 28 }
        } else if mes == 4 || mes == 6 || mes == 9 || mes == 11 {
            30
        } else {
            31
        };
        if dia > maximo {
            return None;
        }
        Some(Fecha { anio, mes, dia })
    }

    /// `self` es un día anterior a `otra`.
    pub fn anterior_a(&self, otra: &Fecha) -> (r: bool)
        ensures
            r == fecha_anterior(*self, *otra),
    {
        self.anio < otra.anio || (self.anio == otra.anio && self.mes < otra.mes) || (self.anio
            == otra.anio && self.mes == otra.mes && self.dia < otra.dia)
    }

    /// `self` y `otra` son el mismo día.
    pub fn misma_que(&self, otra: &Fecha) -> (r: bool)
        ensures
            r == (*self == *otra),
    {
        self.anio == otra.anio && self.mes == otra.mes && self.dia == otra.dia
    }
}

impl Momento {
    pub open spec fn valido(self) -> bool {
        self.fecha.valida() && self.hora < 24 && self.minuto < 60
    }

    /// Construye el instante si la fecha existe y la hora del día es válida.
    pub fn nuevo(anio: i32, mes: u32, dia: u32, hora: u32, minuto: u32) -> (r: Option<Momento>)
        ensures
            r is Some <==> (fecha_valida(anio as int, mes as int, dia as int) && hora < 24 && minuto
                < 60),
            r matches Some(m) ==> m.fecha == (Fecha { anio, mes, dia }) && m.hora == hora
                && m.minuto == minuto,
    {
        match Fecha::nueva(anio, mes, dia) {
            Some(fecha) => {
                if hora < 24 && minuto < 60 {
                    Some(Momento { fecha, hora, minuto })
                } else {
                    None
                }
            },
            None => None,
        }
    }
}

/// Lo que `NaiveDate::parse_from_str(texto, "%Y-%m-%d")` devuelve: la fecha
/// leída como (año, mes, día), o nada si el texto no se lee como fecha.
pub uninterp spec fn fecha_de_texto(texto: Seq<char>) -> Option<(i32, u32, u32)>;

/// Días transcurridos desde el jueves 1 de enero de 1970 (negativos antes) en
/// el calendario gregoriano proléptico; el año empieza en marzo para que el 29
/// de febrero sea el último día.
pub open spec fn dias_desde_1970(anio: int, mes: int, dia: int) -> int {
    let a = if mes <= 2 { anio - 1 } else { anio };
    let era = a / 400;
    let anio_de_era = a - era * 400;
    let mes_desde_marzo = if mes > 2 { mes - 3 } else { mes + 9 };
    let dia_del_anio = (153 * mes_desde_marzo + 2) / 5 + dia - 1;
    let dia_de_era = anio_de_era * 365 + anio_de_era / 4 - anio_de_era / 100 + dia_del_anio;
    era * 146097 + dia_de_era - 719468
}

/// Número de día de la semana de una fecha (lunes = 1, domingo = 7).
pub open spec fn dia_de_semana(anio: i32, mes: u32, dia: u32) -> u32 {
    ((dias_desde_1970(anio as int, mes as int, dia as int) + 3) % 7 + 1) as u32
}

/// El texto que `chrono` escribe para una fecha con el formato `%Y-%m-%d`.
pub uninterp spec fn texto_de_fecha(anio: i32, mes: u32, dia: u32) -> Seq<char>;

pub open spec fn digito(n: int) -> char {
    (48 + n) as char
}

/// Los `ancho` últimos dígitos decimales de `n`, rellenados con ceros.
pub open spec fn con_ceros(n: int, ancho: nat) -> Seq<char>
    decreases ancho,
{
    if ancho == 0 {
        Seq::empty()
    } else {
        con_ceros(n / 10, (ancho - 1) as nat).push(digito(n % 10))
    }
}

/// `AAAA-MM-DD` para los años de cuatro cifras o menos.
pub open spec fn texto_iso(anio: int, mes: int, dia: int) -> Seq<char> {
    con_ceros(anio, 4) + seq!['-'] + con_ceros(mes, 2) + seq!['-'] + con_ceros(dia, 2)
}

/// Lee una fecha con `NaiveDate::parse_from_str(texto, "%Y-%m-%d")` de `chrono`.
/// Se confía en que el resultado es el nombrado por `fecha_de_texto` y en que
/// toda fecha leída existe (un `NaiveDate` siempre es un día válido), y en que
/// el texto `AAAA-MM-DD` de una fecha válida de los años 0 a 9999 se lee como
/// esa fecha; qué otros textos acepta el analizador de `chrono` no se describe.
#[verifier::external_body]
fn leer_fecha_iso(texto: &str) -> (r: Option<(i32, u32, u32)>)
    ensures
        r == fecha_de_texto(texto@),
        r matches Some((a, m, d)) ==> fecha_valida(a as int, m as int, d as int),
        forall|a: i32, m: u32, d: u32|
            #![trigger texto_iso(a as int, m as int, d as int)]
            0 <= a <= 9999 && fecha_valida(a as int, m as int, d as int) && texto@ == texto_iso(
                a as int,
                m as int,
                d as int,
            ) ==> r == Some((a, m, d)),
{
    match NaiveDate::parse_from_str(texto, "%Y-%m-%d") {
        Ok(f) => Some((f.year(), f.month(), f.day())),
        Err(_) => None,
    }
}

/// Día de la semana de una fecha válida con
/// `NaiveDate::from_ymd_opt(..).weekday().number_from_monday()` de `chrono`.
/// Se confía en que el número es el que da `dia_de_semana` (el calendario
/// gregoriano proléptico de `chrono`, con lunes = 1 y domingo = 7, como
/// documenta `number_from_monday`).
#[verifier::external_body]
fn numero_dia_semana(anio: i32, mes: u32, dia: u32) -> (r: u32)
    requires
        fecha_valida(anio as int, mes as int, dia as int),
    ensures
        r == dia_de_semana(anio, mes, dia),
{
    NaiveDate::from_ymd_opt(anio, mes, dia).unwrap().weekday().number_from_monday()
}

/// Escribe una fecha válida con `format("%Y-%m-%d")` de `chrono`. Se confía en
/// que el texto es el nombrado por `texto_de_fecha` y, para los años entre 0 y
/// 9999, en que es `AAAA-MM-DD` con ceros a la izquierda (`%Y` rellena a cuatro
/// cifras, `%m` y `%d` a dos); fuera de ese rango no se describe.
#[verifier::external_body]
fn escribir_fecha_iso(anio: i32, mes: u32, dia: u32) -> (r: String)
    requires
        fecha_valida(anio as int, mes as int, dia as int),
    ensures
        r@ == texto_de_fecha(anio, mes, dia),
        0 <= anio <= 9999 ==> r@ == texto_iso(anio as int, mes as int, dia as int),
{
    NaiveDate::from_ymd_opt(anio, mes, dia).unwrap().format("%Y-%m-%d").to_string()
}

/// La fecha que el texto nombra, si `chrono` la lee con `%Y-%m-%d`.
pub open spec fn fecha_leida(texto: Seq<char>) -> Option<Fecha> {
    match fecha_de_texto(texto) {
        Some((a, m, d)) => Some(Fecha { anio: a, mes: m, dia: d }),
        None => None,
    }
}

/// Lee una fecha con el formato `%Y-%m-%d`.
pub fn leer_fecha(texto: &str) -> (r: Option<Fecha>)
    ensures
        r == fecha_leida(texto@),
        r matches Some(f) ==> f.valida(),
        forall|a: i32, m: u32, d: u32|
            #![trigger texto_iso(a as int, m as int, d as int)]
            0 <= a <= 9999 && fecha_valida(a as int, m as int, d as int) && texto@ == texto_iso(
                a as int,
                m as int,
                d as int,
            ) ==> r == Some(Fecha { anio: a, mes: m, dia: d }),
{
    match leer_fecha_iso(texto) {
        Some((anio, mes, dia)) => Some(Fecha { anio, mes, dia }),
        None => None,
    }
}

/// Día de la semana (lunes = 1, domingo = 7).
pub fn dia_semana(f: &Fecha) -> (r: u32)
    requires
        f.valida(),
    ensures
        r == dia_de_semana(f.anio, f.mes, f.dia),
        1 <= r <= 7,
{
    numero_dia_semana(f.anio, f.mes, f.dia)
}

/// Escribe la fecha con el formato `%Y-%m-%d`.
pub fn escribir_fecha(f: &Fecha) -> (r: String)
    requires
        f.valida(),
    ensures
        r@ == texto_de_fecha(f.anio, f.mes, f.dia),
        0 <= f.anio <= 9999 ==> r@ == texto_iso(f.anio as int, f.mes as int, f.dia as int),
{
    escribir_fecha_iso(f.anio, f.mes, f.dia)
}

/// Sábado (6) y domingo (7) no son días hábiles.
pub open spec fn es_fin_de_semana(numero_dia: u32) -> bool {
    numero_dia == 6 || numero_dia == 7
}

} // verus!
