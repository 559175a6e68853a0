//! Procesamiento de una solicitud de turno: saneamiento, validación de campos,
//! validación cronológica y respuesta ante un turno ya tomado.

use vstd::prelude::*;
use crate::calendario::{
    texto_iso, fecha_valida, Fecha, Momento, fecha_anterior, es_fin_de_semana, dia_de_semana, fecha_leida, leer_fecha,
    dia_semana,
};
use crate::formulario::{bloques, es_bloque, es_bloque_de_atencion, lema_partes_de_bloque};
use crate::modelos::{DatosTurno, ErroresFormulario, con_mensaje};
use crate::texto::{contiene, contiene_texto, copiar};
use crate::validacion::{
    email_valido, es_email_valido, sanear_dni, sanear_telefono, sin_caracteres, separador_dni,
    separador_telefono, partes_hora, componentes_hora, bloque_expirado, esta_expirado,
};

verus! {

pub open spec fn msg_fecha_obligatoria() -> Seq<char> {
    "La fecha de asistencia es obligatoria."@
}

pub open spec fn msg_hora_obligatoria() -> Seq<char> {
    "Debe seleccionar un bloque horario válido."@
}

pub open spec fn msg_nombre_obligatorio() -> Seq<char> {
    "El nombre del solicitante es obligatorio."@
}

pub open spec fn msg_apellido_obligatorio() -> Seq<char> {
    "El apellido del solicitante es obligatorio."@
}

pub open spec fn msg_dni_obligatorio() -> Seq<char> {
    "El número de documento es obligatorio."@
}

pub open spec fn msg_email_invalido() -> Seq<char> {
    "El formato del correo electrónico ingresado no es válido."@
}

pub open spec fn msg_fecha_no_habil() -> Seq<char> {
    "Fecha inválida: los turnos se asignan únicamente en días hábiles futuros."@
}

pub open spec fn msg_hora_expirada() -> Seq<char> {
    "El bloque horario seleccionado ya expiró. Elija uno más tarde."@
}

pub open spec fn msg_horario_tomado() -> Seq<char> {
    "Este horario ya fue reservado por otro ciudadano."@
}

/// Texto con el que SQLite informa la violación de un índice único.
pub open spec fn marca_unicidad() -> Seq<char> {
    "UNIQUE constraint failed"@
}

/// El campo lleva `mensaje` si `falla`, y ningún error si no.
pub open spec fn error_si(falla: bool, campo: Option<String>, mensaje: Seq<char>) -> bool {
    if falla {
        con_mensaje(campo, mensaje)
    } else {
        campo is None
    }
}

/// Documento sin puntos, guiones ni espacios.
pub open spec fn dni_saneado(dni: Seq<char>) -> Seq<char> {
    sin_caracteres(dni, |c: char| separador_dni(c))
}

/// Teléfono sin guiones ni espacios.
pub open spec fn telefono_saneado(telefono: Seq<char>) -> Seq<char> {
    sin_caracteres(telefono, |c: char| separador_telefono(c))
}

/// El correo, si se informó, no tiene un formato válido.
pub open spec fn email_rechazado(email: Seq<char>) -> bool {
    email.len() > 0 && !email_valido(email)
}

/// Ningún campo de la solicitud tiene error.
pub open spec fn campos_correctos(c: DatosTurno) -> bool {
    &&& c.fecha@.len() > 0
    &&& c.hora@.len() > 0
    &&& c.nombre@.len() > 0
    &&& c.apellido@.len() > 0
    &&& dni_saneado(c.dni@).len() > 0
    &&& !email_rechazado(c.email@)
}

/// `e` marca exactamente los campos con error de la solicitud `c`.
pub open spec fn errores_de_campos(c: DatosTurno, e: ErroresFormulario) -> bool {
    &&& error_si(c.fecha@.len() == 0, e.fecha, msg_fecha_obligatoria())
    &&& error_si(c.hora@.len() == 0, e.hora, msg_hora_obligatoria())
    &&& error_si(c.nombre@.len() == 0, e.nombre, msg_nombre_obligatorio())
    &&& error_si(c.apellido@.len() == 0, e.apellido, msg_apellido_obligatorio())
    &&& error_si(dni_saneado(c.dni@).len() == 0, e.dni, msg_dni_obligatorio())
    &&& e.telefono is None
    &&& error_si(email_rechazado(c.email@), e.email, msg_email_invalido())
}

/// `d` es la solicitud `c` con documento y teléfono saneados.
pub open spec fn saneada(c: DatosTurno, d: DatosTurno) -> bool {
    &&& d.fecha@ == c.fecha@
    &&& d.hora@ == c.hora@
    &&& d.nombre@ == c.nombre@
    &&& d.apellido@ == c.apellido@
    &&& d.dni@ == dni_saneado(c.dni@)
    &&& d.telefono@ == telefono_saneado(c.telefono@)
    &&& d.email@ == c.email@
}

/// Sanea documento y teléfono y valida los campos obligatorios y el correo.
pub fn validar_campos(crudo: DatosTurno) -> (r: Result<DatosTurno, ErroresFormulario>)
    ensures
        match r {
            Ok(d) => campos_correctos(crudo) && saneada(crudo, d),
            Err(e) => !campos_correctos(crudo) && errores_de_campos(crudo, e),
        },
{
    let dni = sanear_dni(crudo.dni.as_str());
    let telefono = sanear_telefono(crudo.telefono.as_str());
    let mut errores = ErroresFormulario::vacios();
    let mut hay_errores = false;

    if crudo.fecha.as_str().unicode_len() == 0 {
        errores.fecha = Some(copiar("La fecha de asistencia es obligatoria."));
        hay_errores = true;
    }
    if crudo.hora.as_str().unicode_len() == 0 {
        errores.hora = Some(copiar("Debe seleccionar un bloque horario válido."));
        hay_errores = true;
    }
    if crudo.nombre.as_str().unicode_len() == 0 {
        errores.nombre = Some(copiar("El nombre del solicitante es obligatorio."));
        hay_errores = true;
    }
    if crudo.apellido.as_str().unicode_len() == 0 {
        errores.apellido = Some(copiar("El apellido del solicitante es obligatorio."));
        hay_errores = true;
    }
    if dni.as_str().unicode_len() == 0 {
        errores.dni = Some(copiar("El número de documento es obligatorio."));
        hay_errores = true;
    }
    if crudo.email.as_str().unicode_len() != 0 && !es_email_valido(crudo.email.as_str()) {
        errores.email = Some(copiar("El formato del correo electrónico ingresado no es válido."));
        hay_errores = true;
    }
    if hay_errores {
        return Err(errores);
    }
    Ok(DatosTurno {
        fecha: crudo.fecha,
        hora: crudo.hora,
        nombre: crudo.nombre,
        apellido: crudo.apellido,
        dni,
        telefono,
        email: crudo.email,
    })
}

/// Resultado de la validación de fecha y hora de una solicitud.
pub enum Cronologia {
    /// La fecha y la hora admiten el turno.
    Admitida,
    /// La fecha no se lee, ya pasó o cae en fin de semana.
    DiaNoHabil,
    /// La hora no es uno de los bloques de atención.
    BloqueInvalido,
    /// El turno es para hoy y el bloque horario ya empezó.
    BloqueExpirado,
}

/// Validación de fecha y hora: `fecha` es la fecha leída del texto de la
/// solicitud (nada si no se lee), `numero_dia` su día de la semana y `hora` el
/// texto del bloque pedido. Solo se admiten días hábiles que no pasaron, uno de
/// los bloques de atención y, si el turno es para hoy, un bloque que no empezó.
/// Para hoy, una hora `H:M` que ya pasó se rechaza como vencida antes de mirar
/// si es uno de los bloques.
pub open spec fn cronologia(fecha: Option<Fecha>, numero_dia: u32, hora: Seq<char>, ahora: Momento) -> Cronologia {
    match fecha {
        None => Cronologia::DiaNoHabil,
        Some(f) => {
            if fecha_anterior(f, ahora.fecha) || es_fin_de_semana(numero_dia) {
                Cronologia::DiaNoHabil
            } else if f == ahora.fecha && (partes_hora(hora) matches Some((h, m)) && bloque_expirado(
                h,
                m,
                ahora.hora,
                ahora.minuto,
            )) {
                Cronologia::BloqueExpirado
            } else if !es_bloque(hora) {
                Cronologia::BloqueInvalido
            } else {
                Cronologia::Admitida
            }
        },
    }
}

/// Aplica la validación de fecha y hora a una solicitud con los campos ya
/// validados; `fecha` es la fecha leída de `datos.fecha` y `numero_dia` su día de
/// la semana (no se usa si no hay fecha).
pub fn verificar_cronologia(datos: DatosTurno, fecha: Option<Fecha>, numero_dia: u32, ahora: &Momento) -> (r: Result<DatosTurno, ErroresFormulario>)
    ensures
        match cronologia(fecha, numero_dia, datos.hora@, *ahora) {
            Cronologia::Admitida => r == Ok::<DatosTurno, ErroresFormulario>(datos),
            Cronologia::DiaNoHabil => r matches Err(e) && e.solo_fecha(msg_fecha_no_habil()),
            Cronologia::BloqueInvalido => r matches Err(e) && e.solo_hora(msg_hora_obligatoria()),
            Cronologia::BloqueExpirado => r matches Err(e) && e.solo_hora(msg_hora_expirada()),
        },
{
    let dia_invalido = match fecha {
        None => true,
        Some(f) => f.anterior_a(&ahora.fecha) || numero_dia == 6 || numero_dia == 7,
    };
    if dia_invalido {
        let mut errores = ErroresFormulario::vacios();
        errores.fecha = Some(
            copiar("Fecha inválida: los turnos se asignan únicamente en días hábiles futuros."),
        );
        return Err(errores);
    }
    match fecha {
        Some(f) => {
            if f.misma_que(&ahora.fecha) {
                match componentes_hora(datos.hora.as_str()) {
                    Some((h, m)) => {
                        if esta_expirado(h, m, ahora.hora, ahora.minuto) {
                            let mut errores = ErroresFormulario::vacios();
                            errores.hora = Some(
                                copiar("El bloque horario seleccionado ya expiró. Elija uno más tarde."),
                            );
                            return Err(errores);
                        }
                    },
                    None => {},
                }
            }
        },
        None => {},
    }
    if !es_bloque_de_atencion(datos.hora.as_str()) {
        let mut errores = ErroresFormulario::vacios();
        errores.hora = Some(copiar("Debe seleccionar un bloque horario válido."));
        return Err(errores);
    }
    Ok(datos)
}

/// Día de la semana de la fecha leída (0 si no hay fecha).
pub open spec fn dia_de(fecha: Option<Fecha>) -> u32 {
    match fecha {
        Some(f) => dia_de_semana(f.anio, f.mes, f.dia),
        None => 0,
    }
}

/// Evalúa una solicitud de turno tal como llega del formulario en el instante
/// `ahora`: o bien la devuelve saneada y lista para guardar, o bien devuelve
/// los errores con los que se la rechaza.
pub fn evaluar_solicitud(crudo: DatosTurno, ahora: &Momento) -> (r: Result<DatosTurno, ErroresFormulario>)
    requires
        ahora.valido(),
    ensures
        !campos_correctos(crudo) ==> (r matches Err(e) && errores_de_campos(crudo, e)),
        campos_correctos(crudo) ==> match cronologia(
            fecha_leida(crudo.fecha@),
            dia_de(fecha_leida(crudo.fecha@)),
            crudo.hora@,
            *ahora,
        ) {
            Cronologia::Admitida => r matches Ok(d) && saneada(crudo, d),
            Cronologia::DiaNoHabil => r matches Err(e) && e.solo_fecha(msg_fecha_no_habil()),
            Cronologia::BloqueInvalido => r matches Err(e) && e.solo_hora(msg_hora_obligatoria()),
            Cronologia::BloqueExpirado => r matches Err(e) && e.solo_hora(msg_hora_expirada()),
        },
        campos_correctos(crudo) ==> forall|a: i32, m: u32, d: u32|
            #![trigger texto_iso(a as int, m as int, d as int)]
            0 <= a <= 9999 && fecha_valida(a as int, m as int, d as int) && crudo.fecha@ == texto_iso(
                a as int,
                m as int,
                d as int,
            ) ==> fecha_leida(crudo.fecha@) == Some(Fecha { anio: a, mes: m, dia: d }),
        r is Ok ==> (fecha_leida(crudo.fecha@) matches Some(f) && !fecha_anterior(f, ahora.fecha)
            && !es_fin_de_semana(dia_de(Some(f))) && es_bloque(crudo.hora@) && (f == ahora.fecha
            ==> (partes_hora(crudo.hora@) matches Some((h, m)) && !bloque_expirado(
            h,
            m,
            ahora.hora,
            ahora.minuto,
        )))),
{
    match validar_campos(crudo) {
        Err(e) => Err(e),
        Ok(datos) => {
            let fecha = leer_fecha(datos.fecha.as_str());
            let numero_dia = match &fecha {
                Some(f) => dia_semana(f),
                None => 0,
            };
            proof {
                if es_bloque(datos.hora@) {
                    let j = choose|j: int| 0 <= j < bloques().len() && bloques()[j] == datos.hora@;
                    lema_partes_de_bloque(j);
                }
            }
            verificar_cronologia(datos, fecha, numero_dia, ahora)
        },
    }
}

/// Errores con los que se responde cuando guardar el turno falla: si SQLite
/// informa la violación del índice único (el horario ya fue tomado), solo la
/// hora lleva el aviso; cualquier otra falla no produce errores de formulario.
pub fn errores_por_conflicto(mensaje_sqlite: Option<&str>) -> (r: Option<ErroresFormulario>)
    ensures
        r is Some <==> (mensaje_sqlite matches Some(m) && contiene_texto(m@, marca_unicidad())),
        r matches Some(e) ==> e.solo_hora(msg_horario_tomado()),
{
    match mensaje_sqlite {
        Some(m) => {
            if contiene(m, "UNIQUE constraint failed") {
                let mut errores = ErroresFormulario::vacios();
                errores.hora = Some(copiar("Este horario ya fue reservado por otro ciudadano."));
                Some(errores)
            } else {
                None
            }
        },
        None => None,
    }
}

} // verus!
