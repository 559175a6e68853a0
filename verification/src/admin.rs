//! Reglas del módulo administrativo: credenciales, sesión por cookie,
//! historial de turnos y baja de registros.

use vstd::prelude::*;
use crate::modelos::{ErroresLogin, con_mensaje};
use crate::texto::{copiar, iguales};

verus! {

/// Nombre de la cookie de sesión administrativa.
pub const COOKIE_SESION: &'static str = "admin_session";

pub open spec fn usuario_admin() -> Seq<char> {
    "admin"@
}

pub open spec fn clave_admin() -> Seq<char> {
    "123456"@
}

pub open spec fn msg_usuario_desconocido() -> Seq<char> {
    "Usuario oficial no registrado."@
}

pub open spec fn msg_clave_incorrecta() -> Seq<char> {
    "Contraseña de seguridad incorrecta."@
}

/// Valida las credenciales de administración: se acepta únicamente el usuario
/// `admin` con la clave `123456`; si no, cada dato erróneo lleva su mensaje.
pub fn validar_credenciales(usuario: &str, clave: &str) -> (r: Result<(), ErroresLogin>)
    ensures
        r is Ok <==> (usuario@ == usuario_admin() && clave@ == clave_admin()),
        r matches Err(e) ==> {
            &&& (if usuario@ != usuario_admin() {
                con_mensaje(e.usuario, msg_usuario_desconocido())
            } else {
                e.usuario is None
            })
            &&& (if clave@ != clave_admin() {
                con_mensaje(e.clave, msg_clave_incorrecta())
            } else {
                e.clave is None
            })
        },
{
    let mut errores = ErroresLogin::vacios();
    let mut hay_error = false;
    if !iguales(usuario, "admin") {
        errores.usuario = Some(copiar("Usuario oficial no registrado."));
        hay_error = true;
    }
    if !iguales(clave, "123456") {
        errores.clave = Some(copiar("Contraseña de seguridad incorrecta."));
        hay_error = true;
    }
    if hay_error {
        Err(errores)
    } else {
        Ok(())
    }
}

/// El texto de la cookie, si la petición la trae.
pub open spec fn valor_opcional(valor: Option<&str>) -> Option<Seq<char>> {
    match valor {
        Some(v) => Some(v@),
        None => None,
    }
}

/// La cookie de sesión presente no es vacía (la que deja el cierre de sesión) y
/// tiene exactamente el valor del token de sesión que el servidor entregó al
/// autenticar.
pub open spec fn sesion_valida(valor_cookie: Option<Seq<char>>, token: Seq<char>) -> bool {
    valor_cookie matches Some(v) && v.len() > 0 && v == token
}

/// Evalúa el valor de la cookie `admin_session`, si la petición la trae,
/// contra el token de sesión del servidor.
pub fn sesion_activa(valor_cookie: Option<&str>, token: &str) -> (r: bool)
    ensures
        r == sesion_valida(valor_opcional(valor_cookie), token@),
{
    match valor_cookie {
        Some(v) => v.unicode_len() != 0 && iguales(v, token),
        None => false,
    }
}

pub open spec fn ruta_panel() -> Seq<char> {
    "/admin/turnos"@
}

pub open spec fn ruta_login() -> Seq<char> {
    "/admin/login"@
}

/// Destino de la entrada al módulo administrativo: el panel con una sesión
/// autenticada y el formulario de acceso en cualquier otro caso.
pub fn destino_admin(valor_cookie: Option<&str>, token: &str) -> (r: String)
    ensures
        r@ == (if sesion_valida(valor_opcional(valor_cookie), token@) {
            ruta_panel()
        } else {
            ruta_login()
        }),
{
    if sesion_activa(valor_cookie, token) {
        copiar("/admin/turnos")
    } else {
        copiar("/admin/login")
    }
}

/// El parámetro `historial` pide ver todos los turnos (vale exactamente `true`).
pub fn ver_historial(parametro: Option<&str>) -> (r: bool)
    ensures
        r == (parametro matches Some(p) && p@ == "true"@),
{
    match parametro {
        Some(p) => iguales(p, "true"),
        None => false,
    }
}

pub open spec fn consulta_historial() -> Seq<char> {
    "SELECT id, fecha, hora, nombre, apellido, dni, telefono, email FROM turnos ORDER BY fecha ASC, hora ASC"@
}

pub open spec fn consulta_vigentes() -> Seq<char> {
    "SELECT id, fecha, hora, nombre, apellido, dni, telefono, email FROM turnos WHERE fecha >= DATE('now', 'localtime') ORDER BY fecha ASC, hora ASC"@
}

/// Consulta SQL del panel: todos los turnos con historial; si no, solo los de
/// hoy en adelante. Ambas ordenan por fecha y hora.
pub fn consulta_turnos(historial: bool) -> (r: String)
    ensures
        r@ == (if historial { consulta_historial() } else { consulta_vigentes() }),
{
    if historial {
        copiar(
            "SELECT id, fecha, hora, nombre, apellido, dni, telefono, email FROM turnos ORDER BY fecha ASC, hora ASC",
        )
    } else {
        copiar(
            "SELECT id, fecha, hora, nombre, apellido, dni, telefono, email FROM turnos WHERE fecha >= DATE('now', 'localtime') ORDER BY fecha ASC, hora ASC",
        )
    }
}

/// Decisión sobre un pedido de baja de un turno.
#[derive(Debug, PartialEq, Eq)]
pub enum DecisionBaja {
    /// La petición no trae una sesión autenticada: no se borra nada.
    SinSesion,
    /// Falta el identificador del turno: no se borra nada.
    SinIdentificador,
    /// Se borra el turno con este identificador.
    Borrar(String),
}

/// Decide una baja: sin identificador (o vacío) no hay nada que borrar; con
/// identificador, solo una sesión autenticada borra ese turno.
pub fn id_a_borrar(parametro: Option<&str>, valor_cookie: Option<&str>, token: &str) -> (r: DecisionBaja)
    ensures
        !(parametro matches Some(p) && p@.len() > 0) ==> r is SinIdentificador,
        (parametro matches Some(p) && p@.len() > 0) && !sesion_valida(
            valor_opcional(valor_cookie),
            token@,
        ) ==> r is SinSesion,
        sesion_valida(valor_opcional(valor_cookie), token@) && (parametro matches Some(p) && p@.len()
            > 0) ==> (r matches DecisionBaja::Borrar(id) && parametro matches Some(p) && id@ == p@),
{
    match parametro {
        Some(p) => {
            if p.unicode_len() == 0 {
                DecisionBaja::SinIdentificador
            } else if !sesion_activa(valor_cookie, token) {
                DecisionBaja::SinSesion
            } else {
                DecisionBaja::Borrar(copiar(p))
            }
        },
        None => DecisionBaja::SinIdentificador,
    }
}

} // verus!
