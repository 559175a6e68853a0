//! Estructuras de datos del dominio: bloques horarios, errores de validación,
//! contexto de la vista pública y registros de turnos.

use vstd::prelude::*;

verus! {

/// Un bloque de tiempo de atención presencial y su estado de ocupación.
#[derive(Debug, PartialEq, Eq)]
pub struct Horario {
    pub hora: String,
    pub disponible: bool,
    pub mensaje: String,
}

/// Mensajes de error por campo del formulario público (`None`: sin error).
#[derive(Debug, PartialEq, Eq)]
pub struct ErroresFormulario {
    pub fecha: Option<String>,
    pub hora: Option<String>,
    pub nombre: Option<String>,
    pub apellido: Option<String>,
    pub dni: Option<String>,
    pub telefono: Option<String>,
    pub email: Option<String>,
}

/// `campo` lleva el mensaje `mensaje`.
pub open spec fn con_mensaje(campo: Option<String>, mensaje: Seq<char>) -> bool {
    campo matches Some(m) && m@ == mensaje
}

impl ErroresFormulario {
    /// Ningún campo tiene error.
    pub open spec fn sin_errores(self) -> bool {
        &&& self.fecha is None
        &&& self.hora is None
        &&& self.nombre is None
        &&& self.apellido is None
        &&& self.dni is None
        &&& self.telefono is None
        &&& self.email is None
    }

    /// Solo la fecha tiene error, con el mensaje dado.
    pub open spec fn solo_fecha(self, mensaje: Seq<char>) -> bool {
        &&& con_mensaje(self.fecha, mensaje)
        &&& self.hora is None
        &&& self.nombre is None
        &&& self.apellido is None
        &&& self.dni is None
        &&& self.telefono is None
        &&& self.email is None
    }

    /// Solo la hora tiene error, con el mensaje dado.
    pub open spec fn solo_hora(self, mensaje: Seq<char>) -> bool {
        &&& self.fecha is None
        &&& con_mensaje(self.hora, mensaje)
        &&& self.nombre is None
        &&& self.apellido is None
        &&& self.dni is None
        &&& self.telefono is None
        &&& self.email is None
    }

    /// Errores sin ningún campo marcado.
    pub fn vacios() -> (r: ErroresFormulario)
        ensures
            r.sin_errores(),
    {
        ErroresFormulario {
            fecha: None,
            hora: None,
            nombre: None,
            apellido: None,
            dni: None,
            telefono: None,
            email: None,
        }
    }
}

impl Default for ErroresFormulario {
    fn default() -> (r: ErroresFormulario)
        ensures
            r.sin_errores(),
    {
        ErroresFormulario::vacios()
    }
}

/// Mensajes de error de la autenticación administrativa.
#[derive(Debug, PartialEq, Eq)]
pub struct ErroresLogin {
    pub usuario: Option<String>,
    pub clave: Option<String>,
}

impl ErroresLogin {
    pub open spec fn sin_errores(self) -> bool {
        self.usuario is None && self.clave is None
    }

    /// Errores sin ningún campo marcado.
    pub fn vacios() -> (r: ErroresLogin)
        ensures
            r.sin_errores(),
    {
        ErroresLogin { usuario: None, clave: None }
    }
}

impl Default for ErroresLogin {
    fn default() -> (r: ErroresLogin)
        ensures
            r.sin_errores(),
    {
        ErroresLogin::vacios()
    }
}

/// Contexto con el que se muestra el formulario público.
#[derive(Debug, PartialEq, Eq)]
pub struct ContextoFormulario {
    pub old_fecha: String,
    pub min_fecha: String,
    pub old_hora: String,
    pub old_nombre: String,
    pub old_apellido: String,
    pub old_dni: String,
    pub old_telefono: String,
    pub old_email: String,
    pub horarios: Vec<Horario>,
    pub errores: ErroresFormulario,
    pub es_fin_de_semana: bool,
}

/// Campos de una solicitud de turno.
#[derive(Debug, PartialEq, Eq)]
pub struct DatosTurno {
    pub fecha: String,
    pub hora: String,
    pub nombre: String,
    pub apellido: String,
    pub dni: String,
    pub telefono: String,
    pub email: String,
}

/// Un turno tal como se guarda en la base de datos.
#[derive(Debug, PartialEq, Eq)]
pub struct TurnoDB {
    pub id: i32,
    pub fecha: String,
    pub hora: String,
    pub nombre: String,
    pub apellido: String,
    pub dni: String,
    pub telefono: String,
    pub email: String,
}

} // verus!
