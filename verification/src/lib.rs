//! Reglas verificadas del turnero de certificados de antecedentes penales:
//! validación y saneamiento de formularios, cálculo de disponibilidad horaria,
//! autenticación administrativa y utilidades de rutas.

pub mod admin;
pub mod calendario;
pub mod formulario;
pub mod leyes;
pub mod modelos;
pub mod recursos;
pub mod solicitud;
pub mod texto;
pub mod validacion;
