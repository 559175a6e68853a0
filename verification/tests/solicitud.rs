use turnero::calendario::{Fecha, Momento};
use turnero::modelos::{DatosTurno, ErroresFormulario};
use turnero::solicitud::{errores_por_conflicto, evaluar_solicitud, validar_campos, verificar_cronologia};

fn datos(fecha: &str, hora: &str, nombre: &str, apellido: &str, dni: &str, telefono: &str, email: &str) -> DatosTurno {
    DatosTurno {
        fecha: fecha.to_string(),
        hora: hora.to_string(),
        nombre: nombre.to_string(),
        apellido: apellido.to_string(),
        dni: dni.to_string(),
        telefono: telefono.to_string(),
        email: email.to_string(),
    }
}

/// Miércoles 12 de junio de 2024, 10:15.
fn ahora() -> Momento {
    Momento::nuevo(2024, 6, 12, 10, 15).unwrap()
}

fn sin_errores() -> ErroresFormulario {
    ErroresFormulario::default()
}

#[test]
fn errores_por_defecto_vacios() {
    let e = ErroresFormulario::default();
    assert_eq!(e, ErroresFormulario::vacios());
    assert!(e.fecha.is_none() && e.hora.is_none() && e.email.is_none());
}

#[test]
fn campos_vacios() {
    let r = validar_campos(datos("", "", "", "", "", "", ""));
    let mut esperado = sin_errores();
    esperado.fecha = Some("La fecha de asistencia es obligatoria.".to_string());
    esperado.hora = Some("Debe seleccionar un bloque horario válido.".to_string());
    esperado.nombre = Some("El nombre del solicitante es obligatorio.".to_string());
    esperado.apellido = Some("El apellido del solicitante es obligatorio.".to_string());
    esperado.dni = Some("El número de documento es obligatorio.".to_string());
    assert_eq!(r, Err(esperado));
}

#[test]
fn dni_solo_con_separadores() {
    let r = validar_campos(datos("2024-06-13", "09:00", "Ana", "Paz", " .-", "", ""));
    let mut esperado = sin_errores();
    esperado.dni = Some("El número de documento es obligatorio.".to_string());
    assert_eq!(r, Err(esperado));
}

#[test]
fn email_invalido() {
    let r = validar_campos(datos("2024-06-13", "09:00", "Ana", "Paz", "30111222", "", "ana@correo"));
    let mut esperado = sin_errores();
    esperado.email = Some("El formato del correo electrónico ingresado no es válido.".to_string());
    assert_eq!(r, Err(esperado));
}

#[test]
fn campos_correctos_saneados() {
    let r = validar_campos(datos("2024-06-13", "09:00", "Ana", "Paz", "30.111.222", "2920-42 1111", ""));
    assert_eq!(r, Ok(datos("2024-06-13", "09:00", "Ana", "Paz", "30111222", "2920421111", "")));
}

#[test]
fn cronologia_fecha_pasada() {
    let d = datos("2024-06-11", "09:00", "Ana", "Paz", "30111222", "", "");
    let r = verificar_cronologia(d, Fecha::nueva(2024, 6, 11), 2, &ahora());
    let mut esperado = sin_errores();
    esperado.fecha = Some("Fecha inválida: los turnos se asignan únicamente en días hábiles futuros.".to_string());
    assert_eq!(r, Err(esperado));
}

#[test]
fn cronologia_fin_de_semana() {
    let d = datos("2024-06-15", "09:00", "Ana", "Paz", "30111222", "", "");
    let r = verificar_cronologia(d, Fecha::nueva(2024, 6, 15), 6, &ahora());
    assert!(r.unwrap_err().fecha.is_some());
    let d = datos("2024-06-16", "09:00", "Ana", "Paz", "30111222", "", "");
    let r = verificar_cronologia(d, Fecha::nueva(2024, 6, 16), 7, &ahora());
    assert!(r.unwrap_err().fecha.is_some());
}

#[test]
fn cronologia_bloque_expirado_hoy() {
    let d = datos("2024-06-12", "10:00", "Ana", "Paz", "30111222", "", "");
    let r = verificar_cronologia(d, Fecha::nueva(2024, 6, 12), 3, &ahora());
    let mut esperado = sin_errores();
    esperado.hora = Some("El bloque horario seleccionado ya expiró. Elija uno más tarde.".to_string());
    assert_eq!(r, Err(esperado));
}

#[test]
fn cronologia_bloque_futuro_hoy() {
    let d = datos("2024-06-12", "10:30", "Ana", "Paz", "30111222", "", "");
    let r = verificar_cronologia(d, Fecha::nueva(2024, 6, 12), 3, &ahora());
    assert_eq!(r, Ok(datos("2024-06-12", "10:30", "Ana", "Paz", "30111222", "", "")));
}

#[test]
fn cronologia_hora_fuera_de_los_bloques() {
    for hora in ["0900", "23:59", "09:15", "9:00", "14:30", "07:30"] {
        let mut esperado = sin_errores();
        esperado.hora = Some("Debe seleccionar un bloque horario válido.".to_string());
        let d = datos("2024-06-13", hora, "Ana", "Paz", "30111222", "", "");
        let r = verificar_cronologia(d, Fecha::nueva(2024, 6, 13), 4, &ahora());
        assert_eq!(r, Err(esperado));
    }
}

#[test]
fn cronologia_sin_fecha_leida() {
    let d = datos("mañana", "09:00", "Ana", "Paz", "30111222", "", "");
    let r = verificar_cronologia(d, None, 0, &ahora());
    let mut esperado = sin_errores();
    esperado.fecha = Some("Fecha inválida: los turnos se asignan únicamente en días hábiles futuros.".to_string());
    assert_eq!(r, Err(esperado));
}

#[test]
fn solicitud_aceptada() {
    let r = evaluar_solicitud(datos("2024-06-13", "08:00", "Ana", "Paz", "30.111.222", "", "ana@correo.com"), &ahora());
    assert_eq!(r, Ok(datos("2024-06-13", "08:00", "Ana", "Paz", "30111222", "", "ana@correo.com")));
}

#[test]
fn solicitud_para_hoy_mas_tarde() {
    let r = evaluar_solicitud(datos("2024-06-12", "10:30", "Ana", "Paz", "1", "", ""), &ahora());
    assert!(r.is_ok());
}

#[test]
fn solicitud_para_hoy_expirada() {
    let r = evaluar_solicitud(datos("2024-06-12", "10:00", "Ana", "Paz", "1", "", ""), &ahora());
    let e = r.unwrap_err();
    assert_eq!(e.hora, Some("El bloque horario seleccionado ya expiró. Elija uno más tarde.".to_string()));
    assert!(e.fecha.is_none());
}

#[test]
fn solicitud_para_sabado() {
    let r = evaluar_solicitud(datos("2024-06-15", "09:00", "Ana", "Paz", "1", "", ""), &ahora());
    let e = r.unwrap_err();
    assert_eq!(e.fecha, Some("Fecha inválida: los turnos se asignan únicamente en días hábiles futuros.".to_string()));
}

#[test]
fn solicitud_para_ayer() {
    let r = evaluar_solicitud(datos("2024-06-11", "09:00", "Ana", "Paz", "1", "", ""), &ahora());
    assert!(r.unwrap_err().fecha.is_some());
}

#[test]
fn solicitud_con_fecha_ilegible() {
    let r = evaluar_solicitud(datos("pronto", "09:00", "Ana", "Paz", "1", "", ""), &ahora());
    assert!(r.unwrap_err().fecha.is_some());
}

#[test]
fn solicitud_con_hora_fuera_de_los_bloques() {
    let r = evaluar_solicitud(datos("2024-06-13", "23:59", "Ana", "Paz", "1", "", ""), &ahora());
    let e = r.unwrap_err();
    assert_eq!(e.hora, Some("Debe seleccionar un bloque horario válido.".to_string()));
    assert!(e.fecha.is_none());
}

#[test]
fn solicitud_para_el_ultimo_bloque() {
    let r = evaluar_solicitud(datos("2024-06-14", "14:00", "Ana", "Paz", "1", "", ""), &ahora());
    assert!(r.is_ok());
}

#[test]
fn solicitud_con_campos_faltantes() {
    let r = evaluar_solicitud(datos("2024-06-13", "", "Ana", "", "1", "", ""), &ahora());
    let e = r.unwrap_err();
    assert!(e.hora.is_some() && e.apellido.is_some());
    assert!(e.fecha.is_none() && e.nombre.is_none() && e.dni.is_none());
}

#[test]
fn conflicto_de_unicidad() {
    let e = errores_por_conflicto(Some("UNIQUE constraint failed: turnos.fecha, turnos.hora")).unwrap();
    let mut esperado = sin_errores();
    esperado.hora = Some("Este horario ya fue reservado por otro ciudadano.".to_string());
    assert_eq!(e, esperado);
}

#[test]
fn otras_fallas_no_son_conflicto() {
    assert!(errores_por_conflicto(Some("disk I/O error")).is_none());
    assert!(errores_por_conflicto(Some("unique constraint failed")).is_none());
    assert!(errores_por_conflicto(None).is_none());
}

#[test]
fn hora_vencida_fuera_de_los_bloques() {
    let r = evaluar_solicitud(datos("2024-06-12", "07:00", "Ana", "Paz", "1", "", ""), &ahora());
    let mut esperado = sin_errores();
    esperado.hora = Some("El bloque horario seleccionado ya expiró. Elija uno más tarde.".to_string());
    assert_eq!(r, Err(esperado));
}

#[test]
fn hora_futura_fuera_de_los_bloques_hoy() {
    let r = evaluar_solicitud(datos("2024-06-12", "23:59", "Ana", "Paz", "1", "", ""), &ahora());
    let e = r.unwrap_err();
    assert_eq!(e.hora, Some("Debe seleccionar un bloque horario válido.".to_string()));
}
