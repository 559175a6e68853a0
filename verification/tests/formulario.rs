use turnero::calendario::{Fecha, Momento};
use turnero::formulario::{armar_contexto, bloque, calcular_horarios, fecha_consultada, preparar_formulario, CANTIDAD_BLOQUES};
use turnero::modelos::DatosTurno;
use turnero::solicitud::evaluar_solicitud;

/// Miércoles 12 de junio de 2024, 10:15.
fn instante() -> Momento {
    Momento::nuevo(2024, 6, 12, 10, 15).unwrap()
}

fn horas() -> Vec<String> {
    (0..CANTIDAD_BLOQUES).map(|i| bloque(i).to_string()).collect()
}

#[test]
fn bloques_de_atencion() {
    assert_eq!(
        horas(),
        vec!["08:00", "08:30", "09:00", "09:30", "10:00", "10:30", "11:00", "11:30", "12:00", "12:30", "13:00", "13:30", "14:00"]
    );
}

#[test]
fn dia_no_habil_sin_bloques() {
    let h = calcular_horarios(true, &vec![], false, 0, 0);
    assert_eq!(h.len(), 13);
    for x in &h {
        assert!(!x.disponible);
        assert_eq!(x.mensaje, "(No disponible)");
    }
}

#[test]
fn bloques_reservados() {
    let h = calcular_horarios(false, &vec!["09:00".to_string(), "13:30".to_string()], false, 0, 0);
    assert_eq!(h[2].hora, "09:00");
    assert!(!h[2].disponible);
    assert_eq!(h[2].mensaje, "(Reservado)");
    assert_eq!(h[11].mensaje, "(Reservado)");
    assert!(h[0].disponible);
    assert_eq!(h[0].mensaje, "(Disponible)");
}

#[test]
fn bloques_expirados_hoy() {
    let h = calcular_horarios(false, &vec!["11:00".to_string()], true, 10, 0);
    for i in 0..5 {
        assert!(!h[i].disponible);
        assert_eq!(h[i].mensaje, "(No disponible)");
    }
    assert!(h[5].disponible);
    assert_eq!(h[6].mensaje, "(Reservado)");
}

#[test]
fn fecha_consultada_por_defecto_hoy() {
    assert_eq!(fecha_consultada(None, &instante()), "2024-06-12");
    assert_eq!(fecha_consultada(Some("2024-07-01".to_string()), &instante()), "2024-07-01");
}

#[test]
fn contexto_armado() {
    let hoy = Fecha::nueva(2024, 6, 12);
    let c = armar_contexto("2024-06-12".to_string(), "2024-06-12".to_string(), hoy, 3, &vec![], &instante());
    assert_eq!(c.old_fecha, "2024-06-12");
    assert_eq!(c.min_fecha, "2024-06-12");
    assert!(!c.es_fin_de_semana);
    assert!(!c.horarios[4].disponible);
    assert!(c.horarios[5].disponible);
    assert!(c.old_hora.is_empty() && c.old_email.is_empty());
    assert!(c.errores.fecha.is_none());
    let sabado = Fecha::nueva(2024, 6, 15);
    let c = armar_contexto("2024-06-15".to_string(), "2024-06-12".to_string(), sabado, 6, &vec![], &instante());
    assert!(c.es_fin_de_semana);
    assert!(c.horarios.iter().all(|x| !x.disponible));
    let c = armar_contexto("x".to_string(), "2024-06-12".to_string(), None, 3, &vec![], &instante());
    assert!(!c.es_fin_de_semana);
    assert!(c.horarios.iter().all(|x| !x.disponible));
}

#[test]
fn formulario_para_hoy() {
    let c = preparar_formulario("2024-06-12".to_string(), &instante(), &vec!["12:00".to_string()]);
    assert_eq!(c.min_fecha, "2024-06-12");
    assert!(!c.es_fin_de_semana);
    let disponibles: Vec<&str> = c.horarios.iter().filter(|x| x.disponible).map(|x| x.hora.as_str()).collect();
    assert_eq!(disponibles, vec!["10:30", "11:00", "11:30", "12:30", "13:00", "13:30", "14:00"]);
    assert_eq!(c.horarios[8].mensaje, "(Reservado)");
}

#[test]
fn formulario_para_sabado() {
    let c = preparar_formulario("2024-06-15".to_string(), &instante(), &vec![]);
    assert!(c.es_fin_de_semana);
    assert!(c.horarios.iter().all(|x| !x.disponible && x.mensaje == "(No disponible)"));
}

#[test]
fn formulario_para_fecha_pasada() {
    let c = preparar_formulario("2024-06-10".to_string(), &instante(), &vec![]);
    assert!(!c.es_fin_de_semana);
    assert!(c.horarios.iter().all(|x| !x.disponible));
}

#[test]
fn formulario_para_fecha_futura() {
    let c = preparar_formulario("2024-06-13".to_string(), &instante(), &vec![]);
    assert!(c.horarios.iter().all(|x| x.disponible && x.mensaje == "(Disponible)"));
    assert_eq!(c.old_fecha, "2024-06-13");
}

#[test]
fn formulario_con_fecha_ilegible_no_ofrece_bloques() {
    let c = preparar_formulario("cualquiera".to_string(), &instante(), &vec![]);
    assert!(!c.es_fin_de_semana);
    assert!(c.horarios.iter().all(|x| !x.disponible && x.mensaje == "(No disponible)"));
    assert_eq!(c.old_fecha, "cualquiera");
}

#[test]
fn bloque_ofrecido_es_admitido() {
    let c = preparar_formulario("2024-06-12".to_string(), &instante(), &vec![]);
    for x in c.horarios.iter().filter(|x| x.disponible) {
        let d = DatosTurno {
            fecha: "2024-06-12".to_string(),
            hora: x.hora.clone(),
            nombre: "Ana".to_string(),
            apellido: "Paz".to_string(),
            dni: "1".to_string(),
            telefono: String::new(),
            email: String::new(),
        };
        assert!(evaluar_solicitud(d, &instante()).is_ok());
    }
}

#[test]
fn fecha_de_hoy_escrita_de_otra_forma() {
    // Una fecha de hoy escrita sin ceros también descarta los bloques ya
    // empezados, igual que la solicitud.
    let c = preparar_formulario("2024-6-12".to_string(), &instante(), &vec![]);
    assert!(!c.horarios[0].disponible);
    assert!(!c.horarios[4].disponible);
    assert!(c.horarios[5].disponible);
    let d = DatosTurno {
        fecha: "2024-6-12".to_string(),
        hora: "08:00".to_string(),
        nombre: "Ana".to_string(),
        apellido: "Paz".to_string(),
        dni: "1".to_string(),
        telefono: String::new(),
        email: String::new(),
    };
    assert!(evaluar_solicitud(d, &instante()).unwrap_err().hora.is_some());
}

#[test]
fn mas_reservas_no_liberan_bloques() {
    let pocas = calcular_horarios(false, &vec!["09:00".to_string()], false, 0, 0);
    let muchas = calcular_horarios(false, &vec!["09:00".to_string(), "10:00".to_string()], false, 0, 0);
    for i in 0..CANTIDAD_BLOQUES {
        assert!(!muchas[i].disponible || pocas[i].disponible);
    }
    assert!(pocas[4].disponible && !muchas[4].disponible);
}
