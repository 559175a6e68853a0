use turnero::calendario::{dia_semana, escribir_fecha, leer_fecha, Fecha, Momento};

fn fecha(anio: i32, mes: u32, dia: u32) -> Fecha {
    Fecha::nueva(anio, mes, dia).unwrap()
}

#[test]
fn fechas_que_existen() {
    assert_eq!(Fecha::nueva(2024, 2, 29), Some(Fecha { anio: 2024, mes: 2, dia: 29 }));
    assert!(Fecha::nueva(2000, 2, 29).is_some());
    assert!(Fecha::nueva(-4, 2, 29).is_some());
    assert!(Fecha::nueva(2024, 12, 31).is_some());
    assert!(Fecha::nueva(-262143, 1, 1).is_some());
    assert!(Fecha::nueva(262142, 12, 31).is_some());
}

#[test]
fn fechas_que_no_existen() {
    assert!(Fecha::nueva(2023, 2, 29).is_none());
    assert!(Fecha::nueva(1900, 2, 29).is_none());
    assert!(Fecha::nueva(2024, 4, 31).is_none());
    assert!(Fecha::nueva(2024, 13, 1).is_none());
    assert!(Fecha::nueva(2024, 0, 1).is_none());
    assert!(Fecha::nueva(2024, 1, 0).is_none());
    assert!(Fecha::nueva(400000, 1, 1).is_none());
    assert!(Fecha::nueva(-262144, 12, 31).is_none());
}

#[test]
fn lectura_de_fechas() {
    assert_eq!(leer_fecha("2015-09-05"), Some(fecha(2015, 9, 5)));
    assert_eq!(leer_fecha("2024-06-12"), Some(fecha(2024, 6, 12)));
    assert_eq!(leer_fecha("2015-02-30"), None);
    assert_eq!(leer_fecha("2015/09/05"), None);
    assert_eq!(leer_fecha("hola"), None);
    assert_eq!(leer_fecha(""), None);
}

#[test]
fn dias_de_la_semana() {
    assert_eq!(dia_semana(&fecha(2024, 1, 1)), 1);
    assert_eq!(dia_semana(&fecha(2024, 6, 12)), 3);
    assert_eq!(dia_semana(&fecha(2024, 6, 15)), 6);
    assert_eq!(dia_semana(&fecha(2024, 6, 16)), 7);
}

#[test]
fn escritura_de_fechas() {
    assert_eq!(escribir_fecha(&fecha(2024, 3, 5)), "2024-03-05");
    assert_eq!(escribir_fecha(&fecha(5, 1, 2)), "0005-01-02");
    assert_eq!(escribir_fecha(&fecha(1999, 12, 31)), "1999-12-31");
}

#[test]
fn orden_de_fechas() {
    let a = fecha(2024, 6, 12);
    let b = fecha(2024, 6, 13);
    let c = fecha(2025, 1, 1);
    assert!(a.anterior_a(&b));
    assert!(b.anterior_a(&c));
    assert!(a.anterior_a(&c));
    assert!(!a.anterior_a(&a));
    assert!(!b.anterior_a(&a));
    assert!(fecha(2023, 12, 31).anterior_a(&a));
    assert!(a.misma_que(&fecha(2024, 6, 12)));
    assert!(!a.misma_que(&b));
}

#[test]
fn instantes() {
    assert!(Momento::nuevo(2024, 6, 12, 23, 59).is_some());
    assert!(Momento::nuevo(2024, 6, 12, 24, 0).is_none());
    assert!(Momento::nuevo(2024, 6, 12, 10, 60).is_none());
    assert!(Momento::nuevo(2024, 6, 31, 10, 0).is_none());
}

/// La misma cuenta que `dias_desde_1970` y `dia_de_semana`, con división entera
/// hacia abajo.
fn dia_calculado(anio: i64, mes: i64, dia: i64) -> u32 {
    let a = if mes <= 2 { anio - 1 } else { anio };
    let era = a.div_euclid(400);
    let anio_de_era = a - era * 400;
    let mes_desde_marzo = if mes > 2 { mes - 3 } else { mes + 9 };
    let dia_del_anio = (153 * mes_desde_marzo + 2) / 5 + dia - 1;
    let dia_de_era = anio_de_era * 365 + anio_de_era / 4 - anio_de_era / 100 + dia_del_anio;
    let dias = era * 146097 + dia_de_era - 719468;
    ((dias + 3).rem_euclid(7) + 1) as u32
}

#[test]
fn dia_de_la_semana_segun_la_cuenta_de_dias() {
    assert_eq!(dia_calculado(1970, 1, 1), 4);
    for anio in [-262143, -1000, -401, -400, -4, -1, 0, 1, 1582, 1899, 1900, 1970, 2000, 2024, 2100, 9999, 262142] {
        for mes in 1..=12u32 {
            for dia in [1u32, 15, 28, 29, 30, 31] {
                if let Some(f) = Fecha::nueva(anio, mes, dia) {
                    assert_eq!(dia_semana(&f), dia_calculado(anio as i64, mes as i64, dia as i64), "{}-{}-{}", anio, mes, dia);
                }
            }
        }
    }
}
