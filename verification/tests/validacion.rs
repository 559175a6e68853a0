use turnero::texto::{caracteres, contiene, copiar, iguales, texto_de};
use turnero::validacion::{componentes_hora, es_email_valido, esta_expirado, leer_u32, sanear_dni, sanear_telefono};

#[test]
fn email_valido_simple() {
    assert!(es_email_valido("juan.perez@correo.com.ar"));
    assert!(es_email_valido("a@b.c"));
}

#[test]
fn email_arroba_al_principio() {
    assert!(!es_email_valido("@correo.com"));
}

#[test]
fn email_sin_arroba() {
    assert!(!es_email_valido("juan.correo.com"));
    assert!(!es_email_valido(""));
}

#[test]
fn email_sin_dominio() {
    assert!(!es_email_valido("juan@"));
}

#[test]
fn email_dominio_sin_punto() {
    assert!(!es_email_valido("juan@correo"));
}

#[test]
fn email_dominio_termina_en_punto() {
    assert!(!es_email_valido("juan@correo."));
}

#[test]
fn email_se_mira_la_primera_arroba() {
    assert!(es_email_valido("a@b@c.d"));
    assert!(!es_email_valido("a@b@cd"));
}

#[test]
fn dni_sin_separadores() {
    assert_eq!(sanear_dni("12.345.678"), "12345678");
    assert_eq!(sanear_dni("12-345 678"), "12345678");
    assert_eq!(sanear_dni(" . - "), "");
    assert_eq!(sanear_dni("AB123"), "AB123");
}

#[test]
fn dni_saneado_es_estable() {
    let una = sanear_dni("20.111-222 3");
    let dos = sanear_dni(&una);
    assert_eq!(una, "201112223");
    assert_eq!(dos, una);
}

#[test]
fn telefono_sin_guiones_ni_espacios() {
    assert_eq!(sanear_telefono("011-4555 1234"), "01145551234");
    assert_eq!(sanear_telefono("1.2"), "1.2");
}

#[test]
fn telefono_saneado_es_estable() {
    let una = sanear_telefono("2920 - 42 1111");
    assert_eq!(una, "2920421111");
    assert_eq!(sanear_telefono(&una), una);
}

#[test]
fn hora_con_dos_partes() {
    assert_eq!(componentes_hora("08:30"), Some((8, 30)));
    assert_eq!(componentes_hora("8:5"), Some((8, 5)));
    assert_eq!(componentes_hora("+8:30"), Some((8, 30)));
}

#[test]
fn hora_con_partes_no_numericas() {
    assert_eq!(componentes_hora("a:b"), Some((0, 0)));
    assert_eq!(componentes_hora(":"), Some((0, 0)));
    assert_eq!(componentes_hora("-1:30"), Some((0, 30)));
    assert_eq!(componentes_hora("99999999999:1"), Some((0, 1)));
}

#[test]
fn hora_sin_exactamente_dos_partes() {
    assert_eq!(componentes_hora("0830"), None);
    assert_eq!(componentes_hora("08:30:00"), None);
    assert_eq!(componentes_hora(""), None);
}

#[test]
fn lectura_de_numeros() {
    let v = caracteres("4294967295");
    assert_eq!(leer_u32(&v, 0, v.len()), Some(4294967295));
    let v = caracteres("4294967296");
    assert_eq!(leer_u32(&v, 0, v.len()), None);
    let v = caracteres("+");
    assert_eq!(leer_u32(&v, 0, v.len()), None);
    let v = caracteres("x12y");
    assert_eq!(leer_u32(&v, 1, 3), Some(12));
    assert_eq!(leer_u32(&v, 1, 1), None);
}

#[test]
fn bloque_expirado() {
    assert!(esta_expirado(9, 0, 10, 15));
    assert!(esta_expirado(10, 0, 10, 15));
    assert!(esta_expirado(10, 15, 10, 15));
    assert!(!esta_expirado(10, 30, 10, 15));
    assert!(!esta_expirado(11, 0, 10, 15));
}

#[test]
fn utilidades_de_texto() {
    assert!(iguales("admin", "admin"));
    assert!(!iguales("admin", "Admin"));
    assert!(!iguales("admin", "admin "));
    assert!(contiene("UNIQUE constraint failed: turnos.fecha", "constraint"));
    assert!(contiene("abc", ""));
    assert!(!contiene("ab", "abc"));
    assert!(!contiene("abcabd", "abe"));
    assert_eq!(copiar("ñandú"), "ñandú");
    let v = caracteres("turnero");
    assert_eq!(texto_de(&v, 2, 5), "rne");
}
