use turnero::recursos::{nombre_plantilla, ruta_estatica, tipo_contenido};

#[test]
fn rutas_estaticas() {
    assert_eq!(ruta_estatica("static/estilos.css"), "estilos.css");
    assert_eq!(ruta_estatica("estilos.css"), "estilos.css");
    assert_eq!(ruta_estatica("/estilos.css"), "estilos.css");
    assert_eq!(ruta_estatica("static//img/logo.png"), "img/logo.png");
    assert_eq!(ruta_estatica("static/static/x"), "static/x");
    assert_eq!(ruta_estatica("static"), "static");
    assert_eq!(ruta_estatica("///"), "");
    assert_eq!(ruta_estatica(""), "");
}

#[test]
fn nombres_de_plantillas() {
    assert_eq!(nombre_plantilla("formulario.html"), "formulario");
    assert_eq!(nombre_plantilla("404.html"), "404");
    assert_eq!(nombre_plantilla("a.html.html"), "a");
    assert_eq!(nombre_plantilla("login"), "login");
    assert_eq!(nombre_plantilla("estilos.css"), "estilos.css");
    assert_eq!(nombre_plantilla(".html"), "");
    assert_eq!(nombre_plantilla("x.htm"), "x.htm");
}

#[test]
fn tipos_de_contenido() {
    assert_eq!(tipo_contenido("estilos.css"), "text/css");
    assert_eq!(tipo_contenido("logo.png"), "image/png");
    assert_eq!(tipo_contenido("LICENSE"), "application/octet-stream");
    assert_eq!(tipo_contenido("archivo.desconocido"), "application/octet-stream");
}

#[test]
fn un_activo_con_tres_rutas() {
    for x in ["estilos.css", "img/logo.png", ""] {
        let esperado = ruta_estatica(x);
        assert_eq!(ruta_estatica(&format!("static/{}", x)), esperado);
        assert_eq!(ruta_estatica(&format!("/{}", x)), esperado);
    }
}
