use migrador::configuration::{obtener_variable, validar_configuracion};

fn url() -> Option<String> {
    Some("mysql://u:p@localhost/db".to_string())
}

#[test]
fn configuracion_completa_es_valida() {
    assert!(validar_configuracion(true, &url(), &url()).is_ok());
}

#[test]
fn falta_archivo_env() {
    let e = validar_configuracion(false, &url(), &url()).unwrap_err();
    assert_eq!(e.mensaje, "El archivo .env no existe");
}

#[test]
fn falta_archivo_env_tiene_prioridad() {
    let e = validar_configuracion(false, &None, &None).unwrap_err();
    assert_eq!(e.mensaje, "El archivo .env no existe");
}

#[test]
fn falta_mysql_url() {
    let e = validar_configuracion(true, &None, &url()).unwrap_err();
    assert_eq!(e.mensaje, "La variable mysql_url no está definida en .env");
}

#[test]
fn falta_mysql_url_antes_que_mongodb_url() {
    let e = validar_configuracion(true, &None, &None).unwrap_err();
    assert_eq!(e.mensaje, "La variable mysql_url no está definida en .env");
}

#[test]
fn falta_mongodb_url() {
    let e = validar_configuracion(true, &url(), &None).unwrap_err();
    assert_eq!(e.mensaje, "La variable mongodb_url  no está definida en .env");
}

#[test]
fn obtener_variable_definida() {
    assert_eq!(obtener_variable("lote", Some("500".to_string())).ok(), Some("500".to_string()));
}

#[test]
fn obtener_variable_vacia_es_definida() {
    assert_eq!(obtener_variable("lote", Some(String::new())).ok(), Some(String::new()));
}

#[test]
fn obtener_variable_faltante() {
    let e = obtener_variable("limite_test", None).unwrap_err();
    assert_eq!(e.mensaje, "La variable limite_test no está definida en .env");
}

#[test]
fn validacion_permite_leer_urls() {
    let m = url();
    let g = Some("mongodb://localhost:27017".to_string());
    assert!(validar_configuracion(true, &m, &g).is_ok());
    assert_eq!(obtener_variable("mysql_url", m.clone()).ok(), m);
    assert_eq!(obtener_variable("mongodb_url", g.clone()).ok(), g);
}
