use migrador::models::documento::ValorBson;
use migrador::models::documento::{documento_bson, Documento};
use migrador::services::migrar_size_date::{
    actualizacion_tamano_fecha, evaluar_decodificado, evaluar_documento, evaluar_documento_decodificable,
    leer_documento, DocumentoMongo, ErrorCampo, Evaluacion,
};
use migrador::text::en_blanco;

fn documento(contenido: Option<&str>, registro: &str) -> DocumentoMongo {
    DocumentoMongo {
        sz_base64_obj: contenido.map(|s| s.to_string()),
        l_doc_digitalizado_id: Ok(10),
        l_cobranza_id: Ok(20),
        i_servicio_id: Ok(30),
        s_registro_dt: Ok(registro.to_string()),
    }
}

#[test]
fn sin_contenido_no_se_actualiza() {
    assert_eq!(evaluar_documento(&documento(None, "")), Evaluacion::SinContenido);
}

#[test]
fn contenido_invalido() {
    assert_eq!(evaluar_documento_decodificable(&documento(Some("@@no es base64@@"), "")), None);
}

#[test]
fn consulta_con_tamano_decodificado() {
    assert_eq!(
        evaluar_documento(&documento(Some("aGVsbG8="), "")),
        Evaluacion::Consultar { id_documento: 10, id_cobranza: 20, id_servicio: 30, tamano: 5 }
    );
}

#[test]
fn contenido_vacio_tiene_tamano_cero() {
    assert_eq!(
        evaluar_documento(&documento(Some(""), "   ")),
        Evaluacion::Consultar { id_documento: 10, id_cobranza: 20, id_servicio: 30, tamano: 0 }
    );
}

#[test]
fn registro_con_fecha_se_omite() {
    assert_eq!(evaluar_documento(&documento(Some("aGVsbG8="), "2020-01-01")), Evaluacion::ConFecha);
}

#[test]
fn registro_en_blanco_unicode_se_consulta() {
    let r = evaluar_documento(&documento(Some("aGk="), "\t\u{3000}\n"));
    assert_eq!(r, Evaluacion::Consultar { id_documento: 10, id_cobranza: 20, id_servicio: 30, tamano: 2 });
}

#[test]
fn falta_id_documento() {
    let mut d = documento(Some("aGVsbG8="), "");
    d.l_doc_digitalizado_id = Err(ErrorCampo::NoPresente);
    d.l_cobranza_id = Err(ErrorCampo::TipoInesperado);
    assert_eq!(evaluar_documento(&d), Evaluacion::CampoInvalido(ErrorCampo::NoPresente));
}

#[test]
fn falta_id_cobranza() {
    let mut d = documento(Some("aGVsbG8="), "");
    d.l_cobranza_id = Err(ErrorCampo::TipoInesperado);
    assert_eq!(evaluar_documento(&d), Evaluacion::CampoInvalido(ErrorCampo::TipoInesperado));
}

#[test]
fn falta_id_servicio() {
    let mut d = documento(Some("aGVsbG8="), "");
    d.i_servicio_id = Err(ErrorCampo::NoPresente);
    assert_eq!(evaluar_documento(&d), Evaluacion::CampoInvalido(ErrorCampo::NoPresente));
}

#[test]
fn falta_registro() {
    let mut d = documento(Some("aGVsbG8="), "");
    d.s_registro_dt = Err(ErrorCampo::TipoInesperado);
    assert_eq!(evaluar_documento(&d), Evaluacion::CampoInvalido(ErrorCampo::TipoInesperado));
}

#[test]
fn contenido_invalido_antes_que_campos() {
    let mut d = documento(Some("%%%"), "");
    d.l_doc_digitalizado_id = Err(ErrorCampo::NoPresente);
    assert_eq!(evaluar_documento_decodificable(&d), None);
}

#[test]
fn evaluar_con_bytes_dados() {
    let d = documento(Some("ignorado"), "");
    assert_eq!(
        evaluar_decodificado(&d, Some(vec![1, 2, 3])),
        Evaluacion::Consultar { id_documento: 10, id_cobranza: 20, id_servicio: 30, tamano: 3 }
    );
    assert_eq!(evaluar_decodificado(&documento(None, ""), Some(vec![1])), Evaluacion::SinContenido);
}

#[test]
fn actualizacion_con_fecha_encontrada() {
    let a = actualizacion_tamano_fecha(10, 5, Some("2021-02-03 04:05:06".to_string())).unwrap();
    assert_eq!(a.id_documento, 10);
    assert_eq!(
        a.campos,
        vec![
            ("lArchivo_sz".to_string(), ValorBson::Int32(5)),
            ("sRegistro_dt".to_string(), ValorBson::Texto("2021-02-03 04:05:06".to_string())),
        ]
    );
}

#[test]
fn sin_fecha_no_hay_actualizacion() {
    assert!(actualizacion_tamano_fecha(10, 5, None).is_none());
}

#[test]
fn texto_en_blanco() {
    assert!(en_blanco(""));
    assert!(en_blanco(" \t\r\n"));
    assert!(!en_blanco(" x "));
    assert!(!en_blanco("2020"));
}

#[test]
fn contenido_decodificable_se_evalua() {
    assert_eq!(
        evaluar_documento_decodificable(&documento(Some("aGVsbG8="), "")),
        Some(Evaluacion::Consultar { id_documento: 10, id_cobranza: 20, id_servicio: 30, tamano: 5 })
    );
    assert_eq!(evaluar_documento_decodificable(&documento(None, "")), Some(Evaluacion::SinContenido));
}

fn campo(nombre: &str, valor: ValorBson) -> (String, ValorBson) {
    (nombre.to_string(), valor)
}

#[test]
fn leer_documento_lee_cada_campo() {
    let campos = vec![
        campo("_id", ValorBson::Otro),
        campo("lDocDigitalizado_id", ValorBson::Int32(1)),
        campo("lCobranza_id", ValorBson::Int32(2)),
        campo("iServicio_id", ValorBson::Int32(3)),
        campo("szBase64_obj", ValorBson::Texto("aGk=".to_string())),
        campo("sRegistro_dt", ValorBson::Texto(String::new())),
    ];
    let d = leer_documento(&campos);
    assert_eq!(d.sz_base64_obj, Some("aGk=".to_string()));
    assert_eq!(d.l_doc_digitalizado_id, Ok(1));
    assert_eq!(d.l_cobranza_id, Ok(2));
    assert_eq!(d.i_servicio_id, Ok(3));
    assert_eq!(d.s_registro_dt, Ok(String::new()));
    assert_eq!(
        evaluar_documento(&d),
        Evaluacion::Consultar { id_documento: 1, id_cobranza: 2, id_servicio: 3, tamano: 2 }
    );
}

#[test]
fn leer_documento_campos_faltantes_o_de_otro_tipo() {
    let campos = vec![
        campo("lDocDigitalizado_id", ValorBson::Texto("1".to_string())),
        campo("iServicio_id", ValorBson::Otro),
        campo("szBase64_obj", ValorBson::Int32(4)),
    ];
    let d = leer_documento(&campos);
    assert_eq!(d.sz_base64_obj, None);
    assert_eq!(d.l_doc_digitalizado_id, Err(ErrorCampo::TipoInesperado));
    assert_eq!(d.l_cobranza_id, Err(ErrorCampo::NoPresente));
    assert_eq!(d.i_servicio_id, Err(ErrorCampo::TipoInesperado));
    assert_eq!(d.s_registro_dt, Err(ErrorCampo::NoPresente));
    assert_eq!(evaluar_documento(&d), Evaluacion::SinContenido);
}

#[test]
fn documento_migrado_se_rechaza_en_el_relleno() {
    let fila = Documento {
        l_doc_digitalizado_id: 7,
        i_servicio_id: 3,
        l_cobranza_id: 11,
        s_doc_servicio_id: "S".to_string(),
        e_doc_digitalizado_fl: "A".to_string(),
        s_doc_digitalizado_nm: "n".to_string(),
        sz_base64_obj: "aGVsbG8=".to_string(),
        e_estado_fl: "V".to_string(),
        e_migrado_fl: "N".to_string(),
    };
    let d = leer_documento(&documento_bson(&fila));
    assert_eq!(d.l_doc_digitalizado_id, Ok(7));
    assert_eq!(d.l_cobranza_id, Err(ErrorCampo::TipoInesperado));
    assert_eq!(evaluar_documento(&d), Evaluacion::CampoInvalido(ErrorCampo::TipoInesperado));
}

#[test]
fn documento_con_fecha_registrada_se_omite() {
    let campos = vec![
        campo("lDocDigitalizado_id", ValorBson::Int32(1)),
        campo("lCobranza_id", ValorBson::Int32(2)),
        campo("iServicio_id", ValorBson::Int32(3)),
        campo("szBase64_obj", ValorBson::Texto("aGk=".to_string())),
        campo("lArchivo_sz", ValorBson::Int32(2)),
        campo("sRegistro_dt", ValorBson::Texto("2023-05-01 10:00:00".to_string())),
    ];
    assert_eq!(evaluar_documento(&leer_documento(&campos)), Evaluacion::ConFecha);
}

#[test]
fn espacios_unicode() {
    assert!(en_blanco("\u{85}\u{a0}\u{1680}\u{2000}\u{200a}\u{2028}\u{2029}\u{202f}\u{205f}\u{3000}\u{b}\u{c}"));
    assert!(!en_blanco("\u{200b}"));
    assert!(!en_blanco("\u{180e}"));
}
