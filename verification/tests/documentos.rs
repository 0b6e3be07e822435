use migrador::models::documento::{documento_bson, Cobranza, Documento, ValorBson};
use migrador::services::migrar_date::{actualizacion_fecha, actualizaciones_fecha};

fn ejemplo() -> Documento {
    Documento {
        l_doc_digitalizado_id: 7,
        i_servicio_id: 3,
        l_cobranza_id: 9_000_000_000,
        s_doc_servicio_id: "SRV-1".to_string(),
        e_doc_digitalizado_fl: "A".to_string(),
        s_doc_digitalizado_nm: "recibo.pdf".to_string(),
        sz_base64_obj: "aGVsbG8=".to_string(),
        e_estado_fl: "V".to_string(),
        e_migrado_fl: "N".to_string(),
    }
}

fn campo(nombre: &str, valor: ValorBson) -> (String, ValorBson) {
    (nombre.to_string(), valor)
}

#[test]
fn documento_bson_tiene_todas_las_columnas_en_orden() {
    let campos = documento_bson(&ejemplo());
    let esperado = vec![
        campo("lDocDigitalizado_id", ValorBson::Int32(7)),
        campo("iServicio_id", ValorBson::Int32(3)),
        campo("lCobranza_id", ValorBson::Int64(9_000_000_000)),
        campo("sDocServicio_id", ValorBson::Texto("SRV-1".to_string())),
        campo("eDocDigitalizado_fl", ValorBson::Texto("A".to_string())),
        campo("sDocDigitalizado_nm", ValorBson::Texto("recibo.pdf".to_string())),
        campo("szBase64_obj", ValorBson::Texto("aGVsbG8=".to_string())),
        campo("eEstado_fl", ValorBson::Texto("V".to_string())),
        campo("eMigrado_fl", ValorBson::Texto("N".to_string())),
    ];
    assert_eq!(campos, esperado);
}

#[test]
fn actualizacion_de_fecha() {
    let c = Cobranza { l_doc_digitalizado_id: 42, dt_cobranza_dt: "2023-05-01 10:00:00".to_string() };
    let a = actualizacion_fecha(&c);
    assert_eq!(a.id_documento, 42);
    assert_eq!(a.campos, vec![campo("sRegistro_dt", ValorBson::Texto("2023-05-01 10:00:00".to_string()))]);
}

#[test]
fn actualizaciones_de_fecha_en_orden() {
    let cs = vec![
        Cobranza { l_doc_digitalizado_id: 2, dt_cobranza_dt: "b".to_string() },
        Cobranza { l_doc_digitalizado_id: 1, dt_cobranza_dt: "a".to_string() },
    ];
    let r = actualizaciones_fecha(&cs);
    assert_eq!(r.len(), 2);
    assert_eq!(r[0].id_documento, 2);
    assert_eq!(r[0].campos, vec![campo("sRegistro_dt", ValorBson::Texto("b".to_string()))]);
    assert_eq!(r[1].id_documento, 1);
    assert_eq!(r[1].campos, vec![campo("sRegistro_dt", ValorBson::Texto("a".to_string()))]);
}

#[test]
fn actualizaciones_de_fecha_sin_filas() {
    assert!(actualizaciones_fecha(&Vec::new()).is_empty());
}
