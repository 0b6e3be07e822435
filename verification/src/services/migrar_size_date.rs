use vstd::prelude::*;
use crate::models::documento::{
    ActualizacionMongo, Documento, ValorBson, VistaValor, campos_documento, vista_campos,
};
use crate::text::{en_blanco, en_blanco_spec, lema_digito_no_blanco};

verus! {

/// What the standard base64 engine (standard alphabet, padded) decodes a
/// text into: `None` when the text is not valid base64.
pub uninterp spec fn base64_estandar(texto: Seq<char>) -> Option<Seq<u8>>;

/// The view of an optional byte vector.
pub open spec fn vista_bytes(v: Option<Vec<u8>>) -> Option<Seq<u8>> {
    match v {
        Some(b) => Some(b@),
        None => None,
    }
}

/// Calls `Engine::decode` of the base64 crate's `general_purpose::STANDARD`
/// engine on the text's bytes. The contract names the outcome
/// (`base64_estandar`) and says nothing more of the decoding itself; a
/// decoding error is turned into `None`.
#[verifier::external_body]
fn decodificar_base64(texto: &str) -> (r: Option<Vec<u8>>)
    ensures
        vista_bytes(r) == base64_estandar(texto@),
{
    base64::Engine::decode(&base64::engine::general_purpose::STANDARD, texto).ok()
}

/// Why a field of a MongoDB document could not be read (mirrors the two
/// ways a typed field access fails: missing field, or a value of another
/// type).
#[derive(Debug, PartialEq, Eq, Clone, Copy)]
pub enum ErrorCampo {
    NoPresente,
    TipoInesperado,
}

/// The value stored under `clave` in a document's fields: the first field
/// with that name (a document holds each name at most once).
pub open spec fn buscar(campos: Seq<(Seq<char>, VistaValor)>, clave: Seq<char>) -> Option<VistaValor>
    decreases campos.len(),
{
    if campos.len() == 0 {
        None
    } else if campos[0].0 == clave {
        Some(campos[0].1)
    } else {
        buscar(campos.drop_first(), clave)
    }
}

/// Typed access to a 32-bit integer field: missing, of another type, or its
/// value.
pub open spec fn leer_entero(campos: Seq<(Seq<char>, VistaValor)>, clave: Seq<char>) -> Result<i32, ErrorCampo> {
    match buscar(campos, clave) {
        None => Err(ErrorCampo::NoPresente),
        Some(VistaValor::Int32(v)) => Ok(v),
        Some(_) => Err(ErrorCampo::TipoInesperado),
    }
}

/// Typed access to a string field: missing, of another type, or its text.
pub open spec fn leer_texto(campos: Seq<(Seq<char>, VistaValor)>, clave: Seq<char>) -> Result<Seq<char>, ErrorCampo> {
    match buscar(campos, clave) {
        None => Err(ErrorCampo::NoPresente),
        Some(VistaValor::Texto(t)) => Ok(t),
        Some(_) => Err(ErrorCampo::TipoInesperado),
    }
}

/// The fields of a MongoDB document that the size and date back-fill reads,
/// each as the typed access gave it (`sz_base64_obj` is `None` when the field
/// is missing or is not a string).
pub struct DocumentoMongo {
    pub sz_base64_obj: Option<String>,
    pub l_doc_digitalizado_id: Result<i32, ErrorCampo>,
    pub l_cobranza_id: Result<i32, ErrorCampo>,
    pub i_servicio_id: Result<i32, ErrorCampo>,
    pub s_registro_dt: Result<String, ErrorCampo>,
}

/// The view of a text read from a document.
pub open spec fn vista_texto(r: Result<String, ErrorCampo>) -> Result<Seq<char>, ErrorCampo> {
    match r {
        Ok(s) => Ok(s@),
        Err(e) => Err(e),
    }
}

/// `doc` is what the typed accesses read from a document with these fields.
pub open spec fn lectura_valida(campos: Seq<(Seq<char>, VistaValor)>, doc: DocumentoMongo) -> bool {
    &&& match doc.sz_base64_obj {
        Some(t) => leer_texto(campos, "szBase64_obj"@) == Ok::<Seq<char>, ErrorCampo>(t@),
        None => leer_texto(campos, "szBase64_obj"@) is Err,
    }
    &&& doc.l_doc_digitalizado_id == leer_entero(campos, "lDocDigitalizado_id"@)
    &&& doc.l_cobranza_id == leer_entero(campos, "lCobranza_id"@)
    &&& doc.i_servicio_id == leer_entero(campos, "iServicio_id"@)
    &&& vista_texto(doc.s_registro_dt) == leer_texto(campos, "sRegistro_dt"@)
}

fn buscar_campo<'a>(campos: &'a Vec<(String, ValorBson)>, clave: &String) -> (r: Option<&'a ValorBson>)
    ensures
        match r {
            Some(v) => buscar(vista_campos(campos@), clave@) == Some(v@),
            None => buscar(vista_campos(campos@), clave@) is None,
        },
{
    let n = campos.len();
    let mut i: usize = 0;
    assert(vista_campos(campos@).skip(0) =~= vista_campos(campos@));
    while i < n
        invariant
            n == campos@.len(),
            i <= n,
            buscar(vista_campos(campos@), clave@) == buscar(vista_campos(campos@).skip(i as int), clave@),
        decreases n - i,
    {
        let ghost resto = vista_campos(campos@).skip(i as int);
        assert(resto[0] == (campos@[i as int].0@, campos@[i as int].1@));
        assert(resto.drop_first() =~= vista_campos(campos@).skip(i + 1));
        if campos[i].0 == *clave {
            return Some(&campos[i].1);
        }
        i = i + 1;
    }
    assert(vista_campos(campos@).skip(n as int).len() == 0);
    None
}

fn leer_entero_exec(campos: &Vec<(String, ValorBson)>, clave: &String) -> (r: Result<i32, ErrorCampo>)
    ensures
        r == leer_entero(vista_campos(campos@), clave@),
{
    match buscar_campo(campos, clave) {
        None => Err(ErrorCampo::NoPresente),
        Some(ValorBson::Int32(v)) => Ok(*v),
        Some(_) => Err(ErrorCampo::TipoInesperado),
    }
}

fn leer_texto_exec(campos: &Vec<(String, ValorBson)>, clave: &String) -> (r: Result<String, ErrorCampo>)
    ensures
        vista_texto(r) == leer_texto(vista_campos(campos@), clave@),
{
    match buscar_campo(campos, clave) {
        None => Err(ErrorCampo::NoPresente),
        Some(ValorBson::Texto(t)) => Ok(t.clone()),
        Some(_) => Err(ErrorCampo::TipoInesperado),
    }
}

/// Reads the fields the back-fill needs from a document's fields, as the
/// typed accesses `get_str` and `get_i32` of a BSON document do.
pub fn leer_documento(campos: &Vec<(String, ValorBson)>) -> (r: DocumentoMongo)
    ensures
        lectura_valida(vista_campos(campos@), r),
{
    let contenido = leer_texto_exec(campos, &"szBase64_obj".to_owned());
    let sz_base64_obj = match contenido {
        Ok(t) => Some(t),
        Err(_) => None,
    };
    DocumentoMongo {
        sz_base64_obj,
        l_doc_digitalizado_id: leer_entero_exec(campos, &"lDocDigitalizado_id".to_owned()),
        l_cobranza_id: leer_entero_exec(campos, &"lCobranza_id".to_owned()),
        i_servicio_id: leer_entero_exec(campos, &"iServicio_id".to_owned()),
        s_registro_dt: leer_texto_exec(campos, &"sRegistro_dt".to_owned()),
    }
}

/// What to do with one MongoDB document.
#[derive(Debug, PartialEq, Eq)]
pub enum Evaluacion {
    /// No base64 content: nothing to update; the document counts as processed.
    SinContenido,
    /// A required field could not be read: the run stops with this error.
    CampoInvalido(ErrorCampo),
    /// The document already has a registration date: it is skipped, and it
    /// does not count as processed.
    ConFecha,
    /// Look the payment date up by (`id_cobranza`, `id_servicio`), then
    /// update the document with the content size (in decoded bytes,
    /// truncated to 32 bits) and that date.
    Consultar { id_documento: i32, id_cobranza: i32, id_servicio: i32, tamano: i32 },
}

/// The size recorded for decoded content: its length in bytes, as a 32-bit
/// integer (truncating).
pub open spec fn tamano_contenido(bytes: Seq<u8>) -> i32 {
    bytes.len() as i32
}

/// The decision for a document whose base64 content (if any) decodes to
/// `bytes`. Fields are read in this order: content, document id, payment
/// id, service id, registration date; the first that fails decides.
pub open spec fn evaluacion_esperada(doc: DocumentoMongo, bytes: Seq<u8>) -> Evaluacion {
    match doc.sz_base64_obj {
        None => Evaluacion::SinContenido,
        Some(_) => match doc.l_doc_digitalizado_id {
            Err(e) => Evaluacion::CampoInvalido(e),
            Ok(id_documento) => match doc.l_cobranza_id {
                Err(e) => Evaluacion::CampoInvalido(e),
                Ok(id_cobranza) => match doc.i_servicio_id {
                    Err(e) => Evaluacion::CampoInvalido(e),
                    Ok(id_servicio) => match doc.s_registro_dt {
                        Err(e) => Evaluacion::CampoInvalido(e),
                        Ok(fecha) => if !en_blanco_spec(fecha@) {
                            Evaluacion::ConFecha
                        } else {
                            Evaluacion::Consultar {
                                id_documento,
                                id_cobranza,
                                id_servicio,
                                tamano: tamano_contenido(bytes),
                            }
                        },
                    },
                },
            },
        },
    }
}

/// The document has no base64 content, or its content decodes.
pub open spec fn contenido_decodificable(doc: DocumentoMongo) -> bool {
    match doc.sz_base64_obj {
        Some(s) => base64_estandar(s@) is Some,
        None => true,
    }
}

/// What the document's base64 content decodes to (empty when it has none).
pub open spec fn decodificado_de(doc: DocumentoMongo) -> Seq<u8> {
    match doc.sz_base64_obj {
        Some(s) => match base64_estandar(s@) {
            Some(b) => b,
            None => Seq::empty(),
        },
        None => Seq::empty(),
    }
}

/// The bytes handed over, empty when none were.
pub open spec fn bytes_o_vacio(v: Option<Vec<u8>>) -> Seq<u8> {
    match v {
        Some(b) => b@,
        None => Seq::empty(),
    }
}

/// Decides what to do with a document, given the decoding of its base64
/// content. A document whose content does not decode stops the whole
/// back-fill, so its decoding must be given whenever it has content.
pub fn evaluar_decodificado(doc: &DocumentoMongo, decodificado: Option<Vec<u8>>) -> (r: Evaluacion)
    requires
        doc.sz_base64_obj is Some ==> decodificado is Some,
    ensures
        r == evaluacion_esperada(*doc, bytes_o_vacio(decodificado)),
        r matches Evaluacion::Consultar { tamano, .. } ==> (bytes_o_vacio(decodificado).len() <= i32::MAX
            ==> tamano as int == bytes_o_vacio(decodificado).len()),
        r matches Evaluacion::Consultar { id_documento, id_cobranza, id_servicio, .. } ==> (
        doc.l_doc_digitalizado_id == Ok::<i32, ErrorCampo>(id_documento) && doc.l_cobranza_id == Ok::<
            i32,
            ErrorCampo,
        >(id_cobranza) && doc.i_servicio_id == Ok::<i32, ErrorCampo>(id_servicio)),
{
    if doc.sz_base64_obj.is_none() {
        return Evaluacion::SinContenido;
    }
    let bytes = match decodificado {
        None => { return Evaluacion::SinContenido; },
        Some(b) => b,
    };
    let tamano = bytes.len() as i32;
    let id_documento = match &doc.l_doc_digitalizado_id {
        Err(e) => { return Evaluacion::CampoInvalido(*e); },
        Ok(v) => *v,
    };
    let id_cobranza = match &doc.l_cobranza_id {
        Err(e) => { return Evaluacion::CampoInvalido(*e); },
        Ok(v) => *v,
    };
    let id_servicio = match &doc.i_servicio_id {
        Err(e) => { return Evaluacion::CampoInvalido(*e); },
        Ok(v) => *v,
    };
    match &doc.s_registro_dt {
        Err(e) => Evaluacion::CampoInvalido(*e),
        Ok(fecha) => {
            if !en_blanco(fecha.as_str()) {
                Evaluacion::ConFecha
            } else {
                Evaluacion::Consultar { id_documento, id_cobranza, id_servicio, tamano }
            }
        },
    }
}

/// Decides what to do with a document whose base64 content (if any)
/// decodes: decodes it with the standard engine, then decides as
/// `evaluar_decodificado` does.
pub fn evaluar_documento(doc: &DocumentoMongo) -> (r: Evaluacion)
    requires
        contenido_decodificable(*doc),
    ensures
        r == evaluacion_esperada(*doc, decodificado_de(*doc)),
        r matches Evaluacion::Consultar { tamano, .. } ==> (decodificado_de(*doc).len() <= i32::MAX
            ==> tamano as int == decodificado_de(*doc).len()),
{
    match &doc.sz_base64_obj {
        None => Evaluacion::SinContenido,
        Some(s) => {
            let decodificado = decodificar_base64(s.as_str());
            evaluar_decodificado(doc, decodificado)
        },
    }
}

/// Decides what to do with any document: `None` exactly when its base64
/// content does not decode, the case in which the back-fill cannot go on;
/// otherwise the decision of `evaluar_documento`.
pub fn evaluar_documento_decodificable(doc: &DocumentoMongo) -> (r: Option<Evaluacion>)
    ensures
        r is None <==> !contenido_decodificable(*doc),
        r matches Some(e) ==> e == evaluacion_esperada(*doc, decodificado_de(*doc)),
{
    if let Some(s) = &doc.sz_base64_obj {
        if decodificar_base64(s.as_str()).is_none() {
            return None;
        }
    }
    Some(evaluar_documento(doc))
}

/// The update of a document once its payment date is known: none when no
/// date was found; otherwise `lArchivo_sz` and `sRegistro_dt` are set, in
/// that order, on the document with that id.
pub open spec fn actualizacion_tamano_valida(
    id_documento: i32,
    tamano: i32,
    fecha: Option<Seq<char>>,
    r: Option<ActualizacionMongo>,
) -> bool {
    match fecha {
        None => r is None,
        Some(f) => r matches Some(a) && a.id_documento == id_documento && vista_campos(a.campos@)
            == seq![("lArchivo_sz"@, VistaValor::Int32(tamano)), ("sRegistro_dt"@, VistaValor::Texto(f))],
    }
}

/// Builds the size and date update of a document from the looked-up date.
pub fn actualizacion_tamano_fecha(id_documento: i32, tamano: i32, fecha: Option<String>) -> (r: Option<ActualizacionMongo>)
    ensures
        actualizacion_tamano_valida(
            id_documento,
            tamano,
            match fecha {
                Some(f) => Some(f@),
                None => None,
            },
            r,
        ),
        fecha is None ==> r is None,
        fecha is Some ==> (r matches Some(a) && a.id_documento == id_documento),
        r matches Some(a) ==> (a.campos@.len() == 2 && a.campos@[0].0@ == "lArchivo_sz"@
            && a.campos@[0].1 == ValorBson::Int32(tamano) && a.campos@[1].0@ == "sRegistro_dt"@),
        r matches Some(a) ==> (fecha matches Some(f) && a.campos@[1].1@ == VistaValor::Texto(f@)),
{
    match fecha {
        None => None,
        Some(f) => {
            let ghost vf = f@;
            let mut campos: Vec<(String, ValorBson)> = Vec::new();
            campos.push(("lArchivo_sz".to_owned(), ValorBson::Int32(tamano)));
            campos.push(("sRegistro_dt".to_owned(), ValorBson::Texto(f)));
            assert(vista_campos(campos@) =~= seq![("lArchivo_sz"@, VistaValor::Int32(tamano)), ("sRegistro_dt"@, VistaValor::Texto(vf))]);
            Some(ActualizacionMongo { id_documento, campos })
        },
    }
}

/// A document that already holds a payment date is skipped by a later pass:
/// the dates are written formatted as `%Y-%m-%d %H:%i:%s`, so they start with
/// a digit and are not blank. Hence running the back-fill again leaves the
/// documents it dated untouched.
pub proof fn ley_documento_con_fecha_se_omite(
    campos: Seq<(Seq<char>, VistaValor)>,
    doc: DocumentoMongo,
    fecha: Seq<char>,
    bytes: Seq<u8>,
)
    requires
        lectura_valida(campos, doc),
        buscar(campos, "sRegistro_dt"@) == Some(VistaValor::Texto(fecha)),
        fecha.len() > 0,
        '0' <= fecha[0] <= '9',
        doc.sz_base64_obj is Some,
        doc.l_doc_digitalizado_id is Ok,
        doc.l_cobranza_id is Ok,
        doc.i_servicio_id is Ok,
    ensures
        evaluacion_esperada(doc, bytes) == Evaluacion::ConFecha,
{
    lema_digito_no_blanco(fecha, 0);
    assert(vista_texto(doc.s_registro_dt) == Ok::<Seq<char>, ErrorCampo>(fecha));
}

/// A document written by the migration (`documento_bson`) cannot be filled in
/// by the back-fill: it stores `lCobranza_id` as a 64-bit integer, which the
/// 32-bit typed access refuses, so (whenever its content decodes) the
/// back-fill stops on it with a type error and changes nothing.
pub proof fn ley_documento_migrado_rechazado(d: Documento, doc: DocumentoMongo, bytes: Seq<u8>)
    requires
        lectura_valida(campos_documento(d), doc),
    ensures
        doc.sz_base64_obj is Some,
        doc.l_doc_digitalizado_id == Ok::<i32, ErrorCampo>(d.l_doc_digitalizado_id),
        doc.l_cobranza_id == Err::<i32, ErrorCampo>(ErrorCampo::TipoInesperado),
        evaluacion_esperada(doc, bytes) == Evaluacion::CampoInvalido(ErrorCampo::TipoInesperado),
{
    reveal_strlit("lDocDigitalizado_id");
    reveal_strlit("iServicio_id");
    reveal_strlit("lCobranza_id");
    reveal_strlit("sDocServicio_id");
    reveal_strlit("eDocDigitalizado_fl");
    reveal_strlit("sDocDigitalizado_nm");
    reveal_strlit("szBase64_obj");
    let c = campos_documento(d);
    assert(c[0].0 == "lDocDigitalizado_id"@);
    assert(c[0].0[0] != "szBase64_obj"@[0]);
    assert(c[1].0 == "iServicio_id"@);
    assert(c[1].0[0] != "szBase64_obj"@[0]);
    assert(c[2].0 == "lCobranza_id"@);
    assert(c[2].0[0] != "szBase64_obj"@[0]);
    assert(c[3].0 == "sDocServicio_id"@);
    assert(c[3].0[1] != "szBase64_obj"@[1]);
    assert(c[4].0 == "eDocDigitalizado_fl"@);
    assert(c[4].0[0] != "szBase64_obj"@[0]);
    assert(c[5].0 == "sDocDigitalizado_nm"@);
    assert(c[5].0[1] != "szBase64_obj"@[1]);
    let c1 = c.drop_first();
    let c2 = c1.drop_first();
    let c3 = c2.drop_first();
    let c4 = c3.drop_first();
    let c5 = c4.drop_first();
    let c6 = c5.drop_first();
    assert(c1[0] == c[1]);
    assert(c2[0] == c[2]);
    assert(c3[0] == c[3]);
    assert(c4[0] == c[4]);
    assert(c5[0] == c[5]);
    assert(c6[0] == c[6]);
    let k = "szBase64_obj"@;
    assert(buscar(c6, k) == Some(VistaValor::Texto(d.sz_base64_obj@)));
    assert(buscar(c5, k) == buscar(c6, k));
    assert(buscar(c4, k) == buscar(c5, k));
    assert(buscar(c3, k) == buscar(c4, k));
    assert(buscar(c2, k) == buscar(c3, k));
    assert(buscar(c1, k) == buscar(c2, k));
    assert(buscar(c, k) == buscar(c1, k));
    assert(buscar(c, "lDocDigitalizado_id"@) == Some(VistaValor::Int32(d.l_doc_digitalizado_id)));
    assert(c[0].0[1] != "lCobranza_id"@[1]);
    assert(c[1].0[0] != "lCobranza_id"@[0]);
    let kc = "lCobranza_id"@;
    assert(buscar(c2, kc) == Some(VistaValor::Int64(d.l_cobranza_id)));
    assert(buscar(c1, kc) == buscar(c2, kc));
    assert(buscar(c, kc) == buscar(c1, kc));
    assert(buscar(c, "lCobranza_id"@) == Some(VistaValor::Int64(d.l_cobranza_id)));
}

/// The size recorded for a document is the number of bytes its content
/// decodes to (whenever that number fits in 32 bits).
pub proof fn ley_tamano_es_longitud_decodificada(doc: DocumentoMongo, bytes: Seq<u8>)
    requires
        bytes.len() <= i32::MAX,
    ensures
        evaluacion_esperada(doc, bytes) matches Evaluacion::Consultar { tamano, .. } ==> tamano as int
            == bytes.len(),
{
}

/// What each decision says of the document it was taken on: no content
/// means nothing to do; a lookup uses the document's own ids and is taken
/// only when no date is recorded; a skip happens only when a non-blank date
/// is recorded and every id reads; a stop reports the error of the first
/// field, in reading order, that could not be read.
pub proof fn ley_decision_por_documento(doc: DocumentoMongo, bytes: Seq<u8>)
    ensures
        doc.sz_base64_obj is None ==> evaluacion_esperada(doc, bytes) == Evaluacion::SinContenido,
        evaluacion_esperada(doc, bytes) == Evaluacion::SinContenido ==> doc.sz_base64_obj is None,
        evaluacion_esperada(doc, bytes) matches Evaluacion::Consultar { id_documento, id_cobranza, id_servicio, .. }
            ==> (doc.sz_base64_obj is Some && doc.l_doc_digitalizado_id == Ok::<i32, ErrorCampo>(id_documento)
            && doc.l_cobranza_id == Ok::<i32, ErrorCampo>(id_cobranza) && doc.i_servicio_id == Ok::<
            i32,
            ErrorCampo,
        >(id_servicio) && (doc.s_registro_dt matches Ok(f) && en_blanco_spec(f@))),
        evaluacion_esperada(doc, bytes) == Evaluacion::ConFecha ==> (doc.sz_base64_obj is Some
            && doc.l_doc_digitalizado_id is Ok && doc.l_cobranza_id is Ok && doc.i_servicio_id is Ok && (
        doc.s_registro_dt matches Ok(f) && !en_blanco_spec(f@))),
        evaluacion_esperada(doc, bytes) matches Evaluacion::CampoInvalido(e) ==> (doc.sz_base64_obj is Some && (
        doc.l_doc_digitalizado_id == Err::<i32, ErrorCampo>(e) || (doc.l_doc_digitalizado_id is Ok
            && doc.l_cobranza_id == Err::<i32, ErrorCampo>(e)) || (doc.l_doc_digitalizado_id is Ok
            && doc.l_cobranza_id is Ok && doc.i_servicio_id == Err::<i32, ErrorCampo>(e)) || (
        doc.l_doc_digitalizado_id is Ok && doc.l_cobranza_id is Ok && doc.i_servicio_id is Ok
            && doc.s_registro_dt == Err::<String, ErrorCampo>(e)))),
{
}

/// The size-and-date update goes to the document it was built for and sets
/// exactly `lArchivo_sz` to the size and `sRegistro_dt` to the date found;
/// no date found means no update.
pub proof fn ley_actualizacion_tamano_dirigida(
    id_documento: i32,
    tamano: i32,
    fecha: Option<Seq<char>>,
    r: Option<ActualizacionMongo>,
)
    requires
        actualizacion_tamano_valida(id_documento, tamano, fecha, r),
    ensures
        fecha is None <==> r is None,
        r matches Some(a) ==> (a.id_documento == id_documento && a.campos@.len() == 2 && a.campos@[0].0@
            == "lArchivo_sz"@ && a.campos@[0].1@ == VistaValor::Int32(tamano) && a.campos@[1].0@
            == "sRegistro_dt"@ && (fecha matches Some(f) && a.campos@[1].1@ == VistaValor::Texto(f))),
{
    if let Some(a) = r {
        if let Some(f) = fecha {
            assert(vista_campos(a.campos@).len() == 2);
            assert(a.campos@.len() == 2);
            assert(vista_campos(a.campos@)[0] == (a.campos@[0].0@, a.campos@[0].1@));
            assert(vista_campos(a.campos@)[1] == (a.campos@[1].0@, a.campos@[1].1@));
        }
    }
}

/// Typed access reads a field of the asked type as its value, and reports a
/// missing field as not present and a field of another type as such.
pub proof fn ley_lectura_tipada(campos: Seq<(Seq<char>, VistaValor)>, clave: Seq<char>)
    ensures
        buscar(campos, clave) is None ==> leer_entero(campos, clave) == Err::<i32, ErrorCampo>(
            ErrorCampo::NoPresente,
        ) && leer_texto(campos, clave) == Err::<Seq<char>, ErrorCampo>(ErrorCampo::NoPresente),
        buscar(campos, clave) matches Some(VistaValor::Int32(v)) ==> leer_entero(campos, clave) == Ok::<
            i32,
            ErrorCampo,
        >(v) && leer_texto(campos, clave) == Err::<Seq<char>, ErrorCampo>(ErrorCampo::TipoInesperado),
        buscar(campos, clave) matches Some(VistaValor::Texto(t)) ==> leer_texto(campos, clave) == Ok::<
            Seq<char>,
            ErrorCampo,
        >(t) && leer_entero(campos, clave) == Err::<i32, ErrorCampo>(ErrorCampo::TipoInesperado),
        buscar(campos, clave) matches Some(VistaValor::Int64(_)) ==> leer_entero(campos, clave) == Err::<
            i32,
            ErrorCampo,
        >(ErrorCampo::TipoInesperado),
        buscar(campos, clave) == Some(VistaValor::Otro) ==> leer_entero(campos, clave) == Err::<i32, ErrorCampo>(
            ErrorCampo::TipoInesperado,
        ) && leer_texto(campos, clave) == Err::<Seq<char>, ErrorCampo>(ErrorCampo::TipoInesperado),
{
}

/// A field is found under its own name when no earlier field has that name.
pub proof fn ley_busqueda_primer_campo(campos: Seq<(Seq<char>, VistaValor)>, k: int)
    requires
        0 <= k < campos.len(),
        forall|j: int| 0 <= j < k ==> #[trigger] campos[j].0 != campos[k].0,
    ensures
        buscar(campos, campos[k].0) == Some(campos[k].1),
    decreases k,
{
    if k > 0 {
        let resto = campos.drop_first();
        assert forall|j: int| 0 <= j < k - 1 implies #[trigger] resto[j].0 != resto[k - 1].0 by {
            assert(resto[j] == campos[j + 1]);
        }
        assert(resto[k - 1] == campos[k]);
        assert(campos[0].0 != campos[k].0);
        ley_busqueda_primer_campo(resto, k - 1);
    }
}

/// Each field of the back-fill is read from the document field of its own
/// name: a missing field is reported as not present, and a field of the
/// right type gives its value unchanged.
pub proof fn ley_lectura_por_nombre(campos: Seq<(Seq<char>, VistaValor)>, doc: DocumentoMongo)
    requires
        lectura_valida(campos, doc),
    ensures
        buscar(campos, "lDocDigitalizado_id"@) is None ==> doc.l_doc_digitalizado_id == Err::<i32, ErrorCampo>(ErrorCampo::NoPresente),
        buscar(campos, "lDocDigitalizado_id"@) matches Some(VistaValor::Int32(v)) ==> doc.l_doc_digitalizado_id == Ok::<i32, ErrorCampo>(v),
        buscar(campos, "lCobranza_id"@) is None ==> doc.l_cobranza_id == Err::<i32, ErrorCampo>(ErrorCampo::NoPresente),
        buscar(campos, "lCobranza_id"@) matches Some(VistaValor::Int32(v)) ==> doc.l_cobranza_id == Ok::<i32, ErrorCampo>(v),
        buscar(campos, "iServicio_id"@) is None ==> doc.i_servicio_id == Err::<i32, ErrorCampo>(ErrorCampo::NoPresente),
        buscar(campos, "iServicio_id"@) matches Some(VistaValor::Int32(v)) ==> doc.i_servicio_id == Ok::<i32, ErrorCampo>(v),
        buscar(campos, "szBase64_obj"@) matches Some(VistaValor::Texto(t)) ==> (doc.sz_base64_obj matches Some(x)
            && x@ == t),
        buscar(campos, "szBase64_obj"@) is None ==> doc.sz_base64_obj is None,
        buscar(campos, "sRegistro_dt"@) matches Some(VistaValor::Texto(t)) ==> (doc.s_registro_dt matches Ok(x)
            && x@ == t),
        buscar(campos, "sRegistro_dt"@) is None ==> doc.s_registro_dt == Err::<String, ErrorCampo>(
            ErrorCampo::NoPresente,
        ),
{
}

} // verus!
