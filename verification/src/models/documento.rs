use vstd::prelude::*;
use crate::services::migrar_size_date::{buscar, ley_busqueda_primer_campo};

verus! {

/// A scanned document as stored in the MySQL table `tbl_docDigitalizados`.
#[derive(Debug, PartialEq, Eq)]
pub struct Documento {
    pub l_doc_digitalizado_id: i32,
    pub i_servicio_id: i32,
    pub l_cobranza_id: i64,
    pub s_doc_servicio_id: String,
    pub e_doc_digitalizado_fl: String,
    pub s_doc_digitalizado_nm: String,
    pub sz_base64_obj: String,
    pub e_estado_fl: String,
    pub e_migrado_fl: String,
}

/// A document id paired with the date of its payment (`tbl_cobranzas`).
#[derive(Debug, PartialEq, Eq)]
pub struct Cobranza {
    pub l_doc_digitalizado_id: i32,
    pub dt_cobranza_dt: String,
}

/// A value stored in a MongoDB document field.
#[derive(Debug, PartialEq, Eq)]
pub enum ValorBson {
    Int32(i32),
    Int64(i64),
    Texto(String),
    /// Any other kind of BSON value (object id, date, double, ...).
    Otro,
}

/// The mathematical view of a field value.
pub enum VistaValor {
    Int32(i32),
    Int64(i64),
    Texto(Seq<char>),
    Otro,
}

impl View for ValorBson {
    type V = VistaValor;

    open spec fn view(&self) -> VistaValor {
        match self {
            ValorBson::Int32(v) => VistaValor::Int32(*v),
            ValorBson::Int64(v) => VistaValor::Int64(*v),
            ValorBson::Texto(s) => VistaValor::Texto(s@),
            ValorBson::Otro => VistaValor::Otro,
        }
    }
}

/// The view of an ordered list of named fields.
pub open spec fn vista_campos(campos: Seq<(String, ValorBson)>) -> Seq<(Seq<char>, VistaValor)> {
    campos.map_values(|c: (String, ValorBson)| (c.0@, c.1@))
}

/// The MongoDB document that stands for a MySQL row: every column, under its
/// column name, in the table's order.
pub open spec fn campos_documento(d: Documento) -> Seq<(Seq<char>, VistaValor)> {
    seq![
        ("lDocDigitalizado_id"@, VistaValor::Int32(d.l_doc_digitalizado_id)),
        ("iServicio_id"@, VistaValor::Int32(d.i_servicio_id)),
        ("lCobranza_id"@, VistaValor::Int64(d.l_cobranza_id)),
        ("sDocServicio_id"@, VistaValor::Texto(d.s_doc_servicio_id@)),
        ("eDocDigitalizado_fl"@, VistaValor::Texto(d.e_doc_digitalizado_fl@)),
        ("sDocDigitalizado_nm"@, VistaValor::Texto(d.s_doc_digitalizado_nm@)),
        ("szBase64_obj"@, VistaValor::Texto(d.sz_base64_obj@)),
        ("eEstado_fl"@, VistaValor::Texto(d.e_estado_fl@)),
        ("eMigrado_fl"@, VistaValor::Texto(d.e_migrado_fl@)),
    ]
}

fn texto(s: &String) -> (r: ValorBson)
    ensures
        r@ == VistaValor::Texto(s@),
{
    ValorBson::Texto(s.clone())
}

/// Builds the fields of the MongoDB document for a row.
pub fn documento_bson(d: &Documento) -> (r: Vec<(String, ValorBson)>)
    ensures
        vista_campos(r@) == campos_documento(*d),
{
    let mut r: Vec<(String, ValorBson)> = Vec::new();
    r.push(("lDocDigitalizado_id".to_owned(), ValorBson::Int32(d.l_doc_digitalizado_id)));
    r.push(("iServicio_id".to_owned(), ValorBson::Int32(d.i_servicio_id)));
    r.push(("lCobranza_id".to_owned(), ValorBson::Int64(d.l_cobranza_id)));
    r.push(("sDocServicio_id".to_owned(), texto(&d.s_doc_servicio_id)));
    r.push(("eDocDigitalizado_fl".to_owned(), texto(&d.e_doc_digitalizado_fl)));
    r.push(("sDocDigitalizado_nm".to_owned(), texto(&d.s_doc_digitalizado_nm)));
    r.push(("szBase64_obj".to_owned(), texto(&d.sz_base64_obj)));
    r.push(("eEstado_fl".to_owned(), texto(&d.e_estado_fl)));
    r.push(("eMigrado_fl".to_owned(), texto(&d.e_migrado_fl)));
    assert(vista_campos(r@) =~= campos_documento(*d));
    r
}

/// Every column of a row is copied unchanged under its own name: looking a
/// column's name up in the document built for the row gives the row's value.
pub proof fn ley_columnas_copiadas(d: Documento)
    ensures
        buscar(campos_documento(d), "lDocDigitalizado_id"@) == Some(VistaValor::Int32(d.l_doc_digitalizado_id)),
        buscar(campos_documento(d), "iServicio_id"@) == Some(VistaValor::Int32(d.i_servicio_id)),
        buscar(campos_documento(d), "lCobranza_id"@) == Some(VistaValor::Int64(d.l_cobranza_id)),
        buscar(campos_documento(d), "sDocServicio_id"@) == Some(VistaValor::Texto(d.s_doc_servicio_id@)),
        buscar(campos_documento(d), "eDocDigitalizado_fl"@) == Some(VistaValor::Texto(d.e_doc_digitalizado_fl@)),
        buscar(campos_documento(d), "sDocDigitalizado_nm"@) == Some(VistaValor::Texto(d.s_doc_digitalizado_nm@)),
        buscar(campos_documento(d), "szBase64_obj"@) == Some(VistaValor::Texto(d.sz_base64_obj@)),
        buscar(campos_documento(d), "eEstado_fl"@) == Some(VistaValor::Texto(d.e_estado_fl@)),
        buscar(campos_documento(d), "eMigrado_fl"@) == Some(VistaValor::Texto(d.e_migrado_fl@)),
{
    let c = campos_documento(d);
    reveal_strlit("lDocDigitalizado_id");
    reveal_strlit("iServicio_id");
    reveal_strlit("lCobranza_id");
    reveal_strlit("sDocServicio_id");
    reveal_strlit("eDocDigitalizado_fl");
    reveal_strlit("sDocDigitalizado_nm");
    reveal_strlit("szBase64_obj");
    reveal_strlit("eEstado_fl");
    reveal_strlit("eMigrado_fl");
    assert(c[0].0 == "lDocDigitalizado_id"@);
    assert(c[1].0 == "iServicio_id"@);
    assert(c[2].0 == "lCobranza_id"@);
    assert(c[3].0 == "sDocServicio_id"@);
    assert(c[4].0 == "eDocDigitalizado_fl"@);
    assert(c[5].0 == "sDocDigitalizado_nm"@);
    assert(c[6].0 == "szBase64_obj"@);
    assert(c[7].0 == "eEstado_fl"@);
    assert(c[8].0 == "eMigrado_fl"@);
    assert(forall|j: int| 0 <= j < 0 ==> #[trigger] c[j].0 != c[0].0);
    ley_busqueda_primer_campo(c, 0);
    assert(c[0].0.len() != c[1].0.len());
    assert(forall|j: int| 0 <= j < 1 ==> #[trigger] c[j].0 != c[1].0);
    ley_busqueda_primer_campo(c, 1);
    assert(c[0].0.len() != c[2].0.len());
    assert(c[1].0[0] != c[2].0[0]);
    assert(forall|j: int| 0 <= j < 2 ==> #[trigger] c[j].0 != c[2].0);
    ley_busqueda_primer_campo(c, 2);
    assert(c[0].0.len() != c[3].0.len());
    assert(c[1].0.len() != c[3].0.len());
    assert(c[2].0.len() != c[3].0.len());
    assert(forall|j: int| 0 <= j < 3 ==> #[trigger] c[j].0 != c[3].0);
    ley_busqueda_primer_campo(c, 3);
    assert(c[0].0[0] != c[4].0[0]);
    assert(c[1].0.len() != c[4].0.len());
    assert(c[2].0.len() != c[4].0.len());
    assert(c[3].0.len() != c[4].0.len());
    assert(forall|j: int| 0 <= j < 4 ==> #[trigger] c[j].0 != c[4].0);
    ley_busqueda_primer_campo(c, 4);
    assert(c[0].0[0] != c[5].0[0]);
    assert(c[1].0.len() != c[5].0.len());
    assert(c[2].0.len() != c[5].0.len());
    assert(c[3].0.len() != c[5].0.len());
    assert(c[4].0[0] != c[5].0[0]);
    assert(forall|j: int| 0 <= j < 5 ==> #[trigger] c[j].0 != c[5].0);
    ley_busqueda_primer_campo(c, 5);
    assert(c[0].0.len() != c[6].0.len());
    assert(c[1].0[0] != c[6].0[0]);
    assert(c[2].0[0] != c[6].0[0]);
    assert(c[3].0.len() != c[6].0.len());
    assert(c[4].0.len() != c[6].0.len());
    assert(c[5].0.len() != c[6].0.len());
    assert(forall|j: int| 0 <= j < 6 ==> #[trigger] c[j].0 != c[6].0);
    ley_busqueda_primer_campo(c, 6);
    assert(c[0].0.len() != c[7].0.len());
    assert(c[1].0.len() != c[7].0.len());
    assert(c[2].0.len() != c[7].0.len());
    assert(c[3].0.len() != c[7].0.len());
    assert(c[4].0.len() != c[7].0.len());
    assert(c[5].0.len() != c[7].0.len());
    assert(c[6].0.len() != c[7].0.len());
    assert(forall|j: int| 0 <= j < 7 ==> #[trigger] c[j].0 != c[7].0);
    ley_busqueda_primer_campo(c, 7);
    assert(c[0].0.len() != c[8].0.len());
    assert(c[1].0.len() != c[8].0.len());
    assert(c[2].0.len() != c[8].0.len());
    assert(c[3].0.len() != c[8].0.len());
    assert(c[4].0.len() != c[8].0.len());
    assert(c[5].0.len() != c[8].0.len());
    assert(c[6].0.len() != c[8].0.len());
    assert(c[7].0.len() != c[8].0.len());
    assert(forall|j: int| 0 <= j < 8 ==> #[trigger] c[j].0 != c[8].0);
    ley_busqueda_primer_campo(c, 8);
}

/// An update of one MongoDB document: the document whose
/// `lDocDigitalizado_id` equals `id_documento` gets the listed fields set.
pub struct ActualizacionMongo {
    pub id_documento: i32,
    pub campos: Vec<(String, ValorBson)>,
}

} // verus!
