use vstd::prelude::*;
use crate::models::documento::{ActualizacionMongo, Cobranza, ValorBson, VistaValor, vista_campos};

verus! {

/// The update that records the payment date of a document: the document
/// with the same id gets `sRegistro_dt` set to the date.
pub open spec fn actualizacion_fecha_valida(c: Cobranza, a: ActualizacionMongo) -> bool {
    &&& a.id_documento == c.l_doc_digitalizado_id
    &&& vista_campos(a.campos@) == seq![("sRegistro_dt"@, VistaValor::Texto(c.dt_cobranza_dt@))]
}

/// Builds the date update for one document.
pub fn actualizacion_fecha(c: &Cobranza) -> (a: ActualizacionMongo)
    ensures
        actualizacion_fecha_valida(*c, a),
        a.id_documento == c.l_doc_digitalizado_id,
        a.campos@.len() == 1,
        a.campos@[0].0@ == "sRegistro_dt"@,
        a.campos@[0].1@ == VistaValor::Texto(c.dt_cobranza_dt@),
{
    let mut campos: Vec<(String, ValorBson)> = Vec::new();
    campos.push(("sRegistro_dt".to_owned(), ValorBson::Texto(c.dt_cobranza_dt.clone())));
    let a = ActualizacionMongo { id_documento: c.l_doc_digitalizado_id, campos };
    assert(vista_campos(a.campos@) =~= seq![("sRegistro_dt"@, VistaValor::Texto(c.dt_cobranza_dt@))]);
    assert(vista_campos(a.campos@)[0] == (a.campos@[0].0@, a.campos@[0].1@));
    a
}

/// Builds the date updates for all documents, one per entry and in the same
/// order, so that they are applied in the order the query returned them.
pub fn actualizaciones_fecha(cobranzas: &Vec<Cobranza>) -> (r: Vec<ActualizacionMongo>)
    ensures
        r@.len() == cobranzas@.len(),
        forall|i: int|
            0 <= i < r@.len() ==> actualizacion_fecha_valida(cobranzas@[i], #[trigger] r@[i]),
        forall|i: int|
            0 <= i < r@.len() ==> (#[trigger] r@[i]).id_documento == cobranzas@[i].l_doc_digitalizado_id,
{
    let mut r: Vec<ActualizacionMongo> = Vec::new();
    let n = cobranzas.len();
    let mut i: usize = 0;
    while i < n
        invariant
            n == cobranzas@.len(),
            i <= n,
            r@.len() == i,
            forall|j: int|
                0 <= j < i ==> actualizacion_fecha_valida(cobranzas@[j], #[trigger] r@[j]),
        decreases n - i,
    {
        let a = actualizacion_fecha(&cobranzas[i]);
        r.push(a);
        i = i + 1;
    }
    r
}

/// A date update goes to the document of its payment row and sets exactly
/// `sRegistro_dt` to that row's date, unchanged.
pub proof fn ley_actualizacion_fecha_dirigida(c: Cobranza, a: ActualizacionMongo)
    requires
        actualizacion_fecha_valida(c, a),
    ensures
        a.id_documento == c.l_doc_digitalizado_id,
        a.campos@.len() == 1,
        a.campos@[0].0@ == "sRegistro_dt"@,
        a.campos@[0].1@ == VistaValor::Texto(c.dt_cobranza_dt@),
{
    assert(vista_campos(a.campos@).len() == 1);
    assert(vista_campos(a.campos@)[0] == (a.campos@[0].0@, a.campos@[0].1@));
}

} // verus!
