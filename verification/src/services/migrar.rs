use vstd::prelude::*;

verus! {

/// Where a migration run stands.
#[derive(Debug, Clone, Copy, PartialEq, Eq)]
pub enum FaseMigracion {
    /// Connecting, counting the pending rows and reading them.
    Preparando,
    /// The document of row `indice` is being inserted into MongoDB.
    Insertando,
    /// Row `indice` is being marked as migrated in MySQL.
    Marcando,
    /// The id of row `indice` is being appended to the log of migrated ids.
    Registrando,
    /// The separator line is being appended to the log.
    Separando,
    /// The run finished.
    Terminada,
    /// The run stopped on an error.
    Fallida,
}

/// The state of a migration run: its phase, the row at hand, how many rows
/// were read, and how many pending rows were counted beforehand.
#[derive(Debug, Clone, Copy, PartialEq, Eq)]
pub struct EstadoMigracion {
    pub fase: FaseMigracion,
    pub indice: usize,
    pub filas: usize,
    pub conteo: i64,
}

/// What the outside world reports back to the run.
#[derive(Debug, Clone, Copy, PartialEq, Eq)]
pub enum EventoMigracion {
    /// The pending rows were counted (`conteo`) and read (`filas` of them).
    Preparada { conteo: i64, filas: usize },
    /// The last requested action succeeded.
    Hecho,
    /// The last requested action failed.
    Fallo,
}

/// What the run asks the outside world to do next.
#[derive(Debug, Clone, Copy, PartialEq, Eq)]
pub enum AccionMigracion {
    /// Insert the MongoDB document of row `i`.
    InsertarDocumento(usize),
    /// Mark row `i` as migrated (`eMigrado_fl = 'S'`) in MySQL.
    MarcarMigrado(usize),
    /// Append the id of row `i` to the log and advance the progress bar.
    RegistrarId(usize),
    /// Append the separator line to the log.
    EscribirSeparacion,
    /// Finish the progress bar; the run succeeded.
    Finalizar,
    /// Stop; the run failed with the error just reported.
    Abortar,
    /// Nothing to do (the event did not fit the state).
    Ninguna,
}

/// The state a run starts in.
pub open spec fn inicio_spec() -> EstadoMigracion {
    EstadoMigracion { fase: FaseMigracion::Preparando, indice: 0, filas: 0, conteo: 0 }
}

/// After the last row: the separator is written when rows were counted,
/// otherwise the run finishes at once.
pub open spec fn cierre(s: EstadoMigracion) -> (EstadoMigracion, AccionMigracion) {
    if s.conteo > 0 {
        (EstadoMigracion { fase: FaseMigracion::Separando, ..s }, AccionMigracion::EscribirSeparacion)
    } else {
        (EstadoMigracion { fase: FaseMigracion::Terminada, ..s }, AccionMigracion::Finalizar)
    }
}

/// Whether a failure of the pending action stops the run with an error: the
/// preparation, an insert into MongoDB, or a mark in MySQL. A failure to
/// write the log of ids or the separator is not reported to the run: the
/// program cannot go on after it.
pub open spec fn puede_fallar(f: FaseMigracion) -> bool {
    f == FaseMigracion::Preparando || f == FaseMigracion::Insertando || f == FaseMigracion::Marcando
}

/// The events a run can receive: anything but a failure of a log write.
pub open spec fn evento_admisible(s: EstadoMigracion, e: EventoMigracion) -> bool {
    e == EventoMigracion::Fallo ==> puede_fallar(s.fase) || s.fase == FaseMigracion::Terminada
        || s.fase == FaseMigracion::Fallida
}

/// One step of the run. For each row, in order: insert its document, then
/// mark it migrated, then log its id; a failed preparation, insert or mark
/// stops the run.
pub open spec fn paso_spec(s: EstadoMigracion, e: EventoMigracion) -> (EstadoMigracion, AccionMigracion) {
    if puede_fallar(s.fase) && e == EventoMigracion::Fallo {
        (EstadoMigracion { fase: FaseMigracion::Fallida, ..s }, AccionMigracion::Abortar)
    } else {
        match s.fase {
            FaseMigracion::Preparando => match e {
                EventoMigracion::Preparada { conteo, filas } => {
                    let s2 = EstadoMigracion { fase: FaseMigracion::Insertando, indice: 0, filas, conteo };
                    if filas > 0 {
                        (s2, AccionMigracion::InsertarDocumento(0))
                    } else {
                        cierre(s2)
                    }
                },
                _ => (s, AccionMigracion::Ninguna),
            },
            FaseMigracion::Insertando => if e == EventoMigracion::Hecho {
                (EstadoMigracion { fase: FaseMigracion::Marcando, ..s }, AccionMigracion::MarcarMigrado(s.indice))
            } else {
                (s, AccionMigracion::Ninguna)
            },
            FaseMigracion::Marcando => if e == EventoMigracion::Hecho {
                (EstadoMigracion { fase: FaseMigracion::Registrando, ..s }, AccionMigracion::RegistrarId(s.indice))
            } else {
                (s, AccionMigracion::Ninguna)
            },
            FaseMigracion::Registrando => if e == EventoMigracion::Hecho {
                if s.indice + 1 < s.filas {
                    (
                        EstadoMigracion { fase: FaseMigracion::Insertando, indice: (s.indice + 1) as usize, ..s },
                        AccionMigracion::InsertarDocumento((s.indice + 1) as usize),
                    )
                } else {
                    cierre(s)
                }
            } else {
                (s, AccionMigracion::Ninguna)
            },
            FaseMigracion::Separando => if e == EventoMigracion::Hecho {
                (EstadoMigracion { fase: FaseMigracion::Terminada, ..s }, AccionMigracion::Finalizar)
            } else {
                (s, AccionMigracion::Ninguna)
            },
            _ => (s, AccionMigracion::Ninguna),
        }
    }
}

/// The state a migration run starts in.
pub fn inicio_migracion() -> (s: EstadoMigracion)
    ensures
        s == inicio_spec(),
{
    EstadoMigracion { fase: FaseMigracion::Preparando, indice: 0, filas: 0, conteo: 0 }
}

fn cierre_exec(s: EstadoMigracion) -> (r: (EstadoMigracion, AccionMigracion))
    ensures
        r == cierre(s),
{
    if s.conteo > 0 {
        (EstadoMigracion { fase: FaseMigracion::Separando, ..s }, AccionMigracion::EscribirSeparacion)
    } else {
        (EstadoMigracion { fase: FaseMigracion::Terminada, ..s }, AccionMigracion::Finalizar)
    }
}

fn es_hecho(e: EventoMigracion) -> (r: bool)
    ensures
        r == (e == EventoMigracion::Hecho),
{
    match e {
        EventoMigracion::Hecho => true,
        _ => false,
    }
}

/// Advances a migration run by one event: returns the next state and the
/// action to perform. A failure to write the log of ids or the separator
/// ends the program rather than the run, so it is never reported here.
pub fn paso_migracion(s: EstadoMigracion, e: EventoMigracion) -> (r: (EstadoMigracion, AccionMigracion))
    requires
        evento_admisible(s, e),
    ensures
        r == paso_spec(s, e),
{
    let puede_fallar = match s.fase {
        FaseMigracion::Preparando | FaseMigracion::Insertando | FaseMigracion::Marcando => true,
        _ => false,
    };
    if puede_fallar {
        if let EventoMigracion::Fallo = e {
            return (EstadoMigracion { fase: FaseMigracion::Fallida, ..s }, AccionMigracion::Abortar);
        }
    }
    match s.fase {
        FaseMigracion::Preparando => match e {
            EventoMigracion::Preparada { conteo, filas } => {
                let s2 = EstadoMigracion { fase: FaseMigracion::Insertando, indice: 0, filas, conteo };
                if filas > 0 {
                    (s2, AccionMigracion::InsertarDocumento(0))
                } else {
                    cierre_exec(s2)
                }
            },
            _ => (s, AccionMigracion::Ninguna),
        },
        FaseMigracion::Insertando => if es_hecho(e) {
            (EstadoMigracion { fase: FaseMigracion::Marcando, ..s }, AccionMigracion::MarcarMigrado(s.indice))
        } else {
            (s, AccionMigracion::Ninguna)
        },
        FaseMigracion::Marcando => if es_hecho(e) {
            (EstadoMigracion { fase: FaseMigracion::Registrando, ..s }, AccionMigracion::RegistrarId(s.indice))
        } else {
            (s, AccionMigracion::Ninguna)
        },
        FaseMigracion::Registrando => if es_hecho(e) {
            if s.filas > 0 && s.indice < s.filas - 1 {
                let siguiente = s.indice + 1;
                (
                    EstadoMigracion { fase: FaseMigracion::Insertando, indice: siguiente, ..s },
                    AccionMigracion::InsertarDocumento(siguiente),
                )
            } else {
                cierre_exec(s)
            }
        } else {
            (s, AccionMigracion::Ninguna)
        },
        FaseMigracion::Separando => if es_hecho(e) {
            (EstadoMigracion { fase: FaseMigracion::Terminada, ..s }, AccionMigracion::Finalizar)
        } else {
            (s, AccionMigracion::Ninguna)
        },
        _ => (s, AccionMigracion::Ninguna),
    }
}

/// Runs the machine over a sequence of events: the final state and the
/// actions requested along the way, one per event.
pub open spec fn correr(s: EstadoMigracion, eventos: Seq<EventoMigracion>) -> (EstadoMigracion, Seq<AccionMigracion>)
    decreases eventos.len(),
{
    if eventos.len() == 0 {
        (s, Seq::empty())
    } else {
        let (s1, a) = paso_spec(s, eventos[0]);
        let (sf, resto) = correr(s1, eventos.drop_first());
        (sf, seq![a] + resto)
    }
}

/// `k` successes in a row.
pub open spec fn hechos(k: nat) -> Seq<EventoMigracion> {
    Seq::new(k, |i: int| EventoMigracion::Hecho)
}

/// The actions for rows `i` up to `n` (exclusive): for each row, insert,
/// mark, log.
pub open spec fn acciones_filas(i: nat, n: nat) -> Seq<AccionMigracion>
    decreases n - i,
{
    if i >= n {
        Seq::empty()
    } else {
        seq![
            AccionMigracion::InsertarDocumento(i as usize),
            AccionMigracion::MarcarMigrado(i as usize),
            AccionMigracion::RegistrarId(i as usize),
        ] + acciones_filas(i + 1, n)
    }
}

/// The actions after the last row.
pub open spec fn acciones_cierre(conteo: i64) -> Seq<AccionMigracion> {
    if conteo > 0 {
        seq![AccionMigracion::EscribirSeparacion, AccionMigracion::Finalizar]
    } else {
        seq![AccionMigracion::Finalizar]
    }
}

/// How many successes a run with `filas` rows needs after preparation.
pub open spec fn exitos_necesarios(conteo: i64, filas: nat) -> nat {
    3 * filas + if conteo > 0 { 1nat } else { 0nat }
}

proof fn lema_hechos_primero(k: nat)
    requires
        k > 0,
    ensures
        hechos(k)[0] == EventoMigracion::Hecho,
        hechos(k).drop_first() == hechos((k - 1) as nat),
{
    assert(hechos(k).drop_first() =~= hechos((k - 1) as nat));
}

proof fn lema_cierre(s: EstadoMigracion)
    requires
        s.fase == FaseMigracion::Registrando || s.fase == FaseMigracion::Insertando,
    ensures
        correr(cierre(s).0, hechos(if s.conteo > 0 { 1nat } else { 0nat })).0.fase == FaseMigracion::Terminada,
        seq![cierre(s).1] + correr(cierre(s).0, hechos(if s.conteo > 0 { 1nat } else { 0nat })).1
            == acciones_cierre(s.conteo),
{
    let c = cierre(s);
    if s.conteo > 0 {
        lema_hechos_primero(1);
        let (s2, a2) = paso_spec(c.0, EventoMigracion::Hecho);
        assert(s2.fase == FaseMigracion::Terminada);
        assert(a2 == AccionMigracion::Finalizar);
        assert(correr(s2, hechos(0)) == (s2, Seq::<AccionMigracion>::empty()));
        assert(correr(c.0, hechos(1)).1 =~= seq![AccionMigracion::Finalizar]);
        assert(seq![c.1] + correr(c.0, hechos(1)).1 =~= acciones_cierre(s.conteo));
    } else {
        assert(correr(c.0, hechos(0)) == (c.0, Seq::<AccionMigracion>::empty()));
        assert(seq![c.1] + correr(c.0, hechos(0)).1 =~= acciones_cierre(s.conteo));
    }
}

proof fn lema_desde_fila(s: EstadoMigracion)
    requires
        s.fase == FaseMigracion::Insertando,
        s.indice < s.filas,
    ensures
        correr(s, hechos((exitos_necesarios(s.conteo, s.filas as nat) - 3 * s.indice) as nat)).0.fase
            == FaseMigracion::Terminada,
        seq![AccionMigracion::InsertarDocumento(s.indice)]
            + correr(s, hechos((exitos_necesarios(s.conteo, s.filas as nat) - 3 * s.indice) as nat)).1
            == acciones_filas(s.indice as nat, s.filas as nat) + acciones_cierre(s.conteo),
    decreases s.filas - s.indice,
{
    let c: nat = if s.conteo > 0 { 1nat } else { 0nat };
    let m: nat = (exitos_necesarios(s.conteo, s.filas as nat) - 3 * s.indice) as nat;
    assert(m == 3 * (s.filas - s.indice) + c);
    let i = s.indice;
    // insert done: mark
    lema_hechos_primero(m);
    let s1 = EstadoMigracion { fase: FaseMigracion::Marcando, ..s };
    assert(paso_spec(s, EventoMigracion::Hecho) == (s1, AccionMigracion::MarcarMigrado(i)));
    // mark done: log
    lema_hechos_primero((m - 1) as nat);
    let s2 = EstadoMigracion { fase: FaseMigracion::Registrando, ..s };
    assert(paso_spec(s1, EventoMigracion::Hecho) == (s2, AccionMigracion::RegistrarId(i)));
    // log done: next row or close
    lema_hechos_primero((m - 2) as nat);
    let r3 = paso_spec(s2, EventoMigracion::Hecho);
    let resto = correr(r3.0, hechos((m - 3) as nat));
    assert(correr(s2, hechos((m - 2) as nat)) == (resto.0, seq![r3.1] + resto.1));
    assert(correr(s1, hechos((m - 1) as nat)) == (resto.0, seq![AccionMigracion::RegistrarId(i)] + (seq![r3.1] + resto.1)));
    assert(correr(s, hechos(m)) == (resto.0, seq![AccionMigracion::MarcarMigrado(i)] + (seq![AccionMigracion::RegistrarId(i)] + (seq![r3.1] + resto.1))));
    assert(acciones_filas(i as nat, s.filas as nat) == seq![
        AccionMigracion::InsertarDocumento(i),
        AccionMigracion::MarcarMigrado(i),
        AccionMigracion::RegistrarId(i),
    ] + acciones_filas(i as nat + 1, s.filas as nat));
    if i + 1 < s.filas {
        let s3 = EstadoMigracion { fase: FaseMigracion::Insertando, indice: (i + 1) as usize, ..s };
        assert(r3 == (s3, AccionMigracion::InsertarDocumento((i + 1) as usize)));
        assert((exitos_necesarios(s.conteo, s.filas as nat) - 3 * s3.indice) as nat == (m - 3) as nat);
        lema_desde_fila(s3);
        assert(seq![AccionMigracion::InsertarDocumento(i)] + correr(s, hechos(m)).1 =~= acciones_filas(
            i as nat,
            s.filas as nat,
        ) + acciones_cierre(s.conteo));
    } else {
        assert(r3 == cierre(s2));
        assert((m - 3) as nat == c);
        lema_cierre(s2);
        assert(acciones_filas(i as nat + 1, s.filas as nat) =~= Seq::<AccionMigracion>::empty());
        assert(seq![AccionMigracion::InsertarDocumento(i)] + correr(s, hechos(m)).1 =~= acciones_filas(
            i as nat,
            s.filas as nat,
        ) + acciones_cierre(s.conteo));
    }
}

/// A run in which every action succeeds does, for each row in order, insert
/// its document, mark it migrated, and log its id; then it writes the
/// separator exactly when pending rows were counted, and finishes.
pub proof fn ley_migracion_completa(conteo: i64, filas: usize)
    ensures
        correr(
            inicio_spec(),
            seq![EventoMigracion::Preparada { conteo, filas }] + hechos(exitos_necesarios(conteo, filas as nat)),
        ).0.fase == FaseMigracion::Terminada,
        correr(
            inicio_spec(),
            seq![EventoMigracion::Preparada { conteo, filas }] + hechos(exitos_necesarios(conteo, filas as nat)),
        ).1 == acciones_filas(0, filas as nat) + acciones_cierre(conteo),
{
    let evs = seq![EventoMigracion::Preparada { conteo, filas }] + hechos(exitos_necesarios(conteo, filas as nat));
    assert(evs[0] == EventoMigracion::Preparada { conteo, filas });
    assert(evs.drop_first() =~= hechos(exitos_necesarios(conteo, filas as nat)));
    let s0 = EstadoMigracion { fase: FaseMigracion::Insertando, indice: 0, filas, conteo };
    let r1 = paso_spec(inicio_spec(), evs[0]);
    let resto = correr(r1.0, hechos(exitos_necesarios(conteo, filas as nat)));
    assert(correr(inicio_spec(), evs) == (resto.0, seq![r1.1] + resto.1));
    if filas > 0 {
        assert(r1 == (s0, AccionMigracion::InsertarDocumento(0)));
        lema_desde_fila(s0);
        assert(correr(inicio_spec(), evs).1 =~= acciones_filas(0, filas as nat) + acciones_cierre(conteo));
    } else {
        assert(r1 == cierre(s0));
        lema_cierre(s0);
        assert(acciones_filas(0, 0) =~= Seq::<AccionMigracion>::empty());
        assert(correr(inicio_spec(), evs).1 =~= acciones_filas(0, filas as nat) + acciones_cierre(conteo));
    }
}

/// Whether an action marks a row as migrated.
pub open spec fn es_marca(a: AccionMigracion) -> bool {
    a is MarcarMigrado
}

/// Every row marked as migrated had its document inserted earlier in the run.
pub open spec fn marcas_tras_insercion(acciones: Seq<AccionMigracion>) -> bool {
    forall|k: int|
        0 <= k < acciones.len() && es_marca(#[trigger] acciones[k]) ==> exists|j: int|
            0 <= j < k && acciones[j] == AccionMigracion::InsertarDocumento(acciones[k]->MarcarMigrado_0)
}

/// Rows are marked in strictly increasing order, so no row is marked twice.
pub open spec fn marcas_crecientes(acciones: Seq<AccionMigracion>) -> bool {
    forall|k1: int, k2: int|
        0 <= k1 < k2 < acciones.len() && es_marca(#[trigger] acciones[k1]) && es_marca(#[trigger] acciones[k2])
            ==> acciones[k1]->MarcarMigrado_0 < acciones[k2]->MarcarMigrado_0
}

spec fn marcas_acotadas(s: EstadoMigracion, previas: Seq<AccionMigracion>) -> bool {
    forall|k: int|
        0 <= k < previas.len() && es_marca(#[trigger] previas[k]) ==> {
            &&& s.fase != FaseMigracion::Preparando
            &&& s.fase == FaseMigracion::Insertando ==> previas[k]->MarcarMigrado_0 < s.indice
            &&& (s.fase == FaseMigracion::Marcando || s.fase == FaseMigracion::Registrando)
                ==> previas[k]->MarcarMigrado_0 <= s.indice
        }
}

spec fn invariante_marcas(s: EstadoMigracion, previas: Seq<AccionMigracion>) -> bool {
    &&& marcas_tras_insercion(previas)
    &&& marcas_crecientes(previas)
    &&& marcas_acotadas(s, previas)
    &&& s.fase == FaseMigracion::Insertando ==> exists|j: int|
        0 <= j < previas.len() && previas[j] == AccionMigracion::InsertarDocumento(s.indice)
}

proof fn lema_paso_marcas(s: EstadoMigracion, e: EventoMigracion, previas: Seq<AccionMigracion>)
    requires
        invariante_marcas(s, previas),
    ensures
        invariante_marcas(paso_spec(s, e).0, previas.push(paso_spec(s, e).1)),
{
    let (s1, a) = paso_spec(s, e);
    let nuevas = previas.push(a);
    assert forall|k: int| 0 <= k < previas.len() implies #[trigger] nuevas[k] == previas[k] by {}
    assert(nuevas[previas.len() as int] == a);
    if es_marca(a) {
        assert(s.fase == FaseMigracion::Insertando && a == AccionMigracion::MarcarMigrado(s.indice));
        let j = choose|j: int| 0 <= j < previas.len() && previas[j] == AccionMigracion::InsertarDocumento(s.indice);
        assert(nuevas[j] == AccionMigracion::InsertarDocumento(s.indice));
        assert forall|k: int|
            0 <= k < nuevas.len() && es_marca(#[trigger] nuevas[k]) implies exists|j: int|
                0 <= j < k && nuevas[j] == AccionMigracion::InsertarDocumento(nuevas[k]->MarcarMigrado_0) by {
            if k < previas.len() {
                let j2 = choose|j2: int| 0 <= j2 < k && previas[j2] == AccionMigracion::InsertarDocumento(previas[k]->MarcarMigrado_0);
                assert(nuevas[j2] == previas[j2]);
            } else {
                assert(nuevas[j] == AccionMigracion::InsertarDocumento(s.indice));
            }
        }
        assert forall|k1: int, k2: int|
            0 <= k1 < k2 < nuevas.len() && es_marca(#[trigger] nuevas[k1]) && es_marca(#[trigger] nuevas[k2])
                implies nuevas[k1]->MarcarMigrado_0 < nuevas[k2]->MarcarMigrado_0 by {
            assert(previas[k1] == nuevas[k1]);
            if k2 < previas.len() {
                assert(previas[k2] == nuevas[k2]);
            }
        }
        assert(marcas_acotadas(s1, nuevas));
    } else {
        assert forall|k: int|
            0 <= k < nuevas.len() && es_marca(#[trigger] nuevas[k]) implies exists|j: int|
                0 <= j < k && nuevas[j] == AccionMigracion::InsertarDocumento(nuevas[k]->MarcarMigrado_0) by {
            assert(k < previas.len());
            let j2 = choose|j2: int| 0 <= j2 < k && previas[j2] == AccionMigracion::InsertarDocumento(previas[k]->MarcarMigrado_0);
            assert(nuevas[j2] == previas[j2]);
        }
        assert forall|k1: int, k2: int|
            0 <= k1 < k2 < nuevas.len() && es_marca(#[trigger] nuevas[k1]) && es_marca(#[trigger] nuevas[k2])
                implies nuevas[k1]->MarcarMigrado_0 < nuevas[k2]->MarcarMigrado_0 by {
            assert(k2 < previas.len());
            assert(previas[k1] == nuevas[k1]);
            assert(previas[k2] == nuevas[k2]);
        }
        assert forall|k: int| 0 <= k < nuevas.len() && es_marca(#[trigger] nuevas[k]) implies {
            &&& s1.fase != FaseMigracion::Preparando
            &&& s1.fase == FaseMigracion::Insertando ==> nuevas[k]->MarcarMigrado_0 < s1.indice
            &&& (s1.fase == FaseMigracion::Marcando || s1.fase == FaseMigracion::Registrando)
                ==> nuevas[k]->MarcarMigrado_0 <= s1.indice
        } by {
            assert(k < previas.len());
            assert(previas[k] == nuevas[k]);
        }
        if s1.fase == FaseMigracion::Insertando {
            if s.fase == FaseMigracion::Insertando && s1 == s {
                let j = choose|j: int| 0 <= j < previas.len() && previas[j] == AccionMigracion::InsertarDocumento(s.indice);
                assert(nuevas[j] == previas[j]);
            } else {
                assert(a == AccionMigracion::InsertarDocumento(s1.indice));
            }
        }
    }
}

proof fn lema_correr_marcas(s: EstadoMigracion, eventos: Seq<EventoMigracion>, previas: Seq<AccionMigracion>)
    requires
        invariante_marcas(s, previas),
    ensures
        invariante_marcas(correr(s, eventos).0, previas + correr(s, eventos).1),
    decreases eventos.len(),
{
    if eventos.len() == 0 {
        assert(previas + correr(s, eventos).1 =~= previas);
    } else {
        let (s1, a) = paso_spec(s, eventos[0]);
        lema_paso_marcas(s, eventos[0], previas);
        lema_correr_marcas(s1, eventos.drop_first(), previas.push(a));
        assert(previas.push(a) + correr(s1, eventos.drop_first()).1 =~= previas + correr(s, eventos).1);
    }
}

/// Whatever the outside world reports, a run never marks a row as migrated
/// in MySQL unless that row's document was inserted into MongoDB earlier in
/// the run, and it marks rows in strictly increasing order, so no row twice.
pub proof fn ley_marca_tras_insercion(eventos: Seq<EventoMigracion>)
    ensures
        marcas_tras_insercion(correr(inicio_spec(), eventos).1),
        marcas_crecientes(correr(inicio_spec(), eventos).1),
{
    let vacia = Seq::<AccionMigracion>::empty();
    lema_correr_marcas(inicio_spec(), eventos, vacia);
    assert(vacia + correr(inicio_spec(), eventos).1 =~= correr(inicio_spec(), eventos).1);
}

/// The state of a run that failed in state `s`.
pub open spec fn fallida(s: EstadoMigracion) -> EstadoMigracion {
    EstadoMigracion { fase: FaseMigracion::Fallida, ..s }
}

/// `n` requests to do nothing.
pub open spec fn ningunas(n: nat) -> Seq<AccionMigracion> {
    Seq::new(n, |i: int| AccionMigracion::Ninguna)
}

/// A failure of the preparation, an insert or a mark stops the run: it
/// aborts at once, and from then on it stays failed and requests nothing,
/// whatever is reported.
pub proof fn ley_fallo_definitivo(s: EstadoMigracion, eventos: Seq<EventoMigracion>)
    requires
        puede_fallar(s.fase),
    ensures
        correr(s, seq![EventoMigracion::Fallo] + eventos).0 == fallida(s),
        correr(s, seq![EventoMigracion::Fallo] + eventos).1 == seq![AccionMigracion::Abortar] + ningunas(eventos.len()),
    decreases eventos.len(),
{
    let f = fallida(s);
    let evs = seq![EventoMigracion::Fallo] + eventos;
    assert(evs[0] == EventoMigracion::Fallo);
    assert(evs.drop_first() =~= eventos);
    lema_fallida_quieta(f, eventos);
}

proof fn lema_fallida_quieta(f: EstadoMigracion, eventos: Seq<EventoMigracion>)
    requires
        f.fase == FaseMigracion::Fallida,
    ensures
        correr(f, eventos).0 == f,
        correr(f, eventos).1 == ningunas(eventos.len()),
    decreases eventos.len(),
{
    if eventos.len() == 0 {
        assert(correr(f, eventos).1 =~= ningunas(eventos.len()));
    } else {
        lema_fallida_quieta(f, eventos.drop_first());
        assert(correr(f, eventos).1 =~= ningunas(eventos.len()));
    }
}

/// Whether an action logs a row's id.
pub open spec fn es_registro(a: AccionMigracion) -> bool {
    a is RegistrarId
}

/// Every logged id belongs to a row that was marked as migrated earlier in
/// the run.
pub open spec fn registros_tras_marca(acciones: Seq<AccionMigracion>) -> bool {
    forall|k: int|
        0 <= k < acciones.len() && es_registro(#[trigger] acciones[k]) ==> exists|j: int|
            0 <= j < k && acciones[j] == AccionMigracion::MarcarMigrado(acciones[k]->RegistrarId_0)
}

/// Every logged id belongs to a row whose document was inserted earlier in
/// the run.
pub open spec fn registros_tras_insercion(acciones: Seq<AccionMigracion>) -> bool {
    forall|k: int|
        0 <= k < acciones.len() && es_registro(#[trigger] acciones[k]) ==> exists|j: int|
            0 <= j < k && acciones[j] == AccionMigracion::InsertarDocumento(acciones[k]->RegistrarId_0)
}

/// Ids are logged in strictly increasing row order, so no id twice.
pub open spec fn registros_crecientes(acciones: Seq<AccionMigracion>) -> bool {
    forall|k1: int, k2: int|
        0 <= k1 < k2 < acciones.len() && es_registro(#[trigger] acciones[k1]) && es_registro(
            #[trigger] acciones[k2],
        ) ==> acciones[k1]->RegistrarId_0 < acciones[k2]->RegistrarId_0
}

spec fn registros_acotados(s: EstadoMigracion, previas: Seq<AccionMigracion>) -> bool {
    forall|k: int|
        0 <= k < previas.len() && es_registro(#[trigger] previas[k]) ==> {
            &&& s.fase != FaseMigracion::Preparando
            &&& (s.fase == FaseMigracion::Insertando || s.fase == FaseMigracion::Marcando)
                ==> previas[k]->RegistrarId_0 < s.indice
            &&& s.fase == FaseMigracion::Registrando ==> previas[k]->RegistrarId_0 <= s.indice
        }
}

spec fn invariante_registros(s: EstadoMigracion, previas: Seq<AccionMigracion>) -> bool {
    &&& registros_tras_marca(previas)
    &&& registros_crecientes(previas)
    &&& registros_acotados(s, previas)
    &&& s.fase == FaseMigracion::Marcando ==> exists|j: int|
        0 <= j < previas.len() && previas[j] == AccionMigracion::MarcarMigrado(s.indice)
}

proof fn lema_paso_registros(s: EstadoMigracion, e: EventoMigracion, previas: Seq<AccionMigracion>)
    requires
        invariante_registros(s, previas),
    ensures
        invariante_registros(paso_spec(s, e).0, previas.push(paso_spec(s, e).1)),
{
    let (s1, a) = paso_spec(s, e);
    let nuevas = previas.push(a);
    assert forall|k: int| 0 <= k < previas.len() implies #[trigger] nuevas[k] == previas[k] by {}
    assert(nuevas[previas.len() as int] == a);
    if es_registro(a) {
        assert(s.fase == FaseMigracion::Marcando && a == AccionMigracion::RegistrarId(s.indice));
        let j = choose|j: int| 0 <= j < previas.len() && previas[j] == AccionMigracion::MarcarMigrado(s.indice);
        assert(nuevas[j] == AccionMigracion::MarcarMigrado(s.indice));
        assert forall|k: int|
            0 <= k < nuevas.len() && es_registro(#[trigger] nuevas[k]) implies exists|j: int|
                0 <= j < k && nuevas[j] == AccionMigracion::MarcarMigrado(nuevas[k]->RegistrarId_0) by {
            if k < previas.len() {
                let j2 = choose|j2: int| 0 <= j2 < k && previas[j2] == AccionMigracion::MarcarMigrado(previas[k]->RegistrarId_0);
                assert(nuevas[j2] == previas[j2]);
            } else {
                assert(nuevas[j] == AccionMigracion::MarcarMigrado(s.indice));
            }
        }
        assert forall|k1: int, k2: int|
            0 <= k1 < k2 < nuevas.len() && es_registro(#[trigger] nuevas[k1]) && es_registro(#[trigger] nuevas[k2])
                implies nuevas[k1]->RegistrarId_0 < nuevas[k2]->RegistrarId_0 by {
            assert(previas[k1] == nuevas[k1]);
            if k2 < previas.len() {
                assert(previas[k2] == nuevas[k2]);
            }
        }
        assert(registros_acotados(s1, nuevas));
    } else {
        assert forall|k: int|
            0 <= k < nuevas.len() && es_registro(#[trigger] nuevas[k]) implies exists|j: int|
                0 <= j < k && nuevas[j] == AccionMigracion::MarcarMigrado(nuevas[k]->RegistrarId_0) by {
            assert(k < previas.len());
            let j2 = choose|j2: int| 0 <= j2 < k && previas[j2] == AccionMigracion::MarcarMigrado(previas[k]->RegistrarId_0);
            assert(nuevas[j2] == previas[j2]);
        }
        assert forall|k1: int, k2: int|
            0 <= k1 < k2 < nuevas.len() && es_registro(#[trigger] nuevas[k1]) && es_registro(#[trigger] nuevas[k2])
                implies nuevas[k1]->RegistrarId_0 < nuevas[k2]->RegistrarId_0 by {
            assert(k2 < previas.len());
            assert(previas[k1] == nuevas[k1]);
            assert(previas[k2] == nuevas[k2]);
        }
        assert forall|k: int| 0 <= k < nuevas.len() && es_registro(#[trigger] nuevas[k]) implies {
            &&& s1.fase != FaseMigracion::Preparando
            &&& (s1.fase == FaseMigracion::Insertando || s1.fase == FaseMigracion::Marcando)
                ==> nuevas[k]->RegistrarId_0 < s1.indice
            &&& s1.fase == FaseMigracion::Registrando ==> nuevas[k]->RegistrarId_0 <= s1.indice
        } by {
            assert(k < previas.len());
            assert(previas[k] == nuevas[k]);
        }
        if s1.fase == FaseMigracion::Marcando {
            if s.fase == FaseMigracion::Marcando && s1 == s {
                let j = choose|j: int| 0 <= j < previas.len() && previas[j] == AccionMigracion::MarcarMigrado(s.indice);
                assert(nuevas[j] == previas[j]);
            } else {
                assert(a == AccionMigracion::MarcarMigrado(s1.indice));
            }
        }
    }
}

proof fn lema_correr_registros(s: EstadoMigracion, eventos: Seq<EventoMigracion>, previas: Seq<AccionMigracion>)
    requires
        invariante_registros(s, previas),
    ensures
        invariante_registros(correr(s, eventos).0, previas + correr(s, eventos).1),
    decreases eventos.len(),
{
    if eventos.len() == 0 {
        assert(previas + correr(s, eventos).1 =~= previas);
    } else {
        let (s1, a) = paso_spec(s, eventos[0]);
        lema_paso_registros(s, eventos[0], previas);
        lema_correr_registros(s1, eventos.drop_first(), previas.push(a));
        assert(previas.push(a) + correr(s1, eventos.drop_first()).1 =~= previas + correr(s, eventos).1);
    }
}

/// Whatever the outside world reports, a run logs a row's id only after it
/// marked that row as migrated and, before that, inserted its document; and
/// it logs ids in strictly increasing row order, so no id twice.
pub proof fn ley_registro_tras_marca(eventos: Seq<EventoMigracion>)
    ensures
        registros_tras_marca(correr(inicio_spec(), eventos).1),
        registros_tras_insercion(correr(inicio_spec(), eventos).1),
        registros_crecientes(correr(inicio_spec(), eventos).1),
{
    let vacia = Seq::<AccionMigracion>::empty();
    let acciones = correr(inicio_spec(), eventos).1;
    lema_correr_registros(inicio_spec(), eventos, vacia);
    assert(vacia + acciones =~= acciones);
    ley_marca_tras_insercion(eventos);
    assert forall|k: int| 0 <= k < acciones.len() && es_registro(#[trigger] acciones[k]) implies exists|j: int|
        0 <= j < k && acciones[j] == AccionMigracion::InsertarDocumento(acciones[k]->RegistrarId_0) by {
        let j = choose|j: int| 0 <= j < k && acciones[j] == AccionMigracion::MarcarMigrado(acciones[k]->RegistrarId_0);
        assert(es_marca(acciones[j]));
        let j2 = choose|j2: int| 0 <= j2 < j && acciones[j2] == AccionMigracion::InsertarDocumento(acciones[j]->MarcarMigrado_0);
    }
}

/// A row's id is logged only in answer to the success of marking that very
/// row as migrated.
pub proof fn ley_registro_tras_marca_confirmada(s: EstadoMigracion, e: EventoMigracion, i: usize)
    ensures
        paso_spec(s, e).1 == AccionMigracion::RegistrarId(i) ==> s.fase == FaseMigracion::Marcando && s.indice
            == i && e == EventoMigracion::Hecho,
{
}

/// A run that finds no pending row (none counted, none read) inserts,
/// marks, logs and separates nothing: it finishes at once. So running the
/// migration again after a complete run changes nothing.
pub proof fn ley_sin_pendientes()
    ensures
        correr(inicio_spec(), seq![EventoMigracion::Preparada { conteo: 0, filas: 0 }]).0.fase
            == FaseMigracion::Terminada,
        correr(inicio_spec(), seq![EventoMigracion::Preparada { conteo: 0, filas: 0 }]).1
            == seq![AccionMigracion::Finalizar],
{
    let evs = seq![EventoMigracion::Preparada { conteo: 0, filas: 0 }];
    assert(evs[0] == EventoMigracion::Preparada { conteo: 0, filas: 0 });
    let r1 = paso_spec(inicio_spec(), evs[0]);
    assert(r1.0.fase == FaseMigracion::Terminada && r1.1 == AccionMigracion::Finalizar);
    assert(evs.drop_first() =~= Seq::<EventoMigracion>::empty());
    assert(correr(r1.0, evs.drop_first()) == (r1.0, Seq::<AccionMigracion>::empty()));
    assert(correr(inicio_spec(), evs).1 =~= seq![AccionMigracion::Finalizar]);
}

} // verus!
