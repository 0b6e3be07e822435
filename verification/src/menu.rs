use vstd::prelude::*;
use vstd::string::*;

verus! {

/// The three kinds of migration the menu offers.
#[derive(Debug, Clone, Copy, PartialEq, Eq)]
pub enum OpcionMigracion {
    /// Migrate every pending row ("Migrar").
    Completa,
    /// Migrate in batches ("Migrar por lote").
    PorLote,
    /// Trial migration of the first rows only ("Prueba").
    Prueba,
}

/// Where the interactive menu stands.
#[derive(Debug, Clone, Copy, PartialEq, Eq)]
pub enum EstadoMenu {
    /// The menu is shown and a choice is awaited.
    Menu,
    /// The user is asked to confirm the chosen migration.
    Confirmando(OpcionMigracion),
    /// The chosen migration is running.
    Migrando(OpcionMigracion),
    /// The outcome was shown; a key press is awaited before leaving.
    EsperandoTecla,
    /// The program leaves the menu.
    Terminado,
}

/// What the terminal reports back to the menu.
#[derive(Debug, Clone, Copy, PartialEq, Eq)]
pub enum EventoMenu {
    /// The user chose the entry with this index.
    Seleccion(usize),
    /// The user answered the confirmation question.
    Confirmacion(bool),
    /// The migration finished, successfully or not.
    MigracionTerminada(bool),
    /// The user pressed a key.
    TeclaPulsada,
}

/// What the menu asks the terminal to do next.
#[derive(Debug, Clone, Copy, PartialEq, Eq)]
pub enum AccionMenu {
    /// Show the menu and read a choice.
    MostrarMenu,
    /// Ask the user to confirm this migration.
    PedirConfirmacion(OpcionMigracion),
    /// Run this migration.
    EjecutarMigracion(OpcionMigracion),
    /// Report the outcome (success when `true`), then wait for a key.
    InformarResultado(bool),
    /// Report that the operation was cancelled; the program leaves.
    Cancelar,
    /// Report an invalid choice, then show the menu again.
    OpcionInvalida,
    /// Leave.
    Salir,
    /// Nothing to do (the event did not fit the state).
    Ninguna,
}

/// The migration behind a menu entry, if the entry is one.
pub open spec fn opcion_de_indice(i: usize) -> Option<OpcionMigracion> {
    if i == 0 {
        Some(OpcionMigracion::Completa)
    } else if i == 1 {
        Some(OpcionMigracion::PorLote)
    } else if i == 2 {
        Some(OpcionMigracion::Prueba)
    } else {
        None
    }
}

/// One step of the menu.
pub open spec fn paso_menu_spec(s: EstadoMenu, e: EventoMenu) -> (EstadoMenu, AccionMenu) {
    match (s, e) {
        (EstadoMenu::Menu, EventoMenu::Seleccion(i)) => match opcion_de_indice(i) {
            Some(op) => (EstadoMenu::Confirmando(op), AccionMenu::PedirConfirmacion(op)),
            None => if i == 3 {
                (EstadoMenu::Terminado, AccionMenu::Cancelar)
            } else {
                (EstadoMenu::Menu, AccionMenu::OpcionInvalida)
            },
        },
        (EstadoMenu::Confirmando(op), EventoMenu::Confirmacion(si)) => if si {
            (EstadoMenu::Migrando(op), AccionMenu::EjecutarMigracion(op))
        } else {
            (EstadoMenu::Menu, AccionMenu::MostrarMenu)
        },
        (EstadoMenu::Migrando(_), EventoMenu::MigracionTerminada(ok)) => (
            EstadoMenu::EsperandoTecla,
            AccionMenu::InformarResultado(ok),
        ),
        (EstadoMenu::EsperandoTecla, EventoMenu::TeclaPulsada) => (EstadoMenu::Terminado, AccionMenu::Salir),
        _ => (s, AccionMenu::Ninguna),
    }
}

/// The menu's initial state and first action.
pub fn inicio_menu() -> (r: (EstadoMenu, AccionMenu))
    ensures
        r == (EstadoMenu::Menu, AccionMenu::MostrarMenu),
{
    (EstadoMenu::Menu, AccionMenu::MostrarMenu)
}

fn opcion_de_indice_exec(i: usize) -> (r: Option<OpcionMigracion>)
    ensures
        r == opcion_de_indice(i),
{
    if i == 0 {
        Some(OpcionMigracion::Completa)
    } else if i == 1 {
        Some(OpcionMigracion::PorLote)
    } else if i == 2 {
        Some(OpcionMigracion::Prueba)
    } else {
        None
    }
}

/// Advances the menu by one event: returns the next state and the action.
pub fn paso_menu(s: EstadoMenu, e: EventoMenu) -> (r: (EstadoMenu, AccionMenu))
    ensures
        r == paso_menu_spec(s, e),
{
    match (s, e) {
        (EstadoMenu::Menu, EventoMenu::Seleccion(i)) => match opcion_de_indice_exec(i) {
            Some(op) => (EstadoMenu::Confirmando(op), AccionMenu::PedirConfirmacion(op)),
            None => if i == 3 {
                (EstadoMenu::Terminado, AccionMenu::Cancelar)
            } else {
                (EstadoMenu::Menu, AccionMenu::OpcionInvalida)
            },
        },
        (EstadoMenu::Confirmando(op), EventoMenu::Confirmacion(si)) => if si {
            (EstadoMenu::Migrando(op), AccionMenu::EjecutarMigracion(op))
        } else {
            (EstadoMenu::Menu, AccionMenu::MostrarMenu)
        },
        (EstadoMenu::Migrando(_), EventoMenu::MigracionTerminada(ok)) => (
            EstadoMenu::EsperandoTecla,
            AccionMenu::InformarResultado(ok),
        ),
        (EstadoMenu::EsperandoTecla, EventoMenu::TeclaPulsada) => (EstadoMenu::Terminado, AccionMenu::Salir),
        _ => (s, AccionMenu::Ninguna),
    }
}

/// The entries of the menu, in order.
pub open spec fn opciones_menu_spec() -> Seq<Seq<char>> {
    seq!["Migrar"@, "Migrar por lote"@, "Prueba"@, "Salir"@]
}

/// Builds the entries of the menu.
pub fn opciones_menu() -> (r: Vec<String>)
    ensures
        r@.map_values(|s: String| s@) == opciones_menu_spec(),
{
    let mut r: Vec<String> = Vec::new();
    r.push("Migrar".to_owned());
    r.push("Migrar por lote".to_owned());
    r.push("Prueba".to_owned());
    r.push("Salir".to_owned());
    assert(r@.map_values(|s: String| s@) =~= opciones_menu_spec());
    r
}

/// The configuration variable whose value the confirmation question of a
/// migration quotes, if any: the batch size or the trial limit.
pub open spec fn variable_de_opcion_spec(op: OpcionMigracion) -> Option<Seq<char>> {
    match op {
        OpcionMigracion::Completa => None,
        OpcionMigracion::PorLote => Some("lote"@),
        OpcionMigracion::Prueba => Some("limite_test"@),
    }
}

/// Returns the configuration variable that the confirmation of `op` quotes.
pub fn variable_de_opcion(op: OpcionMigracion) -> (r: Option<&'static str>)
    ensures
        match r {
            Some(v) => variable_de_opcion_spec(op) == Some(v@),
            None => variable_de_opcion_spec(op) is None,
        },
{
    match op {
        OpcionMigracion::Completa => None,
        OpcionMigracion::PorLote => Some("lote"),
        OpcionMigracion::Prueba => Some("limite_test"),
    }
}

/// The confirmation question of a migration, quoting `valor` (the value of
/// its variable) where it has one.
pub open spec fn mensaje_confirmacion_spec(op: OpcionMigracion, valor: Seq<char>) -> Seq<char> {
    match op {
        OpcionMigracion::Completa => "¿Estás seguro de iniciar la migración?"@,
        OpcionMigracion::PorLote => "¿Estás seguro de iniciar la migración? por lotes de : "@ + valor
            + " registros"@,
        OpcionMigracion::Prueba => "¿Estás seguro de iniciar la prueba de migración? Solo los primeros: "@
            + valor + " registros"@,
    }
}

/// Builds the confirmation question of a migration.
pub fn mensaje_confirmacion(op: OpcionMigracion, valor: &str) -> (r: String)
    ensures
        r@ == mensaje_confirmacion_spec(op, valor@),
{
    match op {
        OpcionMigracion::Completa => "¿Estás seguro de iniciar la migración?".to_owned(),
        OpcionMigracion::PorLote => {
            let mut m = "¿Estás seguro de iniciar la migración? por lotes de : ".to_owned();
            m.append(valor);
            m.append(" registros");
            m
        },
        OpcionMigracion::Prueba => {
            let mut m = "¿Estás seguro de iniciar la prueba de migración? Solo los primeros: ".to_owned();
            m.append(valor);
            m.append(" registros");
            m
        },
    }
}

/// Runs the menu over a sequence of events: the final state and the actions
/// requested along the way, one per event.
pub open spec fn correr_menu(s: EstadoMenu, eventos: Seq<EventoMenu>) -> (EstadoMenu, Seq<AccionMenu>)
    decreases eventos.len(),
{
    if eventos.len() == 0 {
        (s, Seq::empty())
    } else {
        let (s1, a) = paso_menu_spec(s, eventos[0]);
        let (sf, resto) = correr_menu(s1, eventos.drop_first());
        (sf, seq![a] + resto)
    }
}

/// How many migrations a sequence of actions runs.
pub open spec fn migraciones(acciones: Seq<AccionMenu>) -> nat
    decreases acciones.len(),
{
    if acciones.len() == 0 {
        0
    } else {
        (if acciones[0] is EjecutarMigracion { 1nat } else { 0nat }) + migraciones(acciones.drop_first())
    }
}

/// A migration is run exactly when the user confirmed it: the step that
/// runs a migration is the answer "yes" to the question about that very
/// migration.
pub proof fn ley_migracion_confirmada(s: EstadoMenu, e: EventoMenu, op: OpcionMigracion)
    ensures
        paso_menu_spec(s, e).1 == AccionMenu::EjecutarMigracion(op) <==> (s == EstadoMenu::Confirmando(op)
            && e == EventoMenu::Confirmacion(true)),
{
}

spec fn migraciones_posibles(s: EstadoMenu) -> nat {
    match s {
        EstadoMenu::Menu => 1,
        EstadoMenu::Confirmando(_) => 1,
        _ => 0,
    }
}

proof fn lema_migraciones(s: EstadoMenu, eventos: Seq<EventoMenu>)
    ensures
        migraciones(correr_menu(s, eventos).1) <= migraciones_posibles(s),
    decreases eventos.len(),
{
    if eventos.len() > 0 {
        let (s1, a) = paso_menu_spec(s, eventos[0]);
        lema_migraciones(s1, eventos.drop_first());
        let acts = correr_menu(s, eventos).1;
        assert(acts[0] == a);
        assert(acts.drop_first() =~= correr_menu(s1, eventos.drop_first()).1);
    }
}

/// A session runs at most one migration, whatever the user does: after a
/// migration the menu only reports, waits for a key and leaves.
pub proof fn ley_una_migracion_por_sesion(eventos: Seq<EventoMenu>)
    ensures
        migraciones(correr_menu(EstadoMenu::Menu, eventos).1) <= 1,
{
    lema_migraciones(EstadoMenu::Menu, eventos);
}

/// Once the menu is left, it stays left and requests nothing more.
pub proof fn ley_salida_definitiva(e: EventoMenu)
    ensures
        paso_menu_spec(EstadoMenu::Terminado, e) == (EstadoMenu::Terminado, AccionMenu::Ninguna),
{
}

/// The menu is left only by choosing "Salir" (entry 3) at the menu, or by
/// the key press that follows the report of a migration.
pub proof fn ley_salida_solo_por_salir_o_tras_migrar(s: EstadoMenu, e: EventoMenu)
    ensures
        paso_menu_spec(s, e).0 == EstadoMenu::Terminado && s != EstadoMenu::Terminado ==> (s == EstadoMenu::Menu
            && e == EventoMenu::Seleccion(3)) || (s == EstadoMenu::EsperandoTecla && e
            == EventoMenu::TeclaPulsada),
        paso_menu_spec(s, e).0 == EstadoMenu::EsperandoTecla && s != EstadoMenu::EsperandoTecla ==> (
        s is Migrando && e is MigracionTerminada),
{
}

/// Choosing "Salir" at the menu leaves it at once, and confirming a migration
/// leads, once it finished and a key was pressed, out of the menu: the
/// migration runs, its outcome is reported, and the menu is left.
pub proof fn ley_salida_tras_confirmar(op: OpcionMigracion, ok: bool)
    ensures
        paso_menu_spec(EstadoMenu::Menu, EventoMenu::Seleccion(3)) == (EstadoMenu::Terminado, AccionMenu::Cancelar),
        correr_menu(
            EstadoMenu::Confirmando(op),
            seq![EventoMenu::Confirmacion(true), EventoMenu::MigracionTerminada(ok), EventoMenu::TeclaPulsada],
        ).0 == EstadoMenu::Terminado,
        correr_menu(
            EstadoMenu::Confirmando(op),
            seq![EventoMenu::Confirmacion(true), EventoMenu::MigracionTerminada(ok), EventoMenu::TeclaPulsada],
        ).1 == seq![AccionMenu::EjecutarMigracion(op), AccionMenu::InformarResultado(ok), AccionMenu::Salir],
{
    let evs = seq![EventoMenu::Confirmacion(true), EventoMenu::MigracionTerminada(ok), EventoMenu::TeclaPulsada];
    let e1 = evs.drop_first();
    let e2 = e1.drop_first();
    let e3 = e2.drop_first();
    assert(evs[0] == EventoMenu::Confirmacion(true));
    assert(e1[0] == EventoMenu::MigracionTerminada(ok));
    assert(e2[0] == EventoMenu::TeclaPulsada);
    assert(e3.len() == 0);
    assert(correr_menu(EstadoMenu::Terminado, e3) == (EstadoMenu::Terminado, Seq::<AccionMenu>::empty()));
    assert(correr_menu(EstadoMenu::EsperandoTecla, e2).1 =~= seq![AccionMenu::Salir]);
    assert(correr_menu(EstadoMenu::Migrando(op), e1).1 =~= seq![AccionMenu::InformarResultado(ok), AccionMenu::Salir]);
    assert(correr_menu(EstadoMenu::Confirmando(op), evs).1 =~= seq![
        AccionMenu::EjecutarMigracion(op),
        AccionMenu::InformarResultado(ok),
        AccionMenu::Salir,
    ]);
}

/// Whether some action cancels or runs a migration.
pub open spec fn cancela_o_migra(acciones: Seq<AccionMenu>) -> bool {
    exists|k: int| 0 <= k < acciones.len() && (acciones[k] == AccionMenu::Cancelar || acciones[k] is EjecutarMigracion)
}

spec fn migro(acciones: Seq<AccionMenu>) -> bool {
    exists|k: int| 0 <= k < acciones.len() && acciones[k] is EjecutarMigracion
}

spec fn invariante_salida(s: EstadoMenu, previas: Seq<AccionMenu>) -> bool {
    &&& (s is Migrando || s == EstadoMenu::EsperandoTecla) ==> migro(previas)
    &&& s == EstadoMenu::Terminado ==> cancela_o_migra(previas)
}

proof fn lema_correr_salida(s: EstadoMenu, eventos: Seq<EventoMenu>, previas: Seq<AccionMenu>)
    requires
        invariante_salida(s, previas),
    ensures
        invariante_salida(correr_menu(s, eventos).0, previas + correr_menu(s, eventos).1),
    decreases eventos.len(),
{
    if eventos.len() == 0 {
        assert(previas + correr_menu(s, eventos).1 =~= previas);
    } else {
        let (s1, a) = paso_menu_spec(s, eventos[0]);
        let nuevas = previas.push(a);
        assert(nuevas[previas.len() as int] == a);
        if migro(previas) {
            let k = choose|k: int| 0 <= k < previas.len() && previas[k] is EjecutarMigracion;
            assert(nuevas[k] == previas[k]);
        }
        if cancela_o_migra(previas) {
            let k = choose|k: int| 0 <= k < previas.len() && (previas[k] == AccionMenu::Cancelar || previas[k] is EjecutarMigracion);
            assert(nuevas[k] == previas[k]);
        }
        assert(invariante_salida(s1, nuevas));
        lema_correr_salida(s1, eventos.drop_first(), nuevas);
        assert(nuevas + correr_menu(s1, eventos.drop_first()).1 =~= previas + correr_menu(s, eventos).1);
    }
}

/// Whatever the user does, when a session ends the user has either chosen
/// "Salir" or confirmed a migration that then ran.
pub proof fn ley_salida_requiere_cancelar_o_migrar(eventos: Seq<EventoMenu>)
    ensures
        correr_menu(EstadoMenu::Menu, eventos).0 == EstadoMenu::Terminado ==> cancela_o_migra(
            correr_menu(EstadoMenu::Menu, eventos).1,
        ),
{
    let vacia = Seq::<AccionMenu>::empty();
    lema_correr_salida(EstadoMenu::Menu, eventos, vacia);
    assert(vacia + correr_menu(EstadoMenu::Menu, eventos).1 =~= correr_menu(EstadoMenu::Menu, eventos).1);
}

/// The menu's transitions: entries 0, 1 and 2 ask to confirm the full, the
/// batch and the trial migration; entry 3 cancels and leaves; any other
/// entry is reported invalid and the menu stays. Declining a confirmation,
/// whichever migration it was about, shows the menu again; accepting runs
/// that migration; its end is reported; the key press after it leaves.
pub proof fn ley_tabla_menu(op: OpcionMigracion, i: usize, ok: bool)
    ensures
        paso_menu_spec(EstadoMenu::Menu, EventoMenu::Seleccion(0)) == (
            EstadoMenu::Confirmando(OpcionMigracion::Completa),
            AccionMenu::PedirConfirmacion(OpcionMigracion::Completa),
        ),
        paso_menu_spec(EstadoMenu::Menu, EventoMenu::Seleccion(1)) == (
            EstadoMenu::Confirmando(OpcionMigracion::PorLote),
            AccionMenu::PedirConfirmacion(OpcionMigracion::PorLote),
        ),
        paso_menu_spec(EstadoMenu::Menu, EventoMenu::Seleccion(2)) == (
            EstadoMenu::Confirmando(OpcionMigracion::Prueba),
            AccionMenu::PedirConfirmacion(OpcionMigracion::Prueba),
        ),
        paso_menu_spec(EstadoMenu::Menu, EventoMenu::Seleccion(3)) == (EstadoMenu::Terminado, AccionMenu::Cancelar),
        i > 3 ==> paso_menu_spec(EstadoMenu::Menu, EventoMenu::Seleccion(i)) == (
            EstadoMenu::Menu,
            AccionMenu::OpcionInvalida,
        ),
        paso_menu_spec(EstadoMenu::Confirmando(op), EventoMenu::Confirmacion(false)) == (
            EstadoMenu::Menu,
            AccionMenu::MostrarMenu,
        ),
        paso_menu_spec(EstadoMenu::Confirmando(op), EventoMenu::Confirmacion(true)) == (
            EstadoMenu::Migrando(op),
            AccionMenu::EjecutarMigracion(op),
        ),
        paso_menu_spec(EstadoMenu::Migrando(op), EventoMenu::MigracionTerminada(ok)) == (
            EstadoMenu::EsperandoTecla,
            AccionMenu::InformarResultado(ok),
        ),
        paso_menu_spec(EstadoMenu::EsperandoTecla, EventoMenu::TeclaPulsada) == (
            EstadoMenu::Terminado,
            AccionMenu::Salir,
        ),
{
}

/// The batch and trial questions quote the variable's value unchanged
/// between their fixed opening and the closing " registros"; the full
/// migration's question quotes nothing.
pub proof fn ley_mensaje_cita_valor(v: Seq<char>, w: Seq<char>)
    ensures
        mensaje_confirmacion_spec(OpcionMigracion::PorLote, v).len() == 54 + v.len() + 10,
        mensaje_confirmacion_spec(OpcionMigracion::PorLote, v).subrange(54, 54 + v.len() as int) == v,
        mensaje_confirmacion_spec(OpcionMigracion::PorLote, v).subrange(54 + v.len() as int, 64 + v.len() as int)
            == " registros"@,
        mensaje_confirmacion_spec(OpcionMigracion::Prueba, v).len() == 68 + v.len() + 10,
        mensaje_confirmacion_spec(OpcionMigracion::Prueba, v).subrange(68, 68 + v.len() as int) == v,
        mensaje_confirmacion_spec(OpcionMigracion::Prueba, v).subrange(68 + v.len() as int, 78 + v.len() as int)
            == " registros"@,
        mensaje_confirmacion_spec(OpcionMigracion::Completa, v) == mensaje_confirmacion_spec(
            OpcionMigracion::Completa,
            w,
        ),
{
    reveal_strlit("¿Estás seguro de iniciar la migración? por lotes de : ");
    reveal_strlit("¿Estás seguro de iniciar la prueba de migración? Solo los primeros: ");
    reveal_strlit(" registros");
    let a = "¿Estás seguro de iniciar la migración? por lotes de : "@;
    let b = "¿Estás seguro de iniciar la prueba de migración? Solo los primeros: "@;
    let z = " registros"@;
    assert((a + v + z).subrange(54, 54 + v.len() as int) =~= v);
    assert((a + v + z).subrange(54 + v.len() as int, 64 + v.len() as int) =~= z);
    assert((b + v + z).subrange(68, 68 + v.len() as int) =~= v);
    assert((b + v + z).subrange(68 + v.len() as int, 78 + v.len() as int) =~= z);
}

} // verus!
