use migrador::menu::{
    inicio_menu, mensaje_confirmacion, opciones_menu, paso_menu, variable_de_opcion, AccionMenu, EstadoMenu,
    EventoMenu, OpcionMigracion,
};

fn correr(eventos: &[EventoMenu]) -> (EstadoMenu, Vec<AccionMenu>) {
    let (mut s, _) = inicio_menu();
    let mut acciones = Vec::new();
    for e in eventos {
        let (s1, a) = paso_menu(s, *e);
        s = s1;
        acciones.push(a);
    }
    (s, acciones)
}

use migrador::menu::AccionMenu::{
    Cancelar, EjecutarMigracion, InformarResultado, MostrarMenu, Ninguna, OpcionInvalida, PedirConfirmacion, Salir,
};
use migrador::menu::EventoMenu::{Confirmacion, MigracionTerminada, Seleccion, TeclaPulsada};

#[test]
fn menu_empieza_mostrando_opciones() {
    assert_eq!(inicio_menu(), (EstadoMenu::Menu, MostrarMenu));
    assert_eq!(opciones_menu(), vec!["Migrar", "Migrar por lote", "Prueba", "Salir"]);
}

#[test]
fn migracion_confirmada() {
    let (s, acciones) = correr(&[Seleccion(0), Confirmacion(true), MigracionTerminada(true), TeclaPulsada]);
    assert_eq!(s, EstadoMenu::Terminado);
    assert_eq!(
        acciones,
        vec![
            PedirConfirmacion(OpcionMigracion::Completa),
            EjecutarMigracion(OpcionMigracion::Completa),
            InformarResultado(true),
            Salir,
        ]
    );
}

#[test]
fn migracion_rechazada_vuelve_al_menu() {
    let (s, acciones) = correr(&[Seleccion(1), Confirmacion(false), Seleccion(2), Confirmacion(true), MigracionTerminada(false)]);
    assert_eq!(s, EstadoMenu::EsperandoTecla);
    assert_eq!(
        acciones,
        vec![
            PedirConfirmacion(OpcionMigracion::PorLote),
            MostrarMenu,
            PedirConfirmacion(OpcionMigracion::Prueba),
            EjecutarMigracion(OpcionMigracion::Prueba),
            InformarResultado(false),
        ]
    );
}

#[test]
fn salir_cancela() {
    let (s, acciones) = correr(&[Seleccion(3), Seleccion(0), Confirmacion(true)]);
    assert_eq!(s, EstadoMenu::Terminado);
    assert_eq!(acciones, vec![Cancelar, Ninguna, Ninguna]);
}

#[test]
fn opcion_invalida_vuelve_al_menu() {
    let (s, acciones) = correr(&[Seleccion(7), Seleccion(3)]);
    assert_eq!(s, EstadoMenu::Terminado);
    assert_eq!(acciones, vec![OpcionInvalida, Cancelar]);
}

#[test]
fn una_sola_migracion_por_sesion() {
    let (_, acciones) = correr(&[
        Seleccion(0),
        Confirmacion(true),
        Seleccion(0),
        Confirmacion(true),
        MigracionTerminada(true),
        Seleccion(1),
        Confirmacion(true),
        TeclaPulsada,
        Seleccion(0),
        Confirmacion(true),
    ]);
    let n = acciones.iter().filter(|a| matches!(a, EjecutarMigracion(_))).count();
    assert_eq!(n, 1);
}

#[test]
fn variables_de_las_opciones() {
    assert_eq!(variable_de_opcion(OpcionMigracion::Completa), None);
    assert_eq!(variable_de_opcion(OpcionMigracion::PorLote), Some("lote"));
    assert_eq!(variable_de_opcion(OpcionMigracion::Prueba), Some("limite_test"));
}

#[test]
fn mensajes_de_confirmacion() {
    assert_eq!(mensaje_confirmacion(OpcionMigracion::Completa, "x"), "¿Estás seguro de iniciar la migración?");
    assert_eq!(
        mensaje_confirmacion(OpcionMigracion::PorLote, "500"),
        "¿Estás seguro de iniciar la migración? por lotes de : 500 registros"
    );
    assert_eq!(
        mensaje_confirmacion(OpcionMigracion::Prueba, "10"),
        "¿Estás seguro de iniciar la prueba de migración? Solo los primeros: 10 registros"
    );
}

#[test]
fn salida_solo_por_salir_o_tras_migrar() {
    let (s, acciones) = correr(&[Seleccion(5), Seleccion(2), Confirmacion(false), Seleccion(3)]);
    assert_eq!(s, EstadoMenu::Terminado);
    assert_eq!(acciones.last(), Some(&Cancelar));
    let (s, acciones) = correr(&[Seleccion(1), Confirmacion(true), TeclaPulsada, MigracionTerminada(true), TeclaPulsada]);
    assert_eq!(s, EstadoMenu::Terminado);
    assert_eq!(
        acciones,
        vec![
            PedirConfirmacion(OpcionMigracion::PorLote),
            EjecutarMigracion(OpcionMigracion::PorLote),
            Ninguna,
            InformarResultado(true),
            Salir,
        ]
    );
    let (s, _) = correr(&[Seleccion(0), Confirmacion(false), TeclaPulsada]);
    assert_eq!(s, EstadoMenu::Menu);
}
